//! Pure description of what each screen draws. Nothing here touches
//! hardware: `describe` only states the intended output, and the caller owns
//! clearing the surface, executing the command and flushing. A failure of
//! the actual draw is the caller's to report, never this component's.

use vstd::prelude::*;

use crate::ui::ClockState;

verus! {

/// Identity of a stored raw image.
#[derive(Clone, Copy, Debug, PartialEq, Eq, Structural)]
pub enum ImageId {
    Logo,
}

/// One intended output: text at a position, a stored image at a position, or
/// a cleared surface left as it is.
#[derive(Clone, Copy, Debug, PartialEq, Eq)]
pub enum RenderCommand<'a> {
    ShowText(&'a str, i32, i32),
    ShowImage(ImageId, i32, i32),
    Clear,
}

/// What a screen draws, given the optional contextual text (the formatted
/// time stamp): the Time screen shows the stamp when one is given and stays
/// clear otherwise, the Alarm screen shows its fixed label, and the Image
/// screen shows the stored logo.
pub fn describe<'a>(state: ClockState, ctx: Option<&'a str>) -> (c: RenderCommand<'a>)
    ensures
        match (state, ctx) {
            (ClockState::Time, Some(t)) => (c matches RenderCommand::ShowText(text, x, y)
                && text@ == t@ && x == 0 && y == 13),
            (ClockState::Time, None) => c is Clear,
            (ClockState::Alarm, _) => (c matches RenderCommand::ShowText(text, x, y)
                && text@ == "--- Alarm ---"@ && x == 0 && y == 13),
            (ClockState::Image, _) => (c matches RenderCommand::ShowImage(img, x, y)
                && img == ImageId::Logo && x == 32 && y == 0),
        },
{
    match (state, ctx) {
        (ClockState::Time, Some(t)) => RenderCommand::ShowText(t, 0, 13),
        (ClockState::Time, None) => RenderCommand::Clear,
        (ClockState::Alarm, _) => RenderCommand::ShowText("--- Alarm ---", 0, 13),
        (ClockState::Image, _) => RenderCommand::ShowImage(ImageId::Logo, 32, 0),
    }
}

} // verus!
