//! Stateless router from a button identity and a debounced edge to an
//! optional UI message. Only the pressed edge — the edge toward the active
//! level, which this core takes to be high — produces a message; the release
//! edge and no-change polls produce none. Within one poll tick the buttons
//! are evaluated in the fixed order Up, Down, Enter, so simultaneous presses
//! queue their messages in that declared order.

use vstd::prelude::*;

use crate::buttons::PinState;
use crate::ui::Msg;

verus! {

/// Identity of a physical button.
#[derive(Clone, Copy, Debug, PartialEq, Eq, Structural)]
pub enum ButtonId {
    Up,
    Down,
    Enter,
}

/// The routing table: a rise on Up yields Up, a rise on Down yields Down, a
/// rise on Enter yields Continue; every other (button, edge) pair yields
/// nothing.
pub open spec fn spec_route(id: ButtonId, edge: PinState) -> Option<Msg> {
    match (id, edge) {
        (ButtonId::Up, PinState::PinUp) => Some(Msg::Up),
        (ButtonId::Down, PinState::PinUp) => Some(Msg::Down),
        (ButtonId::Enter, PinState::PinUp) => Some(Msg::Continue),
        _ => None,
    }
}

/// Turn one debounced edge of one button into its UI message, if any.
pub fn route(id: ButtonId, edge: PinState) -> (m: Option<Msg>)
    ensures
        m == spec_route(id, edge),
{
    match (id, edge) {
        (ButtonId::Up, PinState::PinUp) => Some(Msg::Up),
        (ButtonId::Down, PinState::PinUp) => Some(Msg::Down),
        (ButtonId::Enter, PinState::PinUp) => Some(Msg::Continue),
        _ => None,
    }
}

} // verus!
