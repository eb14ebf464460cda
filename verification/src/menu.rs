//! A minimal three-row menu machine: Up cycles the rows one way, Down the
//! other, and Nop leaves the row alone.

use vstd::prelude::*;

verus! {

/// The three menu rows.
#[derive(Clone, Copy, Debug, PartialEq, Eq, Structural)]
pub enum DisplayState {
    Row1,
    Row2,
    Row3,
}

/// The vocabulary the row machine accepts.
#[derive(Clone, Copy, Debug, PartialEq, Eq, Structural)]
pub enum Message {
    Up,
    Down,
    Nop,
}

/// The row cycle: Up walks Row1 -> Row3 -> Row2 -> Row1, Down walks the
/// opposite way, Nop stays put.
pub open spec fn spec_menu_next(s: DisplayState, m: Message) -> DisplayState {
    match (s, m) {
        (DisplayState::Row1, Message::Up) => DisplayState::Row3,
        (DisplayState::Row1, Message::Down) => DisplayState::Row2,
        (DisplayState::Row2, Message::Up) => DisplayState::Row1,
        (DisplayState::Row2, Message::Down) => DisplayState::Row3,
        (DisplayState::Row3, Message::Up) => DisplayState::Row2,
        (DisplayState::Row3, Message::Down) => DisplayState::Row1,
        (_, Message::Nop) => s,
    }
}

/// Owner of the current row; mutated only through `dispatch`.
#[derive(Clone, Copy, Debug, PartialEq, Eq, Structural)]
pub struct DisplayStateMachine {
    pub current_state: DisplayState,
}

impl DisplayStateMachine {
    pub fn init(initial_state: DisplayState) -> (m: DisplayStateMachine)
        ensures
            m.current_state == initial_state,
    {
        DisplayStateMachine { current_state: initial_state }
    }

    /// Advance the row by one message, exactly as the cycle says.
    pub fn dispatch(&mut self, msg: Message)
        ensures
            final(self).current_state == spec_menu_next(old(self).current_state, msg),
    {
        match (self.current_state, msg) {
            (DisplayState::Row1, Message::Up) => self.current_state = DisplayState::Row3,
            (DisplayState::Row1, Message::Down) => self.current_state = DisplayState::Row2,
            (DisplayState::Row2, Message::Up) => self.current_state = DisplayState::Row1,
            (DisplayState::Row2, Message::Down) => self.current_state = DisplayState::Row3,
            (DisplayState::Row3, Message::Up) => self.current_state = DisplayState::Row2,
            (DisplayState::Row3, Message::Down) => self.current_state = DisplayState::Row1,
            (_, Message::Nop) => {},
        }
    }
}

} // verus!
