//! Finite state machine of the clock's screens. The transition table is
//! total: every (state, message) pair is defined, the machine never fails and
//! has no terminal state.

use vstd::prelude::*;

verus! {

/// The message vocabulary the screen machine accepts.
#[derive(Clone, Copy, Debug, PartialEq, Eq, Structural)]
pub enum Msg {
    Up,
    Down,
    Continue,
}

/// The fixed set of screens.
#[derive(Clone, Copy, Debug, PartialEq, Eq, Structural)]
pub enum ClockState {
    Time,
    Alarm,
    Image,
}

/// The canonical transition table.
///
/// | state | Up    | Down  | Continue |
/// |-------|-------|-------|----------|
/// | Time  | Alarm | Image | Time     |
/// | Alarm | Image | Time  | Alarm    |
/// | Image | Time  | Time  | Time     |
pub open spec fn spec_next(s: ClockState, m: Msg) -> ClockState {
    match (s, m) {
        (ClockState::Time, Msg::Up) => ClockState::Alarm,
        (ClockState::Time, Msg::Down) => ClockState::Image,
        (ClockState::Time, Msg::Continue) => ClockState::Time,
        (ClockState::Alarm, Msg::Up) => ClockState::Image,
        (ClockState::Alarm, Msg::Down) => ClockState::Time,
        (ClockState::Alarm, Msg::Continue) => ClockState::Alarm,
        (ClockState::Image, _) => ClockState::Time,
    }
}

/// The state reached after consuming a whole message sequence in order.
pub open spec fn run_msgs(s: ClockState, msgs: Seq<Msg>) -> ClockState
    decreases msgs.len(),
{
    if msgs.len() == 0 {
        s
    } else {
        run_msgs(spec_next(s, msgs[0]), msgs.drop_first())
    }
}

/// Owner of the current screen; mutated only through `next_state`.
#[derive(Clone, Copy, Debug, PartialEq, Eq, Structural)]
pub struct ClockFSM {
    pub state: ClockState,
}

impl ClockFSM {
    pub fn init(state: ClockState) -> (m: ClockFSM)
        ensures
            m.state == state,
    {
        ClockFSM { state }
    }

    /// Advance by one message, exactly as the transition table says. The
    /// machine is total and deterministic: the new state is a function of the
    /// old state and the message alone.
    pub fn next_state(&mut self, msg: Msg)
        ensures
            final(self).state == spec_next(old(self).state, msg),
    {
        self.state = match (self.state, msg) {
            (ClockState::Time, Msg::Up) => ClockState::Alarm,
            (ClockState::Time, Msg::Continue) => ClockState::Time,
            (ClockState::Alarm, Msg::Down) => ClockState::Time,
            (ClockState::Alarm, Msg::Up) => ClockState::Image,
            (ClockState::Alarm, Msg::Continue) => ClockState::Alarm,
            (ClockState::Time, Msg::Down) => ClockState::Image,
            (ClockState::Image, _) => ClockState::Time,
        };
    }
}

/// Consuming Continue twice leaves the machine where consuming it once does:
/// Continue is idempotent on the screen.
pub proof fn lemma_continue_idempotent(s: ClockState)
    ensures
        spec_next(spec_next(s, Msg::Continue), Msg::Continue) == spec_next(s, Msg::Continue),
{
}

/// The transition table is strongly connected through Time: every screen is
/// reachable from Time by some message sequence, and from every screen some
/// message sequence returns to Time.
pub proof fn lemma_round_trip_through_time(s: ClockState)
    ensures
        exists|to: Seq<Msg>| run_msgs(ClockState::Time, to) == s,
        exists|back: Seq<Msg>| run_msgs(s, back) == ClockState::Time,
{
    let there: Seq<Msg> = match s {
        ClockState::Time => seq![],
        ClockState::Alarm => seq![Msg::Up],
        ClockState::Image => seq![Msg::Down],
    };
    let home: Seq<Msg> = match s {
        ClockState::Time => seq![],
        ClockState::Alarm => seq![Msg::Down],
        ClockState::Image => seq![Msg::Up],
    };
    assert(there.len() <= 1 && home.len() <= 1);
    reveal_with_fuel(run_msgs, 3);
    assert(there.len() == 1 ==> there.drop_first() =~= Seq::<Msg>::empty());
    assert(home.len() == 1 ==> home.drop_first() =~= Seq::<Msg>::empty());
    assert(run_msgs(ClockState::Time, there) == s);
    assert(run_msgs(s, home) == ClockState::Time);
}

} // verus!
