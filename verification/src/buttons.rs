//! Symmetric majority-style debounce for one mechanical input line: the
//! logical class changes only after `threshold` consecutive contrary raw
//! samples, so contact bounce shorter than `threshold` poll periods is
//! absorbed and never surfaces.

use vstd::prelude::*;

verus! {

/// Logical edge reported by one debounce poll: the line rose into the high
/// class, fell into the low class, or kept its class.
#[derive(Clone, Copy, Debug, PartialEq, Eq, Structural)]
pub enum PinState {
    PinUp,
    PinDown,
    Nothing,
}

/// The filter's stable class, carrying the count of consecutive contrary raw
/// samples seen since the class was entered.
#[derive(Clone, Copy, Debug, PartialEq, Eq, Structural)]
pub enum ButtonState {
    High(u8),
    Low(u8),
}

/// One debounced input line: its stable class plus the configured number of
/// consecutive contrary samples that must be seen before the class changes.
#[derive(Clone, Copy, Debug, PartialEq, Eq, Structural)]
pub struct Button {
    pub state: ButtonState,
    pub threshold: u8,
}

pub open spec fn counter_of(s: ButtonState) -> u8 {
    match s {
        ButtonState::High(c) => c,
        ButtonState::Low(c) => c,
    }
}

/// Counter update of one poll: a sample that agrees with the current class
/// clears the contrary count, a contrary sample raises it by one.
pub open spec fn spec_bump(s: ButtonState, raw: bool) -> ButtonState
    recommends
        counter_of(s) < u8::MAX,
{
    match s {
        ButtonState::High(c) => if raw {
            ButtonState::High(0)
        } else {
            ButtonState::High((c + 1) as u8)
        },
        ButtonState::Low(c) => if raw {
            ButtonState::Low((c + 1) as u8)
        } else {
            ButtonState::Low(0)
        },
    }
}

/// The state after one poll: once the contrary count reaches the threshold
/// the class flips and the count restarts at zero.
pub open spec fn spec_poll_state(s: ButtonState, threshold: u8, raw: bool) -> ButtonState
    recommends
        counter_of(s) < threshold,
{
    match spec_bump(s, raw) {
        ButtonState::High(c) => if c >= threshold {
            ButtonState::Low(0)
        } else {
            ButtonState::High(c)
        },
        ButtonState::Low(c) => if c >= threshold {
            ButtonState::High(0)
        } else {
            ButtonState::Low(c)
        },
    }
}

/// The edge reported by one poll: the flip out of Low reports a rise, the
/// flip out of High reports a fall, anything else reports no change.
pub open spec fn spec_poll_edge(s: ButtonState, threshold: u8, raw: bool) -> PinState
    recommends
        counter_of(s) < threshold,
{
    match spec_bump(s, raw) {
        ButtonState::High(c) => if c >= threshold {
            PinState::PinDown
        } else {
            PinState::Nothing
        },
        ButtonState::Low(c) => if c >= threshold {
            PinState::PinUp
        } else {
            PinState::Nothing
        },
    }
}

impl Button {
    /// Between polls the contrary count stays strictly under the threshold,
    /// so the increment inside `poll` can never overflow the counter.
    pub open spec fn wf(self) -> bool {
        1 <= self.threshold && counter_of(self.state) < self.threshold
    }

    /// A fresh filter starts in the high class with no contrary samples seen.
    pub fn new(threshold: u8) -> (b: Button)
        requires
            1 <= threshold,
        ensures
            b.wf(),
            b.state == ButtonState::High(0),
            b.threshold == threshold,
    {
        Button { state: ButtonState::High(0), threshold }
    }

    /// One debounce step on a raw sample. The filter never fails: it only
    /// classifies the sample into an edge or no change.
    pub fn poll(&mut self, raw: bool) -> (edge: PinState)
        requires
            old(self).wf(),
        ensures
            final(self).wf(),
            final(self).threshold == old(self).threshold,
            final(self).state == spec_poll_state(old(self).state, old(self).threshold, raw),
            edge == spec_poll_edge(old(self).state, old(self).threshold, raw),
    {
        let bumped = match (self.state, raw) {
            (ButtonState::High(_), true) => ButtonState::High(0),
            (ButtonState::High(c), false) => ButtonState::High(c + 1),
            (ButtonState::Low(c), true) => ButtonState::Low(c + 1),
            (ButtonState::Low(_), false) => ButtonState::Low(0),
        };
        match bumped {
            ButtonState::High(c) => {
                if c >= self.threshold {
                    self.state = ButtonState::Low(0);
                    PinState::PinDown
                } else {
                    self.state = ButtonState::High(c);
                    PinState::Nothing
                }
            },
            ButtonState::Low(c) => {
                if c >= self.threshold {
                    self.state = ButtonState::High(0);
                    PinState::PinUp
                } else {
                    self.state = ButtonState::Low(c);
                    PinState::Nothing
                }
            },
        }
    }
}

/// The state after a whole sequence of polls, in order.
pub open spec fn state_after(s: ButtonState, threshold: u8, raws: Seq<bool>) -> ButtonState
    decreases raws.len(),
{
    if raws.len() == 0 {
        s
    } else {
        spec_poll_state(state_after(s, threshold, raws.drop_last()), threshold, raws.last())
    }
}

/// The edge the filter reports at poll `i` of the sequence.
pub open spec fn edge_at(s: ButtonState, threshold: u8, raws: Seq<bool>, i: int) -> PinState
    recommends
        0 <= i < raws.len(),
{
    spec_poll_edge(state_after(s, threshold, raws.take(i)), threshold, raws[i])
}

pub open spec fn same_class(a: ButtonState, b: ButtonState) -> bool {
    a is High <==> b is High
}

/// Each poll raises the contrary count by at most one, so while fewer polls
/// have happened than the threshold leaves room for, the class cannot flip
/// and no edge is reported.
proof fn lemma_counter_bound(s: ButtonState, threshold: u8, raws: Seq<bool>)
    requires
        1 <= threshold,
        counter_of(s) < threshold,
        counter_of(s) + raws.len() < threshold,
    ensures
        counter_of(state_after(s, threshold, raws)) <= counter_of(s) + raws.len(),
        same_class(state_after(s, threshold, raws), s),
        forall|i: int| 0 <= i < raws.len() ==> edge_at(s, threshold, raws, i) == PinState::Nothing,
    decreases raws.len(),
{
    if raws.len() > 0 {
        let head = raws.drop_last();
        lemma_counter_bound(s, threshold, head);
        assert(raws.take(raws.len() - 1) =~= head);
        assert forall|i: int| 0 <= i < raws.len() - 1 implies edge_at(s, threshold, raws, i)
            == PinState::Nothing by {
            assert(raws.take(i) =~= head.take(i));
            assert(raws[i] == head[i]);
            assert(edge_at(s, threshold, head, i) == PinState::Nothing);
        }
    }
}

/// Bounce shorter than the threshold never surfaces: starting with a cleared
/// contrary count, any raw sequence with fewer samples than the threshold —
/// oscillating or not — makes the filter report no change at every poll.
pub proof fn lemma_short_bounce_rejected(b: Button, raws: Seq<bool>)
    requires
        b.wf(),
        counter_of(b.state) == 0,
        raws.len() < b.threshold,
    ensures
        forall|i: int| 0 <= i < raws.len() ==> edge_at(b.state, b.threshold, raws, i)
            == PinState::Nothing,
{
    lemma_counter_bound(b.state, b.threshold, raws);
}

/// After a constant-true sequence from Low with a cleared count, the state is
/// Low with the count equal to the polls seen, until the threshold is
/// reached, after which the state is High with a cleared count.
proof fn lemma_const_true_state(threshold: u8, raws: Seq<bool>)
    requires
        1 <= threshold,
        forall|i: int| 0 <= i < raws.len() ==> raws[i] == true,
    ensures
        state_after(ButtonState::Low(0), threshold, raws) == (if raws.len() < threshold {
            ButtonState::Low(raws.len() as u8)
        } else {
            ButtonState::High(0)
        }),
    decreases raws.len(),
{
    if raws.len() > 0 {
        lemma_const_true_state(threshold, raws.drop_last());
    }
}

/// After a constant-false sequence from High with a cleared count, the state
/// is High with the count equal to the polls seen, until the threshold is
/// reached, after which the state is Low with a cleared count.
proof fn lemma_const_false_state(threshold: u8, raws: Seq<bool>)
    requires
        1 <= threshold,
        forall|i: int| 0 <= i < raws.len() ==> raws[i] == false,
    ensures
        state_after(ButtonState::High(0), threshold, raws) == (if raws.len() < threshold {
            ButtonState::High(raws.len() as u8)
        } else {
            ButtonState::Low(0)
        }),
    decreases raws.len(),
{
    if raws.len() > 0 {
        lemma_const_false_state(threshold, raws.drop_last());
    }
}

/// A raw level held high from the Low class produces exactly one rise, at the
/// poll where the contrary count reaches the threshold, and no change at
/// every other poll, however long the level is held.
pub proof fn lemma_rise_after_threshold(threshold: u8, raws: Seq<bool>)
    requires
        1 <= threshold,
        forall|i: int| 0 <= i < raws.len() ==> raws[i] == true,
    ensures
        forall|i: int| 0 <= i < raws.len() ==> edge_at(ButtonState::Low(0), threshold, raws, i)
            == (if i == threshold - 1 {
                PinState::PinUp
            } else {
                PinState::Nothing
            }),
{
    assert forall|i: int| 0 <= i < raws.len() implies edge_at(ButtonState::Low(0), threshold, raws, i)
        == (if i == threshold - 1 {
            PinState::PinUp
        } else {
            PinState::Nothing
        }) by {
        lemma_const_true_state(threshold, raws.take(i));
    }
}

/// A raw level held low from the High class produces exactly one fall, at the
/// poll where the contrary count reaches the threshold, and no change at
/// every other poll, however long the level is held.
pub proof fn lemma_fall_after_threshold(threshold: u8, raws: Seq<bool>)
    requires
        1 <= threshold,
        forall|i: int| 0 <= i < raws.len() ==> raws[i] == false,
    ensures
        forall|i: int| 0 <= i < raws.len() ==> edge_at(ButtonState::High(0), threshold, raws, i)
            == (if i == threshold - 1 {
                PinState::PinDown
            } else {
                PinState::Nothing
            }),
{
    assert forall|i: int| 0 <= i < raws.len() implies edge_at(ButtonState::High(0), threshold, raws, i)
        == (if i == threshold - 1 {
            PinState::PinDown
        } else {
            PinState::Nothing
        }) by {
        lemma_const_false_state(threshold, raws.take(i));
    }
}

} // verus!
