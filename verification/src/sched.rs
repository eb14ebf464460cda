//! Fixed-priority scheduler core and resource arbitration. Three tasks run
//! on one core: the poll task (highest priority) samples the buttons, the
//! dispatch task (middle) consumes one queued message, advances the screen
//! machine and toggles the shared indicator line inside a critical section,
//! and the refresh task (lowest) re-describes the current screen so the
//! clock stays current between presses. The indicator line is the only
//! datum touched by more than one task; it is guarded by a priority-ceiling
//! discipline: while a critical section on the line is open, the ceiling —
//! the highest priority of any sharer — keeps every other task, the poll
//! task included, from running, so no task can observe a torn value.
//!
//! The environment (timers, display, logger) stays outside: it latches timer
//! ticks through `timer_poll` and `timer_refresh` and grants the processor
//! one micro-step at a time through `advance`, which reports what the core
//! decided as an [`Action`].

use vstd::prelude::*;

use crate::buttons::Button;
use crate::buttons::ButtonState;
use crate::buttons::spec_poll_edge;
use crate::buttons::spec_poll_state;
use crate::router::ButtonId;
use crate::router::route;
use crate::router::spec_route;
use crate::ui::ClockFSM;
use crate::ui::ClockState;
use crate::ui::Msg;
use crate::ui::spec_next;

verus! {

/// Static priority of the button polling task.
pub const PRIO_POLL: u8 = 3;

/// Static priority of the message dispatch task.
pub const PRIO_DISPATCH: u8 = 2;

/// Static priority of the periodic refresh task.
pub const PRIO_REFRESH: u8 = 1;

/// Ceiling of the shared indicator line: the highest priority of any task
/// sharing it, which is the poll task's.
pub const LINE_CEILING: u8 = 3;

/// Bounded FIFO of UI messages from the poll task to the dispatch task.
/// A message offered to a full queue is dropped, never blocks and never
/// halts the device.
pub struct MsgQueue {
    items: Vec<Msg>,
    cap: usize,
}

impl View for MsgQueue {
    type V = Seq<Msg>;

    closed spec fn view(&self) -> Seq<Msg> {
        self.items@
    }
}

impl MsgQueue {
    /// The queue's fixed capacity.
    pub closed spec fn capacity(&self) -> nat {
        self.cap as nat
    }

    pub open spec fn wf(&self) -> bool {
        self@.len() <= self.capacity() && 1 <= self.capacity()
    }

    pub fn new(cap: usize) -> (q: MsgQueue)
        requires
            1 <= cap,
        ensures
            q.wf(),
            q@ == Seq::<Msg>::empty(),
            q.capacity() == cap,
    {
        let q = MsgQueue { items: Vec::new(), cap };
        proof {
            assert(q@ =~= Seq::<Msg>::empty());
        }
        q
    }

    pub fn len(&self) -> (n: usize)
        ensures
            n == self@.len(),
    {
        self.items.len()
    }

    /// Offer one message at the back. Succeeds exactly when the queue has
    /// room; a message offered to a full queue is dropped and the queue is
    /// left as it was.
    pub fn enqueue(&mut self, m: Msg) -> (ok: bool)
        requires
            old(self).wf(),
        ensures
            final(self).wf(),
            final(self).capacity() == old(self).capacity(),
            ok == (old(self)@.len() < old(self).capacity()),
            ok ==> final(self)@ == old(self)@.push(m),
            !ok ==> final(self)@ == old(self)@,
    {
        if self.items.len() < self.cap {
            self.items.push(m);
            true
        } else {
            false
        }
    }

    /// Take the oldest message, if any: messages leave in the order they
    /// were offered.
    pub fn dequeue(&mut self) -> (m: Option<Msg>)
        requires
            old(self).wf(),
        ensures
            final(self).wf(),
            final(self).capacity() == old(self).capacity(),
            old(self)@.len() == 0 ==> m is None && final(self)@ == old(self)@,
            old(self)@.len() > 0 ==> m == Some(old(self)@[0]) && final(self)@ == old(self)@.drop_first(),
    {
        if self.items.len() == 0 {
            None
        } else {
            let m = self.items.remove(0);
            proof {
                assert(self@ =~= old(self)@.drop_first());
            }
            Some(m)
        }
    }
}

/// Raw pin samples of one poll tick, latched when the poll timer fires, in
/// the fixed button order Up, Down, Enter.
#[derive(Clone, Copy, Debug, PartialEq, Eq, Structural)]
pub struct Samples {
    pub up: bool,
    pub down: bool,
    pub enter: bool,
}

/// Where an in-flight dispatch instance stands. `Lock` is about to open the
/// critical section, `Write` is about to scribble the line, `Commit` is
/// about to settle it and close the section, `Render` is about to report the
/// screen to draw and finish.
#[derive(Clone, Copy, Debug, PartialEq, Eq, Structural)]
pub enum Phase {
    Lock,
    Write,
    Commit,
    Render,
}

/// One started, not yet finished run of the dispatch task: the message it
/// consumed and the phase it will execute next.
#[derive(Clone, Copy, Debug, PartialEq, Eq, Structural)]
pub struct DispatchProgress {
    pub msg: Msg,
    pub phase: Phase,
}

/// The shared indicator line. `level` is the raw electrical value;
/// `committed` is the last value a completed critical section set; `settled`
/// is false exactly while a critical section has written the line but not
/// yet committed, the window in which a concurrent reader would see a torn
/// value.
#[derive(Clone, Copy, Debug, PartialEq, Eq, Structural)]
pub struct Line {
    pub level: bool,
    pub committed: bool,
    pub settled: bool,
}

/// What one run of the poll task did: how many messages it queued, how many
/// it had to drop against a full queue, and the line level it observed.
#[derive(Clone, Copy, Debug, PartialEq, Eq, Structural)]
pub struct PollOutcome {
    pub queued: u8,
    pub dropped: u8,
    pub line_level: bool,
}

/// What one micro-step of the core decided. `Idle`: no task was ready.
/// `Polled`: the poll task ran to completion. `Working`: the dispatch task
/// advanced one internal phase. `Render`: a task finished and the
/// environment should draw the given screen (fetching the current time for
/// its contextual text) through `render::describe`.
#[derive(Clone, Copy, Debug, PartialEq, Eq, Structural)]
pub enum Action {
    Idle,
    Polled(PollOutcome),
    Working,
    Render(ClockState),
}

/// The mathematical state of the whole core: the queue's contents and
/// capacity, the screen machine, the shared line, the lock and task
/// bookkeeping, the three debounce filters and the count of messages
/// dropped against a full queue.
#[verifier::ext_equal]
pub struct KernelModel {
    pub queue: Seq<Msg>,
    pub cap: nat,
    pub fsm: ClockState,
    pub line: Line,
    pub lock_held: bool,
    pub dispatch: Option<DispatchProgress>,
    pub poll_ready: Option<Samples>,
    pub refresh_ready: bool,
    pub up: Button,
    pub down: Button,
    pub enter: Button,
    pub dropped: u64,
}

impl KernelModel {
    /// The core's invariant. The lock is held exactly while a dispatch
    /// instance stands before its `Write` or `Commit` phase; the line is
    /// unsettled only in the committing window, which lies inside the locked
    /// region; and a settled line carries exactly the last committed value.
    pub open spec fn inv(self) -> bool {
        &&& self.queue.len() <= self.cap
        &&& 1 <= self.cap
        &&& self.up.wf()
        &&& self.down.wf()
        &&& self.enter.wf()
        &&& (self.lock_held <==> (self.dispatch matches Some(p) && (p.phase is Write
            || p.phase is Commit)))
        &&& (!self.line.settled ==> (self.dispatch matches Some(p) && p.phase is Commit))
        &&& (self.line.settled ==> self.line.level == self.line.committed)
    }
}

/// Saturating add on the drop counter: overload reporting must never itself
/// wrap or halt the device.
pub open spec fn sat_add64(a: u64, n: u64) -> u64 {
    if a + n <= u64::MAX {
        (a + n) as u64
    } else {
        u64::MAX
    }
}

pub open spec fn one_if(b: bool) -> u8 {
    if b {
        1
    } else {
        0
    }
}

/// One button's share of a poll tick: the debounce step and the routed
/// message, if any.
pub open spec fn poll_one(b: Button, raw: bool, id: ButtonId) -> (Button, Option<Msg>) {
    (
        Button { state: spec_poll_state(b.state, b.threshold, raw), threshold: b.threshold },
        spec_route(id, spec_poll_edge(b.state, b.threshold, raw)),
    )
}

/// Offer a routed message to the queue: (new contents, queued?, dropped?).
pub open spec fn enq_model(q: Seq<Msg>, cap: nat, m: Option<Msg>) -> (Seq<Msg>, bool, bool) {
    match m {
        Option::None => (q, false, false),
        Option::Some(msg) => if q.len() < cap {
            (q.push(msg), true, false)
        } else {
            (q, false, true)
        },
    }
}

/// The poll task's whole run: debounce the three buttons in the fixed order
/// Up, Down, Enter, queue each routed message in that order, count what was
/// queued and what the full queue forced to be dropped, and observe the
/// line.
pub open spec fn poll_step_model(m: KernelModel) -> (KernelModel, Action)
    recommends
        m.poll_ready is Some,
{
    let s = m.poll_ready.unwrap();
    let p1 = poll_one(m.up, s.up, ButtonId::Up);
    let p2 = poll_one(m.down, s.down, ButtonId::Down);
    let p3 = poll_one(m.enter, s.enter, ButtonId::Enter);
    let e1 = enq_model(m.queue, m.cap, p1.1);
    let e2 = enq_model(e1.0, m.cap, p2.1);
    let e3 = enq_model(e2.0, m.cap, p3.1);
    let queued = (one_if(e1.1) + one_if(e2.1) + one_if(e3.1)) as u8;
    let lost = (one_if(e1.2) + one_if(e2.2) + one_if(e3.2)) as u8;
    (
        KernelModel {
            queue: e3.0,
            up: p1.0,
            down: p2.0,
            enter: p3.0,
            poll_ready: None,
            dropped: sat_add64(m.dropped, lost as u64),
            ..m
        },
        Action::Polled(PollOutcome { queued, dropped: lost, line_level: m.line.level }),
    )
}

pub open spec fn msg_seq(m: Option<Msg>) -> Seq<Msg> {
    match m {
        Option::Some(x) => seq![x],
        Option::None => Seq::empty(),
    }
}

/// The messages one poll tick routes, in the declared button order Up,
/// Down, Enter.
pub open spec fn routed_msgs(m: KernelModel) -> Seq<Msg>
    recommends
        m.poll_ready is Some,
{
    let s = m.poll_ready.unwrap();
    msg_seq(poll_one(m.up, s.up, ButtonId::Up).1) + msg_seq(
        poll_one(m.down, s.down, ButtonId::Down).1,
    ) + msg_seq(poll_one(m.enter, s.enter, ButtonId::Enter).1)
}

/// Simultaneous presses are a defined tie-break, not an accident: buttons
/// that cross the threshold in the same tick each produce their own
/// message, and whenever the queue has room for all of them they line up
/// behind its contents in the fixed declared order Up, Down, Enter, with
/// nothing dropped.
pub proof fn lemma_same_tick_presses_queue_in_order(m: KernelModel)
    requires
        m.inv(),
        m.poll_ready is Some,
        m.queue.len() + routed_msgs(m).len() <= m.cap,
    ensures
        poll_step_model(m).0.queue == m.queue + routed_msgs(m),
        poll_step_model(m).1 matches Action::Polled(o) && o.dropped == 0 && o.queued
            == routed_msgs(m).len(),
{
    assert(poll_step_model(m).0.queue =~= m.queue + routed_msgs(m));
}

/// The dispatch task starts: it consumes the oldest queued message, advances
/// the screen machine, and heads for the critical section — skipped for
/// Continue, which leaves the line alone.
pub open spec fn dispatch_take_model(m: KernelModel) -> (KernelModel, Action)
    recommends
        m.dispatch is None,
        m.queue.len() > 0,
{
    let msg = m.queue[0];
    let phase = if msg is Continue {
        Phase::Render
    } else {
        Phase::Lock
    };
    (
        KernelModel {
            queue: m.queue.drop_first(),
            fsm: spec_next(m.fsm, msg),
            dispatch: Some(DispatchProgress { msg, phase }),
            ..m
        },
        Action::Working,
    )
}

/// One internal phase of a started dispatch instance. `Lock` raises the
/// ceiling; `Write` scribbles the new level, leaving the line unsettled;
/// `Commit` settles it as the committed value and releases the lock;
/// `Render` finishes, telling the environment which screen to draw.
pub open spec fn dispatch_step_model(m: KernelModel) -> (KernelModel, Action)
    recommends
        m.dispatch is Some,
{
    let p = m.dispatch.unwrap();
    match p.phase {
        Phase::Lock => (
            KernelModel {
                lock_held: true,
                dispatch: Some(DispatchProgress { msg: p.msg, phase: Phase::Write }),
                ..m
            },
            Action::Working,
        ),
        Phase::Write => (
            KernelModel {
                line: Line { level: !m.line.committed, committed: m.line.committed, settled: false },
                dispatch: Some(DispatchProgress { msg: p.msg, phase: Phase::Commit }),
                ..m
            },
            Action::Working,
        ),
        Phase::Commit => (
            KernelModel {
                line: Line { level: m.line.level, committed: m.line.level, settled: true },
                lock_held: false,
                dispatch: Some(DispatchProgress { msg: p.msg, phase: Phase::Render }),
                ..m
            },
            Action::Working,
        ),
        Phase::Render => (KernelModel { dispatch: None, ..m }, Action::Render(m.fsm)),
    }
}

/// The refresh task's whole run: re-describe the current screen, leaving
/// every piece of state but its own readiness alone.
pub open spec fn refresh_step_model(m: KernelModel) -> (KernelModel, Action) {
    (KernelModel { refresh_ready: false, ..m }, Action::Render(m.fsm))
}

/// The three task identities of the fixed-priority set.
#[derive(Clone, Copy, Debug, PartialEq, Eq, Structural)]
pub enum Task {
    Poll,
    Dispatch,
    Refresh,
}

/// Each task's static priority: input polling outranks message dispatch,
/// which outranks the periodic refresh, so input is never starved by
/// display work.
pub open spec fn base_priority(t: Task) -> u8 {
    match t {
        Task::Poll => PRIO_POLL,
        Task::Dispatch => PRIO_DISPATCH,
        Task::Refresh => PRIO_REFRESH,
    }
}

/// The system ceiling: while some task stands in a critical section on the
/// shared line, the line's ceiling; otherwise nothing is fenced.
pub open spec fn active_ceiling(m: KernelModel) -> u8 {
    if m.lock_held {
        LINE_CEILING
    } else {
        0
    }
}

/// The task holding the line's lock, if any. Only the dispatch task ever
/// takes it.
pub open spec fn holder(m: KernelModel) -> Option<Task> {
    if m.lock_held {
        Some(Task::Dispatch)
    } else {
        None
    }
}

/// Whether a task wants the processor: the poll task on a latched tick, the
/// dispatch task while an instance is in flight or a message is queued, the
/// refresh task on its own tick.
pub open spec fn wants_processor(m: KernelModel, t: Task) -> bool {
    match t {
        Task::Poll => m.poll_ready is Some,
        Task::Dispatch => m.dispatch is Some || m.queue.len() > 0,
        Task::Refresh => m.refresh_ready,
    }
}

/// Whether a task may be granted the next micro-step: it must want the
/// processor and either hold the lock itself or outrank the raised ceiling.
pub open spec fn may_run(m: KernelModel, t: Task) -> bool {
    wants_processor(m, t) && (holder(m) == Some(t) || base_priority(t) > active_ceiling(m))
}

/// The scheduler's grant: of the tasks that may run, the one of highest
/// static priority.
pub open spec fn scheduled(m: KernelModel) -> Option<Task> {
    if may_run(m, Task::Poll) {
        Some(Task::Poll)
    } else if may_run(m, Task::Dispatch) {
        Some(Task::Dispatch)
    } else if may_run(m, Task::Refresh) {
        Some(Task::Refresh)
    } else {
        None
    }
}

/// One micro-step of the granted task: the poll and refresh tasks run whole,
/// the dispatch task continues its started instance or starts on the oldest
/// queued message.
pub open spec fn spec_advance(m: KernelModel) -> (KernelModel, Action) {
    match scheduled(m) {
        Some(Task::Poll) => poll_step_model(m),
        Some(Task::Dispatch) => if m.dispatch is Some {
            dispatch_step_model(m)
        } else {
            dispatch_take_model(m)
        },
        Some(Task::Refresh) => refresh_step_model(m),
        None => (m, Action::Idle),
    }
}

/// The grant is by priority: a task that wants the processor but is passed
/// over either ranks no higher than the granted task, or is fenced out by
/// the ceiling of the open critical section it does not hold.
pub proof fn lemma_grant_by_priority(m: KernelModel, t: Task, u: Task)
    requires
        scheduled(m) == Some(t),
        wants_processor(m, u),
        u != t,
    ensures
        base_priority(u) <= base_priority(t) || (base_priority(u) <= active_ceiling(m) && holder(m)
            != Some(u)),
{
}

/// The model of a freshly started core: empty queue, Time screen, line low,
/// settled and committed low, no lock, no task in flight, all filters in the
/// high class with cleared counts, nothing dropped yet.
pub open spec fn init_model(threshold: u8, cap: nat) -> KernelModel {
    KernelModel {
        queue: Seq::empty(),
        cap,
        fsm: ClockState::Time,
        line: Line { level: false, committed: false, settled: true },
        lock_held: false,
        dispatch: None,
        poll_ready: None,
        refresh_ready: false,
        up: Button { state: ButtonState::High(0), threshold },
        down: Button { state: ButtonState::High(0), threshold },
        enter: Button { state: ButtonState::High(0), threshold },
        dropped: 0,
    }
}

/// The executable core: scheduler bookkeeping, the message queue, the screen
/// machine, the three debounce filters and the shared indicator line, all
/// owned here and advanced one micro-step at a time.
pub struct Kernel {
    queue: MsgQueue,
    fsm: ClockFSM,
    line: Line,
    lock_held: bool,
    dispatch: Option<DispatchProgress>,
    poll_ready: Option<Samples>,
    refresh_ready: bool,
    btn_up: Button,
    btn_down: Button,
    btn_enter: Button,
    dropped: u64,
}

impl View for Kernel {
    type V = KernelModel;

    closed spec fn view(&self) -> KernelModel {
        KernelModel {
            queue: self.queue@,
            cap: self.queue.capacity(),
            fsm: self.fsm.state,
            line: self.line,
            lock_held: self.lock_held,
            dispatch: self.dispatch,
            poll_ready: self.poll_ready,
            refresh_ready: self.refresh_ready,
            up: self.btn_up,
            down: self.btn_down,
            enter: self.btn_enter,
            dropped: self.dropped,
        }
    }
}

impl Kernel {
    pub open spec fn wf(self) -> bool {
        self@.inv()
    }

    /// Start the core with the given debounce threshold and queue capacity.
    pub fn new(threshold: u8, cap: usize) -> (k: Kernel)
        requires
            1 <= threshold,
            1 <= cap,
        ensures
            k.wf(),
            k@ == init_model(threshold, cap as nat),
    {
        let k = Kernel {
            queue: MsgQueue::new(cap),
            fsm: ClockFSM::init(ClockState::Time),
            line: Line { level: false, committed: false, settled: true },
            lock_held: false,
            dispatch: None,
            poll_ready: None,
            refresh_ready: false,
            btn_up: Button::new(threshold),
            btn_down: Button::new(threshold),
            btn_enter: Button::new(threshold),
            dropped: 0,
        };
        proof {
            assert(k@ =~= init_model(threshold, cap as nat));
        }
        k
    }

    /// The poll timer fired: latch the raw samples of this tick. A tick that
    /// arrives before the previous one was served replaces its samples — the
    /// poll task always works on the newest levels.
    pub fn timer_poll(&mut self, up: bool, down: bool, enter: bool)
        requires
            old(self).wf(),
        ensures
            final(self).wf(),
            final(self)@ == (KernelModel {
                poll_ready: Some(Samples { up, down, enter }),
                ..old(self)@
            }),
    {
        self.poll_ready = Some(Samples { up, down, enter });
        proof {
            assert(self@ =~= (KernelModel {
                poll_ready: Some(Samples { up, down, enter }),
                ..old(self)@
            }));
        }
    }

    /// The refresh timer fired: mark the refresh task ready.
    pub fn timer_refresh(&mut self)
        requires
            old(self).wf(),
        ensures
            final(self).wf(),
            final(self)@ == (KernelModel { refresh_ready: true, ..old(self)@ }),
    {
        self.refresh_ready = true;
        proof {
            assert(self@ =~= (KernelModel { refresh_ready: true, ..old(self)@ }));
        }
    }

    /// Run one micro-step of the highest-priority ready task, exactly as
    /// `spec_advance` says, and report what it decided.
    pub fn advance(&mut self) -> (a: Action)
        requires
            old(self).wf(),
        ensures
            final(self).wf(),
            final(self)@ == spec_advance(old(self)@).0,
            a == spec_advance(old(self)@).1,
    {
        proof {
            lemma_advance_preserves_inv(old(self)@);
        }
        let pr = self.poll_ready;
        if pr.is_some() && !self.lock_held {
            let s = pr.unwrap();
            let line_level = self.line.level;
            let mut queued: u8 = 0;
            let mut lost: u8 = 0;
            let e1 = self.btn_up.poll(s.up);
            if let Some(m1) = route(ButtonId::Up, e1) {
                if self.queue.enqueue(m1) {
                    queued = queued + 1;
                } else {
                    lost = lost + 1;
                }
            }
            let e2 = self.btn_down.poll(s.down);
            if let Some(m2) = route(ButtonId::Down, e2) {
                if self.queue.enqueue(m2) {
                    queued = queued + 1;
                } else {
                    lost = lost + 1;
                }
            }
            let e3 = self.btn_enter.poll(s.enter);
            if let Some(m3) = route(ButtonId::Enter, e3) {
                if self.queue.enqueue(m3) {
                    queued = queued + 1;
                } else {
                    lost = lost + 1;
                }
            }
            let add = lost as u64;
            self.dropped = if self.dropped <= u64::MAX - add {
                self.dropped + add
            } else {
                u64::MAX
            };
            self.poll_ready = None;
            proof {
                assert(self@ =~= poll_step_model(old(self)@).0);
            }
            return Action::Polled(PollOutcome { queued, dropped: lost, line_level });
        }
        let disp = self.dispatch;
        if let Some(p) = disp {
            match p.phase {
                Phase::Lock => {
                    self.lock_held = true;
                    self.dispatch = Some(DispatchProgress { msg: p.msg, phase: Phase::Write });
                    proof {
                        assert(self@ =~= dispatch_step_model(old(self)@).0);
                    }
                    return Action::Working;
                },
                Phase::Write => {
                    self.line.level = !self.line.committed;
                    self.line.settled = false;
                    self.dispatch = Some(DispatchProgress { msg: p.msg, phase: Phase::Commit });
                    proof {
                        assert(self@ =~= dispatch_step_model(old(self)@).0);
                    }
                    return Action::Working;
                },
                Phase::Commit => {
                    self.line.committed = self.line.level;
                    self.line.settled = true;
                    self.lock_held = false;
                    self.dispatch = Some(DispatchProgress { msg: p.msg, phase: Phase::Render });
                    proof {
                        assert(self@ =~= dispatch_step_model(old(self)@).0);
                    }
                    return Action::Working;
                },
                Phase::Render => {
                    let screen = self.fsm.state;
                    self.dispatch = None;
                    proof {
                        assert(self@ =~= dispatch_step_model(old(self)@).0);
                    }
                    return Action::Render(screen);
                },
            }
        }
        if self.queue.len() > 0 {
            if let Some(msg) = self.queue.dequeue() {
                self.fsm.next_state(msg);
                let phase = if msg == Msg::Continue {
                    Phase::Render
                } else {
                    Phase::Lock
                };
                self.dispatch = Some(DispatchProgress { msg, phase });
                proof {
                    assert(self@ =~= dispatch_take_model(old(self)@).0);
                }
                return Action::Working;
            } else {
                return Action::Idle;
            }
        }
        if self.refresh_ready {
            let screen = self.fsm.state;
            self.refresh_ready = false;
            proof {
                assert(self@ =~= refresh_step_model(old(self)@).0);
            }
            return Action::Render(screen);
        }
        proof {
            assert(self@ =~= old(self)@);
        }
        Action::Idle
    }
}

impl Kernel {
    /// The screen currently shown.
    pub fn mode(&self) -> (s: ClockState)
        ensures
            s == self@.fsm,
    {
        self.fsm.state
    }

    /// How many messages a full queue has forced the core to drop so far.
    pub fn dropped_count(&self) -> (n: u64)
        ensures
            n == self@.dropped,
    {
        self.dropped
    }
}

/// One micro-step from a state satisfying the invariant keeps it, and — the
/// heart of the no-torn-write guarantee — whenever the poll task gets to run
/// and observe the shared line, the line is settled and carries exactly the
/// value the last completed critical section committed.
pub proof fn lemma_advance_preserves_inv(m: KernelModel)
    requires
        m.inv(),
    ensures
        spec_advance(m).0.inv(),
        spec_advance(m).1 matches Action::Polled(o) ==> m.line.settled && o.line_level
            == m.line.committed,
{
}

/// One event the environment can feed the core: a poll timer tick with its
/// latched samples, a refresh timer tick, or a grant of one micro-step of
/// processor time — the last of which is where a higher-priority task gets
/// to preempt a lower one.
#[derive(Clone, Copy, Debug, PartialEq, Eq, Structural)]
pub enum Ev {
    TimerPoll(Samples),
    TimerRefresh,
    Advance,
}

/// What one event does to the model, mirroring `timer_poll`,
/// `timer_refresh` and `advance`.
pub open spec fn spec_event(m: KernelModel, e: Ev) -> (KernelModel, Action) {
    match e {
        Ev::TimerPoll(s) => (KernelModel { poll_ready: Some(s), ..m }, Action::Idle),
        Ev::TimerRefresh => (KernelModel { refresh_ready: true, ..m }, Action::Idle),
        Ev::Advance => spec_advance(m),
    }
}

/// The model after a whole event trace, in order.
pub open spec fn run_evs(m: KernelModel, evs: Seq<Ev>) -> KernelModel
    decreases evs.len(),
{
    if evs.len() == 0 {
        m
    } else {
        spec_event(run_evs(m, evs.drop_last()), evs.last()).0
    }
}

/// The action the core reports at step `i` of the trace.
pub open spec fn action_at(m: KernelModel, evs: Seq<Ev>, i: int) -> Action
    recommends
        0 <= i < evs.len(),
{
    spec_event(run_evs(m, evs.take(i)), evs[i]).1
}

/// The invariant holds along every trace from a state that satisfies it.
pub proof fn lemma_inv_along_trace(m: KernelModel, evs: Seq<Ev>)
    requires
        m.inv(),
    ensures
        run_evs(m, evs).inv(),
    decreases evs.len(),
{
    if evs.len() > 0 {
        lemma_inv_along_trace(m, evs.drop_last());
        if evs.last() is Advance {
            lemma_advance_preserves_inv(run_evs(m, evs.drop_last()));
        }
    }
}

/// No torn write is ever observable: under any interleaving of timer ticks
/// and processor grants — the poll task preempting the dispatch task
/// mid-run included — every level the poll task observes on the shared line
/// is exactly the value the last completed critical section committed, and
/// the line is settled at that moment. The ceiling discipline is what makes
/// this hold: while the dispatch task stands between its write and its
/// commit, the scheduler never lets the poll task run.
pub proof fn lemma_no_torn_observation(m: KernelModel, evs: Seq<Ev>, i: int)
    requires
        m.inv(),
        0 <= i < evs.len(),
    ensures
        action_at(m, evs, i) matches Action::Polled(o) ==> run_evs(m, evs.take(i)).line.settled
            && o.line_level == run_evs(m, evs.take(i)).line.committed,
{
    lemma_inv_along_trace(m, evs.take(i));
    if evs[i] is Advance {
        lemma_advance_preserves_inv(run_evs(m, evs.take(i)));
    }
}

} // verus!
