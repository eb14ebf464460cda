use clock_core::sched::Action;
use clock_core::sched::Kernel;
use clock_core::sched::MsgQueue;
use clock_core::sched::PollOutcome;
use clock_core::ui::ClockState;
use clock_core::ui::Msg;

#[test]
fn queue_is_fifo() {
    let mut q = MsgQueue::new(4);
    assert_eq!(q.len(), 0);
    assert!(q.enqueue(Msg::Up));
    assert!(q.enqueue(Msg::Down));
    assert!(q.enqueue(Msg::Continue));
    assert_eq!(q.len(), 3);
    assert_eq!(q.dequeue(), Some(Msg::Up));
    assert_eq!(q.dequeue(), Some(Msg::Down));
    assert_eq!(q.dequeue(), Some(Msg::Continue));
    assert_eq!(q.dequeue(), None);
}

#[test]
fn full_queue_drops_the_offer() {
    let mut q = MsgQueue::new(2);
    assert!(q.enqueue(Msg::Up));
    assert!(q.enqueue(Msg::Down));
    assert!(!q.enqueue(Msg::Continue));
    assert_eq!(q.len(), 2);
    assert_eq!(q.dequeue(), Some(Msg::Up));
    assert!(q.enqueue(Msg::Continue));
    assert_eq!(q.dequeue(), Some(Msg::Down));
    assert_eq!(q.dequeue(), Some(Msg::Continue));
}

// A full walk through the scheduler with debounce threshold 1: a press of Up
// starts the dispatch task; a poll tick that fires while the dispatch task
// stands mid critical section is held back by the ceiling and served only
// after the commit, and the level it then observes is the committed one.
#[test]
fn ceiling_defers_poll_until_commit() {
    let mut k = Kernel::new(1, 4);
    assert_eq!(k.mode(), ClockState::Time);

    // Settle all three buttons into the low class; a fall routes no message.
    k.timer_poll(false, false, false);
    let a = k.advance();
    assert_eq!(
        a,
        Action::Polled(PollOutcome { queued: 0, dropped: 0, line_level: false })
    );

    // Up rises: one message queued; the line still shows the initial level.
    k.timer_poll(true, false, false);
    let a = k.advance();
    assert_eq!(
        a,
        Action::Polled(PollOutcome { queued: 1, dropped: 0, line_level: false })
    );

    // The dispatch task starts on Up and advances the screen to Alarm.
    assert_eq!(k.advance(), Action::Working); // take the message
    assert_eq!(k.mode(), ClockState::Alarm);
    assert_eq!(k.advance(), Action::Working); // lock: ceiling raised
    assert_eq!(k.advance(), Action::Working); // write: line in flux

    // The poll timer fires mid critical section...
    k.timer_poll(true, true, true);
    // ...but the ceiling keeps the poll task out: the commit runs first.
    assert_eq!(k.advance(), Action::Working);

    // Now the poll task preempts the dispatch task (which still owes its
    // render) and observes exactly the committed level: one completed
    // toggle, so true. Down and Enter rise and queue their messages.
    let a = k.advance();
    assert_eq!(
        a,
        Action::Polled(PollOutcome { queued: 2, dropped: 0, line_level: true })
    );

    // The dispatch task finishes and asks for the Alarm screen.
    assert_eq!(k.advance(), Action::Render(ClockState::Alarm));

    // Queued Down: Alarm -> Time, with a second toggle committed back.
    assert_eq!(k.advance(), Action::Working); // take
    assert_eq!(k.mode(), ClockState::Time);
    assert_eq!(k.advance(), Action::Working); // lock
    assert_eq!(k.advance(), Action::Working); // write
    assert_eq!(k.advance(), Action::Working); // commit
    assert_eq!(k.advance(), Action::Render(ClockState::Time));

    // Queued Continue: no critical section, the screen stays.
    assert_eq!(k.advance(), Action::Working); // take
    assert_eq!(k.advance(), Action::Render(ClockState::Time));

    // Nothing left to do.
    assert_eq!(k.advance(), Action::Idle);
    assert_eq!(k.dropped_count(), 0);

    // The refresh task redraws the current screen on its own timer.
    k.timer_refresh();
    assert_eq!(k.advance(), Action::Render(ClockState::Time));
    assert_eq!(k.advance(), Action::Idle);
}

#[test]
fn overflowing_tick_drops_and_counts() {
    let mut k = Kernel::new(1, 1);
    k.timer_poll(false, false, false);
    let a = k.advance();
    assert_eq!(
        a,
        Action::Polled(PollOutcome { queued: 0, dropped: 0, line_level: false })
    );
    // All three buttons rise in one tick; the queue holds one message, so
    // Up is queued in the declared order and Down and Enter are dropped.
    k.timer_poll(true, true, true);
    let a = k.advance();
    assert_eq!(
        a,
        Action::Polled(PollOutcome { queued: 1, dropped: 2, line_level: false })
    );
    assert_eq!(k.dropped_count(), 2);
}

#[test]
fn late_poll_tick_replaces_the_latched_samples() {
    let mut k = Kernel::new(1, 4);
    // Two ticks arrive before the poll task is served: it works on the
    // newest levels, which agree with the buttons' starting class, so no
    // class flips and nothing is queued.
    k.timer_poll(false, false, false);
    k.timer_poll(true, true, true);
    let a = k.advance();
    assert_eq!(
        a,
        Action::Polled(PollOutcome { queued: 0, dropped: 0, line_level: false })
    );
    assert_eq!(k.advance(), Action::Idle);
}

#[test]
fn refresh_waits_for_the_dispatch_task() {
    let mut k = Kernel::new(1, 4);
    k.timer_poll(false, false, false);
    k.advance();
    k.timer_poll(true, false, false); // press Up
    k.advance();
    k.timer_refresh();
    // The dispatch task outranks the refresh task: the refresh runs only
    // after the dispatch instance has fully finished.
    assert_eq!(k.advance(), Action::Working); // take
    assert_eq!(k.advance(), Action::Working); // lock
    assert_eq!(k.advance(), Action::Working); // write
    assert_eq!(k.advance(), Action::Working); // commit
    assert_eq!(k.advance(), Action::Render(ClockState::Alarm)); // dispatch render
    assert_eq!(k.advance(), Action::Render(ClockState::Alarm)); // refresh
    assert_eq!(k.advance(), Action::Idle);
}
