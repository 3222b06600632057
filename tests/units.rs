use button_debounce::board::{Board, TickOutcome};
use button_debounce::button::{on_edge, poll_release, EdgeAction, PollStep, Trace};
use button_debounce::schedule::{DelayQueue, ScheduleError, DEBOUNCE_DELAY_MS};

#[test]
fn first_edge_is_a_press() {
    let mut pressed = false;
    let a = on_edge(&mut pressed);
    assert!(pressed);
    assert_eq!(
        a,
        EdgeAction { clear_pending: true, toggle_led: true, schedule_debounce: true, trace: Trace::Triggered }
    );
}

#[test]
fn edge_with_flag_set_is_a_bounce() {
    let mut pressed = true;
    let a = on_edge(&mut pressed);
    assert!(pressed);
    assert_eq!(
        a,
        EdgeAction { clear_pending: true, toggle_led: false, schedule_debounce: false, trace: Trace::Bounce }
    );
}

#[test]
fn poll_keeps_flag_while_pressed() {
    let mut pressed = true;
    assert_eq!(poll_release(&mut pressed, true), PollStep::StillPressed);
    assert!(pressed);
    assert_eq!(poll_release(&mut pressed, false), PollStep::Released);
    assert!(!pressed);
}

#[test]
fn second_schedule_is_refused() {
    let mut q = DelayQueue::new();
    assert!(!q.is_pending());
    assert_eq!(q.schedule_after(100, DEBOUNCE_DELAY_MS), Ok(()));
    assert_eq!(q.deadline, Some(600));
    assert_eq!(q.schedule_after(200, DEBOUNCE_DELAY_MS), Err(ScheduleError::AlreadyPending));
    assert_eq!(q.deadline, Some(600));
}

#[test]
fn run_waits_for_deadline() {
    let mut q = DelayQueue::new();
    assert!(!q.take_due(1000));
    q.schedule_after(0, 500).unwrap();
    assert!(!q.take_due(499));
    assert!(q.is_pending());
    assert!(q.take_due(500));
    assert!(!q.is_pending());
    assert!(!q.take_due(501));
}

#[test]
fn handler_clears_pending_line() {
    let mut b = Board::new();
    b.irq_pending = true;
    let a = b.handle_edge(7);
    assert!(!b.irq_pending);
    assert!(a.clear_pending);
    assert_eq!(b.queue.deadline, Some(507));
    b.irq_pending = true;
    let a = b.handle_edge(8);
    assert!(!b.irq_pending);
    assert!(a.clear_pending);
    assert_eq!(a.trace, Trace::Bounce);
    assert_eq!(b.queue.deadline, Some(507));
}

#[test]
fn edge_runs_handler_once() {
    let mut b = Board::new();
    let d = b.edge(0);
    assert_eq!(d.handler_runs, 1);
    assert!(!b.irq_pending);
    let d = b.edge(1);
    assert_eq!(d.handler_runs, 1);
    assert_eq!(d.action.trace, Trace::Bounce);
}

#[test]
fn tick_before_deadline_does_nothing() {
    let mut b = Board::new();
    b.edge(10);
    let before = b;
    let out = b.tick(509, false);
    assert_eq!(out, TickOutcome { dispatched: false, cleared: false });
    assert_eq!(out.trace(), None);
    assert_eq!(b, before);
    let out = b.tick(510, true);
    assert_eq!(out.trace(), Some(Trace::Debounced));
    assert!(b.debouncing);
    assert_eq!(b.queue.deadline, None);
}

#[test]
fn idle_tick_does_nothing() {
    let mut b = Board::new();
    let out = b.tick(u64::MAX, false);
    assert_eq!(out, TickOutcome { dispatched: false, cleared: false });
    assert_eq!(b, Board::new());
}

#[test]
fn latest_allowed_edge_time() {
    let mut b = Board::new();
    let d = b.edge(u64::MAX - DEBOUNCE_DELAY_MS);
    assert!(d.action.toggle_led);
    assert_eq!(b.queue.deadline, Some(u64::MAX));
    let out = b.tick(u64::MAX, false);
    assert!(out.dispatched && out.cleared);
}
