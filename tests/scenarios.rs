use button_debounce::board::{Board, Event, Response, TickOutcome};
use button_debounce::button::Trace;

fn traces_of(responses: &[Response]) -> Vec<Trace> {
    let mut out = Vec::new();
    for r in responses {
        match r {
            Response::Edge(d) => out.push(d.action.trace),
            Response::Tick(t) => {
                if let Some(tr) = t.trace() {
                    out.push(tr);
                }
            }
        }
    }
    out
}

fn toggle_count(responses: &[Response]) -> usize {
    responses
        .iter()
        .filter(|r| matches!(r, Response::Edge(d) if d.action.toggle_led))
        .count()
}

fn dispatch_count(responses: &[Response]) -> usize {
    responses
        .iter()
        .filter(|r| matches!(r, Response::Tick(t) if t.dispatched))
        .count()
}

fn feed(b: &mut Board, events: &[Event]) -> Vec<Response> {
    events.iter().map(|e| b.apply(*e)).collect()
}

#[test]
fn single_clean_press() {
    let mut b = Board::new();
    let r = feed(&mut b, &[Event::Edge { now: 0 }]);
    assert_eq!(toggle_count(&r), 1);
    assert!(b.led_on);
    assert!(b.pressed);
    let r = feed(&mut b, &[Event::Tick { now: 499, level_pressed: false }]);
    assert_eq!(dispatch_count(&r), 0);
    assert!(b.pressed);
    let r = feed(&mut b, &[Event::Tick { now: 500, level_pressed: false }]);
    assert_eq!(r, vec![Response::Tick(TickOutcome { dispatched: true, cleared: true })]);
    assert!(!b.pressed);
    assert!(b.led_on);
}

#[test]
fn bounce_burst_toggles_once() {
    let mut b = Board::new();
    let events: Vec<Event> = [0u64, 2, 5, 7, 10].iter().map(|t| Event::Edge { now: *t }).collect();
    let r = feed(&mut b, &events);
    assert_eq!(toggle_count(&r), 1);
    assert!(b.led_on);
    let traces = traces_of(&r);
    assert_eq!(traces.len(), 5);
    assert_eq!(traces[0], Trace::Triggered);
    assert!(traces[1..].iter().all(|t| *t == Trace::Bounce));
    for resp in &r {
        match resp {
            Response::Edge(d) => {
                assert!(d.action.clear_pending);
                assert_eq!(d.handler_runs, 1);
            }
            Response::Tick(_) => panic!("only edges were fed"),
        }
    }
    let r = feed(&mut b, &[Event::Tick { now: 500, level_pressed: false }]);
    assert_eq!(dispatch_count(&r), 1);
    assert!(!b.pressed);
}

#[test]
fn held_button_keeps_flag_set() {
    let mut b = Board::new();
    feed(&mut b, &[Event::Edge { now: 0 }]);
    let r = feed(
        &mut b,
        &[
            Event::Tick { now: 500, level_pressed: true },
            Event::Tick { now: 501, level_pressed: true },
            Event::Tick { now: 900, level_pressed: true },
        ],
    );
    assert_eq!(dispatch_count(&r), 1);
    assert!(b.pressed);
    assert!(b.debouncing);
    // an edge while the task polls is a bounce
    let r = feed(&mut b, &[Event::Edge { now: 950 }]);
    assert_eq!(toggle_count(&r), 0);
    assert_eq!(traces_of(&r), vec![Trace::Bounce]);
    let r = feed(&mut b, &[Event::Tick { now: 1000, level_pressed: false }]);
    assert_eq!(r, vec![Response::Tick(TickOutcome { dispatched: false, cleared: true })]);
    assert!(!b.pressed);
    assert!(!b.debouncing);
    assert!(b.led_on);
}

#[test]
fn two_presses_apart() {
    let mut b = Board::new();
    let r = feed(
        &mut b,
        &[
            Event::Edge { now: 0 },
            Event::Tick { now: 500, level_pressed: false },
            Event::Edge { now: 600 },
            Event::Tick { now: 1000, level_pressed: false },
            Event::Tick { now: 1100, level_pressed: false },
        ],
    );
    assert_eq!(toggle_count(&r), 2);
    assert_eq!(dispatch_count(&r), 2);
    assert_eq!(
        traces_of(&r),
        vec![Trace::Triggered, Trace::Debounced, Trace::Triggered, Trace::Debounced]
    );
    assert!(!b.led_on);
    assert!(!b.pressed);
}

#[test]
fn flag_cycles_in_order() {
    let mut b = Board::new();
    let events = [
        Event::Tick { now: 0, level_pressed: false },
        Event::Edge { now: 10 },
        Event::Edge { now: 20 },
        Event::Tick { now: 510, level_pressed: true },
        Event::Tick { now: 520, level_pressed: false },
        Event::Tick { now: 530, level_pressed: false },
        Event::Edge { now: 540 },
    ];
    let mut seen = vec![b.pressed];
    for e in events.iter() {
        b.apply(*e);
        seen.push(b.pressed);
    }
    assert_eq!(seen, vec![false, false, true, true, true, false, false, true]);
    assert!(!b.irq_pending);
}
