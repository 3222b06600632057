use vstd::prelude::*;
use crate::board::{edge_next, step, tick_next, Board, Event};
use crate::button::{edge_action, Trace};
use crate::schedule::{DelayQueue, DEBOUNCE_DELAY_MS};

verus! {

/// The time at which an event happens.
pub open spec fn time_of(e: Event) -> u64 {
    match e {
        Event::Edge { now } => now,
        Event::Tick { now, .. } => now,
    }
}

/// The unit after a sequence of events, in order.
pub open spec fn run(b: Board, evs: Seq<Event>) -> Board
    decreases evs.len(),
{
    if evs.len() == 0 {
        b
    } else {
        run(step(b, evs[0]), evs.drop_first())
    }
}

/// Whether the event toggles the LED when it meets the unit in state `b`.
pub open spec fn toggles_on(b: Board, e: Event) -> bool {
    e is Edge && edge_action(b.pressed).toggle_led
}

/// Whether the event is an edge that the handler reports as a bounce.
pub open spec fn bounces_on(b: Board, e: Event) -> bool {
    e is Edge && edge_action(b.pressed).trace == Trace::Bounce
}

/// Whether the event dispatches the debounce task.
pub open spec fn dispatches_on(b: Board, e: Event) -> bool {
    match e {
        Event::Edge { .. } => false,
        Event::Tick { now, level_pressed } => tick_next(b, now, level_pressed).1.dispatched,
    }
}

/// How many LED toggles a sequence of events causes.
pub open spec fn toggles(b: Board, evs: Seq<Event>) -> nat
    decreases evs.len(),
{
    if evs.len() == 0 {
        0
    } else {
        (if toggles_on(b, evs[0]) { 1nat } else { 0nat }) + toggles(step(b, evs[0]), evs.drop_first())
    }
}

/// How many bounce traces a sequence of events causes.
pub open spec fn bounces(b: Board, evs: Seq<Event>) -> nat
    decreases evs.len(),
{
    if evs.len() == 0 {
        0
    } else {
        (if bounces_on(b, evs[0]) { 1nat } else { 0nat }) + bounces(step(b, evs[0]), evs.drop_first())
    }
}

/// How many times a sequence of events dispatches the debounce task.
pub open spec fn dispatches(b: Board, evs: Seq<Event>) -> nat
    decreases evs.len(),
{
    if evs.len() == 0 {
        0
    } else {
        (if dispatches_on(b, evs[0]) { 1nat } else { 0nat }) + dispatches(
            step(b, evs[0]),
            evs.drop_first(),
        )
    }
}

/// How many edges a sequence of events holds.
pub open spec fn edge_count(evs: Seq<Event>) -> nat
    decreases evs.len(),
{
    if evs.len() == 0 {
        0
    } else {
        (if evs[0] is Edge { 1nat } else { 0nat }) + edge_count(evs.drop_first())
    }
}

/// Every event keeps the unit well formed and leaves no interrupt pending.
pub proof fn lemma_step_keeps_wf(b: Board, e: Event)
    requires
        b.wf(),
    ensures
        step(b, e).wf(),
        !step(b, e).irq_pending || (e is Tick && b.irq_pending),
{
}

/// Well-formedness, and the absence of a pending interrupt, hold in every
/// state that a sequence of events reaches from a unit at rest.
pub proof fn lemma_run_keeps_wf(b: Board, evs: Seq<Event>)
    requires
        b.wf(),
        !b.irq_pending,
    ensures
        run(b, evs).wf(),
        !run(b, evs).irq_pending,
    decreases evs.len(),
{
    if evs.len() > 0 {
        lemma_step_keeps_wf(b, evs[0]);
        lemma_run_keeps_wf(step(b, evs[0]), evs.drop_first());
    }
}

/// The pressed flag moves in one cycle: only an edge sets it, and only from
/// down; only a tick clears it, and only from up; an edge never clears it
/// and a tick never sets it.
pub proof fn lemma_flag_cycle(b: Board, e: Event)
    requires
        b.wf(),
    ensures
        !b.pressed && step(b, e).pressed ==> e is Edge,
        b.pressed && !step(b, e).pressed ==> e is Tick,
        e is Edge ==> step(b, e).pressed,
        e is Tick && !b.pressed ==> !step(b, e).pressed,
{
}

/// The states a sequence of events passes through, the starting one first.
pub open spec fn states(b: Board, evs: Seq<Event>) -> Seq<Board>
    decreases evs.len(),
{
    if evs.len() == 0 {
        seq![b]
    } else {
        seq![b] + states(step(b, evs[0]), evs.drop_first())
    }
}

proof fn lemma_states_step(b: Board, evs: Seq<Event>)
    requires
        b.wf(),
    ensures
        states(b, evs).len() == evs.len() + 1,
        states(b, evs)[0] == b,
        forall|i: int|
            0 <= i < evs.len() ==> (#[trigger] states(b, evs)[i + 1]) == step(
                states(b, evs)[i],
                evs[i],
            ) && states(b, evs)[i].wf(),
    decreases evs.len(),
{
    if evs.len() > 0 {
        let b1 = step(b, evs[0]);
        let rest = evs.drop_first();
        lemma_step_keeps_wf(b, evs[0]);
        lemma_states_step(b1, rest);
        let s = states(b, evs);
        assert(s =~= seq![b] + states(b1, rest));
        assert forall|i: int| 0 <= i < evs.len() implies (#[trigger] s[i + 1]) == step(s[i], evs[i])
            && s[i].wf() by {
            if i > 0 {
                assert(s[i + 1] == states(b1, rest)[i]);
                assert(s[i] == states(b1, rest)[i - 1]);
                assert(evs[i] == rest[i - 1]);
            }
        }
    }
}

/// Over any sequence of events from a well-formed unit, each change of the
/// pressed flag is a set by an edge while it was down, or a clear by a tick
/// that read the button released while it was up: the flag never skips or
/// repeats a step of its cycle.
pub proof fn lemma_flag_cycle_in_runs(b: Board, evs: Seq<Event>)
    requires
        b.wf(),
    ensures
        forall|i: int|
            0 <= i < evs.len() ==> {
                let p = states(b, evs)[i].pressed;
                let q = (#[trigger] states(b, evs)[i + 1]).pressed;
                &&& !p && q ==> evs[i] is Edge
                &&& p && !q ==> (evs[i] matches Event::Tick { level_pressed, .. } && !level_pressed)
            },
{
    lemma_states_step(b, evs);
    assert forall|i: int| 0 <= i < evs.len() implies {
        let p = states(b, evs)[i].pressed;
        let q = (#[trigger] states(b, evs)[i + 1]).pressed;
        &&& !p && q ==> evs[i] is Edge
        &&& p && !q ==> (evs[i] matches Event::Tick { level_pressed, .. } && !level_pressed)
    } by {
        let s = states(b, evs)[i];
        lemma_flag_cycle(s, evs[i]);
        if s.pressed && !step(s, evs[i]).pressed {
            lemma_clear_needs_release(s, evs[i]);
        }
    }
}

/// The debounce task clears the pressed flag only on a reading of the
/// button as released.
pub proof fn lemma_clear_needs_release(b: Board, e: Event)
    requires
        b.wf(),
        b.pressed,
        !step(b, e).pressed,
    ensures
        e matches Event::Tick { level_pressed, .. } && !level_pressed,
{
}

/// Every run of the edge handler clears the pending-interrupt flag and asks
/// the platform to clear it, whatever the pressed flag was.
pub proof fn lemma_handler_clears_pending(b: Board, now: u64)
    ensures
        !edge_next(b, now).irq_pending,
        edge_action(b.pressed).clear_pending,
{
}

/// Inside the debounce window nothing changes; the first tick at or after
/// the deadline dispatches the debounce task once.
proof fn lemma_window_then_tick(b: Board, w: Seq<Event>, now: u64, level_pressed: bool)
    requires
        b.wf(),
        b.pressed,
        !b.irq_pending,
        !b.debouncing,
        b.queue.deadline is Some,
        forall|i: int| 0 <= i < w.len() ==> time_of(#[trigger] w[i]) < b.queue.deadline->0,
        b.queue.deadline->0 <= now,
    ensures
        ({
            let evs = w.push(Event::Tick { now, level_pressed });
            &&& toggles(b, evs) == 0
            &&& dispatches(b, evs) == 1
            &&& bounces(b, evs) == edge_count(w)
            &&& run(b, evs) == (Board {
                pressed: level_pressed,
                queue: DelayQueue { deadline: None },
                debouncing: level_pressed,
                ..b
            })
        }),
    decreases w.len(),
{
    let t = Event::Tick { now, level_pressed };
    let evs = w.push(t);
    if w.len() == 0 {
        assert(evs[0] == t);
        assert(evs.drop_first() =~= Seq::<Event>::empty());
        let b2 = step(b, t);
        assert(toggles(b2, evs.drop_first()) == 0);
        assert(dispatches(b2, evs.drop_first()) == 0);
        assert(bounces(b2, evs.drop_first()) == 0);
        assert(run(b2, evs.drop_first()) == b2);
    } else {
        assert(evs[0] == w[0]);
        assert(step(b, w[0]) == b);
        assert(evs.drop_first() =~= w.drop_first().push(t));
        assert forall|i: int| 0 <= i < w.drop_first().len() implies time_of(
            #[trigger] w.drop_first()[i],
        ) < b.queue.deadline->0 by {
            assert(w.drop_first()[i] == w[i + 1]);
        }
        lemma_window_then_tick(b, w.drop_first(), now, level_pressed);
    }
}

/// Debounce idempotence: a burst that opens with a falling edge on a unit
/// at rest, followed by any edges and ticks inside the debounce window and
/// then by the first tick at or after the window's end, toggles the LED
/// exactly once, dispatches the debounce task exactly once and reports every
/// later edge of the burst as a bounce. The flag ends down unless the button
/// still reads pressed.
pub proof fn lemma_burst_toggles_once(
    b: Board,
    t0: u64,
    rest: Seq<Event>,
    now: u64,
    level_pressed: bool,
)
    requires
        b.is_idle(),
        t0 <= u64::MAX - DEBOUNCE_DELAY_MS,
        forall|i: int|
            0 <= i < rest.len() ==> t0 <= time_of(#[trigger] rest[i]) < t0 + DEBOUNCE_DELAY_MS,
        t0 + DEBOUNCE_DELAY_MS <= now,
    ensures
        ({
            let evs = seq![Event::Edge { now: t0 }] + rest.push(Event::Tick { now, level_pressed });
            &&& toggles(b, evs) == 1
            &&& dispatches(b, evs) == 1
            &&& bounces(b, evs) == edge_count(rest)
            &&& run(b, evs).led_on == !b.led_on
            &&& run(b, evs).pressed == level_pressed
        }),
{
    let tail = rest.push(Event::Tick { now, level_pressed });
    let evs = seq![Event::Edge { now: t0 }] + tail;
    assert(evs[0] == Event::Edge { now: t0 });
    assert(evs.drop_first() =~= tail);
    let b1 = step(b, Event::Edge { now: t0 });
    assert forall|i: int| 0 <= i < rest.len() implies time_of(#[trigger] rest[i])
        < b1.queue.deadline->0 by {}
    lemma_window_then_tick(b1, rest, now, level_pressed);
}

} // verus!
