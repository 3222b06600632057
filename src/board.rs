use vstd::prelude::*;
use crate::button::{edge_action, on_edge, poll_release, EdgeAction, PollStep, Trace};
use crate::schedule::{DelayQueue, DEBOUNCE_DELAY_MS};

verus! {

/// Something that happens to the unit from outside.
#[derive(Clone, Copy, Debug, PartialEq, Eq, Structural)]
pub enum Event {
    /// A falling edge on the button line at time `now` (milliseconds).
    Edge { now: u64 },
    /// A tick of the monotonic clock at time `now`, with the button's
    /// electrical level as read at that moment.
    Tick { now: u64, level_pressed: bool },
}

/// The whole unit: the shared pressed flag, the LED that only the handler
/// owns, the hardware-latched pending-interrupt flag of the button line, the
/// delay queue of the debounce task, and whether the debounce task has been
/// dispatched and is polling for release.
#[derive(Clone, Copy, Debug, PartialEq, Eq, Structural)]
pub struct Board {
    pub pressed: bool,
    pub led_on: bool,
    pub irq_pending: bool,
    pub queue: DelayQueue,
    pub debouncing: bool,
}

/// What a tick did to the debounce task.
#[derive(Clone, Copy, Debug, PartialEq, Eq, Structural)]
pub struct TickOutcome {
    /// The debounce task was dispatched on this tick.
    pub dispatched: bool,
    /// The debounce task saw the button released and cleared the flag.
    pub cleared: bool,
}

impl TickOutcome {
    /// The trace event the tick emits: the debounce task announces itself
    /// when it is dispatched.
    pub fn trace(&self) -> (r: Option<Trace>)
        ensures
            r == (if self.dispatched {
                Some(Trace::Debounced)
            } else {
                None::<Trace>
            }),
    {
        if self.dispatched {
            Some(Trace::Debounced)
        } else {
            None
        }
    }
}

/// What the unit did in answer to one event.
#[derive(Clone, Copy, Debug, PartialEq, Eq, Structural)]
pub enum Response {
    Edge(EdgeDelivery),
    Tick(TickOutcome),
}

/// The result of delivering one edge interrupt.
#[derive(Clone, Copy, Debug, PartialEq, Eq, Structural)]
pub struct EdgeDelivery {
    /// What the handler decided.
    pub action: EdgeAction,
    /// How many times the handler ran before the line stopped pending.
    pub handler_runs: u64,
}

impl Board {
    /// The pressed flag is set exactly while a debounce run is waiting or
    /// polling, and never both at once: so the flag gates every schedule
    /// request.
    pub open spec fn wf(self) -> bool {
        &&& self.pressed <==> (self.queue.deadline is Some || self.debouncing)
        &&& !(self.queue.deadline is Some && self.debouncing)
    }

    /// No press is being processed and no interrupt is pending.
    pub open spec fn is_idle(self) -> bool {
        &&& self.wf()
        &&& !self.pressed
        &&& !self.irq_pending
    }
}

/// The unit after the edge-interrupt handler ran at time `now`.
pub open spec fn edge_next(b: Board, now: u64) -> Board {
    if b.pressed {
        Board { irq_pending: false, ..b }
    } else {
        Board {
            pressed: true,
            led_on: !b.led_on,
            irq_pending: false,
            queue: DelayQueue { deadline: Some((now + DEBOUNCE_DELAY_MS) as u64) },
            debouncing: b.debouncing,
        }
    }
}

/// The debounce task's poll on a reading of the button.
pub open spec fn poll_next(b: Board, level_pressed: bool, dispatched: bool) -> (Board, TickOutcome) {
    if level_pressed {
        (b, TickOutcome { dispatched, cleared: false })
    } else {
        (Board { pressed: false, debouncing: false, ..b }, TickOutcome { dispatched, cleared: true })
    }
}

/// The unit and the outcome after a clock tick at time `now`.
pub open spec fn tick_next(b: Board, now: u64, level_pressed: bool) -> (Board, TickOutcome) {
    if b.debouncing {
        poll_next(b, level_pressed, false)
    } else if b.queue.deadline is Some && b.queue.deadline->0 <= now {
        poll_next(
            Board { queue: DelayQueue { deadline: None }, debouncing: true, ..b },
            level_pressed,
            true,
        )
    } else {
        (b, TickOutcome { dispatched: false, cleared: false })
    }
}

/// The unit after one event.
pub open spec fn step(b: Board, e: Event) -> Board {
    match e {
        Event::Edge { now } => edge_next(b, now),
        Event::Tick { now, level_pressed } => tick_next(b, now, level_pressed).0,
    }
}

impl Board {
    /// The unit at boot: flag down, LED off, nothing pending.
    pub fn new() -> (b: Board)
        ensures
            b.is_idle(),
            !b.led_on,
            b.queue.deadline is None,
            !b.debouncing,
    {
        Board {
            pressed: false,
            led_on: false,
            irq_pending: false,
            queue: DelayQueue::new(),
            debouncing: false,
        }
    }

    /// The edge-interrupt handler: clears the pending-interrupt flag first,
    /// then decides on the pressed flag; a genuine press toggles the LED and
    /// schedules the debounce task for `now` plus the debounce delay.
    pub fn handle_edge(&mut self, now: u64) -> (action: EdgeAction)
        requires
            old(self).wf(),
            now <= u64::MAX - DEBOUNCE_DELAY_MS,
        ensures
            *final(self) == edge_next(*old(self), now),
            action == edge_action(old(self).pressed),
            !final(self).irq_pending,
            final(self).wf(),
    {
        self.irq_pending = false;
        let action = on_edge(&mut self.pressed);
        if action.toggle_led {
            self.led_on = !self.led_on;
        }
        if action.schedule_debounce {
            match self.queue.schedule_after(now, DEBOUNCE_DELAY_MS) {
                Ok(()) => {},
                Err(_) => {
                    // the flag was down, so no run was waiting
                    proof {
                        assert(false);
                    }
                },
            }
        }
        action
    }

    /// Delivers one falling edge: the line latches its pending flag, and the
    /// handler runs for as long as the line is pending, which is exactly
    /// once because the handler clears the flag.
    pub fn edge(&mut self, now: u64) -> (d: EdgeDelivery)
        requires
            old(self).wf(),
            now <= u64::MAX - DEBOUNCE_DELAY_MS,
        ensures
            *final(self) == edge_next(*old(self), now),
            d.action == edge_action(old(self).pressed),
            d.handler_runs == 1,
            !final(self).irq_pending,
            final(self).wf(),
    {
        self.irq_pending = true;
        let ghost latched = *self;
        let mut action = EdgeAction {
            clear_pending: true,
            toggle_led: false,
            schedule_debounce: false,
            trace: Trace::Bounce,
        };
        let mut runs: u64 = 0;
        while self.irq_pending
            invariant
                latched == (Board { irq_pending: true, ..*old(self) }),
                latched.wf(),
                now <= u64::MAX - DEBOUNCE_DELAY_MS,
                runs <= 1,
                runs == 0 ==> *self == latched,
                runs == 1 ==> !self.irq_pending && *self == edge_next(latched, now) && action
                    == edge_action(latched.pressed),
            decreases
                if self.irq_pending {
                    1int
                } else {
                    0int
                },
        {
            action = self.handle_edge(now);
            runs = runs + 1;
        }
        EdgeDelivery { action, handler_runs: runs }
    }

    /// A tick of the monotonic clock, with the button's level read now: a
    /// polling debounce task polls once more; otherwise a run whose deadline
    /// has come is dispatched and polls at once. A poll that reads released
    /// clears the pressed flag and ends the task.
    pub fn tick(&mut self, now: u64, level_pressed: bool) -> (out: TickOutcome)
        requires
            old(self).wf(),
        ensures
            (*final(self), out) == tick_next(*old(self), now, level_pressed),
            final(self).wf(),
    {
        let mut dispatched = false;
        if !self.debouncing {
            if self.queue.take_due(now) {
                self.debouncing = true;
                dispatched = true;
            } else {
                return TickOutcome { dispatched: false, cleared: false };
            }
        }
        match poll_release(&mut self.pressed, level_pressed) {
            PollStep::StillPressed => TickOutcome { dispatched, cleared: false },
            PollStep::Released => {
                self.debouncing = false;
                TickOutcome { dispatched, cleared: true }
            },
        }
    }

    /// Routes an event to the handler bound to it: a button edge to the
    /// edge-interrupt handler, a clock tick to the scheduler and the
    /// debounce task.
    pub fn apply(&mut self, e: Event) -> (r: Response)
        requires
            old(self).wf(),
            e matches Event::Edge { now } ==> now <= u64::MAX - DEBOUNCE_DELAY_MS,
        ensures
            *final(self) == step(*old(self), e),
            final(self).wf(),
            e is Edge ==> r == Response::Edge(
                EdgeDelivery { action: edge_action(old(self).pressed), handler_runs: 1 },
            ),
            e matches Event::Tick { now, level_pressed } ==> r == Response::Tick(
                tick_next(*old(self), now, level_pressed).1,
            ),
    {
        match e {
            Event::Edge { now } => Response::Edge(self.edge(now)),
            Event::Tick { now, level_pressed } => Response::Tick(self.tick(now, level_pressed)),
        }
    }
}

} // verus!
