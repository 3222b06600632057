use vstd::prelude::*;

verus! {

/// A diagnostic event emitted by the tasks; it never affects control flow.
#[derive(Clone, Copy, Debug, PartialEq, Eq, Structural)]
pub enum Trace {
    /// A genuine new press was recognised.
    Triggered,
    /// An edge arrived inside the debounce window and was ignored.
    Bounce,
    /// The debounce task started.
    Debounced,
}

/// What the edge-interrupt handler asks the platform to do.
#[derive(Clone, Copy, Debug, PartialEq, Eq, Structural)]
pub struct EdgeAction {
    /// Clear the hardware pending-interrupt flag of the button line.
    pub clear_pending: bool,
    /// Toggle the LED output.
    pub toggle_led: bool,
    /// Schedule the debounce task after the debounce delay.
    pub schedule_debounce: bool,
    /// The trace event to emit.
    pub trace: Trace,
}

/// The handler's action, given the pressed flag it found.
pub open spec fn edge_action(pressed: bool) -> EdgeAction {
    if pressed {
        EdgeAction {
            clear_pending: true,
            toggle_led: false,
            schedule_debounce: false,
            trace: Trace::Bounce,
        }
    } else {
        EdgeAction {
            clear_pending: true,
            toggle_led: true,
            schedule_debounce: true,
            trace: Trace::Triggered,
        }
    }
}

/// The decision of the edge-interrupt handler, made while it holds the
/// pressed flag: a press with the flag down sets the flag, toggles the LED
/// and schedules the debounce task; one with the flag up is a bounce that
/// changes nothing. The pending-interrupt flag is cleared in either case.
pub fn on_edge(pressed: &mut bool) -> (action: EdgeAction)
    ensures
        *final(pressed),
        action == edge_action(*old(pressed)),
        action.clear_pending,
{
    if !*pressed {
        *pressed = true;
        EdgeAction {
            clear_pending: true,
            toggle_led: true,
            schedule_debounce: true,
            trace: Trace::Triggered,
        }
    } else {
        EdgeAction {
            clear_pending: true,
            toggle_led: false,
            schedule_debounce: false,
            trace: Trace::Bounce,
        }
    }
}

/// One reading of the button taken by the debounce task.
#[derive(Clone, Copy, Debug, PartialEq, Eq, Structural)]
pub enum PollStep {
    /// The button still reads pressed: keep polling, the flag stays set.
    StillPressed,
    /// The button reads released: the flag has been cleared.
    Released,
}

/// One step of the debounce task's release poll: while the button reads
/// pressed the flag is left alone; once it reads released the flag is
/// cleared.
pub fn poll_release(pressed: &mut bool, level_pressed: bool) -> (step: PollStep)
    ensures
        level_pressed ==> step == PollStep::StillPressed && *final(pressed) == *old(pressed),
        !level_pressed ==> step == PollStep::Released && !*final(pressed),
{
    if level_pressed {
        PollStep::StillPressed
    } else {
        *pressed = false;
        PollStep::Released
    }
}

} // verus!
