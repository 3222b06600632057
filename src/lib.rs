//! Interrupt-driven debouncing of one push-button that toggles an LED.
//!
//! `button` holds the decisions of the edge-interrupt handler and of the
//! debounce task over the shared pressed flag, `schedule` the one-slot delay
//! queue that runs the debounce task, and `board` a model of the whole unit
//! (flag, LED, pending-interrupt latch, queue) with the laws it obeys.
pub mod board;
pub mod button;
pub mod laws;
pub mod schedule;
