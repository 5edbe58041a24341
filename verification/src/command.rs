//! The requests that the servo hands to the signal generator.

use crate::time::nanos;
use core::time::Duration;
use vstd::prelude::*;

verus! {

/// One request to the signal generator that drives the servo.
#[derive(Clone, Copy, Debug, PartialEq, Eq)]
pub enum PwmCommand {
    /// Set the length of one cycle of the signal.
    SetPeriod(Duration),
    /// Begin to emit the signal.
    Start,
    /// Cease to emit the signal.
    Stop,
    /// Hold the signal high for this long in each cycle.
    Write(Duration),
}

/// A request with its durations as lengths in nanoseconds.
pub enum PwmRequest {
    SetPeriod(nat),
    Start,
    Stop,
    Write(nat),
}

impl View for PwmCommand {
    type V = PwmRequest;

    open spec fn view(&self) -> PwmRequest {
        match *self {
            PwmCommand::SetPeriod(d) => PwmRequest::SetPeriod(nanos(d)),
            PwmCommand::Start => PwmRequest::Start,
            PwmCommand::Stop => PwmRequest::Stop,
            PwmCommand::Write(d) => PwmRequest::Write(nanos(d)),
        }
    }
}

} // verus!
