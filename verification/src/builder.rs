//! The configuration of a servo, collected field by field over defaults and
//! validated when the servo is built.

use crate::command::{PwmCommand, PwmRequest};
use crate::pulse::calibrated;
use crate::servo::{Servo, ServoState};
use crate::time::{nanos, total_nanos};
use core::time::Duration;
use vstd::prelude::*;

verus! {

/// The shortest pulse sent to a servo that was not calibrated, in microseconds.
pub const DEFAULT_MIN_PULSE_WIDTH: u64 = 1000;

/// The longest pulse sent to a servo that was not calibrated, in microseconds.
pub const DEFAULT_MAX_PULSE_WIDTH: u64 = 2000;

/// The span of a typical servo, in degrees.
pub const DEFAULT_MAX_DEGREE_ROTATION: u64 = 180;

/// The angle at which a servo starts unless told otherwise, in degrees.
pub const DEFAULT_INITIAL_POSITION: u64 = 0;

/// The length of one cycle of the signal, in microseconds.
pub const REFRESH_INTERVAL: u64 = 20000;

/// A configuration as the contracts see it: durations in nanoseconds, angles
/// in degrees.
pub struct ServoConfiguration {
    pub refresh_period: nat,
    pub min_pulse_width: nat,
    pub max_pulse_width: nat,
    pub max_degree_rotation: nat,
    pub initial_position: nat,
}

/// Why a configuration was rejected.
#[derive(Clone, Copy, Debug, PartialEq, Eq, Structural)]
pub enum ConfigError {
    /// The shortest pulse is not strictly below the longest.
    PulseWidthBounds,
    /// The span of the rotation is zero degrees.
    ZeroDegreeRotation,
}

impl ServoConfiguration {
    /// The configuration that a new builder holds.
    pub open spec fn defaults() -> ServoConfiguration {
        ServoConfiguration {
            refresh_period: (REFRESH_INTERVAL * 1000) as nat,
            min_pulse_width: (DEFAULT_MIN_PULSE_WIDTH * 1000) as nat,
            max_pulse_width: (DEFAULT_MAX_PULSE_WIDTH * 1000) as nat,
            max_degree_rotation: DEFAULT_MAX_DEGREE_ROTATION as nat,
            initial_position: DEFAULT_INITIAL_POSITION as nat,
        }
    }

    /// What is wrong with the configuration, if anything is. Where both
    /// faults are present, the pulse widths are reported.
    pub open spec fn fault(self) -> Option<ConfigError> {
        if self.min_pulse_width >= self.max_pulse_width {
            Some(ConfigError::PulseWidthBounds)
        } else if self.max_degree_rotation == 0 {
            Some(ConfigError::ZeroDegreeRotation)
        } else {
            None
        }
    }

    /// The configuration describes a servo: nothing is wrong with it.
    pub open spec fn valid(self) -> bool {
        calibrated(self.min_pulse_width, self.max_pulse_width, self.max_degree_rotation)
    }

    /// The servo that the configuration builds, at its initial position.
    pub open spec fn servo(self) -> ServoState {
        ServoState {
            min_pulse_width: self.min_pulse_width,
            max_pulse_width: self.max_pulse_width,
            max_degree_rotation: self.max_degree_rotation,
            position: self.initial_position,
        }
    }

    /// What building asks of the signal generator: to set the length of its
    /// cycle, and nothing else.
    pub open spec fn build_request(self) -> PwmRequest {
        PwmRequest::SetPeriod(self.refresh_period)
    }
}

/// Collects the configuration of a servo.
pub struct ServoPioBuilder {
    period: Duration,
    min_pulse_width: Duration,
    max_pulse_width: Duration,
    max_degree_rotation: u64,
    initial_position: u64,
}

impl View for ServoPioBuilder {
    type V = ServoConfiguration;

    closed spec fn view(&self) -> ServoConfiguration {
        ServoConfiguration {
            refresh_period: nanos(self.period),
            min_pulse_width: nanos(self.min_pulse_width),
            max_pulse_width: nanos(self.max_pulse_width),
            max_degree_rotation: self.max_degree_rotation as nat,
            initial_position: self.initial_position as nat,
        }
    }
}

impl ServoPioBuilder {
    /// A builder that holds the defaults.
    pub fn new() -> (builder: Self)
        ensures
            builder@ == ServoConfiguration::defaults(),
    {
        Self {
            period: Duration::from_micros(REFRESH_INTERVAL),
            min_pulse_width: Duration::from_micros(DEFAULT_MIN_PULSE_WIDTH),
            max_pulse_width: Duration::from_micros(DEFAULT_MAX_PULSE_WIDTH),
            max_degree_rotation: DEFAULT_MAX_DEGREE_ROTATION,
            initial_position: DEFAULT_INITIAL_POSITION,
        }
    }

    /// Sets the length of one cycle of the signal.
    pub fn set_period(self, duration: Duration) -> (builder: Self)
        ensures
            builder@ == (ServoConfiguration { refresh_period: nanos(duration), ..self@ }),
    {
        let mut builder = self;
        builder.period = duration;
        builder
    }

    /// Sets the pulse width that encodes an angle of zero.
    pub fn set_min_pulse_width(self, duration: Duration) -> (builder: Self)
        ensures
            builder@ == (ServoConfiguration { min_pulse_width: nanos(duration), ..self@ }),
    {
        let mut builder = self;
        builder.min_pulse_width = duration;
        builder
    }

    /// Sets the pulse width that encodes the end of the span.
    pub fn set_max_pulse_width(self, duration: Duration) -> (builder: Self)
        ensures
            builder@ == (ServoConfiguration { max_pulse_width: nanos(duration), ..self@ }),
    {
        let mut builder = self;
        builder.max_pulse_width = duration;
        builder
    }

    /// Sets the span of the rotation, in degrees.
    pub fn set_max_degree_rotation(self, degree: u64) -> (builder: Self)
        ensures
            builder@ == (ServoConfiguration { max_degree_rotation: degree as nat, ..self@ }),
    {
        let mut builder = self;
        builder.max_degree_rotation = degree;
        builder
    }

    /// Sets the angle at which the servo starts, in degrees.
    pub fn set_initial_position(self, pos: u64) -> (builder: Self)
        ensures
            builder@ == (ServoConfiguration { initial_position: pos as nat, ..self@ }),
    {
        let mut builder = self;
        builder.initial_position = pos;
        builder
    }

    /// Builds the servo at its initial position, together with the one
    /// request that building makes of the signal generator. The initial
    /// position is not applied: the servo moves only once it is started or
    /// rotated. A configuration that describes no servo is rejected, with
    /// what is wrong with it.
    pub fn build(self) -> (built: Result<(Servo, PwmCommand), ConfigError>)
        ensures
            built is Ok <==> self@.valid(),
            match built {
                Ok((servo, command)) => {
                    &&& servo@ == self@.servo()
                    &&& command@ == self@.build_request()
                },
                Err(error) => self@.fault() == Some(error),
            },
    {
        if total_nanos(&self.min_pulse_width) >= total_nanos(&self.max_pulse_width) {
            return Err(ConfigError::PulseWidthBounds);
        }
        if self.max_degree_rotation == 0 {
            return Err(ConfigError::ZeroDegreeRotation);
        }
        let servo = Servo::with_calibration(
            self.min_pulse_width,
            self.max_pulse_width,
            self.max_degree_rotation,
            self.initial_position,
        );
        Ok((servo, PwmCommand::SetPeriod(self.period)))
    }
}

} // verus!
