//! The servo at run time: its calibration, the last commanded angle, and the
//! requests that each operation makes of the signal generator.

use crate::command::{PwmCommand, PwmRequest};
use crate::pulse::{calibrated, interpolate, pulse_width};
use crate::time::{nanos, total_nanos, NANOS_PER_SEC};
use core::time::Duration;
use vstd::prelude::*;

verus! {

/// A servo as the contracts see it: pulse widths in nanoseconds, angles in
/// degrees.
pub struct ServoState {
    pub min_pulse_width: nat,
    pub max_pulse_width: nat,
    pub max_degree_rotation: nat,
    pub position: nat,
}

impl ServoState {
    /// The calibration describes a servo.
    pub open spec fn valid(self) -> bool {
        calibrated(self.min_pulse_width, self.max_pulse_width, self.max_degree_rotation)
    }

    /// The pulse width that encodes `degrees` on this servo.
    pub open spec fn pulse_width(self, degrees: nat) -> nat {
        pulse_width(self.min_pulse_width, self.max_pulse_width, self.max_degree_rotation, degrees)
    }

    /// The servo after it was told to rotate to `degrees`.
    pub open spec fn rotated(self, degrees: nat) -> ServoState {
        ServoState { position: degrees, ..self }
    }

    /// The servo after it was started: nothing it holds changes.
    pub open spec fn started(self) -> ServoState {
        self
    }

    /// The servo after it was stopped: the commanded angle is retained.
    pub open spec fn stopped(self) -> ServoState {
        self
    }

    /// What a rotation to `degrees` asks of the signal generator.
    pub open spec fn rotate_request(self, degrees: nat) -> PwmRequest {
        PwmRequest::Write(self.pulse_width(degrees))
    }

    /// What a start asks of the signal generator, in order: to emit the
    /// signal, then to apply the pulse width of the commanded angle.
    pub open spec fn start_requests(self) -> Seq<PwmRequest> {
        seq![PwmRequest::Start, self.rotate_request(self.position)]
    }

    /// What a stop asks of the signal generator.
    pub open spec fn stop_request(self) -> PwmRequest {
        PwmRequest::Stop
    }

    /// How many degrees lie between the commanded angle and `target`.
    pub open spec fn distance(self, target: nat) -> nat {
        if self.position <= target {
            (target - self.position) as nat
        } else {
            (self.position - target) as nat
        }
    }

    /// The angle one degree from the commanded one in the direction of
    /// `target`, or the commanded angle itself where it is the target.
    pub open spec fn toward(self, target: nat) -> nat {
        if self.position < target {
            self.position + 1
        } else if self.position > target {
            (self.position - 1) as nat
        } else {
            self.position
        }
    }

    /// The servo after `steps` steps of a sweep to `target`, each of which
    /// rotates it by one degree in the direction of the target.
    pub open spec fn swept(self, target: nat, steps: nat) -> ServoState
        decreases steps,
    {
        if steps == 0 {
            self
        } else {
            let before = self.swept(target, (steps - 1) as nat);
            before.rotated(before.toward(target))
        }
    }

    /// After a rotation the commanded angle is the one that was asked for,
    /// whether the servo was started or stopped before.
    pub proof fn lemma_rotate_sets_position(self, degrees: nat)
        ensures
            self.rotated(degrees).position == degrees,
            self.started().rotated(degrees).position == degrees,
            self.stopped().rotated(degrees).position == degrees,
    {
    }

    /// A stop followed by a start asks again for the pulse width of the
    /// commanded angle, with no rotation in between, and leaves the commanded
    /// angle as it was.
    pub proof fn lemma_restart_reapplies_position(self)
        ensures
            self.stopped().start_requests() == seq![
                PwmRequest::Start,
                PwmRequest::Write(self.pulse_width(self.position)),
            ],
            self.stopped().started().position == self.position,
    {
    }

    /// A rotation made while the servo is stopped is applied by the next
    /// start.
    pub proof fn lemma_rotation_while_stopped_applies_on_start(self, degrees: nat)
        ensures
            self.stopped().rotated(degrees).start_requests() == seq![
                PwmRequest::Start,
                PwmRequest::Write(self.pulse_width(degrees)),
            ],
    {
    }

    /// A sweep moves the commanded angle by one degree with each step,
    /// always in the direction of the target, and the calibration stays as it
    /// is. So the angles that it asks for are strictly increasing, or
    /// strictly decreasing, up to the target.
    pub proof fn lemma_sweep_progress(self, target: nat, steps: nat)
        requires
            steps <= self.distance(target),
        ensures
            self.swept(target, steps) == self.rotated(self.swept(target, steps).position),
            self.position <= target ==> self.swept(target, steps).position == self.position
                + steps,
            self.position > target ==> self.swept(target, steps).position == self.position
                - steps,
            self.swept(target, steps).distance(target) == self.distance(target) - steps,
        decreases steps,
    {
        if steps > 0 {
            self.lemma_sweep_progress(target, (steps - 1) as nat);
        }
    }

    /// A sweep reaches its target after exactly as many steps as there are
    /// degrees between the commanded angle and the target, and not before.
    pub proof fn lemma_sweep_reaches_target(self, target: nat, steps: nat)
        requires
            steps <= self.distance(target),
        ensures
            self.swept(target, steps).position == target <==> steps == self.distance(target),
    {
        self.lemma_sweep_progress(target, steps);
    }
}

/// A servo with its calibration and the angle it was last told to take.
pub struct Servo {
    min_pulse_width: Duration,
    max_pulse_width: Duration,
    max_degree_rotation: u64,
    current_pos: u64,
}

impl View for Servo {
    type V = ServoState;

    closed spec fn view(&self) -> ServoState {
        ServoState {
            min_pulse_width: nanos(self.min_pulse_width),
            max_pulse_width: nanos(self.max_pulse_width),
            max_degree_rotation: self.max_degree_rotation as nat,
            position: self.current_pos as nat,
        }
    }
}

impl Servo {
    #[verifier::type_invariant]
    pub closed spec fn well_formed(self) -> bool {
        self@.valid()
    }

    /// A servo with the given calibration that was last told to take the
    /// angle `position`.
    pub(crate) fn with_calibration(
        min_pulse_width: Duration,
        max_pulse_width: Duration,
        max_degree_rotation: u64,
        position: u64,
    ) -> (servo: Self)
        requires
            calibrated(
                nanos(min_pulse_width),
                nanos(max_pulse_width),
                max_degree_rotation as nat,
            ),
        ensures
            servo@ == (ServoState {
                min_pulse_width: nanos(min_pulse_width),
                max_pulse_width: nanos(max_pulse_width),
                max_degree_rotation: max_degree_rotation as nat,
                position: position as nat,
            }),
    {
        Servo { min_pulse_width, max_pulse_width, max_degree_rotation, current_pos: position }
    }

    fn set_current_pos(&mut self, degree: u64)
        ensures
            final(self)@ == old(self)@.rotated(degree as nat),
    {
        proof {
            use_type_invariant(&*self);
        }
        self.current_pos = degree
    }

    /// The angle that the servo was last told to take.
    pub fn get_current_pos(&mut self) -> (pos: u64)
        ensures
            pos == old(self)@.position,
            *final(self) == *old(self),
    {
        return self.current_pos
    }

    /// The pulse width that encodes `degree` on this servo.
    pub fn pulse_width(&self, degree: u64) -> (duration: Duration)
        ensures
            self@.valid(),
            nanos(duration) == self@.pulse_width(degree as nat),
    {
        proof {
            use_type_invariant(self);
        }
        let shortest: u128 = total_nanos(&self.min_pulse_width);
        let longest: u128 = total_nanos(&self.max_pulse_width);
        let pulse: u128 = interpolate(shortest, longest, self.max_degree_rotation, degree);
        if pulse == longest {
            self.max_pulse_width
        } else {
            let per_sec: u128 = NANOS_PER_SEC as u128;
            Duration::new((pulse / per_sec) as u64, (pulse % per_sec) as u32)
        }
    }

    /// Starts the signal and applies the commanded angle again, so that the
    /// signal does not begin with a stale pulse width.
    pub fn start(&mut self) -> (commands: [PwmCommand; 2])
        ensures
            final(self)@ == old(self)@.started(),
            commands@.map_values(|c: PwmCommand| c@) == old(self)@.start_requests(),
    {
        let enable = PwmCommand::Start;
        let position: u64 = self.current_pos;
        let apply = self.rotate(position);
        [enable, apply]
    }

    /// Stops the signal. The commanded angle is retained.
    pub fn stop(&mut self) -> (command: PwmCommand)
        ensures
            final(self)@ == old(self)@.stopped(),
            command@ == old(self)@.stop_request(),
    {
        PwmCommand::Stop
    }

    /// Asks for a pulse width directly, as it is given; the commanded angle
    /// stays as it is.
    pub fn write_time(&mut self, duration: Duration) -> (command: PwmCommand)
        ensures
            *final(self) == *old(self),
            command == PwmCommand::Write(duration),
    {
        PwmCommand::Write(duration)
    }

    /// Takes one step of a sweep to `target`: rotates by one degree in the
    /// direction of the target, or does nothing where the commanded angle is
    /// the target already. The caller waits between the steps.
    pub fn sweep_step(&mut self, target: u64) -> (command: Option<PwmCommand>)
        ensures
            final(self)@ == old(self)@.rotated(old(self)@.toward(target as nat)),
            match command {
                Some(c) => {
                    &&& old(self)@.position != target
                    &&& c@ == old(self)@.rotate_request(old(self)@.toward(target as nat))
                },
                None => old(self)@.position == target,
            },
    {
        let position: u64 = self.current_pos;
        if position < target {
            Some(self.rotate(position + 1))
        } else if position > target {
            Some(self.rotate(position - 1))
        } else {
            None
        }
    }

    /// Tells the servo to take the angle `degree`: records it as the
    /// commanded angle and asks for the pulse width that encodes it.
    pub fn rotate(&mut self, degree: u64) -> (command: PwmCommand)
        ensures
            final(self)@ == old(self)@.rotated(degree as nat),
            command@ == old(self)@.rotate_request(degree as nat),
    {
        let duration = self.pulse_width(degree);
        self.set_current_pos(degree);
        self.write_time(duration)
    }
}

} // verus!
