//! The mapping from a commanded angle to the pulse width that encodes it.
//!
//! Pulse widths are lengths in nanoseconds. The mapping interpolates linearly
//! between the two calibrated pulse widths, with a step per degree that is
//! rounded down, and never exceeds the longer of the two.

use vstd::prelude::*;

verus! {

/// Whether two pulse widths and a span in degrees describe a servo: the
/// shorter pulse is strictly below the longer one and the span is not empty.
pub open spec fn calibrated(min_pulse: nat, max_pulse: nat, span: nat) -> bool {
    min_pulse < max_pulse && span > 0
}

/// The pulse width added for each degree: the difference of the two
/// calibrated pulse widths divided by the span, rounded down.
pub open spec fn per_degree(min_pulse: nat, max_pulse: nat, span: nat) -> nat {
    ((max_pulse - min_pulse) / (span as int)) as nat
}

/// The pulse width that encodes `degrees`.
pub open spec fn pulse_width(min_pulse: nat, max_pulse: nat, span: nat, degrees: nat) -> nat {
    let raw = min_pulse + degrees * per_degree(min_pulse, max_pulse, span);
    if max_pulse < raw {
        max_pulse
    } else {
        raw
    }
}

/// The step per degree, multiplied by the span, stays within the distance
/// between the two calibrated pulse widths.
pub proof fn lemma_per_degree_bounds(min_pulse: nat, max_pulse: nat, span: nat)
    requires
        calibrated(min_pulse, max_pulse, span),
    ensures
        span * per_degree(min_pulse, max_pulse, span) <= max_pulse - min_pulse,
        max_pulse - min_pulse < span * per_degree(min_pulse, max_pulse, span) + span,
        per_degree(min_pulse, max_pulse, span) <= max_pulse - min_pulse,
{
    let travel = max_pulse - min_pulse;
    let step = travel / (span as int);
    assert(travel == span * step + travel % (span as int) && 0 <= travel % (span as int) < span
        && 0 <= step <= travel) by (nonlinear_arith)
        requires
            travel > 0,
            span > 0,
            step == travel / (span as int),
    ;
}

/// An angle of zero maps to the shorter calibrated pulse width exactly.
pub proof fn lemma_zero_degrees_is_min_pulse(min_pulse: nat, max_pulse: nat, span: nat)
    requires
        calibrated(min_pulse, max_pulse, span),
    ensures
        pulse_width(min_pulse, max_pulse, span, 0) == min_pulse,
{
    assert(0 * per_degree(min_pulse, max_pulse, span) == 0) by (nonlinear_arith);
}

/// No angle maps below the shorter or above the longer calibrated pulse
/// width.
pub proof fn lemma_pulse_width_in_bounds(min_pulse: nat, max_pulse: nat, span: nat, degrees: nat)
    requires
        calibrated(min_pulse, max_pulse, span),
    ensures
        min_pulse <= pulse_width(min_pulse, max_pulse, span, degrees) <= max_pulse,
{
    let step = per_degree(min_pulse, max_pulse, span);
    assert(0 <= degrees * step) by (nonlinear_arith)
        requires
            0 <= degrees,
            0 <= step,
    ;
}

/// The mapping never decreases as the angle grows.
pub proof fn lemma_pulse_width_monotonic(
    min_pulse: nat,
    max_pulse: nat,
    span: nat,
    lower: nat,
    upper: nat,
)
    requires
        calibrated(min_pulse, max_pulse, span),
        lower <= upper,
    ensures
        pulse_width(min_pulse, max_pulse, span, lower) <= pulse_width(
            min_pulse,
            max_pulse,
            span,
            upper,
        ),
{
    let step = per_degree(min_pulse, max_pulse, span);
    assert(lower * step <= upper * step) by (nonlinear_arith)
        requires
            lower <= upper,
            0 <= step,
    ;
}

/// At and beyond the end of the span, the mapping gives the longer calibrated
/// pulse width exactly when the steps taken cover the whole distance between
/// the two pulse widths. Rounding the step down can leave the end of the span
/// short of that distance.
pub proof fn lemma_saturates_when_covered(min_pulse: nat, max_pulse: nat, span: nat, degrees: nat)
    requires
        calibrated(min_pulse, max_pulse, span),
        degrees >= span,
    ensures
        pulse_width(min_pulse, max_pulse, span, degrees) == max_pulse <==> degrees * per_degree(
            min_pulse,
            max_pulse,
            span,
        ) >= max_pulse - min_pulse,
{
}

/// Where the span divides the distance between the two calibrated pulse
/// widths, every angle at or beyond the end of the span maps to the longer
/// pulse width exactly.
pub proof fn lemma_saturates_at_span_when_exact(
    min_pulse: nat,
    max_pulse: nat,
    span: nat,
    degrees: nat,
)
    requires
        calibrated(min_pulse, max_pulse, span),
        (max_pulse - min_pulse) % (span as int) == 0,
        degrees >= span,
    ensures
        pulse_width(min_pulse, max_pulse, span, degrees) == max_pulse,
{
    let travel = max_pulse - min_pulse;
    let step = per_degree(min_pulse, max_pulse, span);
    assert(travel == span * step) by (nonlinear_arith)
        requires
            travel > 0,
            span > 0,
            step == travel / (span as int),
            travel % (span as int) == 0,
    ;
    assert(span * step <= degrees * step) by (nonlinear_arith)
        requires
            span <= degrees,
            0 <= step,
    ;
}

/// One degree beyond the end of the span, and from there on, the mapping
/// gives the longer calibrated pulse width whenever the step per degree is at
/// least the span itself.
pub proof fn lemma_saturates_beyond_span(min_pulse: nat, max_pulse: nat, span: nat, degrees: nat)
    requires
        calibrated(min_pulse, max_pulse, span),
        per_degree(min_pulse, max_pulse, span) >= span,
        degrees > span,
    ensures
        pulse_width(min_pulse, max_pulse, span, degrees) == max_pulse,
{
    let step = per_degree(min_pulse, max_pulse, span);
    lemma_per_degree_bounds(min_pulse, max_pulse, span);
    assert((span + 1) * step <= degrees * step) by (nonlinear_arith)
        requires
            span + 1 <= degrees,
            0 <= step,
    ;
    assert((span + 1) * step == span * step + step) by (nonlinear_arith);
}

/// Computes the pulse width for `degrees` on lengths in nanoseconds.
pub fn interpolate(min_pulse: u128, max_pulse: u128, span: u64, degrees: u64) -> (pulse: u128)
    requires
        calibrated(min_pulse as nat, max_pulse as nat, span as nat),
    ensures
        pulse == pulse_width(min_pulse as nat, max_pulse as nat, span as nat, degrees as nat),
{
    let step: u128 = (max_pulse - min_pulse) / (span as u128);
    let raw: Option<u128> = match (degrees as u128).checked_mul(step) {
        Some(travel) => min_pulse.checked_add(travel),
        None => None,
    };
    match raw {
        Some(p) => if max_pulse < p {
            max_pulse
        } else {
            p
        },
        None => max_pulse,
    }
}

} // verus!
