use vstd::prelude::*;

verus! {

/// The PWM duty of a hobby servo at 0 degrees: 2.5 % of the full duty range.
pub open spec fn min_duty_of(max_duty: u32) -> int {
    (25 * max_duty) / 1000
}

/// The PWM duty of a hobby servo at 180 degrees: 12.5 % of the full duty range.
pub open spec fn max_duty_of(max_duty: u32) -> int {
    (125 * max_duty) / 1000
}

/// The servo duty bounds are 2.5 % and 12.5 % of the channel's range, rounded
/// down, at every channel resolution: the duty at 0 degrees is the largest
/// whole duty not above 25/1000 of the maximum, and the duty at 180 degrees the
/// largest not above 125/1000 of it.
pub proof fn lemma_servo_duty_scale(max_duty: u32)
    ensures
        min_duty_of(max_duty) * 1000 <= 25 * max_duty < min_duty_of(max_duty) * 1000 + 1000,
        max_duty_of(max_duty) * 1000 <= 125 * max_duty < max_duty_of(max_duty) * 1000 + 1000,
        0 <= min_duty_of(max_duty) <= max_duty_of(max_duty) <= max_duty,
{
}

/// The duty at 0 degrees and the span of duties from 0 to 180 degrees, for a
/// PWM channel whose duty runs up to `max_duty`.
pub fn duty_bounds(max_duty: u32) -> (r: (u32, u32))
    requires
        125 * max_duty <= u32::MAX,
    ensures
        r.0 == min_duty_of(max_duty),
        r.1 == max_duty_of(max_duty) - min_duty_of(max_duty),
        r.0 + r.1 <= max_duty,
        // the bounds are 2.5 % and 12.5 % of the channel's range, rounded down
        r.0 * 1000 <= 25 * max_duty < r.0 * 1000 + 1000,
        (r.0 + r.1) * 1000 <= 125 * max_duty < (r.0 + r.1) * 1000 + 1000,
{
    let min_duty: u32 = (25 * max_duty) / 1000;
    let max_d: u32 = (125 * max_duty) / 1000;
    assert(min_duty <= max_d && max_d <= max_duty) by (nonlinear_arith)
        requires
            min_duty == (25 * max_duty) / 1000,
            max_d == (125 * max_duty) / 1000,
    ;
    (min_duty, max_d - min_duty)
}

} // verus!
