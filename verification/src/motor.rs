use vstd::prelude::*;

verus! {

/// The way a DC motor turns, or `Stopped`.
#[derive(Clone, PartialEq, Eq, Structural, Debug)]
pub enum Direction {
    Forward,
    Backward,
    Stopped,
}

/// What setting a direction does to the motor driver: the level of the
/// direction pin, whether the PWM output is forced to zero, and whether the
/// remembered speed is applied again afterwards.
#[derive(Clone, Copy, PartialEq, Eq, Structural, Debug)]
pub struct DirPins {
    pub pin_a_high: bool,
    pub stop_pwm: bool,
    pub reapply_speed: bool,
}

/// The direction that reversing switches to; a stopped motor stays stopped.
pub open spec fn toggle_target(dir: Direction) -> Option<Direction> {
    match dir {
        Direction::Forward => Some(Direction::Backward),
        Direction::Backward => Some(Direction::Forward),
        Direction::Stopped => None,
    }
}

/// The PWM duty written for a raw duty `duty` out of `max_duty`: forward runs
/// on the inverted duty (which needs `duty <= max_duty`), the other directions
/// on the duty itself.
pub open spec fn oriented_duty(dir: Direction, max_duty: u32, duty: u32) -> int {
    if dir == Direction::Forward {
        max_duty - duty
    } else {
        duty as int
    }
}

impl Direction {
    /// The pin settings for this direction: forward drives the direction pin
    /// high, backward and stop drive it low; stop also zeroes the PWM duty,
    /// and any other direction re-applies the remembered speed.
    pub fn pins(&self) -> (p: DirPins)
        ensures
            p.pin_a_high == (*self == Direction::Forward),
            p.stop_pwm == (*self == Direction::Stopped),
            p.reapply_speed == (*self != Direction::Stopped),
    {
        match self {
            Direction::Forward => DirPins { pin_a_high: true, stop_pwm: false, reapply_speed: true },
            Direction::Backward => DirPins {
                pin_a_high: false,
                stop_pwm: false,
                reapply_speed: true,
            },
            Direction::Stopped => DirPins { pin_a_high: false, stop_pwm: true, reapply_speed: false },
        }
    }

    /// The direction that reversing the motor switches to, if it turns at all.
    pub fn toggled(&self) -> (t: Option<Direction>)
        ensures
            t == toggle_target(*self),
            *self == Direction::Forward ==> t == Some(Direction::Backward),
            *self == Direction::Backward ==> t == Some(Direction::Forward),
            *self == Direction::Stopped ==> t is None,
    {
        match self {
            Direction::Forward => Some(Direction::Backward),
            Direction::Backward => Some(Direction::Forward),
            Direction::Stopped => None,
        }
    }

    /// The PWM duty to write for a raw duty of `duty` out of `max_duty`; going
    /// forward, the raw duty must not exceed the maximum.
    pub fn pwm_duty(&self, max_duty: u32, duty: u32) -> (d: u32)
        requires
            *self == Direction::Forward ==> duty <= max_duty,
        ensures
            d == oriented_duty(*self, max_duty, duty),
            *self == Direction::Forward ==> d <= max_duty,
            *self == Direction::Forward ==> d + duty == max_duty,
            *self != Direction::Forward ==> d == duty,
    {
        match self {
            Direction::Forward => max_duty - duty,
            _ => duty,
        }
    }
}

/// Reversing a turning motor twice restores its direction; reversing never
/// stops a turning motor, and a stopped motor has nothing to reverse to.
pub proof fn lemma_toggle_involution(dir: Direction)
    ensures
        dir != Direction::Stopped ==> (toggle_target(dir) matches Some(t) && t != Direction::Stopped
            && toggle_target(t) == Some(dir)),
        dir == Direction::Stopped ==> toggle_target(dir) is None,
{
}

/// The PWM duty is the raw duty itself except going forward, where it is the
/// complement of the raw duty in the channel's range, at every resolution.
pub proof fn lemma_oriented_duty_values(dir: Direction, max_duty: u32, duty: u32)
    requires
        dir == Direction::Forward ==> duty <= max_duty,
    ensures
        dir == Direction::Forward ==> oriented_duty(dir, max_duty, duty) + duty == max_duty,
        dir != Direction::Forward ==> oriented_duty(dir, max_duty, duty) == duty,
{
}

/// Forward and backward at the same raw duty drive complementary PWM duties.
pub proof fn lemma_forward_backward_complement(max_duty: u32, duty: u32)
    requires
        duty <= max_duty,
    ensures
        oriented_duty(Direction::Forward, max_duty, duty) + oriented_duty(
            Direction::Backward,
            max_duty,
            duty,
        ) == max_duty,
{
}

} // verus!
