//! The few services the simulation takes from other crates: quicksilver's
//! `Timer` for shot cooldowns and rand's thread-local generator for spawn
//! points.
use quicksilver::Timer;
use rand::Rng;
use std::time::Duration;
use vstd::prelude::*;

verus! {

#[verifier::external_type_specification]
#[verifier::external_body]
pub struct ExTimer(Timer);

/// A shot cooldown. Its timer can only come from `Cooldown::new`, so its
/// period is always at least a millisecond.
pub struct Cooldown {
    timer: Timer,
}

impl Cooldown {
    /// A cooldown of `period_ms` milliseconds, counting from now.
    pub fn new(period_ms: u64) -> Cooldown
        requires
            period_ms >= 1,
    {
        Cooldown { timer: timer_with_period_ms(period_ms) }
    }

    /// How many whole periods have gone by since the cooldown last counted,
    /// all of which are used up.
    pub fn elapsed_periods(&mut self) -> usize {
        timer_exhaust(self)
    }

    /// Starts counting again from now.
    pub fn restart(&mut self) {
        timer_reset(&mut self.timer)
    }
}

/// Relies on quicksilver's `Timer::with_duration`: a timer that ticks once
/// every `period_ms` milliseconds, counting from now.
#[verifier::external_body]
fn timer_with_period_ms(period_ms: u64) -> Timer
    requires
        period_ms >= 1,
{
    Timer::with_duration(Duration::from_millis(period_ms))
}

/// Relies on quicksilver's `Timer::exhaust`: the number of whole periods that
/// have elapsed since the timer was last ticked, all of them consumed. It
/// loops once per elapsed period, and a cooldown's period is never zero, so
/// it returns. It depends on the clock, so nothing is promised of the count.
#[verifier::external_body]
fn timer_exhaust(cooldown: &mut Cooldown) -> usize {
    match cooldown.timer.exhaust() {
        Some(n) => n.get(),
        None => 0,
    }
}

/// Relies on quicksilver's `Timer::reset`: the timer counts again from now,
/// with the same period.
#[verifier::external_body]
fn timer_reset(timer: &mut Timer) {
    timer.reset()
}

/// Relies on rand's `Rng::gen_range` on `thread_rng()`: a value drawn from
/// `low..high`, which it panics on only when the range is empty.
#[verifier::external_body]
pub(crate) fn random_in_range(low: i64, high: i64) -> (r: i64)
    requires
        low < high,
    ensures
        low <= r < high,
{
    rand::thread_rng().gen_range(low..high)
}

} // verus!
