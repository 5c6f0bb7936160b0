//! The count-up timers behind the hit cooldown and the portal delay.
//!
//! A `Cooldown` is a `bevy::time::Timer` that counts once and is never
//! paused. What this library relies on of that timer is stated at the top of
//! this file and taken on trust; the cooldown built on it is proved.

use vstd::prelude::*;
use bevy::time::{Timer, TimerMode};
use std::time::Duration;

verus! {

/// `bevy::time::Timer`, taken as it is: nothing inside it is read here.
#[verifier::external_type_specification]
#[verifier::external_body]
pub struct ExTimer(Timer);

/// The time a timer has counted, in nanoseconds: what `Timer::elapsed` reports.
pub uninterp spec fn timer_elapsed_nanos(timer: Timer) -> nat;

/// The time after which a timer finishes, in nanoseconds: what
/// `Timer::duration` reports.
pub uninterp spec fn timer_duration_nanos(timer: Timer) -> nat;

/// Whether a timer has finished: what `Timer::finished` reports.
pub uninterp spec fn timer_finished(timer: Timer) -> bool;

/// Whether a timer counts once and is running: its mode is
/// `TimerMode::Once` and it is not paused.
pub uninterp spec fn timer_counts_once(timer: Timer) -> bool;

/// The longest time a `Duration` can hold, in nanoseconds.
pub const DURATION_MAX_NANOS: u128 = 18_446_744_073_709_551_615_999_999_999;

/// `Timer::new` with a duration of whole milliseconds and `TimerMode::Once`:
/// the new timer runs, has counted nothing and has not finished, whatever its
/// duration.
#[verifier::external_body]
fn new_once_timer(millis: u64) -> (timer: Timer)
    ensures
        timer_counts_once(timer),
        timer_elapsed_nanos(timer) == 0,
        timer_duration_nanos(timer) == millis * 1_000_000,
        !timer_finished(timer),
{
    Timer::new(Duration::from_millis(millis), TimerMode::Once)
}

/// `Timer::tick` with a step of whole microseconds, on a running timer that
/// counts once. A finished timer stays as it is. Otherwise the step is added
/// to the elapsed time; if that reaches the duration the timer finishes and
/// its elapsed time is set to the duration. The addition panics beyond the
/// range of `Duration`, which `requires` rules out.
#[verifier::external_body]
fn tick_timer(timer: &mut Timer, delta_micros: u64)
    requires
        timer_counts_once(*old(timer)),
        timer_elapsed_nanos(*old(timer)) + delta_micros * 1_000 <= DURATION_MAX_NANOS,
    ensures
        timer_counts_once(*final(timer)),
        timer_duration_nanos(*final(timer)) == timer_duration_nanos(*old(timer)),
        timer_finished(*final(timer)) == (timer_finished(*old(timer)) || timer_elapsed_nanos(
            *old(timer),
        ) + delta_micros * 1_000 >= timer_duration_nanos(*old(timer))),
        timer_elapsed_nanos(*final(timer)) as int == if timer_finished(*old(timer)) {
            timer_elapsed_nanos(*old(timer)) as int
        } else if timer_elapsed_nanos(*old(timer)) + delta_micros * 1_000 >= timer_duration_nanos(
            *old(timer),
        ) {
            timer_duration_nanos(*old(timer)) as int
        } else {
            timer_elapsed_nanos(*old(timer)) + delta_micros * 1_000
        },
{
    timer.tick(Duration::from_micros(delta_micros));
}

/// `Timer::finished` reads the flag that `Timer::tick` and `Timer::reset` set.
pub assume_specification[ Timer::finished ](timer: &Timer) -> (finished: bool)
    ensures
        finished == timer_finished(*timer),
;

/// `Timer::reset` sets the elapsed time to zero and clears the finished flag;
/// duration, mode and pause are left alone.
pub assume_specification[ Timer::reset ](timer: &mut Timer)
    ensures
        timer_counts_once(*final(timer)) == timer_counts_once(*old(timer)),
        timer_duration_nanos(*final(timer)) == timer_duration_nanos(*old(timer)),
        timer_elapsed_nanos(*final(timer)) == 0,
        !timer_finished(*final(timer)),
;

/// A timer that counts frame times up to its duration, once, and then stays
/// finished until it is reset.
pub struct Cooldown {
    timer: Timer,
}

/// What a cooldown shows, in nanoseconds.
pub struct CooldownView {
    /// The time counted so far.
    pub elapsed: nat,
    /// The time after which the cooldown finishes.
    pub duration: nat,
    /// Whether the cooldown has finished.
    pub finished: bool,
}

impl CooldownView {
    /// The cooldown after `delta_micros` more microseconds. A finished
    /// cooldown stays as it is; one that reaches its duration finishes there.
    pub open spec fn ticked(self, delta_micros: int) -> CooldownView {
        if self.finished {
            self
        } else if self.elapsed + delta_micros * 1_000 >= self.duration {
            CooldownView { elapsed: self.duration, finished: true, ..self }
        } else {
            CooldownView { elapsed: (self.elapsed + delta_micros * 1_000) as nat, ..self }
        }
    }

    /// The cooldown started over.
    pub open spec fn reset(self) -> CooldownView {
        CooldownView { elapsed: 0, finished: false, ..self }
    }
}

/// A cooldown adds frame times up: counting two steps one after the other is
/// counting their sum.
pub proof fn ticks_add_up(cooldown: CooldownView, first: u64, second: u64)
    ensures
        cooldown.ticked(first as int).ticked(second as int) == cooldown.ticked(first + second),
{
}

impl View for Cooldown {
    type V = CooldownView;

    closed spec fn view(&self) -> CooldownView {
        CooldownView {
            elapsed: timer_elapsed_nanos(self.timer),
            duration: timer_duration_nanos(self.timer),
            finished: timer_finished(self.timer),
        }
    }
}

impl Cooldown {
    /// The timer inside counts once, has never counted beyond its duration,
    /// and a step can always be added to what it has counted.
    #[verifier::type_invariant]
    spec fn sound(&self) -> bool {
        &&& timer_counts_once(self.timer)
        &&& timer_elapsed_nanos(self.timer) <= timer_duration_nanos(self.timer)
        &&& timer_duration_nanos(self.timer) <= u64::MAX * 1_000_000
    }

    /// A cooldown of `millis` milliseconds that has counted nothing yet.
    pub fn new(millis: u64) -> (cooldown: Cooldown)
        ensures
            cooldown@ == (CooldownView {
                elapsed: 0,
                duration: (millis * 1_000_000) as nat,
                finished: false,
            }),
    {
        Cooldown { timer: new_once_timer(millis) }
    }

    /// Counts `delta_micros` more microseconds.
    pub fn tick(&mut self, delta_micros: u64)
        ensures
            final(self)@ == old(self)@.ticked(delta_micros as int),
    {
        proof {
            use_type_invariant(&*self);
        }
        // The timer is taken out while it is worked on, so that the cooldown
        // holds a sound timer at every point.
        let mut timer = new_once_timer(0);
        std::mem::swap(&mut timer, &mut self.timer);
        tick_timer(&mut timer, delta_micros);
        self.timer = timer;
    }

    /// Whether the cooldown has finished.
    pub fn finished(&self) -> (finished: bool)
        ensures
            finished == self@.finished,
    {
        self.timer.finished()
    }

    /// Starts the cooldown over.
    pub fn reset(&mut self)
        ensures
            final(self)@ == old(self)@.reset(),
    {
        proof {
            use_type_invariant(&*self);
        }
        let mut timer = new_once_timer(0);
        std::mem::swap(&mut timer, &mut self.timer);
        timer.reset();
        self.timer = timer;
    }
}

} // verus!
