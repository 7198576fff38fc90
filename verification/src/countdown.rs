//! One-shot countdowns: a countdown runs towards a fixed duration, stops
//! there, and reports the one tick on which it arrived.

use bevy::time::{Timer, TimerMode};
use std::time::Duration;
use vstd::prelude::*;

verus! {

/// Where a countdown that has run for `elapsed` stands after `delta` more
/// nanoseconds: it stops at its duration.
pub open spec fn advanced(duration: nat, elapsed: nat, delta: nat) -> nat {
    if elapsed + delta >= duration {
        duration
    } else {
        elapsed + delta
    }
}

/// The sum of a run of frame deltas.
pub open spec fn total(deltas: Seq<nat>) -> nat
    decreases deltas.len(),
{
    if deltas.len() == 0 {
        0
    } else {
        total(deltas.drop_last()) + deltas.last()
    }
}

/// A countdown as two numbers of nanoseconds.
pub struct CountdownView {
    pub duration: nat,
    pub elapsed: nat,
}

impl CountdownView {
    /// The countdown has reached its duration.
    pub open spec fn finished(self) -> bool {
        self.elapsed >= self.duration
    }

    /// The elapsed time has not run past the duration.
    pub open spec fn bounded(self) -> bool {
        self.elapsed <= self.duration
    }

    /// A tick of `delta` takes the countdown from unfinished to finished.
    pub open spec fn finishes_on(self, delta: nat) -> bool {
        !self.finished() && self.elapsed + delta >= self.duration
    }

    /// The countdown after a tick of `delta`. A finished countdown holds.
    pub open spec fn tick(self, delta: nat) -> CountdownView {
        if self.finished() {
            self
        } else {
            CountdownView {
                duration: self.duration,
                elapsed: advanced(self.duration, self.elapsed, delta),
            }
        }
    }

    /// The countdown after one tick for each of `deltas`, in order.
    pub open spec fn tick_all(self, deltas: Seq<nat>) -> CountdownView
        decreases deltas.len(),
    {
        if deltas.len() == 0 {
            self
        } else {
            self.tick_all(deltas.drop_last()).tick(deltas.last())
        }
    }
}

/// A countdown that runs once towards a fixed duration and then stays there.
/// Both fields are in nanoseconds.
#[derive(Clone, Copy, Debug)]
pub struct Countdown {
    pub duration: u64,
    pub elapsed: u64,
}

impl View for Countdown {
    type V = CountdownView;

    open spec fn view(&self) -> CountdownView {
        CountdownView { duration: self.duration as nat, elapsed: self.elapsed as nat }
    }
}

/// Runs one `tick` of a one-shot `bevy::time::Timer` of the given duration
/// that has already run for `elapsed`, and reads back how far it has come and
/// whether that tick completed it. The timer is set up with `Timer::new` and
/// `Timer::set_elapsed` and read with `Timer::elapsed` and
/// `Timer::just_finished`.
///
/// Not proved, but taken from bevy: for a one-shot timer that is neither
/// paused nor marked as finished, `Timer::tick` adds `delta` to the elapsed
/// time; where the sum reaches the duration it sets the elapsed time to the
/// duration and counts one completion for that tick, which
/// `Timer::just_finished` reports; otherwise it counts none.
#[verifier::external_body]
fn tick_once(duration: u64, elapsed: u64, delta: u64) -> (r: (u64, bool))
    ensures
        r.0 == advanced(duration as nat, elapsed as nat, delta as nat),
        r.1 == (elapsed + delta >= duration),
{
    let mut timer = Timer::new(Duration::from_nanos(duration), TimerMode::Once);
    timer.set_elapsed(Duration::from_nanos(elapsed));
    timer.tick(Duration::from_nanos(delta));
    (timer.elapsed().as_nanos() as u64, timer.just_finished())
}

impl Countdown {
    /// A countdown of `duration` nanoseconds that has not started.
    pub fn new(duration: u64) -> (c: Countdown)
        ensures
            c@ == (CountdownView { duration: duration as nat, elapsed: 0 }),
    {
        Countdown { duration, elapsed: 0 }
    }

    /// Whether the countdown has reached its duration.
    pub fn finished(&self) -> (b: bool)
        ensures
            b == self@.finished(),
    {
        self.elapsed >= self.duration
    }

    /// Advances the countdown by `delta` nanoseconds, stopping at its
    /// duration, and tells whether this tick is the one that finished it.
    pub fn tick(&mut self, delta: u64) -> (just_finished: bool)
        ensures
            final(self)@ == old(self)@.tick(delta as nat),
            just_finished == old(self)@.finishes_on(delta as nat),
    {
        if self.finished() {
            return false;
        }
        let (elapsed, just_finished) = tick_once(self.duration, self.elapsed, delta);
        self.elapsed = elapsed;
        just_finished
    }
}

/// Ticks add up and stop at the duration: after any run of ticks a bounded
/// countdown stands at its start plus the sum of the deltas, or at its
/// duration where that sum reaches it.
pub proof fn lemma_tick_all_saturates(c: CountdownView, deltas: Seq<nat>)
    requires
        c.bounded(),
    ensures
        c.tick_all(deltas).duration == c.duration,
        c.tick_all(deltas).elapsed == advanced(c.duration, c.elapsed, total(deltas)),
        c.tick_all(deltas).bounded(),
    decreases deltas.len(),
{
    if deltas.len() > 0 {
        lemma_tick_all_saturates(c, deltas.drop_last());
    }
}

/// Once finished, always finished: no run of ticks takes a countdown back
/// below its duration.
pub proof fn lemma_finished_is_stable(c: CountdownView, before: Seq<nat>, after: Seq<nat>)
    requires
        c.tick_all(before).finished(),
    ensures
        c.tick_all(before + after).finished(),
        c.tick_all(before + after) == c.tick_all(before),
    decreases after.len(),
{
    if after.len() == 0 {
        assert(before + after =~= before);
    } else {
        lemma_finished_is_stable(c, before, after.drop_last());
        assert((before + after).drop_last() =~= before + after.drop_last());
        assert((before + after).last() == after.last());
    }
}

} // verus!
