//! The drift-correcting frame scheduler: renders frames at a fixed rate
//! for a fixed duration, sleeping only for the remainder of each frame's
//! time slot.

use vstd::prelude::*;
use vstd::arithmetic::div_mod::lemma_fundamental_div_mod_converse;
use crate::error::Error;
use crate::math::{progress, UNIT};
use crate::renderer::Renderer;

verus! {

/// A stub for the system clock, reporting monotonic nanoseconds.
///
/// The abstract `readings` and `sleeps` sequences log every reported time
/// and every requested sleep, so callers can state which sleeps a
/// schedule performs. The abstract `fuel` bounds how often the clock can
/// be read before it saturates at the end of its range, where every
/// reading pins to the maximum; a reading before that stays in the lower
/// half of the range. A real monotonic clock is centuries away from
/// either bound; the model makes termination of the frame loop provable.
pub trait Clock {
    /// How many more readings the clock can produce. Implementations
    /// outside the library inherit an unspecified value and are trusted
    /// to behave like a real clock.
    open spec fn fuel(&self) -> nat {
        arbitrary()
    }

    /// The times reported so far, newest last.
    open spec fn readings(&self) -> Seq<u64> {
        arbitrary()
    }

    /// The sleeps requested so far, newest last.
    open spec fn sleeps(&self) -> Seq<u64> {
        arbitrary()
    }

    /// Returns the current time in nanoseconds.
    fn now(&mut self) -> (t: u64)
        ensures
            final(self).readings() == old(self).readings().push(t),
            final(self).sleeps() == old(self).sleeps(),
            old(self).fuel() > 0 ==> final(self).fuel() < old(self).fuel() && t <= u64::MAX / 2,
            old(self).fuel() == 0 ==> final(self).fuel() == 0 && t == u64::MAX,
    ;

    /// Sleeps for the given number of nanoseconds.
    fn sleep(&mut self, duration: u64)
        ensures
            final(self).sleeps() == old(self).sleeps().push(duration),
            final(self).readings() == old(self).readings(),
            final(self).fuel() <= old(self).fuel(),
    ;
}

/// The step that a clock reading schedules: the time since the start
/// reading, saturating at zero, scaled to the animation's progress.
pub open spec fn step_of_reading(t: u64, start: u64, duration: u64) -> int {
    ((if t >= start {
        t - start
    } else {
        0int
    }) * UNIT) / (duration as int)
}

/// A timer for rendering: drives a renderer once per frame slot.
pub struct Timer<T> {
    /// The clock that is read and slept on.
    pub clock: T,
    /// The length of the animation in nanoseconds.
    pub duration: u64,
    /// The length of one frame slot in nanoseconds.
    pub delay: u64,
}

impl<T: Clock> Timer<T> {
    /// Creates a new timer.
    pub fn new(clock: T, duration: u64, delay: u64) -> (t: Timer<T>)
        ensures
            t.clock == clock,
            t.duration == duration,
            t.delay == delay,
    {
        Timer { clock, duration, delay }
    }

    /// Runs the animation main loop: until the duration has elapsed,
    /// renders the frame for the current progress, then sleeps away the
    /// rest of the frame slot. Of the two tick-count conventions, this
    /// scheduler stops after the last frame below full progress; the
    /// frame loop of `Runner` closes with an extra full-progress frame.
    ///
    /// Every rendered step is exactly its tick's clock reading, less the
    /// run's start reading, scaled to the animation's progress; the steps
    /// come in tick order, lie in `[0, UNIT)`, and for a positive
    /// duration the first one is zero. The clock log grows by the start
    /// stamp and two readings per frame slot, and sleeps at most once per
    /// slot, with none after a failing render. The recorded render
    /// outcomes grow in lockstep with the steps; every outcome before
    /// the last is a success, and the run returns the error of a failing
    /// render immediately: it ends in an error exactly when the last
    /// recorded render failed.
    pub fn run<TR: Renderer>(&mut self, renderer: &mut TR) -> (r: Result<(), Error>)
        requires
            old(self).duration <= u64::MAX / 2,
            old(self).clock.fuel() > 0,
        ensures
            final(self).duration == old(self).duration,
            final(self).delay == old(self).delay,
            ({
                let steps = final(renderer).steps();
                let outs = final(renderer).outcomes();
                let done = old(renderer).steps().len() as int;
                let odone = old(renderer).outcomes().len() as int;
                &&& steps.len() >= done
                &&& steps.subrange(0, done) == old(renderer).steps()
                &&& outs.len() - odone == steps.len() - done
                &&& outs.subrange(0, odone) == old(renderer).outcomes()
                &&& forall|j: int| done <= j < steps.len() ==> 0 <= #[trigger] steps[j] < UNIT
                &&& forall|j: int| odone <= j < outs.len() - 1 ==> #[trigger] outs[j] is Ok
                &&& (r is Ok <==> (outs.len() == odone || outs.last() is Ok))
                &&& (r is Err ==> outs.len() > odone && outs.last() == r)
                &&& (old(self).duration > 0 ==> steps.len() > done && steps[done] == 0)
            }),
            ({
                let steps = final(renderer).steps();
                let done = old(renderer).steps().len() as int;
                let reads = final(self).clock.readings();
                let rdone = old(self).clock.readings().len() as int;
                let sleeps = final(self).clock.sleeps();
                let sdone = old(self).clock.sleeps().len() as int;
                &&& reads.len() > rdone
                &&& reads.subrange(0, rdone) == old(self).clock.readings()
                &&& (r is Ok ==> reads.len() - rdone == 1 + 2 * (steps.len() - done))
                &&& (r is Err ==> reads.len() - rdone == 2 * (steps.len() - done) - 1)
                &&& forall|j: int|
                    done <= j < steps.len() ==> #[trigger] steps[j] == step_of_reading(
                        reads[rdone + 2 * (j - done)],
                        reads[rdone],
                        old(self).duration,
                    )
                &&& sleeps.subrange(0, sdone) == old(self).clock.sleeps()
                &&& (r is Ok ==> sleeps.len() - sdone <= steps.len() - done)
                &&& (r is Err ==> sleeps.len() - sdone <= steps.len() - done - 1)
                &&& (r is Ok ==> (if reads.last() >= reads[rdone] {
                    reads.last() - reads[rdone]
                } else {
                    0int
                }) >= old(self).duration)
            }),
    {
        let ghost done = renderer.steps().len() as int;
        let ghost odone = renderer.outcomes().len() as int;
        let ghost rdone = self.clock.readings().len() as int;
        let ghost sdone = self.clock.sleeps().len() as int;
        let start = self.clock.now();
        proof {
            assert(self.clock.readings().subrange(0, rdone) =~= old(self).clock.readings());
        }
        let mut now = start;
        loop
            invariant
                self.duration == old(self).duration,
                self.delay == old(self).delay,
                self.duration <= u64::MAX / 2,
                start <= u64::MAX / 2,
                0 <= done,
                0 <= odone,
                done == old(renderer).steps().len(),
                odone == old(renderer).outcomes().len(),
                renderer.steps().len() >= done,
                renderer.steps().subrange(0, done) == old(renderer).steps(),
                renderer.outcomes().len() - odone == renderer.steps().len() - done,
                renderer.outcomes().subrange(0, odone) == old(renderer).outcomes(),
                forall|j: int|
                    done <= j < renderer.steps().len() ==> 0 <= #[trigger] renderer.steps()[j]
                        < UNIT,
                forall|j: int|
                    odone <= j < renderer.outcomes().len() ==> #[trigger] renderer.outcomes()[j]
                        is Ok,
                self.duration > 0 ==> (renderer.steps().len() == done && now == start) || (
                renderer.steps().len() > done && renderer.steps()[done] == 0),
                0 <= rdone,
                0 <= sdone,
                rdone == old(self).clock.readings().len(),
                sdone == old(self).clock.sleeps().len(),
                self.clock.readings().subrange(0, rdone) == old(self).clock.readings(),
                self.clock.readings().len() - rdone == 1 + 2 * (renderer.steps().len() - done),
                self.clock.readings()[rdone] == start,
                now == self.clock.readings().last(),
                forall|j: int|
                    done <= j < renderer.steps().len() ==> #[trigger] renderer.steps()[j]
                        == step_of_reading(
                        self.clock.readings()[rdone + 2 * (j - done)],
                        start,
                        self.duration,
                    ),
                self.clock.sleeps().len() >= sdone,
                self.clock.sleeps().subrange(0, sdone) == old(self).clock.sleeps(),
                self.clock.sleeps().len() - sdone <= renderer.steps().len() - done,
            ensures
                self.duration == old(self).duration,
                self.delay == old(self).delay,
                renderer.steps().len() >= done,
                renderer.steps().subrange(0, done) == old(renderer).steps(),
                renderer.outcomes().len() - odone == renderer.steps().len() - done,
                renderer.outcomes().subrange(0, odone) == old(renderer).outcomes(),
                forall|j: int|
                    done <= j < renderer.steps().len() ==> 0 <= #[trigger] renderer.steps()[j]
                        < UNIT,
                forall|j: int|
                    odone <= j < renderer.outcomes().len() ==> #[trigger] renderer.outcomes()[j]
                        is Ok,
                self.duration > 0 ==> renderer.steps().len() > done && renderer.steps()[done]
                    == 0,
                (if self.clock.readings().last() >= start {
                    self.clock.readings().last() - start
                } else {
                    0int
                }) >= self.duration,
            decreases
                    self.clock.fuel(),
                    (if now == u64::MAX {
                        0int
                    } else {
                        1int
                    }),
        {
            let elapsed = if now >= start {
                now - start
            } else {
                0
            };
            if !(elapsed < self.duration) {
                break ;
            }
            let step = progress(elapsed, self.duration);
            let ghost rendered = renderer.steps().len() as int;
            let ghost prior_steps = renderer.steps();
            let outcome = renderer.render(step);
            proof {
                assert(renderer.steps().subrange(0, done) =~= old(renderer).steps());
                assert(renderer.outcomes().subrange(0, odone) =~= old(renderer).outcomes());
                if rendered == done {
                    assert(step == 0) by {
                        lemma_fundamental_div_mod_converse(0, self.duration as int, 0, 0);
                    }
                    assert(renderer.steps()[done] == 0);
                }
                assert forall|j: int|
                    done <= j < renderer.steps().len() implies #[trigger] renderer.steps()[j]
                        == step_of_reading(
                        self.clock.readings()[rdone + 2 * (j - done)],
                        start,
                        self.duration,
                    ) by {
                    if j == renderer.steps().len() - 1 {
                        assert(self.clock.readings()[rdone + 2 * (j - done)]
                            == self.clock.readings().last());
                        assert(self.clock.readings().last() == now);
                    } else {
                        assert(renderer.steps()[j] == prior_steps[j]);
                    }
                }
            }
            match outcome {
                Ok(()) => (),
                Err(e) => {
                    return Err(e);
                },
            }
            let ghost prior_reads = self.clock.readings();
            now = self.delay(now);
            proof {
                assert(self.clock.readings().subrange(0, rdone) =~= old(self).clock.readings());
                assert(self.clock.readings()[rdone] == prior_reads[rdone]);
                assert(self.clock.sleeps().subrange(0, sdone) =~= old(self).clock.sleeps());
                assert forall|j: int|
                    done <= j < renderer.steps().len() implies #[trigger] renderer.steps()[j]
                        == step_of_reading(
                        self.clock.readings()[rdone + 2 * (j - done)],
                        start,
                        self.duration,
                    ) by {
                    assert(rdone + 2 * (j - done) < prior_reads.len());
                    assert(self.clock.readings()[rdone + 2 * (j - done)] == prior_reads[rdone + 2
                        * (j - done)]);
                }
            }
        }
        Ok(())
    }

    /// Sleeps until the next frame slot starts and returns the current
    /// time, freshly read after the sleep so that latency before the call
    /// does not accumulate into later frames. The sleep lasts exactly for
    /// what is left of the slot after the time already spent since
    /// `begin`; a slot that is already over is not slept at all.
    fn delay(&mut self, begin: u64) -> (t: u64)
        ensures
            final(self).duration == old(self).duration,
            final(self).delay == old(self).delay,
            final(self).clock.fuel() <= old(self).clock.fuel(),
            old(self).clock.fuel() > 0 ==> final(self).clock.fuel() < old(self).clock.fuel(),
            old(self).clock.fuel() == 0 ==> final(self).clock.fuel() == 0 && t == u64::MAX,
            final(self).clock.readings().len() == old(self).clock.readings().len() + 2,
            final(self).clock.readings().subrange(
                0,
                old(self).clock.readings().len() as int,
            ) == old(self).clock.readings(),
            t == final(self).clock.readings().last(),
            ({
                let end = final(self).clock.readings()[old(self).clock.readings().len() as int];
                let spent: int = if end >= begin {
                    end - begin
                } else {
                    0
                };
                &&& (old(self).delay > spent ==> final(self).clock.sleeps() == old(
                    self,
                ).clock.sleeps().push((old(self).delay - spent) as u64))
                &&& (old(self).delay <= spent ==> final(self).clock.sleeps() == old(
                    self,
                ).clock.sleeps())
            }),
    {
        let end = self.clock.now();
        let spent = if end >= begin {
            end - begin
        } else {
            0
        };
        if self.delay > spent {
            self.clock.sleep(self.delay - spent);
        }
        let t = self.clock.now();
        proof {
            assert(self.clock.readings().subrange(
                0,
                old(self).clock.readings().len() as int,
            ) =~= old(self).clock.readings());
        }
        t
    }
}

} // verus!
