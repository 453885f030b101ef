//! The frame loop: renders and presents one frame per tick for a fixed
//! duration, then a final frame at full progress.

use vstd::prelude::*;
use crate::error::Error;
use crate::math::{progress, UNIT};
use crate::render::Renderer;

verus! {

/// A tick source for the frame loop: stamps the start of the run, reports
/// the time elapsed since then, and waits for the next tick.
///
/// The abstract `reads` sequence logs every reported elapsed time, so
/// callers can state which reading each frame was scheduled from. The
/// abstract `fuel` bounds how many more ticks the source can produce
/// before it saturates at the end of its range; once it is exhausted the
/// reported elapsed time pins to the maximum. It models that a bounded
/// animation outlives any real clock reading, and makes termination of
/// the frame loop provable.
pub trait Timer {
    /// How many more ticks the source can produce. Implementations
    /// outside the library inherit an unspecified value and are trusted
    /// to behave like a real tick source.
    open spec fn fuel(&self) -> nat {
        arbitrary()
    }

    /// The elapsed times reported so far, newest last.
    open spec fn reads(&self) -> Seq<u64> {
        arbitrary()
    }

    /// Stamps the start of the run.
    fn set(&mut self)
        ensures
            final(self).reads() == old(self).reads(),
    ;

    /// Returns the time elapsed since the start, in milliseconds.
    fn elapsed(&mut self) -> (t: u64)
        ensures
            final(self).fuel() == old(self).fuel(),
            final(self).reads() == old(self).reads().push(t),
            old(self).fuel() == 0 ==> t == u64::MAX,
    ;

    /// Sleeps until the next frame is due.
    fn sleep(&mut self)
        ensures
            final(self).reads() == old(self).reads(),
            old(self).fuel() > 0 ==> final(self).fuel() < old(self).fuel(),
            old(self).fuel() == 0 ==> final(self).fuel() == 0,
    ;
}

/// The steps that a sequence of elapsed readings schedules: each reading
/// scaled to the animation's progress.
pub open spec fn steps_of_reads(reads: Seq<u64>, duration: u64) -> Seq<i64> {
    reads.map_values(|t: u64| (((t as int) * UNIT) / (duration as int)) as i64)
}

/// Periodically renders and presents frames until the duration has
/// elapsed, closing with one frame at full progress.
pub struct Runner<TTimer, TRenderer> {
    /// The length of the animation in milliseconds.
    pub duration: u64,
    /// The tick source.
    pub timer: TTimer,
    /// The renderer driven once per tick.
    pub renderer: TRenderer,
}

impl<T1: Timer, T2: Renderer> Runner<T1, T2> {
    /// Creates a new runner.
    pub fn new(duration: u64, timer: T1, renderer: T2) -> (r: Runner<T1, T2>)
        ensures
            r.duration == duration,
            r.timer == timer,
            r.renderer == renderer,
    {
        Runner { duration, timer, renderer }
    }

    /// Runs the animation main loop: while the duration has not elapsed,
    /// renders the frame for the current progress and presents it; after
    /// the loop, renders and presents one frame at full progress.
    ///
    /// Every step rendered before the final one is exactly its tick's
    /// elapsed reading scaled to the animation's progress, in tick order
    /// and inside `[0, UNIT)`; a successful run closes with the step
    /// `UNIT` once the readings reach the duration. Each frame is
    /// presented exactly once. The recorded present outcomes grow in
    /// lockstep with the steps; every outcome before the last is a
    /// success, and the error of a failing present cuts the run short
    /// and is returned: the run ends in an error exactly when the last
    /// recorded present failed.
    pub fn run(&mut self) -> (r: Result<(), Error>)
        ensures
            ({
                let steps = final(self).renderer.steps();
                let outs = final(self).renderer.outcomes();
                let reads = final(self).timer.reads();
                let done = old(self).renderer.steps().len() as int;
                let odone = old(self).renderer.outcomes().len() as int;
                let rdone = old(self).timer.reads().len() as int;
                let pushed = steps.skip(done);
                &&& steps.len() > done
                &&& steps.subrange(0, done) == old(self).renderer.steps()
                &&& forall|j: int|
                    0 <= j < pushed.len() - 1 ==> 0 <= #[trigger] pushed[j] < UNIT
                &&& 0 <= pushed.last() <= UNIT
                &&& final(self).renderer.presents() == old(self).renderer.presents()
                    + pushed.len()
                &&& outs.len() - odone == pushed.len()
                &&& outs.subrange(0, odone) == old(self).renderer.outcomes()
                &&& forall|j: int| odone <= j < outs.len() - 1 ==> #[trigger] outs[j] is Ok
                &&& outs.last() == r
                &&& (r is Ok ==> pushed.last() == UNIT)
                &&& reads.subrange(0, rdone) == old(self).timer.reads()
                &&& reads.len() - rdone == pushed.len()
                &&& pushed.drop_last() == steps_of_reads(
                    reads.skip(rdone).drop_last(),
                    old(self).duration,
                )
                &&& (r is Ok ==> reads.last() >= final(self).duration)
            }),
            final(self).duration == old(self).duration,
    {
        let ghost done = self.renderer.steps().len() as int;
        let ghost odone = self.renderer.outcomes().len() as int;
        let ghost rdone = self.timer.reads().len() as int;
        self.timer.set();
        loop
            invariant_except_break
                self.timer.reads().len() - rdone == self.renderer.steps().len() - done,
                self.renderer.steps().skip(done) == steps_of_reads(
                    self.timer.reads().skip(rdone),
                    self.duration,
                ),
            invariant
                self.duration == old(self).duration,
                0 <= done,
                0 <= odone,
                0 <= rdone,
                done == old(self).renderer.steps().len(),
                odone == old(self).renderer.outcomes().len(),
                rdone == old(self).timer.reads().len(),
                self.renderer.steps().len() >= done,
                self.renderer.steps().subrange(0, done) == old(self).renderer.steps(),
                forall|j: int|
                    done <= j < self.renderer.steps().len() ==> 0 <= #[trigger] self.renderer.steps()[j] < UNIT,
                self.renderer.presents() == old(self).renderer.presents()
                    + self.renderer.steps().len() - done,
                self.renderer.outcomes().len() - odone == self.renderer.steps().len() - done,
                self.renderer.outcomes().subrange(0, odone) == old(self).renderer.outcomes(),
                forall|j: int|
                    odone <= j < self.renderer.outcomes().len() ==> #[trigger] self.renderer.outcomes()[j] is Ok,
                self.timer.reads().len() >= rdone,
                self.timer.reads().subrange(0, rdone) == old(self).timer.reads(),
            ensures
                self.timer.reads().len() - rdone == self.renderer.steps().len() - done + 1,
                self.timer.reads().len() > rdone,
                self.timer.reads().last() >= self.duration,
                self.renderer.steps().skip(done) == steps_of_reads(
                    self.timer.reads().skip(rdone).drop_last(),
                    self.duration,
                ),
            decreases self.timer.fuel(),
        {
            let ghost prior_reads = self.timer.reads();
            let ghost prior_steps = self.renderer.steps();
            let elapsed = self.timer.elapsed();
            proof {
                assert(self.timer.reads().subrange(0, rdone) =~= old(self).timer.reads());
                assert(self.timer.reads().skip(rdone).drop_last() =~= prior_reads.skip(rdone));
                assert(self.timer.reads().last() == elapsed);
            }
            if !(elapsed < self.duration) {
                break ;
            }
            let step = progress(elapsed, self.duration);
            self.renderer.render(step);
            proof {
                assert(self.renderer.steps().subrange(0, done) =~= old(
                    self,
                ).renderer.steps());
                let steps2 = self.renderer.steps();
                let reads2 = self.timer.reads();
                let mapped = steps_of_reads(reads2.skip(rdone), self.duration);
                assert(steps2.skip(done).len() == mapped.len());
                assert forall|i: int| 0 <= i < mapped.len() implies steps2.skip(done)[i]
                    == mapped[i] by {
                    assert(steps2.skip(done)[i] == steps2[done + i]);
                    assert(mapped[i] == (((reads2.skip(rdone)[i] as int) * UNIT) / (
                    self.duration as int)) as i64);
                    assert(reads2.skip(rdone)[i] == reads2[rdone + i]);
                    if i < mapped.len() - 1 {
                        assert(steps2[done + i] == prior_steps[done + i]);
                        assert(reads2[rdone + i] == prior_reads[rdone + i]);
                        assert(prior_steps.skip(done)[i] == prior_steps[done + i]);
                        assert(prior_steps.skip(done)[i] == steps_of_reads(
                            prior_reads.skip(rdone),
                            self.duration,
                        )[i]);
                        assert(steps_of_reads(prior_reads.skip(rdone), self.duration)[i] == (((
                        prior_reads.skip(rdone)[i] as int) * UNIT) / (self.duration as int))
                            as i64);
                        assert(prior_reads.skip(rdone)[i] == prior_reads[rdone + i]);
                    } else {
                        assert(steps2[done + i] == step);
                        assert(reads2[rdone + i] == elapsed);
                    }
                }
                assert(steps2.skip(done) =~= mapped);
            }
            let presented = self.renderer.present();
            proof {
                assert(self.renderer.outcomes().subrange(0, odone) =~= old(
                    self,
                ).renderer.outcomes());
            }
            match presented {
                Ok(()) => (),
                Err(e) => {
                    proof {
                        lemma_skip_facts(self.renderer.steps(), old(self).renderer.steps(), done);
                        assert(self.renderer.steps().skip(done) =~= steps_of_reads(
                            self.timer.reads().skip(rdone),
                            self.duration,
                        ));
                        assert(self.renderer.steps().skip(done).drop_last() =~= steps_of_reads(
                            self.timer.reads().skip(rdone).drop_last(),
                            self.duration,
                        ));
                    }
                    return Err(e);
                },
            }
            self.timer.sleep();
        }
        let ghost loop_steps = self.renderer.steps();
        self.renderer.render(UNIT);
        proof {
            assert(self.renderer.steps().subrange(0, done) =~= old(self).renderer.steps());
            assert(self.renderer.steps().skip(done).drop_last() =~= loop_steps.skip(done));
            assert(self.renderer.steps().skip(done).drop_last() == steps_of_reads(
                self.timer.reads().skip(rdone).drop_last(),
                self.duration,
            ));
        }
        let r = self.renderer.present();
        proof {
            assert(self.renderer.outcomes().subrange(0, odone) =~= old(
                self,
            ).renderer.outcomes());
            lemma_skip_facts(self.renderer.steps(), old(self).renderer.steps(), done);
        }
        r
    }
}

/// Splitting a grown sequence at the old length: the prefix is the old
/// sequence and the suffix holds the pushed steps.
proof fn lemma_skip_facts(steps: Seq<i64>, prior: Seq<i64>, done: int)
    requires
        0 <= done <= steps.len(),
        steps.subrange(0, done) == prior,
    ensures
        steps.skip(done).len() == steps.len() - done,
        forall|j: int|
            0 <= j < steps.len() - done ==> #[trigger] steps.skip(done)[j] == steps[done + j],
        steps.len() > done ==> steps.skip(done).last() == steps.last(),
{
}

} // verus!
