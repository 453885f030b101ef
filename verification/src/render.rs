//! The two-phase renderer abstraction: drawing a frame into a buffer and
//! presenting the finished frame.

use vstd::prelude::*;
use crate::error::Error;
use crate::math::UNIT;

verus! {

/// A renderer whose frames are first drawn and then presented. The
/// abstract `steps` sequence records the steps rendered so far, newest
/// last; `presents` counts the frames flushed to the terminal, and
/// `outcomes` records, in order, each present's result, errors included.
pub trait Renderer {
    /// The animation steps rendered so far. Implementations outside the
    /// library inherit an unspecified value and are trusted to record
    /// their calls faithfully.
    open spec fn steps(&self) -> Seq<i64> {
        arbitrary()
    }

    /// The number of frames presented so far.
    open spec fn presents(&self) -> nat {
        arbitrary()
    }

    /// The result of each present so far.
    open spec fn outcomes(&self) -> Seq<Result<(), Error>> {
        arbitrary()
    }

    /// Renders the frame for the given step into the buffer.
    fn render(&mut self, step: i64)
        requires
            0 <= step <= UNIT,
        ensures
            final(self).steps() == old(self).steps().push(step),
            final(self).presents() == old(self).presents(),
            final(self).outcomes() == old(self).outcomes(),
    ;

    /// Presents the finished frame.
    fn present(&mut self) -> (r: Result<(), Error>)
        ensures
            final(self).presents() == old(self).presents() + 1,
            final(self).steps() == old(self).steps(),
            final(self).outcomes() == old(self).outcomes().push(r),
    ;

    /// Restores the terminal after the last frame.
    fn finish(&mut self) -> (r: Result<(), Error>)
        ensures
            final(self).presents() == old(self).presents(),
            final(self).steps() == old(self).steps(),
            final(self).outcomes() == old(self).outcomes(),
    ;
}

} // verus!
