//! Random selection among user-supplied options, with a fallback to all
//! values of the type.

use vstd::prelude::*;

verus! {

/// A type whose values can all be enumerated.
pub trait Collection where Self: Sized {
    /// All values of the type, as a specification. Implementations
    /// outside the library inherit an unspecified list and are trusted
    /// to return it from `all`.
    open spec fn all_spec() -> Seq<Self> {
        arbitrary()
    }

    /// Returns all values; there is at least one.
    fn all() -> (v: Vec<Self>)
        ensures
            v@ == Self::all_spec(),
            v@.len() > 0,
    ;
}

/// Takes the entry of the options that the pick, wrapped around the
/// number of options, points at.
pub fn select<TValue>(options: Vec<TValue>, pick: usize) -> (r: TValue)
    requires
        options@.len() > 0,
    ensures
        r == options@[pick as int % options@.len() as int],
{
    let mut options = options;
    let index = pick % options.len();
    options.remove(index)
}

/// Relies on `rand::random`: draws a random machine word; the draw is
/// random, so nothing is assumed of the result.
#[verifier::external_body]
fn random_usize() -> usize {
    rand::random::<usize>()
}

/// Chooses randomly among options.
pub struct Chooser;

impl Chooser {
    /// Creates a new chooser.
    pub fn new() -> (c: Chooser) {
        Chooser
    }

    /// Picks a random entry of the selection, or a random value of the
    /// whole type when the selection is empty. The draw is random, so
    /// only membership — in the selection, or in the type's value list
    /// when none was given — is promised.
    pub fn pick<TValue: Collection>(&mut self, selection: Vec<TValue>) -> (r: TValue)
        ensures
            selection@.len() > 0 ==> selection@.contains(r),
            selection@.len() == 0 ==> TValue::all_spec().contains(r),
    {
        let ghost given = selection@;
        let options = if selection.is_empty() {
            TValue::all()
        } else {
            selection
        };
        let drawn = random_usize();
        let r = select(options, drawn);
        proof {
            if given.len() > 0 {
                assert(given.contains(r)) by {
                    assert(given[drawn as int % given.len() as int] == r);
                }
            } else {
                assert(TValue::all_spec().contains(r)) by {
                    assert(TValue::all_spec()[drawn as int % TValue::all_spec().len() as int]
                        == r);
                }
            }
        }
        r
    }
}

} // verus!
