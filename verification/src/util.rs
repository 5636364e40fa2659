//! Small general-purpose types.

use vstd::prelude::*;

verus! {

/// A value of one of two types.
#[derive(Debug, PartialEq, Eq)]
pub enum Either<L, R> {
    /// The first alternative.
    Left(L),
    /// The second alternative.
    Right(R),
}

impl<L: Clone, R: Clone> Clone for Either<L, R> {
    fn clone(&self) -> (same: Self)
        ensures
            self is Left <==> same is Left,
    {
        match self {
            Either::Left(left) => Either::Left(left.clone()),
            Either::Right(right) => Either::Right(right.clone()),
        }
    }
}

impl<L: Copy, R: Copy> Copy for Either<L, R> {

}

} // verus!
