//! Anti-rollback floors.
use vstd::prelude::*;

verus! {

/// A security version number.
#[derive(Debug, Clone, Copy, PartialEq, Eq, Structural)]
pub struct Svn(pub u32);

/// A component's anti-rollback floor, which only ever rises.
/// [`keeps_floor`] says what is asked of an implementor.
pub trait SvnFloor: Sized {
    /// The error reported when the floor cannot be read or advanced.
    type Error;

    /// Read, the floor may answer `answer`.
    open spec fn answers_floor(&self, answer: Result<Svn, Self::Error>) -> bool {
        true
    }

    /// Asked to advance to `to`, the floor in state `pre` may answer `answer`
    /// and end in state `post`.
    open spec fn advances(pre: Self, to: Svn, answer: Result<(), Self::Error>, post: Self) -> bool {
        true
    }

    /// Reads the floor.
    fn floor(&self) -> (answer: Result<Svn, Self::Error>)
        ensures
            self.answers_floor(answer),
    ;

    /// Raises the floor to `to`. A target at or below the floor is a no-op.
    fn advance(&mut self, to: Svn) -> (answer: Result<(), Self::Error>)
        ensures
            Self::advances(*old(self), to, answer, *final(self)),
    ;
}

/// The higher of a floor and the version it is asked to advance to.
pub open spec fn raised(level: u32, to: Svn) -> u32 {
    if level < to.0 {
        to.0
    } else {
        level
    }
}

/// The floor `F` keeps its level, which `level` reads: a read that succeeds
/// answers it, and an advance that succeeds raises it to its target and never
/// lowers it.
pub open spec fn keeps_floor<F: SvnFloor>(level: spec_fn(F) -> u32) -> bool {
    &&& forall|floor: F, svn: Svn| #[trigger] floor.answers_floor(Ok(svn)) ==> svn.0 == level(floor)
    &&& forall|pre: F, to: Svn, post: F| #[trigger]
        F::advances(pre, to, Ok(()), post) ==> level(post) == raised(level(pre), to)
}

} // verus!
