use vstd::prelude::*;

verus! {

/// A reversible operation on a target that the caller owns.
///
/// What an operation does is stated over the target's view by its spec
/// functions, which every implementation gives. The operation itself is not
/// changed by `apply` or `undo`: once recorded, an entry stays as it is, but
/// for absorbing the operation that follows it.
pub trait Command: Sized {
    type Target: View;
    type Output;
    type Error;

    /// What `apply` returns on a target whose view is `t`.
    spec fn apply_result(&self, t: <Self::Target as View>::V) -> Result<Self::Output, Self::Error>;

    /// What a successful `apply` makes of a target whose view is `t`.
    spec fn apply_view(&self, t: <Self::Target as View>::V) -> <Self::Target as View>::V;

    /// What `undo` returns on a target whose view is `t`.
    spec fn undo_result(&self, t: <Self::Target as View>::V) -> Result<Self::Output, Self::Error>;

    /// What a successful `undo` makes of a target whose view is `t`.
    spec fn undo_view(&self, t: <Self::Target as View>::V) -> <Self::Target as View>::V;

    /// Whether `merge` absorbs `next`.
    spec fn absorbs(&self, next: Self) -> bool;

    /// Performs the operation on `target`. Once it succeeds, `undo` gives
    /// the target back as it was.
    fn apply(&mut self, target: &mut Self::Target) -> (r: Result<Self::Output, Self::Error>)
        ensures
            *final(self) == *old(self),
            r == old(self).apply_result(old(target)@),
            r is Err ==> *final(target) == *old(target),
            r is Ok ==> final(target)@ == old(self).apply_view(old(target)@),
            r is Ok ==> old(self).undo_view(final(target)@) == old(target)@,
    ;

    /// Reverses what `apply` did to `target`.
    fn undo(&mut self, target: &mut Self::Target) -> (r: Result<Self::Output, Self::Error>)
        ensures
            *final(self) == *old(self),
            r == old(self).undo_result(old(target)@),
            r is Err ==> *final(target) == *old(target),
            r is Ok ==> final(target)@ == old(self).undo_view(old(target)@),
    ;

    /// Tries to absorb `next`, the operation applied right after this one,
    /// so that undoing this one afterwards undoes both. Returns whether it
    /// did.
    fn merge(&mut self, next: &Self) -> (absorbed: bool)
        ensures
            absorbed == old(self).absorbs(*next),
            !absorbed ==> *final(self) == *old(self),
            absorbed ==> forall|t: <Self::Target as View>::V| #[trigger]
                final(self).undo_view(t) == old(self).undo_view(next.undo_view(t)),
    ;
}

/// One recorded operation, with the time (milliseconds since the Unix epoch)
/// at which it was recorded.
#[derive(Clone, Debug)]
pub struct Entry<C> {
    pub command: C,
    pub timestamp: i64,
}

} // verus!
