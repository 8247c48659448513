//! The flags of a whole struct, and draining them.

use crate::flags::Flags;
use vstd::prelude::*;

verus! {

/// A struct that keeps, in one of its fields, the flags of the fields that
/// changed.
///
/// An implementation says which field that is by defining `tracked_flags`,
/// which reads it, and `with_flags`, the struct with that field replaced and
/// nothing else touched. One that leaves the definitions out can be used, but
/// nothing is known of it.
pub trait TrackedStruct: Sized {
    /// The type of the flag storage.
    type Flags: Flags;

    /// The flags that the struct holds.
    open spec fn tracked_flags(&self) -> Self::Flags {
        arbitrary()
    }

    /// The struct with `flags` in place of the flags it holds.
    open spec fn with_flags(self, flags: Self::Flags) -> Self {
        arbitrary()
    }

    /// The flags accumulated so far.
    fn flags(&self) -> (r: Self::Flags)
        ensures
            r == self.tracked_flags(),
    ;

    /// The flag storage, for writing. Only the flags can change through it.
    fn flags_mut(&mut self) -> (r: &mut Self::Flags)
        ensures
            *r == old(self).tracked_flags(),
            final(self).tracked_flags() == *final(r),
            *final(self) == old(self).with_flags(*final(r)),
    ;

    /// Empties the flag storage and returns what it held, or `None` where it
    /// held no flag. Nothing but the flags changes.
    fn take_updates(&mut self) -> (r: Option<Self::Flags>)
        ensures
            final(self).tracked_flags().bits() == 0,
            *final(self) == old(self).with_flags(final(self).tracked_flags()),
            r == if old(self).tracked_flags().bits() == 0 {
                None
            } else {
                Some(old(self).tracked_flags())
            },
    {
        let slot = self.flags_mut();
        let flags = *slot;
        *slot = Self::Flags::empty();
        if flags.is_empty() {
            None
        } else {
            Some(flags)
        }
    }
}

/// What one call of `take_updates` does, as a relation between the struct
/// before, the struct after and the flags handed out.
pub open spec fn drained<S: TrackedStruct>(before: S, after: S, taken: Option<S::Flags>) -> bool {
    &&& after.tracked_flags().bits() == 0
    &&& after == before.with_flags(after.tracked_flags())
    &&& taken == if before.tracked_flags().bits() == 0 {
        None
    } else {
        Some(before.tracked_flags())
    }
}

/// The first drain hands out exactly the flags accumulated, and a drain
/// right after it finds nothing: it returns `None` and leaves the flags empty.
pub proof fn lemma_second_drain_is_empty<S: TrackedStruct>(
    start: S,
    once: S,
    first: Option<S::Flags>,
    twice: S,
    second: Option<S::Flags>,
)
    requires
        drained(start, once, first),
        drained(once, twice, second),
    ensures
        start.tracked_flags().bits() != 0 ==> first == Some(start.tracked_flags()),
        second is None,
        twice.tracked_flags().bits() == 0,
{
}

} // verus!
