//! The wrapper that a mutable accessor hands out.

use crate::flags::contains;
use crate::flags::lemma_insert_contains;
use crate::flags::lemma_insert_keeps_others;
use crate::flags::Flags;
use vstd::prelude::*;
use vstd::std_specs::cmp::PartialEqSpec;
use vstd::std_specs::ops::AddSpec;

verus! {

/// A field of a struct together with the flag storage of that struct and the
/// flag that stands for the field. Every write through the wrapper that may
/// have changed the field sets the flag.
///
/// The wrapper borrows both places for its lifetime. Its model is the flag,
/// the current value of the field and the current flag set; `value_ref` and
/// `flags_ref` name the two borrows, so that a contract can also say what the
/// borrowed places hold once the wrapper is gone: what the wrapper held
/// last. Each operation says three things of the borrows: that the wrapper
/// is still bound to the same two places, what it holds now, and that the
/// places end up with that once the wrapper is used no more.
#[derive(Debug)]
pub struct TrackedField<'s, T, F> {
    flag: F,
    track_flags: &'s mut F,
    value: &'s mut T,
}

impl<'s, T, F> TrackedField<'s, T, F> {
    /// The flag that stands for the field.
    pub closed spec fn flag(self) -> F {
        self.flag
    }

    /// The borrow of the field.
    pub closed spec fn value_ref(self) -> &'s mut T {
        self.value
    }

    /// The borrow of the flag storage.
    pub closed spec fn flags_ref(self) -> &'s mut F {
        self.track_flags
    }

    /// The current value of the field.
    pub open spec fn value(self) -> T {
        *self.value_ref()
    }

    /// The current flag set.
    pub open spec fn flags(self) -> F {
        *self.flags_ref()
    }
}

impl<'s, T, F: Flags> TrackedField<'s, T, F> {
    /// `after` is `before` with the field's flag set: the same flag, and the
    /// flag set grown by exactly that flag.
    pub open spec fn marked(before: Self, after: Self) -> bool {
        &&& after.flag() == before.flag()
        &&& after.flags().bits() == before.flags().bits() | before.flag().bits()
    }

    /// `after` has the flag and the flag set of `before`.
    pub open spec fn unmarked(before: Self, after: Self) -> bool {
        &&& after.flag() == before.flag()
        &&& after.flags() == before.flags()
    }

    /// Binds `flag` to the flag storage and the field.
    pub fn new(flag: F, track_flags: &'s mut F, value: &'s mut T) -> (r: Self)
        ensures
            r.flag() == flag,
            r.flags() == *old(track_flags),
            r.value() == *old(value),
            *final(track_flags) == *final(r.flags_ref()),
            *final(value) == *final(r.value_ref()),
            has_resolved(r) ==> {
                &&& *final(r.value_ref()) == r.value()
                &&& *final(r.flags_ref()) == r.flags()
            },
    {
        Self { flag, track_flags, value }
    }

    fn set_flag(&mut self)
        ensures
            Self::marked(*old(self), *final(self)),
            final(self).value() == old(self).value(),
            *final(final(self).value_ref()) == *final(old(self).value_ref()),
            *final(final(self).flags_ref()) == *final(old(self).flags_ref()),
            has_resolved(*final(self)) ==> {
                &&& *final(final(self).value_ref()) == final(self).value()
                &&& *final(final(self).flags_ref()) == final(self).flags()
            },
    {
        self.track_flags.insert(self.flag);
    }

    /// Overwrites the field and sets the flag, whether or not the value differs.
    pub fn force_set(&mut self, value: T)
        ensures
            final(self).value() == value,
            Self::marked(*old(self), *final(self)),
            *final(final(self).value_ref()) == *final(old(self).value_ref()),
            *final(final(self).flags_ref()) == *final(old(self).flags_ref()),
            has_resolved(*final(self)) ==> {
                &&& *final(final(self).value_ref()) == final(self).value()
                &&& *final(final(self).flags_ref()) == final(self).flags()
            },
    {
        *self.value = value;
        self.set_flag();
    }

    /// Runs `f` on the field. `f` reports whether it changed the field, and
    /// the flag is set exactly when it says so.
    pub fn update(&mut self, f: impl FnOnce(&mut T) -> bool) -> (changed: bool)
        requires
            forall|r: &mut T| *r == old(self).value() ==> call_requires(f, (r,)),
        ensures
            exists|r: &mut T|
                {
                    &&& *r == old(self).value()
                    &&& *final(r) == final(self).value()
                    &&& call_ensures(f, (r,), changed)
                },
            changed ==> Self::marked(*old(self), *final(self)),
            !changed ==> Self::unmarked(*old(self), *final(self)),
            *final(final(self).value_ref()) == *final(old(self).value_ref()),
            *final(final(self).flags_ref()) == *final(old(self).flags_ref()),
            has_resolved(*final(self)) ==> {
                &&& *final(final(self).value_ref()) == final(self).value()
                &&& *final(final(self).flags_ref()) == final(self).flags()
            },
    {
        if f(self.value) {
            self.set_flag();
            true
        } else {
            false
        }
    }

    /// Runs `f` on the field and sets the flag, whatever `f` did.
    pub fn force_update(&mut self, f: impl FnOnce(&mut T))
        requires
            forall|r: &mut T| *r == old(self).value() ==> call_requires(f, (r,)),
        ensures
            exists|r: &mut T|
                {
                    &&& *r == old(self).value()
                    &&& *final(r) == final(self).value()
                    &&& call_ensures(f, (r,), ())
                },
            Self::marked(*old(self), *final(self)),
            *final(final(self).value_ref()) == *final(old(self).value_ref()),
            *final(final(self).flags_ref()) == *final(old(self).flags_ref()),
            has_resolved(*final(self)) ==> {
                &&& *final(final(self).value_ref()) == final(self).value()
                &&& *final(final(self).flags_ref()) == final(self).flags()
            },
    {
        f(self.value);
        self.set_flag();
    }

    /// Runs `f` on the field. Where `f` hands back a replacement, the field
    /// takes it and the flag is set; where it hands back nothing, the field
    /// stays as `f` left it and the flag set stays as it was. Returns whether
    /// there was a replacement.
    pub fn update_opt(&mut self, f: impl FnOnce(&mut T) -> Option<T>) -> (changed: bool)
        requires
            forall|r: &mut T| *r == old(self).value() ==> call_requires(f, (r,)),
        ensures
            exists|r: &mut T, replacement: Option<T>|
                {
                    &&& *r == old(self).value()
                    &&& call_ensures(f, (r,), replacement)
                    &&& changed == replacement.is_some()
                    &&& final(self).value() == match replacement {
                        Some(new) => new,
                        None => *final(r),
                    }
                },
            changed ==> Self::marked(*old(self), *final(self)),
            !changed ==> Self::unmarked(*old(self), *final(self)),
            *final(final(self).value_ref()) == *final(old(self).value_ref()),
            *final(final(self).flags_ref()) == *final(old(self).flags_ref()),
            has_resolved(*final(self)) ==> {
                &&& *final(final(self).value_ref()) == final(self).value()
                &&& *final(final(self).flags_ref()) == final(self).flags()
            },
    {
        if let Some(new) = f(self.value) {
            *self.value = new;
            self.set_flag();
            return true;
        }
        false
    }
}

/// A write that sets the flag leaves the flag in the flag set, keeps what
/// the set held before, and touches no bit outside the flag. A write that
/// does not set it leaves every bit as it was.
pub proof fn lemma_marked<'s, T, F: Flags>(
    before: TrackedField<'s, T, F>,
    after: TrackedField<'s, T, F>,
    other: u128,
)
    ensures
        TrackedField::marked(before, after) ==> {
            &&& contains(after.flags().bits(), before.flag().bits())
            &&& contains(before.flags().bits(), other) ==> contains(after.flags().bits(), other)
            &&& other & before.flag().bits() == 0 ==> after.flags().bits() & other
                == before.flags().bits() & other
        },
        TrackedField::unmarked(before, after) ==> after.flags().bits() == before.flags().bits(),
{
    if TrackedField::marked(before, after) {
        lemma_insert_contains(before.flags().bits(), before.flag().bits(), other);
        if other & before.flag().bits() == 0 {
            lemma_insert_keeps_others(before.flags().bits(), before.flag().bits(), other);
        }
    }
}

/// Once a wrapper is no longer used, the two places that it borrowed hold
/// what the wrapper held last.
pub broadcast proof fn lemma_released<'s, T, F>(field: TrackedField<'s, T, F>)
    ensures
        #[trigger] has_resolved(field) ==> {
            &&& *final(field.value_ref()) == field.value()
            &&& *final(field.flags_ref()) == field.flags()
        },
{
}

impl<'s, T: PartialEq, F: Flags> TrackedField<'s, T, F> {
    /// Overwrites the field and sets the flag, but only where the new value
    /// differs from the current one. Whether it differs is what `!=` of `T`
    /// answers for the two; where `T` compares as its `eq_spec` says, that
    /// is whether `eq_spec` finds them unequal.
    pub fn set(&mut self, value: T)
        ensures
            exists|differs: bool|
                {
                    &&& #[trigger] call_ensures(T::ne, (&value, &old(self).value()), differs)
                    &&& differs ==> final(self).value() == value && Self::marked(
                        *old(self),
                        *final(self),
                    )
                    &&& !differs ==> final(self).value() == old(self).value() && Self::unmarked(
                        *old(self),
                        *final(self),
                    )
                },
            T::obeys_eq_spec() && value.eq_spec(&old(self).value()) ==> Self::unmarked(
                *old(self),
                *final(self),
            ) && final(self).value() == old(self).value(),
            T::obeys_eq_spec() && !value.eq_spec(&old(self).value()) ==> Self::marked(
                *old(self),
                *final(self),
            ) && final(self).value() == value,
            *final(final(self).value_ref()) == *final(old(self).value_ref()),
            *final(final(self).flags_ref()) == *final(old(self).flags_ref()),
            has_resolved(*final(self)) ==> {
                &&& *final(final(self).value_ref()) == final(self).value()
                &&& *final(final(self).flags_ref()) == final(self).flags()
            },
    {
        if value != *self.value {
            self.force_set(value);
        }
    }
}

impl<'s, T, F> core::ops::Deref for TrackedField<'s, T, F> {
    type Target = T;

    /// Reads the field. Nothing changes.
    fn deref(&self) -> (r: &T)
        ensures
            *r == self.value(),
    {
        self.value
    }
}

impl<'s, T, F: Flags> core::ops::DerefMut for TrackedField<'s, T, F> {
    /// Hands out the field for writing and sets the flag at once: what the
    /// caller does through the reference cannot be seen from here.
    fn deref_mut(&mut self) -> (r: &mut T)
        ensures
            *r == old(self).value(),
            *final(r) == final(self).value(),
            Self::marked(*old(self), *final(self)),
            *final(final(self).value_ref()) == *final(old(self).value_ref()),
            *final(final(self).flags_ref()) == *final(old(self).flags_ref()),
            has_resolved(*final(self)) ==> {
                &&& *final(final(self).value_ref()) == final(self).value()
                &&& *final(final(self).flags_ref()) == final(self).flags()
            },
    {
        self.set_flag();
        self.value
    }
}

impl<'s, T: core::ops::Add<T, Output = T> + Copy, F: Flags> core::ops::AddAssign<
    T,
> for TrackedField<'s, T, F> {
    /// Puts the sum of the field and `rhs` in the field and sets the flag,
    /// also where the sum is the value that the field had. The sum is what
    /// `+` of `T` answers for the two; where `T` adds as its `add_spec` says,
    /// that is `add_spec` of the two.
    fn add_assign(&mut self, rhs: T)
        requires
            old(self).value().add_req(rhs),
        ensures
            call_ensures(T::add, (old(self).value(), rhs), final(self).value()),
            T::obeys_add_spec() ==> final(self).value() == old(self).value().add_spec(rhs),
            Self::marked(*old(self), *final(self)),
            *final(final(self).value_ref()) == *final(old(self).value_ref()),
            *final(final(self).flags_ref()) == *final(old(self).flags_ref()),
            has_resolved(*final(self)) ==> {
                &&& *final(final(self).value_ref()) == final(self).value()
                &&& *final(final(self).flags_ref()) == final(self).flags()
            },
    {
        let sum = *self.value + rhs;
        self.force_set(sum);
    }
}

} // verus!
