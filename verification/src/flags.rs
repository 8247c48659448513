//! Flag sets: what the runtime needs of the type that stores the dirty bits.

use vstd::prelude::*;

verus! {

/// A set of flags held in an unsigned integer, one bit per flag.
///
/// The model of a flag set is its bit pattern, widened to 128 bits, the
/// largest storage the generator hands out. An implementation states its bit
/// pattern by defining `bits`; one that leaves the definition out can be
/// used, but nothing is known of it.
pub trait Flags: Sized + Copy {
    /// The bit pattern of this set.
    open spec fn bits(&self) -> u128 {
        arbitrary()
    }

    /// The set with no bit set.
    fn empty() -> (r: Self)
        ensures
            r.bits() == 0,
    ;

    /// Whether no bit is set.
    fn is_empty(&self) -> (b: bool)
        ensures
            b == (self.bits() == 0),
    ;

    /// Sets every bit of `other` in `self` and leaves the others as they are.
    fn insert(&mut self, other: Self)
        ensures
            final(self).bits() == old(self).bits() | other.bits(),
    ;
}

/// Whether every bit of `flag` is set in `set`.
pub open spec fn contains(set: u128, flag: u128) -> bool {
    set & flag == flag
}

/// The bit pattern of the flag with ordinal `index`.
pub open spec fn flag_bit(index: nat) -> u128
    recommends
        index < 128,
{
    1u128 << index
}

/// Whether the flag with ordinal `index` is in `set`.
pub open spec fn has_flag(set: u128, index: nat) -> bool
    recommends
        index < 128,
{
    contains(set, flag_bit(index))
}

impl Flags for u8 {
    open spec fn bits(&self) -> u128 {
        *self as u128
    }

    fn empty() -> (r: Self) {
        0
    }

    fn is_empty(&self) -> (b: bool) {
        *self == 0
    }

    fn insert(&mut self, other: Self) {
        let before: u8 = *self;
        assert((before | other) as u128 == (before as u128) | (other as u128)) by (bit_vector);
        *self = before | other;
    }
}

impl Flags for u16 {
    open spec fn bits(&self) -> u128 {
        *self as u128
    }

    fn empty() -> (r: Self) {
        0
    }

    fn is_empty(&self) -> (b: bool) {
        *self == 0
    }

    fn insert(&mut self, other: Self) {
        let before: u16 = *self;
        assert((before | other) as u128 == (before as u128) | (other as u128)) by (bit_vector);
        *self = before | other;
    }
}

impl Flags for u32 {
    open spec fn bits(&self) -> u128 {
        *self as u128
    }

    fn empty() -> (r: Self) {
        0
    }

    fn is_empty(&self) -> (b: bool) {
        *self == 0
    }

    fn insert(&mut self, other: Self) {
        let before: u32 = *self;
        assert((before | other) as u128 == (before as u128) | (other as u128)) by (bit_vector);
        *self = before | other;
    }
}

impl Flags for u64 {
    open spec fn bits(&self) -> u128 {
        *self as u128
    }

    fn empty() -> (r: Self) {
        0
    }

    fn is_empty(&self) -> (b: bool) {
        *self == 0
    }

    fn insert(&mut self, other: Self) {
        let before: u64 = *self;
        assert((before | other) as u128 == (before as u128) | (other as u128)) by (bit_vector);
        *self = before | other;
    }
}

impl Flags for u128 {
    open spec fn bits(&self) -> u128 {
        *self
    }

    fn empty() -> (r: Self) {
        0
    }

    fn is_empty(&self) -> (b: bool) {
        *self == 0
    }

    fn insert(&mut self, other: Self) {
        *self = *self | other;
    }
}

/// After a flag is inserted the set contains it, and it still contains
/// whatever it contained before.
pub proof fn lemma_insert_contains(set: u128, flag: u128, earlier: u128)
    ensures
        contains(set | flag, flag),
        contains(set, earlier) ==> contains(set | flag, earlier),
{
    assert((set | flag) & flag == flag) by (bit_vector);
    assert(set & earlier == earlier ==> (set | flag) & earlier == earlier) by (bit_vector);
}

/// Inserting a flag changes no bit outside the flag.
pub proof fn lemma_insert_keeps_others(set: u128, flag: u128, other: u128)
    requires
        other & flag == 0,
    ensures
        (set | flag) & other == set & other,
{
    assert(other & flag == 0 ==> (set | flag) & other == set & other) by (bit_vector);
}

/// Inserting a flag that the set already holds changes nothing, and the
/// empty set grows to exactly the flag.
pub proof fn lemma_insert_absorbs(set: u128, flag: u128)
    ensures
        contains(set, flag) ==> set | flag == set,
        0u128 | flag == flag,
{
    assert(set & flag == flag ==> set | flag == set) by (bit_vector);
    assert(0u128 | flag == flag) by (bit_vector);
}

/// A bit pattern read as a set of ordinals: the empty pattern holds none,
/// the flag of an ordinal holds that ordinal alone, and a union holds what
/// either side holds. So after the flag of a field is inserted, the fields
/// flagged are those flagged before and that field.
pub proof fn lemma_has_flag(set: u128, other: u128, i: nat, j: nat)
    requires
        i < 128,
        j < 128,
    ensures
        !has_flag(0, i),
        has_flag(flag_bit(j), i) <==> i == j,
        has_flag(set | other, i) <==> has_flag(set, i) || has_flag(other, i),
        has_flag(set | flag_bit(j), i) <==> has_flag(set, i) || i == j,
{
    let a = i as u32;
    let b = j as u32;
    assert(a < 128 ==> 0u128 & (1u128 << a) != (1u128 << a)) by (bit_vector);
    assert(a < 128 && b < 128 ==> ((1u128 << b) & (1u128 << a) == (1u128 << a) <==> a == b))
        by (bit_vector);
    assert(a < 128 ==> ((set | other) & (1u128 << a) == (1u128 << a) <==> set & (1u128 << a) == (
    1u128 << a) || other & (1u128 << a) == (1u128 << a))) by (bit_vector);
    assert(a < 128 && b < 128 ==> ((set | (1u128 << b)) & (1u128 << a) == (1u128 << a) <==> set
        & (1u128 << a) == (1u128 << a) || a == b)) by (bit_vector);
}

/// The flags of two different ordinals share no bit, so each tracked field
/// has a bit of its own.
pub proof fn lemma_flag_bits_distinct(i: nat, j: nat)
    requires
        i < 128,
        j < 128,
        i != j,
    ensures
        flag_bit(i) != 0,
        flag_bit(i) & flag_bit(j) == 0,
{
    let a = i as u32;
    let b = j as u32;
    assert(a < 128 && b < 128 && a != b ==> (1u128 << a) != 0 && (1u128 << a) & (1u128 << b) == 0)
        by (bit_vector);
}

} // verus!
