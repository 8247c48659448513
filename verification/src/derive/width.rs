//! The storage of the flags type: the narrowest unsigned integer that has a
//! bit for every tracked field.

use crate::derive::error::too_many_message;
use crate::derive::error::Anchor;
use crate::derive::error::AnchorView;
use crate::derive::error::DeriveError;
use crate::derive::error::ErrorView;
use crate::flags::flag_bit;
use vstd::prelude::*;

verus! {

/// The largest number of tracked fields that a flags type has bits for.
pub const MAX_TRACKED: usize = 128;

/// An unsigned integer type that can store flags.
#[derive(Clone, Copy, Debug, PartialEq, Eq, Structural)]
pub enum BitsTy {
    U8,
    U16,
    U32,
    U64,
    U128,
}

impl BitsTy {
    /// The number of bits of the type.
    pub open spec fn width(self) -> nat {
        match self {
            BitsTy::U8 => 8,
            BitsTy::U16 => 16,
            BitsTy::U32 => 32,
            BitsTy::U64 => 64,
            BitsTy::U128 => 128,
        }
    }

    /// The largest bit pattern that the type holds: all its bits set.
    pub open spec fn all_bits(self) -> u128 {
        match self {
            BitsTy::U8 => 0xff,
            BitsTy::U16 => 0xffff,
            BitsTy::U32 => 0xffff_ffff,
            BitsTy::U64 => 0xffff_ffff_ffff_ffff,
            BitsTy::U128 => 0xffff_ffff_ffff_ffff_ffff_ffff_ffff_ffff,
        }
    }

    /// The name of the type.
    pub open spec fn name(self) -> Seq<char> {
        match self {
            BitsTy::U8 => "u8"@,
            BitsTy::U16 => "u16"@,
            BitsTy::U32 => "u32"@,
            BitsTy::U64 => "u64"@,
            BitsTy::U128 => "u128"@,
        }
    }

    /// The number of bits of the type.
    pub fn bits(self) -> (r: u32)
        ensures
            r == self.width(),
    {
        match self {
            BitsTy::U8 => 8,
            BitsTy::U16 => 16,
            BitsTy::U32 => 32,
            BitsTy::U64 => 64,
            BitsTy::U128 => 128,
        }
    }

    /// The name of the type, as it is written in code.
    pub fn as_str(self) -> (r: &'static str)
        ensures
            r@ == self.name(),
    {
        match self {
            BitsTy::U8 => "u8",
            BitsTy::U16 => "u16",
            BitsTy::U32 => "u32",
            BitsTy::U64 => "u64",
            BitsTy::U128 => "u128",
        }
    }
}

/// `ty` is the narrowest storage with at least `n` bits.
pub open spec fn is_smallest_cover(ty: BitsTy, n: nat) -> bool {
    &&& n <= ty.width()
    &&& forall|other: BitsTy| n <= other.width() ==> ty.width() <= #[trigger] other.width()
}

/// The storage for `n` flags: the narrowest of the five that has `n` bits.
pub open spec fn width_for(n: nat) -> BitsTy
    recommends
        n <= MAX_TRACKED,
{
    if n <= 8 {
        BitsTy::U8
    } else if n <= 16 {
        BitsTy::U16
    } else if n <= 32 {
        BitsTy::U32
    } else if n <= 64 {
        BitsTy::U64
    } else {
        BitsTy::U128
    }
}

/// The storage for the flags of `n` tracked fields: the narrowest unsigned
/// integer type with at least `n` bits. There is none for more than
/// [`MAX_TRACKED`] fields: such a count is refused, with an error that holds
/// the count and whose message names it and the maximum.
pub fn bits_ty(n: usize) -> (r: Result<BitsTy, DeriveError>)
    ensures
        match r {
            Ok(ty) => n <= MAX_TRACKED && ty == width_for(n as nat) && is_smallest_cover(
                ty,
                n as nat,
            ),
            Err(reason) => n > MAX_TRACKED && reason@ == (ErrorView::TooManyTracked {
                count: n as nat,
                anchor: AnchorView::Input,
            }),
        },
{
    if n < 8 + 1 {
        Ok(BitsTy::U8)
    } else if n < 16 + 1 {
        Ok(BitsTy::U16)
    } else if n < 32 + 1 {
        Ok(BitsTy::U32)
    } else if n < 64 + 1 {
        Ok(BitsTy::U64)
    } else if n < 128 + 1 {
        Ok(BitsTy::U128)
    } else {
        Err(DeriveError::TooManyTracked { count: n, anchor: Anchor::Input })
    }
}

/// Up to [`MAX_TRACKED`] flags there is exactly one narrowest storage, the
/// one that `width_for` names; beyond it no storage has enough bits.
pub proof fn lemma_width_for(n: nat)
    ensures
        n <= MAX_TRACKED ==> is_smallest_cover(width_for(n), n),
        n <= MAX_TRACKED ==> forall|ty: BitsTy| is_smallest_cover(ty, n) ==> ty == width_for(n),
        n > MAX_TRACKED ==> forall|ty: BitsTy| !(n <= #[trigger] ty.width()),
{
    if n <= MAX_TRACKED {
        assert forall|ty: BitsTy| is_smallest_cover(ty, n) implies ty == width_for(n) by {
            assert(ty.width() <= width_for(n).width());
        }
    }
}

/// A count beyond [`MAX_TRACKED`] is refused with one message, at the input
/// as a whole, and the message holds the count and the maximum.
pub proof fn lemma_beyond_maximum(n: nat)
    requires
        n > MAX_TRACKED,
    ensures
        forall|ty: BitsTy| !(n <= #[trigger] ty.width()),
        (ErrorView::TooManyTracked { count: n, anchor: AnchorView::Input }).diagnostics().len()
            == 1,
        (ErrorView::TooManyTracked { count: n, anchor: AnchorView::Input }).diagnostics()[0].anchor
            == AnchorView::Input,
        (ErrorView::TooManyTracked { count: n, anchor: AnchorView::Input }).diagnostics()[0].message
            == too_many_message(n),
{
}

/// A storage with more bits than `index` holds the flag of that index: the
/// flag is within the bits of the storage, so a covering storage has a bit
/// for every tracked field.
pub proof fn lemma_flag_fits(ty: BitsTy, index: nat)
    requires
        index < ty.width(),
    ensures
        flag_bit(index) != 0,
        flag_bit(index) & ty.all_bits() == flag_bit(index),
{
    let i = index as u32;
    assert(i < 128 ==> (1u128 << i) != 0) by (bit_vector);
    assert(i < 8 ==> (1u128 << i) & 0xff == 1u128 << i) by (bit_vector);
    assert(i < 16 ==> (1u128 << i) & 0xffff == 1u128 << i) by (bit_vector);
    assert(i < 32 ==> (1u128 << i) & 0xffff_ffff == 1u128 << i) by (bit_vector);
    assert(i < 64 ==> (1u128 << i) & 0xffff_ffff_ffff_ffff == 1u128 << i) by (bit_vector);
    assert((1u128 << i) & 0xffff_ffff_ffff_ffff_ffff_ffff_ffff_ffff == 1u128 << i)
        by (bit_vector);
}

} // verus!
