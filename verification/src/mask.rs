//! Bytes read as sets of flags: one bit per output or synthesizer unit.
//!
//! The model is arithmetic. Bit `ix` of a byte has the weight `2^ix`; it is
//! set where the byte, divided by that weight, is odd. The executable code
//! works with shifts and masks, and the lemmas here tie the two together.

use vstd::prelude::*;

verus! {

/// The weight of bit `ix` in a byte: two to the power of `ix`.
pub open spec fn weight(ix: u8) -> int {
    if ix == 0 {
        1
    } else if ix == 1 {
        2
    } else if ix == 2 {
        4
    } else if ix == 3 {
        8
    } else if ix == 4 {
        16
    } else if ix == 5 {
        32
    } else if ix == 6 {
        64
    } else if ix == 7 {
        128
    } else {
        256
    }
}

/// Whether bit `ix` of `mask` is set.
pub open spec fn bit(mask: u8, ix: u8) -> bool {
    if ix == 0 {
        mask % 2 == 1
    } else if ix == 1 {
        (mask / 2) % 2 == 1
    } else if ix == 2 {
        (mask / 4) % 2 == 1
    } else if ix == 3 {
        (mask / 8) % 2 == 1
    } else if ix == 4 {
        (mask / 16) % 2 == 1
    } else if ix == 5 {
        (mask / 32) % 2 == 1
    } else if ix == 6 {
        (mask / 64) % 2 == 1
    } else if ix == 7 {
        (mask / 128) % 2 == 1
    } else {
        false
    }
}

/// `mask` with bit `ix` set or cleared and every other bit as it was.
pub open spec fn with_bit(mask: u8, ix: u8, on: bool) -> u8 {
    if bit(mask, ix) == on {
        mask
    } else if on {
        (mask + weight(ix)) as u8
    } else {
        (mask - weight(ix)) as u8
    }
}

/// `mask` with every bit inverted.
pub open spec fn complement(mask: u8) -> u8 {
    (255 - mask) as u8
}

/// Whether every bit that is set in `flags` is set in `mask` too.
pub open spec fn contains_all(mask: u8, flags: u8) -> bool {
    &&& bit(flags, 0) ==> bit(mask, 0)
    &&& bit(flags, 1) ==> bit(mask, 1)
    &&& bit(flags, 2) ==> bit(mask, 2)
    &&& bit(flags, 3) ==> bit(mask, 3)
    &&& bit(flags, 4) ==> bit(mask, 4)
    &&& bit(flags, 5) ==> bit(mask, 5)
    &&& bit(flags, 6) ==> bit(mask, 6)
    &&& bit(flags, 7) ==> bit(mask, 7)
}

/// What a shifted one, and the tests and updates made with it, mean in
/// numbers.
proof fn lemma_shifted_one(mask: u8, ix: u8)
    by (bit_vector)
    requires
        ix < 8,
    ensures
        ix == 0 ==> 1u8 << ix == 1 && (mask & (1u8 << ix) != 0 <==> mask % 2 == 1),
        ix == 1 ==> 1u8 << ix == 2 && (mask & (1u8 << ix) != 0 <==> (mask / 2) % 2 == 1),
        ix == 2 ==> 1u8 << ix == 4 && (mask & (1u8 << ix) != 0 <==> (mask / 4) % 2 == 1),
        ix == 3 ==> 1u8 << ix == 8 && (mask & (1u8 << ix) != 0 <==> (mask / 8) % 2 == 1),
        ix == 4 ==> 1u8 << ix == 16 && (mask & (1u8 << ix) != 0 <==> (mask / 16) % 2 == 1),
        ix == 5 ==> 1u8 << ix == 32 && (mask & (1u8 << ix) != 0 <==> (mask / 32) % 2 == 1),
        ix == 6 ==> 1u8 << ix == 64 && (mask & (1u8 << ix) != 0 <==> (mask / 64) % 2 == 1),
        ix == 7 ==> 1u8 << ix == 128 && (mask & (1u8 << ix) != 0 <==> (mask / 128) % 2 == 1),
        mask & (1u8 << ix) != 0 ==> mask | (1u8 << ix) == mask,
        mask & (1u8 << ix) == 0 ==> mask | (1u8 << ix) == mask + (1u8 << ix),
        mask & (1u8 << ix) != 0 ==> mask & !(1u8 << ix) == mask - (1u8 << ix),
        mask & (1u8 << ix) == 0 ==> mask & !(1u8 << ix) == mask,
        (mask | (1u8 << ix)) & (1u8 << ix) != 0,
        (mask & !(1u8 << ix)) & (1u8 << ix) == 0,
        forall|other: u8|
            other < 8 && other != ix ==> (#[trigger] ((mask | (1u8 << ix)) & (1u8 << other)) != 0
                <==> mask & (1u8 << other) != 0),
        forall|other: u8|
            other < 8 && other != ix ==> (#[trigger] ((mask & !(1u8 << ix)) & (1u8 << other)) != 0
                <==> mask & (1u8 << other) != 0),
{
}

/// Inverting every bit is subtracting from 255, and flips each bit.
proof fn lemma_inverted(mask: u8, ix: u8)
    by (bit_vector)
    requires
        ix < 8,
    ensures
        !mask == 255 - mask,
        (!mask) & (1u8 << ix) != 0 <==> mask & (1u8 << ix) == 0,
{
}

/// A byte holds all of `flags` where it holds each of them.
proof fn lemma_all_flags(mask: u8, flags: u8)
    by (bit_vector)
    ensures
        mask & flags == flags <==> {
            &&& flags & (1u8 << 0u8) != 0 ==> mask & (1u8 << 0u8) != 0
            &&& flags & (1u8 << 1u8) != 0 ==> mask & (1u8 << 1u8) != 0
            &&& flags & (1u8 << 2u8) != 0 ==> mask & (1u8 << 2u8) != 0
            &&& flags & (1u8 << 3u8) != 0 ==> mask & (1u8 << 3u8) != 0
            &&& flags & (1u8 << 4u8) != 0 ==> mask & (1u8 << 4u8) != 0
            &&& flags & (1u8 << 5u8) != 0 ==> mask & (1u8 << 5u8) != 0
            &&& flags & (1u8 << 6u8) != 0 ==> mask & (1u8 << 6u8) != 0
            &&& flags & (1u8 << 7u8) != 0 ==> mask & (1u8 << 7u8) != 0
        },
{
}

/// The test that the executable code makes of bit `ix`, and the two updates
/// it makes to it, are those of [`bit`] and [`with_bit`].
pub proof fn lemma_bit_operations(mask: u8, ix: u8)
    requires
        ix < 8,
    ensures
        1u8 << ix == weight(ix),
        mask & (1u8 << ix) != 0 <==> bit(mask, ix),
        mask | (1u8 << ix) == with_bit(mask, ix, true),
        mask & !(1u8 << ix) == with_bit(mask, ix, false),
{
    lemma_shifted_one(mask, ix);
}

/// The complement that the executable code takes is that of
/// [`complement`].
pub proof fn lemma_complement(mask: u8)
    ensures
        !mask == complement(mask),
{
    lemma_inverted(mask, 0);
}

/// In the complement every bit reads as the opposite of what it was.
pub proof fn lemma_complement_flips(mask: u8, ix: u8)
    requires
        ix < 8,
    ensures
        bit(complement(mask), ix) == !bit(mask, ix),
{
    lemma_inverted(mask, ix);
    lemma_bit_operations(mask, ix);
    lemma_bit_operations(complement(mask), ix);
}

/// The test that the executable code makes for a set of flags is that of
/// [`contains_all`].
pub proof fn lemma_contains_all(mask: u8, flags: u8)
    ensures
        mask & flags == flags <==> contains_all(mask, flags),
{
    lemma_all_flags(mask, flags);
    lemma_bit_operations(mask, 0);
    lemma_bit_operations(mask, 1);
    lemma_bit_operations(mask, 2);
    lemma_bit_operations(mask, 3);
    lemma_bit_operations(mask, 4);
    lemma_bit_operations(mask, 5);
    lemma_bit_operations(mask, 6);
    lemma_bit_operations(mask, 7);
    lemma_bit_operations(flags, 0);
    lemma_bit_operations(flags, 1);
    lemma_bit_operations(flags, 2);
    lemma_bit_operations(flags, 3);
    lemma_bit_operations(flags, 4);
    lemma_bit_operations(flags, 5);
    lemma_bit_operations(flags, 6);
    lemma_bit_operations(flags, 7);
}

/// Setting or clearing a bit makes it read as set or cleared and leaves
/// every other bit as it was.
pub proof fn lemma_with_bit(mask: u8, ix: u8, on: bool)
    requires
        ix < 8,
    ensures
        bit(with_bit(mask, ix, on), ix) == on,
        forall|other: u8|
            other < 8 && other != ix ==> #[trigger] bit(with_bit(mask, ix, on), other) == bit(
                mask,
                other,
            ),
{
    lemma_shifted_one(mask, ix);
    lemma_bit_operations(mask, ix);
    let updated = with_bit(mask, ix, on);
    lemma_bit_operations(updated, ix);
    assert forall|other: u8| other < 8 && other != ix implies #[trigger] bit(updated, other)
        == bit(mask, other) by {
        lemma_bit_operations(updated, other);
        lemma_bit_operations(mask, other);
    }
}

/// A mask records what is wanted, not how often it was asked for: setting
/// or clearing a bit a second time changes nothing.
pub proof fn lemma_with_bit_idempotent(mask: u8, ix: u8, on: bool)
    requires
        ix < 8,
    ensures
        with_bit(with_bit(mask, ix, on), ix, on) == with_bit(mask, ix, on),
{
    lemma_with_bit(mask, ix, on);
}

} // verus!
