//! The arithmetic of an allocator that gets unaligned blocks from its host.
//!
//! The host hands out blocks without regard to alignment. The allocator asks
//! for `align` bytes more than it needs, moves the start of the block forward
//! to the next aligned address, at least one byte, and notes in the byte
//! before that address how far it moved.

use vstd::prelude::*;

verus! {

/// An alignment: a power of two.
pub open spec fn is_alignment(align: usize) -> bool {
    align > 0 && align & ((align - 1) as usize) == 0
}

/// How far a block that the host placed at `base` is moved forward: to the
/// next multiple of `align` that lies past `base`.
pub open spec fn shift_of(base: usize, align: usize) -> int {
    align - (base as int) % (align as int)
}

/// Allocates through the host's allocator, which does not align.
#[derive(Debug)]
pub struct ObsAllocator;

impl ObsAllocator {
    /// The size to ask the host for: room for `size` bytes wherever the
    /// aligned address falls. `None` where that size cannot be expressed.
    pub fn padded_size(size: usize, align: usize) -> (r: Option<usize>)
        ensures
            r is Some <==> size + align <= usize::MAX,
            r matches Some(n) ==> n == size + align,
    {
        if size <= usize::MAX - align {
            Some(size + align)
        } else {
            None
        }
    }

    /// How far to move a block at `base` forward, as the byte to note before
    /// the aligned address. `None` where `align` is no power of two, or where
    /// the distance does not fit in that byte.
    pub fn shift(base: usize, align: usize) -> (r: Option<u8>)
        ensures
            r is Some <==> is_alignment(align) && shift_of(base, align) <= u8::MAX,
            r matches Some(d) ==> d == shift_of(base, align),
    {
        if align == 0 || align & (align - 1) != 0 {
            return None;
        }
        let diff: usize = align - base % align;
        if diff <= 255 {
            Some(diff as u8)
        } else {
            None
        }
    }

    /// The start of the host's block, from the aligned address and the byte
    /// noted before it.
    pub fn base_of(aligned: usize, shift: u8) -> (r: Option<usize>)
        ensures
            r is Some <==> shift <= aligned,
            r matches Some(b) ==> b == aligned - shift,
    {
        if shift as usize <= aligned {
            Some(aligned - shift as usize)
        } else {
            None
        }
    }
}

/// The address that a shift leads to is aligned, lies past the start of the
/// host's block, so that the byte before it belongs to the block, and leaves
/// `size` bytes within the padded block.
pub proof fn lemma_shift_aligns(base: usize, size: usize, align: usize)
    requires
        is_alignment(align),
    ensures
        1 <= shift_of(base, align) <= align,
        ((base + shift_of(base, align)) as int) % (align as int) == 0,
        base + shift_of(base, align) + size <= base + size + align,
{
    let d = shift_of(base, align);
    let a = align as int;
    let q = base as int / a;
    assert(base as int == a * q + base as int % a) by {
        vstd::arithmetic::div_mod::lemma_fundamental_div_mod(base as int, a);
    }
    assert(base + d == a * (q + 1)) by (nonlinear_arith)
        requires
            base as int == a * q + base as int % a,
            d == a - base as int % a,
    ;
    assert((a * (q + 1)) % a == 0) by {
        vstd::arithmetic::div_mod::lemma_mod_multiples_basic(q + 1, a);
        assert(a * (q + 1) == (q + 1) * a) by (nonlinear_arith);
    }
}

} // verus!
