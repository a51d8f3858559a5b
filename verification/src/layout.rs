//! Address arithmetic of the thread control block.
//!
//! A green thread's storage is one contiguous block of `RAW_SIZE` bytes whose
//! start address is aligned to `RAW_SIZE`. The header sits at the base of the
//! block and the thread's stack descends through the remainder. Because size
//! and alignment are equal, masking the low bits of any stack pointer inside
//! the block recovers the base — and with it the header — without any
//! thread-local storage. This module states and proves that addressing
//! invariant and computes the address of the initial saved-register record.

use vstd::prelude::*;

verus! {

/// Total size in bytes of a thread's block (header plus stack); also its
/// required alignment. A power of two, so that the low bits of an address
/// select the offset within the block.
pub const RAW_SIZE: usize = 0x2000;

/// The low-bit mask that `tcb_base` clears: offsets within a block.
pub const RAW_MASK: usize = 0x2000 - 1;

/// Magic word stored between the header and the stack region. A green
/// thread's stack descends towards the header, so the canary is the first
/// header word an overflow overwrites; any observed mismatch means the stack
/// has overflowed into the header.
pub const CANARY: u64 = 0xcafebabe_deadbeaf;

/// The base of the block that a stack pointer lies in: the pointer with its
/// low `log2(RAW_SIZE)` bits cleared.
pub open spec fn tcb_base(sp: usize) -> usize {
    sp & !RAW_MASK
}

/// Clears the low bits of a stack pointer, yielding the base address of the
/// block the pointer lies in.
pub fn tcb_base_of(sp: usize) -> (base: usize)
    ensures
        base == tcb_base(sp),
        base % RAW_SIZE == 0,
        base <= sp < base + RAW_SIZE,
{
    proof {
        assert((sp & !RAW_MASK) % RAW_SIZE == 0 && (sp & !RAW_MASK) <= sp < (sp & !RAW_MASK)
            + RAW_SIZE) by (bit_vector);
    }
    sp & !RAW_MASK
}

/// Self-location is exact: every stack pointer within an aligned block maps
/// back to that block's own base, so a thread running anywhere on its stack
/// recovers its own header and never a neighbour's.
pub proof fn lemma_self_location(base: usize, sp: usize)
    requires
        base % RAW_SIZE == 0,
        base <= sp < base + RAW_SIZE,
    ensures
        tcb_base(sp) == base,
{
    assert(base % RAW_SIZE == 0 && base <= sp < base + RAW_SIZE ==> (sp & !RAW_MASK) == base)
        by (bit_vector);
}

/// Address of the initial saved-register record of a fresh thread: the record
/// occupies the topmost `context_bytes` bytes of the block, so that the
/// thread's stack may descend from just below it.
pub fn initial_context_addr(base: usize, context_bytes: usize) -> (addr: usize)
    requires
        context_bytes <= RAW_SIZE,
        base + RAW_SIZE <= usize::MAX,
    ensures
        addr == base + RAW_SIZE - context_bytes,
        base <= addr,
        addr + context_bytes == base + RAW_SIZE,
{
    base + (RAW_SIZE - context_bytes)
}

} // verus!
