//! Saved-register record of the x86-64 port.
//!
//! The record holds exactly the general-purpose registers the System V ABI
//! designates callee-saved, plus one word for the resumption address. The
//! context switch itself pushes and pops this record on the stacks it leaves
//! and enters; this module defines the record's contents and the two verified
//! operations on it: zero-initialisation and setting the resumption address.

use vstd::prelude::*;

verus! {

/// Callee-saved registers of a suspended thread, plus the address at which it
/// resumes. A freshly built record is all zeroes except the resumption slot.
pub struct ThreadContext {
    pub rbx: usize,
    pub rbp: usize,
    pub r12: usize,
    pub r13: usize,
    pub r14: usize,
    pub r15: usize,
    /// Instruction address popped by `ret` when the thread is resumed.
    pub rip: usize,
}

impl ThreadContext {
    /// A record whose every register and resumption slot is zero.
    pub fn zeroed() -> (c: Self)
        ensures
            c.rbx == 0 && c.rbp == 0 && c.r12 == 0 && c.r13 == 0 && c.r14 == 0 && c.r15 == 0
                && c.rip == 0,
    {
        ThreadContext { rbx: 0, rbp: 0, r12: 0, r13: 0, r14: 0, r15: 0, rip: 0 }
    }

    /// Set value of program counter: the next switch into this context begins
    /// executing at `pc`. All saved registers are left as they are.
    pub fn set_pc(&mut self, pc: usize)
        ensures
            final(self).rip == pc,
            final(self).rbx == old(self).rbx,
            final(self).rbp == old(self).rbp,
            final(self).r12 == old(self).r12,
            final(self).r13 == old(self).r13,
            final(self).r14 == old(self).r14,
            final(self).r15 == old(self).r15,
    {
        self.rip = pc;
    }
}

} // verus!
