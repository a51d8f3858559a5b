//! Saved-register record of the RISC-V port (RV32 and RV64 alike).
//!
//! The record holds the twelve callee-saved registers `s0`..`s11` of the
//! standard calling convention, plus the return address `ra`, which doubles
//! as the resumption address when the thread is switched back in.

use vstd::prelude::*;

verus! {

/// Callee-saved registers of a suspended thread, plus the return address at
/// which it resumes.
pub struct ThreadContext {
    /// Callee-saved registers `s0`..`s11`.
    pub s: [usize; 12],
    /// Return address: the address at which the thread resumes.
    pub ra: usize,
}

impl ThreadContext {
    /// A record whose every register and the return address are zero.
    pub fn zeroed() -> (c: Self)
        ensures
            forall|i: int| 0 <= i < 12 ==> c.s[i] == 0,
            c.ra == 0,
    {
        ThreadContext { s: [0; 12], ra: 0 }
    }

    /// Set value of program counter: the next switch into this context begins
    /// executing at `pc`. All saved registers are left as they are.
    pub fn set_pc(&mut self, pc: usize)
        ensures
            final(self).ra == pc,
            final(self).s == old(self).s,
    {
        self.ra = pc;
    }
}

} // verus!
