//! Saved-register record of the AArch64 port.
//!
//! The record holds the callee-saved registers `x19`..`x29` of the AAPCS64
//! calling convention, plus the link register, which doubles as the
//! resumption address when the thread is switched back in.

use vstd::prelude::*;

verus! {

/// Callee-saved registers of a suspended thread, plus the link register at
/// which it resumes.
pub struct ThreadContext {
    /// Callee-saved registers `x19`..`x29`.
    pub x19to29: [usize; 11],
    /// Link register: the address at which the thread resumes.
    pub lr: usize,
}

impl ThreadContext {
    /// A record whose every register and the link register are zero.
    pub fn zeroed() -> (c: Self)
        ensures
            forall|i: int| 0 <= i < 11 ==> c.x19to29[i] == 0,
            c.lr == 0,
    {
        ThreadContext { x19to29: [0; 11], lr: 0 }
    }

    /// Set value of program counter: the next switch into this context begins
    /// executing at `pc`. All saved registers are left as they are.
    pub fn set_pc(&mut self, pc: usize)
        ensures
            final(self).lr == pc,
            final(self).x19to29 == old(self).x19to29,
    {
        self.lr = pc;
    }
}

} // verus!
