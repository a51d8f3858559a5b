//! Core of a green-thread runtime that turns a blocking closure into a
//! pollable computation.
//!
//! A green thread lives in a single size-aligned block: a small header (the
//! thread control block) followed by the thread's stack. This crate holds the
//! verified heart of that runtime: the block's address arithmetic
//! ([`layout`]), the thread state machine ([`state`]), the header itself and
//! the poll protocol over it ([`tcb`]), and the saved-register records of the
//! supported instruction sets ([`x86_64`], [`riscv`], [`aarch64`]).
//!
//! The machine-specific context switch, the stack-pointer read and the raw
//! placement of the block are left to the embedding runtime; everything that
//! decides — which state the thread is in, what a poll returns, where the
//! header of the current stack lies — is verified here.

pub mod aarch64;
pub mod layout;
pub mod riscv;
pub mod state;
pub mod tcb;
pub mod x86_64;
