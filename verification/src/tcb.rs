//! The thread control block header and the poll protocol over it.
//!
//! The header occupies the low bytes of a thread's size-aligned block. It
//! holds the word the context switch exchanges, the waker handed over by the
//! executor on the first poll, the overflow canary, and the thread's state.
//! The executor's side of the protocol is: bootstrap the header if the thread
//! has not started, switch onto the thread's stack, and on return extract the
//! return value if the thread has exited. The thread's side is: move the
//! closure out, run it, store its return value. Every one of those decisions
//! is a method here with an exact contract; only the switch itself — machine
//! code — is left to the embedding runtime.

use crate::layout::CANARY;
use crate::state::{step, State};
use vstd::prelude::*;

verus! {

/// Header of a green thread's block.
///
/// `F` is the thread's closure type, `T` its return type, and `W` the type of
/// the executor's waker handle; the header only stores and clones the handle,
/// so any cloneable type serves.
pub struct Tcb<F, T, W> {
    /// Address of the saved-register record of whichever party is currently
    /// not executing: while the thread runs, the executor's record on the
    /// executor's stack; while the thread is suspended, the thread's own
    /// record on the thread's stack. Zero until the first poll.
    pub context_ptr: usize,
    /// Clone of the executor's waker, stored on the first poll. Waking it
    /// asks the executor to poll this thread again.
    pub waker: Option<W>,
    /// Copy of [`CANARY`]. The thread's stack descends towards the header,
    /// so a mismatch here means the stack has overflowed.
    pub canary: u64,
    /// The thread's place in its life cycle.
    pub state: State<F, T>,
}

impl<F, T, W> Tcb<F, T, W> {
    /// The header is intact: the canary still holds its magic value. Every
    /// operation in this module preserves this; only a stack overflow — a
    /// write from outside the header — breaks it.
    pub open spec fn wf(&self) -> bool {
        self.canary == CANARY
    }

    /// A fresh header for a thread that has not run: closure embedded, canary
    /// armed, no context record and no waker yet.
    pub fn new(f: F) -> (tcb: Self)
        ensures
            tcb.state == (State::<F, T>::Ready(f)),
            tcb.context_ptr == 0,
            tcb.waker is None,
            tcb.wf(),
    {
        Tcb { context_ptr: 0, waker: None, canary: CANARY, state: State::Ready(f) }
    }

    /// Whether the canary still holds its magic value. A `false` answer is a
    /// stack-overflow diagnosis: the embedding runtime must abort rather than
    /// trust the rest of the header.
    pub fn canary_ok(&self) -> (ok: bool)
        ensures
            ok == self.wf(),
    {
        self.canary == CANARY
    }

    /// Whether the thread still awaits its first entry, in which case the
    /// poll about to switch into it must bootstrap the header first.
    pub fn needs_start(&self) -> (r: bool)
        ensures
            r == (self.state is Ready),
    {
        matches!(self.state, State::Ready(_))
    }

    /// First-poll bootstrap: record the address of the thread's initial
    /// saved-register record and store the executor's waker. The state — and
    /// with it the embedded closure — is untouched.
    pub fn start(&mut self, context_addr: usize, waker: W)
        requires
            old(self).state is Ready,
        ensures
            final(self).context_ptr == context_addr,
            final(self).waker == Some(waker),
            final(self).state == old(self).state,
            final(self).canary == old(self).canary,
    {
        self.context_ptr = context_addr;
        self.waker = Some(waker);
    }

    /// The thread's first and only run, performed on the thread's own stack:
    /// move the closure out (*Ready* to *Running*), call it, and store its
    /// return value (*Running* to *Exited*). The stored value is exactly what
    /// the closure returned, and the closure can never be entered again,
    /// because *Ready* is consumed here once and never re-established.
    pub fn run_ready(&mut self) where F: FnOnce() -> T
        requires
            old(self).state is Ready,
            call_requires(old(self).state->Ready_0, ()),
        ensures
            final(self).state is Exited,
            call_ensures(old(self).state->Ready_0, (), final(self).state->Exited_0),
            step(old(self).state, State::<F, T>::Running),
            step(State::<F, T>::Running, final(self).state),
            final(self).context_ptr == old(self).context_ptr,
            final(self).waker == old(self).waker,
            final(self).canary == old(self).canary,
    {
        let mut taken = State::Running;
        core::mem::swap(&mut self.state, &mut taken);
        match taken {
            State::Ready(f) => {
                let ret = f();
                self.state = State::Exited(ret);
            },
            _ => vstd::pervasive::unreached(),
        }
    }

    /// Poll-time inspection after the switch back from the thread: extract
    /// the return value if the thread has exited (the poll reports
    /// completion), and report nothing if it merely yielded or parked (the
    /// poll reports it is still pending). A poll that arrives after the value
    /// has already been extracted finds *Invalid*, changes nothing and
    /// reports pending.
    pub fn take_ret(&mut self) -> (r: Option<T>)
        ensures
            old(self).state is Exited ==> {
                &&& r == Some(old(self).state->Exited_0)
                &&& final(self).state is Invalid
                &&& step(old(self).state, final(self).state)
            },
            !(old(self).state is Exited) ==> r is None && final(self).state == old(self).state,
            final(self).context_ptr == old(self).context_ptr,
            final(self).waker == old(self).waker,
            final(self).canary == old(self).canary,
    {
        self.state.take_ret()
    }

    /// A fresh handle on the waker stored at the first poll: waking it causes
    /// the executor to poll this thread again. Only meaningful once a first
    /// poll has stored a waker — which is always the case on the thread's own
    /// stack, since that stack is first entered by a poll.
    pub fn current_waker(&self) -> (w: W) where W: Clone
        requires
            self.waker is Some,
        ensures
            cloned(self.waker->0, w),
    {
        match &self.waker {
            Some(w) => w.clone(),
            None => vstd::pervasive::unreached(),
        }
    }
}

} // verus!
