//! The four-state life cycle of a green thread.
//!
//! A thread is constructed *Ready* with its closure embedded by value, becomes
//! *Running* when the closure is moved out and entered, becomes *Exited* with
//! the return value embedded when the closure returns, and becomes *Invalid*
//! when the return value is moved out to the caller of `poll`. The progression
//! is strictly forward: a rank argument below shows that no legal sequence of
//! transitions revisits an earlier state, so the closure is consumed at most
//! once and the return value is extracted at most once.

use vstd::prelude::*;

verus! {

/// State of a green thread, holding the closure before the first entry and
/// the return value after the last.
pub enum State<F, T> {
    /// The closure has not run yet; it is embedded by value.
    Ready(F),
    /// The closure has been moved out and entered.
    Running,
    /// The closure returned; its return value is embedded by value.
    Exited(T),
    /// The return value has been moved out; nothing remains.
    Invalid,
}

/// Position of a state in the forward progression.
pub open spec fn state_rank<F, T>(s: State<F, T>) -> nat {
    match s {
        State::Ready(_) => 0,
        State::Running => 1,
        State::Exited(_) => 2,
        State::Invalid => 3,
    }
}

/// The legal single transitions: construct-to-run, run-to-exit,
/// exit-to-extraction. No other change of state is ever made.
pub open spec fn step<F, T>(pre: State<F, T>, post: State<F, T>) -> bool {
    ||| (pre is Ready && post is Running)
    ||| (pre is Running && post is Exited)
    ||| (pre is Exited && post is Invalid)
}

/// A history of the states a thread has been observed in: each observation is
/// either unchanged from the previous one or one legal transition later.
pub open spec fn valid_history<F, T>(h: Seq<State<F, T>>) -> bool {
    forall|i: int| 0 <= i < h.len() - 1 ==> h[i + 1] == h[i] || #[trigger] step(h[i], h[i + 1])
}

/// Every legal transition moves exactly one position forward.
pub proof fn lemma_step_is_forward<F, T>(pre: State<F, T>, post: State<F, T>)
    requires
        step(pre, post),
    ensures
        state_rank(post) == state_rank(pre) + 1,
{
}

/// Law: the life cycle never moves backwards. In any valid history the rank
/// is monotone, so once a state is left it is never observed again.
pub proof fn lemma_history_is_forward<F, T>(h: Seq<State<F, T>>, i: int, j: int)
    requires
        valid_history(h),
        0 <= i <= j < h.len(),
    ensures
        state_rank(h[i]) <= state_rank(h[j]),
    decreases j - i,
{
    if i < j {
        lemma_history_is_forward(h, i, j - 1);
        assert(h[j - 1 + 1] == h[j - 1] || step(h[j - 1], h[j - 1 + 1]));
    }
}

/// Law: the closure is consumed at most once. A *Ready* observation is only
/// ever the unchanged initial state, so the one transition that moves the
/// closure out — *Ready* to *Running* — can happen at most once in a history.
pub proof fn lemma_ready_is_initial<F, T>(h: Seq<State<F, T>>, i: int, j: int)
    requires
        valid_history(h),
        0 <= i <= j < h.len(),
        h[j] is Ready,
    ensures
        h[i] == h[j],
    decreases j - i,
{
    if i < j {
        lemma_history_is_forward(h, i, j - 1);
        assert(h[j - 1 + 1] == h[j - 1] || step(h[j - 1], h[j - 1 + 1]));
        lemma_ready_is_initial(h, i, j - 1);
    }
}

/// Law: a running thread was entered. In any valid history that begins
/// *Ready* and reaches *Running*, some earlier observation is the *Ready*
/// state followed by the transition that moves the closure out. Together with
/// [`lemma_ready_is_initial`] this makes the entry exactly once: it happens
/// whenever the thread runs, and it cannot happen twice because *Ready* is
/// never observed again afterwards.
pub proof fn lemma_running_was_entered<F, T>(h: Seq<State<F, T>>, j: int)
    requires
        valid_history(h),
        0 <= j < h.len(),
        h[0] is Ready,
        h[j] is Running,
    ensures
        exists|i: int| 0 <= i < j && #[trigger] step(h[i], h[i + 1]) && h[i] is Ready,
    decreases j,
{
    if j > 0 && h[j - 1] is Running {
        lemma_running_was_entered(h, j - 1);
    } else {
        assert(j > 0 && (h[j - 1 + 1] == h[j - 1] || step(h[j - 1], h[j - 1 + 1])));
        assert(step(h[j - 1], h[j - 1 + 1]) && h[j - 1] is Ready);
    }
}

/// Law: the closure of a thread that exited was entered — and, by
/// [`lemma_ready_is_initial`], entered exactly once.
pub proof fn lemma_exit_was_entered<F, T>(h: Seq<State<F, T>>, j: int)
    requires
        valid_history(h),
        0 <= j < h.len(),
        h[0] is Ready,
        h[j] is Exited,
    ensures
        exists|i: int| 0 <= i < j && #[trigger] step(h[i], h[i + 1]) && h[i] is Ready,
    decreases j,
{
    if j > 0 && h[j - 1] is Exited {
        lemma_exit_was_entered(h, j - 1);
    } else {
        assert(j > 0 && (h[j - 1 + 1] == h[j - 1] || step(h[j - 1], h[j - 1 + 1])));
        assert(h[j - 1] is Running);
        lemma_running_was_entered(h, j - 1);
    }
}

/// Law: the return value is never replaced. Once a history reaches
/// *Exited(v)*, every later *Exited* observation still holds the same `v`:
/// what a poll extracts is exactly what the closure returned.
pub proof fn lemma_exit_value_stable<F, T>(h: Seq<State<F, T>>, i: int, j: int)
    requires
        valid_history(h),
        0 <= i <= j < h.len(),
        h[i] is Exited,
        h[j] is Exited,
    ensures
        h[j] == h[i],
    decreases j - i,
{
    if i < j {
        assert(h[j - 1 + 1] == h[j - 1] || step(h[j - 1], h[j - 1 + 1]));
        lemma_history_is_forward(h, i, j - 1);
        lemma_exit_value_stable(h, i, j - 1);
    }
}

impl<F, T> State<F, T> {
    /// Takes the return value out of the state if the thread has exited,
    /// leaving *Invalid*; on any other state it returns nothing and changes
    /// nothing. Calling it again after an extraction is harmless: *Invalid*
    /// yields `None` and stays *Invalid*.
    pub fn take_ret(&mut self) -> (r: Option<T>)
        ensures
            *old(self) is Exited ==> {
                &&& r == Some(old(self)->Exited_0)
                &&& *final(self) is Invalid
                &&& step(*old(self), *final(self))
            },
            !(*old(self) is Exited) ==> r is None && *final(self) == *old(self),
    {
        if matches!(self, State::Exited(_)) {
            let mut taken = State::Invalid;
            core::mem::swap(self, &mut taken);
            match taken {
                State::Exited(ret) => Some(ret),
                _ => vstd::pervasive::unreached(),
            }
        } else {
            None
        }
    }
}

} // verus!
