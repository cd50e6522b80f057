//! The cooperative cancellation flag.
//!
//! A running feed or inference loop asks the flag once per token whether to
//! go on. Nothing preempts the loop: a cancel request takes effect at the
//! next such question.

use std::convert::Infallible;
use vstd::prelude::*;

verus! {

/// What a streaming loop is told after it has delivered a token.
#[derive(Clone, Copy, Debug, PartialEq, Eq, Structural)]
pub enum InferenceFeedback {
    /// Go on with the next token.
    Continue,
    /// Stop now and return what has accumulated so far.
    Halt,
}

/// A single flag that asks running loops to stop.
///
/// The flag lives longer than any session: it is cleared at the beginning of
/// every start, set by a cancel request at any time, and only read elsewhere.
#[derive(Debug)]
pub struct Canceller {
    cancelled: bool,
}

impl Canceller {
    /// Whether a cancel request is pending.
    pub closed spec fn cancelled(&self) -> bool {
        self.cancelled
    }

    /// The flag once cancellation has been requested of it.
    pub closed spec fn after_cancel(self) -> Canceller {
        Canceller { cancelled: true }
    }

    /// The flag once it has been reset.
    pub closed spec fn after_reset(self) -> Canceller {
        Canceller { cancelled: false }
    }

    /// The answer that a loop gets while the flag is in this state.
    pub open spec fn feedback(&self) -> InferenceFeedback {
        if self.cancelled() {
            InferenceFeedback::Halt
        } else {
            InferenceFeedback::Continue
        }
    }

    /// A flag with no cancel request pending.
    pub fn new() -> (canceller: Self)
        ensures
            !canceller.cancelled(),
    {
        Canceller { cancelled: false }
    }

    /// Requests cancellation. Asking twice is the same as asking once.
    pub fn cancel(&mut self)
        ensures
            *final(self) == old(self).after_cancel(),
            final(self).cancelled(),
    {
        self.cancelled = true;
    }

    /// Reads the flag.
    #[verifier::when_used_as_spec(cancelled)]
    pub fn is_cancelled(&self) -> (cancelled: bool)
        ensures
            cancelled == self.cancelled(),
    {
        self.cancelled
    }

    /// Clears the flag.
    pub fn reset(&mut self)
        ensures
            *final(self) == old(self).after_reset(),
            !final(self).cancelled(),
    {
        self.cancelled = false;
    }

    /// The answer for a loop that has just delivered a token: halt exactly
    /// when a cancel request is pending. It never fails.
    pub fn inference_feedback(&self) -> (answer: Result<InferenceFeedback, Infallible>)
        ensures
            answer == Ok::<InferenceFeedback, Infallible>(self.feedback()),
    {
        if self.is_cancelled() {
            Ok(InferenceFeedback::Halt)
        } else {
            Ok(InferenceFeedback::Continue)
        }
    }
}

impl Default for Canceller {
    fn default() -> (canceller: Self)
        ensures
            !canceller.cancelled(),
    {
        Canceller::new()
    }
}

/// Whatever the flag held before, once cancellation has been requested the
/// next loop that asks is told to halt: the token at which it asks is its
/// last. Requesting it again changes nothing.
pub proof fn lemma_cancel_halts_next_check(before: Canceller)
    ensures
        before.after_cancel().cancelled(),
        before.after_cancel().feedback() == InferenceFeedback::Halt,
        before.after_cancel().after_cancel() == before.after_cancel(),
{
}

/// Whatever the flag held before, once it has been reset a loop that asks
/// is told to go on, until cancellation is requested again.
pub proof fn lemma_reset_lets_loops_go_on(before: Canceller)
    ensures
        !before.after_reset().cancelled(),
        before.after_reset().feedback() == InferenceFeedback::Continue,
        before.after_reset().after_cancel().feedback() == InferenceFeedback::Halt,
{
}

} // verus!
