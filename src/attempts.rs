use vstd::prelude::*;

verus! {

/// A failed decode is retried while at most this many failures have been
/// retried before it, so one operation decodes at most `RETRY_LIMIT + 2` times.
pub const RETRY_LIMIT: u32 = 20;

/// What to do after decoding a glitched buffer.
#[derive(PartialEq, Eq, Structural, Debug, Clone, Copy)]
pub enum Step {
    /// The buffer decoded: show the image.
    Show,
    /// The buffer did not decode: glitch the original bytes afresh and try again.
    Retry,
    /// The buffer did not decode and the budget is spent: report an error.
    GiveUp,
}

/// The number of failed decodes retried so far in one glitch operation.
#[derive(Debug, Clone, Copy)]
pub struct DecodeAttempts {
    pub tries: u32,
}

/// The step, and the new count, that follow a decode from a count of `tries`.
pub open spec fn next_after(tries: u32, decoded: bool) -> (Step, u32) {
    if decoded {
        (Step::Show, tries)
    } else if tries > RETRY_LIMIT {
        (Step::GiveUp, tries)
    } else {
        (Step::Retry, (tries + 1) as u32)
    }
}

/// How many decodes fail in a row, from a count of `tries`, until the
/// operation gives up (the failure that gives up included).
pub open spec fn failures_until_give_up(tries: u32) -> nat
    decreases RETRY_LIMIT + 1 - tries,
{
    let (step, next) = next_after(tries, false);
    if step == Step::GiveUp {
        1
    } else {
        1 + failures_until_give_up(next)
    }
}

impl DecodeAttempts {
    /// The count never passes `RETRY_LIMIT + 1`.
    pub open spec fn wf(&self) -> bool {
        self.tries <= RETRY_LIMIT + 1
    }

    /// No decode has failed yet.
    pub fn new() -> (r: Self)
        ensures
            r.tries == 0,
            r.wf(),
    {
        DecodeAttempts { tries: 0 }
    }

    /// Decides what follows a decode that succeeded (`decoded`) or failed.
    pub fn after_decode(&mut self, decoded: bool) -> (step: Step)
        requires
            old(self).wf(),
        ensures
            final(self).wf(),
            (step, final(self).tries) == next_after(old(self).tries, decoded),
    {
        if decoded {
            Step::Show
        } else if self.tries > RETRY_LIMIT {
            Step::GiveUp
        } else {
            self.tries = self.tries + 1;
            Step::Retry
        }
    }
}

/// The retry budget is fixed: from any well-formed count, the operation
/// gives up after exactly `RETRY_LIMIT + 2 - tries` failed decodes in a row.
pub proof fn lemma_failures_until_give_up(tries: u32)
    requires
        tries <= RETRY_LIMIT + 1,
    ensures
        failures_until_give_up(tries) == RETRY_LIMIT + 2 - tries,
    decreases RETRY_LIMIT + 1 - tries,
{
    if tries <= RETRY_LIMIT {
        lemma_failures_until_give_up((tries + 1) as u32);
    }
}

} // verus!
