use vstd::prelude::*;
use crate::error::JobError;

verus! {

/// What to do with a job that failed.
#[derive(Clone, Copy, Debug, PartialEq, Eq, Structural)]
pub enum HealingAction {
    /// Retry the job immediately
    Retry,
    /// Retry after a delay (milliseconds)
    RetryAfter(u64),
    /// Skip this job and mark as failed
    Skip,
    /// Abort the entire workflow
    Abort,
}

/// What a healer is told of a failure.
#[derive(Debug)]
pub struct ErrorContext {
    pub job_id: String,
    pub error: JobError,
    /// How many times the job has failed, this failure included.
    pub attempt: u32,
    pub max_attempts: u32,
}

/// Decides what becomes of a failed job. Implementations decide at once,
/// without side effects.
pub trait ErrorHealer {
    /// `verdict` is one this healer may give on `context`; any verdict unless
    /// the healer says more.
    open spec fn allows(&self, context: ErrorContext, verdict: HealingAction) -> bool {
        true
    }

    fn heal(&self, context: &ErrorContext) -> (r: HealingAction)
        ensures
            self.allows(*context, r);
}

/// The default policy: give up once the attempts are spent or the error
/// cannot be recovered from, else retry, after the error's delay if it has one.
pub open spec fn default_verdict(max_retries: u32, attempt: u32, recoverable: bool, retry_after_ms: Option<u64>) -> HealingAction {
    if attempt >= max_retries {
        HealingAction::Skip
    } else if !recoverable {
        HealingAction::Skip
    } else {
        match retry_after_ms {
            Some(d) => HealingAction::RetryAfter(d),
            None => HealingAction::Retry,
        }
    }
}

pub struct DefaultErrorHealer {
    pub max_retries: u32,
}

impl DefaultErrorHealer {
    pub fn new(max_retries: u32) -> (r: DefaultErrorHealer)
        ensures
            r.max_retries == max_retries,
    {
        DefaultErrorHealer { max_retries }
    }
}

impl ErrorHealer for DefaultErrorHealer {
    /// Exactly the default policy's verdict.
    open spec fn allows(&self, context: ErrorContext, verdict: HealingAction) -> bool {
        verdict == default_verdict(self.max_retries, context.attempt, context.error.recoverable, context.error.retry_after_ms)
    }

    fn heal(&self, context: &ErrorContext) -> (r: HealingAction) {
        if context.attempt >= self.max_retries {
            return HealingAction::Skip;
        }
        if !context.error.recoverable {
            return HealingAction::Skip;
        }
        match context.error.retry_after_ms {
            Some(delay) => HealingAction::RetryAfter(delay),
            None => HealingAction::Retry,
        }
    }
}

/// The default policy never aborts, and never retries a job whose attempts are
/// spent or whose error cannot be recovered from.
pub proof fn lemma_default_policy_bounds(max_retries: u32, attempt: u32, recoverable: bool, retry_after_ms: Option<u64>)
    ensures
        default_verdict(max_retries, attempt, recoverable, retry_after_ms) != HealingAction::Abort,
        (attempt >= max_retries || !recoverable) ==> default_verdict(max_retries, attempt, recoverable, retry_after_ms) == HealingAction::Skip,
{
}

} // verus!
