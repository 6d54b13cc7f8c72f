//! The completion checker: a state machine that decides, after each
//! output-fetch attempt, whether to keep polling, give up, or hand the
//! output to the caller. The tier's attempt budget bounds the polling, so a
//! job that never becomes ready ends in a timeout rather than an endless
//! loop or an instant failure.

use vstd::prelude::*;

use crate::error::RetrievalError;
use crate::job::{JobHandle, JobOutput};

verus! {

/// What one output-fetch attempt against the remote service produced. A
/// single fetch both checks the status and, when ready, returns the output.
pub enum PollOutcome {
    /// The job finished and its output came back.
    Ready(JobOutput),
    /// The job is still being processed; a later attempt may succeed.
    NotReady,
    /// The service definitively rejected the fetch (job unknown, access
    /// denied); retrying cannot help.
    Failed,
}

/// The poller for one submitted job. It counts the "not ready" answers seen
/// so far against the tier's attempt budget.
pub struct PollSession {
    pub handle: JobHandle,
    pub not_ready_count: u64,
}

/// What the poller decided after an attempt.
pub enum PollStep {
    /// Fetch again after the tier's wait interval.
    Continue(PollSession),
    /// The retrieval is over, successfully or not.
    Done(Result<JobOutput, RetrievalError>),
}

impl PollSession {
    /// A live poller has spent fewer "not ready" answers than its budget.
    pub open spec fn wf(self) -> bool {
        self.not_ready_count < self.handle.tier.max_poll_attempts_spec()
    }

    /// The freshly started poller for a submitted job.
    pub open spec fn fresh_spec(handle: JobHandle) -> PollSession {
        PollSession { handle, not_ready_count: 0 }
    }

    /// Starts polling a freshly submitted job.
    pub fn start(handle: JobHandle) -> (r: PollSession)
        ensures
            r == PollSession::fresh_spec(handle),
            r.wf(),
    {
        PollSession { handle, not_ready_count: 0 }
    }

    /// The decision after one fetch attempt: output ends the retrieval with
    /// it, a definitive rejection ends it with `CompletionFailed`, and "not
    /// ready" either continues with one more answer counted or, once the
    /// whole budget is spent, gives up with `Timeout`.
    pub open spec fn step_spec(s: PollSession, outcome: PollOutcome) -> PollStep {
        match outcome {
            PollOutcome::Ready(out) => PollStep::Done(Ok(out)),
            PollOutcome::Failed => PollStep::Done(Err(RetrievalError::CompletionFailed)),
            PollOutcome::NotReady => {
                if s.not_ready_count + 1 < s.handle.tier.max_poll_attempts_spec() {
                    PollStep::Continue(
                        PollSession {
                            handle: s.handle,
                            not_ready_count: (s.not_ready_count + 1) as u64,
                        },
                    )
                } else {
                    PollStep::Done(Err(RetrievalError::Timeout))
                }
            },
        }
    }

    /// Feeds the poller the result of one fetch attempt.
    pub fn on_outcome(self, outcome: PollOutcome) -> (r: PollStep)
        requires
            self.wf(),
        ensures
            r == PollSession::step_spec(self, outcome),
            r matches PollStep::Continue(s) ==> s.wf(),
    {
        match outcome {
            PollOutcome::Ready(out) => PollStep::Done(Ok(out)),
            PollOutcome::Failed => PollStep::Done(Err(RetrievalError::CompletionFailed)),
            PollOutcome::NotReady => {
                let budget = self.handle.tier.max_poll_attempts();
                if self.not_ready_count + 1 < budget {
                    PollStep::Continue(
                        PollSession {
                            handle: self.handle,
                            not_ready_count: self.not_ready_count + 1,
                        },
                    )
                } else {
                    PollStep::Done(Err(RetrievalError::Timeout))
                }
            },
        }
    }
}

/// Where the poller stands after `n` consecutive "not ready" answers,
/// starting from `s`.
pub open spec fn after_not_ready(s: PollSession, n: nat) -> PollStep
    decreases n,
{
    if n == 0 {
        PollStep::Continue(s)
    } else {
        match after_not_ready(s, (n - 1) as nat) {
            PollStep::Continue(live) => PollSession::step_spec(live, PollOutcome::NotReady),
            done => done,
        }
    }
}

/// While fewer "not ready" answers than the budget have arrived, the poller
/// is still live and has counted every one of them.
pub proof fn lemma_poll_still_live(h: JobHandle, n: nat)
    requires
        n < h.tier.max_poll_attempts_spec(),
    ensures
        after_not_ready(PollSession::fresh_spec(h), n) == PollStep::Continue(
            PollSession { handle: h, not_ready_count: n as u64 },
        ),
    decreases n,
{
    if n > 0 {
        lemma_poll_still_live(h, (n - 1) as nat);
    }
}

/// A retrieval hands back exactly the output its own job produced: however
/// many answers a poller has already seen, a ready answer finishes it with
/// that answer's output, unchanged. Together with every transition being a
/// pure function of one session's own state and its own job's answer, this
/// is why interleaved retrievals of distinct archives cannot interfere.
pub proof fn lemma_output_matches_own_job(p: PollSession, out: JobOutput)
    ensures
        PollSession::step_spec(p, PollOutcome::Ready(out)) == PollStep::Done(
            Ok::<JobOutput, RetrievalError>(out),
        ),
{
}

/// A job that answers "not ready" `n` times and then hands out its output
/// completes successfully exactly when `n` is below the tier's attempt
/// budget; from the budget on, the poller has already given up with
/// `Timeout` instead.
pub proof fn lemma_poll_respects_budget(h: JobHandle, n: nat, out: JobOutput)
    ensures
        n < h.tier.max_poll_attempts_spec() ==> (after_not_ready(PollSession::fresh_spec(h), n)
            matches PollStep::Continue(live) && PollSession::step_spec(
            live,
            PollOutcome::Ready(out),
        ) == PollStep::Done(Ok::<JobOutput, RetrievalError>(out))),
        n >= h.tier.max_poll_attempts_spec() ==> after_not_ready(PollSession::fresh_spec(h), n)
            == PollStep::Done(Err::<JobOutput, RetrievalError>(RetrievalError::Timeout)),
    decreases n,
{
    let budget = h.tier.max_poll_attempts_spec();
    if n < budget {
        lemma_poll_still_live(h, n);
    } else if n == budget {
        lemma_poll_still_live(h, (n - 1) as nat);
    } else {
        lemma_poll_respects_budget(h, (n - 1) as nat, out);
    }
}

} // verus!
