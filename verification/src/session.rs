//! The retrieval orchestrator: one end-to-end retrieval as a state machine.
//! It validates the tier before anything goes over the wire, asks the caller
//! to submit the job, then hands the polling to the completion checker, and
//! surfaces the first failure unchanged. Each session is an independent
//! value: many retrievals can run concurrently without sharing any state.

use vstd::prelude::*;

use crate::error::RetrievalError;
use crate::job::{build_request, description_spec, JobHandle, JobOutput, RetrievalRequest};
use crate::poll::{PollOutcome, PollSession, PollStep};
use crate::tier::DownLoadTier;

verus! {

/// Which remote call the session needs the caller to perform next.
#[derive(Clone, Copy, PartialEq, Eq, Structural, Debug)]
pub enum RemoteCallKind {
    /// Submit the retrieval job described by the session's request.
    Submit,
    /// Fetch the job output for the session's handle, after the tier's wait
    /// interval.
    FetchOutput,
}

/// One end-to-end retrieval of a single archive.
pub enum RetrievalSession {
    /// The job has not been submitted yet.
    Submitting(RetrievalRequest),
    /// The job was submitted; its output is being polled for.
    Polling(PollSession),
    /// The retrieval is over; no further remote call is wanted.
    Finished(Result<JobOutput, RetrievalError>),
}

impl RetrievalSession {
    pub open spec fn wf(self) -> bool {
        match self {
            RetrievalSession::Submitting(req) => req.wf(),
            RetrievalSession::Polling(p) => p.wf(),
            RetrievalSession::Finished(_) => true,
        }
    }

    /// The remote call a session in each phase asks for; a finished session
    /// asks for none.
    pub open spec fn pending_call_spec(self) -> Option<RemoteCallKind> {
        match self {
            RetrievalSession::Submitting(_) => Some(RemoteCallKind::Submit),
            RetrievalSession::Polling(_) => Some(RemoteCallKind::FetchOutput),
            RetrievalSession::Finished(_) => None,
        }
    }

    /// Says which remote call, if any, the caller should perform next.
    pub fn pending_call(&self) -> (r: Option<RemoteCallKind>)
        ensures
            r == self.pending_call_spec(),
    {
        match self {
            RetrievalSession::Submitting(_) => Some(RemoteCallKind::Submit),
            RetrievalSession::Polling(_) => Some(RemoteCallKind::FetchOutput),
            RetrievalSession::Finished(_) => None,
        }
    }

    /// Begins a retrieval from caller-supplied parameters. A tier text that
    /// parses to no tier finishes the session at once with `InvalidTier`,
    /// before any remote call; otherwise the session asks for the job to be
    /// submitted, with the auto-generated description.
    pub fn start(archive_id: String, vault_id: String, tier_text: &str) -> (r: RetrievalSession)
        ensures
            r.wf(),
            DownLoadTier::parse_spec(tier_text@) is None ==> r == RetrievalSession::Finished(
                Err::<JobOutput, RetrievalError>(RetrievalError::InvalidTier),
            ),
            DownLoadTier::parse_spec(tier_text@) matches Some(t) ==> (r matches
                RetrievalSession::Submitting(req) && req.archive_id == archive_id
                && req.vault_id == vault_id && req.tier == t && req.description@
                == description_spec(t)),
    {
        match DownLoadTier::parse(tier_text) {
            None => RetrievalSession::Finished(Err(RetrievalError::InvalidTier)),
            Some(tier) => RetrievalSession::Submitting(build_request(archive_id, vault_id, tier)),
        }
    }

    /// Where the session goes once the submission call has been answered:
    /// a job handle moves it to polling, a rejection finishes it with
    /// `InitiationFailed`.
    pub open spec fn submit_transition(answer: Option<JobHandle>) -> RetrievalSession {
        match answer {
            None => RetrievalSession::Finished(Err(RetrievalError::InitiationFailed)),
            Some(h) => RetrievalSession::Polling(PollSession::fresh_spec(h)),
        }
    }

    /// Feeds the session the result of the submission call: the job id the
    /// service returned, or `None` when submission was rejected or the
    /// service unreachable. `submitted_at_secs` is the submission time the
    /// caller observed, in seconds since the epoch.
    pub fn on_submit_result(self, job_id: Option<String>, submitted_at_secs: u64) -> (r:
        RetrievalSession)
        requires
            self matches RetrievalSession::Submitting(_),
            self.wf(),
        ensures
            r.wf(),
            self matches RetrievalSession::Submitting(req) ==> r
                == RetrievalSession::submit_transition(
                match job_id {
                    None => None,
                    Some(id) => Some(
                        JobHandle {
                            job_id: id,
                            vault_id: req.vault_id,
                            tier: req.tier,
                            submitted_at_secs,
                        },
                    ),
                },
            ),
    {
        match self {
            RetrievalSession::Submitting(req) => match job_id {
                None => RetrievalSession::Finished(Err(RetrievalError::InitiationFailed)),
                Some(id) => RetrievalSession::Polling(
                    PollSession::start(
                        JobHandle {
                            job_id: id,
                            vault_id: req.vault_id,
                            tier: req.tier,
                            submitted_at_secs,
                        },
                    ),
                ),
            },
            other => other,
        }
    }

    /// Lifts a poll decision into the session: a live poller keeps the
    /// session polling, a finished one finishes it with the same result.
    pub open spec fn from_poll_step(step: PollStep) -> RetrievalSession {
        match step {
            PollStep::Continue(p) => RetrievalSession::Polling(p),
            PollStep::Done(res) => RetrievalSession::Finished(res),
        }
    }

    /// Feeds the session the result of one output-fetch attempt.
    pub fn on_poll_outcome(self, outcome: PollOutcome) -> (r: RetrievalSession)
        requires
            self matches RetrievalSession::Polling(_),
            self.wf(),
        ensures
            r.wf(),
            self matches RetrievalSession::Polling(p) ==> r == RetrievalSession::from_poll_step(
                PollSession::step_spec(p, outcome),
            ),
    {
        match self {
            RetrievalSession::Polling(p) => match p.on_outcome(outcome) {
                PollStep::Continue(live) => RetrievalSession::Polling(live),
                PollStep::Done(res) => RetrievalSession::Finished(res),
            },
            other => other,
        }
    }
}

/// A finished session never asks for a remote call. With `start`'s
/// contract this gives: an unparseable tier string yields `InvalidTier`
/// with zero remote calls issued.
pub proof fn lemma_finished_demands_no_call(s: RetrievalSession)
    requires
        s matches RetrievalSession::Finished(_),
    ensures
        s.pending_call_spec() is None,
{
}

/// A rejected submission ends the retrieval at once: the session finishes
/// with `InitiationFailed`, and the finished session never asks for the
/// output-fetch call, so the completion step is skipped entirely.
pub proof fn lemma_rejected_submission_skips_completion()
    ensures
        RetrievalSession::submit_transition(None) == RetrievalSession::Finished(
            Err::<JobOutput, RetrievalError>(RetrievalError::InitiationFailed),
        ),
        RetrievalSession::submit_transition(None).pending_call_spec() is None,
{
}

} // verus!
