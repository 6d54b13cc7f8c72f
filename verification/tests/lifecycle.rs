use glacier_retrieval::{
    build_request, DownLoadTier, JobHandle, JobOutput, PollOutcome, PollSession, PollStep,
    RemoteCallKind, RetrievalError, RetrievalSession,
};

/// A stand-in for the remote service that counts every call it receives.
struct StubRemote {
    submit_calls: usize,
    fetch_calls: usize,
    reject_submission: bool,
    /// How many times a fetch answers "not ready" before the job is ready.
    not_ready_answers: usize,
    body: Vec<u8>,
}

impl StubRemote {
    fn new() -> StubRemote {
        StubRemote {
            submit_calls: 0,
            fetch_calls: 0,
            reject_submission: false,
            not_ready_answers: 0,
            body: vec![1, 2, 3],
        }
    }

    fn output(&self) -> JobOutput {
        JobOutput { body: self.body.clone(), checksum: None, content_range: None }
    }
}

/// Drives one retrieval end to end against the stub, the way a real caller
/// would: perform whichever remote call the session asks for, feed the
/// answer back, stop when the session is finished.
fn run_retrieval(
    stub: &mut StubRemote,
    archive: &str,
    vault: &str,
    tier_text: &str,
) -> Result<JobOutput, RetrievalError> {
    let mut session = RetrievalSession::start(archive.to_string(), vault.to_string(), tier_text);
    loop {
        match session.pending_call() {
            None => break,
            Some(RemoteCallKind::Submit) => {
                stub.submit_calls += 1;
                let answer = if stub.reject_submission {
                    None
                } else {
                    Some("job-001".to_string())
                };
                session = session.on_submit_result(answer, 1_700_000_000);
            }
            Some(RemoteCallKind::FetchOutput) => {
                stub.fetch_calls += 1;
                let outcome = if stub.not_ready_answers > 0 {
                    stub.not_ready_answers -= 1;
                    PollOutcome::NotReady
                } else {
                    PollOutcome::Ready(stub.output())
                };
                session = session.on_poll_outcome(outcome);
            }
        }
    }
    match session {
        RetrievalSession::Finished(result) => result,
        _ => unreachable!(),
    }
}

#[test]
fn retrieval_succeeds_when_job_becomes_ready() {
    let mut stub = StubRemote::new();
    stub.not_ready_answers = 3;
    let result = run_retrieval(&mut stub, "archive-9", "vault-a", "Expedited");
    assert_eq!(result, Ok(stub.output()));
    assert_eq!(stub.submit_calls, 1);
    assert_eq!(stub.fetch_calls, 4);
}

#[test]
fn poll_succeeds_just_inside_the_budget() {
    let tier = DownLoadTier::Expedited;
    let budget = tier.max_poll_attempts() as usize;
    let mut stub = StubRemote::new();
    stub.not_ready_answers = budget - 1;
    let result = run_retrieval(&mut stub, "archive-9", "vault-a", "expedited");
    assert_eq!(result, Ok(stub.output()));
    assert_eq!(stub.fetch_calls, budget);
}

#[test]
fn poll_times_out_at_the_budget() {
    let tier = DownLoadTier::Expedited;
    let budget = tier.max_poll_attempts() as usize;
    let mut stub = StubRemote::new();
    stub.not_ready_answers = budget;
    let result = run_retrieval(&mut stub, "archive-9", "vault-a", "expedited");
    assert_eq!(result, Err(RetrievalError::Timeout));
    // the poller stopped at its budget rather than retrying forever
    assert_eq!(stub.fetch_calls, budget);
}

#[test]
fn rejected_submission_skips_completion() {
    let mut stub = StubRemote::new();
    stub.reject_submission = true;
    let result = run_retrieval(&mut stub, "archive-9", "vault-a", "Bulk");
    assert_eq!(result, Err(RetrievalError::InitiationFailed));
    assert_eq!(stub.submit_calls, 1);
    assert_eq!(stub.fetch_calls, 0);
}

#[test]
fn invalid_tier_issues_zero_remote_calls() {
    let mut stub = StubRemote::new();
    let result = run_retrieval(&mut stub, "archive-9", "vault-a", "fast");
    assert_eq!(result, Err(RetrievalError::InvalidTier));
    assert_eq!(stub.submit_calls, 0);
    assert_eq!(stub.fetch_calls, 0);
}

#[test]
fn definitive_rejection_fails_completion() {
    let mut session = RetrievalSession::start(
        "archive-9".to_string(),
        "vault-a".to_string(),
        "Standard",
    );
    assert_eq!(session.pending_call(), Some(RemoteCallKind::Submit));
    session = session.on_submit_result(Some("job-7".to_string()), 0);
    assert_eq!(session.pending_call(), Some(RemoteCallKind::FetchOutput));
    session = session.on_poll_outcome(PollOutcome::Failed);
    match session {
        RetrievalSession::Finished(result) => {
            assert_eq!(result, Err(RetrievalError::CompletionFailed));
        }
        _ => unreachable!(),
    }
}

#[test]
fn request_carries_the_generated_description() {
    let request = build_request(
        "archive-9".to_string(),
        "vault-a".to_string(),
        DownLoadTier::Standard,
    );
    assert_eq!(request.archive_id, "archive-9");
    assert_eq!(request.vault_id, "vault-a");
    assert_eq!(request.description, "Getting an archive in \"Standard\" tier");
}

#[test]
fn poller_keeps_vault_and_job_paired() {
    let handle = JobHandle {
        job_id: "job-42".to_string(),
        vault_id: "vault-b".to_string(),
        tier: DownLoadTier::Bulk,
        submitted_at_secs: 5,
    };
    let session = PollSession::start(handle);
    assert_eq!(session.handle.job_id, "job-42");
    assert_eq!(session.handle.vault_id, "vault-b");
    match session.on_outcome(PollOutcome::NotReady) {
        PollStep::Continue(live) => {
            assert_eq!(live.handle.job_id, "job-42");
            assert_eq!(live.handle.vault_id, "vault-b");
            assert_eq!(live.not_ready_count, 1);
        }
        PollStep::Done(_) => unreachable!(),
    }
}

#[test]
fn interleaved_sessions_do_not_interfere() {
    // Two concurrent retrievals for distinct archives; the stub keys its
    // answers by job id, and the answers arrive interleaved.
    let mut a = RetrievalSession::start("archive-a".to_string(), "vault-a".to_string(), "Bulk");
    let mut b = RetrievalSession::start("archive-b".to_string(), "vault-b".to_string(), "Bulk");
    a = a.on_submit_result(Some("job-a".to_string()), 10);
    b = b.on_submit_result(Some("job-b".to_string()), 11);

    let output_for = |job_id: &str| JobOutput {
        body: job_id.as_bytes().to_vec(),
        checksum: Some(format!("sum-{job_id}")),
        content_range: None,
    };

    // interleaved: a not ready, b ready, a ready
    a = a.on_poll_outcome(PollOutcome::NotReady);
    let b_job = match &b {
        RetrievalSession::Polling(p) => p.handle.job_id.clone(),
        _ => unreachable!(),
    };
    b = b.on_poll_outcome(PollOutcome::Ready(output_for(&b_job)));
    let a_job = match &a {
        RetrievalSession::Polling(p) => p.handle.job_id.clone(),
        _ => unreachable!(),
    };
    a = a.on_poll_outcome(PollOutcome::Ready(output_for(&a_job)));

    match (a, b) {
        (RetrievalSession::Finished(ra), RetrievalSession::Finished(rb)) => {
            assert_eq!(ra, Ok(output_for("job-a")));
            assert_eq!(rb, Ok(output_for("job-b")));
        }
        _ => unreachable!(),
    }
}
