//! The data a retrieval carries: the request sent at initiation, the handle
//! to the submitted job, and the output the finished job hands back.

use vstd::prelude::*;
use vstd::string::StringExecFns;

use crate::tier::DownLoadTier;

verus! {

/// The description the initiator attaches to every submitted job, built
/// around the tier's canonical name.
pub open spec fn description_spec(t: DownLoadTier) -> Seq<char> {
    "Getting an archive in \""@ + t.name_spec() + "\" tier"@
}

/// Everything the submission call needs: which archive to retrieve, from
/// which vault, how fast, and an auto-generated description. Immutable once
/// built, consumed by the submission.
pub struct RetrievalRequest {
    pub archive_id: String,
    pub vault_id: String,
    pub tier: DownLoadTier,
    pub description: String,
}

impl RetrievalRequest {
    /// The description always carries the tier's canonical name, which the
    /// remote service also receives as the tier parameter.
    pub open spec fn wf(self) -> bool {
        self.description@ == description_spec(self.tier)
    }
}

/// Builds the request for retrieving `archive_id` from `vault_id` at the
/// given tier, with the auto-generated description.
pub fn build_request(archive_id: String, vault_id: String, tier: DownLoadTier) -> (r:
    RetrievalRequest)
    ensures
        r.wf(),
        r.archive_id == archive_id,
        r.vault_id == vault_id,
        r.tier == tier,
        r.description@ == description_spec(tier),
{
    let name = tier.name();
    let description = String::from_str("Getting an archive in \"").concat(name.as_str()).concat(
        "\" tier",
    );
    RetrievalRequest { archive_id, vault_id, tier, description }
}

/// The ticket for one submitted retrieval job. A job identifier is not
/// globally unique, so the handle always keeps the vault it was created
/// against, and every later call pairs the two.
pub struct JobHandle {
    pub job_id: String,
    pub vault_id: String,
    pub tier: DownLoadTier,
    /// When the job was submitted, in seconds since the epoch, as supplied
    /// by the caller that performed the submission.
    pub submitted_at_secs: u64,
}

/// What a finished job hands back: the raw bytes plus the metadata the
/// remote service attaches to them. Ownership passes to the caller.
#[derive(Clone, Debug, PartialEq, Eq)]
pub struct JobOutput {
    pub body: Vec<u8>,
    pub checksum: Option<String>,
    pub content_range: Option<String>,
}

} // verus!
