//! Identities of catalog coverage plans, published snapshots and the
//! negotiated contract versions they were published under.
use vstd::prelude::*;
use crate::error::EngineError;
use crate::util::digest_equal;

verus! {

/// Version of the catalog query pack contract snapshots are published for.
pub const CATALOG_QUERY_PACK_CONTRACT_VERSION: u32 = 1;

/// Deepest chain of refresh predecessors a Ready publication retains.
pub const MAX_RETAINED_REFRESH_LINEAGE_DEPTH: usize = 8;

/// Which coverage a plan describes. Only the whole Library is published today.
#[derive(Debug, Clone, Copy, PartialEq, Eq, Structural)]
pub enum CatalogCoverageScope {
    Library,
    Project,
    Session,
}

/// Digest naming one frozen coverage plan.
#[derive(Debug, Clone, Copy, PartialEq, Eq)]
pub struct CatalogCoveragePlanId {
    pub bytes: [u8; 32],
}

impl CatalogCoveragePlanId {
    pub fn same(&self, other: &Self) -> (r: bool)
        ensures
            r == (*self == *other),
    {
        let r = digest_equal(&self.bytes, &other.bytes);
        proof {
            if r {
                assert(self.bytes == other.bytes);
            }
        }
        r
    }
}

/// A frozen coverage plan as a publication is checked against it: what it
/// covers and the id that names it.
#[derive(Debug, Clone, Copy, PartialEq, Eq)]
pub struct CatalogCoveragePlan {
    pub scope: CatalogCoverageScope,
    pub coverage_plan_id: CatalogCoveragePlanId,
}

/// Exact coordinates of one published snapshot: the query pack contract it
/// serves, its plan, the readiness epoch and the commit that completed it.
#[derive(Debug, Clone, Copy, PartialEq, Eq)]
pub struct CatalogSnapshotId {
    pub pack_contract_version: u32,
    pub coverage_plan_id: CatalogCoveragePlanId,
    pub readiness_epoch: u64,
    pub complete_commit: u64,
}

/// Every coordinate of a snapshot id is positive.
pub open spec fn snapshot_id_valid(id: CatalogSnapshotId) -> bool {
    id.pack_contract_version > 0 && id.readiness_epoch > 0 && id.complete_commit > 0
}

impl CatalogSnapshotId {
    /// Build a snapshot id; a zero coordinate is refused.
    pub fn new(
        pack_contract_version: u32,
        coverage_plan_id: CatalogCoveragePlanId,
        readiness_epoch: u64,
        complete_commit: u64,
    ) -> (r: Result<Self, EngineError>)
        ensures
            r is Ok <==> (pack_contract_version > 0 && readiness_epoch > 0 && complete_commit > 0),
            r matches Ok(id) ==> id == (CatalogSnapshotId {
                pack_contract_version,
                coverage_plan_id,
                readiness_epoch,
                complete_commit,
            }),
            r matches Err(e) ==> e is ContractViolation,
    {
        if pack_contract_version == 0 || readiness_epoch == 0 || complete_commit == 0 {
            return Err(
                EngineError::ContractViolation(
                    String::from_str("catalog snapshot coordinates must be positive"),
                ),
            );
        }
        Ok(CatalogSnapshotId { pack_contract_version, coverage_plan_id, readiness_epoch, complete_commit })
    }

    pub fn same(&self, other: &Self) -> (r: bool)
        ensures
            r == (*self == *other),
    {
        self.pack_contract_version == other.pack_contract_version && self.coverage_plan_id.same(
            &other.coverage_plan_id,
        ) && self.readiness_epoch == other.readiness_epoch && self.complete_commit
            == other.complete_commit
    }
}

/// One negotiated fact family and its version.
#[derive(Debug, Clone, PartialEq, Eq)]
pub struct FactFamilyVersion {
    pub family: String,
    pub version: u32,
}

/// The contract versions a publication was negotiated under.
#[derive(Debug, Clone, PartialEq, Eq)]
pub struct ContractVersionSelection {
    pub selection_contract_version: u32,
    pub model_major: u32,
    pub external_entity_reference_version: u32,
    pub semantic_revision_reference_version: u32,
    pub coverage_contract_version: u32,
    pub fact_family_versions: Vec<FactFamilyVersion>,
    pub query_pack_version: Option<u32>,
    pub observation_contract_version: Option<u32>,
}

/// A retained snapshot together with the digests that authenticate it.
#[derive(Debug, Clone, Copy, PartialEq, Eq)]
pub struct CatalogRetainedSnapshotCommitment {
    pub snapshot: CatalogSnapshotId,
    pub publication: [u8; 32],
    pub content: [u8; 32],
}

impl CatalogRetainedSnapshotCommitment {
    pub fn from_test_parts(
        snapshot: CatalogSnapshotId,
        publication_digest: [u8; 32],
        content_digest: [u8; 32],
    ) -> (r: Self)
        ensures
            r.snapshot == snapshot,
            r.publication == publication_digest,
            r.content == content_digest,
    {
        CatalogRetainedSnapshotCommitment { snapshot, publication: publication_digest, content: content_digest }
    }

    pub fn snapshot_id(&self) -> (r: CatalogSnapshotId)
        ensures
            r == self.snapshot,
    {
        self.snapshot
    }

    pub fn publication_digest(&self) -> (r: [u8; 32])
        ensures
            r == self.publication,
    {
        self.publication
    }

    pub fn content_digest(&self) -> (r: [u8; 32])
        ensures
            r == self.content,
    {
        self.content
    }

    pub fn same(&self, other: &Self) -> (r: bool)
        ensures
            r == (*self == *other),
    {
        self.snapshot.same(&other.snapshot) && digest_equal(&self.publication, &other.publication)
            && digest_equal(&self.content, &other.content)
    }
}

} // verus!
