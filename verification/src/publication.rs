//! Restart-authenticated identity of a Ready catalog publication: its
//! sorted row commitments, its retained snapshot chain, and the checks a
//! durable publication's stored columns must pass before they are trusted.
use vstd::prelude::*;
use crate::artifact::{is_whitespace, unicode_whitespace};
use crate::codec::{blake3_digest, blake3_hash};
use crate::error::{corrupt_with, EngineError};
use crate::retention::{selection_matches, selections_equal};
use crate::snapshot::{
    CatalogCoveragePlan, CatalogCoveragePlanId, CatalogCoverageScope, CatalogRetainedSnapshotCommitment,
    CatalogSnapshotId, ContractVersionSelection, MAX_RETAINED_REFRESH_LINEAGE_DEPTH,
};
use crate::build_rules::CatalogReadinessPhase;
use crate::util::{all_zero, compare_bytes, digest_equal, is_zero_digest, lex_lt, opt_text, push_str, str_len,
    lemma_lex_transitive, lemma_lex_irreflexive, ByteOrder};

verus! {

broadcast use vstd::seq::group_seq_axioms;

/// Topic of the change announcing a readiness transition.
pub const READINESS_CHANGE_TOPIC: &'static str = "catalog.readiness.changed";

/// Durable contract version of an initial publication's snapshot row.
pub const CATALOG_DURABLE_PUBLICATION_CONTRACT_VERSION: u32 = 1;
/// Durable contract version of a refresh publication's snapshot row.
pub const CATALOG_DURABLE_REFRESH_PUBLICATION_CONTRACT_VERSION: u32 = 2;

/// Reason of the commit that schedules an initial Library build.
pub const BUILD_SCHEDULED_REASON: &'static str = "catalog.library.build.scheduled";
/// Reason of the commit that starts an ordinary refresh.
pub const REFRESH_STARTED_REASON: &'static str = "catalog.library.refresh.started";
/// Reason of the commit that records a partial build.
pub const PARTIAL_REASON: &'static str = "catalog.library.build.partial";
/// Reason of the commit that retries a source of an initial build.
pub const INITIAL_SOURCE_RETRYING_REASON: &'static str = "catalog.library.build.source_retrying";
/// Reason of the commit that retries a source of a refresh.
pub const REFRESH_SOURCE_RETRYING_REASON: &'static str = "catalog.library.refresh.source_retrying";
/// Reason of the commit that restarts an interrupted refresh.
pub const REFRESH_RECOVERY_STARTED_REASON: &'static str = "catalog.library.refresh.recovery_started";
/// Reason of the commit that invalidates a source generation.
pub const SOURCE_GENERATION_INVALIDATED_REASON: &'static str = "catalog.library.source.generation_invalidated";
/// Reason of the commit that publishes an initial Ready snapshot.
pub const INITIAL_PUBLICATION_REASON: &'static str = "catalog.library.published";
/// Reason of the commit that publishes a refresh Ready snapshot.
pub const REFRESH_PUBLICATION_REASON: &'static str = "catalog.library.refresh.published";

/// Kind of one durable publication entry.
#[derive(Debug, Clone, Copy, PartialEq, Eq, Structural)]
pub enum CatalogDurablePublicationEntryKind {
    Source,
    MemberBinding,
    MemberHistory,
    ReducerState,
    ProjectRow,
    SessionRow,
    Tombstone,
}

/// The stored text of an entry kind.
pub open spec fn kind_text(kind: CatalogDurablePublicationEntryKind) -> Seq<char> {
    match kind {
        CatalogDurablePublicationEntryKind::Source => "source"@,
        CatalogDurablePublicationEntryKind::MemberBinding => "member_binding"@,
        CatalogDurablePublicationEntryKind::MemberHistory => "member_history"@,
        CatalogDurablePublicationEntryKind::ReducerState => "reducer_state"@,
        CatalogDurablePublicationEntryKind::ProjectRow => "project_row"@,
        CatalogDurablePublicationEntryKind::SessionRow => "session_row"@,
        CatalogDurablePublicationEntryKind::Tombstone => "tombstone"@,
    }
}

/// The stored text of an entry kind.
pub fn entry_kind_text(kind: CatalogDurablePublicationEntryKind) -> (r: &'static str)
    ensures
        r@ == kind_text(kind),
{
    match kind {
        CatalogDurablePublicationEntryKind::Source => "source",
        CatalogDurablePublicationEntryKind::MemberBinding => "member_binding",
        CatalogDurablePublicationEntryKind::MemberHistory => "member_history",
        CatalogDurablePublicationEntryKind::ReducerState => "reducer_state",
        CatalogDurablePublicationEntryKind::ProjectRow => "project_row",
        CatalogDurablePublicationEntryKind::SessionRow => "session_row",
        CatalogDurablePublicationEntryKind::Tombstone => "tombstone",
    }
}

/// The entry kind a stored text names, if it is in the closed vocabulary.
pub fn parse_entry_kind(text: &str) -> (r: Option<CatalogDurablePublicationEntryKind>)
    ensures
        r matches Some(k) ==> text@ == kind_text(k),
        r is None ==> forall|k: CatalogDurablePublicationEntryKind| text@ != #[trigger] kind_text(k),
{
    let kinds = [
        CatalogDurablePublicationEntryKind::Source,
        CatalogDurablePublicationEntryKind::MemberBinding,
        CatalogDurablePublicationEntryKind::MemberHistory,
        CatalogDurablePublicationEntryKind::ReducerState,
        CatalogDurablePublicationEntryKind::ProjectRow,
        CatalogDurablePublicationEntryKind::SessionRow,
        CatalogDurablePublicationEntryKind::Tombstone,
    ];
    let mut i: usize = 0;
    while i < 7
        invariant
            i <= 7,
            kinds@ == seq![
                CatalogDurablePublicationEntryKind::Source,
                CatalogDurablePublicationEntryKind::MemberBinding,
                CatalogDurablePublicationEntryKind::MemberHistory,
                CatalogDurablePublicationEntryKind::ReducerState,
                CatalogDurablePublicationEntryKind::ProjectRow,
                CatalogDurablePublicationEntryKind::SessionRow,
                CatalogDurablePublicationEntryKind::Tombstone,
            ],
            forall|j: int| 0 <= j < i ==> text@ != kind_text(#[trigger] kinds@[j]),
        decreases 7 - i,
    {
        if crate::util::str_equal(text, entry_kind_text(kinds[i])) {
            return Some(kinds[i]);
        }
        i = i + 1;
    }
    proof {
        assert forall|k: CatalogDurablePublicationEntryKind| text@ != #[trigger] kind_text(k) by {
            match k {
                CatalogDurablePublicationEntryKind::Source => assert(kinds@[0] == k),
                CatalogDurablePublicationEntryKind::MemberBinding => assert(kinds@[1] == k),
                CatalogDurablePublicationEntryKind::MemberHistory => assert(kinds@[2] == k),
                CatalogDurablePublicationEntryKind::ReducerState => assert(kinds@[3] == k),
                CatalogDurablePublicationEntryKind::ProjectRow => assert(kinds@[4] == k),
                CatalogDurablePublicationEntryKind::SessionRow => assert(kinds@[5] == k),
                CatalogDurablePublicationEntryKind::Tombstone => assert(kinds@[6] == k),
            }
        }
    }
    None
}

/// Position of an entry kind in the durable entry order.
pub open spec fn kind_position(kind: CatalogDurablePublicationEntryKind) -> nat {
    match kind {
        CatalogDurablePublicationEntryKind::Source => 0,
        CatalogDurablePublicationEntryKind::MemberBinding => 1,
        CatalogDurablePublicationEntryKind::MemberHistory => 2,
        CatalogDurablePublicationEntryKind::ReducerState => 3,
        CatalogDurablePublicationEntryKind::ProjectRow => 4,
        CatalogDurablePublicationEntryKind::SessionRow => 5,
        CatalogDurablePublicationEntryKind::Tombstone => 6,
    }
}

/// Position of an entry kind in the durable entry order.
pub fn kind_index(kind: CatalogDurablePublicationEntryKind) -> (r: usize)
    ensures
        r == kind_position(kind),
{
    match kind {
        CatalogDurablePublicationEntryKind::Source => 0,
        CatalogDurablePublicationEntryKind::MemberBinding => 1,
        CatalogDurablePublicationEntryKind::MemberHistory => 2,
        CatalogDurablePublicationEntryKind::ReducerState => 3,
        CatalogDurablePublicationEntryKind::ProjectRow => 4,
        CatalogDurablePublicationEntryKind::SessionRow => 5,
        CatalogDurablePublicationEntryKind::Tombstone => 6,
    }
}

fn corrupt(message: &str) -> (e: EngineError)
    ensures
        e matches EngineError::CorruptCatalogState(m) && m@ == message@,
{
    EngineError::CorruptCatalogState(message.to_owned())
}

/// A bounded canonical identifier: non-empty, no surrounding whitespace, at
/// most 256 bytes.
pub open spec fn canonical_identifier(s: Seq<char>) -> bool {
    &&& s.len() > 0
    &&& !unicode_whitespace(s[0])
    &&& !unicode_whitespace(s.last())
    &&& str_len(s) <= 256
}

/// A stored member identity contract must be a bounded canonical
/// identifier.
pub fn validate_member_identity_contract(value: &str) -> (r: Result<(), EngineError>)
    ensures
        r is Ok <==> canonical_identifier(value@),
        r matches Err(e) ==> e is CorruptCatalogState,
{
    let n = value.unicode_len();
    if n == 0 || is_whitespace(value.get_char(0)) || is_whitespace(value.get_char(n - 1)) || value.len() > 256 {
        return Err(corrupt("catalog member identity contract is not a bounded canonical identifier"));
    }
    Ok(())
}

/// A stored digest column: exactly 32 bytes, not all zero.
pub fn decode_digest_column(bytes: &[u8], field: &str) -> (r: Result<[u8; 32], EngineError>)
    ensures
        r is Ok <==> bytes@.len() == 32 && !is_zero_digest(bytes@),
        r matches Ok(d) ==> d@ == bytes@,
        r matches Err(e) ==> e is CorruptCatalogState,
        r matches Err(e) ==> corrupt_with(e, field@),
{
    if bytes.len() != 32 {
        return Err(corrupt(field));
    }
    let mut d = [0u8; 32];
    let mut i: usize = 0;
    while i < 32
        invariant
            bytes@.len() == 32,
            i <= 32,
            forall|j: int| 0 <= j < i ==> d@[j] == bytes@[j],
        decreases 32 - i,
    {
        d[i] = bytes[i];
        i = i + 1;
    }
    assert(d@ =~= bytes@);
    if all_zero(&d) {
        return Err(corrupt(field));
    }
    Ok(d)
}

/// A stored count that must lie in `minimum..=maximum`.
pub fn bounded_usize(value: i64, minimum: usize, maximum: usize, field: &str) -> (r: Result<usize, EngineError>)
    ensures
        r is Ok <==> 0 <= value && minimum <= value <= maximum,
        r matches Ok(v) ==> v == value,
        r matches Err(e) ==> e is CorruptCatalogState,
{
    if value < 0 || value as u64 > usize::MAX as u64 {
        return Err(corrupt(field));
    }
    let v = value as usize;
    if v < minimum || v > maximum {
        return Err(corrupt(field));
    }
    Ok(v)
}

/// The owning commit row of a lineage step.
#[derive(Debug, Clone, PartialEq, Eq)]
pub struct CommitOwner {
    pub source_instance_id: Option<i64>,
    pub reason: String,
    pub committed_at: Option<i64>,
    pub fact_count: i64,
}

/// A lineage commit is source-neutral, carries one of the expected reasons
/// and no facts, was committed, and at the expected time when one is given.
pub open spec fn commit_owner_ok(owner: CommitOwner, reasons: Seq<Seq<char>>, expected_committed_at: Option<i64>) -> bool {
    &&& owner.source_instance_id is None
    &&& reasons.contains(owner.reason@)
    &&& owner.committed_at is Some
    &&& owner.fact_count == 0
    &&& (expected_committed_at is Some ==> owner.committed_at == expected_committed_at)
}

/// Check the commit that owns a lineage step.
pub fn validate_commit_owner_one_of(
    owner: &CommitOwner,
    expected_reasons: &Vec<&str>,
    expected_committed_at: Option<i64>,
) -> (r: Result<(), EngineError>)
    ensures
        r is Ok <==> commit_owner_ok(*owner, Seq::new(expected_reasons@.len(), |i: int| expected_reasons@[i]@), expected_committed_at),
        r matches Err(e) ==> e is CorruptCatalogState,
{
    let ghost reasons = Seq::new(expected_reasons@.len(), |i: int| expected_reasons@[i]@);
    let mut found = false;
    let mut i: usize = 0;
    while i < expected_reasons.len()
        invariant
            reasons == Seq::new(expected_reasons@.len(), |i: int| expected_reasons@[i]@),
            i <= expected_reasons@.len(),
            found == exists|k: int| 0 <= k < i && reasons[k] == owner.reason@,
        decreases expected_reasons@.len() - i,
    {
        let same = crate::util::str_equal(expected_reasons[i], owner.reason.as_str());
        assert(reasons[i as int] == expected_reasons@[i as int]@);
        if same {
            found = true;
        }
        i = i + 1;
    }
    if owner.source_instance_id.is_some() || !found || owner.committed_at.is_none() || owner.fact_count != 0 {
        return Err(corrupt("catalog publication lineage is not owned by the expected source-neutral commit"));
    }
    if expected_committed_at.is_some() && owner.committed_at != expected_committed_at {
        return Err(corrupt("catalog snapshot timestamp does not match its owning commit"));
    }
    Ok(())
}

/// What the durable build state says about the lineage being published.
#[derive(Debug, Clone, Copy, PartialEq, Eq)]
pub struct DurableBuildState {
    pub plan_scope: CatalogCoverageScope,
    pub plan_id: CatalogCoveragePlanId,
    pub readiness_scope: CatalogCoverageScope,
    pub readiness_plan_id: CatalogCoveragePlanId,
    pub desired_contract_version: u32,
    pub epoch: u64,
    pub attempt: u64,
    pub phase: CatalogReadinessPhase,
    pub last_commit_seq: u64,
}

/// The build a publication was assembled for.
#[derive(Debug, Clone, Copy, PartialEq, Eq)]
pub struct BuildExpectation {
    pub coverage_plan_id: CatalogCoveragePlanId,
    pub desired_contract_version: u32,
    pub epoch: u64,
    pub attempt: u64,
}

/// The durable state is the Library build the publication was assembled for.
pub open spec fn semantic_build_ok(current: DurableBuildState, expected: BuildExpectation) -> bool {
    &&& current.plan_scope == CatalogCoverageScope::Library
    &&& current.plan_id == expected.coverage_plan_id
    &&& current.readiness_scope == CatalogCoverageScope::Library
    &&& current.readiness_plan_id == expected.coverage_plan_id
    &&& current.desired_contract_version == expected.desired_contract_version
    &&& current.epoch == expected.epoch
    &&& current.attempt == expected.attempt
}

/// Refuse a publication whose build expectation is stale or foreign.
pub fn validate_semantic_build(current: &DurableBuildState, expected: &BuildExpectation) -> (r: Result<(), EngineError>)
    ensures
        r is Ok <==> semantic_build_ok(*current, *expected),
        r matches Err(e) ==> e is InvalidCommit,
{
    if current.plan_scope != CatalogCoverageScope::Library || !current.plan_id.same(&expected.coverage_plan_id)
        || current.readiness_scope != CatalogCoverageScope::Library
        || !current.readiness_plan_id.same(&expected.coverage_plan_id)
        || current.desired_contract_version != expected.desired_contract_version || current.epoch != expected.epoch
        || current.attempt != expected.attempt {
        return Err(EngineError::InvalidCommit("catalog publication semantic build expectation is stale or foreign".to_owned()));
    }
    Ok(())
}

/// The initial publication compare-and-swap: the expected build, still
/// Building or Partial, at exactly the expected (positive) commit.
pub open spec fn building_cas_ok(current: DurableBuildState, expected: BuildExpectation, expected_build_commit_seq: u64) -> bool {
    &&& semantic_build_ok(current, expected)
    &&& (current.phase == CatalogReadinessPhase::Building || current.phase == CatalogReadinessPhase::Partial)
    &&& current.last_commit_seq == expected_build_commit_seq
    &&& expected_build_commit_seq != 0
}

/// Refuse an initial publication whose Building compare-and-swap is stale.
pub fn validate_building_cas(current: &DurableBuildState, expected: &BuildExpectation, expected_build_commit_seq: u64) -> (r: Result<(), EngineError>)
    ensures
        r is Ok <==> building_cas_ok(*current, *expected, expected_build_commit_seq),
        r matches Err(e) ==> e is InvalidCommit,
{
    validate_semantic_build(current, expected)?;
    if !(current.phase == CatalogReadinessPhase::Building || current.phase == CatalogReadinessPhase::Partial)
        || current.last_commit_seq != expected_build_commit_seq || expected_build_commit_seq == 0 {
        return Err(EngineError::InvalidCommit(
            "catalog initial publication Building compare-and-swap is stale or foreign".to_owned(),
        ));
    }
    Ok(())
}

/// The refresh-specific part of the durable readiness a refresh publication
/// is checked against.
#[derive(Debug, Clone, PartialEq, Eq)]
pub struct RefreshReadinessState {
    pub refreshing_from_snapshot: Option<CatalogSnapshotId>,
    pub complete_through_commit: Option<u64>,
    pub completed_contract_version: Option<u32>,
    pub last_complete_snapshot: Option<CatalogSnapshotId>,
    /// The code of a source-retrying readiness reason, when that is the reason.
    pub retry_reason_code: Option<String>,
}

/// The refresh build a refresh publication was assembled for.
#[derive(Debug, Clone, PartialEq, Eq)]
pub struct RefreshBuildExpectation {
    pub build: BuildExpectation,
    pub predecessor_snapshot: CatalogSnapshotId,
    pub refresh_started_commit_seq: u64,
    /// The refresh recovers from a failed refresh rather than replacing a
    /// Ready snapshot.
    pub is_recovery: bool,
    pub retry_reason_code: Option<String>,
}

/// The readiness lineage a refresh expects: a recovery is still Building or
/// Partial with no refresh base, an ordinary refresh is Ready and refreshing
/// from exactly its predecessor; either way with the expected retry reason.
pub open spec fn refresh_lineage_ok(current: DurableBuildState, refresh: RefreshReadinessState, expected: RefreshBuildExpectation) -> bool {
    &&& if expected.is_recovery {
        &&& (current.phase == CatalogReadinessPhase::Building || current.phase == CatalogReadinessPhase::Partial)
        &&& refresh.refreshing_from_snapshot is None
        &&& refresh.complete_through_commit is None
    } else {
        &&& current.phase == CatalogReadinessPhase::Ready
        &&& refresh.refreshing_from_snapshot == Some(expected.predecessor_snapshot)
        &&& refresh.complete_through_commit == Some(expected.predecessor_snapshot.complete_commit)
    }
    &&& crate::util::opt_text(refresh.retry_reason_code) == crate::util::opt_text(expected.retry_reason_code)
}

/// The durable state is exactly the refresh build the publication was
/// assembled for, at the commit that started it.
pub open spec fn refresh_semantics_ok(current: DurableBuildState, refresh: RefreshReadinessState, expected: RefreshBuildExpectation) -> bool {
    &&& semantic_build_ok(current, expected.build)
    &&& refresh.completed_contract_version == Some(expected.build.desired_contract_version)
    &&& refresh.last_complete_snapshot == Some(expected.predecessor_snapshot)
    &&& refresh_lineage_ok(current, refresh, expected)
    &&& current.last_commit_seq == expected.refresh_started_commit_seq
}

fn same_snapshot(a: &Option<CatalogSnapshotId>, b: &CatalogSnapshotId) -> (r: bool)
    ensures
        r == (*a == Some(*b)),
{
    match a {
        Some(x) => x.same(b),
        None => false,
    }
}

fn same_code(a: &Option<String>, b: &Option<String>) -> (r: bool)
    ensures
        r == (crate::util::opt_text(*a) == crate::util::opt_text(*b)),
{
    match (a, b) {
        (Some(x), Some(y)) => crate::util::str_equal(x.as_str(), y.as_str()),
        (None, None) => true,
        _ => false,
    }
}

/// Refuse a refresh publication whose semantic expectation is stale or
/// foreign to the durable build state.
pub fn validate_refresh_semantics(
    current: &DurableBuildState,
    refresh: &RefreshReadinessState,
    expected: &RefreshBuildExpectation,
) -> (r: Result<(), EngineError>)
    ensures
        r is Ok <==> refresh_semantics_ok(*current, *refresh, *expected),
        r matches Err(e) ==> e is InvalidCommit,
{
    let lineage_matches = if expected.is_recovery {
        (current.phase == CatalogReadinessPhase::Building || current.phase == CatalogReadinessPhase::Partial)
            && refresh.refreshing_from_snapshot.is_none() && refresh.complete_through_commit.is_none()
    } else {
        current.phase == CatalogReadinessPhase::Ready
            && same_snapshot(&refresh.refreshing_from_snapshot, &expected.predecessor_snapshot)
            && refresh.complete_through_commit == Some(expected.predecessor_snapshot.complete_commit)
    } && same_code(&refresh.retry_reason_code, &expected.retry_reason_code);
    let build_matches = validate_semantic_build(current, &expected.build).is_ok();
    if !build_matches || refresh.completed_contract_version != Some(expected.build.desired_contract_version)
        || !same_snapshot(&refresh.last_complete_snapshot, &expected.predecessor_snapshot) || !lineage_matches
        || current.last_commit_seq != expected.refresh_started_commit_seq {
        return Err(EngineError::InvalidCommit(
            "catalog refresh publication semantic expectation is stale or foreign".to_owned(),
        ));
    }
    Ok(())
}

/// The readiness a publication transition writes.
#[derive(Debug, Clone, Copy, PartialEq, Eq)]
pub struct ReadinessTarget {
    pub phase: CatalogReadinessPhase,
    pub desired_contract_version: u32,
    pub completed_contract_version: Option<u32>,
    pub complete_through_commit: Option<u64>,
    pub last_complete_snapshot: Option<CatalogSnapshotId>,
    pub refreshing_from_snapshot: Option<CatalogSnapshotId>,
}

/// The completing commit of an optional snapshot.
pub open spec fn completed_at(snapshot: Option<CatalogSnapshotId>) -> Option<u64> {
    match snapshot {
        Some(s) => Some(s.complete_commit),
        None => None,
    }
}

/// An initial Ready transition names the publication commit as complete and
/// as its last complete snapshot, at the desired contract version.
pub open spec fn ready_transition_ok(target: ReadinessTarget, commit_seq: u64) -> bool {
    &&& target.phase == CatalogReadinessPhase::Ready
    &&& target.complete_through_commit == Some(commit_seq)
    &&& completed_at(target.last_complete_snapshot) == Some(commit_seq)
    &&& target.completed_contract_version == Some(target.desired_contract_version)
}

/// Refuse an initial Ready transition that does not identify its
/// publication commit.
pub fn check_ready_transition(target: &ReadinessTarget, commit_seq: u64) -> (r: Result<(), EngineError>)
    ensures
        r is Ok <==> ready_transition_ok(*target, commit_seq),
        r matches Err(e) ==> e is InvalidCommit,
{
    let last = match target.last_complete_snapshot {
        Some(s) => Some(s.complete_commit),
        None => None,
    };
    if target.phase != CatalogReadinessPhase::Ready || target.complete_through_commit != Some(commit_seq)
        || last != Some(commit_seq)
        || target.completed_contract_version != Some(target.desired_contract_version) {
        return Err(EngineError::InvalidCommit(
            "catalog Ready transition does not identify the publication commit".to_owned(),
        ));
    }
    Ok(())
}

/// A refresh Ready transition names exactly one newer publication: Ready,
/// no longer refreshing, complete through and last complete at its commit,
/// which is after its predecessor's.
pub open spec fn refresh_ready_transition_ok(target: ReadinessTarget, predecessor: CatalogSnapshotId, commit_seq: u64) -> bool {
    &&& target.phase == CatalogReadinessPhase::Ready
    &&& target.refreshing_from_snapshot is None
    &&& target.complete_through_commit == Some(commit_seq)
    &&& completed_at(target.last_complete_snapshot) == Some(commit_seq)
    &&& commit_seq > predecessor.complete_commit
}

/// Refuse a refresh Ready transition that does not identify one newer
/// publication.
pub fn check_refresh_ready_transition(
    target: &ReadinessTarget,
    predecessor: &CatalogSnapshotId,
    commit_seq: u64,
) -> (r: Result<(), EngineError>)
    ensures
        r is Ok <==> refresh_ready_transition_ok(*target, *predecessor, commit_seq),
        r matches Err(e) ==> e is InvalidCommit,
{
    let last = match target.last_complete_snapshot {
        Some(s) => Some(s.complete_commit),
        None => None,
    };
    if target.phase != CatalogReadinessPhase::Ready || target.refreshing_from_snapshot.is_some()
        || target.complete_through_commit != Some(commit_seq) || last != Some(commit_seq)
        || commit_seq <= predecessor.complete_commit {
        return Err(EngineError::InvalidCommit(
            "catalog refresh Ready transition does not identify one newer publication".to_owned(),
        ));
    }
    Ok(())
}

/// Commitment to one published row: its key, payload digest and length.
#[derive(Debug, Clone, Copy, PartialEq, Eq)]
pub struct CatalogReadyRowCommitment {
    pub key: [u8; 32],
    pub payload_digest: [u8; 32],
    pub payload_len: u32,
}

/// Row commitments strictly ordered by key.
pub open spec fn rows_sorted(rows: Seq<CatalogReadyRowCommitment>) -> bool {
    forall|i: int, j: int| 0 <= i < j < rows.len() ==> lex_lt(#[trigger] rows[i].key@, #[trigger] rows[j].key@)
}

/// Index of the commitment with `key`, or -1.
pub open spec fn index_of_key(rows: Seq<CatalogReadyRowCommitment>, key: Seq<u8>) -> int {
    if exists|i: int| 0 <= i < rows.len() && rows[i].key@ == key {
        choose|i: int| 0 <= i < rows.len() && rows[i].key@ == key
    } else {
        -1
    }
}

/// Binary search for the commitment with `key`.
fn search_key(rows: &Vec<CatalogReadyRowCommitment>, key: &[u8; 32]) -> (r: Option<usize>)
    requires
        rows_sorted(rows@),
    ensures
        r matches Some(i) ==> i < rows@.len() && rows@[i as int].key@ == key@,
        r is None ==> forall|i: int| 0 <= i < rows@.len() ==> rows@[i].key@ != key@,
{
    let mut lo: usize = 0;
    let mut hi: usize = rows.len();
    while lo < hi
        invariant
            rows_sorted(rows@),
            lo <= hi <= rows@.len(),
            forall|i: int| 0 <= i < lo ==> lex_lt(rows@[i].key@, key@),
            forall|i: int| hi <= i < rows@.len() ==> lex_lt(key@, rows@[i].key@),
        decreases hi - lo,
    {
        let mid = lo + (hi - lo) / 2;
        match compare_bytes(rows[mid].key.as_slice(), key.as_slice()) {
            ByteOrder::Equal => {
                return Some(mid);
            },
            ByteOrder::Less => {
                proof {
                    assert forall|i: int| 0 <= i < mid + 1 implies lex_lt(rows@[i].key@, key@) by {
                        if i < mid {
                            lemma_lex_transitive(rows@[i].key@, rows@[mid as int].key@, key@);
                        }
                    }
                }
                lo = mid + 1;
            },
            ByteOrder::Greater => {
                proof {
                    assert forall|i: int| mid <= i < rows@.len() implies lex_lt(key@, rows@[i].key@) by {
                        if i > mid {
                            lemma_lex_transitive(key@, rows@[mid as int].key@, rows@[i].key@);
                        }
                    }
                }
                hi = mid;
            },
        }
    }
    proof {
        assert forall|i: int| 0 <= i < rows@.len() implies rows@[i].key@ != key@ by {
            lemma_lex_irreflexive(key@);
        }
    }
    None
}

/// How one snapshot relates to its predecessor.
#[derive(Debug, Clone, Copy, PartialEq, Eq)]
pub enum CatalogSnapshotLineage {
    Initial,
    Refresh {
        predecessor_snapshot: CatalogSnapshotId,
        predecessor_publication_digest: [u8; 32],
        predecessor_content_digest: [u8; 32],
    },
}

/// Restart-authenticated identity of the current Ready publication: its
/// checked header, lineage and selection, its row commitments, and the
/// retained chain of snapshots from the oldest retained one to itself.
#[derive(Debug, Clone, PartialEq, Eq)]
pub struct CatalogReadyPublicationIdentity {
    pub header: CheckedSnapshotHeader,
    pub lineage: CatalogSnapshotLineage,
    pub contract_selection: ContractVersionSelection,
    pub project_rows: Vec<CatalogReadyRowCommitment>,
    pub session_rows: Vec<CatalogReadyRowCommitment>,
    pub refresh_depth: usize,
    pub retained_chain: Vec<CatalogRetainedSnapshotCommitment>,
}

/// Row commitments of the listing an entry kind names, if it names one.
pub open spec fn rows_of(id: CatalogReadyPublicationIdentity, kind: CatalogDurablePublicationEntryKind) -> Option<Seq<CatalogReadyRowCommitment>> {
    match kind {
        CatalogDurablePublicationEntryKind::ProjectRow => Some(id.project_rows@),
        CatalogDurablePublicationEntryKind::SessionRow => Some(id.session_rows@),
        _ => None,
    }
}

/// Retained snapshots completed in strictly increasing commit order.
pub open spec fn chain_increasing(chain: Seq<CatalogRetainedSnapshotCommitment>) -> bool {
    forall|i: int, j: int| 0 <= i < j < chain.len()
        ==> (#[trigger] chain[i]).snapshot.complete_commit < (#[trigger] chain[j]).snapshot.complete_commit
}

/// Both row listings are strictly ordered by key and the retained chain is
/// within the lineage bound, in completion order.
pub open spec fn identity_wf(id: CatalogReadyPublicationIdentity) -> bool {
    &&& rows_sorted(id.project_rows@)
    &&& rows_sorted(id.session_rows@)
    &&& id.retained_chain@.len() <= MAX_RETAINED_REFRESH_LINEAGE_DEPTH + 1
    &&& chain_increasing(id.retained_chain@)
}

/// Some commitment has `key`.
pub open spec fn key_committed(rows: Seq<CatalogReadyRowCommitment>, key: Seq<u8>) -> bool {
    exists|i: int| 0 <= i < rows.len() && rows[i].key@ == key
}

/// The commitment with `key` has exactly this payload length and digest.
pub open spec fn row_committed(rows: Seq<CatalogReadyRowCommitment>, key: Seq<u8>, len: int, digest: [u8; 32]) -> bool {
    exists|i: int| 0 <= i < rows.len() && rows[i].key@ == key && rows[i].payload_len == len && rows[i].payload_digest == digest
}

/// Keys of `rows` from `start`, at most `limit` of them.
pub open spec fn keys_from(rows: Seq<CatalogReadyRowCommitment>, start: int, limit: nat) -> Seq<Seq<u8>> {
    let end = if start + limit < rows.len() { start + limit } else { rows.len() as int };
    Seq::new((end - start) as nat, |i: int| rows[start + i].key@)
}

impl CatalogReadyPublicationIdentity {
    pub fn build_commit_seq(&self) -> (r: u64)
        ensures
            r == self.header.build_commit_seq,
    {
        self.header.build_commit_seq
    }

    pub fn is_refresh(&self) -> (r: bool)
        ensures
            r == (self.lineage is Refresh),
    {
        match self.lineage {
            CatalogSnapshotLineage::Refresh { .. } => true,
            CatalogSnapshotLineage::Initial => false,
        }
    }

    pub fn contract_selection(&self) -> (r: &ContractVersionSelection)
        ensures
            *r == self.contract_selection,
    {
        &self.contract_selection
    }

    pub fn refresh_depth(&self) -> (r: usize)
        ensures
            r == self.refresh_depth,
    {
        self.refresh_depth
    }

    /// A Ready publication may gain a refresh successor only while its
    /// retained ancestry is below the lineage bound.
    pub fn permits_refresh_successor(&self) -> (r: bool)
        ensures
            r == (self.refresh_depth < MAX_RETAINED_REFRESH_LINEAGE_DEPTH),
    {
        self.refresh_depth < MAX_RETAINED_REFRESH_LINEAGE_DEPTH
    }

    pub fn retained_snapshot_count(&self) -> (r: usize)
        ensures
            r == self.retained_chain@.len(),
    {
        self.retained_chain.len()
    }

    pub fn retained_chain(&self) -> (r: &[CatalogRetainedSnapshotCommitment])
        ensures
            r@ == self.retained_chain@,
    {
        self.retained_chain.as_slice()
    }

    /// The first retained commitment of `snapshot_id`, if the chain retains
    /// it.
    pub fn retained_snapshot_commitment(&self, snapshot_id: CatalogSnapshotId) -> (r: Option<CatalogRetainedSnapshotCommitment>)
        ensures
            r is None <==> forall|i: int| 0 <= i < self.retained_chain@.len() ==> self.retained_chain@[i].snapshot != snapshot_id,
            r matches Some(c) ==> exists|i: int| 0 <= i < self.retained_chain@.len() && self.retained_chain@[i] == c
                && c.snapshot == snapshot_id
                && forall|j: int| 0 <= j < i ==> self.retained_chain@[j].snapshot != snapshot_id,
    {
        let mut i: usize = 0;
        while i < self.retained_chain.len()
            invariant
                i <= self.retained_chain@.len(),
                forall|j: int| 0 <= j < i ==> self.retained_chain@[j].snapshot != snapshot_id,
            decreases self.retained_chain@.len() - i,
        {
            let c = self.retained_chain[i];
            if c.snapshot.same(&snapshot_id) {
                return Some(c);
            }
            i = i + 1;
        }
        None
    }

    /// Whether this publication is the one a retained commitment names.
    pub fn matches_snapshot_commitment(&self, expected: CatalogRetainedSnapshotCommitment) -> (r: bool)
        ensures
            r == (self.header.publication_digest == expected.publication
                && self.header.content_digest == expected.content),
    {
        digest_equal(&self.header.publication_digest, &expected.publication)
            && digest_equal(&self.header.content_digest, &expected.content)
    }

    /// Whether a stored row is exactly the one this publication committed.
    pub fn matches_row(
        &self,
        kind: CatalogDurablePublicationEntryKind,
        key: &[u8; 32],
        payload_len: usize,
        payload_digest: &[u8; 32],
    ) -> (r: bool)
        requires
            identity_wf(*self),
        ensures
            r == match rows_of(*self, kind) {
                Some(rows) => row_committed(rows, key@, payload_len as int, *payload_digest),
                None => false,
            },
    {
        let rows = match kind {
            CatalogDurablePublicationEntryKind::ProjectRow => &self.project_rows,
            CatalogDurablePublicationEntryKind::SessionRow => &self.session_rows,
            _ => return false,
        };
        match search_key(rows, key) {
            None => false,
            Some(i) => {
                let c = rows[i];
                let r = c.payload_len as usize == payload_len && digest_equal(&c.payload_digest, payload_digest);
                proof {
                    assert(rows@[i as int] == c);
                    assert(rows@[i as int].key@ == key@);
                    assert forall|j: int| 0 <= j < rows@.len() && rows@[j].key@ == key@ implies j == i by {
                        if j != i {
                            if j < i {
                                assert(lex_lt(rows@[j].key@, rows@[i as int].key@));
                            } else {
                                assert(lex_lt(rows@[i as int].key@, rows@[j].key@));
                            }
                            lemma_lex_irreflexive(key@);
                        }
                    }
                }
                r
            },
        }
    }

    /// The committed row keys of a listing after `after_key` (from the start
    /// without one), at most `limit`; `None` for a kind without rows or an
    /// `after_key` that was never committed.
    pub fn expected_row_keys(
        &self,
        kind: CatalogDurablePublicationEntryKind,
        after_key: Option<&[u8; 32]>,
        limit: usize,
    ) -> (r: Option<Vec<[u8; 32]>>)
        requires
            identity_wf(*self),
        ensures
            r is Some <==> match rows_of(*self, kind) {
                Some(rows) => match after_key {
                    Some(k) => key_committed(rows, k@),
                    None => true,
                },
                None => false,
            },
            r matches Some(keys) ==> ({
                let rows = rows_of(*self, kind)->0;
                let start = match after_key {
                    Some(k) => index_of_key(rows, k@) + 1,
                    None => 0,
                };
                Seq::new(keys@.len(), |i: int| keys@[i]@) == keys_from(rows, start, limit as nat)
            }),
    {
        let rows = match kind {
            CatalogDurablePublicationEntryKind::ProjectRow => &self.project_rows,
            CatalogDurablePublicationEntryKind::SessionRow => &self.session_rows,
            _ => return None,
        };
        let start: usize = match after_key {
            None => 0,
            Some(k) => match search_key(rows, k) {
                None => return None,
                Some(i) => {
                    let _n = rows.len();
                    proof {
                        let w = index_of_key(rows@, k@);
                        assert(rows@[i as int].key@ == k@);
                        assert(0 <= w < rows@.len() && rows@[w].key@ == k@);
                        if w != i {
                            if w < i {
                                assert(lex_lt(rows@[w].key@, rows@[i as int].key@));
                            } else {
                                assert(lex_lt(rows@[i as int].key@, rows@[w].key@));
                            }
                            lemma_lex_irreflexive(k@);
                        }
                    }
                    assert(rows@[i as int].key@ == k@);
                    i + 1
                },
            },
        };
        let end: usize = if limit < rows.len() - start { start + limit } else { rows.len() };
        let mut keys: Vec<[u8; 32]> = Vec::new();
        let mut i: usize = start;
        while i < end
            invariant
                start <= i <= end <= rows@.len(),
                keys@.len() == i - start,
                forall|k: int| 0 <= k < keys@.len() ==> (#[trigger] keys@[k])@ == rows@[start + k].key@,
            decreases end - i,
        {
            keys.push(rows[i].key);
            i = i + 1;
        }
        proof {
            let rs = rows@;
            assert(Seq::new(keys@.len(), |i: int| keys@[i]@) =~= keys_from(rs, start as int, limit as nat));
        }
        Some(keys)
    }
}


/// One stored entry of a durable publication, as its bounded query
/// projects it: the parsed kind (absent when the stored text is outside the
/// closed vocabulary) with the stored text's byte length, and the key,
/// payload and payload digest columns.
#[derive(Debug, Clone, PartialEq, Eq)]
pub struct StoredPublicationEntry {
    pub ordinal: i64,
    pub kind: Option<CatalogDurablePublicationEntryKind>,
    pub kind_text_len: usize,
    pub key: Option<Vec<u8>>,
    pub payload: Option<Vec<u8>>,
    pub payload_digest: Option<Vec<u8>>,
}

/// What a publication's header declares about its entries.
#[derive(Debug, Clone, Copy, PartialEq, Eq)]
pub struct PublicationEntryHeader {
    pub entry_count: usize,
    pub encoded_bytes: usize,
    pub source_count: usize,
    pub member_count: usize,
    /// A refresh publication carries exactly one member-history frame.
    pub has_member_history: bool,
    pub project_row_count: usize,
    pub session_row_count: usize,
    pub tombstone_count: usize,
    pub reducer_revision: [u8; 32],
    /// Bytes the header accounts for before the entries: the selection
    /// encoding and the member identity contract.
    pub base_bytes: usize,
    /// Aggregate byte bound of one durable publication.
    pub max_bytes: usize,
}

/// Row commitments and byte total of a checked entry sequence.
#[derive(Debug, Clone, PartialEq, Eq)]
pub struct PublicationEntryScan {
    pub project_rows: Vec<CatalogReadyRowCommitment>,
    pub session_rows: Vec<CatalogReadyRowCommitment>,
    pub encoded_bytes: usize,
}

/// A present, 32-byte, nonzero stored digest column.
pub open spec fn stored_digest(v: Option<Vec<u8>>) -> Option<Seq<u8>> {
    match v {
        Some(b) => if b@.len() == 32 && !is_zero_digest(b@) { Some(b@) } else { None },
        None => None,
    }
}

/// Canonical entry order: by kind position, then by key.
pub open spec fn coordinate_lt(a: (nat, Seq<u8>), b: (nat, Seq<u8>)) -> bool {
    a.0 < b.0 || (a.0 == b.0 && lex_lt(a.1, b.1))
}

/// Running tally of a scan: entries seen, bytes, per-kind counts (in kind
/// position order), the last coordinate, and the row commitments.
pub type EntryTally = (nat, int, Seq<nat>, Option<(nat, Seq<u8>)>, Seq<CatalogReadyRowCommitment>, Seq<CatalogReadyRowCommitment>);

/// The commitment a row entry contributes.
pub open spec fn commitment_of(key: Seq<u8>, payload: Seq<u8>, digest: Seq<u8>) -> CatalogReadyRowCommitment {
    CatalogReadyRowCommitment {
        key: choose|k: [u8; 32]| k@ == key,
        payload_digest: choose|d: [u8; 32]| d@ == digest,
        payload_len: payload.len() as u32,
    }
}

/// One more entry: it is the next ordinal, well formed, authentic, strictly
/// after the previous coordinate, a reducer frame keyed by the reducer
/// revision, at most one member-history frame (only where one is declared)
/// and one reducer frame, a row payload within its commitment length, and
/// within the aggregate byte bound.
pub open spec fn entry_step(t: EntryTally, e: StoredPublicationEntry, h: PublicationEntryHeader) -> Option<EntryTally> {
    let n = t.0;
    if n >= h.entry_count || e.ordinal != n {
        None
    } else {
        match (e.kind, stored_digest(e.key), e.payload, stored_digest(e.payload_digest)) {
            (Some(kind), Some(key), Some(p), Some(d)) => {
                let pos = kind_position(kind);
                let bytes = t.1 + p@.len() + 64 + e.kind_text_len;
                if blake3_digest(p@) != d {
                    None
                } else if t.3 matches Some(last) && !coordinate_lt(last, (pos, key)) {
                    None
                } else if kind == CatalogDurablePublicationEntryKind::ReducerState && key != h.reducer_revision@ {
                    None
                } else if kind == CatalogDurablePublicationEntryKind::MemberHistory && (!h.has_member_history || t.2[2] > 0) {
                    None
                } else if kind == CatalogDurablePublicationEntryKind::ReducerState && t.2[3] > 0 {
                    None
                } else if (kind == CatalogDurablePublicationEntryKind::ProjectRow || kind == CatalogDurablePublicationEntryKind::SessionRow)
                    && p@.len() > u32::MAX {
                    None
                } else if bytes > h.max_bytes {
                    None
                } else {
                    let c = commitment_of(key, p@, d);
                    Some((
                        n + 1,
                        bytes,
                        t.2.update(pos as int, t.2[pos as int] + 1),
                        Some((pos, key)),
                        if kind == CatalogDurablePublicationEntryKind::ProjectRow { t.4.push(c) } else { t.4 },
                        if kind == CatalogDurablePublicationEntryKind::SessionRow { t.5.push(c) } else { t.5 },
                    ))
                }
            },
            _ => None,
        }
    }
}

/// Tally of a whole entry prefix, or `None` once an entry is refused.
pub open spec fn entries_tally(entries: Seq<StoredPublicationEntry>, h: PublicationEntryHeader) -> Option<EntryTally>
    decreases entries.len(),
{
    if entries.len() == 0 {
        Some((0, h.base_bytes as int, Seq::new(7, |i: int| 0nat), None, Seq::empty(), Seq::empty()))
    } else {
        match entries_tally(entries.drop_last(), h) {
            None => None,
            Some(t) => entry_step(t, entries.last(), h),
        }
    }
}

/// A complete entry sequence matches its header: every declared entry,
/// exactly the declared bytes, and the declared count of each kind with one
/// reducer frame.
pub open spec fn tally_matches_header(t: EntryTally, h: PublicationEntryHeader) -> bool {
    &&& t.0 == h.entry_count
    &&& t.1 == h.encoded_bytes
    &&& t.2[0] == h.source_count
    &&& t.2[1] == h.member_count
    &&& t.2[2] == (if h.has_member_history { 1nat } else { 0nat })
    &&& t.2[3] == 1
    &&& t.2[4] == h.project_row_count
    &&& t.2[5] == h.session_row_count
    &&& t.2[6] == h.tombstone_count
}

/// Kind position of a coordinate.
pub open spec fn coord_pos(c: (nat, Seq<u8>)) -> nat {
    c.0
}

/// Key of a coordinate.
pub open spec fn coord_key(c: (nat, Seq<u8>)) -> Seq<u8> {
    c.1
}

/// Keys of `rows` all sort at or before the coordinate `last`.
pub open spec fn rows_before(rows: Seq<CatalogReadyRowCommitment>, pos: nat, last: Option<(nat, Seq<u8>)>) -> bool {
    forall|j: int| 0 <= j < rows.len() ==> #[trigger] row_before(rows[j], pos, last)
}

/// A row of kind position `pos` sorts at or before the coordinate `last`.
pub open spec fn row_before(row: CatalogReadyRowCommitment, pos: nat, last: Option<(nat, Seq<u8>)>) -> bool {
    last is Some && (pos < coord_pos(last->0) || (pos == coord_pos(last->0)
        && (row.key@ == coord_key(last->0) || lex_lt(row.key@, coord_key(last->0)))))
}

proof fn lemma_tally_refusal_is_final(entries: Seq<StoredPublicationEntry>, h: PublicationEntryHeader, k: int)
    requires
        0 <= k <= entries.len(),
        entries_tally(entries.take(k), h) is None,
    ensures
        entries_tally(entries, h) is None,
    decreases entries.len() - k,
{
    if k < entries.len() {
        assert(entries.take(k + 1).drop_last() =~= entries.take(k));
        lemma_tally_refusal_is_final(entries, h, k + 1);
    } else {
        assert(entries.take(k) =~= entries);
    }
}

fn corrupt_entry(message: &str) -> (e: EngineError)
    ensures
        e matches EngineError::CorruptCatalogState(m) && m@ == message@,
{
    EngineError::CorruptCatalogState(message.to_owned())
}

/// A required stored digest column.
fn required_digest_column(v: &Option<Vec<u8>>, label: &str) -> (r: Result<[u8; 32], EngineError>)
    ensures
        r is Ok <==> stored_digest(*v) is Some,
        r matches Ok(d) ==> stored_digest(*v) == Some(d@),
        r matches Err(e) ==> e is CorruptCatalogState,
{
    match v {
        None => Err(corrupt_entry(label)),
        Some(b) => decode_digest_column(b.as_slice(), label),
    }
}

/// Whether `(kind, key)` sorts strictly after the previous coordinate.
fn after_previous(previous: &Option<(usize, [u8; 32])>, pos: usize, key: &[u8; 32]) -> (r: bool)
    ensures
        r == match *previous {
            None => true,
            Some(p) => coordinate_lt((p.0 as nat, p.1@), (pos as nat, key@)),
        },
{
    match previous {
        None => true,
        Some((ppos, pkey)) => {
            if *ppos < pos {
                true
            } else if *ppos > pos {
                false
            } else {
                compare_bytes(pkey.as_slice(), key.as_slice()) == ByteOrder::Less
            }
        },
    }
}

/// Check one entry against the running tally; returns its kind position,
/// key, payload digest and payload length.
fn check_entry(
    e: &StoredPublicationEntry,
    i: usize,
    previous: &Option<(usize, [u8; 32])>,
    counts: &[usize; 7],
    bytes: usize,
    header: &PublicationEntryHeader,
) -> (r: Result<(usize, [u8; 32], [u8; 32], usize), EngineError>)
    ensures
        ({
            let t: EntryTally = (i as nat, bytes as int, counts@.map_values(|c: usize| c as nat),
                match *previous { None => None, Some(p) => Some((p.0 as nat, p.1@)) }, Seq::empty(), Seq::empty());
            &&& (r is Ok <==> entry_step(t, *e, *header) is Some)
            &&& (r matches Ok(v) ==> ({
                let s = entry_step(t, *e, *header)->0;
                &&& e.kind matches Some(k) && v.0 == kind_position(k)
                &&& stored_digest(e.key) == Some(v.1@)
                &&& stored_digest(e.payload_digest) == Some(v.2@)
                &&& e.payload matches Some(p) && v.3 == p@.len()
                &&& s.1 == bytes + v.3 + 64 + e.kind_text_len
                &&& s.1 <= header.max_bytes
                &&& s.3 == Some((v.0 as nat, v.1@))
                &&& (v.0 == 4 || v.0 == 5 ==> v.3 <= u32::MAX)
                &&& match *previous { None => true, Some(p) => coordinate_lt((p.0 as nat, p.1@), (v.0 as nat, v.1@)) }
            }))
        }),
        r matches Err(err) ==> err is CorruptCatalogState,
{
    if i >= header.entry_count {
        return Err(corrupt_entry("catalog snapshot contains more entries than its bounded header"));
    }
    if e.ordinal < 0 || e.ordinal as u64 != i as u64 {
        return Err(corrupt_entry("catalog snapshot entry ordinals are not contiguous"));
    }
    let kind = match e.kind {
        None => return Err(corrupt_entry("catalog snapshot entry kind is outside the closed durable vocabulary")),
        Some(k) => k,
    };
    let key = required_digest_column(&e.key, "catalog snapshot entry key")?;
    let payload = match &e.payload {
        None => return Err(corrupt_entry("catalog snapshot entry payload is outside its durable byte bound")),
        Some(p) => p,
    };
    let digest = required_digest_column(&e.payload_digest, "catalog snapshot payload digest")?;
    let actual = blake3_hash(payload.as_slice());
    if !digest_equal(&actual, &digest) {
        return Err(corrupt_entry("catalog snapshot entry payload digest does not match its bytes"));
    }
    let pos = kind_index(kind);
    if !after_previous(previous, pos, &key) {
        return Err(corrupt_entry("catalog snapshot entries are not canonical and duplicate-free"));
    }
    if pos == 3 && !digest_equal(&key, &header.reducer_revision) {
        return Err(corrupt_entry("catalog reducer-state frame key does not match the snapshot reducer revision"));
    }
    if pos == 2 && (!header.has_member_history || counts[2] > 0) {
        return Err(corrupt_entry("catalog snapshot has an unexpected or duplicate member-history frame"));
    }
    if pos == 3 && counts[3] > 0 {
        return Err(corrupt_entry("catalog snapshot contains duplicate reducer state"));
    }
    if (pos == 4 || pos == 5) && payload.len() as u64 > 4294967295u64 {
        return Err(corrupt_entry("catalog row exceeds its commitment length bound"));
    }
    let add = payload.len() as u128 + 64 + e.kind_text_len as u128;
    if bytes as u128 + add > header.max_bytes as u128 {
        return Err(corrupt_entry("catalog snapshot exceeds its aggregate durable byte bound"));
    }
    Ok((pos, key, digest, payload.len()))
}

/// Check a durable publication's stored entries against its header and
/// collect its row commitments. Every entry is authenticated by its digest,
/// entries are strictly ordered by kind and key without duplicates, and the
/// counts and bytes are exactly those declared. The row commitments come
/// out sorted by key, as row lookups require.
pub fn scan_publication_entries(
    entries: &Vec<StoredPublicationEntry>,
    header: &PublicationEntryHeader,
) -> (r: Result<PublicationEntryScan, EngineError>)
    ensures
        r is Ok <==> (entries_tally(entries@, *header) matches Some(t) && tally_matches_header(t, *header)),
        r matches Ok(scan) ==> ({
            let t = entries_tally(entries@, *header)->0;
            &&& scan.project_rows@ == t.4
            &&& scan.session_rows@ == t.5
            &&& scan.encoded_bytes == t.1
            &&& rows_sorted(scan.project_rows@)
            &&& rows_sorted(scan.session_rows@)
        }),
        r matches Err(e) ==> e is CorruptCatalogState,
{
    let mut counts: [usize; 7] = [0; 7];
    let mut bytes: usize = header.base_bytes;
    let mut previous: Option<(usize, [u8; 32])> = None;
    let mut project_rows: Vec<CatalogReadyRowCommitment> = Vec::new();
    let mut session_rows: Vec<CatalogReadyRowCommitment> = Vec::new();
    let mut i: usize = 0;
    assert(entries@.take(0) =~= Seq::<StoredPublicationEntry>::empty());
    assert(counts@.map_values(|c: usize| c as nat) =~= Seq::new(7, |i: int| 0nat));
    while i < entries.len()
        invariant
            i <= entries@.len(),
            entries_tally(entries@.take(i as int), *header) matches Some(t) && {
                &&& t.0 == i
                &&& t.1 == bytes
                &&& t.2 == counts@.map_values(|c: usize| c as nat)
                &&& t.3 == match previous { None => None, Some(p) => Some((p.0 as nat, p.1@)) }
                &&& t.4 == project_rows@
                &&& t.5 == session_rows@
            },
            i <= header.entry_count,
            previous is None <==> i == 0,
            previous matches Some(p) ==> p.0 < 7,
            rows_sorted(project_rows@),
            rows_sorted(session_rows@),
            rows_before(project_rows@, 4, match previous { None => None, Some(p) => Some((p.0 as nat, p.1@)) }),
            rows_before(session_rows@, 5, match previous { None => None, Some(p) => Some((p.0 as nat, p.1@)) }),
            forall|k: int| 0 <= k < 7 ==> counts@[k] <= i,
        decreases entries@.len() - i,
    {
        let ghost before = entries@.take(i as int);
        let ghost t = entries_tally(before, *header)->0;
        assert(entries@.take(i as int + 1).drop_last() =~= before);
        assert(entries@.take(i as int + 1).last() == entries@[i as int]);
        let e = &entries[i];
        let checked = check_entry(e, i, &previous, &counts, bytes, header);
        let (pos, key, digest, payload_len) = match checked {
            Err(err) => {
                proof {
                    assert(entry_step(t, entries@[i as int], *header) is None);
                    lemma_tally_refusal_is_final(entries@, *header, i as int + 1);
                }
                return Err(err);
            },
            Ok(v) => v,
        };
        let add = payload_len as u128 + 64 + e.kind_text_len as u128;
        bytes = (bytes as u128 + add) as usize;
        let commitment = CatalogReadyRowCommitment { key, payload_digest: digest, payload_len: payload_len as u32 };
        proof {
            let payload = e.payload->0;
            assert(commitment == commitment_of(key@, payload@, digest@)) by {
                let c = commitment_of(key@, payload@, digest@);
                assert(c.key@ == key@);
                assert(c.key =~= key);
                assert(c.payload_digest =~= digest);
            }
        }
        let ghost old_projects = project_rows@;
        let ghost old_sessions = session_rows@;
        if pos == 4 {
            project_rows.push(commitment);
        }
        if pos == 5 {
            session_rows.push(commitment);
        }
        proof {
            let last_coord = match previous { None => None, Some(p) => Some((p.0 as nat, p.1@)) };
            assert forall|a: int, b: int| 0 <= a < b < project_rows@.len() implies
                lex_lt(#[trigger] project_rows@[a].key@, #[trigger] project_rows@[b].key@) by {
                if b == old_projects.len() {
                    assert(row_before(old_projects[a], 4, last_coord));
                    let l = last_coord->0;
                    if old_projects[a].key@ == l.1 {
                    } else {
                        lemma_lex_transitive(old_projects[a].key@, l.1, key@);
                    }
                }
            }
            assert forall|a: int, b: int| 0 <= a < b < session_rows@.len() implies
                lex_lt(#[trigger] session_rows@[a].key@, #[trigger] session_rows@[b].key@) by {
                if b == old_sessions.len() {
                    assert(row_before(old_sessions[a], 5, last_coord));
                    let l = last_coord->0;
                    if old_sessions[a].key@ == l.1 {
                    } else {
                        lemma_lex_transitive(old_sessions[a].key@, l.1, key@);
                    }
                }
            }
        }
        proof {
            let last_coord = match previous { None => None, Some(p) => Some((p.0 as nat, p.1@)) };
            let new_coord = Some((pos as nat, key@));
            assert forall|j: int| 0 <= j < project_rows@.len() implies #[trigger] row_before(project_rows@[j], 4, new_coord) by {
                if j < old_projects.len() {
                    assert(old_projects[j] == project_rows@[j]);
                    assert(rows_before(old_projects, 4, last_coord));
                    let r = old_projects[j];
                    assert(row_before(r, 4, last_coord));
                    let l = last_coord->0;
                    if l.0 == 4 && pos == 4 {
                        if old_projects[j].key@ != l.1 {
                            lemma_lex_transitive(old_projects[j].key@, l.1, key@);
                        }
                    }
                }
            }
            assert(rows_before(project_rows@, 4, new_coord));
            assert forall|j: int| 0 <= j < session_rows@.len() implies #[trigger] row_before(session_rows@[j], 5, new_coord) by {
                if j < old_sessions.len() {
                    assert(old_sessions[j] == session_rows@[j]);
                    assert(rows_before(old_sessions, 5, last_coord));
                    let r = old_sessions[j];
                    assert(row_before(r, 5, last_coord));
                    let l = last_coord->0;
                    if l.0 == 5 && pos == 5 {
                        if old_sessions[j].key@ != l.1 {
                            lemma_lex_transitive(old_sessions[j].key@, l.1, key@);
                        }
                    }
                }
            }
        }
        counts[pos] = counts[pos] + 1;
        previous = Some((pos, key));
        proof {
            assert(counts@.map_values(|c: usize| c as nat) =~= t.2.update(pos as int, t.2[pos as int] + 1));
        }
        i = i + 1;
    }
    assert(entries@.take(entries@.len() as int) =~= entries@);
    if i != header.entry_count || bytes != header.encoded_bytes || counts[0] != header.source_count
        || counts[1] != header.member_count || counts[2] != (if header.has_member_history { 1 } else { 0 })
        || counts[3] != 1 || counts[4] != header.project_row_count || counts[5] != header.session_row_count
        || counts[6] != header.tombstone_count {
        return Err(corrupt_entry("catalog snapshot entry counts or bytes do not match its header"));
    }
    Ok(PublicationEntryScan { project_rows, session_rows, encoded_bytes: bytes })
}


/// The stored header columns of one published snapshot. Digest, plan and
/// member-contract columns are present only when they have their fixed
/// storage shape.
#[derive(Debug, Clone, PartialEq, Eq)]
pub struct StoredSnapshotHeader {
    pub build_commit_seq: i64,
    pub durable_contract_version: i64,
    pub pack_contract_version: i64,
    pub coverage_plan_id: Option<Vec<u8>>,
    pub readiness_epoch: i64,
    pub attempt: i64,
    /// Whether the member identity contract column is NULL.
    pub member_identity_contract_is_null: i64,
    pub member_identity_contract_id: Option<String>,
    pub publication_digest: Option<Vec<u8>>,
    pub reducer_revision: Option<Vec<u8>>,
    pub entries_digest: Option<Vec<u8>>,
    pub content_digest: Option<Vec<u8>>,
    pub entry_count: i64,
    pub encoded_bytes: i64,
    pub source_count: i64,
    pub member_count: i64,
    pub project_row_count: i64,
    pub session_row_count: i64,
    pub tombstone_count: i64,
}

/// A snapshot header whose columns passed every restart check.
#[derive(Debug, Clone, PartialEq, Eq)]
pub struct CheckedSnapshotHeader {
    pub build_commit_seq: u64,
    pub durable_contract_version: u32,
    pub member_identity_contract_id: Option<String>,
    pub publication_digest: [u8; 32],
    pub reducer_revision: [u8; 32],
    pub entries_digest: [u8; 32],
    pub content_digest: [u8; 32],
    pub entry_count: usize,
    pub encoded_bytes: usize,
    pub source_count: usize,
    pub member_count: usize,
    pub project_row_count: usize,
    pub session_row_count: usize,
    pub tombstone_count: usize,
}

/// Most configured sources one publication records.
pub const MAX_PUBLICATION_SOURCES: usize = 4096;

/// Most members, rows or tombstones one publication records.
pub const MAX_PUBLICATION_ROWS: usize = 1000000;

/// The member identity contract column is either NULL, or a canonical
/// identifier; it is present exactly when the publication has sources.
pub open spec fn stored_member_identity_ok(is_null: i64, id: Option<String>, source_count: int) -> bool {
    &&& match id {
        None => is_null == 1,
        Some(v) => is_null == 0 && canonical_identifier(v@),
    }
    &&& (id is Some) == (source_count > 0)
}

/// A count column within `minimum..=maximum`.
pub open spec fn count_in(value: i64, minimum: int, maximum: int) -> bool {
    0 <= value && minimum <= value <= maximum
}

/// Every restart check a stored snapshot header must pass: it lies on the
/// snapshot's exact plan, pack, epoch and attempt, was built before it
/// completed, carries valid digests, bounded counts whose rows fit its
/// entries, and a member identity contract consistent with its sources.
pub open spec fn snapshot_header_ok(
    h: StoredSnapshotHeader,
    snapshot_id: CatalogSnapshotId,
    expected_attempt: u64,
    max_entries: usize,
    max_bytes: usize,
) -> bool {
    &&& h.coverage_plan_id matches Some(p) && p@ == snapshot_id.coverage_plan_id.bytes@
    &&& h.build_commit_seq > 0
    &&& 0 < h.durable_contract_version <= u32::MAX
    &&& h.build_commit_seq < snapshot_id.complete_commit
    &&& h.pack_contract_version == snapshot_id.pack_contract_version
    &&& h.readiness_epoch == snapshot_id.readiness_epoch
    &&& h.attempt == expected_attempt
    &&& stored_digest(h.publication_digest) is Some
    &&& stored_digest(h.reducer_revision) is Some
    &&& stored_digest(h.entries_digest) is Some
    &&& stored_digest(h.content_digest) is Some
    &&& count_in(h.entry_count, 1, max_entries as int)
    &&& count_in(h.encoded_bytes, 1, max_bytes as int)
    &&& count_in(h.source_count, 0, MAX_PUBLICATION_SOURCES as int)
    &&& count_in(h.member_count, 0, MAX_PUBLICATION_ROWS as int)
    &&& count_in(h.project_row_count, 0, MAX_PUBLICATION_ROWS as int)
    &&& count_in(h.session_row_count, 0, MAX_PUBLICATION_ROWS as int)
    &&& count_in(h.tombstone_count, 0, MAX_PUBLICATION_ROWS as int)
    &&& stored_member_identity_ok(h.member_identity_contract_is_null, h.member_identity_contract_id, h.source_count as int)
    &&& h.project_row_count + h.session_row_count <= h.entry_count
}

fn stored_header_digest(v: &Option<Vec<u8>>, field: &str) -> (r: Result<[u8; 32], EngineError>)
    ensures
        r is Ok <==> stored_digest(*v) is Some,
        r matches Ok(d) ==> stored_digest(*v) == Some(d@),
        r matches Err(e) ==> e is CorruptCatalogState,
{
    match v {
        Some(b) => decode_digest_column(b.as_slice(), field),
        None => Err(corrupt(field)),
    }
}

/// Check the stored header of a published snapshot against the snapshot it
/// is read for, the attempt that built it, and the durable publication
/// bounds.
pub fn check_snapshot_header(
    stored: StoredSnapshotHeader,
    snapshot_id: &CatalogSnapshotId,
    expected_attempt: u64,
    max_entries: usize,
    max_bytes: usize,
) -> (r: Result<CheckedSnapshotHeader, EngineError>)
    ensures
        r is Ok <==> snapshot_header_ok(stored, *snapshot_id, expected_attempt, max_entries, max_bytes),
        r matches Ok(c) ==> {
            &&& c.build_commit_seq == stored.build_commit_seq
            &&& c.durable_contract_version == stored.durable_contract_version
            &&& c.member_identity_contract_id == stored.member_identity_contract_id
            &&& stored_digest(stored.publication_digest) == Some(c.publication_digest@)
            &&& stored_digest(stored.reducer_revision) == Some(c.reducer_revision@)
            &&& stored_digest(stored.entries_digest) == Some(c.entries_digest@)
            &&& stored_digest(stored.content_digest) == Some(c.content_digest@)
            &&& c.entry_count == stored.entry_count
            &&& c.encoded_bytes == stored.encoded_bytes
            &&& c.source_count == stored.source_count
            &&& c.member_count == stored.member_count
            &&& c.project_row_count == stored.project_row_count
            &&& c.session_row_count == stored.session_row_count
            &&& c.tombstone_count == stored.tombstone_count
        },
        r matches Err(e) ==> e is CorruptCatalogState,
{
    let same_plan = match &stored.coverage_plan_id {
        Some(p) => crate::util::bytes_equal(p.as_slice(), snapshot_id.coverage_plan_id.bytes.as_slice()),
        None => false,
    };
    if !same_plan {
        return Err(corrupt("catalog snapshot coverage-plan ID is not the snapshot's plan"));
    }
    if stored.build_commit_seq <= 0 {
        return Err(corrupt("catalog snapshot Building commit must be positive"));
    }
    if stored.durable_contract_version <= 0 || stored.durable_contract_version > 4294967295i64 {
        return Err(corrupt("catalog durable publication contract version must be a positive 32-bit value"));
    }
    let build_commit_seq = stored.build_commit_seq as u64;
    if build_commit_seq >= snapshot_id.complete_commit
        || stored.pack_contract_version != snapshot_id.pack_contract_version as i64
        || stored.readiness_epoch < 0 || stored.readiness_epoch as u64 != snapshot_id.readiness_epoch
        || stored.attempt < 0 || stored.attempt as u64 != expected_attempt {
        return Err(corrupt("catalog snapshot header is outside its exact plan/build lineage"));
    }
    let publication_digest = stored_header_digest(&stored.publication_digest, "catalog publication digest")?;
    let reducer_revision = stored_header_digest(&stored.reducer_revision, "catalog reducer revision")?;
    let entries_digest = stored_header_digest(&stored.entries_digest, "catalog entries digest")?;
    let content_digest = stored_header_digest(&stored.content_digest, "catalog content digest")?;
    let entry_count = bounded_usize(stored.entry_count, 1, max_entries, "catalog snapshot entry count")?;
    let encoded_bytes = bounded_usize(stored.encoded_bytes, 1, max_bytes, "catalog snapshot encoded bytes")?;
    let source_count = bounded_usize(stored.source_count, 0, MAX_PUBLICATION_SOURCES, "catalog source count")?;
    let member_count = bounded_usize(stored.member_count, 0, MAX_PUBLICATION_ROWS, "catalog member count")?;
    let project_row_count = bounded_usize(stored.project_row_count, 0, MAX_PUBLICATION_ROWS, "catalog project row count")?;
    let session_row_count = bounded_usize(stored.session_row_count, 0, MAX_PUBLICATION_ROWS, "catalog session row count")?;
    let tombstone_count = bounded_usize(stored.tombstone_count, 0, MAX_PUBLICATION_ROWS, "catalog tombstone count")?;
    match &stored.member_identity_contract_id {
        None => {
            if stored.member_identity_contract_is_null != 1 {
                return Err(corrupt("catalog snapshot member identity contract exceeds its durable byte bound"));
            }
        },
        Some(v) => {
            if stored.member_identity_contract_is_null != 0 {
                return Err(corrupt("catalog snapshot member identity contract has an invalid NULL projection"));
            }
            validate_member_identity_contract(v.as_str())?;
        },
    }
    if stored.member_identity_contract_id.is_some() != (source_count > 0) {
        return Err(corrupt("catalog snapshot member identity contract presence does not match its sources"));
    }
    if project_row_count + session_row_count > entry_count {
        return Err(corrupt("catalog snapshot row counts exceed the bounded entry count"));
    }
    Ok(CheckedSnapshotHeader {
        build_commit_seq,
        durable_contract_version: stored.durable_contract_version as u32,
        member_identity_contract_id: stored.member_identity_contract_id,
        publication_digest,
        reducer_revision,
        entries_digest,
        content_digest,
        entry_count,
        encoded_bytes,
        source_count,
        member_count,
        project_row_count,
        session_row_count,
        tombstone_count,
    })
}

/// A refresh snapshot's commits are strictly ordered: its predecessor's
/// completing commit, then its build commit, then its own completing commit.
pub open spec fn refresh_commit_order_ok(predecessor_commit: i64, build_commit_seq: u64, snapshot_id: CatalogSnapshotId) -> bool {
    &&& predecessor_commit > 0
    &&& predecessor_commit < build_commit_seq
    &&& build_commit_seq < snapshot_id.complete_commit
}

/// Check the commit order of a refresh snapshot against its stored
/// predecessor commit, returning that commit.
pub fn check_refresh_commit_order(predecessor_commit: i64, build_commit_seq: u64, snapshot_id: &CatalogSnapshotId) -> (r: Result<u64, EngineError>)
    ensures
        r is Ok <==> refresh_commit_order_ok(predecessor_commit, build_commit_seq, *snapshot_id),
        r matches Ok(c) ==> c == predecessor_commit,
        r matches Err(e) ==> e is CorruptCatalogState,
{
    if predecessor_commit <= 0 {
        return Err(corrupt("catalog refresh predecessor commit must be positive"));
    }
    let commit = predecessor_commit as u64;
    if commit >= build_commit_seq || build_commit_seq >= snapshot_id.complete_commit {
        return Err(corrupt("catalog refresh snapshot commit order is not strictly increasing"));
    }
    Ok(commit)
}

/// Identity columns of a refresh predecessor's snapshot row.
#[derive(Debug, Clone, PartialEq, Eq)]
pub struct PredecessorSnapshotRow {
    pub pack_contract_version: i64,
    /// The stored plan id when it is a 32-byte blob.
    pub coverage_plan_id: Option<Vec<u8>>,
    pub readiness_epoch: i64,
}

/// A predecessor row lies on its successor's exact plan and pack, at an
/// epoch no later than it, and both stored predecessor digests are valid.
pub open spec fn predecessor_row_ok(
    snapshot_id: CatalogSnapshotId,
    row: PredecessorSnapshotRow,
    publication: Seq<u8>,
    content: Seq<u8>,
) -> bool {
    &&& 0 < row.pack_contract_version <= u32::MAX
    &&& row.readiness_epoch > 0
    &&& row.pack_contract_version == snapshot_id.pack_contract_version
    &&& row.coverage_plan_id matches Some(p) && p@ == snapshot_id.coverage_plan_id.bytes@
    &&& row.readiness_epoch <= snapshot_id.readiness_epoch
    &&& publication.len() == 32 && !is_zero_digest(publication)
    &&& content.len() == 32 && !is_zero_digest(content)
}

/// The refresh lineage a snapshot records: its predecessor snapshot, rebuilt
/// from the predecessor's stored identity row, and the predecessor's digests.
pub fn refresh_snapshot_lineage(
    snapshot_id: &CatalogSnapshotId,
    predecessor_commit: u64,
    row: &PredecessorSnapshotRow,
    publication: &[u8],
    content: &[u8],
) -> (r: Result<CatalogSnapshotLineage, EngineError>)
    requires
        predecessor_commit > 0,
    ensures
        r is Ok <==> predecessor_row_ok(*snapshot_id, *row, publication@, content@),
        r matches Ok(l) ==> l matches CatalogSnapshotLineage::Refresh {
            predecessor_snapshot: p, predecessor_publication_digest: pd, predecessor_content_digest: cd }
            && p == (CatalogSnapshotId {
                pack_contract_version: snapshot_id.pack_contract_version,
                coverage_plan_id: snapshot_id.coverage_plan_id,
                readiness_epoch: row.readiness_epoch as u64,
                complete_commit: predecessor_commit,
            })
            && pd@ == publication@ && cd@ == content@,
        r matches Err(e) ==> e is CorruptCatalogState,
{
    if row.pack_contract_version <= 0 || row.pack_contract_version > 4294967295i64 {
        return Err(corrupt("catalog predecessor pack version must be a positive 32-bit value"));
    }
    if row.readiness_epoch <= 0 {
        return Err(corrupt("catalog predecessor readiness epoch must be positive"));
    }
    let pack = row.pack_contract_version as u32;
    let epoch = row.readiness_epoch as u64;
    let same_plan = match &row.coverage_plan_id {
        Some(p) => crate::util::bytes_equal(p.as_slice(), snapshot_id.coverage_plan_id.bytes.as_slice()),
        None => false,
    };
    if pack != snapshot_id.pack_contract_version || !same_plan || epoch > snapshot_id.readiness_epoch {
        return Err(corrupt("catalog refresh predecessor is outside its exact plan/build lineage"));
    }
    let predecessor_snapshot = CatalogSnapshotId {
        pack_contract_version: pack,
        coverage_plan_id: snapshot_id.coverage_plan_id,
        readiness_epoch: epoch,
        complete_commit: predecessor_commit,
    };
    let pd = decode_digest_column(publication, "catalog predecessor publication digest")?;
    let cd = decode_digest_column(content, "catalog predecessor content digest")?;
    Ok(CatalogSnapshotLineage::Refresh {
        predecessor_snapshot,
        predecessor_publication_digest: pd,
        predecessor_content_digest: cd,
    })
}

/// The lineage columns of a stored Ready snapshot row, with the commits that
/// own its build and its publication and, when the database holds one, the
/// snapshot row its `replaces_snapshot_commit_seq` names.
#[derive(Debug, Clone, PartialEq, Eq)]
pub struct StoredSnapshotLineage {
    pub build_commit_seq: u64,
    pub durable_contract_version: u32,
    pub replaces_snapshot_commit_seq: Option<i64>,
    pub replaces_publication_digest: Option<Vec<u8>>,
    pub replaces_content_digest: Option<Vec<u8>>,
    pub published_at: i64,
    pub build_owner: CommitOwner,
    pub publication_owner: CommitOwner,
    pub predecessor: Option<PredecessorSnapshotRow>,
}

/// Reasons that may own the build commit of an initial publication.
pub open spec fn initial_build_reasons() -> Seq<Seq<char>> {
    seq![
        BUILD_SCHEDULED_REASON@,
        PARTIAL_REASON@,
        INITIAL_SOURCE_RETRYING_REASON@,
        REFRESH_RECOVERY_STARTED_REASON@,
        SOURCE_GENERATION_INVALIDATED_REASON@,
    ]
}

/// Reasons that may own the build commit of a refresh publication.
pub open spec fn refresh_build_reasons() -> Seq<Seq<char>> {
    seq![
        REFRESH_STARTED_REASON@,
        REFRESH_SOURCE_RETRYING_REASON@,
        REFRESH_RECOVERY_STARTED_REASON@,
        PARTIAL_REASON@,
        SOURCE_GENERATION_INVALIDATED_REASON@,
    ]
}

/// The row records an initial publication: the initial contract version and
/// no predecessor column.
pub open spec fn initial_shape(s: StoredSnapshotLineage) -> bool {
    &&& s.durable_contract_version == CATALOG_DURABLE_PUBLICATION_CONTRACT_VERSION
    &&& s.replaces_snapshot_commit_seq is None
    &&& s.replaces_publication_digest is None
    &&& s.replaces_content_digest is None
}

/// The row records a refresh publication: the refresh contract version and
/// every predecessor column.
pub open spec fn refresh_shape(s: StoredSnapshotLineage) -> bool {
    &&& s.durable_contract_version == CATALOG_DURABLE_REFRESH_PUBLICATION_CONTRACT_VERSION
    &&& s.replaces_snapshot_commit_seq is Some
    &&& s.replaces_publication_digest is Some
    &&& s.replaces_content_digest is Some
}

/// An initial publication owned by an initial build commit and by the
/// initial publication commit at its publication time.
pub open spec fn initial_lineage_ok(s: StoredSnapshotLineage) -> bool {
    &&& initial_shape(s)
    &&& commit_owner_ok(s.build_owner, initial_build_reasons(), None)
    &&& commit_owner_ok(s.publication_owner, seq![INITIAL_PUBLICATION_REASON@], Some(s.published_at))
}

/// The commit order and both owners of a refresh publication hold.
pub open spec fn refresh_owners_ok(s: StoredSnapshotLineage, snapshot_id: CatalogSnapshotId) -> bool {
    &&& refresh_shape(s)
    &&& refresh_commit_order_ok(s.replaces_snapshot_commit_seq->0, s.build_commit_seq, snapshot_id)
    &&& commit_owner_ok(s.build_owner, refresh_build_reasons(), None)
    &&& commit_owner_ok(s.publication_owner, seq![REFRESH_PUBLICATION_REASON@], Some(s.published_at))
}

/// A refresh publication whose predecessor row lies on its exact lineage.
pub open spec fn refresh_snapshot_ok(s: StoredSnapshotLineage, snapshot_id: CatalogSnapshotId) -> bool {
    &&& refresh_owners_ok(s, snapshot_id)
    &&& s.predecessor matches Some(row) && predecessor_row_ok(
        snapshot_id,
        row,
        s.replaces_publication_digest->0@,
        s.replaces_content_digest->0@,
    )
}

/// The stored lineage of a Ready snapshot is coherent.
pub open spec fn lineage_ok(s: StoredSnapshotLineage, snapshot_id: CatalogSnapshotId) -> bool {
    initial_lineage_ok(s) || refresh_snapshot_ok(s, snapshot_id)
}

/// The commit is source-neutral, committed and factless: the parts of an
/// owner check that do not depend on its reason.
pub open spec fn neutral_commit(owner: CommitOwner) -> bool {
    &&& owner.source_instance_id is None
    &&& owner.committed_at is Some
    &&& owner.fact_count == 0
}

/// The reason of a commit that may own an initial build: the build was
/// scheduled, recorded partial, retried a source, restarted after an
/// interrupted refresh, or invalidated a source generation.
pub open spec fn initial_build_reason(reason: Seq<char>) -> bool {
    ||| reason == BUILD_SCHEDULED_REASON@
    ||| reason == PARTIAL_REASON@
    ||| reason == INITIAL_SOURCE_RETRYING_REASON@
    ||| reason == REFRESH_RECOVERY_STARTED_REASON@
    ||| reason == SOURCE_GENERATION_INVALIDATED_REASON@
}

/// An initial-shaped Ready snapshot is an initial publication exactly when
/// its build commit is a neutral commit with any of the initial build
/// reasons, and its publication commit is the neutral initial publication
/// committed at its publication time.
pub proof fn lemma_initial_lineage_owners(s: StoredSnapshotLineage)
    requires
        initial_shape(s),
    ensures
        initial_lineage_ok(s) <==> {
            &&& neutral_commit(s.build_owner)
            &&& initial_build_reason(s.build_owner.reason@)
            &&& neutral_commit(s.publication_owner)
            &&& s.publication_owner.reason@ == INITIAL_PUBLICATION_REASON@
            &&& s.publication_owner.committed_at == Some(s.published_at)
        },
{
    let reasons = initial_build_reasons();
    let r = s.build_owner.reason@;
    if initial_build_reason(r) {
        if r == BUILD_SCHEDULED_REASON@ {
            assert(reasons[0] == r);
        } else if r == PARTIAL_REASON@ {
            assert(reasons[1] == r);
        } else if r == INITIAL_SOURCE_RETRYING_REASON@ {
            assert(reasons[2] == r);
        } else if r == REFRESH_RECOVERY_STARTED_REASON@ {
            assert(reasons[3] == r);
        } else {
            assert(reasons[4] == r);
        }
    }
    if reasons.contains(r) {
        let i = choose|i: int| 0 <= i < reasons.len() && reasons[i] == r;
        assert(0 <= i < 5);
    }
    assert(seq![INITIAL_PUBLICATION_REASON@][0] == INITIAL_PUBLICATION_REASON@);
}

/// The reason of a commit that may own a refresh build: the refresh started,
/// retried a source, restarted after an interruption, recorded partial, or
/// invalidated a source generation.
pub open spec fn refresh_build_reason(reason: Seq<char>) -> bool {
    ||| reason == REFRESH_STARTED_REASON@
    ||| reason == REFRESH_SOURCE_RETRYING_REASON@
    ||| reason == REFRESH_RECOVERY_STARTED_REASON@
    ||| reason == PARTIAL_REASON@
    ||| reason == SOURCE_GENERATION_INVALIDATED_REASON@
}

/// A refresh-shaped Ready snapshot with ordered commits has valid owners
/// exactly when its build commit is a neutral commit with any of the
/// refresh build reasons, and its publication commit is the neutral refresh
/// publication committed at its publication time.
pub proof fn lemma_refresh_lineage_owners(s: StoredSnapshotLineage, snapshot_id: CatalogSnapshotId)
    requires
        refresh_shape(s),
        refresh_commit_order_ok(s.replaces_snapshot_commit_seq->0, s.build_commit_seq, snapshot_id),
    ensures
        refresh_owners_ok(s, snapshot_id) <==> {
            &&& neutral_commit(s.build_owner)
            &&& refresh_build_reason(s.build_owner.reason@)
            &&& neutral_commit(s.publication_owner)
            &&& s.publication_owner.reason@ == REFRESH_PUBLICATION_REASON@
            &&& s.publication_owner.committed_at == Some(s.published_at)
        },
{
    let reasons = refresh_build_reasons();
    let r = s.build_owner.reason@;
    if refresh_build_reason(r) {
        if r == REFRESH_STARTED_REASON@ {
            assert(reasons[0] == r);
        } else if r == REFRESH_SOURCE_RETRYING_REASON@ {
            assert(reasons[1] == r);
        } else if r == REFRESH_RECOVERY_STARTED_REASON@ {
            assert(reasons[2] == r);
        } else if r == PARTIAL_REASON@ {
            assert(reasons[3] == r);
        } else {
            assert(reasons[4] == r);
        }
    }
    if reasons.contains(r) {
        let i = choose|i: int| 0 <= i < reasons.len() && reasons[i] == r;
        assert(0 <= i < 5);
    }
    assert(seq![REFRESH_PUBLICATION_REASON@][0] == REFRESH_PUBLICATION_REASON@);
}

/// A stored lineage is coherent only in one of two shapes: the initial
/// version with no predecessor column, or the refresh version with every
/// one. A refresh is refused when its predecessor row lies on another pack
/// or plan, comes from a later readiness epoch, or completed no earlier
/// than its build started.
pub proof fn lemma_lineage_refusals(s: StoredSnapshotLineage, snapshot_id: CatalogSnapshotId)
    ensures
        lineage_ok(s, snapshot_id) ==> (s.durable_contract_version == CATALOG_DURABLE_PUBLICATION_CONTRACT_VERSION
            && s.replaces_snapshot_commit_seq is None && s.replaces_publication_digest is None
            && s.replaces_content_digest is None)
            || (s.durable_contract_version == CATALOG_DURABLE_REFRESH_PUBLICATION_CONTRACT_VERSION
            && s.replaces_snapshot_commit_seq is Some && s.replaces_publication_digest is Some
            && s.replaces_content_digest is Some),
        s.predecessor matches Some(row) && row.readiness_epoch > snapshot_id.readiness_epoch
            ==> !refresh_snapshot_ok(s, snapshot_id),
        s.predecessor matches Some(row) && row.pack_contract_version != snapshot_id.pack_contract_version
            ==> !refresh_snapshot_ok(s, snapshot_id),
        s.predecessor matches Some(row) && row.coverage_plan_id is None ==> !refresh_snapshot_ok(s, snapshot_id),
        s.replaces_snapshot_commit_seq matches Some(c) && c >= s.build_commit_seq ==> !refresh_snapshot_ok(s, snapshot_id),
        s.build_commit_seq >= snapshot_id.complete_commit && s.replaces_snapshot_commit_seq is Some
            ==> !refresh_snapshot_ok(s, snapshot_id),
        s.predecessor is None ==> !refresh_snapshot_ok(s, snapshot_id),
{
}

/// Decide whether a stored Ready snapshot is an initial or a refresh
/// publication from its durable contract version, its predecessor columns
/// and the commits that own it, and rebuild its exact predecessor.
pub fn classify_snapshot_lineage(
    stored: &StoredSnapshotLineage,
    snapshot_id: &CatalogSnapshotId,
) -> (r: Result<CatalogSnapshotLineage, EngineError>)
    ensures
        r is Ok <==> lineage_ok(*stored, *snapshot_id),
        r matches Ok(CatalogSnapshotLineage::Initial) <==> initial_lineage_ok(*stored),
        r matches Ok(CatalogSnapshotLineage::Refresh {
            predecessor_snapshot: p,
            predecessor_publication_digest: pd,
            predecessor_content_digest: cd,
        }) ==> (refresh_snapshot_ok(*stored, *snapshot_id) && p == (CatalogSnapshotId {
            pack_contract_version: snapshot_id.pack_contract_version,
            coverage_plan_id: snapshot_id.coverage_plan_id,
            readiness_epoch: stored.predecessor->0.readiness_epoch as u64,
            complete_commit: stored.replaces_snapshot_commit_seq->0 as u64,
        }) && pd@ == stored.replaces_publication_digest->0@ && cd@ == stored.replaces_content_digest->0@),
        !initial_shape(*stored) && !refresh_shape(*stored) ==> (r matches Err(e)
            && corrupt_with(e, "catalog snapshot durable version and predecessor fields disagree"@)),
        r matches Err(e) ==> (e is Sqlite <==> refresh_owners_ok(*stored, *snapshot_id) && stored.predecessor is None),
        r matches Err(e) ==> e is CorruptCatalogState || e is Sqlite,
        initial_shape(*stored) ==> (r == Ok::<CatalogSnapshotLineage, EngineError>(CatalogSnapshotLineage::Initial) <==> {
            &&& neutral_commit(stored.build_owner)
            &&& initial_build_reason(stored.build_owner.reason@)
            &&& neutral_commit(stored.publication_owner)
            &&& stored.publication_owner.reason@ == INITIAL_PUBLICATION_REASON@
            &&& stored.publication_owner.committed_at == Some(stored.published_at)
        }),
{
    proof {
        if initial_shape(*stored) {
            lemma_initial_lineage_owners(*stored);
        }
    }
    let initial = stored.durable_contract_version == CATALOG_DURABLE_PUBLICATION_CONTRACT_VERSION
        && stored.replaces_snapshot_commit_seq.is_none()
        && stored.replaces_publication_digest.is_none()
        && stored.replaces_content_digest.is_none();
    if initial {
        let build_reasons: Vec<&str> = vec![
            BUILD_SCHEDULED_REASON,
            PARTIAL_REASON,
            INITIAL_SOURCE_RETRYING_REASON,
            REFRESH_RECOVERY_STARTED_REASON,
            SOURCE_GENERATION_INVALIDATED_REASON,
        ];
        assert(Seq::new(build_reasons@.len(), |i: int| build_reasons@[i]@) =~= initial_build_reasons());
        validate_commit_owner_one_of(&stored.build_owner, &build_reasons, None)?;
        let publication_reasons: Vec<&str> = vec![INITIAL_PUBLICATION_REASON];
        assert(Seq::new(publication_reasons@.len(), |i: int| publication_reasons@[i]@)
            =~= seq![INITIAL_PUBLICATION_REASON@]);
        validate_commit_owner_one_of(&stored.publication_owner, &publication_reasons, Some(stored.published_at))?;
        return Ok(CatalogSnapshotLineage::Initial);
    }
    if stored.durable_contract_version == CATALOG_DURABLE_REFRESH_PUBLICATION_CONTRACT_VERSION {
        match (&stored.replaces_snapshot_commit_seq, &stored.replaces_publication_digest, &stored.replaces_content_digest) {
            (Some(predecessor_commit), Some(publication), Some(content)) => {
                let commit = check_refresh_commit_order(*predecessor_commit, stored.build_commit_seq, snapshot_id)?;
                let build_reasons: Vec<&str> = vec![
                    REFRESH_STARTED_REASON,
                    REFRESH_SOURCE_RETRYING_REASON,
                    REFRESH_RECOVERY_STARTED_REASON,
                    PARTIAL_REASON,
                    SOURCE_GENERATION_INVALIDATED_REASON,
                ];
                assert(Seq::new(build_reasons@.len(), |i: int| build_reasons@[i]@) =~= refresh_build_reasons());
                validate_commit_owner_one_of(&stored.build_owner, &build_reasons, None)?;
                let publication_reasons: Vec<&str> = vec![REFRESH_PUBLICATION_REASON];
                assert(Seq::new(publication_reasons@.len(), |i: int| publication_reasons@[i]@)
                    =~= seq![REFRESH_PUBLICATION_REASON@]);
                validate_commit_owner_one_of(&stored.publication_owner, &publication_reasons, Some(stored.published_at))?;
                let row = match &stored.predecessor {
                    Some(row) => row,
                    None => {
                        return Err(EngineError::Sqlite {
                            operation: "load catalog predecessor identity",
                            detail: "Query returned no rows".to_owned(),
                        });
                    },
                };
                return refresh_snapshot_lineage(snapshot_id, commit, row, publication.as_slice(), content.as_slice());
            },
            _ => {},
        }
    }
    Err(corrupt("catalog snapshot durable version and predecessor fields disagree"))
}

/// A refresh predecessor lies on the exact plan and pack of its successor,
/// at an epoch no later than it, within the retained depth bound.
pub open spec fn predecessor_ok(snapshot_id: CatalogSnapshotId, predecessor: CatalogSnapshotId, refresh_depth: usize) -> bool {
    &&& predecessor.coverage_plan_id == snapshot_id.coverage_plan_id
    &&& predecessor.pack_contract_version == snapshot_id.pack_contract_version
    &&& predecessor.readiness_epoch <= snapshot_id.readiness_epoch
    &&& refresh_depth < MAX_RETAINED_REFRESH_LINEAGE_DEPTH
}

/// Check a refresh predecessor before loading it.
pub fn check_refresh_predecessor(snapshot_id: &CatalogSnapshotId, predecessor: &CatalogSnapshotId, refresh_depth: usize) -> (r: Result<(), EngineError>)
    ensures
        r is Ok <==> predecessor_ok(*snapshot_id, *predecessor, refresh_depth),
        r matches Err(e) ==> e is CorruptCatalogState,
{
    if !predecessor.coverage_plan_id.same(&snapshot_id.coverage_plan_id)
        || predecessor.pack_contract_version != snapshot_id.pack_contract_version
        || predecessor.readiness_epoch > snapshot_id.readiness_epoch {
        return Err(corrupt("catalog refresh predecessor is outside its exact plan/build lineage"));
    }
    if refresh_depth >= MAX_RETAINED_REFRESH_LINEAGE_DEPTH {
        return Err(corrupt("catalog refresh lineage exceeds its bounded retained depth"));
    }
    Ok(())
}

/// Extend the predecessor's retained chain with this snapshot; the chain
/// must have exactly one commitment per lineage step, within the bound.
pub fn extend_retained_chain(
    predecessor_chain: Vec<CatalogRetainedSnapshotCommitment>,
    snapshot: CatalogRetainedSnapshotCommitment,
    refresh_depth: usize,
) -> (r: Result<Vec<CatalogRetainedSnapshotCommitment>, EngineError>)
    ensures
        r is Ok <==> predecessor_chain@.len() == refresh_depth
            && predecessor_chain@.len() <= MAX_RETAINED_REFRESH_LINEAGE_DEPTH,
        r matches Ok(c) ==> c@ == predecessor_chain@.push(snapshot),
        r matches Err(e) ==> e is CorruptCatalogState,
{
    let mut chain = predecessor_chain;
    if chain.len() != refresh_depth || chain.len() > MAX_RETAINED_REFRESH_LINEAGE_DEPTH {
        return Err(corrupt("catalog retained snapshot commitments exceed their bounded linear lineage"));
    }
    chain.push(snapshot);
    Ok(chain)
}

/// Values computed over a publication's stored bytes by its frame decoders
/// and digest derivations, which the checks below compare with its header.
#[derive(Debug, Clone, Copy, PartialEq, Eq)]
pub struct PublicationDerivations {
    /// The stored selection encoding parses as a valid durable selection.
    pub selection_valid: bool,
    /// Byte length of the stored selection encoding.
    pub selection_bytes: usize,
    /// Every frame decodes, and together they restore a reducer publication
    /// whose rows are exactly the committed rows.
    pub frames_valid: bool,
    /// Digest derived from the canonical entry summaries.
    pub entries_digest: [u8; 32],
    /// Content digest derived from the header, the entries and, for a
    /// refresh, the predecessor.
    pub content_digest: [u8; 32],
}

/// Bytes the member identity contract adds to a publication's encoding.
pub open spec fn member_id_bytes(h: CheckedSnapshotHeader) -> int {
    match h.member_identity_contract_id {
        Some(v) => str_len(v@) as int,
        None => 0,
    }
}

/// What a checked header declares about its entries.
pub open spec fn entry_header_of(h: CheckedSnapshotHeader, base_bytes: usize, max_bytes: usize) -> PublicationEntryHeader {
    PublicationEntryHeader {
        entry_count: h.entry_count,
        encoded_bytes: h.encoded_bytes,
        source_count: h.source_count,
        member_count: h.member_count,
        has_member_history: h.durable_contract_version == CATALOG_DURABLE_REFRESH_PUBLICATION_CONTRACT_VERSION,
        project_row_count: h.project_row_count,
        session_row_count: h.session_row_count,
        tombstone_count: h.tombstone_count,
        reducer_revision: h.reducer_revision,
        base_bytes,
        max_bytes,
    }
}

/// The commitment that retains a snapshot under its header's digests.
pub open spec fn commitment_for(snapshot_id: CatalogSnapshotId, h: CheckedSnapshotHeader) -> CatalogRetainedSnapshotCommitment {
    CatalogRetainedSnapshotCommitment { snapshot: snapshot_id, publication: h.publication_digest, content: h.content_digest }
}

/// The loaded predecessor identity is the one the lineage names: a first
/// publication has none; a refresh's predecessor lies on its exact plan and
/// pack within the depth bound, completed before it, ends its retained chain
/// with the commitment the lineage records, and shares its selection and
/// member identity contract.
pub open spec fn predecessor_identity_ok(
    snapshot_id: CatalogSnapshotId,
    h: CheckedSnapshotHeader,
    lineage: CatalogSnapshotLineage,
    selection: ContractVersionSelection,
    predecessor: Option<CatalogReadyPublicationIdentity>,
    depth: usize,
) -> bool {
    match (lineage, predecessor) {
        (CatalogSnapshotLineage::Initial, None) => true,
        (CatalogSnapshotLineage::Refresh {
            predecessor_snapshot: p,
            predecessor_publication_digest: pd,
            predecessor_content_digest: cd,
        }, Some(pred)) => {
            &&& predecessor_ok(snapshot_id, p, depth)
            &&& p.complete_commit < snapshot_id.complete_commit
            &&& depth + pred.refresh_depth + 1 <= MAX_RETAINED_REFRESH_LINEAGE_DEPTH
            &&& pred.retained_chain@.len() > 0
            &&& pred.retained_chain@.last() == (CatalogRetainedSnapshotCommitment { snapshot: p, publication: pd, content: cd })
            &&& pred.header.publication_digest == pd
            &&& pred.header.content_digest == cd
            &&& selection_matches(pred.contract_selection, selection)
            &&& opt_text(pred.header.member_identity_contract_id) == opt_text(h.member_identity_contract_id)
            &&& pred.retained_chain@.len() == pred.refresh_depth + 1
        },
        _ => false,
    }
}

/// Every check a loaded Ready publication must pass at restart: it is on
/// the Library plan its snapshot names, its selection is valid for its pack,
/// its predecessor is the one its lineage names, its entries match its
/// header, its frames restore it, and both derived digests are the ones its
/// header records.
pub open spec fn ready_publication_ok(
    snapshot_id: CatalogSnapshotId,
    h: CheckedSnapshotHeader,
    lineage: CatalogSnapshotLineage,
    selection: ContractVersionSelection,
    plan: CatalogCoveragePlan,
    entries: Seq<StoredPublicationEntry>,
    derived: PublicationDerivations,
    predecessor: Option<CatalogReadyPublicationIdentity>,
    depth: usize,
    max_bytes: usize,
) -> bool {
    let base = derived.selection_bytes + member_id_bytes(h);
    let eh = entry_header_of(h, base as usize, max_bytes);
    &&& plan.scope == CatalogCoverageScope::Library
    &&& plan.coverage_plan_id == snapshot_id.coverage_plan_id
    &&& derived.selection_valid
    &&& selection.query_pack_version == Some(snapshot_id.pack_contract_version)
    &&& predecessor_identity_ok(snapshot_id, h, lineage, selection, predecessor, depth)
    &&& base <= usize::MAX
    &&& entries_tally(entries, eh) matches Some(t) && tally_matches_header(t, eh)
    &&& derived.frames_valid
    &&& derived.entries_digest == h.entries_digest
    &&& derived.content_digest == h.content_digest
}

proof fn lemma_tally_row_counts(entries: Seq<StoredPublicationEntry>, h: PublicationEntryHeader)
    requires
        entries_tally(entries, h) is Some,
    ensures
        ({
            let t = entries_tally(entries, h)->0;
            &&& t.2.len() == 7
            &&& t.4.len() == t.2[4]
            &&& t.5.len() == t.2[5]
        }),
    decreases entries.len(),
{
    if entries.len() > 0 {
        lemma_tally_row_counts(entries.drop_last(), h);
    }
}

/// Check a loaded Ready publication of `snapshot_id`, read at lineage depth
/// `depth`, against its checked header, its lineage, the predecessor
/// identity loaded for a refresh, and the values derived from its stored
/// bytes, and assemble its identity with the retained chain extended by
/// this snapshot.
pub fn check_ready_publication(
    snapshot_id: &CatalogSnapshotId,
    header: CheckedSnapshotHeader,
    lineage: CatalogSnapshotLineage,
    selection: ContractVersionSelection,
    plan: &CatalogCoveragePlan,
    entries: &Vec<StoredPublicationEntry>,
    derived: &PublicationDerivations,
    predecessor: Option<&CatalogReadyPublicationIdentity>,
    depth: usize,
    max_bytes: usize,
) -> (r: Result<CatalogReadyPublicationIdentity, EngineError>)
    requires
        predecessor matches Some(p) ==> identity_wf(*p),
    ensures
        r is Ok <==> ready_publication_ok(
            *snapshot_id, header, lineage, selection, *plan, entries@, *derived,
            match predecessor { Some(p) => Some(*p), None => None }, depth, max_bytes,
        ),
        r matches Ok(id) ==> {
            let base = derived.selection_bytes + member_id_bytes(header);
            let t = entries_tally(entries@, entry_header_of(header, base as usize, max_bytes))->0;
            let prior = match predecessor { Some(p) => p.retained_chain@, None => Seq::empty() };
            &&& identity_wf(id)
            &&& id.header == header
            &&& id.lineage == lineage
            &&& id.contract_selection == selection
            &&& id.project_rows@ == t.4
            &&& id.session_rows@ == t.5
            &&& id.project_rows@.len() == header.project_row_count
            &&& id.session_rows@.len() == header.session_row_count
            &&& id.refresh_depth == match predecessor { Some(p) => p.refresh_depth + 1, None => 0 }
            &&& id.retained_chain@ == prior.push(commitment_for(*snapshot_id, header))
            &&& id.retained_chain@.len() == id.refresh_depth + 1
            &&& (id.refresh_depth == 0 || depth + id.refresh_depth <= MAX_RETAINED_REFRESH_LINEAGE_DEPTH)
            &&& id.retained_chain@.last().snapshot == *snapshot_id
        },
        r matches Err(e) ==> e is CorruptCatalogState,
{
    if plan.scope != CatalogCoverageScope::Library || !snapshot_id.coverage_plan_id.same(&plan.coverage_plan_id) {
        return Err(corrupt("catalog snapshot header is outside its exact plan/build lineage"));
    }
    if !derived.selection_valid {
        return Err(corrupt("catalog snapshot contract selection is invalid"));
    }
    let pack_ok = match selection.query_pack_version {
        Some(v) => v == snapshot_id.pack_contract_version,
        None => false,
    };
    if !pack_ok {
        return Err(corrupt("catalog snapshot selection does not match its pack version"));
    }
    match (lineage, predecessor) {
        (CatalogSnapshotLineage::Initial, None) => {},
        (CatalogSnapshotLineage::Refresh {
            predecessor_snapshot,
            predecessor_publication_digest,
            predecessor_content_digest,
        }, Some(pred)) => {
            check_refresh_predecessor(snapshot_id, &predecessor_snapshot, depth)?;
            if predecessor_snapshot.complete_commit >= snapshot_id.complete_commit {
                return Err(corrupt("catalog refresh snapshot commit order is not strictly increasing"));
            }
            if pred.refresh_depth > MAX_RETAINED_REFRESH_LINEAGE_DEPTH - depth - 1 {
                return Err(corrupt("catalog refresh lineage exceeds its bounded retained depth"));
            }
            let recorded = CatalogRetainedSnapshotCommitment {
                snapshot: predecessor_snapshot,
                publication: predecessor_publication_digest,
                content: predecessor_content_digest,
            };
            let n = pred.retained_chain.len();
            let same_member = match (&pred.header.member_identity_contract_id, &header.member_identity_contract_id) {
                (Some(a), Some(b)) => crate::util::str_equal(a.as_str(), b.as_str()),
                (None, None) => true,
                _ => false,
            };
            if n == 0 || !pred.retained_chain[n - 1].same(&recorded)
                || !digest_equal(&pred.header.publication_digest, &predecessor_publication_digest)
                || !digest_equal(&pred.header.content_digest, &predecessor_content_digest)
                || !selections_equal(&pred.contract_selection, &selection) || !same_member {
                return Err(corrupt("catalog refresh predecessor commitment differs from its retained publication"));
            }
        },
        (CatalogSnapshotLineage::Initial, Some(_)) => {
            return Err(corrupt("catalog initial publication cannot have a refresh predecessor"));
        },
        (CatalogSnapshotLineage::Refresh { .. }, None) => {
            return Err(corrupt("catalog refresh predecessor publication is missing"));
        },
    }
    let member_bytes: usize = match &header.member_identity_contract_id {
        Some(v) => v.as_str().len(),
        None => 0,
    };
    if member_bytes > usize::MAX - derived.selection_bytes {
        return Err(corrupt("catalog byte count overflow"));
    }
    let base_bytes = derived.selection_bytes + member_bytes;
    let entry_header = PublicationEntryHeader {
        entry_count: header.entry_count,
        encoded_bytes: header.encoded_bytes,
        source_count: header.source_count,
        member_count: header.member_count,
        has_member_history: header.durable_contract_version == CATALOG_DURABLE_REFRESH_PUBLICATION_CONTRACT_VERSION,
        project_row_count: header.project_row_count,
        session_row_count: header.session_row_count,
        tombstone_count: header.tombstone_count,
        reducer_revision: header.reducer_revision,
        base_bytes,
        max_bytes,
    };
    assert(entry_header == entry_header_of(header, base_bytes, max_bytes));
    let scan = scan_publication_entries(entries, &entry_header)?;
    proof {
        lemma_tally_row_counts(entries@, entry_header);
    }
    if !derived.frames_valid {
        return Err(corrupt("catalog snapshot frames do not restore its reducer publication"));
    }
    if !digest_equal(&derived.entries_digest, &header.entries_digest) {
        return Err(corrupt("catalog snapshot entries digest does not match its canonical frames"));
    }
    if !digest_equal(&derived.content_digest, &header.content_digest) {
        return Err(corrupt("catalog snapshot content digest does not match its header and entries"));
    }
    let (prior, refresh_depth): (Vec<CatalogRetainedSnapshotCommitment>, usize) = match predecessor {
        Some(pred) => (copy_chain(&pred.retained_chain), pred.refresh_depth + 1),
        None => (Vec::new(), 0),
    };
    let this = CatalogRetainedSnapshotCommitment {
        snapshot: *snapshot_id,
        publication: header.publication_digest,
        content: header.content_digest,
    };
    let chain = extend_retained_chain(prior, this, refresh_depth)?;
    proof {
        let c = chain@;
        if let Some(pred) = predecessor {
            let pc = pred.retained_chain@;
            assert forall|i: int, j: int| 0 <= i < j < c.len()
                implies (#[trigger] c[i]).snapshot.complete_commit < (#[trigger] c[j]).snapshot.complete_commit by {
                if j == c.len() - 1 {
                    if i < pc.len() - 1 {
                        assert(pc[i].snapshot.complete_commit < pc[pc.len() - 1].snapshot.complete_commit);
                    }
                } else {
                    assert(pc[i] == c[i] && pc[j] == c[j]);
                }
            }
        }
    }
    let id = ready_identity(header, lineage, selection, scan, refresh_depth, chain);
    Ok(id)
}

/// One stored snapshot of a Ready lineage as read from the database: its
/// header and lineage columns with their owning commits, its stored
/// attempt, its parsed selection, its entries, and the values derived from
/// its stored bytes.
#[derive(Debug, Clone, PartialEq, Eq)]
pub struct LoadedReadySnapshot {
    pub header: StoredSnapshotHeader,
    pub lineage: StoredSnapshotLineage,
    pub attempt: i64,
    pub selection: ContractVersionSelection,
    pub entries: Vec<StoredPublicationEntry>,
    pub derived: PublicationDerivations,
}

/// Check the Ready publication of `snapshot_id` built by `expected_attempt`
/// and, for a refresh, its whole retained lineage. `records` holds the
/// stored snapshots newest first: the snapshot itself, then each
/// predecessor its lineage names.
pub fn load_ready_publication(
    records: Vec<LoadedReadySnapshot>,
    plan: &CatalogCoveragePlan,
    snapshot_id: CatalogSnapshotId,
    expected_attempt: u64,
    max_entries: usize,
    max_bytes: usize,
) -> (r: Result<CatalogReadyPublicationIdentity, EngineError>)
    ensures
        records@.len() == 0 ==> r is Err,
        r matches Ok(id) ==> {
            &&& identity_wf(id)
            &&& id.retained_chain@.len() == id.refresh_depth + 1
            &&& id.refresh_depth <= MAX_RETAINED_REFRESH_LINEAGE_DEPTH
            &&& id.refresh_depth < records@.len()
            &&& id.retained_chain@.last().snapshot == snapshot_id
            &&& stored_header_of(records@[0].header, id.header)
        },
        r matches Err(e) ==> e is CorruptCatalogState || e is Sqlite,
{
    ready_publication_at_depth(records, plan, snapshot_id, expected_attempt, 0, max_entries, max_bytes)
}

/// The stored header columns hold exactly the checked header `h`.
pub open spec fn stored_header_of(stored: StoredSnapshotHeader, h: CheckedSnapshotHeader) -> bool {
    &&& stored.build_commit_seq == h.build_commit_seq
    &&& stored.durable_contract_version == h.durable_contract_version
    &&& stored.member_identity_contract_id == h.member_identity_contract_id
    &&& stored_digest(stored.publication_digest) == Some(h.publication_digest@)
    &&& stored_digest(stored.content_digest) == Some(h.content_digest@)
    &&& stored.entry_count == h.entry_count
    &&& stored.project_row_count == h.project_row_count
    &&& stored.session_row_count == h.session_row_count
}

/// The lineage check at `depth`: check this snapshot's header and lineage,
/// load and check the predecessor a refresh names one level deeper, then
/// check this publication against it.
fn ready_publication_at_depth(
    records: Vec<LoadedReadySnapshot>,
    plan: &CatalogCoveragePlan,
    snapshot_id: CatalogSnapshotId,
    attempt: u64,
    depth: usize,
    max_entries: usize,
    max_bytes: usize,
) -> (r: Result<CatalogReadyPublicationIdentity, EngineError>)
    ensures
        records@.len() == 0 ==> r is Err,
        r matches Ok(id) ==> {
            &&& identity_wf(id)
            &&& id.retained_chain@.len() == id.refresh_depth + 1
            &&& (id.refresh_depth == 0 || depth + id.refresh_depth <= MAX_RETAINED_REFRESH_LINEAGE_DEPTH)
            &&& id.refresh_depth < records@.len()
            &&& id.retained_chain@.last().snapshot == snapshot_id
            &&& stored_header_of(records@[0].header, id.header)
        },
        r matches Err(e) ==> e is CorruptCatalogState || e is Sqlite,
    decreases records@.len(),
{
    if records.len() == 0 {
        return Err(corrupt("Ready state snapshot is missing"));
    }
    let mut records = records;
    let record = records.remove(0);
    let LoadedReadySnapshot { header, lineage, attempt: _, selection, entries, derived } = record;
    let checked = check_snapshot_header(header, &snapshot_id, attempt, max_entries, max_bytes)?;
    if lineage.build_commit_seq != checked.build_commit_seq {
        return Err(corrupt("catalog snapshot header is outside its exact plan/build lineage"));
    }
    let classified = classify_snapshot_lineage(&lineage, &snapshot_id)?;
    let predecessor: Option<CatalogReadyPublicationIdentity> = match classified {
        CatalogSnapshotLineage::Initial => None,
        CatalogSnapshotLineage::Refresh { predecessor_snapshot, .. } => {
            check_refresh_predecessor(&snapshot_id, &predecessor_snapshot, depth)?;
            if records.len() == 0 {
                return Err(EngineError::Sqlite {
                    operation: "load catalog predecessor attempt",
                    detail: "Query returned no rows".to_owned(),
                });
            }
            let stored_attempt = records[0].attempt;
            if stored_attempt <= 0 {
                return Err(corrupt("catalog predecessor attempt must be positive"));
            }
            let loaded = ready_publication_at_depth(
                records,
                plan,
                predecessor_snapshot,
                stored_attempt as u64,
                depth + 1,
                max_entries,
                max_bytes,
            )?;
            Some(loaded)
        },
    };
    let predecessor_ref: Option<&CatalogReadyPublicationIdentity> = match &predecessor {
        Some(p) => Some(p),
        None => None,
    };
    let ghost checked_header = checked;
    let id = check_ready_publication(
        &snapshot_id, checked, classified, selection, plan, &entries, &derived, predecessor_ref, depth, max_bytes,
    )?;
    assert(id.header == checked_header);
    Ok(id)
}

/// A copy of a retained chain.
fn copy_chain(chain: &Vec<CatalogRetainedSnapshotCommitment>) -> (r: Vec<CatalogRetainedSnapshotCommitment>)
    ensures
        r@ == chain@,
{
    let mut out: Vec<CatalogRetainedSnapshotCommitment> = Vec::new();
    let mut i: usize = 0;
    while i < chain.len()
        invariant
            i <= chain@.len(),
            out@ == chain@.take(i as int),
        decreases chain@.len() - i,
    {
        out.push(chain[i]);
        i = i + 1;
        assert(out@ =~= chain@.take(i as int));
    }
    assert(chain@.take(chain@.len() as int) =~= chain@);
    out
}

/// Assemble the identity of a Ready publication from its checked entries
/// and retained chain. The identity supports exact row lookups.
pub fn ready_identity(
    header: CheckedSnapshotHeader,
    lineage: CatalogSnapshotLineage,
    contract_selection: ContractVersionSelection,
    scan: PublicationEntryScan,
    refresh_depth: usize,
    retained_chain: Vec<CatalogRetainedSnapshotCommitment>,
) -> (r: CatalogReadyPublicationIdentity)
    requires
        rows_sorted(scan.project_rows@),
        rows_sorted(scan.session_rows@),
        retained_chain@.len() <= MAX_RETAINED_REFRESH_LINEAGE_DEPTH + 1,
        chain_increasing(retained_chain@),
    ensures
        identity_wf(r),
        r.header == header,
        r.lineage == lineage,
        r.contract_selection == contract_selection,
        r.project_rows@ == scan.project_rows@,
        r.session_rows@ == scan.session_rows@,
        r.refresh_depth == refresh_depth,
        r.retained_chain@ == retained_chain@,
{
    CatalogReadyPublicationIdentity {
        header,
        lineage,
        contract_selection,
        project_rows: scan.project_rows,
        session_rows: scan.session_rows,
        refresh_depth,
        retained_chain,
    }
}

} // verus!
