//! Logical query retirement of retained catalog snapshots: the exact
//! authority to retire the oldest retained predecessor of one Ready Library
//! snapshot, the replay of an already durable retirement, and the restart
//! check of the append-only retirement prefix against the snapshot chain.
use vstd::prelude::*;
use crate::error::{corrupt_with, EngineError};
use crate::snapshot::{
    CatalogCoveragePlanId, CatalogCoverageScope, CatalogRetainedSnapshotCommitment,
    CatalogSnapshotId, ContractVersionSelection, FactFamilyVersion,
    MAX_RETAINED_REFRESH_LINEAGE_DEPTH,
};
use crate::util::{all_zero, bytes_equal, is_zero_digest};

verus! {

broadcast use vstd::seq::group_seq_axioms;

/// Reason recorded on the administrative commit that retires a snapshot.
pub const RETIREMENT_REASON: &'static str = "catalog.library.snapshot.retired";

/// Topic of the change announcing a retirement.
pub const RETIREMENT_TOPIC: &'static str = "catalog.snapshot.retired";

/// Schema version of the retirement change payload.
pub const RETIREMENT_CHANGE_SCHEMA_VERSION: u32 = 1;

/// Version of the retirement contract carried in the payload.
pub const RETIREMENT_CONTRACT_VERSION: u32 = 1;

/// Exact restart-authenticated authority for retiring the oldest currently
/// query-retained predecessor of one plain Ready Library snapshot.
#[derive(Debug, Clone, PartialEq, Eq)]
pub struct CatalogSnapshotRetirementExpectation {
    pub scope: CatalogCoverageScope,
    pub coverage_plan_id: CatalogCoveragePlanId,
    pub selection: ContractVersionSelection,
    pub epoch: u64,
    pub attempt: u64,
    pub state_commit_seq: u64,
    pub retired_prefix_len: usize,
    /// Commitment of the snapshot to retire.
    pub target_snapshot: CatalogRetainedSnapshotCommitment,
    /// Commitment of the current snapshot that supersedes it.
    pub successor_snapshot: CatalogRetainedSnapshotCommitment,
}

/// The expectation describes one exact plain Ready Library lineage: every
/// counter positive, the prefix not exhausted, both snapshots on the plan
/// and epoch, the target strictly older than the successor, the successor
/// the current state, the selection naming the successor's pack, and no
/// digest all zero.
pub open spec fn expectation_valid(e: CatalogSnapshotRetirementExpectation) -> bool {
    let target = e.target_snapshot.snapshot;
    let successor = e.successor_snapshot.snapshot;
    &&& e.scope == CatalogCoverageScope::Library
    &&& e.epoch != 0
    &&& e.attempt != 0
    &&& e.state_commit_seq != 0
    &&& e.retired_prefix_len < MAX_RETAINED_REFRESH_LINEAGE_DEPTH
    &&& target.coverage_plan_id == e.coverage_plan_id
    &&& successor.coverage_plan_id == e.coverage_plan_id
    &&& target.pack_contract_version == successor.pack_contract_version
    &&& target.readiness_epoch == e.epoch
    &&& successor.readiness_epoch == e.epoch
    &&& target.complete_commit < successor.complete_commit
    &&& successor.complete_commit == e.state_commit_seq
    &&& e.selection.query_pack_version == Some(successor.pack_contract_version)
    &&& !is_zero_digest(e.target_snapshot.publication@)
    &&& !is_zero_digest(e.target_snapshot.content@)
    &&& !is_zero_digest(e.successor_snapshot.publication@)
    &&& !is_zero_digest(e.successor_snapshot.content@)
}

fn outside_lineage() -> (e: EngineError)
    ensures
        e matches EngineError::InvalidCommit(m)
            && m@ == "catalog retirement expectation is outside one exact plain Ready lineage"@,
{
    EngineError::InvalidCommit("catalog retirement expectation is outside one exact plain Ready lineage".to_owned())
}

impl CatalogSnapshotRetirementExpectation {
    /// Build an expectation; one outside an exact plain Ready lineage is
    /// refused.
    pub fn new(
        scope: CatalogCoverageScope,
        coverage_plan_id: CatalogCoveragePlanId,
        selection: ContractVersionSelection,
        epoch: u64,
        attempt: u64,
        state_commit_seq: u64,
        retired_prefix_len: usize,
        target_snapshot: CatalogRetainedSnapshotCommitment,
        successor_snapshot: CatalogRetainedSnapshotCommitment,
    ) -> (r: Result<Self, EngineError>)
        ensures
            ({
                let value = CatalogSnapshotRetirementExpectation {
                    scope,
                    coverage_plan_id,
                    selection,
                    epoch,
                    attempt,
                    state_commit_seq,
                    retired_prefix_len,
                    target_snapshot,
                    successor_snapshot,
                };
                &&& (r is Ok <==> expectation_valid(value))
                &&& (r matches Ok(v) ==> v == value)
            }),
            r matches Err(e) ==> e is InvalidCommit,
    {
        let value = CatalogSnapshotRetirementExpectation {
            scope,
            coverage_plan_id,
            selection,
            epoch,
            attempt,
            state_commit_seq,
            retired_prefix_len,
            target_snapshot,
            successor_snapshot,
        };
        match value.validate() {
            Ok(()) => Ok(value),
            Err(e) => Err(e),
        }
    }

    /// Check that the expectation describes one exact plain Ready lineage.
    pub fn validate(&self) -> (r: Result<(), EngineError>)
        ensures
            r is Ok <==> expectation_valid(*self),
            r matches Err(e) ==> e is InvalidCommit,
    {
        let target = self.target_snapshot.snapshot_id();
        let successor = self.successor_snapshot.snapshot_id();
        let selection_ok = match self.selection.query_pack_version {
            Some(v) => v == successor.pack_contract_version,
            None => false,
        };
        if self.scope != CatalogCoverageScope::Library || self.epoch == 0 || self.attempt == 0
            || self.state_commit_seq == 0
            || self.retired_prefix_len >= MAX_RETAINED_REFRESH_LINEAGE_DEPTH
            || !target.coverage_plan_id.same(&self.coverage_plan_id)
            || !successor.coverage_plan_id.same(&self.coverage_plan_id)
            || target.pack_contract_version != successor.pack_contract_version
            || target.readiness_epoch != self.epoch || successor.readiness_epoch != self.epoch
            || target.complete_commit >= successor.complete_commit
            || successor.complete_commit != self.state_commit_seq || !selection_ok
            || all_zero(&self.target_snapshot.publication)
            || all_zero(&self.target_snapshot.content)
            || all_zero(&self.successor_snapshot.publication)
            || all_zero(&self.successor_snapshot.content) {
            return Err(outside_lineage());
        }
        Ok(())
    }

    pub fn target(&self) -> (r: CatalogRetainedSnapshotCommitment)
        ensures
            r == self.target_snapshot,
    {
        self.target_snapshot
    }

    pub fn successor(&self) -> (r: CatalogRetainedSnapshotCommitment)
        ensures
            r == self.successor_snapshot,
    {
        self.successor_snapshot
    }
}

/// A retirement to apply: the exact expectation and the commit's clock
/// readings.
#[derive(Debug, Clone, PartialEq, Eq)]
pub struct CatalogSnapshotRetirementCommand {
    pub expected: CatalogSnapshotRetirementExpectation,
    pub started_at: i64,
    pub committed_at: i64,
}

impl CatalogSnapshotRetirementCommand {
    /// Build a command; an invalid expectation or a commit time before the
    /// start is refused.
    pub fn new(expected: CatalogSnapshotRetirementExpectation, started_at: i64, committed_at: i64) -> (r: Result<Self, EngineError>)
        ensures
            r is Ok <==> expectation_valid(expected) && committed_at >= started_at,
            r matches Ok(c) ==> c.expected == expected && c.started_at == started_at && c.committed_at == committed_at,
            r matches Err(e) ==> e is InvalidCommit,
    {
        if let Err(e) = expected.validate() {
            return Err(e);
        }
        if committed_at < started_at {
            return Err(EngineError::InvalidCommit("catalog retirement commit time must not precede its start".to_owned()));
        }
        Ok(CatalogSnapshotRetirementCommand { expected, started_at, committed_at })
    }
}

/// Result of an applied retirement.
#[derive(Debug, Clone, Copy, PartialEq, Eq)]
pub struct CatalogSnapshotRetirementReceipt {
    pub commit_seq: u64,
    pub retired_snapshot: CatalogSnapshotId,
    pub latest_snapshot: CatalogSnapshotId,
}

/// Two selections name the same versions and fact families.
pub open spec fn selection_matches(a: ContractVersionSelection, b: ContractVersionSelection) -> bool {
    &&& a.selection_contract_version == b.selection_contract_version
    &&& a.model_major == b.model_major
    &&& a.external_entity_reference_version == b.external_entity_reference_version
    &&& a.semantic_revision_reference_version == b.semantic_revision_reference_version
    &&& a.coverage_contract_version == b.coverage_contract_version
    &&& a.query_pack_version == b.query_pack_version
    &&& a.observation_contract_version == b.observation_contract_version
    &&& a.fact_family_versions@.len() == b.fact_family_versions@.len()
    &&& forall|i: int| 0 <= i < a.fact_family_versions@.len() ==> {
        &&& (#[trigger] a.fact_family_versions@[i]).family@ == b.fact_family_versions@[i].family@
        &&& a.fact_family_versions@[i].version == b.fact_family_versions@[i].version
    }
}

/// Whether two selections name the same versions and fact families.
pub fn selections_equal(a: &ContractVersionSelection, b: &ContractVersionSelection) -> (r: bool)
    ensures
        r == selection_matches(*a, *b),
{
    if a.selection_contract_version != b.selection_contract_version || a.model_major != b.model_major
        || a.external_entity_reference_version != b.external_entity_reference_version
        || a.semantic_revision_reference_version != b.semantic_revision_reference_version
        || a.coverage_contract_version != b.coverage_contract_version
        || a.query_pack_version != b.query_pack_version
        || a.observation_contract_version != b.observation_contract_version
        || a.fact_family_versions.len() != b.fact_family_versions.len() {
        return false;
    }
    let mut i: usize = 0;
    while i < a.fact_family_versions.len()
        invariant
            a.fact_family_versions@.len() == b.fact_family_versions@.len(),
            i <= a.fact_family_versions@.len(),
            forall|j: int| 0 <= j < i ==> {
                &&& (#[trigger] a.fact_family_versions@[j]).family@ == b.fact_family_versions@[j].family@
                &&& a.fact_family_versions@[j].version == b.fact_family_versions@[j].version
            },
        decreases a.fact_family_versions@.len() - i,
    {
        let x: &FactFamilyVersion = &a.fact_family_versions[i];
        let y: &FactFamilyVersion = &b.fact_family_versions[i];
        if x.family != y.family || x.version != y.version {
            return false;
        }
        i = i + 1;
    }
    true
}

/// Two expectations describe the same retirement.
pub open spec fn expectation_matches(a: CatalogSnapshotRetirementExpectation, b: CatalogSnapshotRetirementExpectation) -> bool {
    &&& a.scope == b.scope
    &&& a.coverage_plan_id == b.coverage_plan_id
    &&& selection_matches(a.selection, b.selection)
    &&& a.epoch == b.epoch
    &&& a.attempt == b.attempt
    &&& a.state_commit_seq == b.state_commit_seq
    &&& a.retired_prefix_len == b.retired_prefix_len
    &&& a.target_snapshot == b.target_snapshot
    &&& a.successor_snapshot == b.successor_snapshot
}

/// Whether two expectations describe the same retirement.
pub fn expectations_equal(a: &CatalogSnapshotRetirementExpectation, b: &CatalogSnapshotRetirementExpectation) -> (r: bool)
    ensures
        r == expectation_matches(*a, *b),
{
    a.scope == b.scope && a.coverage_plan_id.same(&b.coverage_plan_id) && selections_equal(&a.selection, &b.selection)
        && a.epoch == b.epoch && a.attempt == b.attempt && a.state_commit_seq == b.state_commit_seq
        && a.retired_prefix_len == b.retired_prefix_len && a.target_snapshot.same(&b.target_snapshot)
        && a.successor_snapshot.same(&b.successor_snapshot)
}

/// A stored digest column equals `d`: present, and exactly its bytes.
pub open spec fn column_is(v: Option<Vec<u8>>, d: Seq<u8>) -> bool {
    v matches Some(b) && b@ == d
}

fn column_equals(v: &Option<Vec<u8>>, d: &[u8; 32]) -> (r: bool)
    ensures
        r == column_is(*v, d@),
{
    match v {
        Some(b) => bytes_equal(b.as_slice(), d.as_slice()),
        None => false,
    }
}

/// The durable retirement row already stored for a target snapshot. Digest
/// columns are present only when they hold exactly 32 bytes.
#[derive(Debug, Clone, PartialEq, Eq)]
pub struct StoredRetirement {
    pub target_publication: Option<Vec<u8>>,
    pub target_content: Option<Vec<u8>>,
    pub successor_commit: i64,
    pub successor_publication: Option<Vec<u8>>,
    pub successor_content: Option<Vec<u8>>,
}

/// A stored counter that must be positive; anything else is corrupt state.
pub fn positive_u64(value: i64, label: &str) -> (r: Result<u64, EngineError>)
    ensures
        r is Ok <==> value > 0,
        r matches Ok(v) ==> v == value,
        r matches Err(e) ==> e is CorruptCatalogState,
{
    if value <= 0 {
        let mut message = String::new();
        crate::util::push_str(&mut message, label);
        crate::util::push_str(&mut message, " must be positive");
        return Err(EngineError::CorruptCatalogState(message));
    }
    Ok(value as u64)
}

/// The stored row records exactly the expected retirement.
pub open spec fn stored_matches(e: CatalogSnapshotRetirementExpectation, s: StoredRetirement) -> bool {
    &&& column_is(s.target_publication, e.target_snapshot.publication@)
    &&& column_is(s.target_content, e.target_snapshot.content@)
    &&& s.successor_commit > 0
    &&& s.successor_commit == e.successor_snapshot.snapshot.complete_commit
    &&& column_is(s.successor_publication, e.successor_snapshot.publication@)
    &&& column_is(s.successor_content, e.successor_snapshot.content@)
}

/// A stored row for the expected target whose successor commit is not a
/// positive counter: the durable state itself is damaged.
pub open spec fn stored_row_corrupt(e: CatalogSnapshotRetirementExpectation, s: StoredRetirement) -> bool {
    &&& column_is(s.target_publication, e.target_snapshot.publication@)
    &&& column_is(s.target_content, e.target_snapshot.content@)
    &&& s.successor_commit <= 0
}

/// Whether the expected retirement is already durable. A stored row for the
/// same target that records anything else is a conflict.
pub fn exact_retirement_exists(expected: &CatalogSnapshotRetirementExpectation, stored: &Option<StoredRetirement>) -> (r: Result<bool, EngineError>)
    ensures
        stored is None ==> r == Ok::<bool, EngineError>(false),
        stored matches Some(s) ==> (r is Ok <==> stored_matches(*expected, *s)),
        stored matches Some(s) ==> (r matches Ok(b) ==> b),
        r matches Err(e) ==> e is InvalidCommit || e is CorruptCatalogState,
        stored matches Some(s) ==> (r matches Err(e) ==> (e is CorruptCatalogState <==> stored_row_corrupt(*expected, *s))),
{
    let s = match stored {
        None => return Ok(false),
        Some(s) => s,
    };
    let target = expected.target();
    let successor = expected.successor();
    let mut exact = column_equals(&s.target_publication, &target.publication)
        && column_equals(&s.target_content, &target.content);
    if exact {
        let successor_commit = positive_u64(s.successor_commit, "catalog retirement successor")?;
        exact = successor_commit == successor.snapshot.complete_commit
            && column_equals(&s.successor_publication, &successor.publication)
            && column_equals(&s.successor_content, &successor.content);
    }
    if !exact {
        return Err(EngineError::InvalidCommit("catalog snapshot retirement conflicts with existing durable evidence".to_owned()));
    }
    Ok(true)
}

/// What applying a retirement command must do.
#[derive(Debug, Clone, Copy, PartialEq, Eq)]
pub enum RetirementStep {
    /// The exact retirement is already durable; nothing changes.
    AlreadyApplied,
    /// Record the retirement of `target` in favour of `successor`.
    Apply { target: CatalogRetainedSnapshotCommitment, successor: CatalogRetainedSnapshotCommitment },
}

/// Decide a retirement against the durable state: `stored` is the row
/// already recorded for the target, `current` the exact expectation the
/// current Ready lineage authorises.
pub fn plan_retirement(
    command: &CatalogSnapshotRetirementCommand,
    stored: &Option<StoredRetirement>,
    current: &CatalogSnapshotRetirementExpectation,
) -> (r: Result<RetirementStep, EngineError>)
    ensures
        r is Ok <==> {
            &&& expectation_valid(command.expected)
            &&& command.committed_at >= command.started_at
            &&& match *stored {
                Some(s) => stored_matches(command.expected, s),
                None => expectation_matches(*current, command.expected),
            }
        },
        r matches Ok(RetirementStep::AlreadyApplied) ==> stored is Some,
        r matches Ok(RetirementStep::Apply { target, successor }) ==> stored is None
            && target == command.expected.target_snapshot && successor == command.expected.successor_snapshot,
        r matches Err(e) ==> e is InvalidCommit || e is CorruptCatalogState,
        r matches Err(e) ==> (e is CorruptCatalogState <==> {
            &&& expectation_valid(command.expected)
            &&& command.committed_at >= command.started_at
            &&& *stored matches Some(s) && stored_row_corrupt(command.expected, s)
        }),
{
    command.expected.validate()?;
    if command.committed_at < command.started_at {
        return Err(EngineError::InvalidCommit("catalog retirement commit time must not precede its start".to_owned()));
    }
    if exact_retirement_exists(&command.expected, stored)? {
        return Ok(RetirementStep::AlreadyApplied);
    }
    if !expectations_equal(current, &command.expected) {
        return Err(EngineError::InvalidCommit(
            "catalog snapshot retirement differs from the exact current oldest-retained expectation".to_owned(),
        ));
    }
    Ok(RetirementStep::Apply { target: command.expected.target(), successor: command.expected.successor() })
}

/// Retiring the same exact command twice is idempotent: once its row is
/// durable, the replay changes nothing, whatever the current lineage says.
pub proof fn lemma_retirement_replay_is_idempotent(
    command: CatalogSnapshotRetirementCommand,
    s: StoredRetirement,
)
    requires
        expectation_valid(command.expected),
        command.committed_at >= command.started_at,
        s.target_publication matches Some(b) && b@ == command.expected.target_snapshot.publication@,
        s.target_content matches Some(b) && b@ == command.expected.target_snapshot.content@,
        s.successor_commit == command.expected.successor_snapshot.snapshot.complete_commit,
        s.successor_publication matches Some(b) && b@ == command.expected.successor_snapshot.publication@,
        s.successor_content matches Some(b) && b@ == command.expected.successor_snapshot.content@,
    ensures
        stored_matches(command.expected, s),
{
}

/// One row of the durable retirement prefix with its owning commit.
#[derive(Debug, Clone, PartialEq, Eq)]
pub struct RetirementRow {
    pub snapshot_commit: i64,
    pub snapshot_publication: Option<Vec<u8>>,
    pub snapshot_content: Option<Vec<u8>>,
    pub successor_commit: i64,
    pub successor_publication: Option<Vec<u8>>,
    pub successor_content: Option<Vec<u8>>,
    pub retirement_commit: i64,
    pub retired_at: i64,
    /// Whether the owning commit row exists.
    pub owner_exists: i64,
    pub owner_committed_at: Option<i64>,
    /// Whether the owning commit is a valid administrative retirement commit.
    pub owner_is_retirement_commit: bool,
}

/// Index of the first snapshot in `chain` completed at `commit`, or -1.
pub open spec fn first_with_commit(chain: Seq<CatalogRetainedSnapshotCommitment>, commit: int) -> int
    decreases chain.len(),
{
    if chain.len() == 0 {
        -1
    } else if chain[0].snapshot.complete_commit == commit {
        0
    } else {
        let i = first_with_commit(chain.drop_first(), commit);
        if i < 0 { -1 } else { i + 1 }
    }
}

/// Length of the leading run of `chain` completed before `commit`.
pub open spec fn prefix_before(chain: Seq<CatalogRetainedSnapshotCommitment>, commit: int) -> nat
    decreases chain.len(),
{
    if chain.len() == 0 || chain[0].snapshot.complete_commit >= commit {
        0
    } else {
        1 + prefix_before(chain.drop_first(), commit)
    }
}

/// A retirement row is the exact `i`th retirement of `chain`: it retires
/// `chain[i]`, names a later snapshot of the chain as successor, and was
/// committed after the successor, after the previous retirement, while the
/// successor was the current snapshot, by a valid administrative commit.
pub open spec fn retirement_row_ok(
    row: RetirementRow,
    chain: Seq<CatalogRetainedSnapshotCommitment>,
    i: int,
    previous: Option<int>,
) -> bool {
    let j = first_with_commit(chain, row.successor_commit as int);
    let k = prefix_before(chain, row.retirement_commit as int);
    &&& row.snapshot_commit > 0
    &&& column_is(row.snapshot_publication, chain[i].publication@)
    &&& column_is(row.snapshot_content, chain[i].content@)
    &&& row.snapshot_commit == chain[i].snapshot.complete_commit
    &&& row.successor_commit > 0
    &&& j >= 0
    &&& row.successor_commit > row.snapshot_commit
    &&& column_is(row.successor_publication, chain[j].publication@)
    &&& column_is(row.successor_content, chain[j].content@)
    &&& row.retirement_commit > 0
    &&& k > 0
    &&& chain[k - 1] == chain[j]
    &&& row.owner_exists == 1
    &&& row.retirement_commit > row.successor_commit
    &&& (previous matches Some(p) ==> p < row.retirement_commit)
    &&& row.owner_committed_at == Some(row.retired_at)
    &&& row.owner_is_retirement_commit
}

/// Most retirement rows a chain can carry: its non-current snapshots, within
/// the retained depth bound.
pub open spec fn retirement_bound(chain_len: nat) -> int {
    let non_current: int = if chain_len == 0 { 0 } else { chain_len - 1 };
    if non_current < MAX_RETAINED_REFRESH_LINEAGE_DEPTH { non_current } else { MAX_RETAINED_REFRESH_LINEAGE_DEPTH as int }
}

/// A retirement row retires exactly `chain[i]` and names a later snapshot of
/// the chain as its successor, at a positive retirement commit: every check
/// before the current-snapshot check holds.
pub open spec fn retirement_row_names_successor(
    row: RetirementRow,
    chain: Seq<CatalogRetainedSnapshotCommitment>,
    i: int,
) -> bool {
    let j = first_with_commit(chain, row.successor_commit as int);
    &&& row.snapshot_commit > 0
    &&& column_is(row.snapshot_publication, chain[i].publication@)
    &&& column_is(row.snapshot_content, chain[i].content@)
    &&& row.snapshot_commit == chain[i].snapshot.complete_commit
    &&& row.successor_commit > 0
    &&& j >= 0
    &&& row.successor_commit > row.snapshot_commit
    &&& column_is(row.successor_publication, chain[j].publication@)
    &&& column_is(row.successor_content, chain[j].content@)
    &&& row.retirement_commit > 0
}

/// The successor a retirement row names was the current snapshot at its
/// retirement commit.
pub open spec fn retirement_successor_current(row: RetirementRow, chain: Seq<CatalogRetainedSnapshotCommitment>) -> bool {
    let j = first_with_commit(chain, row.successor_commit as int);
    let k = prefix_before(chain, row.retirement_commit as int);
    k > 0 && chain[k - 1] == chain[j]
}

/// The rows before `n` are the exact canonical retirements of `chain`.
pub open spec fn retired_rows_ok(rows: Seq<RetirementRow>, chain: Seq<CatalogRetainedSnapshotCommitment>, n: int) -> bool {
    forall|i: int| 0 <= i < n ==> retirement_row_ok(#[trigger] rows[i], chain, i,
        if i == 0 { None } else { Some(rows[i - 1].retirement_commit as int) })
}

/// The retirement rows are the exact canonical prefix of the non-current
/// ancestry of `chain`.
pub open spec fn retired_prefix_valid(rows: Seq<RetirementRow>, chain: Seq<CatalogRetainedSnapshotCommitment>) -> bool {
    &&& (rows.len() == 0 || rows.len() < chain.len())
    &&& rows.len() <= MAX_RETAINED_REFRESH_LINEAGE_DEPTH
    &&& forall|i: int| 0 <= i < rows.len() ==> retirement_row_ok(#[trigger] rows[i], chain, i,
        if i == 0 { None } else { Some(rows[i - 1].retirement_commit as int) })
}

proof fn lemma_first_with_commit_bounds(chain: Seq<CatalogRetainedSnapshotCommitment>, commit: int)
    ensures
        -1 <= first_with_commit(chain, commit) < chain.len(),
        first_with_commit(chain, commit) >= 0 ==> chain[first_with_commit(chain, commit)].snapshot.complete_commit == commit,
    decreases chain.len(),
{
    if chain.len() > 0 && chain[0].snapshot.complete_commit != commit {
        lemma_first_with_commit_bounds(chain.drop_first(), commit);
    }
}

proof fn lemma_prefix_before_bounds(chain: Seq<CatalogRetainedSnapshotCommitment>, commit: int)
    ensures
        prefix_before(chain, commit) <= chain.len(),
    decreases chain.len(),
{
    if chain.len() > 0 && chain[0].snapshot.complete_commit < commit {
        lemma_prefix_before_bounds(chain.drop_first(), commit);
    }
}

/// Index of the first snapshot completed at `commit`, or -1.
fn find_with_commit(chain: &Vec<CatalogRetainedSnapshotCommitment>, commit: u64) -> (r: i64)
    requires
        chain@.len() <= MAX_RETAINED_REFRESH_LINEAGE_DEPTH + 1,
    ensures
        r == first_with_commit(chain@, commit as int),
{
    let mut i: usize = 0;
    assert(chain@.subrange(0, chain@.len() as int) =~= chain@);
    while i < chain.len()
        invariant
            i <= chain@.len(),
            chain@.len() <= MAX_RETAINED_REFRESH_LINEAGE_DEPTH + 1,
            first_with_commit(chain@, commit as int) == if first_with_commit(chain@.subrange(i as int, chain@.len() as int), commit as int) < 0 { -1 } else { first_with_commit(chain@.subrange(i as int, chain@.len() as int), commit as int) + i },
            forall|j: int| 0 <= j < i ==> chain@[j].snapshot.complete_commit != commit,
        decreases chain@.len() - i,
    {
        let ghost rest = chain@.subrange(i as int, chain@.len() as int);
        assert(rest.drop_first() =~= chain@.subrange(i + 1, chain@.len() as int));
        if chain[i].snapshot.complete_commit == commit {
            return i as i64;
        }
        i = i + 1;
    }
    assert(chain@.subrange(i as int, chain@.len() as int).len() == 0);
    -1
}

/// Length of the leading run of `chain` completed before `commit`.
fn count_before(chain: &Vec<CatalogRetainedSnapshotCommitment>, commit: u64) -> (r: usize)
    ensures
        r == prefix_before(chain@, commit as int),
{
    let mut i: usize = 0;
    assert(chain@.subrange(0, chain@.len() as int) =~= chain@);
    while i < chain.len()
        invariant
            i <= chain@.len(),
            prefix_before(chain@, commit as int) == i + prefix_before(chain@.subrange(i as int, chain@.len() as int), commit as int),
        decreases chain@.len() - i,
    {
        let ghost rest = chain@.subrange(i as int, chain@.len() as int);
        assert(rest.drop_first() =~= chain@.subrange(i + 1, chain@.len() as int));
        if chain[i].snapshot.complete_commit >= commit {
            return i;
        }
        i = i + 1;
    }
    assert(chain@.subrange(i as int, chain@.len() as int).len() == 0);
    i
}

fn corrupt(message: &str) -> (e: EngineError)
    ensures
        e matches EngineError::CorruptCatalogState(m) && m@ == message@,
{
    EngineError::CorruptCatalogState(message.to_owned())
}

/// A stored 32-byte digest column.
pub fn decode_digest(value: &Option<Vec<u8>>, label: &str) -> (r: Result<[u8; 32], EngineError>)
    ensures
        r is Ok <==> (value matches Some(b) && b@.len() == 32),
        r matches Ok(d) ==> value matches Some(b) && b@ == d@,
        r matches Err(e) ==> e is CorruptCatalogState,
{
    match value {
        None => Err(corrupt(label)),
        Some(b) => {
            if b.len() != 32 {
                return Err(corrupt(label));
            }
            let mut d = [0u8; 32];
            let mut i: usize = 0;
            while i < 32
                invariant
                    b@.len() == 32,
                    i <= 32,
                    forall|j: int| 0 <= j < i ==> d@[j] == b@[j],
                decreases 32 - i,
            {
                d[i] = b[i];
                i = i + 1;
            }
            assert(d@ =~= b@);
            Ok(d)
        },
    }
}

/// Validate the complete append-only retirement prefix against the exact
/// restart-authenticated snapshot chain and return its length.
pub fn validate_retired_prefix(
    rows: &Vec<RetirementRow>,
    chain: &Vec<CatalogRetainedSnapshotCommitment>,
) -> (r: Result<usize, EngineError>)
    requires
        chain@.len() <= MAX_RETAINED_REFRESH_LINEAGE_DEPTH + 1,
    ensures
        r is Ok <==> retired_prefix_valid(rows@, chain@),
        r matches Ok(n) ==> n == rows@.len(),
        r matches Err(e) ==> e is CorruptCatalogState,
        rows@.len() > retirement_bound(chain@.len()) && retired_rows_ok(rows@, chain@, retirement_bound(chain@.len()))
            ==> (r matches Err(e) && corrupt_with(e, "catalog retirement evidence exceeds the bounded non-current ancestry"@)),
        forall|i: int|
            0 <= i < rows@.len() && i < retirement_bound(chain@.len()) && retired_rows_ok(rows@, chain@, i)
                && retirement_row_names_successor(#[trigger] rows@[i], chain@, i)
                && !retirement_successor_current(rows@[i], chain@)
            ==> (r matches Err(e) && corrupt_with(e, "catalog retirement successor is not the exact current snapshot at its commit"@)),
{
    let mut retired: usize = 0;
    let mut previous: Option<u64> = None;
    let limit = if chain.len() == 0 { 0 } else { chain.len() - 1 };
    while retired < rows.len()
        invariant
            chain@.len() <= MAX_RETAINED_REFRESH_LINEAGE_DEPTH + 1,
            limit == if chain@.len() == 0 { 0 } else { chain@.len() - 1 },
            retired <= rows@.len(),
            retired <= limit,
            retired <= MAX_RETAINED_REFRESH_LINEAGE_DEPTH,
            forall|i: int| 0 <= i < retired ==> retirement_row_ok(#[trigger] rows@[i], chain@, i,
                if i == 0 { None } else { Some(rows@[i - 1].retirement_commit as int) }),
            retired == 0 ==> previous is None,
            retired > 0 ==> previous == Some(rows@[retired - 1].retirement_commit as u64) && rows@[retired - 1].retirement_commit > 0,
        decreases rows@.len() - retired,
    {
        if retired >= limit || retired >= MAX_RETAINED_REFRESH_LINEAGE_DEPTH {
            return Err(corrupt("catalog retirement evidence exceeds the bounded non-current ancestry"));
        }
        let row = &rows[retired];
        let target_commit = positive_u64(row.snapshot_commit, "retired catalog snapshot commit")?;
        let target = chain[retired];
        let target_publication = decode_digest(&row.snapshot_publication, "retired catalog publication digest")?;
        let target_content = decode_digest(&row.snapshot_content, "retired catalog content digest")?;
        if target_commit != target.snapshot.complete_commit
            || !crate::util::digest_equal(&target_publication, &target.publication)
            || !crate::util::digest_equal(&target_content, &target.content) {
            return Err(corrupt("catalog retirement rows are not the exact canonical oldest ancestry prefix"));
        }
        let successor_commit = positive_u64(row.successor_commit, "catalog retirement successor commit")?;
        let j = find_with_commit(chain, successor_commit);
        proof {
            lemma_first_with_commit_bounds(chain@, successor_commit as int);
        }
        if j < 0 {
            return Err(corrupt("catalog retirement successor is outside the current ancestry"));
        }
        let successor = chain[j as usize];
        if successor_commit <= target_commit {
            return Err(corrupt("catalog retirement successor commitment is invalid"));
        }
        let successor_publication = decode_digest(&row.successor_publication, "catalog retirement successor publication digest")?;
        let successor_content = decode_digest(&row.successor_content, "catalog retirement successor content digest")?;
        if !crate::util::digest_equal(&successor_publication, &successor.publication)
            || !crate::util::digest_equal(&successor_content, &successor.content) {
            return Err(corrupt("catalog retirement successor commitment is invalid"));
        }
        let retirement_commit = positive_u64(row.retirement_commit, "catalog retirement commit")?;
        let k = count_before(chain, retirement_commit);
        proof {
            lemma_prefix_before_bounds(chain@, retirement_commit as int);
        }
        if k == 0 || !chain[k - 1].same(&successor) {
            return Err(corrupt("catalog retirement successor is not the exact current snapshot at its commit"));
        }
        let previous_ok = match previous {
            Some(p) => p < retirement_commit,
            None => true,
        };
        let owner_time_ok = match row.owner_committed_at {
            Some(t) => t == row.retired_at,
            None => false,
        };
        if row.owner_exists != 1 || retirement_commit <= successor_commit || !previous_ok || !owner_time_ok {
            return Err(corrupt("catalog retirement commit lineage is invalid"));
        }
        if !row.owner_is_retirement_commit {
            return Err(corrupt("catalog retirement owner is not an administrative retirement commit"));
        }
        proof {
            assert(retirement_row_ok(rows@[retired as int], chain@, retired as int,
                if retired == 0 { None } else { Some(rows@[retired - 1].retirement_commit as int) }));
        }
        previous = Some(retirement_commit);
        retired = retired + 1;
    }
    Ok(retired)
}

/// A snapshot is served only while it is not durably retired.
pub fn ensure_snapshot_query_retained(retired: bool) -> (r: Result<(), EngineError>)
    ensures
        r is Ok <==> !retired,
        r matches Err(e) ==> e is InvalidCommit,
{
    if retired {
        return Err(EngineError::InvalidCommit("catalog snapshot is durably retired from query service".to_owned()));
    }
    Ok(())
}

} // verus!
