//! Engine-owned selected-session hydration scheduling.
//!
//! Query workers prepare immutable commands from one exact retained snapshot.
//! The scheduler state admits them to one bounded lane, replays and coalesces
//! requests for the engine's lifetime, and records which accepted work has
//! been asked to stop. Native locator authority never enters a command or a
//! receipt: every failure is reported as a closed, path-free machine code.
use vstd::prelude::*;
use crate::codec::{blake3_digest, blake3_hash, push_be64, push_bytes, be64};
use crate::digest_map::DigestMap;
use crate::error::EngineError;
use crate::snapshot::CatalogSnapshotId;
use crate::util::{digest_equal, str_equal};

verus! {

broadcast use vstd::seq::group_seq_axioms, vstd::array::group_array_axioms, vstd::set::group_set_axioms, vstd::map::group_map_axioms;

/// Requests (distinct request keys) the scheduler remembers for replay.
pub const MAX_RETAINED_HYDRATION_REQUESTS: usize = 4096;
/// Hydrations that may run at once.
pub const MAX_ACTIVE_HYDRATIONS: usize = 64;
pub const SOURCE_BUSY_RETRY_MILLIS: u32 = 250;
pub const SOURCE_CHANGED_RETRY_MILLIS: u32 = 100;
pub const SOURCE_UNAVAILABLE_RETRY_MILLIS: u32 = 1000;
pub const STORAGE_RETRY_MILLIS: u32 = 5000;
pub const INCOMPLETE_RETRY_MILLIS: u32 = 50;

/// Closed set of path-free failure codes a receipt may carry.
#[derive(Debug, Clone, Copy, PartialEq, Eq, Structural)]
pub enum HydrationFailureCode {
    SchedulerBusy,
    SchedulerUnavailable,
    SourceBusy,
    SourceChanged,
    SourceUnavailable,
    SourceIo,
    EngineStorage,
    InsufficientStorage,
    EngineStopping,
    StaleLocator,
    StaleAuthority,
    SourceConfiguration,
    RecordsQuarantined,
    DependencyDenied,
    HydrationIncomplete,
    HydrationFailed,
}

impl HydrationFailureCode {
    /// Wire text of the code.
    pub fn as_str(self) -> (r: &'static str)
        ensures
            r@ == failure_code_text(self),
    {
        match self {
            HydrationFailureCode::SchedulerBusy => "scheduler_busy",
            HydrationFailureCode::SchedulerUnavailable => "scheduler_unavailable",
            HydrationFailureCode::SourceBusy => "source_busy",
            HydrationFailureCode::SourceChanged => "source_changed",
            HydrationFailureCode::SourceUnavailable => "source_unavailable",
            HydrationFailureCode::SourceIo => "source_io",
            HydrationFailureCode::EngineStorage => "engine_storage",
            HydrationFailureCode::InsufficientStorage => "insufficient_storage",
            HydrationFailureCode::EngineStopping => "engine_stopping",
            HydrationFailureCode::StaleLocator => "stale_locator",
            HydrationFailureCode::StaleAuthority => "stale_authority",
            HydrationFailureCode::SourceConfiguration => "source_configuration",
            HydrationFailureCode::RecordsQuarantined => "records_quarantined",
            HydrationFailureCode::DependencyDenied => "dependency_denied",
            HydrationFailureCode::HydrationIncomplete => "hydration_incomplete",
            HydrationFailureCode::HydrationFailed => "hydration_failed",
        }
    }
}

/// Wire text of each failure code.
pub open spec fn failure_code_text(code: HydrationFailureCode) -> Seq<char> {
    match code {
        HydrationFailureCode::SchedulerBusy => "scheduler_busy"@,
        HydrationFailureCode::SchedulerUnavailable => "scheduler_unavailable"@,
        HydrationFailureCode::SourceBusy => "source_busy"@,
        HydrationFailureCode::SourceChanged => "source_changed"@,
        HydrationFailureCode::SourceUnavailable => "source_unavailable"@,
        HydrationFailureCode::SourceIo => "source_io"@,
        HydrationFailureCode::EngineStorage => "engine_storage"@,
        HydrationFailureCode::InsufficientStorage => "insufficient_storage"@,
        HydrationFailureCode::EngineStopping => "engine_stopping"@,
        HydrationFailureCode::StaleLocator => "stale_locator"@,
        HydrationFailureCode::StaleAuthority => "stale_authority"@,
        HydrationFailureCode::SourceConfiguration => "source_configuration"@,
        HydrationFailureCode::RecordsQuarantined => "records_quarantined"@,
        HydrationFailureCode::DependencyDenied => "dependency_denied"@,
        HydrationFailureCode::HydrationIncomplete => "hydration_incomplete"@,
        HydrationFailureCode::HydrationFailed => "hydration_failed"@,
    }
}

/// Whether a rejected request may be attempted again.
#[derive(Debug, Clone, Copy, PartialEq, Eq, Structural)]
pub enum CatalogHydrationFailureDisposition {
    Retryable,
    Terminal,
}

/// Why a hydration request was rejected.
#[derive(Debug, Clone, Copy, PartialEq, Eq)]
pub struct CatalogHydrationFailure {
    pub disposition: CatalogHydrationFailureDisposition,
    pub code: HydrationFailureCode,
    /// Suggested delay before a retry; only retryable failures carry one.
    pub retry_after_millis: Option<u32>,
}

/// What a scheduling receipt reports.
#[derive(Debug, Clone, Copy, PartialEq, Eq)]
pub enum CatalogHydrationSchedulingOutcome {
    /// This request owns newly dispatched work.
    Accepted,
    /// Identical work is already running under another accepted command.
    InProgress { active_command_id: [u8; 32], active_receipt_id: [u8; 32] },
    /// The selected object is already hydrated at this snapshot.
    AlreadySatisfied,
    Rejected { failure: CatalogHydrationFailure },
}

/// A retryable rejection carrying `code` and the suggested delay.
pub open spec fn retryable_spec(code: HydrationFailureCode, delay_millis: u32) -> CatalogHydrationSchedulingOutcome {
    CatalogHydrationSchedulingOutcome::Rejected {
        failure: CatalogHydrationFailure {
            disposition: CatalogHydrationFailureDisposition::Retryable,
            code,
            retry_after_millis: Some(delay_millis),
        },
    }
}

/// A terminal rejection carrying `code`.
pub open spec fn terminal_spec(code: HydrationFailureCode) -> CatalogHydrationSchedulingOutcome {
    CatalogHydrationSchedulingOutcome::Rejected {
        failure: CatalogHydrationFailure {
            disposition: CatalogHydrationFailureDisposition::Terminal,
            code,
            retry_after_millis: None,
        },
    }
}

pub fn retryable_outcome(code: HydrationFailureCode, delay_millis: u32) -> (r: CatalogHydrationSchedulingOutcome)
    ensures
        r == retryable_spec(code, delay_millis),
{
    CatalogHydrationSchedulingOutcome::Rejected {
        failure: CatalogHydrationFailure {
            disposition: CatalogHydrationFailureDisposition::Retryable,
            code,
            retry_after_millis: Some(delay_millis),
        },
    }
}

pub fn terminal_outcome(code: HydrationFailureCode) -> (r: CatalogHydrationSchedulingOutcome)
    ensures
        r == terminal_spec(code),
{
    CatalogHydrationSchedulingOutcome::Rejected {
        failure: CatalogHydrationFailure {
            disposition: CatalogHydrationFailureDisposition::Terminal,
            code,
            retry_after_millis: None,
        },
    }
}

/// A rejection that a new attempt may overturn.
pub open spec fn is_retryable(outcome: CatalogHydrationSchedulingOutcome) -> bool {
    outcome matches CatalogHydrationSchedulingOutcome::Rejected { failure }
        && failure.disposition == CatalogHydrationFailureDisposition::Retryable
}

/// A receipt that still depends on a running worker to finish.
pub open spec fn requires_worker(outcome: CatalogHydrationSchedulingOutcome) -> bool {
    outcome is Accepted || outcome is InProgress
}

pub fn is_retryable_rejection(outcome: &CatalogHydrationSchedulingOutcome) -> (r: bool)
    ensures
        r == is_retryable(*outcome),
{
    match outcome {
        CatalogHydrationSchedulingOutcome::Rejected { failure } => match failure.disposition {
            CatalogHydrationFailureDisposition::Retryable => true,
            CatalogHydrationFailureDisposition::Terminal => false,
        },
        _ => false,
    }
}

pub fn outcome_requires_worker(outcome: &CatalogHydrationSchedulingOutcome) -> (r: bool)
    ensures
        r == requires_worker(*outcome),
{
    match outcome {
        CatalogHydrationSchedulingOutcome::Accepted => true,
        CatalogHydrationSchedulingOutcome::InProgress { .. } => true,
        _ => false,
    }
}

/// Portable authority of a hydration command: which adapter and source
/// instance own the selected object. It carries no native locator.
#[derive(Debug, Clone, PartialEq, Eq)]
pub struct HydrationAuthorization {
    pub adapter_id: String,
    pub source_instance_id: u64,
    pub object_key: [u8; 32],
}

/// Immutable hydration work prepared from one retained snapshot.
#[derive(Debug, Clone, PartialEq, Eq)]
pub struct CatalogHydrationCommand {
    pub command_id: [u8; 32],
    /// Identity of the caller's request; replays use it.
    pub request_key: [u8; 32],
    /// Identity of the work; requests for the same work share it.
    pub coalescing_key: [u8; 32],
    pub snapshot_id: CatalogSnapshotId,
    pub authorization: HydrationAuthorization,
}

/// Two commands describe the same immutable work.
pub open spec fn same_command(a: CatalogHydrationCommand, b: CatalogHydrationCommand) -> bool {
    &&& a.command_id == b.command_id
    &&& a.request_key == b.request_key
    &&& a.coalescing_key == b.coalescing_key
    &&& a.snapshot_id == b.snapshot_id
    &&& a.authorization.adapter_id@ == b.authorization.adapter_id@
    &&& a.authorization.source_instance_id == b.authorization.source_instance_id
    &&& a.authorization.object_key == b.authorization.object_key
}

/// The identity part of a command that a coalesced follower is bound to.
#[derive(Debug, Clone, Copy, PartialEq, Eq)]
pub struct CatalogHydrationCommandBinding {
    pub command_id: [u8; 32],
    pub request_key: [u8; 32],
    pub coalescing_key: [u8; 32],
    pub snapshot_id: CatalogSnapshotId,
}

pub open spec fn binding_of(c: CatalogHydrationCommand) -> CatalogHydrationCommandBinding {
    CatalogHydrationCommandBinding {
        command_id: c.command_id,
        request_key: c.request_key,
        coalescing_key: c.coalescing_key,
        snapshot_id: c.snapshot_id,
    }
}

impl CatalogHydrationCommand {
    /// A copy of the command equal to it in every field.
    pub fn duplicate(&self) -> (r: Self)
        ensures
            r == *self,
    {
        CatalogHydrationCommand {
            command_id: self.command_id,
            request_key: self.request_key,
            coalescing_key: self.coalescing_key,
            snapshot_id: self.snapshot_id,
            authorization: HydrationAuthorization {
                adapter_id: self.authorization.adapter_id.clone(),
                source_instance_id: self.authorization.source_instance_id,
                object_key: self.authorization.object_key,
            },
        }
    }

    pub fn same_as(&self, other: &Self) -> (r: bool)
        ensures
            r == same_command(*self, *other),
    {
        digest_equal(&self.command_id, &other.command_id) && digest_equal(
            &self.request_key,
            &other.request_key,
        ) && digest_equal(&self.coalescing_key, &other.coalescing_key) && self.snapshot_id.same(
            &other.snapshot_id,
        ) && self.authorization.adapter_id == other.authorization.adapter_id
            && self.authorization.source_instance_id == other.authorization.source_instance_id
            && digest_equal(&self.authorization.object_key, &other.authorization.object_key)
    }

    pub fn binding(&self) -> (r: CatalogHydrationCommandBinding)
        ensures
            r == binding_of(*self),
    {
        CatalogHydrationCommandBinding {
            command_id: self.command_id,
            request_key: self.request_key,
            coalescing_key: self.coalescing_key,
            snapshot_id: self.snapshot_id,
        }
    }
}

/// Durable answer to one scheduling request.
#[derive(Debug, Clone, Copy, PartialEq, Eq)]
pub struct CatalogSchedulingReceipt {
    pub receipt_id: [u8; 32],
    pub command_id: [u8; 32],
    pub request_key: [u8; 32],
    pub coalescing_key: [u8; 32],
    /// Attempt number: 1 for the first, one more after each retryable rejection.
    pub attempt: u64,
    pub prior_receipt_id: Option<[u8; 32]>,
    pub emitted_at_commit: u64,
    pub outcome: CatalogHydrationSchedulingOutcome,
}

/// Attempt number of a receipt issued after `prior`.
pub open spec fn next_attempt(prior: Option<CatalogSchedulingReceipt>) -> int {
    match prior {
        None => 1,
        Some(p) => if is_retryable(p.outcome) { p.attempt + 1 } else { p.attempt as int },
    }
}

/// Byte tag of an outcome kind inside a receipt digest.
pub open spec fn outcome_tag(outcome: CatalogHydrationSchedulingOutcome) -> u8 {
    match outcome {
        CatalogHydrationSchedulingOutcome::Accepted => 1,
        CatalogHydrationSchedulingOutcome::InProgress { .. } => 2,
        CatalogHydrationSchedulingOutcome::AlreadySatisfied => 3,
        CatalogHydrationSchedulingOutcome::Rejected { failure } => match failure.disposition {
            CatalogHydrationFailureDisposition::Retryable => 4,
            CatalogHydrationFailureDisposition::Terminal => 5,
        },
    }
}

/// Canonical bytes a receipt id digests: the command, attempt, emission
/// commit, outcome kind and the prior receipt it continues.
pub open spec fn receipt_preimage(
    command_id: Seq<u8>,
    attempt: u64,
    emitted_at_commit: u64,
    tag: u8,
    prior: Option<[u8; 32]>,
) -> Seq<u8> {
    command_id + be64(attempt) + be64(emitted_at_commit) + seq![tag] + match prior {
        None => seq![0u8],
        Some(p) => seq![1u8] + p@,
    }
}

/// Inputs on which a receipt can be issued: it is not emitted before the
/// snapshot it is bound to, the attempt counter does not overflow, and a
/// prior receipt belongs to the same request.
pub open spec fn issue_ok(
    command: CatalogHydrationCommand,
    prior: Option<CatalogSchedulingReceipt>,
    emitted_at_commit: u64,
) -> bool {
    &&& emitted_at_commit >= command.snapshot_id.complete_commit
    &&& next_attempt(prior) <= u64::MAX
    &&& (prior matches Some(p) ==> p.request_key == command.request_key)
}

/// `r` is the receipt issued for `command` after `prior`.
pub open spec fn issued(
    r: CatalogSchedulingReceipt,
    command: CatalogHydrationCommand,
    prior: Option<CatalogSchedulingReceipt>,
    emitted_at_commit: u64,
    outcome: CatalogHydrationSchedulingOutcome,
) -> bool {
    &&& r.command_id == command.command_id
    &&& r.request_key == command.request_key
    &&& r.coalescing_key == command.coalescing_key
    &&& r.attempt == next_attempt(prior)
    &&& r.prior_receipt_id == (match prior {
        None => None,
        Some(p) => Some(p.receipt_id),
    })
    &&& r.emitted_at_commit == emitted_at_commit
    &&& r.outcome == outcome
    &&& r.receipt_id@ == blake3_digest(
        receipt_preimage(
            command.command_id@,
            r.attempt,
            emitted_at_commit,
            outcome_tag(outcome),
            r.prior_receipt_id,
        ),
    )
}

fn outcome_tag_of(outcome: &CatalogHydrationSchedulingOutcome) -> (r: u8)
    ensures
        r == outcome_tag(*outcome),
{
    match outcome {
        CatalogHydrationSchedulingOutcome::Accepted => 1,
        CatalogHydrationSchedulingOutcome::InProgress { .. } => 2,
        CatalogHydrationSchedulingOutcome::AlreadySatisfied => 3,
        CatalogHydrationSchedulingOutcome::Rejected { failure } => match failure.disposition {
            CatalogHydrationFailureDisposition::Retryable => 4,
            CatalogHydrationFailureDisposition::Terminal => 5,
        },
    }
}

/// Issue the receipt for `command` after `prior`.
pub fn issue_receipt(
    command: &CatalogHydrationCommand,
    prior: Option<CatalogSchedulingReceipt>,
    emitted_at_commit: u64,
    outcome: CatalogHydrationSchedulingOutcome,
) -> (r: Result<CatalogSchedulingReceipt, EngineError>)
    ensures
        r is Ok <==> issue_ok(*command, prior, emitted_at_commit),
        r matches Ok(x) ==> issued(x, *command, prior, emitted_at_commit, outcome),
        r matches Err(e) ==> e is ContractViolation,
{
    if emitted_at_commit < command.snapshot_id.complete_commit {
        return Err(
            EngineError::ContractViolation(
                String::from_str("hydration receipt precedes its snapshot"),
            ),
        );
    }
    let attempt: u64 = match prior {
        None => 1,
        Some(p) => {
            if !digest_equal(&p.request_key, &command.request_key) {
                return Err(
                    EngineError::ContractViolation(
                        String::from_str("hydration receipt continues another request"),
                    ),
                );
            }
            if is_retryable_rejection(&p.outcome) {
                if p.attempt == u64::MAX {
                    return Err(
                        EngineError::ContractViolation(
                            String::from_str("hydration attempt counter is exhausted"),
                        ),
                    );
                }
                p.attempt + 1
            } else {
                p.attempt
            }
        },
    };
    let prior_receipt_id: Option<[u8; 32]> = match prior {
        None => None,
        Some(p) => Some(p.receipt_id),
    };
    let tag = outcome_tag_of(&outcome);
    let mut preimage: Vec<u8> = Vec::new();
    push_bytes(&mut preimage, command.command_id.as_slice());
    push_be64(&mut preimage, attempt);
    push_be64(&mut preimage, emitted_at_commit);
    preimage.push(tag);
    match prior_receipt_id {
        None => preimage.push(0u8),
        Some(p) => {
            preimage.push(1u8);
            push_bytes(&mut preimage, p.as_slice());
        },
    }
    proof {
        let expected = receipt_preimage(
            command.command_id@,
            attempt,
            emitted_at_commit,
            tag,
            prior_receipt_id,
        );
        match prior_receipt_id {
            None => {},
            Some(p) => {},
        }
        assert(preimage@ =~= expected);
    }
    let receipt_id = blake3_hash(preimage.as_slice());
    Ok(
        CatalogSchedulingReceipt {
            receipt_id,
            command_id: command.command_id,
            request_key: command.request_key,
            coalescing_key: command.coalescing_key,
            attempt,
            prior_receipt_id,
            emitted_at_commit,
            outcome,
        },
    )
}

/// Accepted work that is currently running, with every request coalesced
/// onto it.
#[derive(Debug, Clone, PartialEq, Eq)]
pub struct ActiveHydration {
    pub command: CatalogHydrationCommand,
    pub accepted_receipt: CatalogSchedulingReceipt,
    pub request_keys: Vec<[u8; 32]>,
    /// Cancellation was requested for this work.
    pub cancel_requested: bool,
}

/// Binding a coalesced follower receives: the running command and the
/// receipt that accepted it.
#[derive(Debug, Clone, Copy, PartialEq, Eq)]
pub struct CatalogHydrationActiveScheduleBinding {
    pub command: CatalogHydrationCommandBinding,
    pub receipt: CatalogSchedulingReceipt,
}

/// Result of admitting one command.
#[derive(Debug, Clone, PartialEq, Eq)]
pub struct Admission {
    pub receipt: CatalogSchedulingReceipt,
    /// The caller must dispatch the command to the worker.
    pub execute: bool,
    /// The retryable receipt this acceptance continues, if any.
    pub prior_before_acceptance: Option<CatalogSchedulingReceipt>,
    pub active_schedule: Option<CatalogHydrationActiveScheduleBinding>,
}

/// What a replayed request answers without preparing new work.
#[derive(Debug, Clone, PartialEq, Eq)]
pub struct SchedulerReplay {
    pub command: CatalogHydrationCommand,
    pub receipt: CatalogSchedulingReceipt,
    pub active_schedule: Option<CatalogHydrationActiveScheduleBinding>,
    pub retryable: bool,
}

fn copy_keys(keys: &Vec<[u8; 32]>) -> (r: Vec<[u8; 32]>)
    ensures
        r@ == keys@,
{
    let mut out: Vec<[u8; 32]> = Vec::new();
    let mut i: usize = 0;
    while i < keys.len()
        invariant
            i <= keys@.len(),
            out@ == keys@.subrange(0, i as int),
        decreases keys@.len() - i,
    {
        out.push(keys[i]);
        i = i + 1;
        assert(out@ =~= keys@.subrange(0, i as int));
    }
    assert(keys@.subrange(0, keys@.len() as int) =~= keys@);
    out
}

/// Request keys after coalescing `rk` onto them (a set: no duplicates).
pub open spec fn keys_with(keys: Seq<[u8; 32]>, rk: [u8; 32]) -> Seq<[u8; 32]> {
    if keys.contains(rk) { keys } else { keys.push(rk) }
}


fn keys_contain(keys: &Vec<[u8; 32]>, k: &[u8; 32]) -> (r: bool)
    ensures
        r == keys@.contains(*k),
{
    let mut i: usize = 0;
    while i < keys.len()
        invariant
            i <= keys@.len(),
            forall|j: int| 0 <= j < i ==> keys@[j] != *k,
        decreases keys@.len() - i,
    {
        if digest_equal(&keys[i], k) {
            assert(keys@[i as int] == *k);
            return true;
        }
        i = i + 1;
    }
    false
}

/// The state maps did not change.
pub open spec fn state_unchanged(old: CatalogHydrationSchedulerState, new: CatalogHydrationSchedulerState) -> bool {
    &&& new.commands() == old.commands()
    &&& new.receipts() == old.receipts()
    &&& new.active() == old.active()
    &&& new.satisfied() == old.satisfied()
}

/// Outcome of admitting a command whose request may proceed to a new
/// receipt: already-satisfied work, coalescing onto running work, the busy
/// bound, or acceptance of new work.
pub open spec fn admitted(
    old: CatalogHydrationSchedulerState,
    new: CatalogHydrationSchedulerState,
    command: CatalogHydrationCommand,
    prior: Option<CatalogSchedulingReceipt>,
    emitted_at_commit: u64,
    r: Result<Admission, EngineError>,
) -> bool {
    let rk = command.request_key;
    let ck = command.coalescing_key;
    r matches Ok(a) && new.receipts() == old.receipts().insert(rk, a.receipt) && if old.satisfied().contains(ck) {
        &&& !a.execute
        &&& issued(a.receipt, command, prior, emitted_at_commit, CatalogHydrationSchedulingOutcome::AlreadySatisfied)
        &&& a.prior_before_acceptance is None
        &&& a.active_schedule is None
        &&& new.active() == old.active()
    } else if old.active().contains_key(ck) {
        let act = old.active()[ck];
        &&& !a.execute
        &&& issued(
            a.receipt,
            command,
            prior,
            emitted_at_commit,
            CatalogHydrationSchedulingOutcome::InProgress {
                active_command_id: act.command.command_id,
                active_receipt_id: act.accepted_receipt.receipt_id,
            },
        )
        &&& a.prior_before_acceptance is None
        &&& a.active_schedule == Some(CatalogHydrationActiveScheduleBinding {
            command: binding_of(act.command),
            receipt: act.accepted_receipt,
        })
        &&& active_entry_is(new.active(), ck, act.command, act.accepted_receipt, keys_with(act.request_keys@, rk), act.cancel_requested)
        &&& others_unchanged(old.active(), new.active(), ck)
    } else if old.active().len() >= MAX_ACTIVE_HYDRATIONS {
        &&& !a.execute
        &&& issued(a.receipt, command, prior, emitted_at_commit, retryable_spec(HydrationFailureCode::SchedulerBusy, SOURCE_BUSY_RETRY_MILLIS))
        &&& a.prior_before_acceptance is None
        &&& a.active_schedule is None
        &&& new.active() == old.active()
    } else {
        &&& a.execute
        &&& issued(a.receipt, command, prior, emitted_at_commit, CatalogHydrationSchedulingOutcome::Accepted)
        &&& a.prior_before_acceptance == prior
        &&& a.active_schedule is None
        &&& active_entry_is(new.active(), ck, command, a.receipt, seq![rk], false)
        &&& others_unchanged(old.active(), new.active(), ck)
    }
}

/// What admitting `command` at `emitted_at_commit` does.
///
/// A request key is bound forever to the command first admitted under it; a
/// replay of a request whose receipt is not a retryable rejection answers the
/// stored receipt and changes nothing; otherwise the request receives a new
/// receipt that reports satisfied work, coalesces onto identical running
/// work, reports the busy bound, or accepts new work.
pub open spec fn admit_post(
    old: CatalogHydrationSchedulerState,
    new: CatalogHydrationSchedulerState,
    command: CatalogHydrationCommand,
    emitted_at_commit: u64,
    r: Result<Admission, EngineError>,
) -> bool {
    let rk = command.request_key;
    let known = old.commands().contains_key(rk);
    if known && !same_command(old.commands()[rk], command) {
        r matches Err(EngineError::InvalidQuery(_)) && state_unchanged(old, new)
    } else if known && !old.receipts().contains_key(rk) {
        r matches Err(EngineError::InvalidCommit(_)) && state_unchanged(old, new)
    } else if known && !is_retryable(old.receipts()[rk].outcome) {
        &&& r matches Ok(a) && a.receipt == old.receipts()[rk] && !a.execute
            && a.prior_before_acceptance is None && a.active_schedule is None
        &&& state_unchanged(old, new)
    } else if !known && old.commands().len() >= MAX_RETAINED_HYDRATION_REQUESTS {
        r matches Err(EngineError::QueryQueueFull) && state_unchanged(old, new)
    } else {
        let prior = if known { Some(old.receipts()[rk]) } else { None };
        &&& new.commands() == (if known { old.commands() } else { old.commands().insert(rk, command) })
        &&& new.satisfied() == old.satisfied()
        &&& if !issue_ok(command, prior, emitted_at_commit) {
            &&& r matches Err(EngineError::ContractViolation(_))
            &&& new.receipts() == old.receipts()
            &&& new.active() == old.active()
        } else {
            admitted(old, new, command, prior, emitted_at_commit, r)
        }
    }
}

/// Every request coalesced onto `ck` still has its command and receipt, and a
/// completion receipt can be issued for each at `emitted_at_commit`.
pub open spec fn completion_ready(old: CatalogHydrationSchedulerState, ck: [u8; 32], emitted_at_commit: u64) -> bool {
    let keys = old.active()[ck].request_keys@;
    forall|i: int|
        0 <= i < keys.len() ==> {
            let k = #[trigger] keys[i];
            &&& old.commands().contains_key(k)
            &&& old.receipts().contains_key(k)
            &&& issue_ok(old.commands()[k], Some(old.receipts()[k]), emitted_at_commit)
        }
}

/// What completing the running work `ck` with `outcome` does: the work stops
/// running, every request coalesced onto it receives a completion receipt
/// continuing its previous one, and an already-satisfied outcome marks the
/// work satisfied for every later request.
pub open spec fn complete_post(
    old: CatalogHydrationSchedulerState,
    new: CatalogHydrationSchedulerState,
    ck: [u8; 32],
    emitted_at_commit: u64,
    outcome: CatalogHydrationSchedulingOutcome,
    r: Result<(), EngineError>,
) -> bool {
    if !old.active().contains_key(ck) {
        r matches Err(EngineError::InvalidCommit(_)) && state_unchanged(old, new)
    } else {
        let keys = old.active()[ck].request_keys@;
        &&& new.active() == old.active().remove(ck)
        &&& new.commands() == old.commands()
        &&& (r is Ok <==> completion_ready(old, ck, emitted_at_commit))
        &&& (r matches Err(e) ==> (e is InvalidCommit || e is ContractViolation))
        &&& if r is Ok {
            &&& new.receipts().dom() == old.receipts().dom()
            &&& forall|k: [u8; 32]|
                #[trigger] new.receipts().contains_key(k) && !keys.contains(k) ==> new.receipts()[k]
                    == old.receipts()[k]
            &&& forall|k: [u8; 32]|
                #[trigger] keys.contains(k) ==> issued(
                    new.receipts()[k],
                    old.commands()[k],
                    Some(old.receipts()[k]),
                    emitted_at_commit,
                    outcome,
                )
            &&& new.satisfied() == (if outcome is AlreadySatisfied {
                old.satisfied().insert(ck)
            } else {
                old.satisfied()
            })
        } else {
            &&& new.receipts() == old.receipts()
            &&& new.satisfied() == old.satisfied()
        }
    }
}

/// Running work whose cancellation `adapter` (all work when `None`) selects.
pub open spec fn cancel_selects(adapter: Option<Seq<char>>, a: ActiveHydration) -> bool {
    match adapter {
        None => true,
        Some(id) => a.command.authorization.adapter_id@ == id,
    }
}

/// Cancellation marks exactly the selected running work and keeps everything
/// else, including every retained command and receipt.
pub open spec fn cancel_post(
    old: CatalogHydrationSchedulerState,
    new: CatalogHydrationSchedulerState,
    adapter: Option<Seq<char>>,
) -> bool {
    &&& new.commands() == old.commands()
    &&& new.receipts() == old.receipts()
    &&& new.satisfied() == old.satisfied()
    &&& new.active().dom() == old.active().dom()
    &&& forall|ck: [u8; 32]|
        #[trigger] old.active().contains_key(ck) ==> {
            &&& new.active()[ck].command == old.active()[ck].command
            &&& new.active()[ck].accepted_receipt == old.active()[ck].accepted_receipt
            &&& new.active()[ck].request_keys@ == old.active()[ck].request_keys@
            &&& new.active()[ck].cancel_requested == (old.active()[ck].cancel_requested
                || cancel_selects(adapter, old.active()[ck]))
        }
}

/// Counters a hydration pass reports about what it reconciled.
#[derive(Debug, Clone, Copy, PartialEq, Eq, Default)]
pub struct ReconcileOutcome {
    pub objects_removed: u64,
    pub records_quarantined: u64,
    pub dependency_access_denials: u64,
    pub streams_unavailable: u64,
    pub retries_required: u64,
    pub incomplete_tail_retries: u64,
    pub backlog_remaining: u64,
}

/// The receipt outcome a finished hydration pass maps to. Only the kind of
/// failure matters; no detail text reaches the outcome.
pub open spec fn classify_spec(result: Result<ReconcileOutcome, EngineError>) -> CatalogHydrationSchedulingOutcome {
    match result {
        Ok(o) => if o.objects_removed > 0 {
            terminal_spec(HydrationFailureCode::SourceUnavailable)
        } else if o.records_quarantined > 0 {
            terminal_spec(HydrationFailureCode::RecordsQuarantined)
        } else if o.dependency_access_denials > 0 {
            terminal_spec(HydrationFailureCode::DependencyDenied)
        } else if o.streams_unavailable > 0 {
            retryable_spec(HydrationFailureCode::SourceUnavailable, SOURCE_UNAVAILABLE_RETRY_MILLIS)
        } else if o.retries_required > 0 || o.incomplete_tail_retries > 0 || o.backlog_remaining > 0 {
            retryable_spec(HydrationFailureCode::HydrationIncomplete, INCOMPLETE_RETRY_MILLIS)
        } else {
            CatalogHydrationSchedulingOutcome::AlreadySatisfied
        },
        Err(e) => match e {
            EngineError::ObservationBusy => retryable_spec(HydrationFailureCode::SourceBusy, SOURCE_BUSY_RETRY_MILLIS),
            EngineError::StaleSourceCursor => retryable_spec(HydrationFailureCode::SourceChanged, SOURCE_CHANGED_RETRY_MILLIS),
            EngineError::WorkerUnavailable { .. } => retryable_spec(
                HydrationFailureCode::SourceUnavailable,
                SOURCE_UNAVAILABLE_RETRY_MILLIS,
            ),
            EngineError::Sqlite { .. } => retryable_spec(HydrationFailureCode::EngineStorage, STORAGE_RETRY_MILLIS),
            EngineError::StorageCodec => retryable_spec(HydrationFailureCode::EngineStorage, STORAGE_RETRY_MILLIS),
            EngineError::InsufficientDiskSpace => retryable_spec(
                HydrationFailureCode::InsufficientStorage,
                STORAGE_RETRY_MILLIS,
            ),
            EngineError::QueryCancelled => retryable_spec(
                HydrationFailureCode::SourceUnavailable,
                SOURCE_UNAVAILABLE_RETRY_MILLIS,
            ),
            EngineError::ShuttingDown => retryable_spec(
                HydrationFailureCode::EngineStopping,
                SOURCE_UNAVAILABLE_RETRY_MILLIS,
            ),
            EngineError::Observation { operation, .. } => if operation@
                == "hydrate selected catalog object"@ {
                terminal_spec(HydrationFailureCode::StaleLocator)
            } else {
                retryable_spec(HydrationFailureCode::SourceIo, SOURCE_UNAVAILABLE_RETRY_MILLIS)
            },
            EngineError::InvalidQuery(_) => terminal_spec(HydrationFailureCode::StaleAuthority),
            EngineError::InvalidCommit(_) => terminal_spec(HydrationFailureCode::StaleAuthority),
            EngineError::InvalidConfig(_) => terminal_spec(HydrationFailureCode::SourceConfiguration),
            _ => terminal_spec(HydrationFailureCode::HydrationFailed),
        },
    }
}

/// A hydration pass that removed, quarantined, denied, missed and left
/// nothing: every counter it reports is zero.
pub open spec fn pass_clean(o: ReconcileOutcome) -> bool {
    &&& o.objects_removed == 0
    &&& o.records_quarantined == 0
    &&& o.dependency_access_denials == 0
    &&& o.streams_unavailable == 0
    &&& o.retries_required == 0
    &&& o.incomplete_tail_retries == 0
    &&& o.backlog_remaining == 0
}

/// A hydration pass that lost, quarantined, denied and missed nothing but
/// still left retries, an incomplete tail or a backlog behind.
pub open spec fn pass_left_work(o: ReconcileOutcome) -> bool {
    &&& o.objects_removed == 0
    &&& o.records_quarantined == 0
    &&& o.dependency_access_denials == 0
    &&& o.streams_unavailable == 0
    &&& (o.retries_required > 0 || o.incomplete_tail_retries > 0 || o.backlog_remaining > 0)
}

/// A finished pass is already satisfied exactly when all of its counters are
/// zero; it is incomplete, to be retried after the incomplete delay, exactly
/// when its only nonzero counters are retries, tail retries or backlog; and
/// no pass with a nonzero counter is reported satisfied.
pub proof fn lemma_pass_classification(o: ReconcileOutcome)
    ensures
        classify_spec(Ok(o)) == CatalogHydrationSchedulingOutcome::AlreadySatisfied <==> pass_clean(o),
        (classify_spec(Ok(o)) matches CatalogHydrationSchedulingOutcome::Rejected { failure }
            && failure.code == HydrationFailureCode::HydrationIncomplete) <==> pass_left_work(o),
        pass_left_work(o) ==> (classify_spec(Ok(o)) matches CatalogHydrationSchedulingOutcome::Rejected { failure }
            && failure.disposition == CatalogHydrationFailureDisposition::Retryable
            && failure.retry_after_millis == Some(INCOMPLETE_RETRY_MILLIS)),
        !pass_clean(o) ==> classify_spec(Ok(o)) is Rejected,
{
}

/// A rejection with exactly this disposition, code and suggested delay.
pub open spec fn rejection(
    disposition: CatalogHydrationFailureDisposition,
    code: HydrationFailureCode,
    retry_after_millis: Option<u32>,
) -> CatalogHydrationSchedulingOutcome {
    CatalogHydrationSchedulingOutcome::Rejected {
        failure: CatalogHydrationFailure { disposition, code, retry_after_millis },
    }
}

/// How a finished pass with a failure counter is rejected, in order of
/// precedence: removed objects make the source terminally unavailable,
/// quarantined records and denied dependencies are terminal, and
/// unavailable streams are retried after the source-unavailable delay.
pub proof fn lemma_pass_failures(o: ReconcileOutcome)
    ensures
        o.objects_removed > 0 ==> classify_spec(Ok(o)) == rejection(
            CatalogHydrationFailureDisposition::Terminal, HydrationFailureCode::SourceUnavailable, None),
        o.objects_removed == 0 && o.records_quarantined > 0 ==> classify_spec(Ok(o)) == rejection(
            CatalogHydrationFailureDisposition::Terminal, HydrationFailureCode::RecordsQuarantined, None),
        o.objects_removed == 0 && o.records_quarantined == 0 && o.dependency_access_denials > 0
            ==> classify_spec(Ok(o)) == rejection(
            CatalogHydrationFailureDisposition::Terminal, HydrationFailureCode::DependencyDenied, None),
        o.objects_removed == 0 && o.records_quarantined == 0 && o.dependency_access_denials == 0
            && o.streams_unavailable > 0 ==> classify_spec(Ok(o)) == rejection(
            CatalogHydrationFailureDisposition::Retryable, HydrationFailureCode::SourceUnavailable,
            Some(SOURCE_UNAVAILABLE_RETRY_MILLIS)),
{
}

/// How a failed pass is rejected by the kind of its error: busy, changed or
/// unreachable sources, storage failures, cancellation and shutdown are
/// retried after their delays; a stale locator, stale authority, bad
/// configuration and anything else are terminal. No failed pass is ever
/// satisfied, accepted or in progress.
pub proof fn lemma_error_classification(e: EngineError)
    ensures
        e is ObservationBusy ==> classify_spec(Err(e)) == rejection(
            CatalogHydrationFailureDisposition::Retryable, HydrationFailureCode::SourceBusy, Some(SOURCE_BUSY_RETRY_MILLIS)),
        e is StaleSourceCursor ==> classify_spec(Err(e)) == rejection(
            CatalogHydrationFailureDisposition::Retryable, HydrationFailureCode::SourceChanged,
            Some(SOURCE_CHANGED_RETRY_MILLIS)),
        e is WorkerUnavailable || e is QueryCancelled ==> classify_spec(Err(e)) == rejection(
            CatalogHydrationFailureDisposition::Retryable, HydrationFailureCode::SourceUnavailable,
            Some(SOURCE_UNAVAILABLE_RETRY_MILLIS)),
        e is Sqlite || e is StorageCodec ==> classify_spec(Err(e)) == rejection(
            CatalogHydrationFailureDisposition::Retryable, HydrationFailureCode::EngineStorage, Some(STORAGE_RETRY_MILLIS)),
        e is InsufficientDiskSpace ==> classify_spec(Err(e)) == rejection(
            CatalogHydrationFailureDisposition::Retryable, HydrationFailureCode::InsufficientStorage,
            Some(STORAGE_RETRY_MILLIS)),
        e is ShuttingDown ==> classify_spec(Err(e)) == rejection(
            CatalogHydrationFailureDisposition::Retryable, HydrationFailureCode::EngineStopping,
            Some(SOURCE_UNAVAILABLE_RETRY_MILLIS)),
        e matches EngineError::Observation { operation, .. } ==> classify_spec(Err(e)) == if operation@
            == "hydrate selected catalog object"@ {
            rejection(CatalogHydrationFailureDisposition::Terminal, HydrationFailureCode::StaleLocator, None)
        } else {
            rejection(CatalogHydrationFailureDisposition::Retryable, HydrationFailureCode::SourceIo,
                Some(SOURCE_UNAVAILABLE_RETRY_MILLIS))
        },
        e is InvalidQuery || e is InvalidCommit ==> classify_spec(Err(e)) == rejection(
            CatalogHydrationFailureDisposition::Terminal, HydrationFailureCode::StaleAuthority, None),
        e is InvalidConfig ==> classify_spec(Err(e)) == rejection(
            CatalogHydrationFailureDisposition::Terminal, HydrationFailureCode::SourceConfiguration, None),
        e is CorruptCatalogState || e is ContractViolation ==> classify_spec(Err(e)) == rejection(
            CatalogHydrationFailureDisposition::Terminal, HydrationFailureCode::HydrationFailed, None),
        classify_spec(Err(e)) is Rejected,
        classify_spec(Err(e)) matches CatalogHydrationSchedulingOutcome::Rejected { failure }
            ==> (failure.retry_after_millis is Some <==> failure.disposition == CatalogHydrationFailureDisposition::Retryable),
{
}

/// Map the result of executing a hydration to the closed receipt outcome.
pub fn classify_hydration_result(result: &Result<ReconcileOutcome, EngineError>) -> (r: CatalogHydrationSchedulingOutcome)
    ensures
        r == classify_spec(*result),
        *result matches Ok(o) ==> (r == CatalogHydrationSchedulingOutcome::AlreadySatisfied <==> pass_clean(o)),
        *result matches Ok(o) ==> (pass_left_work(o) <==> r == (CatalogHydrationSchedulingOutcome::Rejected {
            failure: CatalogHydrationFailure {
                disposition: CatalogHydrationFailureDisposition::Retryable,
                code: HydrationFailureCode::HydrationIncomplete,
                retry_after_millis: Some(INCOMPLETE_RETRY_MILLIS),
            },
        })),
{
    match result {
        Ok(o) => {
            if o.objects_removed > 0 {
                terminal_outcome(HydrationFailureCode::SourceUnavailable)
            } else if o.records_quarantined > 0 {
                terminal_outcome(HydrationFailureCode::RecordsQuarantined)
            } else if o.dependency_access_denials > 0 {
                terminal_outcome(HydrationFailureCode::DependencyDenied)
            } else if o.streams_unavailable > 0 {
                retryable_outcome(HydrationFailureCode::SourceUnavailable, SOURCE_UNAVAILABLE_RETRY_MILLIS)
            } else if o.retries_required > 0 || o.incomplete_tail_retries > 0 || o.backlog_remaining > 0 {
                retryable_outcome(HydrationFailureCode::HydrationIncomplete, INCOMPLETE_RETRY_MILLIS)
            } else {
                CatalogHydrationSchedulingOutcome::AlreadySatisfied
            }
        },
        Err(e) => match e {
            EngineError::ObservationBusy => retryable_outcome(HydrationFailureCode::SourceBusy, SOURCE_BUSY_RETRY_MILLIS),
            EngineError::StaleSourceCursor => retryable_outcome(
                HydrationFailureCode::SourceChanged,
                SOURCE_CHANGED_RETRY_MILLIS,
            ),
            EngineError::WorkerUnavailable { .. } => retryable_outcome(
                HydrationFailureCode::SourceUnavailable,
                SOURCE_UNAVAILABLE_RETRY_MILLIS,
            ),
            EngineError::Sqlite { .. } => retryable_outcome(HydrationFailureCode::EngineStorage, STORAGE_RETRY_MILLIS),
            EngineError::StorageCodec => retryable_outcome(HydrationFailureCode::EngineStorage, STORAGE_RETRY_MILLIS),
            EngineError::InsufficientDiskSpace => retryable_outcome(
                HydrationFailureCode::InsufficientStorage,
                STORAGE_RETRY_MILLIS,
            ),
            EngineError::QueryCancelled => retryable_outcome(
                HydrationFailureCode::SourceUnavailable,
                SOURCE_UNAVAILABLE_RETRY_MILLIS,
            ),
            EngineError::ShuttingDown => retryable_outcome(
                HydrationFailureCode::EngineStopping,
                SOURCE_UNAVAILABLE_RETRY_MILLIS,
            ),
            EngineError::Observation { operation, .. } => {
                if str_equal(operation, "hydrate selected catalog object") {
                    terminal_outcome(HydrationFailureCode::StaleLocator)
                } else {
                    retryable_outcome(HydrationFailureCode::SourceIo, SOURCE_UNAVAILABLE_RETRY_MILLIS)
                }
            },
            EngineError::InvalidQuery(_) => terminal_outcome(HydrationFailureCode::StaleAuthority),
            EngineError::InvalidCommit(_) => terminal_outcome(HydrationFailureCode::StaleAuthority),
            EngineError::InvalidConfig(_) => terminal_outcome(HydrationFailureCode::SourceConfiguration),
            _ => terminal_outcome(HydrationFailureCode::HydrationFailed),
        },
    }
}

/// Engine-lifetime scheduling state: every admitted command and its latest
/// receipt, running work by coalescing key, and work known to be satisfied.
pub struct CatalogHydrationSchedulerState {
    commands: DigestMap<CatalogHydrationCommand>,
    receipts: DigestMap<CatalogSchedulingReceipt>,
    active: DigestMap<ActiveHydration>,
    satisfied: DigestMap<bool>,
}

/// `new` is `old` with only `ck`'s running entry changed as described.
pub open spec fn active_entry_is(
    new: Map<[u8; 32], ActiveHydration>,
    ck: [u8; 32],
    command: CatalogHydrationCommand,
    accepted: CatalogSchedulingReceipt,
    keys: Seq<[u8; 32]>,
    cancel_requested: bool,
) -> bool {
    &&& new.contains_key(ck)
    &&& new[ck].command == command
    &&& new[ck].accepted_receipt == accepted
    &&& new[ck].request_keys@ == keys
    &&& new[ck].cancel_requested == cancel_requested
}

/// Every entry other than `ck` is unchanged and no entry was added or removed
/// except `ck`.
pub open spec fn others_unchanged<V>(old: Map<[u8; 32], V>, new: Map<[u8; 32], V>, ck: [u8; 32]) -> bool {
    &&& forall|k: [u8; 32]| k != ck ==> (#[trigger] new.contains_key(k) <==> old.contains_key(k))
    &&& forall|k: [u8; 32]| k != ck && #[trigger] old.contains_key(k) ==> new[k] == old[k]
}

impl CatalogHydrationSchedulerState {
    pub closed spec fn commands(&self) -> Map<[u8; 32], CatalogHydrationCommand> {
        self.commands@
    }

    pub closed spec fn receipts(&self) -> Map<[u8; 32], CatalogSchedulingReceipt> {
        self.receipts@
    }

    pub closed spec fn active(&self) -> Map<[u8; 32], ActiveHydration> {
        self.active@
    }

    pub closed spec fn satisfied(&self) -> Set<[u8; 32]> {
        self.satisfied@.dom()
    }

    /// The state's invariant: the retained and running sets stay within their
    /// bounds, and every command and receipt is stored under its own request
    /// key.
    pub closed spec fn inv(&self) -> bool {
        &&& self.commands.wf()
        &&& self.receipts.wf()
        &&& self.active.wf()
        &&& self.satisfied.wf()
        &&& self.commands@.len() <= MAX_RETAINED_HYDRATION_REQUESTS
        &&& self.active@.len() <= MAX_ACTIVE_HYDRATIONS
        &&& forall|k: [u8; 32]| #[trigger] self.commands@.contains_key(k) ==> self.commands@[k].request_key == k
        &&& forall|k: [u8; 32]| #[trigger] self.receipts@.contains_key(k) ==> self.receipts@[k].request_key == k
        &&& forall|k: [u8; 32]| #[trigger] self.active@.contains_key(k) ==> self.active@[k].command.coalescing_key == k
    }

    /// The bounds the invariant keeps.
    pub proof fn lemma_bounds(&self)
        requires
            self.inv(),
        ensures
            self.commands().len() <= MAX_RETAINED_HYDRATION_REQUESTS,
            self.active().len() <= MAX_ACTIVE_HYDRATIONS,
            self.commands().dom().finite(),
            self.active().dom().finite(),
            forall|k: [u8; 32]| #[trigger] self.receipts().contains_key(k) ==> self.receipts()[k].request_key == k,
            forall|k: [u8; 32]| #[trigger] self.commands().contains_key(k) ==> self.commands()[k].request_key == k,
    {
        self.commands.lemma_entries();
        self.active.lemma_entries();
    }

    pub fn new() -> (r: Self)
        ensures
            r.inv(),
            r.commands() == Map::<[u8; 32], CatalogHydrationCommand>::empty(),
            r.receipts() == Map::<[u8; 32], CatalogSchedulingReceipt>::empty(),
            r.active() == Map::<[u8; 32], ActiveHydration>::empty(),
            r.satisfied() == Set::<[u8; 32]>::empty(),
    {
        let r = CatalogHydrationSchedulerState {
            commands: DigestMap::new(),
            receipts: DigestMap::new(),
            active: DigestMap::new(),
            satisfied: DigestMap::new(),
        };
        proof {
            assert(r.satisfied() =~= Set::<[u8; 32]>::empty());
        }
        r
    }

    /// The latest receipt for a request.
    pub fn receipt_for(&self, request_key: &[u8; 32]) -> (r: Option<CatalogSchedulingReceipt>)
        requires
            self.inv(),
        ensures
            r is None <==> !self.receipts().contains_key(*request_key),
            r matches Some(x) ==> x == self.receipts()[*request_key],
    {
        match self.receipts.get(request_key) {
            Some(x) => Some(*x),
            None => None,
        }
    }

    /// The command admitted under a request key.
    pub fn command_for(&self, request_key: &[u8; 32]) -> (r: Option<CatalogHydrationCommand>)
        requires
            self.inv(),
        ensures
            r is None <==> !self.commands().contains_key(*request_key),
            r matches Some(x) ==> x == self.commands()[*request_key],
    {
        match self.commands.get(request_key) {
            Some(x) => Some(x.duplicate()),
            None => None,
        }
    }

    /// Number of running hydrations.
    pub fn active_len(&self) -> (r: usize)
        requires
            self.inv(),
        ensures
            r == self.active().len(),
    {
        self.active.len()
    }

    /// Whether cancellation was requested for the running work `coalescing_key`.
    pub fn is_cancel_requested(&self, coalescing_key: &[u8; 32]) -> (r: bool)
        requires
            self.inv(),
        ensures
            r == (self.active().contains_key(*coalescing_key)
                && self.active()[*coalescing_key].cancel_requested),
    {
        match self.active.get(coalescing_key) {
            Some(a) => a.cancel_requested,
            None => false,
        }
    }

    /// Admit one command to the bounded lane.
    pub fn admit_command(&mut self, command: &CatalogHydrationCommand, emitted_at_commit: u64) -> (r: Result<Admission, EngineError>)
        requires
            old(self).inv(),
        ensures
            final(self).inv(),
            admit_post(*old(self), *final(self), *command, emitted_at_commit, r),
    {
        proof {
            self.commands.lemma_entries();
            self.active.lemma_entries();
        }
        let rk = command.request_key;
        let ck = command.coalescing_key;
        let prior: Option<CatalogSchedulingReceipt>;
        match self.commands.get(&rk) {
            Some(existing) => {
                if !existing.same_as(command) {
                    return Err(
                        EngineError::InvalidQuery(
                            String::from_str(
                                "catalog hydration request key cannot retarget immutable work",
                            ),
                        ),
                    );
                }
                match self.receipts.get(&rk) {
                    None => {
                        return Err(
                            EngineError::InvalidCommit(
                                String::from_str(
                                    "catalog hydration replay lost its scheduling receipt",
                                ),
                            ),
                        );
                    },
                    Some(current) => {
                        let current = *current;
                        if !is_retryable_rejection(&current.outcome) {
                            return Ok(
                                Admission {
                                    receipt: current,
                                    execute: false,
                                    prior_before_acceptance: None,
                                    active_schedule: None,
                                },
                            );
                        }
                        prior = Some(current);
                    },
                }
            },
            None => {
                if self.commands.len() >= MAX_RETAINED_HYDRATION_REQUESTS {
                    return Err(EngineError::QueryQueueFull);
                }
                self.commands.insert(rk, command.duplicate());
                prior = None;
            },
        }
        proof {
            self.commands.lemma_entries();
        }

        if self.satisfied.contains_key(&ck) {
            let receipt = match issue_receipt(
                command,
                prior,
                emitted_at_commit,
                CatalogHydrationSchedulingOutcome::AlreadySatisfied,
            ) {
                Ok(x) => x,
                Err(e) => return Err(e),
            };
            self.receipts.insert(rk, receipt);
            return Ok(
                Admission {
                    receipt,
                    execute: false,
                    prior_before_acceptance: None,
                    active_schedule: None,
                },
            );
        }

        match self.active.get(&ck) {
            Some(act) => {
                let active_command_id = act.command.command_id;
                let accepted = act.accepted_receipt;
                let receipt = match issue_receipt(
                    command,
                    prior,
                    emitted_at_commit,
                    CatalogHydrationSchedulingOutcome::InProgress {
                        active_command_id,
                        active_receipt_id: accepted.receipt_id,
                    },
                ) {
                    Ok(x) => x,
                    Err(e) => return Err(e),
                };
                let ghost before = self.active@;
                let taken = self.active.remove(&ck);
                let mut act = match taken {
                    Some(v) => v,
                    None => {
                        proof {
                            assert(false);
                        }
                        return Err(EngineError::QueryQueueFull);
                    },
                };
                let ghost old_keys = act.request_keys@;
                if !keys_contain(&act.request_keys, &rk) {
                    act.request_keys.push(rk);
                }
                let binding = CatalogHydrationActiveScheduleBinding {
                    command: act.command.binding(),
                    receipt: act.accepted_receipt,
                };
                self.active.insert(ck, act);
                self.receipts.insert(rk, receipt);
                proof {
                    assert(self.active@ =~= before.insert(ck, self.active@[ck]));
                    assert(self.active@.dom() =~= before.dom());
                }
                return Ok(
                    Admission {
                        receipt,
                        execute: false,
                        prior_before_acceptance: None,
                        active_schedule: Some(binding),
                    },
                );
            },
            None => {},
        }

        if self.active.len() >= MAX_ACTIVE_HYDRATIONS {
            let receipt = match issue_receipt(
                command,
                prior,
                emitted_at_commit,
                retryable_outcome(HydrationFailureCode::SchedulerBusy, SOURCE_BUSY_RETRY_MILLIS),
            ) {
                Ok(x) => x,
                Err(e) => return Err(e),
            };
            self.receipts.insert(rk, receipt);
            return Ok(
                Admission {
                    receipt,
                    execute: false,
                    prior_before_acceptance: None,
                    active_schedule: None,
                },
            );
        }

        let accepted = match issue_receipt(
            command,
            prior,
            emitted_at_commit,
            CatalogHydrationSchedulingOutcome::Accepted,
        ) {
            Ok(x) => x,
            Err(e) => return Err(e),
        };
        let mut keys: Vec<[u8; 32]> = Vec::new();
        keys.push(rk);
        self.active.insert(
            ck,
            ActiveHydration {
                command: command.duplicate(),
                accepted_receipt: accepted,
                request_keys: keys,
                cancel_requested: false,
            },
        );
        self.receipts.insert(rk, accepted);
        proof {
            self.active.lemma_entries();
        }
        Ok(
            Admission {
                receipt: accepted,
                execute: true,
                prior_before_acceptance: prior,
                active_schedule: None,
            },
        )
    }

    /// Finish the running work `coalescing_key` with `outcome`.
    pub fn complete(
        &mut self,
        coalescing_key: &[u8; 32],
        emitted_at_commit: u64,
        outcome: CatalogHydrationSchedulingOutcome,
    ) -> (r: Result<(), EngineError>)
        requires
            old(self).inv(),
        ensures
            final(self).inv(),
            complete_post(*old(self), *final(self), *coalescing_key, emitted_at_commit, outcome, r),
    {
        let ghost s0 = *self;
        proof {
            self.active.lemma_entries();
        }
        let act = match self.active.remove(coalescing_key) {
            Some(a) => a,
            None => {
                proof {
                    assert(self.active@ =~= s0.active@);
                }
                return Err(
                    EngineError::InvalidCommit(
                        String::from_str(
                            "catalog hydration completion has no accepted active command",
                        ),
                    ),
                );
            },
        };
        proof {
            self.active.lemma_entries();
            assert(self.active@.dom() =~= s0.active@.dom().remove(*coalescing_key));
        }
        let ghost keys = act.request_keys@;
        let mut completed: Vec<([u8; 32], CatalogSchedulingReceipt)> = Vec::new();
        let mut i: usize = 0;
        while i < act.request_keys.len()
            invariant
                self.inv(),
                self.commands@ == s0.commands@,
                self.receipts@ == s0.receipts@,
                act.request_keys@ == keys,
                s0 == *old(self),
                s0.active@.contains_key(*coalescing_key),
                keys == s0.active@[*coalescing_key].request_keys@,
                self.active@ == s0.active@.remove(*coalescing_key),
                self.satisfied@ == s0.satisfied@,
                i <= keys.len(),
                completed@.len() == i,
                forall|j: int|
                    0 <= j < i ==> {
                        let k = #[trigger] keys[j];
                        &&& completed@[j].0 == k
                        &&& s0.commands@.contains_key(k)
                        &&& s0.receipts@.contains_key(k)
                        &&& issue_ok(s0.commands@[k], Some(s0.receipts@[k]), emitted_at_commit)
                        &&& issued(completed@[j].1, s0.commands@[k], Some(s0.receipts@[k]), emitted_at_commit, outcome)
                    },
            decreases keys.len() - i,
        {
            let rk = act.request_keys[i];
            proof {
                assert(keys[i as int] == rk);
            }
            let command = match self.commands.get(&rk) {
                Some(c) => c,
                None => {
                    proof {
                        assert(!completion_ready(s0, *coalescing_key, emitted_at_commit));
                        assert(self.active() == s0.active().remove(*coalescing_key));
                        assert(self.receipts() == s0.receipts());
                    }
                    return Err(
                        EngineError::InvalidCommit(
                            String::from_str(
                                "catalog hydration completion lost an admitted command",
                            ),
                        ),
                    );
                },
            };
            let prior = match self.receipts.get(&rk) {
                Some(p) => *p,
                None => {
                    return Err(
                        EngineError::InvalidCommit(
                            String::from_str(
                                "catalog hydration completion lost its prior receipt",
                            ),
                        ),
                    );
                },
            };
            let receipt = match issue_receipt(command, Some(prior), emitted_at_commit, outcome) {
                Ok(x) => x,
                Err(e) => return Err(e),
            };
            completed.push((rk, receipt));
            i = i + 1;
        }
        let mut j: usize = 0;
        while j < completed.len()
            invariant
                self.inv(),
                self.commands@ == s0.commands@,
                self.satisfied@ == s0.satisfied@,
                self.active@ == s0.active@.remove(*coalescing_key),
                completed@.len() == keys.len(),
                j <= keys.len(),
                self.receipts@.dom() == s0.receipts@.dom(),
                forall|m: int|
                    0 <= m < keys.len() ==> {
                        let k = #[trigger] keys[m];
                        &&& completed@[m].0 == k
                        &&& s0.commands@.contains_key(k)
                        &&& s0.receipts@.contains_key(k)
                        &&& issued(completed@[m].1, s0.commands@[k], Some(s0.receipts@[k]), emitted_at_commit, outcome)
                    },
                forall|m: int|
                    0 <= m < j ==> issued(
                        self.receipts@[#[trigger] keys[m]],
                        s0.commands@[keys[m]],
                        Some(s0.receipts@[keys[m]]),
                        emitted_at_commit,
                        outcome,
                    ),
                forall|k: [u8; 32]|
                    #[trigger] self.receipts@.contains_key(k) && !keys.subrange(0, j as int).contains(k)
                        ==> self.receipts@[k] == s0.receipts@[k],
            decreases keys.len() - j,
        {
            let (rk, receipt) = completed[j];
            proof {
                assert(completed@[j as int].0 == keys[j as int]);
            }
            let ghost before = self.receipts@;
            self.receipts.insert(rk, receipt);
            proof {
                assert(self.receipts@.dom() =~= before.dom());
                assert forall|k: [u8; 32]|
                    #[trigger] self.receipts@.contains_key(k) && !keys.subrange(0, j + 1).contains(k)
                        implies self.receipts@[k] == s0.receipts@[k] by {
                    assert(keys.subrange(0, j + 1)[j as int] == rk);
                    if keys.subrange(0, j as int).contains(k) {
                        let w = choose|w: int| 0 <= w < j && keys.subrange(0, j as int)[w] == k;
                        assert(keys.subrange(0, j + 1)[w] == k);
                    }
                }
            }
            j = j + 1;
        }
        let satisfied = match outcome {
            CatalogHydrationSchedulingOutcome::AlreadySatisfied => true,
            _ => false,
        };
        if satisfied {
            self.satisfied.insert(*coalescing_key, true);
        }
        proof {
            assert(keys.subrange(0, keys.len() as int) =~= keys);
            assert forall|k: [u8; 32]| #[trigger] keys.contains(k) implies issued(
                self.receipts@[k],
                s0.commands@[k],
                Some(s0.receipts@[k]),
                emitted_at_commit,
                outcome,
            ) by {
                let m = choose|m: int| 0 <= m < keys.len() && keys[m] == k;
                assert(issued(self.receipts@[keys[m]], s0.commands@[keys[m]], Some(s0.receipts@[keys[m]]), emitted_at_commit, outcome));
            }
            assert(self.satisfied() =~= (if outcome is AlreadySatisfied {
                s0.satisfied().insert(*coalescing_key)
            } else {
                s0.satisfied()
            }));
        }
        Ok(())
    }

    /// Record a retryable rejection for work that was accepted but could not
    /// be handed to the worker, and stop tracking it as running.
    pub fn reject_unpublished_admission(
        &mut self,
        command: &CatalogHydrationCommand,
        prior: Option<CatalogSchedulingReceipt>,
        emitted_at_commit: u64,
        failure_code: HydrationFailureCode,
    ) -> (r: Result<CatalogSchedulingReceipt, EngineError>)
        requires
            old(self).inv(),
        ensures
            final(self).inv(),
            final(self).active() == old(self).active().remove(command.coalescing_key),
            final(self).commands() == old(self).commands(),
            final(self).satisfied() == old(self).satisfied(),
            r is Ok <==> issue_ok(*command, prior, emitted_at_commit),
            r matches Ok(x) ==> issued(
                x,
                *command,
                prior,
                emitted_at_commit,
                retryable_spec(failure_code, SOURCE_UNAVAILABLE_RETRY_MILLIS),
            ) && final(self).receipts() == old(self).receipts().insert(command.request_key, x),
            r is Err ==> final(self).receipts() == old(self).receipts(),
    {
        proof {
            self.active.lemma_entries();
        }
        let ghost before = self.active@;
        let _ = self.active.remove(&command.coalescing_key);
        proof {
            self.active.lemma_entries();
            assert(self.active@.dom() =~= before.dom().remove(command.coalescing_key));
        }
        let receipt = match issue_receipt(
            command,
            prior,
            emitted_at_commit,
            retryable_outcome(failure_code, SOURCE_UNAVAILABLE_RETRY_MILLIS),
        ) {
            Ok(x) => x,
            Err(e) => return Err(e),
        };
        self.receipts.insert(command.request_key, receipt);
        Ok(receipt)
    }

    fn cancel_matching(&mut self, adapter_id: Option<&str>)
        requires
            old(self).inv(),
        ensures
            final(self).inv(),
            cancel_post(
                *old(self),
                *final(self),
                match adapter_id {
                    None => None,
                    Some(a) => Some(a@),
                },
            ),
    {
        let ghost s0 = *self;
        let ghost sel = match adapter_id {
            None => None,
            Some(a) => Some(a@),
        };
        proof {
            self.active.lemma_entries();
        }
        let n = self.active.len();
        let mut i: usize = 0;
        while i < n
            invariant
                self.inv(),
                n == s0.active.key_seq().len(),
                self.commands@ == s0.commands@,
                self.receipts@ == s0.receipts@,
                self.satisfied@ == s0.satisfied@,
                self.active.key_seq() == s0.active.key_seq(),
                self.active.value_seq().len() == n,
                sel == match adapter_id {
                    None => None,
                    Some(a) => Some(a@),
                },
                i <= n,
                forall|m: int|
                    i <= m < n ==> #[trigger] self.active.value_seq()[m] == s0.active.value_seq()[m],
                forall|m: int|
                    0 <= m < i ==> {
                        let a = #[trigger] self.active.value_seq()[m];
                        let b = s0.active.value_seq()[m];
                        &&& a.command == b.command
                        &&& a.accepted_receipt == b.accepted_receipt
                        &&& a.request_keys@ == b.request_keys@
                        &&& a.cancel_requested == (b.cancel_requested || cancel_selects(sel, b))
                    },
            decreases n - i,
        {
            let (_, act) = self.active.entry(i);
            let selected = match adapter_id {
                None => true,
                Some(a) => str_equal(act.command.authorization.adapter_id.as_str(), a),
            };
            if selected && !act.cancel_requested {
                let updated = ActiveHydration {
                    command: act.command.duplicate(),
                    accepted_receipt: act.accepted_receipt,
                    request_keys: copy_keys(&act.request_keys),
                    cancel_requested: true,
                };
                let ghost before = self.active@;
                let ghost k = self.active.key_seq()[i as int];
                proof {
                    self.active.lemma_entries();
                    assert(before.contains_key(k));
                }
                self.active.set_value(i, updated);
                proof {
                    assert(self.active@.dom() =~= before.dom());
                    assert forall|kk: [u8; 32]| #[trigger] self.active@.contains_key(kk) implies self.active@[kk].command.coalescing_key == kk by {
                        if kk != k {
                            assert(before.contains_key(kk));
                        }
                    }
                }
            }
            i = i + 1;
        }
        proof {
            self.active.lemma_entries();
            s0.active.lemma_entries();
            assert forall|k: [u8; 32]| #[trigger] self.active@.contains_key(k) <==> s0.active@.contains_key(k) by {
                if self.active@.contains_key(k) {
                    let m = choose|m: int| 0 <= m < n && self.active.key_seq()[m] == k;
                    assert(s0.active@.contains_key(s0.active.key_seq()[m]));
                }
                if s0.active@.contains_key(k) {
                    let m = choose|m: int| 0 <= m < n && s0.active.key_seq()[m] == k;
                    assert(self.active@.contains_key(self.active.key_seq()[m]));
                }
            }
            assert(self.active@.dom() =~= s0.active@.dom());
            assert forall|ck: [u8; 32]| #[trigger] s0.active@.contains_key(ck) implies {
                &&& self.active@[ck].command == s0.active@[ck].command
                &&& self.active@[ck].accepted_receipt == s0.active@[ck].accepted_receipt
                &&& self.active@[ck].request_keys@ == s0.active@[ck].request_keys@
                &&& self.active@[ck].cancel_requested == (s0.active@[ck].cancel_requested
                    || cancel_selects(sel, s0.active@[ck]))
            } by {
                let m = choose|m: int| 0 <= m < n && s0.active.key_seq()[m] == ck;
                assert(self.active@[self.active.key_seq()[m]] == self.active.value_seq()[m]);
            }
        }
    }

    /// Ask every running hydration owned by `adapter_id` to stop. Retained
    /// commands and receipts are kept for replay.
    pub fn cancel_adapter(&mut self, adapter_id: &str)
        requires
            old(self).inv(),
        ensures
            final(self).inv(),
            cancel_post(*old(self), *final(self), Some(adapter_id@)),
    {
        self.cancel_matching(Some(adapter_id));
    }

    /// Ask every running hydration to stop.
    pub fn cancel_all(&mut self)
        requires
            old(self).inv(),
        ensures
            final(self).inv(),
            cancel_post(*old(self), *final(self), None),
    {
        self.cancel_matching(None);
    }

    /// Answer a repeated request from retained state, without preparing new
    /// work. `worker_alive` says whether the hydration worker still runs.
    pub fn replay(&self, request_key: &[u8; 32], worker_alive: bool) -> (r: Result<Option<SchedulerReplay>, EngineError>)
        requires
            self.inv(),
        ensures
            !self.commands().contains_key(*request_key) ==> r matches Ok(None),
            self.commands().contains_key(*request_key) && !self.receipts().contains_key(*request_key)
                ==> r matches Err(EngineError::InvalidCommit(_)),
            self.commands().contains_key(*request_key) && self.receipts().contains_key(*request_key)
                ==> {
                let rc = self.receipts()[*request_key];
                if !worker_alive && requires_worker(rc.outcome) {
                    r matches Err(EngineError::WorkerUnavailable { .. })
                } else if rc.outcome is InProgress {
                    let live = self.active().contains_key(rc.coalescing_key)
                        && rc.outcome == (CatalogHydrationSchedulingOutcome::InProgress {
                            active_command_id: self.active()[rc.coalescing_key].command.command_id,
                            active_receipt_id: self.active()[rc.coalescing_key].accepted_receipt.receipt_id,
                        });
                    if live {
                        let act = self.active()[rc.coalescing_key];
                        r matches Ok(Some(x)) && x.command == self.commands()[*request_key]
                            && x.receipt == rc && !x.retryable && x.active_schedule == Some(
                            CatalogHydrationActiveScheduleBinding {
                                command: binding_of(act.command),
                                receipt: act.accepted_receipt,
                            },
                        )
                    } else {
                        r matches Err(EngineError::InvalidCommit(_))
                    }
                } else {
                    r matches Ok(Some(x)) && x.command == self.commands()[*request_key]
                        && x.receipt == rc && x.retryable == is_retryable(rc.outcome)
                        && x.active_schedule is None
                }
            },
    {
        let command = match self.commands.get(request_key) {
            Some(c) => c,
            None => return Ok(None),
        };
        let receipt = match self.receipts.get(request_key) {
            Some(x) => *x,
            None => {
                return Err(
                    EngineError::InvalidCommit(
                        String::from_str("catalog hydration replay lost its scheduling receipt"),
                    ),
                );
            },
        };
        if !worker_alive && outcome_requires_worker(&receipt.outcome) {
            return Err(EngineError::WorkerUnavailable { worker: "catalog hydration" });
        }
        let active_schedule = match receipt.outcome {
            CatalogHydrationSchedulingOutcome::InProgress { active_command_id, active_receipt_id } => {
                let act = match self.active.get(&receipt.coalescing_key) {
                    Some(a) => a,
                    None => {
                        return Err(
                            EngineError::InvalidCommit(
                                String::from_str(
                                    "catalog hydration replay lost its active coalescing context",
                                ),
                            ),
                        );
                    },
                };
                if !digest_equal(&act.command.command_id, &active_command_id) || !digest_equal(
                    &act.accepted_receipt.receipt_id,
                    &active_receipt_id,
                ) {
                    return Err(
                        EngineError::InvalidCommit(
                            String::from_str(
                                "catalog hydration replay active context differs from its receipt",
                            ),
                        ),
                    );
                }
                Some(
                    CatalogHydrationActiveScheduleBinding {
                        command: act.command.binding(),
                        receipt: act.accepted_receipt,
                    },
                )
            },
            _ => None,
        };
        Ok(
            Some(
                SchedulerReplay {
                    command: command.duplicate(),
                    receipt,
                    active_schedule,
                    retryable: is_retryable_rejection(&receipt.outcome),
                },
            ),
        )
    }
}

/// A terminal completion is sticky: once running work completes with a
/// non-retryable outcome, re-admitting any request that was coalesced onto it
/// answers that request's completion receipt, executes nothing and changes
/// nothing.
pub proof fn lemma_terminal_completion_is_sticky(
    s0: CatalogHydrationSchedulerState,
    s1: CatalogHydrationSchedulerState,
    s2: CatalogHydrationSchedulerState,
    ck: [u8; 32],
    emitted: u64,
    outcome: CatalogHydrationSchedulingOutcome,
    command: CatalogHydrationCommand,
    later: u64,
    r: Result<Admission, EngineError>,
)
    requires
        s0.active().contains_key(ck),
        complete_post(s0, s1, ck, emitted, outcome, Ok(())),
        !is_retryable(outcome),
        s0.active()[ck].request_keys@.contains(command.request_key),
        same_command(s1.commands()[command.request_key], command),
        admit_post(s1, s2, command, later, r),
    ensures
        r matches Ok(a) && !a.execute && a.receipt == s1.receipts()[command.request_key]
            && a.receipt.outcome == outcome,
        state_unchanged(s1, s2),
{
    let rk = command.request_key;
    let keys = s0.active()[ck].request_keys@;
    let i = choose|i: int| 0 <= i < keys.len() && keys[i] == rk;
    assert(keys[i] == rk);
    assert(s0.receipts().contains_key(rk));
    assert(issued(s1.receipts()[rk], s0.commands()[rk], Some(s0.receipts()[rk]), emitted, outcome));
}

/// A retryable completion requires a new attempt: re-admitting a request
/// that was coalesced onto work which completed with a retryable outcome
/// executes again as the next attempt, continuing the completion receipt,
/// when the work is neither satisfied nor blocked by the busy bound.
pub proof fn lemma_retryable_completion_starts_a_new_attempt(
    s0: CatalogHydrationSchedulerState,
    s1: CatalogHydrationSchedulerState,
    s2: CatalogHydrationSchedulerState,
    emitted: u64,
    outcome: CatalogHydrationSchedulingOutcome,
    command: CatalogHydrationCommand,
    later: u64,
    r: Result<Admission, EngineError>,
)
    requires
        s0.inv(),
        s1.inv(),
        s0.active().contains_key(command.coalescing_key),
        complete_post(s0, s1, command.coalescing_key, emitted, outcome, Ok(())),
        is_retryable(outcome),
        s0.active()[command.coalescing_key].request_keys@.contains(command.request_key),
        same_command(s1.commands()[command.request_key], command),
        !s1.satisfied().contains(command.coalescing_key),
        s1.active().len() < MAX_ACTIVE_HYDRATIONS,
        issue_ok(command, Some(s1.receipts()[command.request_key]), later),
        admit_post(s1, s2, command, later, r),
    ensures
        r matches Ok(a) && a.execute && a.receipt.outcome is Accepted
            && a.receipt.attempt == s1.receipts()[command.request_key].attempt + 1
            && a.receipt.prior_receipt_id == Some(s1.receipts()[command.request_key].receipt_id),
{
    let rk = command.request_key;
    let ck = command.coalescing_key;
    let keys = s0.active()[ck].request_keys@;
    let i = choose|i: int| 0 <= i < keys.len() && keys[i] == rk;
    assert(keys[i] == rk);
    assert(s0.receipts().contains_key(rk));
    assert(issued(s1.receipts()[rk], s0.commands()[rk], Some(s0.receipts()[rk]), emitted, outcome));
    assert(!s1.active().contains_key(ck));
}

/// Satisfied work is never executed again: admitting any command whose
/// coalescing key is satisfied never asks for execution.
pub proof fn lemma_satisfied_work_never_executes(
    s1: CatalogHydrationSchedulerState,
    s2: CatalogHydrationSchedulerState,
    command: CatalogHydrationCommand,
    later: u64,
    r: Result<Admission, EngineError>,
)
    requires
        s1.satisfied().contains(command.coalescing_key),
        admit_post(s1, s2, command, later, r),
    ensures
        r matches Ok(a) ==> !a.execute,
{
}

/// Every operation keeps satisfied work satisfied.
pub proof fn lemma_satisfied_is_monotone(
    s0: CatalogHydrationSchedulerState,
    s1: CatalogHydrationSchedulerState,
    command: CatalogHydrationCommand,
    ck: [u8; 32],
    emitted: u64,
    outcome: CatalogHydrationSchedulingOutcome,
    ra: Result<Admission, EngineError>,
    rc: Result<(), EngineError>,
)
    ensures
        admit_post(s0, s1, command, emitted, ra) ==> s0.satisfied().subset_of(s1.satisfied()),
        complete_post(s0, s1, ck, emitted, outcome, rc) ==> s0.satisfied().subset_of(s1.satisfied()),
{
}

} // verus!
