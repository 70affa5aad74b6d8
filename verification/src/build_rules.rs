//! Catalog build orchestration rules: which configured source sets are
//! acceptable, which negotiated contract selection a build runs under, and
//! whether a prepared build publishes an initial snapshot, refreshes, or
//! retains the last complete publication.
use vstd::prelude::*;
use crate::catalog::{valid_adapter_id, is_valid_adapter_id};
use crate::error::EngineError;
use crate::retention::{selection_matches, selections_equal};
use crate::snapshot::{CatalogCoveragePlanId, ContractVersionSelection, FactFamilyVersion};
use crate::util::{compare_bytes, lex_lt, lemma_lex_total, lemma_lex_transitive, ByteOrder};
use vstd::string::StringSliceAdditionalSpecFns;
use vstd::utf8::encode_utf8;

verus! {

broadcast use vstd::seq::group_seq_axioms;

/// One configured catalog source: an adapter, the roots it was configured
/// with, and the digest of the access policy that governs it.
#[derive(Debug, Clone, PartialEq, Eq)]
pub struct CatalogConfiguredSource {
    pub adapter_id: String,
    pub configured_roots: Vec<String>,
    pub access_policy_digest: [u8; 32],
}

impl CatalogConfiguredSource {
    pub fn new(adapter_id: String, configured_roots: Vec<String>, access_policy_digest: [u8; 32]) -> (r: Self)
        ensures
            r.adapter_id == adapter_id,
            r.configured_roots == configured_roots,
            r.access_policy_digest == access_policy_digest,
    {
        CatalogConfiguredSource { adapter_id, configured_roots, access_policy_digest }
    }

    pub fn adapter_id(&self) -> (r: &str)
        ensures
            r@ == self.adapter_id@,
    {
        self.adapter_id.as_str()
    }
}

/// Why a build runs.
#[derive(Debug, Clone, Copy, PartialEq, Eq, Structural)]
pub enum CatalogBuildIntent {
    Startup,
    Refresh,
}

/// Which kind of snapshot a build published.
#[derive(Debug, Clone, Copy, PartialEq, Eq, Structural)]
pub enum CatalogPublicationKind {
    Initial,
    Refresh,
}

/// What a build did.
#[derive(Debug, Clone, PartialEq, Eq)]
pub enum CatalogBuildOutcome {
    /// Every instance is registered, but at least one configured adapter has
    /// no promoted catalog authority. No catalog source object was read.
    AuthorizationUnavailable { adapter_ids: Vec<String> },
    /// Startup retained the last complete publication without consuming
    /// native catalog sources.
    LastCompleteRetained,
    Published { kind: CatalogPublicationKind, commit_seq: Option<u64>, source_count: usize, member_count: usize },
}

/// Durable readiness phase of the catalog build lineage.
#[derive(Debug, Clone, Copy, PartialEq, Eq, Structural)]
pub enum CatalogReadinessPhase {
    Pending,
    Building,
    Partial,
    Ready,
    Degraded,
    Error,
}

/// Scheduling priority of the source pass a build holds.
#[derive(Debug, Clone, Copy, PartialEq, Eq, Structural)]
pub enum IngestPriority {
    Backfill,
    ForegroundRepair,
}

/// A startup build runs as backfill; an explicit refresh as foreground
/// repair.
pub fn source_pass_priority(intent: CatalogBuildIntent) -> (r: IngestPriority)
    ensures
        r == match intent {
            CatalogBuildIntent::Startup => IngestPriority::Backfill,
            CatalogBuildIntent::Refresh => IngestPriority::ForegroundRepair,
        },
{
    match intent {
        CatalogBuildIntent::Startup => IngestPriority::Backfill,
        CatalogBuildIntent::Refresh => IngestPriority::ForegroundRepair,
    }
}

/// A cancelled build stops with `QueryCancelled`.
pub fn check_cancelled(cancelled: bool) -> (r: Result<(), EngineError>)
    ensures
        r is Ok <==> !cancelled,
        r matches Err(e) ==> e is QueryCancelled,
{
    if cancelled {
        Err(EngineError::QueryCancelled)
    } else {
        Ok(())
    }
}

/// No two configured sources name the same adapter.
pub open spec fn adapters_distinct(s: Seq<CatalogConfiguredSource>) -> bool {
    forall|i: int, j: int| 0 <= i < j < s.len() ==> (#[trigger] s[i]).adapter_id@ != (#[trigger] s[j]).adapter_id@
}

/// A configured source set is acceptable: non-empty, every adapter id a
/// valid identifier, and no adapter configured twice.
pub open spec fn configured_sources_ok(s: Seq<CatalogConfiguredSource>) -> bool {
    &&& s.len() > 0
    &&& forall|i: int| 0 <= i < s.len() ==> valid_adapter_id((#[trigger] s[i]).adapter_id@)
    &&& adapters_distinct(s)
}

fn invalid_config(message: &str) -> (e: EngineError)
    ensures
        e matches EngineError::InvalidConfig(m) && m@ == message@,
{
    EngineError::InvalidConfig(message.to_owned())
}

/// Validate the configured source set before anything is registered.
pub fn validate_configured_sources(configured: &Vec<CatalogConfiguredSource>, cancelled: bool) -> (r: Result<(), EngineError>)
    ensures
        r is Ok <==> !cancelled && configured_sources_ok(configured@),
        r matches Err(e) ==> (if cancelled { e is QueryCancelled } else { e is InvalidConfig }),
{
    check_cancelled(cancelled)?;
    if configured.len() == 0 {
        return Err(invalid_config("catalog build requires at least one configured source"));
    }
    let mut i: usize = 0;
    while i < configured.len()
        invariant
            !cancelled,
            i <= configured@.len(),
            forall|k: int| 0 <= k < i ==> valid_adapter_id((#[trigger] configured@[k]).adapter_id@),
            adapters_distinct(configured@.take(i as int)),
        decreases configured@.len() - i,
    {
        let id = configured[i].adapter_id.as_str();
        if !is_valid_adapter_id(id) {
            return Err(invalid_config("catalog build contains an invalid adapter id"));
        }
        let mut j: usize = 0;
        while j < i
            invariant
                !cancelled,
                j <= i < configured@.len(),
                id@ == configured@[i as int].adapter_id@,
                forall|k: int| 0 <= k < j ==> configured@[k].adapter_id@ != id@,
            decreases i - j,
        {
            if crate::util::str_equal(configured[j].adapter_id.as_str(), id) {
                proof {
                    assert(configured@[j as int].adapter_id@ == id@);
                }
                return Err(invalid_config("catalog build contains a duplicate configured adapter"));
            }
            j = j + 1;
        }
        proof {
            let t = configured@.take(i as int + 1);
            assert forall|a: int, b: int| 0 <= a < b < t.len() implies (#[trigger] t[a]).adapter_id@ != (#[trigger] t[b]).adapter_id@ by {
                if b < i {
                    assert(configured@.take(i as int)[a] == t[a]);
                    assert(configured@.take(i as int)[b] == t[b]);
                }
            }
        }
        i = i + 1;
    }
    assert(configured@.take(configured@.len() as int) =~= configured@);
    Ok(())
}

/// Durable state a prepared build resumes from.
#[derive(Debug, Clone, Copy, PartialEq, Eq, Structural)]
pub struct DurableBuildReadiness {
    pub phase: CatalogReadinessPhase,
    /// A complete snapshot has been published in this lineage.
    pub has_last_complete_snapshot: bool,
    /// A refresh from a complete snapshot is in progress.
    pub refreshing: bool,
}

/// What a prepared build must do.
#[derive(Debug, Clone, Copy, PartialEq, Eq, Structural)]
pub enum PublishAction {
    PublishInitial,
    PublishRefresh,
    RetainLastComplete,
}

/// The resume table: no lineage or a pending one publishes an initial
/// snapshot; a building lineage refreshes when it has a complete snapshot;
/// startup keeps a Ready lineage unless a refresh is in progress, keeps a
/// Degraded one, and keeps an Error one that has a complete snapshot; an
/// explicit refresh always publishes; a partial lineage cannot resume.
pub open spec fn publish_action_of(state: Option<DurableBuildReadiness>, intent: CatalogBuildIntent) -> Option<PublishAction> {
    match state {
        None => Some(PublishAction::PublishInitial),
        Some(s) => match s.phase {
            CatalogReadinessPhase::Pending => Some(PublishAction::PublishInitial),
            CatalogReadinessPhase::Building => if s.has_last_complete_snapshot {
                Some(PublishAction::PublishRefresh)
            } else {
                Some(PublishAction::PublishInitial)
            },
            CatalogReadinessPhase::Ready => if intent == CatalogBuildIntent::Startup && !s.refreshing {
                Some(PublishAction::RetainLastComplete)
            } else {
                Some(PublishAction::PublishRefresh)
            },
            CatalogReadinessPhase::Error => if intent == CatalogBuildIntent::Startup && s.has_last_complete_snapshot {
                Some(PublishAction::RetainLastComplete)
            } else if !s.has_last_complete_snapshot {
                Some(PublishAction::PublishInitial)
            } else {
                Some(PublishAction::PublishRefresh)
            },
            CatalogReadinessPhase::Degraded => if intent == CatalogBuildIntent::Startup {
                Some(PublishAction::RetainLastComplete)
            } else {
                Some(PublishAction::PublishRefresh)
            },
            CatalogReadinessPhase::Partial => None,
        },
    }
}

/// Decide how a prepared build proceeds from the durable state. A build
/// whose frozen plan differs from the durable plan is refused.
pub fn publish_action(state: Option<DurableBuildReadiness>, plan_matches: bool, intent: CatalogBuildIntent) -> (r: Result<PublishAction, EngineError>)
    ensures
        state is Some && !plan_matches ==> r is Err,
        !(state is Some && !plan_matches) ==> match publish_action_of(state, intent) {
            Some(a) => r == Ok::<PublishAction, EngineError>(a),
            None => r is Err,
        },
        r matches Err(e) ==> e is InvalidCommit,
        state is None ==> r == Ok::<PublishAction, EngineError>(PublishAction::PublishInitial),
        state matches Some(s) ==> (plan_matches ==> ((r == Ok::<PublishAction, EngineError>(PublishAction::PublishInitial))
            <==> first_publication_pending(s))),
        state matches Some(s) ==> (plan_matches ==> ((r == Ok::<PublishAction, EngineError>(PublishAction::RetainLastComplete))
            <==> retains_last_complete(s, intent))),
        state matches Some(s) ==> (plan_matches && s.phase == CatalogReadinessPhase::Building
            && s.has_last_complete_snapshot ==> r == Ok::<PublishAction, EngineError>(PublishAction::PublishRefresh)),
{
    let s = match state {
        None => return Ok(PublishAction::PublishInitial),
        Some(s) => s,
    };
    if !plan_matches {
        return Err(EngineError::InvalidCommit(
            "configured catalog source set does not match the durable frozen plan".to_owned(),
        ));
    }
    match s.phase {
        CatalogReadinessPhase::Pending => Ok(PublishAction::PublishInitial),
        CatalogReadinessPhase::Building => if s.has_last_complete_snapshot {
            Ok(PublishAction::PublishRefresh)
        } else {
            Ok(PublishAction::PublishInitial)
        },
        CatalogReadinessPhase::Ready => if intent == CatalogBuildIntent::Startup && !s.refreshing {
            Ok(PublishAction::RetainLastComplete)
        } else {
            Ok(PublishAction::PublishRefresh)
        },
        CatalogReadinessPhase::Error => if intent == CatalogBuildIntent::Startup && s.has_last_complete_snapshot {
            Ok(PublishAction::RetainLastComplete)
        } else if !s.has_last_complete_snapshot {
            Ok(PublishAction::PublishInitial)
        } else {
            Ok(PublishAction::PublishRefresh)
        },
        CatalogReadinessPhase::Degraded => if intent == CatalogBuildIntent::Startup {
            Ok(PublishAction::RetainLastComplete)
        } else {
            Ok(PublishAction::PublishRefresh)
        },
        CatalogReadinessPhase::Partial => Err(EngineError::InvalidCommit(
            "catalog build cannot resume from the durable readiness phase".to_owned(),
        )),
    }
}

/// No complete snapshot exists yet to refresh from: the lineage is
/// pending, or building or failed before its first publication.
pub open spec fn first_publication_pending(s: DurableBuildReadiness) -> bool {
    ||| s.phase == CatalogReadinessPhase::Pending
    ||| (s.phase == CatalogReadinessPhase::Building && !s.has_last_complete_snapshot)
    ||| (s.phase == CatalogReadinessPhase::Error && !s.has_last_complete_snapshot)
}

/// A startup build keeps the last complete publication of a Ready lineage
/// that is not refreshing, of a Degraded one, and of a failed one that has a
/// complete snapshot.
pub open spec fn retains_last_complete(s: DurableBuildReadiness, intent: CatalogBuildIntent) -> bool {
    &&& intent == CatalogBuildIntent::Startup
    &&& {
        ||| (s.phase == CatalogReadinessPhase::Ready && !s.refreshing)
        ||| s.phase == CatalogReadinessPhase::Degraded
        ||| (s.phase == CatalogReadinessPhase::Error && s.has_last_complete_snapshot)
    }
}

/// Which publication a build performs, by the durable phase: an initial one
/// exactly when there is no state or no complete snapshot to refresh from;
/// the last complete one is kept exactly on a startup over a settled
/// lineage; a building lineage with a complete snapshot refreshes whatever
/// the intent; a partial lineage cannot resume; everything else refreshes.
pub proof fn lemma_publish_action_by_phase(state: Option<DurableBuildReadiness>, intent: CatalogBuildIntent)
    ensures
        (publish_action_of(state, intent) == Some(PublishAction::PublishInitial)) <==> match state {
            None => true,
            Some(s) => first_publication_pending(s),
        },
        (publish_action_of(state, intent) == Some(PublishAction::RetainLastComplete)) <==> match state {
            None => false,
            Some(s) => retains_last_complete(s, intent),
        },
        (publish_action_of(state, intent) is None) <==> (state matches Some(s) && s.phase == CatalogReadinessPhase::Partial),
        state matches Some(s) && s.phase == CatalogReadinessPhase::Building && s.has_last_complete_snapshot
            ==> publish_action_of(state, intent) == Some(PublishAction::PublishRefresh),
        state matches Some(s) && s.phase == CatalogReadinessPhase::Building
            ==> publish_action_of(state, CatalogBuildIntent::Startup) == publish_action_of(state, CatalogBuildIntent::Refresh),
{
}

/// An explicit refresh never silently keeps the old publication, and a
/// build never refreshes a lineage that lacks a complete snapshot unless it
/// is Ready or Degraded.
pub proof fn lemma_publish_action_laws(state: Option<DurableBuildReadiness>, intent: CatalogBuildIntent)
    ensures
        intent == CatalogBuildIntent::Refresh ==> publish_action_of(state, intent) != Some(PublishAction::RetainLastComplete),
        publish_action_of(state, intent) == Some(PublishAction::PublishRefresh) ==> (state matches Some(s)
            && (s.has_last_complete_snapshot || s.phase == CatalogReadinessPhase::Ready
                || s.phase == CatalogReadinessPhase::Degraded)),
        publish_action_of(state, intent) == Some(PublishAction::RetainLastComplete) ==> (state is Some
            && intent == CatalogBuildIntent::Startup),
{
}

impl ContractVersionSelection {
    /// A field-by-field copy.
    pub fn duplicate(&self) -> (r: Self)
        ensures
            selection_matches(r, *self),
    {
        let mut families: Vec<FactFamilyVersion> = Vec::new();
        let mut i: usize = 0;
        while i < self.fact_family_versions.len()
            invariant
                i <= self.fact_family_versions@.len(),
                families@.len() == i,
                forall|k: int| 0 <= k < i ==> {
                    &&& (#[trigger] families@[k]).family@ == self.fact_family_versions@[k].family@
                    &&& families@[k].version == self.fact_family_versions@[k].version
                },
            decreases self.fact_family_versions@.len() - i,
        {
            let f = &self.fact_family_versions[i];
            families.push(FactFamilyVersion { family: f.family.clone(), version: f.version });
            i = i + 1;
        }
        ContractVersionSelection {
            selection_contract_version: self.selection_contract_version,
            model_major: self.model_major,
            external_entity_reference_version: self.external_entity_reference_version,
            semantic_revision_reference_version: self.semantic_revision_reference_version,
            coverage_contract_version: self.coverage_contract_version,
            fact_family_versions: families,
            query_pack_version: self.query_pack_version,
            observation_contract_version: self.observation_contract_version,
        }
    }
}

/// The contract selection every authorized source negotiated; sources that
/// negotiated different selections are refused.
pub fn common_contract_selection(selections: &Vec<ContractVersionSelection>) -> (r: Result<ContractVersionSelection, EngineError>)
    requires
        selections@.len() > 0,
    ensures
        r is Ok <==> forall|i: int| 0 <= i < selections@.len() ==> selection_matches(#[trigger] selections@[i], selections@[0]),
        r matches Ok(s) ==> selection_matches(s, selections@[0]),
        r matches Err(e) ==> e is InvalidConfig,
{
    let first = &selections[0];
    let mut i: usize = 0;
    while i < selections.len()
        invariant
            i <= selections@.len(),
            first == selections@[0],
            forall|k: int| 0 <= k < i ==> selection_matches(#[trigger] selections@[k], selections@[0]),
        decreases selections@.len() - i,
    {
        if !selections_equal(&selections[i], first) {
            return Err(invalid_config("configured catalog sources negotiated different contract selections"));
        }
        i = i + 1;
    }
    Ok(first.duplicate())
}


/// UTF-8 bytes of a string, by which ids are ordered.
pub open spec fn id_bytes(s: String) -> Seq<u8> {
    encode_utf8(s@)
}

/// Ids in ascending byte order.
pub open spec fn ids_sorted(ids: Seq<String>) -> bool {
    forall|i: int, j: int| 0 <= i < j < ids.len() ==> !lex_lt(id_bytes(#[trigger] ids[j]), id_bytes(#[trigger] ids[i]))
}

/// Whether `b` sorts strictly before `a`.
fn id_before(b: &String, a: &String) -> (r: bool)
    ensures
        r == lex_lt(id_bytes(*b), id_bytes(*a)),
{
    compare_bytes(b.as_str().as_bytes(), a.as_str().as_bytes()) == ByteOrder::Less
}

/// Sort ids ascending by their bytes.
pub fn sort_ids(ids: Vec<String>) -> (r: Vec<String>)
    ensures
        ids_sorted(r@),
        r@.to_multiset() == ids@.to_multiset(),
{
    let mut input = ids;
    let mut out: Vec<String> = Vec::new();
    let ghost original = input@;
    proof {
        broadcast use vstd::seq_lib::group_to_multiset_ensures;
        assert(out@.to_multiset().add(input@.to_multiset()) =~= original.to_multiset());
    }
    while input.len() > 0
        invariant
            ids_sorted(out@),
            out@.to_multiset().add(input@.to_multiset()) == original.to_multiset(),
        decreases input@.len(),
    {
        let ghost before_input = input@;
        let x = input.pop().unwrap();
        proof {
            broadcast use vstd::seq_lib::group_to_multiset_ensures;
            assert(before_input =~= input@.push(x));
            vstd::seq_lib::to_multiset_build(input@, x);
        }
        let mut p: usize = 0;
        while p < out.len() && !id_before(&x, &out[p])
            invariant
                p <= out@.len(),
                forall|k: int| 0 <= k < p ==> !lex_lt(id_bytes(x), id_bytes(#[trigger] out@[k])),
            decreases out@.len() - p,
        {
            p = p + 1;
        }
        let ghost before_out = out@;
        out.insert(p, x);
        proof {
            broadcast use vstd::seq_lib::group_to_multiset_ensures;
            vstd::seq_lib::to_multiset_insert(before_out, p as int, x);
            assert forall|i: int, j: int| 0 <= i < j < out@.len() implies !lex_lt(id_bytes(#[trigger] out@[j]), id_bytes(#[trigger] out@[i])) by {
                if i < p && j == p {
                    lemma_lex_total(id_bytes(x), id_bytes(before_out[i]));
                    crate::util::lemma_lex_irreflexive(id_bytes(x));
                    if lex_lt(id_bytes(x), id_bytes(before_out[i])) {
                    } else if lex_lt(id_bytes(before_out[i]), id_bytes(x)) {
                        if lex_lt(id_bytes(x), id_bytes(before_out[i])) {
                            lemma_lex_transitive(id_bytes(x), id_bytes(before_out[i]), id_bytes(x));
                        }
                    }
                } else if i == p && j > p {
                    assert(out@[j] == before_out[j - 1]);
                    assert(lex_lt(id_bytes(x), id_bytes(before_out[p as int])));
                    if j - 1 > p {
                        lemma_lex_total(id_bytes(before_out[p as int]), id_bytes(before_out[j - 1]));
                        if lex_lt(id_bytes(before_out[p as int]), id_bytes(before_out[j - 1])) {
                            lemma_lex_transitive(id_bytes(x), id_bytes(before_out[p as int]), id_bytes(before_out[j - 1]));
                        }
                    }
                    if lex_lt(id_bytes(before_out[j - 1]), id_bytes(x)) {
                        if j - 1 == p {
                            lemma_lex_transitive(id_bytes(x), id_bytes(before_out[p as int]), id_bytes(x));
                            crate::util::lemma_lex_irreflexive(id_bytes(x));
                        } else if lex_lt(id_bytes(before_out[p as int]), id_bytes(before_out[j - 1])) {
                            lemma_lex_transitive(id_bytes(x), id_bytes(before_out[j - 1]), id_bytes(x));
                            crate::util::lemma_lex_irreflexive(id_bytes(x));
                        } else {
                            lemma_lex_transitive(id_bytes(x), id_bytes(before_out[p as int]), id_bytes(x));
                            crate::util::lemma_lex_irreflexive(id_bytes(x));
                        }
                    }
                } else if i < p && j > p {
                    assert(out@[j] == before_out[j - 1]);
                    assert(out@[i] == before_out[i]);
                } else if i > p {
                    assert(out@[j] == before_out[j - 1]);
                    assert(out@[i] == before_out[i - 1]);
                } else {
                    assert(out@[j] == before_out[j]);
                    assert(out@[i] == before_out[i]);
                }
            }
        }
    }
    proof {
        broadcast use vstd::seq_lib::group_to_multiset_ensures;
        assert(input@.to_multiset() =~= vstd::multiset::Multiset::empty());
    }
    out
}


/// Ids of the sources that lack catalog authority, in source order.
pub open spec fn unauthorized_ids(ids: Seq<String>, authorized: Seq<bool>) -> Seq<String>
    decreases ids.len(),
{
    if ids.len() == 0 {
        Seq::empty()
    } else {
        let rest = unauthorized_ids(ids.drop_last(), authorized.take(ids.len() - 1));
        if authorized[ids.len() - 1] { rest } else { rest.push(ids.last()) }
    }
}

/// The authorization gate of a build: `None` when every configured adapter
/// has catalog authority, otherwise the adapters without it, sorted, so
/// that no catalog source is read.
pub fn authorization_gate(adapter_ids: &Vec<String>, authorized: &Vec<bool>) -> (r: Option<Vec<String>>)
    requires
        adapter_ids@.len() == authorized@.len(),
    ensures
        r is None <==> forall|i: int| 0 <= i < authorized@.len() ==> authorized@[i],
        r matches Some(u) ==> ids_sorted(u@) && u@.len() > 0
            && u@.to_multiset() == unauthorized_ids(adapter_ids@, authorized@).to_multiset(),
{
    let mut unavailable: Vec<String> = Vec::new();
    let mut i: usize = 0;
    assert(adapter_ids@.take(0) =~= Seq::<String>::empty());
    while i < adapter_ids.len()
        invariant
            adapter_ids@.len() == authorized@.len(),
            i <= adapter_ids@.len(),
            unavailable@ == unauthorized_ids(adapter_ids@.take(i as int), authorized@.take(i as int)),
            (unavailable@.len() == 0) <==> forall|k: int| 0 <= k < i ==> authorized@[k],
        decreases adapter_ids@.len() - i,
    {
        let ghost ids_next = adapter_ids@.take(i as int + 1);
        assert(ids_next.drop_last() =~= adapter_ids@.take(i as int));
        assert(authorized@.take(i as int + 1).take(i as int) =~= authorized@.take(i as int));
        if !authorized[i] {
            unavailable.push(adapter_ids[i].clone());
        }
        i = i + 1;
    }
    assert(adapter_ids@.take(adapter_ids@.len() as int) =~= adapter_ids@);
    assert(authorized@.take(authorized@.len() as int) =~= authorized@);
    if unavailable.len() == 0 {
        return None;
    }
    let sorted = sort_ids(unavailable);
    proof {
        broadcast use vstd::seq_lib::group_to_multiset_ensures;
        assert(sorted@.to_multiset().len() == sorted@.len());
    }
    Some(sorted)
}


/// A build needs at least one authorized source instance.
pub fn require_authorized_instances(count: usize) -> (r: Result<(), EngineError>)
    ensures
        r is Ok <==> count > 0,
        r matches Err(e) ==> e is InvalidConfig,
{
    if count == 0 {
        return Err(invalid_config("catalog build produced no authorized source instances"));
    }
    Ok(())
}

/// A frozen plan must be the durable frozen plan, when one exists.
pub fn require_durable_plan(durable: Option<&CatalogCoveragePlanId>, plan: &CatalogCoveragePlanId) -> (r: Result<(), EngineError>)
    ensures
        r is Ok <==> (durable matches Some(d) ==> *d == *plan),
        r matches Err(e) ==> e is InvalidCommit,
{
    if let Some(d) = durable {
        if !d.same(plan) {
            return Err(EngineError::InvalidCommit(
                "configured catalog source set does not match the durable frozen plan".to_owned(),
            ));
        }
    }
    Ok(())
}

} // verus!
