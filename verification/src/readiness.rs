//! The readiness vector: one field per capability, each derived from row
//! counts read inside one snapshot. The fields are independent, so the
//! catalog can be ready while history is still indexing.
use vstd::prelude::*;
use crate::util::{opt_text, push_i64, push_str, signed_decimal, str_equal};

verus! {

broadcast use vstd::seq::group_seq_axioms;

/// State of one readiness field.
#[derive(Debug, Clone, Copy, PartialEq, Eq, Structural, Hash)]
pub enum ReadinessState {
    /// No work has been committed yet.
    Pending,
    /// Committed and converging; the detail says how far.
    Indexing,
    /// Complete for everything the catalog knows about.
    Ready,
    /// Usable but knowingly incomplete; the detail says why.
    Degraded,
    /// Not available in this build or configuration.
    Unavailable,
}

/// Wire text of a readiness state.
pub open spec fn readiness_text(s: ReadinessState) -> Seq<char> {
    match s {
        ReadinessState::Pending => "pending"@,
        ReadinessState::Indexing => "indexing"@,
        ReadinessState::Ready => "ready"@,
        ReadinessState::Degraded => "degraded"@,
        ReadinessState::Unavailable => "unavailable"@,
    }
}

impl ReadinessState {
    /// Wire text of the state.
    pub fn as_str(self) -> (r: &'static str)
        ensures
            r@ == readiness_text(self),
    {
        match self {
            ReadinessState::Pending => "pending",
            ReadinessState::Indexing => "indexing",
            ReadinessState::Ready => "ready",
            ReadinessState::Degraded => "degraded",
            ReadinessState::Unavailable => "unavailable",
        }
    }
}

/// One readiness field.
#[derive(Debug, Clone, PartialEq, Eq)]
pub struct ReadinessField {
    pub state: ReadinessState,
    /// Commit sequence the evidence for this field was read at.
    pub committed_at_seq: u64,
    pub detail: Option<String>,
}

impl ReadinessField {
    pub fn new(state: ReadinessState, committed_at_seq: u64, detail: Option<String>) -> (r: Self)
        ensures
            r.state == state,
            r.committed_at_seq == committed_at_seq,
            r.detail == detail,
    {
        ReadinessField { state, committed_at_seq, detail }
    }
}

/// The readiness vector every surface reads.
#[derive(Debug, Clone, PartialEq, Eq)]
pub struct Readiness {
    pub catalog: ReadinessField,
    pub history: ReadinessField,
    pub usage: ReadinessField,
    pub capabilities: ReadinessField,
    pub artifacts: ReadinessField,
    pub search: ReadinessField,
    pub at_commit_seq: u64,
}

/// Row counts one snapshot needs to answer every field.
#[derive(Debug, Clone, PartialEq, Eq)]
pub struct Evidence {
    pub sources: i64,
    pub degraded_sources: i64,
    pub degraded_reason: Option<String>,
    pub catalog_projects: i64,
    pub catalog_sessions: i64,
    pub transcript_sessions: i64,
    pub canonical_sessions: i64,
    pub hydrated_sessions: i64,
    pub scanned_at_commit_seq: i64,
    /// Whether the durable full-text bootstrap marker is cleared.
    pub search_ready: bool,
}

/// "P projects, S sessions".
pub open spec fn catalog_summary(projects: int, sessions: int) -> Seq<char> {
    signed_decimal(projects) + " projects, "@ + signed_decimal(sessions) + " sessions"@
}

/// Reason shown when a degraded source gives none.
pub open spec fn default_degraded_reason() -> Seq<char> {
    "a configured source could not be read completely"@
}

/// The catalog field: pending before any source is scanned, degraded when a
/// source could not be read completely, ready otherwise.
pub open spec fn catalog_field_spec(e: Evidence, scanned_at: u64) -> (ReadinessState, u64, Option<Seq<char>>) {
    if e.sources == 0 {
        (ReadinessState::Pending, scanned_at, Some("no configured source has been scanned yet"@))
    } else if e.degraded_sources > 0 {
        let reason = match e.degraded_reason {
            Some(r) => r@,
            None => default_degraded_reason(),
        };
        (ReadinessState::Degraded, scanned_at,
            Some(catalog_summary(e.catalog_projects as int, e.catalog_sessions as int) + "; "@ + reason))
    } else {
        (ReadinessState::Ready, scanned_at, Some(catalog_summary(e.catalog_projects as int, e.catalog_sessions as int)))
    }
}

/// A field as a (state, commit, detail text) triple.
pub open spec fn field_view(f: ReadinessField) -> (ReadinessState, u64, Option<Seq<char>>) {
    (f.state, f.committed_at_seq, opt_text(f.detail))
}

/// The catalog readiness field.
pub fn catalog_field(evidence: &Evidence, scanned_at: u64) -> (r: ReadinessField)
    ensures
        field_view(r) == catalog_field_spec(*evidence, scanned_at),
{
    if evidence.sources == 0 {
        return ReadinessField::new(
            ReadinessState::Pending,
            scanned_at,
            Some("no configured source has been scanned yet".to_owned()),
        );
    }
    let mut summary = String::new();
    push_i64(&mut summary, evidence.catalog_projects);
    push_str(&mut summary, " projects, ");
    push_i64(&mut summary, evidence.catalog_sessions);
    push_str(&mut summary, " sessions");
    if evidence.degraded_sources > 0 {
        let mut detail = summary;
        push_str(&mut detail, "; ");
        match &evidence.degraded_reason {
            Some(reason) => push_str(&mut detail, reason.as_str()),
            None => push_str(&mut detail, "a configured source could not be read completely"),
        }
        return ReadinessField::new(ReadinessState::Degraded, scanned_at, Some(detail));
    }
    ReadinessField::new(ReadinessState::Ready, scanned_at, Some(summary))
}

/// "C of E label".
pub open spec fn progress_text(converged: int, expected: int, label: Seq<char>) -> Seq<char> {
    signed_decimal(converged) + " of "@ + signed_decimal(expected) + " "@ + label
}

/// A background projection is ready once it covers every transcript-backed
/// catalog session, indexing while behind, and pending before the catalog
/// knows what there is to converge on.
pub open spec fn convergence_field_spec(e: Evidence, converged: i64, watermark: u64, label: Seq<char>) -> (ReadinessState, u64, Option<Seq<char>>) {
    if e.sources == 0 {
        (ReadinessState::Pending, watermark, None)
    } else if e.transcript_sessions == 0 {
        (ReadinessState::Ready, watermark, Some(progress_text(0, 0, label)))
    } else {
        (if converged >= e.transcript_sessions { ReadinessState::Ready } else { ReadinessState::Indexing },
            watermark, Some(progress_text(converged as int, e.transcript_sessions as int, label)))
    }
}

/// A convergence readiness field.
pub fn convergence_field(evidence: &Evidence, converged: i64, watermark: u64, label: &str) -> (r: ReadinessField)
    ensures
        field_view(r) == convergence_field_spec(*evidence, converged, watermark, label@),
{
    if evidence.sources == 0 {
        return ReadinessField::new(ReadinessState::Pending, watermark, None);
    }
    let expected = evidence.transcript_sessions;
    let shown = if expected == 0 { 0i64 } else { converged };
    let state = if expected == 0 || converged >= expected {
        ReadinessState::Ready
    } else {
        ReadinessState::Indexing
    };
    let mut detail = String::new();
    push_i64(&mut detail, shown);
    push_str(&mut detail, " of ");
    push_i64(&mut detail, expected);
    push_str(&mut detail, " ");
    push_str(&mut detail, label);
    ReadinessField::new(state, watermark, Some(detail))
}

/// One grouped row of the usage projection's published readiness.
#[derive(Debug, Clone, PartialEq, Eq)]
pub struct UsageReadinessRow {
    pub readiness: String,
    pub count: i64,
    pub last_commit_seq: i64,
    pub detail: Option<String>,
}

/// Running tally over usage rows: total, ready, unavailable, latest commit,
/// and the first detail of a row that is not ready.
pub open spec fn usage_tally(rows: Seq<UsageReadinessRow>) -> (int, int, int, int, Option<Seq<char>>)
    decreases rows.len(),
{
    if rows.len() == 0 {
        (0, 0, 0, 0, None)
    } else {
        let t = usage_tally(rows.drop_last());
        let row = rows.last();
        let commit = if row.last_commit_seq > t.3 { row.last_commit_seq as int } else { t.3 };
        let is_ready = row.readiness@ == "ready"@;
        let is_unavailable = row.readiness@ == "unavailable"@;
        let detail = if is_ready || t.4 is Some { t.4 } else { opt_text(row.detail) };
        (
            t.0 + row.count,
            if is_ready { t.1 + row.count } else { t.1 },
            if is_unavailable { t.2 + row.count } else { t.2 },
            commit,
            detail,
        )
    }
}

/// Every count is a row count and their sum fits the counters.
pub open spec fn usage_rows_bounded(rows: Seq<UsageReadinessRow>) -> bool {
    &&& forall|i: int| 0 <= i < rows.len() ==> #[trigger] rows[i].count >= 0
    &&& usage_tally(rows).0 <= i64::MAX
}

/// The usage field, as published by the usage projection.
pub open spec fn usage_field_spec(rows: Seq<UsageReadinessRow>, watermark: u64) -> (ReadinessState, u64, Option<Seq<char>>) {
    let t = usage_tally(rows);
    let at: u64 = if t.3 > 0 { t.3 as u64 } else { watermark };
    if t.0 == 0 {
        (ReadinessState::Pending, at, Some("no usage projection has been committed yet"@))
    } else if t.2 > 0 {
        (ReadinessState::Degraded, at, match t.4 {
            Some(d) => Some(d),
            None => Some("a source cannot produce response-level usage"@),
        })
    } else if t.1 >= t.0 {
        (ReadinessState::Ready, at, Some(progress_text(t.1, t.0, "sources"@)))
    } else {
        (ReadinessState::Indexing, at, Some(progress_text(t.1, t.0, "sources"@)))
    }
}

/// With row counts that are counts, the tally never counts more ready or
/// unavailable sources than it counts in all, and its latest commit is a
/// nonnegative stored commit, so the usage field reports it exactly.
pub proof fn lemma_usage_tally_bounds(rows: Seq<UsageReadinessRow>)
    requires
        forall|i: int| 0 <= i < rows.len() ==> #[trigger] rows[i].count >= 0,
    ensures
        0 <= usage_tally(rows).1 <= usage_tally(rows).0,
        0 <= usage_tally(rows).2 <= usage_tally(rows).0,
        0 <= usage_tally(rows).3 <= i64::MAX,
    decreases rows.len(),
{
    if rows.len() > 0 {
        assert forall|i: int| 0 <= i < rows.drop_last().len() implies #[trigger] rows.drop_last()[i].count >= 0 by {
            assert(rows.drop_last()[i] == rows[i]);
        }
        lemma_usage_tally_bounds(rows.drop_last());
        assert(rows[rows.len() - 1].count >= 0);
    }
}

proof fn lemma_usage_tally_prefix_bound(rows: Seq<UsageReadinessRow>, i: int)
    requires
        0 <= i <= rows.len(),
        forall|j: int| 0 <= j < rows.len() ==> #[trigger] rows[j].count >= 0,
    ensures
        usage_tally(rows.take(i)).0 <= usage_tally(rows).0,
    decreases rows.len() - i,
{
    if i < rows.len() {
        assert(rows.drop_last().take(i) =~= rows.take(i));
        assert forall|j: int| 0 <= j < rows.drop_last().len() implies #[trigger] rows.drop_last()[j].count >= 0 by {
            assert(rows.drop_last()[j] == rows[j]);
        }
        lemma_usage_tally_prefix_bound(rows.drop_last(), i);
        assert(rows[rows.len() - 1].count >= 0);
    } else {
        assert(rows.take(i) =~= rows);
    }
}

/// The usage readiness field from the usage projection's grouped rows.
pub fn usage_field(rows: &Vec<UsageReadinessRow>, watermark: u64) -> (r: ReadinessField)
    requires
        usage_rows_bounded(rows@),
    ensures
        field_view(r) == usage_field_spec(rows@, watermark),
{
    let ghost rs = rows@;
    let mut total: i64 = 0;
    let mut ready: i64 = 0;
    let mut unavailable: i64 = 0;
    let mut commit_seq: i64 = 0;
    let mut pending_detail: Option<String> = None;
    let mut i: usize = 0;
    assert(rs.take(0) =~= Seq::<UsageReadinessRow>::empty());
    while i < rows.len()
        invariant
            rs == rows@,
            usage_rows_bounded(rs),
            i <= rs.len(),
            (total as int, ready as int, unavailable as int, commit_seq as int, opt_text(pending_detail))
                == usage_tally(rs.take(i as int)),
        decreases rs.len() - i,
    {
        let ghost prefix = rs.take(i as int + 1);
        assert(prefix.drop_last() =~= rs.take(i as int));
        assert(prefix.last() == rs[i as int]);
        proof {
            assert forall|j: int| 0 <= j < prefix.len() implies #[trigger] prefix[j].count >= 0 by {
                assert(prefix[j] == rs[j]);
            }
            lemma_usage_tally_bounds(prefix);
            lemma_usage_tally_prefix_bound(rs, i as int + 1);
        }
        let row = &rows[i];
        total = total + row.count;
        if row.last_commit_seq > commit_seq {
            commit_seq = row.last_commit_seq;
        }
        proof {
            reveal_strlit("ready");
            reveal_strlit("unavailable");
            assert("ready"@[0] != "unavailable"@[0]);
        }
        let is_ready = str_equal(row.readiness.as_str(), "ready");
        let is_unavailable = str_equal(row.readiness.as_str(), "unavailable");
        if is_ready {
            ready = ready + row.count;
        } else {
            if is_unavailable {
                unavailable = unavailable + row.count;
            }
            if pending_detail.is_none() {
                pending_detail = match &row.detail {
                    Some(d) => Some(d.clone()),
                    None => None,
                };
            }
        }
        i = i + 1;
    }
    assert(rs.take(rs.len() as int) =~= rs);
    proof {
        lemma_usage_tally_bounds(rs);
    }
    let at = if commit_seq > 0 { commit_seq as u64 } else { watermark };
    if total == 0 {
        return ReadinessField::new(
            ReadinessState::Pending,
            at,
            Some("no usage projection has been committed yet".to_owned()),
        );
    }
    if unavailable > 0 {
        let detail = match pending_detail {
            Some(d) => d,
            None => "a source cannot produce response-level usage".to_owned(),
        };
        return ReadinessField::new(ReadinessState::Degraded, at, Some(detail));
    }
    let mut detail = String::new();
    push_i64(&mut detail, ready);
    push_str(&mut detail, " of ");
    push_i64(&mut detail, total);
    push_str(&mut detail, " ");
    push_str(&mut detail, "sources");
    if ready >= total {
        ReadinessField::new(ReadinessState::Ready, at, Some(detail))
    } else {
        ReadinessField::new(ReadinessState::Indexing, at, Some(detail))
    }
}

/// Readiness of the whole vector from one snapshot's evidence and usage
/// field. Capability and artifact facts come from the same decode pass as
/// messages, so they converge with hydration; search is pending until the
/// full-text bootstrap finishes.
pub fn assemble_readiness(evidence: &Evidence, usage: ReadinessField, watermark: u64) -> (r: Readiness)
    ensures
        r.at_commit_seq == watermark,
        field_view(r.catalog) == catalog_field_spec(*evidence, if evidence.scanned_at_commit_seq < 0 { 0 } else { evidence.scanned_at_commit_seq as u64 }),
        field_view(r.history) == convergence_field_spec(*evidence, evidence.canonical_sessions, watermark, "transcripts decoded"@),
        r.usage == usage,
        field_view(r.capabilities) == convergence_field_spec(*evidence, evidence.hydrated_sessions, watermark,
            "sessions decoded for capability facts"@),
        field_view(r.artifacts) == convergence_field_spec(*evidence, evidence.hydrated_sessions, watermark,
            "sessions decoded for artifact facts"@),
        evidence.search_ready ==> field_view(r.search) == convergence_field_spec(*evidence, evidence.hydrated_sessions,
            watermark, "sessions indexed for search"@),
        !evidence.search_ready ==> field_view(r.search) == (ReadinessState::Pending, watermark,
            Some("full-text bootstrap has not finished"@)),
{
    let scanned_at = if evidence.scanned_at_commit_seq < 0 { 0u64 } else { evidence.scanned_at_commit_seq as u64 };
    let catalog = catalog_field(evidence, scanned_at);
    let history = convergence_field(evidence, evidence.canonical_sessions, watermark, "transcripts decoded");
    let capabilities = convergence_field(evidence, evidence.hydrated_sessions, watermark, "sessions decoded for capability facts");
    let artifacts = convergence_field(evidence, evidence.hydrated_sessions, watermark, "sessions decoded for artifact facts");
    let search = if evidence.search_ready {
        convergence_field(evidence, evidence.hydrated_sessions, watermark, "sessions indexed for search")
    } else {
        ReadinessField::new(
            ReadinessState::Pending,
            watermark,
            Some("full-text bootstrap has not finished".to_owned()),
        )
    };
    Readiness { catalog, history, usage, capabilities, artifacts, search, at_commit_seq: watermark }
}

/// The fields are independent: with sources scanned, the catalog field does
/// not depend on convergence, so it can be ready while history indexes.
pub proof fn lemma_catalog_ready_while_history_indexes(e: Evidence, scanned_at: u64, watermark: u64)
    requires
        e.sources > 0,
        e.degraded_sources <= 0,
        e.transcript_sessions > 0,
        e.canonical_sessions < e.transcript_sessions,
    ensures
        catalog_field_spec(e, scanned_at).0 == ReadinessState::Ready,
        convergence_field_spec(e, e.canonical_sessions, watermark, "transcripts decoded"@).0 == ReadinessState::Indexing,
{
}

} // verus!
