//! What one bounded discovery pass over a configured source hands to the
//! catalog store: rows with identities derived, or a degraded pass whose
//! reason fits the column it is stored in.
use vstd::prelude::*;
use crate::util::push_str;

verus! {

broadcast use vstd::seq::group_seq_axioms;

/// A project row ready to commit.
#[derive(Debug, Clone, PartialEq, Eq)]
pub struct ScannedProject {
    pub project_key: Vec<u8>,
    pub external_ref: [u8; 32],
    pub native_project_key: String,
    pub display_name: Option<String>,
    pub display_path: Option<String>,
}

/// A session row ready to commit.
#[derive(Debug, Clone, PartialEq, Eq)]
pub struct ScannedSession {
    pub session_key: Vec<u8>,
    pub project_key: Vec<u8>,
    pub external_ref: [u8; 32],
    pub native_session_key: String,
    pub native_session_id: Option<String>,
    pub title: Option<String>,
    pub association_basis: String,
    pub association_quality: String,
    pub association_provenance: String,
    pub native_created_at: Option<String>,
    pub native_updated_at: Option<String>,
    pub native_message_count: Option<u64>,
    pub transcript_present: bool,
    pub transcript_locator: Option<String>,
    pub source_size_bytes: Option<u64>,
    pub source_modified_ms: Option<i64>,
    /// Ordering key for activity-sorted pages; empty when the source
    /// declares no time at all.
    pub sort_time: String,
}

/// A losing association, retained so the conflict stays visible.
#[derive(Debug, Clone, PartialEq, Eq)]
pub struct ScannedConflict {
    pub session_key: Vec<u8>,
    pub competing_native_project_key: String,
    pub basis: String,
    pub provenance: String,
}

/// Everything one pass found, with identity already derived.
#[derive(Debug, Clone, PartialEq, Eq)]
pub struct SourceScan {
    pub source_instance_id: u64,
    pub adapter_id: String,
    pub projects: Vec<ScannedProject>,
    pub sessions: Vec<ScannedSession>,
    pub conflicts: Vec<ScannedConflict>,
    pub degraded_reason: Option<String>,
}

/// Longest degraded reason the catalog source table accepts, in characters.
pub const MAX_DEGRADED_REASON_CHARS: usize = 512;

/// A reason kept inside its column: unchanged when it fits, otherwise its
/// first 511 characters followed by an ellipsis.
pub open spec fn clamped_reason(reason: Seq<char>) -> Seq<char> {
    if reason.len() <= MAX_DEGRADED_REASON_CHARS {
        reason
    } else {
        reason.subrange(0, MAX_DEGRADED_REASON_CHARS - 1) + seq!['\u{2026}']
    }
}

/// Keep a degraded reason inside the column it is stored in, so a long
/// native path in an adapter error cannot abort the whole commit.
pub fn clamp_reason(reason: String) -> (r: String)
    ensures
        r@ == clamped_reason(reason@),
        r@.len() <= MAX_DEGRADED_REASON_CHARS,
{
    let n = reason.as_str().unicode_len();
    if n <= MAX_DEGRADED_REASON_CHARS {
        return reason;
    }
    let head = reason.as_str().substring_char(0, MAX_DEGRADED_REASON_CHARS - 1);
    let mut out = String::new();
    push_str(&mut out, head);
    push_str(&mut out, "\u{2026}");
    proof {
        reveal_strlit("\u{2026}");
        assert(out@ =~= clamped_reason(reason@));
    }
    out
}

impl SourceScan {
    /// A pass that reached no native evidence at all: no rows, and a reason
    /// clamped to its column. Its rows are not authoritative, so nothing is
    /// retracted on its behalf.
    pub fn degraded(source_instance_id: u64, adapter_id: &str, reason: String) -> (r: Self)
        ensures
            r.source_instance_id == source_instance_id,
            r.adapter_id@ == adapter_id@,
            r.projects@.len() == 0,
            r.sessions@.len() == 0,
            r.conflicts@.len() == 0,
            r.degraded_reason matches Some(d) && d@ == clamped_reason(reason@),
    {
        SourceScan {
            source_instance_id,
            adapter_id: adapter_id.to_owned(),
            projects: Vec::new(),
            sessions: Vec::new(),
            conflicts: Vec::new(),
            degraded_reason: Some(clamp_reason(reason)),
        }
    }

    /// A complete pass owns its source's membership, so rows it no longer
    /// reports are retracted; a degraded pass owns nothing and retracts
    /// nothing.
    pub fn owns_membership(&self) -> (r: bool)
        ensures
            r == (self.degraded_reason is None),
    {
        self.degraded_reason.is_none()
    }
}

/// Text recorded for a failed pass: the adapter error's code and message.
pub fn degraded_reason(code: &str, message: &str) -> (r: String)
    ensures
        r@ == code@ + ": "@ + message@,
{
    let mut out = String::new();
    push_str(&mut out, code);
    push_str(&mut out, ": ");
    push_str(&mut out, message);
    out
}

/// Where a session's activity sort key comes from.
#[derive(Debug, Clone, Copy, PartialEq, Eq, Structural)]
pub enum SortTimeSource {
    NativeUpdated,
    NativeCreated,
    /// The transcript's modification time, in epoch milliseconds.
    SourceModified(i64),
    /// No time at all: the key stays empty, which sorts last under a
    /// descending order, never as the epoch.
    Unknown,
}

/// Native times are preferred, then a positive transcript modification
/// time; otherwise the time is unknown.
pub open spec fn sort_time_source_of(
    updated: Option<String>,
    created: Option<String>,
    modified_ms: Option<i64>,
) -> SortTimeSource {
    if updated is Some {
        SortTimeSource::NativeUpdated
    } else if created is Some {
        SortTimeSource::NativeCreated
    } else {
        match modified_ms {
            Some(ms) => if ms > 0 { SortTimeSource::SourceModified(ms) } else { SortTimeSource::Unknown },
            None => SortTimeSource::Unknown,
        }
    }
}

/// Choose where a session's activity sort key comes from.
pub fn sort_time_source(
    updated: &Option<String>,
    created: &Option<String>,
    modified_ms: Option<i64>,
) -> (r: SortTimeSource)
    ensures
        r == sort_time_source_of(*updated, *created, modified_ms),
{
    if updated.is_some() {
        SortTimeSource::NativeUpdated
    } else if created.is_some() {
        SortTimeSource::NativeCreated
    } else {
        match modified_ms {
            Some(ms) => if ms > 0 {
                SortTimeSource::SourceModified(ms)
            } else {
                SortTimeSource::Unknown
            },
            None => SortTimeSource::Unknown,
        }
    }
}

/// A session's activity sort key: the native update time, else the native
/// creation time, else `modified_text` (the rendering of a positive
/// modification time), else empty.
pub fn sort_time(
    updated: &Option<String>,
    created: &Option<String>,
    modified_ms: Option<i64>,
    modified_text: &str,
) -> (r: String)
    ensures
        r@ == match sort_time_source_of(*updated, *created, modified_ms) {
            SortTimeSource::NativeUpdated => updated->0@,
            SortTimeSource::NativeCreated => created->0@,
            SortTimeSource::SourceModified(_) => modified_text@,
            SortTimeSource::Unknown => Seq::<char>::empty(),
        },
{
    match sort_time_source(updated, created, modified_ms) {
        SortTimeSource::NativeUpdated => match updated {
            Some(t) => t.clone(),
            None => String::new(),
        },
        SortTimeSource::NativeCreated => match created {
            Some(t) => t.clone(),
            None => String::new(),
        },
        SortTimeSource::SourceModified(_) => modified_text.to_owned(),
        SortTimeSource::Unknown => String::new(),
    }
}

} // verus!
