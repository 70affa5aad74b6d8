//! File-history artifact projection rules: validation of metadata and
//! content assertions, and the reduction that joins both halves of one
//! artifact into its canonical status without ever upgrading session
//! capture into a claim that a run produced the file.
use vstd::prelude::*;
use crate::codec::{blake3_digest, blake3_hash};
use crate::error::EngineError;
use crate::util::{bytes_equal, compare_bytes, lemma_lex_irreflexive, lemma_lex_total, lemma_lex_transitive, lex_lt, push_str, ByteOrder};

verus! {

broadcast use vstd::seq::group_seq_axioms;

/// Schema version of artifact change payloads.
pub const ARTIFACT_CHANGE_SCHEMA_VERSION: u32 = 1;

/// Whether a metadata entry expects backed-up content.
#[derive(Debug, Clone, Copy, PartialEq, Eq, Structural)]
pub enum ArtifactCapture {
    ContentExpected,
    NotCaptured,
}

/// Whether a metadata snapshot is a full checkpoint or a delta.
#[derive(Debug, Clone, Copy, PartialEq, Eq, Structural)]
pub enum ArtifactObservationKind {
    Checkpoint,
    Delta,
}

/// How trustworthy a timestamp is.
#[derive(Debug, Clone, Copy, PartialEq, Eq, Structural)]
pub enum TimestampQuality {
    NativeExact,
    NativeApproximate,
    FileMetadataFallback,
    Derived,
}

/// A timestamp with its quality.
#[derive(Debug, Clone, PartialEq, Eq)]
pub struct QualifiedTimestamp {
    pub value: String,
    pub quality: TimestampQuality,
}

pub open spec fn observation_kind_text(k: ArtifactObservationKind) -> Seq<char> {
    match k {
        ArtifactObservationKind::Checkpoint => "checkpoint"@,
        ArtifactObservationKind::Delta => "delta"@,
    }
}

/// Stored text of an observation kind.
pub fn observation_kind(kind: ArtifactObservationKind) -> (r: &'static str)
    ensures
        r@ == observation_kind_text(kind),
{
    match kind {
        ArtifactObservationKind::Checkpoint => "checkpoint",
        ArtifactObservationKind::Delta => "delta",
    }
}

pub open spec fn capture_status_text(c: ArtifactCapture) -> Seq<char> {
    match c {
        ArtifactCapture::ContentExpected => "content_expected"@,
        ArtifactCapture::NotCaptured => "not_captured"@,
    }
}

/// Stored text of a capture status.
pub fn capture_status(capture: ArtifactCapture) -> (r: &'static str)
    ensures
        r@ == capture_status_text(capture),
{
    match capture {
        ArtifactCapture::ContentExpected => "content_expected",
        ArtifactCapture::NotCaptured => "not_captured",
    }
}

pub open spec fn quality_text(q: TimestampQuality) -> Seq<char> {
    match q {
        TimestampQuality::NativeExact => "native_exact"@,
        TimestampQuality::NativeApproximate => "native_approximate"@,
        TimestampQuality::FileMetadataFallback => "file_metadata_fallback"@,
        TimestampQuality::Derived => "derived"@,
    }
}

/// Stored value of an optional timestamp.
pub fn timestamp_value(timestamp: Option<&QualifiedTimestamp>) -> (r: Option<&str>)
    ensures
        r is Some <==> timestamp is Some,
        r matches Some(v) ==> v@ == timestamp->0.value@,
{
    match timestamp {
        Some(t) => Some(t.value.as_str()),
        None => None,
    }
}

/// Stored quality of an optional timestamp.
pub fn timestamp_quality(timestamp: Option<&QualifiedTimestamp>) -> (r: Option<&'static str>)
    ensures
        r is Some <==> timestamp is Some,
        r matches Some(v) ==> v@ == quality_text(timestamp->0.quality),
{
    match timestamp {
        Some(t) => Some(match t.quality {
            TimestampQuality::NativeExact => "native_exact",
            TimestampQuality::NativeApproximate => "native_approximate",
            TimestampQuality::FileMetadataFallback => "file_metadata_fallback",
            TimestampQuality::Derived => "derived",
        }),
        None => None,
    }
}

/// A count stored in a signed SQLite integer.
pub fn sqlite_usize(value: usize, field: &str) -> (r: Result<i64, EngineError>)
    ensures
        r is Ok <==> value <= i64::MAX,
        r matches Ok(v) ==> v == value,
        r matches Err(e) ==> e is InvalidCommit,
{
    if value as u64 > 9223372036854775807u64 {
        let mut message = String::new();
        push_str(&mut message, field);
        push_str(&mut message, " exceeds SQLite integer range");
        return Err(EngineError::InvalidCommit(message));
    }
    Ok(value as i64)
}

/// A sequence number stored in a signed SQLite integer.
pub fn sqlite_u64(value: u64, field: &str) -> (r: Result<i64, EngineError>)
    ensures
        r is Ok <==> value <= i64::MAX,
        r matches Ok(v) ==> v == value,
        r matches Err(e) ==> e is InvalidCommit,
{
    if value > 9223372036854775807u64 {
        let mut message = String::new();
        push_str(&mut message, field);
        push_str(&mut message, " exceeds SQLite integer range");
        return Err(EngineError::InvalidCommit(message));
    }
    Ok(value as i64)
}

/// Whether a character has the Unicode White_Space property: the control
/// characters from tab to carriage return, space, next line, no-break space,
/// ogham space mark, the spaces from en quad to hair space, the line and
/// paragraph separators, narrow no-break space, medium mathematical space and
/// ideographic space.
pub open spec fn unicode_whitespace(c: char) -> bool {
    let v = c as u32;
    ||| 0x09 <= v <= 0x0d
    ||| v == 0x20
    ||| v == 0x85
    ||| v == 0xa0
    ||| v == 0x1680
    ||| 0x2000 <= v <= 0x200a
    ||| v == 0x2028
    ||| v == 0x2029
    ||| v == 0x202f
    ||| v == 0x205f
    ||| v == 0x3000
}

/// Whether a character is whitespace, as `char::is_whitespace` answers.
pub fn is_whitespace(c: char) -> (r: bool)
    ensures
        r == unicode_whitespace(c),
{
    let v = c as u32;
    (0x09 <= v && v <= 0x0d) || v == 0x20 || v == 0x85 || v == 0xa0 || v == 0x1680
        || (0x2000 <= v && v <= 0x200a) || v == 0x2028 || v == 0x2029 || v == 0x202f || v == 0x205f
        || v == 0x3000
}

/// A text that trims to nothing: every character is whitespace.
pub open spec fn blank(s: Seq<char>) -> bool {
    forall|i: int| 0 <= i < s.len() ==> unicode_whitespace(#[trigger] s[i])
}

/// Whether a text trims to nothing.
pub fn is_blank(s: &str) -> (r: bool)
    ensures
        r == blank(s@),
{
    let n = s.unicode_len();
    let mut i: usize = 0;
    while i < n
        invariant
            n == s@.len(),
            i <= n,
            forall|j: int| 0 <= j < i ==> unicode_whitespace(#[trigger] s@[j]),
        decreases n - i,
    {
        if !is_whitespace(s.get_char(i)) {
            return false;
        }
        i = i + 1;
    }
    true
}

/// Capture status and native identity agree: expected content has a
/// non-blank native id, uncaptured content has none.
pub open spec fn capture_agrees(capture: ArtifactCapture, native_artifact_id: Option<String>) -> bool {
    match (capture, native_artifact_id) {
        (ArtifactCapture::ContentExpected, Some(id)) => !blank(id@),
        (ArtifactCapture::NotCaptured, None) => true,
        _ => false,
    }
}

/// Validate one metadata entry: positive version, non-blank path and backup
/// time, and a capture status that agrees with the native content identity.
pub fn validate_metadata_entry(
    version: u64,
    tracking_path: &str,
    backup_time: &str,
    capture: ArtifactCapture,
    native_artifact_id: &Option<String>,
) -> (r: Result<(), EngineError>)
    ensures
        r is Ok <==> version != 0 && !blank(tracking_path@) && !blank(backup_time@)
            && capture_agrees(capture, *native_artifact_id),
        r matches Err(e) ==> e is InvalidCommit,
{
    if version == 0 || is_blank(tracking_path) || is_blank(backup_time) {
        return Err(EngineError::InvalidCommit("artifact metadata contains an empty path/time or zero version".to_owned()));
    }
    let agrees = match (capture, native_artifact_id) {
        (ArtifactCapture::ContentExpected, Some(id)) => !is_blank(id.as_str()),
        (ArtifactCapture::NotCaptured, None) => true,
        _ => false,
    };
    if !agrees {
        return Err(EngineError::InvalidCommit("artifact capture status disagrees with native content identity".to_owned()));
    }
    Ok(())
}

/// Validate a metadata snapshot's message identities.
pub fn validate_metadata_snapshot(native_message_id: &str, native_snapshot_message_id: &str) -> (r: Result<(), EngineError>)
    ensures
        r is Ok <==> !blank(native_message_id@) && !blank(native_snapshot_message_id@),
        r matches Err(e) ==> e is InvalidCommit,
{
    if is_blank(native_message_id) || is_blank(native_snapshot_message_id) {
        return Err(EngineError::InvalidCommit("artifact metadata message identities must not be empty".to_owned()));
    }
    Ok(())
}

/// No artifact key occurs twice.
pub open spec fn keys_distinct(keys: Seq<Seq<u8>>) -> bool {
    forall|i: int, j: int| 0 <= i < j < keys.len() ==> keys[i] != keys[j]
}

/// Byte views of a key sequence.
pub open spec fn key_views(keys: Seq<Vec<u8>>) -> Seq<Seq<u8>> {
    Seq::new(keys.len(), |i: int| keys[i]@)
}

/// A metadata snapshot may not name one artifact twice.
pub fn validate_snapshot_artifact_keys(keys: &Vec<Vec<u8>>) -> (r: Result<(), EngineError>)
    ensures
        r is Ok <==> keys_distinct(key_views(keys@)),
        r matches Err(e) ==> e is InvalidCommit,
{
    let ghost v = key_views(keys@);
    let mut i: usize = 0;
    while i < keys.len()
        invariant
            v == key_views(keys@),
            i <= keys@.len(),
            forall|a: int, b: int| 0 <= a < b < i ==> v[a] != v[b],
        decreases keys@.len() - i,
    {
        let mut j: usize = 0;
        while j < i
            invariant
                v == key_views(keys@),
                j <= i < keys@.len(),
                forall|a: int| 0 <= a < j ==> v[a] != v[i as int],
            decreases i - j,
        {
            if bytes_equal(keys[j].as_slice(), keys[i].as_slice()) {
                assert(v[j as int] == v[i as int]);
                return Err(EngineError::InvalidCommit("artifact metadata snapshot contains a duplicate artifact key".to_owned()));
            }
            j = j + 1;
        }
        i = i + 1;
    }
    Ok(())
}

/// Validate one content assertion: positive version, non-blank native ids,
/// and a declared size equal to the content's length.
pub fn validate_content_assertion(
    version: u64,
    native_artifact_id: &str,
    native_file_hash: &str,
    size_bytes: u64,
    content: &Vec<u8>,
) -> (r: Result<(), EngineError>)
    ensures
        r is Ok <==> version != 0 && !blank(native_artifact_id@) && !blank(native_file_hash@)
            && size_bytes == content@.len(),
        r matches Err(e) ==> e is InvalidCommit,
{
    if version == 0 || is_blank(native_artifact_id) || is_blank(native_file_hash) || size_bytes != content.len() as u64 {
        return Err(EngineError::InvalidCommit("artifact content identity, version, or byte size is invalid".to_owned()));
    }
    Ok(())
}

/// BLAKE3 digest of backed-up content.
pub fn content_digest(content: &Vec<u8>) -> (r: [u8; 32])
    ensures
        r@ == blake3_digest(content@),
{
    blake3_hash(content.as_slice())
}

/// One metadata assertion about an artifact, in fact-id order.
#[derive(Debug, Clone, PartialEq, Eq)]
pub struct MetadataAssertion {
    pub fact_id: Vec<u8>,
    pub session_key: Vec<u8>,
    pub native_artifact_id: Option<String>,
    pub tracking_path: String,
    pub real_parent_dir: Option<String>,
    pub version: i64,
    pub backup_time: String,
    pub backup_time_quality: String,
    pub capture_status: String,
    pub metadata_digest: Vec<u8>,
}

/// One content assertion about an artifact, in fact-id order.
#[derive(Debug, Clone, PartialEq, Eq)]
pub struct ContentAssertion {
    pub fact_id: Vec<u8>,
    pub session_key: Vec<u8>,
    pub native_artifact_id: String,
    pub native_file_hash: String,
    pub version: i64,
    pub size_bytes: i64,
    pub content_digest: Vec<u8>,
    pub assertion_digest: Vec<u8>,
}

/// How an artifact's assertions reduce.
#[derive(Debug, Clone, PartialEq, Eq)]
pub struct ArtifactReduction {
    pub resolution_status: Option<String>,
    pub content_status: Option<String>,
    pub metadata_assertion_count: usize,
    pub competing_metadata_count: usize,
    pub content_assertion_count: usize,
    pub competing_content_count: usize,
    pub join_conflict: bool,
}

/// Number of distinct values in `s`.
pub open spec fn distinct_count(s: Seq<Seq<u8>>) -> nat
    decreases s.len(),
{
    if s.len() == 0 {
        0
    } else if s.drop_last().contains(s.last()) {
        distinct_count(s.drop_last())
    } else {
        distinct_count(s.drop_last()) + 1
    }
}

proof fn lemma_distinct_count_bound(s: Seq<Seq<u8>>)
    ensures
        distinct_count(s) <= s.len(),
        s.len() > 0 ==> distinct_count(s) >= 1,
    decreases s.len(),
{
    if s.len() > 0 {
        lemma_distinct_count_bound(s.drop_last());
        if s.drop_last().len() == 0 {
            assert(!s.drop_last().contains(s.last()));
        }
    }
}

/// Metadata digests in order.
pub open spec fn metadata_digests(m: Seq<MetadataAssertion>) -> Seq<Seq<u8>> {
    Seq::new(m.len(), |i: int| m[i].metadata_digest@)
}

/// Content assertion digests in order.
pub open spec fn content_digests(c: Seq<ContentAssertion>) -> Seq<Seq<u8>> {
    Seq::new(c.len(), |i: int| c[i].assertion_digest@)
}

/// Number of distinct digests among `digests`.
fn count_distinct(digests: &Vec<&Vec<u8>>) -> (r: usize)
    ensures
        r == distinct_count(Seq::new(digests@.len(), |i: int| digests@[i]@)),
{
    let ghost s = Seq::new(digests@.len(), |i: int| digests@[i]@);
    let mut count: usize = 0;
    let mut i: usize = 0;
    proof {
        assert(s.take(0) =~= Seq::<Seq<u8>>::empty());
    }
    while i < digests.len()
        invariant
            s == Seq::new(digests@.len(), |i: int| digests@[i]@),
            i <= digests@.len(),
            count == distinct_count(s.take(i as int)),
            count <= i,
        decreases digests@.len() - i,
    {
        let ghost prefix = s.take(i as int + 1);
        assert(prefix.drop_last() =~= s.take(i as int));
        assert(prefix.last() == s[i as int]);
        let mut seen = false;
        let mut j: usize = 0;
        while j < i
            invariant
                s == Seq::new(digests@.len(), |i: int| digests@[i]@),
                j <= i < digests@.len(),
                seen == exists|k: int| 0 <= k < j && s[k] == s[i as int],
            decreases i - j,
        {
            let same = bytes_equal(digests[j].as_slice(), digests[i].as_slice());
            assert(s[j as int] == digests@[j as int]@);
            assert(s[i as int] == digests@[i as int]@);
            if same {
                seen = true;
            }
            j = j + 1;
        }
        proof {
            if seen {
                let k = choose|k: int| 0 <= k < i && s[k] == s[i as int];
                assert(s.take(i as int)[k] == s[i as int]);
            } else {
                assert forall|k: int| 0 <= k < s.take(i as int).len() implies s.take(i as int)[k] != s[i as int] by {
                    assert(s.take(i as int)[k] == s[k]);
                }
            }
        }
        if !seen {
            count = count + 1;
        }
        i = i + 1;
    }
    assert(s.take(digests@.len() as int) =~= s);
    count
}

/// Decisive halves disagree: a different session, native id or version, or
/// metadata that does not expect content.
pub open spec fn join_conflict_of(m: Seq<MetadataAssertion>, c: Seq<ContentAssertion>) -> bool {
    m.len() > 0 && c.len() > 0 && {
        let dm = m[0];
        let dc = c[0];
        ||| dm.session_key@ != dc.session_key@
        ||| !(dm.native_artifact_id matches Some(id) && id@ == dc.native_artifact_id@)
        ||| dm.version != dc.version
        ||| dm.capture_status@ != "content_expected"@
    }
}

/// Content status of an artifact with at least one assertion.
pub open spec fn content_status_of(m: Seq<MetadataAssertion>, c: Seq<ContentAssertion>) -> Seq<char> {
    if m.len() == 0 {
        "orphan_content"@
    } else if c.len() > 0 {
        "captured"@
    } else if m[0].capture_status@ == "not_captured"@ {
        "not_captured"@
    } else {
        "missing_content"@
    }
}

/// Saturating `n - 1`.
pub open spec fn less_one(n: nat) -> nat {
    if n == 0 { 0 } else { (n - 1) as nat }
}

/// Resolution of an artifact: conflicting with competing assertions or a
/// join conflict, incomplete with one half missing, otherwise resolved.
pub open spec fn resolution_status_of(m: Seq<MetadataAssertion>, c: Seq<ContentAssertion>) -> Seq<char> {
    let cs = content_status_of(m, c);
    if less_one(distinct_count(metadata_digests(m))) > 0 || less_one(distinct_count(content_digests(c))) > 0
        || join_conflict_of(m, c) {
        "conflicting"@
    } else if cs == "missing_content"@ || cs == "orphan_content"@ {
        "incomplete"@
    } else {
        "resolved"@
    }
}

/// Reduce an artifact's metadata and content assertions (each in fact-id
/// order; the first is decisive). With no assertions at all the artifact
/// has no canonical row.
pub fn reduce_artifact(metadata: &Vec<MetadataAssertion>, content: &Vec<ContentAssertion>) -> (r: ArtifactReduction)
    ensures
        metadata@.len() == 0 && content@.len() == 0 ==> r.resolution_status is None && r.content_status is None
            && r.metadata_assertion_count == 0 && r.competing_metadata_count == 0
            && r.content_assertion_count == 0 && r.competing_content_count == 0 && !r.join_conflict,
        !(metadata@.len() == 0 && content@.len() == 0) ==> {
            &&& r.metadata_assertion_count == metadata@.len()
            &&& r.content_assertion_count == content@.len()
            &&& r.competing_metadata_count == less_one(distinct_count(metadata_digests(metadata@)))
            &&& r.competing_content_count == less_one(distinct_count(content_digests(content@)))
            &&& r.join_conflict == join_conflict_of(metadata@, content@)
            &&& r.content_status matches Some(s) && s@ == content_status_of(metadata@, content@)
            &&& r.resolution_status matches Some(s) && s@ == resolution_status_of(metadata@, content@)
        },
{
    if metadata.len() == 0 && content.len() == 0 {
        return ArtifactReduction {
            resolution_status: None,
            content_status: None,
            metadata_assertion_count: 0,
            competing_metadata_count: 0,
            content_assertion_count: 0,
            competing_content_count: 0,
            join_conflict: false,
        };
    }
    let mut md: Vec<&Vec<u8>> = Vec::new();
    let mut i: usize = 0;
    while i < metadata.len()
        invariant
            i <= metadata@.len(),
            md@.len() == i,
            forall|k: int| 0 <= k < i ==> (#[trigger] md@[k])@ == metadata@[k].metadata_digest@,
        decreases metadata@.len() - i,
    {
        md.push(&metadata[i].metadata_digest);
        i = i + 1;
    }
    let mut cd: Vec<&Vec<u8>> = Vec::new();
    let mut i: usize = 0;
    while i < content.len()
        invariant
            i <= content@.len(),
            cd@.len() == i,
            forall|k: int| 0 <= k < i ==> (#[trigger] cd@[k])@ == content@[k].assertion_digest@,
        decreases content@.len() - i,
    {
        cd.push(&content[i].assertion_digest);
        i = i + 1;
    }
    let distinct_metadata = count_distinct(&md);
    let distinct_content = count_distinct(&cd);
    assert(Seq::new(md@.len(), |i: int| md@[i]@) =~= metadata_digests(metadata@));
    assert(Seq::new(cd@.len(), |i: int| cd@[i]@) =~= content_digests(content@));
    let competing_metadata_count = if distinct_metadata == 0 { 0 } else { distinct_metadata - 1 };
    let competing_content_count = if distinct_content == 0 { 0 } else { distinct_content - 1 };
    proof {
        reveal_strlit("content_expected");
        reveal_strlit("not_captured");
        reveal_strlit("missing_content");
        reveal_strlit("orphan_content");
        assert("missing_content"@[0] != "captured"@[0]) by { reveal_strlit("captured"); }
        assert("orphan_content"@[0] != "captured"@[0]) by { reveal_strlit("captured"); }
        assert("missing_content"@[0] != "not_captured"@[0]);
        assert("orphan_content"@[0] != "not_captured"@[0]);
    }
    let join_conflict = if metadata.len() > 0 && content.len() > 0 {
        let dm = &metadata[0];
        let dc = &content[0];
        let same_id = match &dm.native_artifact_id {
            Some(id) => crate::util::str_equal(id.as_str(), dc.native_artifact_id.as_str()),
            None => false,
        };
        !bytes_equal(dm.session_key.as_slice(), dc.session_key.as_slice()) || !same_id || dm.version != dc.version
            || !crate::util::str_equal(dm.capture_status.as_str(), "content_expected")
    } else {
        false
    };
    let content_status: &str = if metadata.len() == 0 {
        "orphan_content"
    } else if content.len() > 0 {
        "captured"
    } else if crate::util::str_equal(metadata[0].capture_status.as_str(), "not_captured") {
        "not_captured"
    } else {
        "missing_content"
    };
    let incomplete = metadata.len() == 0 || (content.len() == 0 && !crate::util::str_equal(metadata[0].capture_status.as_str(), "not_captured"));
    let resolution_status: &str = if competing_metadata_count > 0 || competing_content_count > 0 || join_conflict {
        "conflicting"
    } else if incomplete {
        "incomplete"
    } else {
        "resolved"
    };
    ArtifactReduction {
        resolution_status: Some(resolution_status.to_owned()),
        content_status: Some(content_status.to_owned()),
        metadata_assertion_count: metadata.len(),
        competing_metadata_count,
        content_assertion_count: content.len(),
        competing_content_count,
        join_conflict,
    }
}

/// Competing evidence of an artifact: competing metadata and content plus
/// one for a join conflict, saturating.
pub open spec fn competing_total(r: ArtifactReduction) -> nat {
    let a = r.competing_metadata_count + r.competing_content_count;
    let a: nat = if a > usize::MAX { usize::MAX as nat } else { a as nat };
    let b = a + if r.join_conflict { 1nat } else { 0nat };
    if b > usize::MAX { usize::MAX as nat } else { b }
}

/// Competing evidence count carried by the conflict change.
pub fn competing_count(reduction: &ArtifactReduction) -> (r: usize)
    ensures
        r == competing_total(*reduction),
{
    let extra: usize = if reduction.join_conflict { 1 } else { 0 };
    reduction.competing_metadata_count.saturating_add(reduction.competing_content_count).saturating_add(extra)
}

/// Operation of a change: an artifact that still exists is upserted.
pub fn change_operation(present: bool) -> (r: &'static str)
    ensures
        r@ == (if present { "upsert"@ } else { "delete"@ }),
{
    if present { "upsert" } else { "delete" }
}

/// Which halves of the artifact projection a batch touches.
#[derive(Debug, Clone, Copy, PartialEq, Eq, Structural)]
pub struct ArtifactTouch {
    pub metadata: bool,
    pub content: bool,
}

/// Append metadata is touched by new metadata facts, or by a generation
/// replacement that retracts owned metadata; replaceable content is touched
/// by new content facts or by owned content that must be deleted.
pub fn artifact_touch(
    has_metadata_fact: bool,
    has_content_fact: bool,
    replaces_prior_generation: bool,
    owns_metadata: bool,
    owns_content: bool,
) -> (r: ArtifactTouch)
    ensures
        r.metadata == (has_metadata_fact || (replaces_prior_generation && owns_metadata)),
        r.content == (has_content_fact || owns_content),
{
    ArtifactTouch {
        metadata: has_metadata_fact || (replaces_prior_generation && owns_metadata),
        content: has_content_fact || owns_content,
    }
}


/// Keys in strictly ascending byte order: sorted, with no key twice.
pub open spec fn keys_strictly_sorted(keys: Seq<Vec<u8>>) -> bool {
    forall|i: int, j: int| 0 <= i < j < keys.len() ==> lex_lt(#[trigger] keys[i]@, #[trigger] keys[j]@)
}

/// Some key of `keys` has the bytes `x`.
pub open spec fn holds_key(keys: Seq<Vec<u8>>, x: Seq<u8>) -> bool {
    exists|i: int| 0 <= i < keys.len() && keys[i]@ == x
}

/// Insert `key` into strictly sorted keys unless it is already there.
fn insert_key(sorted: &mut Vec<Vec<u8>>, key: Vec<u8>)
    requires
        keys_strictly_sorted(old(sorted)@),
    ensures
        keys_strictly_sorted(final(sorted)@),
        forall|x: Seq<u8>|
            #![trigger holds_key(final(sorted)@, x)]
            #![trigger holds_key(old(sorted)@, x)]
            holds_key(final(sorted)@, x) <==> (holds_key(old(sorted)@, x) || x == key@),
{
    let ghost s = sorted@;
    let n = sorted.len();
    let mut i: usize = 0;
    while i < n
        invariant
            n == sorted@.len(),
            sorted@ == s,
            i <= n,
            forall|j: int| 0 <= j < i ==> lex_lt(#[trigger] s[j]@, key@),
        ensures
            i <= n,
            forall|j: int| 0 <= j < i ==> lex_lt(#[trigger] s[j]@, key@),
            i == n || !lex_lt(s[i as int]@, key@),
        decreases n - i,
    {
        if compare_bytes(sorted[i].as_slice(), key.as_slice()) != ByteOrder::Less {
            break;
        }
        i = i + 1;
    }
    if i < n && bytes_equal(sorted[i].as_slice(), key.as_slice()) {
        proof {
            assert forall|x: Seq<u8>| holds_key(s, x) <==> (holds_key(s, x) || x == key@) by {
                if x == key@ {
                    assert(s[i as int]@ == x);
                }
            }
        }
        return;
    }
    proof {
        if i < n {
            lemma_lex_total(s[i as int]@, key@);
        }
    }
    sorted.insert(i, key);
    proof {
        let t = sorted@;
        assert(t == s.insert(i as int, key));
        assert forall|a: int, b: int| 0 <= a < b < t.len() implies lex_lt(#[trigger] t[a]@, #[trigger] t[b]@) by {
            if b < i {
            } else if b == i {
            } else if a < i {
                assert(t[b] == s[b - 1]);
                if a < b - 1 {
                    assert(lex_lt(s[a]@, s[b - 1]@));
                } else {
                    assert(lex_lt(s[a]@, key@));
                    assert(lex_lt(key@, s[i as int]@));
                    assert(b - 1 == i);
                }
            } else if a == i {
                assert(t[a] == key);
                assert(t[b] == s[b - 1]);
                assert(lex_lt(key@, s[i as int]@));
                if b - 1 > i {
                    assert(lex_lt(s[i as int]@, s[b - 1]@));
                    lemma_lex_transitive(key@, s[i as int]@, s[b - 1]@);
                }
            } else {
                assert(t[a] == s[a - 1]);
                assert(t[b] == s[b - 1]);
            }
        }
        assert forall|x: Seq<u8>| holds_key(t, x) <==> (holds_key(s, x) || x == key@) by {
            if holds_key(t, x) {
                let w = choose|w: int| 0 <= w < t.len() && t[w]@ == x;
                if w < i {
                    assert(s[w]@ == x);
                } else if w > i {
                    assert(s[w - 1]@ == x);
                }
            }
            if holds_key(s, x) {
                let w = choose|w: int| 0 <= w < s.len() && s[w]@ == x;
                if w < i {
                    assert(t[w]@ == x);
                } else {
                    assert(t[w + 1]@ == x);
                }
            }
            if x == key@ {
                assert(t[i as int]@ == x);
            }
        }
    }
}

/// Insert every key of `keys` into strictly sorted keys.
fn insert_keys(sorted: &mut Vec<Vec<u8>>, keys: &Vec<Vec<u8>>)
    requires
        keys_strictly_sorted(old(sorted)@),
    ensures
        keys_strictly_sorted(final(sorted)@),
        forall|x: Seq<u8>|
            #![trigger holds_key(final(sorted)@, x)]
            #![trigger holds_key(old(sorted)@, x)]
            #![trigger holds_key(keys@, x)]
            holds_key(final(sorted)@, x) <==> (holds_key(old(sorted)@, x) || holds_key(keys@, x)),
{
    let ghost s0 = sorted@;
    let mut i: usize = 0;
    while i < keys.len()
        invariant
            i <= keys@.len(),
            keys_strictly_sorted(sorted@),
            forall|x: Seq<u8>|
                #![trigger holds_key(sorted@, x)]
                #![trigger holds_key(s0, x)]
                #![trigger holds_key(keys@.take(i as int), x)]
                holds_key(sorted@, x) <==> (holds_key(s0, x) || holds_key(keys@.take(i as int), x)),
        decreases keys@.len() - i,
    {
        let k = keys[i].clone();
        assert(k@ =~= keys@[i as int]@);
        let ghost before = sorted@;
        let ghost done = keys@.take(i as int);
        let ghost next = keys@.take(i as int + 1);
        insert_key(sorted, k);
        proof {
            assert forall|x: Seq<u8>| holds_key(next, x) <==> (holds_key(done, x) || x == keys@[i as int]@) by {
                if holds_key(next, x) {
                    let w = choose|w: int| 0 <= w < next.len() && next[w]@ == x;
                    if w < i {
                        assert(done[w]@ == x);
                    }
                }
                if holds_key(done, x) {
                    let w = choose|w: int| 0 <= w < done.len() && done[w]@ == x;
                    assert(next[w]@ == x);
                }
                if x == keys@[i as int]@ {
                    assert(next[i as int]@ == x);
                }
            }
        }
        i = i + 1;
    }
    assert(keys@.take(keys@.len() as int) =~= keys@);
}

/// The artifacts a batch re-reduces, each once, in ascending key order:
/// the owned metadata artifacts when metadata is touched, the owned content
/// artifacts when content is touched, and every artifact a fact names.
pub fn affected_artifact_keys(
    touch: ArtifactTouch,
    owned_metadata: &Vec<Vec<u8>>,
    owned_content: &Vec<Vec<u8>>,
    fact_keys: &Vec<Vec<u8>>,
) -> (r: Vec<Vec<u8>>)
    ensures
        keys_strictly_sorted(r@),
        forall|x: Seq<u8>| #[trigger] holds_key(r@, x) <==> {
            ||| touch.metadata && holds_key(owned_metadata@, x)
            ||| touch.content && holds_key(owned_content@, x)
            ||| holds_key(fact_keys@, x)
        },
{
    let mut keys: Vec<Vec<u8>> = Vec::new();
    let ghost empty = keys@;
    if touch.metadata {
        insert_keys(&mut keys, owned_metadata);
    }
    let ghost after_metadata = keys@;
    if touch.content {
        insert_keys(&mut keys, owned_content);
    }
    let ghost after_content = keys@;
    insert_keys(&mut keys, fact_keys);
    proof {
        assert forall|x: Seq<u8>| #[trigger] holds_key(keys@, x) <==> {
            ||| touch.metadata && holds_key(owned_metadata@, x)
            ||| touch.content && holds_key(owned_content@, x)
            ||| holds_key(fact_keys@, x)
        } by {
            assert(!holds_key(empty, x));
            assert(holds_key(keys@, x) <==> (holds_key(after_content, x) || holds_key(fact_keys@, x)));
            assert(holds_key(after_content, x) <==> (holds_key(after_metadata, x) || (touch.content && holds_key(owned_content@, x))));
            assert(holds_key(after_metadata, x) <==> (touch.metadata && holds_key(owned_metadata@, x)));
        }
    }
    keys
}

} // verus!
