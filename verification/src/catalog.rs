//! Catalog membership: the four completeness states, page bounds, the row
//! and page shapes of project and session listings, the external-reference
//! and continuation-cursor codecs, and the derivations that turn committed
//! rows into catalog answers.
use vstd::prelude::*;
use vstd::utf8::*;
use crate::codec::{
    base64url_bytes, base64url_decode, base64url_encode, base64url_text, be32, be32_value, be64,
    be64_value, lemma_be32_round_trip, lemma_be64_round_trip, push_be32, push_be64, push_bytes,
    read_be32, read_be64,
};
use crate::error::EngineError;
use crate::identity::{
    encode_entity_id, entity_id_text, has_prefix, strip_prefix, PROJECT_ID_PREFIX,
    SESSION_ID_PREFIX,
};
use crate::util::{copy_range, push_str, str_equal, utf8_string};
use vstd::string::StringSliceAdditionalSpecFns;

verus! {

broadcast use vstd::seq::group_seq_axioms;

/// Largest page a catalog query will return.
pub const MAX_CATALOG_PAGE_LIMIT: u32 = 500;

/// Page size used when a caller does not ask for one.
pub const DEFAULT_CATALOG_PAGE_LIMIT: u32 = 100;

/// Text that begins every catalog continuation cursor.
pub const CATALOG_CURSOR_PREFIX: &'static str = "catalog_v1_";

/// Text that begins every external reference: the encoding version and a
/// colon.
pub const EXTERNAL_REF_PREFIX: &'static str = "1:";

/// How much of an entity is available, from bare discoverability up to
/// full-text searchable. A later variant implies every earlier one.
#[derive(Debug, Clone, Copy, PartialEq, Eq, Structural, PartialOrd, Ord, Hash)]
pub enum CatalogState {
    /// Native evidence proves the entity exists. Nothing is decoded.
    Discovered,
    /// A transcript object exists and durable ingestion has a canonical row.
    TranscriptBacked,
    /// Messages are decoded and readable.
    Hydrated,
    /// Present in the full-text index.
    Searchable,
}

/// Position of a state in the completeness order.
pub open spec fn state_rank(s: CatalogState) -> nat {
    match s {
        CatalogState::Discovered => 0,
        CatalogState::TranscriptBacked => 1,
        CatalogState::Hydrated => 2,
        CatalogState::Searchable => 3,
    }
}

/// Wire text of a state.
pub open spec fn state_text(s: CatalogState) -> Seq<char> {
    match s {
        CatalogState::Discovered => "discovered"@,
        CatalogState::TranscriptBacked => "transcript_backed"@,
        CatalogState::Hydrated => "hydrated"@,
        CatalogState::Searchable => "searchable"@,
    }
}

/// State named by a stored text; anything unrecognised is `discovered`.
pub open spec fn state_of_text(t: Seq<char>) -> CatalogState {
    if t == "searchable"@ {
        CatalogState::Searchable
    } else if t == "hydrated"@ {
        CatalogState::Hydrated
    } else if t == "transcript_backed"@ {
        CatalogState::TranscriptBacked
    } else {
        CatalogState::Discovered
    }
}

impl CatalogState {
    /// Wire text of the state.
    pub fn as_str(self) -> (r: &'static str)
        ensures
            r@ == state_text(self),
    {
        match self {
            CatalogState::Discovered => "discovered",
            CatalogState::TranscriptBacked => "transcript_backed",
            CatalogState::Hydrated => "hydrated",
            CatalogState::Searchable => "searchable",
        }
    }
}

/// Parse a stored state text.
pub fn parse_state(value: &str) -> (r: CatalogState)
    ensures
        r == state_of_text(value@),
{
    if str_equal(value, "searchable") {
        CatalogState::Searchable
    } else if str_equal(value, "hydrated") {
        CatalogState::Hydrated
    } else if str_equal(value, "transcript_backed") {
        CatalogState::TranscriptBacked
    } else {
        CatalogState::Discovered
    }
}

/// Every state's wire text parses back to that state.
pub proof fn lemma_state_text_round_trip(s: CatalogState)
    ensures
        state_of_text(state_text(s)) == s,
{
    reveal_strlit("discovered");
    reveal_strlit("transcript_backed");
    reveal_strlit("hydrated");
    reveal_strlit("searchable");
    assert("discovered"@[0] != "searchable"@[0]);
    assert("discovered"@[0] != "hydrated"@[0]);
    assert("discovered"@[0] != "transcript_backed"@[0]);
    assert("transcript_backed"@[0] != "searchable"@[0]);
    assert("transcript_backed"@[0] != "hydrated"@[0]);
    assert("hydrated"@[0] != "searchable"@[0]);
}

/// Completeness of a project from its session rollup: it is only as
/// complete as its weakest session, and an empty project is discovered.
pub open spec fn project_state_of(session_count: int, transcript_count: int, hydrated_count: int) -> CatalogState {
    if session_count <= 0 {
        CatalogState::Discovered
    } else if hydrated_count >= session_count {
        CatalogState::Hydrated
    } else if transcript_count >= session_count {
        CatalogState::TranscriptBacked
    } else {
        CatalogState::Discovered
    }
}

/// Completeness of a project from its session rollup.
pub fn project_state(session_count: i64, transcript_count: i64, hydrated_count: i64) -> (r: CatalogState)
    ensures
        r == project_state_of(session_count as int, transcript_count as int, hydrated_count as int),
        session_count > 0 ==> ((r == CatalogState::Hydrated) <==> hydrated_count >= session_count),
        session_count > 0 ==> ((r == CatalogState::TranscriptBacked)
            <==> (transcript_count >= session_count && hydrated_count < session_count)),
        (r == CatalogState::Discovered) <==> (session_count <= 0
            || (hydrated_count < session_count && transcript_count < session_count)),
{
    if session_count <= 0 {
        return CatalogState::Discovered;
    }
    if hydrated_count >= session_count {
        CatalogState::Hydrated
    } else if transcript_count >= session_count {
        CatalogState::TranscriptBacked
    } else {
        CatalogState::Discovered
    }
}

/// A project never claims a state above hydrated, and claims hydrated or
/// transcript-backed only when every session is at least that complete.
pub proof fn lemma_project_state_weakest(session_count: int, transcript_count: int, hydrated_count: int)
    ensures
        state_rank(project_state_of(session_count, transcript_count, hydrated_count)) <= 2,
        project_state_of(session_count, transcript_count, hydrated_count) == CatalogState::Hydrated
            ==> session_count > 0 && hydrated_count >= session_count,
        project_state_of(session_count, transcript_count, hydrated_count) == CatalogState::TranscriptBacked
            ==> session_count > 0 && transcript_count >= session_count,
{
}

/// A project with sessions is hydrated exactly when every session is
/// hydrated, transcript-backed exactly when every session has a transcript
/// but some is not hydrated, and discovered exactly when it has no session
/// or some session lacks a transcript; it is never searchable.
pub proof fn lemma_project_state_exact(session_count: int, transcript_count: int, hydrated_count: int)
    ensures
        session_count > 0 ==> ((project_state_of(session_count, transcript_count, hydrated_count) == CatalogState::Hydrated)
            <==> hydrated_count >= session_count),
        session_count > 0 ==> ((project_state_of(session_count, transcript_count, hydrated_count)
            == CatalogState::TranscriptBacked) <==> (transcript_count >= session_count && hydrated_count < session_count)),
        (project_state_of(session_count, transcript_count, hydrated_count) == CatalogState::Discovered)
            <==> (session_count <= 0 || (hydrated_count < session_count && transcript_count < session_count)),
        project_state_of(session_count, transcript_count, hydrated_count) != CatalogState::Searchable,
{
}

/// Bounded page request shared by the project and session queries.
#[derive(Debug, Clone, PartialEq, Eq)]
pub struct CatalogPageBounds {
    /// Opaque continuation token from a previous page. A cursor is bound to
    /// the commit watermark it was minted at.
    pub cursor: Option<String>,
    pub limit: u32,
}

impl Default for CatalogPageBounds {
    fn default() -> (r: Self)
        ensures
            r.cursor is None,
            r.limit == DEFAULT_CATALOG_PAGE_LIMIT,
    {
        CatalogPageBounds { cursor: None, limit: DEFAULT_CATALOG_PAGE_LIMIT }
    }
}

/// Page sizes must lie in `1..=MAX_CATALOG_PAGE_LIMIT`.
pub fn validate_limit(limit: u32) -> (r: Result<u32, EngineError>)
    ensures
        r is Ok <==> 1 <= limit <= MAX_CATALOG_PAGE_LIMIT,
        r matches Ok(v) ==> v == limit,
        r matches Err(e) ==> e is InvalidQuery,
{
    if limit == 0 || limit > MAX_CATALOG_PAGE_LIMIT {
        return Err(EngineError::InvalidQuery("catalog page limit must be between 1 and 500".to_owned()));
    }
    Ok(limit)
}

/// A watermark passed to SQLite must fit its signed integers.
pub fn to_i64(value: u64) -> (r: Result<i64, EngineError>)
    ensures
        r is Ok <==> value <= i64::MAX,
        r matches Ok(v) ==> v == value,
        r matches Err(e) ==> e is Sqlite,
{
    if value > 9223372036854775807u64 {
        return Err(EngineError::Sqlite {
            operation: "encode catalog watermark",
            detail: "value exceeds the SQLite integer range".to_owned(),
        });
    }
    Ok(value as i64)
}

/// Text of an external reference for a canonical entity digest.
pub open spec fn external_ref_text(digest: Seq<u8>) -> Seq<char> {
    EXTERNAL_REF_PREFIX@ + base64url_text(digest)
}

/// Digest an external reference names, when it has the current encoding
/// version and a 32-byte payload.
pub open spec fn external_ref_digest(value: Seq<char>) -> Option<Seq<u8>> {
    if has_prefix(value, EXTERNAL_REF_PREFIX@) {
        match base64url_bytes(value.subrange(EXTERNAL_REF_PREFIX@.len() as int, value.len() as int)) {
            Some(b) => if b.len() == 32 { Some(b) } else { None },
            None => None,
        }
    } else {
        None
    }
}

/// Text form of an external reference: the encoding version, then the
/// digest. Every 32-byte digest's reference resolves back to the digest.
pub fn encode_external_ref(digest: &[u8]) -> (r: String)
    requires
        digest@.len() <= usize::MAX / 2,
    ensures
        r@ == external_ref_text(digest@),
        digest@.len() == 32 ==> external_ref_digest(r@) == Some(digest@),
{
    let mut out = String::new();
    push_str(&mut out, EXTERNAL_REF_PREFIX);
    let encoded = base64url_encode(digest);
    push_str(&mut out, encoded.as_str());
    proof {
        let t = out@;
        assert(t.subrange(0, EXTERNAL_REF_PREFIX@.len() as int) =~= EXTERNAL_REF_PREFIX@);
        assert(t.subrange(EXTERNAL_REF_PREFIX@.len() as int, t.len() as int) =~= encoded@);
    }
    out
}

/// Decode an external reference to its digest.
pub fn decode_external_ref(value: &str) -> (r: Option<Vec<u8>>)
    ensures
        r is Some <==> external_ref_digest(value@) is Some,
        r matches Some(d) ==> external_ref_digest(value@) == Some(d@),
{
    let rest = match strip_prefix(value, EXTERNAL_REF_PREFIX) {
        Some(rest) => rest,
        None => return None,
    };
    proof {
        assert(value@.subrange(EXTERNAL_REF_PREFIX@.len() as int, value@.len() as int) =~= rest@);
    }
    match base64url_decode(rest) {
        Some(bytes) => if bytes.len() == 32 {
            Some(bytes)
        } else {
            None
        },
        None => None,
    }
}

/// Index of the last occurrence of `c` in `s`, or -1.
pub open spec fn last_index_of(s: Seq<char>, c: char) -> int
    decreases s.len(),
{
    if s.len() == 0 {
        -1
    } else if s.last() == c {
        s.len() - 1
    } else {
        last_index_of(s.drop_last(), c)
    }
}

proof fn lemma_last_index_of_bounds(s: Seq<char>, c: char)
    ensures
        -1 <= last_index_of(s, c) < s.len(),
        last_index_of(s, c) >= 0 ==> s[last_index_of(s, c)] == c,
    decreases s.len(),
{
    if s.len() > 0 && s.last() != c {
        lemma_last_index_of_bounds(s.drop_last(), c);
    }
}

/// Key bytes an entity id carries after its last underscore, or empty when
/// there is none or the text after it is not base64.
pub open spec fn entity_bytes_of(id: Seq<char>) -> Seq<u8> {
    let i = last_index_of(id, '_');
    if i < 0 {
        Seq::empty()
    } else {
        match base64url_bytes(id.subrange(i + 1, id.len() as int)) {
            Some(b) => b,
            None => Seq::empty(),
        }
    }
}

/// Key bytes of an entity id: the base64 text after its last underscore.
pub fn decode_entity_bytes(entity_id: &str) -> (r: Vec<u8>)
    ensures
        r@ == entity_bytes_of(entity_id@),
{
    let n = entity_id.unicode_len();
    let mut i: usize = n;
    proof {
        assert(entity_id@.subrange(0, n as int) =~= entity_id@);
    }
    while i > 0
        invariant
            n == entity_id@.len(),
            i <= n,
            last_index_of(entity_id@, '_') == last_index_of(entity_id@.subrange(0, i as int), '_'),
        decreases i,
    {
        let c = entity_id.get_char(i - 1);
        if c == '_' {
            let rest = entity_id.substring_char(i, n);
            return match base64url_decode(rest) {
                Some(b) => b,
                None => Vec::new(),
            };
        }
        proof {
            assert(entity_id@.subrange(0, i as int).drop_last() =~= entity_id@.subrange(0, i - 1));
        }
        i = i - 1;
    }
    Vec::new()
}


/// Position a catalog page resumes after: the snapshot it was minted at, the
/// last row's sort key, and the last row's entity key.
#[derive(Debug, Clone, PartialEq, Eq)]
pub struct CatalogCursor {
    pub watermark: u64,
    pub sort_key: String,
    pub entity_key: Vec<u8>,
}

/// Binary payload of a cursor: the watermark (eight bytes, big-endian), the
/// sort key's byte length (four bytes, big-endian), the sort key's UTF-8
/// bytes, then the entity key.
pub open spec fn cursor_payload(watermark: u64, sort: Seq<u8>, key: Seq<u8>) -> Seq<u8> {
    be64(watermark) + be32(sort.len() as u32) + sort + key
}

/// Text of a cursor: the version prefix, then the base64 payload.
pub open spec fn catalog_cursor_text(watermark: u64, sort: Seq<u8>, key: Seq<u8>) -> Seq<char> {
    CATALOG_CURSOR_PREFIX@ + base64url_text(cursor_payload(watermark, sort, key))
}

/// Fields of a cursor payload: watermark, sort-key bytes, entity key.
pub open spec fn parse_cursor_payload(b: Seq<u8>) -> Option<(u64, Seq<u8>, Seq<u8>)> {
    if b.len() < 12 {
        None
    } else {
        let n = be32_value(b.subrange(8, 12));
        if b.len() < 12 + n {
            None
        } else if !valid_utf8(b.subrange(12, 12 + n)) {
            None
        } else {
            Some((be64_value(b.subrange(0, 8)) as u64, b.subrange(12, 12 + n), b.subrange(12 + n, b.len() as int)))
        }
    }
}

/// Fields of a cursor text, when it is well formed.
pub open spec fn parse_catalog_cursor(text: Seq<char>) -> Option<(u64, Seq<u8>, Seq<u8>)> {
    if has_prefix(text, CATALOG_CURSOR_PREFIX@) {
        match base64url_bytes(text.subrange(CATALOG_CURSOR_PREFIX@.len() as int, text.len() as int)) {
            Some(b) => parse_cursor_payload(b),
            None => None,
        }
    } else {
        None
    }
}

/// A cursor's sort key and entity key are small enough to frame.
pub open spec fn cursor_fits(sort: Seq<u8>, key: Seq<u8>) -> bool {
    sort.len() + key.len() <= 0x7fff_0000
}

/// Encode a continuation cursor. The text parses back to exactly the
/// cursor's watermark, sort key and entity key.
pub fn encode_catalog_cursor(c: &CatalogCursor) -> (r: String)
    requires
        cursor_fits(encode_utf8(c.sort_key@), c.entity_key@),
    ensures
        r@ == catalog_cursor_text(c.watermark, encode_utf8(c.sort_key@), c.entity_key@),
        parse_catalog_cursor(r@) == Some((c.watermark, encode_utf8(c.sort_key@), c.entity_key@)),
{
    let sort = c.sort_key.as_str().as_bytes();
    let ghost sb = encode_utf8(c.sort_key@);
    assert(sort@ == sb);
    let mut payload: Vec<u8> = Vec::new();
    push_be64(&mut payload, c.watermark);
    push_be32(&mut payload, sort.len() as u32);
    push_bytes(&mut payload, sort);
    push_bytes(&mut payload, c.entity_key.as_slice());
    let ghost p = payload@;
    assert(p =~= cursor_payload(c.watermark, sb, c.entity_key@));
    let encoded = base64url_encode(payload.as_slice());
    let mut out = String::new();
    push_str(&mut out, CATALOG_CURSOR_PREFIX);
    push_str(&mut out, encoded.as_str());
    proof {
        let t = out@;
        let plen = CATALOG_CURSOR_PREFIX@.len() as int;
        assert(t.subrange(0, plen) =~= CATALOG_CURSOR_PREFIX@);
        assert(t.subrange(plen, t.len() as int) =~= encoded@);
        let n: int = sb.len() as int;
        lemma_be64_round_trip(c.watermark);
        lemma_be32_round_trip(n as u32);
        assert(p.subrange(0, 8) =~= be64(c.watermark));
        assert(p.subrange(8, 12) =~= be32(n as u32));
        assert(p.subrange(12, 12 + n) =~= sb);
        assert(p.subrange(12 + n, p.len() as int) =~= c.entity_key@);
        encode_utf8_valid_utf8(c.sort_key@);
    }
    out
}

/// A cursor decoded from the text minted for `c` is `c` again: the same
/// watermark, sort key and entity key.
pub proof fn lemma_catalog_cursor_restores(c: CatalogCursor, d: CatalogCursor, text: Seq<char>)
    requires
        parse_catalog_cursor(text) == Some((c.watermark, encode_utf8(c.sort_key@), c.entity_key@)),
        parse_catalog_cursor(text) == Some((d.watermark, encode_utf8(d.sort_key@), d.entity_key@)),
    ensures
        d.watermark == c.watermark,
        d.sort_key@ == c.sort_key@,
        d.entity_key@ == c.entity_key@,
{
    encode_utf8_decode_utf8(c.sort_key@);
    encode_utf8_decode_utf8(d.sort_key@);
}

fn invalid_cursor() -> (e: EngineError)
    ensures
        e matches EngineError::InvalidQuery(m) && m@ == "catalog cursor is not valid"@,
{
    EngineError::InvalidQuery("catalog cursor is not valid".to_owned())
}

/// Decode a continuation cursor, refusing one minted at a newer snapshot
/// than `watermark`.
pub fn decode_catalog_cursor(value: Option<&str>, watermark: u64) -> (r: Result<Option<CatalogCursor>, EngineError>)
    ensures
        value is None ==> r matches Ok(None),
        value matches Some(v) ==> (r is Ok <==> (parse_catalog_cursor(v@) matches Some(f) && f.0 <= watermark)),
        value matches Some(v) ==> (r matches Ok(o) ==> (o matches Some(c)
            && parse_catalog_cursor(v@) == Some((c.watermark, encode_utf8(c.sort_key@), c.entity_key@)))),
        r matches Err(e) ==> e is InvalidQuery,
{
    let v = match value {
        None => return Ok(None),
        Some(v) => v,
    };
    let rest = match strip_prefix(v, CATALOG_CURSOR_PREFIX) {
        Some(rest) => rest,
        None => return Err(invalid_cursor()),
    };
    proof {
        assert(v@.subrange(CATALOG_CURSOR_PREFIX@.len() as int, v@.len() as int) =~= rest@);
    }
    let bytes = match base64url_decode(rest) {
        Some(b) => b,
        None => return Err(invalid_cursor()),
    };
    let len = bytes.len();
    if len < 12 {
        return Err(invalid_cursor());
    }
    let cursor_watermark = read_be64(&bytes, 0);
    let sort_len = read_be32(&bytes, 8) as usize;
    if len - 12 < sort_len {
        return Err(invalid_cursor());
    }
    let sort_bytes = copy_range(&bytes, 12, 12 + sort_len);
    let sort_key = match utf8_string(sort_bytes) {
        Some(s) => s,
        None => return Err(invalid_cursor()),
    };
    let entity_key = copy_range(&bytes, 12 + sort_len, len);
    if cursor_watermark > watermark {
        return Err(EngineError::InvalidQuery("catalog cursor was issued for a newer snapshot".to_owned()));
    }
    Ok(Some(CatalogCursor { watermark: cursor_watermark, sort_key, entity_key }))
}


/// A character allowed in an adapter id inlined into SQL.
pub open spec fn adapter_id_char(c: char) -> bool {
    ('a' <= c && c <= 'z') || ('A' <= c && c <= 'Z') || ('0' <= c && c <= '9') || c == '-' || c == '_'
}

/// An adapter id that may be inlined into SQL: non-empty ASCII letters,
/// digits, hyphens and underscores.
pub open spec fn valid_adapter_id(id: Seq<char>) -> bool {
    id.len() > 0 && forall|i: int| 0 <= i < id.len() ==> adapter_id_char(#[trigger] id[i])
}

/// The requested ids that may be inlined, in request order.
pub open spec fn kept_adapter_ids(ids: Seq<Seq<char>>) -> Seq<Seq<char>>
    decreases ids.len(),
{
    if ids.len() == 0 {
        Seq::empty()
    } else {
        let k = kept_adapter_ids(ids.drop_last());
        if valid_adapter_id(ids.last()) {
            k.push(ids.last())
        } else {
            k
        }
    }
}

/// An id as a quoted SQL literal.
pub open spec fn quoted(id: Seq<char>) -> Seq<char> {
    "'"@ + id + "'"@
}

/// Quoted ids separated by a comma and a space.
pub open spec fn quoted_list(ids: Seq<Seq<char>>) -> Seq<char>
    decreases ids.len(),
{
    if ids.len() == 0 {
        Seq::empty()
    } else if ids.len() == 1 {
        quoted(ids[0])
    } else {
        quoted_list(ids.drop_last()) + ", "@ + quoted(ids.last())
    }
}

/// SQL condition restricting a page to the requested adapters: all rows
/// when none are requested, no rows when none of them is a valid id.
pub open spec fn adapter_filter_text(ids: Seq<Seq<char>>) -> Seq<char> {
    if ids.len() == 0 {
        "1 = 1"@
    } else if kept_adapter_ids(ids).len() == 0 {
        "1 = 0"@
    } else {
        "adapter_id IN ("@ + quoted_list(kept_adapter_ids(ids)) + ")"@
    }
}

/// Character views of a string sequence.
pub open spec fn string_views(v: Seq<String>) -> Seq<Seq<char>> {
    Seq::new(v.len(), |i: int| v[i]@)
}

/// Whether an id may be inlined into SQL.
pub fn is_valid_adapter_id(id: &str) -> (r: bool)
    ensures
        r == valid_adapter_id(id@),
{
    let n = id.unicode_len();
    if n == 0 {
        return false;
    }
    let mut i: usize = 0;
    while i < n
        invariant
            n == id@.len(),
            i <= n,
            forall|j: int| 0 <= j < i ==> adapter_id_char(#[trigger] id@[j]),
        decreases n - i,
    {
        let c = id.get_char(i);
        if !(('a' <= c && c <= 'z') || ('A' <= c && c <= 'Z') || ('0' <= c && c <= '9') || c == '-' || c == '_') {
            return false;
        }
        i = i + 1;
    }
    true
}

/// SQL fragment restricting a page to the requested adapters. Only ids made
/// of ASCII letters, digits, hyphens and underscores are inlined, so the
/// fragment cannot inject.
pub fn adapter_filter(adapter_ids: &Vec<String>) -> (r: String)
    ensures
        r@ == adapter_filter_text(string_views(adapter_ids@)),
{
    let ghost ids = string_views(adapter_ids@);
    if adapter_ids.len() == 0 {
        return "1 = 1".to_owned();
    }
    let mut list = String::new();
    let mut count: usize = 0;
    let mut i: usize = 0;
    assert(ids.take(0) =~= Seq::<Seq<char>>::empty());
    while i < adapter_ids.len()
        invariant
            ids == string_views(adapter_ids@),
            i <= adapter_ids@.len(),
            count == kept_adapter_ids(ids.take(i as int)).len(),
            count <= i,
            list@ == quoted_list(kept_adapter_ids(ids.take(i as int))),
        decreases adapter_ids@.len() - i,
    {
        assert(ids.take(i as int + 1).drop_last() =~= ids.take(i as int));
        assert(ids.take(i as int + 1).last() == adapter_ids@[i as int]@);
        let id = adapter_ids[i].as_str();
        if is_valid_adapter_id(id) {
            let ghost before = kept_adapter_ids(ids.take(i as int));
            if count > 0 {
                push_str(&mut list, ", ");
            }
            push_str(&mut list, "'");
            push_str(&mut list, id);
            push_str(&mut list, "'");
            proof {
                let after = before.push(id@);
                assert(after.drop_last() =~= before);
                if before.len() == 0 {
                    assert(list@ =~= quoted(id@));
                } else {
                    assert(list@ =~= quoted_list(before) + ", "@ + quoted(id@));
                }
            }
            count = count + 1;
        }
        i = i + 1;
    }
    assert(ids.take(adapter_ids@.len() as int) =~= ids);
    if count == 0 {
        return "1 = 0".to_owned();
    }
    let mut out = String::new();
    push_str(&mut out, "adapter_id IN (");
    push_str(&mut out, list.as_str());
    push_str(&mut out, ")");
    out
}


/// Request for one page of catalog projects.
#[derive(Debug, Clone, PartialEq, Eq)]
pub struct CatalogProjectPageRequest {
    pub bounds: CatalogPageBounds,
    /// Restrict to these adapters. Empty means every configured source.
    pub adapter_ids: Vec<String>,
}

/// Request for one page of catalog sessions.
#[derive(Debug, Clone, PartialEq, Eq)]
pub struct CatalogSessionPageRequest {
    pub bounds: CatalogPageBounds,
    /// Restrict to one project, by the opaque project id history uses.
    pub project_id: Option<String>,
    pub adapter_ids: Vec<String>,
}

#[derive(Debug, Clone, PartialEq, Eq)]
pub struct CatalogProjectRow {
    pub project_id: String,
    pub external_ref: String,
    pub adapter_id: String,
    pub native_project_key: String,
    pub display_name: Option<String>,
    pub display_path: Option<String>,
    pub catalog_state: CatalogState,
    pub degraded: bool,
    pub degraded_reason: Option<String>,
    pub session_count: u64,
    pub transcript_session_count: u64,
    pub hydrated_session_count: u64,
    pub latest_activity_at: Option<String>,
    pub last_commit_seq: u64,
}

#[derive(Debug, Clone, PartialEq, Eq)]
pub struct CatalogSessionRow {
    pub session_id: String,
    pub project_id: String,
    pub external_ref: String,
    pub adapter_id: String,
    pub native_session_id: Option<String>,
    pub title: Option<String>,
    pub catalog_state: CatalogState,
    pub degraded: bool,
    pub degraded_reason: Option<String>,
    pub association_basis: String,
    pub association_quality: String,
    pub association_provenance: String,
    pub native_created_at: Option<String>,
    pub native_updated_at: Option<String>,
    pub native_message_count: Option<u64>,
    pub decoded_message_count: u64,
    pub transcript_present: bool,
    pub identity_conflicts: Vec<IdentityConflict>,
    pub last_commit_seq: u64,
}

/// A competing project association that lost precedence but keeps its
/// evidence; conflicts are never merged away.
#[derive(Debug, Clone, PartialEq, Eq)]
pub struct IdentityConflict {
    pub competing_native_project_key: String,
    pub basis: String,
    pub provenance: String,
}

#[derive(Debug, Clone, PartialEq, Eq)]
pub struct CatalogProjectPage {
    pub projects: Vec<CatalogProjectRow>,
    pub cursor: Option<String>,
    pub at_commit_seq: u64,
}

#[derive(Debug, Clone, PartialEq, Eq)]
pub struct CatalogSessionPage {
    pub sessions: Vec<CatalogSessionRow>,
    pub cursor: Option<String>,
    pub at_commit_seq: u64,
}

/// What a persisted external reference resolves to now.
#[derive(Debug, Clone, PartialEq, Eq)]
pub enum CatalogEntityResolution {
    LiveProject(Box<CatalogProjectRow>),
    LiveSession(Box<CatalogSessionRow>),
    /// The reference was valid but its evidence has been retracted. A
    /// tombstone is never retargeted to a different live entity.
    Retracted,
    Unknown,
}

/// A stored count or sequence number, with negative values read as zero.
pub open spec fn clamp_count(x: i64) -> u64 {
    if x < 0 { 0 } else { x as u64 }
}

fn nonnegative(x: i64) -> (r: u64)
    ensures
        r == clamp_count(x),
{
    if x < 0 { 0 } else { x as u64 }
}

/// Columns of one project row as the project query returns them.
#[derive(Debug, Clone, PartialEq, Eq)]
pub struct CatalogProjectRecord {
    pub project_key: Vec<u8>,
    pub external_ref: Vec<u8>,
    pub adapter_id: String,
    pub native_project_key: String,
    pub display_name: Option<String>,
    pub display_path: Option<String>,
    pub last_commit_seq: i64,
    pub session_count: i64,
    pub transcript_count: i64,
    pub hydrated_count: i64,
    /// Latest session sort time, empty when no session declares one.
    pub latest_activity: String,
    pub degraded: i64,
    pub degraded_reason: Option<String>,
}

/// The catalog row a project record describes.
pub fn project_row(record: CatalogProjectRecord) -> (r: CatalogProjectRow)
    requires
        record.project_key@.len() <= usize::MAX / 2,
        record.external_ref@.len() <= usize::MAX / 2,
    ensures
        r.project_id@ == entity_id_text(PROJECT_ID_PREFIX@, record.project_key@),
        r.external_ref@ == external_ref_text(record.external_ref@),
        r.adapter_id == record.adapter_id,
        r.native_project_key == record.native_project_key,
        r.display_name == record.display_name,
        r.display_path == record.display_path,
        r.catalog_state == project_state_of(record.session_count as int, record.transcript_count as int,
            record.hydrated_count as int),
        r.degraded == (record.degraded != 0),
        r.degraded_reason == record.degraded_reason,
        r.session_count == clamp_count(record.session_count),
        r.transcript_session_count == clamp_count(record.transcript_count),
        r.hydrated_session_count == clamp_count(record.hydrated_count),
        r.latest_activity_at == (if record.latest_activity@.len() == 0 { None } else { Some(record.latest_activity) }),
        r.last_commit_seq == clamp_count(record.last_commit_seq),
{
    let project_id = encode_entity_id(PROJECT_ID_PREFIX, record.project_key.as_slice());
    let external_ref = encode_external_ref(record.external_ref.as_slice());
    let catalog_state = project_state(record.session_count, record.transcript_count, record.hydrated_count);
    let latest_activity_at = if record.latest_activity.as_str().is_empty() {
        None
    } else {
        Some(record.latest_activity)
    };
    CatalogProjectRow {
        project_id,
        external_ref,
        adapter_id: record.adapter_id,
        native_project_key: record.native_project_key,
        display_name: record.display_name,
        display_path: record.display_path,
        catalog_state,
        degraded: record.degraded != 0,
        degraded_reason: record.degraded_reason,
        session_count: nonnegative(record.session_count),
        transcript_session_count: nonnegative(record.transcript_count),
        hydrated_session_count: nonnegative(record.hydrated_count),
        latest_activity_at,
        last_commit_seq: nonnegative(record.last_commit_seq),
    }
}

/// Columns of one session row as the session query returns them.
#[derive(Debug, Clone, PartialEq, Eq)]
pub struct CatalogSessionRecord {
    pub session_key: Vec<u8>,
    pub project_key: Vec<u8>,
    pub external_ref: Vec<u8>,
    pub adapter_id: String,
    pub native_session_id: Option<String>,
    pub title: Option<String>,
    pub association_basis: String,
    pub association_quality: String,
    pub association_provenance: String,
    pub native_created_at: Option<String>,
    pub native_updated_at: Option<String>,
    pub native_message_count: Option<i64>,
    pub transcript_present: i64,
    pub last_commit_seq: i64,
    pub sort_time: String,
    /// State text derived inside the query's snapshot.
    pub state: String,
    pub decoded_messages: i64,
    pub degraded: i64,
    pub degraded_reason: Option<String>,
}

/// An optional stored count with negative values read as zero.
pub open spec fn clamp_optional_count(x: Option<i64>) -> Option<u64> {
    match x {
        Some(v) => Some(clamp_count(v)),
        None => None,
    }
}

/// The catalog row a session record describes, with no conflicts attached
/// yet, and the row's sort key.
pub fn session_row(record: CatalogSessionRecord) -> (r: (CatalogSessionRow, String))
    requires
        record.session_key@.len() <= usize::MAX / 2,
        record.project_key@.len() <= usize::MAX / 2,
        record.external_ref@.len() <= usize::MAX / 2,
    ensures
        r.0.session_id@ == entity_id_text(SESSION_ID_PREFIX@, record.session_key@),
        r.0.project_id@ == entity_id_text(PROJECT_ID_PREFIX@, record.project_key@),
        r.0.external_ref@ == external_ref_text(record.external_ref@),
        r.0.adapter_id == record.adapter_id,
        r.0.native_session_id == record.native_session_id,
        r.0.title == record.title,
        r.0.catalog_state == state_of_text(record.state@),
        r.0.degraded == (record.degraded != 0),
        r.0.degraded_reason == record.degraded_reason,
        r.0.association_basis == record.association_basis,
        r.0.association_quality == record.association_quality,
        r.0.association_provenance == record.association_provenance,
        r.0.native_created_at == record.native_created_at,
        r.0.native_updated_at == record.native_updated_at,
        r.0.native_message_count == clamp_optional_count(record.native_message_count),
        r.0.decoded_message_count == clamp_count(record.decoded_messages),
        r.0.transcript_present == (record.transcript_present != 0),
        r.0.identity_conflicts@.len() == 0,
        r.0.last_commit_seq == clamp_count(record.last_commit_seq),
        r.1 == record.sort_time,
{
    let session_id = encode_entity_id(SESSION_ID_PREFIX, record.session_key.as_slice());
    let project_id = encode_entity_id(PROJECT_ID_PREFIX, record.project_key.as_slice());
    let external_ref = encode_external_ref(record.external_ref.as_slice());
    let catalog_state = parse_state(record.state.as_str());
    let native_message_count = match record.native_message_count {
        Some(v) => Some(nonnegative(v)),
        None => None,
    };
    let row = CatalogSessionRow {
        session_id,
        project_id,
        external_ref,
        adapter_id: record.adapter_id,
        native_session_id: record.native_session_id,
        title: record.title,
        catalog_state,
        degraded: record.degraded != 0,
        degraded_reason: record.degraded_reason,
        association_basis: record.association_basis,
        association_quality: record.association_quality,
        association_provenance: record.association_provenance,
        native_created_at: record.native_created_at,
        native_updated_at: record.native_updated_at,
        native_message_count,
        decoded_message_count: nonnegative(record.decoded_messages),
        transcript_present: record.transcript_present != 0,
        identity_conflicts: Vec::new(),
        last_commit_seq: nonnegative(record.last_commit_seq),
    };
    (row, record.sort_time)
}

/// Sort key of a project row: its latest activity, or empty.
pub open spec fn project_sort_key(row: CatalogProjectRow) -> Seq<char> {
    match row.latest_activity_at {
        Some(t) => t@,
        None => Seq::empty(),
    }
}

/// Continuation cursor of a project page: present only when the query
/// returned a row beyond the page, positioned after the page's last row.
pub fn project_page_cursor(projects: &Vec<CatalogProjectRow>, overflow: bool, watermark: u64) -> (r: Option<String>)
    requires
        projects@.len() > 0 ==> cursor_fits(encode_utf8(project_sort_key(projects@.last())),
            entity_bytes_of(projects@.last().project_id@)),
    ensures
        r is Some <==> overflow && projects@.len() > 0,
        r matches Some(t) ==> t@ == catalog_cursor_text(watermark, encode_utf8(project_sort_key(projects@.last())),
            entity_bytes_of(projects@.last().project_id@)),
{
    if !overflow || projects.len() == 0 {
        return None;
    }
    let last = &projects[projects.len() - 1];
    let sort_key = match &last.latest_activity_at {
        Some(t) => t.clone(),
        None => String::new(),
    };
    let entity_key = decode_entity_bytes(last.project_id.as_str());
    let cursor = CatalogCursor { watermark, sort_key, entity_key };
    Some(encode_catalog_cursor(&cursor))
}

/// Continuation cursor of a session page, positioned after the last row,
/// whose sort key is the last of `sort_keys`.
pub fn session_page_cursor(
    sessions: &Vec<CatalogSessionRow>,
    sort_keys: &Vec<String>,
    overflow: bool,
    watermark: u64,
) -> (r: Option<String>)
    requires
        sort_keys@.len() == sessions@.len(),
        sessions@.len() > 0 ==> cursor_fits(encode_utf8(sort_keys@.last()@),
            entity_bytes_of(sessions@.last().session_id@)),
    ensures
        r is Some <==> overflow && sessions@.len() > 0,
        r matches Some(t) ==> t@ == catalog_cursor_text(watermark, encode_utf8(sort_keys@.last()@),
            entity_bytes_of(sessions@.last().session_id@)),
{
    if !overflow || sessions.len() == 0 {
        return None;
    }
    let n = sessions.len();
    let sort_key = sort_keys[n - 1].clone();
    let entity_key = decode_entity_bytes(sessions[n - 1].session_id.as_str());
    let cursor = CatalogCursor { watermark, sort_key, entity_key };
    Some(encode_catalog_cursor(&cursor))
}

/// Index of the first row whose project id is `wanted`, if any.
pub open spec fn first_project_with_id(rows: Seq<CatalogProjectRow>, wanted: Seq<char>) -> int
    decreases rows.len(),
{
    if rows.len() == 0 {
        -1
    } else {
        let i = first_project_with_id(rows.drop_last(), wanted);
        if i >= 0 {
            i
        } else if rows.last().project_id@ == wanted {
            rows.len() - 1
        } else {
            -1
        }
    }
}

/// Index of the first row whose session id is `wanted`, if any.
pub open spec fn first_session_with_id(rows: Seq<CatalogSessionRow>, wanted: Seq<char>) -> int
    decreases rows.len(),
{
    if rows.len() == 0 {
        -1
    } else {
        let i = first_session_with_id(rows.drop_last(), wanted);
        if i >= 0 {
            i
        } else if rows.last().session_id@ == wanted {
            rows.len() - 1
        } else {
            -1
        }
    }
}

proof fn lemma_first_project_bounds(rows: Seq<CatalogProjectRow>, wanted: Seq<char>)
    ensures
        -1 <= first_project_with_id(rows, wanted) < rows.len(),
    decreases rows.len(),
{
    if rows.len() > 0 {
        lemma_first_project_bounds(rows.drop_last(), wanted);
    }
}

proof fn lemma_first_session_bounds(rows: Seq<CatalogSessionRow>, wanted: Seq<char>)
    ensures
        -1 <= first_session_with_id(rows, wanted) < rows.len(),
    decreases rows.len(),
{
    if rows.len() > 0 {
        lemma_first_session_bounds(rows.drop_last(), wanted);
    }
}

/// The snapshot a page reads: a continuation stays at the watermark its
/// cursor was minted at, so rows committed after page one cannot enter the
/// listing; a first page reads at the current watermark.
pub fn page_watermark(cursor: &Option<CatalogCursor>, current: u64) -> (r: u64)
    ensures
        r == match cursor {
            Some(c) => c.watermark,
            None => current,
        },
{
    match cursor {
        Some(c) => c.watermark,
        None => current,
    }
}

/// Whether resolution goes on to the next page: only while the entity was
/// not found on this page and the listing continues.
pub fn next_resolution_page(resolution: &CatalogEntityResolution, cursor: Option<String>) -> (r: Option<String>)
    ensures
        r == (if resolution is Retracted { cursor } else { None::<String> }),
{
    match resolution {
        CatalogEntityResolution::Retracted => cursor,
        _ => None,
    }
}

/// Resolve a project key against the live project rows of one snapshot: the
/// first row with the key's id, or a tombstone. A retracted project is never
/// retargeted to another row.
pub fn resolve_project(rows: Vec<CatalogProjectRow>, project_key: &[u8]) -> (r: CatalogEntityResolution)
    requires
        project_key@.len() <= usize::MAX / 2,
    ensures
        ({
            let i = first_project_with_id(rows@, entity_id_text(PROJECT_ID_PREFIX@, project_key@));
            if i < 0 {
                r is Retracted
            } else {
                r matches CatalogEntityResolution::LiveProject(b) && *b == rows@[i]
            }
        }),
{
    let wanted = encode_entity_id(PROJECT_ID_PREFIX, project_key);
    let ghost w = wanted@;
    let mut i: usize = 0;
    proof {
        lemma_first_project_bounds(rows@, w);
    }
    while i < rows.len()
        invariant
            i <= rows@.len(),
            w == wanted@,
            w == entity_id_text(PROJECT_ID_PREFIX@, project_key@),
            first_project_with_id(rows@.take(i as int), w) == -1,
        decreases rows@.len() - i,
    {
        assert(rows@.take(i as int + 1).drop_last() =~= rows@.take(i as int));
        if rows[i].project_id == wanted {
            proof {
                assert(rows@.take(i as int + 1).last() == rows@[i as int]);
                assert(first_project_with_id(rows@.take(i as int + 1), w) == i);
                lemma_first_project_prefix(rows@, w, i as int + 1);
            }
            let mut rows = rows;
            let row = rows.remove(i);
            return CatalogEntityResolution::LiveProject(Box::new(row));
        }
        i = i + 1;
    }
    assert(rows@.take(rows@.len() as int) =~= rows@);
    CatalogEntityResolution::Retracted
}

proof fn lemma_first_project_prefix(rows: Seq<CatalogProjectRow>, wanted: Seq<char>, k: int)
    requires
        0 < k <= rows.len(),
        first_project_with_id(rows.take(k), wanted) == k - 1,
    ensures
        first_project_with_id(rows, wanted) == k - 1,
    decreases rows.len() - k,
{
    if k < rows.len() {
        assert(rows.take(rows.len() - 1).take(k) =~= rows.take(k));
        lemma_first_project_prefix(rows.take(rows.len() - 1), wanted, k);
        assert(rows.drop_last() =~= rows.take(rows.len() - 1));
    } else {
        assert(rows.take(k) =~= rows);
    }
}

proof fn lemma_first_session_prefix(rows: Seq<CatalogSessionRow>, wanted: Seq<char>, k: int)
    requires
        0 < k <= rows.len(),
        first_session_with_id(rows.take(k), wanted) == k - 1,
    ensures
        first_session_with_id(rows, wanted) == k - 1,
    decreases rows.len() - k,
{
    if k < rows.len() {
        assert(rows.take(rows.len() - 1).take(k) =~= rows.take(k));
        lemma_first_session_prefix(rows.take(rows.len() - 1), wanted, k);
        assert(rows.drop_last() =~= rows.take(rows.len() - 1));
    } else {
        assert(rows.take(k) =~= rows);
    }
}

/// Resolve a session key against the live session rows of one snapshot:
/// the first row with the key's id, or a tombstone.
pub fn resolve_session(rows: Vec<CatalogSessionRow>, session_key: &[u8]) -> (r: CatalogEntityResolution)
    requires
        session_key@.len() <= usize::MAX / 2,
    ensures
        ({
            let i = first_session_with_id(rows@, entity_id_text(SESSION_ID_PREFIX@, session_key@));
            if i < 0 {
                r is Retracted
            } else {
                r matches CatalogEntityResolution::LiveSession(b) && *b == rows@[i]
            }
        }),
{
    let wanted = encode_entity_id(SESSION_ID_PREFIX, session_key);
    let ghost w = wanted@;
    let mut i: usize = 0;
    while i < rows.len()
        invariant
            i <= rows@.len(),
            w == wanted@,
            w == entity_id_text(SESSION_ID_PREFIX@, session_key@),
            first_session_with_id(rows@.take(i as int), w) == -1,
        decreases rows@.len() - i,
    {
        assert(rows@.take(i as int + 1).drop_last() =~= rows@.take(i as int));
        if rows[i].session_id == wanted {
            proof {
                assert(rows@.take(i as int + 1).last() == rows@[i as int]);
                assert(first_session_with_id(rows@.take(i as int + 1), w) == i);
                lemma_first_session_prefix(rows@, w, i as int + 1);
            }
            let mut rows = rows;
            let row = rows.remove(i);
            return CatalogEntityResolution::LiveSession(Box::new(row));
        }
        i = i + 1;
    }
    assert(rows@.take(rows@.len() as int) =~= rows@);
    CatalogEntityResolution::Retracted
}

} // verus!
