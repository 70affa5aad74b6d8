//! Read-only capability-detail query pack: memory documents, task
//! collections, tasks, plans, persisted tool results and file-history
//! artifacts, each paged by a scope-bound continuation cursor and a bounded
//! payload budget.
use vstd::prelude::*;
use crate::codec::{
    base64_standard_encode, base64_standard_text, base64url_bytes, base64url_decode, base64url_encode,
    base64url_text,
};
use crate::error::{sqlite_detail_with, EngineError};
use crate::identity::{
    decode_entity_id, encode_entity_id, entity_key_of, ARTIFACT_ID_PREFIX, FACT_ID_PREFIX,
    MEMORY_DOCUMENT_ID_PREFIX, MESSAGE_ID_PREFIX, PLAN_ID_PREFIX, TASK_ID_PREFIX, TOOL_RESULT_ID_PREFIX,
    PROJECT_ID_PREFIX, RUN_ID_PREFIX, SESSION_ID_PREFIX, TASK_COLLECTION_ID_PREFIX, TEAM_ID_PREFIX,
    entity_id_text,
};
use crate::util::{decimal, push_decimal, push_str, str_len};
use vstd::string::StringSliceAdditionalSpecFns;
use vstd::utf8::encode_utf8;

verus! {

broadcast use vstd::seq::group_seq_axioms;

pub const CAPABILITY_QUERY_CONTRACT_VERSION: u32 = 1;
pub const DEFAULT_CAPABILITY_PAGE_LIMIT: u32 = 50;
pub const MAX_CAPABILITY_PAGE_LIMIT: u32 = 200;
pub const MAX_CAPABILITY_CURSOR_BYTES: usize = 32768;
/// Maximum encoded or textual content returned by one capability page.
pub const MAX_CAPABILITY_PAGE_PAYLOAD_BYTES: u64 = 16777216;

#[derive(Debug, Clone, PartialEq, Eq)]
pub struct MemoryDocumentPageRequest {
    pub project_id: String,
    pub cursor: Option<String>,
    pub limit: u32,
}

#[derive(Debug, Clone, PartialEq, Eq)]
pub struct MemoryDocumentPage {
    pub contract_version: u32,
    pub at_commit_seq: u64,
    pub project_id: String,
    pub items: Vec<MemoryDocument>,
    pub payload_bytes: u64,
    pub payload_byte_limit: u64,
    pub next_cursor: Option<String>,
}

#[derive(Debug, Clone, PartialEq, Eq)]
pub struct MemoryDocument {
    pub document_id: String,
    pub project_id: String,
    pub adapter_id: String,
    pub source_instance_id: u64,
    pub native_project_key: String,
    pub native_document_path: String,
    pub title: String,
    pub content: String,
    pub size_bytes: u64,
    pub is_index: bool,
    pub resolution_status: String,
    pub decisive_fact_id: String,
    pub assertion_count: u64,
    pub competing_document_count: u64,
    pub observed_at_unix_ms: i64,
    pub source_object_id: u64,
    pub source_generation: u64,
    pub last_commit_seq: u64,
}

#[derive(Debug, Clone, PartialEq, Eq)]
pub struct TaskCollectionPageRequest {
    pub session_id: Option<String>,
    pub run_id: Option<String>,
    pub team_id: Option<String>,
    pub cursor: Option<String>,
    pub limit: u32,
}

#[derive(Debug, Clone, PartialEq, Eq)]
pub struct TaskCollectionPage {
    pub contract_version: u32,
    pub at_commit_seq: u64,
    pub session_id: Option<String>,
    pub run_id: Option<String>,
    pub team_id: Option<String>,
    pub items: Vec<TaskCollectionSummary>,
    pub next_cursor: Option<String>,
}

#[derive(Debug, Clone, PartialEq, Eq)]
pub struct TaskCollectionSummary {
    pub collection_id: String,
    pub project_id: Option<String>,
    pub session_id: Option<String>,
    pub run_id: Option<String>,
    pub team_id: Option<String>,
    pub adapter_id: String,
    pub source_instance_id: u64,
    pub native_collection_id: String,
    pub native_owner_id: Option<String>,
    pub collection_kind: String,
    pub native_collection_kind: String,
    pub resolution_status: String,
    pub decisive_fact_id: String,
    pub assertion_count: u64,
    pub competing_metadata_count: u64,
    pub complete_snapshot_count: u64,
    pub item_document_count: u64,
    pub item_count: u64,
    pub observed_at_unix_ms: i64,
    pub source_object_id: u64,
    pub source_generation: u64,
    pub last_commit_seq: u64,
}

#[derive(Debug, Clone, PartialEq, Eq)]
pub struct TaskPageRequest {
    pub collection_id: String,
    pub cursor: Option<String>,
    pub limit: u32,
}

#[derive(Debug, Clone, PartialEq, Eq)]
pub struct TaskPage {
    pub contract_version: u32,
    pub at_commit_seq: u64,
    pub collection_id: String,
    pub items: Vec<TaskDetail>,
    pub payload_bytes: u64,
    pub payload_byte_limit: u64,
    pub next_cursor: Option<String>,
}

#[derive(Debug, Clone, PartialEq, Eq)]
pub struct TaskDetail {
    pub task_id: String,
    pub collection_id: String,
    pub adapter_id: String,
    pub source_instance_id: u64,
    pub item_ordinal: u64,
    pub native_task_id: Option<String>,
    pub subject: String,
    pub description: Option<String>,
    pub active_form: Option<String>,
    pub native_owner: Option<String>,
    pub task_status: String,
    pub native_status: String,
    pub blocks: Vec<String>,
    pub blocked_by: Vec<String>,
    pub resolution_status: String,
    pub decisive_fact_id: String,
    pub assertion_count: u64,
    pub competing_item_count: u64,
    pub observed_at_unix_ms: i64,
    pub source_object_id: u64,
    pub source_generation: u64,
    pub last_commit_seq: u64,
}

#[derive(Debug, Clone, PartialEq, Eq)]
pub struct PlanPageRequest {
    pub cursor: Option<String>,
    pub limit: u32,
}

#[derive(Debug, Clone, PartialEq, Eq)]
pub struct PlanPage {
    pub contract_version: u32,
    pub at_commit_seq: u64,
    pub items: Vec<PlanDetail>,
    pub payload_bytes: u64,
    pub payload_byte_limit: u64,
    pub next_cursor: Option<String>,
}

#[derive(Debug, Clone, PartialEq, Eq)]
pub struct PlanDetail {
    pub plan_id: String,
    pub adapter_id: String,
    pub source_instance_id: u64,
    pub native_plan_id: String,
    pub title: String,
    pub content: String,
    pub size_bytes: u64,
    pub source_time: Option<String>,
    pub source_time_quality: Option<String>,
    pub resolution_status: String,
    pub decisive_fact_id: String,
    pub assertion_count: u64,
    pub competing_plan_count: u64,
    pub observed_at_unix_ms: i64,
    pub source_object_id: u64,
    pub source_generation: u64,
    pub last_commit_seq: u64,
}

#[derive(Debug, Clone, PartialEq, Eq)]
pub struct ToolResultPageRequest {
    pub project_id: String,
    pub session_id: String,
    pub cursor: Option<String>,
    pub limit: u32,
}

#[derive(Debug, Clone, PartialEq, Eq)]
pub struct ToolResultPage {
    pub contract_version: u32,
    pub at_commit_seq: u64,
    pub project_id: String,
    pub session_id: String,
    pub items: Vec<ToolResultDetail>,
    pub payload_bytes: u64,
    pub payload_byte_limit: u64,
    pub next_cursor: Option<String>,
}

#[derive(Debug, Clone, PartialEq, Eq)]
pub struct ToolResultDetail {
    pub result_id: String,
    pub project_id: String,
    pub session_id: String,
    pub adapter_id: String,
    pub source_instance_id: u64,
    pub native_project_key: String,
    pub native_session_id: String,
    pub native_tool_use_id: String,
    pub native_document_path: String,
    pub content: String,
    pub size_bytes: u64,
    pub resolution_status: String,
    pub correlation_status: String,
    pub tool_call_message_id: Option<String>,
    pub tool_result_message_id: Option<String>,
    pub decisive_fact_id: String,
    pub assertion_count: u64,
    pub competing_result_count: u64,
    pub tool_call_match_count: u64,
    pub tool_result_match_count: u64,
    pub join_conflict: bool,
    pub observed_at_unix_ms: i64,
    pub source_object_id: u64,
    pub source_generation: u64,
    pub last_commit_seq: u64,
}

#[derive(Debug, Clone, PartialEq, Eq)]
pub struct ArtifactPageRequest {
    pub session_id: String,
    pub cursor: Option<String>,
    pub limit: u32,
}

#[derive(Debug, Clone, PartialEq, Eq)]
pub struct ArtifactPage {
    pub contract_version: u32,
    pub at_commit_seq: u64,
    pub session_id: String,
    pub items: Vec<ArtifactDetail>,
    pub payload_bytes: u64,
    pub payload_byte_limit: u64,
    pub next_cursor: Option<String>,
}

#[derive(Debug, Clone, PartialEq, Eq)]
pub struct ArtifactDetail {
    pub artifact_id: String,
    pub session_id: String,
    pub project_id: Option<String>,
    pub native_artifact_id: Option<String>,
    pub native_file_hash: Option<String>,
    pub version: u64,
    pub tracking_path: Option<String>,
    pub real_parent_dir: Option<String>,
    pub backup_time: Option<String>,
    pub backup_time_quality: Option<String>,
    pub capture_status: String,
    pub content_base64: Option<String>,
    pub size_bytes: Option<u64>,
    pub content_digest_base64url: Option<String>,
    pub content_status: String,
    pub resolution_status: String,
    pub metadata_fact_id: Option<String>,
    pub content_fact_id: Option<String>,
    pub metadata_adapter_id: Option<String>,
    pub metadata_source_instance_id: Option<u64>,
    pub metadata_observed_at_unix_ms: Option<i64>,
    pub metadata_source_object_id: Option<u64>,
    pub metadata_source_generation: Option<u64>,
    pub content_adapter_id: Option<String>,
    pub content_source_instance_id: Option<u64>,
    pub content_observed_at_unix_ms: Option<i64>,
    pub content_source_object_id: Option<u64>,
    pub content_source_generation: Option<u64>,
    pub metadata_assertion_count: u64,
    pub competing_metadata_count: u64,
    pub content_assertion_count: u64,
    pub competing_content_count: u64,
    pub join_conflict: bool,
    pub last_commit_seq: u64,
}

/// Which capability listing a cursor continues.
#[derive(Debug, Clone, Copy, PartialEq, Eq, Structural)]
pub enum CapabilityCursorKind {
    MemoryDocuments,
    TaskCollections,
    Tasks,
    Plans,
    ToolResults,
    Artifacts,
}

/// Decoded continuation state of a capability page: it is bound to one
/// listing, one scope and one committed watermark, and resumes after the
/// last row's ordering position.
#[derive(Debug, Clone, PartialEq, Eq)]
pub struct CapabilityCursor {
    pub version: u32,
    pub kind: CapabilityCursorKind,
    pub at_commit_seq: u64,
    pub scope: Vec<String>,
    pub order_rank: u64,
    pub order_text: String,
    /// Unpadded URL-safe base64 text of the last row's entity key.
    pub entity_key: String,
}

/// Character views of a string sequence.
pub open spec fn views(v: Seq<String>) -> Seq<Seq<char>> {
    Seq::new(v.len(), |i: int| v[i]@)
}

/// Whether two string vectors hold the same texts in the same order.
pub fn strings_equal(a: &Vec<String>, b: &Vec<String>) -> (r: bool)
    ensures
        r == (views(a@) == views(b@)),
{
    if a.len() != b.len() {
        proof {
            assert(views(a@).len() != views(b@).len());
        }
        return false;
    }
    let mut i: usize = 0;
    while i < a.len()
        invariant
            a@.len() == b@.len(),
            i <= a@.len(),
            forall|j: int| 0 <= j < i ==> a@[j]@ == b@[j]@,
        decreases a@.len() - i,
    {
        if a[i] != b[i] {
            proof {
                assert(views(a@)[i as int] != views(b@)[i as int]);
            }
            return false;
        }
        i = i + 1;
    }
    assert(views(a@) =~= views(b@));
    true
}

/// Page sizes must lie in `1..=MAX_CAPABILITY_PAGE_LIMIT`.
pub fn validate_page_limit(limit: u32, label: &str) -> (r: Result<(), EngineError>)
    ensures
        r is Ok <==> 1 <= limit <= MAX_CAPABILITY_PAGE_LIMIT,
        r matches Err(e) ==> e is InvalidQuery,
{
    if limit < 1 || limit > MAX_CAPABILITY_PAGE_LIMIT {
        let mut message = String::new();
        push_str(&mut message, label);
        push_str(&mut message, " page limit must be between 1 and 200");
        return Err(EngineError::InvalidQuery(message));
    }
    Ok(())
}

/// A cursor text is non-empty, within the byte bound, and valid base64.
pub open spec fn cursor_text_ok(value: &str) -> bool {
    &&& value@.len() > 0
    &&& str_len(value@) <= MAX_CAPABILITY_CURSOR_BYTES
    &&& base64url_bytes(value@) is Some
}

/// Check the outer framing of a cursor and return its JSON payload bytes.
pub fn decode_cursor_payload(value: &str) -> (r: Result<Vec<u8>, EngineError>)
    ensures
        r is Ok <==> cursor_text_ok(value),
        r matches Ok(b) ==> base64url_bytes(value@) == Some(b@),
        r matches Err(e) ==> e is InvalidQuery,
{
    if value.is_empty() || value.len() > MAX_CAPABILITY_CURSOR_BYTES {
        return Err(
            EngineError::InvalidQuery(
                String::from_str("capability cursor is empty or exceeds the supported bound"),
            ),
        );
    }
    match base64url_decode(value) {
        Some(bytes) => Ok(bytes),
        None => Err(
            EngineError::InvalidQuery(String::from_str("capability cursor is not valid base64url")),
        ),
    }
}

/// A decoded cursor belongs to `kind` and `scope` and stays within every
/// bound a query can use.
pub open spec fn cursor_fields_ok(c: CapabilityCursor, kind: CapabilityCursorKind, scope: Seq<Seq<char>>) -> bool {
    &&& c.version == CAPABILITY_QUERY_CONTRACT_VERSION
    &&& c.kind == kind
    &&& views(c.scope@) == scope
    &&& str_len(c.order_text@) <= MAX_CAPABILITY_CURSOR_BYTES
    &&& c.order_rank <= i64::MAX
    &&& base64url_bytes(c.entity_key@) matches Some(k) && 0 < k.len() <= MAX_CAPABILITY_CURSOR_BYTES
}

/// Refuse a decoded cursor minted for another listing, scope or version.
pub fn validate_decoded_cursor(
    cursor: &CapabilityCursor,
    kind: CapabilityCursorKind,
    scope: &Vec<String>,
) -> (r: Result<(), EngineError>)
    ensures
        r is Ok <==> cursor_fields_ok(*cursor, kind, views(scope@)),
        r matches Err(e) ==> e is InvalidQuery,
{
    if cursor.version != CAPABILITY_QUERY_CONTRACT_VERSION {
        return Err(
            EngineError::InvalidQuery(String::from_str("unsupported capability cursor version")),
        );
    }
    if cursor.kind != kind || !strings_equal(&cursor.scope, scope) {
        return Err(
            EngineError::InvalidQuery(
                String::from_str("capability cursor does not belong to this query scope"),
            ),
        );
    }
    if cursor.order_text.as_str().len() > MAX_CAPABILITY_CURSOR_BYTES {
        return Err(
            EngineError::InvalidQuery(
                String::from_str("capability cursor order key exceeds the supported bound"),
            ),
        );
    }
    if cursor.order_rank > 9223372036854775807u64 {
        return Err(
            EngineError::InvalidQuery(
                String::from_str("capability cursor order rank is outside SQLite's signed integer range"),
            ),
        );
    }
    match base64url_decode(cursor.entity_key.as_str()) {
        None => Err(
            EngineError::InvalidQuery(String::from_str("capability cursor entity key is malformed")),
        ),
        Some(key) => {
            if key.len() == 0 || key.len() > MAX_CAPABILITY_CURSOR_BYTES {
                Err(
                    EngineError::InvalidQuery(
                        String::from_str("capability cursor entity key is outside the supported bound"),
                    ),
                )
            } else {
                Ok(())
            }
        },
    }
}


/// Invalid-query error carrying `message`.
fn invalid_query(message: &str) -> (e: EngineError)
    ensures
        e matches EngineError::InvalidQuery(m) && m@ == message@,
{
    EngineError::InvalidQuery(message.to_owned())
}

/// Invalid-query error whose message is `label` followed by `suffix`.
fn labelled_invalid_query(label: &str, suffix: &str) -> (e: EngineError)
    ensures
        e matches EngineError::InvalidQuery(m) && m@ == label@ + suffix@,
{
    let mut message = String::new();
    push_str(&mut message, label);
    push_str(&mut message, suffix);
    EngineError::InvalidQuery(message)
}

/// Storage error of `operation` whose detail is `label` followed by `suffix`.
fn labelled_storage_error(operation: &'static str, label: &str, suffix: &str) -> (e: EngineError)
    ensures
        e matches EngineError::Sqlite { operation: op, .. } && op == operation,
        sqlite_detail_with(e, label@ + suffix@),
{
    let mut detail = String::new();
    push_str(&mut detail, label);
    push_str(&mut detail, suffix);
    EngineError::Sqlite { operation, detail }
}

/// The page scope a request binds, and the still-undecoded payload of its
/// continuation cursor. The payload is JSON; once parsed it is accepted only
/// through [`CapabilityPageScope::accept_cursor`].
#[derive(Debug, Clone, PartialEq, Eq)]
pub struct CapabilityPageScope {
    pub kind: CapabilityCursorKind,
    pub scope: Vec<String>,
    pub cursor_payload: Option<Vec<u8>>,
}

/// The optional cursor's framing is acceptable.
pub open spec fn optional_cursor_ok(value: Option<&str>) -> bool {
    match value {
        None => true,
        Some(v) => cursor_text_ok(v),
    }
}

/// Payload bytes of an optional cursor.
pub open spec fn optional_cursor_payload(value: Option<&str>) -> Option<Seq<u8>> {
    match value {
        None => None,
        Some(v) => base64url_bytes(v@),
    }
}

/// Check the framing of an optional cursor and return its payload.
pub fn decode_optional_cursor_payload(value: Option<&str>) -> (r: Result<Option<Vec<u8>>, EngineError>)
    ensures
        r is Ok <==> optional_cursor_ok(value),
        r matches Ok(p) ==> (p is Some <==> value is Some),
        r matches Ok(Some(p)) ==> optional_cursor_payload(value) == Some(p@),
        r matches Err(e) ==> e is InvalidQuery,
{
    match value {
        None => Ok(None),
        Some(v) => match decode_cursor_payload(v) {
            Ok(bytes) => Ok(Some(bytes)),
            Err(e) => Err(e),
        },
    }
}

/// Borrow the text of an optional owned string.
fn optional_str(value: &Option<String>) -> (r: Option<&str>)
    ensures
        r is Some <==> value is Some,
        r matches Some(s) ==> s@ == value->0@,
{
    match value {
        Some(s) => Some(s.as_str()),
        None => None,
    }
}

/// Views of an optional owned string.
pub open spec fn opt_view(value: Option<String>) -> Option<Seq<char>> {
    match value {
        Some(s) => Some(s@),
        None => None,
    }
}

/// Framing of an optional owned cursor string.
pub open spec fn request_cursor_ok(value: Option<String>) -> bool {
    match value {
        None => true,
        Some(v) => v@.len() > 0 && str_len(v@) <= MAX_CAPABILITY_CURSOR_BYTES && base64url_bytes(v@) is Some,
    }
}

/// Payload of an optional owned cursor string.
pub open spec fn request_cursor_payload(value: Option<String>) -> Option<Seq<u8>> {
    match value {
        None => None,
        Some(v) => base64url_bytes(v@),
    }
}

/// Build the page scope for `kind` and `scope` from the request's cursor.
fn bind_page_scope(
    cursor: &Option<String>,
    kind: CapabilityCursorKind,
    scope: Vec<String>,
) -> (r: Result<CapabilityPageScope, EngineError>)
    ensures
        r is Ok <==> request_cursor_ok(*cursor),
        r matches Ok(b) ==> b.kind == kind && b.scope@ == scope@
            && (b.cursor_payload is Some <==> cursor is Some)
            && (b.cursor_payload matches Some(p) ==> request_cursor_payload(*cursor) == Some(p@)),
        r matches Err(e) ==> e is InvalidQuery,
{
    let value = optional_str(cursor);
    match decode_optional_cursor_payload(value) {
        Ok(payload) => Ok(CapabilityPageScope { kind, scope, cursor_payload: payload }),
        Err(e) => Err(e),
    }
}

/// One-element scope holding `id`.
fn single_scope(id: &String) -> (r: Vec<String>)
    ensures
        views(r@) == seq![id@],
{
    let mut v: Vec<String> = Vec::new();
    v.push(id.clone());
    assert(views(v@) =~= seq![id@]);
    v
}

impl CapabilityPageScope {
    /// Accept the parsed cursor payload: it must belong to this listing and
    /// scope and stay within every bound the query uses.
    pub fn accept_cursor(&self, cursor: Option<&CapabilityCursor>) -> (r: Result<(), EngineError>)
        ensures
            r is Ok <==> (cursor matches Some(c) ==> cursor_fields_ok(*c, self.kind, views(self.scope@))),
            r matches Err(e) ==> e is InvalidQuery,
    {
        match cursor {
            None => Ok(()),
            Some(c) => validate_decoded_cursor(c, self.kind, &self.scope),
        }
    }
}

/// Validate a memory-document page request: limit, project id, cursor
/// framing. Returns the project key and the bound scope.
pub fn validate_memory_document_page(request: &MemoryDocumentPageRequest) -> (r: Result<(Vec<u8>, CapabilityPageScope), EngineError>)
    ensures
        r is Ok <==> {
            &&& 1 <= request.limit <= MAX_CAPABILITY_PAGE_LIMIT
            &&& entity_key_of(request.project_id@, PROJECT_ID_PREFIX@) is Some
            &&& request_cursor_ok(request.cursor)
        },
        r matches Ok((key, b)) ==> {
            &&& entity_key_of(request.project_id@, PROJECT_ID_PREFIX@) == Some(key@)
            &&& b.kind == CapabilityCursorKind::MemoryDocuments
            &&& views(b.scope@) == seq![request.project_id@]
            &&& (b.cursor_payload is Some <==> request.cursor is Some)
            &&& (b.cursor_payload matches Some(p) ==> request_cursor_payload(request.cursor) == Some(p@))
        },
        r matches Err(e) ==> e is InvalidQuery,
{
    validate_page_limit(request.limit, "memory document")?;
    let project_key = decode_entity_id(request.project_id.as_str(), PROJECT_ID_PREFIX, "memory document project id")?;
    let scope = single_scope(&request.project_id);
    let bound = bind_page_scope(&request.cursor, CapabilityCursorKind::MemoryDocuments, scope)?;
    Ok((project_key, bound))
}

/// Decoded scope keys of a task-collection request; at most one is present.
#[derive(Debug, Clone, PartialEq, Eq)]
pub struct TaskCollectionScopeKeys {
    pub session_key: Option<Vec<u8>>,
    pub run_key: Option<Vec<u8>>,
    pub team_key: Option<Vec<u8>>,
}

/// Number of scope filters a task-collection request names.
pub open spec fn task_scope_count(request: TaskCollectionPageRequest) -> int {
    (if request.session_id is Some { 1int } else { 0int })
        + (if request.run_id is Some { 1int } else { 0int })
        + (if request.team_id is Some { 1int } else { 0int })
}

/// The optional id decodes under `prefix` (an absent id always does).
pub open spec fn optional_id_ok(value: Option<String>, prefix: Seq<char>) -> bool {
    match value {
        None => true,
        Some(v) => entity_key_of(v@, prefix) is Some,
    }
}

/// Key of an optional id under `prefix`.
pub open spec fn optional_id_key(value: Option<String>, prefix: Seq<char>) -> Option<Seq<u8>> {
    match value {
        None => None,
        Some(v) => entity_key_of(v@, prefix),
    }
}

/// Views of an optional byte vector.
pub open spec fn opt_bytes(value: Option<Vec<u8>>) -> Option<Seq<u8>> {
    match value {
        None => None,
        Some(v) => Some(v@),
    }
}

/// Decode an optional id of the kind named by `prefix`.
fn decode_optional_entity_id(value: &Option<String>, prefix: &str, label: &str) -> (r: Result<Option<Vec<u8>>, EngineError>)
    ensures
        r is Ok <==> optional_id_ok(*value, prefix@),
        r matches Ok(k) ==> opt_bytes(k) == optional_id_key(*value, prefix@),
        r matches Err(e) ==> e is InvalidQuery,
{
    match value {
        None => Ok(None),
        Some(v) => match decode_entity_id(v.as_str(), prefix, label) {
            Ok(k) => Ok(Some(k)),
            Err(e) => Err(e),
        },
    }
}

/// Scope a task-collection cursor is bound to: the one named filter, or all.
pub open spec fn task_collection_scope_spec(request: TaskCollectionPageRequest) -> Seq<Seq<char>> {
    if request.session_id is Some {
        seq!["session"@, request.session_id->0@]
    } else if request.run_id is Some {
        seq!["run"@, request.run_id->0@]
    } else if request.team_id is Some {
        seq!["team"@, request.team_id->0@]
    } else {
        seq!["all"@]
    }
}

/// Two-element scope: a filter label and its id.
fn labelled_scope(label: &str, id: &String) -> (r: Vec<String>)
    ensures
        views(r@) == seq![label@, id@],
{
    let mut v: Vec<String> = Vec::new();
    v.push(label.to_owned());
    v.push(id.clone());
    assert(views(v@) =~= seq![label@, id@]);
    v
}

/// The scope a task-collection cursor is bound to.
pub fn task_collection_scope(request: &TaskCollectionPageRequest) -> (r: Vec<String>)
    ensures
        views(r@) == task_collection_scope_spec(*request),
{
    proof {
        reveal_strlit("session");
        reveal_strlit("run");
        reveal_strlit("team");
        reveal_strlit("all");
    }
    if let Some(value) = &request.session_id {
        labelled_scope("session", value)
    } else if let Some(value) = &request.run_id {
        labelled_scope("run", value)
    } else if let Some(value) = &request.team_id {
        labelled_scope("team", value)
    } else {
        let mut v: Vec<String> = Vec::new();
        v.push("all".to_owned());
        assert(views(v@) =~= seq!["all"@]);
        v
    }
}

/// Validate a task-collection page request: limit, at most one scope
/// filter, each filter id, cursor framing.
pub fn validate_task_collection_page(request: &TaskCollectionPageRequest) -> (r: Result<(TaskCollectionScopeKeys, CapabilityPageScope), EngineError>)
    ensures
        r is Ok <==> {
            &&& 1 <= request.limit <= MAX_CAPABILITY_PAGE_LIMIT
            &&& task_scope_count(*request) <= 1
            &&& optional_id_ok(request.session_id, SESSION_ID_PREFIX@)
            &&& optional_id_ok(request.run_id, RUN_ID_PREFIX@)
            &&& optional_id_ok(request.team_id, TEAM_ID_PREFIX@)
            &&& request_cursor_ok(request.cursor)
        },
        r matches Ok((keys, b)) ==> {
            &&& opt_bytes(keys.session_key) == optional_id_key(request.session_id, SESSION_ID_PREFIX@)
            &&& opt_bytes(keys.run_key) == optional_id_key(request.run_id, RUN_ID_PREFIX@)
            &&& opt_bytes(keys.team_key) == optional_id_key(request.team_id, TEAM_ID_PREFIX@)
            &&& b.kind == CapabilityCursorKind::TaskCollections
            &&& views(b.scope@) == task_collection_scope_spec(*request)
            &&& (b.cursor_payload is Some <==> request.cursor is Some)
            &&& (b.cursor_payload matches Some(p) ==> request_cursor_payload(request.cursor) == Some(p@))
        },
        r matches Err(e) ==> e is InvalidQuery,
{
    validate_page_limit(request.limit, "task collection")?;
    let mut scope_count: u32 = 0;
    if request.session_id.is_some() {
        scope_count = scope_count + 1;
    }
    if request.run_id.is_some() {
        scope_count = scope_count + 1;
    }
    if request.team_id.is_some() {
        scope_count = scope_count + 1;
    }
    if scope_count > 1 {
        return Err(invalid_query("task collection query accepts at most one of sessionId, runId, or teamId"));
    }
    let session_key = decode_optional_entity_id(&request.session_id, SESSION_ID_PREFIX, "task collection session id")?;
    let run_key = decode_optional_entity_id(&request.run_id, RUN_ID_PREFIX, "task collection run id")?;
    let team_key = decode_optional_entity_id(&request.team_id, TEAM_ID_PREFIX, "task collection team id")?;
    let keys = TaskCollectionScopeKeys { session_key, run_key, team_key };
    let scope = task_collection_scope(request);
    let bound = bind_page_scope(&request.cursor, CapabilityCursorKind::TaskCollections, scope)?;
    Ok((keys, bound))
}


/// Validate a task page request: limit, collection id, cursor framing.
pub fn validate_task_page(request: &TaskPageRequest) -> (r: Result<(Vec<u8>, CapabilityPageScope), EngineError>)
    ensures
        r is Ok <==> {
            &&& 1 <= request.limit <= MAX_CAPABILITY_PAGE_LIMIT
            &&& entity_key_of(request.collection_id@, TASK_COLLECTION_ID_PREFIX@) is Some
            &&& request_cursor_ok(request.cursor)
        },
        r matches Ok((key, b)) ==> {
            &&& entity_key_of(request.collection_id@, TASK_COLLECTION_ID_PREFIX@) == Some(key@)
            &&& b.kind == CapabilityCursorKind::Tasks
            &&& views(b.scope@) == seq![request.collection_id@]
            &&& (b.cursor_payload is Some <==> request.cursor is Some)
            &&& (b.cursor_payload matches Some(p) ==> request_cursor_payload(request.cursor) == Some(p@))
        },
        r matches Err(e) ==> e is InvalidQuery,
{
    validate_page_limit(request.limit, "task")?;
    let collection_key = decode_entity_id(request.collection_id.as_str(), TASK_COLLECTION_ID_PREFIX, "task collection id")?;
    let scope = single_scope(&request.collection_id);
    let bound = bind_page_scope(&request.cursor, CapabilityCursorKind::Tasks, scope)?;
    Ok((collection_key, bound))
}

/// Validate a plan page request: limit and cursor framing; plans are not
/// scoped.
pub fn validate_plan_page(request: &PlanPageRequest) -> (r: Result<CapabilityPageScope, EngineError>)
    ensures
        r is Ok <==> 1 <= request.limit <= MAX_CAPABILITY_PAGE_LIMIT && request_cursor_ok(request.cursor),
        r matches Ok(b) ==> {
            &&& b.kind == CapabilityCursorKind::Plans
            &&& b.scope@.len() == 0
            &&& (b.cursor_payload is Some <==> request.cursor is Some)
            &&& (b.cursor_payload matches Some(p) ==> request_cursor_payload(request.cursor) == Some(p@))
        },
        r matches Err(e) ==> e is InvalidQuery,
{
    validate_page_limit(request.limit, "plan")?;
    bind_page_scope(&request.cursor, CapabilityCursorKind::Plans, Vec::new())
}

/// Validate a tool-result page request: limit, project and session ids,
/// cursor framing. Returns the project and session keys.
pub fn validate_tool_result_page(request: &ToolResultPageRequest) -> (r: Result<(Vec<u8>, Vec<u8>, CapabilityPageScope), EngineError>)
    ensures
        r is Ok <==> {
            &&& 1 <= request.limit <= MAX_CAPABILITY_PAGE_LIMIT
            &&& entity_key_of(request.project_id@, PROJECT_ID_PREFIX@) is Some
            &&& entity_key_of(request.session_id@, SESSION_ID_PREFIX@) is Some
            &&& request_cursor_ok(request.cursor)
        },
        r matches Ok((project_key, session_key, b)) ==> {
            &&& entity_key_of(request.project_id@, PROJECT_ID_PREFIX@) == Some(project_key@)
            &&& entity_key_of(request.session_id@, SESSION_ID_PREFIX@) == Some(session_key@)
            &&& b.kind == CapabilityCursorKind::ToolResults
            &&& views(b.scope@) == seq![request.project_id@, request.session_id@]
            &&& (b.cursor_payload is Some <==> request.cursor is Some)
            &&& (b.cursor_payload matches Some(p) ==> request_cursor_payload(request.cursor) == Some(p@))
        },
        r matches Err(e) ==> e is InvalidQuery,
{
    validate_page_limit(request.limit, "tool result")?;
    let project_key = decode_entity_id(request.project_id.as_str(), PROJECT_ID_PREFIX, "tool result project id")?;
    let session_key = decode_entity_id(request.session_id.as_str(), SESSION_ID_PREFIX, "tool result session id")?;
    let mut scope: Vec<String> = Vec::new();
    scope.push(request.project_id.clone());
    scope.push(request.session_id.clone());
    assert(views(scope@) =~= seq![request.project_id@, request.session_id@]);
    let bound = bind_page_scope(&request.cursor, CapabilityCursorKind::ToolResults, scope)?;
    Ok((project_key, session_key, bound))
}

/// Validate an artifact page request: limit, session id, cursor framing.
pub fn validate_artifact_page(request: &ArtifactPageRequest) -> (r: Result<(Vec<u8>, CapabilityPageScope), EngineError>)
    ensures
        r is Ok <==> {
            &&& 1 <= request.limit <= MAX_CAPABILITY_PAGE_LIMIT
            &&& entity_key_of(request.session_id@, SESSION_ID_PREFIX@) is Some
            &&& request_cursor_ok(request.cursor)
        },
        r matches Ok((key, b)) ==> {
            &&& entity_key_of(request.session_id@, SESSION_ID_PREFIX@) == Some(key@)
            &&& b.kind == CapabilityCursorKind::Artifacts
            &&& views(b.scope@) == seq![request.session_id@]
            &&& (b.cursor_payload is Some <==> request.cursor is Some)
            &&& (b.cursor_payload matches Some(p) ==> request_cursor_payload(request.cursor) == Some(p@))
        },
        r matches Err(e) ==> e is InvalidQuery,
{
    validate_page_limit(request.limit, "artifact")?;
    let session_key = decode_entity_id(request.session_id.as_str(), SESSION_ID_PREFIX, "artifact session id")?;
    let scope = single_scope(&request.session_id);
    let bound = bind_page_scope(&request.cursor, CapabilityCursorKind::Artifacts, scope)?;
    Ok((session_key, bound))
}

/// A decoded row with its keyset ordering position and payload size.
#[derive(Debug, Clone, PartialEq, Eq)]
pub struct OrderedRow<T> {
    pub item: T,
    pub entity_key: Vec<u8>,
    pub order_rank: u64,
    pub order_text: String,
    pub payload_bytes: u64,
}

/// Total payload of a sequence of rows.
pub open spec fn payload_total(p: Seq<u64>) -> int
    decreases p.len(),
{
    if p.len() == 0 {
        0
    } else {
        payload_total(p.drop_last()) + p.last()
    }
}

/// Number of leading rows a page keeps: rows are taken in order while the
/// page holds fewer than `limit` rows and the running payload stays within
/// the page budget.
pub open spec fn rows_within(p: Seq<u64>, limit: nat) -> nat
    decreases p.len(),
{
    if p.len() == 0 {
        0
    } else {
        let k = rows_within(p.drop_last(), limit);
        if k == p.len() - 1 && k < limit && payload_total(p) <= MAX_CAPABILITY_PAGE_PAYLOAD_BYTES {
            p.len()
        } else {
            k
        }
    }
}

/// Whether a page over rows `p` is refused: the first row the budget stops
/// at is the page's first row, or adding it overflows a 64-bit total.
pub open spec fn page_refused(p: Seq<u64>, limit: nat) -> bool {
    let k = rows_within(p, limit);
    &&& k < p.len()
    &&& k < limit
    &&& (k == 0 || payload_total(p.take(k as int)) + p[k as int] > u64::MAX)
}

/// Shape of a bounded page: rows kept, their payload total, and whether more
/// rows remain.
#[derive(Debug, Clone, Copy, PartialEq, Eq, Structural)]
pub struct BoundedPage {
    pub rows: usize,
    pub payload_bytes: u64,
    pub has_more: bool,
}

proof fn lemma_rows_within_take(p: Seq<u64>, limit: nat, i: int)
    requires
        0 <= i < p.len(),
        rows_within(p.take(i), limit) == i,
    ensures
        rows_within(p.take(i + 1), limit) == if i < limit && payload_total(p.take(i + 1)) <= MAX_CAPABILITY_PAGE_PAYLOAD_BYTES { i + 1 } else { i },
{
    assert(p.take(i + 1).drop_last() =~= p.take(i));
}

proof fn lemma_rows_within_stable(p: Seq<u64>, limit: nat, i: int, j: int)
    requires
        0 <= i,
        i + 1 <= j <= p.len(),
        rows_within(p.take(i + 1), limit) == i,
    ensures
        rows_within(p.take(j), limit) == i,
    decreases j - i,
{
    if j > i + 1 {
        lemma_rows_within_stable(p, limit, i, j - 1);
        assert(p.take(j).drop_last() =~= p.take(j - 1));
    }
}

/// The detail of the error that refuses a first row larger than a page.
pub open spec fn oversized_row_detail(label: Seq<char>, bytes: nat) -> Seq<char> {
    "one "@ + label + " row requires "@ + decimal(bytes) + " payload bytes; maximum is 16777216"@
}

/// The detail of the error that refuses a page whose byte total leaves `u64`.
pub open spec fn overflowed_total_detail(label: Seq<char>) -> Seq<char> {
    label + " payload byte total overflowed u64"@
}

fn oversized_row_error(label: &str, bytes: u64) -> (e: EngineError)
    ensures
        e is Sqlite,
        sqlite_detail_with(e, oversized_row_detail(label@, bytes as nat)),
{
    let mut detail = String::new();
    push_str(&mut detail, "one ");
    push_str(&mut detail, label);
    push_str(&mut detail, " row requires ");
    push_decimal(&mut detail, bytes);
    push_str(&mut detail, " payload bytes; maximum is 16777216");
    EngineError::Sqlite { operation: "bound capability payload", detail }
}

/// Bound a page over the payload sizes `payloads` of the rows a keyset
/// query returned, in order.
pub fn bound_page(payloads: &Vec<u64>, limit: u32, label: &str) -> (r: Result<BoundedPage, EngineError>)
    ensures
        r is Err <==> page_refused(payloads@, limit as nat),
        r matches Ok(b) ==> {
            &&& b.rows == rows_within(payloads@, limit as nat)
            &&& b.payload_bytes == payload_total(payloads@.take(b.rows as int))
            &&& b.has_more == (b.rows < payloads@.len())
        },
        r matches Err(e) ==> e is Sqlite,
        r matches Err(e) ==> (if rows_within(payloads@, limit as nat) == 0 {
            sqlite_detail_with(e, oversized_row_detail(label@, payloads@[0] as nat))
        } else {
            sqlite_detail_with(e, overflowed_total_detail(label@))
        }),
{
    let ghost p = payloads@;
    let mut total: u64 = 0;
    let mut i: usize = 0;
    assert(p.take(0) =~= Seq::<u64>::empty());
    while i < payloads.len()
        invariant
            p == payloads@,
            i <= p.len(),
            i <= limit,
            total == payload_total(p.take(i as int)),
            total <= MAX_CAPABILITY_PAGE_PAYLOAD_BYTES,
            rows_within(p.take(i as int), limit as nat) == i,
        decreases p.len() - i,
    {
        assert(p.take(i as int + 1).drop_last() =~= p.take(i as int));
        if i >= limit as usize {
            proof {
                lemma_rows_within_take(p, limit as nat, i as int);
                lemma_rows_within_stable(p, limit as nat, i as int, p.len() as int);
                assert(p.take(p.len() as int) =~= p);
            }
            return Ok(BoundedPage { rows: i, payload_bytes: total, has_more: true });
        }
        let row = payloads[i];
        proof {
            lemma_rows_within_take(p, limit as nat, i as int);
        }
        if row > u64::MAX - total {
            proof {
                lemma_rows_within_stable(p, limit as nat, i as int, p.len() as int);
                assert(p.take(p.len() as int) =~= p);
            }
            let e = labelled_storage_error("bound capability payload", label, " payload byte total overflowed u64");
            return Err(e);
        }
        let next = total + row;
        if next > MAX_CAPABILITY_PAGE_PAYLOAD_BYTES {
            proof {
                lemma_rows_within_stable(p, limit as nat, i as int, p.len() as int);
                assert(p.take(p.len() as int) =~= p);
            }
            if i == 0 {
                return Err(oversized_row_error(label, row));
            }
            return Ok(BoundedPage { rows: i, payload_bytes: total, has_more: true });
        }
        total = next;
        i = i + 1;
    }
    assert(p.take(p.len() as int) =~= p);
    Ok(BoundedPage { rows: i, payload_bytes: total, has_more: false })
}

/// The cursor a page hands out: present only when more rows remain, bound
/// to the listing, scope and watermark, and resuming after the last row.
pub open spec fn minted_cursor(
    c: CapabilityCursor,
    kind: CapabilityCursorKind,
    watermark: u64,
    scope: Seq<Seq<char>>,
    rank: u64,
    text: Seq<char>,
    key: Seq<u8>,
) -> bool {
    &&& c.version == CAPABILITY_QUERY_CONTRACT_VERSION
    &&& c.kind == kind
    &&& c.at_commit_seq == watermark
    &&& views(c.scope@) == scope
    &&& c.order_rank == rank
    &&& c.order_text@ == text
    &&& c.entity_key@ == base64url_text(key)
    &&& base64url_bytes(c.entity_key@) == Some(key)
}

/// Continuation cursor of a page: `None` when no rows remain, otherwise one
/// positioned after `last`.
pub fn page_cursor<T>(
    has_more: bool,
    last: Option<&OrderedRow<T>>,
    kind: CapabilityCursorKind,
    watermark: u64,
    scope: Vec<String>,
) -> (r: Option<CapabilityCursor>)
    requires
        last matches Some(row) ==> row.entity_key@.len() <= usize::MAX / 2,
    ensures
        r is Some <==> has_more && last is Some,
        r matches Some(c) ==> minted_cursor(c, kind, watermark, views(scope@), last->0.order_rank,
            last->0.order_text@, last->0.entity_key@),
{
    if !has_more {
        return None;
    }
    match last {
        None => None,
        Some(row) => {
            let entity_key = base64url_encode(row.entity_key.as_slice());
            Some(CapabilityCursor {
                version: CAPABILITY_QUERY_CONTRACT_VERSION,
                kind,
                at_commit_seq: watermark,
                scope,
                order_rank: row.order_rank,
                order_text: row.order_text.clone(),
                entity_key,
            })
        },
    }
}

/// Outer framing of an encoded cursor payload.
pub fn encode_cursor_payload(json: &[u8]) -> (r: String)
    requires
        json@.len() <= usize::MAX / 2,
    ensures
        r@ == base64url_text(json@),
        base64url_bytes(r@) == Some(json@),
{
    base64url_encode(json)
}

/// Entity key a cursor resumes after; empty without a cursor.
pub fn cursor_entity_key(cursor: Option<&CapabilityCursor>) -> (r: Result<Vec<u8>, EngineError>)
    ensures
        r is Ok <==> (cursor matches Some(c) ==> base64url_bytes(c.entity_key@) is Some),
        r matches Ok(k) ==> match cursor {
            None => k@.len() == 0,
            Some(c) => base64url_bytes(c.entity_key@) == Some(k@),
        },
        r matches Err(e) ==> e is InvalidQuery,
{
    match cursor {
        None => Ok(Vec::new()),
        Some(c) => match base64url_decode(c.entity_key.as_str()) {
            Some(k) => Ok(k),
            None => Err(invalid_query("capability cursor entity key is malformed")),
        },
    }
}

/// A cursor minted at another committed watermark has expired.
pub fn validate_cursor_watermark(cursor: Option<&CapabilityCursor>, watermark: u64, label: &str) -> (r: Result<(), EngineError>)
    ensures
        r is Ok <==> (cursor matches Some(c) ==> c.at_commit_seq == watermark),
        r matches Err(e) ==> e is InvalidQuery,
{
    if let Some(c) = cursor {
        if c.at_commit_seq != watermark {
            return Err(labelled_invalid_query(label, " cursor expired; the catalog has committed since"));
        }
    }
    Ok(())
}

/// Sum of a sequence of sizes.
pub open spec fn size_total(v: Seq<usize>) -> int
    decreases v.len(),
{
    if v.len() == 0 {
        0
    } else {
        size_total(v.drop_last()) + v.last()
    }
}

proof fn lemma_size_total_monotone(v: Seq<usize>, i: int, j: int)
    requires
        0 <= i <= j <= v.len(),
    ensures
        size_total(v.take(i)) <= size_total(v.take(j)),
    decreases j - i,
{
    if j > i {
        lemma_size_total_monotone(v, i, j - 1);
        assert(v.take(j).drop_last() =~= v.take(j - 1));
    }
}

/// Sum payload sizes, refusing a total beyond 64 bits.
pub fn checked_payload_sum(values: &Vec<usize>, label: &str) -> (r: Result<u64, EngineError>)
    ensures
        r is Ok <==> size_total(values@) <= u64::MAX,
        r matches Ok(t) ==> t == size_total(values@),
        r matches Err(e) ==> e is Sqlite,
{
    let ghost v = values@;
    let mut total: u64 = 0;
    let mut i: usize = 0;
    assert(v.take(0) =~= Seq::<usize>::empty());
    while i < values.len()
        invariant
            v == values@,
            i <= v.len(),
            total == size_total(v.take(i as int)),
        decreases v.len() - i,
    {
        assert(v.take(i as int + 1).drop_last() =~= v.take(i as int));
        let value = values[i] as u64;
        if value > u64::MAX - total {
            proof {
                lemma_size_total_monotone(v, i as int + 1, v.len() as int);
                assert(v.take(v.len() as int) =~= v);
            }
            return Err(labelled_storage_error("measure capability payload", label, " overflowed u64"));
        }
        total = total + value;
        i = i + 1;
    }
    assert(v.take(v.len() as int) =~= v);
    Ok(total)
}

/// A stored integer that must not be negative.
pub fn decode_nonnegative_u64(value: i64, field: &str) -> (r: Result<u64, EngineError>)
    ensures
        r is Ok <==> value >= 0,
        r matches Ok(v) ==> v == value,
        r matches Err(e) ==> e is Sqlite,
{
    if value < 0 {
        return Err(labelled_storage_error("decode capability integer", field, " was negative"));
    }
    Ok(value as u64)
}

/// An optional stored integer that must not be negative.
pub fn decode_optional_u64(value: Option<i64>, field: &str) -> (r: Result<Option<u64>, EngineError>)
    ensures
        r is Ok <==> (value matches Some(v) ==> v >= 0),
        r matches Ok(o) ==> match value {
            None => o is None,
            Some(v) => o == Some(v as u64),
        },
        r matches Err(e) ==> e is Sqlite,
{
    match value {
        None => Ok(None),
        Some(v) => match decode_nonnegative_u64(v, field) {
            Ok(u) => Ok(Some(u)),
            Err(e) => Err(e),
        },
    }
}

/// The stored columns of one file-history artifact row, as its keyset query
/// returns them.
#[derive(Debug, Clone, PartialEq, Eq)]
pub struct ArtifactRecord {
    pub artifact_key: Vec<u8>,
    pub session_key: Vec<u8>,
    pub project_key: Option<Vec<u8>>,
    pub native_artifact_id: Option<String>,
    pub native_file_hash: Option<String>,
    pub version: i64,
    pub tracking_path: Option<String>,
    pub real_parent_dir: Option<String>,
    pub backup_time: Option<String>,
    pub backup_time_quality: Option<String>,
    pub capture_status: String,
    pub content: Option<Vec<u8>>,
    pub size_bytes: Option<i64>,
    pub content_digest: Option<Vec<u8>>,
    pub content_status: String,
    pub resolution_status: String,
    pub metadata_fact: Option<Vec<u8>>,
    pub content_fact: Option<Vec<u8>>,
    pub metadata_assertion_count: i64,
    pub competing_metadata_count: i64,
    pub content_assertion_count: i64,
    pub competing_content_count: i64,
    pub join_conflict: i64,
    pub last_commit_seq: i64,
    pub metadata_observed_at_unix_ms: Option<i64>,
    pub metadata_source_object_id: Option<i64>,
    pub metadata_source_generation: Option<i64>,
    pub metadata_source_instance_id: Option<i64>,
    pub metadata_adapter_id: Option<String>,
    pub content_observed_at_unix_ms: Option<i64>,
    pub content_source_object_id: Option<i64>,
    pub content_source_generation: Option<i64>,
    pub content_source_instance_id: Option<i64>,
    pub content_adapter_id: Option<String>,
    pub order_rank: i64,
    pub order_text: String,
}

/// An optional stored integer is absent or not negative.
pub open spec fn optional_nonnegative(v: Option<i64>) -> bool {
    v matches Some(x) ==> x >= 0
}

/// An optional stored integer read as an unsigned value.
pub open spec fn optional_unsigned(v: Option<i64>) -> Option<u64> {
    match v {
        Some(x) => Some(x as u64),
        None => None,
    }
}

/// Every stored integer of an artifact row that must not be negative is not.
pub open spec fn artifact_record_ok(r: ArtifactRecord) -> bool {
    &&& r.order_rank >= 0
    &&& r.version >= 0
    &&& optional_nonnegative(r.size_bytes)
    &&& r.metadata_assertion_count >= 0
    &&& r.competing_metadata_count >= 0
    &&& r.content_assertion_count >= 0
    &&& r.competing_content_count >= 0
    &&& r.last_commit_seq >= 0
    &&& optional_nonnegative(r.metadata_source_instance_id)
    &&& optional_nonnegative(r.metadata_source_object_id)
    &&& optional_nonnegative(r.metadata_source_generation)
    &&& optional_nonnegative(r.content_source_instance_id)
    &&& optional_nonnegative(r.content_source_object_id)
    &&& optional_nonnegative(r.content_source_generation)
}

/// Opaque id of an optional stored key.
pub open spec fn optional_entity_id(prefix: Seq<char>, key: Option<Vec<u8>>) -> Option<Seq<char>> {
    match key {
        Some(k) => Some(entity_id_text(prefix, k@)),
        None => None,
    }
}

/// Text of an optional string.
pub open spec fn optional_text(v: Option<String>) -> Option<Seq<char>> {
    match v {
        Some(t) => Some(t@),
        None => None,
    }
}

/// The stored byte columns of an artifact row fit the encoders.
pub open spec fn artifact_record_fits(r: ArtifactRecord) -> bool {
    &&& r.artifact_key@.len() <= usize::MAX / 2
    &&& r.session_key@.len() <= usize::MAX / 2
    &&& (r.project_key matches Some(k) ==> k@.len() <= usize::MAX / 2)
    &&& (r.content matches Some(c) ==> c@.len() <= usize::MAX / 2)
    &&& (r.content_digest matches Some(d) ==> d@.len() <= usize::MAX / 2)
    &&& (r.metadata_fact matches Some(k) ==> k@.len() <= usize::MAX / 2)
    &&& (r.content_fact matches Some(k) ==> k@.len() <= usize::MAX / 2)
}

fn optional_id(prefix: &str, key: &Option<Vec<u8>>) -> (r: Option<String>)
    requires
        key matches Some(k) ==> k@.len() <= usize::MAX / 2,
    ensures
        optional_text(r) == optional_entity_id(prefix@, *key),
{
    match key {
        Some(k) => Some(encode_entity_id(prefix, k.as_slice())),
        None => None,
    }
}

/// Shape one stored artifact row into its detail, ordering position and
/// payload size: ids are the opaque forms of the stored keys, content is
/// returned as standard base64 and counted by that text's bytes, and the
/// content digest as unpadded URL-safe base64.
pub fn artifact_row(record: ArtifactRecord) -> (r: Result<OrderedRow<ArtifactDetail>, EngineError>)
    requires
        artifact_record_fits(record),
    ensures
        r is Ok <==> artifact_record_ok(record),
        r matches Ok(row) ==> {
            &&& row.entity_key@ == record.artifact_key@
            &&& row.order_rank == record.order_rank
            &&& row.order_text@ == record.order_text@
            &&& row.payload_bytes == match record.content {
                Some(c) => encode_utf8(base64_standard_text(c@)).len(),
                None => 0,
            }
            &&& row.item.artifact_id@ == entity_id_text(ARTIFACT_ID_PREFIX@, record.artifact_key@)
            &&& row.item.session_id@ == entity_id_text(SESSION_ID_PREFIX@, record.session_key@)
            &&& optional_text(row.item.project_id) == optional_entity_id(PROJECT_ID_PREFIX@, record.project_key)
            &&& row.item.native_artifact_id == record.native_artifact_id
            &&& row.item.native_file_hash == record.native_file_hash
            &&& row.item.version == record.version
            &&& row.item.tracking_path == record.tracking_path
            &&& row.item.real_parent_dir == record.real_parent_dir
            &&& row.item.backup_time == record.backup_time
            &&& row.item.backup_time_quality == record.backup_time_quality
            &&& row.item.capture_status == record.capture_status
            &&& optional_text(row.item.content_base64) == match record.content {
                Some(c) => Some(base64_standard_text(c@)),
                None => None,
            }
            &&& row.item.size_bytes == optional_unsigned(record.size_bytes)
            &&& optional_text(row.item.content_digest_base64url) == match record.content_digest {
                Some(d) => Some(base64url_text(d@)),
                None => None,
            }
            &&& row.item.content_status == record.content_status
            &&& row.item.resolution_status == record.resolution_status
            &&& optional_text(row.item.metadata_fact_id) == optional_entity_id(FACT_ID_PREFIX@, record.metadata_fact)
            &&& optional_text(row.item.content_fact_id) == optional_entity_id(FACT_ID_PREFIX@, record.content_fact)
            &&& row.item.metadata_assertion_count == record.metadata_assertion_count
            &&& row.item.competing_metadata_count == record.competing_metadata_count
            &&& row.item.content_assertion_count == record.content_assertion_count
            &&& row.item.competing_content_count == record.competing_content_count
            &&& row.item.join_conflict == (record.join_conflict != 0)
            &&& row.item.last_commit_seq == record.last_commit_seq
            &&& row.item.metadata_adapter_id == record.metadata_adapter_id
            &&& row.item.metadata_source_instance_id == optional_unsigned(record.metadata_source_instance_id)
            &&& row.item.metadata_observed_at_unix_ms == record.metadata_observed_at_unix_ms
            &&& row.item.metadata_source_object_id == optional_unsigned(record.metadata_source_object_id)
            &&& row.item.metadata_source_generation == optional_unsigned(record.metadata_source_generation)
            &&& row.item.content_adapter_id == record.content_adapter_id
            &&& row.item.content_source_instance_id == optional_unsigned(record.content_source_instance_id)
            &&& row.item.content_observed_at_unix_ms == record.content_observed_at_unix_ms
            &&& row.item.content_source_object_id == optional_unsigned(record.content_source_object_id)
            &&& row.item.content_source_generation == optional_unsigned(record.content_source_generation)
        },
        r matches Err(e) ==> e is Sqlite,
{
    let order_rank = decode_nonnegative_u64(record.order_rank, "artifact order rank")?;
    let content_base64: Option<String> = match &record.content {
        Some(c) => Some(base64_standard_encode(c.as_slice())),
        None => None,
    };
    let payload_bytes: u64 = match &content_base64 {
        Some(t) => {
            let b = t.as_str().as_bytes();
            b.len() as u64
        },
        None => 0,
    };
    let version = decode_nonnegative_u64(record.version, "artifact version")?;
    let size_bytes = decode_optional_u64(record.size_bytes, "artifact size")?;
    let metadata_assertion_count = decode_nonnegative_u64(record.metadata_assertion_count, "artifact metadata assertions")?;
    let competing_metadata_count = decode_nonnegative_u64(record.competing_metadata_count, "artifact metadata conflicts")?;
    let content_assertion_count = decode_nonnegative_u64(record.content_assertion_count, "artifact content assertions")?;
    let competing_content_count = decode_nonnegative_u64(record.competing_content_count, "artifact content conflicts")?;
    let last_commit_seq = decode_nonnegative_u64(record.last_commit_seq, "artifact commit")?;
    let metadata_source_instance_id = decode_optional_u64(record.metadata_source_instance_id, "artifact metadata source instance")?;
    let metadata_source_object_id = decode_optional_u64(record.metadata_source_object_id, "artifact metadata source object")?;
    let metadata_source_generation = decode_optional_u64(record.metadata_source_generation, "artifact metadata source generation")?;
    let content_source_instance_id = decode_optional_u64(record.content_source_instance_id, "artifact content source instance")?;
    let content_source_object_id = decode_optional_u64(record.content_source_object_id, "artifact content source object")?;
    let content_source_generation = decode_optional_u64(record.content_source_generation, "artifact content source generation")?;
    let content_digest_base64url: Option<String> = match &record.content_digest {
        Some(d) => Some(base64url_encode(d.as_slice())),
        None => None,
    };
    let artifact_id = encode_entity_id(ARTIFACT_ID_PREFIX, record.artifact_key.as_slice());
    let session_id = encode_entity_id(SESSION_ID_PREFIX, record.session_key.as_slice());
    let project_id = optional_id(PROJECT_ID_PREFIX, &record.project_key);
    let metadata_fact_id = optional_id(FACT_ID_PREFIX, &record.metadata_fact);
    let content_fact_id = optional_id(FACT_ID_PREFIX, &record.content_fact);
    let item = ArtifactDetail {
        artifact_id,
        session_id,
        project_id,
        native_artifact_id: record.native_artifact_id,
        native_file_hash: record.native_file_hash,
        version,
        tracking_path: record.tracking_path,
        real_parent_dir: record.real_parent_dir,
        backup_time: record.backup_time,
        backup_time_quality: record.backup_time_quality,
        capture_status: record.capture_status,
        content_base64,
        size_bytes,
        content_digest_base64url,
        content_status: record.content_status,
        resolution_status: record.resolution_status,
        metadata_fact_id,
        content_fact_id,
        metadata_adapter_id: record.metadata_adapter_id,
        metadata_source_instance_id,
        metadata_observed_at_unix_ms: record.metadata_observed_at_unix_ms,
        metadata_source_object_id,
        metadata_source_generation,
        content_adapter_id: record.content_adapter_id,
        content_source_instance_id,
        content_observed_at_unix_ms: record.content_observed_at_unix_ms,
        content_source_object_id,
        content_source_generation,
        metadata_assertion_count,
        competing_metadata_count,
        content_assertion_count,
        competing_content_count,
        join_conflict: record.join_conflict != 0,
        last_commit_seq,
    };
    Ok(OrderedRow {
        item,
        entity_key: record.artifact_key,
        order_rank,
        order_text: record.order_text,
        payload_bytes,
    })
}

/// The stored columns of one project memory document row.
#[derive(Debug, Clone, PartialEq, Eq)]
pub struct MemoryDocumentRecord {
    pub document_key: Vec<u8>,
    pub project_key: Vec<u8>,
    pub native_project_key: String,
    pub native_document_path: String,
    pub title: String,
    pub content: String,
    pub size_bytes: i64,
    pub is_index: i64,
    pub resolution_status: String,
    pub decisive_fact_id: Vec<u8>,
    pub assertion_count: i64,
    pub competing_document_count: i64,
    pub last_commit_seq: i64,
    pub observed_at_unix_ms: i64,
    pub source_object_id: i64,
    pub source_generation: i64,
    pub source_instance_id: i64,
    pub adapter_id: String,
    pub order_rank: i64,
}

/// Shape one stored memory document row: ordered index documents first,
/// then by path; its payload is the content's bytes.
pub fn memory_document_row(record: MemoryDocumentRecord) -> (r: Result<OrderedRow<MemoryDocument>, EngineError>)
    requires
        record.document_key@.len() <= usize::MAX / 2,
        record.project_key@.len() <= usize::MAX / 2,
        record.decisive_fact_id@.len() <= usize::MAX / 2,
    ensures
        r is Ok <==> {
            &&& record.order_rank >= 0
            &&& record.size_bytes >= 0
            &&& record.assertion_count >= 0
            &&& record.competing_document_count >= 0
            &&& record.last_commit_seq >= 0
            &&& record.source_object_id >= 0
            &&& record.source_generation >= 0
            &&& record.source_instance_id >= 0
        },
        r matches Ok(row) ==> {
            &&& row.entity_key@ == record.document_key@
            &&& row.order_rank == record.order_rank
            &&& row.order_text == record.native_document_path
            &&& row.payload_bytes == str_len(record.content@)
            &&& row.item.document_id@ == entity_id_text(MEMORY_DOCUMENT_ID_PREFIX@, record.document_key@)
            &&& row.item.project_id@ == entity_id_text(PROJECT_ID_PREFIX@, record.project_key@)
            &&& row.item.native_project_key == record.native_project_key
            &&& row.item.native_document_path == record.native_document_path
            &&& row.item.title == record.title
            &&& row.item.content == record.content
            &&& row.item.size_bytes == record.size_bytes
            &&& row.item.is_index == (record.is_index != 0)
            &&& row.item.resolution_status == record.resolution_status
            &&& row.item.decisive_fact_id@ == entity_id_text(FACT_ID_PREFIX@, record.decisive_fact_id@)
            &&& row.item.assertion_count == record.assertion_count
            &&& row.item.competing_document_count == record.competing_document_count
            &&& row.item.last_commit_seq == record.last_commit_seq
            &&& row.item.observed_at_unix_ms == record.observed_at_unix_ms
            &&& row.item.source_object_id == record.source_object_id
            &&& row.item.source_generation == record.source_generation
            &&& row.item.source_instance_id == record.source_instance_id
            &&& row.item.adapter_id == record.adapter_id
        },
        r matches Err(e) ==> e is Sqlite,
{
    let order_rank = decode_nonnegative_u64(record.order_rank, "memory order rank")?;
    let payload_bytes = record.content.as_str().len() as u64;
    let size_bytes = decode_nonnegative_u64(record.size_bytes, "memory size")?;
    let assertion_count = decode_nonnegative_u64(record.assertion_count, "memory assertion count")?;
    let competing_document_count = decode_nonnegative_u64(record.competing_document_count, "memory competing count")?;
    let last_commit_seq = decode_nonnegative_u64(record.last_commit_seq, "memory commit")?;
    let source_object_id = decode_nonnegative_u64(record.source_object_id, "memory source object")?;
    let source_generation = decode_nonnegative_u64(record.source_generation, "memory source generation")?;
    let source_instance_id = decode_nonnegative_u64(record.source_instance_id, "memory source instance")?;
    let item = MemoryDocument {
        document_id: encode_entity_id(MEMORY_DOCUMENT_ID_PREFIX, record.document_key.as_slice()),
        project_id: encode_entity_id(PROJECT_ID_PREFIX, record.project_key.as_slice()),
        adapter_id: record.adapter_id,
        source_instance_id,
        native_project_key: record.native_project_key,
        native_document_path: record.native_document_path.clone(),
        title: record.title,
        content: record.content,
        size_bytes,
        is_index: record.is_index != 0,
        resolution_status: record.resolution_status,
        decisive_fact_id: encode_entity_id(FACT_ID_PREFIX, record.decisive_fact_id.as_slice()),
        assertion_count,
        competing_document_count,
        observed_at_unix_ms: record.observed_at_unix_ms,
        source_object_id,
        source_generation,
        last_commit_seq,
    };
    Ok(OrderedRow {
        item,
        entity_key: record.document_key,
        order_rank,
        order_text: record.native_document_path,
        payload_bytes,
    })
}

/// The stored columns of one plan row.
#[derive(Debug, Clone, PartialEq, Eq)]
pub struct PlanRecord {
    pub plan_key: Vec<u8>,
    pub native_plan_id: String,
    pub title: String,
    pub content: String,
    pub size_bytes: i64,
    pub source_time: Option<String>,
    pub source_time_quality: Option<String>,
    pub resolution_status: String,
    pub decisive_fact_id: Vec<u8>,
    pub assertion_count: i64,
    pub competing_plan_count: i64,
    pub last_commit_seq: i64,
    pub observed_at_unix_ms: i64,
    pub source_object_id: i64,
    pub source_generation: i64,
    pub source_instance_id: i64,
    pub adapter_id: String,
}

/// Shape one stored plan row, ordered by its native plan id; its payload is
/// the content's bytes.
pub fn plan_row(record: PlanRecord) -> (r: Result<OrderedRow<PlanDetail>, EngineError>)
    requires
        record.plan_key@.len() <= usize::MAX / 2,
        record.decisive_fact_id@.len() <= usize::MAX / 2,
    ensures
        r is Ok <==> {
            &&& record.size_bytes >= 0
            &&& record.assertion_count >= 0
            &&& record.competing_plan_count >= 0
            &&& record.last_commit_seq >= 0
            &&& record.source_object_id >= 0
            &&& record.source_generation >= 0
            &&& record.source_instance_id >= 0
        },
        r matches Ok(row) ==> {
            &&& row.entity_key@ == record.plan_key@
            &&& row.order_rank == 0
            &&& row.order_text == record.native_plan_id
            &&& row.payload_bytes == str_len(record.content@)
            &&& row.item.plan_id@ == entity_id_text(PLAN_ID_PREFIX@, record.plan_key@)
            &&& row.item.native_plan_id == record.native_plan_id
            &&& row.item.title == record.title
            &&& row.item.content == record.content
            &&& row.item.size_bytes == record.size_bytes
            &&& row.item.source_time == record.source_time
            &&& row.item.source_time_quality == record.source_time_quality
            &&& row.item.resolution_status == record.resolution_status
            &&& row.item.decisive_fact_id@ == entity_id_text(FACT_ID_PREFIX@, record.decisive_fact_id@)
            &&& row.item.assertion_count == record.assertion_count
            &&& row.item.competing_plan_count == record.competing_plan_count
            &&& row.item.last_commit_seq == record.last_commit_seq
            &&& row.item.observed_at_unix_ms == record.observed_at_unix_ms
            &&& row.item.source_object_id == record.source_object_id
            &&& row.item.source_generation == record.source_generation
            &&& row.item.source_instance_id == record.source_instance_id
            &&& row.item.adapter_id == record.adapter_id
        },
        r matches Err(e) ==> e is Sqlite,
{
    let payload_bytes = record.content.as_str().len() as u64;
    let size_bytes = decode_nonnegative_u64(record.size_bytes, "plan size")?;
    let assertion_count = decode_nonnegative_u64(record.assertion_count, "plan assertions")?;
    let competing_plan_count = decode_nonnegative_u64(record.competing_plan_count, "competing plans")?;
    let last_commit_seq = decode_nonnegative_u64(record.last_commit_seq, "plan commit")?;
    let source_object_id = decode_nonnegative_u64(record.source_object_id, "plan source object")?;
    let source_generation = decode_nonnegative_u64(record.source_generation, "plan source generation")?;
    let source_instance_id = decode_nonnegative_u64(record.source_instance_id, "plan source instance")?;
    let item = PlanDetail {
        plan_id: encode_entity_id(PLAN_ID_PREFIX, record.plan_key.as_slice()),
        adapter_id: record.adapter_id,
        source_instance_id,
        native_plan_id: record.native_plan_id.clone(),
        title: record.title,
        content: record.content,
        size_bytes,
        source_time: record.source_time,
        source_time_quality: record.source_time_quality,
        resolution_status: record.resolution_status,
        decisive_fact_id: encode_entity_id(FACT_ID_PREFIX, record.decisive_fact_id.as_slice()),
        assertion_count,
        competing_plan_count,
        observed_at_unix_ms: record.observed_at_unix_ms,
        source_object_id,
        source_generation,
        last_commit_seq,
    };
    Ok(OrderedRow {
        item,
        entity_key: record.plan_key,
        order_rank: 0,
        order_text: record.native_plan_id,
        payload_bytes,
    })
}

/// The stored columns of one persisted tool result row.
#[derive(Debug, Clone, PartialEq, Eq)]
pub struct ToolResultRecord {
    pub result_key: Vec<u8>,
    pub project_key: Vec<u8>,
    pub session_key: Vec<u8>,
    pub native_project_key: String,
    pub native_session_id: String,
    pub native_tool_use_id: String,
    pub native_document_path: String,
    pub content: String,
    pub size_bytes: i64,
    pub resolution_status: String,
    pub correlation_status: String,
    pub tool_call_message_key: Option<Vec<u8>>,
    pub tool_result_message_key: Option<Vec<u8>>,
    pub decisive_fact_id: Vec<u8>,
    pub assertion_count: i64,
    pub competing_result_count: i64,
    pub tool_call_match_count: i64,
    pub tool_result_match_count: i64,
    pub join_conflict: i64,
    pub last_commit_seq: i64,
    pub observed_at_unix_ms: i64,
    pub source_object_id: i64,
    pub source_generation: i64,
    pub source_instance_id: i64,
    pub adapter_id: String,
}

/// Shape one stored tool result row, ordered by its native tool-use id; its
/// payload is the content's bytes.
pub fn tool_result_row(record: ToolResultRecord) -> (r: Result<OrderedRow<ToolResultDetail>, EngineError>)
    requires
        record.result_key@.len() <= usize::MAX / 2,
        record.project_key@.len() <= usize::MAX / 2,
        record.session_key@.len() <= usize::MAX / 2,
        record.decisive_fact_id@.len() <= usize::MAX / 2,
        record.tool_call_message_key matches Some(k) ==> k@.len() <= usize::MAX / 2,
        record.tool_result_message_key matches Some(k) ==> k@.len() <= usize::MAX / 2,
    ensures
        r is Ok <==> {
            &&& record.size_bytes >= 0
            &&& record.assertion_count >= 0
            &&& record.competing_result_count >= 0
            &&& record.tool_call_match_count >= 0
            &&& record.tool_result_match_count >= 0
            &&& record.last_commit_seq >= 0
            &&& record.source_object_id >= 0
            &&& record.source_generation >= 0
            &&& record.source_instance_id >= 0
        },
        r matches Ok(row) ==> {
            &&& row.entity_key@ == record.result_key@
            &&& row.order_rank == 0
            &&& row.order_text == record.native_tool_use_id
            &&& row.payload_bytes == str_len(record.content@)
            &&& row.item.result_id@ == entity_id_text(TOOL_RESULT_ID_PREFIX@, record.result_key@)
            &&& row.item.project_id@ == entity_id_text(PROJECT_ID_PREFIX@, record.project_key@)
            &&& row.item.session_id@ == entity_id_text(SESSION_ID_PREFIX@, record.session_key@)
            &&& row.item.native_project_key == record.native_project_key
            &&& row.item.native_session_id == record.native_session_id
            &&& row.item.native_tool_use_id == record.native_tool_use_id
            &&& row.item.native_document_path == record.native_document_path
            &&& row.item.content == record.content
            &&& row.item.size_bytes == record.size_bytes
            &&& row.item.resolution_status == record.resolution_status
            &&& row.item.correlation_status == record.correlation_status
            &&& optional_text(row.item.tool_call_message_id) == optional_entity_id(MESSAGE_ID_PREFIX@, record.tool_call_message_key)
            &&& optional_text(row.item.tool_result_message_id) == optional_entity_id(MESSAGE_ID_PREFIX@, record.tool_result_message_key)
            &&& row.item.decisive_fact_id@ == entity_id_text(FACT_ID_PREFIX@, record.decisive_fact_id@)
            &&& row.item.assertion_count == record.assertion_count
            &&& row.item.competing_result_count == record.competing_result_count
            &&& row.item.tool_call_match_count == record.tool_call_match_count
            &&& row.item.tool_result_match_count == record.tool_result_match_count
            &&& row.item.join_conflict == (record.join_conflict != 0)
            &&& row.item.last_commit_seq == record.last_commit_seq
            &&& row.item.observed_at_unix_ms == record.observed_at_unix_ms
            &&& row.item.source_object_id == record.source_object_id
            &&& row.item.source_generation == record.source_generation
            &&& row.item.source_instance_id == record.source_instance_id
            &&& row.item.adapter_id == record.adapter_id
        },
        r matches Err(e) ==> e is Sqlite,
{
    let payload_bytes = record.content.as_str().len() as u64;
    let size_bytes = decode_nonnegative_u64(record.size_bytes, "tool result size")?;
    let assertion_count = decode_nonnegative_u64(record.assertion_count, "tool result assertions")?;
    let competing_result_count = decode_nonnegative_u64(record.competing_result_count, "competing tool results")?;
    let tool_call_match_count = decode_nonnegative_u64(record.tool_call_match_count, "tool call matches")?;
    let tool_result_match_count = decode_nonnegative_u64(record.tool_result_match_count, "tool result matches")?;
    let last_commit_seq = decode_nonnegative_u64(record.last_commit_seq, "tool result commit")?;
    let source_object_id = decode_nonnegative_u64(record.source_object_id, "tool result source object")?;
    let source_generation = decode_nonnegative_u64(record.source_generation, "tool result source generation")?;
    let source_instance_id = decode_nonnegative_u64(record.source_instance_id, "tool result source instance")?;
    let item = ToolResultDetail {
        result_id: encode_entity_id(TOOL_RESULT_ID_PREFIX, record.result_key.as_slice()),
        project_id: encode_entity_id(PROJECT_ID_PREFIX, record.project_key.as_slice()),
        session_id: encode_entity_id(SESSION_ID_PREFIX, record.session_key.as_slice()),
        adapter_id: record.adapter_id,
        source_instance_id,
        native_project_key: record.native_project_key,
        native_session_id: record.native_session_id,
        native_tool_use_id: record.native_tool_use_id.clone(),
        native_document_path: record.native_document_path,
        content: record.content,
        size_bytes,
        resolution_status: record.resolution_status,
        correlation_status: record.correlation_status,
        tool_call_message_id: optional_id(MESSAGE_ID_PREFIX, &record.tool_call_message_key),
        tool_result_message_id: optional_id(MESSAGE_ID_PREFIX, &record.tool_result_message_key),
        decisive_fact_id: encode_entity_id(FACT_ID_PREFIX, record.decisive_fact_id.as_slice()),
        assertion_count,
        competing_result_count,
        tool_call_match_count,
        tool_result_match_count,
        join_conflict: record.join_conflict != 0,
        observed_at_unix_ms: record.observed_at_unix_ms,
        source_object_id,
        source_generation,
        last_commit_seq,
    };
    Ok(OrderedRow {
        item,
        entity_key: record.result_key,
        order_rank: 0,
        order_text: record.native_tool_use_id,
        payload_bytes,
    })
}

/// The stored columns of one task collection row.
#[derive(Debug, Clone, PartialEq, Eq)]
pub struct TaskCollectionRecord {
    pub collection_key: Vec<u8>,
    pub project_key: Option<Vec<u8>>,
    pub session_key: Option<Vec<u8>>,
    pub run_key: Option<Vec<u8>>,
    pub team_key: Option<Vec<u8>>,
    pub native_collection_id: String,
    pub native_owner_id: Option<String>,
    pub collection_kind: String,
    pub native_collection_kind: String,
    pub resolution_status: String,
    pub decisive_fact_id: Vec<u8>,
    pub assertion_count: i64,
    pub competing_metadata_count: i64,
    pub complete_snapshot_count: i64,
    pub item_document_count: i64,
    pub item_count: i64,
    pub last_commit_seq: i64,
    pub observed_at_unix_ms: i64,
    pub source_object_id: i64,
    pub source_generation: i64,
    pub source_instance_id: i64,
    pub adapter_id: String,
}

/// Shape one stored task collection row, ordered by its native collection
/// id; a summary carries no payload.
pub fn task_collection_row(record: TaskCollectionRecord) -> (r: Result<OrderedRow<TaskCollectionSummary>, EngineError>)
    requires
        record.collection_key@.len() <= usize::MAX / 2,
        record.decisive_fact_id@.len() <= usize::MAX / 2,
        record.project_key matches Some(k) ==> k@.len() <= usize::MAX / 2,
        record.session_key matches Some(k) ==> k@.len() <= usize::MAX / 2,
        record.run_key matches Some(k) ==> k@.len() <= usize::MAX / 2,
        record.team_key matches Some(k) ==> k@.len() <= usize::MAX / 2,
    ensures
        r is Ok <==> {
            &&& record.assertion_count >= 0
            &&& record.competing_metadata_count >= 0
            &&& record.complete_snapshot_count >= 0
            &&& record.item_document_count >= 0
            &&& record.item_count >= 0
            &&& record.last_commit_seq >= 0
            &&& record.source_object_id >= 0
            &&& record.source_generation >= 0
            &&& record.source_instance_id >= 0
        },
        r matches Ok(row) ==> {
            &&& row.entity_key@ == record.collection_key@
            &&& row.order_rank == 0
            &&& row.order_text == record.native_collection_id
            &&& row.payload_bytes == 0
            &&& row.item.collection_id@ == entity_id_text(TASK_COLLECTION_ID_PREFIX@, record.collection_key@)
            &&& optional_text(row.item.project_id) == optional_entity_id(PROJECT_ID_PREFIX@, record.project_key)
            &&& optional_text(row.item.session_id) == optional_entity_id(SESSION_ID_PREFIX@, record.session_key)
            &&& optional_text(row.item.run_id) == optional_entity_id(RUN_ID_PREFIX@, record.run_key)
            &&& optional_text(row.item.team_id) == optional_entity_id(TEAM_ID_PREFIX@, record.team_key)
            &&& row.item.native_collection_id == record.native_collection_id
            &&& row.item.native_owner_id == record.native_owner_id
            &&& row.item.collection_kind == record.collection_kind
            &&& row.item.native_collection_kind == record.native_collection_kind
            &&& row.item.resolution_status == record.resolution_status
            &&& row.item.decisive_fact_id@ == entity_id_text(FACT_ID_PREFIX@, record.decisive_fact_id@)
            &&& row.item.assertion_count == record.assertion_count
            &&& row.item.competing_metadata_count == record.competing_metadata_count
            &&& row.item.complete_snapshot_count == record.complete_snapshot_count
            &&& row.item.item_document_count == record.item_document_count
            &&& row.item.item_count == record.item_count
            &&& row.item.last_commit_seq == record.last_commit_seq
            &&& row.item.observed_at_unix_ms == record.observed_at_unix_ms
            &&& row.item.source_object_id == record.source_object_id
            &&& row.item.source_generation == record.source_generation
            &&& row.item.source_instance_id == record.source_instance_id
            &&& row.item.adapter_id == record.adapter_id
        },
        r matches Err(e) ==> e is Sqlite,
{
    let assertion_count = decode_nonnegative_u64(record.assertion_count, "task collection assertions")?;
    let competing_metadata_count = decode_nonnegative_u64(record.competing_metadata_count, "task collection conflicts")?;
    let complete_snapshot_count = decode_nonnegative_u64(record.complete_snapshot_count, "complete task snapshots")?;
    let item_document_count = decode_nonnegative_u64(record.item_document_count, "task item documents")?;
    let item_count = decode_nonnegative_u64(record.item_count, "task item count")?;
    let last_commit_seq = decode_nonnegative_u64(record.last_commit_seq, "task collection commit")?;
    let source_object_id = decode_nonnegative_u64(record.source_object_id, "task collection source object")?;
    let source_generation = decode_nonnegative_u64(record.source_generation, "task collection source generation")?;
    let source_instance_id = decode_nonnegative_u64(record.source_instance_id, "task collection source instance")?;
    let item = TaskCollectionSummary {
        collection_id: encode_entity_id(TASK_COLLECTION_ID_PREFIX, record.collection_key.as_slice()),
        project_id: optional_id(PROJECT_ID_PREFIX, &record.project_key),
        session_id: optional_id(SESSION_ID_PREFIX, &record.session_key),
        run_id: optional_id(RUN_ID_PREFIX, &record.run_key),
        team_id: optional_id(TEAM_ID_PREFIX, &record.team_key),
        adapter_id: record.adapter_id,
        source_instance_id,
        native_collection_id: record.native_collection_id.clone(),
        native_owner_id: record.native_owner_id,
        collection_kind: record.collection_kind,
        native_collection_kind: record.native_collection_kind,
        resolution_status: record.resolution_status,
        decisive_fact_id: encode_entity_id(FACT_ID_PREFIX, record.decisive_fact_id.as_slice()),
        assertion_count,
        competing_metadata_count,
        complete_snapshot_count,
        item_document_count,
        item_count,
        observed_at_unix_ms: record.observed_at_unix_ms,
        source_object_id,
        source_generation,
        last_commit_seq,
    };
    Ok(OrderedRow {
        item,
        entity_key: record.collection_key,
        order_rank: 0,
        order_text: record.native_collection_id,
        payload_bytes: 0,
    })
}

/// The strings a JSON document holds when it is an array of strings.
pub uninterp spec fn json_string_array(bytes: Seq<u8>) -> Option<Seq<Seq<char>>>;

/// Calls `serde_json::from_slice` for a `Vec<String>`. The contract claims
/// the result is `Some` exactly when `json_string_array` names a value for
/// these bytes, and then holds exactly those strings in order; which byte
/// strings parse is left to the name.
#[verifier::external_body]
fn parse_string_array(bytes: &[u8]) -> (r: Option<Vec<String>>)
    ensures
        r is Some <==> json_string_array(bytes@) is Some,
        r matches Some(v) ==> json_string_array(bytes@) == Some(views(v@)),
{
    serde_json::from_slice::<Vec<String>>(bytes).ok()
}

/// The stored columns of one task row; dependency lists are stored as JSON.
#[derive(Debug, Clone, PartialEq, Eq)]
pub struct TaskRecord {
    pub task_key: Vec<u8>,
    pub collection_key: Vec<u8>,
    pub item_ordinal: i64,
    pub native_task_id: Option<String>,
    pub subject: String,
    pub description: Option<String>,
    pub active_form: Option<String>,
    pub native_owner: Option<String>,
    pub task_status: String,
    pub native_status: String,
    pub blocks_json: Vec<u8>,
    pub blocked_by_json: Vec<u8>,
    pub resolution_status: String,
    pub decisive_fact_id: Vec<u8>,
    pub assertion_count: i64,
    pub competing_item_count: i64,
    pub last_commit_seq: i64,
    pub observed_at_unix_ms: i64,
    pub source_object_id: i64,
    pub source_generation: i64,
    pub source_instance_id: i64,
    pub adapter_id: String,
}

/// Byte length of an optional text, zero when absent.
pub open spec fn optional_len(v: Option<String>) -> usize {
    match v {
        Some(t) => str_len(t@),
        None => 0,
    }
}

/// The payload sizes a task row counts: its texts and stored dependency
/// documents.
pub open spec fn task_payload_sizes(record: TaskRecord) -> Seq<usize> {
    seq![
        str_len(record.subject@),
        optional_len(record.description),
        optional_len(record.active_form),
        optional_len(record.native_owner),
        record.blocks_json@.len() as usize,
        record.blocked_by_json@.len() as usize,
    ]
}

/// A shaped task row carries the stored task's fields, opaque ids for its
/// keys, its item ordinal as ordering position and its summed payload.
pub open spec fn task_row_of(record: TaskRecord, row: OrderedRow<TaskDetail>) -> bool {
    &&& row.entity_key@ == record.task_key@
    &&& row.order_rank == record.item_ordinal
    &&& row.order_text@.len() == 0
    &&& row.payload_bytes == size_total(task_payload_sizes(record))
    &&& row.item.task_id@ == entity_id_text(TASK_ID_PREFIX@, record.task_key@)
    &&& row.item.collection_id@ == entity_id_text(TASK_COLLECTION_ID_PREFIX@, record.collection_key@)
    &&& row.item.item_ordinal == record.item_ordinal
    &&& row.item.native_task_id == record.native_task_id
    &&& row.item.subject == record.subject
    &&& row.item.description == record.description
    &&& row.item.active_form == record.active_form
    &&& row.item.native_owner == record.native_owner
    &&& row.item.task_status == record.task_status
    &&& row.item.native_status == record.native_status
    &&& row.item.resolution_status == record.resolution_status
    &&& row.item.decisive_fact_id@ == entity_id_text(FACT_ID_PREFIX@, record.decisive_fact_id@)
    &&& row.item.assertion_count == record.assertion_count
    &&& row.item.competing_item_count == record.competing_item_count
    &&& row.item.last_commit_seq == record.last_commit_seq
    &&& row.item.observed_at_unix_ms == record.observed_at_unix_ms
    &&& row.item.source_object_id == record.source_object_id
    &&& row.item.source_generation == record.source_generation
    &&& row.item.source_instance_id == record.source_instance_id
    &&& row.item.adapter_id == record.adapter_id
}

/// The bytes `str::len` reports for a task's subject, description, active
/// form and owner (an absent text counts nothing), plus the bytes of its two
/// stored dependency documents.
pub open spec fn task_text_bytes(record: TaskRecord) -> int {
    str_len(record.subject@) + present_text_bytes(record.description) + present_text_bytes(record.active_form)
        + present_text_bytes(record.native_owner) + record.blocks_json@.len() + record.blocked_by_json@.len()
}

/// The bytes `str::len` reports for a text that is present; nothing when
/// it is absent.
pub open spec fn present_text_bytes(v: Option<String>) -> int {
    match v {
        Some(t) => str_len(t@) as int,
        None => 0,
    }
}

/// A task row's payload is every byte of its texts and stored dependency
/// documents: the sizes it sums are exactly those, so each text that is
/// present, the active form among them, adds its whole length.
pub proof fn lemma_task_payload_counts_every_text(record: TaskRecord)
    requires
        record.blocks_json@.len() <= usize::MAX,
        record.blocked_by_json@.len() <= usize::MAX,
    ensures
        size_total(task_payload_sizes(record)) == task_text_bytes(record),
        record.active_form matches Some(t) ==> size_total(task_payload_sizes(record))
            == size_total(task_payload_sizes(TaskRecord { active_form: None, ..record })) + str_len(t@),
{
    reveal_with_fuel(size_total, 7);
    let v = task_payload_sizes(record);
    let w = task_payload_sizes(TaskRecord { active_form: None, ..record });
    assert(v.drop_last().drop_last().drop_last().drop_last().drop_last().drop_last() =~= Seq::<usize>::empty());
    assert(w.drop_last().drop_last().drop_last().drop_last().drop_last().drop_last() =~= Seq::<usize>::empty());
}

fn optional_byte_len(v: &Option<String>) -> (r: usize)
    ensures
        r == optional_len(*v),
{
    match v {
        Some(t) => t.as_str().len(),
        None => 0,
    }
}

/// Shape one stored task row whose dependency lists were already decoded
/// into `blocks` and `blocked_by`, ordered by its item ordinal.
pub fn task_row_with_links(record: TaskRecord, blocks: Vec<String>, blocked_by: Vec<String>) -> (r: Result<OrderedRow<TaskDetail>, EngineError>)
    requires
        record.task_key@.len() <= usize::MAX / 2,
        record.collection_key@.len() <= usize::MAX / 2,
        record.decisive_fact_id@.len() <= usize::MAX / 2,
    ensures
        r is Ok <==> {
            &&& record.item_ordinal >= 0
            &&& size_total(task_payload_sizes(record)) <= u64::MAX
            &&& record.assertion_count >= 0
            &&& record.competing_item_count >= 0
            &&& record.last_commit_seq >= 0
            &&& record.source_object_id >= 0
            &&& record.source_generation >= 0
            &&& record.source_instance_id >= 0
        },
        r matches Ok(row) ==> {
            &&& task_row_of(record, row)
            &&& row.item.blocks == blocks
            &&& row.item.blocked_by == blocked_by
            &&& row.payload_bytes == task_text_bytes(record)
        },
        r matches Err(e) ==> e is Sqlite,
{
    let item_ordinal = decode_nonnegative_u64(record.item_ordinal, "task ordinal")?;
    let sizes: Vec<usize> = vec![
        record.subject.as_str().len(),
        optional_byte_len(&record.description),
        optional_byte_len(&record.active_form),
        optional_byte_len(&record.native_owner),
        record.blocks_json.len(),
        record.blocked_by_json.len(),
    ];
    assert(sizes@ =~= task_payload_sizes(record));
    proof {
        lemma_task_payload_counts_every_text(record);
    }
    let payload_bytes = checked_payload_sum(&sizes, "task payload")?;
    let assertion_count = decode_nonnegative_u64(record.assertion_count, "task assertions")?;
    let competing_item_count = decode_nonnegative_u64(record.competing_item_count, "task competing items")?;
    let last_commit_seq = decode_nonnegative_u64(record.last_commit_seq, "task commit")?;
    let source_object_id = decode_nonnegative_u64(record.source_object_id, "task source object")?;
    let source_generation = decode_nonnegative_u64(record.source_generation, "task source generation")?;
    let source_instance_id = decode_nonnegative_u64(record.source_instance_id, "task source instance")?;
    let item = TaskDetail {
        task_id: encode_entity_id(TASK_ID_PREFIX, record.task_key.as_slice()),
        collection_id: encode_entity_id(TASK_COLLECTION_ID_PREFIX, record.collection_key.as_slice()),
        adapter_id: record.adapter_id,
        source_instance_id,
        item_ordinal,
        native_task_id: record.native_task_id,
        subject: record.subject,
        description: record.description,
        active_form: record.active_form,
        native_owner: record.native_owner,
        task_status: record.task_status,
        native_status: record.native_status,
        blocks,
        blocked_by,
        resolution_status: record.resolution_status,
        decisive_fact_id: encode_entity_id(FACT_ID_PREFIX, record.decisive_fact_id.as_slice()),
        assertion_count,
        competing_item_count,
        observed_at_unix_ms: record.observed_at_unix_ms,
        source_object_id,
        source_generation,
        last_commit_seq,
    };
    Ok(OrderedRow {
        item,
        entity_key: record.task_key,
        order_rank: item_ordinal,
        order_text: String::new(),
        payload_bytes,
    })
}

/// Shape one stored task row, decoding its dependency lists from their
/// stored JSON; a list that is not a JSON array of strings is refused.
pub fn task_row(record: TaskRecord) -> (r: Result<OrderedRow<TaskDetail>, EngineError>)
    requires
        record.task_key@.len() <= usize::MAX / 2,
        record.collection_key@.len() <= usize::MAX / 2,
        record.decisive_fact_id@.len() <= usize::MAX / 2,
    ensures
        (json_string_array(record.blocks_json@) is None || json_string_array(record.blocked_by_json@) is None)
            ==> r matches Err(EngineError::Sqlite { .. }),
        r matches Ok(row) ==> {
            &&& task_row_of(record, row)
            &&& row.payload_bytes == task_text_bytes(record)
            &&& json_string_array(record.blocks_json@) == Some(views(row.item.blocks@))
            &&& json_string_array(record.blocked_by_json@) == Some(views(row.item.blocked_by@))
        },
        (json_string_array(record.blocks_json@) is Some && json_string_array(record.blocked_by_json@) is Some)
            ==> (r is Ok <==> {
                &&& record.item_ordinal >= 0
                &&& size_total(task_payload_sizes(record)) <= u64::MAX
                &&& record.assertion_count >= 0
                &&& record.competing_item_count >= 0
                &&& record.last_commit_seq >= 0
                &&& record.source_object_id >= 0
                &&& record.source_generation >= 0
                &&& record.source_instance_id >= 0
            }),
        r matches Err(e) ==> e is Sqlite,
{
    let blocks = match parse_string_array(record.blocks_json.as_slice()) {
        Some(v) => v,
        None => return Err(labelled_storage_error("decode capability JSON", "task blocks", " is not a JSON array of strings")),
    };
    let blocked_by = match parse_string_array(record.blocked_by_json.as_slice()) {
        Some(v) => v,
        None => return Err(labelled_storage_error("decode capability JSON", "task blocked-by", " is not a JSON array of strings")),
    };
    task_row_with_links(record, blocks, blocked_by)
}

/// A query parameter must fit SQLite's signed 64-bit integers.
pub fn to_query_i64(value: u64, field: &str) -> (r: Result<i64, EngineError>)
    ensures
        r is Ok <==> value <= i64::MAX,
        r matches Ok(v) ==> v == value,
        r matches Err(e) ==> e is InvalidQuery,
{
    if value > 9223372036854775807u64 {
        return Err(labelled_invalid_query(field, " is outside SQLite's signed integer range"));
    }
    Ok(value as i64)
}

/// A cursor minted for a page is accepted by the next request over the same
/// listing and scope at the same committed watermark, provided the row
/// position it carries is within the query bounds.
pub proof fn lemma_minted_cursor_accepted(
    c: CapabilityCursor,
    kind: CapabilityCursorKind,
    watermark: u64,
    scope: Seq<Seq<char>>,
    rank: u64,
    text: Seq<char>,
    key: Seq<u8>,
)
    requires
        minted_cursor(c, kind, watermark, scope, rank, text, key),
        rank <= i64::MAX,
        str_len(text) <= MAX_CAPABILITY_CURSOR_BYTES,
        0 < key.len() <= MAX_CAPABILITY_CURSOR_BYTES,
    ensures
        cursor_fields_ok(c, kind, scope),
        c.at_commit_seq == watermark,
{
}

} // verus!
