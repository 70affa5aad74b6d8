//! Retained-snapshot catalog queries: binding a page request to the exact
//! Ready snapshot and selection it names, and checking every stored row a
//! page reads against the restart-validated publication before it is served.
use vstd::prelude::*;
use crate::codec::{blake3_digest, blake3_hash};
use crate::error::{corrupt_with, invalid_commit_with, EngineError};
use crate::publication::{
    check_snapshot_header, decode_digest_column, identity_wf, key_committed, row_committed, rows_of, keys_from,
    index_of_key, snapshot_header_ok, stored_digest, CatalogDurablePublicationEntryKind,
    CatalogReadyPublicationIdentity, CatalogSnapshotLineage, CheckedSnapshotHeader, StoredSnapshotHeader,
};
use crate::retention::{selection_matches, selections_equal};
use crate::snapshot::{
    CatalogCoveragePlan, CatalogCoveragePlanId, CatalogCoverageScope, CatalogRetainedSnapshotCommitment,
    CatalogSnapshotId, ContractVersionSelection,
};
use crate::util::{digest_equal, is_zero_digest, opt_text, push_str};

verus! {

broadcast use vstd::seq::group_seq_axioms, vstd::array::group_array_axioms;

/// Version of the entity-key sort specification retained pages use.
pub const CATALOG_ENTITY_KEY_SORT_SPEC_VERSION: u32 = 1;

/// Largest total payload one retained page returns.
pub const MAX_RETAINED_PAGE_PAYLOAD_BYTES: usize = 67108864;

/// Text of a refused catalog query request.
pub open spec fn invalid_input_text(detail: Seq<char>) -> Seq<char> {
    "invalid catalog query request: "@ + detail
}

/// A refused catalog query request.
pub fn invalid_catalog_query_input(detail: &str) -> (r: EngineError)
    ensures
        r matches EngineError::InvalidQuery(m) && m@ == invalid_input_text(detail@),
{
    let mut message = String::new();
    push_str(&mut message, "invalid catalog query request: ");
    push_str(&mut message, detail);
    EngineError::InvalidQuery(message)
}

/// A request must name the plan of the current durable authority.
pub fn require_expected_plan(current: &CatalogCoveragePlanId, expected: &CatalogCoveragePlanId) -> (r: Result<(), EngineError>)
    ensures
        r is Ok <==> *current == *expected,
        r matches Err(e) ==> e is InvalidQuery,
{
    if !current.same(expected) {
        return Err(invalid_catalog_query_input("coverage plan differs from the current durable authority"));
    }
    Ok(())
}

/// A stored digest that must be exactly 32 nonzero bytes.
pub fn decode_nonzero_digest(bytes: &[u8], label: &str) -> (r: Result<[u8; 32], EngineError>)
    ensures
        r is Ok <==> bytes@.len() == 32 && !is_zero_digest(bytes@),
        r matches Ok(d) ==> d@ == bytes@,
        r matches Err(e) ==> e is CorruptCatalogState,
{
    decode_digest_column(bytes, label)
}

/// Which listing a retained page reads.
#[derive(Debug, Clone, Copy, PartialEq, Eq, Structural)]
pub enum CatalogQueryKind {
    Projects,
    Sessions,
}

/// Entry kind of the rows a listing reads.
pub open spec fn entry_kind_of(kind: CatalogQueryKind) -> CatalogDurablePublicationEntryKind {
    match kind {
        CatalogQueryKind::Projects => CatalogDurablePublicationEntryKind::ProjectRow,
        CatalogQueryKind::Sessions => CatalogDurablePublicationEntryKind::SessionRow,
    }
}

/// Entry kind of the rows a listing reads.
pub fn entry_kind(kind: CatalogQueryKind) -> (r: CatalogDurablePublicationEntryKind)
    ensures
        r == entry_kind_of(kind),
{
    match kind {
        CatalogQueryKind::Projects => CatalogDurablePublicationEntryKind::ProjectRow,
        CatalogQueryKind::Sessions => CatalogDurablePublicationEntryKind::SessionRow,
    }
}

/// A decoded continuation of a retained page.
#[derive(Debug, Clone, PartialEq, Eq)]
pub struct RetainedContinuation {
    pub snapshot_id: CatalogSnapshotId,
    pub query_fingerprint: [u8; 32],
    pub sort_spec_version: u32,
    pub page_size: u32,
    pub last_entity_key: [u8; 32],
    pub last_sort_key: Vec<u8>,
}

/// A retained page request: the selection and snapshot it is bound to, the
/// listing, the page size, and an optional continuation.
#[derive(Debug, Clone, PartialEq, Eq)]
pub struct CatalogRetainedPageRequest {
    pub contract_selection: ContractVersionSelection,
    pub snapshot_id: CatalogSnapshotId,
    pub query_kind: CatalogQueryKind,
    pub page_size: u32,
    pub continuation: Option<RetainedContinuation>,
}

impl CatalogRetainedPageRequest {
    /// A request for all projects of a retained snapshot.
    pub fn projects_all(
        contract_selection: ContractVersionSelection,
        snapshot_id: CatalogSnapshotId,
        page_size: u32,
        continuation: Option<RetainedContinuation>,
    ) -> (r: Self)
        ensures
            r.contract_selection == contract_selection,
            r.snapshot_id == snapshot_id,
            r.query_kind == CatalogQueryKind::Projects,
            r.page_size == page_size,
            r.continuation == continuation,
    {
        CatalogRetainedPageRequest { contract_selection, snapshot_id, query_kind: CatalogQueryKind::Projects, page_size, continuation }
    }

    /// A request for all sessions of a retained snapshot.
    pub fn sessions_all(
        contract_selection: ContractVersionSelection,
        snapshot_id: CatalogSnapshotId,
        page_size: u32,
        continuation: Option<RetainedContinuation>,
    ) -> (r: Self)
        ensures
            r.contract_selection == contract_selection,
            r.snapshot_id == snapshot_id,
            r.query_kind == CatalogQueryKind::Sessions,
            r.page_size == page_size,
            r.continuation == continuation,
    {
        CatalogRetainedPageRequest { contract_selection, snapshot_id, query_kind: CatalogQueryKind::Sessions, page_size, continuation }
    }

    /// The continuation belongs to this exact request: same snapshot,
    /// fingerprint, sort specification and page size, and its sort key is
    /// the entity key it resumes after.
    pub open spec fn continuation_ok(self, fingerprint: [u8; 32]) -> bool {
        match self.continuation {
            None => true,
            Some(c) => {
                &&& c.snapshot_id == self.snapshot_id
                &&& c.query_fingerprint == fingerprint
                &&& c.sort_spec_version == CATALOG_ENTITY_KEY_SORT_SPEC_VERSION
                &&& c.page_size == self.page_size
                &&& c.last_sort_key@ == c.last_entity_key@
            },
        }
    }

    /// Bind the request to the Ready snapshot and durable selection it must
    /// be served from. Returns the entity key a continuation resumes after.
    pub fn validate_and_bind(
        &self,
        authority_snapshot: &CatalogSnapshotId,
        expected_selection: &ContractVersionSelection,
        fingerprint: &[u8; 32],
    ) -> (r: Result<Option<[u8; 32]>, EngineError>)
        ensures
            r is Ok <==> self.snapshot_id == *authority_snapshot
                && selection_matches(self.contract_selection, *expected_selection)
                && self.continuation_ok(*fingerprint),
            r matches Ok(after) ==> match self.continuation {
                None => after is None,
                Some(c) => after == Some(c.last_entity_key),
            },
            r matches Err(e) ==> e is InvalidCommit,
    {
        if !self.snapshot_id.same(authority_snapshot) {
            return Err(EngineError::InvalidCommit(
                "catalog retained-page request is bound to a different Ready snapshot".to_owned(),
            ));
        }
        if !selections_equal(&self.contract_selection, expected_selection) {
            return Err(EngineError::InvalidCommit(
                "catalog retained-page selection differs from the exact durable selection".to_owned(),
            ));
        }
        match &self.continuation {
            None => Ok(None),
            Some(c) => {
                if !c.snapshot_id.same(&self.snapshot_id) || !digest_equal(&c.query_fingerprint, fingerprint)
                    || c.sort_spec_version != CATALOG_ENTITY_KEY_SORT_SPEC_VERSION || c.page_size != self.page_size {
                    return Err(EngineError::InvalidCommit(
                        "catalog continuation differs from the exact retained All-page request".to_owned(),
                    ));
                }
                if !crate::util::bytes_equal(c.last_sort_key.as_slice(), c.last_entity_key.as_slice()) {
                    return Err(EngineError::InvalidCommit(
                        "catalog entity-key continuation carries a non-semantic sort key".to_owned(),
                    ));
                }
                Ok(Some(c.last_entity_key))
            },
        }
    }
}

/// Index of the row a continuation resumes after: the last retained row
/// when more rows remain. A page cannot continue before retaining a row.
pub fn next_continuation(has_more: bool, rows: usize) -> (r: Result<Option<usize>, EngineError>)
    ensures
        r is Err <==> has_more && rows == 0,
        r matches Ok(o) ==> (if has_more { o == Some((rows - 1) as usize) } else { o is None }),
        r matches Err(e) ==> e is CorruptCatalogState,
{
    if !has_more {
        return Ok(None);
    }
    if rows == 0 {
        return Err(EngineError::CorruptCatalogState(
            "a bounded catalog page cannot continue before retaining one row".to_owned(),
        ));
    }
    Ok(Some(rows - 1))
}


/// The columns of one stored row a retained page read, as projected by its
/// bounded query: the key only when it is exactly 32 bytes, the payload and
/// its length only when within the row byte bound.
#[derive(Debug, Clone, PartialEq, Eq)]
pub struct RetainedRowColumns {
    pub key: Option<Vec<u8>>,
    pub payload_length: Option<i64>,
    pub payload: Option<Vec<u8>>,
    pub payload_digest: Option<Vec<u8>>,
}

/// Shape of a checked retained page.
#[derive(Debug, Clone, Copy, PartialEq, Eq, Structural)]
pub struct RetainedPageScan {
    /// Leading stored rows the page serves.
    pub rows: usize,
    pub has_more: bool,
}

/// A present, 32-byte, nonzero digest column.
pub open spec fn digest_column(v: Option<Vec<u8>>) -> Option<Seq<u8>> {
    match v {
        Some(b) => if b@.len() == 32 && !is_zero_digest(b@) { Some(b@) } else { None },
        None => None,
    }
}

/// The commitment with `key` has exactly this payload length and digest.
pub open spec fn committed(rows: Seq<crate::publication::CatalogReadyRowCommitment>, key: Seq<u8>, len: int, digest: Seq<u8>) -> bool {
    exists|i: int| 0 <= i < rows.len() && rows[i].key@ == key && rows[i].payload_len == len && rows[i].payload_digest@ == digest
}

/// A served row is exactly what the publication committed: its payload is
/// present with the projected length, its digest is the payload's BLAKE3
/// digest, and the publication commits that key, length and digest.
pub open spec fn row_payload_ok(id: CatalogReadyPublicationIdentity, kind: CatalogDurablePublicationEntryKind, c: RetainedRowColumns, key: Seq<u8>, len: int) -> bool {
    match (c.payload, digest_column(c.payload_digest), rows_of(id, kind)) {
        (Some(p), Some(d), Some(rows)) => p@.len() == len && blake3_digest(p@) == d && committed(rows, key, len, d),
        _ => false,
    }
}

/// Why a served row is refused, checked in order: its payload is missing,
/// its length changed, its digest column is unusable, its digest does not
/// match its bytes, or the publication never committed it. `None` when
/// [`row_payload_ok`] holds.
pub open spec fn row_payload_failure(
    id: CatalogReadyPublicationIdentity,
    kind: CatalogDurablePublicationEntryKind,
    c: RetainedRowColumns,
    key: Seq<u8>,
    len: int,
) -> Option<Seq<char>> {
    match c.payload {
        None => Some("retained catalog row payload is outside its preflight byte bound"@),
        Some(p) => if p@.len() != len {
            Some("retained catalog row payload changed after its bounded length projection"@)
        } else {
            match digest_column(c.payload_digest) {
                None => Some("retained catalog row digest"@),
                Some(d) => if blake3_digest(p@) != d {
                    Some("retained catalog row payload digest does not match its bytes"@)
                } else {
                    match rows_of(id, kind) {
                        Some(rows) => if committed(rows, key, len, d) {
                            None
                        } else {
                            Some("retained catalog row differs from its restart-validated commitment"@)
                        },
                        None => Some("retained catalog row differs from its restart-validated commitment"@),
                    }
                },
            }
        },
    }
}

/// The byte views of a sequence of keys.
pub open spec fn key_views(keys: Seq<[u8; 32]>) -> Seq<Seq<u8>> {
    Seq::new(keys.len(), |i: int| keys[i]@)
}

/// The detail of a stored key range that does not follow the publication's
/// committed keys.
pub open spec fn pk_range_differs_text() -> Seq<char> {
    "retained catalog PK range differs from its restart-validated row sequence"@
}

/// The detail of a stored key range that ends before, or runs past, what
/// the publication committed for the page.
pub open spec fn pk_range_incomplete_text() -> Seq<char> {
    "retained catalog PK range is incomplete for its restart-validated publication"@
}

/// Outcome of scanning stored rows from `i` with `retained` payload bytes
/// already served: the corruption found, with its message, or the rows
/// served, whether more rows remain, and whether the payload budget stopped
/// the page.
pub open spec fn scan_from(
    id: CatalogReadyPublicationIdentity,
    kind: CatalogDurablePublicationEntryKind,
    expected: Seq<Seq<u8>>,
    stored: Seq<RetainedRowColumns>,
    page_size: nat,
    i: nat,
    retained: nat,
) -> Result<(nat, bool, bool), Seq<char>>
    decreases stored.len() - i,
{
    if i >= stored.len() {
        Ok((i, false, false))
    } else {
        match digest_column(stored[i as int].key) {
            None => Err("retained catalog row key"@),
            Some(k) => if i >= expected.len() || expected[i as int] != k {
                Err(pk_range_differs_text())
            } else if i == page_size {
                Ok((i, true, false))
            } else {
                match stored[i as int].payload_length {
                    None => Err("retained catalog row payload is outside its preflight byte bound"@),
                    Some(l) => if l < 0 {
                        Err("retained catalog row payload length is negative or too large"@)
                    } else if l > MAX_RETAINED_PAGE_PAYLOAD_BYTES - retained {
                        Ok((i, true, true))
                    } else {
                        match row_payload_failure(id, kind, stored[i as int], k, l as int) {
                            Some(t) => Err(t),
                            None => scan_from(id, kind, expected, stored, page_size, i + 1, retained + l as nat),
                        }
                    },
                }
            },
        }
    }
}

/// A retained page over the stored rows is served when the scan finds no
/// corruption and, unless the payload budget stopped it, the scanned keys
/// are exactly the expected range and more rows remain exactly when the
/// expected range is longer than the page. A refusal carries its message.
pub open spec fn retained_page_of(
    id: CatalogReadyPublicationIdentity,
    kind: CatalogDurablePublicationEntryKind,
    expected: Seq<Seq<u8>>,
    stored: Seq<RetainedRowColumns>,
    page_size: nat,
) -> Result<(nat, bool), Seq<char>> {
    match scan_from(id, kind, expected, stored, page_size, 0, 0) {
        Err(t) => Err(t),
        Ok((m, more, budget)) => {
            let scanned = if more { m + 1 } else { m };
            if !budget && (scanned != expected.len() || more != (expected.len() > page_size)) {
                Err(pk_range_incomplete_text())
            } else {
                Ok((m, more))
            }
        },
    }
}

fn corrupt(message: &str) -> (e: EngineError)
    ensures
        e matches EngineError::CorruptCatalogState(m) && m@ == message@,
{
    EngineError::CorruptCatalogState(message.to_owned())
}

/// A required digest column.
fn required_digest(v: &Option<Vec<u8>>, label: &str) -> (r: Result<[u8; 32], EngineError>)
    ensures
        r is Ok <==> digest_column(*v) is Some,
        r matches Ok(d) ==> digest_column(*v) == Some(d@),
        r matches Err(e) ==> e is CorruptCatalogState,
        r matches Err(e) ==> corrupt_with(e, label@),
{
    match v {
        None => Err(corrupt(label)),
        Some(b) => decode_digest_column(b.as_slice(), label),
    }
}

/// Check the one stored row an exact resolution read for `key` against the
/// publication's commitment for that key.
pub fn check_resolution_row(
    identity: &CatalogReadyPublicationIdentity,
    kind: CatalogDurablePublicationEntryKind,
    key: &[u8; 32],
    columns: &RetainedRowColumns,
) -> (r: Result<(), EngineError>)
    requires
        identity_wf(*identity),
    ensures
        r is Ok <==> (columns.payload_length matches Some(l) && l >= 0
            && row_payload_ok(*identity, kind, *columns, key@, l as int)),
        r matches Err(e) ==> e is CorruptCatalogState,
{
    let length = match columns.payload_length {
        None => return Err(corrupt("retained catalog resolution row is outside its preflight byte bound")),
        Some(l) => l,
    };
    if length < 0 {
        return Err(corrupt("retained catalog resolution row length is negative or too large"));
    }
    let payload = match &columns.payload {
        None => return Err(corrupt("retained catalog resolution row is outside its preflight byte bound")),
        Some(p) => p,
    };
    let n = payload.len();
    if length as u64 != n as u64 {
        return Err(corrupt("retained catalog resolution row changed after length preflight"));
    }
    let digest = required_digest(&columns.payload_digest, "retained catalog resolution row digest")?;
    let actual = blake3_hash(payload.as_slice());
    if !digest_equal(&actual, &digest) {
        return Err(corrupt("retained catalog resolution row differs from its restart-validated commitment"));
    }
    if !identity.matches_row(kind, key, n, &digest) {
        proof {
            if let Some(rows) = rows_of(*identity, kind) {
                if committed(rows, key@, n as int, digest@) {
                    let w = choose|w: int| 0 <= w < rows.len() && rows[w].key@ == key@ && rows[w].payload_len == n as int
                        && rows[w].payload_digest@ == digest@;
                    assert(rows[w].payload_digest =~= digest);
                    assert(row_committed(rows, key@, n as int, digest));
                }
            }
        }
        return Err(corrupt("retained catalog resolution row differs from its restart-validated commitment"));
    }
    proof {
        let rows = rows_of(*identity, kind)->0;
        let w = choose|w: int| 0 <= w < rows.len() && rows[w].key@ == key@ && rows[w].payload_len == n as int
            && rows[w].payload_digest == digest;
        assert(committed(rows, key@, n as int, digest@));
    }
    Ok(())
}

/// Check the stored rows a retained page read, in key order, against the
/// expected key range and the publication's row commitments.
pub fn check_retained_rows(
    identity: &CatalogReadyPublicationIdentity,
    kind: CatalogDurablePublicationEntryKind,
    expected: &Vec<[u8; 32]>,
    stored: &Vec<RetainedRowColumns>,
    page_size: u32,
) -> (r: Result<RetainedPageScan, EngineError>)
    requires
        identity_wf(*identity),
    ensures
        match retained_page_of(*identity, kind, key_views(expected@), stored@, page_size as nat) {
            Err(t) => r matches Err(e) && corrupt_with(e, t),
            Ok((m, more)) => r == Ok::<RetainedPageScan, EngineError>(RetainedPageScan { rows: m as usize, has_more: more }),
        },
        r matches Err(e) ==> e is CorruptCatalogState,
{
    let ghost full = scan_from(*identity, kind, key_views(expected@), stored@, page_size as nat, 0, 0);
    let mut i: usize = 0;
    let mut retained: usize = 0;
    while i < stored.len()
        invariant
            identity_wf(*identity),
            i <= stored@.len(),
            i <= page_size,
            retained <= MAX_RETAINED_PAGE_PAYLOAD_BYTES,
            full == scan_from(*identity, kind, key_views(expected@), stored@, page_size as nat, 0, 0),
            full == scan_from(*identity, kind, key_views(expected@), stored@, page_size as nat, i as nat, retained as nat),
        decreases stored@.len() - i,
    {
        let row = &stored[i];
        let key = required_digest(&row.key, "retained catalog row key")?;
        if i >= expected.len() || !digest_equal(&expected[i], &key) {
            return Err(corrupt("retained catalog PK range differs from its restart-validated row sequence"));
        }
        if i == page_size as usize {
            if i + 1 != expected.len() || !(expected.len() > page_size as usize) {
                return Err(corrupt("retained catalog PK range is incomplete for its restart-validated publication"));
            }
            return Ok(RetainedPageScan { rows: i, has_more: true });
        }
        let length = match row.payload_length {
            None => return Err(corrupt("retained catalog row payload is outside its preflight byte bound")),
            Some(l) => l,
        };
        if length < 0 || length as u64 > usize::MAX as u64 {
            proof {
                if length >= 0 {
                    assert(length as u64 > usize::MAX as u64);
                    assert(length > MAX_RETAINED_PAGE_PAYLOAD_BYTES - retained);
                }
            }
            if length < 0 {
                return Err(corrupt("retained catalog row payload length is negative or too large"));
            }
            return Ok(RetainedPageScan { rows: i, has_more: true });
        }
        let length = length as usize;
        let remaining = MAX_RETAINED_PAGE_PAYLOAD_BYTES - retained;
        if length > remaining {
            return Ok(RetainedPageScan { rows: i, has_more: true });
        }
        let payload = match &row.payload {
            None => return Err(corrupt("retained catalog row payload is outside its preflight byte bound")),
            Some(p) => p,
        };
        if payload.len() != length {
            return Err(corrupt("retained catalog row payload changed after its bounded length projection"));
        }
        let digest = required_digest(&row.payload_digest, "retained catalog row digest")?;
        let actual = blake3_hash(payload.as_slice());
        if !digest_equal(&actual, &digest) {
            return Err(corrupt("retained catalog row payload digest does not match its bytes"));
        }
        if !identity.matches_row(kind, &key, length, &digest) {
            proof {
                if let Some(rows) = rows_of(*identity, kind) {
                    if committed(rows, key@, length as int, digest@) {
                        let w = choose|w: int| 0 <= w < rows.len() && rows[w].key@ == key@ && rows[w].payload_len == length as int
                            && rows[w].payload_digest@ == digest@;
                        assert(rows[w].payload_digest =~= digest);
                        assert(row_committed(rows, key@, length as int, digest));
                    }
                }
            }
            return Err(corrupt("retained catalog row differs from its restart-validated commitment"));
        }
        proof {
            let rows = rows_of(*identity, kind)->0;
            let w = choose|w: int| 0 <= w < rows.len() && rows[w].key@ == key@ && rows[w].payload_len == length as int
                && rows[w].payload_digest == digest;
            assert(committed(rows, key@, length as int, digest@));
        }
        retained = retained + length;
        i = i + 1;
    }
    if i != expected.len() || expected.len() > page_size as usize {
        return Err(corrupt("retained catalog PK range is incomplete for its restart-validated publication"));
    }
    Ok(RetainedPageScan { rows: i, has_more: false })
}


/// The continuation key, when there is one, names a committed row of the
/// listing `kind` selects (a first page needs none).
pub open spec fn continuation_names_row(
    id: CatalogReadyPublicationIdentity,
    kind: CatalogDurablePublicationEntryKind,
    after_key: Option<[u8; 32]>,
) -> bool {
    match rows_of(id, kind) {
        Some(rows) => match after_key {
            Some(k) => key_committed(rows, k@),
            None => true,
        },
        None => false,
    }
}

/// The committed keys a page after `after_key` must read, one more than the
/// page so that the stored range shows whether more rows follow.
pub open spec fn page_keys(
    id: CatalogReadyPublicationIdentity,
    kind: CatalogDurablePublicationEntryKind,
    after_key: Option<[u8; 32]>,
    page_size: nat,
) -> Seq<Seq<u8>> {
    let rows = rows_of(id, kind)->0;
    let start = match after_key {
        Some(k) => index_of_key(rows, k@) + 1,
        None => 0,
    };
    keys_from(rows, start, page_size + 1)
}

/// The detail of a continuation whose key the publication never committed.
pub open spec fn unnamed_continuation_text() -> Seq<char> {
    "catalog continuation does not name a row in the restart-validated publication"@
}

/// Check the stored rows a retained page read after `after_key` (from the
/// start without one) against the restart-validated publication: the
/// continuation must name a committed row, and the stored key range must be
/// exactly the committed keys that follow it.
pub fn check_retained_page(
    identity: &CatalogReadyPublicationIdentity,
    kind: CatalogDurablePublicationEntryKind,
    after_key: Option<[u8; 32]>,
    page_size: u32,
    stored: &Vec<RetainedRowColumns>,
) -> (r: Result<RetainedPageScan, EngineError>)
    requires
        identity_wf(*identity),
    ensures
        page_size == u32::MAX ==> (r matches Err(e)
            && corrupt_with(e, "catalog retained-page scan limit overflow"@)),
        page_size < u32::MAX && !continuation_names_row(*identity, kind, after_key) ==> (r matches Err(e)
            && invalid_commit_with(e, unnamed_continuation_text())),
        page_size < u32::MAX && continuation_names_row(*identity, kind, after_key) ==> match retained_page_of(
            *identity,
            kind,
            page_keys(*identity, kind, after_key, page_size as nat),
            stored@,
            page_size as nat,
        ) {
            Err(t) => r matches Err(e) && corrupt_with(e, t),
            Ok((m, more)) => r == Ok::<RetainedPageScan, EngineError>(RetainedPageScan { rows: m as usize, has_more: more }),
        },
{
    if page_size == u32::MAX {
        return Err(corrupt("catalog retained-page scan limit overflow"));
    }
    let after: Option<&[u8; 32]> = match &after_key {
        Some(k) => Some(k),
        None => None,
    };
    let scan_limit = page_size as usize + 1;
    let keys = match identity.expected_row_keys(kind, after, scan_limit) {
        Some(keys) => keys,
        None => {
            return Err(EngineError::InvalidCommit(
                "catalog continuation does not name a row in the restart-validated publication".to_owned(),
            ));
        },
    };
    proof {
        assert(key_views(keys@) =~= page_keys(*identity, kind, after_key, page_size as nat));
    }
    check_retained_rows(identity, kind, &keys, stored, page_size)
}

/// The bounded header a retained-page read needs.
#[derive(Debug, Clone, PartialEq, Eq)]
pub struct CatalogRetainedQueryHeader {
    pub contract_selection: ContractVersionSelection,
    pub project_row_count: usize,
    pub session_row_count: usize,
    pub encoded_bytes: usize,
}

/// The stored header columns record exactly the checked header `h`.
pub open spec fn stored_header_is(stored: StoredSnapshotHeader, h: CheckedSnapshotHeader) -> bool {
    &&& stored.build_commit_seq == h.build_commit_seq
    &&& stored.durable_contract_version == h.durable_contract_version
    &&& opt_text(stored.member_identity_contract_id) == opt_text(h.member_identity_contract_id)
    &&& stored_digest(stored.publication_digest) == Some(h.publication_digest@)
    &&& stored_digest(stored.reducer_revision) == Some(h.reducer_revision@)
    &&& stored_digest(stored.entries_digest) == Some(h.entries_digest@)
    &&& stored_digest(stored.content_digest) == Some(h.content_digest@)
    &&& stored.entry_count == h.entry_count
    &&& stored.encoded_bytes == h.encoded_bytes
    &&& stored.source_count == h.source_count
    &&& stored.member_count == h.member_count
    &&& stored.project_row_count == h.project_row_count
    &&& stored.session_row_count == h.session_row_count
    &&& stored.tombstone_count == h.tombstone_count
}

/// Two checked headers record the same values.
pub open spec fn header_matches(a: CheckedSnapshotHeader, b: CheckedSnapshotHeader) -> bool {
    &&& a.build_commit_seq == b.build_commit_seq
    &&& a.durable_contract_version == b.durable_contract_version
    &&& opt_text(a.member_identity_contract_id) == opt_text(b.member_identity_contract_id)
    &&& a.publication_digest == b.publication_digest
    &&& a.reducer_revision == b.reducer_revision
    &&& a.entries_digest == b.entries_digest
    &&& a.content_digest == b.content_digest
    &&& a.entry_count == b.entry_count
    &&& a.encoded_bytes == b.encoded_bytes
    &&& a.source_count == b.source_count
    &&& a.member_count == b.member_count
    &&& a.project_row_count == b.project_row_count
    &&& a.session_row_count == b.session_row_count
    &&& a.tombstone_count == b.tombstone_count
}

fn headers_equal(a: &CheckedSnapshotHeader, b: &CheckedSnapshotHeader) -> (r: bool)
    ensures
        r == header_matches(*a, *b),
{
    let same_member = match (&a.member_identity_contract_id, &b.member_identity_contract_id) {
        (Some(x), Some(y)) => crate::util::str_equal(x.as_str(), y.as_str()),
        (None, None) => true,
        _ => false,
    };
    same_member && a.build_commit_seq == b.build_commit_seq
        && a.durable_contract_version == b.durable_contract_version
        && digest_equal(&a.publication_digest, &b.publication_digest)
        && digest_equal(&a.reducer_revision, &b.reducer_revision)
        && digest_equal(&a.entries_digest, &b.entries_digest)
        && digest_equal(&a.content_digest, &b.content_digest)
        && a.entry_count == b.entry_count && a.encoded_bytes == b.encoded_bytes
        && a.source_count == b.source_count && a.member_count == b.member_count
        && a.project_row_count == b.project_row_count && a.session_row_count == b.session_row_count
        && a.tombstone_count == b.tombstone_count
}

fn lineages_equal(a: &CatalogSnapshotLineage, b: &CatalogSnapshotLineage) -> (r: bool)
    ensures
        r == (*a == *b),
{
    match (a, b) {
        (CatalogSnapshotLineage::Initial, CatalogSnapshotLineage::Initial) => true,
        (CatalogSnapshotLineage::Refresh {
            predecessor_snapshot: s1,
            predecessor_publication_digest: p1,
            predecessor_content_digest: c1,
        }, CatalogSnapshotLineage::Refresh {
            predecessor_snapshot: s2,
            predecessor_publication_digest: p2,
            predecessor_content_digest: c2,
        }) => {
            let r = s1.same(s2) && digest_equal(p1, p2) && digest_equal(c1, c2);
            proof {
                if r {
                    assert(p1@ =~= p2@);
                    assert(c1@ =~= c2@);
                }
            }
            r
        },
        _ => false,
    }
}

/// The detail of a retained header that is not the restart-validated one.
pub open spec fn header_differs_text() -> Seq<char> {
    "retained catalog header differs from the restart-validated publication identity"@
}

/// Every check the header of a retained snapshot must pass before a page is
/// read from it: the Library plan its snapshot names, every restart header
/// check, a valid selection for its pack, and exactly the header, lineage
/// and selection of the restart-validated publication.
pub open spec fn retained_header_ok(
    stored: StoredSnapshotHeader,
    lineage: CatalogSnapshotLineage,
    selection: ContractVersionSelection,
    selection_valid: bool,
    plan: CatalogCoveragePlan,
    expected: CatalogReadyPublicationIdentity,
    snapshot_id: CatalogSnapshotId,
    attempt: u64,
    max_entries: usize,
    max_bytes: usize,
) -> bool {
    &&& plan.scope == CatalogCoverageScope::Library
    &&& plan.coverage_plan_id == snapshot_id.coverage_plan_id
    &&& snapshot_header_ok(stored, snapshot_id, attempt, max_entries, max_bytes)
    &&& selection_valid
    &&& selection.query_pack_version == Some(snapshot_id.pack_contract_version)
    &&& stored_header_is(stored, expected.header)
    &&& lineage == expected.lineage
    &&& selection_matches(selection, expected.contract_selection)
}

/// Check the header of the retained snapshot a page reads against the
/// restart-validated publication identity `expected`. `lineage` is the
/// snapshot's classified lineage; `selection_valid` says whether its stored
/// selection encoding parsed as a valid durable selection.
pub fn check_retained_query_header(
    stored: StoredSnapshotHeader,
    lineage: CatalogSnapshotLineage,
    selection: ContractVersionSelection,
    selection_valid: bool,
    plan: &CatalogCoveragePlan,
    expected: &CatalogReadyPublicationIdentity,
    snapshot_id: &CatalogSnapshotId,
    attempt: u64,
    max_entries: usize,
    max_bytes: usize,
) -> (r: Result<CatalogRetainedQueryHeader, EngineError>)
    ensures
        r is Ok <==> retained_header_ok(
            stored, lineage, selection, selection_valid, *plan, *expected, *snapshot_id, attempt, max_entries, max_bytes,
        ),
        r matches Ok(q) ==> {
            &&& q.contract_selection == selection
            &&& q.project_row_count == stored.project_row_count
            &&& q.session_row_count == stored.session_row_count
            &&& q.encoded_bytes == stored.encoded_bytes
        },
        ({
            &&& plan.scope == CatalogCoverageScope::Library
            &&& plan.coverage_plan_id == snapshot_id.coverage_plan_id
            &&& snapshot_header_ok(stored, *snapshot_id, attempt, max_entries, max_bytes)
            &&& selection_valid
            &&& selection.query_pack_version == Some(snapshot_id.pack_contract_version)
        }) && r is Err ==> (r matches Err(e) && corrupt_with(e, header_differs_text())),
        r matches Err(e) ==> e is CorruptCatalogState,
{
    if plan.scope != CatalogCoverageScope::Library || !snapshot_id.coverage_plan_id.same(&plan.coverage_plan_id) {
        return Err(corrupt("retained catalog header is outside its exact plan/build lineage"));
    }
    let ghost original = stored;
    let checked = check_snapshot_header(stored, snapshot_id, attempt, max_entries, max_bytes)?;
    if !selection_valid {
        return Err(corrupt("retained catalog selection is invalid"));
    }
    let pack_ok = match selection.query_pack_version {
        Some(v) => v == snapshot_id.pack_contract_version,
        None => false,
    };
    if !pack_ok {
        return Err(corrupt("retained catalog selection does not match its snapshot pack"));
    }
    if !headers_equal(&checked, &expected.header) || !lineages_equal(&lineage, &expected.lineage)
        || !selections_equal(&selection, &expected.contract_selection) {
        proof {
            if stored_header_is(original, expected.header) {
                assert(checked.publication_digest@ =~= expected.header.publication_digest@);
                assert(checked.publication_digest =~= expected.header.publication_digest);
                assert(checked.reducer_revision@ =~= expected.header.reducer_revision@);
                assert(checked.reducer_revision =~= expected.header.reducer_revision);
                assert(checked.entries_digest@ =~= expected.header.entries_digest@);
                assert(checked.entries_digest =~= expected.header.entries_digest);
                assert(checked.content_digest@ =~= expected.header.content_digest@);
                assert(checked.content_digest =~= expected.header.content_digest);
                assert(header_matches(checked, expected.header));
            }
        }
        return Err(corrupt("retained catalog header differs from the restart-validated publication identity"));
    }
    Ok(CatalogRetainedQueryHeader {
        contract_selection: selection,
        project_row_count: checked.project_row_count,
        session_row_count: checked.session_row_count,
        encoded_bytes: checked.encoded_bytes,
    })
}

/// Index of the first commitment in `chain` for snapshot `id`, or -1.
pub open spec fn snapshot_position(chain: Seq<CatalogRetainedSnapshotCommitment>, id: CatalogSnapshotId) -> int
    decreases chain.len(),
{
    if chain.len() == 0 {
        -1
    } else {
        let i = snapshot_position(chain.drop_last(), id);
        if i >= 0 {
            i
        } else if chain.last().snapshot == id {
            chain.len() - 1
        } else {
            -1
        }
    }
}

proof fn lemma_snapshot_position(chain: Seq<CatalogRetainedSnapshotCommitment>, id: CatalogSnapshotId, k: int)
    requires
        0 <= k <= chain.len(),
        forall|j: int| 0 <= j < k ==> chain[j].snapshot != id,
    ensures
        snapshot_position(chain.take(k), id) == -1,
    decreases k,
{
    if k > 0 {
        assert(chain.take(k).drop_last() =~= chain.take(k - 1));
        lemma_snapshot_position(chain, id, k - 1);
    }
}

/// How a requested snapshot of the current ancestry is answered.
#[derive(Debug, Clone, Copy, PartialEq, Eq, Structural)]
pub enum RetainedSnapshotClass {
    /// Its rows are still retained and can be served.
    Retained,
    /// It was retired; a continuation over it expires.
    Expired,
}

/// Classify a requested snapshot against the current retained ancestry and
/// the number of its oldest snapshots that were retired. A snapshot outside
/// the ancestry is refused; a retired one expires a continuation, while a
/// first-page request for it is refused.
pub fn classify_retained_snapshot(
    chain: &Vec<CatalogRetainedSnapshotCommitment>,
    snapshot_id: &CatalogSnapshotId,
    retired_prefix: usize,
    has_continuation: bool,
) -> (r: Result<RetainedSnapshotClass, EngineError>)
    ensures
        ({
            let i = snapshot_position(chain@, *snapshot_id);
            &&& (i < 0 ==> (r matches Err(EngineError::InvalidCommit(_))))
            &&& ((i >= 0 && i >= retired_prefix) ==> (r matches Ok(RetainedSnapshotClass::Retained)))
            &&& ((i >= 0 && i < retired_prefix && has_continuation) ==> (r matches Ok(RetainedSnapshotClass::Expired)))
            &&& ((i >= 0 && i < retired_prefix && !has_continuation) ==> (r matches Err(EngineError::InvalidCommit(_))))
        }),
{
    let mut k: usize = 0;
    while k < chain.len()
        invariant
            k <= chain@.len(),
            forall|j: int| 0 <= j < k ==> chain@[j].snapshot != *snapshot_id,
        decreases chain@.len() - k,
    {
        if chain[k].snapshot.same(snapshot_id) {
            proof {
                lemma_snapshot_position(chain@, *snapshot_id, k as int);
                assert(chain@.take(k as int + 1).drop_last() =~= chain@.take(k as int));
                assert(snapshot_position(chain@.take(k as int + 1), *snapshot_id) == k);
                lemma_position_stable(chain@, *snapshot_id, k as int + 1);
            }
            if k < retired_prefix {
                if has_continuation {
                    return Ok(RetainedSnapshotClass::Expired);
                }
                return Err(EngineError::InvalidCommit(
                    "an explicitly requested retired page-1 snapshot is not retained".to_owned(),
                ));
            }
            return Ok(RetainedSnapshotClass::Retained);
        }
        k = k + 1;
    }
    proof {
        lemma_snapshot_position(chain@, *snapshot_id, chain@.len() as int);
        assert(chain@.take(chain@.len() as int) =~= chain@);
    }
    Err(EngineError::InvalidCommit("catalog page snapshot is outside the caller-held current ancestry".to_owned()))
}

proof fn lemma_position_stable(chain: Seq<CatalogRetainedSnapshotCommitment>, id: CatalogSnapshotId, k: int)
    requires
        0 <= k <= chain.len(),
        snapshot_position(chain.take(k), id) >= 0,
    ensures
        snapshot_position(chain, id) == snapshot_position(chain.take(k), id),
    decreases chain.len() - k,
{
    if k < chain.len() {
        assert(chain.take(k + 1).drop_last() =~= chain.take(k));
        lemma_position_stable(chain, id, k + 1);
    } else {
        assert(chain.take(k) =~= chain);
    }
}

} // verus!
