//! The engine error vocabulary shared by every catalog rule, and the mapping
//! of catalog-composition failures onto it.
use vstd::prelude::*;
use crate::util::push_str;

verus! {

/// Failure reported by a catalog rule. Messages name the operation and never
/// quote native paths.
#[derive(Debug, Clone, PartialEq, Eq)]
pub enum EngineError {
    InvalidQuery(String),
    InvalidCommit(String),
    InvalidConfig(String),
    /// Durable catalog state contradicts its own restart-validated evidence.
    CorruptCatalogState(String),
    /// A typed catalog contract refused its inputs.
    ContractViolation(String),
    Sqlite { operation: &'static str, detail: String },
    Observation { operation: &'static str, detail: String },
    CatalogIntegrity { operation: &'static str },
    QueryQueueFull,
    QueryCancelled,
    ShuttingDown,
    ObservationBusy,
    StaleSourceCursor,
    StorageCodec,
    InsufficientDiskSpace,
    WorkerUnavailable { worker: &'static str },
    WorkerPanic { worker: &'static str },
}

/// `e` reports corrupt catalog state with exactly the message `text`.
pub open spec fn corrupt_with(e: EngineError, text: Seq<char>) -> bool {
    match e {
        EngineError::CorruptCatalogState(m) => m@ == text,
        _ => false,
    }
}

/// `e` refuses a commit with exactly the message `text`.
pub open spec fn invalid_commit_with(e: EngineError, text: Seq<char>) -> bool {
    match e {
        EngineError::InvalidCommit(m) => m@ == text,
        _ => false,
    }
}

/// `e` is a storage error whose detail is exactly `text`.
pub open spec fn sqlite_detail_with(e: EngineError, text: Seq<char>) -> bool {
    match e {
        EngineError::Sqlite { detail, .. } => detail@ == text,
        _ => false,
    }
}

/// How a catalog source composition failed.
#[derive(Debug, Clone, Copy, PartialEq, Eq, Structural)]
pub enum CatalogCompositionFailureClass {
    /// A declared native source object could not be read.
    SourceUnavailable,
    /// The composed evidence is internally inconsistent.
    Integrity,
}

/// Failure of composing one catalog source into a projection.
#[derive(Debug, Clone, PartialEq, Eq)]
pub struct CatalogCompositionError {
    pub class: CatalogCompositionFailureClass,
    pub detail: String,
}

impl CatalogCompositionError {
    pub fn source_unavailable(detail: &str) -> (r: Self)
        ensures
            r.class == CatalogCompositionFailureClass::SourceUnavailable,
            r.detail@ == detail@,
    {
        CatalogCompositionError {
            class: CatalogCompositionFailureClass::SourceUnavailable,
            detail: detail.to_owned(),
        }
    }

    pub fn invalid(detail: &str) -> (r: Self)
        ensures
            r.class == CatalogCompositionFailureClass::Integrity,
            r.detail@ == detail@,
    {
        CatalogCompositionError {
            class: CatalogCompositionFailureClass::Integrity,
            detail: detail.to_owned(),
        }
    }

    pub fn class(&self) -> (r: CatalogCompositionFailureClass)
        ensures
            r == self.class,
    {
        self.class
    }
}

/// A source-unavailable build failure carrying the failure's operator text.
pub fn catalog_build_error(operation: &'static str, detail: &str) -> (r: EngineError)
    ensures
        r matches EngineError::Observation { operation: op, detail: d } && op == operation
            && d@ == detail@,
{
    EngineError::Observation { operation, detail: detail.to_owned() }
}

/// An integrity failure: only the operation is kept, never the detail.
pub fn catalog_integrity_error(operation: &'static str) -> (r: EngineError)
    ensures
        r == (EngineError::CatalogIntegrity { operation }),
{
    EngineError::CatalogIntegrity { operation }
}

/// Classify a composition failure. Source loss keeps its detail; integrity
/// failures are reduced to the operation so private evidence cannot leak.
pub fn catalog_composition_error(
    operation: &'static str,
    error: &CatalogCompositionError,
) -> (r: EngineError)
    ensures
        error.class == CatalogCompositionFailureClass::SourceUnavailable ==> (r matches
            EngineError::Observation { operation: op, detail: d } && op == operation && d@
            == error.detail@),
        error.class == CatalogCompositionFailureClass::Integrity ==> r
            == (EngineError::CatalogIntegrity { operation }),
{
    match error.class() {
        CatalogCompositionFailureClass::SourceUnavailable => catalog_build_error(
            operation,
            error.detail.as_str(),
        ),
        CatalogCompositionFailureClass::Integrity => catalog_integrity_error(operation),
    }
}

/// Text of an integrity failure.
pub open spec fn integrity_message(operation: Seq<char>) -> Seq<char> {
    "catalog integrity check failed: "@ + operation
}

impl EngineError {
    /// Operator-facing text of the error. An integrity failure names only its
    /// operation.
    pub fn message(&self) -> (r: String)
        ensures
            self matches EngineError::CatalogIntegrity { operation } ==> r@ == integrity_message(
                operation@,
            ),
    {
        let mut out = String::new();
        match self {
            EngineError::InvalidQuery(detail) => {
                push_str(&mut out, "invalid query: ");
                push_str(&mut out, detail.as_str());
            },
            EngineError::InvalidCommit(detail) => {
                push_str(&mut out, "invalid commit: ");
                push_str(&mut out, detail.as_str());
            },
            EngineError::InvalidConfig(detail) => {
                push_str(&mut out, "invalid configuration: ");
                push_str(&mut out, detail.as_str());
            },
            EngineError::CorruptCatalogState(detail) => {
                push_str(&mut out, "corrupt catalog state: ");
                push_str(&mut out, detail.as_str());
            },
            EngineError::ContractViolation(detail) => {
                push_str(&mut out, "catalog contract violation: ");
                push_str(&mut out, detail.as_str());
            },
            EngineError::Sqlite { operation, detail } => {
                push_str(&mut out, "sqlite failure during ");
                push_str(&mut out, operation);
                push_str(&mut out, ": ");
                push_str(&mut out, detail.as_str());
            },
            EngineError::Observation { operation, detail } => {
                push_str(&mut out, "observation failure during ");
                push_str(&mut out, operation);
                push_str(&mut out, ": ");
                push_str(&mut out, detail.as_str());
            },
            EngineError::CatalogIntegrity { operation } => {
                push_str(&mut out, "catalog integrity check failed: ");
                push_str(&mut out, operation);
                proof {
                    assert(out@ =~= integrity_message(operation@));
                }
            },
            EngineError::QueryQueueFull => push_str(&mut out, "query queue is full"),
            EngineError::QueryCancelled => push_str(&mut out, "query was cancelled"),
            EngineError::ShuttingDown => push_str(&mut out, "engine is shutting down"),
            EngineError::ObservationBusy => push_str(&mut out, "observation source is busy"),
            EngineError::StaleSourceCursor => push_str(&mut out, "source cursor is stale"),
            EngineError::StorageCodec => push_str(&mut out, "storage codec failure"),
            EngineError::InsufficientDiskSpace => push_str(&mut out, "insufficient disk space"),
            EngineError::WorkerUnavailable { worker } => {
                push_str(&mut out, "worker unavailable: ");
                push_str(&mut out, worker);
            },
            EngineError::WorkerPanic { worker } => {
                push_str(&mut out, "worker panicked: ");
                push_str(&mut out, worker);
            },
        }
        out
    }
}

} // verus!
