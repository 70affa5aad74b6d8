//! Opaque entity ids handed to callers: a kind prefix followed by the
//! unpadded URL-safe base64 text of the entity key.
use vstd::prelude::*;
use crate::codec::{base64url_bytes, base64url_decode, base64url_encode, base64url_text};
use crate::error::EngineError;
use crate::util::push_str;

verus! {

broadcast use vstd::seq::group_seq_axioms;

pub const PROJECT_ID_PREFIX: &'static str = "project_";
pub const SESSION_ID_PREFIX: &'static str = "session_";
pub const RUN_ID_PREFIX: &'static str = "run_";
pub const TEAM_ID_PREFIX: &'static str = "team_";
pub const MEMORY_DOCUMENT_ID_PREFIX: &'static str = "memdoc_";
pub const TASK_COLLECTION_ID_PREFIX: &'static str = "taskcollection_";
pub const TASK_ID_PREFIX: &'static str = "task_";
pub const PLAN_ID_PREFIX: &'static str = "plan_";
pub const TOOL_RESULT_ID_PREFIX: &'static str = "toolresult_";
pub const ARTIFACT_ID_PREFIX: &'static str = "artifact_";
pub const FACT_ID_PREFIX: &'static str = "fact_";
pub const MESSAGE_ID_PREFIX: &'static str = "message_";

/// `s` begins with `prefix`.
pub open spec fn has_prefix(s: Seq<char>, prefix: Seq<char>) -> bool {
    prefix.len() <= s.len() && s.subrange(0, prefix.len() as int) == prefix
}

/// The text of `s` after `prefix`, when `s` begins with it.
pub fn strip_prefix<'a>(s: &'a str, prefix: &str) -> (r: Option<&'a str>)
    ensures
        r is Some <==> has_prefix(s@, prefix@),
        r matches Some(rest) ==> s@ == prefix@ + rest@,
{
    let n = s.unicode_len();
    let m = prefix.unicode_len();
    if m > n {
        return None;
    }
    let mut i: usize = 0;
    while i < m
        invariant
            m == prefix@.len(),
            n == s@.len(),
            m <= n,
            i <= m,
            forall|j: int| 0 <= j < i ==> s@[j] == prefix@[j],
        decreases m - i,
    {
        if s.get_char(i) != prefix.get_char(i) {
            proof {
                assert(s@.subrange(0, m as int)[i as int] != prefix@[i as int]);
            }
            return None;
        }
        i = i + 1;
    }
    assert(s@.subrange(0, m as int) =~= prefix@);
    let rest = s.substring_char(m, n);
    assert(s@ =~= prefix@ + rest@);
    Some(rest)
}

/// The id of an entity: its kind prefix then the base64 text of its key.
pub open spec fn entity_id_text(prefix: Seq<char>, key: Seq<u8>) -> Seq<char> {
    prefix + base64url_text(key)
}

/// Encode an entity key as an opaque id.
pub fn encode_entity_id(prefix: &str, key: &[u8]) -> (r: String)
    requires
        key@.len() <= usize::MAX / 2,
    ensures
        r@ == entity_id_text(prefix@, key@),
{
    let mut out = String::new();
    push_str(&mut out, prefix);
    let encoded = base64url_encode(key);
    push_str(&mut out, encoded.as_str());
    out
}

/// The key an id names, when it carries `prefix` and valid base64 text.
pub open spec fn entity_key_of(value: Seq<char>, prefix: Seq<char>) -> Option<Seq<u8>> {
    if has_prefix(value, prefix) {
        base64url_bytes(value.subrange(prefix.len() as int, value.len() as int))
    } else {
        None
    }
}

/// Decode an opaque id of the kind named by `prefix`.
pub fn decode_entity_id(value: &str, prefix: &str, label: &str) -> (r: Result<Vec<u8>, EngineError>)
    ensures
        r is Ok <==> entity_key_of(value@, prefix@) is Some,
        r matches Ok(k) ==> entity_key_of(value@, prefix@) == Some(k@),
        r matches Err(e) ==> e is InvalidQuery,
{
    let rest = match strip_prefix(value, prefix) {
        Some(rest) => rest,
        None => {
            let mut message = String::new();
            push_str(&mut message, label);
            push_str(&mut message, " is not valid");
            return Err(EngineError::InvalidQuery(message));
        },
    };
    proof {
        assert(value@.subrange(prefix@.len() as int, value@.len() as int) =~= rest@);
    }
    match base64url_decode(rest) {
        Some(bytes) => Ok(bytes),
        None => {
            let mut message = String::new();
            push_str(&mut message, label);
            push_str(&mut message, " is not valid");
            Err(EngineError::InvalidQuery(message))
        },
    }
}

/// Every id encoded for a key decodes back to that key.
pub proof fn lemma_entity_id_round_trip(prefix: Seq<char>, key: Seq<u8>)
    requires
        base64url_bytes(base64url_text(key)) == Some(key),
    ensures
        entity_key_of(entity_id_text(prefix, key), prefix) == Some(key),
{
    let text = entity_id_text(prefix, key);
    assert(text.subrange(0, prefix.len() as int) =~= prefix);
    assert(text.subrange(prefix.len() as int, text.len() as int) =~= base64url_text(key));
}

} // verus!
