//! Reading JSON documents.
//!
//! A document stays in its bytes. A place in it is named by a JSON pointer,
//! such as `/0/user/login`.

use vstd::prelude::*;

use crate::text::view_opt;

verus! {

/// Whether `serde_json::from_slice` reads `bytes` as a JSON value.
pub uninterp spec fn is_json(bytes: Seq<u8>) -> bool;

/// The string that `serde_json` finds in the document at a pointer.
pub uninterp spec fn json_text_at(bytes: Seq<u8>, pointer: Seq<char>) -> Option<Seq<char>>;

/// The Boolean that `serde_json` finds in the document at a pointer.
pub uninterp spec fn json_flag_at(bytes: Seq<u8>, pointer: Seq<char>) -> Option<bool>;

/// The number of items of the array that `serde_json` finds in the document at
/// a pointer.
pub uninterp spec fn json_count_at(bytes: Seq<u8>, pointer: Seq<char>) -> Option<nat>;

/// `serde_json::from_slice` reads the bytes as a `serde_json::Value` or fails,
/// by the bytes alone.
#[verifier::external_body]
pub(crate) fn json_is_valid(bytes: &[u8]) -> (r: bool)
    ensures
        r == is_json(bytes@),
{
    serde_json::from_slice::<serde_json::Value>(bytes).is_ok()
}

/// `serde_json::Value::as_str`, on what `serde_json::Value::pointer` finds in
/// the document. There is nothing to find where the bytes are no document.
#[verifier::external_body]
pub(crate) fn json_text(bytes: &[u8], pointer: &str) -> (r: Option<String>)
    ensures
        view_opt(r) == json_text_at(bytes@, pointer@),
        r is Some ==> is_json(bytes@),
{
    let doc: serde_json::Value = serde_json::from_slice(bytes).ok()?;
    doc.pointer(pointer)?.as_str().map(str::to_string)
}

/// `serde_json::Value::as_bool`, on what `serde_json::Value::pointer` finds in
/// the document. There is nothing to find where the bytes are no document.
#[verifier::external_body]
pub(crate) fn json_flag(bytes: &[u8], pointer: &str) -> (r: Option<bool>)
    ensures
        r == json_flag_at(bytes@, pointer@),
        r is Some ==> is_json(bytes@),
{
    let doc: serde_json::Value = serde_json::from_slice(bytes).ok()?;
    doc.pointer(pointer)?.as_bool()
}

/// The length of `serde_json::Value::as_array`, on what
/// `serde_json::Value::pointer` finds in the document. There is nothing to find
/// where the bytes are no document.
#[verifier::external_body]
pub(crate) fn json_count(bytes: &[u8], pointer: &str) -> (r: Option<usize>)
    ensures
        match r {
            Some(n) => json_count_at(bytes@, pointer@) == Some(n as nat),
            None => json_count_at(bytes@, pointer@) is None,
        },
        r is Some ==> is_json(bytes@),
{
    let doc: serde_json::Value = serde_json::from_slice(bytes).ok()?;
    doc.pointer(pointer)?.as_array().map(Vec::len)
}

} // verus!
