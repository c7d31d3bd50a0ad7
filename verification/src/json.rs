//! Reading JSON text, one level at a time.
//!
//! The syntax of JSON is left to `serde_json`. Each function here hands a
//! text to `serde_json::from_slice` for one kind of value and gives back
//! plain data; what is nested inside an object or an array comes back as
//! text, to be read in turn. What `serde_json` answers is not proved here.
//! For the literals `true`, `false` and `null` the answer is stated in
//! full; each other answer has a name, and the rest of the library states
//! its results over those names.

use std::collections::BTreeMap;
use vstd::prelude::*;

verus! {

/// The members of the JSON object that `text` holds, each with its name and
/// the text of its value, as `serde_json::from_slice` reads them into a map
/// ordered by name; `None` where it does not read `text` as an object.
pub uninterp spec fn json_object(text: Seq<u8>) -> Option<Seq<(Seq<char>, Seq<u8>)>>;

/// The texts of the items of the JSON array that `text` holds, in order, as
/// `serde_json::from_slice` reads them; `None` where it does not read
/// `text` as an array.
pub uninterp spec fn json_array(text: Seq<u8>) -> Option<Seq<Seq<u8>>>;

/// The bytes that JSON takes for whitespace: space, line feed, tab and
/// carriage return.
pub open spec fn is_json_space(byte: u8) -> bool {
    byte == 0x20 || byte == 0x0a || byte == 0x09 || byte == 0x0d
}

/// Whether `text` is `word` from the place `at` on, with whitespace alone
/// before it and after it.
pub open spec fn is_padded_at(text: Seq<u8>, word: Seq<u8>, at: int) -> bool {
    &&& 0 <= at
    &&& at + word.len() <= text.len()
    &&& text.subrange(at, at + word.len()) == word
    &&& forall|i: int| 0 <= i < at ==> is_json_space(#[trigger] text[i])
    &&& forall|i: int| at + word.len() <= i < text.len() ==> is_json_space(#[trigger] text[i])
}

/// Whether `text` is `word` with whitespace alone around it.
pub open spec fn is_padded(text: Seq<u8>, word: Seq<u8>) -> bool {
    exists|at: int| is_padded_at(text, word, at)
}

/// The text of the JSON value `true`.
pub open spec fn true_text() -> Seq<u8> {
    seq![0x74u8, 0x72u8, 0x75u8, 0x65u8]
}

/// The text of the JSON value `false`.
pub open spec fn false_text() -> Seq<u8> {
    seq![0x66u8, 0x61u8, 0x6cu8, 0x73u8, 0x65u8]
}

/// The text of the JSON value `null`.
pub open spec fn null_text() -> Seq<u8> {
    seq![0x6eu8, 0x75u8, 0x6cu8, 0x6cu8]
}

/// The truth value that `text` holds: one of the literals `true` and
/// `false`, with whitespace alone around it.
pub open spec fn json_bool(text: Seq<u8>) -> Option<bool> {
    if is_padded(text, true_text()) {
        Some(true)
    } else if is_padded(text, false_text()) {
        Some(false)
    } else {
        None
    }
}

/// The integer that `serde_json::from_slice` reads from `text` as an `i64`;
/// `None` where it does not read one.
pub uninterp spec fn json_integer(text: Seq<u8>) -> Option<i64>;

/// The string that `serde_json::from_slice` reads from `text`, escapes
/// resolved; `None` where it does not read one.
pub uninterp spec fn json_string(text: Seq<u8>) -> Option<Seq<char>>;

/// Whether `text` holds `null`: the literal, with whitespace alone around
/// it.
pub open spec fn json_null(text: Seq<u8>) -> bool {
    is_padded(text, null_text())
}

/// `serde_json::from_slice` into a map from member name to raw value: the
/// members of the object, or `None` where the call fails.
#[verifier::external_body]
pub(crate) fn read_object(text: &[u8]) -> (members: Option<Vec<(String, Vec<u8>)>>)
    ensures
        members.deep_view() == json_object(text@),
{
    match serde_json::from_slice::<BTreeMap<String, Box<serde_json::value::RawValue>>>(text) {
        Ok(map) => Some(
            map.into_iter().map(|(name, raw)| (name, raw.get().as_bytes().to_vec())).collect(),
        ),
        Err(_) => None,
    }
}

/// `serde_json::from_slice` into a list of raw values: the items of the
/// array, or `None` where the call fails.
#[verifier::external_body]
pub(crate) fn read_array(text: &[u8]) -> (items: Option<Vec<Vec<u8>>>)
    ensures
        items.deep_view() == json_array(text@),
{
    match serde_json::from_slice::<Vec<Box<serde_json::value::RawValue>>>(text) {
        Ok(list) => Some(list.into_iter().map(|raw| raw.get().as_bytes().to_vec()).collect()),
        Err(_) => None,
    }
}

/// `serde_json::from_slice` into a `bool`, or `None` where the call fails.
/// The call skips whitespace, reads one of the literals `true` and `false`
/// and fails on anything else; it fails too where anything but whitespace
/// follows.
#[verifier::external_body]
pub(crate) fn read_bool(text: &[u8]) -> (value: Option<bool>)
    ensures
        value == json_bool(text@),
{
    serde_json::from_slice::<bool>(text).ok()
}

/// `serde_json::from_slice` into an `i64`, or `None` where the call fails.
#[verifier::external_body]
pub(crate) fn read_integer(text: &[u8]) -> (value: Option<i64>)
    ensures
        value == json_integer(text@),
{
    serde_json::from_slice::<i64>(text).ok()
}

/// `serde_json::from_slice` into a `String`, or `None` where the call fails.
#[verifier::external_body]
pub(crate) fn read_string(text: &[u8]) -> (value: Option<String>)
    ensures
        value.deep_view() == json_string(text@),
{
    serde_json::from_slice::<String>(text).ok()
}

/// `serde_json::from_slice` into `()`. The call skips whitespace, reads the
/// literal `null` and fails on anything else; it fails too where anything
/// but whitespace follows.
#[verifier::external_body]
pub(crate) fn reads_as_null(text: &[u8]) -> (null: bool)
    ensures
        null == json_null(text@),
{
    serde_json::from_slice::<()>(text).is_ok()
}

/// The literal `null` by itself holds `null`.
pub proof fn lemma_null_text_is_null()
    ensures
        json_null(null_text()),
{
    assert(null_text().subrange(0, 4) == null_text());
    assert(is_padded_at(null_text(), null_text(), 0));
}

} // verus!
