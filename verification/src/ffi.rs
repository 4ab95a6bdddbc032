//! Decoding of boundary parameters: optional text, JSON-encoded maps,
//! lists and pairs, and the integer codes of the index conventions.
//!
//! Text reaches the library already decoded from C strings by the shell
//! around it; a null pointer arrives as `None`.  JSON decoding itself is
//! the work of an outside parser, reached through trusted wrappers whose
//! results are named below; everything around the parse — null handling,
//! defaulting, and the use made of the parsed values — is verified.

use vstd::prelude::*;
use std::collections::HashMap;

verus! {

/// Converts an optional boundary text to an owned string: a null pointer
/// becomes the empty string.
pub fn to_string(text: Option<String>) -> (r: String)
    ensures
        text matches Some(s) ==> r == s,
        text is None ==> r@ == Seq::<char>::empty(),
{
    match text {
        Some(s) => s,
        None => String::new(),
    }
}

/// Passes an optional boundary text through: a null pointer is `None`.
pub fn parse_optional_string(text: Option<String>) -> (r: Option<String>)
    ensures
        r == text,
{
    text
}

/// What the outside JSON parser reads out of `s` as an object of string
/// keys and string values; `None` when `s` is not such an object.
pub uninterp spec fn json_string_map(s: Seq<char>) -> Option<Map<String, String>>;

/// What the outside JSON parser reads out of `s` as an array of strings;
/// `None` when `s` is not such an array.
pub uninterp spec fn json_string_list(s: Seq<char>) -> Option<Seq<String>>;

/// What the outside JSON parser reads out of `s` as an array of string
/// pairs; `None` when `s` is not such an array.
pub uninterp spec fn json_string_pairs(s: Seq<char>) -> Option<Seq<(String, String)>>;

/// Relies on the JSON parser's `from_str` for a map of string to string:
/// the result is a function of the text alone.
#[verifier::external_body]
fn parse_string_map(s: &str) -> (r: Option<HashMap<String, String>>)
    ensures
        r matches Some(m) ==> json_string_map(s@) == Some(m@),
        r is None ==> json_string_map(s@) is None,
{
    sonic_rs::from_str::<HashMap<String, String>>(s).ok()
}

/// Relies on the JSON parser's `from_str` for an array of strings: the
/// result is a function of the text alone.
#[verifier::external_body]
fn parse_string_list(s: &str) -> (r: Result<Vec<String>, String>)
    ensures
        r matches Ok(v) ==> json_string_list(s@) == Some(v@),
        r matches Err(_) ==> json_string_list(s@) is None,
{
    sonic_rs::from_str::<Vec<String>>(s).map_err(|e| e.to_string())
}

/// Relies on the JSON parser's `from_str` for an array of string pairs:
/// the result is a function of the text alone.
#[verifier::external_body]
fn parse_string_pairs(s: &str) -> (r: Result<Vec<(String, String)>, String>)
    ensures
        r matches Ok(v) ==> json_string_pairs(s@) == Some(v@),
        r matches Err(_) ==> json_string_pairs(s@) is None,
{
    sonic_rs::from_str::<Vec<(String, String)>>(s).map_err(|e| e.to_string())
}

/// `r` is the decoding of the optional JSON object `text`: `None` for a
/// null pointer or text that is not an object of strings, the parsed map
/// otherwise.
pub open spec fn spec_opt_map_decoded(text: Option<String>, r: Option<HashMap<String, String>>) -> bool {
    match text {
        None => r is None,
        Some(s) => match r {
            Some(m) => json_string_map(s@) == Some(m@),
            None => json_string_map(s@) is None,
        },
    }
}

/// `r` is the decoding of the optional JSON array `text`: `None` for a
/// null pointer or text that is not an array of strings, the parsed list
/// otherwise.
pub open spec fn spec_opt_list_decoded(text: Option<String>, r: Option<Vec<String>>) -> bool {
    match text {
        None => r is None,
        Some(s) => match r {
            Some(v) => json_string_list(s@) == Some(v@),
            None => json_string_list(s@) is None,
        },
    }
}

/// Decodes an optional JSON object of string options: a null pointer, or
/// text that is not such an object, is `None`.
pub fn parse_optional_json_map(text: Option<String>) -> (r: Option<HashMap<String, String>>)
    ensures
        spec_opt_map_decoded(text, r),
{
    match text {
        Some(s) => parse_string_map(s.as_str()),
        None => None,
    }
}

/// Decodes an optional JSON array of strings: a null pointer, or text
/// that is not such an array, is `None`.
pub fn parse_optional_json_list(text: Option<String>) -> (r: Option<Vec<String>>)
    ensures
        spec_opt_list_decoded(text, r),
{
    match text {
        Some(s) => match parse_string_list(s.as_str()) {
            Ok(v) => Some(v),
            Err(_) => None,
        },
        None => None,
    }
}

/// Decodes a required JSON array of strings, keeping the parser's message
/// on failure.
pub fn parse_required_json_list(s: &str) -> (r: Result<Vec<String>, String>)
    ensures
        r matches Ok(v) ==> json_string_list(s@) == Some(v@),
        r matches Err(_) ==> json_string_list(s@) is None,
{
    parse_string_list(s)
}

/// Decodes a required JSON array of string pairs, keeping the parser's
/// message on failure.
pub fn parse_required_json_pairs(s: &str) -> (r: Result<Vec<(String, String)>, String>)
    ensures
        r matches Ok(v) ==> json_string_pairs(s@) == Some(v@),
        r matches Err(_) ==> json_string_pairs(s@) is None,
{
    parse_string_pairs(s)
}

/// The kinds of index the boundary can ask the engine to build.
#[derive(Clone, Copy, Debug, PartialEq, Eq, Structural)]
pub enum IndexKind {
    IvfFlat,
    IvfSq,
    IvfPq,
    IvfRq,
    IvfHnswPq,
    IvfHnswSq,
    BTree,
    Bitmap,
    LabelList,
    Fts,
}

/// The distance metrics of the vector indexes.
#[derive(Clone, Copy, Debug, PartialEq, Eq, Structural)]
pub enum DistanceKind {
    L2,
    Cosine,
    Dot,
    Hamming,
}

/// The boundary's integer code for an index kind.
pub open spec fn spec_index_kind_code(k: IndexKind) -> i32 {
    match k {
        IndexKind::IvfFlat => 0,
        IndexKind::IvfSq => 1,
        IndexKind::IvfPq => 2,
        IndexKind::IvfRq => 3,
        IndexKind::IvfHnswPq => 4,
        IndexKind::IvfHnswSq => 5,
        IndexKind::BTree => 6,
        IndexKind::Bitmap => 7,
        IndexKind::LabelList => 8,
        IndexKind::Fts => 9,
    }
}

/// The boundary's integer code for a distance metric; an absent metric is
/// reported as `-1`.
pub open spec fn spec_distance_kind_code(d: Option<DistanceKind>) -> i32 {
    match d {
        Some(DistanceKind::L2) => 0i32,
        Some(DistanceKind::Cosine) => 1i32,
        Some(DistanceKind::Dot) => 2i32,
        Some(DistanceKind::Hamming) => 3i32,
        None => -1i32,
    }
}

/// Encodes an index kind as its integer code.
pub fn index_type_to_ffi(k: &IndexKind) -> (code: i32)
    ensures
        code == spec_index_kind_code(*k),
{
    match k {
        IndexKind::IvfFlat => 0,
        IndexKind::IvfSq => 1,
        IndexKind::IvfPq => 2,
        IndexKind::IvfRq => 3,
        IndexKind::IvfHnswPq => 4,
        IndexKind::IvfHnswSq => 5,
        IndexKind::BTree => 6,
        IndexKind::Bitmap => 7,
        IndexKind::LabelList => 8,
        IndexKind::Fts => 9,
    }
}

/// Encodes an optional distance metric as its integer code.
pub fn distance_type_to_ffi(d: Option<DistanceKind>) -> (code: i32)
    ensures
        code == spec_distance_kind_code(d),
{
    match d {
        Some(DistanceKind::L2) => 0i32,
        Some(DistanceKind::Cosine) => 1i32,
        Some(DistanceKind::Dot) => 2i32,
        Some(DistanceKind::Hamming) => 3i32,
        None => -1i32,
    }
}

/// Decodes an index kind from its integer code; a code outside the
/// conventions is an error.
pub fn ffi_to_index_type(code: i32) -> (r: Result<IndexKind, String>)
    ensures
        0 <= code <= 9 ==> (r matches Ok(k) && spec_index_kind_code(k) == code),
        !(0 <= code <= 9) ==> r is Err,
{
    match code {
        0 => Ok(IndexKind::IvfFlat),
        1 => Ok(IndexKind::IvfSq),
        2 => Ok(IndexKind::IvfPq),
        3 => Ok(IndexKind::IvfRq),
        4 => Ok(IndexKind::IvfHnswPq),
        5 => Ok(IndexKind::IvfHnswSq),
        6 => Ok(IndexKind::BTree),
        7 => Ok(IndexKind::Bitmap),
        8 => Ok(IndexKind::LabelList),
        9 => Ok(IndexKind::Fts),
        _ => Err("unknown index type code".to_owned()),
    }
}

/// Decodes a distance metric from its integer code; a code outside the
/// conventions is an error.
pub fn ffi_to_distance_type(code: i32) -> (r: Result<DistanceKind, String>)
    ensures
        0 <= code <= 3 ==> (r matches Ok(d) && spec_distance_kind_code(Some(d)) == code),
        !(0 <= code <= 3) ==> r is Err,
{
    match code {
        0 => Ok(DistanceKind::L2),
        1 => Ok(DistanceKind::Cosine),
        2 => Ok(DistanceKind::Dot),
        3 => Ok(DistanceKind::Hamming),
        _ => Err("unknown distance type code".to_owned()),
    }
}

/// Law: the integer coding of index kinds is lossless — decoding the code
/// of any kind yields that kind again.
pub proof fn lemma_index_code_round_trip(k: IndexKind)
    ensures
        0 <= spec_index_kind_code(k) <= 9,
        forall|j: IndexKind| spec_index_kind_code(j) == spec_index_kind_code(k) ==> j == k,
{
}

/// Frees an owned string handed across the boundary.  Null is a safe
/// no-op.
pub fn free_string(ptr: Option<String>) {
    match ptr {
        Some(_) => {}
        None => {}
    }
}

} // verus!
