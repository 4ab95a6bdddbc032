//! Decoding of an index-creation request: the integer index-type code and
//! the JSON configuration object become a typed index specification.
//!
//! The configuration is a flat JSON object of scalars.  The outside parser
//! reduces it to a list of keyed scalar values through one trusted
//! wrapper; everything after that — which keys each index kind reads, how
//! numbers are narrowed, when a distance code is rejected — is verified.

use vstd::prelude::*;
use sonic_rs::JsonValueTrait;
use sonic_rs::JsonContainerTrait;
use crate::ffi::{ffi_to_distance_type, DistanceKind};
use crate::text::str_eq;

verus! {

/// One scalar of the configuration object.  A JSON integer that fits
/// `u64` is `Unsigned`; a negative one that fits `i64` is `Signed`; other
/// kinds of value do not occur (the wrapper drops them, as the boundary
/// reads none of them).
#[derive(Debug, PartialEq, Eq, Clone)]
pub enum ConfigValue {
    Flag(bool),
    Unsigned(u64),
    Signed(i64),
    Text(String),
}

/// What the outside JSON parser reads out of `s` as a flat object of
/// scalars, in order; `None` when `s` is not valid JSON.
pub uninterp spec fn json_config_entries(s: Seq<char>) -> Option<Seq<(String, ConfigValue)>>;

/// Relies on the JSON parser: `from_str` to a document value, `as_object`
/// and the scalar accessors.  The result is a function of the text alone.
#[verifier::external_body]
pub fn parse_config_entries(s: &str) -> (r: Result<Vec<(String, ConfigValue)>, String>)
    ensures
        r matches Ok(v) ==> json_config_entries(s@) == Some(v@),
        r matches Err(_) ==> json_config_entries(s@) is None,
{
    let v: sonic_rs::Value = sonic_rs::from_str(s).map_err(|e| e.to_string())?;
    let mut out: Vec<(String, ConfigValue)> = Vec::new();
    if let Some(obj) = v.as_object() {
        for (k, x) in obj.iter() {
            let c = if let Some(b) = x.as_bool() { ConfigValue::Flag(b) }
                else if let Some(u) = x.as_u64() { ConfigValue::Unsigned(u) }
                else if let Some(i) = x.as_i64() { ConfigValue::Signed(i) }
                else if let Some(t) = x.as_str() { ConfigValue::Text(t.to_string()) }
                else { continue };
            out.push((k.to_string(), c));
        }
    }
    Ok(out)
}

/// The first value stored under `key`, if any.
pub open spec fn spec_lookup(entries: Seq<(String, ConfigValue)>, key: Seq<char>) -> Option<
    ConfigValue,
>
    decreases entries.len(),
{
    if entries.len() == 0 {
        None
    } else if entries[0].0@ == key {
        Some(entries[0].1)
    } else {
        spec_lookup(entries.drop_first(), key)
    }
}

/// A lookup skips any prefix without the key.
proof fn lemma_lookup_skip(entries: Seq<(String, ConfigValue)>, key: Seq<char>, i: int)
    requires
        0 <= i <= entries.len(),
        forall|k: int| 0 <= k < i ==> (#[trigger] entries[k]).0@ != key,
    ensures
        spec_lookup(entries, key) == spec_lookup(entries.skip(i), key),
    decreases i,
{
    if i > 0 {
        lemma_lookup_skip(entries, key, i - 1);
        assert(entries.skip(i - 1)[0] == entries[i - 1]);
        assert(entries.skip(i - 1).drop_first() =~= entries.skip(i));
    } else {
        assert(entries.skip(0) =~= entries);
    }
}

/// The boolean stored under `key`: a non-boolean value reads as absent.
pub open spec fn spec_config_bool(entries: Seq<(String, ConfigValue)>, key: Seq<char>) -> Option<
    bool,
> {
    match spec_lookup(entries, key) {
        Some(ConfigValue::Flag(b)) => Some(b),
        _ => None,
    }
}

/// The unsigned integer stored under `key`: a negative or non-numeric
/// value reads as absent.
pub open spec fn spec_config_u64(entries: Seq<(String, ConfigValue)>, key: Seq<char>) -> Option<
    u64,
> {
    match spec_lookup(entries, key) {
        Some(ConfigValue::Unsigned(u)) => Some(u),
        _ => None,
    }
}

/// The signed integer stored under `key`: an unsigned value in range
/// reads as signed, anything non-numeric as absent.
pub open spec fn spec_config_i64(entries: Seq<(String, ConfigValue)>, key: Seq<char>) -> Option<
    i64,
> {
    match spec_lookup(entries, key) {
        Some(ConfigValue::Unsigned(u)) => if u <= i64::MAX as u64 {
            Some(u as i64)
        } else {
            None
        },
        Some(ConfigValue::Signed(i)) => Some(i),
        _ => None,
    }
}

/// The characters of the text stored under `key`: a non-text value reads
/// as absent.
pub open spec fn spec_config_text(entries: Seq<(String, ConfigValue)>, key: Seq<char>) -> Option<
    Seq<char>,
> {
    match spec_lookup(entries, key) {
        Some(ConfigValue::Text(t)) => Some(t@),
        _ => None,
    }
}

/// The unsigned value under `key`, narrowed to 32 bits by truncation, as
/// the boundary's conventions narrow it.
pub open spec fn spec_config_u32(entries: Seq<(String, ConfigValue)>, key: Seq<char>) -> Option<
    u32,
> {
    match spec_config_u64(entries, key) {
        Some(u) => Some(u as u32),
        None => None,
    }
}

/// Looks up the first value stored under `key`.
fn lookup<'a>(entries: &'a Vec<(String, ConfigValue)>, key: &str) -> (r: Option<&'a ConfigValue>)
    ensures
        r matches Some(v) ==> spec_lookup(entries@, key@) == Some(*v),
        r is None ==> spec_lookup(entries@, key@) is None,
{
    let mut i: usize = 0;
    while i < entries.len()
        invariant
            i <= entries@.len(),
            forall|k: int| 0 <= k < i ==> (#[trigger] entries@[k]).0@ != key@,
        decreases entries@.len() - i,
    {
        if str_eq(entries[i].0.as_str(), key) {
            proof {
                lemma_lookup_skip(entries@, key@, i as int);
                assert(entries@.skip(i as int)[0] == entries@[i as int]);
            }
            return Some(&entries[i].1);
        }
        i = i + 1;
    }
    proof {
        lemma_lookup_skip(entries@, key@, entries@.len() as int);
    }
    None
}

/// Reads the boolean under `key`.
pub fn config_bool(entries: &Vec<(String, ConfigValue)>, key: &str) -> (r: Option<bool>)
    ensures
        r == spec_config_bool(entries@, key@),
{
    match lookup(entries, key) {
        Some(ConfigValue::Flag(b)) => Some(*b),
        _ => None,
    }
}

/// Reads the unsigned integer under `key`.
pub fn config_u64(entries: &Vec<(String, ConfigValue)>, key: &str) -> (r: Option<u64>)
    ensures
        r == spec_config_u64(entries@, key@),
{
    match lookup(entries, key) {
        Some(ConfigValue::Unsigned(u)) => Some(*u),
        _ => None,
    }
}

/// Reads the signed integer under `key`.
pub fn config_i64(entries: &Vec<(String, ConfigValue)>, key: &str) -> (r: Option<i64>)
    ensures
        r == spec_config_i64(entries@, key@),
{
    match lookup(entries, key) {
        Some(ConfigValue::Unsigned(u)) => {
            if *u <= i64::MAX as u64 {
                Some(*u as i64)
            } else {
                None
            }
        }
        Some(ConfigValue::Signed(i)) => Some(*i),
        _ => None,
    }
}

/// Reads the text under `key`, as an owned copy.
pub fn config_text(entries: &Vec<(String, ConfigValue)>, key: &str) -> (r: Option<String>)
    ensures
        spec_same_text(r, spec_config_text(entries@, key@)),
{
    match lookup(entries, key) {
        Some(ConfigValue::Text(t)) => Some(t.clone()),
        _ => None,
    }
}

/// Reads the unsigned integer under `key`, narrowed to 32 bits.
pub fn config_u32(entries: &Vec<(String, ConfigValue)>, key: &str) -> (r: Option<u32>)
    ensures
        r == spec_config_u32(entries@, key@),
{
    match config_u64(entries, key) {
        Some(u) => Some(#[verifier::truncate] (u as u32)),
        None => None,
    }
}

/// An optional owned text carries the given optional characters.
pub open spec fn spec_same_text(r: Option<String>, chars: Option<Seq<char>>) -> bool {
    match (r, chars) {
        (Some(t), Some(c)) => t@ == c,
        (None, None) => true,
        _ => false,
    }
}

/// Parameters of the vector index kinds.  A kind reads only some of the
/// keys; the fields of the keys it does not read stay `None`.
#[derive(Clone, Copy, Debug, PartialEq, Eq, Structural)]
pub struct VectorIndexParams {
    pub distance: Option<DistanceKind>,
    pub num_partitions: Option<u32>,
    pub num_sub_vectors: Option<u32>,
    pub num_bits: Option<u32>,
    pub max_iterations: Option<u32>,
    pub sample_rate: Option<u32>,
    pub num_edges: Option<u32>,
    pub ef_construction: Option<u32>,
    pub target_partition_size: Option<u32>,
}

/// Parameters of the full-text index.
#[derive(Clone, Debug, PartialEq, Eq)]
pub struct FtsParams {
    pub with_position: Option<bool>,
    pub base_tokenizer: Option<String>,
    pub language: Option<String>,
    pub max_token_length: Option<u64>,
    pub lower_case: Option<bool>,
    pub stem: Option<bool>,
    pub remove_stop_words: Option<bool>,
    pub ascii_folding: Option<bool>,
    pub ngram_min_length: Option<u32>,
    pub ngram_max_length: Option<u32>,
    pub prefix_only: Option<bool>,
}

/// A fully decoded index specification, ready to hand to the engine.
#[derive(Clone, Debug, PartialEq, Eq)]
pub enum IndexSpec {
    BTree,
    Bitmap,
    LabelList,
    Fts(FtsParams),
    IvfFlat(VectorIndexParams),
    IvfSq(VectorIndexParams),
    IvfPq(VectorIndexParams),
    IvfRq(VectorIndexParams),
    IvfHnswPq(VectorIndexParams),
    IvfHnswSq(VectorIndexParams),
}

/// The configuration's distance code is absent or names a metric.  A
/// code outside the conventions is rejected as it stands, with no
/// narrowing first.
pub open spec fn spec_distance_config_ok(entries: Seq<(String, ConfigValue)>) -> bool {
    match spec_config_i64(entries, "distance_type"@) {
        None => true,
        Some(i) => 0 <= i <= 3,
    }
}

/// The metric of a distance code.
pub open spec fn spec_distance_of_code(c: i32) -> DistanceKind {
    if c == 0 {
        DistanceKind::L2
    } else if c == 1 {
        DistanceKind::Cosine
    } else if c == 2 {
        DistanceKind::Dot
    } else {
        DistanceKind::Hamming
    }
}

/// The metric the configuration asks for, when its code is valid.
pub open spec fn spec_distance_config(entries: Seq<(String, ConfigValue)>) -> Option<DistanceKind> {
    match spec_config_i64(entries, "distance_type"@) {
        None => None,
        Some(i) => if 0 <= i <= 3 {
            Some(spec_distance_of_code(i as i32))
        } else {
            None
        },
    }
}

/// The vector parameters a kind reads: every kind reads the metric, the
/// partition count, the iteration cap, the sample rate and the partition
/// size target; `sub_vectors`, `bits` and `hnsw` say whether the kind also
/// reads the quantization and graph keys.
pub open spec fn spec_vector_params(
    entries: Seq<(String, ConfigValue)>,
    sub_vectors: bool,
    bits: bool,
    hnsw: bool,
) -> VectorIndexParams {
    VectorIndexParams {
        distance: spec_distance_config(entries),
        num_partitions: spec_config_u32(entries, "num_partitions"@),
        num_sub_vectors: if sub_vectors {
            spec_config_u32(entries, "num_sub_vectors"@)
        } else {
            None
        },
        num_bits: if bits {
            spec_config_u32(entries, "num_bits"@)
        } else {
            None
        },
        max_iterations: spec_config_u32(entries, "max_iterations"@),
        sample_rate: spec_config_u32(entries, "sample_rate"@),
        num_edges: if hnsw {
            spec_config_u32(entries, "num_edges"@)
        } else {
            None
        },
        ef_construction: if hnsw {
            spec_config_u32(entries, "ef_construction"@)
        } else {
            None
        },
        target_partition_size: spec_config_u32(entries, "target_partition_size"@),
    }
}

/// Reads the distance metric out of the configuration: absent is fine, a
/// valid code names the metric, an invalid code is an error.
fn read_distance(entries: &Vec<(String, ConfigValue)>) -> (r: Result<Option<DistanceKind>, String>)
    ensures
        spec_distance_config_ok(entries@) ==> r == Ok::<Option<DistanceKind>, String>(
            spec_distance_config(entries@),
        ),
        !spec_distance_config_ok(entries@) ==> r is Err,
{
    match config_i64(entries, "distance_type") {
        None => Ok(None),
        Some(i) => {
            if i < 0 || i > 3 {
                return Err("unknown distance type code".to_owned());
            }
            match ffi_to_distance_type(i as i32) {
                Ok(d) => {
                    proof {
                        assert(spec_distance_of_code(i as i32) == d);
                    }
                    Ok(Some(d))
                }
                Err(e) => Err(e),
            }
        }
    }
}

/// Reads the vector parameters a kind needs; errors exactly when the
/// configuration's distance code is invalid.
fn read_vector_params(
    entries: &Vec<(String, ConfigValue)>,
    sub_vectors: bool,
    bits: bool,
    hnsw: bool,
) -> (r: Result<VectorIndexParams, String>)
    ensures
        spec_distance_config_ok(entries@) ==> r == Ok::<VectorIndexParams, String>(
            spec_vector_params(entries@, sub_vectors, bits, hnsw),
        ),
        !spec_distance_config_ok(entries@) ==> r is Err,
{
    let distance = match read_distance(entries) {
        Ok(d) => d,
        Err(e) => {
            return Err(e);
        }
    };
    Ok(
        VectorIndexParams {
            distance,
            num_partitions: config_u32(entries, "num_partitions"),
            num_sub_vectors: if sub_vectors {
                config_u32(entries, "num_sub_vectors")
            } else {
                None
            },
            num_bits: if bits {
                config_u32(entries, "num_bits")
            } else {
                None
            },
            max_iterations: config_u32(entries, "max_iterations"),
            sample_rate: config_u32(entries, "sample_rate"),
            num_edges: if hnsw {
                config_u32(entries, "num_edges")
            } else {
                None
            },
            ef_construction: if hnsw {
                config_u32(entries, "ef_construction")
            } else {
                None
            },
            target_partition_size: config_u32(entries, "target_partition_size"),
        },
    )
}

/// The full-text parameters carry exactly the configuration's values.
pub open spec fn spec_fts_params_match(entries: Seq<(String, ConfigValue)>, p: FtsParams) -> bool {
    &&& p.with_position == spec_config_bool(entries, "with_position"@)
    &&& spec_same_text(p.base_tokenizer, spec_config_text(entries, "base_tokenizer"@))
    &&& spec_same_text(p.language, spec_config_text(entries, "language"@))
    &&& p.max_token_length == spec_config_u64(entries, "max_token_length"@)
    &&& p.lower_case == spec_config_bool(entries, "lower_case"@)
    &&& p.stem == spec_config_bool(entries, "stem"@)
    &&& p.remove_stop_words == spec_config_bool(entries, "remove_stop_words"@)
    &&& p.ascii_folding == spec_config_bool(entries, "ascii_folding"@)
    &&& p.ngram_min_length == spec_config_u32(entries, "ngram_min_length"@)
    &&& p.ngram_max_length == spec_config_u32(entries, "ngram_max_length"@)
    &&& p.prefix_only == spec_config_bool(entries, "prefix_only"@)
}

/// `spec` is the index specification that the type code and the
/// configuration entries describe: the right kind, carrying exactly the
/// parameters that kind reads.
pub open spec fn spec_index_matches(
    spec: IndexSpec,
    index_type: i32,
    entries: Seq<(String, ConfigValue)>,
) -> bool {
    match spec {
        IndexSpec::BTree => index_type == 6,
        IndexSpec::Bitmap => index_type == 7,
        IndexSpec::LabelList => index_type == 8,
        IndexSpec::Fts(p) => index_type == 9 && spec_fts_params_match(entries, p),
        IndexSpec::IvfFlat(p) => index_type == 0 && p == spec_vector_params(
            entries,
            false,
            false,
            false,
        ),
        IndexSpec::IvfSq(p) => index_type == 1 && p == spec_vector_params(
            entries,
            false,
            false,
            false,
        ),
        IndexSpec::IvfPq(p) => index_type == 2 && p == spec_vector_params(
            entries,
            true,
            true,
            false,
        ),
        IndexSpec::IvfRq(p) => index_type == 3 && p == spec_vector_params(
            entries,
            false,
            true,
            false,
        ),
        IndexSpec::IvfHnswPq(p) => index_type == 4 && p == spec_vector_params(
            entries,
            true,
            true,
            true,
        ),
        IndexSpec::IvfHnswSq(p) => index_type == 5 && p == spec_vector_params(
            entries,
            false,
            false,
            true,
        ),
    }
}

/// The type code and configuration describe a buildable index: the code
/// is known and, on the vector kinds, the distance code (if given) names
/// a metric.
pub open spec fn spec_build_index_ok(
    index_type: i32,
    entries: Seq<(String, ConfigValue)>,
) -> bool {
    &&& 0 <= index_type <= 9
    &&& 0 <= index_type <= 5 ==> spec_distance_config_ok(entries)
}

/// Builds the index specification for an index-type code and a decoded
/// configuration object.  An unknown type code is an error, as is an
/// invalid distance code on the vector kinds; the scalar kinds take no
/// parameters and the full-text kind cannot fail.
pub fn build_index(index_type: i32, config: &Vec<(String, ConfigValue)>) -> (r: Result<
    IndexSpec,
    String,
>)
    ensures
        r is Ok <==> spec_build_index_ok(index_type, config@),
        r matches Ok(spec) ==> spec_index_matches(spec, index_type, config@),
        !(0 <= index_type <= 9) ==> r is Err,
        index_type == 6 ==> r == Ok::<IndexSpec, String>(IndexSpec::BTree),
        index_type == 7 ==> r == Ok::<IndexSpec, String>(IndexSpec::Bitmap),
        index_type == 8 ==> r == Ok::<IndexSpec, String>(IndexSpec::LabelList),
        index_type == 9 ==> (r matches Ok(IndexSpec::Fts(p)) && spec_fts_params_match(
            config@,
            p,
        )),
        index_type == 0 ==> spec_vector_result(r, config@, IndexKindFlags::IvfFlat),
        index_type == 1 ==> spec_vector_result(r, config@, IndexKindFlags::IvfSq),
        index_type == 2 ==> spec_vector_result(r, config@, IndexKindFlags::IvfPq),
        index_type == 3 ==> spec_vector_result(r, config@, IndexKindFlags::IvfRq),
        index_type == 4 ==> spec_vector_result(r, config@, IndexKindFlags::IvfHnswPq),
        index_type == 5 ==> spec_vector_result(r, config@, IndexKindFlags::IvfHnswSq),
{
    if index_type < 0 || index_type > 9 {
        return Err("unknown index type code".to_owned());
    }
    if index_type == 6 {
        return Ok(IndexSpec::BTree);
    }
    if index_type == 7 {
        return Ok(IndexSpec::Bitmap);
    }
    if index_type == 8 {
        return Ok(IndexSpec::LabelList);
    }
    if index_type == 9 {
        return Ok(
            IndexSpec::Fts(
                FtsParams {
                    with_position: config_bool(config, "with_position"),
                    base_tokenizer: config_text(config, "base_tokenizer"),
                    language: config_text(config, "language"),
                    max_token_length: config_u64(config, "max_token_length"),
                    lower_case: config_bool(config, "lower_case"),
                    stem: config_bool(config, "stem"),
                    remove_stop_words: config_bool(config, "remove_stop_words"),
                    ascii_folding: config_bool(config, "ascii_folding"),
                    ngram_min_length: config_u32(config, "ngram_min_length"),
                    ngram_max_length: config_u32(config, "ngram_max_length"),
                    prefix_only: config_bool(config, "prefix_only"),
                },
            ),
        );
    }
    let (sub_vectors, bits, hnsw) = if index_type == 2 {
        (true, true, false)
    } else if index_type == 3 {
        (false, true, false)
    } else if index_type == 4 {
        (true, true, true)
    } else if index_type == 5 {
        (false, false, true)
    } else {
        (false, false, false)
    };
    let params = match read_vector_params(config, sub_vectors, bits, hnsw) {
        Ok(p) => p,
        Err(e) => {
            return Err(e);
        }
    };
    if index_type == 0 {
        Ok(IndexSpec::IvfFlat(params))
    } else if index_type == 1 {
        Ok(IndexSpec::IvfSq(params))
    } else if index_type == 2 {
        Ok(IndexSpec::IvfPq(params))
    } else if index_type == 3 {
        Ok(IndexSpec::IvfRq(params))
    } else if index_type == 4 {
        Ok(IndexSpec::IvfHnswPq(params))
    } else {
        Ok(IndexSpec::IvfHnswSq(params))
    }
}

/// The vector index kinds, for stating which keys each reads.
#[derive(Clone, Copy, Debug, PartialEq, Eq, Structural)]
pub enum IndexKindFlags {
    IvfFlat,
    IvfSq,
    IvfPq,
    IvfRq,
    IvfHnswPq,
    IvfHnswSq,
}

/// The result of building a vector index of the given kind: an error
/// exactly on an invalid distance code, else the kind's parameters.
pub open spec fn spec_vector_result(
    r: Result<IndexSpec, String>,
    entries: Seq<(String, ConfigValue)>,
    kind: IndexKindFlags,
) -> bool {
    if spec_distance_config_ok(entries) {
        match kind {
            IndexKindFlags::IvfFlat => r == Ok::<IndexSpec, String>(
                IndexSpec::IvfFlat(spec_vector_params(entries, false, false, false)),
            ),
            IndexKindFlags::IvfSq => r == Ok::<IndexSpec, String>(
                IndexSpec::IvfSq(spec_vector_params(entries, false, false, false)),
            ),
            IndexKindFlags::IvfPq => r == Ok::<IndexSpec, String>(
                IndexSpec::IvfPq(spec_vector_params(entries, true, true, false)),
            ),
            IndexKindFlags::IvfRq => r == Ok::<IndexSpec, String>(
                IndexSpec::IvfRq(spec_vector_params(entries, false, true, false)),
            ),
            IndexKindFlags::IvfHnswPq => r == Ok::<IndexSpec, String>(
                IndexSpec::IvfHnswPq(spec_vector_params(entries, true, true, true)),
            ),
            IndexKindFlags::IvfHnswSq => r == Ok::<IndexSpec, String>(
                IndexSpec::IvfHnswSq(spec_vector_params(entries, false, false, true)),
            ),
        }
    } else {
        r is Err
    }
}

} // verus!
