//! Calls into `yrs` behind the map, array, text and document handles.
//!
//! What a read returns depends on the document's current state, which no
//! value here describes, so reads claim nothing of their results. Writes
//! take the write transaction mutably.

use vstd::prelude::*;

use yrs::types::ToJson;
use yrs::updates::decoder::Decode;
use yrs::updates::encoder::Encode;
use crate::txn_calls::{entry_count, key_held, unit_count};

use yrs::{
    Any, Array, ArrayPrelim, ArrayRef, Doc, GetString, In, MapPrelim, MapRef, OffsetKind, Options,
    Out, ReadTxn, StateVector, Text, TextPrelim, TextRef, Transaction, TransactionMut, Update,
};

verus! {

// ---- documents --------------------------------------------------------

/// Whether a document's text offsets count UTF-16 code units (its
/// `Options::offset_kind` is `OffsetKind::Utf16`).
pub uninterp spec fn counts_utf16(doc: Doc) -> bool;

/// A new empty document (`Doc::with_options`) whose text offsets count
/// UTF-16 code units; every other option is yrs's default, which draws a
/// random client id.
#[verifier::external_body]
pub(crate) fn new_utf16_document() -> (doc: Doc)
    ensures
        counts_utf16(doc),
{
    Doc::with_options(Options { offset_kind: OffsetKind::Utf16, ..Default::default() })
}

/// Another handle on the same document (`<Doc as Clone>::clone`, an `Arc`
/// clone).
#[verifier::external_body]
pub(crate) fn doc_handle(doc: &Doc) -> (handle: Doc)
    ensures
        handle == *doc,
{
    doc.clone()
}

/// The root map named `name`, declaring it if absent
/// (`Doc::get_or_insert_map`).
#[verifier::external_body]
pub(crate) fn root_map(doc: &Doc, name: String) -> MapRef {
    doc.get_or_insert_map(name)
}

/// The root array named `name`, declaring it if absent
/// (`Doc::get_or_insert_array`).
#[verifier::external_body]
pub(crate) fn root_array(doc: &Doc, name: String) -> ArrayRef {
    doc.get_or_insert_array(name)
}

/// The root text named `name`, declaring it if absent
/// (`Doc::get_or_insert_text`).
#[verifier::external_body]
pub(crate) fn root_text(doc: &Doc, name: String) -> TextRef {
    doc.get_or_insert_text(name)
}

/// Why `bytes` is not a v1-encoded update, as yrs's decoding error text, or
/// `None` when it is one.
pub uninterp spec fn update_decode_error(bytes: Seq<u8>) -> Option<Seq<char>>;

/// Decodes a v1-encoded update (`Update::decode_v1`), its error rendered
/// with `to_string`. Decoding reads only the bytes, so its outcome is a
/// function of them, named [`update_decode_error`].
#[verifier::external_body]
pub(crate) fn decode_update(bytes: &Vec<u8>) -> (decoded: Result<Update, String>)
    ensures
        decoded is Ok <==> update_decode_error(bytes@) is None,
        decoded is Err ==> decoded->Err_0@ == update_decode_error(bytes@)->0,
{
    Update::decode_v1(bytes).map_err(|e| e.to_string())
}

/// Applies a decoded update (`TransactionMut::apply_update`), its error
/// rendered with `to_string`. Nothing is claimed: the outcome depends on
/// the document, and yrs's integration of a decodable but inconsistent
/// update has paths that panic, which nothing here rules out.
#[verifier::external_body]
pub(crate) fn apply_update(txn: &mut TransactionMut<'_>, update: Update) -> Result<(), String> {
    txn.apply_update(update).map_err(|e| e.to_string())
}

/// The state vector with no entries (`StateVector::default`).
#[verifier::external_body]
pub(crate) fn empty_state_vector() -> StateVector {
    StateVector::default()
}

/// Why `bytes` is not a v1-encoded state vector, as yrs's decoding error
/// text, or `None` when it is one.
pub uninterp spec fn state_vector_decode_error(bytes: Seq<u8>) -> Option<Seq<char>>;

/// Decodes a v1-encoded state vector (`StateVector::decode_v1`), its error
/// rendered with `to_string`. The outcome is a function of the bytes, named
/// [`state_vector_decode_error`].
#[verifier::external_body]
pub(crate) fn decode_state_vector(bytes: &Vec<u8>) -> (decoded: Result<StateVector, String>)
    ensures
        decoded is Ok <==> state_vector_decode_error(bytes@) is None,
        decoded is Err ==> decoded->Err_0@ == state_vector_decode_error(bytes@)->0,
{
    StateVector::decode_v1(bytes).map_err(|e| e.to_string())
}

/// The v1 update holding everything the document has that `sv` lacks
/// (`ReadTxn::encode_state_as_update_v1`).
#[verifier::external_body]
pub(crate) fn encode_diff(txn: &Transaction<'_>, sv: &StateVector) -> Vec<u8> {
    txn.encode_state_as_update_v1(sv)
}

/// The document's state vector, v1-encoded (`ReadTxn::state_vector` then
/// `Encode::encode_v1`).
#[verifier::external_body]
pub(crate) fn encoded_state_vector(txn: &Transaction<'_>) -> Vec<u8> {
    txn.state_vector().encode_v1()
}

/// Another handle on the same map branch (`<MapRef as Clone>::clone`).
#[verifier::external_body]
pub(crate) fn clone_map_ref(map: &MapRef) -> (handle: MapRef)
    ensures
        handle == *map,
{
    map.clone()
}

/// Another handle on the same array branch (`<ArrayRef as Clone>::clone`).
#[verifier::external_body]
pub(crate) fn clone_array_ref(array: &ArrayRef) -> (handle: ArrayRef)
    ensures
        handle == *array,
{
    array.clone()
}

/// Another handle on the same text branch (`<TextRef as Clone>::clone`).
#[verifier::external_body]
pub(crate) fn clone_text_ref(text: &TextRef) -> (handle: TextRef)
    ensures
        handle == *text,
{
    text.clone()
}

// ---- inputs -----------------------------------------------------------

/// The input `In::from(String)` builds from a string of these characters.
pub uninterp spec fn string_in(chars: Seq<char>) -> In;

/// A string input (`In::from(String)`, a plain `Any::String` of the same
/// characters), named [`string_in`].
#[verifier::external_body]
pub(crate) fn string_input(value: String) -> (input: In)
    ensures
        input == string_in(value@),
{
    In::from(value)
}

/// The input `In::Any(Any::BigInt(value))`.
pub uninterp spec fn bigint_in(value: i64) -> In;

/// A lib0 BigInt input (`In::Any(Any::BigInt(value))`), named [`bigint_in`].
#[verifier::external_body]
pub(crate) fn bigint_input(value: i64) -> (input: In)
    ensures
        input == bigint_in(value),
{
    In::Any(Any::BigInt(value))
}

/// The input `In::from(bool)` builds.
pub uninterp spec fn bool_in(value: bool) -> In;

/// A boolean input (`In::from(bool)`, a plain `Any::Bool`), named
/// [`bool_in`].
#[verifier::external_body]
pub(crate) fn bool_input(value: bool) -> (input: In)
    ensures
        input == bool_in(value),
{
    In::from(value)
}

/// The input `In::from(Vec<u8>)` builds from these bytes.
pub uninterp spec fn bytes_in(bytes: Seq<u8>) -> In;

/// A binary input (`In::from(Vec<u8>)`, a plain `Any::Buffer` of the same
/// bytes), named [`bytes_in`].
#[verifier::external_body]
pub(crate) fn bytes_input(value: Vec<u8>) -> (input: In)
    ensures
        input == bytes_in(value@),
{
    In::from(value)
}

/// A null input (`In::Any(Any::Null)`).
#[verifier::external_body]
pub(crate) fn null_input() -> In {
    In::Any(Any::Null)
}

// ---- plain values -----------------------------------------------------

/// What a plain yrs value is. A double is carried by its IEEE-754 bits.
pub enum AnyShape {
    Null,
    Undefined,
    Bool(bool),
    Number(u64),
    BigInt(i64),
    String(String),
    Buffer(Vec<u8>),
    Array,
    YMap,
}

/// Tells the variants of `yrs::Any` apart, one arm per variant, converting
/// the scalar each carries (a double to its bits, shared text and bytes to
/// owned ones).
#[verifier::external_body]
pub(crate) fn any_shape(any: &Any) -> AnyShape {
    match any {
        Any::Null => AnyShape::Null,
        Any::Undefined => AnyShape::Undefined,
        Any::Bool(b) => AnyShape::Bool(*b),
        Any::Number(n) => AnyShape::Number(n.to_bits()),
        Any::BigInt(i) => AnyShape::BigInt(*i),
        Any::String(s) => AnyShape::String(s.to_string()),
        Any::Buffer(b) => AnyShape::Buffer(b.to_vec()),
        Any::Array(_) => AnyShape::Array,
        Any::Map(_) => AnyShape::YMap,
    }
}

/// The JSON text of a plain value (`serde_json::to_string`), or the
/// serializer's error rendered with `to_string`. Nothing is claimed of the
/// text.
#[verifier::external_body]
pub(crate) fn any_json(any: &Any) -> Result<String, String> {
    serde_json::to_string(any).map_err(|e| e.to_string())
}

// ---- maps -------------------------------------------------------------

/// The value under `key` (`Map::get`).
#[verifier::external_body]
pub(crate) fn map_get_read(txn: &Transaction<'_>, map: &MapRef, key: &str) -> Option<Out> {
    yrs::Map::get(map, txn, key)
}

/// Whether `key` holds a value (`Map::contains_key`).
#[verifier::external_body]
pub(crate) fn map_contains_read(txn: &Transaction<'_>, map: &MapRef, key: &str) -> bool {
    yrs::Map::contains_key(map, txn, key)
}

/// The number of keys (`Map::len`).
#[verifier::external_body]
pub(crate) fn map_len_read(txn: &Transaction<'_>, map: &MapRef) -> u32 {
    yrs::Map::len(map, txn)
}

/// The keys, as owned strings (`Map::keys`, which walks the branch's hash
/// map of entries, so no key comes twice).
#[verifier::external_body]
pub(crate) fn map_keys_read(txn: &Transaction<'_>, map: &MapRef) -> (keys: Vec<String>)
    ensures
        forall|i: int, j: int| 0 <= i < j < keys@.len() ==> keys@[i]@ != keys@[j]@,
{
    yrs::Map::keys(map, txn).map(|key| key.to_string()).collect()
}

/// The map's content as a plain value (`ToJson::to_json`).
#[verifier::external_body]
pub(crate) fn map_content(txn: &Transaction<'_>, map: &MapRef) -> Any {
    map.to_json(txn)
}

/// Sets `key` to a new empty map and returns its handle (`Map::insert`).
#[verifier::external_body]
pub(crate) fn map_insert_map(txn: &mut TransactionMut<'_>, map: &MapRef, key: String) -> (created: MapRef)
{
    yrs::Map::insert(map, txn, key, MapPrelim::default())
}

/// Sets `key` to a new empty array and returns its handle (`Map::insert`);
/// the new array has no entries.
#[verifier::external_body]
pub(crate) fn map_insert_new_array(
    txn: &mut TransactionMut<'_>,
    map: &MapRef,
    key: String,
) -> (created: ArrayRef)
    ensures
        entry_count(final(txn), created) == 0,
{
    yrs::Map::insert(map, txn, key, ArrayPrelim::default())
}

/// Sets `key` to a new empty text and returns its handle (`Map::insert`);
/// the new text has length 0.
#[verifier::external_body]
pub(crate) fn map_insert_text(txn: &mut TransactionMut<'_>, map: &MapRef, key: String) -> (created: TextRef)
    ensures
        unit_count(final(txn), created) == 0,
{
    yrs::Map::insert(map, txn, key, TextPrelim::new(""))
}

/// Sets `key` to `value` (`Map::insert`).
#[verifier::external_body]
pub(crate) fn map_set(txn: &mut TransactionMut<'_>, map: &MapRef, key: String, value: In)
{
    yrs::Map::insert(map, txn, key, value);
}

/// Removes every key (`Map::clear`); no key is then held.
#[verifier::external_body]
pub(crate) fn map_clear(txn: &mut TransactionMut<'_>, map: &MapRef)
    ensures
        forall|k: Seq<char>| !#[trigger] key_held(final(txn), *map, k),
{
    yrs::Map::clear(map, txn)
}

// ---- arrays -----------------------------------------------------------

/// The entry at `index` (`Array::get`); `None` past the end.
#[verifier::external_body]
pub(crate) fn array_get_read(txn: &Transaction<'_>, array: &ArrayRef, index: u32) -> Option<Out> {
    array.get(txn, index)
}

/// The number of entries (`Array::len`).
#[verifier::external_body]
pub(crate) fn array_len_read(txn: &Transaction<'_>, array: &ArrayRef) -> u32 {
    array.len(txn)
}

/// The array's content as a plain value (`ToJson::to_json`).
#[verifier::external_body]
pub(crate) fn array_content(txn: &Transaction<'_>, array: &ArrayRef) -> Any {
    array.to_json(txn)
}

/// Inserts a new empty map at the gap `index` (`Array::insert`), which
/// panics when `index` exceeds the length. (Nothing is claimed of the new
/// length: an item written into a deleted branch is deleted at once.)
#[verifier::external_body]
pub(crate) fn array_insert_map(
    txn: &mut TransactionMut<'_>,
    array: &ArrayRef,
    index: u32,
) -> (created: MapRef)
    requires
        index <= entry_count(old(txn), *array),
{
    array.insert(txn, index, MapPrelim::default())
}

/// Inserts a new empty array at the gap `index` (`Array::insert`), which
/// panics when `index` exceeds the length. (Nothing is claimed of the new
/// length: an item written into a deleted branch is deleted at once.)
#[verifier::external_body]
pub(crate) fn array_insert_array(
    txn: &mut TransactionMut<'_>,
    array: &ArrayRef,
    index: u32,
) -> (created: ArrayRef)
    requires
        index <= entry_count(old(txn), *array),
{
    array.insert(txn, index, ArrayPrelim::default())
}

/// Inserts a new empty text at the gap `index` (`Array::insert`), which
/// panics when `index` exceeds the length. (Nothing is claimed of the new
/// length: an item written into a deleted branch is deleted at once.)
#[verifier::external_body]
pub(crate) fn array_insert_text(
    txn: &mut TransactionMut<'_>,
    array: &ArrayRef,
    index: u32,
) -> (created: TextRef)
    requires
        index <= entry_count(old(txn), *array),
{
    array.insert(txn, index, TextPrelim::new(""))
}

/// Appends `value` (`Array::push_back`).
#[verifier::external_body]
pub(crate) fn array_push(txn: &mut TransactionMut<'_>, array: &ArrayRef, value: In) {
    array.push_back(txn, value);
}

/// Appends a new empty map (`Array::push_back`).
#[verifier::external_body]
pub(crate) fn array_push_map(txn: &mut TransactionMut<'_>, array: &ArrayRef) -> MapRef {
    array.push_back(txn, MapPrelim::default())
}

/// Appends a new empty array (`Array::push_back`).
#[verifier::external_body]
pub(crate) fn array_push_array(txn: &mut TransactionMut<'_>, array: &ArrayRef) -> ArrayRef {
    array.push_back(txn, ArrayPrelim::default())
}

/// Appends a new empty text (`Array::push_back`).
#[verifier::external_body]
pub(crate) fn array_push_text(txn: &mut TransactionMut<'_>, array: &ArrayRef) -> TextRef {
    array.push_back(txn, TextPrelim::new(""))
}

/// Removes `length` entries from `index` on (`Array::remove_range`), which
/// panics unless they all exist; the array then holds that many fewer.
#[verifier::external_body]
pub(crate) fn array_remove_range(
    txn: &mut TransactionMut<'_>,
    array: &ArrayRef,
    index: u32,
    length: u32,
)
    requires
        index + length <= entry_count(old(txn), *array),
    ensures
        entry_count(final(txn), *array) == entry_count(old(txn), *array) - length,
{
    array.remove_range(txn, index, length)
}

// ---- texts ------------------------------------------------------------

/// The text's string (`GetString::get_string`).
#[verifier::external_body]
pub(crate) fn text_string_read(txn: &Transaction<'_>, text: &TextRef) -> String {
    text.get_string(txn)
}

/// The text's length in the document's offset unit (`Text::len`).
#[verifier::external_body]
pub(crate) fn text_len_read(txn: &Transaction<'_>, text: &TextRef) -> u32 {
    text.len(txn)
}

/// The text's length in the document's offset unit (`Text::len`), named
/// [`unit_count`].
#[verifier::external_body]
pub(crate) fn text_len(txn: &TransactionMut<'_>, text: &TextRef) -> (len: u32)
    ensures
        len == unit_count(txn, *text),
{
    text.len(txn)
}

/// Inserts `chunk` at `index` (`Text::insert`), which panics when a
/// non-empty chunk goes past the end.
#[verifier::external_body]
pub(crate) fn text_insert(txn: &mut TransactionMut<'_>, text: &TextRef, index: u32, chunk: &str)
    requires
        index <= unit_count(old(txn), *text),
{
    text.insert(txn, index, chunk)
}

/// Removes `length` units from `index` on (`Text::remove_range`), which
/// panics unless they all exist.
#[verifier::external_body]
pub(crate) fn text_remove_range(
    txn: &mut TransactionMut<'_>,
    text: &TextRef,
    index: u32,
    length: u32,
)
    requires
        index + length <= unit_count(old(txn), *text),
{
    text.remove_range(txn, index, length)
}

} // verus!
