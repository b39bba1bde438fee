//! The values that go into and come out of a document.

use vstd::prelude::*;

use yrs::{Any, Doc, In, Out};

use crate::handle_calls::{
    any_json, any_shape, bigint_in, bigint_input, bool_in, bytes_in, string_in, bool_input, bytes_input, doc_handle, null_input,
    string_input, AnyShape,
};
use crate::txn_calls::{classify_out, shape_of, OutShape};
use crate::yrs_array::YrsArray;
use crate::yrs_map::YrsMap;
use crate::yrs_text::YrsText;

verus! {

/// A scalar value to write into a document.
///
/// Doubles are not among these: a double is written as the `yrs::In` the
/// caller builds from it.
pub enum YInValue {
    String(String),
    /// Persisted as a lib0 BigInt, so the integer/double distinction survives
    /// persistence and sync (JavaScript peers see a `bigint`).
    Int(i64),
    Bool(bool),
    Null,
    Bytes(Vec<u8>),
}

impl YInValue {
    /// The yrs input this value is written as: a string, a BigInt for an
    /// integer, a boolean, null, or a binary buffer.
    pub fn into_in(self) -> (input: In)
        ensures
            self matches YInValue::String(s) ==> input == string_in(s@),
            self matches YInValue::Int(i) ==> input == bigint_in(i),
            self matches YInValue::Bool(b) ==> input == bool_in(b),
            self matches YInValue::Bytes(b) ==> input == bytes_in(b@),
    {
        match self {
            YInValue::String(s) => string_input(s),
            YInValue::Int(i) => bigint_input(i),
            YInValue::Bool(b) => bool_input(b),
            YInValue::Bytes(b) => bytes_input(b),
            YInValue::Null => null_input(),
        }
    }
}

/// A value read out of a document.
pub enum YOutValue {
    String(String),
    Int(i64),
    /// A double, carried by its IEEE-754 bit pattern.
    Double(u64),
    Bool(bool),
    Null,
    Bytes(Vec<u8>),
    /// A plain array value, serialized as JSON.
    JsonArray(String),
    /// A plain map value, serialized as JSON.
    JsonMap(String),
    YMap(YrsMap),
    Array(YrsArray),
    Text(YrsText),
}

/// The variant of a [`YOutValue`], so a caller can dispatch in one call.
#[derive(Clone, Copy, Debug, PartialEq, Eq, Structural)]
pub enum YOutKind {
    String,
    Int,
    Double,
    Bool,
    Null,
    Bytes,
    JsonArray,
    JsonMap,
    YMap,
    Array,
    Text,
}

pub open spec fn spec_kind(value: YOutValue) -> YOutKind {
    match value {
        YOutValue::String(_) => YOutKind::String,
        YOutValue::Int(_) => YOutKind::Int,
        YOutValue::Double(_) => YOutKind::Double,
        YOutValue::Bool(_) => YOutKind::Bool,
        YOutValue::Null => YOutKind::Null,
        YOutValue::Bytes(_) => YOutKind::Bytes,
        YOutValue::JsonArray(_) => YOutKind::JsonArray,
        YOutValue::JsonMap(_) => YOutKind::JsonMap,
        YOutValue::YMap(_) => YOutKind::YMap,
        YOutValue::Array(_) => YOutKind::Array,
        YOutValue::Text(_) => YOutKind::Text,
    }
}

impl YOutValue {
    /// Which variant this is.
    pub fn kind(&self) -> (kind: YOutKind)
        ensures
            kind == spec_kind(*self),
    {
        match self {
            YOutValue::String(_) => YOutKind::String,
            YOutValue::Int(_) => YOutKind::Int,
            YOutValue::Double(_) => YOutKind::Double,
            YOutValue::Bool(_) => YOutKind::Bool,
            YOutValue::Null => YOutKind::Null,
            YOutValue::Bytes(_) => YOutKind::Bytes,
            YOutValue::JsonArray(_) => YOutKind::JsonArray,
            YOutValue::JsonMap(_) => YOutKind::JsonMap,
            YOutValue::YMap(_) => YOutKind::YMap,
            YOutValue::Array(_) => YOutKind::Array,
            YOutValue::Text(_) => YOutKind::Text,
        }
    }

    /// The string, if this is one.
    pub fn as_string(&self) -> (s: Option<String>)
        ensures
            s == (match *self {
                YOutValue::String(v) => Some(v),
                _ => None,
            }),
    {
        match self {
            YOutValue::String(s) => Some(s.clone()),
            _ => None,
        }
    }

    /// The integer, if this is one.
    pub fn as_int(&self) -> (i: Option<i64>)
        ensures
            i == (match *self {
                YOutValue::Int(v) => Some(v),
                _ => None,
            }),
    {
        match self {
            YOutValue::Int(i) => Some(*i),
            _ => None,
        }
    }

    /// The bit pattern of the double, if this is one.
    pub fn as_double_bits(&self) -> (bits: Option<u64>)
        ensures
            bits == (match *self {
                YOutValue::Double(v) => Some(v),
                _ => None,
            }),
    {
        match self {
            YOutValue::Double(bits) => Some(*bits),
            _ => None,
        }
    }

    /// The boolean, if this is one.
    pub fn as_bool(&self) -> (b: Option<bool>)
        ensures
            b == (match *self {
                YOutValue::Bool(v) => Some(v),
                _ => None,
            }),
    {
        match self {
            YOutValue::Bool(b) => Some(*b),
            _ => None,
        }
    }

    /// Whether this is null.
    pub fn is_null(&self) -> (null: bool)
        ensures
            null == (*self is Null),
    {
        matches!(self, YOutValue::Null)
    }

    /// The bytes, if this is a binary value.
    pub fn as_bytes(&self) -> (bytes: Option<Vec<u8>>)
        ensures
            bytes is Some <==> *self is Bytes,
            bytes is Some ==> bytes->0@ == self->Bytes_0@,
    {
        match self {
            YOutValue::Bytes(b) => Some(b.clone()),
            _ => None,
        }
    }

    /// The JSON text, if this is a plain array.
    pub fn as_json_array(&self) -> (json: Option<String>)
        ensures
            json == (match *self {
                YOutValue::JsonArray(v) => Some(v),
                _ => None,
            }),
    {
        match self {
            YOutValue::JsonArray(s) => Some(s.clone()),
            _ => None,
        }
    }

    /// The JSON text, if this is a plain map.
    pub fn as_json_map(&self) -> (json: Option<String>)
        ensures
            json == (match *self {
                YOutValue::JsonMap(v) => Some(v),
                _ => None,
            }),
    {
        match self {
            YOutValue::JsonMap(s) => Some(s.clone()),
            _ => None,
        }
    }

    /// A handle on the map, if this is one.
    pub fn as_map(&self) -> (map: Option<YrsMap>)
        ensures
            map is Some <==> *self is YMap,
            map is Some ==> map->0.document() == self->YMap_0.document(),
    {
        match self {
            YOutValue::YMap(m) => Some(m.handle()),
            _ => None,
        }
    }

    /// A handle on the array, if this is one.
    pub fn as_array(&self) -> (array: Option<YrsArray>)
        ensures
            array is Some <==> *self is Array,
            array is Some ==> array->0.document() == self->Array_0.document(),
    {
        match self {
            YOutValue::Array(a) => Some(a.handle()),
            _ => None,
        }
    }

    /// A handle on the text, if this is one.
    pub fn as_text(&self) -> (text: Option<YrsText>)
        ensures
            text is Some <==> *self is Text,
            text is Some ==> text->0.document() == self->Text_0.document(),
    {
        match self {
            YOutValue::Text(t) => Some(t.handle()),
            _ => None,
        }
    }
}

/// The value a plain yrs value reads as, given what it is: null for null and
/// undefined, a double for a number, an integer for a BigInt, a string,
/// bytes, or JSON text for a nested array or map.
pub open spec fn spec_yout_of_shape(shape: AnyShape, json: String) -> YOutValue {
    match shape {
        AnyShape::Null => YOutValue::Null,
        AnyShape::Undefined => YOutValue::Null,
        AnyShape::Bool(b) => YOutValue::Bool(b),
        AnyShape::Number(bits) => YOutValue::Double(bits),
        AnyShape::BigInt(i) => YOutValue::Int(i),
        AnyShape::String(s) => YOutValue::String(s),
        AnyShape::Buffer(b) => YOutValue::Bytes(b),
        AnyShape::Array => YOutValue::JsonArray(json),
        AnyShape::YMap => YOutValue::JsonMap(json),
    }
}

/// A plain scalar reads back as the value of its own kind carrying the very
/// payload it holds: a boolean as that boolean, a BigInt as that integer, a
/// number as those bits, a string as that string, a buffer as those bytes;
/// null and undefined both read as null. Whatever JSON text accompanies a
/// scalar is ignored.
pub proof fn law_scalars_read_back_unchanged(shape: AnyShape, json: String)
    ensures
        shape matches AnyShape::Bool(b) ==> spec_yout_of_shape(shape, json) matches YOutValue::Bool(c)
            && c == b,
        shape matches AnyShape::BigInt(i) ==> spec_yout_of_shape(shape, json) matches YOutValue::Int(
            j,
        ) && j == i,
        shape matches AnyShape::Number(bits) ==> spec_yout_of_shape(shape, json) matches YOutValue::Double(
            d,
        ) && d == bits,
        shape matches AnyShape::String(t) ==> spec_yout_of_shape(shape, json) matches YOutValue::String(
            u,
        ) && u == t,
        shape matches AnyShape::Buffer(t) ==> spec_yout_of_shape(shape, json) matches YOutValue::Bytes(
            u,
        ) && u == t,
        shape is Null || shape is Undefined ==> spec_yout_of_shape(shape, json) is Null,
        forall|other: String|
            !(shape is Array) && !(shape is YMap) ==> #[trigger] spec_yout_of_shape(shape, other)
                == spec_yout_of_shape(shape, json),
{
}

/// A boolean read back answers `as_bool` with the boolean itself, and only
/// a boolean answers it at all.
pub proof fn law_boolean_round_trip(b: bool, json: String)
    ensures
        (match spec_yout_of_shape(AnyShape::Bool(b), json) {
            YOutValue::Bool(v) => Some(v),
            _ => None::<bool>,
        }) == Some(b),
{
}

/// The value a plain yrs value reads as, given what it is and, for a nested
/// array or map, its JSON text.
pub fn yout_of_shape(shape: AnyShape, json: String) -> (value: YOutValue)
    ensures
        value == spec_yout_of_shape(shape, json),
{
    match shape {
        AnyShape::Null => YOutValue::Null,
        AnyShape::Undefined => YOutValue::Null,
        AnyShape::Bool(b) => YOutValue::Bool(b),
        AnyShape::Number(bits) => YOutValue::Double(bits),
        AnyShape::BigInt(i) => YOutValue::Int(i),
        AnyShape::String(s) => YOutValue::String(s),
        AnyShape::Buffer(b) => YOutValue::Bytes(b),
        AnyShape::Array => YOutValue::JsonArray(json),
        AnyShape::YMap => YOutValue::JsonMap(json),
    }
}

/// The text a JSON rendering reads as: the JSON itself, or the
/// serializer's error as `<json error: ...>`.
pub open spec fn spec_json_text(rendered: Result<String, String>) -> Seq<char> {
    match rendered {
        Ok(json) => json@,
        Err(error) => "<json error: "@ + error@ + ">"@,
    }
}

/// Turns a JSON rendering into the text a caller reads.
pub fn json_text(rendered: Result<String, String>) -> (text: String)
    ensures
        text@ == spec_json_text(rendered),
{
    match rendered {
        Ok(json) => json,
        Err(error) => {
            let mut text = String::new();
            text.append("<json error: ");
            text.append(error.as_str());
            text.append(">");
            proof {
                reveal_strlit("<json error: ");
                reveal_strlit(">");
            }
            text
        },
    }
}

/// The value a plain yrs value reads as. Numbers and BigInts keep their
/// kinds: a number reads as a double and a BigInt as an integer.
pub fn any_to_yout(any: &Any) -> (value: YOutValue)
    ensures
        !(value is YMap) && !(value is Array) && !(value is Text),
{
    let shape = any_shape(any);
    let json = match shape {
        AnyShape::Array => json_text(any_json(any)),
        AnyShape::YMap => json_text(any_json(any)),
        _ => String::new(),
    };
    yout_of_shape(shape, json)
}

/// Whether `value` is what a read that found `shape` in `doc` reads as: some
/// plain value for a plain value, a handle on that very map, array or text
/// of `doc` for a branch of those kinds, and nothing for any other kind.
pub open spec fn reads_as(shape: OutShape, doc: Doc, value: Option<YOutValue>) -> bool {
    match shape {
        OutShape::Value(_) => value matches Some(v) && !(v is YMap) && !(v is Array) && !(v is Text),
        OutShape::YMap(m) => value matches Some(YOutValue::YMap(h)) && h.document() == doc
            && h.branch() == m,
        OutShape::Array(a) => value matches Some(YOutValue::Array(h)) && h.document() == doc
            && h.branch() == a,
        OutShape::Text(t) => value matches Some(YOutValue::Text(h)) && h.document() == doc
            && h.branch() == t,
        _ => value is None,
    }
}

/// The value an `Out` read from `doc` reads as: a plain value, or a handle
/// on a nested map, array or text of the same document. Other kinds (xml,
/// subdocuments, undeclared branches) read as `None`.
pub fn out_to_yout(out: Out, doc: &Doc) -> (value: Option<YOutValue>)
    ensures
        value matches Some(YOutValue::YMap(m)) ==> m.document() == *doc,
        value matches Some(YOutValue::Array(a)) ==> a.document() == *doc,
        value matches Some(YOutValue::Text(t)) ==> t.document() == *doc,
        reads_as(shape_of(out), *doc, value),
{
    yout_of_out_shape(classify_out(out), doc)
}

/// The value a read reads as, given what the read found in `doc`: a plain
/// value, or a handle on the nested map, array or text found, in the same
/// document. Other kinds (xml, subdocuments, undeclared branches) read as
/// `None`.
pub fn yout_of_out_shape(shape: OutShape, doc: &Doc) -> (value: Option<YOutValue>)
    ensures
        shape is Value ==> (value matches Some(v) && !(v is YMap) && !(v is Array) && !(v is Text)),
        shape matches OutShape::YMap(m) ==> (value matches Some(YOutValue::YMap(h))
            && h.document() == *doc && h.branch() == m),
        shape matches OutShape::Array(a) ==> (value matches Some(YOutValue::Array(h))
            && h.document() == *doc && h.branch() == a),
        shape matches OutShape::Text(t) ==> (value matches Some(YOutValue::Text(h))
            && h.document() == *doc && h.branch() == t),
        !(shape is Value || shape is YMap || shape is Array || shape is Text) ==> value is None,
{
    match shape {
        OutShape::Value(any) => Some(any_to_yout(&any)),
        OutShape::YMap(map) => Some(YOutValue::YMap(YrsMap::from_parts(doc_handle(doc), map))),
        OutShape::Array(array) => Some(
            YOutValue::Array(YrsArray::from_parts(doc_handle(doc), array)),
        ),
        OutShape::Text(text) => Some(YOutValue::Text(YrsText::from_parts(doc_handle(doc), text))),
        _ => None,
    }
}

} // verus!
