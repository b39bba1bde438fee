//! Calls into `yrs` that read or write a document inside an open write
//! transaction.
//!
//! What these calls return depends on the document state the transaction
//! sees, which no value here describes: each read is named as a function of
//! the transaction and its arguments, and what a write leaves is stated only
//! where yrs's source shows it for every document. Every write takes the
//! transaction mutably and every read takes it shared, so verified callers
//! can tell which paths wrote nothing.

use vstd::prelude::*;

use yrs::types::text::YChange;
use yrs::types::xml::{Xml, XmlFragment, XmlOut};
use yrs::types::AsPrelim;
use yrs::{Any, Array, ArrayPrelim, ArrayRef, Doc, In, MapRef, Out, ReadTxn, Text, TextRef, TransactionMut, XmlElementRef, XmlFragmentRef, XmlTextRef};

verus! {

/// The number of entries the array branch holds in the document state the
/// write transaction `txn` sees (`Array::len`, the branch's block length).
/// The transaction holds the document store exclusively, so nothing but
/// writes through it changes this.
pub uninterp spec fn entry_count(txn: &TransactionMut<'_>, array: ArrayRef) -> u32;

/// Whether the map branch holds a value under `key` in the document state
/// the write transaction `txn` sees (`Map::get` answers `Some`).
pub uninterp spec fn key_held(txn: &TransactionMut<'_>, map: MapRef, key: Seq<char>) -> bool;

/// The length, in the document's offset unit, of the text branch in the
/// document state the write transaction `txn` sees (`Text::len`).
pub uninterp spec fn unit_count(txn: &TransactionMut<'_>, text: TextRef) -> u32;

/// The root branch named `name` in the document `txn` writes, if it has one
/// (`ReadTxn::get`).
pub uninterp spec fn root_entry(txn: &TransactionMut<'_>, name: Seq<char>) -> Option<Out>;

/// The value under `key` of the map branch, in the state `txn` sees
/// (`Map::get`).
pub uninterp spec fn map_entry(txn: &TransactionMut<'_>, map: MapRef, key: Seq<char>) -> Option<Out>;

/// The entry at `index` of the array branch, in the state `txn` sees
/// (`Array::get`).
pub uninterp spec fn array_entry(txn: &TransactionMut<'_>, array: ArrayRef, index: u32) -> Option<Out>;

/// Whether the branch an array handle names is deleted, in the state `txn`
/// sees (`Branch::is_deleted`: its item is deleted; a root never is).
pub uninterp spec fn array_deleted(txn: &TransactionMut<'_>, array: ArrayRef) -> bool;

/// Whether the branch a map handle names is deleted, in the state `txn`
/// sees (`Branch::is_deleted`).
pub uninterp spec fn map_deleted(txn: &TransactionMut<'_>, map: MapRef) -> bool;

/// Whether a value read from the document, should it be a map or an array,
/// names a branch that is not deleted.
pub open spec fn holds_live(txn: &TransactionMut<'_>, out: Out) -> bool {
    match shape_of(out) {
        OutShape::Array(array) => !array_deleted(txn, array),
        OutShape::YMap(map) => !map_deleted(txn, map),
        _ => true,
    }
}

/// The identifier of the branch an array handle names, as its equality
/// compares it (`BranchPtr::id`).
pub uninterp spec fn array_branch(array: ArrayRef) -> int;

/// The identifier of the branch a map handle names, as its equality
/// compares it (`BranchPtr::id`).
pub uninterp spec fn map_branch(map: MapRef) -> int;

/// What an `Out` read from a document is, with its handle where it has one.
pub enum OutShape {
    /// A plain value.
    Value(Any),
    Text(TextRef),
    Array(ArrayRef),
    YMap(MapRef),
    XmlElement(XmlElementRef),
    XmlFragment(XmlFragmentRef),
    XmlText(XmlTextRef),
    Subdocument(Doc),
    /// A branch whose kind was never declared in this document.
    Undeclared,
}

/// What `out` is, as [`classify_out`] tells it: a function of the value
/// alone.
pub uninterp spec fn shape_of(out: Out) -> OutShape;

/// How deep the values a plain value nests go (`Any::Array` elements and
/// `Any::Map` values, all levels): 0 for a scalar, else one more than the
/// deepest of them. Rendering the value as text descends this far.
pub uninterp spec fn plain_nesting(any: Any) -> nat;

/// How many plain values a plain value nests, all levels.
pub uninterp spec fn plain_count(any: Any) -> nat;

/// How deep the values a container descends into go, in the document state
/// `txn` sees: the deepest walk among them (a deep copy with
/// `AsPrelim::as_prelim` takes a plain value by pointer; with `rendered`,
/// as when `to_string` renders an xml attribute, it walks plain values too).
pub uninterp spec fn branch_nesting(txn: &TransactionMut<'_>, out: Out, rendered: bool) -> nat;

/// How many values a walk through a container visits below it, all levels.
pub uninterp spec fn branch_count(txn: &TransactionMut<'_>, out: Out, rendered: bool) -> nat;

/// Whether a walk through a container meets a branch of undeclared kind.
pub uninterp spec fn reaches_undeclared(txn: &TransactionMut<'_>, out: Out) -> bool;

/// The deepest walk among an xml node's attribute values, which a deep copy
/// renders with `to_string`.
pub uninterp spec fn attribute_nesting(txn: &TransactionMut<'_>, owner: Out) -> nat;

/// How many values a rendering walk through an xml node's attribute values
/// visits, all levels.
pub uninterp spec fn attribute_count(txn: &TransactionMut<'_>, owner: Out) -> nat;

/// Whether a walk through an xml node's attribute values meets a branch of
/// undeclared kind.
pub uninterp spec fn attribute_undeclared(txn: &TransactionMut<'_>, owner: Out) -> bool;

/// How many levels a walk through `out` descends, `out` included: one for a
/// plain value taken by pointer or a subdocument taken by reference, one
/// more than its nesting for a rendered plain value or a container.
pub open spec fn walk_depth(txn: &TransactionMut<'_>, out: Out, rendered: bool) -> nat {
    match shape_of(out) {
        OutShape::Value(any) => if rendered {
            1 + plain_nesting(any)
        } else {
            1
        },
        OutShape::Subdocument(_) => 1,
        OutShape::Undeclared => 1,
        _ => 1 + branch_nesting(txn, out, rendered),
    }
}

/// How many values a walk through `out` visits, `out` included.
pub open spec fn walk_size(txn: &TransactionMut<'_>, out: Out, rendered: bool) -> nat {
    match shape_of(out) {
        OutShape::Value(any) => if rendered {
            1 + plain_count(any)
        } else {
            1
        },
        OutShape::Subdocument(_) => 1,
        OutShape::Undeclared => 1,
        _ => 1 + branch_count(txn, out, rendered),
    }
}

/// Whether a walk through `out` meets no branch of undeclared kind.
pub open spec fn undeclared_free(txn: &TransactionMut<'_>, out: Out) -> bool {
    match shape_of(out) {
        OutShape::Undeclared => false,
        OutShape::Value(_) => true,
        OutShape::Subdocument(_) => true,
        _ => !reaches_undeclared(txn, out),
    }
}

/// Whether a deep copy of `out` stays within `limit` levels and meets no
/// branch of undeclared kind.
pub open spec fn copyable(txn: &TransactionMut<'_>, out: Out, limit: nat) -> bool {
    walk_depth(txn, out, false) <= limit && undeclared_free(txn, out)
}

/// The deepest walk among `values`; 0 for none.
pub open spec fn deepest(txn: &TransactionMut<'_>, values: Seq<Out>, rendered: bool) -> nat
    decreases values.len(),
{
    if values.len() == 0 {
        0
    } else {
        let rest = deepest(txn, values.drop_last(), rendered);
        let last = walk_depth(txn, values.last(), rendered);
        if last > rest {
            last
        } else {
            rest
        }
    }
}

/// How many values walks through all of `values` visit.
pub open spec fn total_size(txn: &TransactionMut<'_>, values: Seq<Out>, rendered: bool) -> nat
    decreases values.len(),
{
    if values.len() == 0 {
        0
    } else {
        total_size(txn, values.drop_last(), rendered) + walk_size(txn, values.last(), rendered)
    }
}

/// Whether a walk through some of `values` meets a branch of undeclared
/// kind.
pub open spec fn any_undeclared(txn: &TransactionMut<'_>, values: Seq<Out>) -> bool {
    exists|i: int| 0 <= i < values.len() && !undeclared_free(txn, #[trigger] values[i])
}

/// The deepest rendering among plain values; 0 for none.
pub open spec fn deepest_plain(values: Seq<Out>) -> nat
    decreases values.len(),
{
    if values.len() == 0 {
        0
    } else {
        let rest = deepest_plain(values.drop_last());
        let last = 1 + plain_nesting(shape_of(values.last())->Value_0);
        if last > rest {
            last
        } else {
            rest
        }
    }
}

/// How many plain values renderings of all of `values` visit.
pub open spec fn plain_total(values: Seq<Out>) -> nat
    decreases values.len(),
{
    if values.len() == 0 {
        0
    } else {
        plain_total(values.drop_last()) + 1 + plain_count(shape_of(values.last())->Value_0)
    }
}

/// The plain values nested in a plain value (`Any::Array` elements,
/// `Any::Map` values; none in a scalar), each as an `Out`: what rendering
/// the value descends into.
#[verifier::external_body]
pub(crate) fn plain_values(any: &Any) -> (values: Vec<Out>)
    ensures
        forall|i: int| 0 <= i < values@.len() ==> (#[trigger] shape_of(values@[i])) is Value,
        plain_nesting(*any) == deepest_plain(values@),
        plain_count(*any) == plain_total(values@),
{
    match any {
        Any::Array(items) => items.iter().map(|item| Out::Any(item.clone())).collect(),
        Any::Map(entries) => entries.values().map(|item| Out::Any(item.clone())).collect(),
        _ => Vec::new(),
    }
}

/// Tells the variants of `yrs::Out` apart, one arm per variant, moving the
/// handle each carries (the pointer of an undeclared branch is dropped),
/// named [`shape_of`].
#[verifier::external_body]
pub(crate) fn classify_out(out: Out) -> (shape: OutShape)
    ensures
        shape == shape_of(out),
{
    match out {
        Out::Any(any) => OutShape::Value(any),
        Out::YText(text) => OutShape::Text(text),
        Out::YArray(array) => OutShape::Array(array),
        Out::YMap(map) => OutShape::YMap(map),
        Out::YXmlElement(element) => OutShape::XmlElement(element),
        Out::YXmlFragment(fragment) => OutShape::XmlFragment(fragment),
        Out::YXmlText(text) => OutShape::XmlText(text),
        Out::YDoc(doc) => OutShape::Subdocument(doc),
        Out::UndefinedRef(_) => OutShape::Undeclared,
    }
}

/// A copy of an `Out` (`<Out as Clone>::clone`; shared handles and shared
/// plain values are cloned by pointer, so the copy is the same value).
#[verifier::external_body]
pub(crate) fn clone_out(out: &Out) -> (copy: Out)
    ensures
        copy == *out,
{
    out.clone()
}

/// The root branch named `name` (`ReadTxn::get`), if the document has one,
/// named [`root_entry`]. A root branch has no item, so it is never deleted.
#[verifier::external_body]
pub(crate) fn root_get(txn: &TransactionMut<'_>, name: &str) -> (root: Option<Out>)
    ensures
        root == root_entry(txn, name@),
        root matches Some(out) ==> holds_live(txn, out),
{
    txn.get(name)
}

/// The value under `key` (`Map::get`), present exactly when the key is
/// held. It reads only an item that is not deleted, so a branch it returns
/// is not deleted.
#[verifier::external_body]
pub(crate) fn map_get(txn: &TransactionMut<'_>, map: &MapRef, key: &str) -> (value: Option<Out>)
    ensures
        value is Some <==> key_held(txn, *map, key@),
        value == map_entry(txn, *map, key@),
        value matches Some(out) ==> holds_live(txn, out),
{
    yrs::Map::get(map, txn, key)
}

/// The value at `index` (`Array::get`); `None` past the end. Named
/// [`array_entry`]. It skips deleted items, so a branch it returns is not
/// deleted.
#[verifier::external_body]
pub(crate) fn array_get(txn: &TransactionMut<'_>, array: &ArrayRef, index: u32) -> (value: Option<Out>)
    ensures
        value == array_entry(txn, *array, index),
        value matches Some(out) ==> holds_live(txn, out),
{
    array.get(txn, index)
}

/// The number of entries (`Array::len`), named [`entry_count`].
#[verifier::external_body]
pub(crate) fn array_len(txn: &TransactionMut<'_>, array: &ArrayRef) -> (len: u32)
    ensures
        len == entry_count(txn, *array),
{
    array.len(txn)
}

/// Whether two handles name one array branch (`<ArrayRef as PartialEq>::eq`,
/// which compares branch identifiers, named [`array_branch`]).
#[verifier::external_body]
pub(crate) fn same_array(a: &ArrayRef, b: &ArrayRef) -> (same: bool)
    ensures
        same == (array_branch(*a) == array_branch(*b)),
{
    a == b
}

/// Whether two handles name one map branch (`<MapRef as PartialEq>::eq`,
/// which compares branch identifiers, named [`map_branch`]).
#[verifier::external_body]
pub(crate) fn same_map(a: &MapRef, b: &MapRef) -> (same: bool)
    ensures
        same == (map_branch(*a) == map_branch(*b)),
{
    a == b
}

/// A detached deep copy of `out` (`AsPrelim::as_prelim`). It recurses once
/// per level it copies or renders, so a deep enough value exhausts the
/// stack: the value must nest no deeper than the library's transfer bound.
/// A branch of undeclared kind it types by inspecting raw block state, with
/// a recursion no measure here describes: the value must hold none.
#[verifier::external_body]
pub(crate) fn deep_copy(txn: &TransactionMut<'_>, out: &Out) -> In
    requires
        copyable(txn, *out, 128),
{
    out.as_prelim(txn)
}

/// The values a text's delta embeds (`Text::diff`, keeping each chunk's
/// `insert`).
/// A deep copy of the container descends into exactly these values (and,
/// for xml, renders its attribute values), which fixes its walk measures.
#[verifier::external_body]
pub(crate) fn text_embeds(txn: &TransactionMut<'_>, text: &TextRef) -> (values: Vec<Out>)
    ensures
        forall|o: Out, rendered: bool|
            #![trigger shape_of(o), branch_nesting(txn, o, rendered)]
            #![trigger shape_of(o), branch_count(txn, o, rendered)]
            shape_of(o) == OutShape::Text(*text) ==> branch_nesting(txn, o, rendered) == deepest(txn, values@, rendered)
                && branch_count(txn, o, rendered) == total_size(txn, values@, rendered),
        forall|o: Out|
            #[trigger] shape_of(o) == OutShape::Text(*text) ==> reaches_undeclared(txn, o) == any_undeclared(txn, values@),
{
    text.diff(txn, YChange::identity).into_iter().map(|diff| diff.insert).collect()
}

/// The values an xml text's delta embeds, each after the formatting values
/// of its chunk (`Text::diff`, keeping each chunk's `attributes` values and
/// `insert`). A deep copy descends into the embedded values, and rendering
/// the xml text as a string writes the formatting values too.
/// A deep copy of the container descends into exactly these values (and,
/// for xml, renders its attribute values), which fixes its walk measures.
#[verifier::external_body]
pub(crate) fn xml_text_embeds(txn: &TransactionMut<'_>, text: &XmlTextRef) -> (values: Vec<Out>)
    ensures
        forall|o: Out, rendered: bool|
            #![trigger shape_of(o), branch_nesting(txn, o, rendered)]
            #![trigger shape_of(o), branch_count(txn, o, rendered)]
            shape_of(o) == OutShape::XmlText(*text) ==> branch_nesting(txn, o, rendered) == (if deepest(txn, values@, rendered) > attribute_nesting(txn, o) {
                deepest(txn, values@, rendered)
            } else {
                attribute_nesting(txn, o)
            }) && branch_count(txn, o, rendered) == total_size(txn, values@, rendered) + attribute_count(txn, o),
        forall|o: Out|
            #[trigger] shape_of(o) == OutShape::XmlText(*text) ==> reaches_undeclared(txn, o) == (any_undeclared(txn, values@) || attribute_undeclared(txn, o)),
{
    text.diff(txn, YChange::identity)
        .into_iter()
        .flat_map(|diff| {
            let formats: Vec<Out> =
                diff.attributes.iter().flat_map(|attrs| attrs.values()).map(|v| Out::Any(v.clone())).collect();
            formats.into_iter().chain(std::iter::once(diff.insert))
        })
        .collect()
}

/// The attribute values of an xml text (`Xml::attributes`).
/// A deep copy renders exactly these values, which fixes the attributes'
/// walk measures.
#[verifier::external_body]
pub(crate) fn xml_text_attribute_values(txn: &TransactionMut<'_>, text: &XmlTextRef) -> (values: Vec<Out>)
    ensures
        forall|o: Out|
            #[trigger] shape_of(o) == OutShape::XmlText(*text) ==> attribute_nesting(txn, o) == deepest(txn, values@, true)
                && attribute_count(txn, o) == total_size(txn, values@, true)
                && attribute_undeclared(txn, o) == any_undeclared(txn, values@),
{
    text.attributes(txn).map(|(_, value)| value).collect()
}

/// The values of a map (`Map::iter`).
/// A deep copy of the container descends into exactly these values (and,
/// for xml, renders its attribute values), which fixes its walk measures.
#[verifier::external_body]
pub(crate) fn map_values(txn: &TransactionMut<'_>, map: &MapRef) -> (values: Vec<Out>)
    ensures
        forall|o: Out, rendered: bool|
            #![trigger shape_of(o), branch_nesting(txn, o, rendered)]
            #![trigger shape_of(o), branch_count(txn, o, rendered)]
            shape_of(o) == OutShape::YMap(*map) ==> branch_nesting(txn, o, rendered) == deepest(txn, values@, rendered)
                && branch_count(txn, o, rendered) == total_size(txn, values@, rendered),
        forall|o: Out|
            #[trigger] shape_of(o) == OutShape::YMap(*map) ==> reaches_undeclared(txn, o) == any_undeclared(txn, values@),
{
    yrs::Map::iter(map, txn).map(|(_, value)| value).collect()
}

/// The entries of an array (`Array::iter`).
/// A deep copy of the container descends into exactly these values (and,
/// for xml, renders its attribute values), which fixes its walk measures.
#[verifier::external_body]
pub(crate) fn array_values(txn: &TransactionMut<'_>, array: &ArrayRef) -> (values: Vec<Out>)
    ensures
        forall|o: Out, rendered: bool|
            #![trigger shape_of(o), branch_nesting(txn, o, rendered)]
            #![trigger shape_of(o), branch_count(txn, o, rendered)]
            shape_of(o) == OutShape::Array(*array) ==> branch_nesting(txn, o, rendered) == deepest(txn, values@, rendered)
                && branch_count(txn, o, rendered) == total_size(txn, values@, rendered),
        forall|o: Out|
            #[trigger] shape_of(o) == OutShape::Array(*array) ==> reaches_undeclared(txn, o) == any_undeclared(txn, values@),
{
    array.iter(txn).collect()
}

/// The children of an xml element (`XmlFragment::children`), each widened
/// back to the `Out` variant of its kind.
/// A deep copy of the container descends into exactly these values (and,
/// for xml, renders its attribute values), which fixes its walk measures.
#[verifier::external_body]
pub(crate) fn xml_element_children(txn: &TransactionMut<'_>, element: &XmlElementRef) -> (values: Vec<Out>)
    ensures
        forall|o: Out, rendered: bool|
            #![trigger shape_of(o), branch_nesting(txn, o, rendered)]
            #![trigger shape_of(o), branch_count(txn, o, rendered)]
            shape_of(o) == OutShape::XmlElement(*element) ==> branch_nesting(txn, o, rendered) == (if deepest(txn, values@, rendered) > attribute_nesting(txn, o) {
                deepest(txn, values@, rendered)
            } else {
                attribute_nesting(txn, o)
            }) && branch_count(txn, o, rendered) == total_size(txn, values@, rendered) + attribute_count(txn, o),
        forall|o: Out|
            #[trigger] shape_of(o) == OutShape::XmlElement(*element) ==> reaches_undeclared(txn, o) == (any_undeclared(txn, values@) || attribute_undeclared(txn, o)),
{
    element.children(txn).map(|child| match child {
        XmlOut::Element(e) => Out::YXmlElement(e),
        XmlOut::Fragment(f) => Out::YXmlFragment(f),
        XmlOut::Text(t) => Out::YXmlText(t),
    }).collect()
}

/// The attribute values of an xml element (`Xml::attributes`).
/// A deep copy renders exactly these values, which fixes the attributes'
/// walk measures.
#[verifier::external_body]
pub(crate) fn xml_element_attribute_values(txn: &TransactionMut<'_>, element: &XmlElementRef) -> (values: Vec<Out>)
    ensures
        forall|o: Out|
            #[trigger] shape_of(o) == OutShape::XmlElement(*element) ==> attribute_nesting(txn, o) == deepest(txn, values@, true)
                && attribute_count(txn, o) == total_size(txn, values@, true)
                && attribute_undeclared(txn, o) == any_undeclared(txn, values@),
{
    element.attributes(txn).map(|(_, value)| value).collect()
}

/// The children of an xml fragment (`XmlFragment::children`), each widened
/// back to the `Out` variant of its kind.
/// A deep copy of the container descends into exactly these values (and,
/// for xml, renders its attribute values), which fixes its walk measures.
#[verifier::external_body]
pub(crate) fn xml_fragment_children(txn: &TransactionMut<'_>, fragment: &XmlFragmentRef) -> (values: Vec<Out>)
    ensures
        forall|o: Out, rendered: bool|
            #![trigger shape_of(o), branch_nesting(txn, o, rendered)]
            #![trigger shape_of(o), branch_count(txn, o, rendered)]
            shape_of(o) == OutShape::XmlFragment(*fragment) ==> branch_nesting(txn, o, rendered) == deepest(txn, values@, rendered)
                && branch_count(txn, o, rendered) == total_size(txn, values@, rendered),
        forall|o: Out|
            #[trigger] shape_of(o) == OutShape::XmlFragment(*fragment) ==> reaches_undeclared(txn, o) == any_undeclared(txn, values@),
{
    fragment.children(txn).map(|child| match child {
        XmlOut::Element(e) => Out::YXmlElement(e),
        XmlOut::Fragment(f) => Out::YXmlFragment(f),
        XmlOut::Text(t) => Out::YXmlText(t),
    }).collect()
}

/// Moves the entry at `from` to the gap `to` within one array
/// (`Array::move_to`), which panics unless `from` is an entry and `to` a gap
/// of the array. A move integrates a move marker, which is not counted, and
/// deletes nothing but move markers, so the array keeps its length.
#[verifier::external_body]
pub(crate) fn array_move(txn: &mut TransactionMut<'_>, array: &ArrayRef, from: u32, to: u32)
    requires
        from < entry_count(old(txn), *array),
        to <= entry_count(old(txn), *array),
    ensures
        entry_count(final(txn), *array) == entry_count(old(txn), *array),
{
    array.move_to(txn, from, to)
}

/// Removes the entry at `index` (`Array::remove`), which panics unless
/// `index` is an entry; the array then holds one entry fewer.
#[verifier::external_body]
pub(crate) fn array_remove(txn: &mut TransactionMut<'_>, array: &ArrayRef, index: u32)
    requires
        index < entry_count(old(txn), *array),
    ensures
        entry_count(final(txn), *array) == entry_count(old(txn), *array) - 1,
{
    array.remove(txn, index)
}

/// Inserts `value` as one entry at the gap `index` (`Array::insert`), which
/// panics when `index` exceeds the length. An insertion removes no map key
/// anywhere. Into a branch that is not deleted the entry is integrated, so
/// the array holds one entry more; an item written into a deleted branch is
/// deleted at once, and nothing is claimed of that case.
#[verifier::external_body]
pub(crate) fn array_insert(txn: &mut TransactionMut<'_>, array: &ArrayRef, index: u32, value: In)
    requires
        index <= entry_count(old(txn), *array),
    ensures
        forall|m: MapRef, k: Seq<char>|
            #[trigger] key_held(final(txn), m, k) || !key_held(old(txn), m, k),
        !array_deleted(old(txn), *array) ==> entry_count(final(txn), *array) == entry_count(
            old(txn),
            *array,
        ) + 1,
{
    array.insert(txn, index, value);
}

/// Removes the value under `key` (`Map::remove`); the key is then not held.
#[verifier::external_body]
pub(crate) fn map_remove(txn: &mut TransactionMut<'_>, map: &MapRef, key: &str)
    ensures
        !key_held(final(txn), *map, key@),
{
    yrs::Map::remove(map, txn, key);
}

/// Sets `key` to `value` (`Map::insert`). In a branch that is not deleted
/// the new item is the key's last, so the key is then held; an item written
/// into a deleted branch is deleted at once, and nothing is claimed of that
/// case.
#[verifier::external_body]
pub(crate) fn map_insert(txn: &mut TransactionMut<'_>, map: &MapRef, key: &str, value: In)
    ensures
        !map_deleted(old(txn), *map) ==> key_held(final(txn), *map, key@),
{
    yrs::Map::insert(map, txn, key, value);
}

/// Sets `key` to a new empty array and returns its handle (`Map::insert`
/// with `ArrayPrelim::default()`); the new array has no entries. In a map
/// branch that is not deleted the key is then held, and the new array is
/// not deleted.
#[verifier::external_body]
pub(crate) fn map_insert_array(txn: &mut TransactionMut<'_>, map: &MapRef, key: &str) -> (created: ArrayRef)
    ensures
        entry_count(final(txn), created) == 0,
        !map_deleted(old(txn), *map) ==> key_held(final(txn), *map, key@) && !array_deleted(
            final(txn),
            created,
        ),
{
    yrs::Map::insert(map, txn, key, ArrayPrelim::default())
}

} // verus!
