//! A handle on a shared array.

use vstd::prelude::*;

use yrs::{ArrayRef, Doc, In, Out, TransactionMut};

use crate::handle_calls::{
    any_json, array_content, array_insert_array, array_insert_map,
    array_insert_text, array_len_read, array_push, array_push_array, array_push_map,
    array_push_text, array_remove_range, clone_array_ref, doc_handle,
};
use crate::origin::{local_txn, read_txn, txn_document};
use crate::txn_calls::{array_entry, array_get, array_insert, array_len, entry_count, shape_of};
use crate::values::{json_text, out_to_yout, reads_as, YOutValue};
use crate::yrs_map::YrsMap;
use crate::yrs_text::{insertion_answered, removal_answered, YrsText};

verus! {

/// Whether `value` is what reading the entry `found` of a document `doc`
/// answers: nothing when there is no entry, else what the entry reads as.
pub open spec fn entry_read(found: Option<Out>, doc: Doc, value: Option<YOutValue>) -> bool {
    match found {
        None => value is None,
        Some(out) => reads_as(shape_of(out), doc, value),
    }
}

/// A read answers with the entry it found and nothing else: no entry, no
/// value; a plain entry, a plain value; a nested map, array or text, a
/// handle on that very branch of the same document; any other kind,
/// nothing.
pub proof fn law_a_read_answers_its_own_entry(found: Option<Out>, doc: Doc, value: Option<YOutValue>)
    requires
        entry_read(found, doc, value),
    ensures
        found is None ==> value is None,
        value is Some ==> found is Some,
        found is Some && shape_of(found->0) is Value ==> (value matches Some(v) && !(v is YMap)
            && !(v is Array) && !(v is Text)),
        found is Some && shape_of(found->0) is Array ==> (value matches Some(YOutValue::Array(h))
            && h.branch() == shape_of(found->0)->Array_0 && h.document() == doc),
        found is Some && shape_of(found->0) is YMap ==> (value matches Some(YOutValue::YMap(h))
            && h.branch() == shape_of(found->0)->YMap_0 && h.document() == doc),
        found is Some && shape_of(found->0) is Text ==> (value matches Some(YOutValue::Text(h))
            && h.branch() == shape_of(found->0)->Text_0 && h.document() == doc),
{
}

/// A handle on a shared array of a document. Every write runs in its own
/// local-origin transaction.
///
/// Writes addressed outside the array are refused and write nothing: they
/// report `false` (or `None`), read against the length in the writing
/// transaction.
pub struct YrsArray {
    pub(crate) doc: Doc,
    pub(crate) inner: ArrayRef,
}

impl YrsArray {
    /// The document this handle reads and writes.
    pub closed spec fn document(self) -> Doc {
        self.doc
    }

    /// The array branch this handle names.
    pub closed spec fn branch(self) -> ArrayRef {
        self.inner
    }

    /// A handle on `inner`, a branch of `doc`.
    pub(crate) fn from_parts(doc: Doc, inner: ArrayRef) -> (handle: YrsArray)
        ensures
            handle.document() == doc,
            handle.branch() == inner,
    {
        YrsArray { doc, inner }
    }

    /// Another handle on the same array.
    pub fn handle(&self) -> (handle: YrsArray)
        ensures
            handle.document() == self.document(),
            handle.branch() == self.branch(),
    {
        YrsArray::from_parts(doc_handle(&self.doc), clone_array_ref(&self.inner))
    }

    /// Inserts `value` at the gap `index`; `false`, writing nothing, when
    /// `index` exceeds the length. The gap before the first entry always
    /// exists.
    pub fn insert(&self, index: u32, value: In) -> (inserted: bool)
        ensures
            index == 0 ==> inserted,
            exists|txn: TransactionMut<'_>|
                txn_document(&txn) == self.document() && #[trigger] insertion_answered(
                    entry_count(&txn, self.branch()),
                    index,
                    inserted,
                ),
    {
        let mut txn = local_txn(&self.doc);
        let ghost opened = txn;
        if index > array_len(&txn, &self.inner) {
            assert(txn_document(&opened) == self.document() && insertion_answered(
                entry_count(&opened, self.branch()),
                index,
                false,
            ));
            return false;
        }
        array_insert(&mut txn, &self.inner, index, value);
        assert(txn_document(&opened) == self.document() && insertion_answered(
            entry_count(&opened, self.branch()),
            index,
            true,
        ));
        true
    }

    /// Inserts a new empty map at the gap `index` and returns a handle on
    /// it; `None`, writing nothing, when `index` exceeds the length.
    /// The gap before the first entry always exists.
    pub fn insert_map(&self, index: u32) -> (map: Option<YrsMap>)
        ensures
            map matches Some(m) ==> m.document() == self.document(),
            index == 0 ==> map is Some,
            exists|txn: TransactionMut<'_>|
                #[trigger] txn_document(&txn) == self.document() && insertion_answered(
                    entry_count(&txn, self.branch()),
                    index,
                    map is Some,
                ),
    {
        let mut txn = local_txn(&self.doc);
        let ghost opened = txn;
        if index > array_len(&txn, &self.inner) {
            assert(txn_document(&opened) == self.document() && insertion_answered(
                entry_count(&opened, self.branch()),
                index,
                false,
            ));
            return None;
        }
        let inner = array_insert_map(&mut txn, &self.inner, index);
        assert(txn_document(&opened) == self.document() && insertion_answered(
            entry_count(&opened, self.branch()),
            index,
            true,
        ));
        Some(YrsMap::from_parts(doc_handle(&self.doc), inner))
    }

    /// Inserts a new empty array at the gap `index` and returns a handle on
    /// it; `None`, writing nothing, when `index` exceeds the length.
    /// The gap before the first entry always exists.
    pub fn insert_array(&self, index: u32) -> (array: Option<YrsArray>)
        ensures
            array matches Some(a) ==> a.document() == self.document(),
            index == 0 ==> array is Some,
            exists|txn: TransactionMut<'_>|
                #[trigger] txn_document(&txn) == self.document() && insertion_answered(
                    entry_count(&txn, self.branch()),
                    index,
                    array is Some,
                ),
    {
        let mut txn = local_txn(&self.doc);
        let ghost opened = txn;
        if index > array_len(&txn, &self.inner) {
            assert(txn_document(&opened) == self.document() && insertion_answered(
                entry_count(&opened, self.branch()),
                index,
                false,
            ));
            return None;
        }
        let inner = array_insert_array(&mut txn, &self.inner, index);
        assert(txn_document(&opened) == self.document() && insertion_answered(
            entry_count(&opened, self.branch()),
            index,
            true,
        ));
        Some(YrsArray::from_parts(doc_handle(&self.doc), inner))
    }

    /// Inserts a new empty text at the gap `index` and returns a handle on
    /// it; `None`, writing nothing, when `index` exceeds the length.
    /// The gap before the first entry always exists.
    pub fn insert_text(&self, index: u32) -> (text: Option<YrsText>)
        ensures
            text matches Some(t) ==> t.document() == self.document(),
            index == 0 ==> text is Some,
            exists|txn: TransactionMut<'_>|
                #[trigger] txn_document(&txn) == self.document() && insertion_answered(
                    entry_count(&txn, self.branch()),
                    index,
                    text is Some,
                ),
    {
        let mut txn = local_txn(&self.doc);
        let ghost opened = txn;
        if index > array_len(&txn, &self.inner) {
            assert(txn_document(&opened) == self.document() && insertion_answered(
                entry_count(&opened, self.branch()),
                index,
                false,
            ));
            return None;
        }
        let inner = array_insert_text(&mut txn, &self.inner, index);
        assert(txn_document(&opened) == self.document() && insertion_answered(
            entry_count(&opened, self.branch()),
            index,
            true,
        ));
        Some(YrsText::from_parts(doc_handle(&self.doc), inner))
    }

    /// Appends `value`.
    pub fn push(&self, value: In) {
        let mut txn = local_txn(&self.doc);
        array_push(&mut txn, &self.inner, value);
    }

    /// Appends a new empty map and returns a handle on it.
    pub fn push_map(&self) -> (map: YrsMap)
        ensures
            map.document() == self.document(),
    {
        let mut txn = local_txn(&self.doc);
        let inner = array_push_map(&mut txn, &self.inner);
        YrsMap::from_parts(doc_handle(&self.doc), inner)
    }

    /// Appends a new empty array and returns a handle on it.
    pub fn push_array(&self) -> (array: YrsArray)
        ensures
            array.document() == self.document(),
    {
        let mut txn = local_txn(&self.doc);
        let inner = array_push_array(&mut txn, &self.inner);
        YrsArray::from_parts(doc_handle(&self.doc), inner)
    }

    /// Appends a new empty text and returns a handle on it.
    pub fn push_text(&self) -> (text: YrsText)
        ensures
            text.document() == self.document(),
    {
        let mut txn = local_txn(&self.doc);
        let inner = array_push_text(&mut txn, &self.inner);
        YrsText::from_parts(doc_handle(&self.doc), inner)
    }

    /// Removes the entry at `index`; `false`, writing nothing, when there is
    /// no such entry.
    pub fn remove_at(&self, index: u32) -> (removed: bool)
        ensures
            exists|txn: TransactionMut<'_>|
                txn_document(&txn) == self.document() && #[trigger] removal_answered(
                    entry_count(&txn, self.branch()),
                    index,
                    1,
                    removed,
                ),
    {
        self.remove_range(index, 1)
    }

    /// Removes `length` entries from `index` on; `false`, writing nothing,
    /// when they do not all exist. Removing nothing from the start always succeeds.
    pub fn remove_range(&self, index: u32, length: u32) -> (removed: bool)
        ensures
            index == 0 && length == 0 ==> removed,
            exists|txn: TransactionMut<'_>|
                txn_document(&txn) == self.document() && #[trigger] removal_answered(
                    entry_count(&txn, self.branch()),
                    index,
                    length,
                    removed,
                ),
    {
        let mut txn = local_txn(&self.doc);
        let ghost opened = txn;
        let len = array_len(&txn, &self.inner);
        if index as u64 + length as u64 > len as u64 {
            assert(txn_document(&opened) == self.document() && removal_answered(
                entry_count(&opened, self.branch()),
                index,
                length,
                false,
            ));
            return false;
        }
        array_remove_range(&mut txn, &self.inner, index, length);
        assert(txn_document(&opened) == self.document() && removal_answered(
            entry_count(&opened, self.branch()),
            index,
            length,
            true,
        ));
        true
    }

    /// The entry at `index`; `None` past the end or for a kind these
    /// bindings do not read.
    ///
    /// The read runs in a transaction of its own that writes nothing.
    pub fn get(&self, index: u32) -> (value: Option<YOutValue>)
        ensures
            value matches Some(YOutValue::YMap(m)) ==> m.document() == self.document(),
            value matches Some(YOutValue::Array(a)) ==> a.document() == self.document(),
            value matches Some(YOutValue::Text(t)) ==> t.document() == self.document(),
            exists|txn: TransactionMut<'_>|
                txn_document(&txn) == self.document() && #[trigger] entry_read(
                    array_entry(&txn, self.branch(), index),
                    self.document(),
                    value,
                ),
    {
        let txn = local_txn(&self.doc);
        let ghost opened = txn;
        let value = match array_get(&txn, &self.inner, index) {
            Some(out) => out_to_yout(out, &self.doc),
            None => None,
        };
        assert(txn_document(&opened) == self.document() && entry_read(
            array_entry(&opened, self.branch(), index),
            self.document(),
            value,
        ));
        value
    }

    /// The number of entries.
    pub fn length(&self) -> u32 {
        let txn = read_txn(&self.doc);
        array_len_read(&txn, &self.inner)
    }

    /// The array's content as JSON text.
    pub fn json(&self) -> String {
        let txn = read_txn(&self.doc);
        let content = array_content(&txn, &self.inner);
        json_text(any_json(&content))
    }
}

impl Clone for YrsArray {
    /// Another handle on the same array.
    fn clone(&self) -> (handle: Self)
        ensures
            handle.document() == self.document(),
            handle.branch() == self.branch(),
    {
        self.handle()
    }
}

} // verus!
