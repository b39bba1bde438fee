//! A handle on a shared map.

use vstd::prelude::*;

use yrs::{Doc, In, MapRef};

use crate::handle_calls::{
    any_json, doc_handle, map_clear, map_contains_read, map_content, map_get_read,
    map_insert_map, map_insert_new_array, map_insert_text, map_keys_read, map_len_read, map_set,
    clone_map_ref,
};
use crate::origin::{local_txn, read_txn};
use crate::txn_calls::map_remove;
use crate::values::{json_text, out_to_yout, YOutValue};
use crate::yrs_array::YrsArray;
use crate::yrs_text::YrsText;

verus! {

/// A handle on a shared map of a document. Every write runs in its own
/// local-origin transaction.
pub struct YrsMap {
    pub(crate) doc: Doc,
    pub(crate) inner: MapRef,
}

impl YrsMap {
    /// The document this handle reads and writes.
    pub closed spec fn document(self) -> Doc {
        self.doc
    }

    /// The map branch this handle names.
    pub closed spec fn branch(self) -> MapRef {
        self.inner
    }

    /// A handle on `inner`, a branch of `doc`.
    pub(crate) fn from_parts(doc: Doc, inner: MapRef) -> (handle: YrsMap)
        ensures
            handle.document() == doc,
            handle.branch() == inner,
    {
        YrsMap { doc, inner }
    }

    /// Another handle on the same map.
    pub fn handle(&self) -> (handle: YrsMap)
        ensures
            handle.document() == self.document(),
            handle.branch() == self.branch(),
    {
        YrsMap::from_parts(doc_handle(&self.doc), clone_map_ref(&self.inner))
    }

    /// Sets `key` to `value`.
    pub fn set(&self, key: String, value: In) {
        let mut txn = local_txn(&self.doc);
        map_set(&mut txn, &self.inner, key, value);
    }

    /// Sets `key` to a new empty map and returns a handle on it.
    pub fn set_map(&self, key: String) -> (map: YrsMap)
        ensures
            map.document() == self.document(),
    {
        let mut txn = local_txn(&self.doc);
        let inner = map_insert_map(&mut txn, &self.inner, key);
        YrsMap::from_parts(doc_handle(&self.doc), inner)
    }

    /// Sets `key` to a new empty array and returns a handle on it.
    pub fn set_array(&self, key: String) -> (array: YrsArray)
        ensures
            array.document() == self.document(),
    {
        let mut txn = local_txn(&self.doc);
        let inner = map_insert_new_array(&mut txn, &self.inner, key);
        YrsArray::from_parts(doc_handle(&self.doc), inner)
    }

    /// Sets `key` to a new empty text and returns a handle on it.
    pub fn set_text(&self, key: String) -> (text: YrsText)
        ensures
            text.document() == self.document(),
    {
        let mut txn = local_txn(&self.doc);
        let inner = map_insert_text(&mut txn, &self.inner, key);
        YrsText::from_parts(doc_handle(&self.doc), inner)
    }

    /// Removes `key`, if present.
    pub fn delete(&self, key: String) {
        let mut txn = local_txn(&self.doc);
        map_remove(&mut txn, &self.inner, key.as_str());
    }

    /// Removes every key.
    pub fn clear(&self) {
        let mut txn = local_txn(&self.doc);
        map_clear(&mut txn, &self.inner);
    }

    /// The value under `key`; `None` when absent or of a kind these bindings
    /// do not read (xml, subdocuments).
    pub fn get(&self, key: String) -> (value: Option<YOutValue>)
        ensures
            value matches Some(YOutValue::YMap(m)) ==> m.document() == self.document(),
            value matches Some(YOutValue::Array(a)) ==> a.document() == self.document(),
            value matches Some(YOutValue::Text(t)) ==> t.document() == self.document(),
    {
        let txn = read_txn(&self.doc);
        match map_get_read(&txn, &self.inner, key.as_str()) {
            Some(out) => out_to_yout(out, &self.doc),
            None => None,
        }
    }

    /// Whether `key` holds a value.
    pub fn contains(&self, key: String) -> bool {
        let txn = read_txn(&self.doc);
        map_contains_read(&txn, &self.inner, key.as_str())
    }

    /// The number of keys.
    pub fn length(&self) -> u32 {
        let txn = read_txn(&self.doc);
        map_len_read(&txn, &self.inner)
    }

    /// The keys, each once.
    pub fn keys(&self) -> (keys: Vec<String>)
        ensures
            forall|i: int, j: int| 0 <= i < j < keys@.len() ==> keys@[i]@ != keys@[j]@,
    {
        let txn = read_txn(&self.doc);
        map_keys_read(&txn, &self.inner)
    }

    /// The map's content as JSON text.
    pub fn json(&self) -> String {
        let txn = read_txn(&self.doc);
        let content = map_content(&txn, &self.inner);
        json_text(any_json(&content))
    }
}

impl Clone for YrsMap {
    /// Another handle on the same map.
    fn clone(&self) -> (handle: Self)
        ensures
            handle.document() == self.document(),
            handle.branch() == self.branch(),
    {
        self.handle()
    }
}

} // verus!
