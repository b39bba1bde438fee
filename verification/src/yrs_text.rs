//! A handle on a shared text.

use vstd::prelude::*;

use yrs::{Doc, TextRef, TransactionMut};

use crate::handle_calls::{
    clone_text_ref, doc_handle, text_insert, text_len, text_len_read, text_remove_range,
    text_string_read,
};
use crate::origin::{local_txn, read_txn, txn_document};
use crate::txn_calls::unit_count;

verus! {

/// Whether `inserted` answers an insertion at `index` into a text or an
/// array of `len` units: it succeeds exactly when `index` is one of its
/// positions.
pub open spec fn insertion_answered(len: u32, index: u32, inserted: bool) -> bool {
    inserted == (index <= len)
}

/// Whether `removed` answers a removal of `length` units from `index` on in
/// a text or an array of `len` units: it succeeds exactly when the span
/// lies within it.
pub open spec fn removal_answered(len: u32, index: u32, length: u32, removed: bool) -> bool {
    removed == (index + length <= len)
}

/// A removal is refused only when its span runs past the end of the text:
/// every span within the text, including one that ends exactly at its end
/// and the whole text, is removed; and a span past the end never is.
pub proof fn law_removal_refused_only_past_the_end(len: u32, index: u32, length: u32, removed: bool)
    requires
        removal_answered(len, index, length, removed),
    ensures
        index as int + length as int <= len as int ==> removed,
        index as int + length as int > len as int ==> !removed,
        index as int + length as int == len as int ==> removed,
        index == 0 && length == len ==> removed,
{
}

/// An insertion is refused only past the end: at every position of the
/// text, its end included, it succeeds.
pub proof fn law_insertion_refused_only_past_the_end(len: u32, index: u32, inserted: bool)
    requires
        insertion_answered(len, index, inserted),
    ensures
        index <= len <==> inserted,
        index == len ==> inserted,
{
}

/// A handle on a shared text of a document. Indexes and lengths count
/// UTF-16 code units. Every write runs in its own local-origin transaction.
pub struct YrsText {
    pub(crate) doc: Doc,
    pub(crate) inner: TextRef,
}

impl YrsText {
    /// The document this handle reads and writes.
    pub closed spec fn document(self) -> Doc {
        self.doc
    }

    /// The text branch this handle names.
    pub closed spec fn branch(self) -> TextRef {
        self.inner
    }

    /// A handle on `inner`, a branch of `doc`.
    pub(crate) fn from_parts(doc: Doc, inner: TextRef) -> (handle: YrsText)
        ensures
            handle.document() == doc,
            handle.branch() == inner,
    {
        YrsText { doc, inner }
    }

    /// Another handle on the same text.
    pub fn handle(&self) -> (handle: YrsText)
        ensures
            handle.document() == self.document(),
            handle.branch() == self.branch(),
    {
        YrsText::from_parts(doc_handle(&self.doc), clone_text_ref(&self.inner))
    }

    /// Inserts `chunk` at `index`; `false`, writing nothing, when `index`
    /// exceeds the length. The start of the text always exists.
    pub fn insert(&self, index: u32, chunk: String) -> (inserted: bool)
        ensures
            index == 0 ==> inserted,
            exists|txn: TransactionMut<'_>|
                txn_document(&txn) == self.document() && #[trigger] insertion_answered(
                    unit_count(&txn, self.branch()),
                    index,
                    inserted,
                ),
    {
        let mut txn = local_txn(&self.doc);
        let ghost opened = txn;
        if index > text_len(&txn, &self.inner) {
            assert(txn_document(&opened) == self.document() && insertion_answered(unit_count(&opened, self.branch()), index, false));
            return false;
        }
        text_insert(&mut txn, &self.inner, index, chunk.as_str());
        assert(txn_document(&opened) == self.document() && insertion_answered(unit_count(&opened, self.branch()), index, true));
        true
    }

    /// Removes `length` units from `index` on; `false`, writing nothing,
    /// when they do not all exist. Removing nothing from the start always succeeds.
    pub fn remove(&self, index: u32, length: u32) -> (removed: bool)
        ensures
            index == 0 && length == 0 ==> removed,
            exists|txn: TransactionMut<'_>|
                txn_document(&txn) == self.document() && #[trigger] removal_answered(
                    unit_count(&txn, self.branch()),
                    index,
                    length,
                    removed,
                ),
    {
        let mut txn = local_txn(&self.doc);
        let ghost opened = txn;
        let len = text_len(&txn, &self.inner);
        if index as u64 + length as u64 > len as u64 {
            assert(txn_document(&opened) == self.document() && removal_answered(unit_count(&opened, self.branch()), index, length, false));
            return false;
        }
        text_remove_range(&mut txn, &self.inner, index, length);
        assert(txn_document(&opened) == self.document() && removal_answered(unit_count(&opened, self.branch()), index, length, true));
        true
    }

    /// The current string value.
    pub fn value(&self) -> String {
        let txn = read_txn(&self.doc);
        text_string_read(&txn, &self.inner)
    }

    /// The length in UTF-16 code units.
    pub fn length(&self) -> u32 {
        let txn = read_txn(&self.doc);
        text_len_read(&txn, &self.inner)
    }
}

impl Clone for YrsText {
    /// Another handle on the same text.
    fn clone(&self) -> (handle: Self)
        ensures
            handle.document() == self.document(),
            handle.branch() == self.branch(),
    {
        self.handle()
    }
}

} // verus!
