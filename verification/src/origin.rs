//! Origin tags for the transactions these bindings open.
//!
//! The two-origin split lets an undo manager track local user mutations while
//! ignoring remote-applied updates, so a user's undo never reverts a peer's
//! edit.

use vstd::prelude::*;

verus! {

/// Origin tag (the bytes of `yrs_dart/local`) of every transaction a direct local mutation opens.
pub const YRS_DART_LOCAL_ORIGIN: [u8; 14] = [121, 114, 115, 95, 100, 97, 114, 116, 47, 108, 111, 99, 97, 108];

/// Origin tag (the bytes of `yrs_dart/remote`) of every transaction that applies a remote or stored update.
pub const YRS_DART_REMOTE_ORIGIN: [u8; 15] = [121, 114, 115, 95, 100, 97, 114, 116, 47, 114, 101, 109, 111, 116, 101];

/// The document a write transaction writes (`TransactionMut::doc`).
pub uninterp spec fn txn_document(txn: &yrs::TransactionMut<'_>) -> yrs::Doc;

/// The bytes a write transaction is tagged with (`TransactionMut::origin`),
/// if any.
pub uninterp spec fn txn_origin(txn: &yrs::TransactionMut<'_>) -> Option<Seq<u8>>;

/// Opens a write transaction on `doc` tagged with `origin`
/// (`yrs::Transact::transact_mut_with`), which stores both in the
/// transaction; it blocks until the document store is free.
#[verifier::external_body]
pub(crate) fn txn_with_origin<'doc>(doc: &'doc yrs::Doc, origin: &[u8]) -> (txn: yrs::TransactionMut<'doc>)
    ensures
        txn_document(&txn) == *doc,
        txn_origin(&txn) == Some(origin@),
{
    yrs::Transact::transact_mut_with(doc, origin)
}

/// Opens the write transaction of a direct local mutation, tagged with
/// [`YRS_DART_LOCAL_ORIGIN`].
pub(crate) fn local_txn(doc: &yrs::Doc) -> (txn: yrs::TransactionMut<'_>)
    ensures
        txn_document(&txn) == *doc,
        txn_origin(&txn) == Some(YRS_DART_LOCAL_ORIGIN@),
{
    txn_with_origin(doc, YRS_DART_LOCAL_ORIGIN.as_slice())
}

/// Opens the write transaction that applies a remote or stored update,
/// tagged with [`YRS_DART_REMOTE_ORIGIN`].
pub(crate) fn remote_txn(doc: &yrs::Doc) -> (txn: yrs::TransactionMut<'_>)
    ensures
        txn_document(&txn) == *doc,
        txn_origin(&txn) == Some(YRS_DART_REMOTE_ORIGIN@),
{
    txn_with_origin(doc, YRS_DART_REMOTE_ORIGIN.as_slice())
}

/// Opens a read-only transaction (`yrs::Transact::transact`). Nothing is
/// claimed of the transaction.
#[verifier::external_body]
pub(crate) fn read_txn(doc: &yrs::Doc) -> yrs::Transaction<'_> {
    yrs::Transact::transact(doc)
}

} // verus!
