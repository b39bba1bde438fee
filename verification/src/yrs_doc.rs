//! A document, and the atomic transfer of one entry within it.

use vstd::prelude::*;

use yrs::{Doc, TransactionMut};

use crate::handle_calls::{
    apply_update, counts_utf16, decode_state_vector, decode_update, empty_state_vector, encode_diff,
    encoded_state_vector, new_utf16_document, root_array, root_map, root_text,
    state_vector_decode_error, update_decode_error, doc_handle,
};
use crate::origin::{
    local_txn, read_txn, remote_txn, txn_document, txn_origin, YRS_DART_LOCAL_ORIGIN,
};
use crate::transfer::{
    location_path, spec_descends, Side, SlotFacts, TransferError, YrsTransferLocation, YrsTransferMode,
    YrsTransferOutcome,
};
use crate::transfer_messages::message_text;
use crate::transfer_run::{
    container_path, error_side, facts_for, path_shape_error, planned_outcome, transfer_answer,
    transfer_in_transaction,
};
use crate::yrs_array::YrsArray;
use crate::yrs_map::YrsMap;
use crate::yrs_text::YrsText;

verus! {

/// Whether `answer` is what a transfer answers in `txn`, a write
/// transaction on `doc` tagged with the local origin.
pub open spec fn answered_in(
    txn: &TransactionMut<'_>,
    doc: Doc,
    mode: YrsTransferMode,
    source: YrsTransferLocation,
    target: YrsTransferLocation,
    answer: Result<YrsTransferOutcome, TransferError>,
) -> bool {
    &&& txn_document(txn) == doc
    &&& txn_origin(txn) == Some(YRS_DART_LOCAL_ORIGIN@)
    &&& transfer_answer(txn, mode, source, target, answer)
}

/// Whether `outcome` reports `answer`: the same outcome, or the refusal's
/// message.
pub open spec fn reported(
    answer: Result<YrsTransferOutcome, TransferError>,
    outcome: Result<YrsTransferOutcome, String>,
) -> bool {
    match (answer, outcome) {
        (Ok(a), Ok(b)) => a == b,
        (Err(error), Err(text)) => text@ == message_text(error),
        _ => false,
    }
}

/// A yrs document whose text offsets count UTF-16 code units, so text
/// indexes match Dart string indexes.
pub struct YrsDoc {
    pub(crate) inner: Doc,
}

impl YrsDoc {
    /// The yrs document this wraps.
    pub closed spec fn document(self) -> Doc {
        self.inner
    }

    /// The underlying yrs document.
    pub fn yrs_doc(&self) -> (doc: &Doc)
        ensures
            *doc == self.document(),
    {
        &self.inner
    }

    /// A new empty document.
    pub fn new_empty() -> (doc: YrsDoc)
        ensures
            counts_utf16(doc.document()),
    {
        YrsDoc { inner: new_utf16_document() }
    }

    /// A document loaded from a blob [`YrsDoc::save`] produced.
    ///
    /// Loading is tagged with the remote origin, so an undo manager attached
    /// later never offers to undo the loaded state.
    pub fn from_bytes(blob: Vec<u8>) -> (doc: Result<YrsDoc, String>)
        ensures
            update_decode_error(blob@) is Some ==> doc is Err && doc->Err_0@ == update_decode_error(
                blob@,
            )->0,
            doc matches Ok(loaded) ==> counts_utf16(loaded.document()),
    {
        let inner = new_utf16_document();
        let update = match decode_update(&blob) {
            Ok(update) => update,
            Err(error) => {
                return Err(error);
            },
        };
        {
            let mut txn = remote_txn(&inner);
            match apply_update(&mut txn, update) {
                Ok(()) => {},
                Err(error) => {
                    return Err(error);
                },
            }
        }
        Ok(YrsDoc { inner })
    }

    /// The whole document as a v1-encoded update; [`YrsDoc::from_bytes`]
    /// loads it back.
    pub fn save(&self) -> Vec<u8> {
        let txn = read_txn(&self.inner);
        encode_diff(&txn, &empty_state_vector())
    }

    /// The root map named `name`, declared if absent.
    pub fn get_map(&self, name: String) -> (map: YrsMap)
        ensures
            map.document() == self.document(),
    {
        let inner = root_map(&self.inner, name);
        YrsMap::from_parts(doc_handle(&self.inner), inner)
    }

    /// The root array named `name`, declared if absent.
    pub fn get_array(&self, name: String) -> (array: YrsArray)
        ensures
            array.document() == self.document(),
    {
        let inner = root_array(&self.inner, name);
        YrsArray::from_parts(doc_handle(&self.inner), inner)
    }

    /// The root text named `name`, declared if absent.
    pub fn get_text(&self, name: String) -> (text: YrsText)
        ensures
            text.document() == self.document(),
    {
        let inner = root_text(&self.inner, name);
        YrsText::from_parts(doc_handle(&self.inner), inner)
    }

    /// Applies a v1-encoded update from a peer or from storage, tagged with
    /// the remote origin so it never enters an undo stack.
    pub fn apply_update(&self, update: Vec<u8>) -> (applied: Result<(), String>)
        ensures
            update_decode_error(update@) is Some ==> applied is Err && applied->Err_0@
                == update_decode_error(update@)->0,
    {
        let parsed = match decode_update(&update) {
            Ok(parsed) => parsed,
            Err(error) => {
                return Err(error);
            },
        };
        let mut txn = remote_txn(&self.inner);
        apply_update(&mut txn, parsed)
    }

    /// The document's state vector, v1-encoded; a peer answers it with
    /// [`YrsDoc::encode_state_as_update`].
    pub fn get_state_vector(&self) -> Vec<u8> {
        let txn = read_txn(&self.inner);
        encoded_state_vector(&txn)
    }

    /// The v1-encoded update holding what this document has and
    /// `state_vector` lacks; the whole document when `state_vector` is
    /// `None`.
    pub fn encode_state_as_update(&self, state_vector: Option<Vec<u8>>) -> (update: Result<
        Vec<u8>,
        String,
    >)
        ensures
            state_vector is None ==> update is Ok,
            state_vector matches Some(bytes) ==> (update is Err <==> state_vector_decode_error(
                bytes@,
            ) is Some),
            state_vector matches Some(bytes) ==> (update is Err ==> update->Err_0@
                == state_vector_decode_error(bytes@)->0),
    {
        let sv = match state_vector {
            Some(bytes) => match decode_state_vector(&bytes) {
                Ok(sv) => sv,
                Err(error) => {
                    return Err(error);
                },
            },
            None => empty_state_vector(),
        };
        let txn = read_txn(&self.inner);
        Ok(encode_diff(&txn, &sv))
    }

    /// Moves or deep-copies one document entry in one local transaction.
    ///
    /// Everything is validated against that transaction before its first
    /// write, so a refused transfer writes nothing, and so does a same-list
    /// move to either adjacent gap. A move within one list is a real CRDT
    /// move; a move between lists is a deep copy plus a removal, which
    /// discards a peer's concurrent edits to the subtree and invalidates live
    /// handles on it. The outcome says which happened.
    pub fn transfer_entry_atomically(
        &self,
        mode: YrsTransferMode,
        source: YrsTransferLocation,
        target: YrsTransferLocation,
    ) -> (outcome: Result<YrsTransferOutcome, String>)
        ensures
            path_shape_error(container_path(source), Side::Source) matches Some(error) ==> outcome
                is Err && outcome->Err_0@ == message_text(error),
            source is ArrayAtMapKey ==> outcome is Err,
            spec_descends(source, location_path(target)) ==> outcome is Err && (outcome->Err_0@
                == message_text(TransferError::Descends) || exists|error: TransferError|
                error_side(error) is Some && outcome->Err_0@ == #[trigger] message_text(error)),
            outcome matches Ok(o) ==> exists|
                sf: SlotFacts,
                tf: SlotFacts,
                same_map: bool,
                same_array: bool,
            |
                {
                    &&& facts_for(sf, source)
                    &&& facts_for(tf, target)
                    &&& same_map ==> sf is MapEntry && tf is MapEntry
                    &&& #[trigger] planned_outcome(
                        mode,
                        source,
                        target,
                        sf,
                        tf,
                        same_map,
                        same_array,
                    ) == Ok::<YrsTransferOutcome, TransferError>(o)
                },
            exists|txn: TransactionMut<'_>, answer: Result<YrsTransferOutcome, TransferError>|
                #[trigger] answered_in(&txn, self.document(), mode, source, target, answer)
                    && reported(answer, outcome),
            mode == YrsTransferMode::Copy && outcome is Ok ==> outcome == Ok::<
                YrsTransferOutcome,
                String,
            >(YrsTransferOutcome::Copied),
            mode == YrsTransferMode::Move && outcome is Ok ==> outcome != Ok::<
                YrsTransferOutcome,
                String,
            >(YrsTransferOutcome::Copied),
    {
        let mut txn = local_txn(&self.inner);
        let ghost opened = txn;
        let answer = transfer_in_transaction(&mut txn, mode, source, target);
        proof {
            assert(answered_in(&opened, self.document(), mode, source, target, answer));
        }
        match answer {
            Ok(outcome) => Ok(outcome),
            Err(error) => Err(error.message()),
        }
    }
}

} // verus!
