//! Calls into yrs's undo manager.
//!
//! An undo manager's stacks change whenever a tracked transaction commits
//! on its document, not only through calls made on the manager, so nothing
//! here claims what a manager holds.

use std::collections::HashSet;
use std::sync::Arc;

use vstd::prelude::*;

use yrs::undo::{Options, StackItem, UndoManager};
use yrs::{ArrayRef, Doc, MapRef, Origin, TextRef};


verus! {

/// A manager for `doc` (`UndoManager::with_options`) tracking only
/// transactions tagged with `tracked_origin`, merging writes within
/// `capture_timeout_millis` of each other, and starting from the given
/// stacks; the options this library leaves at yrs's choices are the
/// wall clock yrs ships (`SystemClock`) and no further transaction filter.
/// Its scope starts empty.
#[verifier::external_body]
pub(crate) fn new_undo_manager(
    doc: &Doc,
    tracked_origin: &[u8],
    capture_timeout_millis: u64,
    undo_stack: Vec<StackItem<()>>,
    redo_stack: Vec<StackItem<()>>,
) -> UndoManager<()> {
    let mut tracked_origins = HashSet::new();
    tracked_origins.insert(Origin::from(tracked_origin));
    UndoManager::with_options(doc, Options {
        capture_timeout_millis,
        tracked_origins,
        capture_transaction: None,
        timestamp: Arc::new(yrs::sync::time::SystemClock),
        init_undo_stack: undo_stack,
        init_redo_stack: redo_stack,
    })
}

/// Adds a map to the tracked scope (`UndoManager::expand_scope`).
#[verifier::external_body]
pub(crate) fn expand_map_scope(manager: &mut UndoManager<()>, map: &MapRef) {
    manager.expand_scope(map)
}

/// Adds an array to the tracked scope (`UndoManager::expand_scope`).
#[verifier::external_body]
pub(crate) fn expand_array_scope(manager: &mut UndoManager<()>, array: &ArrayRef) {
    manager.expand_scope(array)
}

/// Adds a text to the tracked scope (`UndoManager::expand_scope`).
#[verifier::external_body]
pub(crate) fn expand_text_scope(manager: &mut UndoManager<()>, text: &TextRef) {
    manager.expand_scope(text)
}

/// Undoes one step (`UndoManager::undo_blocking`): whether anything changed.
#[verifier::external_body]
pub(crate) fn undo_step(manager: &mut UndoManager<()>) -> bool {
    manager.undo_blocking()
}

/// Redoes one step (`UndoManager::redo_blocking`): whether anything changed.
#[verifier::external_body]
pub(crate) fn redo_step(manager: &mut UndoManager<()>) -> bool {
    manager.redo_blocking()
}

/// Whether the undo stack holds an item (`UndoManager::can_undo`).
#[verifier::external_body]
pub(crate) fn manager_can_undo(manager: &UndoManager<()>) -> bool {
    manager.can_undo()
}

/// Whether the redo stack holds an item (`UndoManager::can_redo`).
#[verifier::external_body]
pub(crate) fn manager_can_redo(manager: &UndoManager<()>) -> bool {
    manager.can_redo()
}

/// A copy of the undo stack, oldest first (`UndoManager::undo_stack`).
#[verifier::external_body]
pub(crate) fn undo_items(manager: &UndoManager<()>) -> Vec<StackItem<()>> {
    manager.undo_stack().to_vec()
}

/// A copy of the redo stack, oldest first (`UndoManager::redo_stack`).
#[verifier::external_body]
pub(crate) fn redo_items(manager: &UndoManager<()>) -> Vec<StackItem<()>> {
    manager.redo_stack().to_vec()
}

/// The number of undo stack items (`UndoManager::undo_stack`).
#[verifier::external_body]
pub(crate) fn undo_depth(manager: &UndoManager<()>) -> usize {
    manager.undo_stack().len()
}

/// The number of redo stack items (`UndoManager::redo_stack`).
#[verifier::external_body]
pub(crate) fn redo_depth(manager: &UndoManager<()>) -> usize {
    manager.redo_stack().len()
}

/// Makes the next tracked write start a new stack item
/// (`UndoManager::reset`).
#[verifier::external_body]
pub(crate) fn reset_capture(manager: &mut UndoManager<()>) {
    manager.reset()
}

/// Drops both stacks, releasing the document structs their items kept alive
/// (`UndoManager::clear`).
#[verifier::external_body]
pub(crate) fn clear_history(manager: &mut UndoManager<()>) {
    manager.clear()
}

/// Another handle on the manager's document (`UndoManager::doc`, cloned).
#[verifier::external_body]
pub(crate) fn manager_doc(manager: &UndoManager<()>) -> Doc {
    manager.doc().clone()
}

/// Folds `other` into `item` (`StackItem::merge`, an `IdSet` union of
/// insertions and deletions; the unit metadata has nothing to merge).
#[verifier::external_body]
pub(crate) fn merge_into(item: &mut StackItem<()>, other: StackItem<()>) {
    item.merge(other, |_: &mut (), _: ()| {})
}

} // verus!
