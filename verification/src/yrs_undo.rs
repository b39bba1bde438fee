//! Undo/redo history for one document, with cancelable captures.
//!
//! The manager tracks only transactions tagged with the local origin, so
//! remote updates applied through `YrsDoc::apply_update` never enter its
//! stacks. While a cancelable capture is open, the history older than the
//! capture is held here, outside the yrs manager, so the session can only
//! ever undo its own work.

use vstd::prelude::*;

use yrs::undo::{StackItem, UndoManager};

use crate::capture::{
    advance_capture_id, cancel_undo_stack, next_capture_id, FinishedStacks, cancelled_undo, finish_stacks, finished_redo,
    finished_undo, CaptureBook,
};
use crate::undo_calls::{
    clear_history, expand_array_scope, expand_map_scope, expand_text_scope, manager_can_redo,
    manager_can_undo, manager_doc, merge_into, new_undo_manager, redo_depth, redo_items,
    redo_step, reset_capture, undo_depth, undo_items, undo_step,
};
use crate::origin::YRS_DART_LOCAL_ORIGIN;
use crate::yrs_array::YrsArray;
use crate::yrs_doc::YrsDoc;
use crate::yrs_map::YrsMap;
use crate::yrs_text::YrsText;

verus! {

/// A shared container an undo manager tracks.
pub enum YrsScopeItem {
    YMap(YrsMap),
    Array(YrsArray),
    Text(YrsText),
}

impl YrsScopeItem {
    /// Scopes a map.
    pub fn from_map(map: &YrsMap) -> (item: YrsScopeItem)
        ensures
            item matches YrsScopeItem::YMap(m) && m.document() == map.document() && m.branch()
                == map.branch(),
    {
        YrsScopeItem::YMap(map.handle())
    }

    /// Scopes an array.
    pub fn from_array(array: &YrsArray) -> (item: YrsScopeItem)
        ensures
            item matches YrsScopeItem::Array(a) && a.document() == array.document() && a.branch()
                == array.branch(),
    {
        YrsScopeItem::Array(array.handle())
    }

    /// Scopes a text.
    pub fn from_text(text: &YrsText) -> (item: YrsScopeItem)
        ensures
            item matches YrsScopeItem::Text(t) && t.document() == text.document() && t.branch()
                == text.branch(),
    {
        YrsScopeItem::Text(text.handle())
    }
}

impl Clone for YrsScopeItem {
    /// Another handle on the same container.
    fn clone(&self) -> (item: Self)
        ensures
            self matches YrsScopeItem::YMap(a) ==> item matches YrsScopeItem::YMap(b)
                && b.document() == a.document(),
            self matches YrsScopeItem::Array(a) ==> item matches YrsScopeItem::Array(b)
                && b.document() == a.document(),
            self matches YrsScopeItem::Text(a) ==> item matches YrsScopeItem::Text(b)
                && b.document() == a.document(),
    {
        match self {
            YrsScopeItem::YMap(map) => YrsScopeItem::YMap(map.handle()),
            YrsScopeItem::Array(array) => YrsScopeItem::Array(array.handle()),
            YrsScopeItem::Text(text) => YrsScopeItem::Text(text.handle()),
        }
    }
}

/// An open cancelable capture.
struct CancelableCapture {
    id: u64,
    /// The undo history older than the session, held outside the manager
    /// so that nothing the session does can reach it.
    undo_stack: Vec<StackItem<()>>,
    /// The redo history older than the session, held for the same reason.
    redo_stack: Vec<StackItem<()>>,
    /// Whether cancelling can still walk the document back; clearing the
    /// history destroys the session's own items, and with them the way back.
    revertible: bool,
}

/// The identifier the next capture receives; never 0.
struct IdCounter {
    next: u64,
}

impl IdCounter {
    #[verifier::type_invariant]
    spec fn positive(self) -> bool {
        self.next >= 1
    }

    /// A counter whose first identifier is 1.
    fn first() -> (counter: IdCounter)
        ensures
            counter.next == 1,
    {
        IdCounter { next: 1 }
    }

    /// Issues the next identifier and advances past it.
    fn issue(&mut self) -> (id: u64)
        ensures
            id == old(self).next,
            id >= 1,
            final(self).next == next_capture_id(id),
    {
        proof {
            use_type_invariant(&*self);
        }
        let id = self.next;
        self.next = advance_capture_id(id);
        id
    }
}

/// A live manager's state.
pub struct UndoState {
    manager: UndoManager<()>,
    scope: Vec<YrsScopeItem>,
    capture_timeout_millis: u64,
    active_capture: Option<CancelableCapture>,
    ids: IdCounter,
    /// The merge window the current yrs manager was built with.
    start_window: Ghost<u64>,
    /// The undo stack the current yrs manager was built with.
    start_undo: Ghost<Seq<StackItem<()>>>,
    /// The redo stack the current yrs manager was built with.
    start_redo: Ghost<Seq<StackItem<()>>>,
}

impl UndoState {
    /// The tracked containers, in the order they were added.
    pub closed spec fn scope(self) -> Seq<YrsScopeItem> {
        self.scope@
    }

    /// The configured merge window, in milliseconds.
    pub closed spec fn timeout(self) -> u64 {
        self.capture_timeout_millis
    }

    /// The identifier of the open capture, if one is open.
    pub closed spec fn capture_id(self) -> Option<u64> {
        match self.active_capture {
            Some(capture) => Some(capture.id),
            None => None,
        }
    }

    /// The identifier the next capture will receive.
    pub closed spec fn upcoming(self) -> u64 {
        self.ids.next
    }

    /// The undo history an open capture holds outside the manager.
    pub closed spec fn held_undo(self) -> Seq<StackItem<()>> {
        match self.active_capture {
            Some(capture) => capture.undo_stack@,
            None => Seq::empty(),
        }
    }

    /// The redo history an open capture holds outside the manager.
    pub closed spec fn held_redo(self) -> Seq<StackItem<()>> {
        match self.active_capture {
            Some(capture) => capture.redo_stack@,
            None => Seq::empty(),
        }
    }

    /// Whether the open capture can still be reverted.
    pub closed spec fn revertible(self) -> bool {
        match self.active_capture {
            Some(capture) => capture.revertible,
            None => false,
        }
    }

    /// The merge window the current yrs manager was built with.
    pub closed spec fn start_window(self) -> u64 {
        self.start_window@
    }

    /// The undo stack the current yrs manager was built with.
    pub closed spec fn start_undo(self) -> Seq<StackItem<()>> {
        self.start_undo@
    }

    /// The redo stack the current yrs manager was built with.
    pub closed spec fn start_redo(self) -> Seq<StackItem<()>> {
        self.start_redo@
    }

    /// A copy of the current manager's undo stack, oldest first.
    pub fn undo_items(&self) -> Vec<StackItem<()>> {
        undo_items(&self.manager)
    }

    /// A copy of the current manager's redo stack, oldest first.
    pub fn redo_items(&self) -> Vec<StackItem<()>> {
        redo_items(&self.manager)
    }
}

/// Adds one container to a yrs manager's tracked scope.
fn expand(manager: &mut UndoManager<()>, item: &YrsScopeItem) {
    match item {
        YrsScopeItem::YMap(map) => expand_map_scope(manager, &map.inner),
        YrsScopeItem::Array(array) => expand_array_scope(manager, &array.inner),
        YrsScopeItem::Text(text) => expand_text_scope(manager, &text.inner),
    }
}

/// Adds every container of `scope` to a yrs manager's tracked scope.
fn expand_all(manager: &mut UndoManager<()>, scope: &Vec<YrsScopeItem>) {
    let mut i: usize = 0;
    while i < scope.len()
        invariant
            i <= scope.len(),
        decreases scope.len() - i,
    {
        expand(manager, &scope[i]);
        i = i + 1;
    }
}

/// Replaces the state's yrs manager with a new one on the same document,
/// with the merge window `capture_timeout_millis`, the same scope, and the
/// given history stacks.
///
/// Dropping the previous manager only detaches its observers; the items
/// handed over are released by the new manager's own clear and pop.
pub fn replace_manager(
    state: &mut UndoState,
    capture_timeout_millis: u64,
    undo_stack: Vec<StackItem<()>>,
    redo_stack: Vec<StackItem<()>>,
)
    ensures
        final(state).scope() == old(state).scope(),
        final(state).timeout() == old(state).timeout(),
        final(state).capture_id() == old(state).capture_id(),
        final(state).upcoming() == old(state).upcoming(),
        final(state).held_undo() == old(state).held_undo(),
        final(state).held_redo() == old(state).held_redo(),
        final(state).revertible() == old(state).revertible(),
        final(state).start_window() == capture_timeout_millis,
        final(state).start_undo() == undo_stack@,
        final(state).start_redo() == redo_stack@,
{
    let doc = manager_doc(&state.manager);
    let ghost undo_view = undo_stack@;
    let ghost redo_view = redo_stack@;
    let mut replacement = new_undo_manager(&doc, YRS_DART_LOCAL_ORIGIN.as_slice(), capture_timeout_millis, undo_stack, redo_stack);
    expand_all(&mut replacement, &state.scope);
    state.manager = replacement;
    state.start_window = Ghost(capture_timeout_millis);
    state.start_undo = Ghost(undo_view);
    state.start_redo = Ghost(redo_view);
}

/// Collapses consecutive stack items, oldest first, into the single item
/// one merge window covering all of them would have built (their
/// insertions and deletions united). Nothing when there are no items.
pub fn merge_stack_items(items: Vec<StackItem<()>>) -> (merged: Option<StackItem<()>>)
    ensures
        merged is Some <==> items@.len() > 0,
        items@.len() == 1 ==> merged == Some(items@[0]),
{
    let mut items = items;
    if items.len() == 0 {
        return None;
    }
    let ghost first = items@[0];
    let mut merged = items.remove(0);
    let ghost single = items@.len() == 0;
    while items.len() > 0
        invariant
            single ==> items@.len() == 0 && merged == first,
        decreases items@.len(),
    {
        let next = items.remove(0);
        merge_into(&mut merged, next);
    }
    Some(merged)
}

/// The stacks a finishing capture leaves, given the history it held and the
/// stacks its session left on the manager: the session's undo items, if
/// any, collapse into one step on top of the held undo history (a single
/// item stays as it is); the held redo history is kept under the session's
/// when nothing of the session survives, and is otherwise stale. The step
/// is returned alongside, as ghost.
pub fn close_finished_session(
    held_undo: Vec<StackItem<()>>,
    held_redo: Vec<StackItem<()>>,
    session_undo: Vec<StackItem<()>>,
    session_redo: Vec<StackItem<()>>,
) -> (closed: (FinishedStacks<StackItem<()>>, Ghost<Option<StackItem<()>>>))
    ensures
        closed.1@ is Some <==> session_undo@.len() > 0,
        session_undo@.len() == 1 ==> closed.1@ == Some(session_undo@[0]),
        closed.0.undo@ == finished_undo(held_undo@, closed.1@),
        closed.0.redo@ == finished_redo(held_redo@, closed.1@, session_redo@),
        closed.0.stale_redo@ == (if closed.1@ is Some {
            held_redo@
        } else {
            Seq::<StackItem<()>>::empty()
        }),
{
    let step = merge_stack_items(session_undo);
    let ghost step_view = step;
    let stacks = finish_stacks(held_undo, held_redo, step, session_redo);
    (stacks, Ghost(step_view))
}

/// Releases the document structs that history items keep alive, for items
/// that no manager will carry on.
///
/// A dropped stack item leaves its deletions marked as kept; only a
/// manager's clear unmarks them, so the items are handed to a throwaway
/// manager on the same document and scope, which is cleared at once.
pub fn release_stack_items(state: &UndoState, items: Vec<StackItem<()>>) {
    if items.len() == 0 {
        return;
    }
    let doc = manager_doc(&state.manager);
    let mut cleanup = new_undo_manager(
        &doc,
        YRS_DART_LOCAL_ORIGIN.as_slice(),
        state.capture_timeout_millis,
        Vec::new(),
        items,
    );
    expand_all(&mut cleanup, &state.scope);
    clear_history(&mut cleanup);
}

/// The depth a manager reports: the items an open capture holds plus the
/// items the yrs manager holds, saturated at `u64::MAX`.
fn total_depth(held: usize, in_manager: usize) -> (depth: u64)
    ensures
        depth == (if held + in_manager <= u64::MAX {
            (held + in_manager) as u64
        } else {
            u64::MAX
        }),
{
    let held = held as u64;
    held.saturating_add(in_manager as u64)
}

/// Undo/redo history for one document.
///
/// Every method takes the manager exclusively, so a manager and the
/// document it tracks are used from one thread at a time.
pub struct YrsUndoManager {
    state: Option<UndoState>,
}

impl YrsUndoManager {
    /// Whether the manager has not been disposed.
    pub closed spec fn live(self) -> bool {
        self.state is Some
    }

    /// The live manager's state (meaningless once disposed).
    pub closed spec fn state_view(self) -> UndoState {
        self.state->0
    }

    /// The capture bookkeeping.
    pub open spec fn book(self) -> CaptureBook {
        if self.live() {
            CaptureBook {
                live: true,
                open: self.state_view().capture_id(),
                upcoming: self.state_view().upcoming(),
            }
        } else {
            crate::capture::disposed_book()
        }
    }

    /// The identifier of the open capture, if one is open.
    pub open spec fn capture_id(self) -> Option<u64> {
        self.book().open
    }

    /// The undo history an open capture holds outside the yrs manager.
    pub open spec fn held_undo(self) -> Seq<StackItem<()>> {
        if self.live() {
            self.state_view().held_undo()
        } else {
            Seq::empty()
        }
    }

    /// The redo history an open capture holds outside the yrs manager.
    pub open spec fn held_redo(self) -> Seq<StackItem<()>> {
        if self.live() {
            self.state_view().held_redo()
        } else {
            Seq::empty()
        }
    }

    /// Everything but the yrs manager itself is as in `other`.
    pub open spec fn same_bookkeeping(self, other: YrsUndoManager) -> bool {
        &&& self.live() == other.live()
        &&& self.live() ==> {
            let (a, b) = (self.state_view(), other.state_view());
            &&& a.scope() == b.scope()
            &&& a.timeout() == b.timeout()
            &&& a.capture_id() == b.capture_id()
            &&& a.upcoming() == b.upcoming()
            &&& a.held_undo() == b.held_undo()
            &&& a.held_redo() == b.held_redo()
            &&& a.revertible() == b.revertible()
            &&& a.start_window() == b.start_window()
            &&& a.start_undo() == b.start_undo()
            &&& a.start_redo() == b.start_redo()
        }
    }

    /// A manager for `doc` tracking the containers of `scope`, merging
    /// tracked writes that come within `capture_timeout_millis` of each
    /// other into one step.
    pub fn new(doc: &YrsDoc, scope: Vec<YrsScopeItem>, capture_timeout_millis: u64) -> (manager:
        YrsUndoManager)
        ensures
            manager.live(),
            manager.book() == (CaptureBook { live: true, open: None, upcoming: 1 }),
            manager.state_view().scope() == scope@,
            manager.state_view().timeout() == capture_timeout_millis,
            manager.state_view().start_window() == capture_timeout_millis,
            manager.state_view().start_undo() == Seq::<StackItem<()>>::empty(),
            manager.state_view().start_redo() == Seq::<StackItem<()>>::empty(),
    {
        let mut manager = new_undo_manager(
            doc.yrs_doc(),
            YRS_DART_LOCAL_ORIGIN.as_slice(),
            capture_timeout_millis,
            Vec::new(),
            Vec::new(),
        );
        expand_all(&mut manager, &scope);
        YrsUndoManager {
            state: Some(
                UndoState {
                    manager,
                    scope,
                    capture_timeout_millis,
                    active_capture: None,
                    ids: IdCounter::first(),
                    start_window: Ghost(capture_timeout_millis),
                    start_undo: Ghost(Seq::empty()),
                    start_redo: Ghost(Seq::empty()),
                },
            ),
        }
    }

    /// The live state, for working on it directly; nothing once disposed.
    pub fn state_mut(&mut self) -> (state: Option<&mut UndoState>)
        ensures
            state is Some <==> old(self).live(),
    {
        self.state.as_mut()
    }

    /// Adds a container to the tracked scope; a disposed manager ignores it.
    pub fn add_scope(&mut self, item: YrsScopeItem)
        ensures
            final(self).live() == old(self).live(),
            final(self).book() == old(self).book(),
            final(self).held_undo() == old(self).held_undo(),
            final(self).held_redo() == old(self).held_redo(),
            old(self).live() ==> final(self).state_view().scope() == old(
                self,
            ).state_view().scope().push(item),
            old(self).live() ==> final(self).state_view().timeout() == old(
                self,
            ).state_view().timeout(),
            !old(self).live() ==> *final(self) == *old(self),
    {
        if self.state.is_none() {
            return;
        }
        let mut state = self.state.take().unwrap();
        expand(&mut state.manager, &item);
        state.scope.push(item);
        self.state = Some(state);
    }

    /// Undoes one step: whether anything changed. While a capture is open
    /// the yrs manager holds only what the session pushed, so this reverts
    /// the session's own work and then stops.
    pub fn undo(&mut self) -> (changed: bool)
        ensures
            final(self).same_bookkeeping(*old(self)),
            !old(self).live() ==> !changed && *final(self) == *old(self),
    {
        if self.state.is_none() {
            return false;
        }
        let mut state = self.state.take().unwrap();
        let changed = undo_step(&mut state.manager);
        self.state = Some(state);
        changed
    }

    /// Redoes one step: whether anything changed.
    pub fn redo(&mut self) -> (changed: bool)
        ensures
            final(self).same_bookkeeping(*old(self)),
            !old(self).live() ==> !changed && *final(self) == *old(self),
    {
        if self.state.is_none() {
            return false;
        }
        let mut state = self.state.take().unwrap();
        let changed = redo_step(&mut state.manager);
        self.state = Some(state);
        changed
    }

    /// Whether an undo step is reachable now; while a capture is open this
    /// covers the session's own work only.
    pub fn can_undo(&self) -> (reachable: bool)
        ensures
            !self.live() ==> !reachable,
    {
        match &self.state {
            Some(state) => manager_can_undo(&state.manager),
            None => false,
        }
    }

    /// Whether a redo step is reachable now; while a capture is open this
    /// covers the session's own work only.
    pub fn can_redo(&self) -> (reachable: bool)
        ensures
            !self.live() ==> !reachable,
    {
        match &self.state {
            Some(state) => manager_can_redo(&state.manager),
            None => false,
        }
    }

    /// The number of undo stack items, counting those an open capture
    /// holds outside the yrs manager; 0 once disposed.
    ///
    /// A depth is no stable name for a step: finishing a capture collapses
    /// what the session pushed into one item, and later writes reuse the
    /// depths that frees.
    pub fn undo_stack_len(&self) -> (depth: u64)
        ensures
            !self.live() ==> depth == 0,
            self.live() ==> depth >= self.held_undo().len(),
    {
        match &self.state {
            Some(state) => {
                let held = match &state.active_capture {
                    Some(capture) => capture.undo_stack.len(),
                    None => 0,
                };
                total_depth(held, undo_depth(&state.manager))
            },
            None => 0,
        }
    }

    /// The number of redo stack items, counting those an open capture
    /// holds; 0 once disposed.
    pub fn redo_stack_len(&self) -> (depth: u64)
        ensures
            !self.live() ==> depth == 0,
            self.live() ==> depth >= self.held_redo().len(),
    {
        match &self.state {
            Some(state) => {
                let held = match &state.active_capture {
                    Some(capture) => capture.redo_stack.len(),
                    None => 0,
                };
                total_depth(held, redo_depth(&state.manager))
            },
            None => 0,
        }
    }

    /// Makes the next tracked write start a new step rather than merging
    /// into the previous one.
    pub fn reset(&mut self)
        ensures
            final(self).same_bookkeeping(*old(self)),
            !old(self).live() ==> *final(self) == *old(self),
    {
        if self.state.is_none() {
            return;
        }
        let mut state = self.state.take().unwrap();
        reset_capture(&mut state.manager);
        self.state = Some(state);
    }

    /// Drops all local history, including what an open capture holds. An
    /// open capture stays open but can no longer be reverted: its own items
    /// were the only record of what to walk back.
    pub fn clear(&mut self)
        ensures
            final(self).live() == old(self).live(),
            final(self).book() == old(self).book(),
            final(self).held_undo() == Seq::<StackItem<()>>::empty(),
            final(self).held_redo() == Seq::<StackItem<()>>::empty(),
            final(self).live() ==> !final(self).state_view().revertible(),
            old(self).live() ==> final(self).state_view().scope() == old(
                self,
            ).state_view().scope(),
            old(self).live() ==> final(self).state_view().timeout() == old(
                self,
            ).state_view().timeout(),
            !old(self).live() ==> *final(self) == *old(self),
    {
        if self.state.is_none() {
            return;
        }
        let mut state = self.state.take().unwrap();
        clear_history(&mut state.manager);
        match state.active_capture.take() {
            Some(capture) => {
                let CancelableCapture { id, undo_stack, redo_stack, revertible: _ } = capture;
                state.active_capture = Some(
                    CancelableCapture {
                        id,
                        undo_stack: Vec::new(),
                        redo_stack: Vec::new(),
                        revertible: false,
                    },
                );
                release_stack_items(&state, undo_stack);
                release_stack_items(&state, redo_stack);
            },
            None => {},
        }
        self.state = Some(state);
    }

    /// Opens a cancelable capture and returns its identifier, to be handed
    /// back to [`YrsUndoManager::finish_cancelable_capture`] or
    /// [`YrsUndoManager::cancel_cancelable_capture`]. Only one capture may
    /// be open; when one is, or the manager was disposed, nothing changes
    /// and the answer is `None`.
    ///
    /// The session runs on a new yrs manager with empty stacks and an
    /// unbounded merge window; the history older than the session is held
    /// aside until the capture closes.
    pub fn begin_cancelable_capture(&mut self) -> (id: Option<u64>)
        ensures
            id == crate::capture::begin_answer(old(self).book()),
            id matches Some(opened) ==> opened >= 1,
            final(self).book() == crate::capture::book_after_begin(old(self).book()),
            id is None ==> *final(self) == *old(self),
            id is Some ==> {
                let (before, after) = (old(self).state_view(), final(self).state_view());
                &&& after.scope() == before.scope()
                &&& after.timeout() == before.timeout()
                &&& after.revertible()
                &&& after.start_window() == u64::MAX
                &&& after.start_undo() == Seq::<StackItem<()>>::empty()
                &&& after.start_redo() == Seq::<StackItem<()>>::empty()
            },
    {
        let open = match &self.state {
            Some(state) => state.active_capture.is_none(),
            None => false,
        };
        if !open {
            return None;
        }
        let mut state = self.state.take().unwrap();
        reset_capture(&mut state.manager);
        let held_undo = undo_items(&state.manager);
        let held_redo = redo_items(&state.manager);
        replace_manager(&mut state, u64::MAX, Vec::new(), Vec::new());
        let id = state.ids.issue();
        state.active_capture = Some(
            CancelableCapture { id, undo_stack: held_undo, redo_stack: held_redo, revertible: true },
        );
        self.state = Some(state);
        Some(id)
    }

    /// Whether `capture_id` names this live manager's open capture.
    fn matches_open_capture(&self, capture_id: u64) -> (matched: bool)
        ensures
            matched == crate::capture::close_answer(self.book(), capture_id),
    {
        match &self.state {
            Some(state) => match &state.active_capture {
                Some(capture) => capture.id == capture_id,
                None => false,
            },
            None => false,
        }
    }

    /// Closes the matching capture, keeping what the session did as one
    /// undoable step on top of the older history; the configured merge
    /// window is in force again. A surviving session edit invalidates the
    /// older redo history, as any local edit does; if nothing of the
    /// session survives, the older redo history is kept under whatever the
    /// session can still redo. Only a stale or mismatched identifier or a
    /// disposed manager is refused, and a refusal changes nothing.
    pub fn finish_cancelable_capture(&mut self, capture_id: u64) -> (closed: bool)
        ensures
            closed == crate::capture::close_answer(old(self).book(), capture_id),
            final(self).book() == crate::capture::book_after_close(old(self).book(), capture_id),
            !closed ==> *final(self) == *old(self),
            closed ==> {
                let (before, after) = (old(self).state_view(), final(self).state_view());
                &&& after.scope() == before.scope()
                &&& after.timeout() == before.timeout()
                &&& after.start_window() == before.timeout()
                &&& exists|step: Option<StackItem<()>>, session_redo: Seq<StackItem<()>>|
                    {
                        &&& after.start_undo() == finished_undo(before.held_undo(), step)
                        &&& after.start_redo() == #[trigger] finished_redo(
                            before.held_redo(),
                            step,
                            session_redo,
                        )
                    }
            },
    {
        if !self.matches_open_capture(capture_id) {
            return false;
        }
        let mut state = self.state.take().unwrap();
        let ghost before = state;
        let capture = state.active_capture.take().unwrap();
        let CancelableCapture { id: _, undo_stack: held_undo, redo_stack: held_redo, revertible: _ } =
            capture;
        reset_capture(&mut state.manager);
        let session_undo = undo_items(&state.manager);
        let session_redo = redo_items(&state.manager);
        let ghost session_redo_view = session_redo@;
        let (stacks, Ghost(step_view)) = close_finished_session(
            held_undo,
            held_redo,
            session_undo,
            session_redo,
        );
        release_stack_items(&state, stacks.stale_redo);
        let timeout = state.capture_timeout_millis;
        replace_manager(&mut state, timeout, stacks.undo, stacks.redo);
        self.state = Some(state);
        proof {
            let after = self.state_view();
            assert(after.start_undo() == finished_undo(before.held_undo(), step_view));
            assert(after.start_redo() == finished_redo(
                before.held_redo(),
                step_view,
                session_redo_view,
            ));
        }
        true
    }

    /// Reverts the whole matching capture and closes it: the document goes
    /// back to where the session began, the older undo history stays, and
    /// the redo history that existed before the capture is restored; what
    /// the session and its reverting pushed is released. A capture whose
    /// history was cleared cannot be reverted: its writes stay, kept as one
    /// undoable step, as finishing would keep them. The configured merge
    /// window is in force again. Only a stale or mismatched identifier or a
    /// disposed manager is refused, and a refusal changes nothing.
    pub fn cancel_cancelable_capture(&mut self, capture_id: u64) -> (closed: bool)
        ensures
            closed == crate::capture::close_answer(old(self).book(), capture_id),
            final(self).book() == crate::capture::book_after_close(old(self).book(), capture_id),
            !closed ==> *final(self) == *old(self),
            closed ==> {
                let (before, after) = (old(self).state_view(), final(self).state_view());
                &&& after.scope() == before.scope()
                &&& after.timeout() == before.timeout()
                &&& after.start_window() == before.timeout()
                &&& after.start_redo() == before.held_redo()
                &&& before.revertible() ==> after.start_undo() == before.held_undo()
                &&& exists|stranded: Option<StackItem<()>>|
                    after.start_undo() == #[trigger] cancelled_undo(before.held_undo(), stranded)
            },
    {
        if !self.matches_open_capture(capture_id) {
            return false;
        }
        let mut state = self.state.take().unwrap();
        let ghost before = state;
        let capture = state.active_capture.take().unwrap();
        let CancelableCapture { id: _, undo_stack: held_undo, redo_stack: held_redo, revertible } =
            capture;
        reset_capture(&mut state.manager);
        if revertible {
            // The manager holds only what the session pushed, so exhausting
            // its undo stack is the pre-session document; each successful
            // step consumes at least one item, so the depth bounds the steps.
            let steps = undo_depth(&state.manager);
            let mut taken: usize = 0;
            while taken < steps
                invariant
                    taken <= steps,
                    state.scope@ == before.scope@,
                    state.capture_timeout_millis == before.capture_timeout_millis,
                    state.ids == before.ids,
                    state.active_capture is None,
                decreases steps - taken,
            {
                if !undo_step(&mut state.manager) {
                    break;
                }
                taken = taken + 1;
            }
        }
        // Everything the manager still holds came from the session or from
        // reverting it, so none of it outlives the cancellation.
        let discarded_redo = redo_items(&state.manager);
        release_stack_items(&state, discarded_redo);
        let session_undo = undo_items(&state.manager);
        let stranded = if revertible {
            release_stack_items(&state, session_undo);
            None
        } else {
            merge_stack_items(session_undo)
        };
        let ghost stranded_view = stranded;
        let undo = cancel_undo_stack(held_undo, stranded);
        let timeout = state.capture_timeout_millis;
        replace_manager(&mut state, timeout, undo, held_redo);
        self.state = Some(state);
        proof {
            let after = self.state_view();
            assert(after.start_undo() == cancelled_undo(before.held_undo(), stranded_view));
        }
        true
    }

    /// Releases the manager and any history a capture holds. Idempotent;
    /// afterwards every operation is refused or answers nothing.
    pub fn dispose(&mut self)
        ensures
            !final(self).live(),
            final(self).book() == crate::capture::disposed_book(),
    {
        match self.state.take() {
            Some(state) => {
                let mut state = state;
                match state.active_capture.take() {
                    Some(capture) => {
                        let CancelableCapture { id: _, undo_stack, redo_stack, revertible: _ } =
                            capture;
                        release_stack_items(&state, undo_stack);
                        release_stack_items(&state, redo_stack);
                    },
                    None => {},
                }
                clear_history(&mut state.manager);
            },
            None => {},
        }
    }
}

} // verus!
