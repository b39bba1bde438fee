//! The history bookkeeping of a cancelable undo capture.
//!
//! While a capture is open, the history older than the capture is held
//! outside the undo manager, so the session can only ever undo its own
//! work. Closing the capture decides, from the held history and what the
//! session left on the manager, which stacks the next manager starts with.

use vstd::prelude::*;

verus! {

/// The identifier the capture after one numbered `id` receives: the next
/// number, skipping 0 when the counter wraps.
pub open spec fn next_capture_id(id: u64) -> u64 {
    if id == u64::MAX {
        1
    } else {
        (id + 1) as u64
    }
}

/// Advances a capture identifier counter.
pub fn advance_capture_id(id: u64) -> (next: u64)
    ensures
        next == next_capture_id(id),
{
    let next = id.wrapping_add(1);
    if next == 0 {
        1
    } else {
        next
    }
}

/// The undo stack a finished capture leaves: the held history, with the
/// session collapsed into one step on top when anything of it survives.
pub open spec fn finished_undo<S>(held_undo: Seq<S>, session_step: Option<S>) -> Seq<S> {
    match session_step {
        Some(step) => held_undo.push(step),
        None => held_undo,
    }
}

/// The redo stack a finished capture leaves: a surviving session edit
/// invalidates the held redo history, as any local edit does; otherwise the
/// held redo history stays under whatever the session left.
pub open spec fn finished_redo<S>(
    held_redo: Seq<S>,
    session_step: Option<S>,
    session_redo: Seq<S>,
) -> Seq<S> {
    match session_step {
        Some(_) => session_redo,
        None => held_redo + session_redo,
    }
}

/// The undo stack a cancelled capture leaves: the held history, plus the
/// collapsed session when the session could not be reverted.
pub open spec fn cancelled_undo<S>(held_undo: Seq<S>, stranded_step: Option<S>) -> Seq<S> {
    match stranded_step {
        Some(step) => held_undo.push(step),
        None => held_undo,
    }
}

/// The stacks to restore when a capture finishes, and the held redo items
/// the session's surviving edit made stale.
pub struct FinishedStacks<S> {
    pub undo: Vec<S>,
    pub redo: Vec<S>,
    pub stale_redo: Vec<S>,
}

/// Decides the stacks a finishing capture leaves, from the held history,
/// the session collapsed into one step (if anything of it survives), and
/// the redo items the session produced.
pub fn finish_stacks<S>(
    held_undo: Vec<S>,
    held_redo: Vec<S>,
    session_step: Option<S>,
    session_redo: Vec<S>,
) -> (stacks: FinishedStacks<S>)
    ensures
        stacks.undo@ == finished_undo(held_undo@, session_step),
        stacks.redo@ == finished_redo(held_redo@, session_step, session_redo@),
        stacks.stale_redo@ == (if session_step is Some {
            held_redo@
        } else {
            Seq::<S>::empty()
        }),
{
    let mut undo = held_undo;
    match session_step {
        Some(step) => {
            undo.push(step);
            FinishedStacks { undo, redo: session_redo, stale_redo: held_redo }
        },
        None => {
            let mut redo = held_redo;
            let mut session_redo = session_redo;
            redo.append(&mut session_redo);
            FinishedStacks { undo, redo, stale_redo: Vec::new() }
        },
    }
}

/// Decides the undo stack a cancelled capture leaves, from the held history
/// and the collapsed session if the session could not be reverted.
pub fn cancel_undo_stack<S>(held_undo: Vec<S>, stranded_step: Option<S>) -> (undo: Vec<S>)
    ensures
        undo@ == cancelled_undo(held_undo@, stranded_step),
{
    let mut undo = held_undo;
    match stranded_step {
        Some(step) => undo.push(step),
        None => {},
    }
    undo
}

/// A capture's identifiers never repeat back to back, and are never 0.
pub proof fn law_capture_ids_advance(id: u64)
    requires
        id >= 1,
    ensures
        next_capture_id(id) >= 1,
        next_capture_id(id) != id,
{
}

/// Finishing a capture in which nothing survives leaves both stacks exactly
/// as they were before the capture, with anything the session could still
/// redo above the older redo history.
pub proof fn law_finish_without_survivor_keeps_history<S>(
    held_undo: Seq<S>,
    held_redo: Seq<S>,
    session_redo: Seq<S>,
)
    ensures
        finished_undo(held_undo, None) == held_undo,
        finished_redo(held_redo, None, session_redo) == held_redo + session_redo,
        session_redo.len() == 0 ==> finished_redo(held_redo, None, session_redo) == held_redo,
{
    assert(held_redo + Seq::<S>::empty() =~= held_redo);
}

/// Finishing a capture whose session survives adds exactly one undo step
/// above the older history, however many items the session spanned.
pub proof fn law_finish_collapses_session<S>(held_undo: Seq<S>, step: S)
    ensures
        finished_undo(held_undo, Some(step)).len() == held_undo.len() + 1,
        finished_undo(held_undo, Some(step)).subrange(0, held_undo.len() as int) == held_undo,
{
    assert(held_undo.push(step).subrange(0, held_undo.len() as int) =~= held_undo);
}

/// Cancelling a revertible capture restores the undo history held when it
/// began, leaving nothing of the session.
pub proof fn law_cancel_restores_history<S>(held_undo: Seq<S>)
    ensures
        cancelled_undo(held_undo, None) == held_undo,
{
}

/// Once a capture's held history was cleared, finishing and cancelling it
/// leave the same undo stack: the one collapsed session step.
pub proof fn law_cleared_capture_closes_alike<S>(step: S)
    ensures
        finished_undo(Seq::<S>::empty(), Some(step)) == cancelled_undo(Seq::<S>::empty(), Some(step)),
        finished_undo(Seq::<S>::empty(), Some(step)) == seq![step],
{
    assert(Seq::<S>::empty().push(step) =~= seq![step]);
}

/// What a manager's capture bookkeeping amounts to: whether the manager is
/// still live, the identifier of the open capture if one is open, and the
/// identifier the next capture will receive.
pub struct CaptureBook {
    pub live: bool,
    pub open: Option<u64>,
    pub upcoming: u64,
}

/// The bookkeeping of a disposed manager.
pub open spec fn disposed_book() -> CaptureBook {
    CaptureBook { live: false, open: None, upcoming: 0 }
}

/// What opening a capture answers: the upcoming identifier, when the
/// manager is live and no capture is open; nothing otherwise.
pub open spec fn begin_answer(book: CaptureBook) -> Option<u64> {
    if book.live && book.open is None {
        Some(book.upcoming)
    } else {
        None
    }
}

/// The bookkeeping after an attempt to open a capture; a refused attempt
/// changes nothing.
pub open spec fn book_after_begin(book: CaptureBook) -> CaptureBook {
    if begin_answer(book) is Some {
        CaptureBook { live: true, open: Some(book.upcoming), upcoming: next_capture_id(book.upcoming) }
    } else {
        book
    }
}

/// Whether closing (finishing or cancelling) the capture `id` succeeds:
/// exactly when the manager is live and `id` names the open capture.
pub open spec fn close_answer(book: CaptureBook, id: u64) -> bool {
    book.live && book.open == Some(id)
}

/// The bookkeeping after an attempt to close the capture `id`; a refused
/// attempt changes nothing.
pub open spec fn book_after_close(book: CaptureBook, id: u64) -> CaptureBook {
    if close_answer(book, id) {
        CaptureBook { live: true, open: None, upcoming: book.upcoming }
    } else {
        book
    }
}

/// The bookkeeping every live manager keeps: identifiers are never 0.
pub open spec fn book_well_formed(book: CaptureBook) -> bool {
    book.live ==> book.upcoming >= 1 && (book.open matches Some(id) ==> id >= 1)
}

/// Opening and closing captures keep the bookkeeping well formed.
pub proof fn law_book_stays_well_formed(book: CaptureBook, id: u64)
    requires
        book_well_formed(book),
    ensures
        book_well_formed(book_after_begin(book)),
        book_well_formed(book_after_close(book, id)),
        book_well_formed(disposed_book()),
{
}

/// An opened capture can always be closed with the identifier it was
/// given, after which the slot is free and that identifier is stale: a
/// second close with it is refused and changes nothing.
pub proof fn law_capture_round_trip(book: CaptureBook)
    requires
        book.live,
        book.open is None,
    ensures
        begin_answer(book) == Some(book.upcoming),
        close_answer(book_after_begin(book), book.upcoming),
        book_after_close(book_after_begin(book), book.upcoming).open is None,
        !close_answer(book_after_close(book_after_begin(book), book.upcoming), book.upcoming),
        book_after_close(book_after_close(book_after_begin(book), book.upcoming), book.upcoming)
            == book_after_close(book_after_begin(book), book.upcoming),
        begin_answer(book_after_close(book_after_begin(book), book.upcoming)) is Some,
{
}

/// Only one capture may be open at a time: opening another is refused and
/// changes nothing.
pub proof fn law_single_open_capture(book: CaptureBook)
    requires
        book.open is Some,
    ensures
        begin_answer(book) is None,
        book_after_begin(book) == book,
{
}

/// Closing with an identifier that does not name the open capture is
/// refused and leaves the bookkeeping as it was.
pub proof fn law_mismatched_close_is_refused(book: CaptureBook, id: u64)
    requires
        book.open != Some(id),
    ensures
        !close_answer(book, id),
        book_after_close(book, id) == book,
{
}

/// A disposed manager refuses every capture operation.
pub proof fn law_disposed_refuses_captures(id: u64)
    ensures
        begin_answer(disposed_book()) is None,
        !close_answer(disposed_book(), id),
{
}

/// Consecutive captures on a live manager receive distinct identifiers.
pub proof fn law_consecutive_captures_differ(book: CaptureBook)
    requires
        book.live,
        book.open is None,
        book.upcoming >= 1,
    ensures
        begin_answer(book_after_close(book_after_begin(book), book.upcoming)) == Some(
            next_capture_id(book.upcoming),
        ),
        next_capture_id(book.upcoming) != book.upcoming,
{
}

} // verus!
