//! The decision logic of an atomic document transfer.
//!
//! A transfer moves or deep-copies one entry of an array or map to another
//! array gap or map slot. Everything here is pure: the document is read
//! elsewhere, and what those reads found is handed in as plain facts. Given
//! those facts, [`plan_transfer`] decides exactly which error is reported or
//! which writes are made.

use vstd::prelude::*;

verus! {

/// What an atomic document transfer actually did.
///
/// A move within one list is a real CRDT move; a move between parents is a
/// deep copy plus a removal, because no cross-parent move exists in the CRDT.
#[derive(Clone, Copy, Debug, PartialEq, Eq, Structural)]
pub enum YrsTransferOutcome {
    /// Nothing was written: the request was already satisfied.
    Unchanged,
    /// A real CRDT move within one list; the entry keeps its identity.
    Moved,
    /// The entry was deep-copied under its new parent and the original
    /// removed. Concurrent remote edits to the subtree are lost on sync, and
    /// handles held on the source become invalid.
    Reparented,
    /// The entry was deep-copied and the source left in place.
    Copied,
}

impl YrsTransferOutcome {
    /// Whether the document was modified: `false` only for `Unchanged`.
    pub fn changed_document(&self) -> (changed: bool)
        ensures
            changed == !(*self is Unchanged),
    {
        !matches!(self, YrsTransferOutcome::Unchanged)
    }
}

/// Whether an atomic document transfer removes or preserves its source entry.
#[derive(Clone, Copy, Debug, PartialEq, Eq, Structural)]
pub enum YrsTransferMode {
    Move,
    Copy,
}

/// One typed step through a nested map/array document tree.
#[derive(Clone, Debug)]
pub enum YrsPathSegment {
    Key(String),
    Index(u32),
}

/// A source or destination entry in an array or map.
///
/// Array indexes are insertion gaps when used as a destination. Map keys are
/// single-child slots and must be empty before a copy or non-trivial move.
#[derive(Clone, Debug)]
pub enum YrsTransferLocation {
    Array { path: Vec<YrsPathSegment>, index: u32 },
    MapEntry { path: Vec<YrsPathSegment>, key: String },
    /// Destination-only list slot owned by a map. If `key` is absent, an
    /// array is created inside the same transfer transaction; an existing
    /// non-array value is rejected before the first write.
    ArrayAtMapKey { parent_path: Vec<YrsPathSegment>, key: String, index: u32 },
}

/// The two container kinds a transfer path can walk through.
#[derive(Clone, Copy, Debug, PartialEq, Eq, Structural)]
pub enum ContainerKind {
    YMap,
    Array,
}

/// Which side of a transfer an error is about.
#[derive(Clone, Copy, Debug, PartialEq, Eq, Structural)]
pub enum Side {
    Source,
    Target,
}

/// The kind of a value found in a document, as error messages name it.
#[derive(Clone, Copy, Debug, PartialEq, Eq, Structural)]
pub enum ValueKind {
    YMap,
    Array,
    Text,
    XmlElement,
    XmlFragment,
    XmlText,
    Subdocument,
    /// A plain value, or a branch whose kind was never declared.
    NonContainer,
}

impl YrsPathSegment {
    /// The container kind this segment steps into: a key steps into a map,
    /// an index into an array.
    pub fn container_kind(&self) -> (kind: ContainerKind)
        ensures
            kind == spec_segment_kind(*self),
    {
        match self {
            YrsPathSegment::Key(_) => ContainerKind::YMap,
            YrsPathSegment::Index(_) => ContainerKind::Array,
        }
    }
}

pub open spec fn spec_segment_kind(segment: YrsPathSegment) -> ContainerKind {
    match segment {
        YrsPathSegment::Key(_) => ContainerKind::YMap,
        YrsPathSegment::Index(_) => ContainerKind::Array,
    }
}

/// Two path segments address the same step.
pub open spec fn same_segment(a: YrsPathSegment, b: YrsPathSegment) -> bool {
    match (a, b) {
        (YrsPathSegment::Key(x), YrsPathSegment::Key(y)) => x@ == y@,
        (YrsPathSegment::Index(i), YrsPathSegment::Index(j)) => i == j,
        _ => false,
    }
}

/// `prefix` is a prefix of `path`, segment by segment.
pub open spec fn path_starts_with(path: Seq<YrsPathSegment>, prefix: Seq<YrsPathSegment>) -> bool {
    &&& prefix.len() <= path.len()
    &&& forall|i: int| 0 <= i < prefix.len() ==> same_segment(#[trigger] prefix[i], path[i])
}

/// The path of the container-entry a location names, as resolution builds
/// it: an array-at-map-key location names the array under `key`.
pub open spec fn location_path(location: YrsTransferLocation) -> Seq<YrsPathSegment> {
    match location {
        YrsTransferLocation::Array { path, .. } => path@,
        YrsTransferLocation::MapEntry { path, .. } => path@,
        YrsTransferLocation::ArrayAtMapKey { parent_path, key, .. } => parent_path@.push(
            YrsPathSegment::Key(key),
        ),
    }
}

/// The target's path passes through the very entry the source names, so the
/// entry would have to be written into itself.
pub open spec fn spec_descends(
    source: YrsTransferLocation,
    target_path: Seq<YrsPathSegment>,
) -> bool {
    let source_path = location_path(source);
    &&& source_path.len() < target_path.len()
    &&& path_starts_with(target_path, source_path)
    &&& match source {
        YrsTransferLocation::Array { index, .. } => target_path[source_path.len() as int] matches YrsPathSegment::Index(next) && next == index,
        YrsTransferLocation::MapEntry { key, .. } => target_path[source_path.len() as int] matches YrsPathSegment::Key(next) && next@ == key@,
        YrsTransferLocation::ArrayAtMapKey { .. } => false,
    }
}

/// Whether two segments address the same step.
pub fn segments_equal(a: &YrsPathSegment, b: &YrsPathSegment) -> (equal: bool)
    ensures
        equal == same_segment(*a, *b),
{
    match (a, b) {
        (YrsPathSegment::Key(x), YrsPathSegment::Key(y)) => *x == *y,
        (YrsPathSegment::Index(i), YrsPathSegment::Index(j)) => i == j,
        _ => false,
    }
}

/// Whether `path` starts with `prefix`.
pub fn path_has_prefix(path: &Vec<YrsPathSegment>, prefix: &Vec<YrsPathSegment>) -> (starts: bool)
    ensures
        starts == path_starts_with(path@, prefix@),
{
    if prefix.len() > path.len() {
        return false;
    }
    let mut i: usize = 0;
    while i < prefix.len()
        invariant
            prefix.len() <= path.len(),
            0 <= i <= prefix.len(),
            forall|j: int| 0 <= j < i ==> same_segment(#[trigger] prefix@[j], path@[j]),
        decreases prefix.len() - i,
    {
        if !segments_equal(&prefix[i], &path[i]) {
            return false;
        }
        i = i + 1;
    }
    true
}

/// Whether writing at `target_path` would write into the entry `source`
/// names.
pub fn target_descends_into_source(
    source: &YrsTransferLocation,
    source_path: &Vec<YrsPathSegment>,
    target_path: &Vec<YrsPathSegment>,
) -> (descends: bool)
    requires
        source_path@ == location_path(*source),
    ensures
        descends == spec_descends(*source, target_path@),
{
    if !path_has_prefix(target_path, source_path) {
        return false;
    }
    if target_path.len() <= source_path.len() {
        return false;
    }
    let next = &target_path[source_path.len()];
    match (source, next) {
        (YrsTransferLocation::Array { index, .. }, YrsPathSegment::Index(n)) => *index == *n,
        (YrsTransferLocation::MapEntry { key, .. }, YrsPathSegment::Key(k)) => *key == *k,
        _ => false,
    }
}

/// What the transaction shows about a resolved location, read before any
/// write.
#[derive(Clone, Debug)]
pub enum SlotFacts {
    /// An array gap or entry, and the array's current length.
    Array { index: u32, len: u32 },
    /// A map slot, and whether it currently holds a value.
    MapEntry { key: String, occupied: bool },
    /// A gap in the array held under a map key, and that array's length if
    /// the key already holds one.
    ArrayAtMapKey { key: String, index: u32, existing_len: Option<u32> },
}

/// The writes a transfer makes.
#[derive(Clone, Copy, Debug, PartialEq, Eq, Structural)]
pub enum TransferPlan {
    /// Write nothing.
    Unchanged,
    /// CRDT-move one entry of an array to another gap of the same array.
    MoveWithin { from: u32, to: u32 },
    /// Deep-copy the source into the target, removing the source if asked.
    CopyOver { remove_source: bool },
}

/// Everything a transfer can be refused for.
#[derive(Clone, Debug)]
pub enum TransferError {
    PathEmpty { side: Side },
    PathStartsWithIndex { side: Side },
    RootMissing { side: Side, kind: ContainerKind, root: String },
    RootUndeclared { side: Side, root: String },
    RootWrongKind { side: Side, root: String, found: ValueKind, expected: ContainerKind },
    StepNeedsKey { side: Side, position: usize },
    StepNeedsIndex { side: Side, position: usize },
    StepUnresolved { side: Side, position: usize },
    StepNotContainer { side: Side, position: usize, found: ValueKind },
    PathWrongKind { side: Side, expected: ContainerKind },
    KeyNotArray { side: Side, key: String, found: ValueKind },
    Descends,
    SourceIndexOutOfRange { index: u32, len: u32 },
    SourceKeyMissing { key: String },
    SourceDestinationOnly,
    TargetIndexOutOfRange { index: u32, len: u32 },
    TargetKeyOccupied { key: String },
    SourceDisappeared,
    TooDeep { limit: usize },
    UndeclaredNested,
}

/// Whether a fact names an array entry (and, for an array-at-map-key, an
/// array that already exists), with the entry's index.
pub open spec fn array_entry_index(facts: SlotFacts) -> Option<u32> {
    match facts {
        SlotFacts::Array { index, .. } => Some(index),
        SlotFacts::ArrayAtMapKey { index, existing_len: Some(_), .. } => Some(index),
        _ => None,
    }
}

/// The source check: the entry to transfer exists.
pub open spec fn spec_source_check(source: SlotFacts) -> Option<TransferError> {
    match source {
        SlotFacts::Array { index, len } => if index < len {
            None
        } else {
            Some(TransferError::SourceIndexOutOfRange { index, len })
        },
        SlotFacts::MapEntry { key, occupied } => if occupied {
            None
        } else {
            Some(TransferError::SourceKeyMissing { key })
        },
        SlotFacts::ArrayAtMapKey { .. } => Some(TransferError::SourceDestinationOnly),
    }
}

/// The target check: the gap exists, or the slot is free.
pub open spec fn spec_target_check(target: SlotFacts) -> Option<TransferError> {
    match target {
        SlotFacts::Array { index, len } => if index <= len {
            None
        } else {
            Some(TransferError::TargetIndexOutOfRange { index, len })
        },
        SlotFacts::MapEntry { key, occupied } => if !occupied {
            None
        } else {
            Some(TransferError::TargetKeyOccupied { key })
        },
        SlotFacts::ArrayAtMapKey { index, existing_len, .. } => {
            let len = match existing_len {
                Some(len) => len,
                None => 0u32,
            };
            if index <= len {
                None
            } else {
                Some(TransferError::TargetIndexOutOfRange { index, len })
            }
        },
    }
}

/// Source and target are the same slot of the same map.
pub open spec fn spec_same_map_entry(source: SlotFacts, target: SlotFacts, same_map: bool) -> bool {
    match (source, target) {
        (SlotFacts::MapEntry { key: a, .. }, SlotFacts::MapEntry { key: b, .. }) => same_map && a@ == b@,
        _ => false,
    }
}

/// The whole transfer decision.
///
/// `same_map` says whether the two locations resolved to one map branch,
/// `same_array` whether their array entries belong to one array branch.
pub open spec fn spec_plan(
    mode: YrsTransferMode,
    descends: bool,
    source: SlotFacts,
    target: SlotFacts,
    same_map: bool,
    same_array: bool,
) -> Result<TransferPlan, TransferError> {
    if descends {
        Err(TransferError::Descends)
    } else if spec_source_check(source) is Some {
        Err(spec_source_check(source)->0)
    } else if mode == YrsTransferMode::Move && spec_same_map_entry(source, target, same_map) {
        Ok(TransferPlan::Unchanged)
    } else if spec_target_check(target) is Some {
        Err(spec_target_check(target)->0)
    } else if mode == YrsTransferMode::Move && array_entry_index(source) is Some
        && array_entry_index(target) is Some && same_array {
        let from = array_entry_index(source)->0;
        let to = array_entry_index(target)->0;
        if from == to || from + 1 == to {
            Ok(TransferPlan::Unchanged)
        } else {
            Ok(TransferPlan::MoveWithin { from, to })
        }
    } else {
        Ok(TransferPlan::CopyOver { remove_source: mode == YrsTransferMode::Move })
    }
}

/// The refusal a source slot earns on its own, if any.
pub fn source_check(source: &SlotFacts) -> (check: Option<TransferError>)
    ensures
        check == spec_source_check(*source),
{
    match source {
        SlotFacts::Array { index, len } => if *index < *len {
            None
        } else {
            Some(TransferError::SourceIndexOutOfRange { index: *index, len: *len })
        },
        SlotFacts::MapEntry { key, occupied } => if *occupied {
            None
        } else {
            Some(TransferError::SourceKeyMissing { key: key.clone() })
        },
        SlotFacts::ArrayAtMapKey { .. } => Some(TransferError::SourceDestinationOnly),
    }
}

/// The refusal a target slot earns on its own, if any.
pub fn target_check(target: &SlotFacts) -> (check: Option<TransferError>)
    ensures
        check == spec_target_check(*target),
{
    match target {
        SlotFacts::Array { index, len } => if *index <= *len {
            None
        } else {
            Some(TransferError::TargetIndexOutOfRange { index: *index, len: *len })
        },
        SlotFacts::MapEntry { key, occupied } => if !*occupied {
            None
        } else {
            Some(TransferError::TargetKeyOccupied { key: key.clone() })
        },
        SlotFacts::ArrayAtMapKey { index, existing_len, .. } => {
            let len = match existing_len {
                Some(len) => *len,
                None => 0u32,
            };
            if *index <= len {
                None
            } else {
                Some(TransferError::TargetIndexOutOfRange { index: *index, len })
            }
        },
    }
}

fn array_entry(facts: &SlotFacts) -> (entry: Option<u32>)
    ensures
        entry == array_entry_index(*facts),
{
    match facts {
        SlotFacts::Array { index, .. } => Some(*index),
        SlotFacts::ArrayAtMapKey { index, existing_len: Some(_), .. } => Some(*index),
        _ => None,
    }
}

fn same_map_entry(source: &SlotFacts, target: &SlotFacts, same_map: bool) -> (same: bool)
    ensures
        same == spec_same_map_entry(*source, *target, same_map),
{
    match (source, target) {
        (SlotFacts::MapEntry { key: a, .. }, SlotFacts::MapEntry { key: b, .. }) => same_map && *a == *b,
        _ => false,
    }
}

/// Decides a transfer from what the transaction showed: either the error
/// that refuses it, or the writes that perform it.
///
/// The checks run in a fixed order: ancestry, then the source, then the
/// same-map-slot short circuit of a move, then the target, then the
/// same-list move rules.
pub fn plan_transfer(
    mode: YrsTransferMode,
    descends: bool,
    source: &SlotFacts,
    target: &SlotFacts,
    same_map: bool,
    same_array: bool,
) -> (plan: Result<TransferPlan, TransferError>)
    ensures
        plan == spec_plan(mode, descends, *source, *target, same_map, same_array),
{
    if descends {
        return Err(TransferError::Descends);
    }
    if let Some(error) = source_check(source) {
        return Err(error);
    }
    let is_move = matches!(mode, YrsTransferMode::Move);
    if is_move && same_map_entry(source, target, same_map) {
        return Ok(TransferPlan::Unchanged);
    }
    if let Some(error) = target_check(target) {
        return Err(error);
    }
    if is_move && same_array {
        if let (Some(from), Some(to)) = (array_entry(source), array_entry(target)) {
            if from == to || from.checked_add(1) == Some(to) {
                return Ok(TransferPlan::Unchanged);
            }
            return Ok(TransferPlan::MoveWithin { from, to });
        }
    }
    Ok(TransferPlan::CopyOver { remove_source: is_move })
}

/// The outcome a successful plan reports.
pub open spec fn spec_plan_outcome(plan: TransferPlan) -> YrsTransferOutcome {
    match plan {
        TransferPlan::Unchanged => YrsTransferOutcome::Unchanged,
        TransferPlan::MoveWithin { .. } => YrsTransferOutcome::Moved,
        TransferPlan::CopyOver { remove_source } => if remove_source {
            YrsTransferOutcome::Reparented
        } else {
            YrsTransferOutcome::Copied
        },
    }
}

/// A move of an array entry to either gap adjacent to it, within its own
/// array, writes nothing.
pub proof fn law_adjacent_gap_move_is_unchanged(
    from: u32,
    len: u32,
    to: u32,
    target_len: u32,
)
    requires
        from < len,
        to == from || to == from + 1,
        to <= target_len,
    ensures
        spec_plan(
            YrsTransferMode::Move,
            false,
            SlotFacts::Array { index: from, len },
            SlotFacts::Array { index: to, len: target_len },
            false,
            true,
        ) == Ok::<TransferPlan, TransferError>(TransferPlan::Unchanged),
{
}

/// A move of an entry to a gap of its own list is a no-op exactly when the
/// gap is one of the two around the entry; to every other gap, before it
/// or after it, the entry really moves from its index to that gap. The
/// target may name the list directly or as the array held under a map key.
pub proof fn law_same_list_move_moves_unless_adjacent(
    from: u32,
    len: u32,
    to: u32,
    target_len: u32,
    key: String,
    same_map: bool,
)
    requires
        from < len,
        to <= target_len,
    ensures
        spec_plan(
            YrsTransferMode::Move,
            false,
            SlotFacts::Array { index: from, len },
            SlotFacts::Array { index: to, len: target_len },
            same_map,
            true,
        ) == (if to == from || to == from + 1 {
            Ok::<TransferPlan, TransferError>(TransferPlan::Unchanged)
        } else {
            Ok::<TransferPlan, TransferError>(TransferPlan::MoveWithin { from, to })
        }),
        spec_plan(
            YrsTransferMode::Move,
            false,
            SlotFacts::Array { index: from, len },
            SlotFacts::ArrayAtMapKey { key, index: to, existing_len: Some(target_len) },
            same_map,
            true,
        ) == (if to == from || to == from + 1 {
            Ok::<TransferPlan, TransferError>(TransferPlan::Unchanged)
        } else {
            Ok::<TransferPlan, TransferError>(TransferPlan::MoveWithin { from, to })
        }),
        to < from ==> spec_plan(
            YrsTransferMode::Move,
            false,
            SlotFacts::Array { index: from, len },
            SlotFacts::Array { index: to, len: target_len },
            same_map,
            true,
        ) == Ok::<TransferPlan, TransferError>(TransferPlan::MoveWithin { from, to }),
{
}

/// Moving a map entry onto its own slot writes nothing, while copying it
/// there is refused because the slot is occupied.
pub proof fn law_same_map_slot_move_is_unchanged_copy_is_refused(key: String)
    ensures
        spec_plan(
            YrsTransferMode::Move,
            false,
            SlotFacts::MapEntry { key, occupied: true },
            SlotFacts::MapEntry { key, occupied: true },
            true,
            false,
        ) == Ok::<TransferPlan, TransferError>(TransferPlan::Unchanged),
        spec_plan(
            YrsTransferMode::Copy,
            false,
            SlotFacts::MapEntry { key, occupied: true },
            SlotFacts::MapEntry { key, occupied: true },
            true,
            false,
        ) == Err::<TransferPlan, TransferError>(TransferError::TargetKeyOccupied { key }),
{
}

/// A copy that succeeds always writes, and never removes its source; a move
/// that succeeds never reports a copy.
pub proof fn law_modes_and_outcomes(
    mode: YrsTransferMode,
    descends: bool,
    source: SlotFacts,
    target: SlotFacts,
    same_map: bool,
    same_array: bool,
)
    ensures
        ({
            let plan = spec_plan(mode, descends, source, target, same_map, same_array);
            &&& mode == YrsTransferMode::Copy && plan is Ok ==> spec_plan_outcome(plan->Ok_0)
                == YrsTransferOutcome::Copied
            &&& mode == YrsTransferMode::Move && plan is Ok ==> spec_plan_outcome(plan->Ok_0)
                != YrsTransferOutcome::Copied
        }),
{
}

/// A transfer whose target lies inside its source entry is refused, and so
/// is one whose source is a destination-only location.
pub proof fn law_refusals(
    mode: YrsTransferMode,
    descends: bool,
    source: SlotFacts,
    target: SlotFacts,
    same_map: bool,
    same_array: bool,
)
    ensures
        descends ==> spec_plan(mode, descends, source, target, same_map, same_array)
            == Err::<TransferPlan, TransferError>(TransferError::Descends),
        !descends && source is ArrayAtMapKey ==> spec_plan(
            mode,
            descends,
            source,
            target,
            same_map,
            same_array,
        ) == Err::<TransferPlan, TransferError>(TransferError::SourceDestinationOnly),
{
}

} // verus!
