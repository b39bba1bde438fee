//! Running an atomic transfer inside one write transaction: resolve both
//! locations, read the facts the decision needs, decide, then write.

use vstd::prelude::*;

use yrs::{ArrayRef, In, MapRef, Out, TransactionMut};

use crate::transfer::{
    location_path, plan_transfer, path_has_prefix, spec_descends, spec_plan, spec_plan_outcome,
    spec_segment_kind,
    ContainerKind, TransferPlan, YrsTransferMode, YrsTransferOutcome, Side, SlotFacts, TransferError, ValueKind, YrsPathSegment,
    YrsTransferLocation,
};
use crate::txn_calls::{
    root_entry, map_entry, array_entry, array_branch, map_branch, array_deleted, map_deleted, walk_depth, walk_size, undeclared_free, copyable, deepest, total_size, any_undeclared, deepest_plain, plain_total, plain_values, entry_count, key_held, shape_of, array_get, array_insert, array_len, array_move, array_remove, clone_out, deep_copy,
    map_insert, map_insert_array, map_remove, array_values, classify_out, map_get, map_values, root_get, same_array,
    same_map, text_embeds, xml_element_attribute_values, xml_element_children,
    xml_fragment_children, xml_text_attribute_values, xml_text_embeds, OutShape,
};

verus! {

/// Deepest container nesting a transfer will copy.
///
/// Well above any plausible authored document and well below the depth that
/// overflows a small thread stack, so only pathological input reaches it.
pub const MAX_TRANSFER_DEPTH: usize = 128;

/// A container reached by walking a path.
pub enum PathContainer {
    YMap(MapRef),
    Array(ArrayRef),
}

impl PathContainer {
    /// The container's kind.
    pub fn kind(&self) -> (kind: ContainerKind)
        ensures
            kind == spec_container_kind(*self),
    {
        match self {
            PathContainer::YMap(_) => ContainerKind::YMap,
            PathContainer::Array(_) => ContainerKind::Array,
        }
    }
}

pub open spec fn spec_container_kind(container: PathContainer) -> ContainerKind {
    match container {
        PathContainer::YMap(_) => ContainerKind::YMap,
        PathContainer::Array(_) => ContainerKind::Array,
    }
}

/// A transfer location with its container resolved in the transaction.
pub enum ResolvedLocation {
    Array { path: Vec<YrsPathSegment>, array: ArrayRef, index: u32 },
    MapEntry { path: Vec<YrsPathSegment>, map: MapRef, key: String },
    ArrayAtMapKey {
        path: Vec<YrsPathSegment>,
        map: MapRef,
        key: String,
        array: Option<ArrayRef>,
        index: u32,
    },
}

impl ResolvedLocation {
    pub open spec fn spec_path(self) -> Seq<YrsPathSegment> {
        match self {
            ResolvedLocation::Array { path, .. } => path@,
            ResolvedLocation::MapEntry { path, .. } => path@,
            ResolvedLocation::ArrayAtMapKey { path, .. } => path@,
        }
    }

    /// The path this location was resolved at.
    pub fn path(&self) -> (path: &Vec<YrsPathSegment>)
        ensures
            path@ == self.spec_path(),
    {
        match self {
            ResolvedLocation::Array { path, .. } => path,
            ResolvedLocation::MapEntry { path, .. } => path,
            ResolvedLocation::ArrayAtMapKey { path, .. } => path,
        }
    }
}

/// The resolved location keeps the request's variant, slot and path.
pub open spec fn resolves(resolved: ResolvedLocation, location: YrsTransferLocation) -> bool {
    &&& resolved.spec_path() == location_path(location)
    &&& match (resolved, location) {
        (
            ResolvedLocation::Array { index: a, .. },
            YrsTransferLocation::Array { index: b, .. },
        ) => a == b,
        (
            ResolvedLocation::MapEntry { key: a, .. },
            YrsTransferLocation::MapEntry { key: b, .. },
        ) => a == b,
        (
            ResolvedLocation::ArrayAtMapKey { key: a, index: i, .. },
            YrsTransferLocation::ArrayAtMapKey { key: b, index: j, .. },
        ) => a == b && i == j,
        _ => false,
    }
}

/// The facts describe the resolved location's own slot.
pub open spec fn describes(facts: SlotFacts, resolved: ResolvedLocation) -> bool {
    match (facts, resolved) {
        (SlotFacts::Array { index: a, .. }, ResolvedLocation::Array { index: b, .. }) => a == b,
        (SlotFacts::MapEntry { key: a, .. }, ResolvedLocation::MapEntry { key: b, .. }) => a == b,
        (
            SlotFacts::ArrayAtMapKey { key: a, index: i, existing_len, .. },
            ResolvedLocation::ArrayAtMapKey { key: b, index: j, array, .. },
        ) => a == b && i == j && (existing_len is Some <==> array is Some),
        _ => false,
    }
}

/// The path a location names its container by.
pub open spec fn container_path(location: YrsTransferLocation) -> Seq<YrsPathSegment> {
    match location {
        YrsTransferLocation::Array { path, .. } => path@,
        YrsTransferLocation::MapEntry { path, .. } => path@,
        YrsTransferLocation::ArrayAtMapKey { parent_path, .. } => parent_path@,
    }
}

/// The refusal a malformed path earns before anything is read.
pub open spec fn path_shape_error(path: Seq<YrsPathSegment>, side: Side) -> Option<TransferError> {
    if path.len() == 0 {
        Some(TransferError::PathEmpty { side })
    } else if path[0] is Index {
        Some(TransferError::PathStartsWithIndex { side })
    } else {
        None
    }
}

/// The side an error is reported against, for errors raised while
/// resolving a location.
pub open spec fn error_side(error: TransferError) -> Option<Side> {
    match error {
        TransferError::PathEmpty { side } => Some(side),
        TransferError::PathStartsWithIndex { side } => Some(side),
        TransferError::RootMissing { side, .. } => Some(side),
        TransferError::RootUndeclared { side, .. } => Some(side),
        TransferError::RootWrongKind { side, .. } => Some(side),
        TransferError::StepNeedsKey { side, .. } => Some(side),
        TransferError::StepNeedsIndex { side, .. } => Some(side),
        TransferError::StepUnresolved { side, .. } => Some(side),
        TransferError::StepNotContainer { side, .. } => Some(side),
        TransferError::PathWrongKind { side, .. } => Some(side),
        TransferError::KeyNotArray { side, .. } => Some(side),
        _ => None,
    }
}

/// How an error message names the kind of what a read found.
pub fn value_kind(shape: &OutShape) -> (kind: ValueKind)
    ensures
        kind == spec_value_kind(*shape),
{
    match shape {
        OutShape::Value(_) => ValueKind::NonContainer,
        OutShape::Text(_) => ValueKind::Text,
        OutShape::Array(_) => ValueKind::Array,
        OutShape::YMap(_) => ValueKind::YMap,
        OutShape::XmlElement(_) => ValueKind::XmlElement,
        OutShape::XmlFragment(_) => ValueKind::XmlFragment,
        OutShape::XmlText(_) => ValueKind::XmlText,
        OutShape::Subdocument(_) => ValueKind::Subdocument,
        OutShape::Undeclared => ValueKind::NonContainer,
    }
}

pub open spec fn spec_value_kind(shape: OutShape) -> ValueKind {
    match shape {
        OutShape::Value(_) => ValueKind::NonContainer,
        OutShape::Text(_) => ValueKind::Text,
        OutShape::Array(_) => ValueKind::Array,
        OutShape::YMap(_) => ValueKind::YMap,
        OutShape::XmlElement(_) => ValueKind::XmlElement,
        OutShape::XmlFragment(_) => ValueKind::XmlFragment,
        OutShape::XmlText(_) => ValueKind::XmlText,
        OutShape::Subdocument(_) => ValueKind::Subdocument,
        OutShape::Undeclared => ValueKind::NonContainer,
    }
}

/// What resolving a root answers, given what the document holds under its
/// name: the root as a container of the `kind` the path needs, or the
/// refusal — missing, of another kind (naming the kind found), or of a
/// kind never declared.
pub open spec fn spec_root_container(
    found: Option<OutShape>,
    root: String,
    kind: ContainerKind,
    side: Side,
) -> Result<PathContainer, TransferError> {
    match found {
        None => Err(TransferError::RootMissing { side, kind, root }),
        Some(OutShape::YMap(map)) => if kind == ContainerKind::YMap {
            Ok(PathContainer::YMap(map))
        } else {
            Err(TransferError::RootWrongKind { side, root, found: ValueKind::YMap, expected: kind })
        },
        Some(OutShape::Array(array)) => if kind == ContainerKind::Array {
            Ok(PathContainer::Array(array))
        } else {
            Err(TransferError::RootWrongKind { side, root, found: ValueKind::Array, expected: kind })
        },
        Some(OutShape::Undeclared) => Err(TransferError::RootUndeclared { side, root }),
        Some(other) => Err(
            TransferError::RootWrongKind { side, root, found: spec_value_kind(other), expected: kind },
        ),
    }
}

/// Decides a root from what the document holds under its name.
pub fn root_container(
    found: Option<OutShape>,
    root: &String,
    kind: ContainerKind,
    side: Side,
) -> (resolved: Result<PathContainer, TransferError>)
    ensures
        resolved == spec_root_container(found, *root, kind, side),
{
    match found {
        None => Err(TransferError::RootMissing { side, kind, root: root.clone() }),
        Some(OutShape::YMap(map)) => if matches!(kind, ContainerKind::YMap) {
            Ok(PathContainer::YMap(map))
        } else {
            Err(
                TransferError::RootWrongKind {
                    side,
                    root: root.clone(),
                    found: ValueKind::YMap,
                    expected: kind,
                },
            )
        },
        Some(OutShape::Array(array)) => if matches!(kind, ContainerKind::Array) {
            Ok(PathContainer::Array(array))
        } else {
            Err(
                TransferError::RootWrongKind {
                    side,
                    root: root.clone(),
                    found: ValueKind::Array,
                    expected: kind,
                },
            )
        },
        Some(OutShape::Undeclared) => Err(TransferError::RootUndeclared { side, root: root.clone() }),
        Some(other) => {
            let found = value_kind(&other);
            Err(TransferError::RootWrongKind { side, root: root.clone(), found, expected: kind })
        },
    }
}

/// Whether a container reached by walking names a branch that is not
/// deleted.
pub open spec fn container_live(txn: &TransactionMut<'_>, container: PathContainer) -> bool {
    match container {
        PathContainer::YMap(map) => !map_deleted(txn, map),
        PathContainer::Array(array) => !array_deleted(txn, array),
    }
}

/// Whether every branch a resolved slot names is not deleted.
pub open spec fn slot_live(txn: &TransactionMut<'_>, slot: ResolvedSlot) -> bool {
    match slot {
        ResolvedSlot::Array(array) => !array_deleted(txn, array),
        ResolvedSlot::YMap(map) => !map_deleted(txn, map),
        ResolvedSlot::KeyArray(map, array) => !map_deleted(txn, map) && (array matches Some(a)
            ==> !array_deleted(txn, a)),
    }
}

/// What a read found, told apart.
pub open spec fn found_shape(found: Option<Out>) -> Option<OutShape> {
    match found {
        Some(out) => Some(shape_of(out)),
        None => None,
    }
}

/// What resolving a root answers in the document `txn` writes.
pub open spec fn spec_resolve_root(
    txn: &TransactionMut<'_>,
    root: String,
    kind: ContainerKind,
    side: Side,
) -> Result<PathContainer, TransferError> {
    spec_root_container(found_shape(root_entry(txn, root@)), root, kind, side)
}

/// Resolves one root container, refusing a kind the document contradicts.
///
/// A root whose kind was never declared (every root of a document loaded
/// from bytes, until the application reads it through a typed accessor) is
/// refused: its kind cannot be recovered from outside yrs.
pub fn resolve_root(
    txn: &TransactionMut<'_>,
    root: &String,
    kind: ContainerKind,
    side: Side,
) -> (resolved: Result<PathContainer, TransferError>)
    ensures
        resolved == spec_resolve_root(txn, *root, kind, side),
        resolved is Ok ==> spec_container_kind(resolved->Ok_0) == kind,
        resolved is Err ==> error_side(resolved->Err_0) == Some(side),
        resolved matches Ok(container) ==> container_live(txn, container),
{
    let found = match root_get(txn, root.as_str()) {
        None => None,
        Some(out) => Some(classify_out(out)),
    };
    root_container(found, root, kind, side)
}

/// The refusal a path step earns before anything is read: a map is stepped
/// into by key, an array by index.
pub open spec fn spec_step_mismatch(
    container: ContainerKind,
    segment: YrsPathSegment,
    side: Side,
    position: usize,
) -> Option<TransferError> {
    match (container, segment) {
        (ContainerKind::YMap, YrsPathSegment::Index(_)) => Some(
            TransferError::StepNeedsKey { side, position },
        ),
        (ContainerKind::Array, YrsPathSegment::Key(_)) => Some(
            TransferError::StepNeedsIndex { side, position },
        ),
        _ => None,
    }
}

/// What a path step reaches, given what the read at that step found: the
/// nested map or array, or the refusal — nothing there, or not a container
/// (naming the kind found).
pub open spec fn spec_step_container(
    found: Option<OutShape>,
    side: Side,
    position: usize,
) -> Result<PathContainer, TransferError> {
    match found {
        None => Err(TransferError::StepUnresolved { side, position }),
        Some(OutShape::YMap(map)) => Ok(PathContainer::YMap(map)),
        Some(OutShape::Array(array)) => Ok(PathContainer::Array(array)),
        Some(other) => Err(
            TransferError::StepNotContainer { side, position, found: spec_value_kind(other) },
        ),
    }
}

/// Decides a path step from what the read at that step found.
pub fn step_container(found: Option<OutShape>, side: Side, position: usize) -> (reached: Result<
    PathContainer,
    TransferError,
>)
    ensures
        reached == spec_step_container(found, side, position),
{
    match found {
        None => Err(TransferError::StepUnresolved { side, position }),
        Some(OutShape::YMap(map)) => Ok(PathContainer::YMap(map)),
        Some(OutShape::Array(array)) => Ok(PathContainer::Array(array)),
        Some(other) => {
            let found = value_kind(&other);
            Err(TransferError::StepNotContainer { side, position, found })
        },
    }
}

/// What an array-at-map-key location finds under its key: no array yet, the
/// array there, or the refusal of a value that is not an array (naming its
/// kind).
pub open spec fn spec_key_array(found: Option<OutShape>, key: String, side: Side) -> Result<
    Option<ArrayRef>,
    TransferError,
> {
    match found {
        None => Ok(None),
        Some(OutShape::Array(array)) => Ok(Some(array)),
        Some(other) => Err(TransferError::KeyNotArray { side, key, found: spec_value_kind(other) }),
    }
}

/// Decides what an array-at-map-key location finds under its key.
pub fn key_array(found: Option<OutShape>, key: &String, side: Side) -> (slot: Result<
    Option<ArrayRef>,
    TransferError,
>)
    ensures
        slot == spec_key_array(found, *key, side),
{
    match found {
        None => Ok(None),
        Some(OutShape::Array(array)) => Ok(Some(array)),
        Some(other) => {
            let found = value_kind(&other);
            Err(TransferError::KeyNotArray { side, key: key.clone(), found })
        },
    }
}

/// Decides whether a path step's segment fits the container it steps into.
pub fn step_mismatch(
    container: ContainerKind,
    segment: &YrsPathSegment,
    side: Side,
    position: usize,
) -> (mismatch: Option<TransferError>)
    ensures
        mismatch == spec_step_mismatch(container, *segment, side, position),
{
    match (container, segment) {
        (ContainerKind::YMap, YrsPathSegment::Index(_)) => Some(
            TransferError::StepNeedsKey { side, position },
        ),
        (ContainerKind::Array, YrsPathSegment::Key(_)) => Some(
            TransferError::StepNeedsIndex { side, position },
        ),
        _ => None,
    }
}

/// What one step of a walk reads: the value under the segment's key or at
/// its index, when the segment fits the container.
pub open spec fn step_read(
    txn: &TransactionMut<'_>,
    current: PathContainer,
    segment: YrsPathSegment,
) -> Option<Out> {
    match (current, segment) {
        (PathContainer::YMap(map), YrsPathSegment::Key(key)) => map_entry(txn, map, key@),
        (PathContainer::Array(array), YrsPathSegment::Index(index)) => array_entry(txn, array, index),
        _ => None,
    }
}

/// Walking `path` on from `position`, at the container `current`, in the
/// document `txn` writes: each step must fit its container and reach a map
/// or an array.
pub open spec fn spec_walk(
    txn: &TransactionMut<'_>,
    path: Seq<YrsPathSegment>,
    position: usize,
    current: PathContainer,
    side: Side,
) -> Result<PathContainer, TransferError>
    decreases path.len() - position,
{
    if position >= path.len() {
        Ok(current)
    } else {
        match spec_step_mismatch(spec_container_kind(current), path[position as int], side, position) {
            Some(error) => Err(error),
            None => match spec_step_container(
                found_shape(step_read(txn, current, path[position as int])),
                side,
                position,
            ) {
                Ok(next) => if position + 1 <= usize::MAX {
                    spec_walk(txn, path, (position + 1) as usize, next, side)
                } else {
                    Ok(next)
                },
                Err(error) => Err(error),
            },
        }
    }
}

/// What resolving `path` to a container of the `expected` kind answers in
/// the document `txn` writes: the path's shape error; else the root's,
/// resolved as the kind its next step implies (or `expected` for a one-step
/// path); else the walk's; else a container of the wrong kind.
pub open spec fn spec_resolve_container(
    txn: &TransactionMut<'_>,
    path: Seq<YrsPathSegment>,
    expected: ContainerKind,
    side: Side,
) -> Result<PathContainer, TransferError> {
    match path_shape_error(path, side) {
        Some(error) => Err(error),
        None => {
            let root_kind = if path.len() > 1 {
                spec_segment_kind(path[1])
            } else {
                expected
            };
            match spec_resolve_root(txn, path[0]->Key_0, root_kind, side) {
                Err(error) => Err(error),
                Ok(root) => match spec_walk(txn, path, 1, root, side) {
                    Err(error) => Err(error),
                    Ok(container) => if spec_container_kind(container) == expected {
                        Ok(container)
                    } else {
                        Err(TransferError::PathWrongKind { side, expected })
                    },
                },
            }
        },
    }
}

/// Walks `path` from its root to the container it names, which must have
/// the `expected` kind.
///
/// `path[0]` names a root; its kind is the one the next step implies, or
/// `expected` for a one-step path.
pub fn resolve_container(
    txn: &TransactionMut<'_>,
    path: &Vec<YrsPathSegment>,
    expected: ContainerKind,
    side: Side,
) -> (resolved: Result<PathContainer, TransferError>)
    ensures
        resolved == spec_resolve_container(txn, path@, expected, side),
        resolved is Ok ==> spec_container_kind(resolved->Ok_0) == expected,
        resolved is Err ==> error_side(resolved->Err_0) == Some(side),
        resolved matches Ok(container) ==> container_live(txn, container),
{
    if path.len() == 0 {
        return Err(TransferError::PathEmpty { side });
    }
    let root = match &path[0] {
        YrsPathSegment::Key(root) => root,
        YrsPathSegment::Index(_) => {
            return Err(TransferError::PathStartsWithIndex { side });
        },
    };
    let root_kind = if path.len() > 1 {
        path[1].container_kind()
    } else {
        expected
    };
    let mut current = match resolve_root(txn, root, root_kind, side) {
        Ok(container) => container,
        Err(error) => {
            return Err(error);
        },
    };
    let ghost root_container_view = current;
    let mut position: usize = 1;
    while position < path.len()
        invariant
            1 <= position <= path.len(),
            path_shape_error(path@, side) is None,
            spec_resolve_root(
                txn,
                path@[0]->Key_0,
                if path@.len() > 1 {
                    spec_segment_kind(path@[1])
                } else {
                    expected
                },
                side,
            ) == Ok::<PathContainer, TransferError>(root_container_view),
            container_live(txn, current),
            spec_walk(txn, path@, 1, root_container_view, side) == spec_walk(
                txn,
                path@,
                position,
                current,
                side,
            ),
        decreases path.len() - position,
    {
        match step_mismatch(current.kind(), &path[position], side, position) {
            Some(error) => {
                assert(spec_walk(txn, path@, position, current, side) == Err::<
                    PathContainer,
                    TransferError,
                >(error));
                return Err(error);
            },
            None => {},
        }
        let found = match (&current, &path[position]) {
            (PathContainer::YMap(map), YrsPathSegment::Key(key)) => map_get(
                txn,
                map,
                key.as_str(),
            ),
            (PathContainer::Array(array), YrsPathSegment::Index(index)) => array_get(
                txn,
                array,
                *index,
            ),
            _ => None,
        };
        let ghost found_view = found;
        assert(found_view == step_read(txn, current, path@[position as int]));
        let shape = match found {
            Some(out) => Some(classify_out(out)),
            None => None,
        };
        assert(shape == found_shape(found_view));
        let ghost before_step = current;
        current =
        match step_container(shape, side, position) {
            Ok(container) => container,
            Err(error) => {
                assert(spec_walk(txn, path@, position, before_step, side) == Err::<
                    PathContainer,
                    TransferError,
                >(error));
                return Err(error);
            },
        };
        position = position + 1;
    }
    if current.kind() == expected {
        Ok(current)
    } else {
        Err(TransferError::PathWrongKind { side, expected })
    }
}

/// The kind of container a location's path must name: an array for an
/// array slot, a map for a map slot or an array-at-map-key.
pub open spec fn location_container_kind(location: YrsTransferLocation) -> ContainerKind {
    match location {
        YrsTransferLocation::Array { .. } => ContainerKind::Array,
        _ => ContainerKind::YMap,
    }
}

/// The slot a location resolves to, before its facts are read: an array, a
/// map, or a map and the array under the location's key, if any.
pub enum ResolvedSlot {
    Array(ArrayRef),
    YMap(MapRef),
    KeyArray(MapRef, Option<ArrayRef>),
}

/// The slot a resolved location names.
pub open spec fn slot_of(resolved: ResolvedLocation) -> ResolvedSlot {
    match resolved {
        ResolvedLocation::Array { array, .. } => ResolvedSlot::Array(array),
        ResolvedLocation::MapEntry { map, .. } => ResolvedSlot::YMap(map),
        ResolvedLocation::ArrayAtMapKey { map, array, .. } => ResolvedSlot::KeyArray(map, array),
    }
}

/// What resolving a location answers in the document `txn` writes: its
/// container's resolution, and for an array-at-map-key what is under the
/// key.
pub open spec fn spec_resolve_slot(
    txn: &TransactionMut<'_>,
    location: YrsTransferLocation,
    side: Side,
) -> Result<ResolvedSlot, TransferError> {
    match spec_resolve_container(
        txn,
        container_path(location),
        location_container_kind(location),
        side,
    ) {
        Err(error) => Err(error),
        Ok(container) => match (location, container) {
            (YrsTransferLocation::Array { .. }, PathContainer::Array(array)) => Ok(
                ResolvedSlot::Array(array),
            ),
            (YrsTransferLocation::MapEntry { .. }, PathContainer::YMap(map)) => Ok(
                ResolvedSlot::YMap(map),
            ),
            (YrsTransferLocation::ArrayAtMapKey { key, .. }, PathContainer::YMap(map)) => match spec_key_array(
                found_shape(map_entry(txn, map, key@)),
                key,
                side,
            ) {
                Ok(array) => Ok(ResolvedSlot::KeyArray(map, array)),
                Err(error) => Err(error),
            },
            _ => Err(
                TransferError::PathWrongKind { side, expected: location_container_kind(location) },
            ),
        },
    }
}

/// Resolves a transfer location's container in the transaction.
pub fn resolve_location(
    txn: &TransactionMut<'_>,
    location: YrsTransferLocation,
    side: Side,
) -> (resolved: Result<ResolvedLocation, TransferError>)
    ensures
        path_shape_error(container_path(location), side) is Some ==> resolved == Err::<
            ResolvedLocation,
            TransferError,
        >(path_shape_error(container_path(location), side)->0),
        resolved is Ok ==> resolves(resolved->Ok_0, location),
        resolved is Err ==> error_side(resolved->Err_0) == Some(side),
        spec_resolve_slot(txn, location, side) == match resolved {
            Ok(r) => Ok::<ResolvedSlot, TransferError>(slot_of(r)),
            Err(error) => Err::<ResolvedSlot, TransferError>(error),
        },
        resolved matches Ok(r) ==> slot_live(txn, slot_of(r)),
{
    match location {
        YrsTransferLocation::Array { path, index } => {
            match resolve_container(txn, &path, ContainerKind::Array, side) {
                Ok(PathContainer::Array(array)) => Ok(ResolvedLocation::Array { path, array, index }),
                Ok(PathContainer::YMap(_)) => {
                    proof {
                        assert(false);
                    }
                    Err(TransferError::PathWrongKind { side, expected: ContainerKind::Array })
                },
                Err(error) => Err(error),
            }
        },
        YrsTransferLocation::MapEntry { path, key } => {
            match resolve_container(txn, &path, ContainerKind::YMap, side) {
                Ok(PathContainer::YMap(map)) => Ok(ResolvedLocation::MapEntry { path, map, key }),
                Ok(PathContainer::Array(_)) => {
                    proof {
                        assert(false);
                    }
                    Err(TransferError::PathWrongKind { side, expected: ContainerKind::YMap })
                },
                Err(error) => Err(error),
            }
        },
        YrsTransferLocation::ArrayAtMapKey { parent_path, key, index } => {
            let map = match resolve_container(txn, &parent_path, ContainerKind::YMap, side) {
                Ok(PathContainer::YMap(map)) => map,
                Ok(PathContainer::Array(_)) => {
                    proof {
                        assert(false);
                    }
                    return Err(
                        TransferError::PathWrongKind { side, expected: ContainerKind::YMap },
                    );
                },
                Err(error) => {
                    return Err(error);
                },
            };
            let found = match map_get(txn, &map, key.as_str()) {
                None => None,
                Some(out) => Some(classify_out(out)),
            };
            let array = match key_array(found, &key, side) {
                Ok(array) => array,
                Err(error) => {
                    return Err(error);
                },
            };
            let mut path = parent_path;
            path.push(YrsPathSegment::Key(key.clone()));
            Ok(ResolvedLocation::ArrayAtMapKey { path, map, key, array, index })
        },
    }
}

/// The facts the transaction `txn` shows about a resolved location: the
/// length of its array, or whether its map slot is held.
pub open spec fn facts_in(txn: &TransactionMut<'_>, facts: SlotFacts, resolved: ResolvedLocation) -> bool {
    match (facts, resolved) {
        (SlotFacts::Array { len, .. }, ResolvedLocation::Array { array, .. }) => len == entry_count(
            txn,
            array,
        ),
        (SlotFacts::MapEntry { occupied, .. }, ResolvedLocation::MapEntry { map, key, .. }) => occupied
            == key_held(txn, map, key@),
        (
            SlotFacts::ArrayAtMapKey { existing_len, .. },
            ResolvedLocation::ArrayAtMapKey { array, .. },
        ) => match (existing_len, array) {
            (Some(len), Some(array)) => len == entry_count(txn, array),
            _ => true,
        },
        _ => false,
    }
}

/// The facts the transaction `txn` shows about a resolved location.
pub open spec fn spec_read_facts(txn: &TransactionMut<'_>, resolved: ResolvedLocation) -> SlotFacts {
    match resolved {
        ResolvedLocation::Array { array, index, .. } => SlotFacts::Array {
            index,
            len: entry_count(txn, array),
        },
        ResolvedLocation::MapEntry { map, key, .. } => SlotFacts::MapEntry {
            key,
            occupied: key_held(txn, map, key@),
        },
        ResolvedLocation::ArrayAtMapKey { key, array, index, .. } => SlotFacts::ArrayAtMapKey {
            key,
            index,
            existing_len: match array {
                Some(array) => Some(entry_count(txn, array)),
                None => None,
            },
        },
    }
}

/// Reads the facts the transfer decision needs about one resolved location.
pub fn read_facts(txn: &TransactionMut<'_>, resolved: &ResolvedLocation) -> (facts: SlotFacts)
    ensures
        describes(facts, *resolved),
        facts_in(txn, facts, *resolved),
        facts == spec_read_facts(txn, *resolved),
{
    match resolved {
        ResolvedLocation::Array { array, index, .. } => SlotFacts::Array {
            index: *index,
            len: array_len(txn, array),
        },
        ResolvedLocation::MapEntry { map, key, .. } => SlotFacts::MapEntry {
            key: key.clone(),
            occupied: map_get(txn, map, key.as_str()).is_some(),
        },
        ResolvedLocation::ArrayAtMapKey { key, array, index, .. } => {
            let existing_len = match array {
                Some(array) => Some(array_len(txn, array)),
                None => None,
            };
            SlotFacts::ArrayAtMapKey { key: key.clone(), index: *index, existing_len }
        },
    }
}

/// Both slots are one map branch.
pub open spec fn slots_same_map(source: ResolvedSlot, target: ResolvedSlot) -> bool {
    match (source, target) {
        (ResolvedSlot::YMap(a), ResolvedSlot::YMap(b)) => map_branch(a) == map_branch(b),
        _ => false,
    }
}

/// The array a slot's entry belongs to, where it exists.
pub open spec fn slot_array(slot: ResolvedSlot) -> Option<ArrayRef> {
    match slot {
        ResolvedSlot::Array(array) => Some(array),
        ResolvedSlot::KeyArray(_, Some(array)) => Some(array),
        _ => None,
    }
}

/// Both slots' entries belong to one array branch.
pub open spec fn slots_same_array(source: ResolvedSlot, target: ResolvedSlot) -> bool {
    match (slot_array(source), slot_array(target)) {
        (Some(a), Some(b)) => array_branch(a) == array_branch(b),
        _ => false,
    }
}

/// What the transaction holds at a resolved source's slot.
pub open spec fn source_read(txn: &TransactionMut<'_>, source: ResolvedLocation) -> Option<Out> {
    match source {
        ResolvedLocation::Array { array, index, .. } => array_entry(txn, array, index),
        ResolvedLocation::MapEntry { map, key, .. } => map_entry(txn, map, key@),
        ResolvedLocation::ArrayAtMapKey { .. } => None,
    }
}

/// Whether both locations are slots of one map branch; never, unless both
/// are map slots.
fn same_map_branch(source: &ResolvedLocation, target: &ResolvedLocation) -> (same: bool)
    ensures
        same ==> *source is MapEntry && *target is MapEntry,
        same == slots_same_map(slot_of(*source), slot_of(*target)),
{
    match (source, target) {
        (ResolvedLocation::MapEntry { map: a, .. }, ResolvedLocation::MapEntry { map: b, .. }) => same_map(a, b),
        _ => false,
    }
}

/// The array a resolved location's entry belongs to, where it exists.
pub open spec fn spec_existing_array(location: ResolvedLocation) -> Option<ArrayRef> {
    match location {
        ResolvedLocation::Array { array, .. } => Some(array),
        ResolvedLocation::ArrayAtMapKey { array: Some(array), .. } => Some(array),
        _ => None,
    }
}

/// The array a resolved location's entry belongs to, where it exists.
fn existing_array(location: &ResolvedLocation) -> (array: Option<&ArrayRef>)
    ensures
        match array {
            Some(a) => spec_existing_array(*location) == Some(*a),
            None => spec_existing_array(*location) is None,
        },
{
    match location {
        ResolvedLocation::Array { array, .. } => Some(array),
        ResolvedLocation::ArrayAtMapKey { array: Some(array), .. } => Some(array),
        _ => None,
    }
}

/// Whether both locations' array entries belong to one array branch; never,
/// unless both name an existing array.
fn same_array_branch(source: &ResolvedLocation, target: &ResolvedLocation) -> (same: bool)
    ensures
        same ==> spec_existing_array(*source) is Some && spec_existing_array(*target) is Some,
        same == slots_same_array(slot_of(*source), slot_of(*target)),
{
    match (existing_array(source), existing_array(target)) {
        (Some(a), Some(b)) => same_array(a, b),
        _ => false,
    }
}

/// The refusal one value of a source earns, met at nesting level `depth`:
/// too deep past `limit`, then a container of undeclared kind.
pub open spec fn spec_depth_step(shape: OutShape, depth: usize, limit: usize) -> Option<TransferError> {
    if depth > limit {
        Some(TransferError::TooDeep { limit })
    } else if shape is Undeclared {
        Some(TransferError::UndeclaredNested)
    } else {
        None
    }
}

/// Decides the refusal one value of a source earns at nesting level `depth`.
pub fn depth_step(shape: &OutShape, depth: usize, limit: usize) -> (refusal: Option<TransferError>)
    ensures
        refusal == spec_depth_step(*shape, depth, limit),
{
    if depth > limit {
        Some(TransferError::TooDeep { limit })
    } else if matches!(shape, OutShape::Undeclared) {
        Some(TransferError::UndeclaredNested)
    } else {
        None
    }
}

/// The larger of two measures.
pub open spec fn larger(a: nat, b: nat) -> nat {
    if a > b {
        a
    } else {
        b
    }
}

/// One pending value of the depth walk: the value, the level it is met at,
/// and whether a rendering walks it.
pub type WalkEntry = (Out, usize, bool);

/// Whether a pending value is fine: its walk ends by level `limit` and meets
/// no branch of undeclared kind.
pub open spec fn entry_fine(txn: &TransactionMut<'_>, entry: WalkEntry, limit: usize) -> bool {
    &&& walk_depth(txn, entry.0, entry.2) + entry.1 <= limit + 1
    &&& undeclared_free(txn, entry.0)
}

/// Whether every pending value is fine.
pub open spec fn all_fine(txn: &TransactionMut<'_>, entries: Seq<WalkEntry>, limit: usize) -> bool {
    forall|i: int| 0 <= i < entries.len() ==> entry_fine(txn, #[trigger] entries[i], limit)
}

/// How many values the walks through all pending values still visit.
pub open spec fn pending_size(txn: &TransactionMut<'_>, entries: Seq<WalkEntry>) -> nat
    decreases entries.len(),
{
    if entries.len() == 0 {
        0
    } else {
        pending_size(txn, entries.drop_last()) + walk_size(
            txn,
            entries.last().0,
            entries.last().2,
        )
    }
}

/// Every walk ends no deeper than the deepest of its sequence.
proof fn lemma_within_deepest(txn: &TransactionMut<'_>, values: Seq<Out>, rendered: bool, i: int)
    requires
        0 <= i < values.len(),
    ensures
        walk_depth(txn, values[i], rendered) <= deepest(txn, values, rendered),
    decreases values.len(),
{
    if i < values.len() - 1 {
        let rest = values.drop_last();
        lemma_within_deepest(txn, rest, rendered, i);
        assert(rest[i] == values[i]);
    }
}

/// No walk of `values` ends deeper than `bound`, so neither does the
/// deepest.
proof fn lemma_deepest_bound(txn: &TransactionMut<'_>, values: Seq<Out>, rendered: bool, bound: nat)
    requires
        forall|i: int| 0 <= i < values.len() ==> walk_depth(txn, #[trigger] values[i], rendered) <= bound,
    ensures
        deepest(txn, values, rendered) <= bound,
    decreases values.len(),
{
    if values.len() > 0 {
        let rest = values.drop_last();
        assert forall|i: int| 0 <= i < rest.len() implies walk_depth(txn, #[trigger] rest[i], rendered)
            <= bound by {
            assert(rest[i] == values[i]);
        }
        lemma_deepest_bound(txn, rest, rendered, bound);
        assert(walk_depth(txn, values[values.len() - 1], rendered) <= bound);
    }
}

/// Rendered plain values walk as deep and as far as their own nesting
/// says, and hold no branch.
proof fn lemma_plain_walks(txn: &TransactionMut<'_>, values: Seq<Out>)
    requires
        forall|i: int| 0 <= i < values.len() ==> (#[trigger] shape_of(values[i])) is Value,
    ensures
        deepest(txn, values, true) == deepest_plain(values),
        total_size(txn, values, true) == plain_total(values),
        !any_undeclared(txn, values),
    decreases values.len(),
{
    if values.len() > 0 {
        let rest = values.drop_last();
        assert forall|i: int| 0 <= i < rest.len() implies (#[trigger] shape_of(rest[i])) is Value by {
            assert(rest[i] == values[i]);
        }
        lemma_plain_walks(txn, rest);
        assert(shape_of(values[values.len() - 1]) is Value);
        assert forall|i: int| 0 <= i < values.len() implies undeclared_free(
            txn,
            #[trigger] values[i],
        ) by {
            assert(shape_of(values[i]) is Value);
        }
    }
}

/// Pending one more value adds its walk to what is still to visit.
proof fn lemma_pending_push(txn: &TransactionMut<'_>, entries: Seq<WalkEntry>, entry: WalkEntry)
    ensures
        pending_size(txn, entries.push(entry)) == pending_size(txn, entries) + walk_size(
            txn,
            entry.0,
            entry.2,
        ),
{
    assert(entries.push(entry).drop_last() =~= entries);
}

/// Pushes `values`, each met at level `depth` and walked as `rendered`
/// says, onto the pending walk.
fn push_pending(pending: &mut Vec<WalkEntry>, values: Vec<Out>, depth: usize, rendered: bool)
    ensures
        final(pending)@ =~= old(pending)@ + Seq::new(
            values@.len(),
            |i: int| (values@[i], depth, rendered),
        ),
{
    let ghost base = pending@;
    let ghost all = values@;
    for value in it: values
        invariant
            it.seq() == all,
            pending@ =~= base + Seq::new(it.index() as nat, |i: int| (all[i], depth, rendered)),
    {
        pending.push((value, depth, rendered));
    }
}

/// The pending walk grows, by pushing values met at one level, by exactly
/// their walks, and stays fine exactly when each of them is.
proof fn lemma_pushed(
    txn: &TransactionMut<'_>,
    base: Seq<WalkEntry>,
    values: Seq<Out>,
    depth: usize,
    rendered: bool,
    limit: usize,
)
    requires
        depth <= limit + 1,
    ensures
        pending_size(
            txn,
            base + Seq::new(values.len(), |i: int| (values[i], depth, rendered)),
        ) == pending_size(txn, base) + total_size(txn, values, rendered),
        all_fine(txn, base + Seq::new(values.len(), |i: int| (values[i], depth, rendered)), limit)
            <==> (all_fine(txn, base, limit) && deepest(txn, values, rendered) + depth <= limit + 1
            && !any_undeclared(txn, values)),
    decreases values.len(),
{
    let pushed = Seq::new(values.len(), |i: int| (values[i], depth, rendered));
    if values.len() == 0 {
        assert(base + pushed =~= base);
    } else {
        let n = values.len() - 1;
        let fewer = values.drop_last();
        let fewer_pushed = Seq::new(fewer.len(), |i: int| (fewer[i], depth, rendered));
        lemma_pushed(txn, base, fewer, depth, rendered, limit);
        assert(base + pushed =~= (base + fewer_pushed).push((values[n], depth, rendered)));
        lemma_pending_push(txn, base + fewer_pushed, (values[n], depth, rendered));
        let whole = base + pushed;
        let part = base + fewer_pushed;
        if all_fine(txn, whole, limit) {
            assert forall|i: int| 0 <= i < part.len() implies entry_fine(txn, #[trigger] part[i], limit) by {
                assert(part[i] == whole[i]);
            }
            assert(entry_fine(txn, whole[base.len() + n], limit));
            assert forall|i: int| 0 <= i < fewer.len() implies !!undeclared_free(txn, #[trigger] fewer[i]) by {
                assert(fewer[i] == values[i]);
                assert(entry_fine(txn, whole[base.len() + i], limit));
            }
            assert forall|i: int| 0 <= i < values.len() implies !!undeclared_free(txn, #[trigger] values[i]) by {
                assert(entry_fine(txn, whole[base.len() + i], limit));
            }
        }
        if all_fine(txn, base, limit) && deepest(txn, values, rendered) + depth <= limit + 1
            && !any_undeclared(txn, values) {
            assert forall|i: int| 0 <= i < whole.len() implies entry_fine(txn, #[trigger] whole[i], limit) by {
                if i >= base.len() {
                    lemma_within_deepest(txn, values, rendered, i - base.len());
                    assert(undeclared_free(txn, values[i - base.len()]));
                }
            }
        }
        if all_fine(txn, whole, limit) {
            assert forall|i: int| 0 <= i < values.len() implies walk_depth(
                txn,
                #[trigger] values[i],
                rendered,
            ) <= (limit + 1 - depth) as nat by {
                assert(entry_fine(txn, whole[base.len() + i], limit));
            }
            lemma_deepest_bound(txn, values, rendered, (limit + 1 - depth) as nat);
            assert forall|i: int| 0 <= i < base.len() implies entry_fine(txn, #[trigger] base[i], limit) by {
                assert(base[i] == whole[i]);
            }
        }
    }
}

/// Refuses a source whose nesting is deeper than `limit`, or that holds a
/// container of undeclared kind, before anything copies it.
///
/// Deep-copying recurses once per nesting level, and nesting depth is
/// remote-influenced, so the source is measured iteratively first. The walk
/// visits exactly the values a deep copy recurses into: map and array
/// values, xml children, the values text and xml text deltas embed, and the
/// xml attribute values a copy renders as text, with the plain values
/// nested in those and the formatting values a rendered xml text writes. The source passes exactly when its walk ends by level
/// `limit` and meets no branch of undeclared kind.
pub fn validate_copy_depth(txn: &TransactionMut<'_>, out: Out, limit: usize) -> (checked: Result<
    (),
    TransferError,
>)
    requires
        limit < usize::MAX,
    ensures
        checked is Ok <==> copyable(txn, out, limit as nat),
        checked is Err ==> checked == Err::<(), TransferError>(TransferError::TooDeep { limit })
            || checked == Err::<(), TransferError>(TransferError::UndeclaredNested),
        spec_depth_step(shape_of(out), 1, limit) matches Some(error) ==> checked == Err::<
            (),
            TransferError,
        >(error),
{
    let ghost root = out;
    let mut pending: Vec<WalkEntry> = Vec::new();
    pending.push((out, 1, false));
    let ghost mut first = true;
    assert(all_fine(txn, pending@, limit) <==> entry_fine(txn, pending@[0], limit));
    loop
        invariant
            limit < usize::MAX,
            root == out,
            first ==> pending@.len() == 1 && pending@[0] == (root, 1usize, false),
            !first ==> spec_depth_step(shape_of(root), 1, limit) is None,
            forall|i: int| 0 <= i < pending@.len() ==> (#[trigger] pending@[i]).1 <= limit + 1,
            all_fine(txn, pending@, limit) <==> copyable(txn, root, limit as nat),
        decreases pending_size(txn, pending@),
    {
        let ghost before = pending@;
        let (current, depth, rendered) = match pending.pop() {
            None => {
                assert(all_fine(txn, pending@, limit));
                return Ok(());
            },
            Some(entry) => entry,
        };
        let ghost rest = pending@;
        let ghost cur = current;
        assert(before == rest.push((cur, depth, rendered)));
        assert(before.drop_last() == rest);
        assert(all_fine(txn, before, limit) <==> all_fine(txn, rest, limit) && entry_fine(
            txn,
            (cur, depth, rendered),
            limit,
        )) by {
            if all_fine(txn, before, limit) {
                assert forall|i: int| 0 <= i < rest.len() implies entry_fine(txn, #[trigger] rest[i], limit) by {
                    assert(rest[i] == before[i]);
                }
                assert(entry_fine(txn, before[rest.len() as int], limit));
            }
        }
        let shape = classify_out(current);
        match depth_step(&shape, depth, limit) {
            Some(error) => {
                return Err(error);
            },
            None => {},
        }
        let (children, attributes) = match shape {
            OutShape::Value(any) => {
                if rendered {
                    let values = plain_values(&any);
                    proof {
                        lemma_plain_walks(txn, values@);
                    }
                    (values, Vec::new())
                } else {
                    (Vec::new(), Vec::new())
                }
            },
            OutShape::Subdocument(_) => (Vec::new(), Vec::new()),
            OutShape::Text(text) => (text_embeds(txn, &text), Vec::new()),
            OutShape::XmlText(text) => {
                let embedded = xml_text_embeds(txn, &text);
                let rendered_values = xml_text_attribute_values(txn, &text);
                (embedded, rendered_values)
            },
            OutShape::YMap(map) => (map_values(txn, &map), Vec::new()),
            OutShape::Array(array) => (array_values(txn, &array), Vec::new()),
            OutShape::XmlElement(element) => {
                let childed = xml_element_children(txn, &element);
                let rendered_values = xml_element_attribute_values(txn, &element);
                (childed, rendered_values)
            },
            OutShape::XmlFragment(fragment) => (xml_fragment_children(txn, &fragment), Vec::new()),
            OutShape::Undeclared => (Vec::new(), Vec::new()),
        };
        let ghost kids = children@;
        let ghost attrs = attributes@;
        proof {
            assert(walk_depth(txn, cur, rendered) == 1 + larger(
                deepest(txn, kids, rendered),
                deepest(txn, attrs, true),
            ));
            assert(walk_size(txn, cur, rendered) == 1 + total_size(txn, kids, rendered) + total_size(
                txn,
                attrs,
                true,
            ));
            assert(undeclared_free(txn, cur) == (!any_undeclared(txn, kids) && !any_undeclared(
                txn,
                attrs,
            )));
        }
        push_pending(&mut pending, children, depth + 1, rendered);
        let ghost middle = pending@;
        push_pending(&mut pending, attributes, depth + 1, true);
        proof {
            lemma_pushed(txn, rest, kids, (depth + 1) as usize, rendered, limit);
            lemma_pushed(txn, middle, attrs, (depth + 1) as usize, true, limit);
            assert(pending@.len() == rest.len() + kids.len() + attrs.len());
            assert forall|i: int| 0 <= i < pending@.len() implies (#[trigger] pending@[i]).1 <= limit
                + 1 by {
                if i < rest.len() {
                    assert(pending@[i] == rest[i]);
                } else if i < middle.len() {
                    assert(pending@[i] == middle[i]);
                }
            }
            first = false;
        }
    }
}

/// Whether writing at `target_path` would write into the entry the resolved
/// source names.
pub fn resolved_descends(source: &ResolvedLocation, target_path: &Vec<YrsPathSegment>) -> (descends:
    bool)
    ensures
        forall|location: YrsTransferLocation|
            resolves(*source, location) ==> descends == spec_descends(location, target_path@),
{
    let source_path = source.path();
    if !path_has_prefix(target_path, source_path) {
        return false;
    }
    if target_path.len() <= source_path.len() {
        return false;
    }
    let next = &target_path[source_path.len()];
    match (source, next) {
        (ResolvedLocation::Array { index, .. }, YrsPathSegment::Index(n)) => *index == *n,
        (ResolvedLocation::MapEntry { key, .. }, YrsPathSegment::Key(k)) => *key == *k,
        _ => false,
    }
}

/// The entry a resolved source location names, if it holds one; an
/// array-at-map-key location names a gap, never an entry.
fn source_entry(txn: &TransactionMut<'_>, source: &ResolvedLocation) -> (entry: Option<Out>)
    ensures
        *source is ArrayAtMapKey ==> entry is None,
        entry == source_read(txn, *source),
{
    match source {
        ResolvedLocation::Array { array, index, .. } => array_get(txn, array, *index),
        ResolvedLocation::MapEntry { map, key, .. } => map_get(txn, map, key.as_str()),
        ResolvedLocation::ArrayAtMapKey { .. } => None,
    }
}

/// A detached deep copy of the source entry, made only once the entry has
/// been measured.
fn copy_source(txn: &TransactionMut<'_>, source: &ResolvedLocation) -> (copied: Result<
    In,
    TransferError,
>)
    ensures
        copied is Err ==> copied == Err::<In, TransferError>(TransferError::SourceDisappeared)
            || copied == Err::<In, TransferError>(
            TransferError::TooDeep { limit: MAX_TRANSFER_DEPTH },
        ) || copied == Err::<In, TransferError>(TransferError::UndeclaredNested),
        *source is ArrayAtMapKey ==> copied == Err::<In, TransferError>(
            TransferError::SourceDisappeared,
        ),
        source_read(txn, *source) is None <==> copied == Err::<In, TransferError>(
            TransferError::SourceDisappeared,
        ),
        source_read(txn, *source) matches Some(entry) ==> (copied is Ok <==> copyable(
            txn,
            entry,
            MAX_TRANSFER_DEPTH as nat,
        )),
{
    let out = match source_entry(txn, source) {
        Some(out) => out,
        None => {
            return Err(TransferError::SourceDisappeared);
        },
    };
    match validate_copy_depth(txn, clone_out(&out), MAX_TRANSFER_DEPTH) {
        Ok(()) => {},
        Err(error) => {
            return Err(error);
        },
    }
    Ok(deep_copy(txn, &out))
}

/// Removes the source entry, which must exist: the array holds one entry
/// fewer, or the map key is no longer held.
fn remove_source(txn: &mut TransactionMut<'_>, source: &ResolvedLocation)
    requires
        !(*source is ArrayAtMapKey),
        *source matches ResolvedLocation::Array { array, index, .. } ==> index < entry_count(
            old(txn),
            array,
        ),
    ensures
        *source matches ResolvedLocation::Array { array, .. } ==> entry_count(final(txn), array)
            == entry_count(old(txn), array) - 1,
        *source matches ResolvedLocation::MapEntry { map, key, .. } ==> !key_held(
            final(txn),
            map,
            key@,
        ),
{
    match source {
        ResolvedLocation::Array { array, index, .. } => array_remove(txn, array, *index),
        ResolvedLocation::MapEntry { map, key, .. } => map_remove(txn, map, key.as_str()),
        ResolvedLocation::ArrayAtMapKey { .. } => {},
    }
}

/// What writing one value at a resolved slot leaves, in a document whose
/// branches there are not deleted: an array holds one entry more; a map
/// holds the location's key.
pub open spec fn slot_written(
    before: &TransactionMut<'_>,
    after: &TransactionMut<'_>,
    location: YrsTransferLocation,
    slot: ResolvedSlot,
) -> bool {
    match (location, slot) {
        (YrsTransferLocation::Array { .. }, ResolvedSlot::Array(array)) => entry_count(after, array)
            == entry_count(before, array) + 1,
        (YrsTransferLocation::MapEntry { key, .. }, ResolvedSlot::YMap(map)) => key_held(
            after,
            map,
            key@,
        ),
        (
            YrsTransferLocation::ArrayAtMapKey { .. },
            ResolvedSlot::KeyArray(_, Some(array)),
        ) => entry_count(after, array) == entry_count(before, array) + 1,
        (YrsTransferLocation::ArrayAtMapKey { key, .. }, ResolvedSlot::KeyArray(map, None)) => key_held(
            after,
            map,
            key@,
        ),
        _ => false,
    }
}

/// Inserts `value` into `array` at the gap `index`, re-reading the length
/// first: the gap was checked before this transfer's first write, and
/// should the array have shortened since, the value lands at its end. The
/// gap used is returned.
fn insert_into_array(txn: &mut TransactionMut<'_>, array: &ArrayRef, index: u32, value: In) -> (at:
    u32)
    ensures
        at == (if index <= entry_count(old(txn), *array) {
            index
        } else {
            entry_count(old(txn), *array)
        }),
        !array_deleted(old(txn), *array) ==> entry_count(final(txn), *array) == entry_count(
            old(txn),
            *array,
        ) + 1,
        forall|m: MapRef, k: Seq<char>|
            #[trigger] key_held(final(txn), m, k) || !key_held(old(txn), m, k),
{
    let len = array_len(txn, array);
    let at = if index <= len {
        index
    } else {
        len
    };
    array_insert(txn, array, at, value);
    at
}

/// Writes `value` at the target's slot: the array gap (its index, or the
/// array's end should the array have shortened since the check), or the map
/// key; for an array-at-map-key target whose key was absent, a new array is
/// created under the key, in this same transaction, and receives the value
/// at its only gap. The array gap used is returned.
fn insert_target(txn: &mut TransactionMut<'_>, target: &ResolvedLocation, value: In) -> (at:
    Option<u32>)
    ensures
        *target matches ResolvedLocation::Array { array, index, .. } ==> at == Some(
            if index <= entry_count(old(txn), array) {
                index
            } else {
                entry_count(old(txn), array)
            },
        ),
        *target matches ResolvedLocation::ArrayAtMapKey { array: Some(array), index, .. } ==> at
            == Some(
            if index <= entry_count(old(txn), array) {
                index
            } else {
                entry_count(old(txn), array)
            },
        ),
        *target matches ResolvedLocation::ArrayAtMapKey { array: None, .. } ==> at == Some(0u32),
        *target is MapEntry ==> at is None,
        forall|location: YrsTransferLocation|
            #![trigger resolves(*target, location)]
            resolves(*target, location) && slot_live(old(txn), slot_of(*target)) ==> slot_written(
                old(txn),
                final(txn),
                location,
                slot_of(*target),
            ),
{
    match target {
        ResolvedLocation::Array { array, index, .. } => Some(
            insert_into_array(txn, array, *index, value),
        ),
        ResolvedLocation::MapEntry { map, key, .. } => {
            map_insert(txn, map, key.as_str(), value);
            None
        },
        ResolvedLocation::ArrayAtMapKey { map, key, array, index, .. } => match array {
            Some(array) => Some(insert_into_array(txn, array, *index, value)),
            None => {
                let created = map_insert_array(txn, map, key.as_str());
                Some(insert_into_array(txn, &created, *index, value))
            },
        },
    }
}

/// The facts that fit a requested location: the same variant, slot key and
/// index.
pub open spec fn facts_for(facts: SlotFacts, location: YrsTransferLocation) -> bool {
    match (facts, location) {
        (SlotFacts::Array { index: a, .. }, YrsTransferLocation::Array { index: b, .. }) => a == b,
        (SlotFacts::MapEntry { key: a, .. }, YrsTransferLocation::MapEntry { key: b, .. }) => a == b,
        (
            SlotFacts::ArrayAtMapKey { key: a, index: i, .. },
            YrsTransferLocation::ArrayAtMapKey { key: b, index: j, .. },
        ) => a == b && i == j,
        _ => false,
    }
}

/// What a transfer of `source` to `target` answers when the transaction
/// shows the given facts: the plan's outcome, or the plan's refusal.
pub open spec fn planned_outcome(
    mode: YrsTransferMode,
    source: YrsTransferLocation,
    target: YrsTransferLocation,
    source_facts: SlotFacts,
    target_facts: SlotFacts,
    same_map: bool,
    same_array: bool,
) -> Result<YrsTransferOutcome, TransferError> {
    match spec_plan(
        mode,
        spec_descends(source, location_path(target)),
        source_facts,
        target_facts,
        same_map,
        same_array,
    ) {
        Ok(plan) => Ok(spec_plan_outcome(plan)),
        Err(error) => Err(error),
    }
}

/// The facts a resolved slot shows in `txn`, for the location it resolves.
pub open spec fn slot_facts(
    txn: &TransactionMut<'_>,
    location: YrsTransferLocation,
    slot: ResolvedSlot,
) -> SlotFacts {
    match (location, slot) {
        (YrsTransferLocation::Array { index, .. }, ResolvedSlot::Array(array)) => SlotFacts::Array {
            index,
            len: entry_count(txn, array),
        },
        (YrsTransferLocation::MapEntry { key, .. }, ResolvedSlot::YMap(map)) => SlotFacts::MapEntry {
            key,
            occupied: key_held(txn, map, key@),
        },
        (
            YrsTransferLocation::ArrayAtMapKey { key, index, .. },
            ResolvedSlot::KeyArray(_, array),
        ) => SlotFacts::ArrayAtMapKey {
            key,
            index,
            existing_len: match array {
                Some(array) => Some(entry_count(txn, array)),
                None => None,
            },
        },
        _ => SlotFacts::Array { index: 0, len: 0 },
    }
}

/// What the transaction holds at a resolved source slot.
pub open spec fn slot_read(
    txn: &TransactionMut<'_>,
    location: YrsTransferLocation,
    slot: ResolvedSlot,
) -> Option<Out> {
    match (location, slot) {
        (YrsTransferLocation::Array { index, .. }, ResolvedSlot::Array(array)) => array_entry(
            txn,
            array,
            index,
        ),
        (YrsTransferLocation::MapEntry { key, .. }, ResolvedSlot::YMap(map)) => map_entry(
            txn,
            map,
            key@,
        ),
        _ => None,
    }
}

/// What moving or copying `source` to `target` answers in the document
/// `txn` writes: the source's resolution error, then the target's; else the
/// plan decided from the facts both slots show (the plan's refusal, no
/// write, a move within one list, or a copy, with the source removed for a
/// move). A move within one list re-reads the list's length; a copy needs
/// the source entry still there, and is refused exactly when the entry
/// nests too deep or holds a branch of undeclared kind.
pub open spec fn transfer_answer(
    txn: &TransactionMut<'_>,
    mode: YrsTransferMode,
    source: YrsTransferLocation,
    target: YrsTransferLocation,
    outcome: Result<YrsTransferOutcome, TransferError>,
) -> bool {
    match spec_resolve_slot(txn, source, Side::Source) {
        Err(error) => outcome == Err::<YrsTransferOutcome, TransferError>(error),
        Ok(source_slot) => match spec_resolve_slot(txn, target, Side::Target) {
            Err(error) => outcome == Err::<YrsTransferOutcome, TransferError>(error),
            Ok(target_slot) => match spec_plan(
                mode,
                spec_descends(source, location_path(target)),
                slot_facts(txn, source, source_slot),
                slot_facts(txn, target, target_slot),
                slots_same_map(source_slot, target_slot),
                slots_same_array(source_slot, target_slot),
            ) {
                Err(error) => outcome == Err::<YrsTransferOutcome, TransferError>(error),
                Ok(TransferPlan::Unchanged) => outcome == Ok::<YrsTransferOutcome, TransferError>(
                    YrsTransferOutcome::Unchanged,
                ),
                Ok(TransferPlan::MoveWithin { to, .. }) => match source_slot {
                    ResolvedSlot::Array(array) => if to <= entry_count(txn, array) {
                        outcome == Ok::<YrsTransferOutcome, TransferError>(
                            YrsTransferOutcome::Moved,
                        )
                    } else {
                        outcome == Err::<YrsTransferOutcome, TransferError>(
                            TransferError::TargetIndexOutOfRange {
                                index: to,
                                len: entry_count(txn, array),
                            },
                        )
                    },
                    _ => outcome == Ok::<YrsTransferOutcome, TransferError>(
                        YrsTransferOutcome::Moved,
                    ),
                },
                Ok(TransferPlan::CopyOver { remove_source }) => match slot_read(
                    txn,
                    source,
                    source_slot,
                ) {
                    None => outcome == Err::<YrsTransferOutcome, TransferError>(
                        TransferError::SourceDisappeared,
                    ),
                    Some(entry) => if copyable(txn, entry, MAX_TRANSFER_DEPTH as nat) {
                        outcome == Ok::<YrsTransferOutcome, TransferError>(
                            if remove_source {
                                YrsTransferOutcome::Reparented
                            } else {
                                YrsTransferOutcome::Copied
                            },
                        )
                    } else {
                        outcome == Err::<YrsTransferOutcome, TransferError>(
                            TransferError::TooDeep { limit: MAX_TRANSFER_DEPTH },
                        ) || outcome == Err::<YrsTransferOutcome, TransferError>(
                            TransferError::UndeclaredNested,
                        )
                    },
                },
            },
        },
    }
}

/// Moves or deep-copies one entry inside the write transaction `txn`.
///
/// Paths, container kinds, source existence, target availability, indexes
/// and ancestry are all checked against `txn` before its first write: a
/// refused transfer, like one that is already satisfied, writes nothing.
/// A copy leaves the target array one entry longer, or the target key held;
/// a move within one list leaves its length as it was.
pub fn transfer_in_transaction(
    txn: &mut TransactionMut<'_>,
    mode: YrsTransferMode,
    source: YrsTransferLocation,
    target: YrsTransferLocation,
) -> (outcome: Result<YrsTransferOutcome, TransferError>)
    ensures
        outcome is Err ==> *final(txn) == *old(txn),
        outcome == Ok::<YrsTransferOutcome, TransferError>(YrsTransferOutcome::Unchanged)
            ==> *final(txn) == *old(txn),
        path_shape_error(container_path(source), Side::Source) is Some ==> outcome == Err::<
            YrsTransferOutcome,
            TransferError,
        >(path_shape_error(container_path(source), Side::Source)->0),
        transfer_answer(old(txn), mode, source, target, outcome),
        source is ArrayAtMapKey ==> outcome is Err,
        spec_descends(source, location_path(target)) ==> outcome is Err && (outcome->Err_0 is Descends
            || error_side(outcome->Err_0) is Some),
        outcome is Ok ==> exists|sf: SlotFacts, tf: SlotFacts, same_map: bool, same_array: bool|
            {
                &&& facts_for(sf, source)
                &&& facts_for(tf, target)
                &&& same_map ==> sf is MapEntry && tf is MapEntry
                &&& outcome == #[trigger] planned_outcome(
                    mode,
                    source,
                    target,
                    sf,
                    tf,
                    same_map,
                    same_array,
                )
            },
        mode == YrsTransferMode::Copy && outcome is Ok ==> outcome == Ok::<
            YrsTransferOutcome,
            TransferError,
        >(YrsTransferOutcome::Copied),
        mode == YrsTransferMode::Move && outcome is Ok ==> outcome != Ok::<
            YrsTransferOutcome,
            TransferError,
        >(YrsTransferOutcome::Copied),
        outcome == Ok::<YrsTransferOutcome, TransferError>(YrsTransferOutcome::Moved) ==> (
        spec_resolve_slot(old(txn), source, Side::Source) matches Ok(ResolvedSlot::Array(array))
            ==> entry_count(final(txn), array) == entry_count(old(txn), array)),
        outcome == Ok::<YrsTransferOutcome, TransferError>(YrsTransferOutcome::Copied) ==> (
        spec_resolve_slot(old(txn), target, Side::Target) matches Ok(slot) && slot_written(
            old(txn),
            final(txn),
            target,
            slot,
        )),
{
    let ghost requested_source = source;
    let ghost requested_target = target;
    let source = match resolve_location(&*txn, source, Side::Source) {
        Ok(resolved) => resolved,
        Err(error) => {
            return Err(error);
        },
    };
    let target = match resolve_location(&*txn, target, Side::Target) {
        Ok(resolved) => resolved,
        Err(error) => {
            return Err(error);
        },
    };
    let descends = resolved_descends(&source, target.path());
    let source_facts = read_facts(&*txn, &source);
    let target_facts = read_facts(&*txn, &target);
    let same_map_flag = same_map_branch(&source, &target);
    let same_array_flag = same_array_branch(&source, &target);
    let plan = plan_transfer(
        mode,
        descends,
        &source_facts,
        &target_facts,
        same_map_flag,
        same_array_flag,
    );
    proof {
        crate::transfer::law_modes_and_outcomes(
            mode,
            descends,
            source_facts,
            target_facts,
            same_map_flag,
            same_array_flag,
        );
        crate::transfer::law_refusals(
            mode,
            descends,
            source_facts,
            target_facts,
            same_map_flag,
            same_array_flag,
        );
    }
    proof {
        assert(planned_outcome(
            mode,
            requested_source,
            requested_target,
            source_facts,
            target_facts,
            same_map_flag,
            same_array_flag,
        ) == match plan {
            Ok(p) => Ok::<YrsTransferOutcome, TransferError>(spec_plan_outcome(p)),
            Err(e) => Err::<YrsTransferOutcome, TransferError>(e),
        });
    }
    match plan {
        Err(error) => Err(error),
        Ok(TransferPlan::Unchanged) => Ok(YrsTransferOutcome::Unchanged),
        Ok(TransferPlan::MoveWithin { from, to }) => {
            match &source {
                ResolvedLocation::Array { array, .. } => {
                    // Both locations named this one array when the facts
                    // were read; its length is read again before moving.
                    let len = array_len(&*txn, array);
                    if to > len {
                        return Err(TransferError::TargetIndexOutOfRange { index: to, len });
                    }
                    array_move(txn, array, from, to);
                },
                _ => {},
            }
            Ok(YrsTransferOutcome::Moved)
        },
        Ok(TransferPlan::CopyOver { remove_source: remove }) => {
            let transferred = match copy_source(&*txn, &source) {
                Ok(value) => value,
                Err(error) => {
                    return Err(error);
                },
            };
            if remove {
                remove_source(txn, &source);
                let _ = insert_target(txn, &target, transferred);
                Ok(YrsTransferOutcome::Reparented)
            } else {
                let _ = insert_target(txn, &target, transferred);
                Ok(YrsTransferOutcome::Copied)
            }
        },
    }
}

} // verus!
