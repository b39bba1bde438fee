//! Moving and copying document entries in one transaction.

use std::sync::Mutex;

use yrs::types::ToJson;
use yrs::{
    Any, Array, ArrayPrelim, ArrayRef, Doc, GetString, In, MapPrelim, MapRef, Origin, Out,
    ReadTxn, Text, TextPrelim, Transact, TransactionMut, Xml, XmlElementPrelim, XmlFragment,
    XmlTextPrelim,
};

use yrs::Map as MapMethods;
use yrs_bindings::origin::YRS_DART_LOCAL_ORIGIN;
use yrs_bindings::transfer::{
    YrsPathSegment, YrsTransferLocation, YrsTransferMode, YrsTransferOutcome,
};
use yrs_bindings::transfer_run::MAX_TRANSFER_DEPTH;
use yrs_bindings::yrs_doc::YrsDoc;

/// A write transaction tagged with the local origin, as the library's own
/// writes are.
fn local_txn(doc: &Doc) -> TransactionMut<'_> {
    doc.transact_mut_with(Origin::from(&YRS_DART_LOCAL_ORIGIN[..]))
}

/// The plain value a JSON literal describes.
fn json(src: &str) -> Any {
    Any::from_json(src).expect("test literal must be valid JSON")
}

fn key(name: &str) -> YrsPathSegment {
    YrsPathSegment::Key(name.to_owned())
}

fn at(position: u32) -> YrsPathSegment {
    YrsPathSegment::Index(position)
}

fn array_slot(path: &[YrsPathSegment], index: u32) -> YrsTransferLocation {
    YrsTransferLocation::Array {
        path: path.to_vec(),
        index,
    }
}

fn map_slot(path: &[YrsPathSegment], key: &str) -> YrsTransferLocation {
    YrsTransferLocation::MapEntry {
        path: path.to_vec(),
        key: key.to_owned(),
    }
}

fn array_at_map_key(
    parent_path: &[YrsPathSegment],
    key: &str,
    index: u32,
) -> YrsTransferLocation {
    YrsTransferLocation::ArrayAtMapKey {
        parent_path: parent_path.to_vec(),
        key: key.to_owned(),
        index,
    }
}

fn text(value: &str) -> In {
    In::from(value.to_owned())
}

/// Seed a root array with plain string entries.
fn seed_list(doc: &YrsDoc, name: &str, values: &[&str]) -> ArrayRef {
    let array = doc.yrs_doc().get_or_insert_array(name);
    let mut txn = local_txn(&doc.yrs_doc());
    for value in values {
        array.push_back(&mut txn, text(value));
    }
    array
}

fn seed_map(doc: &YrsDoc, name: &str) -> MapRef {
    doc.yrs_doc().get_or_insert_map(name)
}

fn array_state(doc: &YrsDoc, name: &str) -> Any {
    let txn = doc.yrs_doc().transact();
    txn.get_array(name)
        .expect("root array must exist")
        .to_json(&txn)
}

fn map_state(doc: &YrsDoc, name: &str) -> Any {
    let txn = doc.yrs_doc().transact();
    txn.get_map(name)
        .expect("root map must exist")
        .to_json(&txn)
}

/// Run a transfer expected to succeed with a write.
fn transfer(
    doc: &YrsDoc,
    mode: YrsTransferMode,
    source: YrsTransferLocation,
    target: YrsTransferLocation,
) {
    let outcome = doc
        .transfer_entry_atomically(mode, source, target)
        .expect("transfer was expected to succeed");
    assert!(
        outcome.changed_document(),
        "transfer was expected to write, got {outcome:?}"
    );
}

/// Run a transfer expected to be rejected, asserting the whole document is
/// byte-identical afterwards, and return the error message.
fn reject(
    doc: &YrsDoc,
    mode: YrsTransferMode,
    source: YrsTransferLocation,
    target: YrsTransferLocation,
) -> String {
    let before = doc.save();
    let error = doc
        .transfer_entry_atomically(mode, source, target)
        .expect_err("transfer was expected to be rejected");
    assert_eq!(
        doc.save(),
        before,
        "a rejected transfer must leave the document untouched"
    );
    error
}

/// Run a transfer expected to report `Unchanged`, asserting it wrote nothing.
fn no_op(
    doc: &YrsDoc,
    mode: YrsTransferMode,
    source: YrsTransferLocation,
    target: YrsTransferLocation,
) {
    let before = doc.save();
    assert_eq!(
        doc.transfer_entry_atomically(mode, source, target),
        Ok(YrsTransferOutcome::Unchanged),
        "transfer was expected to be a no-op"
    );
    assert_eq!(
        doc.save(),
        before,
        "a no-op transfer must leave the document untouched"
    );
}

#[test]
fn array_move_within_one_list_reorders_without_duplicating() {
    let doc = YrsDoc::new_empty();
    seed_list(&doc, "list", &["a", "b", "c"]);

    transfer(
        &doc,
        YrsTransferMode::Move,
        array_slot(&[key("list")], 0),
        array_slot(&[key("list")], 3),
    );

    assert_eq!(array_state(&doc, "list"), json(r#"["b", "c", "a"]"#));
}

#[test]
fn array_move_within_one_list_handles_backwards_moves() {
    let doc = YrsDoc::new_empty();
    seed_list(&doc, "list", &["a", "b", "c"]);

    transfer(
        &doc,
        YrsTransferMode::Move,
        array_slot(&[key("list")], 2),
        array_slot(&[key("list")], 0),
    );

    assert_eq!(array_state(&doc, "list"), json(r#"["c", "a", "b"]"#));
}

#[test]
fn array_copy_within_one_list_duplicates_the_entry() {
    let doc = YrsDoc::new_empty();
    seed_list(&doc, "list", &["a", "b"]);

    transfer(
        &doc,
        YrsTransferMode::Copy,
        array_slot(&[key("list")], 0),
        array_slot(&[key("list")], 2),
    );

    assert_eq!(array_state(&doc, "list"), json(r#"["a", "b", "a"]"#));
}

#[test]
fn array_copy_to_an_adjacent_gap_still_writes() {
    let doc = YrsDoc::new_empty();
    seed_list(&doc, "list", &["a", "b"]);

    // The adjacent-gap short circuit is a Move-only rule; a Copy to the
    // same gap is a real duplication.
    transfer(
        &doc,
        YrsTransferMode::Copy,
        array_slot(&[key("list")], 0),
        array_slot(&[key("list")], 1),
    );

    assert_eq!(array_state(&doc, "list"), json(r#"["a", "a", "b"]"#));
}

#[test]
fn array_move_across_lists_relocates_the_entry() {
    let doc = YrsDoc::new_empty();
    seed_list(&doc, "left", &["a", "b"]);
    seed_list(&doc, "right", &["x"]);

    transfer(
        &doc,
        YrsTransferMode::Move,
        array_slot(&[key("left")], 0),
        array_slot(&[key("right")], 1),
    );

    assert_eq!(array_state(&doc, "left"), json(r#"["b"]"#));
    assert_eq!(array_state(&doc, "right"), json(r#"["x", "a"]"#));
}

#[test]
fn array_copy_across_lists_leaves_the_source_in_place() {
    let doc = YrsDoc::new_empty();
    seed_list(&doc, "left", &["a", "b"]);
    seed_list(&doc, "right", &[]);

    transfer(
        &doc,
        YrsTransferMode::Copy,
        array_slot(&[key("left")], 1),
        array_slot(&[key("right")], 0),
    );

    assert_eq!(array_state(&doc, "left"), json(r#"["a", "b"]"#));
    assert_eq!(array_state(&doc, "right"), json(r#"["b"]"#));
}

#[test]
fn cross_list_move_carries_nested_container_content() {
    let doc = YrsDoc::new_empty();
    let left = doc.yrs_doc().get_or_insert_array("left");
    seed_list(&doc, "right", &[]);
    {
        let mut txn = local_txn(&doc.yrs_doc());
        let node = left.push_back(&mut txn, MapPrelim::default());
        node.insert(&mut txn, "title", text("card"));
        let tags = node.insert(&mut txn, "tags", ArrayPrelim::default());
        tags.push_back(&mut txn, text("t0"));
    }

    transfer(
        &doc,
        YrsTransferMode::Move,
        array_slot(&[key("left")], 0),
        array_slot(&[key("right")], 0),
    );

    assert_eq!(array_state(&doc, "left"), json(r#"[]"#));
    assert_eq!(
        array_state(&doc, "right"),
        json(r#"[{ "title": "card", "tags": ["t0"] }]"#)
    );
}

#[test]
fn map_slot_move_relocates_the_entry() {
    let doc = YrsDoc::new_empty();
    let root = seed_map(&doc, "doc");
    {
        let mut txn = local_txn(&doc.yrs_doc());
        root.insert(&mut txn, "from", text("payload"));
    }

    transfer(
        &doc,
        YrsTransferMode::Move,
        map_slot(&[key("doc")], "from"),
        map_slot(&[key("doc")], "to"),
    );

    assert_eq!(map_state(&doc, "doc"), json(r#"{ "to": "payload" }"#));
}

#[test]
fn map_slot_copy_leaves_the_source_in_place() {
    let doc = YrsDoc::new_empty();
    let root = seed_map(&doc, "doc");
    {
        let mut txn = local_txn(&doc.yrs_doc());
        root.insert(&mut txn, "from", text("payload"));
    }

    transfer(
        &doc,
        YrsTransferMode::Copy,
        map_slot(&[key("doc")], "from"),
        map_slot(&[key("doc")], "to"),
    );

    assert_eq!(
        map_state(&doc, "doc"),
        json(r#"{ "from": "payload", "to": "payload" }"#)
    );
}

#[test]
fn array_to_map_and_map_to_array_transfers_are_supported() {
    let doc = YrsDoc::new_empty();
    seed_list(&doc, "list", &["a"]);
    seed_map(&doc, "doc");

    transfer(
        &doc,
        YrsTransferMode::Move,
        array_slot(&[key("list")], 0),
        map_slot(&[key("doc")], "held"),
    );
    assert_eq!(array_state(&doc, "list"), json(r#"[]"#));
    assert_eq!(map_state(&doc, "doc"), json(r#"{ "held": "a" }"#));

    transfer(
        &doc,
        YrsTransferMode::Move,
        map_slot(&[key("doc")], "held"),
        array_slot(&[key("list")], 0),
    );
    assert_eq!(array_state(&doc, "list"), json(r#"["a"]"#));
    assert_eq!(map_state(&doc, "doc"), json(r#"{}"#));
}

#[test]
fn array_at_map_key_creates_the_destination_array() {
    let doc = YrsDoc::new_empty();
    seed_list(&doc, "list", &["a", "b"]);
    seed_map(&doc, "doc");

    transfer(
        &doc,
        YrsTransferMode::Move,
        array_slot(&[key("list")], 0),
        array_at_map_key(&[key("doc")], "kids", 0),
    );

    assert_eq!(array_state(&doc, "list"), json(r#"["b"]"#));
    assert_eq!(map_state(&doc, "doc"), json(r#"{ "kids": ["a"] }"#));
}

#[test]
fn array_at_map_key_appends_into_an_existing_array() {
    let doc = YrsDoc::new_empty();
    seed_list(&doc, "list", &["a"]);
    let root = seed_map(&doc, "doc");
    {
        let mut txn = local_txn(&doc.yrs_doc());
        let kids = root.insert(&mut txn, "kids", ArrayPrelim::default());
        kids.push_back(&mut txn, text("k0"));
    }

    transfer(
        &doc,
        YrsTransferMode::Copy,
        array_slot(&[key("list")], 0),
        array_at_map_key(&[key("doc")], "kids", 1),
    );

    assert_eq!(array_state(&doc, "list"), json(r#"["a"]"#));
    assert_eq!(map_state(&doc, "doc"), json(r#"{ "kids": ["k0", "a"] }"#));
}

#[test]
fn array_at_map_key_rejects_an_existing_non_array_without_writing() {
    let doc = YrsDoc::new_empty();
    seed_list(&doc, "list", &["a"]);
    let root = seed_map(&doc, "doc");
    {
        let mut txn = local_txn(&doc.yrs_doc());
        root.insert(&mut txn, "kids", text("not-a-list"));
    }

    let error = reject(
        &doc,
        YrsTransferMode::Move,
        array_slot(&[key("list")], 0),
        array_at_map_key(&[key("doc")], "kids", 0),
    );

    assert!(
        error.contains("target map key \"kids\" resolves to") && error.contains("not an array"),
        "unexpected error: {error}"
    );
    assert_eq!(map_state(&doc, "doc"), json(r#"{ "kids": "not-a-list" }"#));
}

#[test]
fn array_at_map_key_rejects_an_out_of_range_index_without_writing() {
    let doc = YrsDoc::new_empty();
    seed_list(&doc, "list", &["a"]);
    seed_map(&doc, "doc");

    // Absent key: the array does not exist yet, so only gap 0 is valid.
    let error = reject(
        &doc,
        YrsTransferMode::Move,
        array_slot(&[key("list")], 0),
        array_at_map_key(&[key("doc")], "kids", 1),
    );
    assert!(
        error.contains("outside insertion range 0..=0"),
        "unexpected error: {error}"
    );
    assert_eq!(map_state(&doc, "doc"), json(r#"{}"#));
}

#[test]
fn array_at_map_key_is_rejected_as_a_source() {
    let doc = YrsDoc::new_empty();
    seed_list(&doc, "list", &[]);
    let root = seed_map(&doc, "doc");
    {
        let mut txn = local_txn(&doc.yrs_doc());
        let kids = root.insert(&mut txn, "kids", ArrayPrelim::default());
        kids.push_back(&mut txn, text("k0"));
    }

    let error = reject(
        &doc,
        YrsTransferMode::Move,
        array_at_map_key(&[key("doc")], "kids", 0),
        array_slot(&[key("list")], 0),
    );

    assert_eq!(error, "array-at-map-key is a destination-only location");
}

#[test]
fn same_list_move_to_either_adjacent_gap_is_a_no_op() {
    let doc = YrsDoc::new_empty();
    seed_list(&doc, "list", &["a", "b", "c"]);

    // The gap before the entry.
    no_op(
        &doc,
        YrsTransferMode::Move,
        array_slot(&[key("list")], 1),
        array_slot(&[key("list")], 1),
    );
    // The gap after the entry.
    no_op(
        &doc,
        YrsTransferMode::Move,
        array_slot(&[key("list")], 1),
        array_slot(&[key("list")], 2),
    );

    assert_eq!(array_state(&doc, "list"), json(r#"["a", "b", "c"]"#));
}

#[test]
fn same_list_move_of_the_last_entry_to_the_end_gap_is_a_no_op() {
    let doc = YrsDoc::new_empty();
    seed_list(&doc, "list", &["a", "b"]);

    no_op(
        &doc,
        YrsTransferMode::Move,
        array_slot(&[key("list")], 1),
        array_slot(&[key("list")], 2),
    );

    assert_eq!(array_state(&doc, "list"), json(r#"["a", "b"]"#));
}

#[test]
fn an_array_source_and_an_array_at_map_key_target_can_name_the_same_list() {
    let doc = YrsDoc::new_empty();
    let root = seed_map(&doc, "doc");
    {
        let mut txn = local_txn(&doc.yrs_doc());
        let kids = root.insert(&mut txn, "kids", ArrayPrelim::default());
        for value in ["a", "b", "c"] {
            kids.push_back(&mut txn, text(value));
        }
    }
    let list_path = [key("doc"), key("kids")];

    // Both locations resolve to the same `ArrayRef`, so the same-list
    // rules apply across the two location variants.
    no_op(
        &doc,
        YrsTransferMode::Move,
        array_slot(&list_path, 1),
        array_at_map_key(&[key("doc")], "kids", 2),
    );

    transfer(
        &doc,
        YrsTransferMode::Move,
        array_slot(&list_path, 0),
        array_at_map_key(&[key("doc")], "kids", 3),
    );

    assert_eq!(map_state(&doc, "doc"), json(r#"{ "kids": ["b", "c", "a"] }"#));
}

#[test]
fn a_move_into_a_sibling_that_precedes_the_source_relocates_correctly() {
    let doc = YrsDoc::new_empty();
    let list = doc.yrs_doc().get_or_insert_array("list");
    {
        let mut txn = local_txn(&doc.yrs_doc());
        list.push_back(&mut txn, ArrayPrelim::default());
        list.push_back(&mut txn, text("a"));
    }

    // The destination lives at an index below the source, so the source
    // removal shifts it. The resolved refs must survive that.
    transfer(
        &doc,
        YrsTransferMode::Move,
        array_slot(&[key("list")], 1),
        array_slot(&[key("list"), at(0)], 0),
    );

    assert_eq!(array_state(&doc, "list"), json(r#"[["a"]]"#));
}

#[test]
fn same_map_entry_move_is_a_no_op_while_copy_is_rejected() {
    let doc = YrsDoc::new_empty();
    let root = seed_map(&doc, "doc");
    {
        let mut txn = local_txn(&doc.yrs_doc());
        root.insert(&mut txn, "slot", text("payload"));
    }

    no_op(
        &doc,
        YrsTransferMode::Move,
        map_slot(&[key("doc")], "slot"),
        map_slot(&[key("doc")], "slot"),
    );

    let error = reject(
        &doc,
        YrsTransferMode::Copy,
        map_slot(&[key("doc")], "slot"),
        map_slot(&[key("doc")], "slot"),
    );
    assert_eq!(error, "target map key \"slot\" is already occupied");
}

#[test]
fn out_of_range_source_index_is_rejected_without_writing() {
    let doc = YrsDoc::new_empty();
    seed_list(&doc, "list", &["a", "b"]);

    // The end gap is a valid destination but never a valid source.
    let error = reject(
        &doc,
        YrsTransferMode::Move,
        array_slot(&[key("list")], 2),
        array_slot(&[key("list")], 0),
    );

    assert_eq!(error, "source array index 2 is outside entry range 0..2");
    assert_eq!(array_state(&doc, "list"), json(r#"["a", "b"]"#));
}

#[test]
fn out_of_range_target_index_is_rejected_without_writing() {
    let doc = YrsDoc::new_empty();
    seed_list(&doc, "left", &["a"]);
    seed_list(&doc, "right", &["x"]);

    let error = reject(
        &doc,
        YrsTransferMode::Move,
        array_slot(&[key("left")], 0),
        array_slot(&[key("right")], 2),
    );

    assert_eq!(
        error,
        "target array index 2 is outside insertion range 0..=1"
    );
    assert_eq!(array_state(&doc, "left"), json(r#"["a"]"#));
    assert_eq!(array_state(&doc, "right"), json(r#"["x"]"#));
}

#[test]
fn missing_source_entries_are_rejected_without_writing() {
    let doc = YrsDoc::new_empty();
    seed_list(&doc, "list", &[]);
    seed_map(&doc, "doc");

    let error = reject(
        &doc,
        YrsTransferMode::Move,
        map_slot(&[key("doc")], "absent"),
        array_slot(&[key("list")], 0),
    );
    assert_eq!(error, "source map key \"absent\" does not exist");

    let error = reject(
        &doc,
        YrsTransferMode::Copy,
        array_slot(&[key("list")], 0),
        map_slot(&[key("doc")], "landing"),
    );
    assert_eq!(error, "source array index 0 is outside entry range 0..0");
}

#[test]
fn occupied_target_map_key_is_rejected_without_writing() {
    let doc = YrsDoc::new_empty();
    seed_list(&doc, "list", &["a"]);
    let root = seed_map(&doc, "doc");
    {
        let mut txn = local_txn(&doc.yrs_doc());
        root.insert(&mut txn, "slot", text("existing"));
    }

    let error = reject(
        &doc,
        YrsTransferMode::Move,
        array_slot(&[key("list")], 0),
        map_slot(&[key("doc")], "slot"),
    );

    assert_eq!(error, "target map key \"slot\" is already occupied");
    assert_eq!(array_state(&doc, "list"), json(r#"["a"]"#));
    assert_eq!(map_state(&doc, "doc"), json(r#"{ "slot": "existing" }"#));
}

/// `doc.sections` is a list of `{ items: [...] }` nodes.
fn seed_sections(doc: &YrsDoc, first: &[&str], second: &[&str]) {
    let root = doc.yrs_doc().get_or_insert_map("doc");
    let mut txn = local_txn(&doc.yrs_doc());
    let sections = root.insert(&mut txn, "sections", ArrayPrelim::default());
    for values in [first, second] {
        let node = sections.push_back(&mut txn, MapPrelim::default());
        let items = node.insert(&mut txn, "items", ArrayPrelim::default());
        for value in values {
            items.push_back(&mut txn, text(value));
        }
    }
}

#[test]
fn deep_paths_move_between_nested_lists() {
    let doc = YrsDoc::new_empty();
    seed_sections(&doc, &["i0", "i1"], &["j0"]);

    let source_path = [key("doc"), key("sections"), at(0), key("items")];
    let target_path = [key("doc"), key("sections"), at(1), key("items")];
    transfer(
        &doc,
        YrsTransferMode::Move,
        array_slot(&source_path, 0),
        array_slot(&target_path, 0),
    );

    assert_eq!(
        map_state(&doc, "doc"),
        json(r#"{
            "sections": [
                { "items": ["i1"] },
                { "items": ["i0", "j0"] }
            ]
        }"#)
    );
}

#[test]
fn deep_paths_copy_into_a_nested_map_slot() {
    let doc = YrsDoc::new_empty();
    seed_sections(&doc, &["i0"], &[]);

    let source_path = [key("doc"), key("sections"), at(0), key("items")];
    let target_path = [key("doc"), key("sections"), at(1)];
    transfer(
        &doc,
        YrsTransferMode::Copy,
        array_slot(&source_path, 0),
        map_slot(&target_path, "label"),
    );

    assert_eq!(
        map_state(&doc, "doc"),
        json(r#"{
            "sections": [
                { "items": ["i0"] },
                { "items": [], "label": "i0" }
            ]
        }"#)
    );
}

#[test]
fn copy_produces_an_independent_deep_clone() {
    let doc = YrsDoc::new_empty();
    seed_list(&doc, "list", &[]);
    let root = seed_map(&doc, "doc");
    {
        let mut txn = local_txn(&doc.yrs_doc());
        let template = root.insert(&mut txn, "template", MapPrelim::default());
        template.insert(&mut txn, "title", text("T"));
        template.insert(&mut txn, "body", TextPrelim::new("hello"));
        let tags = template.insert(&mut txn, "tags", ArrayPrelim::default());
        tags.push_back(&mut txn, text("x"));
    }

    transfer(
        &doc,
        YrsTransferMode::Copy,
        map_slot(&[key("doc")], "template"),
        array_slot(&[key("list")], 0),
    );

    // Mutate every container kind inside the clone.
    {
        let mut txn = local_txn(&doc.yrs_doc());
        let list = txn.get_array("list").expect("root array must exist");
        let Some(Out::YMap(clone)) = list.get(&txn, 0) else {
            panic!("the clone must be a map");
        };
        clone.insert(&mut txn, "title", text("changed"));
        let Some(Out::YArray(tags)) = clone.get(&txn, "tags") else {
            panic!("the clone must carry a tags array");
        };
        tags.push_back(&mut txn, text("y"));
        let Some(Out::YText(body)) = clone.get(&txn, "body") else {
            panic!("the clone must carry a body text");
        };
        body.insert(&mut txn, 0, "X");
    }

    assert_eq!(
        map_state(&doc, "doc"),
        json(r#"{
            "template": { "title": "T", "body": "hello", "tags": ["x"] }
        }"#),
        "mutating the clone must not touch the original"
    );
    assert_eq!(
        array_state(&doc, "list"),
        json(r#"[{ "title": "changed", "body": "Xhello", "tags": ["x", "y"] }]"#)
    );
}

#[test]
fn moving_an_array_entry_into_its_own_descendant_is_rejected() {
    let doc = YrsDoc::new_empty();
    let list = doc.yrs_doc().get_or_insert_array("list");
    {
        let mut txn = local_txn(&doc.yrs_doc());
        let nested = list.push_back(&mut txn, ArrayPrelim::default());
        nested.push_back(&mut txn, text("inner"));
        list.push_back(&mut txn, text("tail"));
    }

    let error = reject(
        &doc,
        YrsTransferMode::Move,
        array_slot(&[key("list")], 0),
        array_slot(&[key("list"), at(0)], 0),
    );

    assert_eq!(error, "target path descends into the source entry");
    assert_eq!(array_state(&doc, "list"), json(r#"[["inner"], "tail"]"#));
}

#[test]
fn moving_a_map_entry_into_its_own_descendant_is_rejected() {
    let doc = YrsDoc::new_empty();
    let root = seed_map(&doc, "doc");
    {
        let mut txn = local_txn(&doc.yrs_doc());
        let branch = root.insert(&mut txn, "branch", MapPrelim::default());
        branch.insert(&mut txn, "leaf", MapPrelim::default());
    }

    let error = reject(
        &doc,
        YrsTransferMode::Move,
        map_slot(&[key("doc")], "branch"),
        map_slot(&[key("doc"), key("branch"), key("leaf")], "held"),
    );

    assert_eq!(error, "target path descends into the source entry");
    assert_eq!(map_state(&doc, "doc"), json(r#"{ "branch": { "leaf": {} } }"#));
}

#[test]
fn copying_an_entry_into_its_own_descendant_is_rejected() {
    let doc = YrsDoc::new_empty();
    let root = seed_map(&doc, "doc");
    {
        let mut txn = local_txn(&doc.yrs_doc());
        let branch = root.insert(&mut txn, "branch", MapPrelim::default());
        branch.insert(&mut txn, "kids", ArrayPrelim::default());
    }

    // The ancestry guard runs before the mode split, so Copy is rejected
    // too even though a clone would not be self-referential.
    let error = reject(
        &doc,
        YrsTransferMode::Copy,
        map_slot(&[key("doc")], "branch"),
        array_at_map_key(&[key("doc"), key("branch")], "kids", 0),
    );

    assert_eq!(error, "target path descends into the source entry");
}

#[test]
fn moving_a_map_entry_onto_the_array_it_names_is_rejected() {
    let doc = YrsDoc::new_empty();
    let root = seed_map(&doc, "doc");
    {
        let mut txn = local_txn(&doc.yrs_doc());
        root.insert(&mut txn, "kids", ArrayPrelim::default());
    }

    let error = reject(
        &doc,
        YrsTransferMode::Move,
        map_slot(&[key("doc")], "kids"),
        array_at_map_key(&[key("doc")], "kids", 0),
    );

    assert_eq!(error, "target path descends into the source entry");
}

#[test]
fn sibling_subtrees_are_not_treated_as_descendants() {
    let doc = YrsDoc::new_empty();
    let root = seed_map(&doc, "doc");
    {
        let mut txn = local_txn(&doc.yrs_doc());
        root.insert(&mut txn, "branch", text("payload"));
        root.insert(&mut txn, "other", MapPrelim::default());
    }

    transfer(
        &doc,
        YrsTransferMode::Move,
        map_slot(&[key("doc")], "branch"),
        map_slot(&[key("doc"), key("other")], "held"),
    );

    assert_eq!(
        map_state(&doc, "doc"),
        json(r#"{ "other": { "held": "payload" } }"#)
    );
}

#[test]
fn a_neighbouring_index_sharing_the_source_prefix_is_not_a_descendant() {
    let doc = YrsDoc::new_empty();
    let list = doc.yrs_doc().get_or_insert_array("list");
    {
        let mut txn = local_txn(&doc.yrs_doc());
        list.push_back(&mut txn, text("a"));
        list.push_back(&mut txn, ArrayPrelim::default());
    }

    // `list[1]` shares the `["list"]` prefix but is not inside `list[0]`.
    transfer(
        &doc,
        YrsTransferMode::Move,
        array_slot(&[key("list")], 0),
        array_slot(&[key("list"), at(1)], 0),
    );

    assert_eq!(array_state(&doc, "list"), json(r#"[["a"]]"#));
}

#[test]
fn malformed_paths_are_rejected_before_any_write() {
    let doc = YrsDoc::new_empty();
    seed_list(&doc, "list", &["a"]);
    seed_sections(&doc, &["i0"], &[]);

    let cases: Vec<(YrsTransferLocation, YrsTransferLocation, &str)> = vec![
        (
            array_slot(&[], 0),
            array_slot(&[key("list")], 0),
            "source path must not be empty",
        ),
        (
            array_slot(&[at(0)], 0),
            array_slot(&[key("list")], 0),
            "source path[0] must be a root-container key",
        ),
        (
            array_slot(&[key("list")], 0),
            array_slot(&[], 0),
            "target path must not be empty",
        ),
        (
            array_slot(&[key("missing")], 0),
            array_slot(&[key("list")], 0),
            "source root array \"missing\" does not exist",
        ),
        (
            map_slot(&[key("missing"), key("nested")], "k"),
            array_slot(&[key("list")], 0),
            "source root map \"missing\" does not exist",
        ),
        (
            array_slot(&[key("doc"), key("sections"), at(0), at(0)], 0),
            array_slot(&[key("list")], 0),
            "source path[3] must be a map key",
        ),
        (
            array_slot(&[key("doc"), key("sections"), key("nope")], 0),
            array_slot(&[key("list")], 0),
            "source path[2] must be an array index",
        ),
        (
            array_slot(&[key("doc"), key("sections"), at(9)], 0),
            array_slot(&[key("list")], 0),
            "source path[2] does not resolve",
        ),
        (
            array_slot(
                &[key("doc"), key("sections"), at(0), key("items"), at(0)],
                0,
            ),
            array_slot(&[key("list")], 0),
            // The offending value's kind is named without exposing the
            // underlying Rust type name.
            "source path[4] resolves to non-container value, not a container",
        ),
        (
            map_slot(&[key("doc"), key("sections")], "k"),
            array_slot(&[key("list")], 0),
            "source path does not resolve to a map",
        ),
        (
            array_slot(&[key("list")], 0),
            array_slot(&[key("doc"), key("sections"), at(0)], 0),
            // Verbatim: the message interpolates a bare kind label, so it
            // reads "a array" rather than "an array".
            "target path does not resolve to a array",
        ),
    ];

    for (source, target, expected) in cases {
        let error = reject(&doc, YrsTransferMode::Move, source, target);
        assert_eq!(error, expected);
    }
}

#[test]
fn a_root_addressed_under_the_wrong_kind_is_rejected() {
    // Roots are looked up by name and the typed accessors cast whatever
    // branch they find, so an array root also hands back a usable map
    // handle. Writing through that handle would leave the same root holding
    // both list items and map entries, with each reader seeing only its own
    // half. The recorded kind is validated instead.
    let doc = YrsDoc::new_empty();
    seed_list(&doc, "list", &["a"]);

    let error = reject(
        &doc,
        YrsTransferMode::Copy,
        array_slot(&[key("list")], 0),
        map_slot(&[key("list")], "slot"),
    );

    assert_eq!(error, "target root \"list\" has kind array, not map");
    assert_eq!(array_state(&doc, "list"), json(r#"["a"]"#));
}

#[test]
fn a_root_text_cannot_be_addressed_as_a_container() {
    // A text root read as an array yields a handle whose "entries" are the
    // text's own chunks: an array-addressed write destroys characters while
    // `get_string` keeps returning the original value.
    let doc = YrsDoc::new_empty();
    seed_list(&doc, "list", &["a"]);
    let note = doc.yrs_doc().get_or_insert_text("note");
    {
        let mut txn = local_txn(&doc.yrs_doc());
        note.insert(&mut txn, 0, "hello world");
    }

    let cases: Vec<(YrsTransferLocation, YrsTransferLocation, &str)> = vec![
        (
            array_slot(&[key("list")], 0),
            array_slot(&[key("note")], 0),
            "target root \"note\" has kind text, not array",
        ),
        (
            array_slot(&[key("note")], 0),
            array_slot(&[key("list")], 1),
            "source root \"note\" has kind text, not array",
        ),
        (
            array_slot(&[key("list")], 0),
            map_slot(&[key("note")], "slot"),
            "target root \"note\" has kind text, not map",
        ),
        (
            map_slot(&[key("note")], "slot"),
            array_slot(&[key("list")], 1),
            "source root \"note\" has kind text, not map",
        ),
    ];

    for (source, target, expected) in cases {
        let error = reject(&doc, YrsTransferMode::Move, source, target);
        assert_eq!(error, expected);
    }

    assert_eq!(note.get_string(&doc.yrs_doc().transact()), "hello world");
    assert_eq!(array_state(&doc, "list"), json(r#"["a"]"#));
}

#[test]
fn a_nested_root_step_is_validated_against_the_recorded_kind() {
    // The root check also covers paths that only pass through the root: a
    // map root walked as if its first step were an array index.
    let doc = YrsDoc::new_empty();
    seed_list(&doc, "list", &["a"]);
    let template = seed_map(&doc, "doc");
    {
        let mut txn = local_txn(&doc.yrs_doc());
        template.insert(&mut txn, "kids", ArrayPrelim::default());
    }

    let error = reject(
        &doc,
        YrsTransferMode::Move,
        array_slot(&[key("list")], 0),
        array_slot(&[key("doc"), at(0)], 0),
    );

    assert_eq!(error, "target root \"doc\" has kind map, not array");
}

#[test]
fn a_root_whose_kind_was_never_declared_is_rejected() {
    // An encoded document records nested container kinds but not root ones,
    // so every root of a rehydrated document is undeclared. A root's kind
    // cannot be recovered from outside `yrs` — see
    // `an_emptied_root_reads_the_same_as_an_empty_one` — so a transfer
    // refuses rather than guessing, and says what to do instead.
    let source_doc = YrsDoc::new_empty();
    seed_list(&source_doc, "list", &["a"]);
    let template = seed_map(&source_doc, "doc");
    {
        let mut txn = local_txn(&source_doc.yrs_doc());
        template.insert(&mut txn, "seed", "x");
    }

    let doc = YrsDoc::from_bytes(source_doc.save()).expect("saved bytes must reload");
    let before = doc.save();

    let error = doc
        .transfer_entry_atomically(
            YrsTransferMode::Move,
            array_slot(&[key("list")], 0),
            map_slot(&[key("doc")], "moved"),
        )
        .expect_err("an undeclared root must not be addressed");
    assert!(error.contains("no declared kind"), "{error}");
    assert_eq!(doc.save(), before, "the rejection left the document alone");

    // Reading each root once through its accessor is the whole remedy, and
    // it is what an application that renders the document does anyway.
    let _ = doc.get_array("list".to_owned());
    let _ = doc.get_map("doc".to_owned());
    transfer(
        &doc,
        YrsTransferMode::Move,
        array_slot(&[key("list")], 0),
        map_slot(&[key("doc")], "moved"),
    );

    assert_eq!(array_state(&doc, "list"), json(r#"[]"#));
    assert_eq!(map_state(&doc, "doc"), json(r#"{ "seed": "x", "moved": "a" }"#));
}

#[test]
fn a_failed_transfer_leaves_the_undo_visible_state_untouched() {
    // A stronger form of the per-case atomicity assertion: run every
    // rejecting shape against one document and compare the full encoded
    // state to the pristine snapshot each time.
    let doc = YrsDoc::new_empty();
    seed_list(&doc, "list", &["a", "b"]);
    seed_map(&doc, "doc");
    let pristine = doc.save();

    let cases: Vec<(YrsTransferMode, YrsTransferLocation, YrsTransferLocation)> = vec![
        (
            YrsTransferMode::Move,
            array_slot(&[key("list")], 5),
            map_slot(&[key("doc")], "k"),
        ),
        (
            YrsTransferMode::Move,
            array_slot(&[key("list")], 0),
            array_slot(&[key("list")], 9),
        ),
        (
            YrsTransferMode::Copy,
            map_slot(&[key("doc")], "absent"),
            array_slot(&[key("list")], 0),
        ),
        (
            YrsTransferMode::Move,
            array_at_map_key(&[key("doc")], "kids", 0),
            array_slot(&[key("list")], 0),
        ),
        (
            YrsTransferMode::Move,
            array_slot(&[key("list")], 0),
            array_slot(&[key("list"), at(0)], 0),
        ),
    ];

    for (mode, source, target) in cases {
        assert!(doc.transfer_entry_atomically(mode, source, target).is_err());
        assert_eq!(doc.save(), pristine);
    }

    assert_eq!(array_state(&doc, "list"), json(r#"["a", "b"]"#));
    assert_eq!(map_state(&doc, "doc"), json(r#"{}"#));
}

#[test]
fn a_successful_transfer_is_visible_to_a_synced_peer() {
    // The write must land in one committed transaction that a peer can
    // consume, not in per-step transactions.
    let doc = YrsDoc::new_empty();
    seed_list(&doc, "left", &["a", "b"]);
    seed_list(&doc, "right", &[]);
    let peer = YrsDoc::from_bytes(doc.save()).expect("peer must hydrate");

    let before = doc.get_state_vector();
    transfer(
        &doc,
        YrsTransferMode::Move,
        array_slot(&[key("left")], 0),
        array_slot(&[key("right")], 0),
    );
    let diff = doc
        .encode_state_as_update(Some(before))
        .expect("diff must encode");
    peer.apply_update(diff).expect("peer must apply the diff");

    assert_eq!(array_state(&peer, "left"), json(r#"["b"]"#));
    assert_eq!(array_state(&peer, "right"), json(r#"["a"]"#));
}

#[test]
fn transfers_are_tagged_with_the_local_origin() {
    let doc = YrsDoc::new_empty();
    seed_list(&doc, "list", &["a", "b"]);
    let seen: std::sync::Arc<Mutex<Vec<Option<Vec<u8>>>>> = Default::default();
    let sink = seen.clone();
    let _sub = doc
        .yrs_doc()
        .observe_transaction_cleanup(move |txn: &TransactionMut<'_>, _| {
            sink.lock()
                .unwrap()
                .push(txn.origin().map(|origin| origin.as_ref().to_vec()));
        })
        .expect("observer must attach");

    transfer(
        &doc,
        YrsTransferMode::Move,
        array_slot(&[key("list")], 0),
        array_slot(&[key("list")], 2),
    );

    assert_eq!(
        seen.lock().unwrap().as_slice(),
        [Some(YRS_DART_LOCAL_ORIGIN.to_vec())]
    );
}

#[test]
fn a_same_list_move_reports_a_crdt_move_and_a_cross_list_move_reports_a_reparent() {
    // The distinction I-1 exists to surface: one public method, two
    // different collaborative semantics, decided by whether the parent
    // changes. Callers must be able to tell which one ran.
    let doc = YrsDoc::new_empty();
    seed_list(&doc, "a", &["x", "y", "z"]);
    seed_list(&doc, "b", &["q"]);

    assert_eq!(
        doc.transfer_entry_atomically(
            YrsTransferMode::Move,
            array_slot(&[key("a")], 0),
            array_slot(&[key("a")], 3),
        ),
        Ok(YrsTransferOutcome::Moved),
        "a move inside one list is a real CRDT move"
    );

    assert_eq!(
        doc.transfer_entry_atomically(
            YrsTransferMode::Move,
            array_slot(&[key("a")], 0),
            array_slot(&[key("b")], 0),
        ),
        Ok(YrsTransferOutcome::Reparented),
        "a move between lists cannot be a CRDT move"
    );

    assert_eq!(
        doc.transfer_entry_atomically(
            YrsTransferMode::Copy,
            array_slot(&[key("a")], 0),
            array_slot(&[key("b")], 0),
        ),
        Ok(YrsTransferOutcome::Copied),
        "a copy never removes the source"
    );
}

#[test]
fn only_the_unchanged_outcome_reports_no_document_change() {
    assert!(!YrsTransferOutcome::Unchanged.changed_document());
    assert!(YrsTransferOutcome::Moved.changed_document());
    assert!(YrsTransferOutcome::Reparented.changed_document());
    assert!(YrsTransferOutcome::Copied.changed_document());
}

#[test]
fn a_reparent_discards_a_concurrent_remote_edit_to_the_moved_subtree() {
    // Documents the cost of the reparent path so a future change cannot
    // quietly alter it. This is exactly what `Reparented` warns about.
    let local = YrsDoc::new_empty();
    let a = local.yrs_doc().get_or_insert_array("a");
    let _b = local.yrs_doc().get_or_insert_array("b");
    {
        let mut txn = local_txn(&local.yrs_doc());
        let node = a.push_back(&mut txn, MapPrelim::default());
        node.insert(&mut txn, "k", "v");
    }

    // A peer starts from the same state.
    let remote = YrsDoc::new_empty();
    remote
        .apply_update(
            local
                .yrs_doc()
                .transact()
                .encode_state_as_update_v1(&Default::default()),
        )
        .expect("peer syncs");

    // Concurrently: the peer edits the entry, we reparent it.
    {
        let r_a = remote.yrs_doc().get_or_insert_array("a");
        let mut txn = local_txn(&remote.yrs_doc());
        let Some(Out::YMap(node)) = r_a.get(&txn, 0) else {
            panic!("peer sees the map entry");
        };
        node.insert(&mut txn, "peer", "edit");
    }
    assert_eq!(
        local.transfer_entry_atomically(
            YrsTransferMode::Move,
            array_slot(&[key("a")], 0),
            array_slot(&[key("b")], 0),
        ),
        Ok(YrsTransferOutcome::Reparented)
    );

    // Converge both ways.
    let to_remote = local
        .yrs_doc()
        .transact()
        .encode_state_as_update_v1(&remote.yrs_doc().transact().state_vector());
    let to_local = remote
        .yrs_doc()
        .transact()
        .encode_state_as_update_v1(&local.yrs_doc().transact().state_vector());
    remote.apply_update(to_remote).expect("apply");
    local.apply_update(to_local).expect("apply");

    // The peer's concurrent edit is gone on both sides. If a future change
    // preserves it, that is an improvement — update this test deliberately.
    let converged = array_state(&local, "b");
    assert_eq!(converged, array_state(&remote, "b"), "peers converge");
    assert_eq!(
        converged,
        json(r#"[{ "k": "v" }]"#),
        "the reparented subtree is a copy of the state the mover saw"
    );
}

#[test]
fn an_emptied_root_reads_the_same_as_an_empty_one() {
    // Why an undeclared root is refused outright instead of being typed
    // from its content. `yrs` types an undeclared branch from raw block
    // state, which still records deleted entries; every accessor reachable
    // from outside the crate skips them. A map root whose entries have all
    // been deleted therefore reads as holding nothing, and a content probe
    // would have concluded "nothing contradicts this" and accepted the
    // array request below — the very corruption the check exists for, on the path a
    // collaborative editor takes.
    let source = YrsDoc::new_empty();
    seed_list(&source, "list", &["a"]);
    let cfg = seed_map(&source, "cfg");
    {
        let mut txn = local_txn(&source.yrs_doc());
        cfg.insert(&mut txn, "k", "v");
    }
    {
        let mut txn = local_txn(&source.yrs_doc());
        cfg.remove(&mut txn, "k");
    }
    let doc = YrsDoc::from_bytes(source.save()).expect("reload");
    let before = doc.save();

    // The emptied map root is publicly indistinguishable from an array
    // root: no entries, no length, no text.
    {
        let txn = doc.yrs_doc().transact();
        assert_eq!(txn.get_map("cfg").map_or(0, |map| map.len(&txn)), 0);
        assert_eq!(txn.get_array("cfg").map_or(0, |array| array.len(&txn)), 0);
    }

    let error = doc
        .transfer_entry_atomically(
            YrsTransferMode::Move,
            array_slot(&[key("list")], 0),
            array_slot(&[key("cfg")], 0),
        )
        .expect_err("an undeclared root must be refused however empty it reads");
    assert!(error.contains("no declared kind"), "{error}");
    assert_eq!(doc.save(), before, "the rejection left the document alone");

    // Declared, the recorded kind does the work the content never could.
    let _ = doc.get_array("list".to_owned());
    let _ = doc.get_map("cfg".to_owned());
    let declared = doc.save();
    let error = doc
        .transfer_entry_atomically(
            YrsTransferMode::Move,
            array_slot(&[key("list")], 0),
            array_slot(&[key("cfg")], 0),
        )
        .expect_err("a map root must not be addressed as an array");
    assert!(error.contains("has kind map, not array"), "{error}");
    assert_eq!(doc.save(), declared, "still untouched");
}

#[test]
fn a_declared_text_root_cannot_be_addressed_as_a_container() {
    // The destructive shape the kind check exists for: a text root
    // addressed as a list was silently cast and written through while
    // still reporting its original string. Once kinds are declared the
    // recorded kind rejects it and the text is left alone.
    let source = YrsDoc::new_empty();
    seed_list(&source, "list", &["a"]);
    // Resolve every container BEFORE opening a transaction: the
    // `get_or_insert_*` accessors take their own, and deadlock against a
    // live one.
    let notes = source.yrs_doc().get_or_insert_text("notes");
    {
        let mut txn = local_txn(&source.yrs_doc());
        notes.insert(&mut txn, 0, "hello world");
    }
    let doc = YrsDoc::from_bytes(source.save()).expect("reload");
    let _ = doc.get_array("list".to_owned());
    let reloaded_notes = doc.yrs_doc().get_or_insert_text("notes");
    let before = doc.save();

    for target in [
        array_slot(&[key("notes")], 0),
        map_slot(&[key("notes")], "slot"),
    ] {
        let error = doc
            .transfer_entry_atomically(
                YrsTransferMode::Move,
                array_slot(&[key("list")], 0),
                target,
            )
            .expect_err("a text root is neither a list nor a map");
        assert!(error.contains("has kind text"), "{error}");
    }

    assert_eq!(
        doc.save(),
        before,
        "every rejection left the document alone"
    );
    let txn = doc.yrs_doc().transact();
    assert_eq!(reloaded_notes.get_string(&txn), "hello world");
}

#[test]
fn an_empty_root_does_not_survive_a_round_trip_at_all() {
    // An empty root is never encoded, so after a reload it does not exist
    // and is rejected on existence rather than on kind. Pinned so the two
    // rejections stay distinguishable.
    let source = YrsDoc::new_empty();
    seed_list(&source, "list", &["a"]);
    seed_map(&source, "empty");
    let doc = YrsDoc::from_bytes(source.save()).expect("reload");
    let _ = doc.get_array("list".to_owned());

    let err = doc
        .transfer_entry_atomically(
            YrsTransferMode::Move,
            array_slot(&[key("list")], 0),
            map_slot(&[key("empty")], "slot"),
        )
        .expect_err("an unencoded root cannot be a target");
    assert!(err.contains("does not exist"), "{err}");

    // Declaring it locally brings it back, and then it behaves normally.
    let _ = doc.get_map("empty".to_owned());
    transfer(
        &doc,
        YrsTransferMode::Move,
        array_slot(&[key("list")], 0),
        map_slot(&[key("empty")], "slot"),
    );
    assert_eq!(map_state(&doc, "empty"), json(r#"{ "slot": "a" }"#));
}

#[test]
fn a_pathologically_deep_source_is_rejected_rather_than_crashing() {
    // Before the depth guard this aborted the whole process with a stack
    // overflow — uncatchable from Dart, so a hard crash in a host app.
    // Nesting is remote-influenced, so it must be an ordinary rejection.
    let doc = YrsDoc::new_empty();
    seed_list(&doc, "dst", &["z"]);
    let deep = seed_list(&doc, "deep", &[]);
    {
        let mut txn = local_txn(&doc.yrs_doc());
        let mut node = deep.push_back(&mut txn, MapPrelim::default());
        for _ in 0..(MAX_TRANSFER_DEPTH + 50) {
            node = node.insert(&mut txn, "child", MapPrelim::default());
        }
    }
    let before = doc.save();

    let err = doc
        .transfer_entry_atomically(
            YrsTransferMode::Copy,
            array_slot(&[key("deep")], 0),
            array_slot(&[key("dst")], 0),
        )
        .expect_err("a subtree past the depth bound is rejected");
    assert!(err.contains("nests deeper than"), "{err}");
    assert_eq!(doc.save(), before, "a rejected transfer writes nothing");
}

#[test]
fn a_pathologically_deep_xml_source_is_rejected_too() {
    // `as_prelim` recurses through xml children exactly as it does through
    // map and array values, so a guard that measured only maps and arrays
    // let an xml chain of any depth through unmeasured. The guard now walks
    // the same shapes `as_prelim` does, and its match is exhaustive so a
    // new `Out` variant cannot quietly reopen the hole. (Whether a given
    // depth overflows is machine- and stack-dependent; what is asserted
    // here is that the bound is applied at all.)
    let doc = YrsDoc::new_empty();
    seed_list(&doc, "dst", &["z"]);
    let deep = seed_list(&doc, "deep", &[]);
    {
        let mut txn = local_txn(&doc.yrs_doc());
        let mut node = deep.push_back(&mut txn, XmlElementPrelim::empty("node"));
        for _ in 0..(MAX_TRANSFER_DEPTH + 50) {
            node = node.insert(&mut txn, 0, XmlElementPrelim::empty("node"));
        }
    }
    let before = doc.save();

    let err = doc
        .transfer_entry_atomically(
            YrsTransferMode::Copy,
            array_slot(&[key("deep")], 0),
            array_slot(&[key("dst")], 0),
        )
        .expect_err("a deep xml subtree past the depth bound is rejected");
    assert!(err.contains("nests deeper than"), "{err}");
    assert_eq!(doc.save(), before, "a rejected transfer writes nothing");
}

#[test]
fn a_pathologically_deep_text_embed_chain_is_rejected_too() {
    // Text is not a leaf. `as_prelim` maps a text delta through
    // `diff.insert.as_prelim(txn)`, and `Text::insert_embed` accepts any
    // prelim, so a chain of texts each embedding the next recurses exactly
    // as nested maps do. Treating text as terminal left the crash this
    // guard exists to prevent fully reachable, and reproducibly aborted the
    // process on a small stack.
    let doc = YrsDoc::new_empty();
    seed_list(&doc, "dst", &["z"]);
    let deep = seed_list(&doc, "deep", &[]);
    {
        let mut txn = local_txn(&doc.yrs_doc());
        let mut node = deep.push_back(&mut txn, ArrayPrelim::default());
        for _ in 0..(MAX_TRANSFER_DEPTH + 50) {
            let text = node.insert(&mut txn, 0, TextPrelim::new("x"));
            node = text.insert_embed(&mut txn, 0, ArrayPrelim::default());
        }
    }
    let before = doc.save();

    let err = doc
        .transfer_entry_atomically(
            YrsTransferMode::Copy,
            array_slot(&[key("deep")], 0),
            array_slot(&[key("dst")], 0),
        )
        .expect_err("a deep text-embed chain past the depth bound is rejected");
    assert!(err.contains("nests deeper than"), "{err}");
    assert_eq!(doc.save(), before, "a rejected transfer writes nothing");
}

#[test]
fn an_ordinary_text_embed_still_transfers() {
    // The guard must not break the shape it sits in front of.
    let doc = YrsDoc::new_empty();
    seed_list(&doc, "dst", &[]);
    let src = seed_list(&doc, "src", &[]);
    {
        let mut txn = local_txn(&doc.yrs_doc());
        let text = src.push_back(&mut txn, TextPrelim::new("hello"));
        text.insert_embed(&mut txn, 0, ArrayPrelim::default());
    }

    doc.transfer_entry_atomically(
        YrsTransferMode::Copy,
        array_slot(&[key("src")], 0),
        array_slot(&[key("dst")], 0),
    )
    .expect("an ordinary text embed copies");
    assert_eq!(doc.get_array("dst".to_owned()).length(), 1);
}

#[test]
fn a_pathologically_deep_xml_attribute_chain_is_rejected_too() {
    // An xml attribute is not a leaf either. `insert_attribute` takes any
    // prelim, so an attribute can hold a container, and `as_prelim` renders
    // each attribute with `to_string`, which walks a container value to
    // JSON one frame per level. Walking only children left this reachable:
    // the guard returned `Ok` and the copy it approved aborted the process
    // on a small stack.
    let doc = YrsDoc::new_empty();
    seed_list(&doc, "dst", &["z"]);
    let deep = seed_list(&doc, "deep", &[]);
    {
        let mut txn = local_txn(&doc.yrs_doc());
        let element = deep.push_back(&mut txn, XmlElementPrelim::empty("node"));
        let mut node = element.insert_attribute(&mut txn, "child", MapPrelim::default());
        for _ in 0..(MAX_TRANSFER_DEPTH + 50) {
            node = node.insert(&mut txn, "child", MapPrelim::default());
        }
    }
    let before = doc.save();

    let err = doc
        .transfer_entry_atomically(
            YrsTransferMode::Copy,
            array_slot(&[key("deep")], 0),
            array_slot(&[key("dst")], 0),
        )
        .expect_err("a deep attribute chain past the depth bound is rejected");
    assert!(err.contains("nests deeper than"), "{err}");
    assert_eq!(doc.save(), before, "a rejected transfer writes nothing");
}

#[test]
fn an_ordinary_xml_attribute_still_transfers() {
    // The guard must not break the shape it sits in front of.
    let doc = YrsDoc::new_empty();
    seed_list(&doc, "dst", &[]);
    let src = seed_list(&doc, "src", &[]);
    {
        let mut txn = local_txn(&doc.yrs_doc());
        let element = src.push_back(&mut txn, XmlElementPrelim::empty("node"));
        element.insert_attribute(&mut txn, "plain", "value".to_owned());
        let nested = element.insert_attribute(&mut txn, "held", MapPrelim::default());
        nested.insert(&mut txn, "k", "v");
    }

    doc.transfer_entry_atomically(
        YrsTransferMode::Copy,
        array_slot(&[key("src")], 0),
        array_slot(&[key("dst")], 0),
    )
    .expect("an ordinary attributed element copies");
    assert_eq!(doc.get_array("dst".to_owned()).length(), 1);
}

#[test]
fn an_ordinary_xml_source_still_transfers() {
    // The guard must not break the shape it sits in front of.
    let doc = YrsDoc::new_empty();
    seed_list(&doc, "dst", &[]);
    let src = seed_list(&doc, "src", &[]);
    {
        let mut txn = local_txn(&doc.yrs_doc());
        let node = src.push_back(&mut txn, XmlElementPrelim::empty("node"));
        node.insert(&mut txn, 0, XmlElementPrelim::empty("child"));
    }

    doc.transfer_entry_atomically(
        YrsTransferMode::Copy,
        array_slot(&[key("src")], 0),
        array_slot(&[key("dst")], 0),
    )
    .expect("an ordinary xml subtree copies");
    assert_eq!(doc.get_array("dst".to_owned()).length(), 1);
}

#[test]
fn ordinary_nesting_is_unaffected_by_the_depth_guard() {
    let doc = YrsDoc::new_empty();
    seed_list(&doc, "dst", &[]);
    let src = seed_list(&doc, "src", &[]);
    {
        let mut txn = local_txn(&doc.yrs_doc());
        let mut node = src.push_back(&mut txn, MapPrelim::default());
        for _ in 0..8 {
            node = node.insert(&mut txn, "child", MapPrelim::default());
        }
        node.insert(&mut txn, "leaf", "value");
    }

    transfer(
        &doc,
        YrsTransferMode::Copy,
        array_slot(&[key("src")], 0),
        array_slot(&[key("dst")], 0),
    );
    // The whole chain came across, leaf included.
    let mut cursor = json(r#"{}"#);
    let copied = array_state(&doc, "dst");
    let Any::Array(entries) = &copied else {
        panic!("destination is a list, got {copied:?}");
    };
    assert_eq!(entries.len(), 1, "exactly one entry was copied");
    cursor.clone_from(&entries[0]);
    for _ in 0..8 {
        let Any::Map(map) = &cursor else {
            panic!("expected a nested map, got {cursor:?}");
        };
        let next = map.get("child").expect("chain link survives").clone();
        cursor = next;
    }
    let Any::Map(deepest) = &cursor else {
        panic!("expected the deepest map, got {cursor:?}");
    };
    assert_eq!(deepest.get("leaf"), Some(&Any::from("value")));
}

/// A plain value nested `levels` deep: arrays wrapping one string.
fn deep_plain(levels: usize) -> Any {
    let mut value = Any::from("leaf");
    for _ in 0..levels {
        value = Any::Array(vec![value].into());
    }
    value
}

#[test]
fn a_deep_plain_value_in_an_entry_still_copies() {
    // A deep copy takes a plain value by pointer, so however deep it nests
    // it costs no recursion and the guard lets it through.
    let doc = YrsDoc::new_empty();
    seed_list(&doc, "dst", &[]);
    let src = seed_list(&doc, "src", &[]);
    {
        let mut txn = local_txn(&doc.yrs_doc());
        src.push_back(&mut txn, deep_plain(MAX_TRANSFER_DEPTH + 50));
    }

    doc.transfer_entry_atomically(
        YrsTransferMode::Copy,
        array_slot(&[key("src")], 0),
        array_slot(&[key("dst")], 0),
    )
    .expect("a plain value copies whatever its nesting");
    assert_eq!(doc.get_array("dst".to_owned()).length(), 1);
    assert_eq!(array_state(&doc, "dst"), Any::Array(vec![deep_plain(MAX_TRANSFER_DEPTH + 50)].into()));
}

#[test]
fn a_deep_plain_xml_attribute_is_rejected() {
    // A copy renders each xml attribute as text, which walks a plain value
    // one frame per level, so there the plain nesting counts.
    let doc = YrsDoc::new_empty();
    seed_list(&doc, "dst", &["z"]);
    let src = seed_list(&doc, "src", &[]);
    {
        let mut txn = local_txn(&doc.yrs_doc());
        let element = src.push_back(&mut txn, XmlElementPrelim::empty("node"));
        element.insert_attribute(&mut txn, "deep", deep_plain(MAX_TRANSFER_DEPTH + 50));
    }
    let before = doc.save();

    let err = doc
        .transfer_entry_atomically(
            YrsTransferMode::Copy,
            array_slot(&[key("src")], 0),
            array_slot(&[key("dst")], 0),
        )
        .expect_err("a deep plain attribute is rejected");
    assert_eq!(err, format!("source entry nests deeper than {MAX_TRANSFER_DEPTH} levels"));
    assert_eq!(doc.save(), before, "a rejected transfer writes nothing");
}

#[test]
fn a_shallow_plain_xml_attribute_still_transfers() {
    let doc = YrsDoc::new_empty();
    seed_list(&doc, "dst", &[]);
    let src = seed_list(&doc, "src", &[]);
    {
        let mut txn = local_txn(&doc.yrs_doc());
        let element = src.push_back(&mut txn, XmlElementPrelim::empty("node"));
        element.insert_attribute(&mut txn, "shallow", deep_plain(8));
    }

    doc.transfer_entry_atomically(
        YrsTransferMode::Copy,
        array_slot(&[key("src")], 0),
        array_slot(&[key("dst")], 0),
    )
    .expect("a shallow plain attribute copies");
    assert_eq!(doc.get_array("dst".to_owned()).length(), 1);
}

#[test]
fn a_deep_formatting_value_in_a_rendered_xml_text_is_rejected() {
    // An xml text held as an attribute value is rendered as a string, which
    // writes each chunk's formatting values, walking them one frame per
    // level.
    let doc = YrsDoc::new_empty();
    seed_list(&doc, "dst", &["z"]);
    let src = seed_list(&doc, "src", &[]);
    {
        let mut txn = local_txn(&doc.yrs_doc());
        let element = src.push_back(&mut txn, XmlElementPrelim::empty("node"));
        let held = element.insert_attribute(&mut txn, "text", XmlTextPrelim::new(""));
        let mut formats = yrs::types::Attrs::new();
        formats.insert("b".into(), deep_plain(MAX_TRANSFER_DEPTH + 50));
        held.insert_with_attributes(&mut txn, 0, "x", formats);
    }
    let before = doc.save();

    let err = doc
        .transfer_entry_atomically(
            YrsTransferMode::Copy,
            array_slot(&[key("src")], 0),
            array_slot(&[key("dst")], 0),
        )
        .expect_err("a deep formatting value under a rendered xml text is rejected");
    assert_eq!(err, format!("source entry nests deeper than {MAX_TRANSFER_DEPTH} levels"));
    assert_eq!(doc.save(), before, "a rejected transfer writes nothing");
}

#[test]
fn a_formatted_xml_text_entry_still_copies() {
    // Outside an attribute, a copy keeps formatting values by pointer.
    let doc = YrsDoc::new_empty();
    seed_list(&doc, "dst", &[]);
    let src = seed_list(&doc, "src", &[]);
    {
        let mut txn = local_txn(&doc.yrs_doc());
        let text = src.push_back(&mut txn, XmlTextPrelim::new(""));
        let mut formats = yrs::types::Attrs::new();
        formats.insert("b".into(), deep_plain(MAX_TRANSFER_DEPTH + 50));
        text.insert_with_attributes(&mut txn, 0, "x", formats);
    }

    doc.transfer_entry_atomically(
        YrsTransferMode::Copy,
        array_slot(&[key("src")], 0),
        array_slot(&[key("dst")], 0),
    )
    .expect("a formatted xml text copies");
    assert_eq!(doc.get_array("dst".to_owned()).length(), 1);
}
