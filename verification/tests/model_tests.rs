use nmos_control::block::{NcBlock, NcMember};
use nmos_control::class_manager::NcClassManager;
use nmos_control::device_manager::NcDeviceManager;
use nmos_control::json::{Json, chars_to_string, to_text};
use nmos_control::object::NcObject;
use nmos_control::worker::NcWorker;
use nmos_control::types::{
    IdArgs, IdArgsValue, NcElementId, NcManufacturer, NcMethodStatus, NcProduct,
    PropertyChangedEvent,
};

fn eid(level: u16, index: u16) -> NcElementId {
    NcElementId { level, index }
}

fn render(v: &Json) -> String {
    chars_to_string(&to_text(v))
}

/// The example device model: a root block holding the two managers, a bare
/// object, and a nested block with one object inside.
fn example_model() -> (NcBlock, Vec<PropertyChangedEvent>) {
    let mut events: Vec<PropertyChangedEvent> = Vec::new();
    let mut root = NcBlock::new(
        true,
        vec![1, 1],
        1,
        true,
        None,
        "root",
        None,
        true,
        None,
        None,
    );
    let dm = NcDeviceManager::new(
        2,
        true,
        Some(1),
        "DeviceManager",
        Some("Device Manager"),
        None,
        None,
        String::from("v1.0.0"),
        NcManufacturer {
            name: String::from("Acme"),
            organization_id: None,
            website: Some(String::from("https://example.com")),
        },
        NcProduct {
            name: String::from("Widget"),
            key: String::from("W-1"),
            revision_level: String::from("1.0"),
            brand_name: None,
            uuid: None,
            description: None,
        },
        String::from("SN-1"),
    );
    assert!(root.add_member(NcMember::Device(dm), &mut events));
    let cm = NcClassManager::new(3, true, Some(1), "ClassManager", Some("Class Manager"), None, None);
    assert!(root.add_member(NcMember::Class(cm), &mut events));
    let obj = NcObject::new(vec![1], 4, true, Some(1), "my-obj-01", Some("My object 01"), None, None);
    assert!(root.add_member(NcMember::Object(obj), &mut events));
    let mut block1 = NcBlock::new(
        false,
        vec![1, 1],
        5,
        true,
        Some(1),
        "my-block-01",
        None,
        true,
        None,
        None,
    );
    let obj2 = NcObject::new(vec![1], 6, true, Some(5), "my-nested-block-obj", None, None, None);
    assert!(block1.add_member(NcMember::Object(obj2), &mut events));
    assert!(root.add_member(NcMember::Block(block1), &mut events));
    (root, events)
}

#[test]
fn construction_emits_member_list_events() {
    let (_root, events) = example_model();
    // one event per added member: four on the root, one on the nested block
    assert_eq!(events.len(), 5);
    for e in &events {
        assert_eq!(e.event_id, eid(1, 1));
        assert_eq!(e.event_data.property_id, eid(2, 2));
    }
}

#[test]
fn add_member_refuses_duplicate_role_and_wrong_owner() {
    let (mut root, _) = example_model();
    let mut events = Vec::new();
    let dup = NcObject::new(vec![1], 7, true, Some(1), "my-obj-01", None, None, None);
    assert!(!root.add_member(NcMember::Object(dup), &mut events));
    let stray = NcObject::new(vec![1], 8, true, Some(99), "fresh-role", None, None, None);
    assert!(!root.add_member(NcMember::Object(stray), &mut events));
    assert_eq!(events.len(), 0);
}

#[test]
fn get_property_reads_base_fields() {
    let (root, _) = example_model();
    let (err, v, st) = root.get_property(1, &IdArgs { id: eid(1, 5) });
    assert!(err.is_none());
    assert_eq!(st, NcMethodStatus::Okay);
    assert_eq!(render(&v), "\"root\"");
    let (_, v, st) = root.get_property(4, &IdArgs { id: eid(1, 2) });
    assert_eq!(st, NcMethodStatus::Okay);
    assert_eq!(render(&v), "4");
    let (_, v, st) = root.get_property(6, &IdArgs { id: eid(1, 4) });
    assert_eq!(st, NcMethodStatus::Okay);
    assert_eq!(render(&v), "5");
}

#[test]
fn get_property_unknown_id_and_oid() {
    let (root, _) = example_model();
    let (err, _, st) = root.get_property(1, &IdArgs { id: eid(9, 9) });
    assert_eq!(st, NcMethodStatus::PropertyNotImplemented);
    assert!(err.is_some());
    let (err, _, st) = root.get_property(999999, &IdArgs { id: eid(1, 1) });
    assert_eq!(st, NcMethodStatus::BadOid);
    assert_eq!(err.unwrap(), "Member not found");
}

#[test]
fn set_then_get_returns_written_value() {
    let (mut root, _) = example_model();
    let mut events = Vec::new();
    let (err, st) = root.set_property(
        1,
        IdArgsValue { id: eid(1, 6), value: Json::Str(String::from("hello")) },
        &mut events,
    );
    assert!(err.is_none());
    assert_eq!(st, NcMethodStatus::Okay);
    let (_, v, st) = root.get_property(1, &IdArgs { id: eid(1, 6) });
    assert_eq!(st, NcMethodStatus::Okay);
    assert_eq!(render(&v), "\"hello\"");
    // exactly one event, for (1, (1,6)), carrying the new value
    assert_eq!(events.len(), 1);
    assert_eq!(events[0].oid, 1);
    assert_eq!(events[0].event_data.property_id, eid(1, 6));
    assert_eq!(render(&events[0].event_data.value), "\"hello\"");
}

#[test]
fn set_on_nested_member_updates_only_it() {
    let (mut root, _) = example_model();
    let mut events = Vec::new();
    let (_, st) = root.set_property(
        6,
        IdArgsValue { id: eid(1, 6), value: Json::Str(String::from("deep")) },
        &mut events,
    );
    assert_eq!(st, NcMethodStatus::Okay);
    assert_eq!(events.len(), 1);
    assert_eq!(events[0].oid, 6);
    let (_, v, _) = root.get_property(6, &IdArgs { id: eid(1, 6) });
    assert_eq!(render(&v), "\"deep\"");
    let (_, v, _) = root.get_property(4, &IdArgs { id: eid(1, 6) });
    assert_eq!(render(&v), "\"My object 01\"");
}

#[test]
fn readonly_and_invalid_writes_are_refused() {
    let (mut root, _) = example_model();
    let mut events = Vec::new();
    let (err, st) = root.set_property(
        1,
        IdArgsValue { id: eid(1, 5), value: Json::Str(String::from("x")) },
        &mut events,
    );
    assert_eq!(st, NcMethodStatus::Readonly);
    assert!(err.is_some());
    let (_, st) = root.set_property(
        1,
        IdArgsValue { id: eid(1, 6), value: Json::UInt(3) },
        &mut events,
    );
    assert_eq!(st, NcMethodStatus::ParameterError);
    let (_, st) = root.set_property(
        999999,
        IdArgsValue { id: eid(1, 6), value: Json::Null },
        &mut events,
    );
    assert_eq!(st, NcMethodStatus::BadOid);
    assert_eq!(events.len(), 0);
}

#[test]
fn device_manager_writable_strings() {
    let (mut root, _) = example_model();
    let mut events = Vec::new();
    let (_, st) = root.set_property(
        2,
        IdArgsValue { id: eid(3, 6), value: Json::Str(String::from("studio-A")) },
        &mut events,
    );
    assert_eq!(st, NcMethodStatus::Okay);
    assert_eq!(events.len(), 1);
    let (_, v, _) = root.get_property(2, &IdArgs { id: eid(3, 6) });
    assert_eq!(render(&v), "\"studio-A\"");
    let (_, st) = root.set_property(
        2,
        IdArgsValue { id: eid(3, 1), value: Json::Str(String::from("v9")) },
        &mut events,
    );
    assert_eq!(st, NcMethodStatus::Readonly);
    let (_, v, _) = root.get_property(2, &IdArgs { id: eid(3, 2) });
    assert_eq!(
        render(&v),
        "{\"name\":\"Acme\",\"organizationId\":null,\"website\":\"https://example.com\"}"
    );
}

#[test]
fn empty_block_edge_cases() {
    let empty = NcBlock::new(true, vec![1, 1], 1, true, None, "root", None, true, None, None);
    let (_, v, st) = empty.get_property(1, &IdArgs { id: eid(2, 2) });
    assert_eq!(st, NcMethodStatus::Okay);
    assert_eq!(render(&v), "[]");
    let descs = empty.get_member_descriptors(true);
    assert_eq!(descs.len(), 0);
    // GetSequenceLength on (2,2) is 0
    let args = Json::Obj(vec![(
        String::from("id"),
        Json::Obj(vec![
            (String::from("level"), Json::UInt(2)),
            (String::from("index"), Json::UInt(2)),
        ]),
    )]);
    let (err, v, st) = empty.invoke_method(1, eid(1, 7), &args);
    assert!(err.is_none());
    assert_eq!(st, NcMethodStatus::Okay);
    assert_eq!(render(&v.unwrap()), "0");
    // GetSequenceItem with any index is out of bounds
    let args = Json::Obj(vec![
        (
            String::from("id"),
            Json::Obj(vec![
                (String::from("level"), Json::UInt(2)),
                (String::from("index"), Json::UInt(2)),
            ]),
        ),
        (String::from("index"), Json::UInt(0)),
    ]);
    let (err, v, st) = empty.invoke_method(1, eid(1, 3), &args);
    assert_eq!(st, NcMethodStatus::IndexOutOfBounds);
    assert!(err.is_some());
    assert!(v.is_none());
}

#[test]
fn worker_enabled_event_only_on_change() {
    let mut events = Vec::new();
    let mut root = NcBlock::new(true, vec![1, 1], 1, true, None, "root", None, true, None, None);
    let w = NcWorker::new(vec![1, 2], 10, true, Some(1), "gain", None, None, None);
    assert!(root.add_member(NcMember::Worker(w), &mut events));
    events.clear();
    // workers start enabled: writing true again changes nothing
    let (_, st) = root.set_property(
        10,
        IdArgsValue { id: eid(2, 1), value: Json::Bool(true) },
        &mut events,
    );
    assert_eq!(st, NcMethodStatus::Okay);
    assert_eq!(events.len(), 0);
    let (_, st) = root.set_property(
        10,
        IdArgsValue { id: eid(2, 1), value: Json::Bool(false) },
        &mut events,
    );
    assert_eq!(st, NcMethodStatus::Okay);
    assert_eq!(events.len(), 1);
    let (_, v, _) = root.get_property(10, &IdArgs { id: eid(2, 1) });
    assert_eq!(render(&v), "false");
}

#[test]
fn find_members_by_path_cases() {
    let (root, _) = example_model();
    // a nested object through the blocks
    let segs = vec![String::from("my-block-01"), String::from("my-nested-block-obj")];
    let r = root.find_members_by_path(&segs);
    assert_eq!(r.len(), 1);
    assert_eq!(r[0].oid, 6);
    assert_eq!(r[0].owner, 5);
    // empty segments are dropped before the walk; all-empty means empty result
    let r = root.find_members_by_path(&vec![]);
    assert_eq!(r.len(), 0);
    let r = root.find_members_by_path(&vec![String::from("my-obj-01")]);
    assert_eq!(r.len(), 1);
    assert_eq!(r[0].oid, 4);
}

#[test]
fn find_members_by_role_cases() {
    let (root, _) = example_model();
    // empty role matches nothing regardless of recursion
    let r = root.find_members_by_role("", false, false, true);
    assert_eq!(r.len(), 0);
    let r = root.find_members_by_role("", false, false, false);
    assert_eq!(r.len(), 0);
    // case-insensitive substring
    let r = root.find_members_by_role("OBJ", false, false, true);
    assert_eq!(r.len(), 2);
    assert_eq!(r[0].oid, 4);
    assert_eq!(r[1].oid, 6);
    // whole-string, case-sensitive
    let r = root.find_members_by_role("my-obj-01", true, true, false);
    assert_eq!(r.len(), 1);
    // case-sensitive mismatch
    let r = root.find_members_by_role("MY-OBJ-01", true, true, true);
    assert_eq!(r.len(), 0);
}

#[test]
fn find_members_by_class_id_cases() {
    let (root, _) = example_model();
    // exact block class on a tree with one nested block: when recursing, the
    // nested block plus the root itself appended because the root matches too
    let r = root.find_members_by_class_id(&vec![1, 1], false, true);
    assert_eq!(r.len(), 2);
    assert_eq!(r[0].oid, 5);
    assert_eq!(r[1].oid, 1);
    assert_eq!(r[1].owner, 1);
    // without recursion only the direct member block, no root self-entry
    let r = root.find_members_by_class_id(&vec![1, 1], false, false);
    assert_eq!(r.len(), 1);
    assert_eq!(r[0].oid, 5);
    // derived classes of the root class: everything
    let r = root.find_members_by_class_id(&vec![1], true, true);
    assert_eq!(r.len(), 6);
    // prefix matching is by id sequence, not by rendered text
    let r = root.find_members_by_class_id(&vec![1, 3], false, true);
    assert_eq!(r.len(), 0);
    let r = root.find_members_by_class_id(&vec![1, 3], true, true);
    assert_eq!(r.len(), 2);
}

#[test]
fn recursive_listing_has_own_members_as_prefix() {
    let (root, _) = example_model();
    let own = root.get_member_descriptors(false);
    let all = root.get_member_descriptors(true);
    assert_eq!(own.len(), 4);
    assert_eq!(all.len(), 5);
    for i in 0..own.len() {
        assert_eq!(render(&all[i].to_json()), render(&own[i].to_json()));
    }
}

#[test]
fn path_with_empty_segments_over_invoke() {
    let (root, _) = example_model();
    // a path of only empty strings matches nothing
    let args = Json::Obj(vec![(
        String::from("path"),
        Json::Arr(vec![Json::Str(String::new()), Json::Str(String::from("  "))]),
    )]);
    let (err, v, st) = root.invoke_method(1, eid(2, 2), &args);
    assert!(err.is_none());
    assert_eq!(st, NcMethodStatus::Okay);
    assert_eq!(render(&v.unwrap()), "[]");
    // empty segments are dropped and the rest are trimmed before matching
    let args = Json::Obj(vec![(
        String::from("path"),
        Json::Arr(vec![
            Json::Str(String::new()),
            Json::Str(String::from(" my-obj-01 ")),
        ]),
    )]);
    let (_, v, st) = root.invoke_method(1, eid(2, 2), &args);
    assert_eq!(st, NcMethodStatus::Okay);
    let out = render(&v.unwrap());
    assert!(out.contains("\"oid\":4"));
}

#[test]
fn get_member_descriptors_over_invoke() {
    let (root, _) = example_model();
    let args = Json::Obj(vec![(String::from("recurse"), Json::Bool(true))]);
    let (_, v, st) = root.invoke_method(1, eid(2, 1), &args);
    assert_eq!(st, NcMethodStatus::Okay);
    let all = match v.unwrap() {
        Json::Arr(items) => items,
        _ => panic!("descriptors should be an array"),
    };
    assert_eq!(all.len(), 5);
    // unknown method ids are not implemented
    let (err, v, st) = root.invoke_method(1, eid(9, 9), &Json::Null);
    assert_eq!(st, NcMethodStatus::MethodNotImplemented);
    assert!(err.is_some());
    assert!(v.is_none());
}

#[test]
fn block_level_two_properties_are_readonly() {
    let (mut root, _) = example_model();
    let mut events = Vec::new();
    // enabled and members are read-only on a block
    let (err, st) = root.set_property(
        1,
        IdArgsValue { id: eid(2, 1), value: Json::Bool(false) },
        &mut events,
    );
    assert_eq!(st, NcMethodStatus::Readonly);
    assert_eq!(err.unwrap(), "Property is readonly");
    let (_, st) = root.set_property(
        1,
        IdArgsValue { id: eid(2, 2), value: Json::Arr(vec![]) },
        &mut events,
    );
    assert_eq!(st, NcMethodStatus::Readonly);
    // an unknown level-2 id is not a property of the block
    let (_, st) = root.set_property(
        1,
        IdArgsValue { id: eid(2, 9), value: Json::Null },
        &mut events,
    );
    assert_eq!(st, NcMethodStatus::PropertyNotImplemented);
    // the same holds for a nested block addressed by oid
    let (_, st) = root.set_property(
        5,
        IdArgsValue { id: eid(2, 1), value: Json::Bool(false) },
        &mut events,
    );
    assert_eq!(st, NcMethodStatus::Readonly);
    assert_eq!(events.len(), 0);
    // nothing changed
    let (_, v, _) = root.get_property(1, &IdArgs { id: eid(2, 1) });
    assert_eq!(render(&v), "true");
}

#[test]
fn sequence_operations_on_non_sequence_ids() {
    let (root, _) = example_model();
    // GetSequenceLength on a non-sequence property of the block
    let args = Json::Obj(vec![(
        String::from("id"),
        Json::Obj(vec![
            (String::from("level"), Json::UInt(1)),
            (String::from("index"), Json::UInt(5)),
        ]),
    )]);
    let (err, v, st) = root.invoke_method(1, eid(1, 7), &args);
    assert_eq!(st, NcMethodStatus::PropertyNotImplemented);
    assert!(err.is_some());
    assert!(v.is_none());
    // GetSequenceItem likewise
    let args = Json::Obj(vec![
        (
            String::from("id"),
            Json::Obj(vec![
                (String::from("level"), Json::UInt(1)),
                (String::from("index"), Json::UInt(5)),
            ]),
        ),
        (String::from("index"), Json::UInt(0)),
    ]);
    let (_, _, st) = root.invoke_method(1, eid(1, 3), &args);
    assert_eq!(st, NcMethodStatus::PropertyNotImplemented);
    // a malformed id argument is a parameter error instead
    let args = Json::Obj(vec![
        (String::from("id"), Json::UInt(7)),
        (String::from("index"), Json::UInt(0)),
    ]);
    let (_, _, st) = root.invoke_method(1, eid(1, 3), &args);
    assert_eq!(st, NcMethodStatus::ParameterError);
}
