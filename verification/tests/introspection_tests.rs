use nmos_control::block::{NcBlock, NcMember};
use nmos_control::descriptors::NcClassDescriptor;
use nmos_control::nmos::{DeviceControl, NmosDevice};
use nmos_control::class_manager::NcClassManager;
use nmos_control::json::{Json, chars_to_string, to_text};
use nmos_control::nmos::{tai_timestamp, tai_timestamp_from};
use nmos_control::types::{NcElementId, NcMethodStatus, PropertyChangedEvent};

fn eid(level: u16, index: u16) -> NcElementId {
    NcElementId { level, index }
}

fn render(v: &Json) -> String {
    chars_to_string(&to_text(v))
}

fn model_with_class_manager() -> NcBlock {
    let mut events: Vec<PropertyChangedEvent> = Vec::new();
    let mut root = NcBlock::new(true, vec![1, 1], 1, true, None, "root", None, true, None, None);
    let cm = NcClassManager::new(3, true, Some(1), "ClassManager", None, None, None);
    assert!(root.add_member(NcMember::Class(cm), &mut events));
    root
}

fn obj_field<'a>(v: &'a Json, key: &str) -> &'a Json {
    v.get(key).expect("field should be present")
}

#[test]
fn get_control_class_flattened_keeps_own_before_inherited() {
    let root = model_with_class_manager();
    // GetControlClass on the device manager class, includeInherited = true
    let args = Json::Obj(vec![
        (
            String::from("classId"),
            Json::Arr(vec![Json::UInt(1), Json::UInt(3), Json::UInt(1)]),
        ),
        (String::from("includeInherited"), Json::Bool(true)),
    ]);
    let (err, v, st) = root.invoke_method(3, eid(3, 1), &args);
    assert!(err.is_none());
    assert_eq!(st, NcMethodStatus::Okay);
    let d = v.unwrap();
    assert_eq!(render(obj_field(&d, "name")), "\"NcDeviceManager\"");
    assert_eq!(render(obj_field(&d, "classId")), "[1,3,1]");
    let props = match obj_field(&d, "properties") {
        Json::Arr(items) => items,
        _ => panic!("properties should be an array"),
    };
    // ten own properties at level 3, then the eight inherited at level 1
    assert_eq!(props.len(), 18);
    for i in 0..10 {
        assert_eq!(render(obj_field(obj_field(&props[i], "id"), "level")), "3");
        assert_eq!(
            render(obj_field(obj_field(&props[i], "id"), "index")),
            format!("{}", i + 1)
        );
    }
    for i in 0..8 {
        assert_eq!(render(obj_field(obj_field(&props[10 + i], "id"), "level")), "1");
        assert_eq!(
            render(obj_field(obj_field(&props[10 + i], "id"), "index")),
            format!("{}", i + 1)
        );
    }
}

#[test]
fn get_control_class_own_form_and_unknown_class() {
    let root = model_with_class_manager();
    let args = Json::Obj(vec![
        (String::from("classId"), Json::Arr(vec![Json::UInt(1), Json::UInt(1)])),
        (String::from("includeInherited"), Json::Bool(false)),
    ]);
    let (_, v, st) = root.invoke_method(3, eid(3, 1), &args);
    assert_eq!(st, NcMethodStatus::Okay);
    let d = v.unwrap();
    assert_eq!(render(obj_field(&d, "name")), "\"NcBlock\"");
    let props = match obj_field(&d, "properties") {
        Json::Arr(items) => items,
        _ => panic!("properties should be an array"),
    };
    assert_eq!(props.len(), 2);
    let methods = match obj_field(&d, "methods") {
        Json::Arr(items) => items,
        _ => panic!("methods should be an array"),
    };
    assert_eq!(methods.len(), 4);
    // an unknown class id is an invalid request
    let args = Json::Obj(vec![
        (String::from("classId"), Json::Arr(vec![Json::UInt(9)])),
        (String::from("includeInherited"), Json::Bool(false)),
    ]);
    let (err, v, st) = root.invoke_method(3, eid(3, 1), &args);
    assert_eq!(st, NcMethodStatus::InvalidRequest);
    assert_eq!(err.unwrap(), "Descriptor for class could not be found");
    assert!(v.is_none());
    // a missing argument is an invalid request too
    let args = Json::Obj(vec![(String::from("includeInherited"), Json::Bool(false))]);
    let (_, _, st) = root.invoke_method(3, eid(3, 1), &args);
    assert_eq!(st, NcMethodStatus::InvalidRequest);
}

#[test]
fn get_datatype_flattens_struct_fields() {
    let root = model_with_class_manager();
    let args = Json::Obj(vec![
        (String::from("name"), Json::Str(String::from("NcBlockMemberDescriptor"))),
        (String::from("includeInherited"), Json::Bool(true)),
    ]);
    let (_, v, st) = root.invoke_method(3, eid(3, 2), &args);
    assert_eq!(st, NcMethodStatus::Okay);
    let d = v.unwrap();
    assert_eq!(render(obj_field(&d, "name")), "\"NcBlockMemberDescriptor\"");
    let fields = match obj_field(&d, "fields") {
        Json::Arr(items) => items,
        _ => panic!("fields should be an array"),
    };
    // six own fields, then the description field inherited from the base
    assert_eq!(fields.len(), 7);
    assert_eq!(render(obj_field(&fields[0], "name")), "\"role\"");
    assert_eq!(render(obj_field(&fields[6], "name")), "\"description\"");
    // without inheritance only the own fields
    let args = Json::Obj(vec![
        (String::from("name"), Json::Str(String::from("NcBlockMemberDescriptor"))),
        (String::from("includeInherited"), Json::Bool(false)),
    ]);
    let (_, v, _) = root.invoke_method(3, eid(3, 2), &args);
    let d = v.unwrap();
    let fields = match obj_field(&d, "fields") {
        Json::Arr(items) => items,
        _ => panic!("fields should be an array"),
    };
    assert_eq!(fields.len(), 6);
}

#[test]
fn get_datatype_covers_primitives_typedefs_and_enums() {
    let root = model_with_class_manager();
    for name in ["NcBoolean", "NcString", "NcClassId", "NcOid", "NcMethodStatus", "NcUuid"] {
        let args = Json::Obj(vec![
            (String::from("name"), Json::Str(String::from(name))),
            (String::from("includeInherited"), Json::Bool(true)),
        ]);
        let (err, v, st) = root.invoke_method(3, eid(3, 2), &args);
        assert!(err.is_none(), "{name} should be known");
        assert_eq!(st, NcMethodStatus::Okay);
        let d = v.unwrap();
        assert_eq!(render(obj_field(&d, "name")), format!("\"{name}\""));
    }
    let args = Json::Obj(vec![
        (String::from("name"), Json::Str(String::from("NoSuchType"))),
        (String::from("includeInherited"), Json::Bool(false)),
    ]);
    let (_, _, st) = root.invoke_method(3, eid(3, 2), &args);
    assert_eq!(st, NcMethodStatus::InvalidRequest);
}

#[test]
fn class_manager_sequences_and_lists() {
    let root = model_with_class_manager();
    // GetSequenceLength on controlClasses (3,1): the five registered classes
    let args = Json::Obj(vec![(
        String::from("id"),
        Json::Obj(vec![
            (String::from("level"), Json::UInt(3)),
            (String::from("index"), Json::UInt(1)),
        ]),
    )]);
    let (_, v, st) = root.invoke_method(3, eid(1, 7), &args);
    assert_eq!(st, NcMethodStatus::Okay);
    assert_eq!(render(&v.unwrap()), "5");
    // GetSequenceItem with an index past the end
    let args = Json::Obj(vec![
        (
            String::from("id"),
            Json::Obj(vec![
                (String::from("level"), Json::UInt(3)),
                (String::from("index"), Json::UInt(1)),
            ]),
        ),
        (String::from("index"), Json::UInt(99)),
    ]);
    let (_, _, st) = root.invoke_method(3, eid(1, 3), &args);
    assert_eq!(st, NcMethodStatus::IndexOutOfBounds);
    // the datatype list is served as the (3,2) property
    let (_, v, st) = root.get_property(3, &nmos_control::types::IdArgs { id: eid(3, 2) });
    assert_eq!(st, NcMethodStatus::Okay);
    match v {
        Json::Arr(items) => assert_eq!(items.len(), 69),
        _ => panic!("datatypes should be an array"),
    }
}

#[test]
fn class_descriptor_json_names_enum_values() {
    let d: NcClassDescriptor = nmos_control::object::NcObject::get_class_descriptor(false);
    let j = d.to_json();
    assert_eq!(render(obj_field(&j, "name")), "\"NcObject\"");
    assert_eq!(render(obj_field(&j, "classId")), "[1]");
    assert_eq!(render(obj_field(&j, "fixedRole")), "null");
}

#[test]
fn tai_timestamps_have_the_expected_shape() {
    assert_eq!(tai_timestamp_from(0, 0), "37:0");
    assert_eq!(tai_timestamp_from(1000, 999999999), "1037:999999999");
    let now = tai_timestamp();
    let mut parts = now.split(':');
    let secs = parts.next().unwrap();
    let nanos = parts.next().unwrap();
    assert!(parts.next().is_none());
    assert!(secs.chars().all(|c| c.is_ascii_digit()));
    assert!(nanos.chars().all(|c| c.is_ascii_digit()));
    assert!(nanos.parse::<u64>().unwrap() < 1_000_000_000);
    // the clock reads a real time: later than 2020, counted in TAI seconds
    assert!(secs.parse::<u64>().unwrap() > 1_577_000_000);
}

#[test]
fn nmos_catalog_records_render() {
    let d = NmosDevice::new(
        String::from("d-1"),
        String::from("Example Device"),
        String::from("desc"),
        String::from("37:0"),
        vec![],
        vec![],
        vec![],
        String::from("n-1"),
        String::from("urn:x-nmos:device:generic"),
        vec![DeviceControl {
            kind_uri: String::from("urn:x-nmos:control:ncp/v1.0"),
            href: String::from("ws://127.0.0.1:3000/ws"),
            authorization: false,
        }],
    );
    let j = d.to_json();
    assert_eq!(render(obj_field(&j, "id")), "\"d-1\"");
    assert_eq!(render(obj_field(&j, "node_id")), "\"n-1\"");
    assert_eq!(render(obj_field(&j, "type")), "\"urn:x-nmos:device:generic\"");
    assert_eq!(
        render(obj_field(&j, "controls")),
        "[{\"type\":\"urn:x-nmos:control:ncp/v1.0\",\"href\":\"ws://127.0.0.1:3000/ws\",\"authorization\":false}]"
    );
}

#[test]
fn class_manager_sequence_op_on_non_sequence_id() {
    let root = model_with_class_manager();
    // (3,3) is not a property of the class manager, so not a sequence here
    let args = Json::Obj(vec![(
        String::from("id"),
        Json::Obj(vec![
            (String::from("level"), Json::UInt(3)),
            (String::from("index"), Json::UInt(3)),
        ]),
    )]);
    let (err, v, st) = root.invoke_method(3, eid(1, 7), &args);
    assert_eq!(st, NcMethodStatus::PropertyNotImplemented);
    assert!(err.is_some());
    assert!(v.is_none());
    let args = Json::Obj(vec![
        (
            String::from("id"),
            Json::Obj(vec![
                (String::from("level"), Json::UInt(3)),
                (String::from("index"), Json::UInt(3)),
            ]),
        ),
        (String::from("index"), Json::UInt(0)),
    ]);
    let (_, _, st) = root.invoke_method(3, eid(1, 3), &args);
    assert_eq!(st, NcMethodStatus::PropertyNotImplemented);
}

#[test]
fn status_codes_round_trip() {
    for code in [
        200u16, 298, 299, 400, 401, 404, 405, 406, 409, 413, 414, 417, 423, 500, 501, 502, 503,
        504,
    ] {
        assert_eq!(NcMethodStatus::from_code(code).code(), code);
    }
    assert_eq!(NcMethodStatus::from_code(299).code(), 299);
    assert_eq!(NcMethodStatus::from_code(777), NcMethodStatus::DeviceError);
}
