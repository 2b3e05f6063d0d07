use nmos_control::block::{NcBlock, NcMember};
use nmos_control::class_manager::NcClassManager;
use nmos_control::device_manager::NcDeviceManager;
use nmos_control::json::{Json, chars_to_string, parse_json, str_to_chars, to_text};
use nmos_control::object::NcObject;
use nmos_control::session::{
    Frame, Session, WsSubscriptionMessage, classify_text_frame, error_message,
    notification_message, process_commands,
};
use nmos_control::types::{NcManufacturer, NcProduct, PropertyChangedEvent};

fn render(v: &Json) -> String {
    chars_to_string(&to_text(v))
}

fn example_model() -> NcBlock {
    let mut events: Vec<PropertyChangedEvent> = Vec::new();
    let mut root = NcBlock::new(true, vec![1, 1], 1, true, None, "root", None, true, None, None);
    let dm = NcDeviceManager::new(
        2,
        true,
        Some(1),
        "DeviceManager",
        None,
        None,
        None,
        String::from("v1.0.0"),
        NcManufacturer { name: String::from("Acme"), organization_id: None, website: None },
        NcProduct {
            name: String::from("Widget"),
            key: String::from("W-1"),
            revision_level: String::from("1.0"),
            brand_name: None,
            uuid: None,
            description: None,
        },
        String::from("SN-1"),
    );
    assert!(root.add_member(NcMember::Device(dm), &mut events));
    let cm = NcClassManager::new(3, true, Some(1), "ClassManager", None, None, None);
    assert!(root.add_member(NcMember::Class(cm), &mut events));
    let obj = NcObject::new(vec![1], 4, true, Some(1), "my-obj-01", None, None, None);
    assert!(root.add_member(NcMember::Object(obj), &mut events));
    root
}

fn run_frame(root: &mut NcBlock, text: &str, events: &mut Vec<PropertyChangedEvent>) -> String {
    match classify_text_frame(&str_to_chars(text)) {
        Frame::Commands(msg) => render(&process_commands(root, &msg, events)),
        Frame::Subscribe(_) => panic!("expected a command frame"),
        Frame::Invalid => panic!("expected a valid frame"),
    }
}

#[test]
fn get_role_over_the_wire() {
    let mut root = example_model();
    let mut events = Vec::new();
    let reply = run_frame(
        &mut root,
        "{\"messageType\":0,\"commands\":[{\"handle\":7,\"oid\":1,\"methodId\":{\"level\":1,\"index\":1},\"arguments\":{\"id\":{\"level\":1,\"index\":5}}}]}",
        &mut events,
    );
    assert_eq!(
        reply,
        "{\"responses\":[{\"handle\":7,\"result\":{\"status\":200,\"value\":\"root\"}}],\"messageType\":1}"
    );
    assert_eq!(events.len(), 0);
}

#[test]
fn set_then_get_over_the_wire() {
    let mut root = example_model();
    let mut events = Vec::new();
    let reply = run_frame(
        &mut root,
        "{\"messageType\":0,\"commands\":[{\"handle\":8,\"oid\":1,\"methodId\":{\"level\":1,\"index\":2},\"arguments\":{\"id\":{\"level\":1,\"index\":6},\"value\":\"hello\"}}]}",
        &mut events,
    );
    assert_eq!(
        reply,
        "{\"responses\":[{\"handle\":8,\"result\":{\"status\":200,\"value\":null}}],\"messageType\":1}"
    );
    let reply = run_frame(
        &mut root,
        "{\"messageType\":0,\"commands\":[{\"handle\":9,\"oid\":1,\"methodId\":{\"level\":1,\"index\":1},\"arguments\":{\"id\":{\"level\":1,\"index\":6}}}]}",
        &mut events,
    );
    assert_eq!(
        reply,
        "{\"responses\":[{\"handle\":9,\"result\":{\"status\":200,\"value\":\"hello\"}}],\"messageType\":1}"
    );
}

#[test]
fn subscribed_session_sees_the_change_notification() {
    let mut root = example_model();
    let mut session = Session::new();
    // subscribe to the root
    let resp = match classify_text_frame(&str_to_chars("{\"messageType\":3,\"subscriptions\":[1]}")) {
        Frame::Subscribe(msg) => session.apply_subscription(&msg),
        _ => panic!("expected a subscription frame"),
    };
    assert_eq!(render(&resp), "{\"subscriptions\":[1],\"messageType\":4}");
    // write the user label
    let mut events = Vec::new();
    run_frame(
        &mut root,
        "{\"messageType\":0,\"commands\":[{\"handle\":8,\"oid\":1,\"methodId\":{\"level\":1,\"index\":2},\"arguments\":{\"id\":{\"level\":1,\"index\":6},\"value\":\"hello\"}}]}",
        &mut events,
    );
    assert_eq!(events.len(), 1);
    assert!(session.is_subscribed(events[0].oid));
    let note = notification_message(&events[0]);
    assert_eq!(
        render(&note),
        "{\"notifications\":[{\"oid\":1,\"eventId\":{\"level\":1,\"index\":1},\"eventData\":{\"propertyId\":{\"level\":1,\"index\":6},\"changeType\":0,\"value\":\"hello\",\"sequenceItemIndex\":null}}],\"messageType\":2}"
    );
}

#[test]
fn unknown_oid_reports_member_not_found() {
    let mut root = example_model();
    let mut events = Vec::new();
    let reply = run_frame(
        &mut root,
        "{\"messageType\":0,\"commands\":[{\"handle\":1,\"oid\":999999,\"methodId\":{\"level\":1,\"index\":1},\"arguments\":{\"id\":{\"level\":1,\"index\":1}}}]}",
        &mut events,
    );
    assert_eq!(
        reply,
        "{\"responses\":[{\"handle\":1,\"result\":{\"status\":404,\"errorMessage\":\"Member not found\"}}],\"messageType\":1}"
    );
}

#[test]
fn malformed_arguments_report_bad_command_format() {
    let mut root = example_model();
    let mut events = Vec::new();
    let reply = run_frame(
        &mut root,
        "{\"messageType\":0,\"commands\":[{\"handle\":2,\"oid\":1,\"methodId\":{\"level\":1,\"index\":1},\"arguments\":{}}]}",
        &mut events,
    );
    assert!(reply.contains("\"status\":400"));
}

#[test]
fn batched_commands_keep_order_and_handles() {
    let mut root = example_model();
    let mut events = Vec::new();
    let reply = run_frame(
        &mut root,
        "{\"messageType\":0,\"commands\":[{\"handle\":5,\"oid\":1,\"methodId\":{\"level\":1,\"index\":1},\"arguments\":{\"id\":{\"level\":1,\"index\":2}}},{\"handle\":6,\"oid\":4,\"methodId\":{\"level\":1,\"index\":1},\"arguments\":{\"id\":{\"level\":1,\"index\":5}}}]}",
        &mut events,
    );
    assert_eq!(
        reply,
        "{\"responses\":[{\"handle\":5,\"result\":{\"status\":200,\"value\":1}},{\"handle\":6,\"result\":{\"status\":200,\"value\":\"my-obj-01\"}}],\"messageType\":1}"
    );
}

#[test]
fn repeated_subscription_is_idempotent() {
    let mut session = Session::new();
    let msg = WsSubscriptionMessage { subscriptions: vec![1, 4, 4] };
    let r1 = render(&session.apply_subscription(&msg));
    let set1 = session.subscribed_oids.clone();
    let r2 = render(&session.apply_subscription(&msg));
    assert_eq!(session.subscribed_oids, set1);
    assert_eq!(r1, r2);
    assert_eq!(r1, "{\"subscriptions\":[1,4,4],\"messageType\":4}");
    assert!(session.is_subscribed(4));
    assert!(!session.is_subscribed(2));
    // a later message replaces, never accumulates
    let msg2 = WsSubscriptionMessage { subscriptions: vec![2] };
    session.apply_subscription(&msg2);
    assert!(!session.is_subscribed(1));
    assert!(session.is_subscribed(2));
}

#[test]
fn invalid_frames_are_classified_invalid() {
    assert!(matches!(
        classify_text_frame(&str_to_chars("not json")),
        Frame::Invalid
    ));
    assert!(matches!(
        classify_text_frame(&str_to_chars("{\"messageType\":9}")),
        Frame::Invalid
    ));
    // a command list under the wrong message type is not a command frame
    assert!(matches!(
        classify_text_frame(&str_to_chars("{\"messageType\":3,\"commands\":[]}")),
        Frame::Invalid
    ));
    let err = error_message(400, "Invalid message");
    assert_eq!(
        render(&err),
        "{\"status\":400,\"errorMessage\":\"Invalid message\",\"messageType\":5}"
    );
}

#[test]
fn notification_round_trips_byte_identical() {
    let mut root = example_model();
    let mut events = Vec::new();
    run_frame(
        &mut root,
        "{\"messageType\":0,\"commands\":[{\"handle\":8,\"oid\":4,\"methodId\":{\"level\":1,\"index\":2},\"arguments\":{\"id\":{\"level\":1,\"index\":6},\"value\":\"tag\"}}]}",
        &mut events,
    );
    let note = notification_message(&events[0]);
    let text = render(&note);
    let parsed = parse_json(&str_to_chars(&text)).expect("notification should parse");
    assert_eq!(render(&parsed), text);
}
