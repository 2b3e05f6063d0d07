//! The protocol session: classifying incoming frames, dispatching command
//! batches through the root block, subscription bookkeeping, and the
//! outbound message forms.

use vstd::prelude::*;
use crate::json::{
    Json, JsonV, json_view_seq, json_view_fields, jput, japp, jget_spec, json_as_u64, parse_doc,
    parse_json, ser_json, json_wf, lemma_write_then_parse,
};
use crate::types::{
    NcElementId, NcMethodStatus, PropertyChangedEvent, EventV, IdArgs, IdArgsValue, event_json,
};
use crate::class_manager::{uint_arg, invoke_value_ok, ValueSpec};
use crate::block::{NcBlock, tree_get, tree_set_status, tree_updated, tree_invoke, PropRead};

verus! {

broadcast use vstd::std_specs::vec::group_vec_axioms, vstd::seq::group_seq_axioms;

// ---------------------------------------------------------------------------
// Wire messages
// ---------------------------------------------------------------------------

/// One command of a command message.
pub struct Command {
    pub handle: u64,
    pub oid: u64,
    pub method_id: NcElementId,
    pub arguments: Json,
}

/// Mathematical model of a command.
pub struct CommandV {
    pub handle: u64,
    pub oid: u64,
    pub method_id: NcElementId,
    pub arguments: JsonV,
}

impl View for Command {
    type V = CommandV;

    open spec fn view(&self) -> CommandV {
        CommandV {
            handle: self.handle,
            oid: self.oid,
            method_id: self.method_id,
            arguments: self.arguments@,
        }
    }
}

pub open spec fn cmds_view(s: Seq<Command>) -> Seq<CommandV> {
    s.map_values(|c: Command| c@)
}

/// A command message (messageType 0).
pub struct WsCommandMessage {
    pub commands: Vec<Command>,
}

/// A subscription message (messageType 3): the oids replace the session's
/// subscription set.
pub struct WsSubscriptionMessage {
    pub subscriptions: Vec<u64>,
}

/// A subscription response (messageType 4): echoes the set.
pub struct WsSubscriptionResponseMessage {
    pub subscriptions: Vec<u64>,
}

/// An out-of-band error frame (messageType 5).
pub struct WsErrorMessage {
    pub status: u16,
    pub error_message: String,
}

// ---------------------------------------------------------------------------
// Frame classification
// ---------------------------------------------------------------------------

/// One command decoded from its JSON form: an object carrying `handle`,
/// `oid`, a `methodId` with level and index within 16 bits, and its
/// `arguments`.
pub open spec fn command_of(v: JsonV) -> Option<CommandV> {
    match (
        uint_arg(v, "handle"@),
        uint_arg(v, "oid"@),
        jget_spec(v, "methodId"@),
        jget_spec(v, "arguments"@),
    ) {
        (Some(h), Some(oid), Some(mid), Some(args)) => match (
            uint_arg(mid, "level"@),
            uint_arg(mid, "index"@),
        ) {
            (Some(l), Some(i)) => if l <= u16::MAX as u64 && i <= u16::MAX as u64 {
                Some(
                    CommandV {
                        handle: h,
                        oid,
                        method_id: NcElementId { level: l as u16, index: i as u16 },
                        arguments: args,
                    },
                )
            } else {
                None
            },
            _ => None,
        },
        _ => None,
    }
}

pub open spec fn commands_of(items: Seq<JsonV>) -> Option<Seq<CommandV>>
    decreases items.len(),
{
    if items.len() == 0 {
        Some(Seq::empty())
    } else {
        match (command_of(items[0]), commands_of(items.drop_first())) {
            (Some(c), Some(rest)) => Some(seq![c] + rest),
            _ => None,
        }
    }
}

pub open spec fn oids_of(items: Seq<JsonV>) -> Option<Seq<u64>>
    decreases items.len(),
{
    if items.len() == 0 {
        Some(Seq::empty())
    } else {
        match (json_as_u64(items[0]), oids_of(items.drop_first())) {
            (Some(n), Some(rest)) => Some(seq![n] + rest),
            _ => None,
        }
    }
}

/// What a parsed frame means.
pub enum FrameV {
    Commands(Seq<CommandV>),
    Subscribe(Seq<u64>),
    Invalid,
}

/// Classification of a parsed document: a command message, a subscription
/// message, or neither.
pub open spec fn classify_frame(v: JsonV) -> FrameV {
    let cmds = match jget_spec(v, "commands"@) {
        Some(c) => match c {
            JsonV::Arr(items) => commands_of(items),
            _ => None,
        },
        None => None,
    };
    if cmds is Some && uint_arg(v, "messageType"@) == Some(0u64) {
        FrameV::Commands(cmds.unwrap())
    } else {
        let subs = match jget_spec(v, "subscriptions"@) {
            Some(s) => match s {
                JsonV::Arr(items) => oids_of(items),
                _ => None,
            },
            None => None,
        };
        if subs is Some && uint_arg(v, "messageType"@) == Some(3u64) {
            FrameV::Subscribe(subs.unwrap())
        } else {
            FrameV::Invalid
        }
    }
}

/// What an incoming text frame means: the classification of its document,
/// or invalid when it is not a JSON document.
pub open spec fn classify_text(text: Seq<char>) -> FrameV {
    match parse_doc(text) {
        Some(v) => classify_frame(v),
        None => FrameV::Invalid,
    }
}

/// An incoming frame, decoded.
pub enum Frame {
    Commands(WsCommandMessage),
    Subscribe(WsSubscriptionMessage),
    Invalid,
}

fn decode_command(v: &Json) -> (r: Option<Command>)
    ensures
        match r {
            Some(c) => command_of(v@) == Some(c@),
            None => command_of(v@) is None,
        },
{
    let h = match v.get("handle") {
        Some(x) => x.as_u64(),
        None => None,
    };
    let oid = match v.get("oid") {
        Some(x) => x.as_u64(),
        None => None,
    };
    let mid = v.get("methodId");
    let args = v.get("arguments");
    match (h, oid, mid, args) {
        (Some(h), Some(oid), Some(mid), Some(args)) => {
            let l = match mid.get("level") {
                Some(x) => x.as_u64(),
                None => None,
            };
            let i = match mid.get("index") {
                Some(x) => x.as_u64(),
                None => None,
            };
            match (l, i) {
                (Some(l), Some(i)) => {
                    if l <= u16::MAX as u64 && i <= u16::MAX as u64 {
                        Some(
                            Command {
                                handle: h,
                                oid,
                                method_id: NcElementId { level: l as u16, index: i as u16 },
                                arguments: args.clone_json(),
                            },
                        )
                    } else {
                        None
                    }
                },
                _ => None,
            }
        },
        _ => None,
    }
}

fn decode_commands(items: &Vec<Json>, i: usize) -> (r: Option<Vec<Command>>)
    requires
        i <= items@.len(),
    ensures
        match r {
            Some(cs) => commands_of(json_view_seq(items@).skip(i as int)) == Some(cmds_view(cs@)),
            None => commands_of(json_view_seq(items@).skip(i as int)) is None,
        },
    decreases items@.len() - i,
{
    proof {
        crate::json::lemma_json_view_seq_props(items@);
    }
    if i == items.len() {
        let r: Vec<Command> = Vec::new();
        proof {
            assert(json_view_seq(items@).skip(i as int) =~= Seq::<JsonV>::empty());
            assert(cmds_view(r@) =~= Seq::<CommandV>::empty());
        }
        return Some(r);
    }
    proof {
        assert(json_view_seq(items@).skip(i as int)[0] == json_view_seq(items@)[i as int]);
        assert(json_view_seq(items@).skip(i as int).drop_first() =~= json_view_seq(
            items@,
        ).skip(i as int + 1));
    }
    match decode_command(&items[i]) {
        Some(c) => match decode_commands(items, i + 1) {
            Some(mut rest) => {
                let ghost rv = rest@;
                let ghost cg = c;
                rest.insert(0, c);
                proof {
                    assert(cmds_view(rest@) =~= seq![cg@] + cmds_view(rv));
                }
                Some(rest)
            },
            None => None,
        },
        None => None,
    }
}

fn decode_oids(items: &Vec<Json>, i: usize) -> (r: Option<Vec<u64>>)
    requires
        i <= items@.len(),
    ensures
        match r {
            Some(cs) => oids_of(json_view_seq(items@).skip(i as int)) == Some(cs@),
            None => oids_of(json_view_seq(items@).skip(i as int)) is None,
        },
    decreases items@.len() - i,
{
    proof {
        crate::json::lemma_json_view_seq_props(items@);
    }
    if i == items.len() {
        let r: Vec<u64> = Vec::new();
        proof {
            assert(json_view_seq(items@).skip(i as int) =~= Seq::<JsonV>::empty());
        }
        return Some(r);
    }
    proof {
        assert(json_view_seq(items@).skip(i as int)[0] == json_view_seq(items@)[i as int]);
        assert(json_view_seq(items@).skip(i as int).drop_first() =~= json_view_seq(
            items@,
        ).skip(i as int + 1));
    }
    match items[i].as_u64() {
        Some(n) => match decode_oids(items, i + 1) {
            Some(mut rest) => {
                let ghost rv = rest@;
                rest.insert(0, n);
                proof {
                    assert(rest@ =~= seq![n] + rv);
                }
                Some(rest)
            },
            None => None,
        },
        None => None,
    }
}

/// Classifies one incoming text frame.
pub fn classify_text_frame(text: &Vec<char>) -> (r: Frame)
    ensures
        match r {
            Frame::Commands(m) => classify_text(text@) == FrameV::Commands(cmds_view(m.commands@)),
            Frame::Subscribe(m) => classify_text(text@) == FrameV::Subscribe(m.subscriptions@),
            Frame::Invalid => classify_text(text@) is Invalid,
        },
{
    let parsed = match parse_json(text) {
        Some(v) => v,
        None => {
            return Frame::Invalid;
        },
    };
    let is_cmd = match parsed.get("messageType") {
        Some(t) => match t.as_u64() {
            Some(0) => true,
            _ => false,
        },
        None => false,
    };
    let is_sub = match parsed.get("messageType") {
        Some(t) => match t.as_u64() {
            Some(3) => true,
            _ => false,
        },
        None => false,
    };
    let cmds: Option<Vec<Command>> = match parsed.get("commands") {
        Some(c) => match c.as_arr() {
            Some(items) => {
                proof {
                    assert(json_view_seq(items@).skip(0) =~= json_view_seq(items@));
                }
                decode_commands(items, 0)
            },
            None => None,
        },
        None => None,
    };
    match cmds {
        Some(commands) => {
            if is_cmd {
                return Frame::Commands(WsCommandMessage { commands });
            }
        },
        None => {
        },
    }
    let subs: Option<Vec<u64>> = match parsed.get("subscriptions") {
        Some(s) => match s.as_arr() {
            Some(items) => {
                proof {
                    assert(json_view_seq(items@).skip(0) =~= json_view_seq(items@));
                }
                decode_oids(items, 0)
            },
            None => None,
        },
        None => None,
    };
    match subs {
        Some(subscriptions) => {
            if is_sub {
                return Frame::Subscribe(WsSubscriptionMessage { subscriptions });
            }
        },
        None => {
        },
    }
    Frame::Invalid
}

// ---------------------------------------------------------------------------
// Outbound message forms
// ---------------------------------------------------------------------------

/// `{"status": s, "value": v}`.
pub open spec fn ok_result_json(status: u16, value: JsonV) -> JsonV {
    JsonV::Obj(seq![("status"@, JsonV::UInt(status as u64)), ("value"@, value)])
}

/// `{"status": s, "errorMessage": m}`.
pub open spec fn err_result_json(status: u16, msg: Seq<char>) -> JsonV {
    JsonV::Obj(
        seq![("status"@, JsonV::UInt(status as u64)), ("errorMessage"@, JsonV::Str(msg))],
    )
}

/// `{"handle": h, "result": r}`.
pub open spec fn response_json(handle: u64, result: JsonV) -> JsonV {
    JsonV::Obj(seq![("handle"@, JsonV::UInt(handle)), ("result"@, result)])
}

/// `{"responses": [...], "messageType": 1}`.
pub open spec fn command_response_msg_json(responses: Seq<JsonV>) -> JsonV {
    JsonV::Obj(
        seq![("responses"@, JsonV::Arr(responses)), ("messageType"@, JsonV::UInt(1))],
    )
}

/// `{"notifications": [e], "messageType": 2}`.
pub open spec fn notification_msg_json(e: EventV) -> JsonV {
    JsonV::Obj(
        seq![
            ("notifications"@, JsonV::Arr(seq![event_json(e)])),
            ("messageType"@, JsonV::UInt(2)),
        ],
    )
}

/// `{"subscriptions": [...], "messageType": 4}`.
pub open spec fn subscription_response_json(subs: Seq<u64>) -> JsonV {
    JsonV::Obj(
        seq![
            ("subscriptions"@, JsonV::Arr(subs.map_values(|x: u64| JsonV::UInt(x)))),
            ("messageType"@, JsonV::UInt(4)),
        ],
    )
}

/// `{"status": s, "errorMessage": m, "messageType": 5}`.
pub open spec fn error_msg_json(status: u16, msg: Seq<char>) -> JsonV {
    JsonV::Obj(
        seq![
            ("status"@, JsonV::UInt(status as u64)),
            ("errorMessage"@, JsonV::Str(msg)),
            ("messageType"@, JsonV::UInt(5)),
        ],
    )
}

/// The notification message for one property-changed event.
pub fn notification_message(e: &PropertyChangedEvent) -> (r: Json)
    ensures
        r@ == notification_msg_json(e@),
{
    let mut items: Vec<Json> = Vec::new();
    japp(&mut items, e.to_json());
    proof {
        assert(json_view_seq(items@) =~= seq![event_json(e@)]);
    }
    let mut fields: Vec<(String, Json)> = Vec::new();
    jput(&mut fields, "notifications", Json::Arr(items));
    jput(&mut fields, "messageType", Json::UInt(2));
    let r = Json::Obj(fields);
    proof {
        assert(json_view_fields(fields@) =~= notification_msg_json(e@)->Obj_0);
    }
    r
}

/// The out-of-band error frame for a malformed incoming frame.
pub fn error_message(status: u16, msg: &str) -> (r: Json)
    ensures
        r@ == error_msg_json(status, msg@),
{
    let mut fields: Vec<(String, Json)> = Vec::new();
    jput(&mut fields, "status", Json::UInt(status as u64));
    jput(&mut fields, "errorMessage", crate::json::jstr(msg));
    jput(&mut fields, "messageType", Json::UInt(5));
    let r = Json::Obj(fields);
    proof {
        assert(json_view_fields(fields@) =~= error_msg_json(status, msg@)->Obj_0);
    }
    r
}

// ---------------------------------------------------------------------------
// Command dispatch
// ---------------------------------------------------------------------------

/// The element id of a `{ id: {level, index} }` argument, within 16 bits.
pub open spec fn small_id_arg(args: JsonV) -> Option<NcElementId> {
    match crate::class_manager::id_arg(args) {
        Some((l, i)) => if l <= u16::MAX as u64 && i <= u16::MAX as u64 {
            Some(NcElementId { level: l as u16, index: i as u16 })
        } else {
            None
        },
        None => None,
    }
}

/// The id and value of a `{ id, value }` argument.
pub open spec fn set_args(args: JsonV) -> Option<(NcElementId, JsonV)> {
    match (small_id_arg(args), jget_spec(args, "value"@)) {
        (Some(id), Some(v)) => Some((id, v)),
        _ => None,
    }
}

fn decode_small_id(args: &Json) -> (r: Option<NcElementId>)
    ensures
        r == small_id_arg(args@),
{
    match crate::class_manager::decode_id_arg(args) {
        Some((l, i)) => if l <= u16::MAX as u64 && i <= u16::MAX as u64 {
            Some(NcElementId { level: l as u16, index: i as u16 })
        } else {
            None
        },
        None => None,
    }
}

fn build_result(err: Option<String>, value: Option<Json>, status: NcMethodStatus) -> (r: Json)
    ensures
        match err {
            Some(m) => r@ == err_result_json(status.code_spec(), m@),
            None => r@ == ok_result_json(
                status.code_spec(),
                match value {
                    Some(v) => v@,
                    None => JsonV::Null,
                },
            ),
        },
{
    let mut fields: Vec<(String, Json)> = Vec::new();
    jput(&mut fields, "status", Json::UInt(status.code() as u64));
    match err {
        Some(m) => {
            let ghost mg = m@;
            jput(&mut fields, "errorMessage", Json::Str(m));
            let r = Json::Obj(fields);
            proof {
                assert(json_view_fields(fields@) =~= err_result_json(
                    status.code_spec(),
                    mg,
                )->Obj_0);
            }
            r
        },
        None => {
            let ghost vg = (match &value {
                Some(v) => v@,
                None => JsonV::Null,
            });
            match value {
                Some(v) => {
                    jput(&mut fields, "value", v);
                },
                None => {
                    jput(&mut fields, "value", Json::Null);
                },
            }
            let r = Json::Obj(fields);
            proof {
                assert(json_view_fields(fields@) =~= ok_result_json(
                    status.code_spec(),
                    vg,
                )->Obj_0);
            }
            r
        },
    }
}

fn build_response(handle: u64, result: Json) -> (r: Json)
    ensures
        r@ == response_json(handle, result@),
{
    let ghost rg = result@;
    let mut fields: Vec<(String, Json)> = Vec::new();
    jput(&mut fields, "handle", Json::UInt(handle));
    jput(&mut fields, "result", result);
    let r = Json::Obj(fields);
    proof {
        assert(json_view_fields(fields@) =~= response_json(handle, rg)->Obj_0);
    }
    r
}

/// What one command's response must hold, given the tree it was applied to.
pub open spec fn response_ok(
    b: NcBlock,
    c: CommandV,
    resp: JsonV,
) -> bool {
    if c.method_id.is(1, 1) {
        match small_id_arg(c.arguments) {
            Some(id) => match tree_get(b, c.oid, id) {
                PropRead::Value(v) => resp == response_json(c.handle, ok_result_json(200, v)),
                PropRead::Unknown => (exists|m: Seq<char>|
                    resp == response_json(c.handle, err_result_json(502, m))),
                PropRead::NoObject => (exists|m: Seq<char>|
                    resp == response_json(c.handle, err_result_json(404, m))),
            },
            None => (exists|m: Seq<char>|
                resp == response_json(c.handle, err_result_json(400, m))),
        }
    } else if c.method_id.is(1, 2) {
        match set_args(c.arguments) {
            Some((id, v)) => {
                let st = tree_set_status(b, c.oid, id, v);
                if st == NcMethodStatus::Okay {
                    resp == response_json(c.handle, ok_result_json(200, JsonV::Null))
                } else {
                    exists|m: Seq<char>|
                        resp == response_json(c.handle, err_result_json(st.code_spec(), m))
                }
            },
            None => (exists|m: Seq<char>|
                resp == response_json(c.handle, err_result_json(400, m))),
        }
    } else {
        let (st, vs) = tree_invoke(b, c.oid, c.method_id, c.arguments);
        if st == NcMethodStatus::Okay {
            exists|j: Json|
                invoke_value_ok(vs, Some(j)) && resp == response_json(
                    c.handle,
                    ok_result_json(200, j@),
                )
        } else {
            exists|m: Seq<char>| resp == response_json(c.handle, err_result_json(st.code_spec(), m))
        }
    }
}

/// Dispatches one command against the tree: a property read for method id
/// (1,1), a property write for (1,2), a method call otherwise. Reads and
/// method calls leave the tree as it was; a write changes exactly the
/// addressed property and emits its event.
pub fn process_one(root: &mut NcBlock, cmd: &Command, events: &mut Vec<PropertyChangedEvent>) -> (
    r: Json)
    ensures
        response_ok(*old(root), cmd@, r@),
        response_ok_handle(r@, cmd@.handle),
        !cmd@.method_id.is(1, 2) ==> *final(root) == *old(root) && final(events)@ == old(events)@,
        cmd@.method_id.is(1, 2) ==> (match set_args(cmd@.arguments) {
            Some((id, v)) => {
                let st = tree_set_status(*old(root), cmd@.oid, id, v);
                &&& (st == NcMethodStatus::Okay ==> tree_updated(
                    *old(root),
                    *final(root),
                    cmd@.oid,
                    id,
                    v,
                ))
                &&& (st != NcMethodStatus::Okay ==> *final(root) == *old(root) && final(events)@
                    == old(events)@)
            },
            None => *final(root) == *old(root) && final(events)@ == old(events)@,
        }),
{
    let mid = cmd.method_id;
    if mid.level == 1 && mid.index == 1 {
        match decode_small_id(&cmd.arguments) {
            Some(id) => {
                let (err, value, status) = root.get_property(cmd.oid, &IdArgs { id });
                build_response(cmd.handle, build_result(err, Some(value), status))
            },
            None => build_response(
                cmd.handle,
                build_result(
                    Some("Invalid args".to_owned()),
                    None,
                    NcMethodStatus::BadCommandFormat,
                ),
            ),
        }
    } else if mid.level == 1 && mid.index == 2 {
        let id = decode_small_id(&cmd.arguments);
        let value = match cmd.arguments.get("value") {
            Some(v) => Some(v.clone_json()),
            None => None,
        };
        match (id, value) {
            (Some(id), Some(value)) => {
                let (err, status) = root.set_property(
                    cmd.oid,
                    IdArgsValue { id, value },
                    events,
                );
                build_response(cmd.handle, build_result(err, None, status))
            },
            _ => build_response(
                cmd.handle,
                build_result(
                    Some("Invalid args".to_owned()),
                    None,
                    NcMethodStatus::BadCommandFormat,
                ),
            ),
        }
    } else {
        let (err, value, status) = root.invoke_method(cmd.oid, mid, &cmd.arguments);
        build_response(cmd.handle, build_result(err, value, status))
    }
}

/// How one dispatched command takes the tree from `b` to `b2`: reads and
/// method calls leave it unchanged; only a successful write changes it,
/// and then exactly in the addressed property.
pub open spec fn cmd_step_ok(b: NcBlock, b2: NcBlock, c: CommandV) -> bool {
    if c.method_id.is(1, 2) {
        match set_args(c.arguments) {
            Some((id, v)) => if tree_set_status(b, c.oid, id, v) == NcMethodStatus::Okay {
                tree_updated(b, b2, c.oid, id, v)
            } else {
                b2 == b
            },
            None => b2 == b,
        }
    } else {
        b2 == b
    }
}

/// Dispatches a command batch strictly in arrival order: one response per
/// command, in the same order, each carrying its command's handle and the
/// outcome of its command against the tree state the commands before it
/// left behind.
pub fn process_commands(
    root: &mut NcBlock,
    msg: &WsCommandMessage,
    events: &mut Vec<PropertyChangedEvent>,
) -> (r: Json)
    ensures
        ({
            exists|responses: Seq<JsonV>, states: Seq<NcBlock>|
                {
                    &&& r@ == command_response_msg_json(responses)
                    &&& responses.len() == msg.commands@.len()
                    &&& states.len() == msg.commands@.len() + 1
                    &&& states[0] == *old(root)
                    &&& states.last() == *final(root)
                    &&& forall|i: int|
                        0 <= i < responses.len() ==> response_ok(
                            states[i],
                            msg.commands@[i]@,
                            #[trigger] responses[i],
                        )
                    &&& forall|i: int|
                        0 <= i < responses.len() ==> cmd_step_ok(
                            states[i],
                            #[trigger] states[i + 1],
                            msg.commands@[i]@,
                        )
                }
        }),
{
    let mut responses: Vec<Json> = Vec::new();
    let mut i: usize = 0;
    let ghost root0 = *root;
    let ghost mut states: Seq<NcBlock> = seq![*root];
    while i < msg.commands.len()
        invariant
            i <= msg.commands@.len(),
            json_view_seq(responses@).len() == i,
            states.len() == i + 1,
            states[0] == root0,
            states.last() == *root,
            forall|j: int|
                0 <= j < i ==> response_ok(
                    states[j],
                    msg.commands@[j]@,
                    #[trigger] json_view_seq(responses@)[j],
                ),
            forall|j: int|
                0 <= j < i ==> cmd_step_ok(states[j], #[trigger] states[j + 1], msg.commands@[j]@),
        decreases msg.commands@.len() - i,
    {
        let ghost root_before = *root;
        let resp = process_one(root, &msg.commands[i], events);
        let ghost respv = resp@;
        japp(&mut responses, resp);
        proof {
            assert(json_view_seq(responses@)[i as int] == respv);
            assert(cmd_step_ok(root_before, *root, msg.commands@[i as int]@));
            states = states.push(*root);
        }
        i = i + 1;
    }
    let ghost resps = json_view_seq(responses@);
    let mut fields: Vec<(String, Json)> = Vec::new();
    jput(&mut fields, "responses", Json::Arr(responses));
    jput(&mut fields, "messageType", Json::UInt(1));
    let r = Json::Obj(fields);
    proof {
        assert(json_view_fields(fields@) =~= command_response_msg_json(resps)->Obj_0);
        assert(r@ == command_response_msg_json(resps));
    }
    r
}

/// A response carries some result under the given handle: every
/// `response_ok` outcome has this form.
pub proof fn lemma_response_has_handle(b: NcBlock, c: CommandV, resp: JsonV)
    requires
        response_ok(b, c, resp),
    ensures
        response_ok_handle(resp, c.handle),
{
}

/// A response carries some result under the given handle.
pub open spec fn response_ok_handle(resp: JsonV, handle: u64) -> bool {
    exists|res: JsonV| resp == response_json(handle, res)
}

// ---------------------------------------------------------------------------
// Sessions and their subscriptions
// ---------------------------------------------------------------------------

/// Per-connection state: the set of oids the controller subscribed to.
pub struct Session {
    pub subscribed_oids: Vec<u64>,
}

impl Session {
    pub fn new() -> (r: Session)
        ensures
            r.subscribed_oids@ == Seq::<u64>::empty(),
    {
        Session { subscribed_oids: Vec::new() }
    }

    /// A subscription message replaces the whole set; the response echoes
    /// the received list. Applying the same message again leaves the set
    /// equal to the same payload and returns the same echo.
    pub fn apply_subscription(&mut self, msg: &WsSubscriptionMessage) -> (r: Json)
        ensures
            final(self).subscribed_oids@ == msg.subscriptions@,
            r@ == subscription_response_json(msg.subscriptions@),
    {
        let mut subs: Vec<u64> = Vec::new();
        let mut items: Vec<Json> = Vec::new();
        let mut i: usize = 0;
        while i < msg.subscriptions.len()
            invariant
                i <= msg.subscriptions@.len(),
                subs@ == msg.subscriptions@.take(i as int),
                json_view_seq(items@) == msg.subscriptions@.take(i as int).map_values(
                    |x: u64| JsonV::UInt(x),
                ),
            decreases msg.subscriptions@.len() - i,
        {
            subs.push(msg.subscriptions[i]);
            japp(&mut items, Json::UInt(msg.subscriptions[i]));
            proof {
                assert(subs@ =~= msg.subscriptions@.take(i as int + 1));
                assert(json_view_seq(items@) =~= msg.subscriptions@.take(i as int + 1).map_values(
                    |x: u64| JsonV::UInt(x),
                ));
            }
            i = i + 1;
        }
        proof {
            assert(msg.subscriptions@.take(msg.subscriptions@.len() as int)
                =~= msg.subscriptions@);
        }
        self.subscribed_oids = subs;
        let mut fields: Vec<(String, Json)> = Vec::new();
        jput(&mut fields, "subscriptions", Json::Arr(items));
        jput(&mut fields, "messageType", Json::UInt(4));
        let r = Json::Obj(fields);
        proof {
            assert(json_view_fields(fields@) =~= subscription_response_json(
                msg.subscriptions@,
            )->Obj_0);
        }
        r
    }

    /// Whether the session wants notifications for `oid`.
    pub fn is_subscribed(&self, oid: u64) -> (r: bool)
        ensures
            r == self.subscribed_oids@.contains(oid),
    {
        let mut i: usize = 0;
        while i < self.subscribed_oids.len()
            invariant
                i <= self.subscribed_oids@.len(),
                forall|j: int| 0 <= j < i ==> self.subscribed_oids@[j] != oid,
            decreases self.subscribed_oids@.len() - i,
        {
            if self.subscribed_oids[i] == oid {
                return true;
            }
            i = i + 1;
        }
        false
    }
}

// ---------------------------------------------------------------------------
// Notification round trip
// ---------------------------------------------------------------------------

/// Every value built by the event and message constructors is canonical.
pub proof fn lemma_event_json_wf(e: EventV)
    requires
        json_wf(e.event_data.value),
    ensures
        json_wf(notification_msg_json(e)),
{
    let ev = event_json(e);
    let data = crate::types::event_data_json(e.event_data);
    assert(json_wf(crate::types::element_id_json(e.event_id))) by {
        let o = crate::types::element_id_json(e.event_id);
        assert(forall|i: int| 0 <= i < o->Obj_0.len() ==> json_wf(#[trigger] o->Obj_0[i].1));
    }
    assert(json_wf(crate::types::element_id_json(e.event_data.property_id))) by {
        let o = crate::types::element_id_json(e.event_data.property_id);
        assert(forall|i: int| 0 <= i < o->Obj_0.len() ==> json_wf(#[trigger] o->Obj_0[i].1));
    }
    assert(json_wf(data)) by {
        assert(forall|i: int| 0 <= i < data->Obj_0.len() ==> json_wf(
            #[trigger] data->Obj_0[i].1,
        ));
    }
    assert(json_wf(ev)) by {
        assert(forall|i: int| 0 <= i < ev->Obj_0.len() ==> json_wf(#[trigger] ev->Obj_0[i].1));
    }
    let msg = notification_msg_json(e);
    assert(json_wf(msg->Obj_0[0].1)) by {
        assert(msg->Obj_0[0].1->Arr_0 == seq![ev]);
        assert(forall|i: int| 0 <= i < 1 ==> json_wf(#[trigger] msg->Obj_0[0].1->Arr_0[i]));
    }
    assert(forall|i: int| 0 <= i < msg->Obj_0.len() ==> json_wf(#[trigger] msg->Obj_0[i].1));
}

/// Round trip of a serialized notification: rendering the message, parsing
/// the text, and rendering the parsed value again yields the identical
/// canonical text.
pub proof fn lemma_notification_round_trip(e: EventV)
    requires
        json_wf(e.event_data.value),
    ensures
        parse_doc(ser_json(notification_msg_json(e))) == Some(notification_msg_json(e)),
{
    lemma_event_json_wf(e);
    lemma_write_then_parse(notification_msg_json(e));
}

} // verus!
