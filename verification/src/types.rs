//! Protocol datatypes: element ids, status and change-type enumerations,
//! events, touchpoints, constraints, and the device-manager value types,
//! each with its canonical JSON form.

use vstd::prelude::*;
use crate::json::{Json, JsonV, json_view_fields, json_view_seq, jput, japp, jstr};

verus! {

broadcast use vstd::std_specs::vec::group_vec_axioms, vstd::seq::group_seq_axioms;

/// Address of a property, method or event within a class: level picks the
/// class in the inheritance chain, index the element.
#[derive(Clone, Copy, Debug, PartialEq, Eq, Structural)]
pub struct NcElementId {
    pub level: u16,
    pub index: u16,
}

pub open spec fn element_id_json(id: NcElementId) -> JsonV {
    JsonV::Obj(
        seq![
            ("level"@, JsonV::UInt(id.level as u64)),
            ("index"@, JsonV::UInt(id.index as u64)),
        ],
    )
}

impl NcElementId {
    pub open spec fn is(self, level: u16, index: u16) -> bool {
        self.level == level && self.index == index
    }

    pub fn to_json(&self) -> (r: Json)
        ensures
            r@ == element_id_json(*self),
    {
        let mut fields: Vec<(String, Json)> = Vec::new();
        jput(&mut fields, "level", Json::UInt(self.level as u64));
        jput(&mut fields, "index", Json::UInt(self.index as u64));
        let r = Json::Obj(fields);
        proof {
            assert(json_view_fields(fields@) =~= element_id_json(*self)->Obj_0);
        }
        r
    }
}

/// Property identifier: an element id addressing a property.
#[derive(Clone, Copy, Debug, PartialEq, Eq, Structural)]
pub struct NcPropertyId {
    pub level: u16,
    pub index: u16,
}

/// Method identifier: an element id addressing a method.
#[derive(Clone, Copy, Debug, PartialEq, Eq, Structural)]
pub struct NcMethodId {
    pub level: u16,
    pub index: u16,
}

/// Event identifier: an element id addressing an event.
#[derive(Clone, Copy, Debug, PartialEq, Eq, Structural)]
pub struct NcEventId {
    pub level: u16,
    pub index: u16,
}

/// Result status of a command; the wire value is the numeric code.
#[derive(Clone, Copy, Debug, PartialEq, Eq, Structural)]
pub enum NcMethodStatus {
    Okay,
    PropertyDeprecated,
    MethodDeprecated,
    BadCommandFormat,
    Unauthorized,
    BadOid,
    Readonly,
    InvalidRequest,
    Conflict,
    BufferOverflow,
    IndexOutOfBounds,
    ParameterError,
    Locked,
    DeviceError,
    MethodNotImplemented,
    PropertyNotImplemented,
    NotReady,
    Timeout,
}

impl NcMethodStatus {
    pub open spec fn code_spec(self) -> u16 {
        match self {
            NcMethodStatus::Okay => 200,
            NcMethodStatus::PropertyDeprecated => 298,
            NcMethodStatus::MethodDeprecated => 299,
            NcMethodStatus::BadCommandFormat => 400,
            NcMethodStatus::Unauthorized => 401,
            NcMethodStatus::BadOid => 404,
            NcMethodStatus::Readonly => 405,
            NcMethodStatus::InvalidRequest => 406,
            NcMethodStatus::Conflict => 409,
            NcMethodStatus::BufferOverflow => 413,
            NcMethodStatus::IndexOutOfBounds => 414,
            NcMethodStatus::ParameterError => 417,
            NcMethodStatus::Locked => 423,
            NcMethodStatus::DeviceError => 500,
            NcMethodStatus::MethodNotImplemented => 501,
            NcMethodStatus::PropertyNotImplemented => 502,
            NcMethodStatus::NotReady => 503,
            NcMethodStatus::Timeout => 504,
        }
    }

    pub fn code(&self) -> (r: u16)
        ensures
            r == self.code_spec(),
    {
        match self {
            NcMethodStatus::Okay => 200,
            NcMethodStatus::PropertyDeprecated => 298,
            NcMethodStatus::MethodDeprecated => 299,
            NcMethodStatus::BadCommandFormat => 400,
            NcMethodStatus::Unauthorized => 401,
            NcMethodStatus::BadOid => 404,
            NcMethodStatus::Readonly => 405,
            NcMethodStatus::InvalidRequest => 406,
            NcMethodStatus::Conflict => 409,
            NcMethodStatus::BufferOverflow => 413,
            NcMethodStatus::IndexOutOfBounds => 414,
            NcMethodStatus::ParameterError => 417,
            NcMethodStatus::Locked => 423,
            NcMethodStatus::DeviceError => 500,
            NcMethodStatus::MethodNotImplemented => 501,
            NcMethodStatus::PropertyNotImplemented => 502,
            NcMethodStatus::NotReady => 503,
            NcMethodStatus::Timeout => 504,
        }
    }

    /// The status named by a numeric code; unknown codes map to DeviceError
    /// as the generic failure.
    pub fn from_code(value: u16) -> (r: NcMethodStatus)
        ensures
            r == status_of_code(value),
    {
        match value {
            200 => NcMethodStatus::Okay,
            298 => NcMethodStatus::PropertyDeprecated,
            299 => NcMethodStatus::MethodDeprecated,
            400 => NcMethodStatus::BadCommandFormat,
            401 => NcMethodStatus::Unauthorized,
            404 => NcMethodStatus::BadOid,
            405 => NcMethodStatus::Readonly,
            406 => NcMethodStatus::InvalidRequest,
            409 => NcMethodStatus::Conflict,
            413 => NcMethodStatus::BufferOverflow,
            414 => NcMethodStatus::IndexOutOfBounds,
            417 => NcMethodStatus::ParameterError,
            423 => NcMethodStatus::Locked,
            500 => NcMethodStatus::DeviceError,
            501 => NcMethodStatus::MethodNotImplemented,
            502 => NcMethodStatus::PropertyNotImplemented,
            503 => NcMethodStatus::NotReady,
            504 => NcMethodStatus::Timeout,
            _ => NcMethodStatus::DeviceError,
        }
    }
}

/// The status a numeric code names: each of the eighteen known codes maps
/// to its status, anything else to DeviceError as the generic failure.
pub open spec fn status_of_code(value: u16) -> NcMethodStatus {
    if value == 200 {
        NcMethodStatus::Okay
    } else if value == 298 {
        NcMethodStatus::PropertyDeprecated
    } else if value == 299 {
        NcMethodStatus::MethodDeprecated
    } else if value == 400 {
        NcMethodStatus::BadCommandFormat
    } else if value == 401 {
        NcMethodStatus::Unauthorized
    } else if value == 404 {
        NcMethodStatus::BadOid
    } else if value == 405 {
        NcMethodStatus::Readonly
    } else if value == 406 {
        NcMethodStatus::InvalidRequest
    } else if value == 409 {
        NcMethodStatus::Conflict
    } else if value == 413 {
        NcMethodStatus::BufferOverflow
    } else if value == 414 {
        NcMethodStatus::IndexOutOfBounds
    } else if value == 417 {
        NcMethodStatus::ParameterError
    } else if value == 423 {
        NcMethodStatus::Locked
    } else if value == 500 {
        NcMethodStatus::DeviceError
    } else if value == 501 {
        NcMethodStatus::MethodNotImplemented
    } else if value == 502 {
        NcMethodStatus::PropertyNotImplemented
    } else if value == 503 {
        NcMethodStatus::NotReady
    } else if value == 504 {
        NcMethodStatus::Timeout
    } else {
        NcMethodStatus::DeviceError
    }
}

/// Kind of change a property-changed event reports.
#[derive(Clone, Copy, Debug, PartialEq, Eq, Structural)]
pub enum NcPropertyChangeType {
    ValueChanged,
    SequenceItemAdded,
    SequenceItemChanged,
    SequenceItemRemoved,
}

impl NcPropertyChangeType {
    pub open spec fn code_spec(self) -> u16 {
        match self {
            NcPropertyChangeType::ValueChanged => 0,
            NcPropertyChangeType::SequenceItemAdded => 1,
            NcPropertyChangeType::SequenceItemChanged => 2,
            NcPropertyChangeType::SequenceItemRemoved => 3,
        }
    }

    pub fn code(&self) -> (r: u16)
        ensures
            r == self.code_spec(),
    {
        match self {
            NcPropertyChangeType::ValueChanged => 0,
            NcPropertyChangeType::SequenceItemAdded => 1,
            NcPropertyChangeType::SequenceItemChanged => 2,
            NcPropertyChangeType::SequenceItemRemoved => 3,
        }
    }
}

#[derive(Clone, Copy, Debug, PartialEq, Eq, Structural)]
pub enum NcDatatypeType {
    Primitive,
    Typedef,
    Struct,
    Enum,
}

impl NcDatatypeType {
    pub open spec fn code_spec(self) -> u16 {
        match self {
            NcDatatypeType::Primitive => 0,
            NcDatatypeType::Typedef => 1,
            NcDatatypeType::Struct => 2,
            NcDatatypeType::Enum => 3,
        }
    }

    pub fn code(&self) -> (r: u16)
        ensures
            r == self.code_spec(),
    {
        match self {
            NcDatatypeType::Primitive => 0,
            NcDatatypeType::Typedef => 1,
            NcDatatypeType::Struct => 2,
            NcDatatypeType::Enum => 3,
        }
    }
}

#[derive(Clone, Copy, Debug, PartialEq, Eq, Structural)]
pub enum NcDeviceGenericState {
    Unknown,
    NormalOperation,
    Initializing,
    Updating,
    LicensingError,
    InternalError,
}

impl NcDeviceGenericState {
    pub open spec fn code_spec(self) -> u16 {
        match self {
            NcDeviceGenericState::Unknown => 0,
            NcDeviceGenericState::NormalOperation => 1,
            NcDeviceGenericState::Initializing => 2,
            NcDeviceGenericState::Updating => 3,
            NcDeviceGenericState::LicensingError => 4,
            NcDeviceGenericState::InternalError => 5,
        }
    }

    pub fn code(&self) -> (r: u16)
        ensures
            r == self.code_spec(),
    {
        match self {
            NcDeviceGenericState::Unknown => 0,
            NcDeviceGenericState::NormalOperation => 1,
            NcDeviceGenericState::Initializing => 2,
            NcDeviceGenericState::Updating => 3,
            NcDeviceGenericState::LicensingError => 4,
            NcDeviceGenericState::InternalError => 5,
        }
    }
}

#[derive(Clone, Copy, Debug, PartialEq, Eq, Structural)]
pub enum NcResetCause {
    Unknown,
    PowerOn,
    InternalError,
    Upgrade,
    ControllerRequest,
    ManualReset,
}

impl NcResetCause {
    pub open spec fn code_spec(self) -> u16 {
        match self {
            NcResetCause::Unknown => 0,
            NcResetCause::PowerOn => 1,
            NcResetCause::InternalError => 2,
            NcResetCause::Upgrade => 3,
            NcResetCause::ControllerRequest => 4,
            NcResetCause::ManualReset => 5,
        }
    }

    pub fn code(&self) -> (r: u16)
        ensures
            r == self.code_spec(),
    {
        match self {
            NcResetCause::Unknown => 0,
            NcResetCause::PowerOn => 1,
            NcResetCause::InternalError => 2,
            NcResetCause::Upgrade => 3,
            NcResetCause::ControllerRequest => 4,
            NcResetCause::ManualReset => 5,
        }
    }
}

// ---------------------------------------------------------------------------
// Small JSON conversions shared by the model
// ---------------------------------------------------------------------------

pub open spec fn opt_str_json(o: Option<Seq<char>>) -> JsonV {
    match o {
        Some(s) => JsonV::Str(s),
        None => JsonV::Null,
    }
}

pub open spec fn view_opt_str(o: Option<String>) -> Option<Seq<char>> {
    match o {
        Some(s) => Some(s@),
        None => None,
    }
}

/// A nullable string as JSON.
pub fn jopt_str(o: &Option<String>) -> (r: Json)
    ensures
        r@ == opt_str_json(view_opt_str(*o)),
{
    match o {
        Some(s) => Json::Str(s.clone()),
        None => Json::Null,
    }
}

pub open spec fn opt_u64_json(o: Option<u64>) -> JsonV {
    match o {
        Some(n) => JsonV::UInt(n),
        None => JsonV::Null,
    }
}

/// A nullable unsigned number as JSON.
pub fn jopt_u64(o: &Option<u64>) -> (r: Json)
    ensures
        r@ == opt_u64_json(*o),
{
    match o {
        Some(n) => Json::UInt(*n),
        None => Json::Null,
    }
}

pub open spec fn class_id_json(class_id: Seq<u32>) -> JsonV {
    JsonV::Arr(class_id.map_values(|x: u32| JsonV::UInt(x as u64)))
}

/// A class id as a JSON array of numbers.
pub fn ju32_arr(v: &Vec<u32>) -> (r: Json)
    ensures
        r@ == class_id_json(v@),
{
    let mut items: Vec<Json> = Vec::new();
    let mut i: usize = 0;
    while i < v.len()
        invariant
            i <= v@.len(),
            json_view_seq(items@) == v@.take(i as int).map_values(|x: u32| JsonV::UInt(x as u64)),
        decreases v@.len() - i,
    {
        let ghost before = json_view_seq(items@);
        japp(&mut items, Json::UInt(v[i] as u64));
        proof {
            assert(v@.take(i as int + 1).map_values(|x: u32| JsonV::UInt(x as u64)) =~= v@.take(
                i as int,
            ).map_values(|x: u32| JsonV::UInt(x as u64)) + seq![JsonV::UInt(v@[i as int] as u64)]);
        }
        i = i + 1;
    }
    proof {
        assert(v@.take(v@.len() as int) =~= v@);
    }
    Json::Arr(items)
}

// ---------------------------------------------------------------------------
// Property-changed events
// ---------------------------------------------------------------------------

/// Payload of a property-changed event.
pub struct PropertyChangedEventData {
    pub property_id: NcElementId,
    pub change_type: NcPropertyChangeType,
    pub value: Json,
    pub sequence_item_index: Option<u64>,
}

/// Mathematical model of an event payload.
pub struct EventDataV {
    pub property_id: NcElementId,
    pub change_type: NcPropertyChangeType,
    pub value: JsonV,
    pub sequence_item_index: Option<u64>,
}

impl View for PropertyChangedEventData {
    type V = EventDataV;

    open spec fn view(&self) -> EventDataV {
        EventDataV {
            property_id: self.property_id,
            change_type: self.change_type,
            value: self.value@,
            sequence_item_index: self.sequence_item_index,
        }
    }
}

pub open spec fn event_data_json(d: EventDataV) -> JsonV {
    JsonV::Obj(
        seq![
            ("propertyId"@, element_id_json(d.property_id)),
            ("changeType"@, JsonV::UInt(d.change_type.code_spec() as u64)),
            ("value"@, d.value),
            ("sequenceItemIndex"@, opt_u64_json(d.sequence_item_index)),
        ],
    )
}

impl PropertyChangedEventData {
    pub fn to_json(&self) -> (r: Json)
        ensures
            r@ == event_data_json(self@),
    {
        let mut fields: Vec<(String, Json)> = Vec::new();
        jput(&mut fields, "propertyId", self.property_id.to_json());
        jput(&mut fields, "changeType", Json::UInt(self.change_type.code() as u64));
        jput(&mut fields, "value", self.value.clone_json());
        jput(&mut fields, "sequenceItemIndex", jopt_u64(&self.sequence_item_index));
        let r = Json::Obj(fields);
        proof {
            assert(json_view_fields(fields@) =~= event_data_json(self@)->Obj_0);
        }
        r
    }
}

/// A property change on one object, as carried on the event bus and in
/// notification messages.
pub struct PropertyChangedEvent {
    pub oid: u64,
    pub event_id: NcElementId,
    pub event_data: PropertyChangedEventData,
}

/// Mathematical model of an event.
pub struct EventV {
    pub oid: u64,
    pub event_id: NcElementId,
    pub event_data: EventDataV,
}

impl View for PropertyChangedEvent {
    type V = EventV;

    open spec fn view(&self) -> EventV {
        EventV { oid: self.oid, event_id: self.event_id, event_data: self.event_data@ }
    }
}

pub open spec fn event_json(e: EventV) -> JsonV {
    JsonV::Obj(
        seq![
            ("oid"@, JsonV::UInt(e.oid)),
            ("eventId"@, element_id_json(e.event_id)),
            ("eventData"@, event_data_json(e.event_data)),
        ],
    )
}

/// The value-changed event for one property, as every mutation emits it.
pub open spec fn value_changed_event(oid: u64, property_id: NcElementId, value: JsonV) -> EventV {
    EventV {
        oid,
        event_id: NcElementId { level: 1, index: 1 },
        event_data: EventDataV {
            property_id,
            change_type: NcPropertyChangeType::ValueChanged,
            value,
            sequence_item_index: None,
        },
    }
}

impl PropertyChangedEvent {
    /// An event for the property-changed event id (1,1) on `oid`.
    pub fn new(oid: u64, event_data: PropertyChangedEventData) -> (r: PropertyChangedEvent)
        ensures
            r@ == (EventV {
                oid,
                event_id: NcElementId { level: 1, index: 1 },
                event_data: event_data@,
            }),
    {
        PropertyChangedEvent { oid, event_id: NcElementId { level: 1, index: 1 }, event_data }
    }

    pub fn to_json(&self) -> (r: Json)
        ensures
            r@ == event_json(self@),
    {
        let mut fields: Vec<(String, Json)> = Vec::new();
        jput(&mut fields, "oid", Json::UInt(self.oid));
        jput(&mut fields, "eventId", self.event_id.to_json());
        jput(&mut fields, "eventData", self.event_data.to_json());
        let r = Json::Obj(fields);
        proof {
            assert(json_view_fields(fields@) =~= event_json(self@)->Obj_0);
        }
        r
    }
}

impl Json {
    /// A structural copy of the value.
    pub fn clone_json(&self) -> (r: Json)
        ensures
            r@ == self@,
        decreases self, 0int,
    {
        match self {
            Json::Null => Json::Null,
            Json::Bool(b) => Json::Bool(*b),
            Json::UInt(n) => Json::UInt(*n),
            Json::Int(n) => Json::Int(*n),
            Json::Str(s) => Json::Str(s.clone()),
            Json::Arr(items) => {
                let mut out: Vec<Json> = Vec::new();
                if items.len() > 0 {
                    clone_items(items, 0, &mut out);
                }
                proof {
                    if items@.len() == 0 {
                        assert(json_view_seq(items@) =~= Seq::<JsonV>::empty());
                        assert(json_view_seq(out@) =~= Seq::<JsonV>::empty());
                    } else {
                        assert(items@.skip(0) =~= items@);
                    }
                }
                Json::Arr(out)
            },
            Json::Obj(fields) => {
                let mut out: Vec<(String, Json)> = Vec::new();
                if fields.len() > 0 {
                    clone_fields(fields, 0, &mut out);
                }
                proof {
                    if fields@.len() == 0 {
                        assert(json_view_fields(fields@) =~= Seq::<(Seq<char>, JsonV)>::empty());
                        assert(json_view_fields(out@) =~= Seq::<(Seq<char>, JsonV)>::empty());
                    } else {
                        assert(fields@.skip(0) =~= fields@);
                    }
                }
                Json::Obj(out)
            },
        }
    }
}

fn clone_items(items: &Vec<Json>, i: usize, out: &mut Vec<Json>)
    requires
        i < items@.len(),
    ensures
        json_view_seq(final(out)@) == json_view_seq(old(out)@) + json_view_seq(
            items@.skip(i as int),
        ),
    decreases items, items@.len() - i,
{
    proof {
        crate::json::lemma_json_view_seq_props(items@.skip(i as int));
        crate::json::lemma_json_view_seq_props(items@.skip(i as int + 1));
        assert(items@.skip(i as int).drop_first() =~= items@.skip(i as int + 1));
        assert(items@.skip(i as int)[0] == items@[i as int]);
    }
    let c = items[i].clone_json();
    crate::json::japp(out, c);
    if i < items.len() - 1 {
        clone_items(items, i + 1, out);
    } else {
        proof {
            assert(items@.skip(i as int + 1) =~= Seq::<Json>::empty());
            assert(json_view_seq(items@.skip(i as int + 1)) =~= Seq::<JsonV>::empty());
        }
    }
    proof {
        assert(json_view_seq(final(out)@) =~= json_view_seq(old(out)@) + json_view_seq(
            items@.skip(i as int),
        ));
    }
}

fn clone_fields(fields: &Vec<(String, Json)>, i: usize, out: &mut Vec<(String, Json)>)
    requires
        i < fields@.len(),
    ensures
        json_view_fields(final(out)@) == json_view_fields(old(out)@) + json_view_fields(
            fields@.skip(i as int),
        ),
    decreases fields, fields@.len() - i,
{
    proof {
        crate::json::lemma_json_view_fields_props(fields@.skip(i as int));
        crate::json::lemma_json_view_fields_props(fields@.skip(i as int + 1));
        assert(fields@.skip(i as int).drop_first() =~= fields@.skip(i as int + 1));
        assert(fields@.skip(i as int)[0] == fields@[i as int]);
    }
    let k = fields[i].0.clone();
    let v = fields[i].1.clone_json();
    jput(out, k.as_str(), v);
    if i < fields.len() - 1 {
        clone_fields(fields, i + 1, out);
    } else {
        proof {
            assert(fields@.skip(i as int + 1) =~= Seq::<(String, Json)>::empty());
            assert(json_view_fields(fields@.skip(i as int + 1)) =~= Seq::<
                (Seq<char>, JsonV),
            >::empty());
        }
    }
    proof {
        assert(json_view_fields(final(out)@) =~= json_view_fields(old(out)@) + json_view_fields(
            fields@.skip(i as int),
        ));
    }
}

proof fn lemma_json_view_seq_take_push(s: Seq<Json>, i: int)
    requires
        0 <= i < s.len(),
    ensures
        json_view_seq(s.take(i + 1)) == json_view_seq(s.take(i)) + seq![crate::json::json_view(
            s[i],
        )],
{
    assert(s.take(i + 1) =~= s.take(i).push(s[i]));
    crate::json::lemma_view_seq_push(s.take(i), s[i]);
}

proof fn lemma_json_view_fields_take_push(s: Seq<(String, Json)>, i: int)
    requires
        0 <= i < s.len(),
    ensures
        json_view_fields(s.take(i + 1)) == json_view_fields(s.take(i)) + seq![
            (s[i].0@, crate::json::json_view(s[i].1)),
        ],
{
    assert(s.take(i + 1) =~= s.take(i).push(s[i]));
    crate::json::lemma_view_fields_push(s.take(i), s[i].0, s[i].1);
}

// ---------------------------------------------------------------------------
// Touchpoints and constraints
// ---------------------------------------------------------------------------

#[derive(Clone, Debug)]
pub struct NcTouchpointResourceBase {
    pub resource_type: String,
}

#[derive(Clone, Debug)]
pub struct NcTouchpointResourceNmos {
    pub base: NcTouchpointResourceBase,
    pub id: String,
}

#[derive(Clone, Debug)]
pub struct NcTouchpointResourceNmosChannelMapping {
    pub base: NcTouchpointResourceNmos,
    pub io_id: String,
}

#[derive(Clone, Debug)]
pub struct NcTouchpointBase {
    pub context_namespace: String,
}

#[derive(Clone, Debug)]
pub struct NcTouchpointNmos {
    pub base: NcTouchpointBase,
    pub resource: NcTouchpointResourceNmos,
}

#[derive(Clone, Debug)]
pub struct NcTouchpointNmosChannelMapping {
    pub base: NcTouchpointBase,
    pub resource: NcTouchpointResourceNmosChannelMapping,
}

/// A back-reference from an object to a resource in another namespace.
#[derive(Clone, Debug)]
pub enum NcTouchpoint {
    Nmos(NcTouchpointNmos),
    NmosChannelMapping(NcTouchpointNmosChannelMapping),
}

pub open spec fn touchpoint_json(t: NcTouchpoint) -> JsonV {
    match t {
        NcTouchpoint::Nmos(tp) => JsonV::Obj(
            seq![
                ("contextNamespace"@, JsonV::Str(tp.base.context_namespace@)),
                (
                    "resource"@,
                    JsonV::Obj(
                        seq![
                            ("resourceType"@, JsonV::Str(tp.resource.base.resource_type@)),
                            ("id"@, JsonV::Str(tp.resource.id@)),
                        ],
                    ),
                ),
            ],
        ),
        NcTouchpoint::NmosChannelMapping(tp) => JsonV::Obj(
            seq![
                ("contextNamespace"@, JsonV::Str(tp.base.context_namespace@)),
                (
                    "resource"@,
                    JsonV::Obj(
                        seq![
                            (
                                "resourceType"@,
                                JsonV::Str(tp.resource.base.base.resource_type@),
                            ),
                            ("id"@, JsonV::Str(tp.resource.base.id@)),
                            ("ioId"@, JsonV::Str(tp.resource.io_id@)),
                        ],
                    ),
                ),
            ],
        ),
    }
}

impl NcTouchpoint {
    pub fn to_json(&self) -> (r: Json)
        ensures
            r@ == touchpoint_json(*self),
    {
        match self {
            NcTouchpoint::Nmos(tp) => {
                let mut res: Vec<(String, Json)> = Vec::new();
                jput(&mut res, "resourceType", jstr(tp.resource.base.resource_type.as_str()));
                jput(&mut res, "id", jstr(tp.resource.id.as_str()));
                let mut fields: Vec<(String, Json)> = Vec::new();
                jput(&mut fields, "contextNamespace", jstr(tp.base.context_namespace.as_str()));
                proof {
                    assert(json_view_fields(res@) =~= touchpoint_json(*self)->Obj_0[1].1->Obj_0);
                }
                jput(&mut fields, "resource", Json::Obj(res));
                let r = Json::Obj(fields);
                proof {
                    assert(json_view_fields(fields@) =~= touchpoint_json(*self)->Obj_0);
                }
                r
            },
            NcTouchpoint::NmosChannelMapping(tp) => {
                let mut res: Vec<(String, Json)> = Vec::new();
                jput(&mut res, "resourceType", jstr(tp.resource.base.base.resource_type.as_str()));
                jput(&mut res, "id", jstr(tp.resource.base.id.as_str()));
                jput(&mut res, "ioId", jstr(tp.resource.io_id.as_str()));
                let mut fields: Vec<(String, Json)> = Vec::new();
                jput(&mut fields, "contextNamespace", jstr(tp.base.context_namespace.as_str()));
                proof {
                    assert(json_view_fields(res@) =~= touchpoint_json(*self)->Obj_0[1].1->Obj_0);
                }
                jput(&mut fields, "resource", Json::Obj(res));
                let r = Json::Obj(fields);
                proof {
                    assert(json_view_fields(fields@) =~= touchpoint_json(*self)->Obj_0);
                }
                r
            },
        }
    }
}

pub open spec fn touchpoints_json(ts: Option<Seq<NcTouchpoint>>) -> JsonV {
    match ts {
        Some(s) => JsonV::Arr(s.map_values(|t: NcTouchpoint| touchpoint_json(t))),
        None => JsonV::Null,
    }
}

pub open spec fn view_opt_touchpoints(o: Option<Vec<NcTouchpoint>>) -> Option<Seq<NcTouchpoint>> {
    match o {
        Some(v) => Some(v@),
        None => None,
    }
}

/// The optional touchpoint list as JSON.
pub fn jopt_touchpoints(o: &Option<Vec<NcTouchpoint>>) -> (r: Json)
    ensures
        r@ == touchpoints_json(view_opt_touchpoints(*o)),
{
    match o {
        None => Json::Null,
        Some(ts) => {
            let mut items: Vec<Json> = Vec::new();
            let mut i: usize = 0;
            while i < ts.len()
                invariant
                    i <= ts@.len(),
                    json_view_seq(items@) == ts@.take(i as int).map_values(
                        |t: NcTouchpoint| touchpoint_json(t),
                    ),
                decreases ts@.len() - i,
            {
                japp(&mut items, ts[i].to_json());
                proof {
                    assert(ts@.take(i as int + 1).map_values(|t: NcTouchpoint| touchpoint_json(t))
                        =~= ts@.take(i as int).map_values(|t: NcTouchpoint| touchpoint_json(t))
                        + seq![touchpoint_json(ts@[i as int])]);
                }
                i = i + 1;
            }
            proof {
                assert(ts@.take(ts@.len() as int) =~= ts@);
            }
            Json::Arr(items)
        },
    }
}

/// Constraints a property carries at runtime, overriding its descriptor.
#[derive(Debug)]
pub enum NcPropertyConstraints {
    Number(NcPropertyConstraintsNumber),
    Text(NcPropertyConstraintsString),
}

#[derive(Debug)]
pub struct NcPropertyConstraintsBase {
    pub property_id: NcElementId,
    pub default_value: Option<Json>,
}

/// Numeric property constraints. Bounds are integral: the protocol's
/// numbers are integers here.
#[derive(Debug)]
pub struct NcPropertyConstraintsNumber {
    pub base: NcPropertyConstraintsBase,
    pub maximum: Option<i64>,
    pub minimum: Option<i64>,
    pub step: Option<i64>,
}

#[derive(Debug)]
pub struct NcPropertyConstraintsString {
    pub base: NcPropertyConstraintsBase,
    pub max_characters: Option<u32>,
    pub pattern: Option<String>,
}

pub open spec fn opt_json_json(o: Option<Json>) -> JsonV {
    match o {
        Some(j) => j@,
        None => JsonV::Null,
    }
}

pub open spec fn opt_i64_json(o: Option<i64>) -> JsonV {
    match o {
        Some(n) => if n >= 0 {
            JsonV::UInt(n as u64)
        } else {
            JsonV::Int(n)
        },
        None => JsonV::Null,
    }
}

pub fn jopt_i64(o: &Option<i64>) -> (r: Json)
    ensures
        r@ == opt_i64_json(*o),
{
    match o {
        Some(n) => if *n >= 0 {
            Json::UInt(*n as u64)
        } else {
            Json::Int(*n)
        },
        None => Json::Null,
    }
}

pub open spec fn opt_u32_json(o: Option<u32>) -> JsonV {
    match o {
        Some(n) => JsonV::UInt(n as u64),
        None => JsonV::Null,
    }
}

pub fn jopt_u32(o: &Option<u32>) -> (r: Json)
    ensures
        r@ == opt_u32_json(*o),
{
    match o {
        Some(n) => Json::UInt(*n as u64),
        None => Json::Null,
    }
}

pub open spec fn property_constraints_json(c: NcPropertyConstraints) -> JsonV {
    match c {
        NcPropertyConstraints::Number(n) => JsonV::Obj(
            seq![
                ("propertyId"@, element_id_json(n.base.property_id)),
                ("defaultValue"@, opt_json_json(n.base.default_value)),
                ("maximum"@, opt_i64_json(n.maximum)),
                ("minimum"@, opt_i64_json(n.minimum)),
                ("step"@, opt_i64_json(n.step)),
            ],
        ),
        NcPropertyConstraints::Text(s) => JsonV::Obj(
            seq![
                ("propertyId"@, element_id_json(s.base.property_id)),
                ("defaultValue"@, opt_json_json(s.base.default_value)),
                ("maxCharacters"@, opt_u32_json(s.max_characters)),
                ("pattern"@, opt_str_json(view_opt_str(s.pattern))),
            ],
        ),
    }
}

pub fn jopt_json(o: &Option<Json>) -> (r: Json)
    ensures
        r@ == opt_json_json(*o),
{
    match o {
        Some(j) => j.clone_json(),
        None => Json::Null,
    }
}

impl NcPropertyConstraints {
    pub fn to_json(&self) -> (r: Json)
        ensures
            r@ == property_constraints_json(*self),
    {
        match self {
            NcPropertyConstraints::Number(n) => {
                let mut fields: Vec<(String, Json)> = Vec::new();
                jput(&mut fields, "propertyId", n.base.property_id.to_json());
                jput(&mut fields, "defaultValue", jopt_json(&n.base.default_value));
                jput(&mut fields, "maximum", jopt_i64(&n.maximum));
                jput(&mut fields, "minimum", jopt_i64(&n.minimum));
                jput(&mut fields, "step", jopt_i64(&n.step));
                let r = Json::Obj(fields);
                proof {
                    assert(json_view_fields(fields@) =~= property_constraints_json(
                        *self,
                    )->Obj_0);
                }
                r
            },
            NcPropertyConstraints::Text(s) => {
                let mut fields: Vec<(String, Json)> = Vec::new();
                jput(&mut fields, "propertyId", s.base.property_id.to_json());
                jput(&mut fields, "defaultValue", jopt_json(&s.base.default_value));
                jput(&mut fields, "maxCharacters", jopt_u32(&s.max_characters));
                jput(&mut fields, "pattern", jopt_str(&s.pattern));
                let r = Json::Obj(fields);
                proof {
                    assert(json_view_fields(fields@) =~= property_constraints_json(
                        *self,
                    )->Obj_0);
                }
                r
            },
        }
    }
}

pub open spec fn constraints_list_json(cs: Option<Seq<NcPropertyConstraints>>) -> JsonV {
    match cs {
        Some(s) => JsonV::Arr(
            s.map_values(|c: NcPropertyConstraints| property_constraints_json(c)),
        ),
        None => JsonV::Null,
    }
}

pub open spec fn view_opt_constraints(o: Option<Vec<NcPropertyConstraints>>) -> Option<
    Seq<NcPropertyConstraints>,
> {
    match o {
        Some(v) => Some(v@),
        None => None,
    }
}

/// The optional constraints list as JSON.
pub fn jopt_constraints(o: &Option<Vec<NcPropertyConstraints>>) -> (r: Json)
    ensures
        r@ == constraints_list_json(view_opt_constraints(*o)),
{
    match o {
        None => Json::Null,
        Some(cs) => {
            let mut items: Vec<Json> = Vec::new();
            let mut i: usize = 0;
            while i < cs.len()
                invariant
                    i <= cs@.len(),
                    json_view_seq(items@) == cs@.take(i as int).map_values(
                        |c: NcPropertyConstraints| property_constraints_json(c),
                    ),
                decreases cs@.len() - i,
            {
                japp(&mut items, cs[i].to_json());
                proof {
                    assert(cs@.take(i as int + 1).map_values(
                        |c: NcPropertyConstraints| property_constraints_json(c),
                    ) =~= cs@.take(i as int).map_values(
                        |c: NcPropertyConstraints| property_constraints_json(c),
                    ) + seq![property_constraints_json(cs@[i as int])]);
                }
                i = i + 1;
            }
            proof {
                assert(cs@.take(cs@.len() as int) =~= cs@);
            }
            Json::Arr(items)
        },
    }
}

// ---------------------------------------------------------------------------
// Device-manager value types
// ---------------------------------------------------------------------------

#[derive(Clone, Debug)]
pub struct NcManufacturer {
    pub name: String,
    pub organization_id: Option<i64>,
    pub website: Option<String>,
}

pub open spec fn manufacturer_json(m: NcManufacturer) -> JsonV {
    JsonV::Obj(
        seq![
            ("name"@, JsonV::Str(m.name@)),
            ("organizationId"@, opt_i64_json(m.organization_id)),
            ("website"@, opt_str_json(view_opt_str(m.website))),
        ],
    )
}

impl NcManufacturer {
    pub fn to_json(&self) -> (r: Json)
        ensures
            r@ == manufacturer_json(*self),
    {
        let mut fields: Vec<(String, Json)> = Vec::new();
        jput(&mut fields, "name", jstr(self.name.as_str()));
        jput(&mut fields, "organizationId", jopt_i64(&self.organization_id));
        jput(&mut fields, "website", jopt_str(&self.website));
        let r = Json::Obj(fields);
        proof {
            assert(json_view_fields(fields@) =~= manufacturer_json(*self)->Obj_0);
        }
        r
    }
}

#[derive(Clone, Debug)]
pub struct NcProduct {
    pub name: String,
    pub key: String,
    pub revision_level: String,
    pub brand_name: Option<String>,
    pub uuid: Option<String>,
    pub description: Option<String>,
}

pub open spec fn product_json(p: NcProduct) -> JsonV {
    JsonV::Obj(
        seq![
            ("name"@, JsonV::Str(p.name@)),
            ("key"@, JsonV::Str(p.key@)),
            ("revisionLevel"@, JsonV::Str(p.revision_level@)),
            ("brandName"@, opt_str_json(view_opt_str(p.brand_name))),
            ("uuid"@, opt_str_json(view_opt_str(p.uuid))),
            ("description"@, opt_str_json(view_opt_str(p.description))),
        ],
    )
}

impl NcProduct {
    pub fn to_json(&self) -> (r: Json)
        ensures
            r@ == product_json(*self),
    {
        let mut fields: Vec<(String, Json)> = Vec::new();
        jput(&mut fields, "name", jstr(self.name.as_str()));
        jput(&mut fields, "key", jstr(self.key.as_str()));
        jput(&mut fields, "revisionLevel", jstr(self.revision_level.as_str()));
        jput(&mut fields, "brandName", jopt_str(&self.brand_name));
        jput(&mut fields, "uuid", jopt_str(&self.uuid));
        jput(&mut fields, "description", jopt_str(&self.description));
        let r = Json::Obj(fields);
        proof {
            assert(json_view_fields(fields@) =~= product_json(*self)->Obj_0);
        }
        r
    }
}

#[derive(Clone, Debug)]
pub struct NcDeviceOperationalState {
    pub generic: NcDeviceGenericState,
    pub device_specific_details: Option<String>,
}

pub open spec fn operational_state_json(s: NcDeviceOperationalState) -> JsonV {
    JsonV::Obj(
        seq![
            ("generic"@, JsonV::UInt(s.generic.code_spec() as u64)),
            ("deviceSpecificDetails"@, opt_str_json(view_opt_str(s.device_specific_details))),
        ],
    )
}

impl NcDeviceOperationalState {
    pub fn to_json(&self) -> (r: Json)
        ensures
            r@ == operational_state_json(*self),
    {
        let mut fields: Vec<(String, Json)> = Vec::new();
        jput(&mut fields, "generic", Json::UInt(self.generic.code() as u64));
        jput(&mut fields, "deviceSpecificDetails", jopt_str(&self.device_specific_details));
        let r = Json::Obj(fields);
        proof {
            assert(json_view_fields(fields@) =~= operational_state_json(*self)->Obj_0);
        }
        r
    }
}

// ---------------------------------------------------------------------------
// Block member descriptors
// ---------------------------------------------------------------------------

/// What a block reports about one of its members.
#[derive(Clone, Debug)]
pub struct NcBlockMemberDescriptor {
    pub description: Option<String>,
    pub role: String,
    pub oid: u64,
    pub constant_oid: bool,
    pub class_id: Vec<u32>,
    pub user_label: String,
    pub owner: u64,
}

/// Mathematical model of a member descriptor.
pub struct MemberDescV {
    pub description: Option<Seq<char>>,
    pub role: Seq<char>,
    pub oid: u64,
    pub constant_oid: bool,
    pub class_id: Seq<u32>,
    pub user_label: Seq<char>,
    pub owner: u64,
}

impl View for NcBlockMemberDescriptor {
    type V = MemberDescV;

    open spec fn view(&self) -> MemberDescV {
        MemberDescV {
            description: view_opt_str(self.description),
            role: self.role@,
            oid: self.oid,
            constant_oid: self.constant_oid,
            class_id: self.class_id@,
            user_label: self.user_label@,
            owner: self.owner,
        }
    }
}

pub open spec fn member_desc_json(d: MemberDescV) -> JsonV {
    JsonV::Obj(
        seq![
            ("description"@, opt_str_json(d.description)),
            ("role"@, JsonV::Str(d.role)),
            ("oid"@, JsonV::UInt(d.oid)),
            ("constantOid"@, JsonV::Bool(d.constant_oid)),
            ("classId"@, class_id_json(d.class_id)),
            ("userLabel"@, JsonV::Str(d.user_label)),
            ("owner"@, JsonV::UInt(d.owner)),
        ],
    )
}

impl NcBlockMemberDescriptor {
    pub fn to_json(&self) -> (r: Json)
        ensures
            r@ == member_desc_json(self@),
    {
        let mut fields: Vec<(String, Json)> = Vec::new();
        jput(&mut fields, "description", jopt_str(&self.description));
        jput(&mut fields, "role", jstr(self.role.as_str()));
        jput(&mut fields, "oid", Json::UInt(self.oid));
        jput(&mut fields, "constantOid", Json::Bool(self.constant_oid));
        jput(&mut fields, "classId", ju32_arr(&self.class_id));
        jput(&mut fields, "userLabel", jstr(self.user_label.as_str()));
        jput(&mut fields, "owner", Json::UInt(self.owner));
        let r = Json::Obj(fields);
        proof {
            assert(json_view_fields(fields@) =~= member_desc_json(self@)->Obj_0);
        }
        r
    }
}

pub open spec fn member_descs_json(ds: Seq<MemberDescV>) -> JsonV {
    JsonV::Arr(ds.map_values(|d: MemberDescV| member_desc_json(d)))
}

/// The models of a descriptor list.
pub open spec fn descs_view(s: Seq<NcBlockMemberDescriptor>) -> Seq<MemberDescV> {
    s.map_values(|d: NcBlockMemberDescriptor| d@)
}

/// A member-descriptor list as a JSON array.
pub fn member_descs_to_json(ds: &Vec<NcBlockMemberDescriptor>) -> (r: Json)
    ensures
        r@ == member_descs_json(descs_view(ds@)),
{
    let mut items: Vec<Json> = Vec::new();
    let mut i: usize = 0;
    while i < ds.len()
        invariant
            i <= ds@.len(),
            json_view_seq(items@) == descs_view(ds@.take(i as int)).map_values(
                |d: MemberDescV| member_desc_json(d),
            ),
        decreases ds@.len() - i,
    {
        japp(&mut items, ds[i].to_json());
        proof {
            assert(descs_view(ds@.take(i as int + 1)).map_values(
                |d: MemberDescV| member_desc_json(d),
            ) =~= descs_view(ds@.take(i as int)).map_values(|d: MemberDescV| member_desc_json(d))
                + seq![member_desc_json(ds@[i as int]@)]);
        }
        i = i + 1;
    }
    proof {
        assert(ds@.take(ds@.len() as int) =~= ds@);
        assert(descs_view(ds@).map_values(|d: MemberDescV| member_desc_json(d))
            =~= json_view_seq(items@));
    }
    Json::Arr(items)
}

// ---------------------------------------------------------------------------
// Command arguments
// ---------------------------------------------------------------------------

/// Arguments of a property read: the property id.
pub struct IdArgs {
    pub id: NcElementId,
}

/// Arguments of a property write: the property id and the new value.
pub struct IdArgsValue {
    pub id: NcElementId,
    pub value: Json,
}

} // verus!
