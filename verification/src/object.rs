//! The base control class: every node carries its identity fields and
//! dispatches property reads and writes addressed by element id.

use vstd::prelude::*;
use crate::json::{Json, JsonV};
use crate::types::{
    NcElementId, NcMethodStatus, NcPropertyChangeType, NcTouchpoint, NcPropertyConstraints,
    PropertyChangedEvent, PropertyChangedEventData, EventV, IdArgs, IdArgsValue, class_id_json,
    opt_u64_json, opt_str_json, view_opt_str, touchpoints_json, view_opt_touchpoints,
    constraints_list_json, view_opt_constraints, jopt_str, jopt_u64, jopt_touchpoints,
    jopt_constraints, ju32_arr, value_changed_event,
};

verus! {

broadcast use vstd::std_specs::vec::group_vec_axioms, vstd::seq::group_seq_axioms;

/// State of the base class: identity, place in the tree, and the one
/// writable field, the user label.
#[derive(Debug)]
pub struct NcObject {
    pub class_id: Vec<u32>,
    pub oid: u64,
    pub constant_oid: bool,
    pub owner: Option<u64>,
    pub role: String,
    pub user_label: Option<String>,
    pub touchpoints: Option<Vec<NcTouchpoint>>,
    pub runtime_property_constraints: Option<Vec<NcPropertyConstraints>>,
}

/// The JSON value of a base-class property, when the id addresses one:
/// level 1, indices 1 through 8.
pub open spec fn obj_prop_json(o: NcObject, id: NcElementId) -> Option<JsonV> {
    if id.is(1, 1) {
        Some(class_id_json(o.class_id@))
    } else if id.is(1, 2) {
        Some(JsonV::UInt(o.oid))
    } else if id.is(1, 3) {
        Some(JsonV::Bool(o.constant_oid))
    } else if id.is(1, 4) {
        Some(opt_u64_json(o.owner))
    } else if id.is(1, 5) {
        Some(JsonV::Str(o.role@))
    } else if id.is(1, 6) {
        Some(opt_str_json(view_opt_str(o.user_label)))
    } else if id.is(1, 7) {
        Some(touchpoints_json(view_opt_touchpoints(o.touchpoints)))
    } else if id.is(1, 8) {
        Some(constraints_list_json(view_opt_constraints(o.runtime_property_constraints)))
    } else {
        None
    }
}

/// Status of a base-class property write: only the user label (1,6) is
/// writable, and only to a string or null.
pub open spec fn obj_set_status(id: NcElementId, v: JsonV) -> NcMethodStatus {
    if id.level == 1 {
        if id.index == 6 {
            if v is Str || v is Null {
                NcMethodStatus::Okay
            } else {
                NcMethodStatus::ParameterError
            }
        } else if 1 <= id.index && id.index <= 8 {
            NcMethodStatus::Readonly
        } else {
            NcMethodStatus::PropertyNotImplemented
        }
    } else {
        NcMethodStatus::PropertyNotImplemented
    }
}

/// The user label a successful write leaves behind: the written string, or
/// nothing for a written null.
pub open spec fn obj_label_after(v: JsonV) -> Option<Seq<char>> {
    match v {
        JsonV::Str(s) => Some(s),
        _ => None,
    }
}

/// Appends exactly one event to `evs`.
pub open spec fn emitted(
    old_evs: Seq<PropertyChangedEvent>,
    new_evs: Seq<PropertyChangedEvent>,
    e: EventV,
) -> bool {
    &&& new_evs.len() == old_evs.len() + 1
    &&& new_evs.take(old_evs.len() as int) == old_evs
    &&& new_evs.last()@ == e
}

impl NcObject {
    pub fn new(
        class_id: Vec<u32>,
        oid: u64,
        constant_oid: bool,
        owner: Option<u64>,
        role: &str,
        user_label: Option<&str>,
        touchpoints: Option<Vec<NcTouchpoint>>,
        runtime_property_constraints: Option<Vec<NcPropertyConstraints>>,
    ) -> (r: NcObject)
        ensures
            r.class_id == class_id,
            r.oid == oid,
            r.constant_oid == constant_oid,
            r.owner == owner,
            r.role@ == role@,
            view_opt_str(r.user_label) == (match user_label {
                Some(s) => Some(s@),
                None => None::<Seq<char>>,
            }),
            r.touchpoints == touchpoints,
            r.runtime_property_constraints == runtime_property_constraints,
    {
        NcObject {
            class_id,
            oid,
            constant_oid,
            owner,
            role: role.to_owned(),
            user_label: match user_label {
                Some(s) => Some(s.to_owned()),
                None => None,
            },
            touchpoints,
            runtime_property_constraints,
        }
    }

    /// Reads a base-class property. Ids outside level 1, indices 1 to 8,
    /// are not implemented here.
    pub fn get_property(&self, _oid: u64, id_args: &IdArgs) -> (r: (
        Option<String>,
        Json,
        NcMethodStatus,
    ))
        ensures
            match obj_prop_json(*self, id_args.id) {
                Some(v) => r.0 is None && r.1@ == v && r.2 == NcMethodStatus::Okay,
                None => r.0 is Some && r.1@ == JsonV::Null && r.2
                    == NcMethodStatus::PropertyNotImplemented,
            },
    {
        let id = id_args.id;
        if id.level == 1 && id.index == 1 {
            (None, ju32_arr(&self.class_id), NcMethodStatus::Okay)
        } else if id.level == 1 && id.index == 2 {
            (None, Json::UInt(self.oid), NcMethodStatus::Okay)
        } else if id.level == 1 && id.index == 3 {
            (None, Json::Bool(self.constant_oid), NcMethodStatus::Okay)
        } else if id.level == 1 && id.index == 4 {
            (None, jopt_u64(&self.owner), NcMethodStatus::Okay)
        } else if id.level == 1 && id.index == 5 {
            (None, Json::Str(self.role.clone()), NcMethodStatus::Okay)
        } else if id.level == 1 && id.index == 6 {
            (None, jopt_str(&self.user_label), NcMethodStatus::Okay)
        } else if id.level == 1 && id.index == 7 {
            (None, jopt_touchpoints(&self.touchpoints), NcMethodStatus::Okay)
        } else if id.level == 1 && id.index == 8 {
            (None, jopt_constraints(&self.runtime_property_constraints), NcMethodStatus::Okay)
        } else {
            (
                Some("Could not find the property".to_owned()),
                Json::Null,
                NcMethodStatus::PropertyNotImplemented,
            )
        }
    }

    /// Writes a base-class property: only the user label (1,6) accepts a
    /// value, a string or null, and the write emits one value-changed
    /// event. Everything else leaves the object untouched.
    pub fn set_property(
        &mut self,
        _oid: u64,
        id_args_value: IdArgsValue,
        events: &mut Vec<PropertyChangedEvent>,
    ) -> (r: (Option<String>, NcMethodStatus))
        ensures
            r.1 == obj_set_status(id_args_value.id, id_args_value.value@),
            r.1 == NcMethodStatus::Okay ==> {
                &&& view_opt_str(final(self).user_label) == obj_label_after(id_args_value.value@)
                &&& *final(self) == (NcObject { user_label: final(self).user_label, ..*old(self) })
                &&& emitted(
                    old(events)@,
                    final(events)@,
                    value_changed_event(
                        old(self).oid,
                        id_args_value.id,
                        id_args_value.value@,
                    ),
                )
            },
            r.1 != NcMethodStatus::Okay ==> *final(self) == *old(self) && final(events)@ == old(
                events,
            )@,
            (r.0 is None) <==> (r.1 == NcMethodStatus::Okay),
    {
        let IdArgsValue { id, value } = id_args_value;
        if id.level == 1 {
            if id.index == 6 {
                match value {
                    Json::Str(s) => {
                        self.user_label = Some(s.clone());
                        let ghost evs0 = events@;
                        events.push(
                            PropertyChangedEvent::new(
                                self.oid,
                                PropertyChangedEventData {
                                    property_id: id,
                                    change_type: NcPropertyChangeType::ValueChanged,
                                    value: Json::Str(s),
                                    sequence_item_index: None,
                                },
                            ),
                        );
                        proof {
                            assert(events@.take(evs0.len() as int) =~= evs0);
                        }
                        (None, NcMethodStatus::Okay)
                    },
                    Json::Null => {
                        self.user_label = None;
                        let ghost evs0 = events@;
                        events.push(
                            PropertyChangedEvent::new(
                                self.oid,
                                PropertyChangedEventData {
                                    property_id: id,
                                    change_type: NcPropertyChangeType::ValueChanged,
                                    value: Json::Null,
                                    sequence_item_index: None,
                                },
                            ),
                        );
                        proof {
                            assert(events@.take(evs0.len() as int) =~= evs0);
                        }
                        (None, NcMethodStatus::Okay)
                    },
                    _ => (
                        Some("Property value was invalid".to_owned()),
                        NcMethodStatus::ParameterError,
                    ),
                }
            } else if 1 <= id.index && id.index <= 8 {
                (Some("Property is readonly".to_owned()), NcMethodStatus::Readonly)
            } else {
                (
                    Some("Could not find the property".to_owned()),
                    NcMethodStatus::PropertyNotImplemented,
                )
            }
        } else {
            (Some("Could not find the property".to_owned()), NcMethodStatus::PropertyNotImplemented)
        }
    }

    /// The base class implements no methods beyond property access; every
    /// method id lands here when no subclass takes it.
    pub fn invoke_method(&self, _oid: u64, _method_id: NcElementId, _args: &Json) -> (r: (
        Option<String>,
        Option<Json>,
        NcMethodStatus,
    ))
        ensures
            r.0 is Some,
            r.1 is None,
            r.2 == NcMethodStatus::MethodNotImplemented,
    {
        (
            Some("Method not yet implemented".to_owned()),
            None,
            NcMethodStatus::MethodNotImplemented,
        )
    }
}

} // verus!
