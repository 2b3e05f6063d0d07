//! Worker class: adds one writable property, `enabled`.

use vstd::prelude::*;
use crate::json::{Json, JsonV};
use crate::types::{
    NcElementId, NcMethodStatus, NcPropertyChangeType, NcTouchpoint, NcPropertyConstraints,
    PropertyChangedEvent, PropertyChangedEventData, IdArgs, IdArgsValue, value_changed_event,
};
use crate::object::{NcObject, obj_prop_json, obj_set_status, obj_label_after, emitted};

verus! {

broadcast use vstd::std_specs::vec::group_vec_axioms, vstd::seq::group_seq_axioms;

/// A worker: a leaf object doing device work, with an enable switch.
#[derive(Debug)]
pub struct NcWorker {
    pub base: NcObject,
    pub enabled: bool,
}

/// The JSON value of a worker property: `enabled` at (2,1), the base class
/// otherwise.
pub open spec fn worker_prop_json(w: NcWorker, id: NcElementId) -> Option<JsonV> {
    if id.is(2, 1) {
        Some(JsonV::Bool(w.enabled))
    } else {
        obj_prop_json(w.base, id)
    }
}

/// Status of a worker property write: `enabled` takes a boolean, the rest
/// goes to the base class.
pub open spec fn worker_set_status(id: NcElementId, v: JsonV) -> NcMethodStatus {
    if id.is(2, 1) {
        if v is Bool {
            NcMethodStatus::Okay
        } else {
            NcMethodStatus::ParameterError
        }
    } else {
        obj_set_status(id, v)
    }
}

impl NcWorker {
    pub fn new(
        class_id: Vec<u32>,
        oid: u64,
        constant_oid: bool,
        owner: Option<u64>,
        role: &str,
        user_label: Option<&str>,
        touchpoints: Option<Vec<NcTouchpoint>>,
        runtime_property_constraints: Option<Vec<NcPropertyConstraints>>,
    ) -> (r: NcWorker)
        ensures
            r.base.class_id == class_id,
            r.base.oid == oid,
            r.base.constant_oid == constant_oid,
            r.base.owner == owner,
            r.base.role@ == role@,
            r.enabled,
    {
        NcWorker {
            base: NcObject::new(
                class_id,
                oid,
                constant_oid,
                owner,
                role,
                user_label,
                touchpoints,
                runtime_property_constraints,
            ),
            enabled: true,
        }
    }

    pub fn get_property(&self, oid: u64, id_args: &IdArgs) -> (r: (
        Option<String>,
        Json,
        NcMethodStatus,
    ))
        ensures
            match worker_prop_json(*self, id_args.id) {
                Some(v) => r.0 is None && r.1@ == v && r.2 == NcMethodStatus::Okay,
                None => r.0 is Some && r.1@ == JsonV::Null && r.2
                    == NcMethodStatus::PropertyNotImplemented,
            },
    {
        if id_args.id.level == 2 && id_args.id.index == 1 {
            (None, Json::Bool(self.enabled), NcMethodStatus::Okay)
        } else {
            self.base.get_property(oid, id_args)
        }
    }

    /// Writes a worker property. A write of `enabled` emits a value-changed
    /// event only when the value actually changes.
    pub fn set_property(
        &mut self,
        oid: u64,
        id_args_value: IdArgsValue,
        events: &mut Vec<PropertyChangedEvent>,
    ) -> (r: (Option<String>, NcMethodStatus))
        ensures
            r.1 == worker_set_status(id_args_value.id, id_args_value.value@),
            r.1 != NcMethodStatus::Okay ==> *final(self) == *old(self) && final(events)@ == old(
                events,
            )@,
            (r.0 is None) <==> (r.1 == NcMethodStatus::Okay),
            id_args_value.id.is(2, 1) && r.1 == NcMethodStatus::Okay ==> {
                &&& final(self).enabled == (id_args_value.value@ matches JsonV::Bool(b) && b)
                &&& final(self).base == old(self).base
                &&& if old(self).enabled != final(self).enabled {
                    emitted(
                        old(events)@,
                        final(events)@,
                        value_changed_event(
                            old(self).base.oid,
                            id_args_value.id,
                            id_args_value.value@,
                        ),
                    )
                } else {
                    final(events)@ == old(events)@
                }
            },
            !id_args_value.id.is(2, 1) && r.1 == NcMethodStatus::Okay ==> {
                &&& crate::types::view_opt_str(final(self).base.user_label) == obj_label_after(id_args_value.value@)
                &&& final(self).enabled == old(self).enabled
                &&& final(self).base == (NcObject {
                    user_label: final(self).base.user_label,
                    ..old(self).base
                })
                &&& emitted(
                    old(events)@,
                    final(events)@,
                    value_changed_event(
                        old(self).base.oid,
                        id_args_value.id,
                        id_args_value.value@,
                    ),
                )
            },
    {
        if id_args_value.id.level == 2 && id_args_value.id.index == 1 {
            match id_args_value.value {
                Json::Bool(enabled) => {
                    let old_value = self.enabled;
                    self.enabled = enabled;
                    if old_value != enabled {
                        let ghost evs0 = events@;
                        events.push(
                            PropertyChangedEvent::new(
                                self.base.oid,
                                PropertyChangedEventData {
                                    property_id: id_args_value.id,
                                    change_type: NcPropertyChangeType::ValueChanged,
                                    value: Json::Bool(enabled),
                                    sequence_item_index: None,
                                },
                            ),
                        );
                        proof {
                            assert(events@.take(evs0.len() as int) =~= evs0);
                        }
                    }
                    (None, NcMethodStatus::Okay)
                },
                _ => (Some("Invalid arguments".to_owned()), NcMethodStatus::ParameterError),
            }
        } else {
            self.base.set_property(oid, id_args_value, events)
        }
    }

    pub fn invoke_method(&self, oid: u64, method_id: NcElementId, args: &Json) -> (r: (
        Option<String>,
        Option<Json>,
        NcMethodStatus,
    ))
        ensures
            r.0 is Some,
            r.1 is None,
            r.2 == NcMethodStatus::MethodNotImplemented,
    {
        self.base.invoke_method(oid, method_id, args)
    }

}

} // verus!
