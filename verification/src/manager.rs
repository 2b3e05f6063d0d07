//! Manager base class: no elements of its own, everything delegates to the
//! base object.

use vstd::prelude::*;
use crate::json::{Json, JsonV};
use crate::types::{
    NcElementId, NcMethodStatus, NcTouchpoint, NcPropertyConstraints, PropertyChangedEvent,
    IdArgs, IdArgsValue, view_opt_str, value_changed_event,
};
use crate::object::{NcObject, obj_prop_json, obj_set_status, obj_label_after, emitted};

verus! {

broadcast use vstd::std_specs::vec::group_vec_axioms, vstd::seq::group_seq_axioms;

/// A manager: a singleton housekeeping object. It adds nothing of its own.
#[derive(Debug)]
pub struct NcManager {
    pub base: NcObject,
}

impl NcManager {
    pub fn new(
        class_id: Vec<u32>,
        oid: u64,
        constant_oid: bool,
        owner: Option<u64>,
        role: &str,
        user_label: Option<&str>,
        touchpoints: Option<Vec<NcTouchpoint>>,
        runtime_property_constraints: Option<Vec<NcPropertyConstraints>>,
    ) -> (r: NcManager)
        ensures
            r.base.class_id == class_id,
            r.base.oid == oid,
            r.base.constant_oid == constant_oid,
            r.base.owner == owner,
            r.base.role@ == role@,
    {
        NcManager {
            base: NcObject::new(
                class_id,
                oid,
                constant_oid,
                owner,
                role,
                user_label,
                touchpoints,
                runtime_property_constraints,
            ),
        }
    }

    pub fn get_property(&self, oid: u64, id_args: &IdArgs) -> (r: (
        Option<String>,
        Json,
        NcMethodStatus,
    ))
        ensures
            match obj_prop_json(self.base, id_args.id) {
                Some(v) => r.0 is None && r.1@ == v && r.2 == NcMethodStatus::Okay,
                None => r.0 is Some && r.1@ == JsonV::Null && r.2
                    == NcMethodStatus::PropertyNotImplemented,
            },
    {
        self.base.get_property(oid, id_args)
    }

    pub fn set_property(
        &mut self,
        oid: u64,
        id_args_value: IdArgsValue,
        events: &mut Vec<PropertyChangedEvent>,
    ) -> (r: (Option<String>, NcMethodStatus))
        ensures
            r.1 == obj_set_status(id_args_value.id, id_args_value.value@),
            r.1 == NcMethodStatus::Okay ==> {
                &&& view_opt_str(final(self).base.user_label) == obj_label_after(id_args_value.value@)
                &&& final(self).base == (NcObject {
                    user_label: final(self).base.user_label,
                    ..old(self).base
                })
                &&& emitted(
                    old(events)@,
                    final(events)@,
                    value_changed_event(
                        old(self).base.oid,
                        id_args_value.id,
                        id_args_value.value@,
                    ),
                )
            },
            r.1 != NcMethodStatus::Okay ==> *final(self) == *old(self) && final(events)@ == old(
                events,
            )@,
            (r.0 is None) <==> (r.1 == NcMethodStatus::Okay),
    {
        self.base.set_property(oid, id_args_value, events)
    }

    pub fn invoke_method(&self, oid: u64, method_id: NcElementId, args: &Json) -> (r: (
        Option<String>,
        Option<Json>,
        NcMethodStatus,
    ))
        ensures
            r.0 is Some,
            r.1 is None,
            r.2 == NcMethodStatus::MethodNotImplemented,
    {
        self.base.invoke_method(oid, method_id, args)
    }
}

} // verus!
