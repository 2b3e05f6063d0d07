//! Device manager: device-wide identity and health, at level 3.

use vstd::prelude::*;
use crate::json::{Json, JsonV};
use crate::types::{
    NcElementId, NcMethodStatus, NcPropertyChangeType, NcTouchpoint, NcPropertyConstraints,
    NcManufacturer, NcProduct, NcDeviceOperationalState, NcDeviceGenericState, NcResetCause,
    PropertyChangedEvent, PropertyChangedEventData, IdArgs, IdArgsValue, view_opt_str,
    opt_str_json, manufacturer_json, product_json, operational_state_json, jopt_str,
    value_changed_event,
};
use crate::json::jstr;
use crate::manager::NcManager;
use crate::object::{NcObject, obj_prop_json, obj_set_status, obj_label_after, emitted};

verus! {

broadcast use vstd::std_specs::vec::group_vec_axioms, vstd::seq::group_seq_axioms;

/// The device manager: read-only identity fields and three writable
/// nullable strings, all at level 3, indices 1 through 10.
#[derive(Debug)]
pub struct NcDeviceManager {
    pub base: NcManager,
    pub nc_version: String,
    pub manufacturer: NcManufacturer,
    pub product: NcProduct,
    pub serial_number: String,
    pub user_inventory_code: Option<String>,
    pub device_name: Option<String>,
    pub device_role: Option<String>,
    pub operational_state: NcDeviceOperationalState,
    pub reset_cause: NcResetCause,
    pub message: Option<String>,
}

/// The JSON value of a device-manager property.
pub open spec fn dm_prop_json(d: NcDeviceManager, id: NcElementId) -> Option<JsonV> {
    if id.is(3, 1) {
        Some(JsonV::Str(d.nc_version@))
    } else if id.is(3, 2) {
        Some(manufacturer_json(d.manufacturer))
    } else if id.is(3, 3) {
        Some(product_json(d.product))
    } else if id.is(3, 4) {
        Some(JsonV::Str(d.serial_number@))
    } else if id.is(3, 5) {
        Some(opt_str_json(view_opt_str(d.user_inventory_code)))
    } else if id.is(3, 6) {
        Some(opt_str_json(view_opt_str(d.device_name)))
    } else if id.is(3, 7) {
        Some(opt_str_json(view_opt_str(d.device_role)))
    } else if id.is(3, 8) {
        Some(operational_state_json(d.operational_state))
    } else if id.is(3, 9) {
        Some(JsonV::UInt(d.reset_cause.code_spec() as u64))
    } else if id.is(3, 10) {
        Some(opt_str_json(view_opt_str(d.message)))
    } else {
        obj_prop_json(d.base.base, id)
    }
}

/// Status of a device-manager property write: the three user-settable
/// strings take a string or null, the other level-3 properties are
/// read-only, and the rest goes to the base class.
pub open spec fn dm_set_status(id: NcElementId, v: JsonV) -> NcMethodStatus {
    if id.level == 3 {
        if id.index == 5 || id.index == 6 || id.index == 7 {
            if v is Str || v is Null {
                NcMethodStatus::Okay
            } else {
                NcMethodStatus::ParameterError
            }
        } else if 1 <= id.index && id.index <= 10 {
            NcMethodStatus::Readonly
        } else {
            NcMethodStatus::PropertyNotImplemented
        }
    } else {
        obj_set_status(id, v)
    }
}

impl NcDeviceManager {
    pub fn new(
        oid: u64,
        constant_oid: bool,
        owner: Option<u64>,
        role: &str,
        user_label: Option<&str>,
        touchpoints: Option<Vec<NcTouchpoint>>,
        runtime_property_constraints: Option<Vec<NcPropertyConstraints>>,
        nc_version: String,
        manufacturer: NcManufacturer,
        product: NcProduct,
        serial_number: String,
    ) -> (r: NcDeviceManager)
        ensures
            r.base.base.class_id@ == seq![1u32, 3u32, 1u32],
            r.base.base.oid == oid,
            r.base.base.constant_oid == constant_oid,
            r.base.base.owner == owner,
            r.base.base.role@ == role@,
            r.nc_version == nc_version,
            r.manufacturer == manufacturer,
            r.product == product,
            r.serial_number == serial_number,
            r.user_inventory_code is None,
            r.device_name is None,
            r.device_role is None,
            r.reset_cause == NcResetCause::PowerOn,
            r.operational_state.generic == NcDeviceGenericState::NormalOperation,
            r.message is None,
    {
        let mut class_id: Vec<u32> = Vec::new();
        class_id.push(1);
        class_id.push(3);
        class_id.push(1);
        proof {
            assert(class_id@ =~= seq![1u32, 3u32, 1u32]);
        }
        NcDeviceManager {
            base: NcManager::new(
                class_id,
                oid,
                constant_oid,
                owner,
                role,
                user_label,
                touchpoints,
                runtime_property_constraints,
            ),
            nc_version,
            manufacturer,
            product,
            serial_number,
            user_inventory_code: None,
            device_name: None,
            device_role: None,
            operational_state: NcDeviceOperationalState {
                generic: NcDeviceGenericState::NormalOperation,
                device_specific_details: None,
            },
            reset_cause: NcResetCause::PowerOn,
            message: None,
        }
    }

    pub fn get_property(&self, oid: u64, id_args: &IdArgs) -> (r: (
        Option<String>,
        Json,
        NcMethodStatus,
    ))
        ensures
            match dm_prop_json(*self, id_args.id) {
                Some(v) => r.0 is None && r.1@ == v && r.2 == NcMethodStatus::Okay,
                None => r.0 is Some && r.1@ == JsonV::Null && r.2
                    == NcMethodStatus::PropertyNotImplemented,
            },
    {
        let id = id_args.id;
        if id.level == 3 && id.index == 1 {
            (None, jstr(self.nc_version.as_str()), NcMethodStatus::Okay)
        } else if id.level == 3 && id.index == 2 {
            (None, self.manufacturer.to_json(), NcMethodStatus::Okay)
        } else if id.level == 3 && id.index == 3 {
            (None, self.product.to_json(), NcMethodStatus::Okay)
        } else if id.level == 3 && id.index == 4 {
            (None, jstr(self.serial_number.as_str()), NcMethodStatus::Okay)
        } else if id.level == 3 && id.index == 5 {
            (None, jopt_str(&self.user_inventory_code), NcMethodStatus::Okay)
        } else if id.level == 3 && id.index == 6 {
            (None, jopt_str(&self.device_name), NcMethodStatus::Okay)
        } else if id.level == 3 && id.index == 7 {
            (None, jopt_str(&self.device_role), NcMethodStatus::Okay)
        } else if id.level == 3 && id.index == 8 {
            (None, self.operational_state.to_json(), NcMethodStatus::Okay)
        } else if id.level == 3 && id.index == 9 {
            (None, Json::UInt(self.reset_cause.code() as u64), NcMethodStatus::Okay)
        } else if id.level == 3 && id.index == 10 {
            (None, jopt_str(&self.message), NcMethodStatus::Okay)
        } else {
            self.base.get_property(oid, id_args)
        }
    }

    /// Writes a device-manager property. A successful write of one of the
    /// three writable strings emits exactly one value-changed event.
    pub fn set_property(
        &mut self,
        oid: u64,
        id_args_value: IdArgsValue,
        events: &mut Vec<PropertyChangedEvent>,
    ) -> (r: (Option<String>, NcMethodStatus))
        ensures
            r.1 == dm_set_status(id_args_value.id, id_args_value.value@),
            r.1 != NcMethodStatus::Okay ==> *final(self) == *old(self) && final(events)@ == old(
                events,
            )@,
            (r.0 is None) <==> (r.1 == NcMethodStatus::Okay),
            r.1 == NcMethodStatus::Okay && id_args_value.id.level == 3 ==> {
                &&& *final(self) == (NcDeviceManager {
                    user_inventory_code: final(self).user_inventory_code,
                    device_name: final(self).device_name,
                    device_role: final(self).device_role,
                    ..*old(self)
                })
                &&& (id_args_value.id.index == 5 ==> {
                    &&& view_opt_str(final(self).user_inventory_code) == obj_label_after(id_args_value.value@)
                    &&& final(self).device_name == old(self).device_name
                    &&& final(self).device_role == old(self).device_role
                })
                &&& (id_args_value.id.index == 6 ==> {
                    &&& view_opt_str(final(self).device_name) == obj_label_after(id_args_value.value@)
                    &&& final(self).user_inventory_code == old(self).user_inventory_code
                    &&& final(self).device_role == old(self).device_role
                })
                &&& (id_args_value.id.index == 7 ==> {
                    &&& view_opt_str(final(self).device_role) == obj_label_after(id_args_value.value@)
                    &&& final(self).user_inventory_code == old(self).user_inventory_code
                    &&& final(self).device_name == old(self).device_name
                })
                &&& emitted(
                    old(events)@,
                    final(events)@,
                    value_changed_event(
                        old(self).base.base.oid,
                        id_args_value.id,
                        id_args_value.value@,
                    ),
                )
            },
            r.1 == NcMethodStatus::Okay && id_args_value.id.level != 3 ==> {
                &&& view_opt_str(final(self).base.base.user_label) == obj_label_after(id_args_value.value@)
                &&& *final(self) == (NcDeviceManager {
                    base: NcManager {
                        base: (NcObject {
                            user_label: final(self).base.base.user_label,
                            ..old(self).base.base
                        }),
                    },
                    ..*old(self)
                })
                &&& emitted(
                    old(events)@,
                    final(events)@,
                    value_changed_event(
                        old(self).base.base.oid,
                        id_args_value.id,
                        id_args_value.value@,
                    ),
                )
            },
    {
        let IdArgsValue { id, value } = id_args_value;
        if id.level == 3 {
            if id.index == 5 || id.index == 6 || id.index == 7 {
                let stored: Option<String> = match &value {
                    Json::Str(s) => Some(s.clone()),
                    Json::Null => None,
                    _ => {
                        return (
                            Some("Property value was invalid".to_owned()),
                            NcMethodStatus::ParameterError,
                        );
                    },
                };
                if id.index == 5 {
                    self.user_inventory_code = stored;
                } else if id.index == 6 {
                    self.device_name = stored;
                } else {
                    self.device_role = stored;
                }
                let ghost evs0 = events@;
                events.push(
                    PropertyChangedEvent::new(
                        self.base.base.oid,
                        PropertyChangedEventData {
                            property_id: id,
                            change_type: NcPropertyChangeType::ValueChanged,
                            value,
                            sequence_item_index: None,
                        },
                    ),
                );
                proof {
                    assert(events@.take(evs0.len() as int) =~= evs0);
                }
                (None, NcMethodStatus::Okay)
            } else if 1 <= id.index && id.index <= 10 {
                (Some("Property is readonly".to_owned()), NcMethodStatus::Readonly)
            } else {
                (
                    Some("Could not find the property".to_owned()),
                    NcMethodStatus::PropertyNotImplemented,
                )
            }
        } else {
            self.base.set_property(oid, IdArgsValue { id, value }, events)
        }
    }

    pub fn invoke_method(&self, oid: u64, method_id: NcElementId, args: &Json) -> (r: (
        Option<String>,
        Option<Json>,
        NcMethodStatus,
    ))
        ensures
            r.0 is Some,
            r.1 is None,
            r.2 == NcMethodStatus::MethodNotImplemented,
    {
        self.base.invoke_method(oid, method_id, args)
    }
}

} // verus!
