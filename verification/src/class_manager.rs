//! Class manager: serves the introspection schema, the control classes
//! and datatypes of the device, flattened across inheritance on request.

use vstd::prelude::*;
use crate::json::{Json, JsonV, json_view_seq, japp, jget_spec, json_as_u64, json_as_bool, str_eq};
use crate::types::{
    NcElementId, NcMethodStatus, NcTouchpoint, NcPropertyConstraints, PropertyChangedEvent,
    IdArgs, IdArgsValue, view_opt_str, value_changed_event,
};
use crate::descriptors::{
    NcDescriptor, NcClassDescriptor, NcAnyDatatypeDescriptor, NcDatatypeDescriptor,
    NcDatatypeDescriptorTypeDef, NcDatatypeDescriptorEnum, NcEnumItemDescriptor,
    class_descriptor_json, datatype_descriptor_json,
};
use crate::manager::NcManager;
use crate::object::{NcObject, obj_prop_json, obj_set_status, obj_label_after, emitted};
use crate::registry::{
    prop_ids, method_ids, event_ids, object_prop_ids, object_method_ids, object_event_ids,
    object_all_prop_ids, object_all_method_ids, object_all_event_ids, block_prop_ids,
    block_method_ids, block_event_ids, block_all_prop_ids, block_all_method_ids,
    block_all_event_ids, manager_prop_ids, manager_method_ids, manager_event_ids,
    manager_all_prop_ids, manager_all_method_ids, manager_all_event_ids,
    device_manager_prop_ids, device_manager_method_ids, device_manager_event_ids,
    device_manager_all_prop_ids, device_manager_all_method_ids, device_manager_all_event_ids,
    class_manager_prop_ids, class_manager_method_ids, class_manager_event_ids,
    class_manager_all_prop_ids, class_manager_all_method_ids, class_manager_all_event_ids,
};
use crate::types::NcDatatypeType;

verus! {

broadcast use vstd::std_specs::vec::group_vec_axioms, vstd::seq::group_seq_axioms;

/// The class manager: serves class and datatype descriptors at level 3.
#[derive(Debug)]
pub struct NcClassManager {
    pub base: NcManager,
    pub control_classes: Vec<NcClassDescriptor>,
    pub datatypes: Vec<NcAnyDatatypeDescriptor>,
}

// ---------------------------------------------------------------------------
// The known classes and datatypes
// ---------------------------------------------------------------------------

/// The class ids whose descriptors the device carries.
pub open spec fn class_known(cid: Seq<u32>) -> bool {
    ||| cid == seq![1u32]
    ||| cid == seq![1u32, 1u32]
    ||| cid == seq![1u32, 3u32]
    ||| cid == seq![1u32, 3u32, 1u32]
    ||| cid == seq![1u32, 3u32, 2u32]
}

pub open spec fn class_name_of(cid: Seq<u32>) -> Seq<char> {
    if cid == seq![1u32] {
        "NcObject"@
    } else if cid == seq![1u32, 1u32] {
        "NcBlock"@
    } else if cid == seq![1u32, 3u32] {
        "NcManager"@
    } else if cid == seq![1u32, 3u32, 1u32] {
        "NcDeviceManager"@
    } else {
        "NcClassManager"@
    }
}

pub open spec fn own_prop_ids_of(cid: Seq<u32>) -> Seq<NcElementId> {
    if cid == seq![1u32] {
        object_prop_ids()
    } else if cid == seq![1u32, 1u32] {
        block_prop_ids()
    } else if cid == seq![1u32, 3u32] {
        manager_prop_ids()
    } else if cid == seq![1u32, 3u32, 1u32] {
        device_manager_prop_ids()
    } else {
        class_manager_prop_ids()
    }
}

pub open spec fn all_prop_ids_of(cid: Seq<u32>) -> Seq<NcElementId> {
    if cid == seq![1u32] {
        object_all_prop_ids()
    } else if cid == seq![1u32, 1u32] {
        block_all_prop_ids()
    } else if cid == seq![1u32, 3u32] {
        manager_all_prop_ids()
    } else if cid == seq![1u32, 3u32, 1u32] {
        device_manager_all_prop_ids()
    } else {
        class_manager_all_prop_ids()
    }
}

pub open spec fn own_method_ids_of(cid: Seq<u32>) -> Seq<NcElementId> {
    if cid == seq![1u32] {
        object_method_ids()
    } else if cid == seq![1u32, 1u32] {
        block_method_ids()
    } else if cid == seq![1u32, 3u32] {
        manager_method_ids()
    } else if cid == seq![1u32, 3u32, 1u32] {
        device_manager_method_ids()
    } else {
        class_manager_method_ids()
    }
}

pub open spec fn all_method_ids_of(cid: Seq<u32>) -> Seq<NcElementId> {
    if cid == seq![1u32] {
        object_all_method_ids()
    } else if cid == seq![1u32, 1u32] {
        block_all_method_ids()
    } else if cid == seq![1u32, 3u32] {
        manager_all_method_ids()
    } else if cid == seq![1u32, 3u32, 1u32] {
        device_manager_all_method_ids()
    } else {
        class_manager_all_method_ids()
    }
}

pub open spec fn own_event_ids_of(cid: Seq<u32>) -> Seq<NcElementId> {
    if cid == seq![1u32] {
        object_event_ids()
    } else if cid == seq![1u32, 1u32] {
        block_event_ids()
    } else if cid == seq![1u32, 3u32] {
        manager_event_ids()
    } else if cid == seq![1u32, 3u32, 1u32] {
        device_manager_event_ids()
    } else {
        class_manager_event_ids()
    }
}

pub open spec fn all_event_ids_of(cid: Seq<u32>) -> Seq<NcElementId> {
    if cid == seq![1u32] {
        object_all_event_ids()
    } else if cid == seq![1u32, 1u32] {
        block_all_event_ids()
    } else if cid == seq![1u32, 3u32] {
        manager_all_event_ids()
    } else if cid == seq![1u32, 3u32, 1u32] {
        device_manager_all_event_ids()
    } else {
        class_manager_all_event_ids()
    }
}

pub open spec fn own_prop_meta_of(cid: Seq<u32>) -> Seq<(NcElementId, bool, bool)> {
    if cid == seq![1u32] {
        crate::registry::object_prop_meta()
    } else if cid == seq![1u32, 1u32] {
        crate::registry::block_prop_meta()
    } else if cid == seq![1u32, 3u32] {
        crate::registry::manager_prop_meta()
    } else if cid == seq![1u32, 3u32, 1u32] {
        crate::registry::device_manager_prop_meta()
    } else {
        crate::registry::class_manager_prop_meta()
    }
}

pub open spec fn all_prop_meta_of(cid: Seq<u32>) -> Seq<(NcElementId, bool, bool)> {
    if cid == seq![1u32] {
        crate::registry::object_all_prop_meta()
    } else if cid == seq![1u32, 1u32] {
        crate::registry::block_all_prop_meta()
    } else if cid == seq![1u32, 3u32] {
        crate::registry::manager_all_prop_meta()
    } else if cid == seq![1u32, 3u32, 1u32] {
        crate::registry::device_manager_all_prop_meta()
    } else {
        crate::registry::class_manager_all_prop_meta()
    }
}

/// A descriptor of the class `cid`, either in its own form or flattened
/// across inheritance.
pub open spec fn class_desc_ok(d: NcClassDescriptor, cid: Seq<u32>, flat: bool) -> bool {
    &&& d.class_id@ == cid
    &&& d.name@ == class_name_of(cid)
    &&& prop_ids(d.properties@) == (if flat {
        all_prop_ids_of(cid)
    } else {
        own_prop_ids_of(cid)
    })
    &&& method_ids(d.methods@) == (if flat {
        all_method_ids_of(cid)
    } else {
        own_method_ids_of(cid)
    })
    &&& event_ids(d.events@) == (if flat {
        all_event_ids_of(cid)
    } else {
        own_event_ids_of(cid)
    })
    &&& crate::registry::prop_meta(d.properties@) == (if flat {
        all_prop_meta_of(cid)
    } else {
        own_prop_meta_of(cid)
    })
}

/// The name a datatype descriptor carries.
pub open spec fn dt_descriptor_name(d: NcAnyDatatypeDescriptor) -> Seq<char> {
    match d {
        NcAnyDatatypeDescriptor::Primitive(p) => p.name@,
        NcAnyDatatypeDescriptor::TypeDef(t) => t.base.name@,
        NcAnyDatatypeDescriptor::Struct(s) => s.base.name@,
        NcAnyDatatypeDescriptor::Enum(e) => e.base.name@,
    }
}

pub open spec fn dt_names(s: Seq<NcAnyDatatypeDescriptor>) -> Seq<Seq<char>> {
    s.map_values(|d: NcAnyDatatypeDescriptor| dt_descriptor_name(d))
}

/// The names in the datatype registry, in registration order.
pub open spec fn registry_datatype_names() -> Seq<Seq<char>> {
    seq![
        "NcBoolean"@,
        "NcInt16"@,
        "NcInt32"@,
        "NcInt64"@,
        "NcUint16"@,
        "NcUint32"@,
        "NcUint64"@,
        "NcFloat32"@,
        "NcFloat64"@,
        "NcString"@,
        "NcElementId"@,
        "NcEventId"@,
        "NcMethodId"@,
        "NcPropertyId"@,
        "NcManufacturer"@,
        "NcProduct"@,
        "NcDeviceOperationalState"@,
        "NcPropertyChangedEventData"@,
        "NcBlockMemberDescriptor"@,
        "NcDatatypeDescriptor"@,
        "NcDatatypeDescriptorPrimitive"@,
        "NcDatatypeDescriptorEnum"@,
        "NcDatatypeDescriptorTypeDef"@,
        "NcDatatypeDescriptorStruct"@,
        "NcFieldDescriptor"@,
        "NcEnumItemDescriptor"@,
        "NcDescriptor"@,
        "NcPropertyDescriptor"@,
        "NcMethodDescriptor"@,
        "NcEventDescriptor"@,
        "NcParameterDescriptor"@,
        "NcClassDescriptor"@,
        "NcTouchpoint"@,
        "NcTouchpointNmos"@,
        "NcTouchpointNmosChannelMapping"@,
        "NcTouchpointResource"@,
        "NcTouchpointResourceNmos"@,
        "NcTouchpointResourceNmosChannelMapping"@,
        "NcParameterConstraints"@,
        "NcParameterConstraintsNumber"@,
        "NcParameterConstraintsString"@,
        "NcPropertyConstraints"@,
        "NcPropertyConstraintsNumber"@,
        "NcPropertyConstraintsString"@,
        "NcMethodResult"@,
        "NcMethodResultPropertyValue"@,
        "NcMethodResultError"@,
        "NcMethodResultBlockMemberDescriptors"@,
        "NcMethodResultClassDescriptor"@,
        "NcMethodResultDatatypeDescriptor"@,
        "NcMethodResultId"@,
        "NcMethodResultLength"@,
        "NcDeviceGenericState"@,
        "NcPropertyChangeType"@,
        "NcResetCause"@,
        "NcMethodStatus"@,
        "NcDatatypeType"@,
        "NcName"@,
        "NcRolePath"@,
        "NcRegex"@,
        "NcRole"@,
        "NcClassId"@,
        "NcId"@,
        "NcOid"@,
        "NcOrganizationId"@,
        "NcUri"@,
        "NcVersionCode"@,
        "NcUuid"@,
        "NcTimeInterval"@,
    ]
}


/// The field names a struct datatype's descriptor carries, in order: its
/// own fields, and with `flat` the parent's flattened fields after them.
pub open spec fn struct_fields_of(name: Seq<char>, flat: bool) -> Option<Seq<Seq<char>>> {
    if name == "NcElementId"@ {
        Some(
            if flat {
                crate::registry::nc_element_id_all_field_names()
            } else {
                crate::registry::nc_element_id_field_names()
            },
        )
    } else if name == "NcEventId"@ {
        Some(
            if flat {
                crate::registry::nc_event_id_all_field_names()
            } else {
                crate::registry::nc_event_id_field_names()
            },
        )
    } else if name == "NcMethodId"@ {
        Some(
            if flat {
                crate::registry::nc_method_id_all_field_names()
            } else {
                crate::registry::nc_method_id_field_names()
            },
        )
    } else if name == "NcPropertyId"@ {
        Some(
            if flat {
                crate::registry::nc_property_id_all_field_names()
            } else {
                crate::registry::nc_property_id_field_names()
            },
        )
    } else if name == "NcManufacturer"@ {
        Some(
            if flat {
                crate::registry::nc_manufacturer_all_field_names()
            } else {
                crate::registry::nc_manufacturer_field_names()
            },
        )
    } else if name == "NcProduct"@ {
        Some(
            if flat {
                crate::registry::nc_product_all_field_names()
            } else {
                crate::registry::nc_product_field_names()
            },
        )
    } else if name == "NcDeviceOperationalState"@ {
        Some(
            if flat {
                crate::registry::nc_device_operational_state_all_field_names()
            } else {
                crate::registry::nc_device_operational_state_field_names()
            },
        )
    } else if name == "NcPropertyChangedEventData"@ {
        Some(
            if flat {
                crate::registry::nc_property_changed_event_data_all_field_names()
            } else {
                crate::registry::nc_property_changed_event_data_field_names()
            },
        )
    } else if name == "NcBlockMemberDescriptor"@ {
        Some(
            if flat {
                crate::registry::nc_block_member_descriptor_all_field_names()
            } else {
                crate::registry::nc_block_member_descriptor_field_names()
            },
        )
    } else if name == "NcDatatypeDescriptor"@ {
        Some(
            if flat {
                crate::registry::nc_datatype_descriptor_all_field_names()
            } else {
                crate::registry::nc_datatype_descriptor_field_names()
            },
        )
    } else if name == "NcDatatypeDescriptorPrimitive"@ {
        Some(
            if flat {
                crate::registry::nc_datatype_descriptor_primitive_all_field_names()
            } else {
                crate::registry::nc_datatype_descriptor_primitive_field_names()
            },
        )
    } else if name == "NcDatatypeDescriptorEnum"@ {
        Some(
            if flat {
                crate::registry::nc_datatype_descriptor_enum_all_field_names()
            } else {
                crate::registry::nc_datatype_descriptor_enum_field_names()
            },
        )
    } else if name == "NcDatatypeDescriptorTypeDef"@ {
        Some(
            if flat {
                crate::registry::nc_datatype_descriptor_type_def_all_field_names()
            } else {
                crate::registry::nc_datatype_descriptor_type_def_field_names()
            },
        )
    } else if name == "NcDatatypeDescriptorStruct"@ {
        Some(
            if flat {
                crate::registry::nc_datatype_descriptor_struct_all_field_names()
            } else {
                crate::registry::nc_datatype_descriptor_struct_field_names()
            },
        )
    } else if name == "NcFieldDescriptor"@ {
        Some(
            if flat {
                crate::registry::nc_field_descriptor_all_field_names()
            } else {
                crate::registry::nc_field_descriptor_field_names()
            },
        )
    } else if name == "NcEnumItemDescriptor"@ {
        Some(
            if flat {
                crate::registry::nc_enum_item_descriptor_all_field_names()
            } else {
                crate::registry::nc_enum_item_descriptor_field_names()
            },
        )
    } else if name == "NcDescriptor"@ {
        Some(
            if flat {
                crate::registry::nc_descriptor_all_field_names()
            } else {
                crate::registry::nc_descriptor_field_names()
            },
        )
    } else if name == "NcPropertyDescriptor"@ {
        Some(
            if flat {
                crate::registry::nc_property_descriptor_all_field_names()
            } else {
                crate::registry::nc_property_descriptor_field_names()
            },
        )
    } else if name == "NcMethodDescriptor"@ {
        Some(
            if flat {
                crate::registry::nc_method_descriptor_all_field_names()
            } else {
                crate::registry::nc_method_descriptor_field_names()
            },
        )
    } else if name == "NcEventDescriptor"@ {
        Some(
            if flat {
                crate::registry::nc_event_descriptor_all_field_names()
            } else {
                crate::registry::nc_event_descriptor_field_names()
            },
        )
    } else if name == "NcParameterDescriptor"@ {
        Some(
            if flat {
                crate::registry::nc_parameter_descriptor_all_field_names()
            } else {
                crate::registry::nc_parameter_descriptor_field_names()
            },
        )
    } else if name == "NcClassDescriptor"@ {
        Some(
            if flat {
                crate::registry::nc_class_descriptor_all_field_names()
            } else {
                crate::registry::nc_class_descriptor_field_names()
            },
        )
    } else if name == "NcTouchpoint"@ {
        Some(
            if flat {
                crate::registry::nc_touchpoint_all_field_names()
            } else {
                crate::registry::nc_touchpoint_field_names()
            },
        )
    } else if name == "NcTouchpointNmos"@ {
        Some(
            if flat {
                crate::registry::nc_touchpoint_nmos_all_field_names()
            } else {
                crate::registry::nc_touchpoint_nmos_field_names()
            },
        )
    } else if name == "NcTouchpointNmosChannelMapping"@ {
        Some(
            if flat {
                crate::registry::nc_touchpoint_nmos_channel_mapping_all_field_names()
            } else {
                crate::registry::nc_touchpoint_nmos_channel_mapping_field_names()
            },
        )
    } else if name == "NcTouchpointResource"@ {
        Some(
            if flat {
                crate::registry::nc_touchpoint_resource_all_field_names()
            } else {
                crate::registry::nc_touchpoint_resource_field_names()
            },
        )
    } else if name == "NcTouchpointResourceNmos"@ {
        Some(
            if flat {
                crate::registry::nc_touchpoint_resource_nmos_all_field_names()
            } else {
                crate::registry::nc_touchpoint_resource_nmos_field_names()
            },
        )
    } else if name == "NcTouchpointResourceNmosChannelMapping"@ {
        Some(
            if flat {
                crate::registry::nc_touchpoint_resource_nmos_channel_mapping_all_field_names()
            } else {
                crate::registry::nc_touchpoint_resource_nmos_channel_mapping_field_names()
            },
        )
    } else if name == "NcParameterConstraints"@ {
        Some(
            if flat {
                crate::registry::nc_parameter_constraints_all_field_names()
            } else {
                crate::registry::nc_parameter_constraints_field_names()
            },
        )
    } else if name == "NcParameterConstraintsNumber"@ {
        Some(
            if flat {
                crate::registry::nc_parameter_constraints_number_all_field_names()
            } else {
                crate::registry::nc_parameter_constraints_number_field_names()
            },
        )
    } else if name == "NcParameterConstraintsString"@ {
        Some(
            if flat {
                crate::registry::nc_parameter_constraints_string_all_field_names()
            } else {
                crate::registry::nc_parameter_constraints_string_field_names()
            },
        )
    } else if name == "NcPropertyConstraints"@ {
        Some(
            if flat {
                crate::registry::nc_property_constraints_all_field_names()
            } else {
                crate::registry::nc_property_constraints_field_names()
            },
        )
    } else if name == "NcPropertyConstraintsNumber"@ {
        Some(
            if flat {
                crate::registry::nc_property_constraints_number_all_field_names()
            } else {
                crate::registry::nc_property_constraints_number_field_names()
            },
        )
    } else if name == "NcPropertyConstraintsString"@ {
        Some(
            if flat {
                crate::registry::nc_property_constraints_string_all_field_names()
            } else {
                crate::registry::nc_property_constraints_string_field_names()
            },
        )
    } else if name == "NcMethodResult"@ {
        Some(
            if flat {
                crate::registry::nc_method_result_all_field_names()
            } else {
                crate::registry::nc_method_result_field_names()
            },
        )
    } else if name == "NcMethodResultPropertyValue"@ {
        Some(
            if flat {
                crate::registry::nc_method_result_property_value_all_field_names()
            } else {
                crate::registry::nc_method_result_property_value_field_names()
            },
        )
    } else if name == "NcMethodResultError"@ {
        Some(
            if flat {
                crate::registry::nc_method_result_error_all_field_names()
            } else {
                crate::registry::nc_method_result_error_field_names()
            },
        )
    } else if name == "NcMethodResultBlockMemberDescriptors"@ {
        Some(
            if flat {
                crate::registry::nc_method_result_block_member_descriptors_all_field_names()
            } else {
                crate::registry::nc_method_result_block_member_descriptors_field_names()
            },
        )
    } else if name == "NcMethodResultClassDescriptor"@ {
        Some(
            if flat {
                crate::registry::nc_method_result_class_descriptor_all_field_names()
            } else {
                crate::registry::nc_method_result_class_descriptor_field_names()
            },
        )
    } else if name == "NcMethodResultDatatypeDescriptor"@ {
        Some(
            if flat {
                crate::registry::nc_method_result_datatype_descriptor_all_field_names()
            } else {
                crate::registry::nc_method_result_datatype_descriptor_field_names()
            },
        )
    } else if name == "NcMethodResultId"@ {
        Some(
            if flat {
                crate::registry::nc_method_result_id_all_field_names()
            } else {
                crate::registry::nc_method_result_id_field_names()
            },
        )
    } else if name == "NcMethodResultLength"@ {
        Some(
            if flat {
                crate::registry::nc_method_result_length_all_field_names()
            } else {
                crate::registry::nc_method_result_length_field_names()
            },
        )
    } else {
        None
    }
}


/// The shape a named datatype's descriptor takes: which variant, a
/// typedef's parent and sequence flag, an enum's named numbered items. The
/// shape does not depend on `include_inherited`; only a struct's field
/// list does.
pub enum DtShape {
    PrimShape,
    StructShape,
    TypeDefShape(Seq<char>, bool),
    EnumShape(Seq<(Seq<char>, u16)>),
}

pub open spec fn enum_items_view(s: Seq<NcEnumItemDescriptor>) -> Seq<(Seq<char>, u16)> {
    s.map_values(|x: NcEnumItemDescriptor| (x.name@, x.value))
}

pub open spec fn dt_shape_ok(d: NcAnyDatatypeDescriptor, shape: DtShape) -> bool {
    match shape {
        DtShape::PrimShape => d is Primitive,
        DtShape::StructShape => d is Struct,
        DtShape::TypeDefShape(p, s) => d matches NcAnyDatatypeDescriptor::TypeDef(t)
            && t.parent_type@ == p && t.is_sequence == s,
        DtShape::EnumShape(items) => d matches NcAnyDatatypeDescriptor::Enum(e)
            && enum_items_view(e.items@) == items,
    }
}

pub open spec fn dt_shape_of(name: Seq<char>) -> Option<DtShape> {
    if name == "NcBoolean"@ {
        Some(DtShape::PrimShape)
    } else if name == "NcInt16"@ {
        Some(DtShape::PrimShape)
    } else if name == "NcInt32"@ {
        Some(DtShape::PrimShape)
    } else if name == "NcInt64"@ {
        Some(DtShape::PrimShape)
    } else if name == "NcUint16"@ {
        Some(DtShape::PrimShape)
    } else if name == "NcUint32"@ {
        Some(DtShape::PrimShape)
    } else if name == "NcUint64"@ {
        Some(DtShape::PrimShape)
    } else if name == "NcFloat32"@ {
        Some(DtShape::PrimShape)
    } else if name == "NcFloat64"@ {
        Some(DtShape::PrimShape)
    } else if name == "NcString"@ {
        Some(DtShape::PrimShape)
    } else if name == "NcElementId"@ {
        Some(DtShape::StructShape)
    } else if name == "NcEventId"@ {
        Some(DtShape::StructShape)
    } else if name == "NcMethodId"@ {
        Some(DtShape::StructShape)
    } else if name == "NcPropertyId"@ {
        Some(DtShape::StructShape)
    } else if name == "NcManufacturer"@ {
        Some(DtShape::StructShape)
    } else if name == "NcProduct"@ {
        Some(DtShape::StructShape)
    } else if name == "NcDeviceOperationalState"@ {
        Some(DtShape::StructShape)
    } else if name == "NcPropertyChangedEventData"@ {
        Some(DtShape::StructShape)
    } else if name == "NcBlockMemberDescriptor"@ {
        Some(DtShape::StructShape)
    } else if name == "NcDatatypeDescriptor"@ {
        Some(DtShape::StructShape)
    } else if name == "NcDatatypeDescriptorPrimitive"@ {
        Some(DtShape::StructShape)
    } else if name == "NcDatatypeDescriptorEnum"@ {
        Some(DtShape::StructShape)
    } else if name == "NcDatatypeDescriptorTypeDef"@ {
        Some(DtShape::StructShape)
    } else if name == "NcDatatypeDescriptorStruct"@ {
        Some(DtShape::StructShape)
    } else if name == "NcFieldDescriptor"@ {
        Some(DtShape::StructShape)
    } else if name == "NcEnumItemDescriptor"@ {
        Some(DtShape::StructShape)
    } else if name == "NcDescriptor"@ {
        Some(DtShape::StructShape)
    } else if name == "NcPropertyDescriptor"@ {
        Some(DtShape::StructShape)
    } else if name == "NcMethodDescriptor"@ {
        Some(DtShape::StructShape)
    } else if name == "NcEventDescriptor"@ {
        Some(DtShape::StructShape)
    } else if name == "NcParameterDescriptor"@ {
        Some(DtShape::StructShape)
    } else if name == "NcClassDescriptor"@ {
        Some(DtShape::StructShape)
    } else if name == "NcTouchpoint"@ {
        Some(DtShape::StructShape)
    } else if name == "NcTouchpointNmos"@ {
        Some(DtShape::StructShape)
    } else if name == "NcTouchpointNmosChannelMapping"@ {
        Some(DtShape::StructShape)
    } else if name == "NcTouchpointResource"@ {
        Some(DtShape::StructShape)
    } else if name == "NcTouchpointResourceNmos"@ {
        Some(DtShape::StructShape)
    } else if name == "NcTouchpointResourceNmosChannelMapping"@ {
        Some(DtShape::StructShape)
    } else if name == "NcParameterConstraints"@ {
        Some(DtShape::StructShape)
    } else if name == "NcParameterConstraintsNumber"@ {
        Some(DtShape::StructShape)
    } else if name == "NcParameterConstraintsString"@ {
        Some(DtShape::StructShape)
    } else if name == "NcPropertyConstraints"@ {
        Some(DtShape::StructShape)
    } else if name == "NcPropertyConstraintsNumber"@ {
        Some(DtShape::StructShape)
    } else if name == "NcPropertyConstraintsString"@ {
        Some(DtShape::StructShape)
    } else if name == "NcMethodResult"@ {
        Some(DtShape::StructShape)
    } else if name == "NcMethodResultPropertyValue"@ {
        Some(DtShape::StructShape)
    } else if name == "NcMethodResultError"@ {
        Some(DtShape::StructShape)
    } else if name == "NcMethodResultBlockMemberDescriptors"@ {
        Some(DtShape::StructShape)
    } else if name == "NcMethodResultClassDescriptor"@ {
        Some(DtShape::StructShape)
    } else if name == "NcMethodResultDatatypeDescriptor"@ {
        Some(DtShape::StructShape)
    } else if name == "NcMethodResultId"@ {
        Some(DtShape::StructShape)
    } else if name == "NcMethodResultLength"@ {
        Some(DtShape::StructShape)
    } else if name == "NcDeviceGenericState"@ {
        Some(DtShape::EnumShape(seq![("Unknown"@, 0u16), ("NormalOperation"@, 1u16), ("Initializing"@, 2u16), ("Updating"@, 3u16), ("LicensingError"@, 4u16), ("InternalError"@, 5u16)]))
    } else if name == "NcPropertyChangeType"@ {
        Some(DtShape::EnumShape(seq![("ValueChanged"@, 0u16), ("SequenceItemAdded"@, 1u16), ("SequenceItemChanged"@, 2u16), ("SequenceItemRemoved"@, 3u16)]))
    } else if name == "NcResetCause"@ {
        Some(DtShape::EnumShape(seq![("Unknown"@, 0u16), ("PowerOn"@, 1u16), ("InternalError"@, 2u16), ("Upgrade"@, 3u16), ("ControllerRequest"@, 4u16), ("ManualReset"@, 5u16)]))
    } else if name == "NcMethodStatus"@ {
        Some(DtShape::EnumShape(seq![("Ok"@, 200u16), ("PropertyDeprecated"@, 298u16), ("MethodDeprecated"@, 299u16), ("BadCommandFormat"@, 400u16), ("Unauthorized"@, 401u16), ("BadOid"@, 404u16), ("Readonly"@, 405u16), ("InvalidRequest"@, 406u16), ("Conflict"@, 409u16), ("BufferOverflow"@, 413u16), ("IndexOutOfBounds"@, 414u16), ("ParameterError"@, 417u16), ("Locked"@, 423u16), ("DeviceError"@, 500u16), ("MethodNotImplemented"@, 501u16), ("PropertyNotImplemented"@, 502u16), ("NotReady"@, 503u16), ("Timeout"@, 504u16)]))
    } else if name == "NcDatatypeType"@ {
        Some(DtShape::EnumShape(seq![("Primitive"@, 0u16), ("Typedef"@, 1u16), ("Struct"@, 2u16), ("Enum"@, 3u16)]))
    } else if name == "NcName"@ {
        Some(DtShape::TypeDefShape("NcString"@, false))
    } else if name == "NcRolePath"@ {
        Some(DtShape::TypeDefShape("NcString"@, true))
    } else if name == "NcRegex"@ {
        Some(DtShape::TypeDefShape("NcString"@, false))
    } else if name == "NcRole"@ {
        Some(DtShape::TypeDefShape("NcString"@, false))
    } else if name == "NcClassId"@ {
        Some(DtShape::TypeDefShape("NcInt32"@, true))
    } else if name == "NcId"@ {
        Some(DtShape::TypeDefShape("NcUint32"@, false))
    } else if name == "NcOid"@ {
        Some(DtShape::TypeDefShape("NcUint32"@, false))
    } else if name == "NcOrganizationId"@ {
        Some(DtShape::TypeDefShape("NcInt32"@, false))
    } else if name == "NcUri"@ {
        Some(DtShape::TypeDefShape("NcString"@, false))
    } else if name == "NcVersionCode"@ {
        Some(DtShape::TypeDefShape("NcString"@, false))
    } else if name == "NcUuid"@ {
        Some(DtShape::TypeDefShape("NcString"@, false))
    } else if name == "NcTimeInterval"@ {
        Some(DtShape::TypeDefShape("NcInt64"@, false))
    } else {
        None
    }
}

/// Whether `name` names a datatype of the registry.
pub open spec fn dt_known(name: Seq<char>) -> bool {
    ||| name == "NcBoolean"@
    ||| name == "NcInt16"@
    ||| name == "NcInt32"@
    ||| name == "NcInt64"@
    ||| name == "NcUint16"@
    ||| name == "NcUint32"@
    ||| name == "NcUint64"@
    ||| name == "NcFloat32"@
    ||| name == "NcFloat64"@
    ||| name == "NcString"@
    ||| name == "NcElementId"@
    ||| name == "NcEventId"@
    ||| name == "NcMethodId"@
    ||| name == "NcPropertyId"@
    ||| name == "NcManufacturer"@
    ||| name == "NcProduct"@
    ||| name == "NcDeviceOperationalState"@
    ||| name == "NcPropertyChangedEventData"@
    ||| name == "NcBlockMemberDescriptor"@
    ||| name == "NcDatatypeDescriptor"@
    ||| name == "NcDatatypeDescriptorPrimitive"@
    ||| name == "NcDatatypeDescriptorEnum"@
    ||| name == "NcDatatypeDescriptorTypeDef"@
    ||| name == "NcDatatypeDescriptorStruct"@
    ||| name == "NcFieldDescriptor"@
    ||| name == "NcEnumItemDescriptor"@
    ||| name == "NcDescriptor"@
    ||| name == "NcPropertyDescriptor"@
    ||| name == "NcMethodDescriptor"@
    ||| name == "NcEventDescriptor"@
    ||| name == "NcParameterDescriptor"@
    ||| name == "NcClassDescriptor"@
    ||| name == "NcTouchpoint"@
    ||| name == "NcTouchpointNmos"@
    ||| name == "NcTouchpointNmosChannelMapping"@
    ||| name == "NcTouchpointResource"@
    ||| name == "NcTouchpointResourceNmos"@
    ||| name == "NcTouchpointResourceNmosChannelMapping"@
    ||| name == "NcParameterConstraints"@
    ||| name == "NcParameterConstraintsNumber"@
    ||| name == "NcParameterConstraintsString"@
    ||| name == "NcPropertyConstraints"@
    ||| name == "NcPropertyConstraintsNumber"@
    ||| name == "NcPropertyConstraintsString"@
    ||| name == "NcMethodResult"@
    ||| name == "NcMethodResultPropertyValue"@
    ||| name == "NcMethodResultError"@
    ||| name == "NcMethodResultBlockMemberDescriptors"@
    ||| name == "NcMethodResultClassDescriptor"@
    ||| name == "NcMethodResultDatatypeDescriptor"@
    ||| name == "NcMethodResultId"@
    ||| name == "NcMethodResultLength"@
    ||| name == "NcDeviceGenericState"@
    ||| name == "NcPropertyChangeType"@
    ||| name == "NcResetCause"@
    ||| name == "NcMethodStatus"@
    ||| name == "NcDatatypeType"@
    ||| name == "NcName"@
    ||| name == "NcRolePath"@
    ||| name == "NcRegex"@
    ||| name == "NcRole"@
    ||| name == "NcClassId"@
    ||| name == "NcId"@
    ||| name == "NcOid"@
    ||| name == "NcOrganizationId"@
    ||| name == "NcUri"@
    ||| name == "NcVersionCode"@
    ||| name == "NcUuid"@
    ||| name == "NcTimeInterval"@
}

// ---------------------------------------------------------------------------
// Registry construction
// ---------------------------------------------------------------------------

fn make_primitive(name: &str, desc: &str) -> (r: NcAnyDatatypeDescriptor)
    ensures
        dt_descriptor_name(r) == name@,
        r is Primitive,
{
    NcAnyDatatypeDescriptor::Primitive(
        NcDatatypeDescriptor {
            base: NcDescriptor { description: Some(desc.to_owned()) },
            name: name.to_owned(),
            type_kind: NcDatatypeType::Primitive,
            constraints: None,
        },
    )
}

fn make_typedef(name: &str, parent: &str, is_sequence: bool, desc: &str) -> (r:
    NcAnyDatatypeDescriptor)
    ensures
        dt_descriptor_name(r) == name@,
        r matches NcAnyDatatypeDescriptor::TypeDef(t) && t.parent_type@ == parent@
            && t.is_sequence == is_sequence,
{
    NcAnyDatatypeDescriptor::TypeDef(
        NcDatatypeDescriptorTypeDef {
            base: NcDatatypeDescriptor {
                base: NcDescriptor { description: Some(desc.to_owned()) },
                name: name.to_owned(),
                type_kind: NcDatatypeType::Typedef,
                constraints: None,
            },
            parent_type: parent.to_owned(),
            is_sequence,
        },
    )
}

fn make_enum_item(name: &str, value: u16, desc: &str) -> (r: NcEnumItemDescriptor)
    ensures
        r.name@ == name@,
        r.value == value,
{
    NcEnumItemDescriptor {
        base: NcDescriptor { description: Some(desc.to_owned()) },
        name: name.to_owned(),
        value,
    }
}

fn make_enum(name: &str, desc: &str, items: Vec<NcEnumItemDescriptor>) -> (r:
    NcAnyDatatypeDescriptor)
    ensures
        dt_descriptor_name(r) == name@,
        r matches NcAnyDatatypeDescriptor::Enum(e) && e.items == items,
{
    NcAnyDatatypeDescriptor::Enum(
        NcDatatypeDescriptorEnum {
            base: NcDatatypeDescriptor {
                base: NcDescriptor { description: Some(desc.to_owned()) },
                name: name.to_owned(),
                type_kind: NcDatatypeType::Enum,
                constraints: None,
            },
            items,
        },
    )
}

/// The non-inherited descriptors of every control class of the device, in
/// class-id order.
#[verifier::rlimit(100)]
fn generate_class_descriptors() -> (r: Vec<NcClassDescriptor>)
    ensures
        r@.len() == 5,
        class_desc_ok(r@[0], seq![1u32], false),
        class_desc_ok(r@[1], seq![1u32, 1u32], false),
        class_desc_ok(r@[2], seq![1u32, 3u32], false),
        class_desc_ok(r@[3], seq![1u32, 3u32, 1u32], false),
        class_desc_ok(r@[4], seq![1u32, 3u32, 2u32], false),
{
    let mut reg: Vec<NcClassDescriptor> = Vec::new();
    reg.push(crate::object::NcObject::get_class_descriptor(false));
    reg.push(crate::block::NcBlock::get_class_descriptor(false));
    reg.push(crate::manager::NcManager::get_class_descriptor(false));
    reg.push(crate::device_manager::NcDeviceManager::get_class_descriptor(false));
    reg.push(NcClassManager::get_class_descriptor(false));
    proof {
        lemma_known_class_ids_distinct();
    }
    reg
}

/// The five known class ids are pairwise distinct.
pub proof fn lemma_known_class_ids_distinct()
    ensures
        seq![1u32] != seq![1u32, 1u32],
        seq![1u32] != seq![1u32, 3u32],
        seq![1u32] != seq![1u32, 3u32, 1u32],
        seq![1u32] != seq![1u32, 3u32, 2u32],
        seq![1u32, 1u32] != seq![1u32, 3u32],
        seq![1u32, 1u32] != seq![1u32, 3u32, 1u32],
        seq![1u32, 1u32] != seq![1u32, 3u32, 2u32],
        seq![1u32, 3u32] != seq![1u32, 3u32, 1u32],
        seq![1u32, 3u32] != seq![1u32, 3u32, 2u32],
        seq![1u32, 3u32, 1u32] != seq![1u32, 3u32, 2u32],
{
    assert(seq![1u32].len() == 1);
    assert(seq![1u32, 1u32].len() == 2);
    assert(seq![1u32, 3u32].len() == 2);
    assert(seq![1u32, 3u32, 1u32].len() == 3);
    assert(seq![1u32, 3u32, 2u32].len() == 3);
    assert(seq![1u32, 1u32][1] == 1u32 && seq![1u32, 3u32][1] == 3u32);
    assert(seq![1u32, 3u32, 1u32][2] == 1u32 && seq![1u32, 3u32, 2u32][2] == 2u32);
}

/// The registry of datatype descriptors, in registration order: the
/// primitives, the struct types, the enumerations and the typedefs the
/// protocol uses.
#[verifier::rlimit(100)]
fn generate_type_descriptors() -> (r: Vec<NcAnyDatatypeDescriptor>)
    ensures
        dt_names(r@) == registry_datatype_names(),
{
    let mut reg: Vec<NcAnyDatatypeDescriptor> = Vec::new();
    reg.push(make_primitive("NcBoolean", "Boolean primitive"));
    reg.push(make_primitive("NcInt16", "Signed 16-bit integer"));
    reg.push(make_primitive("NcInt32", "Signed 32-bit integer"));
    reg.push(make_primitive("NcInt64", "Signed 64-bit integer"));
    reg.push(make_primitive("NcUint16", "Unsigned 16-bit integer"));
    reg.push(make_primitive("NcUint32", "Unsigned 32-bit integer"));
    reg.push(make_primitive("NcUint64", "Unsigned 64-bit integer"));
    reg.push(make_primitive("NcFloat32", "32-bit floating point"));
    reg.push(make_primitive("NcFloat64", "64-bit floating point"));
    reg.push(make_primitive("NcString", "String primitive"));
    reg.push(NcAnyDatatypeDescriptor::Struct(crate::types::NcElementId::get_type_descriptor(false)));
    reg.push(NcAnyDatatypeDescriptor::Struct(crate::types::NcEventId::get_type_descriptor(false)));
    reg.push(NcAnyDatatypeDescriptor::Struct(crate::types::NcMethodId::get_type_descriptor(false)));
    reg.push(NcAnyDatatypeDescriptor::Struct(crate::types::NcPropertyId::get_type_descriptor(false)));
    reg.push(NcAnyDatatypeDescriptor::Struct(crate::types::NcManufacturer::get_type_descriptor(false)));
    reg.push(NcAnyDatatypeDescriptor::Struct(crate::types::NcProduct::get_type_descriptor(false)));
    reg.push(NcAnyDatatypeDescriptor::Struct(crate::types::NcDeviceOperationalState::get_type_descriptor(false)));
    reg.push(NcAnyDatatypeDescriptor::Struct(crate::types::PropertyChangedEventData::get_type_descriptor(false)));
    reg.push(NcAnyDatatypeDescriptor::Struct(crate::types::NcBlockMemberDescriptor::get_type_descriptor(false)));
    reg.push(NcAnyDatatypeDescriptor::Struct(crate::descriptors::NcDatatypeDescriptor::get_type_descriptor(false)));
    reg.push(NcAnyDatatypeDescriptor::Struct(crate::descriptors::NcDatatypeDescriptorPrimitive::get_type_descriptor(false)));
    reg.push(NcAnyDatatypeDescriptor::Struct(crate::descriptors::NcDatatypeDescriptorEnum::get_type_descriptor(false)));
    reg.push(NcAnyDatatypeDescriptor::Struct(crate::descriptors::NcDatatypeDescriptorTypeDef::get_type_descriptor(false)));
    reg.push(NcAnyDatatypeDescriptor::Struct(crate::descriptors::NcDatatypeDescriptorStruct::get_type_descriptor(false)));
    reg.push(NcAnyDatatypeDescriptor::Struct(crate::descriptors::NcFieldDescriptor::get_type_descriptor(false)));
    reg.push(NcAnyDatatypeDescriptor::Struct(crate::descriptors::NcEnumItemDescriptor::get_type_descriptor(false)));
    reg.push(NcAnyDatatypeDescriptor::Struct(crate::descriptors::NcDescriptor::get_type_descriptor(false)));
    reg.push(NcAnyDatatypeDescriptor::Struct(crate::descriptors::NcPropertyDescriptor::get_type_descriptor(false)));
    reg.push(NcAnyDatatypeDescriptor::Struct(crate::descriptors::NcMethodDescriptor::get_type_descriptor(false)));
    reg.push(NcAnyDatatypeDescriptor::Struct(crate::descriptors::NcEventDescriptor::get_type_descriptor(false)));
    reg.push(NcAnyDatatypeDescriptor::Struct(crate::descriptors::NcParameterDescriptor::get_type_descriptor(false)));
    reg.push(NcAnyDatatypeDescriptor::Struct(crate::descriptors::NcClassDescriptor::get_type_descriptor(false)));
    reg.push(NcAnyDatatypeDescriptor::Struct(crate::types::NcTouchpointBase::get_type_descriptor(false)));
    reg.push(NcAnyDatatypeDescriptor::Struct(crate::types::NcTouchpointNmos::get_type_descriptor(false)));
    reg.push(NcAnyDatatypeDescriptor::Struct(crate::types::NcTouchpointNmosChannelMapping::get_type_descriptor(false)));
    reg.push(NcAnyDatatypeDescriptor::Struct(crate::types::NcTouchpointResourceBase::get_type_descriptor(false)));
    reg.push(NcAnyDatatypeDescriptor::Struct(crate::types::NcTouchpointResourceNmos::get_type_descriptor(false)));
    reg.push(NcAnyDatatypeDescriptor::Struct(crate::types::NcTouchpointResourceNmosChannelMapping::get_type_descriptor(false)));
    reg.push(NcAnyDatatypeDescriptor::Struct(crate::descriptors::NcParameterConstraints::get_type_descriptor(false)));
    reg.push(NcAnyDatatypeDescriptor::Struct(crate::descriptors::NcParameterConstraintsNumber::get_type_descriptor(false)));
    reg.push(NcAnyDatatypeDescriptor::Struct(crate::descriptors::NcParameterConstraintsString::get_type_descriptor(false)));
    reg.push(NcAnyDatatypeDescriptor::Struct(crate::types::NcPropertyConstraintsBase::get_type_descriptor(false)));
    reg.push(NcAnyDatatypeDescriptor::Struct(crate::types::NcPropertyConstraintsNumber::get_type_descriptor(false)));
    reg.push(NcAnyDatatypeDescriptor::Struct(crate::types::NcPropertyConstraintsString::get_type_descriptor(false)));
    reg.push(NcAnyDatatypeDescriptor::Struct(crate::descriptors::NcMethodResult::get_type_descriptor(false)));
    reg.push(NcAnyDatatypeDescriptor::Struct(crate::descriptors::NcMethodResultPropertyValue::get_type_descriptor(false)));
    reg.push(NcAnyDatatypeDescriptor::Struct(crate::descriptors::NcMethodResultError::get_type_descriptor(false)));
    reg.push(NcAnyDatatypeDescriptor::Struct(crate::descriptors::NcMethodResultBlockMemberDescriptors::get_type_descriptor(false)));
    reg.push(NcAnyDatatypeDescriptor::Struct(crate::descriptors::NcMethodResultClassDescriptor::get_type_descriptor(false)));
    reg.push(NcAnyDatatypeDescriptor::Struct(crate::descriptors::NcMethodResultDatatypeDescriptor::get_type_descriptor(false)));
    reg.push(NcAnyDatatypeDescriptor::Struct(crate::descriptors::NcMethodResultId::get_type_descriptor(false)));
    reg.push(NcAnyDatatypeDescriptor::Struct(crate::descriptors::NcMethodResultLength::get_type_descriptor(false)));
    {
        let mut items: Vec<NcEnumItemDescriptor> = Vec::new();
        items.push(make_enum_item("Unknown", 0, "Unknown"));
        items.push(make_enum_item("NormalOperation", 1, "Normal operation"));
        items.push(make_enum_item("Initializing", 2, "Initializing"));
        items.push(make_enum_item("Updating", 3, "Updating"));
        items.push(make_enum_item("LicensingError", 4, "Licensing error"));
        items.push(make_enum_item("InternalError", 5, "Internal error"));
        reg.push(make_enum("NcDeviceGenericState", "Device generic state enumeration", items));
    }
    {
        let mut items: Vec<NcEnumItemDescriptor> = Vec::new();
        items.push(make_enum_item("ValueChanged", 0, "Value changed"));
        items.push(make_enum_item("SequenceItemAdded", 1, "Sequence item added"));
        items.push(make_enum_item("SequenceItemChanged", 2, "Sequence item changed"));
        items.push(make_enum_item("SequenceItemRemoved", 3, "Sequence item removed"));
        reg.push(make_enum("NcPropertyChangeType", "Property change type enumeration", items));
    }
    {
        let mut items: Vec<NcEnumItemDescriptor> = Vec::new();
        items.push(make_enum_item("Unknown", 0, "Unknown"));
        items.push(make_enum_item("PowerOn", 1, "Power on"));
        items.push(make_enum_item("InternalError", 2, "Internal error"));
        items.push(make_enum_item("Upgrade", 3, "Upgrade"));
        items.push(make_enum_item("ControllerRequest", 4, "Controller request"));
        items.push(make_enum_item("ManualReset", 5, "Manual reset"));
        reg.push(make_enum("NcResetCause", "Device reset cause enumeration", items));
    }
    {
        let mut items: Vec<NcEnumItemDescriptor> = Vec::new();
        items.push(make_enum_item("Ok", 200, "Ok"));
        items.push(make_enum_item("PropertyDeprecated", 298, "Property deprecated"));
        items.push(make_enum_item("MethodDeprecated", 299, "Method deprecated"));
        items.push(make_enum_item("BadCommandFormat", 400, "Bad command format"));
        items.push(make_enum_item("Unauthorized", 401, "Unauthorized"));
        items.push(make_enum_item("BadOid", 404, "Bad OID"));
        items.push(make_enum_item("Readonly", 405, "Readonly"));
        items.push(make_enum_item("InvalidRequest", 406, "Invalid request"));
        items.push(make_enum_item("Conflict", 409, "Conflict"));
        items.push(make_enum_item("BufferOverflow", 413, "Buffer overflow"));
        items.push(make_enum_item("IndexOutOfBounds", 414, "Index out of bounds"));
        items.push(make_enum_item("ParameterError", 417, "Parameter error"));
        items.push(make_enum_item("Locked", 423, "Locked"));
        items.push(make_enum_item("DeviceError", 500, "Device error"));
        items.push(make_enum_item("MethodNotImplemented", 501, "Method not implemented"));
        items.push(make_enum_item("PropertyNotImplemented", 502, "Property not implemented"));
        items.push(make_enum_item("NotReady", 503, "Not ready"));
        items.push(make_enum_item("Timeout", 504, "Timeout"));
        reg.push(make_enum("NcMethodStatus", "Method status enumeration", items));
    }
    {
        let mut items: Vec<NcEnumItemDescriptor> = Vec::new();
        items.push(make_enum_item("Primitive", 0, "Primitive"));
        items.push(make_enum_item("Typedef", 1, "Typedef"));
        items.push(make_enum_item("Struct", 2, "Struct"));
        items.push(make_enum_item("Enum", 3, "Enum"));
        reg.push(make_enum("NcDatatypeType", "Datatype kind enumeration", items));
    }
    reg.push(make_typedef("NcName", "NcString", false, "Programmatically significant name, alphanumerics + underscore, no spaces"));
    reg.push(make_typedef("NcRolePath", "NcString", true, "Role path"));
    reg.push(make_typedef("NcRegex", "NcString", false, "Regex pattern"));
    reg.push(make_typedef("NcRole", "NcString", false, "Role string"));
    reg.push(make_typedef("NcClassId", "NcInt32", true, "Sequence of class ID fields."));
    reg.push(make_typedef("NcId", "NcUint32", false, "Identifier handler"));
    reg.push(make_typedef("NcOid", "NcUint32", false, "Object id"));
    reg.push(make_typedef("NcOrganizationId", "NcInt32", false, "Unique 24-bit organization id"));
    reg.push(make_typedef("NcUri", "NcString", false, "Uniform resource identifier"));
    reg.push(make_typedef("NcVersionCode", "NcString", false, "Version code in semantic versioning format"));
    reg.push(make_typedef("NcUuid", "NcString", false, "UUID"));
    reg.push(make_typedef("NcTimeInterval", "NcInt64", false, "Time interval described in nanoseconds"));
    proof {
        assert(dt_names(reg@) =~= registry_datatype_names());
    }
    reg
}

/// Builds the descriptor of the named datatype: struct types honour
/// `include_inherited` by inlining parent fields, other kinds are the same
/// either way.
#[verifier::rlimit(100)]
fn build_datatype(name: &str, include_inherited: bool) -> (r: Option<NcAnyDatatypeDescriptor>)
    ensures
        match r {
            Some(d) => dt_known(name@) && dt_descriptor_name(d) == name@ && (dt_shape_of(name@)
                matches Some(shape) && dt_shape_ok(d, shape)),
            None => !dt_known(name@),
        },
        r matches Some(NcAnyDatatypeDescriptor::Struct(s)) ==> Some(
            crate::registry::field_names(s.fields@),
        ) == struct_fields_of(name@, include_inherited),
{
    if str_eq(name, "NcBoolean") {
        return Some(make_primitive("NcBoolean", "Boolean primitive"));
    }
    if str_eq(name, "NcInt16") {
        return Some(make_primitive("NcInt16", "Signed 16-bit integer"));
    }
    if str_eq(name, "NcInt32") {
        return Some(make_primitive("NcInt32", "Signed 32-bit integer"));
    }
    if str_eq(name, "NcInt64") {
        return Some(make_primitive("NcInt64", "Signed 64-bit integer"));
    }
    if str_eq(name, "NcUint16") {
        return Some(make_primitive("NcUint16", "Unsigned 16-bit integer"));
    }
    if str_eq(name, "NcUint32") {
        return Some(make_primitive("NcUint32", "Unsigned 32-bit integer"));
    }
    if str_eq(name, "NcUint64") {
        return Some(make_primitive("NcUint64", "Unsigned 64-bit integer"));
    }
    if str_eq(name, "NcFloat32") {
        return Some(make_primitive("NcFloat32", "32-bit floating point"));
    }
    if str_eq(name, "NcFloat64") {
        return Some(make_primitive("NcFloat64", "64-bit floating point"));
    }
    if str_eq(name, "NcString") {
        return Some(make_primitive("NcString", "String primitive"));
    }
    if str_eq(name, "NcElementId") {
        return Some(NcAnyDatatypeDescriptor::Struct(crate::types::NcElementId::get_type_descriptor(include_inherited)));
    }
    if str_eq(name, "NcEventId") {
        return Some(NcAnyDatatypeDescriptor::Struct(crate::types::NcEventId::get_type_descriptor(include_inherited)));
    }
    if str_eq(name, "NcMethodId") {
        return Some(NcAnyDatatypeDescriptor::Struct(crate::types::NcMethodId::get_type_descriptor(include_inherited)));
    }
    if str_eq(name, "NcPropertyId") {
        return Some(NcAnyDatatypeDescriptor::Struct(crate::types::NcPropertyId::get_type_descriptor(include_inherited)));
    }
    if str_eq(name, "NcManufacturer") {
        return Some(NcAnyDatatypeDescriptor::Struct(crate::types::NcManufacturer::get_type_descriptor(include_inherited)));
    }
    if str_eq(name, "NcProduct") {
        return Some(NcAnyDatatypeDescriptor::Struct(crate::types::NcProduct::get_type_descriptor(include_inherited)));
    }
    if str_eq(name, "NcDeviceOperationalState") {
        return Some(NcAnyDatatypeDescriptor::Struct(crate::types::NcDeviceOperationalState::get_type_descriptor(include_inherited)));
    }
    if str_eq(name, "NcPropertyChangedEventData") {
        return Some(NcAnyDatatypeDescriptor::Struct(crate::types::PropertyChangedEventData::get_type_descriptor(include_inherited)));
    }
    if str_eq(name, "NcBlockMemberDescriptor") {
        return Some(NcAnyDatatypeDescriptor::Struct(crate::types::NcBlockMemberDescriptor::get_type_descriptor(include_inherited)));
    }
    if str_eq(name, "NcDatatypeDescriptor") {
        return Some(NcAnyDatatypeDescriptor::Struct(crate::descriptors::NcDatatypeDescriptor::get_type_descriptor(include_inherited)));
    }
    if str_eq(name, "NcDatatypeDescriptorPrimitive") {
        return Some(NcAnyDatatypeDescriptor::Struct(crate::descriptors::NcDatatypeDescriptorPrimitive::get_type_descriptor(include_inherited)));
    }
    if str_eq(name, "NcDatatypeDescriptorEnum") {
        return Some(NcAnyDatatypeDescriptor::Struct(crate::descriptors::NcDatatypeDescriptorEnum::get_type_descriptor(include_inherited)));
    }
    if str_eq(name, "NcDatatypeDescriptorTypeDef") {
        return Some(NcAnyDatatypeDescriptor::Struct(crate::descriptors::NcDatatypeDescriptorTypeDef::get_type_descriptor(include_inherited)));
    }
    if str_eq(name, "NcDatatypeDescriptorStruct") {
        return Some(NcAnyDatatypeDescriptor::Struct(crate::descriptors::NcDatatypeDescriptorStruct::get_type_descriptor(include_inherited)));
    }
    if str_eq(name, "NcFieldDescriptor") {
        return Some(NcAnyDatatypeDescriptor::Struct(crate::descriptors::NcFieldDescriptor::get_type_descriptor(include_inherited)));
    }
    if str_eq(name, "NcEnumItemDescriptor") {
        return Some(NcAnyDatatypeDescriptor::Struct(crate::descriptors::NcEnumItemDescriptor::get_type_descriptor(include_inherited)));
    }
    if str_eq(name, "NcDescriptor") {
        return Some(NcAnyDatatypeDescriptor::Struct(crate::descriptors::NcDescriptor::get_type_descriptor(include_inherited)));
    }
    if str_eq(name, "NcPropertyDescriptor") {
        return Some(NcAnyDatatypeDescriptor::Struct(crate::descriptors::NcPropertyDescriptor::get_type_descriptor(include_inherited)));
    }
    if str_eq(name, "NcMethodDescriptor") {
        return Some(NcAnyDatatypeDescriptor::Struct(crate::descriptors::NcMethodDescriptor::get_type_descriptor(include_inherited)));
    }
    if str_eq(name, "NcEventDescriptor") {
        return Some(NcAnyDatatypeDescriptor::Struct(crate::descriptors::NcEventDescriptor::get_type_descriptor(include_inherited)));
    }
    if str_eq(name, "NcParameterDescriptor") {
        return Some(NcAnyDatatypeDescriptor::Struct(crate::descriptors::NcParameterDescriptor::get_type_descriptor(include_inherited)));
    }
    if str_eq(name, "NcClassDescriptor") {
        return Some(NcAnyDatatypeDescriptor::Struct(crate::descriptors::NcClassDescriptor::get_type_descriptor(include_inherited)));
    }
    if str_eq(name, "NcTouchpoint") {
        return Some(NcAnyDatatypeDescriptor::Struct(crate::types::NcTouchpointBase::get_type_descriptor(include_inherited)));
    }
    if str_eq(name, "NcTouchpointNmos") {
        return Some(NcAnyDatatypeDescriptor::Struct(crate::types::NcTouchpointNmos::get_type_descriptor(include_inherited)));
    }
    if str_eq(name, "NcTouchpointNmosChannelMapping") {
        return Some(NcAnyDatatypeDescriptor::Struct(crate::types::NcTouchpointNmosChannelMapping::get_type_descriptor(include_inherited)));
    }
    if str_eq(name, "NcTouchpointResource") {
        return Some(NcAnyDatatypeDescriptor::Struct(crate::types::NcTouchpointResourceBase::get_type_descriptor(include_inherited)));
    }
    if str_eq(name, "NcTouchpointResourceNmos") {
        return Some(NcAnyDatatypeDescriptor::Struct(crate::types::NcTouchpointResourceNmos::get_type_descriptor(include_inherited)));
    }
    if str_eq(name, "NcTouchpointResourceNmosChannelMapping") {
        return Some(NcAnyDatatypeDescriptor::Struct(crate::types::NcTouchpointResourceNmosChannelMapping::get_type_descriptor(include_inherited)));
    }
    if str_eq(name, "NcParameterConstraints") {
        return Some(NcAnyDatatypeDescriptor::Struct(crate::descriptors::NcParameterConstraints::get_type_descriptor(include_inherited)));
    }
    if str_eq(name, "NcParameterConstraintsNumber") {
        return Some(NcAnyDatatypeDescriptor::Struct(crate::descriptors::NcParameterConstraintsNumber::get_type_descriptor(include_inherited)));
    }
    if str_eq(name, "NcParameterConstraintsString") {
        return Some(NcAnyDatatypeDescriptor::Struct(crate::descriptors::NcParameterConstraintsString::get_type_descriptor(include_inherited)));
    }
    if str_eq(name, "NcPropertyConstraints") {
        return Some(NcAnyDatatypeDescriptor::Struct(crate::types::NcPropertyConstraintsBase::get_type_descriptor(include_inherited)));
    }
    if str_eq(name, "NcPropertyConstraintsNumber") {
        return Some(NcAnyDatatypeDescriptor::Struct(crate::types::NcPropertyConstraintsNumber::get_type_descriptor(include_inherited)));
    }
    if str_eq(name, "NcPropertyConstraintsString") {
        return Some(NcAnyDatatypeDescriptor::Struct(crate::types::NcPropertyConstraintsString::get_type_descriptor(include_inherited)));
    }
    if str_eq(name, "NcMethodResult") {
        return Some(NcAnyDatatypeDescriptor::Struct(crate::descriptors::NcMethodResult::get_type_descriptor(include_inherited)));
    }
    if str_eq(name, "NcMethodResultPropertyValue") {
        return Some(NcAnyDatatypeDescriptor::Struct(crate::descriptors::NcMethodResultPropertyValue::get_type_descriptor(include_inherited)));
    }
    if str_eq(name, "NcMethodResultError") {
        return Some(NcAnyDatatypeDescriptor::Struct(crate::descriptors::NcMethodResultError::get_type_descriptor(include_inherited)));
    }
    if str_eq(name, "NcMethodResultBlockMemberDescriptors") {
        return Some(NcAnyDatatypeDescriptor::Struct(crate::descriptors::NcMethodResultBlockMemberDescriptors::get_type_descriptor(include_inherited)));
    }
    if str_eq(name, "NcMethodResultClassDescriptor") {
        return Some(NcAnyDatatypeDescriptor::Struct(crate::descriptors::NcMethodResultClassDescriptor::get_type_descriptor(include_inherited)));
    }
    if str_eq(name, "NcMethodResultDatatypeDescriptor") {
        return Some(NcAnyDatatypeDescriptor::Struct(crate::descriptors::NcMethodResultDatatypeDescriptor::get_type_descriptor(include_inherited)));
    }
    if str_eq(name, "NcMethodResultId") {
        return Some(NcAnyDatatypeDescriptor::Struct(crate::descriptors::NcMethodResultId::get_type_descriptor(include_inherited)));
    }
    if str_eq(name, "NcMethodResultLength") {
        return Some(NcAnyDatatypeDescriptor::Struct(crate::descriptors::NcMethodResultLength::get_type_descriptor(include_inherited)));
    }
    if str_eq(name, "NcDeviceGenericState") {
        let mut items: Vec<NcEnumItemDescriptor> = Vec::new();
        items.push(make_enum_item("Unknown", 0, "Unknown"));
        items.push(make_enum_item("NormalOperation", 1, "Normal operation"));
        items.push(make_enum_item("Initializing", 2, "Initializing"));
        items.push(make_enum_item("Updating", 3, "Updating"));
        items.push(make_enum_item("LicensingError", 4, "Licensing error"));
        items.push(make_enum_item("InternalError", 5, "Internal error"));
        proof {
            assert(enum_items_view(items@) =~= seq![("Unknown"@, 0u16), ("NormalOperation"@, 1u16), ("Initializing"@, 2u16), ("Updating"@, 3u16), ("LicensingError"@, 4u16), ("InternalError"@, 5u16)]);
        }
        return Some(make_enum("NcDeviceGenericState", "Device generic state enumeration", items));
    }
    if str_eq(name, "NcPropertyChangeType") {
        let mut items: Vec<NcEnumItemDescriptor> = Vec::new();
        items.push(make_enum_item("ValueChanged", 0, "Value changed"));
        items.push(make_enum_item("SequenceItemAdded", 1, "Sequence item added"));
        items.push(make_enum_item("SequenceItemChanged", 2, "Sequence item changed"));
        items.push(make_enum_item("SequenceItemRemoved", 3, "Sequence item removed"));
        proof {
            assert(enum_items_view(items@) =~= seq![("ValueChanged"@, 0u16), ("SequenceItemAdded"@, 1u16), ("SequenceItemChanged"@, 2u16), ("SequenceItemRemoved"@, 3u16)]);
        }
        return Some(make_enum("NcPropertyChangeType", "Property change type enumeration", items));
    }
    if str_eq(name, "NcResetCause") {
        let mut items: Vec<NcEnumItemDescriptor> = Vec::new();
        items.push(make_enum_item("Unknown", 0, "Unknown"));
        items.push(make_enum_item("PowerOn", 1, "Power on"));
        items.push(make_enum_item("InternalError", 2, "Internal error"));
        items.push(make_enum_item("Upgrade", 3, "Upgrade"));
        items.push(make_enum_item("ControllerRequest", 4, "Controller request"));
        items.push(make_enum_item("ManualReset", 5, "Manual reset"));
        proof {
            assert(enum_items_view(items@) =~= seq![("Unknown"@, 0u16), ("PowerOn"@, 1u16), ("InternalError"@, 2u16), ("Upgrade"@, 3u16), ("ControllerRequest"@, 4u16), ("ManualReset"@, 5u16)]);
        }
        return Some(make_enum("NcResetCause", "Device reset cause enumeration", items));
    }
    if str_eq(name, "NcMethodStatus") {
        let mut items: Vec<NcEnumItemDescriptor> = Vec::new();
        items.push(make_enum_item("Ok", 200, "Ok"));
        items.push(make_enum_item("PropertyDeprecated", 298, "Property deprecated"));
        items.push(make_enum_item("MethodDeprecated", 299, "Method deprecated"));
        items.push(make_enum_item("BadCommandFormat", 400, "Bad command format"));
        items.push(make_enum_item("Unauthorized", 401, "Unauthorized"));
        items.push(make_enum_item("BadOid", 404, "Bad OID"));
        items.push(make_enum_item("Readonly", 405, "Readonly"));
        items.push(make_enum_item("InvalidRequest", 406, "Invalid request"));
        items.push(make_enum_item("Conflict", 409, "Conflict"));
        items.push(make_enum_item("BufferOverflow", 413, "Buffer overflow"));
        items.push(make_enum_item("IndexOutOfBounds", 414, "Index out of bounds"));
        items.push(make_enum_item("ParameterError", 417, "Parameter error"));
        items.push(make_enum_item("Locked", 423, "Locked"));
        items.push(make_enum_item("DeviceError", 500, "Device error"));
        items.push(make_enum_item("MethodNotImplemented", 501, "Method not implemented"));
        items.push(make_enum_item("PropertyNotImplemented", 502, "Property not implemented"));
        items.push(make_enum_item("NotReady", 503, "Not ready"));
        items.push(make_enum_item("Timeout", 504, "Timeout"));
        proof {
            assert(enum_items_view(items@) =~= seq![("Ok"@, 200u16), ("PropertyDeprecated"@, 298u16), ("MethodDeprecated"@, 299u16), ("BadCommandFormat"@, 400u16), ("Unauthorized"@, 401u16), ("BadOid"@, 404u16), ("Readonly"@, 405u16), ("InvalidRequest"@, 406u16), ("Conflict"@, 409u16), ("BufferOverflow"@, 413u16), ("IndexOutOfBounds"@, 414u16), ("ParameterError"@, 417u16), ("Locked"@, 423u16), ("DeviceError"@, 500u16), ("MethodNotImplemented"@, 501u16), ("PropertyNotImplemented"@, 502u16), ("NotReady"@, 503u16), ("Timeout"@, 504u16)]);
        }
        return Some(make_enum("NcMethodStatus", "Method status enumeration", items));
    }
    if str_eq(name, "NcDatatypeType") {
        let mut items: Vec<NcEnumItemDescriptor> = Vec::new();
        items.push(make_enum_item("Primitive", 0, "Primitive"));
        items.push(make_enum_item("Typedef", 1, "Typedef"));
        items.push(make_enum_item("Struct", 2, "Struct"));
        items.push(make_enum_item("Enum", 3, "Enum"));
        proof {
            assert(enum_items_view(items@) =~= seq![("Primitive"@, 0u16), ("Typedef"@, 1u16), ("Struct"@, 2u16), ("Enum"@, 3u16)]);
        }
        return Some(make_enum("NcDatatypeType", "Datatype kind enumeration", items));
    }
    if str_eq(name, "NcName") {
        return Some(make_typedef("NcName", "NcString", false, "Programmatically significant name, alphanumerics + underscore, no spaces"));
    }
    if str_eq(name, "NcRolePath") {
        return Some(make_typedef("NcRolePath", "NcString", true, "Role path"));
    }
    if str_eq(name, "NcRegex") {
        return Some(make_typedef("NcRegex", "NcString", false, "Regex pattern"));
    }
    if str_eq(name, "NcRole") {
        return Some(make_typedef("NcRole", "NcString", false, "Role string"));
    }
    if str_eq(name, "NcClassId") {
        return Some(make_typedef("NcClassId", "NcInt32", true, "Sequence of class ID fields."));
    }
    if str_eq(name, "NcId") {
        return Some(make_typedef("NcId", "NcUint32", false, "Identifier handler"));
    }
    if str_eq(name, "NcOid") {
        return Some(make_typedef("NcOid", "NcUint32", false, "Object id"));
    }
    if str_eq(name, "NcOrganizationId") {
        return Some(make_typedef("NcOrganizationId", "NcInt32", false, "Unique 24-bit organization id"));
    }
    if str_eq(name, "NcUri") {
        return Some(make_typedef("NcUri", "NcString", false, "Uniform resource identifier"));
    }
    if str_eq(name, "NcVersionCode") {
        return Some(make_typedef("NcVersionCode", "NcString", false, "Version code in semantic versioning format"));
    }
    if str_eq(name, "NcUuid") {
        return Some(make_typedef("NcUuid", "NcString", false, "UUID"));
    }
    if str_eq(name, "NcTimeInterval") {
        return Some(make_typedef("NcTimeInterval", "NcInt64", false, "Time interval described in nanoseconds"));
    }
    None
}


// ---------------------------------------------------------------------------
// Argument decoding, shared by the dispatching classes
// ---------------------------------------------------------------------------

/// An unsigned-number argument of a method call.
pub open spec fn uint_arg(args: JsonV, key: Seq<char>) -> Option<u64> {
    match jget_spec(args, key) {
        Some(v) => json_as_u64(v),
        None => None,
    }
}

/// A boolean argument of a method call.
pub open spec fn bool_arg(args: JsonV, key: Seq<char>) -> Option<bool> {
    match jget_spec(args, key) {
        Some(v) => json_as_bool(v),
        None => None,
    }
}

/// A string argument of a method call.
pub open spec fn str_arg(args: JsonV, key: Seq<char>) -> Option<Seq<char>> {
    match jget_spec(args, key) {
        Some(v) => match v {
            JsonV::Str(s) => Some(s),
            _ => None,
        },
        None => None,
    }
}

/// The element id carried in an `id` argument, as its two numbers.
pub open spec fn id_arg(args: JsonV) -> Option<(u64, u64)> {
    match jget_spec(args, "id"@) {
        Some(idv) => match (uint_arg(idv, "level"@), uint_arg(idv, "index"@)) {
            (Some(l), Some(i)) => Some((l, i)),
            _ => None,
        },
        None => None,
    }
}

/// The numbers among `items`, truncated to 32 bits; other elements are
/// passed over.
pub open spec fn u32s_of(items: Seq<JsonV>) -> Seq<u32>
    decreases items.len(),
{
    if items.len() == 0 {
        Seq::empty()
    } else {
        let rest = u32s_of(items.drop_first());
        match json_as_u64(items[0]) {
            Some(n) => if n <= u32::MAX as u64 {
                seq![n as u32] + rest
            } else {
                rest
            },
            None => rest,
        }
    }
}

/// The class id carried in a `classId` argument.
pub open spec fn class_id_arg(args: JsonV) -> Option<Seq<u32>> {
    match jget_spec(args, "classId"@) {
        Some(v) => match v {
            JsonV::Arr(items) => Some(u32s_of(items)),
            _ => None,
        },
        None => None,
    }
}

/// Reads the `id` argument as an element id pair.
pub fn decode_id_arg(args: &Json) -> (r: Option<(u64, u64)>)
    ensures
        r == id_arg(args@),
{
    match args.get("id") {
        Some(idv) => {
            let l = match idv.get("level") {
                Some(x) => x.as_u64(),
                None => None,
            };
            let i = match idv.get("index") {
                Some(x) => x.as_u64(),
                None => None,
            };
            match (l, i) {
                (Some(l), Some(i)) => Some((l, i)),
                _ => None,
            }
        },
        None => None,
    }
}

/// Reads a boolean argument.
pub fn decode_bool_arg(args: &Json, key: &str) -> (r: Option<bool>)
    ensures
        r == bool_arg(args@, key@),
{
    match args.get(key) {
        Some(v) => v.as_bool(),
        None => None,
    }
}

/// Reads an unsigned-number argument.
pub fn decode_uint_arg(args: &Json, key: &str) -> (r: Option<u64>)
    ensures
        r == uint_arg(args@, key@),
{
    match args.get(key) {
        Some(v) => v.as_u64(),
        None => None,
    }
}

fn decode_u32s(items: &Vec<Json>, i: usize) -> (r: Vec<u32>)
    requires
        i <= items@.len(),
    ensures
        r@ == u32s_of(json_view_seq(items@).skip(i as int)),
    decreases items@.len() - i,
{
    proof {
        crate::json::lemma_json_view_seq_props(items@);
    }
    if i == items.len() {
        proof {
            assert(json_view_seq(items@).skip(i as int) =~= Seq::<JsonV>::empty());
        }
        Vec::new()
    } else {
        proof {
            assert(json_view_seq(items@).skip(i as int)[0] == json_view_seq(items@)[i as int]);
            assert(json_view_seq(items@).skip(i as int).drop_first() =~= json_view_seq(
                items@,
            ).skip(i as int + 1));
        }
        let mut rest = decode_u32s(items, i + 1);
        match items[i].as_u64() {
            Some(n) => {
                if n <= u32::MAX as u64 {
                    let ghost rv = rest@;
                    rest.insert(0, n as u32);
                    proof {
                        assert(rest@ =~= seq![n as u32] + rv);
                    }
                }
                rest
            },
            None => rest,
        }
    }
}

/// Reads the `classId` argument as a class-id sequence.
pub fn decode_class_id_arg(args: &Json) -> (r: Option<Vec<u32>>)
    ensures
        match r {
            Some(v) => class_id_arg(args@) == Some(v@),
            None => class_id_arg(args@) is None,
        },
{
    match args.get("classId") {
        Some(v) => match v.as_arr() {
            Some(items) => {
                proof {
                    assert(json_view_seq(items@).skip(0) =~= json_view_seq(items@));
                }
                Some(decode_u32s(items, 0))
            },
            None => None,
        },
        None => None,
    }
}

// ---------------------------------------------------------------------------
// Invocation outcomes
// ---------------------------------------------------------------------------

/// What an invocation promises about the value it returns: an exact JSON
/// value, a class or datatype descriptor with pinned identity and element
/// lists, or no value at all.
pub enum ValueSpec {
    Exact(JsonV),
    ClassDesc(Seq<u32>, bool),
    DtDesc(Seq<char>),
    NoValue,
}

pub open spec fn invoke_value_ok(vs: ValueSpec, v: Option<Json>) -> bool {
    match vs {
        ValueSpec::Exact(jv) => v matches Some(j) && j@ == jv,
        ValueSpec::ClassDesc(cid, flat) => v matches Some(j) && (exists|d: NcClassDescriptor|
            class_desc_ok(d, cid, flat) && j@ == class_descriptor_json(d)),
        ValueSpec::DtDesc(name) => v matches Some(j) && (exists|d: NcAnyDatatypeDescriptor|
            dt_descriptor_name(d) == name && j@ == datatype_descriptor_json(d)),
        ValueSpec::NoValue => v is None,
    }
}

// ---------------------------------------------------------------------------
// Class-manager dispatch
// ---------------------------------------------------------------------------

/// The JSON value of a class-manager property: the two descriptor lists at
/// level 3, the base class otherwise.
pub open spec fn cm_prop_json(cm: NcClassManager, id: NcElementId) -> Option<JsonV> {
    if id.is(3, 1) {
        Some(
            JsonV::Arr(
                cm.control_classes@.map_values(|d: NcClassDescriptor| class_descriptor_json(d)),
            ),
        )
    } else if id.is(3, 2) {
        Some(
            JsonV::Arr(
                cm.datatypes@.map_values(|d: NcAnyDatatypeDescriptor| datatype_descriptor_json(d)),
            ),
        )
    } else {
        obj_prop_json(cm.base.base, id)
    }
}

/// Status of a class-manager property write: both level-3 properties are
/// read-only, the rest goes to the base class.
pub open spec fn cm_set_status(id: NcElementId, v: JsonV) -> NcMethodStatus {
    if id.level == 3 {
        if id.index == 1 || id.index == 2 {
            NcMethodStatus::Readonly
        } else {
            NcMethodStatus::PropertyNotImplemented
        }
    } else {
        obj_set_status(id, v)
    }
}

/// Outcome of a method call on the class manager.
pub open spec fn cm_invoke(cm: NcClassManager, method_id: NcElementId, args: JsonV) -> (
    NcMethodStatus,
    ValueSpec,
) {
    if method_id.is(1, 3) {
        match uint_arg(args, "index"@) {
            None => (NcMethodStatus::ParameterError, ValueSpec::NoValue),
            Some(idx) => match id_arg(args) {
                None => (NcMethodStatus::ParameterError, ValueSpec::NoValue),
                Some((l, i)) => if l == 3 && i == 1 {
                    if idx >= cm.control_classes@.len() {
                        (NcMethodStatus::IndexOutOfBounds, ValueSpec::NoValue)
                    } else {
                        (
                            NcMethodStatus::Okay,
                            ValueSpec::Exact(
                                class_descriptor_json(cm.control_classes@[idx as int]),
                            ),
                        )
                    }
                } else if l == 3 && i == 2 {
                    if idx >= cm.datatypes@.len() {
                        (NcMethodStatus::IndexOutOfBounds, ValueSpec::NoValue)
                    } else {
                        (
                            NcMethodStatus::Okay,
                            ValueSpec::Exact(datatype_descriptor_json(cm.datatypes@[idx as int])),
                        )
                    }
                } else {
                    (NcMethodStatus::PropertyNotImplemented, ValueSpec::NoValue)
                },
            },
        }
    } else if method_id.is(1, 7) {
        match id_arg(args) {
            None => (NcMethodStatus::ParameterError, ValueSpec::NoValue),
            Some((l, i)) => if l == 3 && i == 1 {
                (
                    NcMethodStatus::Okay,
                    ValueSpec::Exact(JsonV::UInt(cm.control_classes@.len() as u64)),
                )
            } else if l == 3 && i == 2 {
                (NcMethodStatus::Okay, ValueSpec::Exact(JsonV::UInt(cm.datatypes@.len() as u64)))
            } else {
                (NcMethodStatus::PropertyNotImplemented, ValueSpec::NoValue)
            },
        }
    } else if method_id.is(3, 1) {
        match class_id_arg(args) {
            None => (NcMethodStatus::InvalidRequest, ValueSpec::NoValue),
            Some(cid) => match bool_arg(args, "includeInherited"@) {
                None => (NcMethodStatus::InvalidRequest, ValueSpec::NoValue),
                Some(inh) => if class_known(cid) {
                    (NcMethodStatus::Okay, ValueSpec::ClassDesc(cid, inh))
                } else {
                    (NcMethodStatus::InvalidRequest, ValueSpec::NoValue)
                },
            },
        }
    } else if method_id.is(3, 2) {
        match str_arg(args, "name"@) {
            None => (NcMethodStatus::InvalidRequest, ValueSpec::NoValue),
            Some(name) => match bool_arg(args, "includeInherited"@) {
                None => (NcMethodStatus::InvalidRequest, ValueSpec::NoValue),
                Some(inh) => if dt_known(name) {
                    (NcMethodStatus::Okay, ValueSpec::DtDesc(name))
                } else {
                    (NcMethodStatus::InvalidRequest, ValueSpec::NoValue)
                },
            },
        }
    } else {
        (NcMethodStatus::MethodNotImplemented, ValueSpec::NoValue)
    }
}

impl NcClassManager {
    /// A class manager with the full descriptor registries populated.
    pub fn new(
        oid: u64,
        constant_oid: bool,
        owner: Option<u64>,
        role: &str,
        user_label: Option<&str>,
        touchpoints: Option<Vec<NcTouchpoint>>,
        runtime_property_constraints: Option<Vec<NcPropertyConstraints>>,
    ) -> (r: NcClassManager)
        ensures
            r.base.base.class_id@ == seq![1u32, 3u32, 2u32],
            r.base.base.oid == oid,
            r.base.base.constant_oid == constant_oid,
            r.base.base.owner == owner,
            r.base.base.role@ == role@,
            r.control_classes@.len() == 5,
            class_desc_ok(r.control_classes@[0], seq![1u32], false),
            class_desc_ok(r.control_classes@[1], seq![1u32, 1u32], false),
            class_desc_ok(r.control_classes@[2], seq![1u32, 3u32], false),
            class_desc_ok(r.control_classes@[3], seq![1u32, 3u32, 1u32], false),
            class_desc_ok(r.control_classes@[4], seq![1u32, 3u32, 2u32], false),
            dt_names(r.datatypes@) == registry_datatype_names(),
    {
        let mut class_id: Vec<u32> = Vec::new();
        class_id.push(1);
        class_id.push(3);
        class_id.push(2);
        proof {
            assert(class_id@ =~= seq![1u32, 3u32, 2u32]);
        }
        NcClassManager {
            base: NcManager::new(
                class_id,
                oid,
                constant_oid,
                owner,
                role,
                user_label,
                touchpoints,
                runtime_property_constraints,
            ),
            control_classes: generate_class_descriptors(),
            datatypes: generate_type_descriptors(),
        }
    }

    /// The descriptor of a known control class: its own elements, or the
    /// flattened lists when `include_inherited` is set.
    pub fn get_control_class_descriptor(class_id: &Vec<u32>, include_inherited: bool) -> (r:
        Option<NcClassDescriptor>)
        ensures
            match r {
                Some(d) => class_known(class_id@) && class_desc_ok(
                    d,
                    class_id@,
                    include_inherited,
                ),
                None => !class_known(class_id@),
            },
    {
        if class_id.len() == 1 && class_id[0] == 1 {
            proof {
                assert(class_id@ =~= seq![1u32]);
            }
            Some(crate::object::NcObject::get_class_descriptor(include_inherited))
        } else if class_id.len() == 2 && class_id[0] == 1 && class_id[1] == 1 {
            proof {
                assert(class_id@ =~= seq![1u32, 1u32]);
            }
            Some(crate::block::NcBlock::get_class_descriptor(include_inherited))
        } else if class_id.len() == 2 && class_id[0] == 1 && class_id[1] == 3 {
            proof {
                assert(class_id@ =~= seq![1u32, 3u32]);
            }
            Some(crate::manager::NcManager::get_class_descriptor(include_inherited))
        } else if class_id.len() == 3 && class_id[0] == 1 && class_id[1] == 3 && class_id[2]
            == 1 {
            proof {
                assert(class_id@ =~= seq![1u32, 3u32, 1u32]);
            }
            Some(crate::device_manager::NcDeviceManager::get_class_descriptor(include_inherited))
        } else if class_id.len() == 3 && class_id[0] == 1 && class_id[1] == 3 && class_id[2]
            == 2 {
            proof {
                assert(class_id@ =~= seq![1u32, 3u32, 2u32]);
            }
            Some(NcClassManager::get_class_descriptor(include_inherited))
        } else {
            proof {
                assert(class_id@ != seq![1u32]);
                assert(class_id@ != seq![1u32, 1u32]);
                assert(class_id@ != seq![1u32, 3u32]);
                assert(class_id@ != seq![1u32, 3u32, 1u32]);
                assert(class_id@ != seq![1u32, 3u32, 2u32]);
            }
            None
        }
    }

    /// The descriptor of a known datatype; struct types honour
    /// `include_inherited`.
    pub fn get_datatype_descriptor(name: &str, include_inherited: bool) -> (r: Option<
        NcAnyDatatypeDescriptor,
    >)
        ensures
            match r {
                Some(d) => dt_known(name@) && dt_descriptor_name(d) == name@ && (dt_shape_of(
                    name@,
                ) matches Some(shape) && dt_shape_ok(d, shape)),
                None => !dt_known(name@),
            },
            r matches Some(NcAnyDatatypeDescriptor::Struct(s)) ==> Some(
                crate::registry::field_names(s.fields@),
            ) == struct_fields_of(name@, include_inherited),
    {
        build_datatype(name, include_inherited)
    }

    pub fn get_property(&self, oid: u64, id_args: &IdArgs) -> (r: (
        Option<String>,
        Json,
        NcMethodStatus,
    ))
        ensures
            match cm_prop_json(*self, id_args.id) {
                Some(v) => r.0 is None && r.1@ == v && r.2 == NcMethodStatus::Okay,
                None => r.0 is Some && r.1@ == JsonV::Null && r.2
                    == NcMethodStatus::PropertyNotImplemented,
            },
    {
        let id = id_args.id;
        if id.level == 3 && id.index == 1 {
            (None, self.control_classes_json(), NcMethodStatus::Okay)
        } else if id.level == 3 && id.index == 2 {
            (None, self.datatypes_json(), NcMethodStatus::Okay)
        } else {
            self.base.get_property(oid, id_args)
        }
    }

    /// The control-class list as a JSON array.
    fn control_classes_json(&self) -> (r: Json)
        ensures
            r@ == JsonV::Arr(
                self.control_classes@.map_values(|d: NcClassDescriptor| class_descriptor_json(d)),
            ),
    {
        let mut items: Vec<Json> = Vec::new();
        let mut i: usize = 0;
        while i < self.control_classes.len()
            invariant
                i <= self.control_classes@.len(),
                json_view_seq(items@) == self.control_classes@.take(i as int).map_values(
                    |d: NcClassDescriptor| class_descriptor_json(d),
                ),
            decreases self.control_classes@.len() - i,
        {
            japp(&mut items, self.control_classes[i].to_json());
            proof {
                assert(self.control_classes@.take(i as int + 1).map_values(
                    |d: NcClassDescriptor| class_descriptor_json(d),
                ) =~= self.control_classes@.take(i as int).map_values(
                    |d: NcClassDescriptor| class_descriptor_json(d),
                ) + seq![class_descriptor_json(self.control_classes@[i as int])]);
            }
            i = i + 1;
        }
        proof {
            assert(self.control_classes@.take(self.control_classes@.len() as int)
                =~= self.control_classes@);
        }
        Json::Arr(items)
    }

    /// The datatype list as a JSON array.
    fn datatypes_json(&self) -> (r: Json)
        ensures
            r@ == JsonV::Arr(
                self.datatypes@.map_values(
                    |d: NcAnyDatatypeDescriptor| datatype_descriptor_json(d),
                ),
            ),
    {
        let mut items: Vec<Json> = Vec::new();
        let mut i: usize = 0;
        while i < self.datatypes.len()
            invariant
                i <= self.datatypes@.len(),
                json_view_seq(items@) == self.datatypes@.take(i as int).map_values(
                    |d: NcAnyDatatypeDescriptor| datatype_descriptor_json(d),
                ),
            decreases self.datatypes@.len() - i,
        {
            japp(&mut items, self.datatypes[i].to_json());
            proof {
                assert(self.datatypes@.take(i as int + 1).map_values(
                    |d: NcAnyDatatypeDescriptor| datatype_descriptor_json(d),
                ) =~= self.datatypes@.take(i as int).map_values(
                    |d: NcAnyDatatypeDescriptor| datatype_descriptor_json(d),
                ) + seq![datatype_descriptor_json(self.datatypes@[i as int])]);
            }
            i = i + 1;
        }
        proof {
            assert(self.datatypes@.take(self.datatypes@.len() as int) =~= self.datatypes@);
        }
        Json::Arr(items)
    }

    pub fn set_property(
        &mut self,
        oid: u64,
        id_args_value: IdArgsValue,
        events: &mut Vec<PropertyChangedEvent>,
    ) -> (r: (Option<String>, NcMethodStatus))
        ensures
            r.1 == cm_set_status(id_args_value.id, id_args_value.value@),
            r.1 != NcMethodStatus::Okay ==> *final(self) == *old(self) && final(events)@ == old(
                events,
            )@,
            (r.0 is None) <==> (r.1 == NcMethodStatus::Okay),
            r.1 == NcMethodStatus::Okay ==> {
                &&& view_opt_str(final(self).base.base.user_label) == obj_label_after(id_args_value.value@)
                &&& *final(self) == (NcClassManager {
                    base: NcManager {
                        base: (NcObject {
                            user_label: final(self).base.base.user_label,
                            ..old(self).base.base
                        }),
                    },
                    ..*old(self)
                })
                &&& emitted(
                    old(events)@,
                    final(events)@,
                    value_changed_event(
                        old(self).base.base.oid,
                        id_args_value.id,
                        id_args_value.value@,
                    ),
                )
            },
    {
        if id_args_value.id.level == 3 {
            if id_args_value.id.index == 1 || id_args_value.id.index == 2 {
                (Some("Property is readonly".to_owned()), NcMethodStatus::Readonly)
            } else {
                (
                    Some("Could not find the property or it is read-only".to_owned()),
                    NcMethodStatus::PropertyNotImplemented,
                )
            }
        } else {
            self.base.set_property(oid, id_args_value, events)
        }
    }

    /// Invokes a class-manager method: the sequence operations on the two
    /// descriptor lists, and the two introspection calls.
    pub fn invoke_method(&self, _oid: u64, method_id: NcElementId, args: &Json) -> (r: (
        Option<String>,
        Option<Json>,
        NcMethodStatus,
    ))
        ensures
            ({
                let (st, vs) = cm_invoke(*self, method_id, args@);
                r.2 == st && invoke_value_ok(vs, r.1) && ((r.0 is None) <==> st
                    == NcMethodStatus::Okay)
            }),
    {
        if method_id.level == 1 && method_id.index == 3 {
            match decode_uint_arg(args, "index") {
                None => (
                    Some("Invalid index argument".to_owned()),
                    None,
                    NcMethodStatus::ParameterError,
                ),
                Some(idx) => {
                    match decode_id_arg(args) {
                        None => (
                            Some("Invalid id argument".to_owned()),
                            None,
                            NcMethodStatus::ParameterError,
                        ),
                        Some((l, i)) => {
                            if l == 3 && i == 1 {
                                if idx >= self.control_classes.len() as u64 {
                                    (
                                        Some("Index out of bounds for controlClasses sequence"
                                            .to_owned()),
                                        None,
                                        NcMethodStatus::IndexOutOfBounds,
                                    )
                                } else {
                                    (
                                        None,
                                        Some(self.control_classes[idx as usize].to_json()),
                                        NcMethodStatus::Okay,
                                    )
                                }
                            } else if l == 3 && i == 2 {
                                if idx >= self.datatypes.len() as u64 {
                                    (
                                        Some("Index out of bounds for datatypes sequence"
                                            .to_owned()),
                                        None,
                                        NcMethodStatus::IndexOutOfBounds,
                                    )
                                } else {
                                    (
                                        None,
                                        Some(self.datatypes[idx as usize].to_json()),
                                        NcMethodStatus::Okay,
                                    )
                                }
                            } else {
                                (
                                    Some("Property is not a sequence".to_owned()),
                                    None,
                                    NcMethodStatus::PropertyNotImplemented,
                                )
                            }
                        },
                    }
                },
            }
        } else if method_id.level == 1 && method_id.index == 7 {
            match decode_id_arg(args) {
                None => (
                    Some("Invalid id argument".to_owned()),
                    None,
                    NcMethodStatus::ParameterError,
                ),
                Some((l, i)) => {
                    if l == 3 && i == 1 {
                        (
                            None,
                            Some(Json::UInt(self.control_classes.len() as u64)),
                            NcMethodStatus::Okay,
                        )
                    } else if l == 3 && i == 2 {
                        (
                            None,
                            Some(Json::UInt(self.datatypes.len() as u64)),
                            NcMethodStatus::Okay,
                        )
                    } else {
                        (
                            Some("Property is not a sequence".to_owned()),
                            None,
                            NcMethodStatus::PropertyNotImplemented,
                        )
                    }
                },
            }
        } else if method_id.level == 3 && method_id.index == 1 {
            match decode_class_id_arg(args) {
                None => (
                    Some("No class identity has been provided".to_owned()),
                    None,
                    NcMethodStatus::InvalidRequest,
                ),
                Some(cid) => match decode_bool_arg(args, "includeInherited") {
                    None => (
                        Some("No includeInherited argument provided".to_owned()),
                        None,
                        NcMethodStatus::InvalidRequest,
                    ),
                    Some(inh) => match NcClassManager::get_control_class_descriptor(&cid, inh) {
                        Some(d) => (None, Some(d.to_json()), NcMethodStatus::Okay),
                        None => (
                            Some("Descriptor for class could not be found".to_owned()),
                            None,
                            NcMethodStatus::InvalidRequest,
                        ),
                    },
                },
            }
        } else if method_id.level == 3 && method_id.index == 2 {
            match args.get("name") {
                None => (
                    Some("No name argument has been provided".to_owned()),
                    None,
                    NcMethodStatus::InvalidRequest,
                ),
                Some(nv) => match nv.as_str_opt() {
                    None => (
                        Some("No name argument has been provided".to_owned()),
                        None,
                        NcMethodStatus::InvalidRequest,
                    ),
                    Some(name) => {
                        let name = name.clone();
                        match decode_bool_arg(args, "includeInherited") {
                            None => (
                                Some("No includeInherited argument provided".to_owned()),
                                None,
                                NcMethodStatus::InvalidRequest,
                            ),
                            Some(inh) => match NcClassManager::get_datatype_descriptor(
                                name.as_str(),
                                inh,
                            ) {
                                Some(d) => (None, Some(d.to_json()), NcMethodStatus::Okay),
                                None => (
                                    Some("Descriptor for type could not be found".to_owned()),
                                    None,
                                    NcMethodStatus::InvalidRequest,
                                ),
                            },
                        }
                    },
                },
            }
        } else {
            self.base.invoke_method(_oid, method_id, args)
        }
    }
}

} // verus!
