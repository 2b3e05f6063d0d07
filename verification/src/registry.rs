//! Static builders of the datatype registry: every datatype descriptor the
//! class manager serves, in its non-inherited form, and with parent fields
//! inlined when asked for.

use vstd::prelude::*;
use crate::json::str_eq;
use crate::descriptors::{
    NcDescriptor, NcFieldDescriptor, NcDatatypeDescriptor, NcDatatypeDescriptorStruct,
    NcDatatypeDescriptorTypeDef, NcDatatypeDescriptorEnum, NcEnumItemDescriptor,
    NcAnyDatatypeDescriptor, NcClassDescriptor, NcMethodDescriptor, NcParameterDescriptor,
    NcEventDescriptor, NcPropertyDescriptor, NcParameterConstraints,
    NcParameterConstraintsNumber, NcParameterConstraintsString, NcMethodResult,
    NcMethodResultPropertyValue, NcMethodResultError, NcMethodResultBlockMemberDescriptors,
    NcMethodResultClassDescriptor, NcMethodResultDatatypeDescriptor, NcMethodResultId,
    NcMethodResultLength,
};
use crate::types::NcDatatypeType;
use crate::types::view_opt_str;

verus! {

broadcast use vstd::std_specs::vec::group_vec_axioms, vstd::seq::group_seq_axioms;

/// The field names of a struct descriptor, in order.
pub open spec fn field_names(s: Seq<NcFieldDescriptor>) -> Seq<Seq<char>> {
    s.map_values(|f: NcFieldDescriptor| f.name@)
}

pub proof fn lemma_field_names_concat(a: Seq<NcFieldDescriptor>, b: Seq<NcFieldDescriptor>)
    ensures
        field_names(a + b) == field_names(a) + field_names(b),
{
    assert(field_names(a + b) =~= field_names(a) + field_names(b));
}

/// One field descriptor without constraints.
fn fld(desc: Option<&str>, name: &str, ty: Option<&str>, nullable: bool, sequence: bool) -> (r:
    NcFieldDescriptor)
    ensures
        r.name@ == name@,
{
    NcFieldDescriptor {
        base: NcDescriptor {
            description: match desc {
                Some(d) => Some(d.to_owned()),
                None => None,
            },
        },
        name: name.to_owned(),
        ty_name: match ty {
            Some(t) => Some(t.to_owned()),
            None => None,
        },
        is_nullable: nullable,
        is_sequence: sequence,
        constraints: None,
    }
}

fn dt_struct_base(desc: &str, name: &str) -> (r: NcDatatypeDescriptor)
    ensures
        r.name@ == name@,
        r.type_kind == NcDatatypeType::Struct,
{
    NcDatatypeDescriptor {
        base: NcDescriptor { description: Some(desc.to_owned()) },
        name: name.to_owned(),
        type_kind: NcDatatypeType::Struct,
        constraints: None,
    }
}

pub open spec fn nc_touchpoint_resource_field_names() -> Seq<Seq<char>> {
    seq!["resourceType"@]
}

pub open spec fn nc_touchpoint_resource_all_field_names() -> Seq<Seq<char>> {
    nc_touchpoint_resource_field_names()
}

pub open spec fn nc_touchpoint_resource_nmos_field_names() -> Seq<Seq<char>> {
    seq!["id"@]
}

pub open spec fn nc_touchpoint_resource_nmos_all_field_names() -> Seq<Seq<char>> {
    nc_touchpoint_resource_nmos_field_names() + nc_touchpoint_resource_all_field_names()
}

pub open spec fn nc_touchpoint_resource_nmos_channel_mapping_field_names() -> Seq<Seq<char>> {
    seq!["ioId"@]
}

pub open spec fn nc_touchpoint_resource_nmos_channel_mapping_all_field_names() -> Seq<Seq<char>> {
    nc_touchpoint_resource_nmos_channel_mapping_field_names() + nc_touchpoint_resource_nmos_all_field_names()
}

pub open spec fn nc_touchpoint_field_names() -> Seq<Seq<char>> {
    seq!["contextNamespace"@]
}

pub open spec fn nc_touchpoint_all_field_names() -> Seq<Seq<char>> {
    nc_touchpoint_field_names()
}

pub open spec fn nc_touchpoint_nmos_field_names() -> Seq<Seq<char>> {
    seq!["resource"@]
}

pub open spec fn nc_touchpoint_nmos_all_field_names() -> Seq<Seq<char>> {
    nc_touchpoint_nmos_field_names() + nc_touchpoint_all_field_names()
}

pub open spec fn nc_touchpoint_nmos_channel_mapping_field_names() -> Seq<Seq<char>> {
    seq!["resource"@]
}

pub open spec fn nc_touchpoint_nmos_channel_mapping_all_field_names() -> Seq<Seq<char>> {
    nc_touchpoint_nmos_channel_mapping_field_names() + nc_touchpoint_all_field_names()
}

pub open spec fn nc_descriptor_field_names() -> Seq<Seq<char>> {
    seq!["description"@]
}

pub open spec fn nc_descriptor_all_field_names() -> Seq<Seq<char>> {
    nc_descriptor_field_names()
}

pub open spec fn nc_block_member_descriptor_field_names() -> Seq<Seq<char>> {
    seq!["role"@, "oid"@, "constantOid"@, "classId"@, "userLabel"@, "owner"@]
}

pub open spec fn nc_block_member_descriptor_all_field_names() -> Seq<Seq<char>> {
    nc_block_member_descriptor_field_names() + nc_descriptor_all_field_names()
}

pub open spec fn nc_class_descriptor_field_names() -> Seq<Seq<char>> {
    seq!["classId"@, "name"@, "fixedRole"@, "properties"@, "methods"@, "events"@]
}

pub open spec fn nc_class_descriptor_all_field_names() -> Seq<Seq<char>> {
    nc_class_descriptor_field_names() + nc_descriptor_all_field_names()
}

pub open spec fn nc_datatype_descriptor_field_names() -> Seq<Seq<char>> {
    seq!["name"@, "type"@, "constraints"@]
}

pub open spec fn nc_datatype_descriptor_all_field_names() -> Seq<Seq<char>> {
    nc_datatype_descriptor_field_names() + nc_descriptor_all_field_names()
}

pub open spec fn nc_datatype_descriptor_primitive_field_names() -> Seq<Seq<char>> {
    Seq::empty()
}

pub open spec fn nc_datatype_descriptor_primitive_all_field_names() -> Seq<Seq<char>> {
    nc_datatype_descriptor_primitive_field_names() + nc_datatype_descriptor_all_field_names()
}

pub open spec fn nc_datatype_descriptor_type_def_field_names() -> Seq<Seq<char>> {
    seq!["parentType"@, "isSequence"@]
}

pub open spec fn nc_datatype_descriptor_type_def_all_field_names() -> Seq<Seq<char>> {
    nc_datatype_descriptor_type_def_field_names() + nc_datatype_descriptor_all_field_names()
}

pub open spec fn nc_datatype_descriptor_struct_field_names() -> Seq<Seq<char>> {
    seq!["fields"@, "parentType"@]
}

pub open spec fn nc_datatype_descriptor_struct_all_field_names() -> Seq<Seq<char>> {
    nc_datatype_descriptor_struct_field_names() + nc_datatype_descriptor_all_field_names()
}

pub open spec fn nc_datatype_descriptor_enum_field_names() -> Seq<Seq<char>> {
    seq!["items"@]
}

pub open spec fn nc_datatype_descriptor_enum_all_field_names() -> Seq<Seq<char>> {
    nc_datatype_descriptor_enum_field_names() + nc_datatype_descriptor_all_field_names()
}

pub open spec fn nc_field_descriptor_field_names() -> Seq<Seq<char>> {
    seq!["name"@, "typeName"@, "isNullable"@, "isSequence"@, "constraints"@]
}

pub open spec fn nc_field_descriptor_all_field_names() -> Seq<Seq<char>> {
    nc_field_descriptor_field_names() + nc_descriptor_all_field_names()
}

pub open spec fn nc_enum_item_descriptor_field_names() -> Seq<Seq<char>> {
    seq!["name"@, "value"@]
}

pub open spec fn nc_enum_item_descriptor_all_field_names() -> Seq<Seq<char>> {
    nc_enum_item_descriptor_field_names() + nc_descriptor_all_field_names()
}

pub open spec fn nc_event_descriptor_field_names() -> Seq<Seq<char>> {
    seq!["id"@, "name"@, "eventDatatype"@, "isDeprecated"@]
}

pub open spec fn nc_event_descriptor_all_field_names() -> Seq<Seq<char>> {
    nc_event_descriptor_field_names() + nc_descriptor_all_field_names()
}

pub open spec fn nc_method_descriptor_field_names() -> Seq<Seq<char>> {
    seq!["id"@, "name"@, "resultDatatype"@, "parameters"@, "isDeprecated"@]
}

pub open spec fn nc_method_descriptor_all_field_names() -> Seq<Seq<char>> {
    nc_method_descriptor_field_names() + nc_descriptor_all_field_names()
}

pub open spec fn nc_parameter_descriptor_field_names() -> Seq<Seq<char>> {
    seq!["name"@, "typeName"@, "isNullable"@, "isSequence"@, "constraints"@]
}

pub open spec fn nc_parameter_descriptor_all_field_names() -> Seq<Seq<char>> {
    nc_parameter_descriptor_field_names() + nc_descriptor_all_field_names()
}

pub open spec fn nc_property_descriptor_field_names() -> Seq<Seq<char>> {
    seq!["id"@, "name"@, "typeName"@, "isReadOnly"@, "isNullable"@, "isSequence"@, "isDeprecated"@, "constraints"@]
}

pub open spec fn nc_property_descriptor_all_field_names() -> Seq<Seq<char>> {
    nc_property_descriptor_field_names() + nc_descriptor_all_field_names()
}

pub open spec fn nc_parameter_constraints_field_names() -> Seq<Seq<char>> {
    seq!["defaultValue"@]
}

pub open spec fn nc_parameter_constraints_all_field_names() -> Seq<Seq<char>> {
    nc_parameter_constraints_field_names()
}

pub open spec fn nc_parameter_constraints_number_field_names() -> Seq<Seq<char>> {
    seq!["maximum"@, "minimum"@, "step"@]
}

pub open spec fn nc_parameter_constraints_number_all_field_names() -> Seq<Seq<char>> {
    nc_parameter_constraints_number_field_names() + nc_parameter_constraints_all_field_names()
}

pub open spec fn nc_parameter_constraints_string_field_names() -> Seq<Seq<char>> {
    seq!["maxCharacters"@, "pattern"@]
}

pub open spec fn nc_parameter_constraints_string_all_field_names() -> Seq<Seq<char>> {
    nc_parameter_constraints_string_field_names() + nc_parameter_constraints_all_field_names()
}

pub open spec fn nc_element_id_field_names() -> Seq<Seq<char>> {
    seq!["level"@, "index"@]
}

pub open spec fn nc_element_id_all_field_names() -> Seq<Seq<char>> {
    nc_element_id_field_names()
}

pub open spec fn nc_property_id_field_names() -> Seq<Seq<char>> {
    Seq::empty()
}

pub open spec fn nc_property_id_all_field_names() -> Seq<Seq<char>> {
    nc_property_id_field_names() + nc_element_id_all_field_names()
}

pub open spec fn nc_method_id_field_names() -> Seq<Seq<char>> {
    Seq::empty()
}

pub open spec fn nc_method_id_all_field_names() -> Seq<Seq<char>> {
    nc_method_id_field_names() + nc_element_id_all_field_names()
}

pub open spec fn nc_event_id_field_names() -> Seq<Seq<char>> {
    Seq::empty()
}

pub open spec fn nc_event_id_all_field_names() -> Seq<Seq<char>> {
    nc_event_id_field_names() + nc_element_id_all_field_names()
}

pub open spec fn nc_manufacturer_field_names() -> Seq<Seq<char>> {
    seq!["name"@, "organizationId"@, "website"@]
}

pub open spec fn nc_manufacturer_all_field_names() -> Seq<Seq<char>> {
    nc_manufacturer_field_names()
}

pub open spec fn nc_product_field_names() -> Seq<Seq<char>> {
    seq!["name"@, "key"@, "revisionLevel"@, "brandName"@, "uuid"@, "description"@]
}

pub open spec fn nc_product_all_field_names() -> Seq<Seq<char>> {
    nc_product_field_names()
}

pub open spec fn nc_device_operational_state_field_names() -> Seq<Seq<char>> {
    seq!["generic"@, "deviceSpecificDetails"@]
}

pub open spec fn nc_device_operational_state_all_field_names() -> Seq<Seq<char>> {
    nc_device_operational_state_field_names()
}

pub open spec fn nc_property_changed_event_data_field_names() -> Seq<Seq<char>> {
    seq!["propertyId"@, "changeType"@, "value"@, "sequenceItemIndex"@]
}

pub open spec fn nc_property_changed_event_data_all_field_names() -> Seq<Seq<char>> {
    nc_property_changed_event_data_field_names()
}

pub open spec fn nc_method_result_field_names() -> Seq<Seq<char>> {
    seq!["status"@]
}

pub open spec fn nc_method_result_all_field_names() -> Seq<Seq<char>> {
    nc_method_result_field_names()
}

pub open spec fn nc_method_result_property_value_field_names() -> Seq<Seq<char>> {
    seq!["value"@]
}

pub open spec fn nc_method_result_property_value_all_field_names() -> Seq<Seq<char>> {
    nc_method_result_property_value_field_names() + nc_method_result_all_field_names()
}

pub open spec fn nc_method_result_block_member_descriptors_field_names() -> Seq<Seq<char>> {
    seq!["value"@]
}

pub open spec fn nc_method_result_block_member_descriptors_all_field_names() -> Seq<Seq<char>> {
    nc_method_result_block_member_descriptors_field_names() + nc_method_result_all_field_names()
}

pub open spec fn nc_method_result_class_descriptor_field_names() -> Seq<Seq<char>> {
    seq!["value"@]
}

pub open spec fn nc_method_result_class_descriptor_all_field_names() -> Seq<Seq<char>> {
    nc_method_result_class_descriptor_field_names() + nc_method_result_all_field_names()
}

pub open spec fn nc_method_result_datatype_descriptor_field_names() -> Seq<Seq<char>> {
    seq!["value"@]
}

pub open spec fn nc_method_result_datatype_descriptor_all_field_names() -> Seq<Seq<char>> {
    nc_method_result_datatype_descriptor_field_names() + nc_method_result_all_field_names()
}

pub open spec fn nc_method_result_id_field_names() -> Seq<Seq<char>> {
    seq!["value"@]
}

pub open spec fn nc_method_result_id_all_field_names() -> Seq<Seq<char>> {
    nc_method_result_id_field_names() + nc_method_result_all_field_names()
}

pub open spec fn nc_method_result_length_field_names() -> Seq<Seq<char>> {
    seq!["value"@]
}

pub open spec fn nc_method_result_length_all_field_names() -> Seq<Seq<char>> {
    nc_method_result_length_field_names() + nc_method_result_all_field_names()
}

pub open spec fn nc_method_result_error_field_names() -> Seq<Seq<char>> {
    seq!["errorMessage"@]
}

pub open spec fn nc_method_result_error_all_field_names() -> Seq<Seq<char>> {
    nc_method_result_error_field_names() + nc_method_result_all_field_names()
}

pub open spec fn nc_property_constraints_field_names() -> Seq<Seq<char>> {
    seq!["propertyId"@, "defaultValue"@]
}

pub open spec fn nc_property_constraints_all_field_names() -> Seq<Seq<char>> {
    nc_property_constraints_field_names()
}

pub open spec fn nc_property_constraints_number_field_names() -> Seq<Seq<char>> {
    seq!["maximum"@, "minimum"@, "step"@]
}

pub open spec fn nc_property_constraints_number_all_field_names() -> Seq<Seq<char>> {
    nc_property_constraints_number_field_names() + nc_property_constraints_all_field_names()
}

pub open spec fn nc_property_constraints_string_field_names() -> Seq<Seq<char>> {
    seq!["maxCharacters"@, "pattern"@]
}

pub open spec fn nc_property_constraints_string_all_field_names() -> Seq<Seq<char>> {
    nc_property_constraints_string_field_names() + nc_property_constraints_all_field_names()
}

impl crate::types::NcTouchpointResourceBase {
    /// The registry descriptor of the `NcTouchpointResource` datatype; with
    /// `include_inherited`, the parent's fields follow its own.
    pub fn get_type_descriptor(include_inherited: bool) -> (r: NcDatatypeDescriptorStruct)
        ensures
            r.base.name@ == "NcTouchpointResource"@,
            r.base.type_kind == NcDatatypeType::Struct,
            view_opt_str(r.parent_type) == None::<Seq<char>>,
            field_names(r.fields@) == nc_touchpoint_resource_field_names() + (if include_inherited {
                Seq::<Seq<char>>::empty()
            } else {
                Seq::<Seq<char>>::empty()
            }),
    {
        let mut fields: Vec<NcFieldDescriptor> = Vec::new();
        fields.push(fld(None, "resourceType", Some("NcString"), false, false));
        proof {
            assert(field_names(fields@) =~= nc_touchpoint_resource_field_names());
        }
        let mut d = NcDatatypeDescriptorStruct {
            base: dt_struct_base("Touchpoint resource", "NcTouchpointResource"),
            fields,
            parent_type: None,
        };
        proof {
            assert(field_names(d.fields@) =~= field_names(d.fields@) + Seq::<Seq<char>>::empty());
        }
        d
    }
}

impl crate::types::NcTouchpointResourceNmos {
    /// The registry descriptor of the `NcTouchpointResourceNmos` datatype; with
    /// `include_inherited`, the parent's fields follow its own.
    pub fn get_type_descriptor(include_inherited: bool) -> (r: NcDatatypeDescriptorStruct)
        ensures
            r.base.name@ == "NcTouchpointResourceNmos"@,
            r.base.type_kind == NcDatatypeType::Struct,
            view_opt_str(r.parent_type) == Some("NcTouchpointResource"@),
            field_names(r.fields@) == nc_touchpoint_resource_nmos_field_names() + (if include_inherited {
                (nc_touchpoint_resource_all_field_names())
            } else {
                Seq::<Seq<char>>::empty()
            }),
    {
        let mut fields: Vec<NcFieldDescriptor> = Vec::new();
        fields.push(fld(None, "id", Some("NcUuid"), false, false));
        proof {
            assert(field_names(fields@) =~= nc_touchpoint_resource_nmos_field_names());
        }
        let mut d = NcDatatypeDescriptorStruct {
            base: dt_struct_base("Touchpoint NMOS resource", "NcTouchpointResourceNmos"),
            fields,
            parent_type: Some("NcTouchpointResource".to_owned()),
        };
        if include_inherited {
            let parent = crate::types::NcTouchpointResourceBase::get_type_descriptor(true);
            let ghost own = d.fields@;
            let mut pf = parent.fields;
            let ghost pf0 = pf@;
            d.fields.append(&mut pf);
            proof {
                lemma_field_names_concat(own, pf0);
            }
        } else {
            proof {
                assert(field_names(d.fields@) =~= field_names(d.fields@) + Seq::<
                    Seq<char>,
                >::empty());
            }
        }
        d
    }
}

impl crate::types::NcTouchpointResourceNmosChannelMapping {
    /// The registry descriptor of the `NcTouchpointResourceNmosChannelMapping` datatype; with
    /// `include_inherited`, the parent's fields follow its own.
    pub fn get_type_descriptor(include_inherited: bool) -> (r: NcDatatypeDescriptorStruct)
        ensures
            r.base.name@ == "NcTouchpointResourceNmosChannelMapping"@,
            r.base.type_kind == NcDatatypeType::Struct,
            view_opt_str(r.parent_type) == Some("NcTouchpointResourceNmos"@),
            field_names(r.fields@) == nc_touchpoint_resource_nmos_channel_mapping_field_names() + (if include_inherited {
                (nc_touchpoint_resource_nmos_all_field_names())
            } else {
                Seq::<Seq<char>>::empty()
            }),
    {
        let mut fields: Vec<NcFieldDescriptor> = Vec::new();
        fields.push(fld(None, "ioId", Some("NcString"), false, false));
        proof {
            assert(field_names(fields@) =~= nc_touchpoint_resource_nmos_channel_mapping_field_names());
        }
        let mut d = NcDatatypeDescriptorStruct {
            base: dt_struct_base("Touchpoint NMOS channel mapping resource", "NcTouchpointResourceNmosChannelMapping"),
            fields,
            parent_type: Some("NcTouchpointResourceNmos".to_owned()),
        };
        if include_inherited {
            let parent = crate::types::NcTouchpointResourceNmos::get_type_descriptor(true);
            let ghost own = d.fields@;
            let mut pf = parent.fields;
            let ghost pf0 = pf@;
            d.fields.append(&mut pf);
            proof {
                lemma_field_names_concat(own, pf0);
            }
        } else {
            proof {
                assert(field_names(d.fields@) =~= field_names(d.fields@) + Seq::<
                    Seq<char>,
                >::empty());
            }
        }
        d
    }
}

impl crate::types::NcTouchpointBase {
    /// The registry descriptor of the `NcTouchpoint` datatype; with
    /// `include_inherited`, the parent's fields follow its own.
    pub fn get_type_descriptor(include_inherited: bool) -> (r: NcDatatypeDescriptorStruct)
        ensures
            r.base.name@ == "NcTouchpoint"@,
            r.base.type_kind == NcDatatypeType::Struct,
            view_opt_str(r.parent_type) == None::<Seq<char>>,
            field_names(r.fields@) == nc_touchpoint_field_names() + (if include_inherited {
                Seq::<Seq<char>>::empty()
            } else {
                Seq::<Seq<char>>::empty()
            }),
    {
        let mut fields: Vec<NcFieldDescriptor> = Vec::new();
        fields.push(fld(None, "contextNamespace", Some("NcString"), false, false));
        proof {
            assert(field_names(fields@) =~= nc_touchpoint_field_names());
        }
        let mut d = NcDatatypeDescriptorStruct {
            base: dt_struct_base("Touchpoint", "NcTouchpoint"),
            fields,
            parent_type: None,
        };
        proof {
            assert(field_names(d.fields@) =~= field_names(d.fields@) + Seq::<Seq<char>>::empty());
        }
        d
    }
}

impl crate::types::NcTouchpointNmos {
    /// The registry descriptor of the `NcTouchpointNmos` datatype; with
    /// `include_inherited`, the parent's fields follow its own.
    pub fn get_type_descriptor(include_inherited: bool) -> (r: NcDatatypeDescriptorStruct)
        ensures
            r.base.name@ == "NcTouchpointNmos"@,
            r.base.type_kind == NcDatatypeType::Struct,
            view_opt_str(r.parent_type) == Some("NcTouchpoint"@),
            field_names(r.fields@) == nc_touchpoint_nmos_field_names() + (if include_inherited {
                (nc_touchpoint_all_field_names())
            } else {
                Seq::<Seq<char>>::empty()
            }),
    {
        let mut fields: Vec<NcFieldDescriptor> = Vec::new();
        fields.push(fld(None, "resource", Some("NcTouchpointResourceNmos"), false, false));
        proof {
            assert(field_names(fields@) =~= nc_touchpoint_nmos_field_names());
        }
        let mut d = NcDatatypeDescriptorStruct {
            base: dt_struct_base("Touchpoint NMOS", "NcTouchpointNmos"),
            fields,
            parent_type: Some("NcTouchpoint".to_owned()),
        };
        if include_inherited {
            let parent = crate::types::NcTouchpointBase::get_type_descriptor(true);
            let ghost own = d.fields@;
            let mut pf = parent.fields;
            let ghost pf0 = pf@;
            d.fields.append(&mut pf);
            proof {
                lemma_field_names_concat(own, pf0);
            }
        } else {
            proof {
                assert(field_names(d.fields@) =~= field_names(d.fields@) + Seq::<
                    Seq<char>,
                >::empty());
            }
        }
        d
    }
}

impl crate::types::NcTouchpointNmosChannelMapping {
    /// The registry descriptor of the `NcTouchpointNmosChannelMapping` datatype; with
    /// `include_inherited`, the parent's fields follow its own.
    pub fn get_type_descriptor(include_inherited: bool) -> (r: NcDatatypeDescriptorStruct)
        ensures
            r.base.name@ == "NcTouchpointNmosChannelMapping"@,
            r.base.type_kind == NcDatatypeType::Struct,
            view_opt_str(r.parent_type) == Some("NcTouchpoint"@),
            field_names(r.fields@) == nc_touchpoint_nmos_channel_mapping_field_names() + (if include_inherited {
                (nc_touchpoint_all_field_names())
            } else {
                Seq::<Seq<char>>::empty()
            }),
    {
        let mut fields: Vec<NcFieldDescriptor> = Vec::new();
        fields.push(fld(None, "resource", Some("NcTouchpointResourceNmosChannelMapping"), false, false));
        proof {
            assert(field_names(fields@) =~= nc_touchpoint_nmos_channel_mapping_field_names());
        }
        let mut d = NcDatatypeDescriptorStruct {
            base: dt_struct_base("Touchpoint NMOS channel mapping", "NcTouchpointNmosChannelMapping"),
            fields,
            parent_type: Some("NcTouchpoint".to_owned()),
        };
        if include_inherited {
            let parent = crate::types::NcTouchpointBase::get_type_descriptor(true);
            let ghost own = d.fields@;
            let mut pf = parent.fields;
            let ghost pf0 = pf@;
            d.fields.append(&mut pf);
            proof {
                lemma_field_names_concat(own, pf0);
            }
        } else {
            proof {
                assert(field_names(d.fields@) =~= field_names(d.fields@) + Seq::<
                    Seq<char>,
                >::empty());
            }
        }
        d
    }
}

impl crate::descriptors::NcDescriptor {
    /// The registry descriptor of the `NcDescriptor` datatype; with
    /// `include_inherited`, the parent's fields follow its own.
    pub fn get_type_descriptor(include_inherited: bool) -> (r: NcDatatypeDescriptorStruct)
        ensures
            r.base.name@ == "NcDescriptor"@,
            r.base.type_kind == NcDatatypeType::Struct,
            view_opt_str(r.parent_type) == None::<Seq<char>>,
            field_names(r.fields@) == nc_descriptor_field_names() + (if include_inherited {
                Seq::<Seq<char>>::empty()
            } else {
                Seq::<Seq<char>>::empty()
            }),
    {
        let mut fields: Vec<NcFieldDescriptor> = Vec::new();
        fields.push(fld(Some("Optional user facing description"), "description", Some("NcString"), true, false));
        proof {
            assert(field_names(fields@) =~= nc_descriptor_field_names());
        }
        let mut d = NcDatatypeDescriptorStruct {
            base: dt_struct_base("Base descriptor", "NcDescriptor"),
            fields,
            parent_type: None,
        };
        proof {
            assert(field_names(d.fields@) =~= field_names(d.fields@) + Seq::<Seq<char>>::empty());
        }
        d
    }
}

impl crate::types::NcBlockMemberDescriptor {
    /// The registry descriptor of the `NcBlockMemberDescriptor` datatype; with
    /// `include_inherited`, the parent's fields follow its own.
    pub fn get_type_descriptor(include_inherited: bool) -> (r: NcDatatypeDescriptorStruct)
        ensures
            r.base.name@ == "NcBlockMemberDescriptor"@,
            r.base.type_kind == NcDatatypeType::Struct,
            view_opt_str(r.parent_type) == Some("NcDescriptor"@),
            field_names(r.fields@) == nc_block_member_descriptor_field_names() + (if include_inherited {
                (nc_descriptor_all_field_names())
            } else {
                Seq::<Seq<char>>::empty()
            }),
    {
        let mut fields: Vec<NcFieldDescriptor> = Vec::new();
        fields.push(fld(None, "role", Some("NcString"), false, false));
        fields.push(fld(None, "oid", Some("NcOid"), false, false));
        fields.push(fld(None, "constantOid", Some("NcBoolean"), false, false));
        fields.push(fld(None, "classId", Some("NcClassId"), false, false));
        fields.push(fld(None, "userLabel", Some("NcString"), true, false));
        fields.push(fld(None, "owner", Some("NcOid"), false, false));
        proof {
            assert(field_names(fields@) =~= nc_block_member_descriptor_field_names());
        }
        let mut d = NcDatatypeDescriptorStruct {
            base: dt_struct_base("Block member descriptor", "NcBlockMemberDescriptor"),
            fields,
            parent_type: Some("NcDescriptor".to_owned()),
        };
        if include_inherited {
            let parent = crate::descriptors::NcDescriptor::get_type_descriptor(true);
            let ghost own = d.fields@;
            let mut pf = parent.fields;
            let ghost pf0 = pf@;
            d.fields.append(&mut pf);
            proof {
                lemma_field_names_concat(own, pf0);
            }
        } else {
            proof {
                assert(field_names(d.fields@) =~= field_names(d.fields@) + Seq::<
                    Seq<char>,
                >::empty());
            }
        }
        d
    }
}

impl crate::descriptors::NcClassDescriptor {
    /// The registry descriptor of the `NcClassDescriptor` datatype; with
    /// `include_inherited`, the parent's fields follow its own.
    pub fn get_type_descriptor(include_inherited: bool) -> (r: NcDatatypeDescriptorStruct)
        ensures
            r.base.name@ == "NcClassDescriptor"@,
            r.base.type_kind == NcDatatypeType::Struct,
            view_opt_str(r.parent_type) == Some("NcDescriptor"@),
            field_names(r.fields@) == nc_class_descriptor_field_names() + (if include_inherited {
                (nc_descriptor_all_field_names())
            } else {
                Seq::<Seq<char>>::empty()
            }),
    {
        let mut fields: Vec<NcFieldDescriptor> = Vec::new();
        fields.push(fld(Some("Numeric class identity"), "classId", Some("NcClassId"), false, false));
        fields.push(fld(Some("Class name"), "name", Some("NcName"), false, false));
        fields.push(fld(Some("Fixed role for manager classes"), "fixedRole", Some("NcString"), true, false));
        fields.push(fld(Some("Property descriptors"), "properties", Some("NcPropertyDescriptor"), false, true));
        fields.push(fld(Some("Method descriptors"), "methods", Some("NcMethodDescriptor"), false, true));
        fields.push(fld(Some("Event descriptors"), "events", Some("NcEventDescriptor"), false, true));
        proof {
            assert(field_names(fields@) =~= nc_class_descriptor_field_names());
        }
        let mut d = NcDatatypeDescriptorStruct {
            base: dt_struct_base("Descriptor of a class", "NcClassDescriptor"),
            fields,
            parent_type: Some("NcDescriptor".to_owned()),
        };
        if include_inherited {
            let parent = crate::descriptors::NcDescriptor::get_type_descriptor(true);
            let ghost own = d.fields@;
            let mut pf = parent.fields;
            let ghost pf0 = pf@;
            d.fields.append(&mut pf);
            proof {
                lemma_field_names_concat(own, pf0);
            }
        } else {
            proof {
                assert(field_names(d.fields@) =~= field_names(d.fields@) + Seq::<
                    Seq<char>,
                >::empty());
            }
        }
        d
    }
}

impl crate::descriptors::NcDatatypeDescriptor {
    /// The registry descriptor of the `NcDatatypeDescriptor` datatype; with
    /// `include_inherited`, the parent's fields follow its own.
    pub fn get_type_descriptor(include_inherited: bool) -> (r: NcDatatypeDescriptorStruct)
        ensures
            r.base.name@ == "NcDatatypeDescriptor"@,
            r.base.type_kind == NcDatatypeType::Struct,
            view_opt_str(r.parent_type) == Some("NcDescriptor"@),
            field_names(r.fields@) == nc_datatype_descriptor_field_names() + (if include_inherited {
                (nc_descriptor_all_field_names())
            } else {
                Seq::<Seq<char>>::empty()
            }),
    {
        let mut fields: Vec<NcFieldDescriptor> = Vec::new();
        fields.push(fld(None, "name", Some("NcName"), false, false));
        fields.push(fld(None, "type", Some("NcDatatypeType"), false, false));
        fields.push(fld(None, "constraints", Some("NcParameterConstraints"), true, false));
        proof {
            assert(field_names(fields@) =~= nc_datatype_descriptor_field_names());
        }
        let mut d = NcDatatypeDescriptorStruct {
            base: dt_struct_base("Datatype descriptor base", "NcDatatypeDescriptor"),
            fields,
            parent_type: Some("NcDescriptor".to_owned()),
        };
        if include_inherited {
            let parent = crate::descriptors::NcDescriptor::get_type_descriptor(true);
            let ghost own = d.fields@;
            let mut pf = parent.fields;
            let ghost pf0 = pf@;
            d.fields.append(&mut pf);
            proof {
                lemma_field_names_concat(own, pf0);
            }
        } else {
            proof {
                assert(field_names(d.fields@) =~= field_names(d.fields@) + Seq::<
                    Seq<char>,
                >::empty());
            }
        }
        d
    }
}

impl crate::descriptors::NcDatatypeDescriptorPrimitive {
    /// The registry descriptor of the `NcDatatypeDescriptorPrimitive` datatype; with
    /// `include_inherited`, the parent's fields follow its own.
    pub fn get_type_descriptor(include_inherited: bool) -> (r: NcDatatypeDescriptorStruct)
        ensures
            r.base.name@ == "NcDatatypeDescriptorPrimitive"@,
            r.base.type_kind == NcDatatypeType::Struct,
            view_opt_str(r.parent_type) == Some("NcDatatypeDescriptor"@),
            field_names(r.fields@) == nc_datatype_descriptor_primitive_field_names() + (if include_inherited {
                (nc_datatype_descriptor_all_field_names())
            } else {
                Seq::<Seq<char>>::empty()
            }),
    {
        let mut fields: Vec<NcFieldDescriptor> = Vec::new();
        proof {
            assert(field_names(fields@) =~= nc_datatype_descriptor_primitive_field_names());
        }
        let mut d = NcDatatypeDescriptorStruct {
            base: dt_struct_base("Primitive datatype descriptor", "NcDatatypeDescriptorPrimitive"),
            fields,
            parent_type: Some("NcDatatypeDescriptor".to_owned()),
        };
        if include_inherited {
            let parent = crate::descriptors::NcDatatypeDescriptor::get_type_descriptor(true);
            let ghost own = d.fields@;
            let mut pf = parent.fields;
            let ghost pf0 = pf@;
            d.fields.append(&mut pf);
            proof {
                lemma_field_names_concat(own, pf0);
            }
        } else {
            proof {
                assert(field_names(d.fields@) =~= field_names(d.fields@) + Seq::<
                    Seq<char>,
                >::empty());
            }
        }
        d
    }
}

impl crate::descriptors::NcDatatypeDescriptorTypeDef {
    /// The registry descriptor of the `NcDatatypeDescriptorTypeDef` datatype; with
    /// `include_inherited`, the parent's fields follow its own.
    pub fn get_type_descriptor(include_inherited: bool) -> (r: NcDatatypeDescriptorStruct)
        ensures
            r.base.name@ == "NcDatatypeDescriptorTypeDef"@,
            r.base.type_kind == NcDatatypeType::Struct,
            view_opt_str(r.parent_type) == Some("NcDatatypeDescriptor"@),
            field_names(r.fields@) == nc_datatype_descriptor_type_def_field_names() + (if include_inherited {
                (nc_datatype_descriptor_all_field_names())
            } else {
                Seq::<Seq<char>>::empty()
            }),
    {
        let mut fields: Vec<NcFieldDescriptor> = Vec::new();
        fields.push(fld(None, "parentType", Some("NcName"), false, false));
        fields.push(fld(None, "isSequence", Some("NcBoolean"), false, false));
        proof {
            assert(field_names(fields@) =~= nc_datatype_descriptor_type_def_field_names());
        }
        let mut d = NcDatatypeDescriptorStruct {
            base: dt_struct_base("Typedef datatype descriptor", "NcDatatypeDescriptorTypeDef"),
            fields,
            parent_type: Some("NcDatatypeDescriptor".to_owned()),
        };
        if include_inherited {
            let parent = crate::descriptors::NcDatatypeDescriptor::get_type_descriptor(true);
            let ghost own = d.fields@;
            let mut pf = parent.fields;
            let ghost pf0 = pf@;
            d.fields.append(&mut pf);
            proof {
                lemma_field_names_concat(own, pf0);
            }
        } else {
            proof {
                assert(field_names(d.fields@) =~= field_names(d.fields@) + Seq::<
                    Seq<char>,
                >::empty());
            }
        }
        d
    }
}

impl crate::descriptors::NcDatatypeDescriptorStruct {
    /// The registry descriptor of the `NcDatatypeDescriptorStruct` datatype; with
    /// `include_inherited`, the parent's fields follow its own.
    pub fn get_type_descriptor(include_inherited: bool) -> (r: NcDatatypeDescriptorStruct)
        ensures
            r.base.name@ == "NcDatatypeDescriptorStruct"@,
            r.base.type_kind == NcDatatypeType::Struct,
            view_opt_str(r.parent_type) == Some("NcDatatypeDescriptor"@),
            field_names(r.fields@) == nc_datatype_descriptor_struct_field_names() + (if include_inherited {
                (nc_datatype_descriptor_all_field_names())
            } else {
                Seq::<Seq<char>>::empty()
            }),
    {
        let mut fields: Vec<NcFieldDescriptor> = Vec::new();
        fields.push(fld(None, "fields", Some("NcFieldDescriptor"), false, true));
        fields.push(fld(None, "parentType", Some("NcName"), true, false));
        proof {
            assert(field_names(fields@) =~= nc_datatype_descriptor_struct_field_names());
        }
        let mut d = NcDatatypeDescriptorStruct {
            base: dt_struct_base("Struct datatype descriptor", "NcDatatypeDescriptorStruct"),
            fields,
            parent_type: Some("NcDatatypeDescriptor".to_owned()),
        };
        if include_inherited {
            let parent = crate::descriptors::NcDatatypeDescriptor::get_type_descriptor(true);
            let ghost own = d.fields@;
            let mut pf = parent.fields;
            let ghost pf0 = pf@;
            d.fields.append(&mut pf);
            proof {
                lemma_field_names_concat(own, pf0);
            }
        } else {
            proof {
                assert(field_names(d.fields@) =~= field_names(d.fields@) + Seq::<
                    Seq<char>,
                >::empty());
            }
        }
        d
    }
}

impl crate::descriptors::NcDatatypeDescriptorEnum {
    /// The registry descriptor of the `NcDatatypeDescriptorEnum` datatype; with
    /// `include_inherited`, the parent's fields follow its own.
    pub fn get_type_descriptor(include_inherited: bool) -> (r: NcDatatypeDescriptorStruct)
        ensures
            r.base.name@ == "NcDatatypeDescriptorEnum"@,
            r.base.type_kind == NcDatatypeType::Struct,
            view_opt_str(r.parent_type) == Some("NcDatatypeDescriptor"@),
            field_names(r.fields@) == nc_datatype_descriptor_enum_field_names() + (if include_inherited {
                (nc_datatype_descriptor_all_field_names())
            } else {
                Seq::<Seq<char>>::empty()
            }),
    {
        let mut fields: Vec<NcFieldDescriptor> = Vec::new();
        fields.push(fld(None, "items", Some("NcEnumItemDescriptor"), false, true));
        proof {
            assert(field_names(fields@) =~= nc_datatype_descriptor_enum_field_names());
        }
        let mut d = NcDatatypeDescriptorStruct {
            base: dt_struct_base("Enum datatype descriptor", "NcDatatypeDescriptorEnum"),
            fields,
            parent_type: Some("NcDatatypeDescriptor".to_owned()),
        };
        if include_inherited {
            let parent = crate::descriptors::NcDatatypeDescriptor::get_type_descriptor(true);
            let ghost own = d.fields@;
            let mut pf = parent.fields;
            let ghost pf0 = pf@;
            d.fields.append(&mut pf);
            proof {
                lemma_field_names_concat(own, pf0);
            }
        } else {
            proof {
                assert(field_names(d.fields@) =~= field_names(d.fields@) + Seq::<
                    Seq<char>,
                >::empty());
            }
        }
        d
    }
}

impl crate::descriptors::NcFieldDescriptor {
    /// The registry descriptor of the `NcFieldDescriptor` datatype; with
    /// `include_inherited`, the parent's fields follow its own.
    pub fn get_type_descriptor(include_inherited: bool) -> (r: NcDatatypeDescriptorStruct)
        ensures
            r.base.name@ == "NcFieldDescriptor"@,
            r.base.type_kind == NcDatatypeType::Struct,
            view_opt_str(r.parent_type) == Some("NcDescriptor"@),
            field_names(r.fields@) == nc_field_descriptor_field_names() + (if include_inherited {
                (nc_descriptor_all_field_names())
            } else {
                Seq::<Seq<char>>::empty()
            }),
    {
        let mut fields: Vec<NcFieldDescriptor> = Vec::new();
        fields.push(fld(Some("Name of field"), "name", Some("NcName"), false, false));
        fields.push(fld(Some("Name of field's datatype. Can only ever be null if the type is any"), "typeName", Some("NcName"), true, false));
        fields.push(fld(Some("TRUE iff field is nullable"), "isNullable", Some("NcBoolean"), false, false));
        fields.push(fld(Some("TRUE iff field is a sequence"), "isSequence", Some("NcBoolean"), false, false));
        fields.push(fld(Some("Optional constraints on top of the underlying data type"), "constraints", Some("NcParameterConstraints"), true, false));
        proof {
            assert(field_names(fields@) =~= nc_field_descriptor_field_names());
        }
        let mut d = NcDatatypeDescriptorStruct {
            base: dt_struct_base("Descriptor of a field of a struct", "NcFieldDescriptor"),
            fields,
            parent_type: Some("NcDescriptor".to_owned()),
        };
        if include_inherited {
            let parent = crate::descriptors::NcDescriptor::get_type_descriptor(true);
            let ghost own = d.fields@;
            let mut pf = parent.fields;
            let ghost pf0 = pf@;
            d.fields.append(&mut pf);
            proof {
                lemma_field_names_concat(own, pf0);
            }
        } else {
            proof {
                assert(field_names(d.fields@) =~= field_names(d.fields@) + Seq::<
                    Seq<char>,
                >::empty());
            }
        }
        d
    }
}

impl crate::descriptors::NcEnumItemDescriptor {
    /// The registry descriptor of the `NcEnumItemDescriptor` datatype; with
    /// `include_inherited`, the parent's fields follow its own.
    pub fn get_type_descriptor(include_inherited: bool) -> (r: NcDatatypeDescriptorStruct)
        ensures
            r.base.name@ == "NcEnumItemDescriptor"@,
            r.base.type_kind == NcDatatypeType::Struct,
            view_opt_str(r.parent_type) == Some("NcDescriptor"@),
            field_names(r.fields@) == nc_enum_item_descriptor_field_names() + (if include_inherited {
                (nc_descriptor_all_field_names())
            } else {
                Seq::<Seq<char>>::empty()
            }),
    {
        let mut fields: Vec<NcFieldDescriptor> = Vec::new();
        fields.push(fld(Some("Name of option"), "name", Some("NcName"), false, false));
        fields.push(fld(Some("Enum item numerical value"), "value", Some("NcUint16"), false, false));
        proof {
            assert(field_names(fields@) =~= nc_enum_item_descriptor_field_names());
        }
        let mut d = NcDatatypeDescriptorStruct {
            base: dt_struct_base("Descriptor of an enum item", "NcEnumItemDescriptor"),
            fields,
            parent_type: Some("NcDescriptor".to_owned()),
        };
        if include_inherited {
            let parent = crate::descriptors::NcDescriptor::get_type_descriptor(true);
            let ghost own = d.fields@;
            let mut pf = parent.fields;
            let ghost pf0 = pf@;
            d.fields.append(&mut pf);
            proof {
                lemma_field_names_concat(own, pf0);
            }
        } else {
            proof {
                assert(field_names(d.fields@) =~= field_names(d.fields@) + Seq::<
                    Seq<char>,
                >::empty());
            }
        }
        d
    }
}

impl crate::descriptors::NcEventDescriptor {
    /// The registry descriptor of the `NcEventDescriptor` datatype; with
    /// `include_inherited`, the parent's fields follow its own.
    pub fn get_type_descriptor(include_inherited: bool) -> (r: NcDatatypeDescriptorStruct)
        ensures
            r.base.name@ == "NcEventDescriptor"@,
            r.base.type_kind == NcDatatypeType::Struct,
            view_opt_str(r.parent_type) == Some("NcDescriptor"@),
            field_names(r.fields@) == nc_event_descriptor_field_names() + (if include_inherited {
                (nc_descriptor_all_field_names())
            } else {
                Seq::<Seq<char>>::empty()
            }),
    {
        let mut fields: Vec<NcFieldDescriptor> = Vec::new();
        fields.push(fld(None, "id", Some("NcEventId"), false, false));
        fields.push(fld(None, "name", Some("NcName"), false, false));
        fields.push(fld(None, "eventDatatype", Some("NcName"), false, false));
        fields.push(fld(None, "isDeprecated", Some("NcBoolean"), false, false));
        proof {
            assert(field_names(fields@) =~= nc_event_descriptor_field_names());
        }
        let mut d = NcDatatypeDescriptorStruct {
            base: dt_struct_base("Descriptor of an event", "NcEventDescriptor"),
            fields,
            parent_type: Some("NcDescriptor".to_owned()),
        };
        if include_inherited {
            let parent = crate::descriptors::NcDescriptor::get_type_descriptor(true);
            let ghost own = d.fields@;
            let mut pf = parent.fields;
            let ghost pf0 = pf@;
            d.fields.append(&mut pf);
            proof {
                lemma_field_names_concat(own, pf0);
            }
        } else {
            proof {
                assert(field_names(d.fields@) =~= field_names(d.fields@) + Seq::<
                    Seq<char>,
                >::empty());
            }
        }
        d
    }
}

impl crate::descriptors::NcMethodDescriptor {
    /// The registry descriptor of the `NcMethodDescriptor` datatype; with
    /// `include_inherited`, the parent's fields follow its own.
    pub fn get_type_descriptor(include_inherited: bool) -> (r: NcDatatypeDescriptorStruct)
        ensures
            r.base.name@ == "NcMethodDescriptor"@,
            r.base.type_kind == NcDatatypeType::Struct,
            view_opt_str(r.parent_type) == Some("NcDescriptor"@),
            field_names(r.fields@) == nc_method_descriptor_field_names() + (if include_inherited {
                (nc_descriptor_all_field_names())
            } else {
                Seq::<Seq<char>>::empty()
            }),
    {
        let mut fields: Vec<NcFieldDescriptor> = Vec::new();
        fields.push(fld(None, "id", Some("NcMethodId"), false, false));
        fields.push(fld(None, "name", Some("NcName"), false, false));
        fields.push(fld(None, "resultDatatype", Some("NcName"), false, false));
        fields.push(fld(None, "parameters", Some("NcParameterDescriptor"), false, true));
        fields.push(fld(None, "isDeprecated", Some("NcBoolean"), false, false));
        proof {
            assert(field_names(fields@) =~= nc_method_descriptor_field_names());
        }
        let mut d = NcDatatypeDescriptorStruct {
            base: dt_struct_base("Descriptor of a method", "NcMethodDescriptor"),
            fields,
            parent_type: Some("NcDescriptor".to_owned()),
        };
        if include_inherited {
            let parent = crate::descriptors::NcDescriptor::get_type_descriptor(true);
            let ghost own = d.fields@;
            let mut pf = parent.fields;
            let ghost pf0 = pf@;
            d.fields.append(&mut pf);
            proof {
                lemma_field_names_concat(own, pf0);
            }
        } else {
            proof {
                assert(field_names(d.fields@) =~= field_names(d.fields@) + Seq::<
                    Seq<char>,
                >::empty());
            }
        }
        d
    }
}

impl crate::descriptors::NcParameterDescriptor {
    /// The registry descriptor of the `NcParameterDescriptor` datatype; with
    /// `include_inherited`, the parent's fields follow its own.
    pub fn get_type_descriptor(include_inherited: bool) -> (r: NcDatatypeDescriptorStruct)
        ensures
            r.base.name@ == "NcParameterDescriptor"@,
            r.base.type_kind == NcDatatypeType::Struct,
            view_opt_str(r.parent_type) == Some("NcDescriptor"@),
            field_names(r.fields@) == nc_parameter_descriptor_field_names() + (if include_inherited {
                (nc_descriptor_all_field_names())
            } else {
                Seq::<Seq<char>>::empty()
            }),
    {
        let mut fields: Vec<NcFieldDescriptor> = Vec::new();
        fields.push(fld(None, "name", Some("NcName"), false, false));
        fields.push(fld(None, "typeName", Some("NcName"), true, false));
        fields.push(fld(None, "isNullable", Some("NcBoolean"), false, false));
        fields.push(fld(None, "isSequence", Some("NcBoolean"), false, false));
        fields.push(fld(None, "constraints", Some("NcParameterConstraints"), true, false));
        proof {
            assert(field_names(fields@) =~= nc_parameter_descriptor_field_names());
        }
        let mut d = NcDatatypeDescriptorStruct {
            base: dt_struct_base("Descriptor of a method parameter", "NcParameterDescriptor"),
            fields,
            parent_type: Some("NcDescriptor".to_owned()),
        };
        if include_inherited {
            let parent = crate::descriptors::NcDescriptor::get_type_descriptor(true);
            let ghost own = d.fields@;
            let mut pf = parent.fields;
            let ghost pf0 = pf@;
            d.fields.append(&mut pf);
            proof {
                lemma_field_names_concat(own, pf0);
            }
        } else {
            proof {
                assert(field_names(d.fields@) =~= field_names(d.fields@) + Seq::<
                    Seq<char>,
                >::empty());
            }
        }
        d
    }
}

impl crate::descriptors::NcPropertyDescriptor {
    /// The registry descriptor of the `NcPropertyDescriptor` datatype; with
    /// `include_inherited`, the parent's fields follow its own.
    pub fn get_type_descriptor(include_inherited: bool) -> (r: NcDatatypeDescriptorStruct)
        ensures
            r.base.name@ == "NcPropertyDescriptor"@,
            r.base.type_kind == NcDatatypeType::Struct,
            view_opt_str(r.parent_type) == Some("NcDescriptor"@),
            field_names(r.fields@) == nc_property_descriptor_field_names() + (if include_inherited {
                (nc_descriptor_all_field_names())
            } else {
                Seq::<Seq<char>>::empty()
            }),
    {
        let mut fields: Vec<NcFieldDescriptor> = Vec::new();
        fields.push(fld(None, "id", Some("NcPropertyId"), false, false));
        fields.push(fld(None, "name", Some("NcName"), false, false));
        fields.push(fld(None, "typeName", Some("NcName"), true, false));
        fields.push(fld(None, "isReadOnly", Some("NcBoolean"), false, false));
        fields.push(fld(None, "isNullable", Some("NcBoolean"), false, false));
        fields.push(fld(None, "isSequence", Some("NcBoolean"), false, false));
        fields.push(fld(None, "isDeprecated", Some("NcBoolean"), false, false));
        fields.push(fld(None, "constraints", Some("NcParameterConstraints"), true, false));
        proof {
            assert(field_names(fields@) =~= nc_property_descriptor_field_names());
        }
        let mut d = NcDatatypeDescriptorStruct {
            base: dt_struct_base("Descriptor of a property", "NcPropertyDescriptor"),
            fields,
            parent_type: Some("NcDescriptor".to_owned()),
        };
        if include_inherited {
            let parent = crate::descriptors::NcDescriptor::get_type_descriptor(true);
            let ghost own = d.fields@;
            let mut pf = parent.fields;
            let ghost pf0 = pf@;
            d.fields.append(&mut pf);
            proof {
                lemma_field_names_concat(own, pf0);
            }
        } else {
            proof {
                assert(field_names(d.fields@) =~= field_names(d.fields@) + Seq::<
                    Seq<char>,
                >::empty());
            }
        }
        d
    }
}

impl crate::descriptors::NcParameterConstraints {
    /// The registry descriptor of the `NcParameterConstraints` datatype; with
    /// `include_inherited`, the parent's fields follow its own.
    pub fn get_type_descriptor(include_inherited: bool) -> (r: NcDatatypeDescriptorStruct)
        ensures
            r.base.name@ == "NcParameterConstraints"@,
            r.base.type_kind == NcDatatypeType::Struct,
            view_opt_str(r.parent_type) == None::<Seq<char>>,
            field_names(r.fields@) == nc_parameter_constraints_field_names() + (if include_inherited {
                Seq::<Seq<char>>::empty()
            } else {
                Seq::<Seq<char>>::empty()
            }),
    {
        let mut fields: Vec<NcFieldDescriptor> = Vec::new();
        fields.push(fld(None, "defaultValue", None, true, false));
        proof {
            assert(field_names(fields@) =~= nc_parameter_constraints_field_names());
        }
        let mut d = NcDatatypeDescriptorStruct {
            base: dt_struct_base("Base parameter constraints", "NcParameterConstraints"),
            fields,
            parent_type: None,
        };
        proof {
            assert(field_names(d.fields@) =~= field_names(d.fields@) + Seq::<Seq<char>>::empty());
        }
        d
    }
}

impl crate::descriptors::NcParameterConstraintsNumber {
    /// The registry descriptor of the `NcParameterConstraintsNumber` datatype; with
    /// `include_inherited`, the parent's fields follow its own.
    pub fn get_type_descriptor(include_inherited: bool) -> (r: NcDatatypeDescriptorStruct)
        ensures
            r.base.name@ == "NcParameterConstraintsNumber"@,
            r.base.type_kind == NcDatatypeType::Struct,
            view_opt_str(r.parent_type) == Some("NcParameterConstraints"@),
            field_names(r.fields@) == nc_parameter_constraints_number_field_names() + (if include_inherited {
                (nc_parameter_constraints_all_field_names())
            } else {
                Seq::<Seq<char>>::empty()
            }),
    {
        let mut fields: Vec<NcFieldDescriptor> = Vec::new();
        fields.push(fld(None, "maximum", None, true, false));
        fields.push(fld(None, "minimum", None, true, false));
        fields.push(fld(None, "step", None, true, false));
        proof {
            assert(field_names(fields@) =~= nc_parameter_constraints_number_field_names());
        }
        let mut d = NcDatatypeDescriptorStruct {
            base: dt_struct_base("Numeric parameter constraints", "NcParameterConstraintsNumber"),
            fields,
            parent_type: Some("NcParameterConstraints".to_owned()),
        };
        if include_inherited {
            let parent = crate::descriptors::NcParameterConstraints::get_type_descriptor(true);
            let ghost own = d.fields@;
            let mut pf = parent.fields;
            let ghost pf0 = pf@;
            d.fields.append(&mut pf);
            proof {
                lemma_field_names_concat(own, pf0);
            }
        } else {
            proof {
                assert(field_names(d.fields@) =~= field_names(d.fields@) + Seq::<
                    Seq<char>,
                >::empty());
            }
        }
        d
    }
}

impl crate::descriptors::NcParameterConstraintsString {
    /// The registry descriptor of the `NcParameterConstraintsString` datatype; with
    /// `include_inherited`, the parent's fields follow its own.
    pub fn get_type_descriptor(include_inherited: bool) -> (r: NcDatatypeDescriptorStruct)
        ensures
            r.base.name@ == "NcParameterConstraintsString"@,
            r.base.type_kind == NcDatatypeType::Struct,
            view_opt_str(r.parent_type) == Some("NcParameterConstraints"@),
            field_names(r.fields@) == nc_parameter_constraints_string_field_names() + (if include_inherited {
                (nc_parameter_constraints_all_field_names())
            } else {
                Seq::<Seq<char>>::empty()
            }),
    {
        let mut fields: Vec<NcFieldDescriptor> = Vec::new();
        fields.push(fld(None, "maxCharacters", Some("NcUint32"), true, false));
        fields.push(fld(None, "pattern", Some("NcRegex"), true, false));
        proof {
            assert(field_names(fields@) =~= nc_parameter_constraints_string_field_names());
        }
        let mut d = NcDatatypeDescriptorStruct {
            base: dt_struct_base("String parameter constraints", "NcParameterConstraintsString"),
            fields,
            parent_type: Some("NcParameterConstraints".to_owned()),
        };
        if include_inherited {
            let parent = crate::descriptors::NcParameterConstraints::get_type_descriptor(true);
            let ghost own = d.fields@;
            let mut pf = parent.fields;
            let ghost pf0 = pf@;
            d.fields.append(&mut pf);
            proof {
                lemma_field_names_concat(own, pf0);
            }
        } else {
            proof {
                assert(field_names(d.fields@) =~= field_names(d.fields@) + Seq::<
                    Seq<char>,
                >::empty());
            }
        }
        d
    }
}

impl crate::types::NcElementId {
    /// The registry descriptor of the `NcElementId` datatype; with
    /// `include_inherited`, the parent's fields follow its own.
    pub fn get_type_descriptor(include_inherited: bool) -> (r: NcDatatypeDescriptorStruct)
        ensures
            r.base.name@ == "NcElementId"@,
            r.base.type_kind == NcDatatypeType::Struct,
            view_opt_str(r.parent_type) == None::<Seq<char>>,
            field_names(r.fields@) == nc_element_id_field_names() + (if include_inherited {
                Seq::<Seq<char>>::empty()
            } else {
                Seq::<Seq<char>>::empty()
            }),
    {
        let mut fields: Vec<NcFieldDescriptor> = Vec::new();
        fields.push(fld(None, "level", Some("NcUint16"), false, false));
        fields.push(fld(None, "index", Some("NcUint16"), false, false));
        proof {
            assert(field_names(fields@) =~= nc_element_id_field_names());
        }
        let mut d = NcDatatypeDescriptorStruct {
            base: dt_struct_base("Element identifier", "NcElementId"),
            fields,
            parent_type: None,
        };
        proof {
            assert(field_names(d.fields@) =~= field_names(d.fields@) + Seq::<Seq<char>>::empty());
        }
        d
    }
}

impl crate::types::NcPropertyId {
    /// The registry descriptor of the `NcPropertyId` datatype; with
    /// `include_inherited`, the parent's fields follow its own.
    pub fn get_type_descriptor(include_inherited: bool) -> (r: NcDatatypeDescriptorStruct)
        ensures
            r.base.name@ == "NcPropertyId"@,
            r.base.type_kind == NcDatatypeType::Struct,
            view_opt_str(r.parent_type) == Some("NcElementId"@),
            field_names(r.fields@) == nc_property_id_field_names() + (if include_inherited {
                (nc_element_id_all_field_names())
            } else {
                Seq::<Seq<char>>::empty()
            }),
    {
        let mut fields: Vec<NcFieldDescriptor> = Vec::new();
        proof {
            assert(field_names(fields@) =~= nc_property_id_field_names());
        }
        let mut d = NcDatatypeDescriptorStruct {
            base: dt_struct_base("Property identifier", "NcPropertyId"),
            fields,
            parent_type: Some("NcElementId".to_owned()),
        };
        if include_inherited {
            let parent = crate::types::NcElementId::get_type_descriptor(true);
            let ghost own = d.fields@;
            let mut pf = parent.fields;
            let ghost pf0 = pf@;
            d.fields.append(&mut pf);
            proof {
                lemma_field_names_concat(own, pf0);
            }
        } else {
            proof {
                assert(field_names(d.fields@) =~= field_names(d.fields@) + Seq::<
                    Seq<char>,
                >::empty());
            }
        }
        d
    }
}

impl crate::types::NcMethodId {
    /// The registry descriptor of the `NcMethodId` datatype; with
    /// `include_inherited`, the parent's fields follow its own.
    pub fn get_type_descriptor(include_inherited: bool) -> (r: NcDatatypeDescriptorStruct)
        ensures
            r.base.name@ == "NcMethodId"@,
            r.base.type_kind == NcDatatypeType::Struct,
            view_opt_str(r.parent_type) == Some("NcElementId"@),
            field_names(r.fields@) == nc_method_id_field_names() + (if include_inherited {
                (nc_element_id_all_field_names())
            } else {
                Seq::<Seq<char>>::empty()
            }),
    {
        let mut fields: Vec<NcFieldDescriptor> = Vec::new();
        proof {
            assert(field_names(fields@) =~= nc_method_id_field_names());
        }
        let mut d = NcDatatypeDescriptorStruct {
            base: dt_struct_base("Method identifier", "NcMethodId"),
            fields,
            parent_type: Some("NcElementId".to_owned()),
        };
        if include_inherited {
            let parent = crate::types::NcElementId::get_type_descriptor(true);
            let ghost own = d.fields@;
            let mut pf = parent.fields;
            let ghost pf0 = pf@;
            d.fields.append(&mut pf);
            proof {
                lemma_field_names_concat(own, pf0);
            }
        } else {
            proof {
                assert(field_names(d.fields@) =~= field_names(d.fields@) + Seq::<
                    Seq<char>,
                >::empty());
            }
        }
        d
    }
}

impl crate::types::NcEventId {
    /// The registry descriptor of the `NcEventId` datatype; with
    /// `include_inherited`, the parent's fields follow its own.
    pub fn get_type_descriptor(include_inherited: bool) -> (r: NcDatatypeDescriptorStruct)
        ensures
            r.base.name@ == "NcEventId"@,
            r.base.type_kind == NcDatatypeType::Struct,
            view_opt_str(r.parent_type) == Some("NcElementId"@),
            field_names(r.fields@) == nc_event_id_field_names() + (if include_inherited {
                (nc_element_id_all_field_names())
            } else {
                Seq::<Seq<char>>::empty()
            }),
    {
        let mut fields: Vec<NcFieldDescriptor> = Vec::new();
        proof {
            assert(field_names(fields@) =~= nc_event_id_field_names());
        }
        let mut d = NcDatatypeDescriptorStruct {
            base: dt_struct_base("Event identifier", "NcEventId"),
            fields,
            parent_type: Some("NcElementId".to_owned()),
        };
        if include_inherited {
            let parent = crate::types::NcElementId::get_type_descriptor(true);
            let ghost own = d.fields@;
            let mut pf = parent.fields;
            let ghost pf0 = pf@;
            d.fields.append(&mut pf);
            proof {
                lemma_field_names_concat(own, pf0);
            }
        } else {
            proof {
                assert(field_names(d.fields@) =~= field_names(d.fields@) + Seq::<
                    Seq<char>,
                >::empty());
            }
        }
        d
    }
}

impl crate::types::NcManufacturer {
    /// The registry descriptor of the `NcManufacturer` datatype; with
    /// `include_inherited`, the parent's fields follow its own.
    pub fn get_type_descriptor(include_inherited: bool) -> (r: NcDatatypeDescriptorStruct)
        ensures
            r.base.name@ == "NcManufacturer"@,
            r.base.type_kind == NcDatatypeType::Struct,
            view_opt_str(r.parent_type) == None::<Seq<char>>,
            field_names(r.fields@) == nc_manufacturer_field_names() + (if include_inherited {
                Seq::<Seq<char>>::empty()
            } else {
                Seq::<Seq<char>>::empty()
            }),
    {
        let mut fields: Vec<NcFieldDescriptor> = Vec::new();
        fields.push(fld(None, "name", Some("NcString"), false, false));
        fields.push(fld(None, "organizationId", Some("NcOrganizationId"), true, false));
        fields.push(fld(None, "website", Some("NcUri"), true, false));
        proof {
            assert(field_names(fields@) =~= nc_manufacturer_field_names());
        }
        let mut d = NcDatatypeDescriptorStruct {
            base: dt_struct_base("Manufacturer descriptor", "NcManufacturer"),
            fields,
            parent_type: None,
        };
        proof {
            assert(field_names(d.fields@) =~= field_names(d.fields@) + Seq::<Seq<char>>::empty());
        }
        d
    }
}

impl crate::types::NcProduct {
    /// The registry descriptor of the `NcProduct` datatype; with
    /// `include_inherited`, the parent's fields follow its own.
    pub fn get_type_descriptor(include_inherited: bool) -> (r: NcDatatypeDescriptorStruct)
        ensures
            r.base.name@ == "NcProduct"@,
            r.base.type_kind == NcDatatypeType::Struct,
            view_opt_str(r.parent_type) == None::<Seq<char>>,
            field_names(r.fields@) == nc_product_field_names() + (if include_inherited {
                Seq::<Seq<char>>::empty()
            } else {
                Seq::<Seq<char>>::empty()
            }),
    {
        let mut fields: Vec<NcFieldDescriptor> = Vec::new();
        fields.push(fld(None, "name", Some("NcString"), false, false));
        fields.push(fld(None, "key", Some("NcString"), false, false));
        fields.push(fld(None, "revisionLevel", Some("NcString"), false, false));
        fields.push(fld(None, "brandName", Some("NcString"), true, false));
        fields.push(fld(None, "uuid", Some("NcUuid"), true, false));
        fields.push(fld(None, "description", Some("NcString"), true, false));
        proof {
            assert(field_names(fields@) =~= nc_product_field_names());
        }
        let mut d = NcDatatypeDescriptorStruct {
            base: dt_struct_base("Product descriptor", "NcProduct"),
            fields,
            parent_type: None,
        };
        proof {
            assert(field_names(d.fields@) =~= field_names(d.fields@) + Seq::<Seq<char>>::empty());
        }
        d
    }
}

impl crate::types::NcDeviceOperationalState {
    /// The registry descriptor of the `NcDeviceOperationalState` datatype; with
    /// `include_inherited`, the parent's fields follow its own.
    pub fn get_type_descriptor(include_inherited: bool) -> (r: NcDatatypeDescriptorStruct)
        ensures
            r.base.name@ == "NcDeviceOperationalState"@,
            r.base.type_kind == NcDatatypeType::Struct,
            view_opt_str(r.parent_type) == None::<Seq<char>>,
            field_names(r.fields@) == nc_device_operational_state_field_names() + (if include_inherited {
                Seq::<Seq<char>>::empty()
            } else {
                Seq::<Seq<char>>::empty()
            }),
    {
        let mut fields: Vec<NcFieldDescriptor> = Vec::new();
        fields.push(fld(None, "generic", Some("NcDeviceGenericState"), false, false));
        fields.push(fld(None, "deviceSpecificDetails", Some("NcString"), true, false));
        proof {
            assert(field_names(fields@) =~= nc_device_operational_state_field_names());
        }
        let mut d = NcDatatypeDescriptorStruct {
            base: dt_struct_base("Device operational state", "NcDeviceOperationalState"),
            fields,
            parent_type: None,
        };
        proof {
            assert(field_names(d.fields@) =~= field_names(d.fields@) + Seq::<Seq<char>>::empty());
        }
        d
    }
}

impl crate::types::PropertyChangedEventData {
    /// The registry descriptor of the `NcPropertyChangedEventData` datatype; with
    /// `include_inherited`, the parent's fields follow its own.
    pub fn get_type_descriptor(include_inherited: bool) -> (r: NcDatatypeDescriptorStruct)
        ensures
            r.base.name@ == "NcPropertyChangedEventData"@,
            r.base.type_kind == NcDatatypeType::Struct,
            view_opt_str(r.parent_type) == None::<Seq<char>>,
            field_names(r.fields@) == nc_property_changed_event_data_field_names() + (if include_inherited {
                Seq::<Seq<char>>::empty()
            } else {
                Seq::<Seq<char>>::empty()
            }),
    {
        let mut fields: Vec<NcFieldDescriptor> = Vec::new();
        fields.push(fld(None, "propertyId", Some("NcPropertyId"), false, false));
        fields.push(fld(None, "changeType", Some("NcPropertyChangeType"), false, false));
        fields.push(fld(None, "value", None, true, false));
        fields.push(fld(None, "sequenceItemIndex", Some("NcId"), true, false));
        proof {
            assert(field_names(fields@) =~= nc_property_changed_event_data_field_names());
        }
        let mut d = NcDatatypeDescriptorStruct {
            base: dt_struct_base("Property changed event data", "NcPropertyChangedEventData"),
            fields,
            parent_type: None,
        };
        proof {
            assert(field_names(d.fields@) =~= field_names(d.fields@) + Seq::<Seq<char>>::empty());
        }
        d
    }
}

impl crate::descriptors::NcMethodResult {
    /// The registry descriptor of the `NcMethodResult` datatype; with
    /// `include_inherited`, the parent's fields follow its own.
    pub fn get_type_descriptor(include_inherited: bool) -> (r: NcDatatypeDescriptorStruct)
        ensures
            r.base.name@ == "NcMethodResult"@,
            r.base.type_kind == NcDatatypeType::Struct,
            view_opt_str(r.parent_type) == None::<Seq<char>>,
            field_names(r.fields@) == nc_method_result_field_names() + (if include_inherited {
                Seq::<Seq<char>>::empty()
            } else {
                Seq::<Seq<char>>::empty()
            }),
    {
        let mut fields: Vec<NcFieldDescriptor> = Vec::new();
        fields.push(fld(None, "status", Some("NcMethodStatus"), false, false));
        proof {
            assert(field_names(fields@) =~= nc_method_result_field_names());
        }
        let mut d = NcDatatypeDescriptorStruct {
            base: dt_struct_base("Method result base", "NcMethodResult"),
            fields,
            parent_type: None,
        };
        proof {
            assert(field_names(d.fields@) =~= field_names(d.fields@) + Seq::<Seq<char>>::empty());
        }
        d
    }
}

impl crate::descriptors::NcMethodResultPropertyValue {
    /// The registry descriptor of the `NcMethodResultPropertyValue` datatype; with
    /// `include_inherited`, the parent's fields follow its own.
    pub fn get_type_descriptor(include_inherited: bool) -> (r: NcDatatypeDescriptorStruct)
        ensures
            r.base.name@ == "NcMethodResultPropertyValue"@,
            r.base.type_kind == NcDatatypeType::Struct,
            view_opt_str(r.parent_type) == Some("NcMethodResult"@),
            field_names(r.fields@) == nc_method_result_property_value_field_names() + (if include_inherited {
                (nc_method_result_all_field_names())
            } else {
                Seq::<Seq<char>>::empty()
            }),
    {
        let mut fields: Vec<NcFieldDescriptor> = Vec::new();
        fields.push(fld(None, "value", None, true, false));
        proof {
            assert(field_names(fields@) =~= nc_method_result_property_value_field_names());
        }
        let mut d = NcDatatypeDescriptorStruct {
            base: dt_struct_base("Method result with property value", "NcMethodResultPropertyValue"),
            fields,
            parent_type: Some("NcMethodResult".to_owned()),
        };
        if include_inherited {
            let parent = crate::descriptors::NcMethodResult::get_type_descriptor(true);
            let ghost own = d.fields@;
            let mut pf = parent.fields;
            let ghost pf0 = pf@;
            d.fields.append(&mut pf);
            proof {
                lemma_field_names_concat(own, pf0);
            }
        } else {
            proof {
                assert(field_names(d.fields@) =~= field_names(d.fields@) + Seq::<
                    Seq<char>,
                >::empty());
            }
        }
        d
    }
}

impl crate::descriptors::NcMethodResultBlockMemberDescriptors {
    /// The registry descriptor of the `NcMethodResultBlockMemberDescriptors` datatype; with
    /// `include_inherited`, the parent's fields follow its own.
    pub fn get_type_descriptor(include_inherited: bool) -> (r: NcDatatypeDescriptorStruct)
        ensures
            r.base.name@ == "NcMethodResultBlockMemberDescriptors"@,
            r.base.type_kind == NcDatatypeType::Struct,
            view_opt_str(r.parent_type) == Some("NcMethodResult"@),
            field_names(r.fields@) == nc_method_result_block_member_descriptors_field_names() + (if include_inherited {
                (nc_method_result_all_field_names())
            } else {
                Seq::<Seq<char>>::empty()
            }),
    {
        let mut fields: Vec<NcFieldDescriptor> = Vec::new();
        fields.push(fld(None, "value", Some("NcBlockMemberDescriptor"), false, true));
        proof {
            assert(field_names(fields@) =~= nc_method_result_block_member_descriptors_field_names());
        }
        let mut d = NcDatatypeDescriptorStruct {
            base: dt_struct_base("NcMethodResultBlockMemberDescriptors", "NcMethodResultBlockMemberDescriptors"),
            fields,
            parent_type: Some("NcMethodResult".to_owned()),
        };
        if include_inherited {
            let parent = crate::descriptors::NcMethodResult::get_type_descriptor(true);
            let ghost own = d.fields@;
            let mut pf = parent.fields;
            let ghost pf0 = pf@;
            d.fields.append(&mut pf);
            proof {
                lemma_field_names_concat(own, pf0);
            }
        } else {
            proof {
                assert(field_names(d.fields@) =~= field_names(d.fields@) + Seq::<
                    Seq<char>,
                >::empty());
            }
        }
        d
    }
}

impl crate::descriptors::NcMethodResultClassDescriptor {
    /// The registry descriptor of the `NcMethodResultClassDescriptor` datatype; with
    /// `include_inherited`, the parent's fields follow its own.
    pub fn get_type_descriptor(include_inherited: bool) -> (r: NcDatatypeDescriptorStruct)
        ensures
            r.base.name@ == "NcMethodResultClassDescriptor"@,
            r.base.type_kind == NcDatatypeType::Struct,
            view_opt_str(r.parent_type) == Some("NcMethodResult"@),
            field_names(r.fields@) == nc_method_result_class_descriptor_field_names() + (if include_inherited {
                (nc_method_result_all_field_names())
            } else {
                Seq::<Seq<char>>::empty()
            }),
    {
        let mut fields: Vec<NcFieldDescriptor> = Vec::new();
        fields.push(fld(None, "value", Some("NcClassDescriptor"), false, false));
        proof {
            assert(field_names(fields@) =~= nc_method_result_class_descriptor_field_names());
        }
        let mut d = NcDatatypeDescriptorStruct {
            base: dt_struct_base("Method result containing a class descriptor", "NcMethodResultClassDescriptor"),
            fields,
            parent_type: Some("NcMethodResult".to_owned()),
        };
        if include_inherited {
            let parent = crate::descriptors::NcMethodResult::get_type_descriptor(true);
            let ghost own = d.fields@;
            let mut pf = parent.fields;
            let ghost pf0 = pf@;
            d.fields.append(&mut pf);
            proof {
                lemma_field_names_concat(own, pf0);
            }
        } else {
            proof {
                assert(field_names(d.fields@) =~= field_names(d.fields@) + Seq::<
                    Seq<char>,
                >::empty());
            }
        }
        d
    }
}

impl crate::descriptors::NcMethodResultDatatypeDescriptor {
    /// The registry descriptor of the `NcMethodResultDatatypeDescriptor` datatype; with
    /// `include_inherited`, the parent's fields follow its own.
    pub fn get_type_descriptor(include_inherited: bool) -> (r: NcDatatypeDescriptorStruct)
        ensures
            r.base.name@ == "NcMethodResultDatatypeDescriptor"@,
            r.base.type_kind == NcDatatypeType::Struct,
            view_opt_str(r.parent_type) == Some("NcMethodResult"@),
            field_names(r.fields@) == nc_method_result_datatype_descriptor_field_names() + (if include_inherited {
                (nc_method_result_all_field_names())
            } else {
                Seq::<Seq<char>>::empty()
            }),
    {
        let mut fields: Vec<NcFieldDescriptor> = Vec::new();
        fields.push(fld(None, "value", Some("NcDatatypeDescriptor"), false, false));
        proof {
            assert(field_names(fields@) =~= nc_method_result_datatype_descriptor_field_names());
        }
        let mut d = NcDatatypeDescriptorStruct {
            base: dt_struct_base("Method result containing a datatype descriptor", "NcMethodResultDatatypeDescriptor"),
            fields,
            parent_type: Some("NcMethodResult".to_owned()),
        };
        if include_inherited {
            let parent = crate::descriptors::NcMethodResult::get_type_descriptor(true);
            let ghost own = d.fields@;
            let mut pf = parent.fields;
            let ghost pf0 = pf@;
            d.fields.append(&mut pf);
            proof {
                lemma_field_names_concat(own, pf0);
            }
        } else {
            proof {
                assert(field_names(d.fields@) =~= field_names(d.fields@) + Seq::<
                    Seq<char>,
                >::empty());
            }
        }
        d
    }
}

impl crate::descriptors::NcMethodResultId {
    /// The registry descriptor of the `NcMethodResultId` datatype; with
    /// `include_inherited`, the parent's fields follow its own.
    pub fn get_type_descriptor(include_inherited: bool) -> (r: NcDatatypeDescriptorStruct)
        ensures
            r.base.name@ == "NcMethodResultId"@,
            r.base.type_kind == NcDatatypeType::Struct,
            view_opt_str(r.parent_type) == Some("NcMethodResult"@),
            field_names(r.fields@) == nc_method_result_id_field_names() + (if include_inherited {
                (nc_method_result_all_field_names())
            } else {
                Seq::<Seq<char>>::empty()
            }),
    {
        let mut fields: Vec<NcFieldDescriptor> = Vec::new();
        fields.push(fld(None, "value", Some("NcId"), false, false));
        proof {
            assert(field_names(fields@) =~= nc_method_result_id_field_names());
        }
        let mut d = NcDatatypeDescriptorStruct {
            base: dt_struct_base("Id method result", "NcMethodResultId"),
            fields,
            parent_type: Some("NcMethodResult".to_owned()),
        };
        if include_inherited {
            let parent = crate::descriptors::NcMethodResult::get_type_descriptor(true);
            let ghost own = d.fields@;
            let mut pf = parent.fields;
            let ghost pf0 = pf@;
            d.fields.append(&mut pf);
            proof {
                lemma_field_names_concat(own, pf0);
            }
        } else {
            proof {
                assert(field_names(d.fields@) =~= field_names(d.fields@) + Seq::<
                    Seq<char>,
                >::empty());
            }
        }
        d
    }
}

impl crate::descriptors::NcMethodResultLength {
    /// The registry descriptor of the `NcMethodResultLength` datatype; with
    /// `include_inherited`, the parent's fields follow its own.
    pub fn get_type_descriptor(include_inherited: bool) -> (r: NcDatatypeDescriptorStruct)
        ensures
            r.base.name@ == "NcMethodResultLength"@,
            r.base.type_kind == NcDatatypeType::Struct,
            view_opt_str(r.parent_type) == Some("NcMethodResult"@),
            field_names(r.fields@) == nc_method_result_length_field_names() + (if include_inherited {
                (nc_method_result_all_field_names())
            } else {
                Seq::<Seq<char>>::empty()
            }),
    {
        let mut fields: Vec<NcFieldDescriptor> = Vec::new();
        fields.push(fld(None, "value", Some("NcUint32"), true, false));
        proof {
            assert(field_names(fields@) =~= nc_method_result_length_field_names());
        }
        let mut d = NcDatatypeDescriptorStruct {
            base: dt_struct_base("Length method result", "NcMethodResultLength"),
            fields,
            parent_type: Some("NcMethodResult".to_owned()),
        };
        if include_inherited {
            let parent = crate::descriptors::NcMethodResult::get_type_descriptor(true);
            let ghost own = d.fields@;
            let mut pf = parent.fields;
            let ghost pf0 = pf@;
            d.fields.append(&mut pf);
            proof {
                lemma_field_names_concat(own, pf0);
            }
        } else {
            proof {
                assert(field_names(d.fields@) =~= field_names(d.fields@) + Seq::<
                    Seq<char>,
                >::empty());
            }
        }
        d
    }
}

impl crate::descriptors::NcMethodResultError {
    /// The registry descriptor of the `NcMethodResultError` datatype; with
    /// `include_inherited`, the parent's fields follow its own.
    pub fn get_type_descriptor(include_inherited: bool) -> (r: NcDatatypeDescriptorStruct)
        ensures
            r.base.name@ == "NcMethodResultError"@,
            r.base.type_kind == NcDatatypeType::Struct,
            view_opt_str(r.parent_type) == Some("NcMethodResult"@),
            field_names(r.fields@) == nc_method_result_error_field_names() + (if include_inherited {
                (nc_method_result_all_field_names())
            } else {
                Seq::<Seq<char>>::empty()
            }),
    {
        let mut fields: Vec<NcFieldDescriptor> = Vec::new();
        fields.push(fld(None, "errorMessage", Some("NcString"), false, false));
        proof {
            assert(field_names(fields@) =~= nc_method_result_error_field_names());
        }
        let mut d = NcDatatypeDescriptorStruct {
            base: dt_struct_base("Method result error", "NcMethodResultError"),
            fields,
            parent_type: Some("NcMethodResult".to_owned()),
        };
        if include_inherited {
            let parent = crate::descriptors::NcMethodResult::get_type_descriptor(true);
            let ghost own = d.fields@;
            let mut pf = parent.fields;
            let ghost pf0 = pf@;
            d.fields.append(&mut pf);
            proof {
                lemma_field_names_concat(own, pf0);
            }
        } else {
            proof {
                assert(field_names(d.fields@) =~= field_names(d.fields@) + Seq::<
                    Seq<char>,
                >::empty());
            }
        }
        d
    }
}

impl crate::types::NcPropertyConstraintsBase {
    /// The registry descriptor of the `NcPropertyConstraints` datatype; with
    /// `include_inherited`, the parent's fields follow its own.
    pub fn get_type_descriptor(include_inherited: bool) -> (r: NcDatatypeDescriptorStruct)
        ensures
            r.base.name@ == "NcPropertyConstraints"@,
            r.base.type_kind == NcDatatypeType::Struct,
            view_opt_str(r.parent_type) == None::<Seq<char>>,
            field_names(r.fields@) == nc_property_constraints_field_names() + (if include_inherited {
                Seq::<Seq<char>>::empty()
            } else {
                Seq::<Seq<char>>::empty()
            }),
    {
        let mut fields: Vec<NcFieldDescriptor> = Vec::new();
        fields.push(fld(None, "propertyId", Some("NcPropertyId"), false, false));
        fields.push(fld(None, "defaultValue", None, true, false));
        proof {
            assert(field_names(fields@) =~= nc_property_constraints_field_names());
        }
        let mut d = NcDatatypeDescriptorStruct {
            base: dt_struct_base("Base property constraints", "NcPropertyConstraints"),
            fields,
            parent_type: None,
        };
        proof {
            assert(field_names(d.fields@) =~= field_names(d.fields@) + Seq::<Seq<char>>::empty());
        }
        d
    }
}

impl crate::types::NcPropertyConstraintsNumber {
    /// The registry descriptor of the `NcPropertyConstraintsNumber` datatype; with
    /// `include_inherited`, the parent's fields follow its own.
    pub fn get_type_descriptor(include_inherited: bool) -> (r: NcDatatypeDescriptorStruct)
        ensures
            r.base.name@ == "NcPropertyConstraintsNumber"@,
            r.base.type_kind == NcDatatypeType::Struct,
            view_opt_str(r.parent_type) == Some("NcPropertyConstraints"@),
            field_names(r.fields@) == nc_property_constraints_number_field_names() + (if include_inherited {
                (nc_property_constraints_all_field_names())
            } else {
                Seq::<Seq<char>>::empty()
            }),
    {
        let mut fields: Vec<NcFieldDescriptor> = Vec::new();
        fields.push(fld(None, "maximum", None, true, false));
        fields.push(fld(None, "minimum", None, true, false));
        fields.push(fld(None, "step", None, true, false));
        proof {
            assert(field_names(fields@) =~= nc_property_constraints_number_field_names());
        }
        let mut d = NcDatatypeDescriptorStruct {
            base: dt_struct_base("Numeric property constraints", "NcPropertyConstraintsNumber"),
            fields,
            parent_type: Some("NcPropertyConstraints".to_owned()),
        };
        if include_inherited {
            let parent = crate::types::NcPropertyConstraintsBase::get_type_descriptor(true);
            let ghost own = d.fields@;
            let mut pf = parent.fields;
            let ghost pf0 = pf@;
            d.fields.append(&mut pf);
            proof {
                lemma_field_names_concat(own, pf0);
            }
        } else {
            proof {
                assert(field_names(d.fields@) =~= field_names(d.fields@) + Seq::<
                    Seq<char>,
                >::empty());
            }
        }
        d
    }
}

impl crate::types::NcPropertyConstraintsString {
    /// The registry descriptor of the `NcPropertyConstraintsString` datatype; with
    /// `include_inherited`, the parent's fields follow its own.
    pub fn get_type_descriptor(include_inherited: bool) -> (r: NcDatatypeDescriptorStruct)
        ensures
            r.base.name@ == "NcPropertyConstraintsString"@,
            r.base.type_kind == NcDatatypeType::Struct,
            view_opt_str(r.parent_type) == Some("NcPropertyConstraints"@),
            field_names(r.fields@) == nc_property_constraints_string_field_names() + (if include_inherited {
                (nc_property_constraints_all_field_names())
            } else {
                Seq::<Seq<char>>::empty()
            }),
    {
        let mut fields: Vec<NcFieldDescriptor> = Vec::new();
        fields.push(fld(None, "maxCharacters", Some("NcUint32"), true, false));
        fields.push(fld(None, "pattern", Some("NcRegex"), true, false));
        proof {
            assert(field_names(fields@) =~= nc_property_constraints_string_field_names());
        }
        let mut d = NcDatatypeDescriptorStruct {
            base: dt_struct_base("String property constraints", "NcPropertyConstraintsString"),
            fields,
            parent_type: Some("NcPropertyConstraints".to_owned()),
        };
        if include_inherited {
            let parent = crate::types::NcPropertyConstraintsBase::get_type_descriptor(true);
            let ghost own = d.fields@;
            let mut pf = parent.fields;
            let ghost pf0 = pf@;
            d.fields.append(&mut pf);
            proof {
                lemma_field_names_concat(own, pf0);
            }
        } else {
            proof {
                assert(field_names(d.fields@) =~= field_names(d.fields@) + Seq::<
                    Seq<char>,
                >::empty());
            }
        }
        d
    }
}


// ---------------------------------------------------------------------------
// Class descriptors
// ---------------------------------------------------------------------------

use crate::types::NcElementId;

pub open spec fn prop_ids(s: Seq<NcPropertyDescriptor>) -> Seq<NcElementId> {
    s.map_values(|p: NcPropertyDescriptor| p.id)
}

pub open spec fn method_ids(s: Seq<NcMethodDescriptor>) -> Seq<NcElementId> {
    s.map_values(|m: NcMethodDescriptor| m.id)
}

pub open spec fn event_ids(s: Seq<NcEventDescriptor>) -> Seq<NcElementId> {
    s.map_values(|e: NcEventDescriptor| e.id)
}

pub proof fn lemma_prop_ids_concat(a: Seq<NcPropertyDescriptor>, b: Seq<NcPropertyDescriptor>)
    ensures
        prop_ids(a + b) == prop_ids(a) + prop_ids(b),
{
    assert(prop_ids(a + b) =~= prop_ids(a) + prop_ids(b));
}

pub proof fn lemma_method_ids_concat(a: Seq<NcMethodDescriptor>, b: Seq<NcMethodDescriptor>)
    ensures
        method_ids(a + b) == method_ids(a) + method_ids(b),
{
    assert(method_ids(a + b) =~= method_ids(a) + method_ids(b));
}

pub proof fn lemma_event_ids_concat(a: Seq<NcEventDescriptor>, b: Seq<NcEventDescriptor>)
    ensures
        event_ids(a + b) == event_ids(a) + event_ids(b),
{
    assert(event_ids(a + b) =~= event_ids(a) + event_ids(b));
}

/// The id, read-only flag and sequence flag of each property descriptor,
/// in order.
pub open spec fn prop_meta(s: Seq<NcPropertyDescriptor>) -> Seq<(NcElementId, bool, bool)> {
    s.map_values(|p: NcPropertyDescriptor| (p.id, p.is_read_only, p.is_sequence))
}

pub proof fn lemma_prop_meta_concat(a: Seq<NcPropertyDescriptor>, b: Seq<NcPropertyDescriptor>)
    ensures
        prop_meta(a + b) == prop_meta(a) + prop_meta(b),
{
    assert(prop_meta(a + b) =~= prop_meta(a) + prop_meta(b));
}

/// One property descriptor without constraints.
fn prop(
    desc: &str,
    level: u16,
    index: u16,
    name: &str,
    ty: &str,
    read_only: bool,
    nullable: bool,
    sequence: bool,
) -> (r: NcPropertyDescriptor)
    ensures
        r.id == (NcElementId { level, index }),
        r.name@ == name@,
        r.is_read_only == read_only,
        r.is_sequence == sequence,
{
    NcPropertyDescriptor {
        base: NcDescriptor { description: Some(desc.to_owned()) },
        id: NcElementId { level, index },
        name: name.to_owned(),
        ty_name: Some(ty.to_owned()),
        is_read_only: read_only,
        is_nullable: nullable,
        is_sequence: sequence,
        is_deprecated: false,
        constraints: None,
    }
}

/// One parameter descriptor without constraints.
fn param(desc: &str, name: &str, ty: Option<&str>, nullable: bool) -> (r: NcParameterDescriptor)
    ensures
        r.name@ == name@,
{
    NcParameterDescriptor {
        base: NcDescriptor { description: Some(desc.to_owned()) },
        name: name.to_owned(),
        ty_name: match ty {
            Some(t) => Some(t.to_owned()),
            None => None,
        },
        is_nullable: nullable,
        is_sequence: false,
        constraints: None,
    }
}

/// One method descriptor.
fn method(
    desc: Option<&str>,
    level: u16,
    index: u16,
    name: &str,
    result_datatype: &str,
    parameters: Vec<NcParameterDescriptor>,
) -> (r: NcMethodDescriptor)
    ensures
        r.id == (NcElementId { level, index }),
        r.name@ == name@,
{
    NcMethodDescriptor {
        base: NcDescriptor {
            description: match desc {
                Some(d) => Some(d.to_owned()),
                None => None,
            },
        },
        id: NcElementId { level, index },
        name: name.to_owned(),
        result_datatype: result_datatype.to_owned(),
        parameters,
        is_deprecated: false,
    }
}

pub open spec fn object_prop_ids() -> Seq<NcElementId> {
    seq![NcElementId { level: 1, index: 1 }, NcElementId { level: 1, index: 2 }, NcElementId { level: 1, index: 3 }, NcElementId { level: 1, index: 4 }, NcElementId { level: 1, index: 5 }, NcElementId { level: 1, index: 6 }, NcElementId { level: 1, index: 7 }, NcElementId { level: 1, index: 8 }]
}

pub open spec fn object_all_prop_ids() -> Seq<NcElementId> {
    object_prop_ids()
}

pub open spec fn object_method_ids() -> Seq<NcElementId> {
    seq![NcElementId { level: 1, index: 1 }, NcElementId { level: 1, index: 2 }, NcElementId { level: 1, index: 3 }, NcElementId { level: 1, index: 4 }, NcElementId { level: 1, index: 5 }, NcElementId { level: 1, index: 6 }, NcElementId { level: 1, index: 7 }]
}

pub open spec fn object_all_method_ids() -> Seq<NcElementId> {
    object_method_ids()
}

pub open spec fn object_event_ids() -> Seq<NcElementId> {
    seq![NcElementId { level: 1, index: 1 }]
}

pub open spec fn object_all_event_ids() -> Seq<NcElementId> {
    object_event_ids()
}

pub open spec fn object_prop_meta() -> Seq<(NcElementId, bool, bool)> {
    seq![
        (NcElementId { level: 1, index: 1 }, true, false),
        (NcElementId { level: 1, index: 2 }, true, false),
        (NcElementId { level: 1, index: 3 }, true, false),
        (NcElementId { level: 1, index: 4 }, true, false),
        (NcElementId { level: 1, index: 5 }, true, false),
        (NcElementId { level: 1, index: 6 }, false, false),
        (NcElementId { level: 1, index: 7 }, true, true),
        (NcElementId { level: 1, index: 8 }, true, true),
    ]
}

pub open spec fn object_all_prop_meta() -> Seq<(NcElementId, bool, bool)> {
    object_prop_meta()
}

pub open spec fn block_prop_ids() -> Seq<NcElementId> {
    seq![NcElementId { level: 2, index: 1 }, NcElementId { level: 2, index: 2 }]
}

pub open spec fn block_all_prop_ids() -> Seq<NcElementId> {
    block_prop_ids() + object_all_prop_ids()
}

pub open spec fn block_method_ids() -> Seq<NcElementId> {
    seq![NcElementId { level: 2, index: 1 }, NcElementId { level: 2, index: 2 }, NcElementId { level: 2, index: 3 }, NcElementId { level: 2, index: 4 }]
}

pub open spec fn block_all_method_ids() -> Seq<NcElementId> {
    block_method_ids() + object_all_method_ids()
}

pub open spec fn block_event_ids() -> Seq<NcElementId> {
    Seq::empty()
}

pub open spec fn block_all_event_ids() -> Seq<NcElementId> {
    block_event_ids() + object_all_event_ids()
}

pub open spec fn block_prop_meta() -> Seq<(NcElementId, bool, bool)> {
    seq![
        (NcElementId { level: 2, index: 1 }, true, false),
        (NcElementId { level: 2, index: 2 }, true, true),
    ]
}

pub open spec fn block_all_prop_meta() -> Seq<(NcElementId, bool, bool)> {
    block_prop_meta() + object_all_prop_meta()
}

pub open spec fn worker_prop_ids() -> Seq<NcElementId> {
    seq![NcElementId { level: 2, index: 1 }]
}

pub open spec fn worker_all_prop_ids() -> Seq<NcElementId> {
    worker_prop_ids() + object_all_prop_ids()
}

pub open spec fn worker_method_ids() -> Seq<NcElementId> {
    Seq::empty()
}

pub open spec fn worker_all_method_ids() -> Seq<NcElementId> {
    worker_method_ids() + object_all_method_ids()
}

pub open spec fn worker_event_ids() -> Seq<NcElementId> {
    Seq::empty()
}

pub open spec fn worker_all_event_ids() -> Seq<NcElementId> {
    worker_event_ids() + object_all_event_ids()
}

pub open spec fn worker_prop_meta() -> Seq<(NcElementId, bool, bool)> {
    seq![
        (NcElementId { level: 2, index: 1 }, false, false),
    ]
}

pub open spec fn worker_all_prop_meta() -> Seq<(NcElementId, bool, bool)> {
    worker_prop_meta() + object_all_prop_meta()
}

pub open spec fn manager_prop_ids() -> Seq<NcElementId> {
    Seq::empty()
}

pub open spec fn manager_all_prop_ids() -> Seq<NcElementId> {
    manager_prop_ids() + object_all_prop_ids()
}

pub open spec fn manager_method_ids() -> Seq<NcElementId> {
    Seq::empty()
}

pub open spec fn manager_all_method_ids() -> Seq<NcElementId> {
    manager_method_ids() + object_all_method_ids()
}

pub open spec fn manager_event_ids() -> Seq<NcElementId> {
    Seq::empty()
}

pub open spec fn manager_all_event_ids() -> Seq<NcElementId> {
    manager_event_ids() + object_all_event_ids()
}

pub open spec fn manager_prop_meta() -> Seq<(NcElementId, bool, bool)> {
    Seq::empty()
}

pub open spec fn manager_all_prop_meta() -> Seq<(NcElementId, bool, bool)> {
    manager_prop_meta() + object_all_prop_meta()
}

pub open spec fn device_manager_prop_ids() -> Seq<NcElementId> {
    seq![NcElementId { level: 3, index: 1 }, NcElementId { level: 3, index: 2 }, NcElementId { level: 3, index: 3 }, NcElementId { level: 3, index: 4 }, NcElementId { level: 3, index: 5 }, NcElementId { level: 3, index: 6 }, NcElementId { level: 3, index: 7 }, NcElementId { level: 3, index: 8 }, NcElementId { level: 3, index: 9 }, NcElementId { level: 3, index: 10 }]
}

pub open spec fn device_manager_all_prop_ids() -> Seq<NcElementId> {
    device_manager_prop_ids() + manager_all_prop_ids()
}

pub open spec fn device_manager_method_ids() -> Seq<NcElementId> {
    Seq::empty()
}

pub open spec fn device_manager_all_method_ids() -> Seq<NcElementId> {
    device_manager_method_ids() + manager_all_method_ids()
}

pub open spec fn device_manager_event_ids() -> Seq<NcElementId> {
    Seq::empty()
}

pub open spec fn device_manager_all_event_ids() -> Seq<NcElementId> {
    device_manager_event_ids() + manager_all_event_ids()
}

pub open spec fn device_manager_prop_meta() -> Seq<(NcElementId, bool, bool)> {
    seq![
        (NcElementId { level: 3, index: 1 }, true, false),
        (NcElementId { level: 3, index: 2 }, true, false),
        (NcElementId { level: 3, index: 3 }, true, false),
        (NcElementId { level: 3, index: 4 }, true, false),
        (NcElementId { level: 3, index: 5 }, false, false),
        (NcElementId { level: 3, index: 6 }, false, false),
        (NcElementId { level: 3, index: 7 }, false, false),
        (NcElementId { level: 3, index: 8 }, true, false),
        (NcElementId { level: 3, index: 9 }, true, false),
        (NcElementId { level: 3, index: 10 }, true, false),
    ]
}

pub open spec fn device_manager_all_prop_meta() -> Seq<(NcElementId, bool, bool)> {
    device_manager_prop_meta() + manager_all_prop_meta()
}

pub open spec fn class_manager_prop_ids() -> Seq<NcElementId> {
    seq![NcElementId { level: 3, index: 1 }, NcElementId { level: 3, index: 2 }]
}

pub open spec fn class_manager_all_prop_ids() -> Seq<NcElementId> {
    class_manager_prop_ids() + manager_all_prop_ids()
}

pub open spec fn class_manager_method_ids() -> Seq<NcElementId> {
    seq![NcElementId { level: 3, index: 1 }, NcElementId { level: 3, index: 2 }]
}

pub open spec fn class_manager_all_method_ids() -> Seq<NcElementId> {
    class_manager_method_ids() + manager_all_method_ids()
}

pub open spec fn class_manager_event_ids() -> Seq<NcElementId> {
    Seq::empty()
}

pub open spec fn class_manager_all_event_ids() -> Seq<NcElementId> {
    class_manager_event_ids() + manager_all_event_ids()
}

pub open spec fn class_manager_prop_meta() -> Seq<(NcElementId, bool, bool)> {
    seq![
        (NcElementId { level: 3, index: 1 }, true, true),
        (NcElementId { level: 3, index: 2 }, true, true),
    ]
}

pub open spec fn class_manager_all_prop_meta() -> Seq<(NcElementId, bool, bool)> {
    class_manager_prop_meta() + manager_all_prop_meta()
}

impl crate::object::NcObject {
    /// The class descriptor of `NcObject`; with `include_inherited`, the
    /// flattened element lists hold its own elements first, then every
    /// ancestor's, in inheritance order.
    pub fn get_class_descriptor(include_inherited: bool) -> (r: NcClassDescriptor)
        ensures
            r.class_id@ == seq![1u32],
            r.name@ == "NcObject"@,
            view_opt_str(r.fixed_role) == None::<Seq<char>>,
            prop_ids(r.properties@) == (if include_inherited {
                object_all_prop_ids()
            } else {
                object_prop_ids()
            }),
            method_ids(r.methods@) == (if include_inherited {
                object_all_method_ids()
            } else {
                object_method_ids()
            }),
            event_ids(r.events@) == (if include_inherited {
                object_all_event_ids()
            } else {
                object_event_ids()
            }),
            prop_meta(r.properties@) == (if include_inherited {
                object_all_prop_meta()
            } else {
                object_prop_meta()
            }),
    {
        let mut class_id: Vec<u32> = Vec::new();
        class_id.push(1);
        proof {
            assert(class_id@ =~= seq![1u32]);
        }
        let mut properties: Vec<NcPropertyDescriptor> = Vec::new();
        properties.push(prop("Static value. All instances of the same class will have the same identity value", 1, 1, "classId", "NcClassId", true, false, false));
        properties.push(prop("Object identifier", 1, 2, "oid", "NcOid", true, false, false));
        properties.push(prop("TRUE iff OID is hardwired into device", 1, 3, "constantOid", "NcBoolean", true, false, false));
        properties.push(prop("OID of containing block. Can only ever be null for the root block", 1, 4, "owner", "NcOid", true, true, false));
        properties.push(prop("role of obj in containing block", 1, 5, "role", "NcString", true, false, false));
        properties.push(prop("Scribble strip", 1, 6, "userLabel", "NcString", false, true, false));
        properties.push(prop("Touchpoints to other contexts", 1, 7, "touchpoints", "NcTouchpoint", true, true, true));
        properties.push(prop("Runtime property constraints", 1, 8, "runtimePropertyConstraints", "NcPropertyConstraints", true, true, true));
        let mut methods: Vec<NcMethodDescriptor> = Vec::new();
        {
            let mut ps: Vec<NcParameterDescriptor> = Vec::new();
            ps.push(param("Property id", "id", Some("NcPropertyId"), false));
            methods.push(method(Some("Get property value"), 1, 1, "Get", "NcMethodResultPropertyValue", ps));
        }
        {
            let mut ps: Vec<NcParameterDescriptor> = Vec::new();
            ps.push(param("Property id", "id", Some("NcPropertyId"), false));
            ps.push(param("Property value", "value", None, true));
            methods.push(method(Some("Set property value"), 1, 2, "Set", "NcMethodResult", ps));
        }
        {
            let mut ps: Vec<NcParameterDescriptor> = Vec::new();
            ps.push(param("Property id", "id", Some("NcPropertyId"), false));
            ps.push(param("Index of item in the sequence", "index", Some("NcId"), false));
            methods.push(method(Some("Get sequence item"), 1, 3, "GetSequenceItem", "NcMethodResultPropertyValue", ps));
        }
        {
            let mut ps: Vec<NcParameterDescriptor> = Vec::new();
            ps.push(param("Property id", "id", Some("NcPropertyId"), false));
            ps.push(param("Index of item in the sequence", "index", Some("NcId"), false));
            ps.push(param("Value", "value", None, true));
            methods.push(method(Some("Set sequence item value"), 1, 4, "SetSequenceItem", "NcMethodResult", ps));
        }
        {
            let mut ps: Vec<NcParameterDescriptor> = Vec::new();
            ps.push(param("Property id", "id", Some("NcPropertyId"), false));
            ps.push(param("Value", "value", None, true));
            methods.push(method(Some("Add item to sequence"), 1, 5, "AddSequenceItem", "NcMethodResultId", ps));
        }
        {
            let mut ps: Vec<NcParameterDescriptor> = Vec::new();
            ps.push(param("Property id", "id", Some("NcPropertyId"), false));
            ps.push(param("Index of item in the sequence", "index", Some("NcId"), false));
            methods.push(method(Some("Delete sequence item"), 1, 6, "RemoveSequenceItem", "NcMethodResult", ps));
        }
        {
            let mut ps: Vec<NcParameterDescriptor> = Vec::new();
            ps.push(param("Property id", "id", Some("NcPropertyId"), false));
            methods.push(method(Some("Get sequence length"), 1, 7, "GetSequenceLength", "NcMethodResultLength", ps));
        }
        let mut events: Vec<NcEventDescriptor> = Vec::new();
        events.push(NcEventDescriptor {
            base: NcDescriptor { description: Some("Property changed event".to_owned()) },
            id: NcElementId { level: 1, index: 1 },
            name: "PropertyChanged".to_owned(),
            event_datatype: "NcPropertyChangedEventData".to_owned(),
            is_deprecated: false,
        });
        proof {
            assert(prop_ids(properties@) =~= object_prop_ids());
            assert(prop_meta(properties@) =~= object_prop_meta());
            assert(method_ids(methods@) =~= object_method_ids());
            assert(event_ids(events@) =~= object_event_ids());
        }
        let mut d = NcClassDescriptor {
            base: NcDescriptor { description: Some("NcObject class descriptor".to_owned()) },
            class_id,
            name: "NcObject".to_owned(),
            fixed_role: None,
            properties,
            methods,
            events,
        };
        d
    }
}

impl crate::block::NcBlock {
    /// The class descriptor of `NcBlock`; with `include_inherited`, the
    /// flattened element lists hold its own elements first, then every
    /// ancestor's, in inheritance order.
    pub fn get_class_descriptor(include_inherited: bool) -> (r: NcClassDescriptor)
        ensures
            r.class_id@ == seq![1u32, 1u32],
            r.name@ == "NcBlock"@,
            view_opt_str(r.fixed_role) == None::<Seq<char>>,
            prop_ids(r.properties@) == (if include_inherited {
                block_all_prop_ids()
            } else {
                block_prop_ids()
            }),
            method_ids(r.methods@) == (if include_inherited {
                block_all_method_ids()
            } else {
                block_method_ids()
            }),
            event_ids(r.events@) == (if include_inherited {
                block_all_event_ids()
            } else {
                block_event_ids()
            }),
            prop_meta(r.properties@) == (if include_inherited {
                block_all_prop_meta()
            } else {
                block_prop_meta()
            }),
    {
        let mut class_id: Vec<u32> = Vec::new();
        class_id.push(1);
        class_id.push(1);
        proof {
            assert(class_id@ =~= seq![1u32, 1u32]);
        }
        let mut properties: Vec<NcPropertyDescriptor> = Vec::new();
        properties.push(prop("TRUE if block is functional", 2, 1, "enabled", "NcBoolean", true, false, false));
        properties.push(prop("Descriptors of this block's members", 2, 2, "members", "NcBlockMemberDescriptor", true, false, true));
        let mut methods: Vec<NcMethodDescriptor> = Vec::new();
        {
            let mut ps: Vec<NcParameterDescriptor> = Vec::new();
            ps.push(param("If recurse is set to true, nested members can be retrieved", "recurse", Some("NcBoolean"), false));
            methods.push(method(Some("Gets descriptors of members of the block"), 2, 1, "GetMemberDescriptors", "NcMethodResultBlockMemberDescriptors", ps));
        }
        {
            let mut ps: Vec<NcParameterDescriptor> = Vec::new();
            ps.push(param("Relative path to search for (MUST not include the role of the block targeted by oid)", "path", Some("NcRolePath"), false));
            methods.push(method(Some("Finds member(s) by path"), 2, 2, "FindMembersByPath", "NcMethodResultBlockMemberDescriptors", ps));
        }
        {
            let mut ps: Vec<NcParameterDescriptor> = Vec::new();
            ps.push(param("Role text to search for", "role", Some("NcString"), false));
            ps.push(param("Signals if the comparison should be case sensitive", "caseSensitive", Some("NcBoolean"), false));
            ps.push(param("TRUE to only return exact matches", "matchWholeString", Some("NcBoolean"), false));
            ps.push(param("TRUE to search nested blocks", "recurse", Some("NcBoolean"), false));
            methods.push(method(Some("Finds members with given role name or fragment"), 2, 3, "FindMembersByRole", "NcMethodResultBlockMemberDescriptors", ps));
        }
        {
            let mut ps: Vec<NcParameterDescriptor> = Vec::new();
            ps.push(param("Class id to search for", "classId", Some("NcClassId"), false));
            ps.push(param("If TRUE it will also include derived class descriptors", "includeDerived", Some("NcBoolean"), false));
            ps.push(param("TRUE to search nested blocks", "recurse", Some("NcBoolean"), false));
            methods.push(method(Some("Finds members with given class id"), 2, 4, "FindMembersByClassId", "NcMethodResultBlockMemberDescriptors", ps));
        }
        let mut events: Vec<NcEventDescriptor> = Vec::new();
        proof {
            assert(prop_ids(properties@) =~= block_prop_ids());
            assert(prop_meta(properties@) =~= block_prop_meta());
            assert(method_ids(methods@) =~= block_method_ids());
            assert(event_ids(events@) =~= block_event_ids());
        }
        let mut d = NcClassDescriptor {
            base: NcDescriptor { description: Some("NcBlock class descriptor".to_owned()) },
            class_id,
            name: "NcBlock".to_owned(),
            fixed_role: None,
            properties,
            methods,
            events,
        };
        if include_inherited {
            let parent = crate::object::NcObject::get_class_descriptor(true);
            let ghost own_p = d.properties@;
            let ghost own_m = d.methods@;
            let ghost own_e = d.events@;
            let mut pp = parent.properties;
            let ghost pp0 = pp@;
            d.properties.append(&mut pp);
            let mut pm = parent.methods;
            let ghost pm0 = pm@;
            d.methods.append(&mut pm);
            let mut pe = parent.events;
            let ghost pe0 = pe@;
            d.events.append(&mut pe);
            proof {
                lemma_prop_ids_concat(own_p, pp0);
                lemma_prop_meta_concat(own_p, pp0);
                lemma_method_ids_concat(own_m, pm0);
                lemma_event_ids_concat(own_e, pe0);
            }
        }
        d
    }
}

impl crate::worker::NcWorker {
    /// The class descriptor of `NcWorker`; with `include_inherited`, the
    /// flattened element lists hold its own elements first, then every
    /// ancestor's, in inheritance order.
    pub fn get_class_descriptor(include_inherited: bool) -> (r: NcClassDescriptor)
        ensures
            r.class_id@ == seq![1u32, 2u32],
            r.name@ == "NcWorker"@,
            view_opt_str(r.fixed_role) == None::<Seq<char>>,
            prop_ids(r.properties@) == (if include_inherited {
                worker_all_prop_ids()
            } else {
                worker_prop_ids()
            }),
            method_ids(r.methods@) == (if include_inherited {
                worker_all_method_ids()
            } else {
                worker_method_ids()
            }),
            event_ids(r.events@) == (if include_inherited {
                worker_all_event_ids()
            } else {
                worker_event_ids()
            }),
            prop_meta(r.properties@) == (if include_inherited {
                worker_all_prop_meta()
            } else {
                worker_prop_meta()
            }),
    {
        let mut class_id: Vec<u32> = Vec::new();
        class_id.push(1);
        class_id.push(2);
        proof {
            assert(class_id@ =~= seq![1u32, 2u32]);
        }
        let mut properties: Vec<NcPropertyDescriptor> = Vec::new();
        properties.push(prop("Indicates if the worker is enabled", 2, 1, "enabled", "NcBoolean", false, false, false));
        let mut methods: Vec<NcMethodDescriptor> = Vec::new();
        let mut events: Vec<NcEventDescriptor> = Vec::new();
        proof {
            assert(prop_ids(properties@) =~= worker_prop_ids());
            assert(prop_meta(properties@) =~= worker_prop_meta());
            assert(method_ids(methods@) =~= worker_method_ids());
            assert(event_ids(events@) =~= worker_event_ids());
        }
        let mut d = NcClassDescriptor {
            base: NcDescriptor { description: Some("NcWorker class descriptor".to_owned()) },
            class_id,
            name: "NcWorker".to_owned(),
            fixed_role: None,
            properties,
            methods,
            events,
        };
        if include_inherited {
            let parent = crate::object::NcObject::get_class_descriptor(true);
            let ghost own_p = d.properties@;
            let ghost own_m = d.methods@;
            let ghost own_e = d.events@;
            let mut pp = parent.properties;
            let ghost pp0 = pp@;
            d.properties.append(&mut pp);
            let mut pm = parent.methods;
            let ghost pm0 = pm@;
            d.methods.append(&mut pm);
            let mut pe = parent.events;
            let ghost pe0 = pe@;
            d.events.append(&mut pe);
            proof {
                lemma_prop_ids_concat(own_p, pp0);
                lemma_prop_meta_concat(own_p, pp0);
                lemma_method_ids_concat(own_m, pm0);
                lemma_event_ids_concat(own_e, pe0);
            }
        }
        d
    }
}

impl crate::manager::NcManager {
    /// The class descriptor of `NcManager`; with `include_inherited`, the
    /// flattened element lists hold its own elements first, then every
    /// ancestor's, in inheritance order.
    pub fn get_class_descriptor(include_inherited: bool) -> (r: NcClassDescriptor)
        ensures
            r.class_id@ == seq![1u32, 3u32],
            r.name@ == "NcManager"@,
            view_opt_str(r.fixed_role) == None::<Seq<char>>,
            prop_ids(r.properties@) == (if include_inherited {
                manager_all_prop_ids()
            } else {
                manager_prop_ids()
            }),
            method_ids(r.methods@) == (if include_inherited {
                manager_all_method_ids()
            } else {
                manager_method_ids()
            }),
            event_ids(r.events@) == (if include_inherited {
                manager_all_event_ids()
            } else {
                manager_event_ids()
            }),
            prop_meta(r.properties@) == (if include_inherited {
                manager_all_prop_meta()
            } else {
                manager_prop_meta()
            }),
    {
        let mut class_id: Vec<u32> = Vec::new();
        class_id.push(1);
        class_id.push(3);
        proof {
            assert(class_id@ =~= seq![1u32, 3u32]);
        }
        let mut properties: Vec<NcPropertyDescriptor> = Vec::new();
        let mut methods: Vec<NcMethodDescriptor> = Vec::new();
        let mut events: Vec<NcEventDescriptor> = Vec::new();
        proof {
            assert(prop_ids(properties@) =~= manager_prop_ids());
            assert(prop_meta(properties@) =~= manager_prop_meta());
            assert(method_ids(methods@) =~= manager_method_ids());
            assert(event_ids(events@) =~= manager_event_ids());
        }
        let mut d = NcClassDescriptor {
            base: NcDescriptor { description: Some("NcManager class descriptor".to_owned()) },
            class_id,
            name: "NcManager".to_owned(),
            fixed_role: None,
            properties,
            methods,
            events,
        };
        if include_inherited {
            let parent = crate::object::NcObject::get_class_descriptor(true);
            let ghost own_p = d.properties@;
            let ghost own_m = d.methods@;
            let ghost own_e = d.events@;
            let mut pp = parent.properties;
            let ghost pp0 = pp@;
            d.properties.append(&mut pp);
            let mut pm = parent.methods;
            let ghost pm0 = pm@;
            d.methods.append(&mut pm);
            let mut pe = parent.events;
            let ghost pe0 = pe@;
            d.events.append(&mut pe);
            proof {
                lemma_prop_ids_concat(own_p, pp0);
                lemma_prop_meta_concat(own_p, pp0);
                lemma_method_ids_concat(own_m, pm0);
                lemma_event_ids_concat(own_e, pe0);
            }
        }
        d
    }
}

impl crate::device_manager::NcDeviceManager {
    /// The class descriptor of `NcDeviceManager`; with `include_inherited`, the
    /// flattened element lists hold its own elements first, then every
    /// ancestor's, in inheritance order.
    pub fn get_class_descriptor(include_inherited: bool) -> (r: NcClassDescriptor)
        ensures
            r.class_id@ == seq![1u32, 3u32, 1u32],
            r.name@ == "NcDeviceManager"@,
            view_opt_str(r.fixed_role) == Some("DeviceManager"@),
            prop_ids(r.properties@) == (if include_inherited {
                device_manager_all_prop_ids()
            } else {
                device_manager_prop_ids()
            }),
            method_ids(r.methods@) == (if include_inherited {
                device_manager_all_method_ids()
            } else {
                device_manager_method_ids()
            }),
            event_ids(r.events@) == (if include_inherited {
                device_manager_all_event_ids()
            } else {
                device_manager_event_ids()
            }),
            prop_meta(r.properties@) == (if include_inherited {
                device_manager_all_prop_meta()
            } else {
                device_manager_prop_meta()
            }),
    {
        let mut class_id: Vec<u32> = Vec::new();
        class_id.push(1);
        class_id.push(3);
        class_id.push(1);
        proof {
            assert(class_id@ =~= seq![1u32, 3u32, 1u32]);
        }
        let mut properties: Vec<NcPropertyDescriptor> = Vec::new();
        properties.push(prop("Version of nc this dev uses", 3, 1, "ncVersion", "NcVersionCode", true, false, false));
        properties.push(prop("Manufacturer descriptor", 3, 2, "manufacturer", "NcManufacturer", true, false, false));
        properties.push(prop("Product descriptor", 3, 3, "product", "NcProduct", true, false, false));
        properties.push(prop("Serial number", 3, 4, "serialNumber", "NcString", true, false, false));
        properties.push(prop("Asset tracking identifier (user specified)", 3, 5, "userInventoryCode", "NcString", false, true, false));
        properties.push(prop("Name of this device in the application. Instance name, not product name.", 3, 6, "deviceName", "NcString", false, true, false));
        properties.push(prop("Role of this device in the application.", 3, 7, "deviceRole", "NcString", false, true, false));
        properties.push(prop("Device operational state", 3, 8, "operationalState", "NcDeviceOperationalState", true, false, false));
        properties.push(prop("Reason for most recent reset", 3, 9, "resetCause", "NcResetCause", true, false, false));
        properties.push(prop("Arbitrary message from dev to controller", 3, 10, "message", "NcString", true, true, false));
        let mut methods: Vec<NcMethodDescriptor> = Vec::new();
        let mut events: Vec<NcEventDescriptor> = Vec::new();
        proof {
            assert(prop_ids(properties@) =~= device_manager_prop_ids());
            assert(prop_meta(properties@) =~= device_manager_prop_meta());
            assert(method_ids(methods@) =~= device_manager_method_ids());
            assert(event_ids(events@) =~= device_manager_event_ids());
        }
        let mut d = NcClassDescriptor {
            base: NcDescriptor { description: Some("NcDeviceManager class descriptor".to_owned()) },
            class_id,
            name: "NcDeviceManager".to_owned(),
            fixed_role: Some("DeviceManager".to_owned()),
            properties,
            methods,
            events,
        };
        if include_inherited {
            let parent = crate::manager::NcManager::get_class_descriptor(true);
            let ghost own_p = d.properties@;
            let ghost own_m = d.methods@;
            let ghost own_e = d.events@;
            let mut pp = parent.properties;
            let ghost pp0 = pp@;
            d.properties.append(&mut pp);
            let mut pm = parent.methods;
            let ghost pm0 = pm@;
            d.methods.append(&mut pm);
            let mut pe = parent.events;
            let ghost pe0 = pe@;
            d.events.append(&mut pe);
            proof {
                lemma_prop_ids_concat(own_p, pp0);
                lemma_prop_meta_concat(own_p, pp0);
                lemma_method_ids_concat(own_m, pm0);
                lemma_event_ids_concat(own_e, pe0);
            }
        }
        d
    }
}

impl crate::class_manager::NcClassManager {
    /// The class descriptor of `NcClassManager`; with `include_inherited`, the
    /// flattened element lists hold its own elements first, then every
    /// ancestor's, in inheritance order.
    pub fn get_class_descriptor(include_inherited: bool) -> (r: NcClassDescriptor)
        ensures
            r.class_id@ == seq![1u32, 3u32, 2u32],
            r.name@ == "NcClassManager"@,
            view_opt_str(r.fixed_role) == Some("ClassManager"@),
            prop_ids(r.properties@) == (if include_inherited {
                class_manager_all_prop_ids()
            } else {
                class_manager_prop_ids()
            }),
            method_ids(r.methods@) == (if include_inherited {
                class_manager_all_method_ids()
            } else {
                class_manager_method_ids()
            }),
            event_ids(r.events@) == (if include_inherited {
                class_manager_all_event_ids()
            } else {
                class_manager_event_ids()
            }),
            prop_meta(r.properties@) == (if include_inherited {
                class_manager_all_prop_meta()
            } else {
                class_manager_prop_meta()
            }),
    {
        let mut class_id: Vec<u32> = Vec::new();
        class_id.push(1);
        class_id.push(3);
        class_id.push(2);
        proof {
            assert(class_id@ =~= seq![1u32, 3u32, 2u32]);
        }
        let mut properties: Vec<NcPropertyDescriptor> = Vec::new();
        properties.push(prop("Descriptions of all control classes in the device (descriptors do not contain inherited elements)", 3, 1, "controlClasses", "NcClassDescriptor", true, false, true));
        properties.push(prop("Descriptions of all data types in the device (descriptors do not contain inherited elements)", 3, 2, "datatypes", "NcDatatypeDescriptor", true, false, true));
        let mut methods: Vec<NcMethodDescriptor> = Vec::new();
        {
            let mut ps: Vec<NcParameterDescriptor> = Vec::new();
            ps.push(param("class ID", "classId", Some("NcClassId"), false));
            ps.push(param("If set the descriptor would contain all inherited elements", "includeInherited", Some("NcBoolean"), false));
            methods.push(method(None, 3, 1, "GetControlClass", "NcMethodResultClassDescriptor", ps));
        }
        {
            let mut ps: Vec<NcParameterDescriptor> = Vec::new();
            ps.push(param("name of datatype", "name", Some("NcName"), false));
            ps.push(param("If set the descriptor would contain all inherited elements", "includeInherited", Some("NcBoolean"), false));
            methods.push(method(None, 3, 2, "GetDatatype", "NcMethodResultDatatypeDescriptor", ps));
        }
        let mut events: Vec<NcEventDescriptor> = Vec::new();
        proof {
            assert(prop_ids(properties@) =~= class_manager_prop_ids());
            assert(prop_meta(properties@) =~= class_manager_prop_meta());
            assert(method_ids(methods@) =~= class_manager_method_ids());
            assert(event_ids(events@) =~= class_manager_event_ids());
        }
        let mut d = NcClassDescriptor {
            base: NcDescriptor { description: Some("NcClassManager class descriptor".to_owned()) },
            class_id,
            name: "NcClassManager".to_owned(),
            fixed_role: Some("ClassManager".to_owned()),
            properties,
            methods,
            events,
        };
        if include_inherited {
            let parent = crate::manager::NcManager::get_class_descriptor(true);
            let ghost own_p = d.properties@;
            let ghost own_m = d.methods@;
            let ghost own_e = d.events@;
            let mut pp = parent.properties;
            let ghost pp0 = pp@;
            d.properties.append(&mut pp);
            let mut pm = parent.methods;
            let ghost pm0 = pm@;
            d.methods.append(&mut pm);
            let mut pe = parent.events;
            let ghost pe0 = pe@;
            d.events.append(&mut pe);
            proof {
                lemma_prop_ids_concat(own_p, pp0);
                lemma_prop_meta_concat(own_p, pp0);
                lemma_method_ids_concat(own_m, pm0);
                lemma_event_ids_concat(own_e, pe0);
            }
        }
        d
    }
}

} // verus!
