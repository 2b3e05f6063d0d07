//! Descriptor datatypes of the introspection schema: properties, methods,
//! events, fields, parameters, classes and datatypes, with their canonical
//! JSON forms.

use vstd::prelude::*;
use crate::json::{Json, JsonV, json_view_fields, json_view_seq, jput, japp, jstr};
use crate::types::{
    NcElementId, NcDatatypeType, element_id_json, opt_str_json, view_opt_str, jopt_str,
    class_id_json, ju32_arr, opt_json_json, jopt_json, opt_i64_json, jopt_i64, opt_u32_json,
    jopt_u32,
};

verus! {

broadcast use vstd::std_specs::vec::group_vec_axioms, vstd::seq::group_seq_axioms;

/// Base of every descriptor: an optional user-facing description.
#[derive(Clone, Debug)]
pub struct NcDescriptor {
    pub description: Option<String>,
}

// ---------------------------------------------------------------------------
// Parameter constraints
// ---------------------------------------------------------------------------

#[derive(Debug)]
pub struct NcParameterConstraints {
    pub default_value: Option<Json>,
}

#[derive(Debug)]
pub struct NcParameterConstraintsNumber {
    pub base: NcParameterConstraints,
    pub maximum: Option<i64>,
    pub minimum: Option<i64>,
    pub step: Option<i64>,
}

#[derive(Debug)]
pub struct NcParameterConstraintsString {
    pub base: NcParameterConstraints,
    pub max_characters: Option<u32>,
    pub pattern: Option<String>,
}

/// Constraints attached to a parameter, field or datatype.
#[derive(Debug)]
pub enum NcParameterConstraintsUnion {
    Number(NcParameterConstraintsNumber),
    Text(NcParameterConstraintsString),
}

pub open spec fn parameter_constraints_json(c: NcParameterConstraintsUnion) -> JsonV {
    match c {
        NcParameterConstraintsUnion::Number(n) => JsonV::Obj(
            seq![
                ("defaultValue"@, opt_json_json(n.base.default_value)),
                ("maximum"@, opt_i64_json(n.maximum)),
                ("minimum"@, opt_i64_json(n.minimum)),
                ("step"@, opt_i64_json(n.step)),
            ],
        ),
        NcParameterConstraintsUnion::Text(s) => JsonV::Obj(
            seq![
                ("defaultValue"@, opt_json_json(s.base.default_value)),
                ("maxCharacters"@, opt_u32_json(s.max_characters)),
                ("pattern"@, opt_str_json(view_opt_str(s.pattern))),
            ],
        ),
    }
}

impl NcParameterConstraintsUnion {
    pub fn to_json(&self) -> (r: Json)
        ensures
            r@ == parameter_constraints_json(*self),
    {
        match self {
            NcParameterConstraintsUnion::Number(n) => {
                let mut fields: Vec<(String, Json)> = Vec::new();
                jput(&mut fields, "defaultValue", jopt_json(&n.base.default_value));
                jput(&mut fields, "maximum", jopt_i64(&n.maximum));
                jput(&mut fields, "minimum", jopt_i64(&n.minimum));
                jput(&mut fields, "step", jopt_i64(&n.step));
                let r = Json::Obj(fields);
                proof {
                    assert(json_view_fields(fields@) =~= parameter_constraints_json(
                        *self,
                    )->Obj_0);
                }
                r
            },
            NcParameterConstraintsUnion::Text(s) => {
                let mut fields: Vec<(String, Json)> = Vec::new();
                jput(&mut fields, "defaultValue", jopt_json(&s.base.default_value));
                jput(&mut fields, "maxCharacters", jopt_u32(&s.max_characters));
                jput(&mut fields, "pattern", jopt_str(&s.pattern));
                let r = Json::Obj(fields);
                proof {
                    assert(json_view_fields(fields@) =~= parameter_constraints_json(
                        *self,
                    )->Obj_0);
                }
                r
            },
        }
    }
}

pub open spec fn opt_param_constraints_json(c: Option<NcParameterConstraintsUnion>) -> JsonV {
    match c {
        Some(u) => parameter_constraints_json(u),
        None => JsonV::Null,
    }
}

pub fn jopt_param_constraints(c: &Option<NcParameterConstraintsUnion>) -> (r: Json)
    ensures
        r@ == opt_param_constraints_json(*c),
{
    match c {
        Some(u) => u.to_json(),
        None => Json::Null,
    }
}

// ---------------------------------------------------------------------------
// Element descriptors
// ---------------------------------------------------------------------------

/// Describes one field of a struct datatype.
#[derive(Debug)]
pub struct NcFieldDescriptor {
    pub base: NcDescriptor,
    pub name: String,
    pub ty_name: Option<String>,
    pub is_nullable: bool,
    pub is_sequence: bool,
    pub constraints: Option<NcParameterConstraintsUnion>,
}

pub open spec fn field_descriptor_json(d: NcFieldDescriptor) -> JsonV {
    JsonV::Obj(
        seq![
            ("description"@, opt_str_json(view_opt_str(d.base.description))),
            ("name"@, JsonV::Str(d.name@)),
            ("typeName"@, opt_str_json(view_opt_str(d.ty_name))),
            ("isNullable"@, JsonV::Bool(d.is_nullable)),
            ("isSequence"@, JsonV::Bool(d.is_sequence)),
            ("constraints"@, opt_param_constraints_json(d.constraints)),
        ],
    )
}

impl NcFieldDescriptor {
    pub fn to_json(&self) -> (r: Json)
        ensures
            r@ == field_descriptor_json(*self),
    {
        let mut fields: Vec<(String, Json)> = Vec::new();
        jput(&mut fields, "description", jopt_str(&self.base.description));
        jput(&mut fields, "name", jstr(self.name.as_str()));
        jput(&mut fields, "typeName", jopt_str(&self.ty_name));
        jput(&mut fields, "isNullable", Json::Bool(self.is_nullable));
        jput(&mut fields, "isSequence", Json::Bool(self.is_sequence));
        jput(&mut fields, "constraints", jopt_param_constraints(&self.constraints));
        let r = Json::Obj(fields);
        proof {
            assert(json_view_fields(fields@) =~= field_descriptor_json(*self)->Obj_0);
        }
        r
    }
}

/// Describes one parameter of a method.
#[derive(Debug)]
pub struct NcParameterDescriptor {
    pub base: NcDescriptor,
    pub name: String,
    pub ty_name: Option<String>,
    pub is_nullable: bool,
    pub is_sequence: bool,
    pub constraints: Option<NcParameterConstraintsUnion>,
}

pub open spec fn parameter_descriptor_json(d: NcParameterDescriptor) -> JsonV {
    JsonV::Obj(
        seq![
            ("description"@, opt_str_json(view_opt_str(d.base.description))),
            ("name"@, JsonV::Str(d.name@)),
            ("typeName"@, opt_str_json(view_opt_str(d.ty_name))),
            ("isNullable"@, JsonV::Bool(d.is_nullable)),
            ("isSequence"@, JsonV::Bool(d.is_sequence)),
            ("constraints"@, opt_param_constraints_json(d.constraints)),
        ],
    )
}

impl NcParameterDescriptor {
    pub fn to_json(&self) -> (r: Json)
        ensures
            r@ == parameter_descriptor_json(*self),
    {
        let mut fields: Vec<(String, Json)> = Vec::new();
        jput(&mut fields, "description", jopt_str(&self.base.description));
        jput(&mut fields, "name", jstr(self.name.as_str()));
        jput(&mut fields, "typeName", jopt_str(&self.ty_name));
        jput(&mut fields, "isNullable", Json::Bool(self.is_nullable));
        jput(&mut fields, "isSequence", Json::Bool(self.is_sequence));
        jput(&mut fields, "constraints", jopt_param_constraints(&self.constraints));
        let r = Json::Obj(fields);
        proof {
            assert(json_view_fields(fields@) =~= parameter_descriptor_json(*self)->Obj_0);
        }
        r
    }
}

/// Describes one property of a class.
#[derive(Debug)]
pub struct NcPropertyDescriptor {
    pub base: NcDescriptor,
    pub id: NcElementId,
    pub name: String,
    pub ty_name: Option<String>,
    pub is_read_only: bool,
    pub is_nullable: bool,
    pub is_sequence: bool,
    pub is_deprecated: bool,
    pub constraints: Option<NcParameterConstraintsUnion>,
}

pub open spec fn property_descriptor_json(d: NcPropertyDescriptor) -> JsonV {
    JsonV::Obj(
        seq![
            ("description"@, opt_str_json(view_opt_str(d.base.description))),
            ("id"@, element_id_json(d.id)),
            ("name"@, JsonV::Str(d.name@)),
            ("typeName"@, opt_str_json(view_opt_str(d.ty_name))),
            ("isReadOnly"@, JsonV::Bool(d.is_read_only)),
            ("isNullable"@, JsonV::Bool(d.is_nullable)),
            ("isSequence"@, JsonV::Bool(d.is_sequence)),
            ("isDeprecated"@, JsonV::Bool(d.is_deprecated)),
            ("constraints"@, opt_param_constraints_json(d.constraints)),
        ],
    )
}

impl NcPropertyDescriptor {
    pub fn to_json(&self) -> (r: Json)
        ensures
            r@ == property_descriptor_json(*self),
    {
        let mut fields: Vec<(String, Json)> = Vec::new();
        jput(&mut fields, "description", jopt_str(&self.base.description));
        jput(&mut fields, "id", self.id.to_json());
        jput(&mut fields, "name", jstr(self.name.as_str()));
        jput(&mut fields, "typeName", jopt_str(&self.ty_name));
        jput(&mut fields, "isReadOnly", Json::Bool(self.is_read_only));
        jput(&mut fields, "isNullable", Json::Bool(self.is_nullable));
        jput(&mut fields, "isSequence", Json::Bool(self.is_sequence));
        jput(&mut fields, "isDeprecated", Json::Bool(self.is_deprecated));
        jput(&mut fields, "constraints", jopt_param_constraints(&self.constraints));
        let r = Json::Obj(fields);
        proof {
            assert(json_view_fields(fields@) =~= property_descriptor_json(*self)->Obj_0);
        }
        r
    }
}

/// Describes one method of a class.
#[derive(Debug)]
pub struct NcMethodDescriptor {
    pub base: NcDescriptor,
    pub id: NcElementId,
    pub name: String,
    pub result_datatype: String,
    pub parameters: Vec<NcParameterDescriptor>,
    pub is_deprecated: bool,
}

pub open spec fn method_descriptor_json(d: NcMethodDescriptor) -> JsonV {
    JsonV::Obj(
        seq![
            ("description"@, opt_str_json(view_opt_str(d.base.description))),
            ("id"@, element_id_json(d.id)),
            ("name"@, JsonV::Str(d.name@)),
            ("resultDatatype"@, JsonV::Str(d.result_datatype@)),
            (
                "parameters"@,
                JsonV::Arr(
                    d.parameters@.map_values(
                        |p: NcParameterDescriptor| parameter_descriptor_json(p),
                    ),
                ),
            ),
            ("isDeprecated"@, JsonV::Bool(d.is_deprecated)),
        ],
    )
}

impl NcMethodDescriptor {
    pub fn to_json(&self) -> (r: Json)
        ensures
            r@ == method_descriptor_json(*self),
    {
        let mut params: Vec<Json> = Vec::new();
        let mut i: usize = 0;
        while i < self.parameters.len()
            invariant
                i <= self.parameters@.len(),
                json_view_seq(params@) == self.parameters@.take(i as int).map_values(
                    |p: NcParameterDescriptor| parameter_descriptor_json(p),
                ),
            decreases self.parameters@.len() - i,
        {
            japp(&mut params, self.parameters[i].to_json());
            proof {
                assert(self.parameters@.take(i as int + 1).map_values(
                    |p: NcParameterDescriptor| parameter_descriptor_json(p),
                ) =~= self.parameters@.take(i as int).map_values(
                    |p: NcParameterDescriptor| parameter_descriptor_json(p),
                ) + seq![parameter_descriptor_json(self.parameters@[i as int])]);
            }
            i = i + 1;
        }
        proof {
            assert(self.parameters@.take(self.parameters@.len() as int) =~= self.parameters@);
        }
        let mut fields: Vec<(String, Json)> = Vec::new();
        jput(&mut fields, "description", jopt_str(&self.base.description));
        jput(&mut fields, "id", self.id.to_json());
        jput(&mut fields, "name", jstr(self.name.as_str()));
        jput(&mut fields, "resultDatatype", jstr(self.result_datatype.as_str()));
        jput(&mut fields, "parameters", Json::Arr(params));
        jput(&mut fields, "isDeprecated", Json::Bool(self.is_deprecated));
        let r = Json::Obj(fields);
        proof {
            assert(json_view_fields(fields@) =~= method_descriptor_json(*self)->Obj_0);
        }
        r
    }
}

/// Describes one event of a class.
#[derive(Debug)]
pub struct NcEventDescriptor {
    pub base: NcDescriptor,
    pub id: NcElementId,
    pub name: String,
    pub event_datatype: String,
    pub is_deprecated: bool,
}

pub open spec fn event_descriptor_json(d: NcEventDescriptor) -> JsonV {
    JsonV::Obj(
        seq![
            ("description"@, opt_str_json(view_opt_str(d.base.description))),
            ("id"@, element_id_json(d.id)),
            ("name"@, JsonV::Str(d.name@)),
            ("eventDatatype"@, JsonV::Str(d.event_datatype@)),
            ("isDeprecated"@, JsonV::Bool(d.is_deprecated)),
        ],
    )
}

impl NcEventDescriptor {
    pub fn to_json(&self) -> (r: Json)
        ensures
            r@ == event_descriptor_json(*self),
    {
        let mut fields: Vec<(String, Json)> = Vec::new();
        jput(&mut fields, "description", jopt_str(&self.base.description));
        jput(&mut fields, "id", self.id.to_json());
        jput(&mut fields, "name", jstr(self.name.as_str()));
        jput(&mut fields, "eventDatatype", jstr(self.event_datatype.as_str()));
        jput(&mut fields, "isDeprecated", Json::Bool(self.is_deprecated));
        let r = Json::Obj(fields);
        proof {
            assert(json_view_fields(fields@) =~= event_descriptor_json(*self)->Obj_0);
        }
        r
    }
}

/// Describes a control class: its identity and its own (non-inherited or
/// flattened) properties, methods and events.
#[derive(Debug)]
pub struct NcClassDescriptor {
    pub base: NcDescriptor,
    pub class_id: Vec<u32>,
    pub name: String,
    pub fixed_role: Option<String>,
    pub properties: Vec<NcPropertyDescriptor>,
    pub methods: Vec<NcMethodDescriptor>,
    pub events: Vec<NcEventDescriptor>,
}

pub open spec fn class_descriptor_json(d: NcClassDescriptor) -> JsonV {
    JsonV::Obj(
        seq![
            ("description"@, opt_str_json(view_opt_str(d.base.description))),
            ("classId"@, class_id_json(d.class_id@)),
            ("name"@, JsonV::Str(d.name@)),
            ("fixedRole"@, opt_str_json(view_opt_str(d.fixed_role))),
            (
                "properties"@,
                JsonV::Arr(
                    d.properties@.map_values(
                        |p: NcPropertyDescriptor| property_descriptor_json(p),
                    ),
                ),
            ),
            (
                "methods"@,
                JsonV::Arr(
                    d.methods@.map_values(|m: NcMethodDescriptor| method_descriptor_json(m)),
                ),
            ),
            (
                "events"@,
                JsonV::Arr(d.events@.map_values(|e: NcEventDescriptor| event_descriptor_json(e))),
            ),
        ],
    )
}

impl NcClassDescriptor {
    pub fn to_json(&self) -> (r: Json)
        ensures
            r@ == class_descriptor_json(*self),
    {
        let mut props: Vec<Json> = Vec::new();
        let mut i: usize = 0;
        while i < self.properties.len()
            invariant
                i <= self.properties@.len(),
                json_view_seq(props@) == self.properties@.take(i as int).map_values(
                    |p: NcPropertyDescriptor| property_descriptor_json(p),
                ),
            decreases self.properties@.len() - i,
        {
            japp(&mut props, self.properties[i].to_json());
            proof {
                assert(self.properties@.take(i as int + 1).map_values(
                    |p: NcPropertyDescriptor| property_descriptor_json(p),
                ) =~= self.properties@.take(i as int).map_values(
                    |p: NcPropertyDescriptor| property_descriptor_json(p),
                ) + seq![property_descriptor_json(self.properties@[i as int])]);
            }
            i = i + 1;
        }
        proof {
            assert(self.properties@.take(self.properties@.len() as int) =~= self.properties@);
        }
        let mut methods: Vec<Json> = Vec::new();
        let mut j: usize = 0;
        while j < self.methods.len()
            invariant
                j <= self.methods@.len(),
                json_view_seq(methods@) == self.methods@.take(j as int).map_values(
                    |m: NcMethodDescriptor| method_descriptor_json(m),
                ),
            decreases self.methods@.len() - j,
        {
            japp(&mut methods, self.methods[j].to_json());
            proof {
                assert(self.methods@.take(j as int + 1).map_values(
                    |m: NcMethodDescriptor| method_descriptor_json(m),
                ) =~= self.methods@.take(j as int).map_values(
                    |m: NcMethodDescriptor| method_descriptor_json(m),
                ) + seq![method_descriptor_json(self.methods@[j as int])]);
            }
            j = j + 1;
        }
        proof {
            assert(self.methods@.take(self.methods@.len() as int) =~= self.methods@);
        }
        let mut events: Vec<Json> = Vec::new();
        let mut k: usize = 0;
        while k < self.events.len()
            invariant
                k <= self.events@.len(),
                json_view_seq(events@) == self.events@.take(k as int).map_values(
                    |e: NcEventDescriptor| event_descriptor_json(e),
                ),
            decreases self.events@.len() - k,
        {
            japp(&mut events, self.events[k].to_json());
            proof {
                assert(self.events@.take(k as int + 1).map_values(
                    |e: NcEventDescriptor| event_descriptor_json(e),
                ) =~= self.events@.take(k as int).map_values(
                    |e: NcEventDescriptor| event_descriptor_json(e),
                ) + seq![event_descriptor_json(self.events@[k as int])]);
            }
            k = k + 1;
        }
        proof {
            assert(self.events@.take(self.events@.len() as int) =~= self.events@);
        }
        let mut fields: Vec<(String, Json)> = Vec::new();
        jput(&mut fields, "description", jopt_str(&self.base.description));
        jput(&mut fields, "classId", ju32_arr(&self.class_id));
        jput(&mut fields, "name", jstr(self.name.as_str()));
        jput(&mut fields, "fixedRole", jopt_str(&self.fixed_role));
        jput(&mut fields, "properties", Json::Arr(props));
        jput(&mut fields, "methods", Json::Arr(methods));
        jput(&mut fields, "events", Json::Arr(events));
        let r = Json::Obj(fields);
        proof {
            assert(json_view_fields(fields@) =~= class_descriptor_json(*self)->Obj_0);
        }
        r
    }
}

// ---------------------------------------------------------------------------
// Datatype descriptors
// ---------------------------------------------------------------------------

/// Common part of a datatype descriptor.
#[derive(Debug)]
pub struct NcDatatypeDescriptor {
    pub base: NcDescriptor,
    pub name: String,
    pub type_kind: NcDatatypeType,
    pub constraints: Option<NcParameterConstraintsUnion>,
}

/// A primitive datatype: nothing beyond the common part.
#[derive(Debug)]
pub struct NcDatatypeDescriptorPrimitive {
    pub base: NcDatatypeDescriptor,
}

/// A typedef: a new name for a parent type, possibly a sequence of it.
#[derive(Debug)]
pub struct NcDatatypeDescriptorTypeDef {
    pub base: NcDatatypeDescriptor,
    pub parent_type: String,
    pub is_sequence: bool,
}

/// A struct datatype: named fields, optionally inheriting a parent struct.
#[derive(Debug)]
pub struct NcDatatypeDescriptorStruct {
    pub base: NcDatatypeDescriptor,
    pub fields: Vec<NcFieldDescriptor>,
    pub parent_type: Option<String>,
}

#[derive(Debug)]
pub struct NcEnumItemDescriptor {
    pub base: NcDescriptor,
    pub name: String,
    pub value: u16,
}

/// An enum datatype: named numbered items.
#[derive(Debug)]
pub struct NcDatatypeDescriptorEnum {
    pub base: NcDatatypeDescriptor,
    pub items: Vec<NcEnumItemDescriptor>,
}

/// Any datatype descriptor.
#[derive(Debug)]
pub enum NcAnyDatatypeDescriptor {
    Primitive(NcDatatypeDescriptor),
    TypeDef(NcDatatypeDescriptorTypeDef),
    Struct(NcDatatypeDescriptorStruct),
    Enum(NcDatatypeDescriptorEnum),
}

pub open spec fn datatype_base_fields_json(d: NcDatatypeDescriptor) -> Seq<(Seq<char>, JsonV)> {
    seq![
        ("description"@, opt_str_json(view_opt_str(d.base.description))),
        ("name"@, JsonV::Str(d.name@)),
        ("type"@, JsonV::UInt(d.type_kind.code_spec() as u64)),
        ("constraints"@, opt_param_constraints_json(d.constraints)),
    ]
}

pub open spec fn enum_item_json(d: NcEnumItemDescriptor) -> JsonV {
    JsonV::Obj(
        seq![
            ("description"@, opt_str_json(view_opt_str(d.base.description))),
            ("name"@, JsonV::Str(d.name@)),
            ("value"@, JsonV::UInt(d.value as u64)),
        ],
    )
}

impl NcEnumItemDescriptor {
    pub fn to_json(&self) -> (r: Json)
        ensures
            r@ == enum_item_json(*self),
    {
        let mut fields: Vec<(String, Json)> = Vec::new();
        jput(&mut fields, "description", jopt_str(&self.base.description));
        jput(&mut fields, "name", jstr(self.name.as_str()));
        jput(&mut fields, "value", Json::UInt(self.value as u64));
        let r = Json::Obj(fields);
        proof {
            assert(json_view_fields(fields@) =~= enum_item_json(*self)->Obj_0);
        }
        r
    }
}

pub open spec fn datatype_descriptor_json(d: NcAnyDatatypeDescriptor) -> JsonV {
    match d {
        NcAnyDatatypeDescriptor::Primitive(p) => JsonV::Obj(datatype_base_fields_json(p)),
        NcAnyDatatypeDescriptor::TypeDef(t) => JsonV::Obj(
            datatype_base_fields_json(t.base) + seq![
                ("parentType"@, JsonV::Str(t.parent_type@)),
                ("isSequence"@, JsonV::Bool(t.is_sequence)),
            ],
        ),
        NcAnyDatatypeDescriptor::Struct(s) => JsonV::Obj(
            datatype_base_fields_json(s.base) + seq![
                (
                    "fields"@,
                    JsonV::Arr(
                        s.fields@.map_values(|f: NcFieldDescriptor| field_descriptor_json(f)),
                    ),
                ),
                ("parentType"@, opt_str_json(view_opt_str(s.parent_type))),
            ],
        ),
        NcAnyDatatypeDescriptor::Enum(e) => JsonV::Obj(
            datatype_base_fields_json(e.base) + seq![
                (
                    "items"@,
                    JsonV::Arr(e.items@.map_values(|x: NcEnumItemDescriptor| enum_item_json(x))),
                ),
            ],
        ),
    }
}

fn datatype_base_to_fields(d: &NcDatatypeDescriptor) -> (r: Vec<(String, Json)>)
    ensures
        json_view_fields(r@) == datatype_base_fields_json(*d),
{
    let mut fields: Vec<(String, Json)> = Vec::new();
    jput(&mut fields, "description", jopt_str(&d.base.description));
    jput(&mut fields, "name", jstr(d.name.as_str()));
    jput(&mut fields, "type", Json::UInt(d.type_kind.code() as u64));
    jput(&mut fields, "constraints", jopt_param_constraints(&d.constraints));
    proof {
        assert(json_view_fields(fields@) =~= datatype_base_fields_json(*d));
    }
    fields
}

impl NcAnyDatatypeDescriptor {
    pub fn to_json(&self) -> (r: Json)
        ensures
            r@ == datatype_descriptor_json(*self),
    {
        match self {
            NcAnyDatatypeDescriptor::Primitive(p) => {
                let fields = datatype_base_to_fields(p);
                let r = Json::Obj(fields);
                proof {
                    assert(json_view_fields(fields@) =~= datatype_descriptor_json(
                        *self,
                    )->Obj_0);
                }
                r
            },
            NcAnyDatatypeDescriptor::TypeDef(t) => {
                let mut fields = datatype_base_to_fields(&t.base);
                jput(&mut fields, "parentType", jstr(t.parent_type.as_str()));
                jput(&mut fields, "isSequence", Json::Bool(t.is_sequence));
                let r = Json::Obj(fields);
                proof {
                    assert(json_view_fields(fields@) =~= datatype_descriptor_json(
                        *self,
                    )->Obj_0);
                }
                r
            },
            NcAnyDatatypeDescriptor::Struct(s) => {
                let mut items: Vec<Json> = Vec::new();
                let mut i: usize = 0;
                while i < s.fields.len()
                    invariant
                        i <= s.fields@.len(),
                        json_view_seq(items@) == s.fields@.take(i as int).map_values(
                            |f: NcFieldDescriptor| field_descriptor_json(f),
                        ),
                    decreases s.fields@.len() - i,
                {
                    japp(&mut items, s.fields[i].to_json());
                    proof {
                        assert(s.fields@.take(i as int + 1).map_values(
                            |f: NcFieldDescriptor| field_descriptor_json(f),
                        ) =~= s.fields@.take(i as int).map_values(
                            |f: NcFieldDescriptor| field_descriptor_json(f),
                        ) + seq![field_descriptor_json(s.fields@[i as int])]);
                    }
                    i = i + 1;
                }
                proof {
                    assert(s.fields@.take(s.fields@.len() as int) =~= s.fields@);
                }
                let mut fields = datatype_base_to_fields(&s.base);
                jput(&mut fields, "fields", Json::Arr(items));
                jput(&mut fields, "parentType", jopt_str(&s.parent_type));
                let r = Json::Obj(fields);
                proof {
                    assert(json_view_fields(fields@) =~= datatype_descriptor_json(
                        *self,
                    )->Obj_0);
                }
                r
            },
            NcAnyDatatypeDescriptor::Enum(e) => {
                let mut items: Vec<Json> = Vec::new();
                let mut i: usize = 0;
                while i < e.items.len()
                    invariant
                        i <= e.items@.len(),
                        json_view_seq(items@) == e.items@.take(i as int).map_values(
                            |x: NcEnumItemDescriptor| enum_item_json(x),
                        ),
                    decreases e.items@.len() - i,
                {
                    japp(&mut items, e.items[i].to_json());
                    proof {
                        assert(e.items@.take(i as int + 1).map_values(
                            |x: NcEnumItemDescriptor| enum_item_json(x),
                        ) =~= e.items@.take(i as int).map_values(
                            |x: NcEnumItemDescriptor| enum_item_json(x),
                        ) + seq![enum_item_json(e.items@[i as int])]);
                    }
                    i = i + 1;
                }
                proof {
                    assert(e.items@.take(e.items@.len() as int) =~= e.items@);
                }
                let mut fields = datatype_base_to_fields(&e.base);
                jput(&mut fields, "items", Json::Arr(items));
                let r = Json::Obj(fields);
                proof {
                    assert(json_view_fields(fields@) =~= datatype_descriptor_json(
                        *self,
                    )->Obj_0);
                }
                r
            },
        }
    }
}

// ---------------------------------------------------------------------------
// Method results
// ---------------------------------------------------------------------------

/// Base method result: the status alone.
#[derive(Debug)]
pub struct NcMethodResult {
    pub status: crate::types::NcMethodStatus,
}

/// A result carrying a property value.
#[derive(Debug)]
pub struct NcMethodResultPropertyValue {
    pub base: NcMethodResult,
    pub value: Json,
}

/// A failed result carrying an error message.
#[derive(Debug)]
pub struct NcMethodResultError {
    pub base: NcMethodResult,
    pub error_message: String,
}

/// A result carrying block member descriptors.
#[derive(Debug)]
pub struct NcMethodResultBlockMemberDescriptors {
    pub base: NcMethodResult,
    pub value: Vec<crate::types::NcBlockMemberDescriptor>,
}

/// A result carrying a class descriptor.
#[derive(Debug)]
pub struct NcMethodResultClassDescriptor {
    pub base: NcMethodResult,
    pub value: NcClassDescriptor,
}

/// A result carrying a datatype descriptor.
#[derive(Debug)]
pub struct NcMethodResultDatatypeDescriptor {
    pub base: NcMethodResult,
    pub value: NcAnyDatatypeDescriptor,
}

/// A result carrying an id.
#[derive(Debug)]
pub struct NcMethodResultId {
    pub base: NcMethodResult,
    pub value: u64,
}

/// A result carrying a sequence length.
#[derive(Debug)]
pub struct NcMethodResultLength {
    pub base: NcMethodResult,
    pub value: u64,
}

} // verus!
