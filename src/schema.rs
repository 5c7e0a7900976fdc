//! The schema tree that a derivation produces, and its mathematical model.
use vstd::prelude::*;
use crate::types::{ComponentFormat, ComponentType};

verus! {

/// XML metadata of one schema node.
#[derive(Debug, PartialEq, Eq)]
pub struct XmlValue {
    pub name: Option<String>,
    pub wrapped: bool,
}

/// XML metadata of a field: a sequence field has one for the array and one
/// for its items.
#[derive(Debug, PartialEq, Eq)]
pub enum Xml {
    Slice { vec: XmlValue, value: XmlValue },
    NonSlice(XmlValue),
}

/// A schema node.
#[derive(Debug, PartialEq, Eq)]
pub enum Schema {
    Object {
        properties: Vec<(String, Schema)>,
        required: Vec<String>,
        description: Option<String>,
        deprecated: bool,
        example: Option<String>,
    },
    Array {
        items: Box<Schema>,
        min_items: Option<usize>,
        max_items: Option<usize>,
        xml: Option<XmlValue>,
        description: Option<String>,
        deprecated: bool,
    },
    Property {
        component_type: ComponentType,
        format: Option<ComponentFormat>,
        description: Option<String>,
        deprecated: bool,
        example: Option<String>,
        xml: Option<XmlValue>,
    },
    Ref { name: String },
    OneOf { cases: Vec<Schema>, description: Option<String> },
    Enum {
        values: Vec<String>,
        description: Option<String>,
        deprecated: bool,
        example: Option<String>,
    },
}

/// The model of a schema node: names as character sequences, lists as `Seq`.
pub enum SchemaModel {
    Object {
        properties: Seq<(Seq<char>, SchemaModel)>,
        required: Seq<Seq<char>>,
        description: Option<String>,
        deprecated: bool,
        example: Option<String>,
    },
    Array {
        items: Box<SchemaModel>,
        min_items: Option<nat>,
        max_items: Option<nat>,
        xml: Option<XmlValue>,
        description: Option<String>,
        deprecated: bool,
    },
    Property {
        component_type: ComponentType,
        format: Option<ComponentFormat>,
        description: Option<String>,
        deprecated: bool,
        example: Option<String>,
        xml: Option<XmlValue>,
    },
    Ref { name: Seq<char> },
    OneOf { cases: Seq<SchemaModel>, description: Option<String> },
    Enum {
        values: Seq<Seq<char>>,
        description: Option<String>,
        deprecated: bool,
        example: Option<String>,
    },
}

pub open spec fn names_model(v: Seq<String>) -> Seq<Seq<char>> {
    v.map_values(|s: String| s@)
}

pub open spec fn count_model(c: Option<usize>) -> Option<nat> {
    match c {
        Some(n) => Some(n as nat),
        None => None,
    }
}

pub open spec fn schema_model(s: Schema) -> SchemaModel
    decreases s,
{
    match s {
        Schema::Object { properties, required, description, deprecated, example } => {
            SchemaModel::Object {
                properties: Seq::new(
                    properties@.len(),
                    |i: int|
                        if 0 <= i < properties@.len() {
                            (properties@[i].0@, schema_model(properties@[i].1))
                        } else {
                            (Seq::empty(), SchemaModel::Ref { name: Seq::empty() })
                        },
                ),
                required: names_model(required@),
                description,
                deprecated,
                example,
            }
        },
        Schema::Array { items, min_items, max_items, xml, description, deprecated } => {
            SchemaModel::Array {
                items: Box::new(schema_model(*items)),
                min_items: count_model(min_items),
                max_items: count_model(max_items),
                xml,
                description,
                deprecated,
            }
        },
        Schema::Property { component_type, format, description, deprecated, example, xml } => {
            SchemaModel::Property { component_type, format, description, deprecated, example, xml }
        },
        Schema::Ref { name } => SchemaModel::Ref { name: name@ },
        Schema::OneOf { cases, description } => SchemaModel::OneOf {
            cases: Seq::new(
                cases@.len(),
                |i: int|
                    if 0 <= i < cases@.len() {
                        schema_model(cases@[i])
                    } else {
                        SchemaModel::Ref { name: Seq::empty() }
                    },
            ),
            description,
        },
        Schema::Enum { values, description, deprecated, example } => SchemaModel::Enum {
            values: names_model(values@),
            description,
            deprecated,
            example,
        },
    }
}

impl View for Schema {
    type V = SchemaModel;

    open spec fn view(&self) -> SchemaModel {
        schema_model(*self)
    }
}

/// `s` with the given description and deprecated flag, on the node kinds
/// that carry them.
pub open spec fn with_meta(s: SchemaModel, description: Option<String>, deprecated: bool) -> SchemaModel {
    match s {
        SchemaModel::Object { properties, required, example, .. } => SchemaModel::Object {
            properties,
            required,
            description,
            deprecated,
            example,
        },
        SchemaModel::Array { items, min_items, max_items, xml, .. } => SchemaModel::Array {
            items,
            min_items,
            max_items,
            xml,
            description,
            deprecated,
        },
        SchemaModel::Property { component_type, format, example, xml, .. } => {
            SchemaModel::Property { component_type, format, description, deprecated, example, xml }
        },
        SchemaModel::Ref { name } => SchemaModel::Ref { name },
        SchemaModel::OneOf { cases, .. } => SchemaModel::OneOf { cases, description },
        SchemaModel::Enum { values, example, .. } => SchemaModel::Enum {
            values,
            description,
            deprecated,
            example,
        },
    }
}

/// `s` with the given description and deprecated flag on its outermost node.
pub fn set_meta(s: Schema, description: Option<String>, deprecated: bool) -> (r: Schema)
    ensures
        r@ == with_meta(s@, description, deprecated),
{
    match s {
        Schema::Object { properties, required, example, .. } => Schema::Object {
            properties,
            required,
            description,
            deprecated,
            example,
        },
        Schema::Array { items, min_items, max_items, xml, .. } => Schema::Array {
            items,
            min_items,
            max_items,
            xml,
            description,
            deprecated,
        },
        Schema::Property { component_type, format, example, xml, .. } => Schema::Property {
            component_type,
            format,
            description,
            deprecated,
            example,
            xml,
        },
        Schema::Ref { name } => Schema::Ref { name },
        Schema::OneOf { cases, .. } => Schema::OneOf { cases, description },
        Schema::Enum { values, example, .. } => Schema::Enum {
            values,
            description,
            deprecated,
            example,
        },
    }
}

pub fn copy_text(s: &Option<String>) -> (r: Option<String>)
    ensures
        r == *s,
{
    match s {
        Some(t) => Some(t.clone()),
        None => None,
    }
}

impl XmlValue {
    pub fn copy(&self) -> (r: XmlValue)
        ensures
            r == *self,
    {
        XmlValue { name: copy_text(&self.name), wrapped: self.wrapped }
    }
}

impl Xml {
    pub fn copy(&self) -> (r: Xml)
        ensures
            r == *self,
    {
        match self {
            Xml::Slice { vec, value } => Xml::Slice { vec: vec.copy(), value: value.copy() },
            Xml::NonSlice(x) => Xml::NonSlice(x.copy()),
        }
    }
}

} // verus!
