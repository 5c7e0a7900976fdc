//! The schema of one field or element type, from its descriptor.
use vstd::prelude::*;
use crate::schema::{copy_text, schema_model, Schema, SchemaModel, Xml, XmlValue};
use crate::types::{
    format_of, known_format, outer_generic, primitive_type, primitive_type_of, value_type,
    value_type_of, ComponentPart, GenericType, ValueType,
};

verus! {

/// What an item brings to the schema of its type besides the type itself.
#[derive(Debug)]
pub struct PropertyContext {
    pub description: Option<String>,
    pub example: Option<String>,
    pub deprecated: bool,
    pub xml: Option<Xml>,
    /// The name of a type whose schema replaces the item's own.
    pub type_override: Option<String>,
}

/// A type descriptor together with the item that has it.
#[derive(Debug)]
pub struct ComponentProperty {
    pub component_part: ComponentPart,
    pub context: PropertyContext,
}

/// The XML metadata that a sequence's array node carries.
pub open spec fn array_xml(x: Option<Xml>) -> Option<XmlValue> {
    match x {
        Some(Xml::Slice { vec, .. }) => Some(vec),
        _ => None,
    }
}

/// The XML metadata that a primitive node carries.
pub open spec fn item_xml(x: Option<Xml>) -> Option<XmlValue> {
    match x {
        Some(Xml::Slice { value, .. }) => Some(value),
        Some(Xml::NonSlice(v)) => Some(v),
        None => None,
    }
}

/// The leaf that a schema is made of: the override if there is one, else
/// the descriptor's own leaf.
pub open spec fn leaf_schema(value_type: ValueType, ident: String, ctx: PropertyContext) -> SchemaModel {
    let (vt, id) = match ctx.type_override {
        Some(o) => (value_type_of(o@), o),
        None => (value_type, ident),
    };
    if vt == ValueType::Primitive && primitive_type_of(id@) is Some {
        SchemaModel::Property {
            component_type: primitive_type_of(id@)->Some_0,
            format: format_of(id@),
            description: ctx.description,
            deprecated: ctx.deprecated,
            example: ctx.example,
            xml: item_xml(ctx.xml),
        }
    } else {
        SchemaModel::Ref { name: id@ }
    }
}

/// The schema of a type descriptor in the context of its item.
/// A map is an object without declared properties; a sequence is an array of
/// its element, unless an override replaces it whole; other wrappers are
/// transparent.
pub open spec fn emit(part: ComponentPart, ctx: PropertyContext) -> SchemaModel
    decreases part,
{
    match part {
        ComponentPart::Wrapped { generic_type, child } => match generic_type {
            GenericType::Associative => SchemaModel::Object {
                properties: Seq::empty(),
                required: Seq::empty(),
                description: ctx.description,
                deprecated: false,
                example: None,
            },
            GenericType::Sequence => if ctx.type_override is Some {
                emit(*child, ctx)
            } else {
                SchemaModel::Array {
                    items: Box::new(emit(*child, ctx)),
                    min_items: None,
                    max_items: None,
                    xml: array_xml(ctx.xml),
                    description: None,
                    deprecated: false,
                }
            },
            _ => emit(*child, ctx),
        },
        ComponentPart::Leaf { value_type, ident } => leaf_schema(value_type, ident, ctx),
    }
}

fn emit_leaf(value_type: ValueType, ident: &String, ctx: &PropertyContext) -> (r: Schema)
    ensures
        r@ == leaf_schema(value_type, *ident, *ctx),
{
    let (vt, id) = match &ctx.type_override {
        Some(o) => (crate::types::value_type(o.as_str()), o),
        None => (value_type, ident),
    };
    let t = primitive_type(id.as_str());
    if vt == ValueType::Primitive && t.is_some() {
        let xml = match &ctx.xml {
            Some(Xml::Slice { value, .. }) => Some(value.copy()),
            Some(Xml::NonSlice(v)) => Some(v.copy()),
            None => None,
        };
        Schema::Property {
            component_type: t.unwrap(),
            format: known_format(id.as_str()),
            description: copy_text(&ctx.description),
            deprecated: ctx.deprecated,
            example: copy_text(&ctx.example),
            xml,
        }
    } else {
        Schema::Ref { name: id.clone() }
    }
}

fn emit_part(part: &ComponentPart, ctx: &PropertyContext) -> (r: Schema)
    ensures
        r@ == emit(*part, *ctx),
    decreases part,
{
    match part {
        ComponentPart::Wrapped { generic_type, child } => match generic_type {
            GenericType::Associative => {
                let properties: Vec<(String, Schema)> = Vec::new();
                let required: Vec<String> = Vec::new();
                let r = Schema::Object {
                    properties,
                    required,
                    description: copy_text(&ctx.description),
                    deprecated: false,
                    example: None,
                };
                assert(r@ matches SchemaModel::Object { properties: p, required: q, .. } && p
                    =~= Seq::empty() && q =~= Seq::empty());
                r
            },
            GenericType::Sequence => {
                let inner = emit_part(child, ctx);
                if ctx.type_override.is_some() {
                    inner
                } else {
                    let xml = match &ctx.xml {
                        Some(Xml::Slice { vec, .. }) => Some(vec.copy()),
                        _ => None,
                    };
                    Schema::Array {
                        items: Box::new(inner),
                        min_items: None,
                        max_items: None,
                        xml,
                        description: None,
                        deprecated: false,
                    }
                }
            },
            _ => emit_part(child, ctx),
        },
        ComponentPart::Leaf { value_type, ident } => emit_leaf(*value_type, ident, ctx),
    }
}

impl ComponentProperty {
    pub fn new(
        component_part: ComponentPart,
        description: Option<String>,
        example: Option<String>,
        deprecated: bool,
        xml: Option<Xml>,
        type_override: Option<String>,
    ) -> (r: Self)
        ensures
            r.component_part == component_part,
            r.context == (PropertyContext { description, example, deprecated, xml, type_override }),
    {
        ComponentProperty {
            component_part,
            context: PropertyContext { description, example, deprecated, xml, type_override },
        }
    }

    /// Whether the property may be left out of its object: its outermost
    /// wrapper is `Option`.
    pub fn is_option(&self) -> (r: bool)
        ensures
            r == (outer_generic(self.component_part) == Some(GenericType::Nullable)),
    {
        match self.component_part.generic_type() {
            Some(GenericType::Nullable) => true,
            _ => false,
        }
    }

    /// The schema of this property.
    pub fn to_schema(&self) -> (r: Schema)
        ensures
            r@ == emit(self.component_part, self.context),
    {
        emit_part(&self.component_part, &self.context)
    }
}

} // verus!
