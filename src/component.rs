//! Schemas of whole type definitions: structs with named or unnamed fields,
//! and enums.
use vstd::prelude::*;
use crate::property::{emit, ComponentProperty, PropertyContext};
use crate::rules::{effective_name, included, is_not_skipped, name_of, Serde};
use crate::schema::{
    copy_text, names_model, schema_model, set_meta, with_meta, Schema, SchemaModel, Xml,
};
use crate::types::{outer_generic, same_part, substitute, ComponentPart, GenericType};

verus! {

/// Values of a `#[component(...)]` attribute.
#[derive(Debug)]
pub struct ComponentAttr {
    pub example: Option<String>,
    pub xml: Option<Xml>,
    /// A type whose schema replaces the item's own.
    pub value_type: Option<String>,
}

/// The parsed attributes of a container, a field or a variant.
#[derive(Debug)]
pub struct Attributes {
    /// The serializer's rules on this item as a field or variant: its own
    /// rename and skip.
    pub serde: Option<Serde>,
    /// The serializer's rules on this item as a container of fields:
    /// how they are renamed.
    pub serde_container: Option<Serde>,
    pub component: Option<ComponentAttr>,
    pub deprecated: bool,
    /// Lines of the doc comment, in order.
    pub docs: Vec<String>,
}

#[derive(Debug)]
pub struct Field {
    pub ident: String,
    pub ty: ComponentPart,
    pub attributes: Attributes,
}

#[derive(Debug)]
pub enum Fields {
    Named(Vec<Field>),
    Unnamed(Vec<Field>),
    Unit,
}

#[derive(Debug)]
pub struct Variant {
    pub ident: String,
    pub fields: Fields,
    pub attributes: Attributes,
}

#[derive(Debug)]
pub enum Data {
    Struct(Fields),
    Enum(Vec<Variant>),
    Union,
}

/// Why no schema can be derived.
#[derive(Clone, Copy, Debug, PartialEq, Eq, Structural)]
pub enum ComponentError {
    /// A unit struct, a struct without fields, or a union.
    NoFields,
    /// A `#[component(...)]` attribute on an enum whose variants carry fields.
    UnsupportedPlacement,
    /// An alias with another number of type arguments than the type has parameters.
    AliasArity,
}

/// Generic parameter names and the type arguments that replace them.
pub type Substitution = Option<(Seq<String>, Seq<String>)>;

pub open spec fn result_model(r: Result<Schema, ComponentError>) -> Result<SchemaModel, ComponentError> {
    match r {
        Ok(s) => Ok(schema_model(s)),
        Err(e) => Err(e),
    }
}

pub open spec fn first_doc(docs: Seq<String>) -> Option<String> {
    if docs.len() > 0 {
        Some(docs[0])
    } else {
        None
    }
}

pub open spec fn attr_example(a: Option<ComponentAttr>) -> Option<String> {
    match a {
        Some(c) => c.example,
        None => None,
    }
}

pub open spec fn attr_xml(a: Option<ComponentAttr>) -> Option<Xml> {
    match a {
        Some(c) => c.xml,
        None => None,
    }
}

pub open spec fn attr_override(a: Option<ComponentAttr>) -> Option<String> {
    match a {
        Some(c) => c.value_type,
        None => None,
    }
}

/// What a named field brings to the schema of its type.
pub open spec fn field_context(f: Field) -> PropertyContext {
    PropertyContext {
        description: first_doc(f.attributes.docs@),
        example: attr_example(f.attributes.component),
        deprecated: f.attributes.deprecated,
        xml: attr_xml(f.attributes.component),
        type_override: attr_override(f.attributes.component),
    }
}

/// The descriptor of a field's type, specialised by `subst` where one is given.
pub open spec fn field_part(f: Field, subst: Substitution) -> ComponentPart {
    match subst {
        Some((params, args)) => substitute(f.ty, params, args),
        None => f.ty,
    }
}

/// The property name of a field.
pub open spec fn field_name(container: Option<Serde>, f: Field) -> Seq<char> {
    effective_name(container, f.attributes.serde, f.ident@, false)
}

/// The properties of the first `n` fields, in order, skipped fields left out.
pub open spec fn named_properties(
    fields: Seq<Field>,
    container: Option<Serde>,
    subst: Substitution,
    n: int,
) -> Seq<(Seq<char>, SchemaModel)>
    decreases n,
{
    if n <= 0 {
        Seq::empty()
    } else {
        let prev = named_properties(fields, container, subst, n - 1);
        let f = fields[n - 1];
        if included(f.attributes.serde) {
            prev.push((field_name(container, f), emit(field_part(f, subst), field_context(f))))
        } else {
            prev
        }
    }
}

/// The names of the required properties among the first `n` fields: those
/// included whose type is not an `Option`.
pub open spec fn named_required(
    fields: Seq<Field>,
    container: Option<Serde>,
    subst: Substitution,
    n: int,
) -> Seq<Seq<char>>
    decreases n,
{
    if n <= 0 {
        Seq::empty()
    } else {
        let prev = named_required(fields, container, subst, n - 1);
        let f = fields[n - 1];
        if included(f.attributes.serde) && outer_generic(field_part(f, subst)) != Some(
            GenericType::Nullable,
        ) {
            prev.push(field_name(container, f))
        } else {
            prev
        }
    }
}

/// The object schema of a struct with named fields.
pub open spec fn named_model(fields: Seq<Field>, attrs: Attributes, subst: Substitution) -> SchemaModel {
    SchemaModel::Object {
        properties: named_properties(fields, attrs.serde_container, subst, fields.len() as int),
        required: named_required(fields, attrs.serde_container, subst, fields.len() as int),
        description: first_doc(attrs.docs@),
        deprecated: attrs.deprecated,
        example: attr_example(attrs.component),
    }
}

/// Whether every field has a type structurally equal to the first one's.
pub open spec fn all_same(fields: Seq<Field>, subst: Substitution) -> bool {
    forall|i: int|
        1 <= i < fields.len() ==> #[trigger] same_part(
            field_part(fields[0], subst),
            field_part(fields[i], subst),
        )
}

/// The context of the element type of a struct with unnamed fields: the
/// description and the deprecated flag go on the outermost node instead.
pub open spec fn element_context(attrs: Attributes) -> PropertyContext {
    PropertyContext {
        description: None,
        example: attr_example(attrs.component),
        deprecated: false,
        xml: None,
        type_override: attr_override(attrs.component),
    }
}

/// The schema of a struct with unnamed fields: its one field's schema; a
/// fixed-size array where all fields have the same type; else an object
/// without declared properties. The container's description and deprecated
/// flag go on that outermost node.
pub open spec fn unnamed_model(fields: Seq<Field>, attrs: Attributes, subst: Substitution) -> Result<
    SchemaModel,
    ComponentError,
> {
    let n = fields.len();
    if n == 0 {
        Err(ComponentError::NoFields)
    } else if n == 1 {
        Ok(
            with_meta(
                emit(field_part(fields[0], subst), element_context(attrs)),
                first_doc(attrs.docs@),
                attrs.deprecated,
            ),
        )
    } else if all_same(fields, subst) {
        Ok(
            SchemaModel::Array {
                items: Box::new(emit(field_part(fields[0], subst), element_context(attrs))),
                min_items: Some(n),
                max_items: Some(n),
                xml: None,
                description: first_doc(attrs.docs@),
                deprecated: attrs.deprecated,
            },
        )
    } else {
        Ok(
            SchemaModel::Object {
                properties: Seq::empty(),
                required: Seq::empty(),
                description: first_doc(attrs.docs@),
                deprecated: attrs.deprecated,
                example: attr_example(attrs.component),
            },
        )
    }
}

pub open spec fn entries_model(v: Seq<(String, Schema)>) -> Seq<(Seq<char>, SchemaModel)> {
    Seq::new(v.len(), |i: int| (v[i].0@, schema_model(v[i].1)))
}

pub fn first_line(docs: &Vec<String>) -> (r: Option<String>)
    ensures
        r == first_doc(docs@),
{
    if docs.len() > 0 {
        Some(docs[0].clone())
    } else {
        None
    }
}

fn example_of(a: &Option<ComponentAttr>) -> (r: Option<String>)
    ensures
        r == attr_example(*a),
{
    match a {
        Some(c) => copy_text(&c.example),
        None => None,
    }
}

fn override_of(a: &Option<ComponentAttr>) -> (r: Option<String>)
    ensures
        r == attr_override(*a),
{
    match a {
        Some(c) => copy_text(&c.value_type),
        None => None,
    }
}

fn xml_of(a: &Option<ComponentAttr>) -> (r: Option<Xml>)
    ensures
        r == attr_xml(*a),
{
    match a {
        Some(c) => match &c.xml {
            Some(x) => Some(x.copy()),
            None => None,
        },
        None => None,
    }
}

/// A struct with named fields, or the fields of one enum variant.
pub struct NamedStructComponent<'a> {
    pub fields: &'a Vec<Field>,
    pub attributes: &'a Attributes,
    /// Generic parameter names and one alias's type arguments, when the
    /// schema is derived for that alias.
    pub alias: Option<(&'a Vec<String>, &'a Vec<String>)>,
}

pub open spec fn alias_subst(alias: Option<(&Vec<String>, &Vec<String>)>) -> Substitution {
    match alias {
        Some((p, a)) => Some((p@, a@)),
        None => None,
    }
}

/// The type of `f`, specialised for the alias where one is given.
fn part_of(f: &Field, alias: Option<(&Vec<String>, &Vec<String>)>) -> (r: ComponentPart)
    ensures
        r == field_part(*f, alias_subst(alias)),
{
    match alias {
        Some((params, args)) => f.ty.substituted(params, args),
        None => f.ty.copy(),
    }
}

impl<'a> NamedStructComponent<'a> {
    pub fn to_schema(&self) -> (r: Schema)
        ensures
            r@ == named_model(self.fields@, *self.attributes, alias_subst(self.alias)),
    {
        let fields = self.fields;
        let container = &self.attributes.serde_container;
        let ghost subst = alias_subst(self.alias);
        let mut properties: Vec<(String, Schema)> = Vec::new();
        let mut required: Vec<String> = Vec::new();
        let mut i: usize = 0;
        while i < fields.len()
            invariant
                i <= fields@.len(),
                fields == self.fields,
                container == self.attributes.serde_container,
                subst == alias_subst(self.alias),
                entries_model(properties@) == named_properties(fields@, *container, subst, i as int),
                names_model(required@) == named_required(
                    fields@,
                    *container,
                    subst,
                    i as int,
                ),
            decreases fields@.len() - i,
        {
            let f = &fields[i];
            if is_not_skipped(&f.attributes.serde) {
                let name = name_of(container, &f.attributes.serde, &f.ident, false);
                let part = part_of(f, self.alias);
                let property = ComponentProperty::new(
                    part,
                    first_line(&f.attributes.docs),
                    example_of(&f.attributes.component),
                    f.attributes.deprecated,
                    xml_of(&f.attributes.component),
                    override_of(&f.attributes.component),
                );
                let schema = property.to_schema();
                let optional = property.is_option();
                let ghost before = properties@;
                let ghost before_required = required@;
                if !optional {
                    required.push(name.clone());
                }
                properties.push((name, schema));
                proof {
                    assert(entries_model(properties@) =~= entries_model(before).push(
                        (name@, schema@),
                    ));
                    assert(names_model(required@) =~= if optional {
                        names_model(before_required)
                    } else {
                        names_model(before_required).push(name@)
                    });
                }
            }
            i = i + 1;
        }
        let r = Schema::Object {
            properties,
            required,
            description: first_line(&self.attributes.docs),
            deprecated: self.attributes.deprecated,
            example: example_of(&self.attributes.component),
        };
        proof {
            assert(r@ matches SchemaModel::Object { properties: p, .. } && p =~= entries_model(
                properties@,
            ));
        }
        r
    }
}

/// A struct with unnamed fields, or the fields of one enum variant.
pub struct UnnamedStructComponent<'a> {
    pub fields: &'a Vec<Field>,
    pub attributes: &'a Attributes,
    /// Generic parameter names and one alias's type arguments, when the
    /// schema is derived for that alias.
    pub alias: Option<(&'a Vec<String>, &'a Vec<String>)>,
}

impl<'a> UnnamedStructComponent<'a> {
    pub fn to_schema(&self) -> (r: Result<Schema, ComponentError>)
        ensures
            result_model(r) == unnamed_model(self.fields@, *self.attributes, alias_subst(self.alias)),
    {
        let fields = self.fields;
        let attrs = self.attributes;
        let ghost subst = alias_subst(self.alias);
        let n = fields.len();
        if n == 0 {
            return Err(ComponentError::NoFields);
        }
        let first = part_of(&fields[0], self.alias);
        let mut same = true;
        let mut i: usize = 1;
        while i < n
            invariant
                1 <= i <= n,
                n == fields@.len(),
                fields == self.fields,
                subst == alias_subst(self.alias),
                first == field_part(fields@[0], subst),
                same == forall|j: int|
                    1 <= j < i ==> #[trigger] same_part(
                        field_part(fields@[0], subst),
                        field_part(fields@[j], subst),
                    ),
            decreases n - i,
        {
            let other = part_of(&fields[i], self.alias);
            if !first.same_as(&other) {
                same = false;
            }
            i = i + 1;
        }
        if n == 1 {
            let property = ComponentProperty::new(
                first,
                None,
                example_of(&attrs.component),
                false,
                None,
                override_of(&attrs.component),
            );
            Ok(set_meta(property.to_schema(), first_line(&attrs.docs), attrs.deprecated))
        } else if same {
            let property = ComponentProperty::new(
                first,
                None,
                example_of(&attrs.component),
                false,
                None,
                override_of(&attrs.component),
            );
            let items = property.to_schema();
            Ok(
                Schema::Array {
                    items: Box::new(items),
                    min_items: Some(n),
                    max_items: Some(n),
                    xml: None,
                    description: first_line(&attrs.docs),
                    deprecated: attrs.deprecated,
                },
            )
        } else {
            let properties: Vec<(String, Schema)> = Vec::new();
            let required: Vec<String> = Vec::new();
            let r = Schema::Object {
                properties,
                required,
                description: first_line(&attrs.docs),
                deprecated: attrs.deprecated,
                example: example_of(&attrs.component),
            };
            assert(r@ matches SchemaModel::Object { properties: p, required: q, .. } && p
                =~= Seq::empty() && q =~= Seq::empty());
            Ok(r)
        }
    }
}

/// The values of an enum of unit variants: the names of the first `n`
/// variants, skipped ones left out.
pub open spec fn enum_values(variants: Seq<Variant>, container: Option<Serde>, n: int) -> Seq<Seq<char>>
    decreases n,
{
    if n <= 0 {
        Seq::empty()
    } else {
        let prev = enum_values(variants, container, n - 1);
        let v = variants[n - 1];
        if included(v.attributes.serde) {
            prev.push(effective_name(container, v.attributes.serde, v.ident@, true))
        } else {
            prev
        }
    }
}

/// The string enumeration of an enum whose variants are all unit variants.
pub open spec fn simple_enum_model(variants: Seq<Variant>, attrs: Attributes) -> SchemaModel {
    SchemaModel::Enum {
        values: enum_values(variants, attrs.serde_container, variants.len() as int),
        description: first_doc(attrs.docs@),
        deprecated: attrs.deprecated,
        example: attr_example(attrs.component),
    }
}

/// An enum whose variants are all unit variants.
pub struct SimpleEnum<'a> {
    pub variants: &'a Vec<Variant>,
    pub attributes: &'a Attributes,
}

impl<'a> SimpleEnum<'a> {
    pub fn to_schema(&self) -> (r: Schema)
        ensures
            r@ == simple_enum_model(self.variants@, *self.attributes),
    {
        let variants = self.variants;
        let container = &self.attributes.serde_container;
        let mut values: Vec<String> = Vec::new();
        let mut i: usize = 0;
        while i < variants.len()
            invariant
                i <= variants@.len(),
                variants == self.variants,
                container == self.attributes.serde_container,
                names_model(values@) == enum_values(variants@, *container, i as int),
            decreases variants@.len() - i,
        {
            let v = &variants[i];
            if is_not_skipped(&v.attributes.serde) {
                let name = name_of(container, &v.attributes.serde, &v.ident, true);
                let ghost before = values@;
                values.push(name);
                assert(names_model(values@) =~= names_model(before).push(name@));
            }
            i = i + 1;
        }
        Schema::Enum {
            values,
            description: first_line(&self.attributes.docs),
            deprecated: self.attributes.deprecated,
            example: example_of(&self.attributes.component),
        }
    }
}

/// An object with the one property `name`: how a variant with fields is tagged.
pub open spec fn tagged(name: Seq<char>, s: SchemaModel) -> SchemaModel {
    SchemaModel::Object {
        properties: seq![(name, s)],
        required: Seq::empty(),
        description: None,
        deprecated: false,
        example: None,
    }
}

/// The schema of one variant of an enum whose variants carry fields.
pub open spec fn variant_item(v: Variant, container: Attributes, subst: Substitution) -> Result<
    SchemaModel,
    ComponentError,
> {
    let name = effective_name(container.serde_container, v.attributes.serde, v.ident@, true);
    match v.fields {
        Fields::Named(fs) => Ok(tagged(name, named_model(fs@, v.attributes, subst))),
        Fields::Unnamed(fs) => match unnamed_model(fs@, v.attributes, subst) {
            Ok(s) => Ok(tagged(name, s)),
            Err(e) => Err(e),
        },
        Fields::Unit => Ok(
            SchemaModel::Enum {
                values: seq![name],
                description: first_doc(container.docs@),
                deprecated: container.deprecated,
                example: attr_example(container.component),
            },
        ),
    }
}

/// The schemas of the first `n` variants, skipped ones left out; the first
/// error of a variant, if any.
pub open spec fn complex_items(
    variants: Seq<Variant>,
    container: Attributes,
    subst: Substitution,
    n: int,
) -> Result<
    Seq<SchemaModel>,
    ComponentError,
>
    decreases n,
{
    if n <= 0 {
        Ok(Seq::empty())
    } else {
        match complex_items(variants, container, subst, n - 1) {
            Err(e) => Err(e),
            Ok(prev) => {
                let v = variants[n - 1];
                if included(v.attributes.serde) {
                    match variant_item(v, container, subst) {
                        Ok(s) => Ok(prev.push(s)),
                        Err(e) => Err(e),
                    }
                } else {
                    Ok(prev)
                }
            },
        }
    }
}

/// The union of the variants of an enum whose variants carry fields.
pub open spec fn complex_enum_model(
    variants: Seq<Variant>,
    attrs: Attributes,
    subst: Substitution,
) -> Result<
    SchemaModel,
    ComponentError,
> {
    if attrs.component is Some {
        Err(ComponentError::UnsupportedPlacement)
    } else {
        match complex_items(variants, attrs, subst, variants.len() as int) {
            Ok(items) => Ok(SchemaModel::OneOf { cases: items, description: first_doc(attrs.docs@) }),
            Err(e) => Err(e),
        }
    }
}

pub open spec fn all_unit(variants: Seq<Variant>) -> bool {
    forall|i: int| 0 <= i < variants.len() ==> #[trigger] variants[i].fields is Unit
}

/// A string enumeration where all variants are unit variants; else a union.
pub open spec fn enum_model(variants: Seq<Variant>, attrs: Attributes, subst: Substitution) -> Result<
    SchemaModel,
    ComponentError,
> {
    if all_unit(variants) {
        Ok(simple_enum_model(variants, attrs))
    } else {
        complex_enum_model(variants, attrs, subst)
    }
}

/// The schema of a type definition.
pub open spec fn data_model(data: Data, attrs: Attributes, subst: Substitution) -> Result<
    SchemaModel,
    ComponentError,
> {
    match data {
        Data::Struct(Fields::Named(fs)) => Ok(named_model(fs@, attrs, subst)),
        Data::Struct(Fields::Unnamed(fs)) => unnamed_model(fs@, attrs, subst),
        Data::Struct(Fields::Unit) => Err(ComponentError::NoFields),
        Data::Enum(vs) => enum_model(vs@, attrs, subst),
        Data::Union => Err(ComponentError::NoFields),
    }
}

pub open spec fn items_model(v: Seq<Schema>) -> Seq<SchemaModel> {
    Seq::new(v.len(), |i: int| schema_model(v[i]))
}

proof fn lemma_items_error(
    variants: Seq<Variant>,
    container: Attributes,
    subst: Substitution,
    k: int,
    n: int,
)
    requires
        k <= n,
        complex_items(variants, container, subst, k) is Err,
    ensures
        complex_items(variants, container, subst, n) == complex_items(variants, container, subst, k),
    decreases n - k,
{
    if k < n {
        lemma_items_error(variants, container, subst, k, n - 1);
    }
}

/// An enum with at least one variant that carries fields.
pub struct ComplexEnum<'a> {
    pub variants: &'a Vec<Variant>,
    pub attributes: &'a Attributes,
    pub alias: Option<(&'a Vec<String>, &'a Vec<String>)>,
}

fn variant_schema(
    v: &Variant,
    container: &Attributes,
    alias: Option<(&Vec<String>, &Vec<String>)>,
) -> (r: Result<Schema, ComponentError>)
    ensures
        result_model(r) == variant_item(*v, *container, alias_subst(alias)),
{
    let name = name_of(&container.serde_container, &v.attributes.serde, &v.ident, true);
    let inner = match &v.fields {
        Fields::Named(fs) => {
            let c = NamedStructComponent { fields: fs, attributes: &v.attributes, alias };
            c.to_schema()
        },
        Fields::Unnamed(fs) => {
            let c = UnnamedStructComponent { fields: fs, attributes: &v.attributes, alias };
            match c.to_schema() {
                Ok(s) => s,
                Err(e) => {
                    return Err(e);
                },
            }
        },
        Fields::Unit => {
            let values: Vec<String> = vec![name];
            let r = Schema::Enum {
                values,
                description: first_line(&container.docs),
                deprecated: container.deprecated,
                example: example_of(&container.component),
            };
            assert(r@ matches SchemaModel::Enum { values: vs, .. } && vs =~= seq![name@]);
            return Ok(r);
        },
    };
    let ghost inner_model = inner@;
    let properties: Vec<(String, Schema)> = vec![(name, inner)];
    let required: Vec<String> = Vec::new();
    let r = Schema::Object {
        properties,
        required,
        description: None,
        deprecated: false,
        example: None,
    };
    assert(r@ matches SchemaModel::Object { properties: p, required: q, .. } && p =~= seq![
        (name@, inner_model),
    ] && q =~= Seq::<Seq<char>>::empty());
    Ok(r)
}

impl<'a> ComplexEnum<'a> {
    pub fn to_schema(&self) -> (r: Result<Schema, ComponentError>)
        ensures
            result_model(r) == complex_enum_model(
                self.variants@,
                *self.attributes,
                alias_subst(self.alias),
            ),
    {
        if self.attributes.component.is_some() {
            return Err(ComponentError::UnsupportedPlacement);
        }
        let variants = self.variants;
        let container = self.attributes;
        let ghost subst = alias_subst(self.alias);
        let mut items: Vec<Schema> = Vec::new();
        assert(items_model(items@) =~= Seq::empty());
        let mut i: usize = 0;
        while i < variants.len()
            invariant
                i <= variants@.len(),
                variants == self.variants,
                container == self.attributes,
                container.component is None,
                subst == alias_subst(self.alias),
                complex_items(variants@, *container, subst, i as int) == Ok::<
                    Seq<SchemaModel>,
                    ComponentError,
                >(items_model(items@)),
            decreases variants@.len() - i,
        {
            let v = &variants[i];
            if is_not_skipped(&v.attributes.serde) {
                match variant_schema(v, container, self.alias) {
                    Ok(s) => {
                        let ghost before = items@;
                        items.push(s);
                        assert(items_model(items@) =~= items_model(before).push(s@));
                    },
                    Err(e) => {
                        proof {
                            assert(variant_item(variants@[i as int], *container, subst) == Err::<
                                SchemaModel,
                                ComponentError,
                            >(e));
                            assert(complex_items(variants@, *container, subst, i as int + 1) == Err::<
                                Seq<SchemaModel>,
                                ComponentError,
                            >(e));
                            lemma_items_error(
                                variants@,
                                *container,
                                subst,
                                i as int + 1,
                                variants@.len() as int,
                            );
                        }
                        return Err(e);
                    },
                }
            }
            i = i + 1;
        }
        let ghost model = items_model(items@);
        let r = Schema::OneOf { cases: items, description: first_line(&container.docs) };
        assert(r@ matches SchemaModel::OneOf { cases: its, .. } && its =~= model);
        Ok(r)
    }
}

/// An enum.
pub struct EnumComponent<'a> {
    pub variants: &'a Vec<Variant>,
    pub attributes: &'a Attributes,
    pub alias: Option<(&'a Vec<String>, &'a Vec<String>)>,
}

impl<'a> EnumComponent<'a> {
    pub fn to_schema(&self) -> (r: Result<Schema, ComponentError>)
        ensures
            result_model(r) == enum_model(self.variants@, *self.attributes, alias_subst(self.alias)),
    {
        let variants = self.variants;
        let mut unit = true;
        let mut i: usize = 0;
        while i < variants.len()
            invariant
                i <= variants@.len(),
                unit == forall|j: int| 0 <= j < i ==> #[trigger] variants@[j].fields is Unit,
            decreases variants@.len() - i,
        {
            if !matches!(variants[i].fields, Fields::Unit) {
                unit = false;
            }
            i = i + 1;
        }
        if unit {
            Ok(SimpleEnum { variants, attributes: self.attributes }.to_schema())
        } else {
            ComplexEnum { variants, attributes: self.attributes, alias: self.alias }.to_schema()
        }
    }
}

/// The builder that a type definition dispatches to.
pub enum ComponentVariant<'a> {
    Named(NamedStructComponent<'a>),
    Unnamed(UnnamedStructComponent<'a>),
    Enum(EnumComponent<'a>),
}

impl<'a> ComponentVariant<'a> {
    pub open spec fn model(&self) -> Result<SchemaModel, ComponentError> {
        match self {
            ComponentVariant::Named(c) => Ok(
                named_model(c.fields@, *c.attributes, alias_subst(c.alias)),
            ),
            ComponentVariant::Unnamed(c) => unnamed_model(
                c.fields@,
                *c.attributes,
                alias_subst(c.alias),
            ),
            ComponentVariant::Enum(c) => enum_model(c.variants@, *c.attributes, alias_subst(c.alias)),
        }
    }

    /// The builder for `data`; a unit struct or a union has none. Where an
    /// alias is given, the definition is specialised for it.
    pub fn new(
        data: &'a Data,
        attributes: &'a Attributes,
        alias: Option<(&'a Vec<String>, &'a Vec<String>)>,
    ) -> (r: Result<ComponentVariant<'a>, ComponentError>)
        ensures
            r is Err <==> (*data matches Data::Struct(Fields::Unit) || *data is Union),
            r matches Err(e) ==> e == ComponentError::NoFields,
            *data matches Data::Struct(Fields::Named(fs)) ==> r matches Ok(
                ComponentVariant::Named(c),
            ) && *c.fields == fs && *c.attributes == *attributes && c.alias == alias,
            *data matches Data::Struct(Fields::Unnamed(fs)) ==> r matches Ok(
                ComponentVariant::Unnamed(c),
            ) && *c.fields == fs && *c.attributes == *attributes && c.alias == alias,
            *data matches Data::Enum(vs) ==> r matches Ok(ComponentVariant::Enum(c))
                && *c.variants == vs && *c.attributes == *attributes && c.alias == alias,
            r matches Ok(v) ==> v.model() == data_model(*data, *attributes, alias_subst(alias)),
            r matches Err(e) ==> data_model(*data, *attributes, alias_subst(alias)) == Err::<
                SchemaModel,
                ComponentError,
            >(e),
    {
        match data {
            Data::Struct(Fields::Unnamed(fields)) => Ok(
                ComponentVariant::Unnamed(UnnamedStructComponent { fields, attributes, alias }),
            ),
            Data::Struct(Fields::Named(fields)) => Ok(
                ComponentVariant::Named(NamedStructComponent { fields, attributes, alias }),
            ),
            Data::Struct(Fields::Unit) => Err(ComponentError::NoFields),
            Data::Enum(variants) => Ok(
                ComponentVariant::Enum(EnumComponent { variants, attributes, alias }),
            ),
            Data::Union => Err(ComponentError::NoFields),
        }
    }

    pub fn to_schema(&self) -> (r: Result<Schema, ComponentError>)
        ensures
            result_model(r) == self.model(),
    {
        match self {
            ComponentVariant::Named(c) => Ok(c.to_schema()),
            ComponentVariant::Unnamed(c) => c.to_schema(),
            ComponentVariant::Enum(c) => c.to_schema(),
        }
    }
}

/// An alias declaration: `name = ty<generics>`, a name for the type `ty`
/// with the given type arguments.
#[derive(Debug)]
pub struct AliasComponent {
    pub name: String,
    pub ty: String,
    pub generics: Vec<String>,
}

/// A type definition to derive a schema for.
#[derive(Debug)]
pub struct Component {
    pub ident: String,
    pub attributes: Attributes,
    /// Names of the type parameters, in order.
    pub generics: Vec<String>,
    pub aliases: Option<Vec<AliasComponent>>,
    pub data: Data,
}

/// The schemas of the first `n` aliases, each under the alias's name; the
/// first error, if any.
pub open spec fn alias_entries(c: Component, aliases: Seq<AliasComponent>, n: int) -> Result<
    Seq<(Seq<char>, SchemaModel)>,
    ComponentError,
>
    decreases n,
{
    if n <= 0 {
        Ok(Seq::empty())
    } else {
        match alias_entries(c, aliases, n - 1) {
            Err(e) => Err(e),
            Ok(prev) => {
                let a = aliases[n - 1];
                if a.generics@.len() != c.generics@.len() {
                    Err(ComponentError::AliasArity)
                } else {
                    match data_model(c.data, c.attributes, Some((c.generics@, a.generics@))) {
                        Ok(s) => Ok(prev.push((a.name@, s))),
                        Err(e) => Err(e),
                    }
                }
            },
        }
    }
}

pub open spec fn aliases_model(c: Component) -> Result<Seq<(Seq<char>, SchemaModel)>, ComponentError> {
    match c.aliases {
        Some(al) => alias_entries(c, al@, al@.len() as int),
        None => Ok(Seq::empty()),
    }
}

pub open spec fn entries_result_model(r: Result<Vec<(String, Schema)>, ComponentError>) -> Result<
    Seq<(Seq<char>, SchemaModel)>,
    ComponentError,
> {
    match r {
        Ok(v) => Ok(entries_model(v@)),
        Err(e) => Err(e),
    }
}

proof fn lemma_alias_error(c: Component, aliases: Seq<AliasComponent>, k: int, n: int)
    requires
        k <= n,
        alias_entries(c, aliases, k) is Err,
    ensures
        alias_entries(c, aliases, n) == alias_entries(c, aliases, k),
    decreases n - k,
{
    if k < n {
        lemma_alias_error(c, aliases, k, n - 1);
    }
}

impl Component {
    /// A definition; its aliases, where it declares any, are kept only where
    /// it has type parameters.
    pub fn new(
        data: Data,
        attributes: Attributes,
        ident: String,
        generics: Vec<String>,
        aliases: Option<Vec<AliasComponent>>,
    ) -> (r: Self)
        ensures
            r.data == data,
            r.attributes == attributes,
            r.ident == ident,
            r.generics == generics,
            r.aliases == if generics@.len() > 0 {
                aliases
            } else {
                None
            },
    {
        let aliases = if generics.len() > 0 {
            aliases
        } else {
            None
        };
        Component { ident, attributes, generics, aliases, data }
    }

    /// The schema of the definition itself.
    pub fn schema(&self) -> (r: Result<Schema, ComponentError>)
        ensures
            result_model(r) == data_model(self.data, self.attributes, None),
    {
        match ComponentVariant::new(&self.data, &self.attributes, None) {
            Ok(v) => v.to_schema(),
            Err(e) => Err(e),
        }
    }

    /// The schema of each alias, under the alias's name, in order.
    pub fn alias_schemas(&self) -> (r: Result<Vec<(String, Schema)>, ComponentError>)
        ensures
            entries_result_model(r) == aliases_model(*self),
    {
        let mut out: Vec<(String, Schema)> = Vec::new();
        assert(entries_model(out@) =~= Seq::empty());
        match &self.aliases {
            None => Ok(out),
            Some(aliases) => {
                let mut i: usize = 0;
                while i < aliases.len()
                    invariant
                        i <= aliases@.len(),
                        self.aliases == Some(*aliases),
                        alias_entries(*self, aliases@, i as int) == Ok::<
                            Seq<(Seq<char>, SchemaModel)>,
                            ComponentError,
                        >(entries_model(out@)),
                    decreases aliases@.len() - i,
                {
                    let a = &aliases[i];
                    if a.generics.len() != self.generics.len() {
                        proof {
                            lemma_alias_error(*self, aliases@, i as int + 1, aliases@.len() as int);
                        }
                        return Err(ComponentError::AliasArity);
                    }
                    let variant = ComponentVariant::new(
                        &self.data,
                        &self.attributes,
                        Some((&self.generics, &a.generics)),
                    );
                    let schema = match variant {
                        Ok(v) => v.to_schema(),
                        Err(e) => Err(e),
                    };
                    match schema {
                        Ok(s) => {
                            let ghost before = out@;
                            out.push((a.name.clone(), s));
                            assert(entries_model(out@) =~= entries_model(before).push(
                                (a.name@, s@),
                            ));
                        },
                        Err(e) => {
                            proof {
                                assert(alias_entries(*self, aliases@, i as int + 1) == Err::<
                                    Seq<(Seq<char>, SchemaModel)>,
                                    ComponentError,
                                >(e));
                                lemma_alias_error(
                                    *self,
                                    aliases@,
                                    i as int + 1,
                                    aliases@.len() as int,
                                );
                            }
                            return Err(e);
                        },
                    }
                    i = i + 1;
                }
                Ok(out)
            },
        }
    }
}

} // verus!
