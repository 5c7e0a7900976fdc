//! Properties that hold of every derivation.
use vstd::prelude::*;
use crate::component::{
    all_same, all_unit, complex_items, data_model, element_context, enum_model, enum_values,
    field_context, field_name, field_part, named_model, named_properties, named_required,
    unnamed_model, variant_item, alias_entries, aliases_model, AliasComponent, Attributes,
    Component, ComponentError, Data, Field, Fields, Variant,
};
use crate::property::emit;
use crate::rules::{effective_name, included, Serde};
use crate::schema::SchemaModel;
use crate::types::{outer_generic, same_part, substitute, GenericType};

verus! {

pub open spec fn nullable(f: Field) -> bool {
    outer_generic(f.ty) == Some(GenericType::Nullable)
}

proof fn lemma_named_prefix(fields: Seq<Field>, container: Option<Serde>, n: int)
    requires
        0 <= n <= fields.len(),
        forall|i: int| 0 <= i < fields.len() ==> #[trigger] included(fields[i].attributes.serde),
    ensures
        named_properties(fields, container, None, n).len() == n,
        forall|i: int|
            0 <= i < n ==> (#[trigger] named_properties(fields, container, None, n)[i]).0
                == field_name(container, fields[i]),
        forall|k: Seq<char>|
            #[trigger] named_required(fields, container, None, n).contains(k) <==> exists|i: int|
                0 <= i < n && field_name(container, #[trigger] fields[i]) == k && !nullable(
                    fields[i],
                ),
    decreases n,
{
    if n > 0 {
        lemma_named_prefix(fields, container, n - 1);
        let prev = named_required(fields, container, None, n - 1);
        let cur = named_required(fields, container, None, n);
        let f = fields[n - 1];
        assert(included(f.attributes.serde));
        assert forall|k: Seq<char>| #[trigger] cur.contains(k) implies exists|i: int|
            0 <= i < n && field_name(container, #[trigger] fields[i]) == k && !nullable(
                fields[i],
            ) by {
            if nullable(f) {
                assert(cur == prev);
            } else {
                assert(cur == prev.push(field_name(container, f)));
                if !prev.contains(k) {
                    let j = choose|j: int| 0 <= j < cur.len() && cur[j] == k;
                    assert(j == prev.len());
                    assert(field_name(container, fields[n - 1]) == k);
                }
            }
        }
        assert forall|k: Seq<char>|
            (exists|i: int|
                0 <= i < n && field_name(container, #[trigger] fields[i]) == k && !nullable(
                    fields[i],
                )) implies #[trigger] cur.contains(k) by {
            let i = choose|i: int|
                0 <= i < n && field_name(container, #[trigger] fields[i]) == k && !nullable(
                    fields[i],
                );
            if nullable(f) {
                assert(cur == prev);
                assert(i < n - 1);
                assert(prev.contains(k));
            } else {
                assert(cur == prev.push(field_name(container, f)));
                if i == n - 1 {
                    assert(cur[prev.len() as int] == k);
                } else {
                    assert(prev.contains(k));
                    let j = choose|j: int| 0 <= j < prev.len() && prev[j] == k;
                    assert(cur[j] == k);
                }
            }
        }
    }
}

/// For a struct whose fields are all included, the property names are the
/// fields' resolved names, in order, and a name is required exactly when a
/// field of that name is not an `Option`.
pub proof fn law_named_keys(fields: Seq<Field>, attrs: Attributes)
    requires
        forall|i: int| 0 <= i < fields.len() ==> #[trigger] included(fields[i].attributes.serde),
    ensures
        named_model(fields, attrs, None) matches SchemaModel::Object { properties, required, .. }
            && properties.len() == fields.len() && (forall|i: int|
            0 <= i < fields.len() ==> (#[trigger] properties[i]).0 == field_name(
                attrs.serde_container,
                fields[i],
            )) && (forall|k: Seq<char>|
            #[trigger] required.contains(k) <==> exists|i: int|
                0 <= i < fields.len() && field_name(attrs.serde_container, #[trigger] fields[i]) == k
                    && !nullable(fields[i])),
{
    lemma_named_prefix(fields, attrs.serde_container, fields.len() as int);
}

proof fn lemma_values_prefix(variants: Seq<Variant>, container: Option<Serde>, n: int)
    requires
        0 <= n <= variants.len(),
    ensures
        enum_values(variants, container, n).len() == 0 <==> forall|i: int|
            0 <= i < n ==> !#[trigger] included(variants[i].attributes.serde),
        (forall|i: int| 0 <= i < n ==> #[trigger] included(variants[i].attributes.serde)) ==> (
        enum_values(variants, container, n).len() == n && forall|i: int|
            0 <= i < n ==> #[trigger] enum_values(variants, container, n)[i] == effective_name(
                container,
                variants[i].attributes.serde,
                variants[i].ident@,
                true,
            )),
    decreases n,
{
    if n > 0 {
        lemma_values_prefix(variants, container, n - 1);
        if !included(variants[n - 1].attributes.serde) {
            assert(!(forall|i: int|
                0 <= i < n ==> #[trigger] included(variants[i].attributes.serde)));
        }
    }
}

/// An enum of unit variants is a string enumeration of the included
/// variants' resolved names, in order; it has no values exactly when every
/// variant is skipped.
pub proof fn law_unit_enum(variants: Seq<Variant>, attrs: Attributes)
    requires
        forall|i: int| 0 <= i < variants.len() ==> #[trigger] variants[i].fields is Unit,
    ensures
        enum_model(variants, attrs, None) matches Ok(SchemaModel::Enum { values, .. }) && values
            == enum_values(variants, attrs.serde_container, variants.len() as int) && (values.len() == 0
            <==> forall|i: int|
            0 <= i < variants.len() ==> !#[trigger] included(variants[i].attributes.serde)) && ((
        forall|i: int| 0 <= i < variants.len() ==> #[trigger] included(variants[i].attributes.serde))
            ==> values.len() == variants.len() && forall|i: int|
            0 <= i < variants.len() ==> #[trigger] values[i] == effective_name(
                attrs.serde_container,
                variants[i].attributes.serde,
                variants[i].ident@,
                true,
            )),
{
    lemma_values_prefix(variants, attrs.serde_container, variants.len() as int);
}

/// More than one unnamed field, all of one type `T`: a fixed-size array of
/// `T`'s schema with as many items as there are fields.
pub proof fn law_homogeneous_tuple(fields: Seq<Field>, attrs: Attributes)
    requires
        fields.len() > 1,
        all_same(fields, None),
    ensures
        unnamed_model(fields, attrs, None) matches Ok(
            SchemaModel::Array { items, min_items, max_items, .. },
        ) && *items == emit(fields[0].ty, element_context(attrs)) && min_items == Some(
            fields.len(),
        ) && max_items == Some(fields.len()),
{
}

/// More than one unnamed field of differing types: an object without
/// properties, whatever the types are.
pub proof fn law_heterogeneous_tuple(fields: Seq<Field>, other: Seq<Field>, attrs: Attributes)
    requires
        fields.len() > 1,
        !all_same(fields, None),
        other.len() > 1,
        !all_same(other, None),
    ensures
        unnamed_model(fields, attrs, None) matches Ok(SchemaModel::Object { properties, required, .. })
            && properties.len() == 0 && required.len() == 0,
        unnamed_model(fields, attrs, None) == unnamed_model(other, attrs, None),
{
}

/// Deriving twice from the same definition gives the same schema.
pub proof fn law_deterministic(a: Component, b: Component)
    requires
        a == b,
    ensures
        data_model(a.data, a.attributes, None) == data_model(b.data, b.attributes, None),
{
}

/// `direct` is `fields` with every type specialised by `params` and `args`.
pub open spec fn fields_substituted(
    fields: Seq<Field>,
    direct: Seq<Field>,
    params: Seq<String>,
    args: Seq<String>,
) -> bool {
    &&& direct.len() == fields.len()
    &&& forall|i: int|
        0 <= i < fields.len() ==> (#[trigger] direct[i]).ident == fields[i].ident
            && direct[i].attributes == fields[i].attributes && direct[i].ty == substitute(
            fields[i].ty,
            params,
            args,
        )
}

pub open spec fn shape_substituted(
    fields: Fields,
    direct: Fields,
    params: Seq<String>,
    args: Seq<String>,
) -> bool {
    match (fields, direct) {
        (Fields::Named(f), Fields::Named(g)) => fields_substituted(f@, g@, params, args),
        (Fields::Unnamed(f), Fields::Unnamed(g)) => fields_substituted(f@, g@, params, args),
        (Fields::Unit, Fields::Unit) => true,
        _ => false,
    }
}

pub open spec fn variants_substituted(
    variants: Seq<Variant>,
    direct: Seq<Variant>,
    params: Seq<String>,
    args: Seq<String>,
) -> bool {
    &&& direct.len() == variants.len()
    &&& forall|i: int|
        0 <= i < variants.len() ==> (#[trigger] direct[i]).ident == variants[i].ident
            && direct[i].attributes == variants[i].attributes && shape_substituted(
            variants[i].fields,
            direct[i].fields,
            params,
            args,
        )
}

/// `direct` is the definition `data` with every type specialised by
/// `params` and `args`.
pub open spec fn data_substituted(
    data: Data,
    direct: Data,
    params: Seq<String>,
    args: Seq<String>,
) -> bool {
    match (data, direct) {
        (Data::Struct(f), Data::Struct(g)) => shape_substituted(f, g, params, args),
        (Data::Enum(v), Data::Enum(w)) => variants_substituted(v@, w@, params, args),
        (Data::Union, Data::Union) => true,
        _ => false,
    }
}

proof fn lemma_named_alias(
    fields: Seq<Field>,
    direct: Seq<Field>,
    container: Option<Serde>,
    params: Seq<String>,
    args: Seq<String>,
    n: int,
)
    requires
        0 <= n <= fields.len(),
        fields_substituted(fields, direct, params, args),
    ensures
        named_properties(fields, container, Some((params, args)), n) == named_properties(
            direct,
            container,
            None,
            n,
        ),
        named_required(fields, container, Some((params, args)), n) == named_required(
            direct,
            container,
            None,
            n,
        ),
    decreases n,
{
    if n > 0 {
        lemma_named_alias(fields, direct, container, params, args, n - 1);
        let f = fields[n - 1];
        let d = direct[n - 1];
        assert(field_part(f, Some((params, args))) == field_part(d, None));
        assert(field_context(f) == field_context(d));
        assert(field_name(container, f) == field_name(container, d));
    }
}

proof fn lemma_unnamed_alias(
    fields: Seq<Field>,
    direct: Seq<Field>,
    attrs: Attributes,
    params: Seq<String>,
    args: Seq<String>,
)
    requires
        fields_substituted(fields, direct, params, args),
    ensures
        unnamed_model(fields, attrs, Some((params, args))) == unnamed_model(direct, attrs, None),
{
    let subst = Some((params, args));
    assert forall|i: int| 0 <= i < fields.len() implies field_part(fields[i], subst) == field_part(
        #[trigger] direct[i],
        None,
    ) by {}
    if fields.len() > 0 {
        if all_same(fields, subst) {
            assert forall|i: int| 1 <= i < direct.len() implies #[trigger] same_part(
                field_part(direct[0], None),
                field_part(direct[i], None),
            ) by {
                assert(same_part(field_part(fields[0], subst), field_part(fields[i], subst)));
            }
        }
        if all_same(direct, None) {
            assert forall|i: int| 1 <= i < fields.len() implies #[trigger] same_part(
                field_part(fields[0], subst),
                field_part(fields[i], subst),
            ) by {
                assert(same_part(field_part(direct[0], None), field_part(direct[i], None)));
            }
        }
    }
}

proof fn lemma_values_alias(
    variants: Seq<Variant>,
    direct: Seq<Variant>,
    container: Option<Serde>,
    params: Seq<String>,
    args: Seq<String>,
    n: int,
)
    requires
        0 <= n <= variants.len(),
        variants_substituted(variants, direct, params, args),
    ensures
        enum_values(variants, container, n) == enum_values(direct, container, n),
    decreases n,
{
    if n > 0 {
        lemma_values_alias(variants, direct, container, params, args, n - 1);
        assert(direct[n - 1].ident == variants[n - 1].ident);
    }
}

proof fn lemma_items_alias(
    variants: Seq<Variant>,
    direct: Seq<Variant>,
    attrs: Attributes,
    params: Seq<String>,
    args: Seq<String>,
    n: int,
)
    requires
        0 <= n <= variants.len(),
        variants_substituted(variants, direct, params, args),
    ensures
        complex_items(variants, attrs, Some((params, args)), n) == complex_items(
            direct,
            attrs,
            None,
            n,
        ),
    decreases n,
{
    if n > 0 {
        lemma_items_alias(variants, direct, attrs, params, args, n - 1);
        let v = variants[n - 1];
        let d = direct[n - 1];
        assert(shape_substituted(v.fields, d.fields, params, args));
        match (v.fields, d.fields) {
            (Fields::Named(f), Fields::Named(g)) => {
                lemma_named_alias(f@, g@, v.attributes.serde_container, params, args, f@.len() as int);
            },
            (Fields::Unnamed(f), Fields::Unnamed(g)) => {
                lemma_unnamed_alias(f@, g@, v.attributes, params, args);
            },
            _ => {},
        }
        assert(variant_item(v, attrs, Some((params, args))) == variant_item(d, attrs, None));
    }
}

/// The schema of an alias is the schema of the definition with every leaf
/// named like a type parameter replaced by the alias's type argument at that
/// position, derived directly.
pub proof fn law_alias(c: Component, args: Seq<String>, direct: Data)
    requires
        data_substituted(c.data, direct, c.generics@, args),
    ensures
        data_model(c.data, c.attributes, Some((c.generics@, args))) == data_model(
            direct,
            c.attributes,
            None,
        ),
{
    let params = c.generics@;
    match (c.data, direct) {
        (Data::Struct(Fields::Named(f)), Data::Struct(Fields::Named(g))) => {
            lemma_named_alias(f@, g@, c.attributes.serde_container, params, args, f@.len() as int);
        },
        (Data::Struct(Fields::Unnamed(f)), Data::Struct(Fields::Unnamed(g))) => {
            lemma_unnamed_alias(f@, g@, c.attributes, params, args);
        },
        (Data::Enum(v), Data::Enum(w)) => {
            assert(all_unit(v@) == all_unit(w@)) by {
                assert forall|i: int| 0 <= i < v@.len() implies (#[trigger] v@[i].fields is Unit)
                    == (w@[i].fields is Unit) by {
                    assert(shape_substituted(v@[i].fields, w@[i].fields, params, args));
                }
            }
            lemma_values_alias(v@, w@, c.attributes.serde_container, params, args, v@.len() as int);
            lemma_items_alias(v@, w@, c.attributes, params, args, v@.len() as int);
        },
        _ => {},
    }
}

proof fn lemma_alias_entries(c: Component, al: Seq<AliasComponent>, n: int)
    requires
        0 <= n <= al.len(),
    ensures
        alias_entries(c, al, n) matches Ok(entries) ==> entries.len() == n && forall|k: int|
            0 <= k < n ==> (#[trigger] entries[k]).0 == al[k].name@ && data_model(
                c.data,
                c.attributes,
                Some((c.generics@, al[k].generics@)),
            ) == Ok::<SchemaModel, ComponentError>(entries[k].1),
    decreases n,
{
    if n > 0 {
        lemma_alias_entries(c, al, n - 1);
    }
}

/// The schema that an alias is registered with is the definition with every
/// leaf named like a type parameter replaced by the alias's type argument at
/// that position, derived directly; where that derivation fails, no alias is
/// registered.
pub proof fn law_alias_registered(c: Component, j: int, direct: Data)
    requires
        c.aliases matches Some(al) && 0 <= j < al@.len() && data_substituted(
            c.data,
            direct,
            c.generics@,
            al@[j].generics@,
        ),
    ensures
        data_model(direct, c.attributes, None) is Err ==> aliases_model(c) is Err,
        aliases_model(c) matches Ok(entries) ==> c.aliases matches Some(al) && entries.len()
            == al@.len() && entries[j].0 == al@[j].name@ && data_model(direct, c.attributes, None)
            == Ok::<SchemaModel, ComponentError>(entries[j].1),
{
    if let Some(al) = c.aliases {
        law_alias(c, al@[j].generics@, direct);
        lemma_alias_entries(c, al@, al@.len() as int);
        if let Ok(entries) = aliases_model(c) {
            assert(entries[j].0 == al@[j].name@);
        }
    }
}

} // verus!
