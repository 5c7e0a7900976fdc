use utoipa_gen::component::{
    AliasComponent, Attributes, Component, ComponentAttr, ComponentError, Data, Field, Fields,
    Variant,
};
use utoipa_gen::naming::RenameRule;
use utoipa_gen::property::ComponentProperty;
use utoipa_gen::rules::{
    is_not_skipped, rename, rename_field, rename_variant, Serde, SerdeContainer, SerdeValue,
};
use utoipa_gen::schema::{Schema, Xml, XmlValue};
use utoipa_gen::types::{ComponentFormat, ComponentPart, ComponentType, GenericType, ValueType};

fn attrs() -> Attributes {
    Attributes { serde: None, serde_container: None, component: None, deprecated: false, docs: vec![] }
}

fn container(rule: RenameRule) -> Attributes {
    Attributes {
        serde: None,
        serde_container: Some(Serde::Container(SerdeContainer { rename_all: Some(rule) })),
        component: None,
        deprecated: false,
        docs: vec![],
    }
}

fn path(names: &[&str]) -> Vec<String> {
    names.iter().map(|n| n.to_string()).collect()
}

fn ty(names: &[&str]) -> ComponentPart {
    ComponentPart::from_type(&path(names))
}

fn field(name: &str, names: &[&str]) -> Field {
    Field { ident: name.to_string(), ty: ty(names), attributes: attrs() }
}

fn value_rule(rename: Option<&str>, skip: bool) -> Option<Serde> {
    Some(Serde::Value(SerdeValue { rename: rename.map(|r| r.to_string()), skip }))
}

fn prop(t: ComponentType, f: Option<ComponentFormat>) -> Schema {
    Schema::Property {
        component_type: t,
        format: f,
        description: None,
        deprecated: false,
        example: None,
        xml: None,
    }
}

fn object(properties: Vec<(&str, Schema)>, required: &[&str]) -> Schema {
    Schema::Object {
        properties: properties.into_iter().map(|(n, s)| (n.to_string(), s)).collect(),
        required: path(required),
        description: None,
        deprecated: false,
        example: None,
    }
}

fn derive(data: Data, attributes: Attributes) -> Result<Schema, ComponentError> {
    Component::new(data, attributes, "Ty".to_string(), vec![], None).schema()
}

fn unit_variant(name: &str) -> Variant {
    Variant { ident: name.to_string(), fields: Fields::Unit, attributes: attrs() }
}

#[test]
fn record_with_optional_field() {
    let data = Data::Struct(Fields::Named(vec![
        field("id", &["u32"]),
        field("name", &["Option", "String"]),
    ]));
    let expected = object(
        vec![
            ("id", prop(ComponentType::Integer, Some(ComponentFormat::Int32))),
            ("name", prop(ComponentType::String, None)),
        ],
        &["id"],
    );
    assert_eq!(derive(data, attrs()), Ok(expected));
}

#[test]
fn record_with_sequence_field() {
    let data = Data::Struct(Fields::Named(vec![field("scores", &["Vec", "f64"])]));
    let array = Schema::Array {
        items: Box::new(prop(ComponentType::Number, Some(ComponentFormat::Double))),
        min_items: None,
        max_items: None,
        xml: None,
        description: None,
        deprecated: false,
    };
    assert_eq!(derive(data, attrs()), Ok(object(vec![("scores", array)], &["scores"])));
}

#[test]
fn unit_enum_is_string_enumeration() {
    let data = Data::Enum(vec![unit_variant("A"), unit_variant("B"), unit_variant("C")]);
    let expected = Schema::Enum {
        values: path(&["A", "B", "C"]),
        description: None,
        deprecated: false,
        example: None,
    };
    assert_eq!(derive(data, attrs()), Ok(expected));
}

#[test]
fn enum_with_fields_is_union() {
    let a = Variant {
        ident: "A".to_string(),
        fields: Fields::Named(vec![field("x", &["i32"])]),
        attributes: attrs(),
    };
    let b = Variant {
        ident: "B".to_string(),
        fields: Fields::Unnamed(vec![field("", &["String"])]),
        attributes: attrs(),
    };
    let inner_a = object(
        vec![("x", prop(ComponentType::Integer, Some(ComponentFormat::Int32)))],
        &["x"],
    );
    let expected = Schema::OneOf {
        cases: vec![
            object(vec![("A", inner_a)], &[]),
            object(vec![("B", prop(ComponentType::String, None))], &[]),
        ],
        description: None,
    };
    assert_eq!(derive(Data::Enum(vec![a, b]), attrs()), Ok(expected));
}

#[test]
fn homogeneous_tuple_is_fixed_array() {
    let data = Data::Struct(Fields::Unnamed(vec![
        field("", &["i32"]),
        field("", &["i32"]),
        field("", &["i32"]),
    ]));
    let expected = Schema::Array {
        items: Box::new(prop(ComponentType::Integer, Some(ComponentFormat::Int32))),
        min_items: Some(3),
        max_items: Some(3),
        xml: None,
        description: None,
        deprecated: false,
    };
    assert_eq!(derive(data, attrs()), Ok(expected));
}

#[test]
fn camel_case_container_renames_field() {
    let data = Data::Struct(Fields::Named(vec![field("user_name", &["String"])]));
    let expected = object(vec![("userName", prop(ComponentType::String, None))], &["userName"]);
    assert_eq!(derive(data, container(RenameRule::Camel)), Ok(expected));
}

#[test]
fn heterogeneous_tuple_is_plain_object() {
    let data = Data::Struct(Fields::Unnamed(vec![field("", &["i32"]), field("", &["String"])]));
    assert_eq!(derive(data, attrs()), Ok(object(vec![], &[])));
    let other = Data::Struct(Fields::Unnamed(vec![field("", &["Foo"]), field("", &["Vec", "u8"])]));
    assert_eq!(derive(other, attrs()), Ok(object(vec![], &[])));
}

#[test]
fn single_field_tuple_is_its_field() {
    let mut a = attrs();
    a.docs = vec!["An id.".to_string(), "More.".to_string()];
    let data = Data::Struct(Fields::Unnamed(vec![field("", &["bool"])]));
    let expected = Schema::Property {
        component_type: ComponentType::Boolean,
        format: None,
        description: Some("An id.".to_string()),
        deprecated: false,
        example: None,
        xml: None,
    };
    assert_eq!(derive(data, a), Ok(expected));
}

#[test]
fn skipped_and_renamed_fields() {
    let mut skipped = field("secret", &["String"]);
    skipped.attributes.serde = value_rule(None, true);
    let mut renamed = field("user_name", &["String"]);
    renamed.attributes.serde = value_rule(Some("login"), false);
    let data = Data::Struct(Fields::Named(vec![skipped, renamed, field("age", &["u8"])]));
    let expected = object(
        vec![
            ("login", prop(ComponentType::String, None)),
            ("AGE", prop(ComponentType::Integer, Some(ComponentFormat::Int32))),
        ],
        &["login", "AGE"],
    );
    assert_eq!(derive(data, container(RenameRule::Upper)), Ok(expected));
}

#[test]
fn all_skipped_unit_enum_has_no_values() {
    let mut a = unit_variant("A");
    a.attributes.serde = value_rule(None, true);
    let mut b = unit_variant("B");
    b.attributes.serde = value_rule(None, true);
    let expected = Schema::Enum { values: vec![], description: None, deprecated: false, example: None };
    assert_eq!(derive(Data::Enum(vec![a, b]), attrs()), Ok(expected));
}

#[test]
fn unit_enum_variants_renamed_by_container() {
    let data = Data::Enum(vec![unit_variant("FirstValue"), unit_variant("Second")]);
    match derive(data, container(RenameRule::Snake)) {
        Ok(Schema::Enum { values, .. }) => assert_eq!(values, path(&["first_value", "second"])),
        other => panic!("unexpected {:?}", other),
    }
}

#[test]
fn unit_variant_among_complex_ones() {
    let a = Variant {
        ident: "Tagged".to_string(),
        fields: Fields::Unnamed(vec![field("", &["i64"])]),
        attributes: attrs(),
    };
    let data = Data::Enum(vec![a, unit_variant("Plain")]);
    let expected = Schema::OneOf {
        cases: vec![
            object(
                vec![("tagged", prop(ComponentType::Integer, Some(ComponentFormat::Int64)))],
                &[],
            ),
            Schema::Enum {
                values: path(&["plain"]),
                description: None,
                deprecated: false,
                example: None,
            },
        ],
        description: None,
    };
    assert_eq!(derive(data, container(RenameRule::Lower)), Ok(expected));
}

#[test]
fn component_attribute_on_complex_enum_is_refused() {
    let a = Variant {
        ident: "A".to_string(),
        fields: Fields::Unnamed(vec![field("", &["i64"])]),
        attributes: attrs(),
    };
    let mut c = attrs();
    c.component = Some(ComponentAttr { example: None, xml: None, value_type: None });
    assert_eq!(derive(Data::Enum(vec![a]), c), Err(ComponentError::UnsupportedPlacement));
}

#[test]
fn unit_struct_and_union_are_refused() {
    assert_eq!(derive(Data::Struct(Fields::Unit), attrs()), Err(ComponentError::NoFields));
    assert_eq!(derive(Data::Union, attrs()), Err(ComponentError::NoFields));
    assert_eq!(
        derive(Data::Struct(Fields::Unnamed(vec![])), attrs()),
        Err(ComponentError::NoFields)
    );
}

#[test]
fn map_reference_and_transparent_wrappers() {
    let mut map = field("extra", &["HashMap", "String"]);
    map.attributes.docs = vec!["Free form.".to_string()];
    let data = Data::Struct(Fields::Named(vec![
        map,
        field("pet", &["Box", "Pet"]),
        field("note", &["Cow", "str"]),
        field("cell", &["RefCell", "Option", "i16"]),
    ]));
    let free = Schema::Object {
        properties: vec![],
        required: vec![],
        description: Some("Free form.".to_string()),
        deprecated: false,
        example: None,
    };
    let expected = object(
        vec![
            ("extra", free),
            ("pet", Schema::Ref { name: "Pet".to_string() }),
            ("note", prop(ComponentType::String, None)),
            ("cell", prop(ComponentType::Integer, Some(ComponentFormat::Int32))),
        ],
        &["extra", "pet", "note", "cell"],
    );
    assert_eq!(derive(data, attrs()), Ok(expected));
}

#[test]
fn override_replaces_sequence_and_xml_is_split() {
    let mut list = field("ids", &["Vec", "Id"]);
    list.attributes.component =
        Some(ComponentAttr { example: None, xml: None, value_type: Some("u64".to_string()) });
    let mut tags = field("tags", &["Vec", "String"]);
    let outer = XmlValue { name: Some("tags".to_string()), wrapped: true };
    let inner = XmlValue { name: Some("tag".to_string()), wrapped: false };
    tags.attributes.component = Some(ComponentAttr {
        example: Some("x".to_string()),
        xml: Some(Xml::Slice { vec: outer, value: inner }),
        value_type: None,
    });
    tags.attributes.deprecated = true;
    let data = Data::Struct(Fields::Named(vec![list, tags]));
    let tags_schema = Schema::Array {
        items: Box::new(Schema::Property {
            component_type: ComponentType::String,
            format: None,
            description: None,
            deprecated: true,
            example: Some("x".to_string()),
            xml: Some(XmlValue { name: Some("tag".to_string()), wrapped: false }),
        }),
        min_items: None,
        max_items: None,
        xml: Some(XmlValue { name: Some("tags".to_string()), wrapped: true }),
        description: None,
        deprecated: false,
    };
    let expected = object(
        vec![
            ("ids", prop(ComponentType::Integer, Some(ComponentFormat::Int64))),
            ("tags", tags_schema),
        ],
        &["ids", "tags"],
    );
    assert_eq!(derive(data, attrs()), Ok(expected));
}

#[test]
fn aliases_specialise_generic_struct() {
    let data = Data::Struct(Fields::Named(vec![field("value", &["T"]), field("items", &["Vec", "U"])]));
    let aliases = vec![
        AliasComponent {
            name: "IntPage".to_string(),
            ty: "Page".to_string(),
            generics: path(&["i32", "Pet"]),
        },
    ];
    let c = Component::new(data, attrs(), "Page".to_string(), path(&["T", "U"]), Some(aliases));
    let generic = c.schema().unwrap();
    assert_eq!(
        generic,
        object(
            vec![
                ("value", Schema::Ref { name: "T".to_string() }),
                (
                    "items",
                    Schema::Array {
                        items: Box::new(Schema::Ref { name: "U".to_string() }),
                        min_items: None,
                        max_items: None,
                        xml: None,
                        description: None,
                        deprecated: false,
                    },
                ),
            ],
            &["value", "items"],
        )
    );
    let direct = Data::Struct(Fields::Named(vec![field("value", &["i32"]), field("items", &["Vec", "Pet"])]));
    let expected = derive(direct, attrs()).unwrap();
    assert_eq!(c.alias_schemas(), Ok(vec![("IntPage".to_string(), expected)]));
}

#[test]
fn alias_arity_is_checked() {
    let data = Data::Struct(Fields::Named(vec![field("value", &["T"])]));
    let aliases = vec![AliasComponent {
        name: "Bad".to_string(),
        ty: "Page".to_string(),
        generics: path(&["i32", "i64"]),
    }];
    let c = Component::new(data, attrs(), "Page".to_string(), path(&["T"]), Some(aliases));
    assert_eq!(c.alias_schemas(), Err(ComponentError::AliasArity));
}

#[test]
fn aliases_dropped_without_type_parameters() {
    let data = Data::Struct(Fields::Named(vec![field("value", &["i32"])]));
    let aliases = vec![AliasComponent { name: "A".to_string(), ty: "B".to_string(), generics: vec![] }];
    let c = Component::new(data, attrs(), "B".to_string(), vec![], Some(aliases));
    assert!(c.aliases.is_none());
    assert_eq!(c.alias_schemas(), Ok(vec![]));
}

#[test]
fn deriving_twice_gives_the_same_schema() {
    let c = Component::new(
        Data::Struct(Fields::Named(vec![field("a", &["Option", "Vec", "u16"]), field("b", &["X"])])),
        container(RenameRule::Pascal),
        "T".to_string(),
        vec![],
        None,
    );
    assert_eq!(c.schema(), c.schema());
}

#[test]
fn field_rename_rules() {
    let cases = [
        (RenameRule::Lower, "user_name_2"),
        (RenameRule::Upper, "USER_NAME_2"),
        (RenameRule::Pascal, "UserName2"),
        (RenameRule::Camel, "userName2"),
        (RenameRule::Snake, "user_name_2"),
        (RenameRule::ScreamingSnake, "USER_NAME_2"),
        (RenameRule::Kebab, "user-name-2"),
        (RenameRule::ScreamingKebab, "USER-NAME-2"),
    ];
    for (rule, expected) in cases {
        assert_eq!(rule.rename("user_name_2"), expected);
    }
}

#[test]
fn variant_rename_rules() {
    let cases = [
        (RenameRule::Lower, "veryfasthorse"),
        (RenameRule::Upper, "VERYFASTHORSE"),
        (RenameRule::Pascal, "VeryFastHorse"),
        (RenameRule::Camel, "veryFastHorse"),
        (RenameRule::Snake, "very_fast_horse"),
        (RenameRule::ScreamingSnake, "VERY_FAST_HORSE"),
        (RenameRule::Kebab, "very-fast-horse"),
        (RenameRule::ScreamingKebab, "VERY-FAST-HORSE"),
    ];
    for (rule, expected) in cases {
        assert_eq!(rule.rename_variant("VeryFastHorse"), expected);
    }
}

#[test]
fn rename_precedence() {
    let c = Some(Serde::Container(SerdeContainer { rename_all: Some(RenameRule::Kebab) }));
    assert_eq!(rename_field(&c, &value_rule(Some("own"), false), "a_b"), Some("own".to_string()));
    assert_eq!(rename_field(&c, &value_rule(None, false), "a_b"), Some("a-b".to_string()));
    assert_eq!(rename_field(&c, &None, "a_b"), Some("a-b".to_string()));
    assert_eq!(rename_field(&None, &None, "a_b"), None);
    assert_eq!(rename_variant(&c, &None, "AbCd"), Some("ab-cd".to_string()));
    assert_eq!(rename(&None, &value_rule(Some("z"), false), "Q", true), Some("z".to_string()));
    // resolution is pure: a second call gives the same name
    let own = value_rule(Some("own"), false);
    assert_eq!(rename_field(&c, &own, "a_b"), rename_field(&c, &own, "a_b"));
}

#[test]
fn skip_rules() {
    assert!(is_not_skipped(&None));
    assert!(is_not_skipped(&value_rule(None, false)));
    assert!(!is_not_skipped(&value_rule(Some("x"), true)));
    assert!(is_not_skipped(&Some(Serde::Container(SerdeContainer { rename_all: None }))));
}

#[test]
fn descriptors_from_type_paths() {
    let part = ty(&["Option", "Vec", "Pet"]);
    match &part {
        ComponentPart::Wrapped { generic_type: GenericType::Nullable, child } => match child.as_ref() {
            ComponentPart::Wrapped { generic_type: GenericType::Sequence, child } => match child.as_ref() {
                ComponentPart::Leaf { value_type: ValueType::Object, ident } => assert_eq!(ident, "Pet"),
                other => panic!("unexpected {:?}", other),
            },
            other => panic!("unexpected {:?}", other),
        },
        other => panic!("unexpected {:?}", other),
    }
    assert!(ty(&["Vec", "i32"]).same_as(&ty(&["Vec", "i32"])));
    assert!(!ty(&["Vec", "i32"]).same_as(&ty(&["Option", "i32"])));
    assert!(!ty(&["i32"]).same_as(&ty(&["i64"])));
    match ty(&["Vec"]) {
        ComponentPart::Leaf { value_type: ValueType::Object, ident } => assert_eq!(ident, "Vec"),
        other => panic!("unexpected {:?}", other),
    }
    match ComponentPart::from_ident(&"DateTime".to_string()) {
        ComponentPart::Leaf { value_type, .. } => assert_eq!(value_type, ValueType::Primitive),
        other => panic!("unexpected {:?}", other),
    }
}

#[test]
fn property_is_option_and_schema() {
    let p = ComponentProperty::new(ty(&["Option", "f32"]), None, None, false, None, None);
    assert!(p.is_option());
    assert_eq!(p.to_schema(), prop(ComponentType::Number, Some(ComponentFormat::Float)));
    let q = ComponentProperty::new(ty(&["Box", "Option", "char"]), None, None, false, None, None);
    assert!(!q.is_option());
    let r = ComponentProperty::new(
        ty(&["Pet"]),
        None,
        None,
        false,
        Some(Xml::NonSlice(XmlValue { name: None, wrapped: false })),
        Some("Date".to_string()),
    );
    let expected = Schema::Property {
        component_type: ComponentType::String,
        format: Some(ComponentFormat::Date),
        description: None,
        deprecated: false,
        example: None,
        xml: Some(XmlValue { name: None, wrapped: false }),
    };
    assert_eq!(r.to_schema(), expected);
}

#[test]
fn rule_names() {
    assert_eq!(RenameRule::from_name("camelCase"), Some(RenameRule::Camel));
    assert_eq!(RenameRule::from_name("SCREAMING-KEBAB-CASE"), Some(RenameRule::ScreamingKebab));
    assert_eq!(RenameRule::from_name("snake_case"), Some(RenameRule::Snake));
    assert_eq!(RenameRule::from_name("Camel"), None);
}

#[test]
fn aliases_specialise_tuple_and_enum() {
    let tuple = Data::Struct(Fields::Unnamed(vec![field("", &["T"]), field("", &["U"])]));
    let alias = AliasComponent { name: "Pair".to_string(), ty: "Two".to_string(), generics: path(&["i32", "i32"]) };
    let c = Component::new(tuple, attrs(), "Two".to_string(), path(&["T", "U"]), Some(vec![alias]));
    assert_eq!(c.schema(), Ok(object(vec![], &[])));
    let direct = Data::Struct(Fields::Unnamed(vec![field("", &["i32"]), field("", &["i32"])]));
    assert_eq!(c.alias_schemas(), Ok(vec![("Pair".to_string(), derive(direct, attrs()).unwrap())]));

    let variant = Variant {
        ident: "Some".to_string(),
        fields: Fields::Named(vec![field("inner", &["Option", "T"])]),
        attributes: attrs(),
    };
    let data = Data::Enum(vec![variant, unit_variant("Nothing")]);
    let alias = AliasComponent { name: "MaybeBool".to_string(), ty: "Maybe".to_string(), generics: path(&["bool"]) };
    let c = Component::new(data, attrs(), "Maybe".to_string(), path(&["T"]), Some(vec![alias]));
    let inner = object(vec![("inner", prop(ComponentType::Boolean, None))], &[]);
    let expected = Schema::OneOf {
        cases: vec![
            object(vec![("Some", inner)], &[]),
            Schema::Enum { values: path(&["Nothing"]), description: None, deprecated: false, example: None },
        ],
        description: None,
    };
    assert_eq!(c.alias_schemas(), Ok(vec![("MaybeBool".to_string(), expected)]));
}

#[test]
fn single_field_tuple_metadata_on_outer_node() {
    let mut a = attrs();
    a.docs = vec!["Numbers.".to_string()];
    a.deprecated = true;
    let data = Data::Struct(Fields::Unnamed(vec![field("", &["Vec", "i32"])]));
    let expected = Schema::Array {
        items: Box::new(prop(ComponentType::Integer, Some(ComponentFormat::Int32))),
        min_items: None,
        max_items: None,
        xml: None,
        description: Some("Numbers.".to_string()),
        deprecated: true,
    };
    assert_eq!(derive(data, a), Ok(expected));

    let mut m = attrs();
    m.deprecated = true;
    let map = Data::Struct(Fields::Unnamed(vec![field("", &["HashMap", "String"])]));
    let expected = Schema::Object {
        properties: vec![],
        required: vec![],
        description: None,
        deprecated: true,
        example: None,
    };
    assert_eq!(derive(map, m), Ok(expected));
}

#[test]
fn variant_keeps_own_name_rule_beside_field_rule() {
    let mut v = Variant {
        ident: "UserData".to_string(),
        fields: Fields::Named(vec![field("first_name", &["String"])]),
        attributes: attrs(),
    };
    v.attributes.serde = value_rule(Some("user"), false);
    v.attributes.serde_container =
        Some(Serde::Container(SerdeContainer { rename_all: Some(RenameRule::Camel) }));
    let inner = object(vec![("firstName", prop(ComponentType::String, None))], &["firstName"]);
    let expected = Schema::OneOf { cases: vec![object(vec![("user", inner)], &[])], description: None };
    assert_eq!(derive(Data::Enum(vec![v]), container(RenameRule::Snake)), Ok(expected));
}

#[test]
fn generic_type_without_aliases_has_none() {
    let data = Data::Struct(Fields::Named(vec![field("value", &["T"])]));
    let c = Component::new(data, attrs(), "Page".to_string(), path(&["T"]), None);
    assert!(c.aliases.is_none());
    assert_eq!(c.alias_schemas(), Ok(vec![]));
}
