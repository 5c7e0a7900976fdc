//! Naming and skip rules of containers and items, as the serializer reads them.
use vstd::prelude::*;
use crate::naming::{apply_rule, RenameRule};

verus! {

/// Rules on a container: how all its items are renamed.
#[derive(Debug)]
pub struct SerdeContainer {
    pub rename_all: Option<RenameRule>,
}

/// Rules on one field or variant.
#[derive(Debug)]
pub struct SerdeValue {
    pub rename: Option<String>,
    pub skip: bool,
}

/// Parsed serializer rules of a container or of an item.
#[derive(Debug)]
pub enum Serde {
    Container(SerdeContainer),
    Value(SerdeValue),
}

/// An item is left out exactly when its own rule skips it.
pub open spec fn included(rule: Option<Serde>) -> bool {
    match rule {
        Some(Serde::Value(v)) => !v.skip,
        _ => true,
    }
}

/// The name one rule gives to `name`, if it gives one.
pub open spec fn rule_name(rule: Option<Serde>, name: Seq<char>, variant: bool) -> Option<Seq<char>> {
    match rule {
        Some(Serde::Container(c)) => match c.rename_all {
            Some(r) => Some(apply_rule(r, variant, name)),
            None => None,
        },
        Some(Serde::Value(v)) => match v.rename {
            Some(n) => Some(n@),
            None => None,
        },
        None => None,
    }
}

/// The item's own rule wins; else the container's; else no new name.
pub open spec fn resolve_name(
    container: Option<Serde>,
    item: Option<Serde>,
    name: Seq<char>,
    variant: bool,
) -> Option<Seq<char>> {
    match rule_name(item, name, variant) {
        Some(n) => Some(n),
        None => rule_name(container, name, variant),
    }
}

/// The name under which an item appears.
pub open spec fn effective_name(
    container: Option<Serde>,
    item: Option<Serde>,
    name: Seq<char>,
    variant: bool,
) -> Seq<char> {
    match resolve_name(container, item, name, variant) {
        Some(n) => n,
        None => name,
    }
}

/// Whether an item with this rule appears in the schema.
pub fn is_not_skipped(rule: &Option<Serde>) -> (r: bool)
    ensures
        r == included(*rule),
{
    match rule {
        Some(Serde::Value(v)) => !v.skip,
        _ => true,
    }
}

fn rule_rename(rule: &Option<Serde>, name: &str, variant: bool) -> (r: Option<String>)
    ensures
        r matches Some(s) ==> rule_name(*rule, name@, variant) == Some(s@),
        r is None ==> rule_name(*rule, name@, variant) is None,
{
    match rule {
        Some(Serde::Container(c)) => match c.rename_all {
            Some(rr) => if variant {
                Some(rr.rename_variant(name))
            } else {
                Some(rr.rename(name))
            },
            None => None,
        },
        Some(Serde::Value(v)) => match &v.rename {
            Some(n) => Some(n.clone()),
            None => None,
        },
        None => None,
    }
}

/// The new name of `name` under the item's and the container's rules, if
/// either gives one; `variant` tells a variant name from a field name.
pub fn rename(
    container_rule: &Option<Serde>,
    field_rule: &Option<Serde>,
    name: &str,
    variant: bool,
) -> (r: Option<String>)
    ensures
        r matches Some(s) ==> resolve_name(*container_rule, *field_rule, name@, variant) == Some(s@),
        r is None ==> resolve_name(*container_rule, *field_rule, name@, variant) is None,
{
    let own = rule_rename(field_rule, name, variant);
    if own.is_some() {
        own
    } else {
        rule_rename(container_rule, name, variant)
    }
}

/// The new name of a field, if the rules give one.
pub fn rename_field(container_rule: &Option<Serde>, field_rule: &Option<Serde>, field: &str) -> (r:
    Option<String>)
    ensures
        r matches Some(s) ==> resolve_name(*container_rule, *field_rule, field@, false) == Some(s@),
        r is None ==> resolve_name(*container_rule, *field_rule, field@, false) is None,
{
    rename(container_rule, field_rule, field, false)
}

/// The new name of a variant, if the rules give one.
pub fn rename_variant(
    container_rule: &Option<Serde>,
    variant_rule: &Option<Serde>,
    variant: &str,
) -> (r: Option<String>)
    ensures
        r matches Some(s) ==> resolve_name(*container_rule, *variant_rule, variant@, true) == Some(s@),
        r is None ==> resolve_name(*container_rule, *variant_rule, variant@, true) is None,
{
    rename(container_rule, variant_rule, variant, true)
}

/// The name under which an item appears.
pub fn name_of(container_rule: &Option<Serde>, item_rule: &Option<Serde>, name: &String, variant: bool) -> (r:
    String)
    ensures
        r@ == effective_name(*container_rule, *item_rule, name@, variant),
{
    match rename(container_rule, item_rule, name.as_str(), variant) {
        Some(n) => n,
        None => name.clone(),
    }
}

} // verus!
