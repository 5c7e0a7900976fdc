//! Type descriptors: a chain of known wrapper types around a leaf type.
use vstd::prelude::*;

verus! {

/// A known single-child wrapper type.
#[derive(Clone, Copy, Debug, PartialEq, Eq, Structural)]
pub enum GenericType {
    /// `Vec`
    Sequence,
    /// `HashMap`, `BTreeMap`
    Associative,
    /// `Option`
    Nullable,
    /// `Cow`
    CopyOnWrite,
    /// `Box`
    Indirection,
    /// `RefCell`
    InteriorMutable,
}

/// How a leaf type shows in a schema.
#[derive(Clone, Copy, Debug, PartialEq, Eq, Structural)]
pub enum ValueType {
    Primitive,
    Object,
}

/// The JSON type of a primitive.
#[derive(Clone, Copy, Debug, PartialEq, Eq, Structural)]
pub enum ComponentType {
    String,
    Integer,
    Number,
    Boolean,
}

/// The known format of a primitive.
#[derive(Clone, Copy, Debug, PartialEq, Eq, Structural)]
pub enum ComponentFormat {
    Int32,
    Int64,
    Float,
    Double,
    Date,
    DateTime,
}

/// A type descriptor: wrappers peeled off a type, down to its leaf.
#[derive(Debug)]
pub enum ComponentPart {
    Leaf { value_type: ValueType, ident: String },
    Wrapped { generic_type: GenericType, child: Box<ComponentPart> },
}

pub open spec fn generic_type_of(id: Seq<char>) -> Option<GenericType> {
    if id == "Vec"@ {
        Some(GenericType::Sequence)
    } else if id == "HashMap"@ || id == "BTreeMap"@ {
        Some(GenericType::Associative)
    } else if id == "Option"@ {
        Some(GenericType::Nullable)
    } else if id == "Cow"@ {
        Some(GenericType::CopyOnWrite)
    } else if id == "Box"@ {
        Some(GenericType::Indirection)
    } else if id == "RefCell"@ {
        Some(GenericType::InteriorMutable)
    } else {
        None
    }
}

pub open spec fn is_integer_name(id: Seq<char>) -> bool {
    id == "i8"@ || id == "i16"@ || id == "i32"@ || id == "i64"@ || id == "i128"@ || id
        == "isize"@ || id == "u8"@ || id == "u16"@ || id == "u32"@ || id == "u64"@ || id
        == "u128"@ || id == "usize"@
}

/// The JSON type of a primitive type name; `None` for any other name.
pub open spec fn primitive_type_of(id: Seq<char>) -> Option<ComponentType> {
    if id == "String"@ || id == "str"@ || id == "char"@ || id == "Date"@ || id == "DateTime"@ {
        Some(ComponentType::String)
    } else if id == "bool"@ {
        Some(ComponentType::Boolean)
    } else if is_integer_name(id) {
        Some(ComponentType::Integer)
    } else if id == "f32"@ || id == "f64"@ {
        Some(ComponentType::Number)
    } else {
        None
    }
}

/// The known format of a primitive type name, if it has one.
pub open spec fn format_of(id: Seq<char>) -> Option<ComponentFormat> {
    if id == "i8"@ || id == "i16"@ || id == "i32"@ || id == "u8"@ || id == "u16"@ || id
        == "u32"@ {
        Some(ComponentFormat::Int32)
    } else if id == "i64"@ || id == "u64"@ {
        Some(ComponentFormat::Int64)
    } else if id == "f32"@ {
        Some(ComponentFormat::Float)
    } else if id == "f64"@ {
        Some(ComponentFormat::Double)
    } else if id == "Date"@ {
        Some(ComponentFormat::Date)
    } else if id == "DateTime"@ {
        Some(ComponentFormat::DateTime)
    } else {
        None
    }
}

pub open spec fn value_type_of(id: Seq<char>) -> ValueType {
    if primitive_type_of(id) is Some {
        ValueType::Primitive
    } else {
        ValueType::Object
    }
}

/// The descriptor of the type written as `path`, outermost name first
/// (`Option<Vec<i32>>` is `["Option", "Vec", "i32"]`), from position `i` on.
pub open spec fn part_of_path(path: Seq<String>, i: int) -> ComponentPart
    decreases path.len() - i,
{
    if 0 <= i && i + 1 < path.len() && generic_type_of(path[i]@) is Some {
        ComponentPart::Wrapped {
            generic_type: generic_type_of(path[i]@)->Some_0,
            child: Box::new(part_of_path(path, i + 1)),
        }
    } else {
        ComponentPart::Leaf { value_type: value_type_of(path[i]@), ident: path[i] }
    }
}

/// Structural equality: same wrappers, same leaf kind and name.
pub open spec fn same_part(a: ComponentPart, b: ComponentPart) -> bool
    decreases a,
{
    match (a, b) {
        (
            ComponentPart::Leaf { value_type: va, ident: ia },
            ComponentPart::Leaf { value_type: vb, ident: ib },
        ) => va == vb && ia@ == ib@,
        (
            ComponentPart::Wrapped { generic_type: ga, child: ca },
            ComponentPart::Wrapped { generic_type: gb, child: cb },
        ) => ga == gb && same_part(*ca, *cb),
        _ => false,
    }
}

/// The index of the first of `params` named `id`, searching from `i`; -1 if none.
pub open spec fn param_index(params: Seq<String>, id: Seq<char>, i: int) -> int
    decreases params.len() - i,
{
    if i < 0 || i >= params.len() {
        -1
    } else if params[i]@ == id {
        i
    } else {
        param_index(params, id, i + 1)
    }
}

/// `part` with each leaf named like one of `params` replaced by the type
/// of the same position in `args`.
pub open spec fn substitute(part: ComponentPart, params: Seq<String>, args: Seq<String>) -> ComponentPart
    decreases part,
{
    match part {
        ComponentPart::Leaf { ident, .. } => {
            let k = param_index(params, ident@, 0);
            if 0 <= k < args.len() {
                ComponentPart::Leaf { value_type: value_type_of(args[k]@), ident: args[k] }
            } else {
                part
            }
        },
        ComponentPart::Wrapped { generic_type, child } => ComponentPart::Wrapped {
            generic_type,
            child: Box::new(substitute(*child, params, args)),
        },
    }
}

pub open spec fn outer_generic(part: ComponentPart) -> Option<GenericType> {
    match part {
        ComponentPart::Wrapped { generic_type, .. } => Some(generic_type),
        _ => None,
    }
}

/// Whether `a` and `b` hold the same characters.
pub fn text_is(a: &str, b: &str) -> (r: bool)
    ensures
        r == (a@ == b@),
{
    let x = a.to_owned();
    let y = b.to_owned();
    x == y
}

pub fn generic_type(id: &str) -> (r: Option<GenericType>)
    ensures
        r == generic_type_of(id@),
{
    if text_is(id, "Vec") {
        Some(GenericType::Sequence)
    } else if text_is(id, "HashMap") || text_is(id, "BTreeMap") {
        Some(GenericType::Associative)
    } else if text_is(id, "Option") {
        Some(GenericType::Nullable)
    } else if text_is(id, "Cow") {
        Some(GenericType::CopyOnWrite)
    } else if text_is(id, "Box") {
        Some(GenericType::Indirection)
    } else if text_is(id, "RefCell") {
        Some(GenericType::InteriorMutable)
    } else {
        None
    }
}

fn is_integer(id: &str) -> (r: bool)
    ensures
        r == is_integer_name(id@),
{
    text_is(id, "i8") || text_is(id, "i16") || text_is(id, "i32") || text_is(id, "i64")
        || text_is(id, "i128") || text_is(id, "isize") || text_is(id, "u8") || text_is(id, "u16")
        || text_is(id, "u32") || text_is(id, "u64") || text_is(id, "u128") || text_is(id, "usize")
}

pub fn primitive_type(id: &str) -> (r: Option<ComponentType>)
    ensures
        r == primitive_type_of(id@),
{
    if text_is(id, "String") || text_is(id, "str") || text_is(id, "char") || text_is(id, "Date")
        || text_is(id, "DateTime") {
        Some(ComponentType::String)
    } else if text_is(id, "bool") {
        Some(ComponentType::Boolean)
    } else if is_integer(id) {
        Some(ComponentType::Integer)
    } else if text_is(id, "f32") || text_is(id, "f64") {
        Some(ComponentType::Number)
    } else {
        None
    }
}

pub fn known_format(id: &str) -> (r: Option<ComponentFormat>)
    ensures
        r == format_of(id@),
{
    if text_is(id, "i8") || text_is(id, "i16") || text_is(id, "i32") || text_is(id, "u8")
        || text_is(id, "u16") || text_is(id, "u32") {
        Some(ComponentFormat::Int32)
    } else if text_is(id, "i64") || text_is(id, "u64") {
        Some(ComponentFormat::Int64)
    } else if text_is(id, "f32") {
        Some(ComponentFormat::Float)
    } else if text_is(id, "f64") {
        Some(ComponentFormat::Double)
    } else if text_is(id, "Date") {
        Some(ComponentFormat::Date)
    } else if text_is(id, "DateTime") {
        Some(ComponentFormat::DateTime)
    } else {
        None
    }
}

pub fn value_type(id: &str) -> (r: ValueType)
    ensures
        r == value_type_of(id@),
{
    if primitive_type(id).is_some() {
        ValueType::Primitive
    } else {
        ValueType::Object
    }
}

fn part_from(path: &Vec<String>, i: usize) -> (r: ComponentPart)
    requires
        i < path@.len(),
    ensures
        r == part_of_path(path@, i as int),
    decreases path@.len() - i,
{
    let id = path[i].as_str();
    let g = generic_type(id);
    if i < path.len() - 1 && g.is_some() {
        let child = part_from(path, i + 1);
        ComponentPart::Wrapped { generic_type: g.unwrap(), child: Box::new(child) }
    } else {
        ComponentPart::Leaf { value_type: value_type(id), ident: path[i].clone() }
    }
}

fn find_param(params: &Vec<String>, id: &str) -> (r: Option<usize>)
    ensures
        r matches Some(k) ==> k < params@.len() && k as int == param_index(params@, id@, 0),
        r is None ==> param_index(params@, id@, 0) == -1,
{
    let mut i: usize = 0;
    while i < params.len()
        invariant
            i <= params@.len(),
            param_index(params@, id@, 0) == param_index(params@, id@, i as int),
        decreases params@.len() - i,
    {
        if text_is(params[i].as_str(), id) {
            return Some(i);
        }
        i = i + 1;
    }
    None
}

impl ComponentPart {
    /// The descriptor of the type written as `path`, outermost name first.
    pub fn from_type(path: &Vec<String>) -> (r: ComponentPart)
        requires
            path@.len() > 0,
        ensures
            r == part_of_path(path@, 0),
    {
        part_from(path, 0)
    }

    /// A leaf descriptor for the type named `ident`.
    pub fn from_ident(ident: &String) -> (r: ComponentPart)
        ensures
            r == (ComponentPart::Leaf { value_type: value_type_of(ident@), ident: *ident }),
    {
        ComponentPart::Leaf { value_type: value_type(ident.as_str()), ident: ident.clone() }
    }

    pub fn copy(&self) -> (r: ComponentPart)
        ensures
            r == *self,
        decreases self,
    {
        match self {
            ComponentPart::Leaf { value_type, ident } => ComponentPart::Leaf {
                value_type: *value_type,
                ident: ident.clone(),
            },
            ComponentPart::Wrapped { generic_type, child } => {
                let c = child.copy();
                ComponentPart::Wrapped { generic_type: *generic_type, child: Box::new(c) }
            },
        }
    }

    /// Structural equality of two descriptors.
    pub fn same_as(&self, other: &ComponentPart) -> (r: bool)
        ensures
            r == same_part(*self, *other),
        decreases self,
    {
        match (self, other) {
            (
                ComponentPart::Leaf { value_type: va, ident: ia },
                ComponentPart::Leaf { value_type: vb, ident: ib },
            ) => *va == *vb && *ia == *ib,
            (
                ComponentPart::Wrapped { generic_type: ga, child: ca },
                ComponentPart::Wrapped { generic_type: gb, child: cb },
            ) => *ga == *gb && ca.same_as(cb),
            _ => false,
        }
    }

    /// This descriptor with each leaf named like one of `params` replaced by
    /// the type at the same position of `args`.
    pub fn substituted(&self, params: &Vec<String>, args: &Vec<String>) -> (r: ComponentPart)
        ensures
            r == substitute(*self, params@, args@),
        decreases self,
    {
        match self {
            ComponentPart::Leaf { ident, .. } => {
                let k = find_param(params, ident.as_str());
                if k.is_some() && k.unwrap() < args.len() {
                    let a = &args[k.unwrap()];
                    ComponentPart::Leaf { value_type: value_type(a.as_str()), ident: a.clone() }
                } else {
                    self.copy()
                }
            },
            ComponentPart::Wrapped { generic_type, child } => {
                let c = child.substituted(params, args);
                ComponentPart::Wrapped { generic_type: *generic_type, child: Box::new(c) }
            },
        }
    }

    pub fn generic_type(&self) -> (r: Option<GenericType>)
        ensures
            r == outer_generic(*self),
    {
        match self {
            ComponentPart::Wrapped { generic_type, .. } => Some(*generic_type),
            _ => None,
        }
    }
}

} // verus!
