//! The intermediate representation shared by the converter and the generator.
//!
//! The vocabulary is closed: a type has exactly one structural kind, and
//! everything cross-cutting (HTTP method, rename hints, format hints) travels
//! as an [`Annotation`]. Optionality is a generic instantiation of the
//! well-known wrapper `Option`, never a flag.

use vstd::prelude::*;

pub mod cloning;
pub mod map;
pub mod model;
pub mod names;

use map::ValueMap;

verus! {

/// A type in the representation.
#[derive(Debug, PartialEq)]
pub struct Type {
    pub kind: TypeKind,
    /// The declared name; `None` for an anonymous type.
    pub name: Option<String>,
    /// Type parameters of a generic declaration.
    pub params: Vec<TypeParam>,
    /// Type arguments of a generic instantiation.
    pub args: Vec<Type>,
    /// Bounds, constraints and modifiers, in order.
    pub annotations: Vec<Annotation>,
    pub metadata: Metadata,
}

/// The structural kind of a type.
#[derive(Debug, PartialEq)]
pub enum TypeKind {
    /// Reference to a named type.
    Ref { name: String },
    /// Product type.
    Struct { fields: Vec<Field> },
    /// Sum type.
    Enum { variants: Vec<Variant> },
    /// Function or callback type.
    Function { params: Vec<Param>, ret: Box<Type> },
    /// Untagged sum of types.
    Union { members: Vec<Type> },
    /// Structural combination of types.
    Intersection { members: Vec<Type> },
}

/// A type parameter with its bounds and an optional default.
#[derive(Debug, PartialEq)]
pub struct TypeParam {
    pub name: String,
    pub bounds: Vec<Annotation>,
    pub default: Option<Box<Type>>,
}

/// An open `(kind, value)` pair: the one extension mechanism.
#[derive(Debug, PartialEq)]
pub struct Annotation {
    pub kind: String,
    pub value: Option<AnnotationValue>,
}

/// The value of an annotation.
#[derive(Debug, PartialEq)]
pub enum AnnotationValue {
    Type(Box<Type>),
    String(String),
    /// A number, held as its decimal numeral.
    Number(String),
    Bool(bool),
    List(Vec<AnnotationValue>),
}

/// A field of a struct or of a variant. Without a name it is positional.
#[derive(Debug, PartialEq)]
pub struct Field {
    pub name: Option<String>,
    pub typ: Type,
    pub annotations: Vec<Annotation>,
}

/// A variant of an enum. No fields: a unit variant; only unnamed fields: a
/// tuple variant; otherwise a struct variant.
#[derive(Debug, PartialEq)]
pub struct Variant {
    pub name: String,
    pub fields: Vec<Field>,
    pub annotations: Vec<Annotation>,
}

/// A function parameter.
#[derive(Debug, PartialEq)]
pub struct Param {
    pub name: Option<String>,
    pub typ: Type,
    pub default: Option<Value>,
    pub annotations: Vec<Annotation>,
}

/// A literal, for defaults and constants.
#[derive(Debug, PartialEq)]
pub enum Value {
    Null,
    Bool(bool),
    /// A number, held as its decimal numeral.
    Number(String),
    String(String),
    List(Vec<Value>),
    /// Keys are unique and keep the order in which they were inserted.
    Object(ValueMap),
}

/// A function declaration.
#[derive(Debug, PartialEq)]
pub struct Function {
    pub name: String,
    pub params: Vec<TypeParam>,
    pub args: Vec<Param>,
    pub ret: Type,
    pub annotations: Vec<Annotation>,
    pub metadata: Metadata,
}

/// A module: the unit that the converter produces and the generator reads.
#[derive(Debug, PartialEq)]
pub struct Module {
    pub name: String,
    pub items: Vec<Item>,
    pub submodules: Vec<Module>,
    pub annotations: Vec<Annotation>,
    pub metadata: Metadata,
}

/// An item of a module.
#[derive(Debug, PartialEq)]
pub enum Item {
    Type(Type),
    Function(Function),
    Const { name: String, typ: Type, value: Value },
}

/// Documentation, origin and whatever else is attached to a declaration.
#[derive(Debug, PartialEq)]
pub struct Metadata {
    pub docs: Option<String>,
    pub source: Option<SourceLocation>,
    /// Confidence of an assisted generation, as the bits of an IEEE 754
    /// single-precision number between 0 and 1.
    pub confidence: Option<u32>,
    /// Anything not modelled otherwise.
    pub extra: ValueMap,
}

/// Where a declaration came from.
#[derive(Debug, PartialEq)]
pub struct SourceLocation {
    pub file: String,
    pub line: Option<u32>,
    pub column: Option<u32>,
}

impl Default for Metadata {
    /// Metadata that says nothing.
    fn default() -> (m: Metadata)
        ensures
            m@ == model::empty_metadata(),
    {
        Metadata { docs: None, source: None, confidence: None, extra: ValueMap::new() }
    }
}

impl Metadata {
    /// Metadata that holds documentation and nothing else.
    pub fn with_docs(docs: Option<String>) -> (m: Metadata)
        ensures
            m@ == model::docs_metadata(model::text_of(docs)),
    {
        Metadata { docs, source: None, confidence: None, extra: ValueMap::new() }
    }

    /// Whether the metadata says nothing: no documentation, no source, no
    /// confidence and nothing extra.
    #[must_use]
    pub fn is_empty(&self) -> (b: bool)
        ensures
            b == (self@ == model::empty_metadata()),
    {
        let b = self.docs.is_none() && self.source.is_none() && self.confidence.is_none()
            && self.extra.is_empty();
        proof {
            if b {
                assert(self@.extra =~= Seq::empty());
            }
        }
        b
    }
}

impl Type {
    /// A reference to the type called `name`.
    pub fn reference(name: &str) -> (t: Type)
        ensures
            t@ == model::reference_type(name@),
    {
        let t = Type {
            kind: TypeKind::Ref { name: name.to_owned() },
            name: None,
            params: Vec::new(),
            args: Vec::new(),
            annotations: Vec::new(),
            metadata: Metadata::default(),
        };
        proof {
            assert(t@.params =~= Seq::empty());
            assert(t@.args =~= Seq::empty());
            assert(t@.annotations =~= Seq::empty());
        }
        t
    }

    /// A generic instantiation: `base` applied to `args`.
    pub fn generic(base: &str, args: Vec<Type>) -> (t: Type)
        ensures
            t@ == model::generic_type(base@, model::types_model(args@)),
    {
        let t = Type {
            kind: TypeKind::Ref { name: base.to_owned() },
            name: None,
            params: Vec::new(),
            args,
            annotations: Vec::new(),
            metadata: Metadata::default(),
        };
        proof {
            assert(t@.params =~= Seq::empty());
            assert(t@.annotations =~= Seq::empty());
        }
        t
    }
}

impl Annotation {
    /// An annotation without a value.
    pub fn flag(kind: &str) -> (a: Annotation)
        ensures
            a@ == (model::AnnotationModel { kind: kind@, value: None }),
    {
        Annotation { kind: kind.to_owned(), value: None }
    }

    /// An annotation whose value is a type.
    pub fn with_type(kind: &str, typ: Type) -> (a: Annotation)
        ensures
            a@ == (model::AnnotationModel {
                kind: kind@,
                value: Some(model::AnnotationValueModel::Type(Box::new(typ@))),
            }),
    {
        Annotation { kind: kind.to_owned(), value: Some(AnnotationValue::Type(Box::new(typ))) }
    }

    /// An annotation whose value is a string.
    pub fn with_string(kind: &str, value: &str) -> (a: Annotation)
        ensures
            a@ == model::string_annotation(kind@, value@),
    {
        Annotation {
            kind: kind.to_owned(),
            value: Some(AnnotationValue::String(value.to_owned())),
        }
    }

    /// An annotation whose value is a number, given as its decimal numeral.
    pub fn with_number(kind: &str, value: &str) -> (a: Annotation)
        ensures
            a@ == (model::AnnotationModel {
                kind: kind@,
                value: Some(model::AnnotationValueModel::Number(value@)),
            }),
    {
        Annotation {
            kind: kind.to_owned(),
            value: Some(AnnotationValue::Number(value.to_owned())),
        }
    }
}

} // verus!
