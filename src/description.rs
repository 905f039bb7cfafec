//! The structural description of a type definition, as plain values.
use vstd::prelude::*;

verus! {

/// A type as written in a field declaration.
#[derive(Debug)]
pub enum TypeExpr {
    /// A path type such as `T`, `Vec<T>` or `std::marker::PhantomData<T>`.
    /// `qualified` is set for a leading `::` or a `<X as Trait>::` prefix.
    Path { qualified: bool, segments: Vec<PathSegment> },
    /// Any other kind of type: a reference, a tuple, an array, ...
    Other,
}

/// One segment of a path type, with the arguments written after it.
#[derive(Debug)]
pub struct PathSegment {
    pub ident: String,
    pub args: PathArgs,
}

/// The arguments that follow a path segment.
#[derive(Debug)]
pub enum PathArgs {
    Bare,
    /// `<A, B, ...>`
    AngleBracketed(Vec<TypeArg>),
    /// `(A, B) -> C`, as in `Fn(A, B) -> C`
    Parenthesized,
}

/// One argument between angle brackets.
#[derive(Debug)]
pub enum TypeArg {
    Type(TypeExpr),
    /// A lifetime, a constant, an associated-type binding or a constraint.
    Other,
}

/// The path of an attribute, such as `debug` in `#[debug = "..."]`.
#[derive(Debug)]
pub struct AttrPath {
    pub leading_colon: bool,
    pub segments: Vec<String>,
}

/// An attribute attached to a field.
#[derive(Debug)]
pub enum Annotation {
    /// `#[path = literal]`; `literal` is the literal's source text, quotes and
    /// escapes included (`"0b{:08b}"`, `b"x"`, `12`).
    NameValue { path: AttrPath, literal: String },
    /// A bare path, a list, or tokens that do not form a meta item.
    Other,
}

/// A field of a record type.
#[derive(Debug)]
pub struct Field {
    pub name: String,
    pub ty: TypeExpr,
    pub attrs: Vec<Annotation>,
}

/// The fields of a struct.
#[derive(Debug)]
pub enum Fields {
    /// `{ a: A, b: B }`
    Named(Vec<Field>),
    /// `(A, B)`: the types of the positional fields.
    Unnamed(Vec<TypeExpr>),
    /// No fields at all.
    Unit,
}

/// What kind of data a type definition holds.
#[derive(Debug)]
pub enum TypeBody {
    Struct(Fields),
    Enum,
    Union,
}

/// A generic parameter of the type, by name.
#[derive(Debug)]
pub enum GenericParam {
    Type(String),
    Lifetime(String),
    Const(String),
}

/// A whole type definition.
#[derive(Debug)]
pub struct TypeDescription {
    pub name: String,
    pub generics: Vec<GenericParam>,
    pub body: TypeBody,
}

} // verus!
