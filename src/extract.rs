//! The field extractor: the one check on the shape of the input.
use vstd::prelude::*;
use crate::description::{Field, Fields, TypeBody, TypeDescription};

verus! {

/// The input is not a struct with named fields.
#[derive(Clone, Copy, Debug, PartialEq, Eq)]
pub struct ShapeError;

impl ShapeError {
    /// The diagnostic reported for a refused shape.
    pub fn message(&self) -> (r: String)
        ensures
            r@ == "must be a single-variant record with named fields"@,
    {
        "must be a single-variant record with named fields".to_owned()
    }
}

/// The named fields of `d`, or `None` when `d` is not a struct with named fields.
pub open spec fn named_fields(d: TypeDescription) -> Option<Seq<Field>> {
    match d.body {
        TypeBody::Struct(Fields::Named(v)) => Some(v@),
        _ => None,
    }
}

/// The ordered field list of a struct with named fields; every other shape is
/// refused.
pub fn extract_fields(d: &TypeDescription) -> (r: Result<&Vec<Field>, ShapeError>)
    ensures
        match r {
            Ok(v) => named_fields(*d) == Some(v@),
            Err(_) => named_fields(*d) is None,
        },
{
    match &d.body {
        TypeBody::Struct(Fields::Named(v)) => Ok(v),
        _ => Err(ShapeError),
    }
}

} // verus!
