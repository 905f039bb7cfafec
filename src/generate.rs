//! The whole pipeline: from a type description to the generated function.
use vstd::prelude::*;
use crate::constraints::{gains_bound, resolve_bounds};
use crate::description::{Field, TypeDescription};
use crate::extract::{extract_fields, named_fields, ShapeError};
use crate::plan::{build_body, is_body_for, RenderStep};

verus! {

/// The description of a generated `Debug` implementation.
#[derive(Debug, PartialEq, Eq)]
pub struct GeneratedImpl {
    /// The name of the type, rendered as the struct's name.
    pub struct_name: String,
    /// For each generic parameter of the type, in order, whether the
    /// implementation requires it to be `Debug`.
    pub bounds: Vec<bool>,
    /// The body of `fmt`.
    pub body: Vec<RenderStep>,
}

/// `g` is the implementation generated for `d`, whose named fields are `fields`.
pub open spec fn is_generated_for(g: GeneratedImpl, d: TypeDescription, fields: Seq<Field>) -> bool {
    &&& g.struct_name@ == d.name@
    &&& g.bounds@.len() == d.generics@.len()
    &&& forall|k: int|
        0 <= k < d.generics@.len() ==> #[trigger] g.bounds@[k] == gains_bound(d.generics@[k], fields)
    &&& is_body_for(g.body@, d.name@, fields)
}

/// `r` is the outcome of generation for `d`: an implementation for a struct
/// with named fields, a shape error for anything else.
pub open spec fn generation_result(d: TypeDescription, r: Result<GeneratedImpl, ShapeError>) -> bool {
    match r {
        Ok(g) => named_fields(d) matches Some(fields) && is_generated_for(g, d, fields),
        Err(_) => named_fields(d) is None,
    }
}

/// Generates the `Debug` implementation for `d`, or refuses its shape before
/// any other stage runs.
pub fn generate(d: &TypeDescription) -> (r: Result<GeneratedImpl, ShapeError>)
    ensures
        generation_result(*d, r),
{
    let fields = match extract_fields(d) {
        Ok(f) => f,
        Err(e) => {
            return Err(e);
        },
    };
    let body = build_body(&d.name, fields);
    let bounds = resolve_bounds(&d.generics, fields);
    Ok(GeneratedImpl { struct_name: d.name.clone(), bounds, body })
}

} // verus!
