//! Properties of generation, proved over the contracts of the pipeline.
use vstd::prelude::*;
use crate::annotation::{annotation_template, field_template, first_template};
use crate::constraints::{bare_ident, direct_names, marker_names, marker_param};
use crate::description::{Annotation, Field, TypeDescription};
use crate::extract::{named_fields, ShapeError};
use crate::generate::{generation_result, GeneratedImpl};
use crate::plan::{directive_for, RenderDirective, RenderStep};

verus! {

/// When no attribute supplies a template, there is none for the list.
proof fn lemma_no_template(attrs: Seq<Annotation>)
    requires
        forall|j: int| 0 <= j < attrs.len() ==> #[trigger] annotation_template(attrs[j]) is None,
    ensures
        first_template(attrs) is None,
    decreases attrs.len(),
{
    if attrs.len() > 0 {
        assert forall|j: int| 0 <= j < attrs.drop_first().len() implies #[trigger] annotation_template(
            attrs.drop_first()[j],
        ) is None by {
            assert(attrs.drop_first()[j] == attrs[j + 1]);
        }
        lemma_no_template(attrs.drop_first());
    }
}

/// The first attribute that supplies a template decides the list's template.
proof fn lemma_first_template_at(attrs: Seq<Annotation>, i: int)
    requires
        0 <= i < attrs.len(),
        annotation_template(attrs[i]) is Some,
        forall|j: int| 0 <= j < i ==> #[trigger] annotation_template(attrs[j]) is None,
    ensures
        first_template(attrs) == annotation_template(attrs[i]),
    decreases i,
{
    if i > 0 {
        assert forall|j: int| 0 <= j < i - 1 implies #[trigger] annotation_template(
            attrs.drop_first()[j],
        ) is None by {
            assert(attrs.drop_first()[j] == attrs[j + 1]);
        }
        assert(attrs.drop_first()[i - 1] == attrs[i]);
        lemma_first_template_at(attrs.drop_first(), i - 1);
    }
}

/// A field whose type is marker-shaped puts its parameter among the marked names.
proof fn lemma_marker_names_has(fields: Seq<Field>, i: int)
    requires
        0 <= i < fields.len(),
        marker_param(fields[i].ty) is Some,
    ensures
        marker_names(fields).contains(marker_param(fields[i].ty)->0),
    decreases fields.len(),
{
    let p = marker_param(fields[i].ty)->0;
    let rest = marker_names(fields.drop_last());
    if i == fields.len() - 1 {
        assert(marker_names(fields) == rest.push(p));
        assert(marker_names(fields)[rest.len() as int] == p);
    } else {
        assert(fields.drop_last()[i] == fields[i]);
        lemma_marker_names_has(fields.drop_last(), i);
        let k = choose|k: int| 0 <= k < rest.len() && rest[k] == p;
        match marker_param(fields.last().ty) {
            Some(q) => {
                assert(marker_names(fields)[k] == p);
            },
            None => {},
        }
    }
}

/// A field whose type is a bare identifier puts it among the direct names.
proof fn lemma_direct_names_has(fields: Seq<Field>, i: int)
    requires
        0 <= i < fields.len(),
        bare_ident(fields[i].ty) is Some,
    ensures
        direct_names(fields).contains(bare_ident(fields[i].ty)->0),
    decreases fields.len(),
{
    let p = bare_ident(fields[i].ty)->0;
    let rest = direct_names(fields.drop_last());
    if i == fields.len() - 1 {
        assert(direct_names(fields) == rest.push(p));
        assert(direct_names(fields)[rest.len() as int] == p);
    } else {
        assert(fields.drop_last()[i] == fields[i]);
        lemma_direct_names_has(fields.drop_last(), i);
        let k = choose|k: int| 0 <= k < rest.len() && rest[k] == p;
        match bare_ident(fields.last().ty) {
            Some(q) => {
                assert(direct_names(fields)[k] == p);
            },
            None => {},
        }
    }
}

/// Every direct name comes from a field whose type is that bare identifier.
proof fn lemma_direct_names_only(fields: Seq<Field>, p: Seq<char>)
    requires
        direct_names(fields).contains(p),
    ensures
        exists|j: int| 0 <= j < fields.len() && bare_ident(#[trigger] fields[j].ty) == Some(p),
    decreases fields.len(),
{
    let rest = direct_names(fields.drop_last());
    let last = fields.len() - 1;
    if bare_ident(fields[last].ty) == Some(p) {
    } else {
        let k = choose|k: int| 0 <= k < direct_names(fields).len() && direct_names(fields)[k] == p;
        match bare_ident(fields.last().ty) {
            Some(q) => {
                assert(k < rest.len());
                assert(rest[k] == p);
            },
            None => {},
        }
        assert(rest.contains(p));
        lemma_direct_names_only(fields.drop_last(), p);
        let j = choose|j: int| 0 <= j < fields.drop_last().len() && bare_ident(#[trigger] fields.drop_last()[j].ty) == Some(p);
        assert(fields.drop_last()[j] == fields[j]);
    }
}

/// The generated body opens the struct, then emits every field exactly once and
/// in declaration order, then closes.
pub proof fn fields_emitted_in_declaration_order(d: TypeDescription, r: Result<GeneratedImpl, ShapeError>)
    requires
        generation_result(d, r),
        r is Ok,
    ensures
        named_fields(d) is Some,
        r->Ok_0.body@.len() == named_fields(d)->0.len() + 2,
        r->Ok_0.body@[0] matches RenderStep::Open(n) && n@ == d.name@,
        forall|i: int|
            0 <= i < named_fields(d)->0.len() ==> (#[trigger] r->Ok_0.body@[i + 1] matches RenderStep::Field { name, .. } && name@ == named_fields(d)->0[i].name@),
        r->Ok_0.body@.last() is Close,
{
    let fields = named_fields(d)->0;
    let body = r->Ok_0.body@;
    assert forall|i: int| 0 <= i < fields.len() implies (#[trigger] body[i + 1] matches RenderStep::Field { name, .. } && name@ == fields[i].name@) by {
        assert(crate::plan::emits_field(body[i + 1], fields[i]));
    }
}

/// A field to which no attribute supplies a template is rendered by default,
/// whatever other attributes it carries.
pub proof fn unannotated_field_renders_by_default(f: Field, d: RenderDirective)
    requires
        forall|j: int| 0 <= j < f.attrs@.len() ==> #[trigger] annotation_template(f.attrs@[j]) is None,
        directive_for(d, field_template(f)),
    ensures
        d is Default,
{
    lemma_no_template(f.attrs@);
}

/// Of several attributes that supply a template, the first one decides, and its
/// template is used unchanged.
pub proof fn first_template_wins(f: Field, i: int, d: RenderDirective)
    requires
        0 <= i < f.attrs@.len(),
        annotation_template(f.attrs@[i]) is Some,
        forall|j: int| 0 <= j < i ==> #[trigger] annotation_template(f.attrs@[j]) is None,
        directive_for(d, field_template(f)),
    ensures
        d matches RenderDirective::Templated(t) && Some(t@) == annotation_template(f.attrs@[i]),
{
    lemma_first_template_at(f.attrs@, i);
}

/// A type parameter that a marker field marks, and that no field has as its
/// type, is not required to be `Debug`.
pub proof fn marker_only_parameter_unbounded(
    d: TypeDescription,
    r: Result<GeneratedImpl, ShapeError>,
    k: int,
    i: int,
)
    requires
        generation_result(d, r),
        named_fields(d) is Some,
        0 <= k < d.generics@.len(),
        d.generics@[k] is Type,
        0 <= i < named_fields(d)->0.len(),
        marker_param(named_fields(d)->0[i].ty) == Some(d.generics@[k]->Type_0@),
        forall|j: int|
            0 <= j < named_fields(d)->0.len() ==> bare_ident(#[trigger] named_fields(d)->0[j].ty)
                != Some(d.generics@[k]->Type_0@),
    ensures
        r is Ok,
        !r->Ok_0.bounds@[k],
{
    let fields = named_fields(d)->0;
    let p = d.generics@[k]->Type_0@;
    lemma_marker_names_has(fields, i);
    if direct_names(fields).contains(p) {
        lemma_direct_names_only(fields, p);
    }
}

/// A type parameter that some field has as its type is required to be
/// `Debug`, whether or not a marker field also marks it.
pub proof fn direct_use_keeps_bound(d: TypeDescription, r: Result<GeneratedImpl, ShapeError>, k: int, i: int)
    requires
        generation_result(d, r),
        named_fields(d) is Some,
        0 <= k < d.generics@.len(),
        d.generics@[k] is Type,
        0 <= i < named_fields(d)->0.len(),
        bare_ident(named_fields(d)->0[i].ty) == Some(d.generics@[k]->Type_0@),
    ensures
        r is Ok,
        r->Ok_0.bounds@[k],
{
    lemma_direct_names_has(named_fields(d)->0, i);
}

/// A struct without generic parameters is generated, with no bound at all.
pub proof fn no_generics_no_bounds(d: TypeDescription, r: Result<GeneratedImpl, ShapeError>)
    requires
        generation_result(d, r),
        named_fields(d) is Some,
        d.generics@.len() == 0,
    ensures
        r is Ok,
        r->Ok_0.bounds@.len() == 0,
{
}

/// An enum or a union is refused with a shape error, and nothing is generated.
pub proof fn variant_shapes_refused(d: TypeDescription, r: Result<GeneratedImpl, ShapeError>)
    requires
        generation_result(d, r),
        d.body is Enum || d.body is Union,
    ensures
        r is Err,
{
}

} // verus!
