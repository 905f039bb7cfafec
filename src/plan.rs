//! The render plan and the body of the generated function.
use vstd::prelude::*;
use crate::annotation::{field_template, scan_annotation};
use crate::description::Field;

verus! {

/// How one field's value is rendered.
#[derive(Debug, PartialEq, Eq)]
pub enum RenderDirective {
    /// By the value's own `Debug` rendering.
    Default,
    /// By substituting the value into this format template.
    Templated(String),
}

/// One step of the generated function's body.
#[derive(Debug, PartialEq, Eq)]
pub enum RenderStep {
    /// Start the rendering of a struct with this name.
    Open(String),
    /// Render the named field as the directive says.
    Field { name: String, directive: RenderDirective },
    /// Finish the rendering.
    Close,
}

/// `d` is the directive for a field whose override template is `t`.
pub open spec fn directive_for(d: RenderDirective, t: Option<Seq<char>>) -> bool {
    match d {
        RenderDirective::Default => t is None,
        RenderDirective::Templated(s) => t == Some(s@),
    }
}

/// `s` is the step that emits field `f`.
pub open spec fn emits_field(s: RenderStep, f: Field) -> bool {
    match s {
        RenderStep::Field { name, directive } => name@ == f.name@ && directive_for(
            directive,
            field_template(f),
        ),
        _ => false,
    }
}

/// `body` opens a struct named `name`, emits each of `fields` once and in
/// order, and closes.
pub open spec fn is_body_for(body: Seq<RenderStep>, name: Seq<char>, fields: Seq<Field>) -> bool {
    &&& body.len() == fields.len() + 2
    &&& body[0] matches RenderStep::Open(n) && n@ == name
    &&& forall|i: int| 0 <= i < fields.len() ==> emits_field(#[trigger] body[i + 1], fields[i])
    &&& body[fields.len() as int + 1] is Close
}

/// The directive for one field: its override template if it has one, else the
/// default rendering.
pub fn render_directive(field: &Field) -> (r: RenderDirective)
    ensures
        directive_for(r, field_template(*field)),
{
    match scan_annotation(field) {
        Some(t) => RenderDirective::Templated(t),
        None => RenderDirective::Default,
    }
}

/// One directive per field, in the order of the fields.
pub fn build_render_plan(fields: &Vec<Field>) -> (r: Vec<RenderDirective>)
    ensures
        r@.len() == fields@.len(),
        forall|i: int| 0 <= i < fields@.len() ==> directive_for(#[trigger] r@[i], field_template(fields@[i])),
{
    let mut plan: Vec<RenderDirective> = Vec::new();
    let n = fields.len();
    let mut i: usize = 0;
    while i < n
        invariant
            n == fields@.len(),
            i <= n,
            plan@.len() == i,
            forall|j: int| 0 <= j < i ==> directive_for(#[trigger] plan@[j], field_template(fields@[j])),
        decreases n - i,
    {
        plan.push(render_directive(&fields[i]));
        i = i + 1;
    }
    plan
}

/// The body of the generated function for a struct named `name` with these
/// fields and their directives.
pub fn assemble_body(name: &String, fields: &Vec<Field>, plan: Vec<RenderDirective>) -> (r: Vec<RenderStep>)
    requires
        plan@.len() == fields@.len(),
        forall|i: int| 0 <= i < fields@.len() ==> directive_for(#[trigger] plan@[i], field_template(fields@[i])),
    ensures
        is_body_for(r@, name@, fields@),
{
    let mut body: Vec<RenderStep> = Vec::new();
    body.push(RenderStep::Open(name.clone()));
    let n = fields.len();
    let mut rest = plan;
    let mut i: usize = 0;
    while i < n
        invariant
            n == fields@.len(),
            i <= n,
            plan@.len() == n,
            rest@ == plan@.subrange(i as int, n as int),
            forall|j: int| 0 <= j < n ==> directive_for(#[trigger] plan@[j], field_template(fields@[j])),
            body@.len() == i + 1,
            body@[0] matches RenderStep::Open(s) && s@ == name@,
            forall|j: int| 0 <= j < i ==> emits_field(#[trigger] body@[j + 1], fields@[j]),
        decreases n - i,
    {
        let d = rest.remove(0);
        assert(d == plan@[i as int]);
        body.push(RenderStep::Field { name: fields[i].name.clone(), directive: d });
        i = i + 1;
    }
    body.push(RenderStep::Close);
    body
}

/// The body of the generated function: open, one step per field in
/// declaration order, close.
pub fn build_body(name: &String, fields: &Vec<Field>) -> (r: Vec<RenderStep>)
    ensures
        is_body_for(r@, name@, fields@),
{
    let plan = build_render_plan(fields);
    assemble_body(name, fields, plan)
}

} // verus!
