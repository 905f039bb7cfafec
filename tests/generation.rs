use custom_debug::annotation::scan_annotation;
use custom_debug::constraints::{direct_type_param, marker_type_param, resolve_bounds};
use custom_debug::description::{
    Annotation, AttrPath, Field, Fields, GenericParam, PathArgs, PathSegment, TypeArg, TypeBody,
    TypeDescription, TypeExpr,
};
use custom_debug::extract::{extract_fields, ShapeError};
use custom_debug::generate::generate;
use custom_debug::plan::{build_body, build_render_plan, render_directive, RenderDirective, RenderStep};

fn seg(ident: &str, args: PathArgs) -> PathSegment {
    PathSegment { ident: ident.to_string(), args }
}

fn ident_ty(name: &str) -> TypeExpr {
    TypeExpr::Path { qualified: false, segments: vec![seg(name, PathArgs::Bare)] }
}

fn generic_ty(name: &str, args: Vec<TypeExpr>) -> TypeExpr {
    let args = args.into_iter().map(TypeArg::Type).collect();
    TypeExpr::Path { qualified: false, segments: vec![seg(name, PathArgs::AngleBracketed(args))] }
}

fn name_value(key: &str, literal: &str) -> Annotation {
    Annotation::NameValue {
        path: AttrPath { leading_colon: false, segments: vec![key.to_string()] },
        literal: literal.to_string(),
    }
}

fn field(name: &str, ty: TypeExpr, attrs: Vec<Annotation>) -> Field {
    Field { name: name.to_string(), ty, attrs }
}

fn record(name: &str, generics: Vec<GenericParam>, fields: Vec<Field>) -> TypeDescription {
    TypeDescription { name: name.to_string(), generics, body: TypeBody::Struct(Fields::Named(fields)) }
}

fn type_param(name: &str) -> GenericParam {
    GenericParam::Type(name.to_string())
}

fn field_step(name: &str, directive: RenderDirective) -> RenderStep {
    RenderStep::Field { name: name.to_string(), directive }
}

/// A value rendered through the template `0b{:08b}`.
struct Binary(u8);

impl std::fmt::Debug for Binary {
    fn fmt(&self, f: &mut std::fmt::Formatter) -> std::fmt::Result {
        f.write_str(&format!("0b{:08b}", self.0))
    }
}

/// Runs a generated body the way the emitted `fmt` does: default fields through
/// their own `Debug`, the one template used here through `Binary`.
struct Rendered<'a> {
    body: &'a [RenderStep],
    values: Vec<&'a dyn std::fmt::Debug>,
    bits: u8,
}

impl std::fmt::Debug for Rendered<'_> {
    fn fmt(&self, f: &mut std::fmt::Formatter) -> std::fmt::Result {
        let mut builder = None;
        let mut values = self.values.iter();
        for step in self.body {
            match step {
                RenderStep::Open(name) => builder = Some(f.debug_struct(name)),
                RenderStep::Field { name, directive: RenderDirective::Default } => {
                    builder.as_mut().unwrap().field(name, values.next().unwrap());
                }
                RenderStep::Field { name, directive: RenderDirective::Templated(t) } => {
                    assert_eq!(t, "0b{:08b}");
                    builder.as_mut().unwrap().field(name, &Binary(self.bits));
                }
                RenderStep::Close => return builder.take().unwrap().finish(),
            }
        }
        unreachable!()
    }
}

fn templated(t: &str) -> RenderDirective {
    RenderDirective::Templated(t.to_string())
}

#[test]
fn body_keeps_declaration_order() {
    let d = record(
        "Triple",
        vec![],
        vec![
            field("z", ident_ty("u8"), vec![]),
            field("a", ident_ty("u8"), vec![name_value("debug", "\"{}!\"")]),
            field("m", ident_ty("u8"), vec![]),
        ],
    );
    let g = generate(&d).unwrap();
    assert_eq!(
        g.body,
        vec![
            RenderStep::Open("Triple".to_string()),
            field_step("z", RenderDirective::Default),
            field_step("a", templated("{}!")),
            field_step("m", RenderDirective::Default),
            RenderStep::Close,
        ]
    );
}

#[test]
fn unrelated_attributes_leave_default() {
    let f = field(
        "x",
        ident_ty("u32"),
        vec![
            name_value("doc", "\" a comment\""),
            Annotation::Other,
            name_value("serde", "\"rename\""),
        ],
    );
    assert_eq!(scan_annotation(&f), None);
    assert_eq!(render_directive(&f), RenderDirective::Default);
}

#[test]
fn template_is_kept_verbatim() {
    let f = field("bitmask", ident_ty("u8"), vec![name_value("debug", "\"0b{:08b}\"")]);
    assert_eq!(scan_annotation(&f), Some("0b{:08b}".to_string()));
    assert_eq!(render_directive(&f), templated("0b{:08b}"));
}

#[test]
fn template_escapes_are_decoded() {
    let f = field("s", ident_ty("u8"), vec![name_value("debug", "\"a\\tb {}\"")]);
    assert_eq!(scan_annotation(&f), Some("a\tb {}".to_string()));
    let raw = field("s", ident_ty("u8"), vec![name_value("debug", "r#\"\"{}\"\"#")]);
    assert_eq!(scan_annotation(&raw), Some("\"{}\"".to_string()));
}

#[test]
fn first_debug_attribute_wins() {
    let f = field(
        "x",
        ident_ty("u8"),
        vec![
            name_value("other", "\"no\""),
            name_value("debug", "\"first {}\""),
            name_value("debug", "\"second {}\""),
        ],
    );
    assert_eq!(scan_annotation(&f), Some("first {}".to_string()));
}

#[test]
fn malformed_debug_attributes_are_ignored() {
    let number = field("x", ident_ty("u8"), vec![name_value("debug", "12")]);
    assert_eq!(scan_annotation(&number), None);
    let bytes = field("x", ident_ty("u8"), vec![name_value("debug", "b\"{}\"")]);
    assert_eq!(scan_annotation(&bytes), None);
    let rooted = Annotation::NameValue {
        path: AttrPath { leading_colon: true, segments: vec!["debug".to_string()] },
        literal: "\"{}\"".to_string(),
    };
    let rooted = field("x", ident_ty("u8"), vec![rooted]);
    assert_eq!(scan_annotation(&rooted), None);
    let long = Annotation::NameValue {
        path: AttrPath { leading_colon: false, segments: vec!["my".to_string(), "debug".to_string()] },
        literal: "\"{}\"".to_string(),
    };
    let long = field("x", ident_ty("u8"), vec![long]);
    assert_eq!(scan_annotation(&long), None);
    let later = field(
        "x",
        ident_ty("u8"),
        vec![name_value("debug", "7"), name_value("debug", "\"{:x}\"")],
    );
    assert_eq!(scan_annotation(&later), Some("{:x}".to_string()));
}

#[test]
fn literals_of_other_kinds_are_not_decoded() {
    let c_string = field("x", ident_ty("u8"), vec![name_value("debug", "c\"{}\"")]);
    assert_eq!(scan_annotation(&c_string), None);
    assert_eq!(render_directive(&c_string), RenderDirective::Default);
    let spaced = field("x", ident_ty("u8"), vec![name_value("debug", " \"{}\"")]);
    assert_eq!(scan_annotation(&spaced), None);
    let carriage = field("x", ident_ty("u8"), vec![name_value("debug", "r\"a\r\nb\"")]);
    assert_eq!(scan_annotation(&carriage), None);
    let ident = field("x", ident_ty("u8"), vec![name_value("debug", "rx")]);
    assert_eq!(scan_annotation(&ident), None);
    let empty = field("x", ident_ty("u8"), vec![name_value("debug", "")]);
    assert_eq!(scan_annotation(&empty), None);
    let d = record("C", vec![], vec![c_string]);
    assert_eq!(generate(&d).unwrap().body[1], field_step("x", RenderDirective::Default));
}

#[test]
fn marker_only_parameter_gets_no_bound() {
    let d = record(
        "Field",
        vec![type_param("T")],
        vec![
            field("marker", generic_ty("PhantomData", vec![ident_ty("T")]), vec![]),
            field("string", ident_ty("String"), vec![]),
        ],
    );
    assert_eq!(generate(&d).unwrap().bounds, vec![false]);
}

#[test]
fn qualified_marker_path_is_recognized() {
    let marker = TypeExpr::Path {
        qualified: false,
        segments: vec![
            seg("std", PathArgs::Bare),
            seg("marker", PathArgs::Bare),
            seg("PhantomData", PathArgs::AngleBracketed(vec![TypeArg::Type(ident_ty("T"))])),
        ],
    };
    assert_eq!(marker_type_param(&marker), Some("T".to_string()));
    let d = record("Wrap", vec![type_param("T")], vec![field("marker", marker, vec![])]);
    assert_eq!(generate(&d).unwrap().bounds, vec![false]);
}

#[test]
fn direct_use_overrides_marker() {
    let d = record(
        "Both",
        vec![type_param("T")],
        vec![
            field("marker", generic_ty("PhantomData", vec![ident_ty("T")]), vec![]),
            field("value", ident_ty("T"), vec![]),
        ],
    );
    assert_eq!(generate(&d).unwrap().bounds, vec![true]);
}

#[test]
fn compound_marker_argument_keeps_bound() {
    let d = record(
        "Nested",
        vec![type_param("T")],
        vec![field(
            "marker",
            generic_ty("PhantomData", vec![generic_ty("Vec", vec![ident_ty("T")])]),
            vec![],
        )],
    );
    assert_eq!(generate(&d).unwrap().bounds, vec![true]);
    let two = generic_ty("PhantomData", vec![ident_ty("T"), ident_ty("U")]);
    assert_eq!(marker_type_param(&two), None);
}

#[test]
fn bounds_follow_parameter_order() {
    let d = record(
        "Mixed",
        vec![
            GenericParam::Lifetime("a".to_string()),
            type_param("A"),
            type_param("B"),
            GenericParam::Const("N".to_string()),
            type_param("C"),
        ],
        vec![
            field("a", generic_ty("PhantomData", vec![ident_ty("A")]), vec![]),
            field("b", generic_ty("Vec", vec![ident_ty("B")]), vec![]),
            field("c", ident_ty("C"), vec![]),
        ],
    );
    assert_eq!(generate(&d).unwrap().bounds, vec![false, false, true, false, true]);
}

#[test]
fn no_generics_no_bounds() {
    let d = record("Plain", vec![], vec![field("x", ident_ty("u8"), vec![])]);
    let g = generate(&d).unwrap();
    assert!(g.bounds.is_empty());
    assert_eq!(g.struct_name, "Plain".to_string());
}

#[test]
fn empty_struct_opens_and_closes() {
    let d = record("Empty", vec![type_param("T")], vec![]);
    let g = generate(&d).unwrap();
    assert_eq!(g.body, vec![RenderStep::Open("Empty".to_string()), RenderStep::Close]);
    assert_eq!(g.bounds, vec![true]);
}

#[test]
fn enum_is_refused() {
    let d = TypeDescription { name: "E".to_string(), generics: vec![], body: TypeBody::Enum };
    assert_eq!(generate(&d), Err(ShapeError));
    assert_eq!(ShapeError.message(), "must be a single-variant record with named fields".to_string());
}

#[test]
fn other_shapes_are_refused() {
    let union = TypeDescription { name: "U".to_string(), generics: vec![], body: TypeBody::Union };
    assert_eq!(generate(&union), Err(ShapeError));
    let tuple = TypeDescription {
        name: "T".to_string(),
        generics: vec![],
        body: TypeBody::Struct(Fields::Unnamed(vec![ident_ty("u8")])),
    };
    assert!(extract_fields(&tuple).is_err());
    assert_eq!(generate(&tuple), Err(ShapeError));
    let unit = TypeDescription { name: "N".to_string(), generics: vec![], body: TypeBody::Struct(Fields::Unit) };
    assert_eq!(generate(&unit), Err(ShapeError));
}

#[test]
fn point_renders_every_field_by_default() {
    let d = record(
        "Point",
        vec![],
        vec![field("a", ident_ty("i32"), vec![]), field("b", ident_ty("String"), vec![])],
    );
    let g = generate(&d).unwrap();
    assert_eq!(
        g.body,
        vec![
            RenderStep::Open("Point".to_string()),
            field_step("a", RenderDirective::Default),
            field_step("b", RenderDirective::Default),
            RenderStep::Close,
        ]
    );
    let b = "x";
    let text = format!("{:?}", Rendered { body: &g.body, values: vec![&7i32, &b], bits: 0 });
    assert_eq!(text, "Point { a: 7, b: \"x\" }");
}

#[test]
fn bitmask_field_uses_its_template() {
    let d = record(
        "Field",
        vec![],
        vec![field("bitmask", ident_ty("u8"), vec![name_value("debug", "\"0b{:08b}\"")])],
    );
    let g = generate(&d).unwrap();
    assert_eq!(g.body[1], field_step("bitmask", templated("0b{:08b}")));
    let text = format!("{:?}", Rendered { body: &g.body, values: vec![], bits: 3 });
    assert_eq!(text, "Field { bitmask: 0b00000011 }");
    assert!(text.contains("bitmask: 0b00000011"));
}

#[test]
fn plan_matches_fields() {
    let fields = vec![
        field("p", ident_ty("u8"), vec![name_value("debug", "\"<{}>\"")]),
        field("q", ident_ty("u8"), vec![]),
    ];
    assert_eq!(build_render_plan(&fields), vec![templated("<{}>"), RenderDirective::Default]);
    let body = build_body(&"S".to_string(), &fields);
    assert_eq!(body.len(), 4);
    assert_eq!(body[2], field_step("q", RenderDirective::Default));
}

#[test]
fn direct_type_param_needs_bare_identifier() {
    assert_eq!(direct_type_param(&ident_ty("T")), Some("T".to_string()));
    assert_eq!(direct_type_param(&generic_ty("T", vec![])), None);
    let qualified = TypeExpr::Path { qualified: true, segments: vec![seg("T", PathArgs::Bare)] };
    assert_eq!(direct_type_param(&qualified), None);
    assert_eq!(direct_type_param(&TypeExpr::Other), None);
    let fields = vec![field("t", ident_ty("T"), vec![])];
    assert_eq!(resolve_bounds(&vec![type_param("T"), type_param("U")], &fields), vec![true, true]);
}
