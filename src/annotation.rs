//! The field annotation scanner: finds a `#[debug = "template"]` override.
use vstd::prelude::*;
use crate::description::{Annotation, AttrPath, Field};

verus! {

/// What `text` holds when read as a Rust string literal, quotes and escapes
/// decoded, or `None` when syn does not read it as one string literal.
pub uninterp spec fn string_literal_value(text: Seq<char>) -> Option<Seq<char>>;

/// Text that starts as a plain (`"`) or raw (`r`) string literal and holds no
/// carriage return. Only such text is handed to syn: a literal token of another
/// kind (such as `c"x"`) makes syn panic, and a carriage return may be read
/// differently by the compiler's lexer than by proc-macro2's own.
pub open spec fn is_decodable_literal(text: Seq<char>) -> bool {
    &&& text.len() > 0
    &&& (text[0] == '"' || text[0] == 'r')
    &&& !text.contains('\r')
}

/// Relies on `syn::parse_str::<syn::LitStr>`, which reads `text` as tokens and
/// succeeds when they form one string literal (plain or raw, possibly suffixed;
/// comments around it are skipped), and on `syn::LitStr::value`, which gives its
/// decoded contents.
#[verifier::external_body]
fn decode_string_literal(text: &str) -> (r: Option<String>)
    requires
        is_decodable_literal(text@),
    ensures
        match r {
            Some(v) => string_literal_value(text@) == Some(v@),
            None => string_literal_value(text@) is None,
        },
{
    match syn::parse_str::<syn::LitStr>(text) {
        Ok(lit) => Some(lit.value()),
        Err(_) => None,
    }
}

/// The attribute path is the single identifier `debug`.
pub open spec fn is_debug_path(p: AttrPath) -> bool {
    !p.leading_colon && p.segments@.len() == 1 && p.segments@[0]@ == "debug"@
}

/// The template that one attribute supplies: only `debug = <string literal>`
/// counts; any other shape supplies none.
pub open spec fn annotation_template(a: Annotation) -> Option<Seq<char>> {
    match a {
        Annotation::NameValue { path, literal } => if is_debug_path(path) && is_decodable_literal(
            literal@,
        ) {
            string_literal_value(literal@)
        } else {
            None
        },
        Annotation::Other => None,
    }
}

/// The template of the first attribute in `attrs` that supplies one.
pub open spec fn first_template(attrs: Seq<Annotation>) -> Option<Seq<char>>
    decreases attrs.len(),
{
    if attrs.len() == 0 {
        None
    } else {
        match annotation_template(attrs[0]) {
            Some(t) => Some(t),
            None => first_template(attrs.drop_first()),
        }
    }
}

/// The override template of a field, if it has one.
pub open spec fn field_template(f: Field) -> Option<Seq<char>> {
    first_template(f.attrs@)
}

fn is_debug_attr_path(p: &AttrPath) -> (r: bool)
    ensures
        r == is_debug_path(*p),
{
    if p.leading_colon || p.segments.len() != 1 {
        return false;
    }
    let key = "debug".to_owned();
    p.segments[0] == key
}

fn is_decodable_literal_text(text: &str) -> (r: bool)
    ensures
        r == is_decodable_literal(text@),
{
    let n = text.unicode_len();
    if n == 0 {
        return false;
    }
    let first = text.get_char(0);
    if first != '"' && first != 'r' {
        return false;
    }
    let mut i: usize = 0;
    while i < n
        invariant
            n == text@.len(),
            i <= n,
            forall|j: int| 0 <= j < i ==> text@[j] != '\r',
        decreases n - i,
    {
        if text.get_char(i) == '\r' {
            assert(text@.contains('\r'));
            return false;
        }
        i = i + 1;
    }
    true
}

/// The template of one attribute.
pub fn annotation_value(a: &Annotation) -> (r: Option<String>)
    ensures
        match r {
            Some(t) => annotation_template(*a) == Some(t@),
            None => annotation_template(*a) is None,
        },
{
    match a {
        Annotation::NameValue { path, literal } => {
            if is_debug_attr_path(path) && is_decodable_literal_text(literal.as_str()) {
                decode_string_literal(literal.as_str())
            } else {
                None
            }
        },
        Annotation::Other => None,
    }
}

/// Scans every attribute of `field` and returns the template of the first one
/// that is `debug = <string literal>`; attributes of any other shape are
/// passed over.
pub fn scan_annotation(field: &Field) -> (r: Option<String>)
    ensures
        match r {
            Some(t) => field_template(*field) == Some(t@),
            None => field_template(*field) is None,
        },
{
    let attrs = &field.attrs;
    let n = attrs.len();
    let mut i: usize = 0;
    assert(attrs@.subrange(0, n as int) =~= attrs@);
    while i < n
        invariant
            attrs@ == field.attrs@,
            n == attrs@.len(),
            i <= n,
            first_template(attrs@) == first_template(attrs@.subrange(i as int, n as int)),
        decreases n - i,
    {
        let ghost rest = attrs@.subrange(i as int, n as int);
        assert(rest.drop_first() =~= attrs@.subrange(i + 1, n as int));
        assert(rest.len() > 0 && rest[0] == attrs@[i as int]);
        match annotation_value(&attrs[i]) {
            Some(t) => {
                assert(first_template(rest) == Some(t@));
                return Some(t);
            },
            None => {},
        }
        i = i + 1;
    }
    assert(attrs@.subrange(n as int, n as int).len() == 0);
    None
}

} // verus!
