//! The generic-constraint resolver: which type parameters must be `Debug`.
use vstd::prelude::*;
use crate::description::{Field, GenericParam, PathArgs, TypeArg, TypeExpr};

verus! {

/// The identifier that `t` is, when `t` is written as one bare identifier
/// (`T`, not `a::T`, `::T` or `T<U>`).
pub open spec fn bare_ident(t: TypeExpr) -> Option<Seq<char>> {
    match t {
        TypeExpr::Path { qualified, segments } => if !qualified && segments@.len() == 1
            && segments@[0].args is Bare {
            Some(segments@[0].ident@)
        } else {
            None
        },
        TypeExpr::Other => None,
    }
}

/// The head identifier of a path type: its last segment (`PhantomData` in
/// `std::marker::PhantomData<T>`).
pub open spec fn type_head(t: TypeExpr) -> Option<Seq<char>> {
    match t {
        TypeExpr::Path { segments, .. } => if segments@.len() > 0 {
            Some(segments@.last().ident@)
        } else {
            None
        },
        TypeExpr::Other => None,
    }
}

/// The parameter that `t` marks, when `t` is the zero-sized marker
/// `PhantomData<P>` with one argument `P` that is a bare identifier.
pub open spec fn marker_param(t: TypeExpr) -> Option<Seq<char>> {
    match t {
        TypeExpr::Path { segments, .. } => if type_head(t) == Some("PhantomData"@) {
            match segments@.last().args {
                PathArgs::AngleBracketed(args) => if args@.len() == 1 {
                    match args@[0] {
                        TypeArg::Type(a) => bare_ident(a),
                        TypeArg::Other => None,
                    }
                } else {
                    None
                },
                _ => None,
            }
        } else {
            None
        },
        TypeExpr::Other => None,
    }
}

/// The bare identifiers that are field types, one per such field, in order.
pub open spec fn direct_names(fields: Seq<Field>) -> Seq<Seq<char>>
    decreases fields.len(),
{
    if fields.len() == 0 {
        seq![]
    } else {
        let rest = direct_names(fields.drop_last());
        match bare_ident(fields.last().ty) {
            Some(p) => rest.push(p),
            None => rest,
        }
    }
}

/// The parameters marked by marker fields, one per such field, in order.
pub open spec fn marker_names(fields: Seq<Field>) -> Seq<Seq<char>>
    decreases fields.len(),
{
    if fields.len() == 0 {
        seq![]
    } else {
        let rest = marker_names(fields.drop_last());
        match marker_param(fields.last().ty) {
            Some(p) => rest.push(p),
            None => rest,
        }
    }
}

/// A parameter needs the `Debug` bound unless some marker field marks it and
/// no field has it as its type.
pub open spec fn needs_debug_bound(fields: Seq<Field>, p: Seq<char>) -> bool {
    !marker_names(fields).contains(p) || direct_names(fields).contains(p)
}

/// Whether the generic parameter `g` gains the `Debug` bound; only type
/// parameters can.
pub open spec fn gains_bound(g: GenericParam, fields: Seq<Field>) -> bool {
    match g {
        GenericParam::Type(p) => needs_debug_bound(fields, p@),
        _ => false,
    }
}

/// The names held by a list of strings.
pub open spec fn names_view(v: Seq<String>) -> Seq<Seq<char>> {
    v.map_values(|s: String| s@)
}

/// The identifier that a field's type is, when it is one bare identifier.
pub fn direct_type_param(ty: &TypeExpr) -> (r: Option<String>)
    ensures
        match r {
            Some(s) => bare_ident(*ty) == Some(s@),
            None => bare_ident(*ty) is None,
        },
{
    match ty {
        TypeExpr::Path { qualified, segments } => {
            if !*qualified && segments.len() == 1 {
                match &segments[0].args {
                    PathArgs::Bare => Some(segments[0].ident.clone()),
                    _ => None,
                }
            } else {
                None
            }
        },
        TypeExpr::Other => None,
    }
}

/// The head identifier of a path type.
pub fn type_head_name(ty: &TypeExpr) -> (r: Option<&String>)
    ensures
        match r {
            Some(s) => type_head(*ty) == Some(s@),
            None => type_head(*ty) is None,
        },
{
    match ty {
        TypeExpr::Path { segments, .. } => {
            if segments.len() > 0 {
                Some(&segments[segments.len() - 1].ident)
            } else {
                None
            }
        },
        TypeExpr::Other => None,
    }
}

/// The parameter that a field of type `PhantomData<P>` marks.
pub fn marker_type_param(ty: &TypeExpr) -> (r: Option<String>)
    ensures
        match r {
            Some(s) => marker_param(*ty) == Some(s@),
            None => marker_param(*ty) is None,
        },
{
    let marker = "PhantomData".to_owned();
    match type_head_name(ty) {
        Some(h) => {
            if *h != marker {
                return None;
            }
        },
        None => {
            return None;
        },
    }
    match ty {
        TypeExpr::Path { segments, .. } => match &segments[segments.len() - 1].args {
            PathArgs::AngleBracketed(args) => {
                if args.len() != 1 {
                    return None;
                }
                match &args[0] {
                    TypeArg::Type(a) => direct_type_param(a),
                    TypeArg::Other => None,
                }
            },
            _ => None,
        },
        TypeExpr::Other => None,
    }
}

/// The names that field types use directly, and those that marker fields
/// mark, in field order.
pub fn collect_param_usage(fields: &Vec<Field>) -> (r: (Vec<String>, Vec<String>))
    ensures
        names_view(r.0@) == direct_names(fields@),
        names_view(r.1@) == marker_names(fields@),
{
    let mut direct: Vec<String> = Vec::new();
    let mut marked: Vec<String> = Vec::new();
    let n = fields.len();
    let mut i: usize = 0;
    while i < n
        invariant
            n == fields@.len(),
            i <= n,
            names_view(direct@) == direct_names(fields@.subrange(0, i as int)),
            names_view(marked@) == marker_names(fields@.subrange(0, i as int)),
        decreases n - i,
    {
        let ghost pre = fields@.subrange(0, i as int);
        let ghost cur = fields@.subrange(0, i + 1);
        assert(cur.drop_last() =~= pre);
        assert(cur.last() == fields@[i as int]);
        match direct_type_param(&fields[i].ty) {
            Some(s) => {
                direct.push(s);
            },
            None => {},
        }
        match marker_type_param(&fields[i].ty) {
            Some(s) => {
                marked.push(s);
            },
            None => {},
        }
        assert(names_view(direct@) =~= direct_names(cur));
        assert(names_view(marked@) =~= marker_names(cur));
        i = i + 1;
    }
    assert(fields@.subrange(0, n as int) =~= fields@);
    (direct, marked)
}

/// Whether `p` is among `names`.
pub fn contains_name(names: &Vec<String>, p: &String) -> (r: bool)
    ensures
        r == names_view(names@).contains(p@),
{
    let n = names.len();
    let mut i: usize = 0;
    while i < n
        invariant
            n == names@.len(),
            i <= n,
            forall|j: int| 0 <= j < i ==> names@[j]@ != p@,
        decreases n - i,
    {
        if names[i] == *p {
            assert(names_view(names@)[i as int] == p@);
            return true;
        }
        i = i + 1;
    }
    assert(!names_view(names@).contains(p@)) by {
        if names_view(names@).contains(p@) {
            let j = choose|j: int| 0 <= j < names_view(names@).len() && names_view(names@)[j] == p@;
            assert(names@[j]@ == p@);
        }
    }
    false
}

/// For each generic parameter, in order, whether it gains the `Debug` bound.
pub fn resolve_bounds(generics: &Vec<GenericParam>, fields: &Vec<Field>) -> (r: Vec<bool>)
    ensures
        r@.len() == generics@.len(),
        forall|k: int| 0 <= k < generics@.len() ==> #[trigger] r@[k] == gains_bound(generics@[k], fields@),
{
    let (direct, marked) = collect_param_usage(fields);
    let mut bounds: Vec<bool> = Vec::new();
    let n = generics.len();
    let mut k: usize = 0;
    while k < n
        invariant
            n == generics@.len(),
            k <= n,
            names_view(direct@) == direct_names(fields@),
            names_view(marked@) == marker_names(fields@),
            bounds@.len() == k,
            forall|j: int| 0 <= j < k ==> #[trigger] bounds@[j] == gains_bound(generics@[j], fields@),
        decreases n - k,
    {
        let b = match &generics[k] {
            GenericParam::Type(p) => !contains_name(&marked, p) || contains_name(&direct, p),
            _ => false,
        };
        bounds.push(b);
        k = k + 1;
    }
    bounds
}

} // verus!
