//! Assembles one impl per requested trait, and the whole expansion: the
//! declaration, stripped of its `default` markers when `Default` is
//! requested, followed by the impls in request order.
use vstd::prelude::*;
use crate::bodies::{enum_body, enum_body_text, struct_body, struct_body_text};
use crate::bounds::{augment_where_clause, marker_refused, where_anchor, where_predicates};
use crate::catalog::{trait_path, DeriveError, DerivedList, DerivedType, DerivedTypeEnum};
use crate::model::{markers_removed, remove_debug_markers, GenericParam, ParamKind, StructOrEnum};
use crate::render::decl_text;
use crate::text::{concat, lemma_concat_all, lemma_concat_push, texts};

verus! {

/// `prefix s`, or nothing when `s` is empty.
pub open spec fn optional(prefix: Seq<char>, s: Seq<char>) -> Seq<char> {
    if s.len() == 0 {
        Seq::empty()
    } else {
        prefix + s
    }
}

/// A generic parameter as the impl declares it: its bounds, no default.
pub open spec fn param_impl(p: GenericParam) -> Seq<char> {
    (if p.kind == ParamKind::Const {
        "const "@
    } else {
        Seq::empty()
    }) + p.name@ + optional(": "@, p.bounds@)
}

/// The impl's generic parameters: `<P, Q, >`.
pub open spec fn impl_params(ps: Seq<GenericParam>) -> Seq<char> {
    "<"@ + concat(Seq::new(ps.len(), |i: int| param_impl(ps[i]) + ", "@)) + ">"@
}

/// The declaration's parameters applied as arguments: `<T, 'a, N, >`.
pub open spec fn param_args(ps: Seq<GenericParam>) -> Seq<char> {
    "<"@ + concat(Seq::new(ps.len(), |i: int| ps[i].name@ + ", "@)) + ">"@
}

/// The predicates of a where-clause, each followed by a comma.
pub open spec fn where_items(preds: Seq<Seq<char>>) -> Seq<char> {
    concat(Seq::new(preds.len(), |i: int| preds[i] + ", "@))
}

/// A piece of the expansion: source text, and the location given to its
/// tokens (`None`: the location of the macro call).
pub struct Piece {
    pub text: String,
    pub span: Option<proc_macro2::Span>,
}

pub open spec fn piece_views(v: Seq<Piece>) -> Seq<(Seq<char>, Option<proc_macro2::Span>)> {
    v.map_values(|p: Piece| (p.text@, p.span))
}

/// The method bodies of the impl of `k` for `obj`.
pub open spec fn impl_body(k: DerivedTypeEnum, obj: StructOrEnum) -> Seq<char> {
    match obj {
        StructOrEnum::Struct(s) => struct_body(k, s),
        StructOrEnum::Enum(e) => enum_body(k, e),
    }
}

/// The impl requested by `d` for `obj`, in five pieces: the trait's path
/// is located at the request, the `where` keyword at the declaration's own
/// `where` or else at the request, the rest at the macro call.
pub open spec fn impl_pieces(d: DerivedType, obj: StructOrEnum) -> Seq<
    (Seq<char>, Option<proc_macro2::Span>),
> {
    let ps = obj.spec_generics().params@;
    let k = d.name;
    seq![
        ("impl"@ + impl_params(ps) + " "@, None),
        (trait_path(k), Some(d.span)),
        (" for "@ + obj.spec_ident() + param_args(ps), None),
        (" where "@, Some(where_anchor(obj, d.span))),
        (where_items(where_predicates(k, obj)) + " { "@ + impl_body(k, obj) + " } "@, None),
    ]
}

pub(crate) fn param_impl_text(p: &GenericParam) -> (r: String)
    ensures
        r@ == param_impl(*p),
{
    let mut s = if p.kind == ParamKind::Const {
        String::from_str("const ")
    } else {
        String::new()
    };
    s.append(p.name.as_str());
    let bounds = if p.bounds.as_str().unicode_len() == 0 {
        String::new()
    } else {
        let mut b = String::from_str(": ");
        b.append(p.bounds.as_str());
        b
    };
    s.append(bounds.as_str());
    s
}

/// The impl's generic parameters, or the arguments that apply them.
fn params_text(ps: &Vec<GenericParam>, as_args: bool) -> (r: String)
    ensures
        as_args ==> r@ == param_args(ps@),
        !as_args ==> r@ == impl_params(ps@),
{
    let ghost want = if as_args {
        Seq::new(ps@.len(), |i: int| ps@[i].name@ + ", "@)
    } else {
        Seq::new(ps@.len(), |i: int| param_impl(ps@[i]) + ", "@)
    };
    let mut s = String::from_str("<");
    let mut i: usize = 0;
    while i < ps.len()
        invariant
            i <= ps@.len(),
            want == if as_args {
                Seq::new(ps@.len(), |i: int| ps@[i].name@ + ", "@)
            } else {
                Seq::new(ps@.len(), |i: int| param_impl(ps@[i]) + ", "@)
            },
            s@ == "<"@ + concat(want.take(i as int)),
        decreases ps@.len() - i,
    {
        let mut piece = if as_args {
            ps[i].name.clone()
        } else {
            param_impl_text(&ps[i])
        };
        piece.append(", ");
        proof {
            lemma_concat_push(want, i as int);
        }
        s.append(piece.as_str());
        i = i + 1;
    }
    proof {
        lemma_concat_all(want);
    }
    s.append(">");
    s
}

pub(crate) fn where_items_text(preds: &Vec<String>) -> (r: String)
    ensures
        r@ == where_items(texts(preds@)),
{
    let ghost ts = texts(preds@);
    let ghost want = Seq::new(ts.len(), |i: int| ts[i] + ", "@);
    let mut s = String::new();
    let mut i: usize = 0;
    while i < preds.len()
        invariant
            i <= preds@.len(),
            ts == texts(preds@),
            want == Seq::new(ts.len(), |i: int| ts[i] + ", "@),
            s@ == concat(want.take(i as int)),
        decreases preds@.len() - i,
    {
        let mut piece = preds[i].clone();
        piece.append(", ");
        proof {
            lemma_concat_push(want, i as int);
        }
        s.append(piece.as_str());
        i = i + 1;
    }
    proof {
        lemma_concat_all(want);
    }
    s
}

/// The method bodies of the impl of `trait_to_impl` for `obj`.
pub fn gen_type_impl_body(trait_to_impl: &DerivedType, obj: &StructOrEnum) -> (r: String)
    requires
        !marker_refused(trait_to_impl.name, *obj),
    ensures
        r@ == impl_body(trait_to_impl.name, *obj),
{
    match obj {
        StructOrEnum::Struct(s) => struct_body_text(trait_to_impl.name, s),
        StructOrEnum::Enum(e) => enum_body_text(trait_to_impl.name, e),
    }
}

/// Appends the impl of `trait_to_impl` for `obj` to `output`, or fails, with
/// `output` unchanged, when the enum's default variant cannot be found.
pub fn add_type_impl(output: &mut Vec<Piece>, trait_to_impl: &DerivedType, obj: &StructOrEnum) -> (r:
    Result<(), DeriveError>)
    ensures
        r is Err <==> marker_refused(trait_to_impl.name, *obj),
        r is Ok ==> piece_views(final(output)@) == piece_views(old(output)@) + impl_pieces(
            *trait_to_impl,
            *obj,
        ),
        r is Err ==> final(output)@ == old(output)@,
        r matches Err(e) ==> (*obj matches StructOrEnum::Enum(en) && (e is MissingDefaultVariant
            <==> crate::model::marked_variants(en.variants@).len() == 0) && (
        e is MultipleDefaultVariants <==> crate::model::marked_variants(en.variants@).len() > 1)),
{
    let clause = match augment_where_clause(trait_to_impl, obj) {
        Ok(w) => w,
        Err(e) => {
            return Err(e);
        },
    };
    let params = &obj.generics().params;
    let mut head = String::from_str("impl");
    head.append(params_text(params, false).as_str());
    head.append(" ");
    let mut target = String::from_str(" for ");
    target.append(obj.ident().as_str());
    target.append(params_text(params, true).as_str());
    let mut rest = where_items_text(&clause.predicates);
    rest.append(" { ");
    rest.append(gen_type_impl_body(trait_to_impl, obj).as_str());
    rest.append(" } ");
    let path = trait_to_impl.path();
    let ghost start = output@;
    output.push(Piece { text: head, span: None });
    output.push(Piece { text: path.text, span: Some(path.span) });
    output.push(Piece { text: target, span: None });
    output.push(Piece { text: String::from_str(" where "), span: Some(clause.where_token) });
    output.push(Piece { text: rest, span: None });
    assert(piece_views(output@) =~= piece_views(start) + impl_pieces(*trait_to_impl, *obj));
    Ok(())
}

/// Whether the request at position `i` repeats an earlier one.
pub open spec fn repeated_at(ts: Seq<DerivedType>, i: int) -> bool {
    exists|j: int| 0 <= j < i && ts[j].name == ts[i].name
}

/// Whether the expansion stops at the request at position `i`: a repeat, or
/// `Default` on an enum without exactly one variant marked default.
pub open spec fn fails_at(ts: Seq<DerivedType>, i: int, obj: StructOrEnum) -> bool {
    repeated_at(ts, i) || marker_refused(ts[i].name, obj)
}

/// Whether every request can be honoured.
pub open spec fn expansion_ok(ts: Seq<DerivedType>, obj: StructOrEnum) -> bool {
    forall|i: int| 0 <= i < ts.len() ==> !fails_at(ts, i, obj)
}

pub open spec fn requests_default(ts: Seq<DerivedType>) -> bool {
    exists|i: int| 0 <= i < ts.len() && ts[i].name == DerivedTypeEnum::Default
}

/// The impls, one per request, in request order.
pub open spec fn impls_pieces(ts: Seq<DerivedType>, obj: StructOrEnum) -> Seq<
    (Seq<char>, Option<proc_macro2::Span>),
> {
    concat(Seq::new(ts.len(), |i: int| impl_pieces(ts[i], obj)))
}

/// The declaration that is written back out: stripped of its `default`
/// markers when `Default` is requested.
pub open spec fn emitted_decl(ts: Seq<DerivedType>, obj: StructOrEnum, d: StructOrEnum) -> bool {
    if requests_default(ts) {
        markers_removed(obj, d)
    } else {
        d == obj
    }
}

/// The error that the request at position `j` stops the expansion with.
pub open spec fn failure(ts: Seq<DerivedType>, j: int, obj: StructOrEnum, e: DeriveError) -> bool {
    if repeated_at(ts, j) {
        e == (DeriveError::DuplicateTrait { kind: ts[j].name, span: ts[j].span })
    } else {
        &&& marker_refused(ts[j].name, obj)
        &&& obj matches StructOrEnum::Enum(en)
        &&& (e is MissingDefaultVariant <==> crate::model::marked_variants(en.variants@).len() == 0)
        &&& (e is MultipleDefaultVariants <==> crate::model::marked_variants(en.variants@).len() > 1)
    }
}

fn contains_kind(seen: &Vec<DerivedTypeEnum>, k: DerivedTypeEnum) -> (r: bool)
    ensures
        r == exists|j: int| 0 <= j < seen@.len() && seen@[j] == k,
{
    let mut i: usize = 0;
    while i < seen.len()
        invariant
            i <= seen@.len(),
            forall|j: int| 0 <= j < i ==> seen@[j] != k,
        decreases seen@.len() - i,
    {
        if seen[i] == k {
            return true;
        }
        i = i + 1;
    }
    false
}

/// The expansion: the declaration, stripped of its `default` markers when
/// `Default` is requested, then one impl per requested trait in request
/// order; or the error of the first request that cannot be honoured.
pub fn impl_traits(traits: DerivedList, obj: StructOrEnum) -> (r: Result<Vec<Piece>, DeriveError>)
    ensures
        r is Ok <==> expansion_ok(traits.0@, obj),
        r matches Ok(ps) ==> exists|d: StructOrEnum|
            emitted_decl(traits.0@, obj, d) && piece_views(ps@) == seq![(decl_text(d), None)]
                + impls_pieces(traits.0@, obj),
        r matches Err(e) ==> exists|j: int|
            0 <= j < traits.0@.len() && (forall|i: int| 0 <= i < j ==> !fails_at(traits.0@, i, obj))
                && fails_at(traits.0@, j, obj) && failure(traits.0@, j, obj, e),
{
    let ts = &traits.0;
    let ghost want = Seq::new(ts@.len(), |i: int| impl_pieces(ts@[i], obj));
    let mut output: Vec<Piece> = Vec::new();
    let mut seen: Vec<DerivedTypeEnum> = Vec::new();
    let mut has_default = false;
    let mut i: usize = 0;
    while i < ts.len()
        invariant
            i <= ts@.len(),
            ts@ == traits.0@,
            want == Seq::new(ts@.len(), |i: int| impl_pieces(ts@[i], obj)),
            seen@.len() == i,
            forall|j: int| 0 <= j < i ==> seen@[j] == #[trigger] ts@[j].name,
            forall|j: int| 0 <= j < i ==> !fails_at(ts@, j, obj),
            has_default == exists|j: int| 0 <= j < i && ts@[j].name == DerivedTypeEnum::Default,
            piece_views(output@) == concat(want.take(i as int)),
        decreases ts@.len() - i,
    {
        let d = &ts[i];
        if contains_kind(&seen, d.name) {
            assert(repeated_at(ts@, i as int)) by {
                let j = choose|j: int| 0 <= j < seen@.len() && seen@[j] == d.name;
                assert(ts@[j].name == ts@[i as int].name);
            }
            assert(fails_at(ts@, i as int, obj));
            assert(!expansion_ok(ts@, obj));
            let e = DeriveError::DuplicateTrait { kind: d.name, span: d.span };
            assert(failure(ts@, i as int, obj, e));
            return Err(e);
        }
        assert(!repeated_at(ts@, i as int)) by {
            if repeated_at(ts@, i as int) {
                let j = choose|j: int| 0 <= j < i && ts@[j].name == ts@[i as int].name;
                assert(seen@[j] == d.name);
            }
        }
        proof {
            lemma_concat_push(want, i as int);
        }
        match add_type_impl(&mut output, d, &obj) {
            Ok(()) => {},
            Err(e) => {
                assert(fails_at(ts@, i as int, obj));
                assert(!expansion_ok(ts@, obj));
                assert(failure(ts@, i as int, obj, e));
                return Err(e);
            },
        }
        seen.push(d.name);
        if d.name == DerivedTypeEnum::Default {
            has_default = true;
        }
        i = i + 1;
    }
    proof {
        lemma_concat_all(want);
    }
    let ghost before = obj;
    let mut obj = obj;
    if has_default {
        remove_debug_markers(&mut obj);
    }
    let mut r: Vec<Piece> = Vec::new();
    r.push(Piece { text: obj.to_text(), span: None });
    let ghost rest = output@;
    r.append(&mut output);
    assert(piece_views(r@) =~= seq![(decl_text(obj), None)] + piece_views(rest));
    assert(emitted_decl(ts@, before, obj));
    Ok(r)
}

} // verus!
