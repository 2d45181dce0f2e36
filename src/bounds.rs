//! Which field types each generated impl is bounded on, and the resulting
//! where-clause.
use vstd::prelude::*;
use crate::text::{lemma_texts_push, texts};
use crate::catalog::{trait_path, DeriveError, DerivedType, DerivedTypeEnum};
use crate::model::{
    default_variant, field_list, field_types, marked_variants, Field, Fields, StructOrEnum,
    Variant, WhereClause,
};

verus! {

/// The declared types of the fields of every variant, variant by variant.
pub open spec fn variant_types(vs: Seq<Variant>) -> Seq<Seq<char>>
    decreases vs.len(),
{
    if vs.len() == 0 {
        Seq::empty()
    } else {
        variant_types(vs.drop_last()) + field_types(vs.last().fields)
    }
}

/// The field types that the impl of `k` for `obj` is bounded on: every field
/// type of a struct, every field type of every variant of an enum, except
/// for `Default` on an enum: only the fields of the variant marked default.
pub open spec fn relevant_types(k: DerivedTypeEnum, obj: StructOrEnum) -> Seq<Seq<char>> {
    match obj {
        StructOrEnum::Struct(s) => field_types(s.fields),
        StructOrEnum::Enum(e) => if k == DerivedTypeEnum::Default {
            let m = marked_variants(e.variants@);
            if m.len() == 1 {
                field_types(e.variants@[m[0]].fields)
            } else {
                Seq::empty()
            }
        } else {
            variant_types(e.variants@)
        },
    }
}

/// Whether the impl of `k` for `obj` cannot be generated: `Default` on an
/// enum that does not have exactly one variant marked default.
pub open spec fn marker_refused(k: DerivedTypeEnum, obj: StructOrEnum) -> bool {
    &&& k == DerivedTypeEnum::Default
    &&& (obj matches StructOrEnum::Enum(e) && marked_variants(e.variants@).len() != 1)
}

/// The predicate `ty: Trait`.
pub open spec fn bound_text(ty: Seq<char>, k: DerivedTypeEnum) -> Seq<char> {
    ty + ": "@ + trait_path(k)
}

/// The predicates of an existing where-clause.
pub open spec fn existing_predicates(clause: Option<WhereClause>) -> Seq<Seq<char>> {
    match clause {
        Some(c) => texts(c.predicates@),
        None => Seq::empty(),
    }
}

/// Where the impl's `where` keyword is located: at the declaration's own
/// `where`, or, when it has none, at the request for the trait.
pub open spec fn where_anchor(obj: StructOrEnum, request: proc_macro2::Span) -> proc_macro2::Span {
    match obj.spec_generics().where_clause {
        Some(c) => c.where_token,
        None => request,
    }
}

/// The where-clause of the impl of `k` for `obj`: the declaration's own
/// predicates, then one bound per relevant field type, in declaration order.
pub open spec fn where_predicates(k: DerivedTypeEnum, obj: StructOrEnum) -> Seq<Seq<char>> {
    existing_predicates(obj.spec_generics().where_clause) + relevant_types(k, obj).map_values(
        |t: Seq<char>| bound_text(t, k),
    )
}

fn bound_for(ty: &String, path: &String) -> (r: String)
    ensures
        r@ == ty@ + ": "@ + path@,
{
    let mut s = ty.clone();
    s.append(": ");
    s.append(path.as_str());
    s
}

/// Appends the bound `ty: Trait` for every field.
fn push_field_bounds(out: &mut Vec<String>, fields: &Fields, path: &String, k: Ghost<DerivedTypeEnum>)
    requires
        path@ == trait_path(k@),
    ensures
        texts(final(out)@) == texts(old(out)@) + field_types(*fields).map_values(
            |t: Seq<char>| bound_text(t, k@),
        ),
{
    let ghost start = texts(out@);
    let ghost fs = field_list(*fields);
    let ghost want = field_types(*fields).map_values(|t: Seq<char>| bound_text(t, k@));
    match fields {
        Fields::Named(v) | Fields::Unnamed(v) => {
            let mut i: usize = 0;
            while i < v.len()
                invariant
                    fs == v@,
                    i <= v@.len(),
                    want.len() == v@.len(),
                    texts(out@) == start + want.take(i as int),
                    forall|j: int| 0 <= j < v@.len() ==> #[trigger] want[j] == v@[j].ty@ + ": "@ + path@,
                decreases v@.len() - i,
            {
                let b = bound_for(&v[i].ty, path);
                proof {
                    lemma_texts_push(out@, b);
                }
                out.push(b);
                assert(texts(out@) =~= start + want.take(i + 1));
                i = i + 1;
            }
            assert(want.take(v@.len() as int) =~= want);
        },
        Fields::Unit => {
            assert(want =~= Seq::<Seq<char>>::empty());
            assert(texts(out@) =~= start + want);
        },
    }
}

/// The where-clause of the impl of `trait_to_impl` for `obj`, or the error
/// when the enum's default variant cannot be found.
pub fn augment_where_clause(trait_to_impl: &DerivedType, obj: &StructOrEnum) -> (r: Result<
    WhereClause,
    DeriveError,
>)
    ensures
        r is Err <==> marker_refused(trait_to_impl.name, *obj),
        r matches Ok(w) ==> texts(w.predicates@) == where_predicates(trait_to_impl.name, *obj)
            && w.where_token == where_anchor(*obj, trait_to_impl.span),
        r matches Err(e) ==> (*obj matches StructOrEnum::Enum(en) && (e is MissingDefaultVariant
            <==> marked_variants(en.variants@).len() == 0) && (e is MultipleDefaultVariants
            <==> marked_variants(en.variants@).len() > 1)),
{
    let k = Ghost(trait_to_impl.name);
    let path = trait_to_impl.path().text;
    let mut out: Vec<String> = Vec::new();
    let where_token = match &obj.generics().where_clause {
        Some(c) => c.where_token,
        None => trait_to_impl.span,
    };
    match &obj.generics().where_clause {
        Some(c) => {
            let ps = &c.predicates;
            let mut i: usize = 0;
            while i < ps.len()
                invariant
                    i <= ps@.len(),
                    texts(out@) == texts(ps@).take(i as int),
                decreases ps@.len() - i,
            {
                let p = ps[i].clone();
                proof {
                    lemma_texts_push(out@, p);
                }
                out.push(p);
                assert(texts(out@) =~= texts(ps@).take(i + 1));
                i = i + 1;
            }
            assert(texts(ps@).take(ps@.len() as int) =~= texts(ps@));
        },
        None => {
            assert(texts(out@) =~= Seq::<Seq<char>>::empty());
        },
    }
    let ghost start = texts(out@);
    assert(start == existing_predicates(obj.spec_generics().where_clause));
    match obj {
        StructOrEnum::Struct(s) => {
            push_field_bounds(&mut out, &s.fields, &path, k);
        },
        StructOrEnum::Enum(e) => {
            if trait_to_impl.name == DerivedTypeEnum::Default {
                let d = default_variant(e);
                proof {
                    crate::model::lemma_marked_variants_bounds(e.variants@);
                }
                match d {
                    Ok(j) => {
                        push_field_bounds(&mut out, &e.variants[j].fields, &path, k);
                    },
                    Err(err) => {
                        return Err(err);
                    },
                }
            } else {
                let vs = &e.variants;
                let mut i: usize = 0;
                while i < vs.len()
                    invariant
                        i <= vs@.len(),
                        path@ == trait_path(k@),
                        texts(out@) == start + variant_types(vs@.take(i as int)).map_values(
                            |t: Seq<char>| bound_text(t, k@),
                        ),
                    decreases vs@.len() - i,
                {
                    let ghost before = texts(out@);
                    push_field_bounds(&mut out, &vs[i].fields, &path, k);
                    proof {
                        let f = |t: Seq<char>| bound_text(t, k@);
                        let a = variant_types(vs@.take(i as int));
                        let b = field_types(vs@[i as int].fields);
                        assert(vs@.take(i + 1).drop_last() =~= vs@.take(i as int));
                        assert(variant_types(vs@.take(i + 1)) == a + b);
                        assert((a + b).map_values(f) =~= a.map_values(f) + b.map_values(f));
                        assert(texts(out@) =~= start + (a + b).map_values(f));
                    }
                    i = i + 1;
                }
                assert(vs@.take(vs@.len() as int) =~= vs@);
            }
        },
    }
    Ok(WhereClause { where_token, predicates: out })
}

} // verus!
