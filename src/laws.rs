//! Properties of the expansion as a whole.
use vstd::prelude::*;
use crate::bounds::{relevant_types, variant_types};
use crate::text::{decimal, lemma_decimal_reads_back, numeral_value};
use crate::catalog::{DerivedType, DerivedTypeEnum};
use crate::driver::{expansion_ok, fails_at, repeated_at, requests_default};
use crate::model::{field_types, marked_variants, ItemEnum, StructOrEnum, Variant};

verus! {

/// Every field type declared anywhere in `obj`.
pub open spec fn declared_types(obj: StructOrEnum) -> Seq<Seq<char>> {
    match obj {
        StructOrEnum::Struct(s) => field_types(s.fields),
        StructOrEnum::Enum(e) => variant_types(e.variants@),
    }
}

proof fn lemma_variant_types_contain(vs: Seq<Variant>, k: int, t: Seq<char>)
    requires
        0 <= k < vs.len(),
        field_types(vs[k].fields).contains(t),
    ensures
        variant_types(vs).contains(t),
    decreases vs.len(),
{
    let rest = vs.drop_last();
    let last = field_types(vs.last().fields);
    if k == vs.len() - 1 {
        let i = choose|i: int| 0 <= i < last.len() && last[i] == t;
        assert(variant_types(vs)[variant_types(rest).len() + i] == t);
    } else {
        assert(rest[k] == vs[k]);
        lemma_variant_types_contain(rest, k, t);
        let i = choose|i: int| 0 <= i < variant_types(rest).len() && variant_types(rest)[i] == t;
        assert(variant_types(vs)[i] == t);
    }
}

/// The `Default` impl of an enum is bounded on the field types of the
/// variant marked default and on nothing else: the other variants' fields
/// are never read by it, whatever their types.
pub proof fn default_bounds_only_marked_variant(e: ItemEnum, k: int)
    requires
        marked_variants(e.variants@) == seq![k],
    ensures
        relevant_types(DerivedTypeEnum::Default, StructOrEnum::Enum(e)) == field_types(
            e.variants@[k].fields,
        ),
{
}

/// No impl is bounded on anything but a type that a field is declared with:
/// a generic parameter that no field has as its type is never bounded.
pub proof fn bounds_are_field_types(k: DerivedTypeEnum, obj: StructOrEnum, t: Seq<char>)
    requires
        relevant_types(k, obj).contains(t),
    ensures
        declared_types(obj).contains(t),
{
    if let StructOrEnum::Enum(e) = obj {
        if k == DerivedTypeEnum::Default {
            let m = marked_variants(e.variants@);
            crate::model::lemma_marked_variants_bounds(e.variants@);
            lemma_variant_types_contain(e.variants@, m[0], t);
        }
    }
}

/// Requesting a trait a second time refuses the whole expansion.
pub proof fn repeated_request_refused(ts: Seq<DerivedType>, obj: StructOrEnum, i: int, j: int)
    requires
        0 <= i < j < ts.len(),
        ts[i].name == ts[j].name,
    ensures
        !expansion_ok(ts, obj),
{
    assert(repeated_at(ts, j));
    assert(fails_at(ts, j, obj));
}

/// Distinct requests always expand, on every shape of struct and enum, as
/// long as an enum that is asked for `Default` marks exactly one variant.
pub proof fn distinct_requests_expand(ts: Seq<DerivedType>, obj: StructOrEnum)
    requires
        forall|i: int, j: int| 0 <= i < j < ts.len() ==> ts[i].name != ts[j].name,
        requests_default(ts) ==> (obj matches StructOrEnum::Enum(e) ==> marked_variants(
            e.variants@,
        ).len() == 1),
    ensures
        expansion_ok(ts, obj),
{
    assert forall|i: int| 0 <= i < ts.len() implies !fails_at(ts, i, obj) by {
        if ts[i].name == DerivedTypeEnum::Default {
            assert(requests_default(ts));
        }
    }
}

/// When two values of different variants are compared, each is ranked by
/// the `usize` literal that `rank_arms` writes for its declaration position
/// `K`, `decimal(K)`; that literal reads `K`, so the variant declared first
/// sorts first, whatever the field values.
pub proof fn variants_rank_by_declaration_order(vs: Seq<Variant>, i: int, j: int)
    requires
        0 <= i < j < vs.len(),
    ensures
        numeral_value(decimal(i as nat)) == i,
        numeral_value(decimal(j as nat)) == j,
        numeral_value(decimal(i as nat)) < numeral_value(decimal(j as nat)),
{
    lemma_decimal_reads_back(i as nat);
    lemma_decimal_reads_back(j as nat);
}

} // verus!
