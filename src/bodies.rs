//! The method bodies of the generated impls. Every body is a `match` with
//! one arm per shape: the struct itself (`Self`) or each enum variant
//! (`Self::V`). Fields are bound by position, to `v0, v1, ...`, and for a
//! comparison of two values the left operand's fields to `u0, u1, ...`.
use vstd::prelude::*;
use crate::catalog::DerivedTypeEnum;
use crate::model::{field_list, Field, Fields, ItemEnum, ItemStruct, Variant};
use crate::text::{
    append_all, concat, decimal, decimal_text, lemma_concat_all, lemma_concat_push,
    lemma_texts_push, numbered, numbered_text, texts,
};

verus! {

/// The number of fields in a field list.
pub open spec fn width(f: Fields) -> nat {
    field_list(f).len()
}

/// The bindings `prefix0, prefix1, ...` of `n` fields.
pub open spec fn bindings(prefix: Seq<char>, n: nat) -> Seq<Seq<char>> {
    Seq::new(n, |i: int| numbered(prefix, i as nat))
}

/// `pre vI post` for each field `I`.
pub open spec fn unary_pieces(pre: Seq<char>, post: Seq<char>, n: nat) -> Seq<Seq<char>> {
    Seq::new(n, |i: int| pre + numbered("v"@, i as nat) + post)
}

/// `pre uI mid vI post` for each field `I`.
pub open spec fn binary_pieces(pre: Seq<char>, mid: Seq<char>, post: Seq<char>, n: nat) -> Seq<
    Seq<char>,
> {
    Seq::new(n, |i: int| pre + numbered("u"@, i as nat) + mid + numbered("v"@, i as nat) + post)
}

/// The field list's tail of a pattern or constructor, holding `items[i]` in
/// place of field `i`: ` { a: x, b: y, }`, `(x, y, )`, or nothing.
pub open spec fn shape(f: Fields, items: Seq<Seq<char>>) -> Seq<char> {
    match f {
        Fields::Named(v) => " { "@ + concat(
            Seq::new(v@.len(), |i: int| v@[i].ident@ + ": "@ + items[i] + ", "@),
        ) + "}"@,
        Fields::Unnamed(v) => "("@ + concat(Seq::new(v@.len(), |i: int| items[i] + ", "@)) + ")"@,
        Fields::Unit => Seq::empty(),
    }
}

/// A name as it is printed: without the `r#` of a raw identifier.
pub open spec fn unraw(s: Seq<char>) -> Seq<char> {
    if s.len() >= 2 && s[0] == 'r' && s[1] == '#' {
        s.skip(2)
    } else {
        s
    }
}

fn bindings_text(prefix: &str, n: usize) -> (r: Vec<String>)
    ensures
        r@.len() == n,
        texts(r@) == bindings(prefix@, n as nat),
{
    let ghost want = bindings(prefix@, n as nat);
    let mut r: Vec<String> = Vec::new();
    let mut i: usize = 0;
    while i < n
        invariant
            i <= n,
            want == bindings(prefix@, n as nat),
            r@.len() == i,
            texts(r@) == want.take(i as int),
        decreases n - i,
    {
        let s = numbered_text(prefix, i);
        proof {
            lemma_texts_push(r@, s);
        }
        r.push(s);
        assert(texts(r@) =~= want.take(i + 1));
        i = i + 1;
    }
    assert(want.take(n as int) =~= want);
    r
}

fn unary_pieces_text(pre: &str, post: &str, n: usize) -> (r: Vec<String>)
    ensures
        r@.len() == n,
        texts(r@) == unary_pieces(pre@, post@, n as nat),
{
    let ghost want = unary_pieces(pre@, post@, n as nat);
    let mut r: Vec<String> = Vec::new();
    let mut i: usize = 0;
    while i < n
        invariant
            i <= n,
            want == unary_pieces(pre@, post@, n as nat),
            r@.len() == i,
            texts(r@) == want.take(i as int),
        decreases n - i,
    {
        let mut s = String::from_str(pre);
        let v = numbered_text("v", i);
        s.append(v.as_str());
        s.append(post);
        proof {
            lemma_texts_push(r@, s);
        }
        r.push(s);
        assert(texts(r@) =~= want.take(i + 1));
        i = i + 1;
    }
    assert(want.take(n as int) =~= want);
    r
}

fn binary_pieces_text(pre: &str, mid: &str, post: &str, n: usize) -> (r: Vec<String>)
    ensures
        r@.len() == n,
        texts(r@) == binary_pieces(pre@, mid@, post@, n as nat),
{
    let ghost want = binary_pieces(pre@, mid@, post@, n as nat);
    let mut r: Vec<String> = Vec::new();
    let mut i: usize = 0;
    while i < n
        invariant
            i <= n,
            want == binary_pieces(pre@, mid@, post@, n as nat),
            r@.len() == i,
            texts(r@) == want.take(i as int),
        decreases n - i,
    {
        let mut s = String::from_str(pre);
        let u = numbered_text("u", i);
        s.append(u.as_str());
        s.append(mid);
        let v = numbered_text("v", i);
        s.append(v.as_str());
        s.append(post);
        proof {
            lemma_texts_push(r@, s);
        }
        r.push(s);
        assert(texts(r@) =~= want.take(i + 1));
        i = i + 1;
    }
    assert(want.take(n as int) =~= want);
    r
}

/// Writes the tail of a pattern or constructor for `f` holding `items`.
fn shape_text(f: &Fields, items: &Vec<String>) -> (r: String)
    requires
        items@.len() == width(*f),
    ensures
        r@ == shape(*f, texts(items@)),
{
    let ghost its = texts(items@);
    match f {
        Fields::Named(v) => {
            let ghost want = Seq::new(v@.len(), |i: int| v@[i].ident@ + ": "@ + its[i] + ", "@);
            let mut s = String::from_str(" { ");
            let mut i: usize = 0;
            while i < v.len()
                invariant
                    i <= v@.len(),
                    items@.len() == v@.len(),
                    its == texts(items@),
                    want == Seq::new(v@.len(), |i: int| v@[i].ident@ + ": "@ + its[i] + ", "@),
                    s@ == " { "@ + concat(want.take(i as int)),
                decreases v@.len() - i,
            {
                let mut piece = v[i].ident.clone();
                piece.append(": ");
                piece.append(items[i].as_str());
                piece.append(", ");
                proof {
                    lemma_concat_push(want, i as int);
                }
                s.append(piece.as_str());
                i = i + 1;
            }
            proof {
                lemma_concat_all(want);
            }
            s.append("}");
            s
        },
        Fields::Unnamed(v) => {
            let ghost want = Seq::new(v@.len(), |i: int| its[i] + ", "@);
            let mut s = String::from_str("(");
            let mut i: usize = 0;
            while i < v.len()
                invariant
                    i <= v@.len(),
                    items@.len() == v@.len(),
                    its == texts(items@),
                    want == Seq::new(v@.len(), |i: int| its[i] + ", "@),
                    s@ == "("@ + concat(want.take(i as int)),
                decreases v@.len() - i,
            {
                let mut piece = items[i].clone();
                piece.append(", ");
                proof {
                    lemma_concat_push(want, i as int);
                }
                s.append(piece.as_str());
                i = i + 1;
            }
            proof {
                lemma_concat_all(want);
            }
            s.append(")");
            s
        },
        Fields::Unit => String::new(),
    }
}

/// Writes `name` without the `r#` of a raw identifier.
fn unraw_text(name: &String) -> (r: String)
    ensures
        r@ == unraw(name@),
{
    let n = name.as_str().unicode_len();
    if n >= 2 && name.as_str().get_char(0) == 'r' && name.as_str().get_char(1) == '#' {
        String::from_str(name.as_str().substring_char(2, n))
    } else {
        name.clone()
    }
}

/// The pattern of an arm that matches two values of the same shape, binding
/// the left one's fields to `uI` and the right one's to `vI`.
pub open spec fn pair_pattern(p: Seq<char>, f: Fields) -> Seq<char> {
    "("@ + p + shape(f, bindings("u"@, width(f))) + ", "@ + p + shape(f, bindings("v"@, width(f)))
        + ") => "@
}

/// Clone: rebuild the same shape from each field's clone.
pub open spec fn clone_arm(p: Seq<char>, f: Fields) -> Seq<char> {
    p + shape(f, bindings("v"@, width(f))) + " => "@ + p + shape(
        f,
        unary_pieces("::core::clone::Clone::clone("@, ")"@, width(f)),
    ) + ", "@
}

/// Equality: `true` and-ed with the equality of each field pair, left to right.
pub open spec fn eq_arm(p: Seq<char>, f: Fields) -> Seq<char> {
    pair_pattern(p, f) + "true"@ + concat(
        binary_pieces(" && ::core::cmp::PartialEq::eq("@, ", "@, ")"@, width(f)),
    ) + ", "@
}

/// Total order: `Equal`, then each field pair's order; the first field that
/// differs decides.
pub open spec fn cmp_arm(p: Seq<char>, f: Fields) -> Seq<char> {
    pair_pattern(p, f) + "::core::cmp::Ordering::Equal"@ + concat(
        binary_pieces(".then(::core::cmp::Ord::cmp("@, ", "@, "))"@, width(f)),
    ) + ", "@
}

/// Partial order: as the total order, the first field that differs decides,
/// and the result is `None` as soon as any field pair is incomparable.
pub open spec fn pcmp_arm(p: Seq<char>, f: Fields) -> Seq<char> {
    pair_pattern(p, f) + "::core::option::Option::Some(::core::cmp::Ordering::Equal)"@ + concat(
        binary_pieces(
            ".and_then(|o| ::core::cmp::PartialOrd::partial_cmp("@,
            ", "@,
            ").map(|x| o.then(x)))"@,
            width(f),
        ),
    ) + ", "@
}

/// Hash: each field into the same state, left to right.
pub open spec fn hash_arm(p: Seq<char>, f: Fields) -> Seq<char> {
    p + shape(f, bindings("v"@, width(f))) + " => { "@ + concat(
        unary_pieces("::core::hash::Hash::hash("@, ", state); "@, width(f)),
    ) + "}, "@
}

/// Debug: a struct builder keyed by the field names, a tuple builder, or
/// the bare name.
pub open spec fn debug_fields(name: Seq<char>, f: Fields) -> Seq<char> {
    match f {
        Fields::Named(v) => "f.debug_struct(\""@ + unraw(name) + "\")"@ + concat(
            Seq::new(
                v@.len(),
                |i: int| ".field(\""@ + unraw(v@[i].ident@) + "\", "@ + numbered("v"@, i as nat) + ")"@,
            ),
        ) + ".finish()"@,
        Fields::Unnamed(v) => "f.debug_tuple(\""@ + unraw(name) + "\")"@ + concat(
            unary_pieces(".field("@, ")"@, v@.len()),
        ) + ".finish()"@,
        Fields::Unit => "f.write_str(\""@ + unraw(name) + "\")"@,
    }
}

pub open spec fn debug_arm(p: Seq<char>, name: Seq<char>, f: Fields) -> Seq<char> {
    p + shape(f, bindings("v"@, width(f))) + " => "@ + debug_fields(name, f) + ", "@
}

/// Default: the shape built from each field type's own default.
pub open spec fn default_expr(p: Seq<char>, f: Fields) -> Seq<char> {
    p + shape(f, Seq::new(width(f), |i: int| "::core::default::Default::default()"@))
}

/// The arm of trait `k` for the shape at path `p` named `name`.
pub open spec fn arm(k: DerivedTypeEnum, p: Seq<char>, name: Seq<char>, f: Fields) -> Seq<char> {
    match k {
        DerivedTypeEnum::Clone => clone_arm(p, f),
        DerivedTypeEnum::PartialEq => eq_arm(p, f),
        DerivedTypeEnum::Ord => cmp_arm(p, f),
        DerivedTypeEnum::PartialOrd => pcmp_arm(p, f),
        DerivedTypeEnum::Hash => hash_arm(p, f),
        DerivedTypeEnum::Debug => debug_arm(p, name, f),
        _ => Seq::empty(),
    }
}

/// The path of a variant: `Self::V`.
pub open spec fn variant_path(v: Variant) -> Seq<char> {
    "Self::"@ + v.ident@
}

/// The arms of trait `k`, one per variant, in declaration order.
pub open spec fn enum_arms(k: DerivedTypeEnum, vs: Seq<Variant>) -> Seq<char> {
    concat(Seq::new(vs.len(), |j: int| arm(k, variant_path(vs[j]), vs[j].ident@, vs[j].fields)))
}

fn pair_pattern_text(p: &String, f: &Fields) -> (r: String)
    ensures
        r@ == pair_pattern(p@, *f),
{
    let n = f.len();
    let us = bindings_text("u", n);
    let vs = bindings_text("v", n);
    let mut s = String::from_str("(");
    s.append(p.as_str());
    s.append(shape_text(f, &us).as_str());
    s.append(", ");
    s.append(p.as_str());
    s.append(shape_text(f, &vs).as_str());
    s.append(") => ");
    s
}

fn clone_arm_text(p: &String, f: &Fields) -> (r: String)
    ensures
        r@ == clone_arm(p@, *f),
{
    let n = f.len();
    let vs = bindings_text("v", n);
    let clones = unary_pieces_text("::core::clone::Clone::clone(", ")", n);
    let mut s = p.clone();
    s.append(shape_text(f, &vs).as_str());
    s.append(" => ");
    s.append(p.as_str());
    s.append(shape_text(f, &clones).as_str());
    s.append(", ");
    s
}

fn eq_arm_text(p: &String, f: &Fields) -> (r: String)
    ensures
        r@ == eq_arm(p@, *f),
{
    let tests = binary_pieces_text(" && ::core::cmp::PartialEq::eq(", ", ", ")", f.len());
    let mut s = pair_pattern_text(p, f);
    s.append("true");
    append_all(&mut s, &tests);
    s.append(", ");
    s
}

fn cmp_arm_text(p: &String, f: &Fields) -> (r: String)
    ensures
        r@ == cmp_arm(p@, *f),
{
    let steps = binary_pieces_text(".then(::core::cmp::Ord::cmp(", ", ", "))", f.len());
    let mut s = pair_pattern_text(p, f);
    s.append("::core::cmp::Ordering::Equal");
    append_all(&mut s, &steps);
    s.append(", ");
    s
}

fn pcmp_arm_text(p: &String, f: &Fields) -> (r: String)
    ensures
        r@ == pcmp_arm(p@, *f),
{
    let steps = binary_pieces_text(
        ".and_then(|o| ::core::cmp::PartialOrd::partial_cmp(",
        ", ",
        ").map(|x| o.then(x)))",
        f.len(),
    );
    let mut s = pair_pattern_text(p, f);
    s.append("::core::option::Option::Some(::core::cmp::Ordering::Equal)");
    append_all(&mut s, &steps);
    s.append(", ");
    s
}

fn hash_arm_text(p: &String, f: &Fields) -> (r: String)
    ensures
        r@ == hash_arm(p@, *f),
{
    let n = f.len();
    let vs = bindings_text("v", n);
    let stmts = unary_pieces_text("::core::hash::Hash::hash(", ", state); ", n);
    let mut s = p.clone();
    s.append(shape_text(f, &vs).as_str());
    s.append(" => { ");
    append_all(&mut s, &stmts);
    s.append("}, ");
    s
}

/// `.field("name", vI)` for each named field.
fn named_debug_pieces(v: &Vec<Field>) -> (r: Vec<String>)
    ensures
        texts(r@) == Seq::new(
            v@.len(),
            |i: int| ".field(\""@ + unraw(v@[i].ident@) + "\", "@ + numbered("v"@, i as nat) + ")"@,
        ),
{
    let ghost want = Seq::new(
        v@.len(),
        |i: int| ".field(\""@ + unraw(v@[i].ident@) + "\", "@ + numbered("v"@, i as nat) + ")"@,
    );
    let mut r: Vec<String> = Vec::new();
    let mut i: usize = 0;
    while i < v.len()
        invariant
            i <= v@.len(),
            want == Seq::new(
                v@.len(),
                |i: int| ".field(\""@ + unraw(v@[i].ident@) + "\", "@ + numbered("v"@, i as nat) + ")"@,
            ),
            texts(r@) == want.take(i as int),
        decreases v@.len() - i,
    {
        let mut s = String::from_str(".field(\"");
        s.append(unraw_text(&v[i].ident).as_str());
        s.append("\", ");
        s.append(numbered_text("v", i).as_str());
        s.append(")");
        proof {
            lemma_texts_push(r@, s);
        }
        r.push(s);
        assert(texts(r@) =~= want.take(i + 1));
        i = i + 1;
    }
    assert(want.take(v@.len() as int) =~= want);
    r
}

fn debug_fields_text(name: &String, f: &Fields) -> (r: String)
    ensures
        r@ == debug_fields(name@, *f),
{
    match f {
        Fields::Named(v) => {
            let mut s = String::from_str("f.debug_struct(\"");
            s.append(unraw_text(name).as_str());
            s.append("\")");
            append_all(&mut s, &named_debug_pieces(v));
            s.append(".finish()");
            s
        },
        Fields::Unnamed(v) => {
            let mut s = String::from_str("f.debug_tuple(\"");
            s.append(unraw_text(name).as_str());
            s.append("\")");
            append_all(&mut s, &unary_pieces_text(".field(", ")", v.len()));
            s.append(".finish()");
            s
        },
        Fields::Unit => {
            let mut s = String::from_str("f.write_str(\"");
            s.append(unraw_text(name).as_str());
            s.append("\")");
            s
        },
    }
}

fn debug_arm_text(p: &String, name: &String, f: &Fields) -> (r: String)
    ensures
        r@ == debug_arm(p@, name@, *f),
{
    let vs = bindings_text("v", f.len());
    let mut s = p.clone();
    s.append(shape_text(f, &vs).as_str());
    s.append(" => ");
    s.append(debug_fields_text(name, f).as_str());
    s.append(", ");
    s
}

/// The arm of trait `k` for the shape at path `p` named `name`.
fn arm_text(k: DerivedTypeEnum, p: &String, name: &String, f: &Fields) -> (r: String)
    ensures
        r@ == arm(k, p@, name@, *f),
{
    match k {
        DerivedTypeEnum::Clone => clone_arm_text(p, f),
        DerivedTypeEnum::PartialEq => eq_arm_text(p, f),
        DerivedTypeEnum::Ord => cmp_arm_text(p, f),
        DerivedTypeEnum::PartialOrd => pcmp_arm_text(p, f),
        DerivedTypeEnum::Hash => hash_arm_text(p, f),
        DerivedTypeEnum::Debug => debug_arm_text(p, name, f),
        _ => String::new(),
    }
}

fn variant_path_text(v: &Variant) -> (r: String)
    ensures
        r@ == variant_path(*v),
{
    let mut s = String::from_str("Self::");
    s.append(v.ident.as_str());
    s
}

/// Appends the arms of trait `k` for every variant.
fn append_enum_arms(out: &mut String, k: DerivedTypeEnum, vs: &Vec<Variant>)
    ensures
        final(out)@ == old(out)@ + enum_arms(k, vs@),
{
    let ghost start = out@;
    let ghost want = Seq::new(
        vs@.len(),
        |j: int| arm(k, variant_path(vs@[j]), vs@[j].ident@, vs@[j].fields),
    );
    let mut i: usize = 0;
    while i < vs.len()
        invariant
            i <= vs@.len(),
            want == Seq::new(
                vs@.len(),
                |j: int| arm(k, variant_path(vs@[j]), vs@[j].ident@, vs@[j].fields),
            ),
            out@ == start + concat(want.take(i as int)),
        decreases vs@.len() - i,
    {
        let v = &vs[i];
        let a = arm_text(k, &variant_path_text(v), &v.ident, &v.fields);
        proof {
            lemma_concat_push(want, i as int);
        }
        out.append(a.as_str());
        i = i + 1;
    }
    proof {
        lemma_concat_all(want);
    }
}

/// The declaration-order rank of each variant: `Self::V { .. } => K usize`
/// for the variant at position `K`.
pub open spec fn rank_arms(vs: Seq<Variant>) -> Seq<char> {
    concat(
        Seq::new(
            vs.len(),
            |k: int| variant_path(vs[k]) + " { .. } => "@ + decimal(k as nat) + "usize, "@,
        ),
    )
}

/// The order of two values of different variants: that of their ranks, so
/// the variant declared first sorts first.
pub open spec fn rank_cmp(vs: Seq<Variant>) -> Seq<char> {
    "{ let i1: usize = match self { "@ + rank_arms(vs) + "}; let i2: usize = match other { "@
        + rank_arms(vs) + "}; ::core::cmp::Ord::cmp(&i1, &i2) }"@
}

/// The signature of the method of `k`, up to its opening brace.
pub open spec fn signature(k: DerivedTypeEnum) -> Seq<char> {
    match k {
        DerivedTypeEnum::Clone => "fn clone(&self) -> Self { "@,
        DerivedTypeEnum::PartialEq => "fn eq(&self, other: &Self) -> bool { "@,
        DerivedTypeEnum::Ord => "fn cmp(&self, other: &Self) -> ::core::cmp::Ordering { "@,
        DerivedTypeEnum::PartialOrd => "fn partial_cmp(&self, other: &Self) -> ::core::option::Option<::core::cmp::Ordering> { "@,
        DerivedTypeEnum::Hash => "fn hash<__H: ::core::hash::Hasher>(&self, state: &mut __H) { "@,
        DerivedTypeEnum::Debug => "fn fmt(&self, f: &mut ::core::fmt::Formatter<'_>) -> ::core::fmt::Result { "@,
        _ => Seq::empty(),
    }
}

/// The opening of the method's `match`: on the receiver, or on the pair of
/// operands for a comparison.
pub open spec fn opener(k: DerivedTypeEnum) -> Seq<char> {
    match k {
        DerivedTypeEnum::PartialEq | DerivedTypeEnum::Ord | DerivedTypeEnum::PartialOrd => "match (self, other) { "@,
        _ => "match self { "@,
    }
}

/// The signature and the opening of the `match` of the method of `k`.
pub open spec fn header(k: DerivedTypeEnum) -> Seq<char> {
    signature(k) + opener(k)
}

/// `default`, returning `expr`.
pub open spec fn default_body(expr: Seq<char>) -> Seq<char> {
    "fn default() -> Self { "@ + expr + " }"@
}

/// The arm that an enum's comparison falls back to when the variants differ.
pub open spec fn enum_fallback(k: DerivedTypeEnum, vs: Seq<Variant>) -> Seq<char> {
    match k {
        DerivedTypeEnum::PartialEq => "_ => false, "@,
        DerivedTypeEnum::Ord => "_ => "@ + rank_cmp(vs) + ", "@,
        DerivedTypeEnum::PartialOrd => "_ => ::core::option::Option::Some("@ + rank_cmp(vs) + "), "@,
        _ => Seq::empty(),
    }
}

/// The body of the impl of `k` for a struct. `Copy` and `Eq` have none.
pub open spec fn struct_body(k: DerivedTypeEnum, s: ItemStruct) -> Seq<char> {
    match k {
        DerivedTypeEnum::Copy | DerivedTypeEnum::Eq => Seq::empty(),
        DerivedTypeEnum::Default => default_body(default_expr("Self"@, s.fields)),
        _ => header(k) + arm(k, "Self"@, s.ident@, s.fields) + "} }"@,
    }
}

/// The body of the impl of `k` for an enum; `Default` builds the variant
/// marked default. An enum without variants has no value to look at: its
/// methods match on `*self` with no arm.
pub open spec fn enum_body(k: DerivedTypeEnum, e: ItemEnum) -> Seq<char> {
    let vs = e.variants@;
    match k {
        DerivedTypeEnum::Copy | DerivedTypeEnum::Eq => Seq::empty(),
        DerivedTypeEnum::Default => {
            let d = crate::model::marked_variants(vs)[0];
            default_body(default_expr(variant_path(vs[d]), vs[d].fields))
        },
        _ => if vs.len() == 0 {
            signature(k) + "match *self {} }"@
        } else {
            header(k) + enum_arms(k, vs) + enum_fallback(k, vs) + "} }"@
        },
    }
}

fn signature_text(k: DerivedTypeEnum) -> (r: &'static str)
    ensures
        r@ == signature(k),
{
    match k {
        DerivedTypeEnum::Clone => "fn clone(&self) -> Self { ",
        DerivedTypeEnum::PartialEq => "fn eq(&self, other: &Self) -> bool { ",
        DerivedTypeEnum::Ord => "fn cmp(&self, other: &Self) -> ::core::cmp::Ordering { ",
        DerivedTypeEnum::PartialOrd => "fn partial_cmp(&self, other: &Self) -> ::core::option::Option<::core::cmp::Ordering> { ",
        DerivedTypeEnum::Hash => "fn hash<__H: ::core::hash::Hasher>(&self, state: &mut __H) { ",
        DerivedTypeEnum::Debug => "fn fmt(&self, f: &mut ::core::fmt::Formatter<'_>) -> ::core::fmt::Result { ",
        _ => {
            proof {
                reveal_strlit("");
            }
            ""
        },
    }
}

fn opener_text(k: DerivedTypeEnum) -> (r: &'static str)
    ensures
        r@ == opener(k),
{
    match k {
        DerivedTypeEnum::PartialEq | DerivedTypeEnum::Ord | DerivedTypeEnum::PartialOrd => "match (self, other) { ",
        _ => "match self { ",
    }
}

/// The fallback that compares two values of different variants by their
/// declaration-order rank.
pub fn enum_cmp_lexographic(e: &ItemEnum) -> (r: String)
    ensures
        r@ == rank_cmp(e.variants@),
{
    let vs = &e.variants;
    let ghost want = Seq::new(
        vs@.len(),
        |k: int| variant_path(vs@[k]) + " { .. } => "@ + decimal(k as nat) + "usize, "@,
    );
    let mut ranks = String::new();
    let mut i: usize = 0;
    while i < vs.len()
        invariant
            i <= vs@.len(),
            want == Seq::new(
                vs@.len(),
                |k: int| variant_path(vs@[k]) + " { .. } => "@ + decimal(k as nat) + "usize, "@,
            ),
            ranks@ == Seq::<char>::empty() + concat(want.take(i as int)),
        decreases vs@.len() - i,
    {
        let mut piece = variant_path_text(&vs[i]);
        piece.append(" { .. } => ");
        piece.append(decimal_text(i).as_str());
        piece.append("usize, ");
        proof {
            lemma_concat_push(want, i as int);
        }
        ranks.append(piece.as_str());
        i = i + 1;
    }
    proof {
        lemma_concat_all(want);
        assert(ranks@ =~= rank_arms(vs@));
    }
    let mut s = String::from_str("{ let i1: usize = match self { ");
    s.append(ranks.as_str());
    s.append("}; let i2: usize = match other { ");
    s.append(ranks.as_str());
    s.append("}; ::core::cmp::Ord::cmp(&i1, &i2) }");
    s
}

/// `default`, building the shape at `root` with every field defaulted.
pub fn default_inner(fields: &Fields, root: &String) -> (r: String)
    ensures
        r@ == default_body(default_expr(root@, *fields)),
{
    let n = fields.len();
    let ghost want = Seq::new(n as nat, |i: int| "::core::default::Default::default()"@);
    let mut items: Vec<String> = Vec::new();
    let mut i: usize = 0;
    while i < n
        invariant
            i <= n,
            items@.len() == i,
            want == Seq::new(n as nat, |i: int| "::core::default::Default::default()"@),
            texts(items@) == want.take(i as int),
        decreases n - i,
    {
        let d = String::from_str("::core::default::Default::default()");
        proof {
            lemma_texts_push(items@, d);
        }
        items.push(d);
        assert(texts(items@) =~= want.take(i + 1));
        i = i + 1;
    }
    assert(want.take(n as int) =~= want);
    let mut expr = root.clone();
    expr.append(shape_text(fields, &items).as_str());
    let mut s = String::from_str("fn default() -> Self { ");
    s.append(expr.as_str());
    s.append(" }");
    s
}

/// The body of the impl of `k` for a struct.
pub fn struct_body_text(k: DerivedTypeEnum, s: &ItemStruct) -> (r: String)
    ensures
        r@ == struct_body(k, *s),
{
    let this = String::from_str("Self");
    match k {
        DerivedTypeEnum::Copy | DerivedTypeEnum::Eq => String::new(),
        DerivedTypeEnum::Default => default_inner(&s.fields, &this),
        _ => {
            let mut r = String::from_str(signature_text(k));
            r.append(opener_text(k));
            r.append(arm_text(k, &this, &s.ident, &s.fields).as_str());
            r.append("} }");
            r
        },
    }
}

/// The body of the impl of `k` for an enum; for `Default` the enum must have
/// exactly one variant marked default.
pub fn enum_body_text(k: DerivedTypeEnum, e: &ItemEnum) -> (r: String)
    requires
        k == DerivedTypeEnum::Default ==> crate::model::marked_variants(e.variants@).len() == 1,
    ensures
        r@ == enum_body(k, *e),
{
    let vs = &e.variants;
    match k {
        DerivedTypeEnum::Copy | DerivedTypeEnum::Eq => String::new(),
        DerivedTypeEnum::Default => {
            proof {
                crate::model::lemma_marked_variants_bounds(vs@);
            }
            match crate::model::default_variant(e) {
                Ok(d) => default_inner(&vs[d].fields, &variant_path_text(&vs[d])),
                // not reached: exactly one variant is marked
                Err(_) => String::new(),
            }
        },
        _ => {
            let mut r = String::from_str(signature_text(k));
            if vs.len() == 0 {
                r.append("match *self {} }");
                return r;
            }
            r.append(opener_text(k));
            append_enum_arms(&mut r, k, vs);
            if k == DerivedTypeEnum::PartialEq {
                r.append("_ => false, ");
            } else if k == DerivedTypeEnum::Ord {
                let mut fb = String::from_str("_ => ");
                fb.append(enum_cmp_lexographic(e).as_str());
                fb.append(", ");
                r.append(fb.as_str());
            } else if k == DerivedTypeEnum::PartialOrd {
                let mut fb = String::from_str("_ => ::core::option::Option::Some(");
                fb.append(enum_cmp_lexographic(e).as_str());
                fb.append("), ");
                r.append(fb.as_str());
            }
            r.append("} }");
            r
        },
    }
}

} // verus!
