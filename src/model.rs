//! The parsed declaration that the impls are generated for: a struct or an
//! enum, its generics, its fields and variants, and the `default` marker on
//! enum variants.
use vstd::prelude::*;
use crate::text::concat;

verus! {

/// One segment of an attribute's path.
pub struct PathSegment {
    pub ident: String,
    pub has_arguments: bool,
}

/// An attribute: its style, its path and its whole source text.
pub struct Attribute {
    pub outer: bool,
    pub leading_colon: bool,
    pub segments: Vec<PathSegment>,
    pub text: String,
}

/// A field: the text of its attributes and visibility, its name (empty for a
/// positional field) and its declared type.
pub struct Field {
    pub attrs: String,
    pub vis: String,
    pub ident: String,
    pub ty: String,
}

/// The three shapes of a field list.
pub enum Fields {
    Named(Vec<Field>),
    Unnamed(Vec<Field>),
    Unit,
}

/// An enum variant; `discriminant` is the text after `=`, or empty.
pub struct Variant {
    pub attrs: Vec<Attribute>,
    pub ident: String,
    pub fields: Fields,
    pub discriminant: String,
}

/// The three kinds of generic parameter.
#[derive(PartialEq, Eq, Structural, Copy, Clone, Debug)]
pub enum ParamKind {
    Type,
    Lifetime,
    Const,
}

/// A generic parameter: `name` is the identifier or the lifetime, `bounds`
/// the text after `:` (a const parameter's type), `default` the text after
/// `=`; either may be empty.
pub struct GenericParam {
    pub kind: ParamKind,
    pub attrs: String,
    pub name: String,
    pub bounds: String,
    pub default: String,
}

/// A where-clause: the location of its `where` keyword and its predicates.
pub struct WhereClause {
    pub where_token: proc_macro2::Span,
    pub predicates: Vec<String>,
}

/// Generic parameters and the where-clause, if there is one.
pub struct Generics {
    pub params: Vec<GenericParam>,
    pub where_clause: Option<WhereClause>,
}

pub struct ItemStruct {
    pub attrs: String,
    pub vis: String,
    pub ident: String,
    pub generics: Generics,
    pub fields: Fields,
}

pub struct ItemEnum {
    pub attrs: String,
    pub vis: String,
    pub ident: String,
    pub generics: Generics,
    pub variants: Vec<Variant>,
}

/// The declaration that the traits are derived for.
pub enum StructOrEnum {
    Struct(ItemStruct),
    Enum(ItemEnum),
}

/// The fields of a field list, in declaration order.
pub open spec fn field_list(f: Fields) -> Seq<Field> {
    match f {
        Fields::Named(v) => v@,
        Fields::Unnamed(v) => v@,
        Fields::Unit => Seq::empty(),
    }
}

/// The declared types of a field list, in declaration order.
pub open spec fn field_types(f: Fields) -> Seq<Seq<char>> {
    field_list(f).map_values(|x: Field| x.ty@)
}

impl Fields {
    pub fn len(&self) -> (r: usize)
        ensures
            r == field_list(*self).len(),
    {
        match self {
            Fields::Named(v) => v.len(),
            Fields::Unnamed(v) => v.len(),
            Fields::Unit => 0,
        }
    }
}

/// An attribute is the `default` marker when it is exactly `#[default]`:
/// outer, one segment named `default`, without arguments or leading `::`.
pub open spec fn is_default_marker(a: Attribute) -> bool {
    &&& a.outer
    &&& !a.leading_colon
    &&& a.segments@.len() == 1
    &&& a.segments@[0].ident@ == "default"@
    &&& !a.segments@[0].has_arguments
}

/// Whether a variant carries the `default` marker.
pub open spec fn is_marked(v: Variant) -> bool {
    exists|i: int| 0 <= i < v.attrs@.len() && is_default_marker(#[trigger] v.attrs@[i])
}

/// The positions of the variants that carry the `default` marker, in order.
pub open spec fn marked_variants(vs: Seq<Variant>) -> Seq<int>
    decreases vs.len(),
{
    if vs.len() == 0 {
        Seq::empty()
    } else if is_marked(vs.last()) {
        marked_variants(vs.drop_last()).push(vs.len() - 1)
    } else {
        marked_variants(vs.drop_last())
    }
}

/// The attributes that are not `default` markers, in order.
pub open spec fn non_markers(attrs: Seq<Attribute>) -> Seq<Attribute> {
    attrs.filter(|a: Attribute| !is_default_marker(a))
}

pub proof fn lemma_marked_variants_bounds(vs: Seq<Variant>)
    ensures
        forall|j: int|
            0 <= j < marked_variants(vs).len() ==> 0 <= #[trigger] marked_variants(vs)[j]
                < vs.len() && is_marked(vs[marked_variants(vs)[j]]),
        forall|k: int| 0 <= k < vs.len() && is_marked(#[trigger] vs[k]) ==> marked_variants(vs).contains(k),
    decreases vs.len(),
{
    if vs.len() > 0 {
        let rest = vs.drop_last();
        lemma_marked_variants_bounds(rest);
        assert forall|k: int| 0 <= k < vs.len() && is_marked(#[trigger] vs[k]) implies marked_variants(vs).contains(k) by {
            if k < vs.len() - 1 {
                assert(rest[k] == vs[k]);
                let j = choose|j: int| 0 <= j < marked_variants(rest).len() && marked_variants(rest)[j] == k;
                assert(marked_variants(vs)[j] == k);
            } else {
                assert(marked_variants(vs).last() == k);
            }
        }
    }
}

/// Whether `a` is exactly `#[default]`.
pub fn is_attribute_default(a: &Attribute) -> (r: bool)
    ensures
        r == is_default_marker(*a),
{
    if !a.outer || a.leading_colon || a.segments.len() != 1 {
        return false;
    }
    let seg = &a.segments[0];
    crate::catalog::same_text(seg.ident.as_str(), "default") && !seg.has_arguments
}

/// The position of the first `default` marker among `attrs`, if any.
fn first_marker(attrs: &Vec<Attribute>) -> (r: Option<usize>)
    ensures
        r matches Some(i) ==> i < attrs@.len() && is_default_marker(attrs@[i as int]) && forall|j: int|
            0 <= j < i ==> !is_default_marker(#[trigger] attrs@[j]),
        r is None ==> forall|j: int| 0 <= j < attrs@.len() ==> !is_default_marker(#[trigger] attrs@[j]),
{
    let mut i: usize = 0;
    while i < attrs.len()
        invariant
            i <= attrs@.len(),
            forall|j: int| 0 <= j < i ==> !is_default_marker(#[trigger] attrs@[j]),
        decreases attrs@.len() - i,
    {
        if is_attribute_default(&attrs[i]) {
            return Some(i);
        }
        i = i + 1;
    }
    None
}

/// Removes every `default` marker from `attrs`, keeping the order of the rest.
fn strip_markers(attrs: &mut Vec<Attribute>)
    ensures
        final(attrs)@ == non_markers(old(attrs)@),
{
    let ghost orig = attrs@;
    let ghost mut p: int = 0;
    let mut j: usize = 0;
    while j < attrs.len()
        invariant
            0 <= p <= orig.len(),
            j == non_markers(orig.take(p)).len(),
            attrs@ == non_markers(orig.take(p)) + orig.skip(p),
        decreases attrs@.len() - j,
    {
        proof {
            assert(orig.take(p + 1) =~= orig.take(p).push(orig[p]));
            orig.take(p).lemma_filter_push(orig[p], |a: Attribute| !is_default_marker(a));
            assert(attrs@[j as int] == orig[p]);
        }
        if is_attribute_default(&attrs[j]) {
            attrs.remove(j);
        } else {
            j = j + 1;
        }
        proof {
            p = p + 1;
            assert(attrs@ =~= non_markers(orig.take(p)) + orig.skip(p));
        }
    }
    proof {
        assert(orig.skip(p).len() == 0);
        assert(orig.take(p) =~= orig);
        assert(attrs@ =~= non_markers(orig));
    }
}

/// Finds the one variant marked `default`: its position, or the error when
/// none or several are marked.
pub fn default_variant(e: &ItemEnum) -> (r: Result<usize, crate::catalog::DeriveError>)
    ensures
        r matches Ok(k) ==> marked_variants(e.variants@) == seq![k as int],
        r matches Err(err) ==> (err is MissingDefaultVariant <==> marked_variants(e.variants@).len() == 0)
            && (err is MultipleDefaultVariants <==> marked_variants(e.variants@).len() > 1),
        r is Ok <==> marked_variants(e.variants@).len() == 1,
{
    let mut found: Vec<usize> = Vec::new();
    let mut i: usize = 0;
    while i < e.variants.len()
        invariant
            i <= e.variants@.len(),
            found@.map_values(|k: usize| k as int) == marked_variants(e.variants@.take(i as int)),
        decreases e.variants@.len() - i,
    {
        let ghost before = e.variants@.take(i as int);
        assert(e.variants@.take(i + 1).drop_last() =~= before);
        let marked = first_marker(&e.variants[i].attrs).is_some();
        proof {
            let v = e.variants@[i as int];
            if !marked {
                assert(!is_marked(v));
            } else {
                assert(is_marked(v));
            }
        }
        if marked {
            found.push(i);
            assert(found@.map_values(|k: usize| k as int) =~= marked_variants(before).push(i as int));
        }
        i = i + 1;
    }
    assert(e.variants@.take(e.variants@.len() as int) =~= e.variants@);
    if found.len() == 0 {
        Err(crate::catalog::DeriveError::MissingDefaultVariant)
    } else if found.len() > 1 {
        Err(crate::catalog::DeriveError::MultipleDefaultVariants)
    } else {
        let k = found[0];
        assert(marked_variants(e.variants@) =~= seq![k as int]);
        Ok(k)
    }
}

/// `after` is `before` with every `default` marker taken out, and nothing else changed.
pub open spec fn variant_stripped(before: Variant, after: Variant) -> bool {
    &&& after.ident == before.ident
    &&& after.fields == before.fields
    &&& after.discriminant == before.discriminant
    &&& after.attrs@ == non_markers(before.attrs@)
}

/// `after` is `before` with every `default` marker of every enum variant
/// taken out; a struct stays as it is.
pub open spec fn markers_removed(before: StructOrEnum, after: StructOrEnum) -> bool {
    match before {
        StructOrEnum::Struct(_) => after == before,
        StructOrEnum::Enum(e) => after matches StructOrEnum::Enum(f) && f.attrs == e.attrs && f.vis
            == e.vis && f.ident == e.ident && f.generics == e.generics && f.variants@.len()
            == e.variants@.len() && forall|k: int|
            0 <= k < e.variants@.len() ==> variant_stripped(#[trigger] e.variants@[k], f.variants@[k]),
    }
}

/// Takes every `default` marker off every variant of an enum; a struct is
/// left as it is.
pub fn remove_debug_markers(obj: &mut StructOrEnum)
    ensures
        markers_removed(*old(obj), *final(obj)),
{
    match obj {
        StructOrEnum::Struct(_) => {},
        StructOrEnum::Enum(e) => {
            let ghost e0 = *e;
            let ghost before = e.variants@;
            let mut i: usize = 0;
            while i < e.variants.len()
                invariant
                    i <= e.variants@.len(),
                    e.attrs == e0.attrs && e.vis == e0.vis && e.ident == e0.ident,
                    e.generics == e0.generics,
                    e.variants@.len() == before.len(),
                    forall|k: int| 0 <= k < i ==> variant_stripped(#[trigger] before[k], e.variants@[k]),
                    forall|k: int| i <= k < before.len() ==> #[trigger] e.variants@[k] == before[k],
                decreases before.len() - i,
            {
                strip_markers(&mut e.variants[i].attrs);
                i = i + 1;
            }
        },
    }
}

impl StructOrEnum {
    pub open spec fn spec_ident(&self) -> Seq<char> {
        match self {
            StructOrEnum::Struct(s) => s.ident@,
            StructOrEnum::Enum(e) => e.ident@,
        }
    }

    pub open spec fn spec_generics(&self) -> Generics {
        match self {
            StructOrEnum::Struct(s) => s.generics,
            StructOrEnum::Enum(e) => e.generics,
        }
    }

    /// The declared name.
    pub fn ident(&self) -> (r: String)
        ensures
            r@ == self.spec_ident(),
    {
        match self {
            StructOrEnum::Struct(s) => s.ident.clone(),
            StructOrEnum::Enum(e) => e.ident.clone(),
        }
    }

    /// The generic parameters and where-clause.
    pub fn generics(&self) -> (r: &Generics)
        ensures
            *r == self.spec_generics(),
    {
        match self {
            StructOrEnum::Struct(s) => &s.generics,
            StructOrEnum::Enum(e) => &e.generics,
        }
    }
}

} // verus!
