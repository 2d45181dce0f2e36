//! The declaration written back out, ahead of the generated impls.
use vstd::prelude::*;
use crate::driver::{optional, param_impl, where_items};
use crate::model::{Attribute, Field, Fields, GenericParam, Generics, ItemEnum, ItemStruct, StructOrEnum, Variant};
use crate::text::{concat, lemma_concat_all, lemma_concat_push, texts};

verus! {

/// The attributes, each followed by a space.
pub open spec fn attrs_text(attrs: Seq<Attribute>) -> Seq<char> {
    concat(Seq::new(attrs.len(), |i: int| attrs[i].text@ + " "@))
}

/// A field as declared: attributes, visibility, name (if named) and type.
pub open spec fn field_decl(f: Field, named: bool) -> Seq<char> {
    f.attrs@ + " "@ + f.vis@ + " "@ + (if named {
        f.ident@ + ": "@
    } else {
        Seq::empty()
    }) + f.ty@ + ", "@
}

/// A field list as declared.
pub open spec fn fields_decl(f: Fields) -> Seq<char> {
    match f {
        Fields::Named(v) => " { "@ + concat(Seq::new(v@.len(), |i: int| field_decl(v@[i], true)))
            + "}"@,
        Fields::Unnamed(v) => "("@ + concat(Seq::new(v@.len(), |i: int| field_decl(v@[i], false)))
            + ")"@,
        Fields::Unit => Seq::empty(),
    }
}

/// A generic parameter as declared, default included.
pub open spec fn param_decl(p: GenericParam) -> Seq<char> {
    p.attrs@ + " "@ + param_impl(p) + optional(" = "@, p.default@)
}

pub open spec fn params_decl(ps: Seq<GenericParam>) -> Seq<char> {
    "<"@ + concat(Seq::new(ps.len(), |i: int| param_decl(ps[i]) + ", "@)) + ">"@
}

/// The declaration's own where-clause, if it has one.
pub open spec fn own_where(g: Generics) -> Seq<char> {
    match g.where_clause {
        Some(c) => " where "@ + where_items(texts(c.predicates@)),
        None => Seq::empty(),
    }
}

pub open spec fn variant_decl(v: Variant) -> Seq<char> {
    attrs_text(v.attrs@) + v.ident@ + fields_decl(v.fields) + optional(" = "@, v.discriminant@)
        + ", "@
}

pub open spec fn struct_decl(s: ItemStruct) -> Seq<char> {
    let head = s.attrs@ + " "@ + s.vis@ + " struct "@ + s.ident@ + params_decl(s.generics.params@);
    match s.fields {
        Fields::Named(_) => head + own_where(s.generics) + fields_decl(s.fields),
        Fields::Unnamed(_) => head + fields_decl(s.fields) + own_where(s.generics) + ";"@,
        Fields::Unit => head + own_where(s.generics) + ";"@,
    }
}

pub open spec fn enum_decl(e: ItemEnum) -> Seq<char> {
    e.attrs@ + " "@ + e.vis@ + " enum "@ + e.ident@ + params_decl(e.generics.params@) + own_where(
        e.generics,
    ) + " { "@ + concat(Seq::new(e.variants@.len(), |i: int| variant_decl(e.variants@[i]))) + "}"@
}

pub open spec fn decl_text(obj: StructOrEnum) -> Seq<char> {
    match obj {
        StructOrEnum::Struct(s) => struct_decl(s),
        StructOrEnum::Enum(e) => enum_decl(e),
    }
}

fn optional_text(prefix: &str, s: &String) -> (r: String)
    ensures
        r@ == optional(prefix@, s@),
{
    if s.as_str().unicode_len() == 0 {
        String::new()
    } else {
        let mut r = String::from_str(prefix);
        r.append(s.as_str());
        r
    }
}

fn attrs_text_of(attrs: &Vec<Attribute>) -> (r: String)
    ensures
        r@ == attrs_text(attrs@),
{
    let ghost want = Seq::new(attrs@.len(), |i: int| attrs@[i].text@ + " "@);
    let mut s = String::new();
    let mut i: usize = 0;
    while i < attrs.len()
        invariant
            i <= attrs@.len(),
            want == Seq::new(attrs@.len(), |i: int| attrs@[i].text@ + " "@),
            s@ == concat(want.take(i as int)),
        decreases attrs@.len() - i,
    {
        let mut piece = attrs[i].text.clone();
        piece.append(" ");
        proof {
            lemma_concat_push(want, i as int);
        }
        s.append(piece.as_str());
        i = i + 1;
    }
    proof {
        lemma_concat_all(want);
    }
    s
}

fn field_decl_text(f: &Field, named: bool) -> (r: String)
    ensures
        r@ == field_decl(*f, named),
{
    let mut s = f.attrs.clone();
    s.append(" ");
    s.append(f.vis.as_str());
    s.append(" ");
    let name = if named {
        let mut n = f.ident.clone();
        n.append(": ");
        n
    } else {
        String::new()
    };
    s.append(name.as_str());
    s.append(f.ty.as_str());
    s.append(", ");
    s
}

fn field_list_decl_text(v: &Vec<Field>, named: bool) -> (r: String)
    ensures
        r@ == concat(Seq::new(v@.len(), |i: int| field_decl(v@[i], named))),
{
    let ghost want = Seq::new(v@.len(), |i: int| field_decl(v@[i], named));
    let mut s = String::new();
    let mut i: usize = 0;
    while i < v.len()
        invariant
            i <= v@.len(),
            want == Seq::new(v@.len(), |i: int| field_decl(v@[i], named)),
            s@ == concat(want.take(i as int)),
        decreases v@.len() - i,
    {
        proof {
            lemma_concat_push(want, i as int);
        }
        s.append(field_decl_text(&v[i], named).as_str());
        i = i + 1;
    }
    proof {
        lemma_concat_all(want);
    }
    s
}

fn fields_decl_text(f: &Fields) -> (r: String)
    ensures
        r@ == fields_decl(*f),
{
    match f {
        Fields::Named(v) => {
            let mut s = String::from_str(" { ");
            s.append(field_list_decl_text(v, true).as_str());
            s.append("}");
            s
        },
        Fields::Unnamed(v) => {
            let mut s = String::from_str("(");
            s.append(field_list_decl_text(v, false).as_str());
            s.append(")");
            s
        },
        Fields::Unit => String::new(),
    }
}

fn params_decl_text(ps: &Vec<GenericParam>) -> (r: String)
    ensures
        r@ == params_decl(ps@),
{
    let ghost want = Seq::new(ps@.len(), |i: int| param_decl(ps@[i]) + ", "@);
    let mut s = String::from_str("<");
    let mut i: usize = 0;
    while i < ps.len()
        invariant
            i <= ps@.len(),
            want == Seq::new(ps@.len(), |i: int| param_decl(ps@[i]) + ", "@),
            s@ == "<"@ + concat(want.take(i as int)),
        decreases ps@.len() - i,
    {
        let p = &ps[i];
        let mut piece = p.attrs.clone();
        piece.append(" ");
        piece.append(crate::driver::param_impl_text(p).as_str());
        piece.append(optional_text(" = ", &p.default).as_str());
        piece.append(", ");
        proof {
            lemma_concat_push(want, i as int);
        }
        s.append(piece.as_str());
        i = i + 1;
    }
    proof {
        lemma_concat_all(want);
    }
    s.append(">");
    s
}

fn own_where_text(g: &Generics) -> (r: String)
    ensures
        r@ == own_where(*g),
{
    match &g.where_clause {
        Some(c) => {
            let mut s = String::from_str(" where ");
            s.append(crate::driver::where_items_text(&c.predicates).as_str());
            s
        },
        None => String::new(),
    }
}

fn variant_decl_text(v: &Variant) -> (r: String)
    ensures
        r@ == variant_decl(*v),
{
    let mut s = attrs_text_of(&v.attrs);
    s.append(v.ident.as_str());
    s.append(fields_decl_text(&v.fields).as_str());
    s.append(optional_text(" = ", &v.discriminant).as_str());
    s.append(", ");
    s
}

impl StructOrEnum {
    /// The declaration as source text.
    pub fn to_text(&self) -> (r: String)
        ensures
            r@ == decl_text(*self),
    {
        match self {
            StructOrEnum::Struct(s) => {
                let mut r = s.attrs.clone();
                r.append(" ");
                r.append(s.vis.as_str());
                r.append(" struct ");
                r.append(s.ident.as_str());
                r.append(params_decl_text(&s.generics.params).as_str());
                match &s.fields {
                    Fields::Named(_) => {
                        r.append(own_where_text(&s.generics).as_str());
                        r.append(fields_decl_text(&s.fields).as_str());
                    },
                    Fields::Unnamed(_) => {
                        r.append(fields_decl_text(&s.fields).as_str());
                        r.append(own_where_text(&s.generics).as_str());
                        r.append(";");
                    },
                    Fields::Unit => {
                        r.append(own_where_text(&s.generics).as_str());
                        r.append(";");
                    },
                }
                r
            },
            StructOrEnum::Enum(e) => {
                let mut r = e.attrs.clone();
                r.append(" ");
                r.append(e.vis.as_str());
                r.append(" enum ");
                r.append(e.ident.as_str());
                r.append(params_decl_text(&e.generics.params).as_str());
                r.append(own_where_text(&e.generics).as_str());
                r.append(" { ");
                let vs = &e.variants;
                let ghost want = Seq::new(vs@.len(), |i: int| variant_decl(vs@[i]));
                let mut body = String::new();
                let mut i: usize = 0;
                while i < vs.len()
                    invariant
                        i <= vs@.len(),
                        want == Seq::new(vs@.len(), |i: int| variant_decl(vs@[i])),
                        body@ == concat(want.take(i as int)),
                    decreases vs@.len() - i,
                {
                    proof {
                        lemma_concat_push(want, i as int);
                    }
                    body.append(variant_decl_text(&vs[i]).as_str());
                    i = i + 1;
                }
                proof {
                    lemma_concat_all(want);
                }
                r.append(body.as_str());
                r.append("}");
                r
            },
        }
    }
}

} // verus!
