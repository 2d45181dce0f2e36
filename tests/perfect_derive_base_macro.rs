use perfect_derive::catalog::{DeriveError, DerivedList, DerivedTypeEnum};
use perfect_derive::driver::{impl_traits, Piece};
use perfect_derive::model::{
    Attribute, Field, Fields, GenericParam, Generics, ItemEnum, ItemStruct, ParamKind, PathSegment,
    StructOrEnum, Variant, WhereClause,
};
use proc_macro2::Span;

fn joined(pieces: &[Piece]) -> String {
    pieces.iter().map(|p| p.text.as_str()).collect()
}

const EVERYTHING: [&str; 9] = [
    "Copy", "Clone", "Ord", "Eq", "PartialOrd", "PartialEq", "Debug", "Hash", "Default",
];

fn field(name: &str, ty: &str) -> Field {
    Field {
        attrs: String::new(),
        vis: String::new(),
        ident: name.to_string(),
        ty: ty.to_string(),
    }
}

fn named(fields: &[(&str, &str)]) -> Fields {
    Fields::Named(fields.iter().map(|(n, t)| field(n, t)).collect())
}

fn unnamed(types: &[&str]) -> Fields {
    Fields::Unnamed(types.iter().map(|t| field("", t)).collect())
}

fn no_generics() -> Generics {
    Generics { params: vec![], where_clause: None }
}

fn plain_struct(name: &str, fields: Fields) -> StructOrEnum {
    StructOrEnum::Struct(ItemStruct {
        attrs: String::new(),
        vis: String::new(),
        ident: name.to_string(),
        generics: no_generics(),
        fields,
    })
}

fn default_marker() -> Attribute {
    Attribute {
        outer: true,
        leading_colon: false,
        segments: vec![PathSegment { ident: "default".to_string(), has_arguments: false }],
        text: "#[default]".to_string(),
    }
}

fn variant(name: &str, fields: Fields, marked: bool) -> Variant {
    Variant {
        attrs: if marked { vec![default_marker()] } else { vec![] },
        ident: name.to_string(),
        fields,
        discriminant: String::new(),
    }
}

fn plain_enum(name: &str, variants: Vec<Variant>) -> StructOrEnum {
    StructOrEnum::Enum(ItemEnum {
        attrs: String::new(),
        vis: String::new(),
        ident: name.to_string(),
        generics: no_generics(),
        variants,
    })
}

fn request(names: &[&str]) -> DerivedList {
    let items: Vec<(String, Span)> =
        names.iter().map(|n| (n.to_string(), Span::call_site())).collect();
    match DerivedList::parse(&items) {
        Ok(l) => l,
        Err(_) => panic!("request refused"),
    }
}

fn expand(names: &[&str], obj: StructOrEnum) -> String {
    match impl_traits(request(names), obj) {
        Ok(pieces) => {
            let out = joined(&pieces);
            assert!(syn::parse_file(&out).is_ok(), "not Rust: {out}");
            out
        }
        Err(_) => panic!("expansion refused"),
    }
}

fn everything_struct() -> StructOrEnum {
    plain_struct("EverythingStruct", named(&[("v1", "usize"), ("v2", "i32")]))
}

fn everything_enum() -> StructOrEnum {
    plain_enum(
        "EverythingEnum",
        vec![
            variant("E1", Fields::Unit, true),
            variant("E2", unnamed(&[]), false),
            variant("E3", unnamed(&["usize", "usize"]), false),
            variant("E4", unnamed(&["u32", "()"]), false),
            variant("E5", named(&[("name1", "u32"), ("name2", "()")]), false),
        ],
    )
}

const ENUM_RANKS: &str = "Self::E1 { .. } => 0usize, Self::E2 { .. } => 1usize, Self::E3 { .. } => 2usize, Self::E4 { .. } => 3usize, Self::E5 { .. } => 4usize, ";

#[test]
fn struct_eq_matches() {
    let out = expand(&EVERYTHING, everything_struct());
    assert!(out.contains("impl<> PartialEq for EverythingStruct<> where usize: PartialEq, i32: PartialEq,  { fn eq(&self, other: &Self) -> bool { match (self, other) { (Self { v1: u0, v2: u1, }, Self { v1: v0, v2: v1, }) => true && ::core::cmp::PartialEq::eq(u0, v0) && ::core::cmp::PartialEq::eq(u1, v1), } } } "));
    assert!(out.contains("impl<> Eq for EverythingStruct<> where usize: Eq, i32: Eq,  {  } "));
    assert!(out.starts_with("  struct EverythingStruct<> {   v1: usize,   v2: i32, }"));
}

#[test]
fn struct_ord_matches() {
    let out = expand(&EVERYTHING, everything_struct());
    assert!(out.contains("impl<> Ord for EverythingStruct<> where usize: Ord, i32: Ord,  { fn cmp(&self, other: &Self) -> ::core::cmp::Ordering { match (self, other) { (Self { v1: u0, v2: u1, }, Self { v1: v0, v2: v1, }) => ::core::cmp::Ordering::Equal.then(::core::cmp::Ord::cmp(u0, v0)).then(::core::cmp::Ord::cmp(u1, v1)), } } } "));
}

#[test]
fn struct_partial_ord_matches() {
    let out = expand(&EVERYTHING, everything_struct());
    assert!(out.contains("impl<> PartialOrd for EverythingStruct<> where usize: PartialOrd, i32: PartialOrd,  { fn partial_cmp(&self, other: &Self) -> ::core::option::Option<::core::cmp::Ordering> { match (self, other) { (Self { v1: u0, v2: u1, }, Self { v1: v0, v2: v1, }) => ::core::option::Option::Some(::core::cmp::Ordering::Equal).and_then(|o| ::core::cmp::PartialOrd::partial_cmp(u0, v0).map(|x| o.then(x))).and_then(|o| ::core::cmp::PartialOrd::partial_cmp(u1, v1).map(|x| o.then(x))), } } } "));
}

#[test]
fn struct_hash_matches() {
    let out = expand(&EVERYTHING, everything_struct());
    assert!(out.contains("impl<> std::hash::Hash for EverythingStruct<> where usize: std::hash::Hash, i32: std::hash::Hash,  { fn hash<__H: ::core::hash::Hasher>(&self, state: &mut __H) { match self { Self { v1: v0, v2: v1, } => { ::core::hash::Hash::hash(v0, state); ::core::hash::Hash::hash(v1, state); }, } } } "));
}

#[test]
fn enum_eq_matches() {
    let out = expand(&EVERYTHING, everything_enum());
    assert!(out.contains("fn eq(&self, other: &Self) -> bool { match (self, other) { (Self::E1, Self::E1) => true, (Self::E2(), Self::E2()) => true, (Self::E3(u0, u1, ), Self::E3(v0, v1, )) => true && ::core::cmp::PartialEq::eq(u0, v0) && ::core::cmp::PartialEq::eq(u1, v1), (Self::E4(u0, u1, ), Self::E4(v0, v1, )) => true && ::core::cmp::PartialEq::eq(u0, v0) && ::core::cmp::PartialEq::eq(u1, v1), (Self::E5 { name1: u0, name2: u1, }, Self::E5 { name1: v0, name2: v1, }) => true && ::core::cmp::PartialEq::eq(u0, v0) && ::core::cmp::PartialEq::eq(u1, v1), _ => false, } }"));
    assert!(out.contains("where usize: PartialEq, usize: PartialEq, u32: PartialEq, (): PartialEq, u32: PartialEq, (): PartialEq,  {"));
}

#[test]
fn enum_ord_matches() {
    let out = expand(&EVERYTHING, everything_enum());
    let fallback = format!("_ => {{ let i1: usize = match self {{ {ENUM_RANKS}}}; let i2: usize = match other {{ {ENUM_RANKS}}}; ::core::cmp::Ord::cmp(&i1, &i2) }}, }} }}");
    assert!(out.contains(&fallback));
    assert!(out.contains("(Self::E3(u0, u1, ), Self::E3(v0, v1, )) => ::core::cmp::Ordering::Equal.then(::core::cmp::Ord::cmp(u0, v0)).then(::core::cmp::Ord::cmp(u1, v1)), "));
}

#[test]
fn enum_partial_ord_matches() {
    let out = expand(&EVERYTHING, everything_enum());
    let fallback = format!("_ => ::core::option::Option::Some({{ let i1: usize = match self {{ {ENUM_RANKS}}}; let i2: usize = match other {{ {ENUM_RANKS}}}; ::core::cmp::Ord::cmp(&i1, &i2) }}), }} }}");
    assert!(out.contains(&fallback));
    assert!(out.contains("(Self::E1, Self::E1) => ::core::option::Option::Some(::core::cmp::Ordering::Equal), "));
}

#[test]
fn enum_hash_matches() {
    let out = expand(&EVERYTHING, everything_enum());
    assert!(out.contains("fn hash<__H: ::core::hash::Hasher>(&self, state: &mut __H) { match self { Self::E1 => { }, Self::E2() => { }, Self::E3(v0, v1, ) => { ::core::hash::Hash::hash(v0, state); ::core::hash::Hash::hash(v1, state); }, "));
}

#[test]
pub fn copy_struct_eq() {
    let out = expand(&["Copy", "Clone", "PartialEq"], everything_struct());
    assert!(out.contains("impl<> Copy for EverythingStruct<> where usize: Copy, i32: Copy,  {  } "));
    assert!(out.contains("impl<> Clone for EverythingStruct<> where usize: Clone, i32: Clone,  { fn clone(&self) -> Self { match self { Self { v1: v0, v2: v1, } => Self { v1: ::core::clone::Clone::clone(v0), v2: ::core::clone::Clone::clone(v1), }, } } } "));
}

#[test]
pub fn copy_unit_enum_eq() {
    let out = expand(&EVERYTHING, everything_enum());
    assert!(out.contains("impl<> Copy for EverythingEnum<> where usize: Copy, usize: Copy, u32: Copy, (): Copy, u32: Copy, (): Copy,  {  } "));
    assert!(out.contains("Self::E1 => Self::E1, "));
}

#[test]
pub fn copy_full_enum_eq() {
    let out = expand(&EVERYTHING, everything_enum());
    assert!(out.contains("Self::E4(v0, v1, ) => Self::E4(::core::clone::Clone::clone(v0), ::core::clone::Clone::clone(v1), ), "));
}

#[test]
pub fn defaultable_enum_is_default() {
    let obj = plain_enum(
        "DefaultableEnum",
        vec![
            variant("E1", unnamed(&["NonDefaultable"]), false),
            variant("E2", Fields::Unit, true),
        ],
    );
    let out = expand(&["Default"], obj);
    assert!(out.contains("impl<> Default for DefaultableEnum<> where  { fn default() -> Self { Self::E2 } } "));
    assert!(!out.contains("NonDefaultable: Default"));
    assert!(!out.contains("#[default]"));
}

fn pord_named_struct() -> StructOrEnum {
    plain_struct("PordNamedStruct", named(&[("v1", "f32"), ("v2", "f32")]))
}

fn pord_unnamed_struct() -> StructOrEnum {
    plain_struct("PordUnnamedStruct", unnamed(&["f64", "f64"]))
}

fn pord_named_enum() -> StructOrEnum {
    plain_enum(
        "PordNamedEnum",
        vec![
            variant("V1", named(&[("v1", "f32"), ("v2", "f32")]), false),
            variant("V2", Fields::Unit, true),
        ],
    )
}

fn pord_unnamed_enum() -> StructOrEnum {
    plain_enum(
        "PordUnnamedEnum",
        vec![variant("V1", unnamed(&["f64", "f64"]), false), variant("V2", Fields::Unit, true)],
    )
}

const FLOAT_TRAITS: [&str; 6] = ["Copy", "Clone", "PartialOrd", "PartialEq", "Debug", "Default"];

#[test]
fn float_named_struct_partial_ord_matches() {
    let out = expand(&FLOAT_TRAITS, pord_named_struct());
    assert!(out.contains("(Self { v1: u0, v2: u1, }, Self { v1: v0, v2: v1, }) => ::core::option::Option::Some(::core::cmp::Ordering::Equal).and_then(|o| ::core::cmp::PartialOrd::partial_cmp(u0, v0).map(|x| o.then(x))).and_then(|o| ::core::cmp::PartialOrd::partial_cmp(u1, v1).map(|x| o.then(x))), "));
    assert!(out.contains("where f32: PartialOrd, f32: PartialOrd,  {"));
}

#[test]
fn float_named_struct_partial_eq_matches() {
    let out = expand(&FLOAT_TRAITS, pord_named_struct());
    assert!(out.contains("(Self { v1: u0, v2: u1, }, Self { v1: v0, v2: v1, }) => true && ::core::cmp::PartialEq::eq(u0, v0) && ::core::cmp::PartialEq::eq(u1, v1), "));
}

#[test]
fn float_named_struct_debug_matches() {
    let out = expand(&FLOAT_TRAITS, pord_named_struct());
    assert!(out.contains("impl<> std::fmt::Debug for PordNamedStruct<> where f32: std::fmt::Debug, f32: std::fmt::Debug,  { fn fmt(&self, f: &mut ::core::fmt::Formatter<'_>) -> ::core::fmt::Result { match self { Self { v1: v0, v2: v1, } => f.debug_struct(\"PordNamedStruct\").field(\"v1\", v0).field(\"v2\", v1).finish(), } } } "));
    assert!(out.contains("fn default() -> Self { Self { v1: ::core::default::Default::default(), v2: ::core::default::Default::default(), } }"));
}

#[test]
fn float_unnamed_struct_partial_ord_matches() {
    let out = expand(&FLOAT_TRAITS, pord_unnamed_struct());
    assert!(out.contains("(Self(u0, u1, ), Self(v0, v1, )) => ::core::option::Option::Some(::core::cmp::Ordering::Equal).and_then(|o| ::core::cmp::PartialOrd::partial_cmp(u0, v0).map(|x| o.then(x))).and_then(|o| ::core::cmp::PartialOrd::partial_cmp(u1, v1).map(|x| o.then(x))), "));
}

#[test]
fn float_unnamed_struct_partial_eq_matches() {
    let out = expand(&FLOAT_TRAITS, pord_unnamed_struct());
    assert!(out.contains("(Self(u0, u1, ), Self(v0, v1, )) => true && ::core::cmp::PartialEq::eq(u0, v0) && ::core::cmp::PartialEq::eq(u1, v1), "));
}

#[test]
fn float_unnamed_struct_debug_matches() {
    let out = expand(&FLOAT_TRAITS, pord_unnamed_struct());
    assert!(out.contains("Self(v0, v1, ) => f.debug_tuple(\"PordUnnamedStruct\").field(v0).field(v1).finish(), "));
    assert!(out.contains("fn default() -> Self { Self(::core::default::Default::default(), ::core::default::Default::default(), ) }"));
}

#[test]
fn float_named_enum_partial_ord_matches() {
    let out = expand(&FLOAT_TRAITS, pord_named_enum());
    assert!(out.contains("(Self::V1 { v1: u0, v2: u1, }, Self::V1 { v1: v0, v2: v1, }) => ::core::option::Option::Some(::core::cmp::Ordering::Equal).and_then(|o| ::core::cmp::PartialOrd::partial_cmp(u0, v0).map(|x| o.then(x))).and_then(|o| ::core::cmp::PartialOrd::partial_cmp(u1, v1).map(|x| o.then(x))), (Self::V2, Self::V2) => ::core::option::Option::Some(::core::cmp::Ordering::Equal), _ => ::core::option::Option::Some({ let i1: usize = match self { Self::V1 { .. } => 0usize, Self::V2 { .. } => 1usize, }; "));
}

#[test]
fn float_named_enum_partial_eq_matches() {
    let out = expand(&FLOAT_TRAITS, pord_named_enum());
    assert!(out.contains("(Self::V1 { v1: u0, v2: u1, }, Self::V1 { v1: v0, v2: v1, }) => true && ::core::cmp::PartialEq::eq(u0, v0) && ::core::cmp::PartialEq::eq(u1, v1), (Self::V2, Self::V2) => true, _ => false, "));
}

#[test]
fn float_named_enum_debug_matches() {
    let out = expand(&FLOAT_TRAITS, pord_named_enum());
    assert!(out.contains("Self::V1 { v1: v0, v2: v1, } => f.debug_struct(\"V1\").field(\"v1\", v0).field(\"v2\", v1).finish(), Self::V2 => f.write_str(\"V2\"), "));
    assert!(out.contains("fn default() -> Self { Self::V2 }"));
}

#[test]
fn float_unnamed_enum_partial_ord_matches() {
    let out = expand(&FLOAT_TRAITS, pord_unnamed_enum());
    assert!(out.contains("(Self::V1(u0, u1, ), Self::V1(v0, v1, )) => ::core::option::Option::Some(::core::cmp::Ordering::Equal).and_then(|o| ::core::cmp::PartialOrd::partial_cmp(u0, v0).map(|x| o.then(x))).and_then(|o| ::core::cmp::PartialOrd::partial_cmp(u1, v1).map(|x| o.then(x))), "));
}

#[test]
fn float_unnamed_enum_partial_eq_matches() {
    let out = expand(&FLOAT_TRAITS, pord_unnamed_enum());
    assert!(out.contains("(Self::V1(u0, u1, ), Self::V1(v0, v1, )) => true && ::core::cmp::PartialEq::eq(u0, v0) && ::core::cmp::PartialEq::eq(u1, v1), "));
}

#[test]
fn float_unnamed_enum_debug_matches() {
    let out = expand(&FLOAT_TRAITS, pord_unnamed_enum());
    assert!(out.contains("Self::V1(v0, v1, ) => f.debug_tuple(\"V1\").field(v0).field(v1).finish(), Self::V2 => f.write_str(\"V2\"), "));
}

#[test]
fn unknown_trait_is_refused() {
    let items = vec![
        ("Clone".to_string(), Span::call_site()),
        ("Display".to_string(), Span::call_site()),
    ];
    match DerivedList::parse(&items) {
        Err(DeriveError::UnrecognizedTrait { name, .. }) => assert_eq!(name, "Display"),
        _ => panic!("expected an unrecognized trait"),
    }
}

#[test]
fn catalog_names_are_case_sensitive() {
    let items = vec![("clone".to_string(), Span::call_site())];
    assert!(DerivedList::parse(&items).is_err());
}

#[test]
fn repeated_trait_is_refused() {
    match impl_traits(request(&["Clone", "Debug", "Clone"]), everything_struct()) {
        Err(DeriveError::DuplicateTrait { kind, .. }) => assert_eq!(kind, DerivedTypeEnum::Clone),
        _ => panic!("expected a duplicate"),
    }
}

#[test]
fn enum_without_default_marker_is_refused() {
    let obj = plain_enum("E", vec![variant("A", Fields::Unit, false)]);
    assert!(matches!(
        impl_traits(request(&["Default"]), obj),
        Err(DeriveError::MissingDefaultVariant)
    ));
}

#[test]
fn enum_with_two_default_markers_is_refused() {
    let obj = plain_enum(
        "E",
        vec![variant("A", Fields::Unit, true), variant("B", Fields::Unit, true)],
    );
    assert!(matches!(
        impl_traits(request(&["Clone", "Default"]), obj),
        Err(DeriveError::MultipleDefaultVariants)
    ));
}

#[test]
fn markers_are_kept_without_default() {
    let obj = plain_enum(
        "E",
        vec![variant("A", Fields::Unit, true), variant("B", Fields::Unit, true)],
    );
    let out = expand(&["Clone"], obj);
    assert!(out.contains("#[default] A, #[default] B, "));
}

#[test]
fn trait_paths() {
    let d = request(&["Hash", "Debug", "Ord"]);
    assert_eq!(d.0[0].path().text, "std::hash::Hash");
    assert_eq!(d.0[1].path().text, "std::fmt::Debug");
    assert_eq!(d.0[2].get_trait().path.text, "Ord");
}

#[test]
fn unit_struct_shapes() {
    let out = expand(&EVERYTHING, plain_struct("Struct3", Fields::Unit));
    assert!(out.starts_with("  struct Struct3<>;"));
    assert!(out.contains("Self => f.write_str(\"Struct3\"), "));
    assert!(out.contains("(Self, Self) => ::core::cmp::Ordering::Equal, "));
    assert!(out.contains("impl<> Default for Struct3<> where  { fn default() -> Self { Self } } "));
}

#[test]
fn raw_field_name_prints_plain() {
    let out = expand(&["Debug"], plain_struct("Struct4", named(&[("r#fn", "bool")])));
    assert!(out.contains("Self { r#fn: v0, } => f.debug_struct(\"Struct4\").field(\"fn\", v0).finish(), "));
}

#[test]
fn twelve_variants_rank_in_decimal() {
    let vs = (0..12).map(|i| variant(&format!("V{i}"), Fields::Unit, false)).collect();
    let out = expand(&["Ord", "Eq", "PartialOrd", "PartialEq"], plain_enum("Big", vs));
    assert!(out.contains("Self::V9 { .. } => 9usize, Self::V10 { .. } => 10usize, Self::V11 { .. } => 11usize, "));
}

#[test]
fn single_variant_enum_hashes_its_fields() {
    let obj = plain_enum("One", vec![variant("A", unnamed(&["u8"]), false)]);
    let out = expand(&["Hash"], obj);
    assert!(out.contains("fn hash<__H: ::core::hash::Hasher>(&self, state: &mut __H) { match self { Self::A(v0, ) => { ::core::hash::Hash::hash(v0, state); }, } }"));
}

#[test]
fn declaration_where_clause_is_kept_and_extended() {
    let obj = StructOrEnum::Struct(ItemStruct {
        attrs: "#[allow(unused)]".to_string(),
        vis: "pub".to_string(),
        ident: "Struct4".to_string(),
        generics: Generics {
            params: vec![
                GenericParam {
                    kind: ParamKind::Lifetime,
                    attrs: String::new(),
                    name: "'a".to_string(),
                    bounds: String::new(),
                    default: String::new(),
                },
                GenericParam {
                    kind: ParamKind::Type,
                    attrs: String::new(),
                    name: "T".to_string(),
                    bounds: String::new(),
                    default: String::new(),
                },
                GenericParam {
                    kind: ParamKind::Const,
                    attrs: String::new(),
                    name: "N".to_string(),
                    bounds: "usize".to_string(),
                    default: String::new(),
                },
            ],
            where_clause: Some(WhereClause {
                where_token: Span::call_site(),
                predicates: vec!["T: 'a".to_string()],
            }),
        },
        fields: unnamed(&["std::marker::PhantomData<&'a T>"]),
    });
    let out = expand(&["Clone"], obj);
    assert!(out.starts_with("#[allow(unused)] pub struct Struct4< 'a,  T,  const N: usize, >(  std::marker::PhantomData<&'a T>, ) where T: 'a, ;"));
    assert!(out.contains("impl<'a, T, const N: usize, > Clone for Struct4<'a, T, N, > where T: 'a, std::marker::PhantomData<&'a T>: Clone,  { "));
}

#[test]
fn enum_without_variants_matches_on_the_value() {
    let out = expand(&["Clone", "PartialEq", "Ord", "PartialOrd", "Hash", "Debug"], plain_enum("Never", vec![]));
    assert!(out.contains("fn clone(&self) -> Self { match *self {} }"));
    assert!(out.contains("fn eq(&self, other: &Self) -> bool { match *self {} }"));
    assert!(out.contains("fn cmp(&self, other: &Self) -> ::core::cmp::Ordering { match *self {} }"));
    assert!(out.contains("fn hash<__H: ::core::hash::Hasher>(&self, state: &mut __H) { match *self {} }"));
    assert!(!out.contains("match self"));
}

#[test]
fn unit_variants_feed_no_hash() {
    let obj = plain_enum("Two", vec![variant("A", Fields::Unit, false), variant("B", Fields::Unit, false)]);
    let out = expand(&["Hash"], obj);
    assert!(out.contains("fn hash<__H: ::core::hash::Hasher>(&self, state: &mut __H) { match self { Self::A => { }, Self::B => { }, } }"));
}
