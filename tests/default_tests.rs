use perfect_derive::catalog::DerivedList;
use perfect_derive::driver::{impl_traits, Piece};
use perfect_derive::model::{
    Field, Fields, GenericParam, Generics, ItemStruct, ParamKind, StructOrEnum,
};
use proc_macro2::Span;

fn joined(pieces: &[Piece]) -> String {
    pieces.iter().map(|p| p.text.as_str()).collect()
}

fn type_param(name: &str, default: &str) -> GenericParam {
    GenericParam {
        kind: ParamKind::Type,
        attrs: String::new(),
        name: name.to_string(),
        bounds: String::new(),
        default: default.to_string(),
    }
}

#[test]
pub fn default_tests_functional_list_is_clonable() {
    // struct ResultWrapper<Ok, Err = Error> { data: Rc<Result<Ok, Error>> }
    let obj = StructOrEnum::Struct(ItemStruct {
        attrs: String::new(),
        vis: "pub".to_string(),
        ident: "ResultWrapper".to_string(),
        generics: Generics {
            params: vec![type_param("Ok", ""), type_param("Err", "Error")],
            where_clause: None,
        },
        fields: Fields::Named(vec![Field {
            attrs: String::new(),
            vis: String::new(),
            ident: "data".to_string(),
            ty: "Rc<Result<Ok, Error>>".to_string(),
        }]),
    });
    let traits = DerivedList::parse(&vec![("Clone".to_string(), Span::call_site())])
        .ok()
        .unwrap();
    let out = joined(&impl_traits(traits, obj).ok().unwrap());
    // The impl is bounded on the field's type alone, and the parameter
    // default stays on the declaration only.
    assert!(out.contains(
        "impl<Ok, Err, > Clone for ResultWrapper<Ok, Err, > where Rc<Result<Ok, Error>>: Clone,  { "
    ));
    assert!(out.contains("struct ResultWrapper< Ok,  Err = Error, >"));
    assert!(!out.contains("Ok: Clone"));
    assert!(!out.contains("Err: Clone"));
    assert!(syn::parse_file(&out).is_ok());
}
