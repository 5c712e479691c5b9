use wasm_xlsxwriter::param_type::{
    converts_with_into, determine_param_type, DocArg, DocBound, DocGenericParam, DocGenerics,
    DocType, DocWherePredicate, ParamType,
};

fn path(p: &str) -> DocType {
    DocType::ResolvedPath(p.to_string())
}

fn into_bound(trait_path: &str, t: DocType) -> DocBound {
    DocBound::Trait { path: trait_path.to_string(), angle_args: Some(vec![DocArg::Type(t)]) }
}

fn no_generics() -> DocGenerics {
    DocGenerics { params: vec![], where_predicates: vec![] }
}

fn p(s: &str) -> ParamType {
    ParamType::Path(s.to_string())
}

#[test]
fn plain_types_keep_their_path() {
    assert_eq!(determine_param_type(&path("Format"), &no_generics()), Some(p("Format")));
    assert_eq!(
        determine_param_type(&DocType::Primitive("u16".to_string()), &no_generics()),
        Some(p("u16"))
    );
    assert_eq!(
        determine_param_type(&DocType::BorrowedRef(Box::new(path("Format"))), &no_generics()),
        Some(p("Format"))
    );
}

#[test]
fn arrays_become_vectors() {
    let ty = DocType::Array(Box::new(DocType::Primitive("f64".to_string())));
    assert_eq!(
        determine_param_type(&ty, &no_generics()),
        Some(ParamType::Vec(Box::new(p("f64"))))
    );
}

#[test]
fn impl_into_takes_the_target() {
    let ty = DocType::ImplTrait(vec![into_bound("Into", path("String"))]);
    assert_eq!(determine_param_type(&ty, &no_generics()), Some(p("String")));
    let ty = DocType::ImplTrait(vec![into_bound("core::convert::Into", path("Color"))]);
    assert_eq!(determine_param_type(&ty, &no_generics()), Some(p("Color")));
    let ty = DocType::ImplTrait(vec![into_bound("AsRef", path("str"))]);
    assert_eq!(determine_param_type(&ty, &no_generics()), None);
    assert_eq!(determine_param_type(&DocType::ImplTrait(vec![]), &no_generics()), None);
}

#[test]
fn generics_take_their_into_bound() {
    let g = DocGenerics {
        params: vec![DocGenericParam {
            name: "T".to_string(),
            type_bounds: Some(vec![into_bound("Into", path("Url"))]),
        }],
        where_predicates: vec![],
    };
    assert_eq!(determine_param_type(&DocType::Generic("T".to_string()), &g), Some(p("Url")));
    assert_eq!(determine_param_type(&DocType::Generic("U".to_string()), &g), None);

    let g = DocGenerics {
        params: vec![DocGenericParam { name: "T".to_string(), type_bounds: Some(vec![]) }],
        where_predicates: vec![DocWherePredicate {
            generic: Some("T".to_string()),
            bounds: vec![into_bound("Into", DocType::Primitive("f64".to_string()))],
        }],
    };
    assert_eq!(determine_param_type(&DocType::Generic("T".to_string()), &g), Some(p("f64")));
}

#[test]
fn cyclic_generics_give_none() {
    let g = DocGenerics {
        params: vec![DocGenericParam {
            name: "T".to_string(),
            type_bounds: Some(vec![into_bound("Into", DocType::Generic("T".to_string()))]),
        }],
        where_predicates: vec![],
    };
    assert_eq!(determine_param_type(&DocType::Generic("T".to_string()), &g), None);
}

#[test]
fn other_types_are_unsupported() {
    assert_eq!(determine_param_type(&DocType::Other, &no_generics()), None);
}

#[test]
fn into_conversion_for_paths_and_references_to_paths() {
    assert!(converts_with_into(&path("Format")));
    assert!(converts_with_into(&DocType::BorrowedRef(Box::new(path("Format")))));
    assert!(!converts_with_into(&DocType::BorrowedRef(Box::new(DocType::Primitive("str".to_string())))));
    assert!(!converts_with_into(&DocType::Primitive("u8".to_string())));
}
