use get_field_by_type::derive::{
    find_attribute, plan_derive, read_fallback, read_target, AttrDecl, FALLBACK_ATTRIBUTE,
    TARGET_ATTRIBUTE,
};
use get_field_by_type::shape::{FieldsKind, GenError, Resolution, ShapeDecl};
use syn_helpers::syn;
use syn_helpers::ToTokens;

fn printed_type(text: &str) -> String {
    syn::parse_str::<syn::Type>(text).unwrap().to_token_stream().to_string()
}

fn printed_stmt(text: &str) -> String {
    syn::parse_str::<syn::Stmt>(text).unwrap().to_token_stream().to_string()
}

fn attr(name: &str, args: &str) -> AttrDecl {
    AttrDecl { ident: Some(name.to_string()), args: Ok(args.to_string()) }
}

fn target(ty: &str) -> AttrDecl {
    attr(TARGET_ATTRIBUTE, ty)
}

fn fallback(stmt: &str) -> AttrDecl {
    attr(FALLBACK_ATTRIBUTE, stmt)
}

fn shape(path: &[&str], kind: FieldsKind, types: &[&str]) -> ShapeDecl {
    ShapeDecl {
        path: path.iter().map(|s| s.to_string()).collect(),
        kind,
        field_types: types.iter().map(|s| printed_type(s)).collect(),
    }
}

fn arms(attrs: Vec<AttrDecl>, shapes: Vec<ShapeDecl>) -> Result<Vec<Resolution>, GenError> {
    plan_derive(&attrs, &shapes).map(|p| p.arms)
}

#[test]
fn single_named_field_is_referenced() {
    let r = arms(
        vec![target("String")],
        vec![shape(&["S"], FieldsKind::Named, &["u8", "String", "Vec<String>"])],
    );
    assert_eq!(r, Ok(vec![Resolution::Field(1)]));
}

#[test]
fn single_positional_field_is_referenced() {
    let r = arms(vec![target("u32")], vec![shape(&["S"], FieldsKind::Unnamed, &["u32", "bool"])]);
    assert_eq!(r, Ok(vec![Resolution::Field(0)]));
}

#[test]
fn sole_matching_positional_field_is_referenced_not_delegated() {
    let r = arms(vec![target("u32")], vec![shape(&["S"], FieldsKind::Unnamed, &["u32"])]);
    assert_eq!(r, Ok(vec![Resolution::Field(0)]));
}

#[test]
fn two_fields_of_target_type_are_ambiguous() {
    let r = arms(
        vec![target("String"), fallback("panic!();")],
        vec![shape(&["S"], FieldsKind::Named, &["String", "u8", "String"])],
    );
    let e = r.unwrap_err();
    assert_eq!(e, GenError::AmbiguousField("::S".to_string()));
    assert_eq!(e.message(), "Already field with this type on ::S");
}

#[test]
fn sole_positional_field_delegates() {
    let r = arms(vec![target("String")], vec![shape(&["W"], FieldsKind::Unnamed, &["Inner"])]);
    assert_eq!(r, Ok(vec![Resolution::Delegate]));
}

#[test]
fn delegation_wins_over_fallback() {
    let r = arms(
        vec![target("String"), fallback("unreachable!();")],
        vec![shape(&["W"], FieldsKind::Unnamed, &["NotAnAccessor"])],
    );
    assert_eq!(r, Ok(vec![Resolution::Delegate]));
}

#[test]
fn sole_named_field_does_not_delegate() {
    let r = arms(vec![target("String")], vec![shape(&["S"], FieldsKind::Named, &["Inner"])]);
    assert_eq!(r, Err(GenError::NoMatchingField("::S".to_string())));
}

#[test]
fn fallback_is_used_when_no_field_matches() {
    let attrs = vec![target("String"), fallback("panic!(\"no string\");")];
    let shapes = vec![shape(&["S"], FieldsKind::Named, &["u8", "u16"])];
    let plan = plan_derive(&attrs, &shapes).unwrap();
    assert_eq!(plan.arms, vec![Resolution::Fallback]);
    assert_eq!(plan.target, printed_type("String"));
    assert_eq!(plan.fallback, Some(printed_stmt("panic!(\"no string\");")));
}

#[test]
fn unit_struct_uses_fallback() {
    let r = arms(
        vec![target("String"), fallback("todo!();")],
        vec![shape(&["U"], FieldsKind::Unit, &[])],
    );
    assert_eq!(r, Ok(vec![Resolution::Fallback]));
}

#[test]
fn unit_struct_without_fallback_fails() {
    let r = arms(vec![target("String")], vec![shape(&["U"], FieldsKind::Unit, &[])]);
    assert_eq!(r, Err(GenError::NoMatchingField("::U".to_string())));
}

#[test]
fn no_match_without_fallback_fails() {
    let r = arms(vec![target("String")], vec![shape(&["S"], FieldsKind::Unnamed, &["u8", "u16"])]);
    let e = r.unwrap_err();
    assert_eq!(e, GenError::NoMatchingField("::S".to_string()));
    assert_eq!(e.message(), "No field with this type on ::S");
}

#[test]
fn enum_variants_resolve_independently() {
    let r = arms(
        vec![target("String")],
        vec![
            shape(&["E", "V1"], FieldsKind::Named, &["u8", "String"]),
            shape(&["E", "V2"], FieldsKind::Unnamed, &["Inner"]),
        ],
    );
    assert_eq!(r, Ok(vec![Resolution::Field(1), Resolution::Delegate]));
}

#[test]
fn enum_with_one_unresolved_variant_fails() {
    let r = arms(
        vec![target("String")],
        vec![
            shape(&["E", "V1"], FieldsKind::Named, &["u8", "String"]),
            shape(&["E", "V2"], FieldsKind::Unnamed, &["u8", "u16"]),
        ],
    );
    assert_eq!(r, Err(GenError::NoMatchingField("::E::V2".to_string())));
}

#[test]
fn enum_reports_first_failing_variant() {
    let r = arms(
        vec![target("String")],
        vec![
            shape(&["E", "A"], FieldsKind::Named, &["String", "String"]),
            shape(&["E", "B"], FieldsKind::Unit, &[]),
        ],
    );
    assert_eq!(r, Err(GenError::AmbiguousField("::E::A".to_string())));
}

#[test]
fn enum_with_no_variants_has_no_arms() {
    let r = arms(vec![target("String")], vec![]);
    assert_eq!(r, Ok(vec![]));
}

#[test]
fn generic_arguments_must_be_identical() {
    let r = arms(
        vec![target("Vec<u8>")],
        vec![shape(&["S"], FieldsKind::Named, &["Vec<u16>", "Vec<i8>"])],
    );
    assert_eq!(r, Err(GenError::NoMatchingField("::S".to_string())));
    let r = arms(
        vec![target("Vec<u8>")],
        vec![shape(&["S"], FieldsKind::Named, &["Vec<u16>", "Vec < u8 >"])],
    );
    assert_eq!(r, Ok(vec![Resolution::Field(1)]));
}

#[test]
fn differently_spelled_paths_do_not_match() {
    let r = arms(
        vec![target("Vec<u8>")],
        vec![shape(&["S"], FieldsKind::Named, &["std::vec::Vec<u8>", "u8"])],
    );
    assert_eq!(r, Err(GenError::NoMatchingField("::S".to_string())));
}

#[test]
fn missing_target_attribute_fails() {
    let r = arms(vec![fallback("panic!()")], vec![shape(&["S"], FieldsKind::Named, &["u8"])]);
    let e = r.unwrap_err();
    assert_eq!(e, GenError::MissingTargetAttribute);
    assert_eq!(e.message(), "Expected 'get_field_by_type_target' name");
}

#[test]
fn malformed_target_type_fails() {
    let r = arms(vec![target("not a type !!")], vec![shape(&["S"], FieldsKind::Named, &["u8"])]);
    match r {
        Err(GenError::AttributeParse(m)) => assert!(!m.is_empty()),
        other => panic!("unexpected {:?}", other),
    }
}

#[test]
fn malformed_fallback_statement_fails() {
    let r = arms(
        vec![target("String"), fallback("let = ;")],
        vec![shape(&["S"], FieldsKind::Named, &["String"])],
    );
    assert!(matches!(r, Err(GenError::AttributeParse(_))));
}

#[test]
fn target_attribute_without_arguments_fails() {
    let attrs = vec![AttrDecl {
        ident: Some(TARGET_ATTRIBUTE.to_string()),
        args: Err("expected attribute arguments in parentheses".to_string()),
    }];
    let r = read_target(&attrs);
    assert_eq!(
        r,
        Err(GenError::AttributeParse("expected attribute arguments in parentheses".to_string()))
    );
}

#[test]
fn fallback_attribute_is_optional() {
    assert_eq!(read_fallback(&vec![target("String")]), Ok(None));
    assert_eq!(
        read_fallback(&vec![fallback("{ panic!() }")]),
        Ok(Some(printed_stmt("{ panic!() }")))
    );
}

#[test]
fn first_target_attribute_wins() {
    let attrs = vec![attr("derive", "Debug"), target("u8"), target("u16")];
    assert_eq!(find_attribute(&attrs, TARGET_ATTRIBUTE), Some(1));
    assert_eq!(read_target(&attrs), Ok(printed_type("u8")));
}

#[test]
fn qualified_attribute_path_is_not_the_marker() {
    let attrs = vec![AttrDecl { ident: None, args: Ok("u8".to_string()) }];
    assert_eq!(find_attribute(&attrs, TARGET_ATTRIBUTE), None);
    assert_eq!(read_target(&attrs), Err(GenError::MissingTargetAttribute));
}

#[test]
fn target_is_handed_on_as_printed() {
    let attrs = vec![target("Vec<Option<u8>>")];
    assert_eq!(read_target(&attrs), Ok(printed_type("Vec < Option<u8> >")));
    assert_ne!(read_target(&attrs), Ok("Vec<Option<u8>>".to_string()));
}

#[test]
fn fallback_statement_needs_semicolon_after_macro() {
    let r = read_fallback(&vec![fallback("panic!()")]);
    assert!(matches!(r, Err(GenError::AttributeParse(_))));
}

#[test]
fn second_fallback_attribute_is_ignored() {
    let attrs = vec![target("u8"), fallback("todo!();"), fallback("let = ;")];
    assert_eq!(read_fallback(&attrs), Ok(Some(printed_stmt("todo!();"))));
}
