use wonderbox::codegen::determine_constructor_to_autoresolve;
use wonderbox::codegen::generate_autoresolvable_impl;
use wonderbox::codegen::generate_self_type;
use wonderbox::codegen::has_no_self_parameter;
use wonderbox::codegen::parse_constructor_argument_types;
use wonderbox::codegen::parse_constructors;
use wonderbox::codegen::parse_item_impl;
use wonderbox::codegen::parse_method_signature;
use wonderbox::codegen::returns_self;
use wonderbox::codegen::validate_constructors;
use wonderbox::codegen::validate_item_impl;
use wonderbox::codegen::GenError;
use wonderbox::codegen::ImplItemModel;
use wonderbox::codegen::ImplModel;
use wonderbox::codegen::ItemModel;
use wonderbox::codegen::MethodModel;
use wonderbox::codegen::ParamModel;
use wonderbox::codegen::ReturnModel;

fn method(name: &str, output: ReturnModel, params: Vec<ParamModel>) -> MethodModel {
    MethodModel { name: name.to_string(), output, params }
}

fn direct_impl(self_ty: &str, items: Vec<ImplItemModel>) -> ImplModel {
    ImplModel { is_trait_impl: false, self_ty: self_ty.to_string(), items }
}

#[test]
fn generate_accepts_single_plain_constructor() {
    let ctor = method(
        "new",
        ReturnModel::Named("Self".to_string()),
        vec![
            ParamModel::Plain("String".to_string()),
            ParamModel::Plain("u32".to_string()),
        ],
    );
    let item = ItemModel::Impl(direct_impl("Foo", vec![ImplItemModel::Method(ctor)]));

    let generated = generate_autoresolvable_impl(&item).unwrap();
    assert_eq!(generated.self_ty, "Foo");
    assert_eq!(generated.constructor, "new");
    assert_eq!(generated.dependencies, vec!["String".to_string(), "u32".to_string()]);
}

#[test]
fn generate_rejects_non_impl_item() {
    assert_eq!(
        generate_autoresolvable_impl(&ItemModel::Other),
        Err(GenError::NotAnImpl)
    );
}

#[test]
fn generate_rejects_trait_impl() {
    let ctor = method("new", ReturnModel::Named("Self".to_string()), vec![]);
    let item = ItemModel::Impl(ImplModel {
        is_trait_impl: true,
        self_ty: "Foo".to_string(),
        items: vec![ImplItemModel::Method(ctor)],
    });
    assert_eq!(generate_autoresolvable_impl(&item), Err(GenError::TraitImpl));
}

#[test]
fn generate_rejects_zero_eligible_constructors() {
    let getter = method(
        "get",
        ReturnModel::Named("String".to_string()),
        vec![ParamModel::SelfByReference],
    );
    let item = ItemModel::Impl(direct_impl("Foo", vec![ImplItemModel::Method(getter)]));
    assert_eq!(
        generate_autoresolvable_impl(&item),
        Err(GenError::ConstructorCount(0))
    );
}

#[test]
fn generate_rejects_two_eligible_constructors() {
    let first = method("new", ReturnModel::Named("Self".to_string()), vec![]);
    let second = method("build", ReturnModel::Named("Foo".to_string()), vec![]);
    let item = ItemModel::Impl(direct_impl(
        "Foo",
        vec![ImplItemModel::Method(first), ImplItemModel::Method(second)],
    ));
    assert_eq!(
        generate_autoresolvable_impl(&item),
        Err(GenError::ConstructorCount(2))
    );
}

#[test]
fn generate_rejects_non_simple_parameter() {
    let ctor = method(
        "new",
        ReturnModel::Named("Self".to_string()),
        vec![ParamModel::Plain("String".to_string()), ParamModel::Other],
    );
    let item = ItemModel::Impl(direct_impl("Foo", vec![ImplItemModel::Method(ctor)]));
    assert_eq!(
        generate_autoresolvable_impl(&item),
        Err(GenError::NonSimpleParameter)
    );
}

#[test]
fn returns_self_accepts_literal_and_explicit_name() {
    let self_ty = "Foo".to_string();
    let literal = method("new", ReturnModel::Named("Self".to_string()), vec![]);
    let explicit = method("new", ReturnModel::Named("Foo".to_string()), vec![]);
    let other = method("new", ReturnModel::Named("Bar".to_string()), vec![]);
    let unit = method("new", ReturnModel::Unit, vec![]);

    assert!(returns_self(&literal, &self_ty));
    assert!(returns_self(&explicit, &self_ty));
    assert!(!returns_self(&other, &self_ty));
    assert!(!returns_self(&unit, &self_ty));
}

#[test]
fn has_no_self_parameter_checks_the_first_parameter() {
    let by_ref = method(
        "a",
        ReturnModel::Unit,
        vec![ParamModel::SelfByReference, ParamModel::Plain("u32".to_string())],
    );
    let by_value = method("b", ReturnModel::Unit, vec![ParamModel::SelfByValue]);
    let none = method("c", ReturnModel::Unit, vec![]);
    let plain = method("d", ReturnModel::Unit, vec![ParamModel::Plain("u32".to_string())]);

    assert!(!has_no_self_parameter(&by_ref));
    assert!(!has_no_self_parameter(&by_value));
    assert!(has_no_self_parameter(&none));
    assert!(has_no_self_parameter(&plain));
}

#[test]
fn parse_constructors_finds_eligible_methods_in_order() {
    let getter = method(
        "get",
        ReturnModel::Named("String".to_string()),
        vec![ParamModel::SelfByReference],
    );
    let first = method("new", ReturnModel::Named("Self".to_string()), vec![]);
    let second = method("build", ReturnModel::Named("Foo".to_string()), vec![]);
    let impl_model = direct_impl(
        "Foo",
        vec![
            ImplItemModel::Method(getter),
            ImplItemModel::Method(first),
            ImplItemModel::Other,
            ImplItemModel::Method(second),
        ],
    );

    assert_eq!(parse_constructors(&impl_model), vec![1, 3]);
}

#[test]
fn validate_constructors_accepts_exactly_one() {
    assert_eq!(validate_constructors(&vec![2]), Ok(()));
    assert_eq!(
        validate_constructors(&vec![]),
        Err(GenError::ConstructorCount(0))
    );
    assert_eq!(
        validate_constructors(&vec![0, 1, 2]),
        Err(GenError::ConstructorCount(3))
    );
}

#[test]
fn determine_constructor_picks_the_first() {
    assert_eq!(determine_constructor_to_autoresolve(&vec![4, 9]), 4);
}

#[test]
fn parse_item_impl_unwraps_only_impl_blocks() {
    let impl_model = direct_impl("Foo", vec![]);
    let item = ItemModel::Impl(impl_model);
    assert!(parse_item_impl(&item).is_ok());
    assert_eq!(parse_item_impl(&ItemModel::Other), Err(GenError::NotAnImpl));
}

#[test]
fn validate_item_impl_rejects_trait_impls() {
    let direct = direct_impl("Foo", vec![]);
    let of_trait = ImplModel { is_trait_impl: true, self_ty: "Foo".to_string(), items: vec![] };
    assert_eq!(validate_item_impl(&direct), Ok(()));
    assert_eq!(validate_item_impl(&of_trait), Err(GenError::TraitImpl));
}

#[test]
fn parse_method_signature_skips_non_methods() {
    let m = method("new", ReturnModel::Unit, vec![]);
    let as_item = ImplItemModel::Method(m);
    assert!(parse_method_signature(&as_item).is_some());
    assert!(parse_method_signature(&ImplItemModel::Other).is_none());
}

#[test]
fn parse_constructor_argument_types_lists_plain_types_in_order() {
    let ctor = method(
        "new",
        ReturnModel::Named("Self".to_string()),
        vec![
            ParamModel::Plain("String".to_string()),
            ParamModel::Plain("Bar".to_string()),
        ],
    );
    assert_eq!(
        parse_constructor_argument_types(&ctor),
        Ok(vec!["String".to_string(), "Bar".to_string()])
    );

    let with_receiver = method("new", ReturnModel::Unit, vec![ParamModel::SelfByValue]);
    assert_eq!(
        parse_constructor_argument_types(&with_receiver),
        Err(GenError::NonSimpleParameter)
    );
}

#[test]
fn generate_self_type_is_the_self_token() {
    assert_eq!(generate_self_type(), "Self");
}

#[test]
fn generate_accepts_constructor_without_parameters() {
    let ctor = method("new", ReturnModel::Named("Self".to_string()), vec![]);
    let item = ItemModel::Impl(direct_impl("Empty", vec![ImplItemModel::Method(ctor)]));

    let generated = generate_autoresolvable_impl(&item).unwrap();
    assert_eq!(generated.self_ty, "Empty");
    assert_eq!(generated.constructor, "new");
    assert_eq!(generated.dependencies, Vec::<String>::new());
}
