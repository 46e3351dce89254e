use std::collections::HashMap;

use sierra::error::SpecializationError;
use sierra::ids::{ConcreteTypeId, GenericTypeId};
use sierra::lib_func::{args_equal, ConcreteTypeIdMap, FunctionMap, SpecializationContext};
use sierra::program::GenericArg;

fn felt_map() -> ConcreteTypeIdMap {
    let mut types = ConcreteTypeIdMap::new();
    types.insert(GenericTypeId::from_string("felt"), vec![], ConcreteTypeId::new(0));
    types.insert(
        GenericTypeId::from_string("Box"),
        vec![GenericArg::Type(ConcreteTypeId::new(0))],
        ConcreteTypeId::new(1),
    );
    types
}

#[test]
fn lookup_finds_declared_type() {
    let functions: FunctionMap = HashMap::new();
    let types = felt_map();
    let context = SpecializationContext { functions: &functions, concrete_type_ids: &types };
    let r = context.get_concrete_type(GenericTypeId::from_string("felt"), &[]);
    assert_eq!(r.unwrap(), ConcreteTypeId::new(0));
}

#[test]
fn lookup_of_undeclared_type_fails() {
    let functions: FunctionMap = HashMap::new();
    let types = felt_map();
    let context = SpecializationContext { functions: &functions, concrete_type_ids: &types };
    let args = [GenericArg::Value(3)];
    match context.get_concrete_type(GenericTypeId::from_string("felt"), &args) {
        Err(SpecializationError::TypeWasNotDeclared(id, a)) => {
            assert_eq!(id.name, "felt");
            assert_eq!(a, vec![GenericArg::Value(3)]);
        }
        other => panic!("unexpected {:?}", other),
    }
    let r = context.get_concrete_type(GenericTypeId::from_string("u128"), &[]);
    assert!(matches!(r, Err(SpecializationError::TypeWasNotDeclared(_, _))));
}

#[test]
fn wrapped_lookup_uses_single_type_argument() {
    let functions: FunctionMap = HashMap::new();
    let types = felt_map();
    let context = SpecializationContext { functions: &functions, concrete_type_ids: &types };
    let boxed = context.get_wrapped_concrete_type(GenericTypeId::from_string("Box"), ConcreteTypeId::new(0));
    assert_eq!(boxed.unwrap(), ConcreteTypeId::new(1));
    let missing =
        context.get_wrapped_concrete_type(GenericTypeId::from_string("Box"), ConcreteTypeId::new(1));
    match missing {
        Err(SpecializationError::TypeWasNotDeclared(id, a)) => {
            assert_eq!(id.name, "Box");
            assert_eq!(a, vec![GenericArg::Type(ConcreteTypeId::new(1))]);
        }
        other => panic!("unexpected {:?}", other),
    }
}

#[test]
fn insert_then_lookup_sequence() {
    let mut types = ConcreteTypeIdMap::new();
    let keys: Vec<(&str, Vec<GenericArg>)> = vec![
        ("felt", vec![]),
        ("Array", vec![GenericArg::Type(ConcreteTypeId::new(0))]),
        ("Array", vec![GenericArg::Type(ConcreteTypeId::new(1))]),
        ("Const", vec![GenericArg::Value(-5)]),
        ("Const", vec![GenericArg::Value(5)]),
    ];
    for (i, (name, args)) in keys.iter().enumerate() {
        types.insert(GenericTypeId::from_string(name), args.clone(), ConcreteTypeId::new(10 + i as u64));
    }
    for (i, (name, args)) in keys.iter().enumerate() {
        assert_eq!(types.get(&GenericTypeId::from_string(name), args), Some(ConcreteTypeId::new(10 + i as u64)));
    }
    assert_eq!(types.get(&GenericTypeId::from_string("Array"), &[]), None);
    assert_eq!(types.get(&GenericTypeId::from_string("Const"), &[GenericArg::Value(6)]), None);
    assert_eq!(
        types.get(&GenericTypeId::from_string("Const"), &[GenericArg::Type(ConcreteTypeId::new(5))]),
        None
    );
}

#[test]
fn insert_again_replaces_registered_id() {
    let mut types = ConcreteTypeIdMap::new();
    types.insert(GenericTypeId::from_string("felt"), vec![], ConcreteTypeId::new(3));
    types.insert(GenericTypeId::from_string("felt"), vec![], ConcreteTypeId::new(4));
    assert_eq!(types.get(&GenericTypeId::from_string("felt"), &[]), Some(ConcreteTypeId::new(4)));
}

#[test]
fn empty_map_has_no_types() {
    let types = ConcreteTypeIdMap::new();
    assert_eq!(types.get(&GenericTypeId::from_string("felt"), &[]), None);
}

#[test]
fn argument_lists_compare_element_by_element() {
    let a = [GenericArg::Type(ConcreteTypeId::new(1)), GenericArg::Value(2)];
    let b = [GenericArg::Type(ConcreteTypeId::new(1)), GenericArg::Value(2)];
    let c = [GenericArg::Type(ConcreteTypeId::new(1)), GenericArg::Value(3)];
    assert!(args_equal(&a, &b));
    assert!(!args_equal(&a, &c));
    assert!(!args_equal(&a, &a[..1]));
    assert!(args_equal(&[], &[]));
}

#[test]
fn identifiers_compare_by_name() {
    assert!(GenericTypeId::from_string("felt") == GenericTypeId::from_string("felt"));
    assert!(GenericTypeId::from_string("felt") != GenericTypeId::from_string("u128"));
}
