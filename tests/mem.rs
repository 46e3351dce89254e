use std::collections::HashMap;

use sierra::error::{ExtensionError, InputError, SpecializationError};
use sierra::ids::{ConcreteTypeId, GenericLibFuncId, GenericTypeId};
use sierra::lib_func::{
    ConcreteLibFunc, ConcreteTypeIdMap, FunctionMap, GenericLibFunc, GenericLibFuncEx,
    NamedLibFunc, NoGenericArgsGenericLibFunc, SpecializationContext,
};
use sierra::mem::{
    as_single_type, no_variables, single_variable_identity, AllocLocalsGeneric, MemConcreteLibFunc,
    MemLibFunc, StoreTempGeneric,
};
use sierra::mem_cell::MemCell;
use sierra::program::GenericArg;

const NAMES: [&str; 6] = ["store_temp", "align_temps", "store_local", "alloc_locals", "rename", "move"];
const SINGLE_TYPE: [&str; 5] = ["store_temp", "align_temps", "store_local", "rename", "move"];
const PASS_THROUGH: [&str; 4] = ["store_temp", "store_local", "rename", "move"];
const MARKERS: [&str; 2] = ["align_temps", "alloc_locals"];

fn cell(v: i128) -> MemCell {
    MemCell::new(v)
}

fn declared() -> ConcreteTypeIdMap {
    let mut types = ConcreteTypeIdMap::new();
    types.insert(GenericTypeId::from_string("felt"), vec![], ConcreteTypeId::new(0));
    types
}

fn specialize(name: &str, args: &[GenericArg]) -> Result<MemConcreteLibFunc, ExtensionError> {
    let functions: FunctionMap = HashMap::new();
    let types = declared();
    let context = SpecializationContext { functions: &functions, concrete_type_ids: &types };
    MemLibFunc::specialize_by_id(context, &GenericLibFuncId::from_string(name), args)
}

fn specialize_ok(name: &str) -> MemConcreteLibFunc {
    let args: &[GenericArg] = if name == "alloc_locals" {
        &[]
    } else {
        &[GenericArg::Type(ConcreteTypeId::new(0))]
    };
    specialize(name, args).unwrap()
}

fn specialization_error(r: Result<MemConcreteLibFunc, ExtensionError>) -> (String, SpecializationError) {
    match r {
        Err(ExtensionError::LibFuncSpecialization { libfunc_id, error }) => (libfunc_id.name, error),
        Ok(_) => panic!("specialization succeeded"),
    }
}

#[test]
fn store_temp_of_declared_felt() {
    let functions: FunctionMap = HashMap::new();
    let types = declared();
    let context = SpecializationContext { functions: &functions, concrete_type_ids: &types };
    let felt = context.get_concrete_type(GenericTypeId::from_string("felt"), &[]).unwrap();
    let libfunc = MemLibFunc::specialize_by_id(
        context,
        &GenericLibFuncId::from_string("store_temp"),
        &[GenericArg::Type(felt)],
    )
    .unwrap();
    assert!(matches!(libfunc, MemConcreteLibFunc::StoreTemp(_)));
    assert_eq!(libfunc.input_types(), vec![felt]);
    assert_eq!(libfunc.output_types(), vec![vec![felt]]);
    assert_eq!(libfunc.fallthrough(), Some(0));
    assert_eq!(libfunc.simulate(vec![vec![cell(5)]]), Ok(vec![vec![cell(5)]]));
}

#[test]
fn alloc_locals_with_type_argument_fails() {
    let felt = ConcreteTypeId::new(0);
    let (id, error) = specialization_error(specialize("alloc_locals", &[GenericArg::Type(felt)]));
    assert_eq!(id, "alloc_locals");
    assert!(matches!(error, SpecializationError::WrongNumberOfGenericArgs));
}

#[test]
fn zero_argument_family_rejects_any_arguments() {
    let functions: FunctionMap = HashMap::new();
    let types = declared();
    let family = <AllocLocalsGeneric as NoGenericArgsGenericLibFunc>::new();
    for args in [
        vec![GenericArg::Value(0)],
        vec![GenericArg::Type(ConcreteTypeId::new(0))],
        vec![GenericArg::Value(1), GenericArg::Value(2)],
    ] {
        let context = SpecializationContext { functions: &functions, concrete_type_ids: &types };
        let r = GenericLibFunc::specialize(&family, context, &args);
        assert!(matches!(r, Err(SpecializationError::WrongNumberOfGenericArgs)));
    }
    let context = SpecializationContext { functions: &functions, concrete_type_ids: &types };
    assert!(GenericLibFunc::specialize(&family, context, &[]).is_ok());
}

#[test]
fn single_type_families_take_exactly_one_type() {
    let a = ConcreteTypeId::new(7);
    let b = ConcreteTypeId::new(8);
    for name in SINGLE_TYPE {
        for args in [vec![], vec![GenericArg::Type(a), GenericArg::Type(b)], vec![GenericArg::Value(7)]] {
            let (id, error) = specialization_error(specialize(name, &args));
            assert_eq!(id, name);
            assert!(matches!(error, SpecializationError::UnsupportedGenericArg));
        }
        let ty = match specialize(name, &[GenericArg::Type(a)]).unwrap() {
            MemConcreteLibFunc::StoreTemp(c) => c.ty,
            MemConcreteLibFunc::AlignTemps(c) => c.ty,
            MemConcreteLibFunc::StoreLocal(c) => c.ty,
            MemConcreteLibFunc::Rename(c) => c.ty,
            MemConcreteLibFunc::Move(c) => c.ty,
            MemConcreteLibFunc::AllocLocals(_) => panic!("wrong family"),
        };
        assert_eq!(ty, a);
    }
}

#[test]
fn single_type_extraction() {
    let a = ConcreteTypeId::new(2);
    assert_eq!(as_single_type(&[GenericArg::Type(a)]).unwrap(), a);
    assert!(matches!(as_single_type(&[]), Err(SpecializationError::UnsupportedGenericArg)));
    assert!(matches!(as_single_type(&[GenericArg::Value(2)]), Err(SpecializationError::UnsupportedGenericArg)));
    assert!(matches!(
        as_single_type(&[GenericArg::Type(a), GenericArg::Type(a)]),
        Err(SpecializationError::UnsupportedGenericArg)
    ));
}

#[test]
fn composed_lookup_picks_owning_family() {
    for name in NAMES {
        let family = MemLibFunc::by_id(&GenericLibFuncId::from_string(name)).unwrap();
        let tag = match family {
            MemLibFunc::StoreTemp(_) => "store_temp",
            MemLibFunc::AlignTemps(_) => "align_temps",
            MemLibFunc::StoreLocal(_) => "store_local",
            MemLibFunc::AllocLocals(_) => "alloc_locals",
            MemLibFunc::Rename(_) => "rename",
            MemLibFunc::Move(_) => "move",
        };
        assert_eq!(tag, name);
        let concrete_tag = match specialize_ok(name) {
            MemConcreteLibFunc::StoreTemp(_) => "store_temp",
            MemConcreteLibFunc::AlignTemps(_) => "align_temps",
            MemConcreteLibFunc::StoreLocal(_) => "store_local",
            MemConcreteLibFunc::AllocLocals(_) => "alloc_locals",
            MemConcreteLibFunc::Rename(_) => "rename",
            MemConcreteLibFunc::Move(_) => "move",
        };
        assert_eq!(concrete_tag, name);
    }
    for unknown in ["", "store", "store_temps", "Move", "felt_add"] {
        assert!(MemLibFunc::by_id(&GenericLibFuncId::from_string(unknown)).is_none());
    }
}

#[test]
fn unknown_id_is_unsupported() {
    let (id, error) = specialization_error(specialize("felt_add", &[]));
    assert_eq!(id, "felt_add");
    assert!(matches!(error, SpecializationError::UnsupportedId));
}

#[test]
fn named_family_owns_only_its_id() {
    assert!(StoreTempGeneric::by_id(&GenericLibFuncId::from_string("store_temp")).is_some());
    assert!(StoreTempGeneric::by_id(&GenericLibFuncId::from_string("store_local")).is_none());
    assert_eq!(<StoreTempGeneric as NamedLibFunc>::name(), "store_temp");
    assert_eq!(<AllocLocalsGeneric as NoGenericArgsGenericLibFunc>::name(), "alloc_locals");
}

#[test]
fn every_libfunc_has_one_outcome() {
    for name in NAMES {
        let libfunc = specialize_ok(name);
        assert_eq!(libfunc.output_types().len(), 1);
        assert_eq!(libfunc.fallthrough(), Some(0));
    }
}

#[test]
fn signatures_of_memory_libfuncs() {
    let felt = ConcreteTypeId::new(0);
    for name in PASS_THROUGH {
        let libfunc = specialize_ok(name);
        assert_eq!(libfunc.input_types(), vec![felt]);
        assert_eq!(libfunc.output_types(), vec![vec![felt]]);
    }
    for name in MARKERS {
        let libfunc = specialize_ok(name);
        assert_eq!(libfunc.input_types(), Vec::<ConcreteTypeId>::new());
        assert_eq!(libfunc.output_types(), vec![Vec::<ConcreteTypeId>::new()]);
    }
}

#[test]
fn pass_through_simulation() {
    for name in PASS_THROUGH {
        let libfunc = specialize_ok(name);
        assert_eq!(libfunc.simulate(vec![vec![cell(5)]]), Ok(vec![vec![cell(5)]]));
        let cells = vec![cell(1), cell(-2), cell(3)];
        assert_eq!(libfunc.simulate(vec![cells.clone()]), Ok(vec![cells]));
        assert_eq!(libfunc.simulate(vec![]), Err(InputError::WrongNumberOfArgs));
        assert_eq!(
            libfunc.simulate(vec![vec![cell(1)], vec![cell(2)]]),
            Err(InputError::WrongNumberOfArgs)
        );
    }
}

#[test]
fn marker_simulation() {
    for name in MARKERS {
        let libfunc = specialize_ok(name);
        assert_eq!(libfunc.simulate(vec![]), Ok(vec![]));
        assert_eq!(libfunc.simulate(vec![vec![cell(1)]]), Err(InputError::WrongNumberOfArgs));
        assert_eq!(libfunc.simulate(vec![vec![]]), Err(InputError::WrongNumberOfArgs));
    }
}

#[test]
fn simulation_helpers() {
    assert_eq!(single_variable_identity(vec![vec![cell(9)]]), Ok(vec![vec![cell(9)]]));
    assert_eq!(single_variable_identity(vec![vec![], vec![]]), Err(InputError::WrongNumberOfArgs));
    assert_eq!(no_variables(vec![]), Ok(vec![]));
    assert_eq!(no_variables(vec![vec![cell(0)]]), Err(InputError::WrongNumberOfArgs));
}
