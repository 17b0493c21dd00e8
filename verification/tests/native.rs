use wasm_function::vm::{
    ExportFunction, FnTrampoline, Trampoline, VMContext, VMFunctionBody, VMFunctionKind,
};
use wasm_function::{Function, FunctionDefinition, FunctionType, RuntimeError, Type, F32, F64};

fn unchanged(
    _vmctx: &VMContext,
    _address: VMFunctionBody,
    frame: Vec<i128>,
) -> Result<Vec<i128>, RuntimeError> {
    Ok(frame)
}

fn guest(params: Vec<Type>, results: Vec<Type>) -> Function<&'static str, impl Trampoline> {
    let trampoline = FnTrampoline::new(unchanged);
    Function::from_export(
        &"store",
        Some(trampoline),
        ExportFunction {
            address: VMFunctionBody::Guest(64),
            vmctx: VMContext::Instance(3),
            signature: FunctionType::new(params, results),
            kind: VMFunctionKind::Static,
        },
    )
}

#[test]
fn a_function_is_typed_by_its_own_signature() {
    let typed = guest(vec![Type::I32, Type::I64], vec![Type::F32])
        .native::<(i32, i64), F32>()
        .unwrap();
    assert_eq!(typed.store, "store");
    assert_eq!(typed.address, VMFunctionBody::Guest(64));
    assert_eq!(typed.kind, VMFunctionKind::Static);
    assert!(matches!(typed.vmctx, VMContext::Instance(3)));
    assert!(matches!(typed.definition, FunctionDefinition::Wasm(_)));
}

#[test]
fn a_function_is_not_typed_by_another_signature() {
    let params = || vec![Type::I32, Type::I64];
    let results = || vec![Type::F32];
    // the same types in another order
    assert!(guest(params(), results()).native::<(i64, i32), F32>().is_none());
    // fewer or more parameters
    assert!(guest(params(), results()).native::<i32, F32>().is_none());
    assert!(guest(params(), results()).native::<(i32, i64, i32), F32>().is_none());
    assert!(guest(params(), results()).native::<(), F32>().is_none());
    // other results
    assert!(guest(params(), results()).native::<(i32, i64), F64>().is_none());
    assert!(guest(params(), results()).native::<(i32, i64), ()>().is_none());
    assert!(guest(params(), results()).native::<(i32, i64), (F32, F32)>().is_none());
    // parameters and results exchanged
    assert!(guest(results(), params()).native::<(i32, i64), F32>().is_none());
}

#[test]
fn small_integers_type_a_function_of_i32() {
    assert!(guest(vec![Type::I32, Type::I32], vec![Type::I64])
        .native::<(u8, i16), u64>()
        .is_some());
    assert!(guest(vec![], vec![]).native::<(), ()>().is_some());
    assert!(guest(vec![Type::I64], vec![]).native::<u32, ()>().is_none());
}
