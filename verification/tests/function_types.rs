use wasm_function::host::{func_wrapper, Function};
use wasm_function::type_list::S1;
use wasm_function::vm::VMFunctionBody;
use wasm_function::{FunctionType, Type, WithoutEnv, F32};

fn func() {}

fn func__i32() -> i32 {
    0
}

fn func_i32(_a: i32) {}

fn func_i32__i32(a: i32) -> i32 {
    a * 2
}

fn func_i32_i32__i32(a: i32, b: i32) -> i32 {
    a + b
}

fn func_i32_i32__i32_i32(a: i32, b: i32) -> (i32, i32) {
    (a, b)
}

fn func_f32_i32__i32_f32(a: F32, b: i32) -> (i32, F32) {
    (b, a)
}

fn func_i32_i64__f32(_a: i32, _b: i64) -> F32 {
    F32::from_bits(1.5f32.to_bits())
}

#[test]
fn test_function_types() {
    assert_eq!(Function::new(func).ty(), FunctionType::new(vec![], vec![]));
    assert_eq!(
        Function::new(func__i32).ty(),
        FunctionType::new(vec![], vec![Type::I32])
    );
    assert_eq!(
        Function::new(func_i32).ty(),
        FunctionType::new(vec![Type::I32], vec![])
    );
    assert_eq!(
        Function::new(func_i32__i32).ty(),
        FunctionType::new(vec![Type::I32], vec![Type::I32])
    );
    assert_eq!(
        Function::new(func_i32_i32__i32).ty(),
        FunctionType::new(vec![Type::I32, Type::I32], vec![Type::I32])
    );
    assert_eq!(
        Function::new(func_i32_i32__i32_i32).ty(),
        FunctionType::new(vec![Type::I32, Type::I32], vec![Type::I32, Type::I32])
    );
    assert_eq!(
        Function::new(func_f32_i32__i32_f32).ty(),
        FunctionType::new(vec![Type::F32, Type::I32], vec![Type::I32, Type::F32])
    );
}

#[test]
fn test_function_pointer() {
    let f = Function::new(func_i32__i32);
    assert_eq!(f.address(), VMFunctionBody::StaticWrapper);
    let result = func_wrapper::<i32, i32, WithoutEnv, (), _, _>(&func_i32__i32, &mut (), S1(3));
    assert_eq!(result.unwrap().0, 6);
}

#[test]
fn signature_of_a_closure_of_i32_and_i64_that_returns_f32() {
    let ty = Function::new(func_i32_i64__f32).ty();
    assert_eq!(ty.params(), [Type::I32, Type::I64]);
    assert_eq!(ty.results(), [Type::F32]);
    assert_eq!(ty, FunctionType::new(vec![Type::I32, Type::I64], vec![Type::F32]));
}

#[test]
fn function_types_are_equal_when_both_lists_match() {
    let ty = FunctionType::new(vec![Type::I32, Type::I64], vec![Type::F32]);
    assert_eq!(ty, ty.clone());
    assert_ne!(ty, FunctionType::new(vec![Type::I64, Type::I32], vec![Type::F32]));
    assert_ne!(ty, FunctionType::new(vec![Type::I32, Type::I64], vec![Type::F64]));
    assert_ne!(ty, FunctionType::new(vec![Type::I32], vec![Type::F32]));
    assert_ne!(ty, FunctionType::new(vec![Type::I32, Type::I64], vec![]));
}
