use std::convert::Infallible;
use wasm_function::host::{func_wrapper, wrapper_action, Function as HostFunc, WrapperAction};
use wasm_function::type_list::{S0, S1, S2, S3};
use wasm_function::vm::{VMContext, VMFunctionBody, VMFunctionKind};
use wasm_function::{
    Function, FunctionDefinition, FunctionType, HostFunction, HostFunctionDefinition, IntoResult,
    RuntimeError, Type, WithEnv, WithoutEnv, F32, F64,
};

fn add(a: i32, b: i32) -> i32 {
    a + b
}

#[test]
fn a_host_function_registered_with_a_store_adds_twenty_and_ten() {
    let function = Function::new(&(), add);
    assert!(function.owned_by_store);
    assert!(matches!(
        function.definition,
        FunctionDefinition::Host(HostFunctionDefinition { has_env: false })
    ));
    assert_eq!(function.exported.address, VMFunctionBody::StaticWrapper);
    assert_eq!(function.exported.kind, VMFunctionKind::Static);
    assert!(matches!(function.exported.vmctx, VMContext::Null));
    assert_eq!(
        function.ty(),
        &FunctionType::new(vec![Type::I32, Type::I32], vec![Type::I32])
    );
    assert!(function.native::<(i32, i32), i32>().is_some());
    let result: Result<S1<i32>, Infallible> =
        func_wrapper::<(i32, i32), i32, WithoutEnv, (), _, _>(&add, &mut (), S2(20, 10));
    assert_eq!(result.unwrap().0, 30);
}

#[test]
fn the_wrapper_builds_each_argument_from_its_native() {
    let describe = |a: u8, b: i16, c: u64| -> (u32, i64) { (a as u32 + 1, b as i64 + c as i64) };
    let result = func_wrapper::<(u8, i16, u64), (u32, i64), WithoutEnv, (), _, _>(
        &describe,
        &mut (),
        S3(0x1ff, -2, -1),
    );
    let natives = result.unwrap();
    // 0x1ff is 255 as a u8, -2 stays, -1 is the largest u64, which is -1 again as an i64
    assert_eq!(natives.0, 256);
    assert_eq!(natives.1, -3);
}

#[test]
fn the_wrapper_lays_the_results_into_natives() {
    let largest = || -> (u32, u64, F32) { (u32::MAX, u64::MAX, F32::from_bits(7)) };
    let natives =
        func_wrapper::<(), (u32, u64, F32), WithoutEnv, (), _, _>(&largest, &mut (), S0())
            .unwrap();
    assert_eq!(natives.0, -1i32);
    assert_eq!(natives.1, -1i64);
    assert_eq!(natives.2, F32::from_bits(7));
}

#[test]
fn a_closure_without_results_returns_no_natives() {
    let nothing = |_a: F64| {};
    let S0() = func_wrapper::<F64, (), WithoutEnv, (), _, _>(
        &nothing,
        &mut (),
        S1(F64::from_bits(1)),
    )
    .unwrap();
}

#[test]
fn a_failure_of_the_closure_comes_back_as_it_is() {
    let checked = |a: i32, b: i32| -> Result<i32, RuntimeError> {
        a.checked_div(b).ok_or(RuntimeError::new(String::from("division by zero")))
    };
    let ok = func_wrapper::<(i32, i32), i32, WithoutEnv, (), _, _>(&checked, &mut (), S2(20, 10));
    assert_eq!(ok.map(|natives| natives.0), Ok(2));
    let failed =
        func_wrapper::<(i32, i32), i32, WithoutEnv, (), _, _>(&checked, &mut (), S2(20, 0));
    assert_eq!(
        failed.map(|natives| natives.0),
        Err(RuntimeError::User { message: String::from("division by zero") })
    );
}

#[test]
fn a_closure_with_an_environment_changes_it() {
    let count = |calls: &mut u32, step: u32| -> u32 {
        *calls += step;
        *calls
    };
    let mut calls = 5u32;
    let first = func_wrapper::<u32, u32, WithEnv, u32, _, _>(&count, &mut calls, S1(2));
    assert_eq!(first.unwrap().0, 7);
    let second = func_wrapper::<u32, u32, WithEnv, u32, _, _>(&count, &mut calls, S1(3));
    assert_eq!(second.unwrap().0, 10);
    assert_eq!(calls, 10);
    assert_eq!(
        HostFunction::<u32, u32, WithEnv, u32>::call(&count, &mut calls, 1),
        Ok(11)
    );
}

#[test]
fn a_host_function_with_an_environment_owns_it() {
    let record = |calls: &mut Vec<i64>, value: i64| {
        calls.push(value);
    };
    let mut function = Function::new_env(&(), vec![1i64], record);
    assert!(function.owned_by_store);
    assert!(matches!(
        function.definition,
        FunctionDefinition::Host(HostFunctionDefinition { has_env: true })
    ));
    assert_eq!(function.exported.address, VMFunctionBody::StaticWrapper);
    assert_eq!(function.exported.kind, VMFunctionKind::Static);
    assert_eq!(function.ty(), &FunctionType::new(vec![Type::I64], vec![]));
    let env = match &mut function.exported.vmctx {
        VMContext::Environment(env) => env,
        _ => unreachable!(),
    };
    assert_eq!(**env, vec![1]);
    // the wrapper enters the closure with the environment that the function owns
    let S0() = func_wrapper::<i64, (), WithEnv, Vec<i64>, _, _>(&record, env, S1(-4)).unwrap();
    assert_eq!(**env, vec![1, -4]);
}

#[test]
fn a_typed_host_function_knows_its_wrapper_and_its_signature() {
    let function: HostFunc<(i32, i32), i32> = HostFunc::new(add);
    assert_eq!(function.address(), VMFunctionBody::StaticWrapper);
    assert_eq!(function.clone(), function);
    assert_eq!(
        function.ty(),
        FunctionType::new(vec![Type::I32, Type::I32], vec![Type::I32])
    );
    assert_eq!(add.function_body_ptr(), VMFunctionBody::StaticWrapper);
}

#[test]
fn a_closure_of_twenty_six_parameters_is_a_host_function() {
    let sum = |a1: i32,
               a2: i32,
               a3: i32,
               a4: i32,
               a5: i32,
               a6: i32,
               a7: i32,
               a8: i32,
               a9: i32,
               a10: i32,
               a11: i32,
               a12: i32,
               a13: i32,
               a14: i32,
               a15: i32,
               a16: i32,
               a17: i32,
               a18: i32,
               a19: i32,
               a20: i32,
               a21: i32,
               a22: i32,
               a23: i32,
               a24: i32,
               a25: i32,
               a26: i64|
     -> i64 {
        (a1 + a2 + a3 + a4 + a5 + a6 + a7 + a8 + a9 + a10 + a11 + a12 + a13 + a14 + a15 + a16
            + a17
            + a18
            + a19
            + a20
            + a21
            + a22
            + a23
            + a24
            + a25) as i64
            * a26
    };
    let args = (
        1, 2, 3, 4, 5, 6, 7, 8, 9, 10, 11, 12, 13, 14, 15, 16, 17, 18, 19, 20, 21, 22, 23, 24, 25,
        2i64,
    );
    assert_eq!(
        HostFunction::<_, i64, WithoutEnv, ()>::call(&sum, &mut (), args),
        Ok(650)
    );
    let function = Function::new(&(), sum);
    assert_eq!(function.param_arity(), 26);
    assert_eq!(function.ty().params()[25], Type::I64);
    assert_eq!(function.ty().results(), [Type::I64]);
}

#[test]
fn results_and_failures_are_seen_as_a_result() {
    assert_eq!(7i32.into_result(), Ok(7));
    assert_eq!((1i32, 2i64).into_result(), Ok((1, 2)));
    let failed: Result<i32, RuntimeError> = Err(RuntimeError::new(String::from("x")));
    assert_eq!(
        IntoResult::<i32>::into_result(failed),
        Err(RuntimeError::User { message: String::from("x") })
    );
    let fine: Result<i32, RuntimeError> = Ok(3);
    assert_eq!(IntoResult::<i32>::into_result(fine), Ok(3));
}

#[test]
fn the_wrapper_returns_raises_or_resumes() {
    let returned: Result<Result<i32, u8>, &str> = Ok(Ok(30));
    assert!(matches!(wrapper_action(returned), WrapperAction::Return(30)));
    let trapped: Result<Result<i32, u8>, &str> = Ok(Err(4));
    assert!(matches!(wrapper_action(trapped), WrapperAction::RaiseUserTrap(4)));
    let faulted: Result<Result<i32, u8>, &str> = Err("index out of bounds");
    assert!(matches!(
        wrapper_action(faulted),
        WrapperAction::ResumePanic("index out of bounds")
    ));
}
