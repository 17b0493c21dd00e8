use wasm_function::dynamic::{
    write_results, VMDynamicFunction, VMDynamicFunctionContext, VMDynamicFunctionWithEnv,
    VMDynamicFunctionWithoutEnv,
};
use wasm_function::vm::{VMContext, VMFunctionBody, VMFunctionKind};
use wasm_function::{
    Function, FunctionDefinition, FunctionType, HostFunctionDefinition, RuntimeError, Type, Val,
    F64,
};

fn add(args: &[Val]) -> Result<Vec<Val>, RuntimeError> {
    match (args[0], args[1]) {
        (Val::I32(a), Val::I32(b)) => Ok(vec![Val::I32(a + b)]),
        _ => Err(RuntimeError::new(String::from("not two i32"))),
    }
}

fn add_type() -> FunctionType {
    FunctionType::new(vec![Type::I32, Type::I32], vec![Type::I32])
}

#[test]
fn a_dynamic_function_is_entered_with_a_frame() {
    let mut context =
        VMDynamicFunctionContext::from_context(VMDynamicFunctionWithoutEnv::new(add, add_type()));
    assert_eq!(context.address, VMFunctionBody::DynamicWrapper);
    assert_eq!(context.ctx.function_type(), &add_type());
    let mut frame = vec![20, 10];
    assert_eq!(context.func_wrapper(&mut frame), Ok(()));
    assert_eq!(frame, vec![30, 10]);
    // a second call finds the function as it was
    let mut frame = vec![-1, -1, 99];
    assert_eq!(context.func_wrapper(&mut frame), Ok(()));
    assert_eq!(frame, vec![-2, -1, 99]);
}

#[test]
fn a_dynamic_function_registered_with_a_store_adds_twenty_and_ten() {
    let mut function = Function::new_dynamic(&(), &add_type(), add);
    assert!(function.owned_by_store);
    assert!(matches!(
        function.definition,
        FunctionDefinition::Host(HostFunctionDefinition { has_env: false })
    ));
    assert_eq!(function.exported.address, VMFunctionBody::Null);
    assert_eq!(function.exported.kind, VMFunctionKind::Dynamic);
    assert_eq!(function.ty(), &add_type());
    assert_eq!(function.param_arity(), 2);
    assert_eq!(function.result_arity(), 1);
    let context = match &mut function.exported.vmctx {
        VMContext::Dynamic(context) => context,
        _ => unreachable!(),
    };
    let mut frame = vec![20, 10];
    assert_eq!(context.func_wrapper(&mut frame), Ok(()));
    assert_eq!(frame[0], 30);
    assert_eq!(
        wasm_function::slot::read_values(&frame, add_type().results()),
        vec![Val::I32(30)]
    );
}

#[test]
fn a_result_of_another_type_than_declared_fails_the_call() {
    let ty = FunctionType::new(vec![], vec![Type::I32]);
    let returns_f64 = |_args: &[Val]| Ok(vec![Val::F64(F64::from_bits(1.0f64.to_bits()))]);
    let mut context =
        VMDynamicFunctionContext::from_context(VMDynamicFunctionWithoutEnv::new(returns_f64, ty));
    let mut frame = vec![5];
    assert_eq!(
        context.func_wrapper(&mut frame),
        Err(RuntimeError::DynamicResultMismatch {
            declared: vec![Type::I32],
            returned: vec![Type::F64],
        })
    );
    assert_eq!(frame, vec![5]);
}

#[test]
fn two_results_against_one_declared_fail_the_call() {
    let two = |_args: &[Val]| Ok(vec![Val::I32(30), Val::I32(0)]);
    let mut context =
        VMDynamicFunctionContext::from_context(VMDynamicFunctionWithoutEnv::new(two, add_type()));
    let mut frame = vec![20, 10];
    assert_eq!(
        context.func_wrapper(&mut frame),
        Err(RuntimeError::DynamicResultMismatch {
            declared: vec![Type::I32],
            returned: vec![Type::I32, Type::I32],
        })
    );
    assert_eq!(frame, vec![20, 10]);
}

#[test]
fn no_result_against_one_declared_fails_the_call() {
    let none = |_args: &[Val]| Ok(vec![]);
    let mut context =
        VMDynamicFunctionContext::from_context(VMDynamicFunctionWithoutEnv::new(none, add_type()));
    let mut frame = vec![20, 10];
    assert_eq!(
        context.func_wrapper(&mut frame),
        Err(RuntimeError::DynamicResultMismatch { declared: vec![Type::I32], returned: vec![] })
    );
}

#[test]
fn a_failure_of_the_closure_is_handed_on() {
    let fails = |_args: &[Val]| Err(RuntimeError::new(String::from("no")));
    let mut context = VMDynamicFunctionContext::from_context(VMDynamicFunctionWithoutEnv::new(
        fails,
        add_type(),
    ));
    let mut frame = vec![20, 10];
    assert_eq!(
        context.func_wrapper(&mut frame),
        Err(RuntimeError::User { message: String::from("no") })
    );
    assert_eq!(frame, vec![20, 10]);
}

#[test]
fn the_closure_gets_the_arguments_under_the_declared_types() {
    let ty = FunctionType::new(
        vec![Type::I32, Type::I64, Type::F32, Type::F64],
        vec![Type::F64, Type::F32, Type::I64, Type::I32],
    );
    let reverse = |args: &[Val]| {
        let mut back = args.to_vec();
        back.reverse();
        Ok(back)
    };
    let mut context =
        VMDynamicFunctionContext::from_context(VMDynamicFunctionWithoutEnv::new(reverse, ty));
    let mut frame = vec![0x1_ffff_ffff, -2, 0x3fc0_0000, 0x4010_cccc_cccc_cccd, 77];
    assert_eq!(context.func_wrapper(&mut frame), Ok(()));
    assert_eq!(frame, vec![0x4010_cccc_cccc_cccd, 0x3fc0_0000, -2, -1, 77]);
}

#[test]
fn a_dynamic_function_with_an_environment_keeps_it_between_calls() {
    let ty = FunctionType::new(vec![Type::I32], vec![Type::I32]);
    let accumulate = |total: &mut i32, args: &[Val]| match args[0] {
        Val::I32(value) => {
            *total += value;
            Ok(vec![Val::I32(*total)])
        },
        _ => Err(RuntimeError::new(String::from("not an i32"))),
    };
    let mut function = Function::new_dynamic_env(&(), &ty, 100, accumulate);
    assert!(matches!(
        function.definition,
        FunctionDefinition::Host(HostFunctionDefinition { has_env: true })
    ));
    assert_eq!(function.exported.address, VMFunctionBody::Null);
    assert_eq!(function.exported.kind, VMFunctionKind::Dynamic);
    assert_eq!(function.ty(), &ty);
    let context = match &mut function.exported.vmctx {
        VMContext::Dynamic(context) => context,
        _ => unreachable!(),
    };
    let mut frame = vec![5];
    assert_eq!(context.func_wrapper(&mut frame), Ok(()));
    assert_eq!(frame, vec![105]);
    let mut frame = vec![-10];
    assert_eq!(context.func_wrapper(&mut frame), Ok(()));
    assert_eq!(frame, vec![95]);
}

#[test]
fn a_dynamic_function_can_be_held_without_its_type() {
    let boxed: Box<dyn VMDynamicFunction<()>> = Box::new(VMDynamicFunctionWithEnv::new(
        add_type(),
        |_: &mut (), args: &[Val]| add(args),
        (),
    ));
    let mut context = VMDynamicFunctionContext::from_context(boxed);
    let mut frame = vec![3, 4];
    assert_eq!(context.func_wrapper(&mut frame), Ok(()));
    assert_eq!(frame, vec![7, 4]);
    assert_eq!(context.ctx.function_type(), &add_type());
}

#[test]
fn what_a_closure_returned_is_held_against_the_declared_results() {
    let ty = FunctionType::new(vec![], vec![Type::I64, Type::I32]);
    let mut frame = vec![9, 9, 9];
    assert_eq!(
        write_results(&ty, Ok(vec![Val::I64(-1), Val::I32(2)]), &mut frame),
        Ok(())
    );
    assert_eq!(frame, vec![-1, 2, 9]);
    // the same values in another order are not the declared results
    assert_eq!(
        write_results(&ty, Ok(vec![Val::I32(2), Val::I64(-1)]), &mut frame),
        Err(RuntimeError::DynamicResultMismatch {
            declared: vec![Type::I64, Type::I32],
            returned: vec![Type::I32, Type::I64],
        })
    );
    assert_eq!(frame, vec![-1, 2, 9]);
    assert_eq!(
        write_results(&ty, Err(RuntimeError::new(String::from("trap"))), &mut frame),
        Err(RuntimeError::User { message: String::from("trap") })
    );
    assert_eq!(frame, vec![-1, 2, 9]);
}
