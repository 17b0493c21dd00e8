use std::cell::Cell;
use std::rc::Rc;
use wasm_function::exports::{ExportError, Extern};
use wasm_function::slot::{scalar_to_slot, slot_to_scalar};
use wasm_function::vm::{
    ExportFunction, FnTrampoline, VMContext, VMFunctionBody, VMFunctionKind, VMTrampoline,
};
use wasm_function::{
    Function, FunctionDefinition, FunctionType, RuntimeError, Type, Val, WasmFunctionDefinition,
    F32, F64,
};

fn export(params: Vec<Type>, results: Vec<Type>) -> ExportFunction {
    ExportFunction {
        address: VMFunctionBody::Guest(0x1000),
        vmctx: VMContext::Instance(7),
        signature: FunctionType::new(params, results),
        kind: VMFunctionKind::Static,
    }
}

type Guest = Function<()>;

/// Guest code that adds its two i32 arguments.
fn adder(
    _vmctx: &VMContext,
    _address: VMFunctionBody,
    mut frame: Vec<i128>,
) -> Result<Vec<i128>, RuntimeError> {
    let a = match slot_to_scalar(frame[0], Type::I32) {
        Val::I32(a) => a,
        _ => unreachable!(),
    };
    let b = match slot_to_scalar(frame[1], Type::I32) {
        Val::I32(b) => b,
        _ => unreachable!(),
    };
    frame[0] = scalar_to_slot(Val::I32(a + b));
    Ok(frame)
}

#[test]
fn a_call_hands_the_arguments_over_and_reads_the_results() {
    let function = Function::from_export(
        &(),
        Some(FnTrampoline::new(adder)),
        export(vec![Type::I32, Type::I32], vec![Type::I32]),
    );
    assert_eq!(function.call(&[Val::I32(20), Val::I32(10)]), Ok(vec![Val::I32(30)]));
    assert_eq!(function.call(&[Val::I32(-20), Val::I32(-10)]), Ok(vec![Val::I32(-30)]));
}

#[test]
fn the_trampoline_is_entered_with_the_context_the_code_and_the_frame() {
    let seen = Rc::new(Cell::new(None));
    let record = seen.clone();
    let trampoline = FnTrampoline::new(
        move |vmctx: &VMContext, address: VMFunctionBody, frame: Vec<i128>| {
            let handle = match vmctx {
                VMContext::Instance(handle) => *handle,
                _ => usize::MAX,
            };
            record.set(Some((handle, address, frame.clone())));
            Ok(frame)
        },
    );
    let function = Function::from_export(
        &(),
        Some(trampoline),
        export(vec![Type::I64], vec![Type::I32, Type::F32, Type::I64]),
    );
    let results = function.call(&[Val::I64(-3)]).unwrap();
    // the frame is as long as the longer of the parameters and the results
    let (handle, address, frame) = seen.take().unwrap();
    assert_eq!(handle, 7);
    assert_eq!(address, VMFunctionBody::Guest(0x1000));
    assert_eq!(frame, vec![-3, 0, 0]);
    assert_eq!(
        results,
        vec![Val::I32(-3), Val::F32(F32::from_bits(0)), Val::I64(0)]
    );
}

#[test]
fn the_frame_is_as_long_as_the_parameters_where_they_are_more() {
    let seen = Rc::new(Cell::new(0usize));
    let record = seen.clone();
    let trampoline = FnTrampoline::new(
        move |_vmctx: &VMContext, _address: VMFunctionBody, frame: Vec<i128>| {
            record.set(frame.len());
            Ok(frame)
        },
    );
    let function = Function::from_export(
        &(),
        Some(trampoline),
        export(vec![Type::I32, Type::F64, Type::I32], vec![Type::I32]),
    );
    let result = function.call(&[
        Val::I32(9),
        Val::F64(F64::from_bits(1.0f64.to_bits())),
        Val::I32(1),
    ]);
    assert_eq!(seen.get(), 3);
    assert_eq!(result, Ok(vec![Val::I32(9)]));
}

fn counting_trampoline(
    entered: Rc<Cell<u32>>,
) -> FnTrampoline<impl Fn(&VMContext, VMFunctionBody, Vec<i128>) -> Result<Vec<i128>, RuntimeError>>
{
    FnTrampoline::new(
        move |_vmctx: &VMContext, _address: VMFunctionBody, frame: Vec<i128>| {
            entered.set(entered.get() + 1);
            Ok(frame)
        },
    )
}

#[test]
fn a_call_with_too_few_arguments_fails_before_any_code_runs() {
    let entered = Rc::new(Cell::new(0));
    let function = Function::from_export(
        &(),
        Some(counting_trampoline(entered.clone())),
        export(vec![Type::I32], vec![]),
    );
    let error = function.call(&[]).unwrap_err();
    assert_eq!(
        error,
        RuntimeError::ParameterMismatch {
            found: vec![],
            expected: FunctionType::new(vec![Type::I32], vec![]),
        }
    );
    assert_eq!(entered.get(), 0);
    // a call that matches enters the code once
    assert_eq!(function.call(&[Val::I32(1)]), Ok(vec![]));
    assert_eq!(entered.get(), 1);
}

#[test]
fn a_call_with_too_many_arguments_fails_before_any_code_runs() {
    let entered = Rc::new(Cell::new(0));
    let function = Function::from_export(
        &(),
        Some(counting_trampoline(entered.clone())),
        export(vec![Type::I32], vec![Type::I32]),
    );
    let error = function.call(&[Val::I32(1), Val::I32(2)]).unwrap_err();
    assert_eq!(
        error,
        RuntimeError::ParameterMismatch {
            found: vec![Type::I32, Type::I32],
            expected: FunctionType::new(vec![Type::I32], vec![Type::I32]),
        }
    );
    assert_eq!(entered.get(), 0);
}

#[test]
fn a_call_with_an_argument_of_another_type_fails_before_any_code_runs() {
    let entered = Rc::new(Cell::new(0));
    let function = Function::from_export(
        &(),
        Some(counting_trampoline(entered.clone())),
        export(vec![Type::I32, Type::I64], vec![Type::I32]),
    );
    let error = function.call(&[Val::I32(1), Val::I32(2)]).unwrap_err();
    assert_eq!(
        error,
        RuntimeError::ParameterMismatch {
            found: vec![Type::I32, Type::I32],
            expected: FunctionType::new(vec![Type::I32, Type::I64], vec![Type::I32]),
        }
    );
    // the same types in another order are another signature
    let error = function.call(&[Val::I64(1), Val::I32(2)]).unwrap_err();
    assert!(matches!(error, RuntimeError::ParameterMismatch { .. }));
    assert_eq!(entered.get(), 0);
}

#[test]
fn a_place_of_the_wrong_length_for_the_results_is_refused() {
    let entered = Rc::new(Cell::new(0));
    let function = Function::from_export(
        &(),
        Some(counting_trampoline(entered.clone())),
        export(vec![Type::I32], vec![Type::I32]),
    );
    let wasm = match &function.definition {
        FunctionDefinition::Wasm(wasm) => wasm,
        FunctionDefinition::Host(_) => unreachable!(),
    };
    let mut results = [Val::I64(0), Val::I64(0)];
    let error = function.call_wasm(wasm, &[Val::I32(1)], &mut results).unwrap_err();
    assert_eq!(
        error,
        RuntimeError::ResultMismatch {
            found: vec![Type::I64, Type::I64],
            expected: FunctionType::new(vec![Type::I32], vec![Type::I32]),
        }
    );
    assert_eq!(results, [Val::I64(0), Val::I64(0)]);
    // the number of the arguments is looked at first
    let error = function.call_wasm(wasm, &[], &mut results).unwrap_err();
    assert!(matches!(error, RuntimeError::ParameterMismatch { .. }));
    // and their types last
    let f64_zero = Val::F64(F64::from_bits(0));
    let error = function.call_wasm(wasm, &[f64_zero], &mut results).unwrap_err();
    assert!(matches!(error, RuntimeError::ResultMismatch { .. }));
    assert_eq!(entered.get(), 0);
    let mut results = [Val::I64(0)];
    assert_eq!(function.call_wasm(wasm, &[Val::I32(5)], &mut results), Ok(()));
    assert_eq!(results, [Val::I32(5)]);
    assert_eq!(entered.get(), 1);
}

#[test]
fn a_failure_of_the_trampoline_is_handed_on() {
    let trampoline = FnTrampoline::new(
        |_vmctx: &VMContext, _address: VMFunctionBody, _frame: Vec<i128>| {
            Err(RuntimeError::new(String::from("unreachable executed")))
        },
    );
    let function =
        Function::from_export(&(), Some(trampoline), export(vec![], vec![Type::I32]));
    assert_eq!(
        function.call(&[]),
        Err(RuntimeError::User { message: String::from("unreachable executed") })
    );
}

#[test]
fn a_function_from_an_export_keeps_what_the_engine_gave() {
    let function = Function::from_export(
        &String::from("store"),
        Some(FnTrampoline::new(adder)),
        export(vec![Type::I32, Type::I32], vec![Type::I32]),
    );
    assert_eq!(function.store(), "store");
    assert!(!function.owned_by_store);
    assert!(matches!(function.definition, FunctionDefinition::Wasm(_)));
    assert_eq!(
        function.ty(),
        &FunctionType::new(vec![Type::I32, Type::I32], vec![Type::I32])
    );
    assert_eq!(function.param_arity(), 2);
    assert_eq!(function.result_arity(), 1);
    assert_eq!(function.exported.address, VMFunctionBody::Guest(0x1000));
    assert_eq!(function.exported.kind, VMFunctionKind::Static);
    assert!(matches!(function.exported.vmctx, VMContext::Instance(7)));
    let anyfunc = function.checked_anyfunc(42);
    assert_eq!(anyfunc.func_ptr, VMFunctionBody::Guest(0x1000));
    assert_eq!(anyfunc.type_index, 42);
    assert!(matches!(anyfunc.vmctx, VMContext::Instance(7)));
}

#[test]
fn a_trampoline_can_be_held_without_its_type() {
    let trampoline: VMTrampoline = Box::new(FnTrampoline::new(adder));
    let function = Function::from_export(
        &(),
        Some(trampoline),
        export(vec![Type::I32, Type::I32], vec![Type::I32]),
    );
    assert_eq!(function.call(&[Val::I32(1), Val::I32(2)]), Ok(vec![Val::I32(3)]));
    let definition = WasmFunctionDefinition { trampoline: FnTrampoline::new(adder) };
    let other = Function::<(), _> {
        store: (),
        definition: FunctionDefinition::Wasm(definition),
        owned_by_store: false,
        exported: export(vec![Type::I32, Type::I32], vec![Type::I32]),
    };
    assert_eq!(other.call(&[Val::I32(4), Val::I32(5)]), Ok(vec![Val::I32(9)]));
}

#[test]
fn a_function_is_taken_out_of_an_export_of_a_function_only() {
    let trampoline: VMTrampoline = Box::new(FnTrampoline::new(adder));
    let function: Guest = Function::from_export(
        &(),
        Some(trampoline),
        export(vec![Type::I32, Type::I32], vec![Type::I32]),
    );
    let exported: Extern<Guest, u8, u16, u32> = Extern::Function(function);
    let found = Guest::get_self_from_extern(&exported).unwrap();
    assert_eq!(found.call(&[Val::I32(2), Val::I32(3)]), Ok(vec![Val::I32(5)]));
    let global: Extern<Guest, u8, u16, u32> = Extern::Global(1);
    assert_eq!(Guest::get_self_from_extern(&global).err(), Some(ExportError::IncompatibleType));
    let table: Extern<Guest, u8, u16, u32> = Extern::Table(2);
    assert_eq!(Guest::get_self_from_extern(&table).err(), Some(ExportError::IncompatibleType));
    let memory: Extern<Guest, u8, u16, u32> = Extern::Memory(3);
    assert_eq!(Guest::get_self_from_extern(&memory).err(), Some(ExportError::IncompatibleType));
}
