//! The function as native code holds it: what defines it, what the engine knows of it, and
//! the path of a call from a list of values to a list of values.

use crate::slot::{frame_values, frame_with, read_values, scalar_to_slot};
use crate::types::{
    same_types, types_of, value_types, FunctionType, RuntimeError, RuntimeErrorView, Signature,
    Val,
};
use crate::dynamic::{
    takes_values, takes_values_with_env, VMDynamicFunctionContext, VMDynamicFunctionWithEnv,
    VMDynamicFunctionWithoutEnv,
};
use crate::host::{HostFunction, WithEnv, WithoutEnv};
use crate::type_list::WasmTypeList;
use crate::vm::{
    ExportFunction, Trampoline, VMCallerCheckedAnyfunc, VMContext, VMDynamicFunctionBox,
    VMFunctionBody, VMFunctionKind, VMTrampoline,
};
use std::marker::PhantomData;
use vstd::prelude::*;

verus! {

/// A function defined in a WebAssembly module.
pub struct WasmFunctionDefinition<T: Trampoline = VMTrampoline> {
    /// The thunk through which the function is called.
    pub trampoline: T,
}

/// A function defined in the host.
#[derive(Clone, Copy, Debug, PartialEq, Eq, Structural)]
pub struct HostFunctionDefinition {
    /// Whether the function has an environment of its own.
    pub has_env: bool,
}

/// Where a function is defined.
pub enum FunctionDefinition<T: Trampoline = VMTrampoline> {
    /// In a WebAssembly module.
    Wasm(WasmFunctionDefinition<T>),
    /// In the host.
    Host(HostFunctionDefinition),
}

/// A WebAssembly function, whoever defines it. `S` is the store that it belongs to, `T` the
/// trampoline of a function defined in a module, `E` the environment of a host function, `C`
/// the dynamic function of a function whose signature is data.
pub struct Function<S, T: Trampoline = VMTrampoline, E = (), C = VMDynamicFunctionBox<E>> {
    pub store: S,
    pub definition: FunctionDefinition<T>,
    /// Whether the store owns the function, and not an instance.
    pub owned_by_store: bool,
    pub exported: ExportFunction<E, C>,
}

/// The frame that a call of a function of signature `ty` with the arguments `params`
/// starts with: as long as the longer of the parameters and the results, the slots of the
/// arguments first, zero behind them.
pub open spec fn call_frame(ty: Signature, params: Seq<Val>) -> Seq<i128> {
    let len = if ty.params.len() >= ty.results.len() {
        ty.params.len()
    } else {
        ty.results.len()
    };
    frame_with(Seq::new(len, |i: int| 0i128), params)
}

/// Why a call of a function of signature `ty` with the arguments `params`, and with
/// `results` as the place for the results, is refused before any code runs; `None` where it
/// is not.
///
/// The number of the arguments is held against the parameters first, then the length of
/// the place against the results, then the types of the arguments against the parameters.
pub open spec fn refusal(ty: Signature, params: Seq<Val>, results: Seq<Val>) -> Option<
    RuntimeErrorView,
> {
    if params.len() != ty.params.len() {
        Some(RuntimeErrorView::ParameterMismatch { found: value_types(params), expected: ty })
    } else if results.len() != ty.results.len() {
        Some(RuntimeErrorView::ResultMismatch { found: value_types(results), expected: ty })
    } else if value_types(params) != ty.params {
        Some(RuntimeErrorView::ParameterMismatch { found: value_types(params), expected: ty })
    } else {
        None
    }
}

impl<S, T: Trampoline, E, C> Function<S, T, E, C> {
    /// The signature of the function.
    pub fn ty(&self) -> (ty: &FunctionType)
        ensures
            ty == self.exported.signature,
    {
        &self.exported.signature
    }

    /// The store that the function belongs to.
    pub fn store(&self) -> (store: &S)
        ensures
            store == self.store,
    {
        &self.store
    }

    /// How many parameters the function takes.
    pub fn param_arity(&self) -> (arity: usize)
        ensures
            arity == self.exported.signature@.params.len(),
    {
        self.ty().params().len()
    }

    /// How many results the function gives.
    pub fn result_arity(&self) -> (arity: usize)
        ensures
            arity == self.exported.signature@.results.len(),
    {
        self.ty().results().len()
    }

    /// The function as a table holds it, under the index `type_index` that the engine gave
    /// to its signature.
    pub fn checked_anyfunc(&self, type_index: u32) -> (anyfunc: VMCallerCheckedAnyfunc<'_, E, C>)
        ensures
            anyfunc.func_ptr == self.exported.address,
            anyfunc.type_index == type_index,
            anyfunc.vmctx == &self.exported.vmctx,
    {
        VMCallerCheckedAnyfunc {
            func_ptr: self.exported.address,
            type_index,
            vmctx: &self.exported.vmctx,
        }
    }
}

impl<S, T: Trampoline> Function<S, T> {
    /// Calls a guest function through its trampoline.
    ///
    /// A call that `refusal` names a reason against fails with that reason, and the
    /// trampoline is not entered. Every other call enters the trampoline, once, with the
    /// context and the code of the function and with the frame of the arguments. A failure
    /// of the trampoline is handed on. From the frame that it gives back, the results are
    /// read under the types of the signature and written to `results`.
    pub fn call_wasm(
        &self,
        func: &WasmFunctionDefinition<T>,
        params: &[Val],
        results: &mut [Val],
    ) -> (r: Result<(), RuntimeError>)
        ensures
            match refusal(self.exported.signature@, params@, old(results)@) {
                Some(reason) => {
                    &&& r matches Err(error)
                    &&& error@ == reason
                    &&& final(results)@ == old(results)@
                },
                None => exists|out: Result<Vec<i128>, RuntimeError>|
                    {
                        &&& #[trigger] func.trampoline.may_return(
                            &self.exported.vmctx,
                            self.exported.address,
                            call_frame(self.exported.signature@, params@),
                            out,
                        )
                        &&& match out {
                            Err(error) => r == Err::<(), RuntimeError>(error) && final(results)@
                                == old(results)@,
                            Ok(frame) => r is Ok && final(results)@ == frame_values(
                                frame@,
                                self.exported.signature@.results,
                            ),
                        }
                    },
            },
    {
        let signature = self.ty();
        if signature.params().len() != params.len() {
            return Err(
                RuntimeError::ParameterMismatch {
                    found: types_of(params),
                    expected: signature.clone(),
                },
            );
        }
        if signature.results().len() != results.len() {
            return Err(
                RuntimeError::ResultMismatch {
                    found: types_of(results),
                    expected: signature.clone(),
                },
            );
        }
        let len = if params.len() >= results.len() {
            params.len()
        } else {
            results.len()
        };
        let mut values_vec: Vec<i128> = vec![0; len];

        // The arguments go into the frame, each held against the type of its parameter.
        let param_tys = signature.params();
        let mut i: usize = 0;
        while i < params.len()
            invariant
                i <= params@.len(),
                params@.len() == param_tys@.len(),
                param_tys@ == self.exported.signature@.params,
                params@.len() <= len,
                values_vec@.len() == len,
                results@ == old(results)@,
                results@.len() == self.exported.signature@.results.len(),
                signature@ == self.exported.signature@,
                forall|j: int| 0 <= j < i ==> params@[j].ty_spec() == param_tys@[j],
                forall|j: int| 0 <= j < i ==> values_vec@[j] == scalar_to_slot(params@[j]),
                forall|j: int| i <= j < len ==> values_vec@[j] == 0,
            decreases params@.len() - i,
        {
            if params[i].ty() != param_tys[i] {
                proof {
                    assert(value_types(params@)[i as int] != param_tys@[i as int]);
                }
                return Err(
                    RuntimeError::ParameterMismatch {
                        found: types_of(params),
                        expected: signature.clone(),
                    },
                );
            }
            values_vec.set(i, scalar_to_slot(params[i]));
            i += 1;
        }
        proof {
            assert(value_types(params@) =~= param_tys@);
            assert(values_vec@ =~= call_frame(self.exported.signature@, params@));
        }

        // The trampoline runs the code on the frame.
        let values_vec = match func.trampoline.call(
            &self.exported.vmctx,
            self.exported.address,
            values_vec,
        ) {
            Err(error) => {
                return Err(error);
            },
            Ok(values_vec) => values_vec,
        };

        // The results come out of the frame.
        let result_tys = signature.results();
        let mut index: usize = 0;
        while index < result_tys.len()
            invariant
                index <= result_tys@.len(),
                result_tys@.len() == results@.len(),
                result_tys@.len() <= values_vec@.len(),
                forall|j: int|
                    0 <= j < index ==> results@[j] == crate::slot::slot_to_scalar_spec(
                        values_vec@[j],
                        result_tys@[j],
                    ),
            decreases result_tys@.len() - index,
        {
            results[index] = crate::slot::slot_to_scalar(values_vec[index], result_tys[index]);
            index += 1;
        }
        proof {
            assert(results@ =~= frame_values(values_vec@, result_tys@));
        }
        Ok(())
    }

    /// Calls the function with `params`. Only a function defined in a WebAssembly module
    /// can be called this way.
    ///
    /// Arguments whose types are not the parameters of the signature, one for one, fail
    /// with `ParameterMismatch`, and the trampoline is not entered. Every other call enters
    /// the trampoline, once, with the context and the code of the function and with the
    /// frame of the arguments. A failure of the trampoline is handed on; from a frame that
    /// it gives back, the results are read under the types of the signature.
    pub fn call(&self, params: &[Val]) -> (r: Result<Vec<Val>, RuntimeError>)
        requires
            self.definition is Wasm,
        ensures
            value_types(params@) != self.exported.signature@.params ==> {
                &&& r matches Err(error)
                &&& error@ == (RuntimeErrorView::ParameterMismatch {
                    found: value_types(params@),
                    expected: self.exported.signature@,
                })
            },
            value_types(params@) == self.exported.signature@.params ==> exists|
                out: Result<Vec<i128>, RuntimeError>,
            |
                {
                    &&& #[trigger] self.definition->Wasm_0.trampoline.may_return(
                        &self.exported.vmctx,
                        self.exported.address,
                        call_frame(self.exported.signature@, params@),
                        out,
                    )
                    &&& match out {
                        Err(error) => r == Err::<Vec<Val>, RuntimeError>(error),
                        Ok(frame) => {
                            &&& r matches Ok(values)
                            &&& values@ == frame_values(frame@, self.exported.signature@.results)
                        },
                    }
                },
    {
        let mut results: Vec<Val> = vec![Val::I32(0); self.result_arity()];
        match &self.definition {
            FunctionDefinition::Wasm(wasm) => {
                match self.call_wasm(wasm, params, results.as_mut_slice()) {
                    Err(error) => Err(error),
                    Ok(()) => Ok(results),
                }
            },
            FunctionDefinition::Host(_) => unreached(),
        }
    }

    /// The function that the engine exports as `wasmer_export`, with the trampoline that
    /// the engine resolved for its signature. An engine that has no trampoline for the
    /// signature of one of its own functions is broken: there is no function to make then.
    pub fn from_export(
        store: &S,
        trampoline: Option<T>,
        wasmer_export: ExportFunction,
    ) -> (function: Self) where S: Clone
        requires
            trampoline is Some,
        ensures
            cloned(*store, function.store),
            !function.owned_by_store,
            function.definition matches FunctionDefinition::Wasm(wasm) && wasm.trampoline
                == trampoline->Some_0,
            function.exported == wasmer_export,
    {
        let resolved = trampoline.unwrap();
        Function {
            store: store.clone(),
            owned_by_store: false,
            definition: FunctionDefinition::Wasm(WasmFunctionDefinition { trampoline: resolved }),
            exported: wasmer_export,
        }
    }
}

/// A function whose parameters are known to be `Args` and whose results are known to be
/// `Rets`: what `Function::native` makes of a function of that signature.
pub struct NativeFunc<
    S,
    Args,
    Rets,
    T: Trampoline = VMTrampoline,
    E = (),
    C = VMDynamicFunctionBox<E>,
> {
    pub store: S,
    pub address: VMFunctionBody,
    pub vmctx: VMContext<E, C>,
    pub kind: VMFunctionKind,
    pub definition: FunctionDefinition<T>,
    pub _phantom: PhantomData<(Args, Rets)>,
}

impl<S, Args, Rets, T, E, C> NativeFunc<S, Args, Rets, T, E, C> where
    Args: WasmTypeList,
    Rets: WasmTypeList,
    T: Trampoline,
 {
    /// The typed function of the given parts.
    pub fn new(
        store: S,
        address: VMFunctionBody,
        vmctx: VMContext<E, C>,
        kind: VMFunctionKind,
        definition: FunctionDefinition<T>,
    ) -> (native: Self)
        ensures
            native.store == store,
            native.address == address,
            native.vmctx == vmctx,
            native.kind == kind,
            native.definition == definition,
    {
        NativeFunc { store, address, vmctx, kind, definition, _phantom: PhantomData }
    }
}

impl<S, T: Trampoline, E, C> Function<S, T, E, C> {
    /// The function with its signature in its type, where the signature is the value types
    /// of `Args` for the parameters and those of `Rets` for the results, in the same order
    /// and number. For every other signature there is no such function.
    pub fn native<Args, Rets>(self) -> (native: Option<NativeFunc<S, Args, Rets, T, E, C>>) where
        Args: WasmTypeList,
        Rets: WasmTypeList,

        ensures
            native is Some <==> self.exported.signature@.params == Args::wasm_types_spec()
                && self.exported.signature@.results == Rets::wasm_types_spec(),
            native matches Some(typed) ==> {
                &&& typed.store == self.store
                &&& typed.address == self.exported.address
                &&& typed.vmctx == self.exported.vmctx
                &&& typed.kind == self.exported.kind
                &&& typed.definition == self.definition
            },
    {
        if !same_types(self.exported.signature.params(), Args::wasm_types().as_slice()) {
            return None;
        }
        if !same_types(self.exported.signature.results(), Rets::wasm_types().as_slice()) {
            return None;
        }
        Some(
            NativeFunc::new(
                self.store,
                self.exported.address,
                self.exported.vmctx,
                self.exported.kind,
                self.definition,
            ),
        )
    }
}

impl<S: Clone> Function<S> {
    /// A function of the host whose signature the types of `func` fix, and that takes no
    /// environment.
    pub fn new<F, Args, Rets, Env>(store: &S, func: F) -> (function: Self) where
        F: HostFunction<Args, Rets, WithoutEnv, Env>,
        Args: WasmTypeList,
        Rets: WasmTypeList,
        Env: Sized + 'static,

        ensures
            cloned(*store, function.store),
            function.owned_by_store,
            function.definition == FunctionDefinition::<VMTrampoline>::Host(
                HostFunctionDefinition { has_env: false },
            ),
            function.exported.address == VMFunctionBody::StaticWrapper,
            function.exported.vmctx is Null,
            function.exported.signature@.params == Args::wasm_types_spec(),
            function.exported.signature@.results == Rets::wasm_types_spec(),
            function.exported.kind == VMFunctionKind::Static,
    {
        let function = crate::host::Function::<Args, Rets>::new(func);
        let address = function.address();
        let vmctx = VMContext::Null;
        let signature = function.ty();

        Self {
            store: store.clone(),
            owned_by_store: true,
            definition: FunctionDefinition::Host(HostFunctionDefinition { has_env: false }),
            exported: ExportFunction { address, vmctx, signature, kind: VMFunctionKind::Static },
        }
    }
}

impl<S: Clone, Env: Sized + 'static> Function<S, VMTrampoline, Env> {
    /// A function of the host whose signature the types of `func` fix, and that takes the
    /// environment `env`. The function owns the environment from now on.
    pub fn new_env<F, Args, Rets>(store: &S, env: Env, func: F) -> (function: Self) where
        F: HostFunction<Args, Rets, WithEnv, Env>,
        Args: WasmTypeList,
        Rets: WasmTypeList,

        ensures
            cloned(*store, function.store),
            function.owned_by_store,
            function.definition == FunctionDefinition::<VMTrampoline>::Host(
                HostFunctionDefinition { has_env: true },
            ),
            function.exported.address == VMFunctionBody::StaticWrapper,
            function.exported.vmctx matches VMContext::Environment(boxed) && *boxed == env,
            function.exported.signature@.params == Args::wasm_types_spec(),
            function.exported.signature@.results == Rets::wasm_types_spec(),
            function.exported.kind == VMFunctionKind::Static,
    {
        let function = crate::host::Function::<Args, Rets>::new(func);
        let address = function.address();

        let box_env = Box::new(env);
        let vmctx = VMContext::Environment(box_env);
        let signature = function.ty();

        Self {
            store: store.clone(),
            owned_by_store: true,
            definition: FunctionDefinition::Host(HostFunctionDefinition { has_env: true }),
            exported: ExportFunction { address, kind: VMFunctionKind::Static, vmctx, signature },
        }
    }
}

impl<S: Clone, F> Function<S, VMTrampoline, (), VMDynamicFunctionWithoutEnv<F>> where
    F: Fn(&[Val]) -> Result<Vec<Val>, RuntimeError> + 'static,
 {
    /// A function of the host of the signature `ty`, which takes its arguments as a slice
    /// of values and returns its results as a vector of values, and takes no environment.
    ///
    /// The function has no address yet: the linker gives it one. Its context is the
    /// dynamic function that calls `func`, with the address of the wrapper beside it.
    pub fn new_dynamic(store: &S, ty: &FunctionType, func: F) -> (function: Self)
        requires
            takes_values(func, ty@.params),
        ensures
            cloned(*store, function.store),
            function.owned_by_store,
            function.definition == FunctionDefinition::<VMTrampoline>::Host(
                HostFunctionDefinition { has_env: false },
            ),
            function.exported.address == VMFunctionBody::Null,
            function.exported.kind == VMFunctionKind::Dynamic,
            function.exported.signature@ == ty@,
            function.exported.vmctx matches VMContext::Dynamic(context) && context.address
                == VMFunctionBody::DynamicWrapper && context.ctx.wraps(func, ty@),
    {
        let dynamic_ctx = VMDynamicFunctionContext::from_context(
            VMDynamicFunctionWithoutEnv::new(func, ty.clone()),
        );
        // The linker installs the entry of a dynamic function: until then there is none.
        let address = VMFunctionBody::Null;
        let vmctx = VMContext::Dynamic(Box::new(dynamic_ctx));

        Self {
            store: store.clone(),
            owned_by_store: true,
            definition: FunctionDefinition::Host(HostFunctionDefinition { has_env: false }),
            exported: ExportFunction {
                address,
                kind: VMFunctionKind::Dynamic,
                vmctx,
                signature: ty.clone(),
            },
        }
    }
}

impl<S: Clone, Env, F> Function<S, VMTrampoline, Env, VMDynamicFunctionWithEnv<Env, F>> where
    F: Fn(&mut Env, &[Val]) -> Result<Vec<Val>, RuntimeError> + 'static,
    Env: Sized + 'static,
 {
    /// A function of the host of the signature `ty`, which takes its arguments as a slice
    /// of values and returns its results as a vector of values, and takes the environment
    /// `env`.
    ///
    /// The function has no address yet: the linker gives it one. Its context is the
    /// dynamic function that calls `func` with `env`, with the address of the wrapper
    /// beside it.
    pub fn new_dynamic_env(store: &S, ty: &FunctionType, env: Env, func: F) -> (function: Self)
        requires
            takes_values_with_env(func, ty@.params),
        ensures
            cloned(*store, function.store),
            function.owned_by_store,
            function.definition == FunctionDefinition::<VMTrampoline>::Host(
                HostFunctionDefinition { has_env: true },
            ),
            function.exported.address == VMFunctionBody::Null,
            function.exported.kind == VMFunctionKind::Dynamic,
            function.exported.signature@ == ty@,
            function.exported.vmctx matches VMContext::Dynamic(context) && context.address
                == VMFunctionBody::DynamicWrapper && context.ctx.wraps(func, env, ty@),
    {
        let dynamic_ctx = VMDynamicFunctionContext::from_context(
            VMDynamicFunctionWithEnv::new(ty.clone(), func, env),
        );
        // The linker installs the entry of a dynamic function: until then there is none.
        let address = VMFunctionBody::Null;
        let vmctx = VMContext::Dynamic(Box::new(dynamic_ctx));

        Self {
            store: store.clone(),
            owned_by_store: true,
            definition: FunctionDefinition::Host(HostFunctionDefinition { has_env: true }),
            exported: ExportFunction {
                address,
                kind: VMFunctionKind::Dynamic,
                vmctx,
                signature: ty.clone(),
            },
        }
    }
}

} // verus!
