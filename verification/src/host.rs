//! Typed host functions: closures of scalar values, the wrapper that enters one with native
//! arguments, and what the wrapper does with what comes back.
//!
//! A closure of up to twenty-six scalar parameters is a host function; so is a closure that
//! takes a mutable environment before them. The closure returns a list of scalar values, or a
//! `Result` of one.

pub mod closures;

use crate::type_list::WasmTypeList;
use crate::types::FunctionType;
use crate::vm::VMFunctionBody;
use std::convert::Infallible;
use std::marker::PhantomData;
use vstd::prelude::*;

verus! {

/// What a host closure returns, seen as a `Result`: the list of results, or the failure that
/// the closure raised.
pub trait IntoResult<T> where T: WasmTypeList {
    /// The failure that the closure can raise.
    type Error;

    /// The value as a `Result`.
    spec fn into_result_spec(self) -> Result<T, Self::Error>;

    /// Turns the value into a `Result`.
    fn into_result(self) -> (r: Result<T, Self::Error>)
        ensures
            r == self.into_result_spec(),
    ;
}

/// A list of results is a success: there is no failure to build.
impl<T> IntoResult<T> for T where T: WasmTypeList {
    type Error = Infallible;

    open spec fn into_result_spec(self) -> Result<T, Infallible> {
        Ok(self)
    }

    fn into_result(self) -> (r: Result<Self, Infallible>) {
        Ok(self)
    }
}

/// A `Result` is what it is.
impl<T, E> IntoResult<T> for Result<T, E> where T: WasmTypeList, E: Sync + Send + 'static {
    type Error = E;

    open spec fn into_result_spec(self) -> Result<T, E> {
        self
    }

    fn into_result(self) -> (r: Self) {
        self
    }
}

/// The two kinds of host function: with an environment, and without one.
pub trait HostFunctionKind {

}

/// Marks a host function that takes an environment.
pub struct WithEnv;

impl HostFunctionKind for WithEnv {

}

/// Marks a host function that takes no environment.
pub struct WithoutEnv;

impl HostFunctionKind for WithoutEnv {

}

/// A closure that can be a host function of the parameters `Args` and the results `Rets`.
/// `T` is the environment, `()` where `Kind` is `WithoutEnv`.
pub trait HostFunction<Args, Rets, Kind, T>: Sized where
    Args: WasmTypeList,
    Rets: WasmTypeList,
    Kind: HostFunctionKind,
    T: Sized,
 {
    /// The failure that the closure can raise.
    type Error;

    /// Whether the closure may be called with `args` in the environment `env`.
    spec fn accepts(&self, env: T, args: Args) -> bool;

    /// Whether a call with `args` and with `env`, a reference to the environment, may end
    /// with `r`.
    spec fn may_return(&self, env: &mut T, args: Args, r: Result<Rets, Self::Error>) -> bool;

    /// Calls the closure with the values of `args`, one argument for each. The closure gets a
    /// reference to the environment as it is before the call, and what it leaves there is
    /// the environment after the call.
    fn call(&self, env: &mut T, args: Args) -> (r: Result<Rets, Self::Error>)
        requires
            self.accepts(*old(env), args),
        ensures
            exists|given: &mut T|
                {
                    &&& *given == *old(env)
                    &&& *final(given) == *final(env)
                    &&& #[trigger] self.may_return(given, args, r)
                },
    ;

    /// Where the wrapper of the closure starts.
    fn function_body_ptr(self) -> (address: VMFunctionBody)
        ensures
            address == VMFunctionBody::StaticWrapper,
    {
        VMFunctionBody::StaticWrapper
    }
}

/// What the wrapper of a host function hands to the engine for `returned`, the outcome of the
/// closure: the natives of the results, or the failure as it is.
pub open spec fn wrapper_result<Rets: WasmTypeList, E>(returned: Result<Rets, E>) -> Result<
    Rets::CStruct,
    E,
> {
    match returned {
        Ok(results) => Ok(results.into_c_struct_spec()),
        Err(trap) => Err(trap),
    }
}

/// Enters a host function with native arguments: builds each argument from its native, calls
/// the closure, and lays the results into natives. A failure of the closure comes back as it
/// is, for the caller to raise as a trap.
pub fn func_wrapper<Args, Rets, Kind, T, E, Func>(
    func: &Func,
    env: &mut T,
    args: Args::CStruct,
) -> (r: Result<Rets::CStruct, E>) where
    Args: WasmTypeList,
    Rets: WasmTypeList,
    Kind: HostFunctionKind,
    T: Sized,
    Func: HostFunction<Args, Rets, Kind, T, Error = E>,

    requires
        func.accepts(*old(env), Args::from_c_struct_spec(args)),
    ensures
        exists|given: &mut T, returned: Result<Rets, E>|
            {
                &&& *given == *old(env)
                &&& *final(given) == *final(env)
                &&& #[trigger] func.may_return(given, Args::from_c_struct_spec(args), returned)
                &&& r == wrapper_result(returned)
            },
{
    match func.call(env, Args::from_c_struct(args)) {
        Ok(results) => Ok(results.into_c_struct()),
        Err(trap) => Err(trap),
    }
}

/// What a wrapper does once the closure has been left.
pub enum WrapperAction<C, E, P> {
    /// Return to the caller with what the closure gave.
    Return(C),
    /// Raise the failure of the closure as a trap, which the guest's caller sees.
    RaiseUserTrap(E),
    /// Resume the fault that stopped the closure, so that it goes on from where it arose.
    ResumePanic(P),
}

/// Decides what a wrapper does with `result`: what the closure gave where it ran to its end,
/// or the fault that stopped it.
pub fn wrapper_action<C, E, P>(result: Result<Result<C, E>, P>) -> (action: WrapperAction<C, E, P>)
    ensures
        action == match result {
            Ok(Ok(given)) => WrapperAction::<C, E, P>::Return(given),
            Ok(Err(trap)) => WrapperAction::<C, E, P>::RaiseUserTrap(trap),
            Err(panic) => WrapperAction::<C, E, P>::ResumePanic(panic),
        },
{
    match result {
        Ok(Ok(given)) => WrapperAction::Return(given),
        Ok(Err(trap)) => WrapperAction::RaiseUserTrap(trap),
        Err(panic) => WrapperAction::ResumePanic(panic),
    }
}

/// A static host function at its lowest: where its wrapper starts, and the lists that it was
/// made for.
#[derive(Debug, Hash, PartialEq, Eq)]
pub struct Function<Args = (), Rets = ()> {
    address: VMFunctionBody,
    _phantom: PhantomData<(Args, Rets)>,
}

impl<Args, Rets> Clone for Function<Args, Rets> {
    fn clone(&self) -> (host: Self)
        ensures
            host == *self,
    {
        Self { address: self.address, _phantom: PhantomData }
    }
}

impl<Args, Rets> Function<Args, Rets> where Args: WasmTypeList, Rets: WasmTypeList {
    /// Where the wrapper starts.
    pub closed spec fn address_spec(&self) -> VMFunctionBody {
        self.address
    }

    /// The host function of the closure `function`.
    pub fn new<F, T, E>(function: F) -> (host: Self) where
        F: HostFunction<Args, Rets, T, E>,
        T: HostFunctionKind,
        E: Sized,

        ensures
            host.address_spec() == VMFunctionBody::StaticWrapper,
    {
        Self { address: function.function_body_ptr(), _phantom: PhantomData }
    }

    /// The signature of the function: the value types of `Args`, then those of `Rets`.
    pub fn ty(&self) -> (ty: FunctionType)
        ensures
            ty@.params == Args::wasm_types_spec(),
            ty@.results == Rets::wasm_types_spec(),
    {
        FunctionType::new(Args::wasm_types(), Rets::wasm_types())
    }

    /// Where the wrapper starts.
    pub fn address(&self) -> (address: VMFunctionBody)
        ensures
            address == self.address_spec(),
    {
        self.address
    }
}

} // verus!
