//! Functions whose signature is data: the closure takes a slice of values and returns a
//! vector of values, and one wrapper enters every such closure with a frame.

use crate::slot::{
    frame_values, frame_with, lemma_frame_values_types, read_values, write_values,
};
use crate::types::{
    same_types, types_of, value_types, FunctionType, RuntimeError, RuntimeErrorView, Signature,
    Type, Val,
};
use crate::vm::VMFunctionBody;
use std::marker::PhantomData;
use vstd::prelude::*;

verus! {

/// What every dynamic function has: a signature, an environment, `()` where it has none, and
/// a closure to call with the environment and with values of the parameters' types.
pub trait VMDynamicFunction<Env> {
    /// The signature that the function was declared with.
    spec fn function_type_spec(&self) -> Signature;

    /// The environment as it is now.
    spec fn env_spec(&self) -> Env;

    /// Whether a call of the closure with `env`, a reference to the environment, and with
    /// `args` may end with `r`.
    spec fn may_return(
        &self,
        env: &mut Env,
        args: Seq<Val>,
        r: Result<Vec<Val>, RuntimeError>,
    ) -> bool;

    /// Calls the closure. It gets a reference to the environment as it is before the call,
    /// and what it leaves there is the environment after the call. The signature and the
    /// closure stay as they are.
    fn call(&mut self, args: &[Val]) -> (r: Result<Vec<Val>, RuntimeError>)
        requires
            value_types(args@) == old(self).function_type_spec().params,
        ensures
            exists|given: &mut Env|
                {
                    &&& *given == old(self).env_spec()
                    &&& *final(given) == final(self).env_spec()
                    &&& #[trigger] old(self).may_return(given, args@, r)
                },
            final(self).function_type_spec() == old(self).function_type_spec(),
            forall|env: &mut Env, values: Seq<Val>, outcome: Result<Vec<Val>, RuntimeError>|
                #[trigger] final(self).may_return(env, values, outcome) == old(self).may_return(
                    env,
                    values,
                    outcome,
                ),
    ;

    /// The signature that the function was declared with.
    fn function_type(&self) -> (ty: &FunctionType)
        ensures
            ty@ == self.function_type_spec(),
    ;
}

/// Whether `func` can be called with every list of values of the types `params`.
pub open spec fn takes_values<F>(func: F, params: Seq<Type>) -> bool where
    F: Fn(&[Val]) -> Result<Vec<Val>, RuntimeError>,
 {
    forall|args: &[Val]| value_types(args@) == params ==> call_requires(func, (args,))
}

/// A dynamic function without an environment.
pub struct VMDynamicFunctionWithoutEnv<F> where F: Fn(&[Val]) -> Result<Vec<Val>, RuntimeError> {
    func: F,
    function_type: FunctionType,
}

impl<F> VMDynamicFunctionWithoutEnv<F> where F: Fn(&[Val]) -> Result<Vec<Val>, RuntimeError> {
    #[verifier::type_invariant]
    spec fn inv(self) -> bool {
        takes_values(self.func, self.function_type@.params)
    }

    /// The closure of the function.
    pub closed spec fn func(self) -> F {
        self.func
    }

    /// The signature of the function.
    pub closed spec fn ty(self) -> Signature {
        self.function_type@
    }

    /// Whether this is the dynamic function of signature `ty` that calls `func`: a call of
    /// it may end with whatever a call of `func` with the same values may end with, and
    /// with nothing else.
    pub open spec fn wraps(self, func: F, ty: Signature) -> bool {
        &&& self.func() == func
        &&& self.ty() == ty
        &&& self.function_type_spec() == ty
        &&& forall|env: &mut (), args: Seq<Val>, r: Result<Vec<Val>, RuntimeError>|
            #[trigger] self.may_return(env, args, r) <==> exists|given: &[Val]|
                given@ == args && call_ensures(func, (given,), r)
    }

    /// The dynamic function of signature `function_type` that calls `func`.
    pub fn new(func: F, function_type: FunctionType) -> (function: Self)
        requires
            takes_values(func, function_type@.params),
        ensures
            function.wraps(func, function_type@),
    {
        VMDynamicFunctionWithoutEnv { func, function_type }
    }
}

impl<F> VMDynamicFunction<()> for VMDynamicFunctionWithoutEnv<F> where
    F: Fn(&[Val]) -> Result<Vec<Val>, RuntimeError>,
 {
    open spec fn function_type_spec(&self) -> Signature {
        self.ty()
    }

    open spec fn env_spec(&self) -> () {
        ()
    }

    open spec fn may_return(
        &self,
        env: &mut (),
        args: Seq<Val>,
        r: Result<Vec<Val>, RuntimeError>,
    ) -> bool {
        exists|given: &[Val]| given@ == args && call_ensures(self.func(), (given,), r)
    }

    fn call(&mut self, args: &[Val]) -> (r: Result<Vec<Val>, RuntimeError>)
        ensures
            final(self).func() == old(self).func(),
    {
        proof {
            use_type_invariant(&*self);
        }
        let r = (self.func)(args);
        proof {
            assert(old(self).may_return(arbitrary::<&mut ()>(), args@, r));
        }
        r
    }

    fn function_type(&self) -> (ty: &FunctionType) {
        &self.function_type
    }
}

/// Whether `func` can be called with every environment and every list of values of the
/// types `params`.
pub open spec fn takes_values_with_env<Env, F>(func: F, params: Seq<Type>) -> bool where
    F: Fn(&mut Env, &[Val]) -> Result<Vec<Val>, RuntimeError>,
 {
    forall|env: &mut Env, args: &[Val]|
        value_types(args@) == params ==> call_requires(func, (env, args))
}

/// The closure of a dynamic function with an environment, beside the signature that it was
/// declared with.
struct EnvClosure<Env, F> where F: Fn(&mut Env, &[Val]) -> Result<Vec<Val>, RuntimeError> {
    function_type: FunctionType,
    func: F,
    _env: PhantomData<Env>,
}

impl<Env, F> EnvClosure<Env, F> where F: Fn(&mut Env, &[Val]) -> Result<Vec<Val>, RuntimeError> {
    #[verifier::type_invariant]
    spec fn inv(self) -> bool {
        takes_values_with_env(self.func, self.function_type@.params)
    }

    fn call(&self, env: &mut Env, args: &[Val]) -> (r: Result<Vec<Val>, RuntimeError>)
        requires
            value_types(args@) == self.function_type@.params,
        ensures
            exists|given: &mut Env|
                {
                    &&& *given == *old(env)
                    &&& *final(given) == *final(env)
                    &&& call_ensures(self.func, (given, args), r)
                },
    {
        proof {
            use_type_invariant(self);
        }
        (self.func)(env, args)
    }
}

/// A dynamic function with an environment, which it owns. A call needs the function
/// exclusively, so that no second call can reach the environment while the first one runs.
pub struct VMDynamicFunctionWithEnv<Env, F> where
    F: Fn(&mut Env, &[Val]) -> Result<Vec<Val>, RuntimeError>,
 {
    closure: EnvClosure<Env, F>,
    env: Env,
}

impl<Env, F> VMDynamicFunctionWithEnv<Env, F> where
    F: Fn(&mut Env, &[Val]) -> Result<Vec<Val>, RuntimeError>,
 {
    /// The closure of the function.
    pub closed spec fn func(self) -> F {
        self.closure.func
    }

    /// The environment as it is now.
    pub closed spec fn env(self) -> Env {
        self.env
    }

    /// The signature of the function.
    pub closed spec fn ty(self) -> Signature {
        self.closure.function_type@
    }

    /// Whether this is the dynamic function of signature `ty` that calls `func`, with `env`
    /// as its environment now: a call of it may end with whatever a call of `func` with the
    /// same environment and the same values may end with, and with nothing else.
    pub open spec fn wraps(self, func: F, env: Env, ty: Signature) -> bool {
        &&& self.func() == func
        &&& self.env() == env
        &&& self.env_spec() == env
        &&& self.ty() == ty
        &&& self.function_type_spec() == ty
        &&& forall|given_env: &mut Env, args: Seq<Val>, r: Result<Vec<Val>, RuntimeError>|
            #[trigger] self.may_return(given_env, args, r) <==> exists|given: &[Val]|
                given@ == args && call_ensures(func, (given_env, given), r)
    }

    /// The dynamic function of signature `function_type` that calls `func` with `env`.
    pub fn new(function_type: FunctionType, func: F, env: Env) -> (function: Self)
        requires
            takes_values_with_env(func, function_type@.params),
        ensures
            function.wraps(func, env, function_type@),
    {
        VMDynamicFunctionWithEnv {
            closure: EnvClosure { function_type, func, _env: PhantomData },
            env,
        }
    }
}

impl<Env, F> VMDynamicFunction<Env> for VMDynamicFunctionWithEnv<Env, F> where
    F: Fn(&mut Env, &[Val]) -> Result<Vec<Val>, RuntimeError>,
 {
    open spec fn function_type_spec(&self) -> Signature {
        self.ty()
    }

    open spec fn env_spec(&self) -> Env {
        self.env()
    }

    open spec fn may_return(
        &self,
        env: &mut Env,
        args: Seq<Val>,
        r: Result<Vec<Val>, RuntimeError>,
    ) -> bool {
        exists|given: &[Val]| given@ == args && call_ensures(self.func(), (env, given), r)
    }

    fn call(&mut self, args: &[Val]) -> (r: Result<Vec<Val>, RuntimeError>)
        ensures
            final(self).func() == old(self).func(),
    {
        let ghost before = self.env;
        let r = self.closure.call(&mut self.env, args);
        proof {
            let given = choose|given: &mut Env|
                {
                    &&& *given == before
                    &&& *final(given) == self.env
                    &&& call_ensures(self.closure.func, (given, args), r)
                };
            assert(old(self).may_return(given, args@, r));
        }
        r
    }

    fn function_type(&self) -> (ty: &FunctionType) {
        &self.closure.function_type
    }
}

/// Whether `r` and `frame_after` are what the wrapper of a dynamic function of signature
/// `ty` makes of `returned`, the outcome of the closure, and of `frame`, the frame it was
/// entered with.
///
/// A failure of the closure is handed on and the frame is left alone. Values of the declared
/// result types are written over the first positions of the frame. Values of other types, or
/// more or fewer of them, are a failure that names both lists of types, and the frame is
/// left alone.
pub open spec fn wrapper_outcome(
    ty: Signature,
    frame: Seq<i128>,
    returned: Result<Vec<Val>, RuntimeError>,
    r: Result<(), RuntimeError>,
    frame_after: Seq<i128>,
) -> bool {
    match returned {
        Err(error) => r == Err::<(), RuntimeError>(error) && frame_after == frame,
        Ok(values) => if value_types(values@) == ty.results {
            r is Ok && frame_after == frame_with(frame, values@)
        } else {
            &&& r matches Err(error)
            &&& error@ == (RuntimeErrorView::DynamicResultMismatch {
                declared: ty.results,
                returned: value_types(values@),
            })
            &&& frame_after == frame
        },
    }
}

/// Holds what a closure returned against the declared results and, where they agree,
/// writes the values into the frame.
pub fn write_results(
    ty: &FunctionType,
    returned: Result<Vec<Val>, RuntimeError>,
    values_vec: &mut Vec<i128>,
) -> (r: Result<(), RuntimeError>)
    requires
        ty@.results.len() <= old(values_vec)@.len(),
    ensures
        wrapper_outcome(ty@, old(values_vec)@, returned, r, final(values_vec)@),
{
    match returned {
        Err(error) => Err(error),
        Ok(values) => {
            let return_types = types_of(values.as_slice());
            if !same_types(return_types.as_slice(), ty.results()) {
                let declared = types_of_results(ty);
                return Err(
                    RuntimeError::DynamicResultMismatch { declared, returned: return_types },
                );
            }
            write_values(values_vec, values.as_slice());
            Ok(())
        },
    }
}

/// The declared results of `ty`, in a vector of their own.
fn types_of_results(ty: &FunctionType) -> (results: Vec<Type>)
    ensures
        results@ == ty@.results,
{
    let declared = ty.results();
    let mut results: Vec<Type> = Vec::new();
    let mut i: usize = 0;
    while i < declared.len()
        invariant
            i <= declared@.len(),
            results@.len() == i,
            forall|j: int| 0 <= j < i ==> results@[j] == declared@[j],
        decreases declared@.len() - i,
    {
        results.push(declared[i]);
        i += 1;
    }
    proof {
        assert(results@ =~= declared@);
    }
    results
}

/// A dynamic function whose closure is no longer known by its type.
impl<Env> VMDynamicFunction<Env> for Box<dyn VMDynamicFunction<Env>> {
    open spec fn function_type_spec(&self) -> Signature {
        (**self).function_type_spec()
    }

    open spec fn env_spec(&self) -> Env {
        (**self).env_spec()
    }

    open spec fn may_return(
        &self,
        env: &mut Env,
        args: Seq<Val>,
        r: Result<Vec<Val>, RuntimeError>,
    ) -> bool {
        (**self).may_return(env, args, r)
    }

    fn call(&mut self, args: &[Val]) -> (r: Result<Vec<Val>, RuntimeError>) {
        let r = (**self).call(args);
        proof {
            let given = choose|given: &mut Env|
                {
                    &&& *given == (**old(self)).env_spec()
                    &&& *final(given) == (**self).env_spec()
                    &&& #[trigger] (**old(self)).may_return(given, args@, r)
                };
            assert(old(self).may_return(given, args@, r));
        }
        r
    }

    fn function_type(&self) -> (ty: &FunctionType) {
        (**self).function_type()
    }
}

/// The context of a dynamic function: the function, and the wrapper through which it is
/// entered.
pub struct VMDynamicFunctionContext<T> {
    /// The wrapper that enters the function with a frame.
    pub address: VMFunctionBody,
    /// The function.
    pub ctx: T,
}

impl<T> VMDynamicFunctionContext<T> {
    /// The context of `ctx`, with the address of the wrapper beside it.
    pub fn from_context(ctx: T) -> (context: Self)
        ensures
            context.address == VMFunctionBody::DynamicWrapper,
            context.ctx == ctx,
    {
        VMDynamicFunctionContext { address: Self::address_ptr(), ctx }
    }

    /// Where the wrapper of dynamic functions starts.
    pub fn address_ptr() -> (address: VMFunctionBody)
        ensures
            address == VMFunctionBody::DynamicWrapper,
    {
        VMFunctionBody::DynamicWrapper
    }

    /// Enters the function with a frame: reads the arguments out of the frame under the types
    /// of the parameters, calls the closure with them, and makes of its outcome what
    /// `wrapper_outcome` says. The closure gets a reference to the environment as it is
    /// before the call, and what it leaves there is the environment after the call. The
    /// signature and the closure stay as they are.
    pub fn func_wrapper<Env>(&mut self, values_vec: &mut Vec<i128>) -> (r: Result<
        (),
        RuntimeError,
    >) where T: VMDynamicFunction<Env>
        requires
            old(self).ctx.function_type_spec().params.len() <= old(values_vec)@.len(),
            old(self).ctx.function_type_spec().results.len() <= old(values_vec)@.len(),
        ensures
            exists|given: &mut Env, returned: Result<Vec<Val>, RuntimeError>|
                {
                    &&& *given == old(self).ctx.env_spec()
                    &&& *final(given) == final(self).ctx.env_spec()
                    &&& #[trigger] old(self).ctx.may_return(
                        given,
                        frame_values(
                            old(values_vec)@,
                            old(self).ctx.function_type_spec().params,
                        ),
                        returned,
                    )
                    &&& wrapper_outcome(
                        old(self).ctx.function_type_spec(),
                        old(values_vec)@,
                        returned,
                        r,
                        final(values_vec)@,
                    )
                },
            final(self).address == old(self).address,
            final(self).ctx.function_type_spec() == old(self).ctx.function_type_spec(),
            forall|env: &mut Env, values: Seq<Val>, outcome: Result<Vec<Val>, RuntimeError>|
                #[trigger] final(self).ctx.may_return(env, values, outcome) == old(
                    self,
                ).ctx.may_return(env, values, outcome),
    {
        let args = read_values(values_vec.as_slice(), self.ctx.function_type().params());
        proof {
            lemma_frame_values_types(values_vec@, self.ctx.function_type_spec().params);
        }
        let returned = self.ctx.call(args.as_slice());
        write_results(self.ctx.function_type(), returned, values_vec)
    }
}

} // verus!
