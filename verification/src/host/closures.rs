//! Which closures are host functions: one impl for each number of parameters, without an
//! environment and with one.
//!
//! Beside each impl stands a lemma that says what `accepts` and `may_return` mean for such a
//! closure, over `call_requires` and `call_ensures` of the closure itself.

use crate::host::{HostFunction, IntoResult, WithEnv, WithoutEnv};
use crate::native::WasmExternType;
use crate::type_list::WasmTypeList;
use vstd::prelude::*;

verus! {

/// A closure of no parameters is a host function without an environment.
impl<Rets, RetsAsResult, Func> HostFunction<(), Rets, WithoutEnv, ()> for Func where
    Rets: WasmTypeList,
    RetsAsResult: IntoResult<Rets>,
    Func: Fn() -> RetsAsResult + 'static + Send,
{
    type Error = RetsAsResult::Error;

    open spec fn accepts(&self, env: (), args: ()) -> bool {
        call_requires(*self, ())
    }

    open spec fn may_return(
        &self,
        env: &mut (),
        args: (),
        r: Result<Rets, RetsAsResult::Error>,
    ) -> bool {
        exists|out: RetsAsResult|
            call_ensures(*self, (), out) && r == out.into_result_spec()
    }

    fn call(&self, env: &mut (), args: ()) -> (r: Result<Rets, RetsAsResult::Error>) {
        let r = self().into_result();
        proof {
            assert(self.may_return(old(env), args, r));
        }
        r
    }
}

/// What calling a closure of no parameters as a host function asks and promises,
/// said of the closure itself.
pub proof fn lemma_host_function_0<Rets, RetsAsResult, Func>(
    func: Func,
    env: (),
    args: (),
    r: Result<Rets, RetsAsResult::Error>,
) where
    Rets: WasmTypeList,
    RetsAsResult: IntoResult<Rets>,
    Func: Fn() -> RetsAsResult + 'static + Send,

    ensures
        HostFunction::<(), Rets, WithoutEnv, ()>::accepts(&func, env, args)
            <==> call_requires(func, ()),
        forall|given: &mut ()|
            #[trigger] HostFunction::<(), Rets, WithoutEnv, ()>::may_return(&func, given, args, r)
                <==> exists|out: RetsAsResult|
                    call_ensures(func, (), out) && r == out.into_result_spec(),
{
}

/// A closure of an environment and no parameters is a host function with an
/// environment.
impl<Rets, RetsAsResult, Env, Func> HostFunction<(), Rets, WithEnv, Env> for Func where
    Rets: WasmTypeList,
    RetsAsResult: IntoResult<Rets>,
    Env: Sized,
    Func: Fn(&mut Env) -> RetsAsResult + Send + 'static,
{
    type Error = RetsAsResult::Error;

    open spec fn accepts(&self, env: Env, args: ()) -> bool {
        forall|given: &mut Env|
            *given == env ==> call_requires(*self, (given,))
    }

    open spec fn may_return(
        &self,
        env: &mut Env,
        args: (),
        r: Result<Rets, RetsAsResult::Error>,
    ) -> bool {
        exists|out: RetsAsResult|
            call_ensures(*self, (env,), out) && r == out.into_result_spec()
    }

    fn call(&self, env: &mut Env, args: ()) -> (r: Result<Rets, RetsAsResult::Error>) {
        let ghost before = *env;
        let out = self(env);
        let r = out.into_result();
        proof {
            let given = choose|given: &mut Env|
                {
                    &&& *given == before
                    &&& *final(given) == *env
                    &&& call_ensures(*self, (given,), out)
                };
            assert(self.may_return(given, args, r));
        }
        r
    }
}

/// What calling a closure of an environment and no parameters as a host function
/// asks and promises, said of the closure itself.
pub proof fn lemma_host_function_env_0<Rets, RetsAsResult, Env, Func>(
    func: Func,
    env: Env,
    args: (),
    r: Result<Rets, RetsAsResult::Error>,
) where
    Rets: WasmTypeList,
    RetsAsResult: IntoResult<Rets>,
    Env: Sized,
    Func: Fn(&mut Env) -> RetsAsResult + Send + 'static,

    ensures
        HostFunction::<(), Rets, WithEnv, Env>::accepts(&func, env, args)
            <==> forall|given: &mut Env|
                *given == env ==> call_requires(func, (given,)),
        forall|given: &mut Env|
            #[trigger] HostFunction::<(), Rets, WithEnv, Env>::may_return(&func, given, args, r)
                <==> exists|out: RetsAsResult|
                    call_ensures(func, (given,), out) && r == out.into_result_spec(),
{
}

/// A closure of one parameter is a host function without an environment.
impl<A1, Rets, RetsAsResult, Func> HostFunction<A1, Rets, WithoutEnv, ()> for Func where
    A1: WasmExternType,
    Rets: WasmTypeList,
    RetsAsResult: IntoResult<Rets>,
    Func: Fn(A1) -> RetsAsResult + 'static + Send,
{
    type Error = RetsAsResult::Error;

    open spec fn accepts(&self, env: (), args: A1) -> bool {
        call_requires(*self, (args,))
    }

    open spec fn may_return(
        &self,
        env: &mut (),
        args: A1,
        r: Result<Rets, RetsAsResult::Error>,
    ) -> bool {
        exists|out: RetsAsResult|
            call_ensures(*self, (args,), out) && r == out.into_result_spec()
    }

    fn call(&self, env: &mut (), args: A1) -> (r: Result<Rets, RetsAsResult::Error>) {
        let a1 = args;
        let r = self(a1).into_result();
        proof {
            assert(self.may_return(old(env), args, r));
        }
        r
    }
}

/// What calling a closure of one parameter as a host function asks and promises,
/// said of the closure itself.
pub proof fn lemma_host_function_1<A1, Rets, RetsAsResult, Func>(
    func: Func,
    env: (),
    args: A1,
    r: Result<Rets, RetsAsResult::Error>,
) where
    A1: WasmExternType,
    Rets: WasmTypeList,
    RetsAsResult: IntoResult<Rets>,
    Func: Fn(A1) -> RetsAsResult + 'static + Send,

    ensures
        HostFunction::<A1, Rets, WithoutEnv, ()>::accepts(&func, env, args)
            <==> call_requires(func, (args,)),
        forall|given: &mut ()|
            #[trigger] HostFunction::<A1, Rets, WithoutEnv, ()>::may_return(&func, given, args, r)
                <==> exists|out: RetsAsResult|
                    call_ensures(func, (args,), out) && r == out.into_result_spec(),
{
}

/// A closure of an environment and one parameter is a host function with an
/// environment.
impl<A1, Rets, RetsAsResult, Env, Func> HostFunction<A1, Rets, WithEnv, Env> for Func where
    A1: WasmExternType,
    Rets: WasmTypeList,
    RetsAsResult: IntoResult<Rets>,
    Env: Sized,
    Func: Fn(&mut Env, A1) -> RetsAsResult + Send + 'static,
{
    type Error = RetsAsResult::Error;

    open spec fn accepts(&self, env: Env, args: A1) -> bool {
        forall|given: &mut Env|
            *given == env ==> call_requires(*self, (given, args))
    }

    open spec fn may_return(
        &self,
        env: &mut Env,
        args: A1,
        r: Result<Rets, RetsAsResult::Error>,
    ) -> bool {
        exists|out: RetsAsResult|
            call_ensures(*self, (env, args), out) && r == out.into_result_spec()
    }

    fn call(&self, env: &mut Env, args: A1) -> (r: Result<Rets, RetsAsResult::Error>) {
        let a1 = args;
        let ghost before = *env;
        let out = self(env, a1);
        let r = out.into_result();
        proof {
            let given = choose|given: &mut Env|
                {
                    &&& *given == before
                    &&& *final(given) == *env
                    &&& call_ensures(*self, (given, a1), out)
                };
            assert(self.may_return(given, args, r));
        }
        r
    }
}

/// What calling a closure of an environment and one parameter as a host function
/// asks and promises, said of the closure itself.
pub proof fn lemma_host_function_env_1<A1, Rets, RetsAsResult, Env, Func>(
    func: Func,
    env: Env,
    args: A1,
    r: Result<Rets, RetsAsResult::Error>,
) where
    A1: WasmExternType,
    Rets: WasmTypeList,
    RetsAsResult: IntoResult<Rets>,
    Env: Sized,
    Func: Fn(&mut Env, A1) -> RetsAsResult + Send + 'static,

    ensures
        HostFunction::<A1, Rets, WithEnv, Env>::accepts(&func, env, args)
            <==> forall|given: &mut Env|
                *given == env ==> call_requires(func, (given, args)),
        forall|given: &mut Env|
            #[trigger] HostFunction::<A1, Rets, WithEnv, Env>::may_return(&func, given, args, r)
                <==> exists|out: RetsAsResult|
                    call_ensures(func, (given, args), out) && r == out.into_result_spec(),
{
}

/// A closure of two parameters is a host function without an environment.
impl<A1, A2, Rets, RetsAsResult, Func> HostFunction<(A1, A2), Rets, WithoutEnv, ()> for Func where
    A1: WasmExternType,
    A2: WasmExternType,
    Rets: WasmTypeList,
    RetsAsResult: IntoResult<Rets>,
    Func: Fn(A1, A2) -> RetsAsResult + 'static + Send,
{
    type Error = RetsAsResult::Error;

    open spec fn accepts(&self, env: (), args: (A1, A2)) -> bool {
        call_requires(*self, (args.0, args.1))
    }

    open spec fn may_return(
        &self,
        env: &mut (),
        args: (A1, A2),
        r: Result<Rets, RetsAsResult::Error>,
    ) -> bool {
        exists|out: RetsAsResult|
            call_ensures(*self, (args.0, args.1), out) && r == out.into_result_spec()
    }

    fn call(&self, env: &mut (), args: (A1, A2)) -> (r: Result<Rets, RetsAsResult::Error>) {
        let (a1, a2) = args;
        let r = self(a1, a2).into_result();
        proof {
            assert(self.may_return(old(env), args, r));
        }
        r
    }
}

/// What calling a closure of two parameters as a host function asks and promises,
/// said of the closure itself.
pub proof fn lemma_host_function_2<A1, A2, Rets, RetsAsResult, Func>(
    func: Func,
    env: (),
    args: (A1, A2),
    r: Result<Rets, RetsAsResult::Error>,
) where
    A1: WasmExternType,
    A2: WasmExternType,
    Rets: WasmTypeList,
    RetsAsResult: IntoResult<Rets>,
    Func: Fn(A1, A2) -> RetsAsResult + 'static + Send,

    ensures
        HostFunction::<(A1, A2), Rets, WithoutEnv, ()>::accepts(&func, env, args)
            <==> call_requires(func, (args.0, args.1)),
        forall|given: &mut ()|
            #[trigger] HostFunction::<
                (A1, A2),
                Rets,
                WithoutEnv,
                (),
            >::may_return(&func, given, args, r)
                <==> exists|out: RetsAsResult|
                    call_ensures(func, (args.0, args.1), out) && r == out.into_result_spec(),
{
}

/// A closure of an environment and two parameters is a host function with an
/// environment.
impl<A1, A2, Rets, RetsAsResult, Env, Func> HostFunction<
    (A1, A2),
    Rets,
    WithEnv,
    Env,
> for Func where
    A1: WasmExternType,
    A2: WasmExternType,
    Rets: WasmTypeList,
    RetsAsResult: IntoResult<Rets>,
    Env: Sized,
    Func: Fn(&mut Env, A1, A2) -> RetsAsResult + Send + 'static,
{
    type Error = RetsAsResult::Error;

    open spec fn accepts(&self, env: Env, args: (A1, A2)) -> bool {
        forall|given: &mut Env|
            *given == env ==> call_requires(*self, (given, args.0, args.1))
    }

    open spec fn may_return(
        &self,
        env: &mut Env,
        args: (A1, A2),
        r: Result<Rets, RetsAsResult::Error>,
    ) -> bool {
        exists|out: RetsAsResult|
            call_ensures(*self, (env, args.0, args.1), out) && r == out.into_result_spec()
    }

    fn call(&self, env: &mut Env, args: (A1, A2)) -> (r: Result<Rets, RetsAsResult::Error>) {
        let (a1, a2) = args;
        let ghost before = *env;
        let out = self(env, a1, a2);
        let r = out.into_result();
        proof {
            let given = choose|given: &mut Env|
                {
                    &&& *given == before
                    &&& *final(given) == *env
                    &&& call_ensures(*self, (given, a1, a2), out)
                };
            assert(self.may_return(given, args, r));
        }
        r
    }
}

/// What calling a closure of an environment and two parameters as a host function
/// asks and promises, said of the closure itself.
pub proof fn lemma_host_function_env_2<A1, A2, Rets, RetsAsResult, Env, Func>(
    func: Func,
    env: Env,
    args: (A1, A2),
    r: Result<Rets, RetsAsResult::Error>,
) where
    A1: WasmExternType,
    A2: WasmExternType,
    Rets: WasmTypeList,
    RetsAsResult: IntoResult<Rets>,
    Env: Sized,
    Func: Fn(&mut Env, A1, A2) -> RetsAsResult + Send + 'static,

    ensures
        HostFunction::<(A1, A2), Rets, WithEnv, Env>::accepts(&func, env, args)
            <==> forall|given: &mut Env|
                *given == env ==> call_requires(func, (given, args.0, args.1)),
        forall|given: &mut Env|
            #[trigger] HostFunction::<
                (A1, A2),
                Rets,
                WithEnv,
                Env,
            >::may_return(&func, given, args, r)
                <==> exists|out: RetsAsResult|
                    call_ensures(func, (given, args.0, args.1), out) && r == out.into_result_spec(),
{
}

/// A closure of three parameters is a host function without an environment.
impl<A1, A2, A3, Rets, RetsAsResult, Func> HostFunction<
    (A1, A2, A3),
    Rets,
    WithoutEnv,
    (),
> for Func where
    A1: WasmExternType,
    A2: WasmExternType,
    A3: WasmExternType,
    Rets: WasmTypeList,
    RetsAsResult: IntoResult<Rets>,
    Func: Fn(A1, A2, A3) -> RetsAsResult + 'static + Send,
{
    type Error = RetsAsResult::Error;

    open spec fn accepts(&self, env: (), args: (A1, A2, A3)) -> bool {
        call_requires(*self, (args.0, args.1, args.2))
    }

    open spec fn may_return(
        &self,
        env: &mut (),
        args: (A1, A2, A3),
        r: Result<Rets, RetsAsResult::Error>,
    ) -> bool {
        exists|out: RetsAsResult|
            call_ensures(*self, (args.0, args.1, args.2), out) && r == out.into_result_spec()
    }

    fn call(&self, env: &mut (), args: (A1, A2, A3)) -> (r: Result<Rets, RetsAsResult::Error>) {
        let (a1, a2, a3) = args;
        let r = self(a1, a2, a3).into_result();
        proof {
            assert(self.may_return(old(env), args, r));
        }
        r
    }
}

/// What calling a closure of three parameters as a host function asks and promises,
/// said of the closure itself.
pub proof fn lemma_host_function_3<A1, A2, A3, Rets, RetsAsResult, Func>(
    func: Func,
    env: (),
    args: (A1, A2, A3),
    r: Result<Rets, RetsAsResult::Error>,
) where
    A1: WasmExternType,
    A2: WasmExternType,
    A3: WasmExternType,
    Rets: WasmTypeList,
    RetsAsResult: IntoResult<Rets>,
    Func: Fn(A1, A2, A3) -> RetsAsResult + 'static + Send,

    ensures
        HostFunction::<(A1, A2, A3), Rets, WithoutEnv, ()>::accepts(&func, env, args)
            <==> call_requires(func, (args.0, args.1, args.2)),
        forall|given: &mut ()|
            #[trigger] HostFunction::<
                (A1, A2, A3),
                Rets,
                WithoutEnv,
                (),
            >::may_return(&func, given, args, r)
                <==> exists|out: RetsAsResult|
                    call_ensures(
                        func,
                        (args.0, args.1, args.2),
                        out,
                    ) && r == out.into_result_spec(),
{
}

/// A closure of an environment and three parameters is a host function with an
/// environment.
impl<A1, A2, A3, Rets, RetsAsResult, Env, Func> HostFunction<
    (A1, A2, A3),
    Rets,
    WithEnv,
    Env,
> for Func where
    A1: WasmExternType,
    A2: WasmExternType,
    A3: WasmExternType,
    Rets: WasmTypeList,
    RetsAsResult: IntoResult<Rets>,
    Env: Sized,
    Func: Fn(&mut Env, A1, A2, A3) -> RetsAsResult + Send + 'static,
{
    type Error = RetsAsResult::Error;

    open spec fn accepts(&self, env: Env, args: (A1, A2, A3)) -> bool {
        forall|given: &mut Env|
            *given == env ==> call_requires(*self, (given, args.0, args.1, args.2))
    }

    open spec fn may_return(
        &self,
        env: &mut Env,
        args: (A1, A2, A3),
        r: Result<Rets, RetsAsResult::Error>,
    ) -> bool {
        exists|out: RetsAsResult|
            call_ensures(*self, (env, args.0, args.1, args.2), out) && r == out.into_result_spec()
    }

    fn call(&self, env: &mut Env, args: (A1, A2, A3)) -> (r: Result<Rets, RetsAsResult::Error>) {
        let (a1, a2, a3) = args;
        let ghost before = *env;
        let out = self(env, a1, a2, a3);
        let r = out.into_result();
        proof {
            let given = choose|given: &mut Env|
                {
                    &&& *given == before
                    &&& *final(given) == *env
                    &&& call_ensures(*self, (given, a1, a2, a3), out)
                };
            assert(self.may_return(given, args, r));
        }
        r
    }
}

/// What calling a closure of an environment and three parameters as a host function
/// asks and promises, said of the closure itself.
pub proof fn lemma_host_function_env_3<A1, A2, A3, Rets, RetsAsResult, Env, Func>(
    func: Func,
    env: Env,
    args: (A1, A2, A3),
    r: Result<Rets, RetsAsResult::Error>,
) where
    A1: WasmExternType,
    A2: WasmExternType,
    A3: WasmExternType,
    Rets: WasmTypeList,
    RetsAsResult: IntoResult<Rets>,
    Env: Sized,
    Func: Fn(&mut Env, A1, A2, A3) -> RetsAsResult + Send + 'static,

    ensures
        HostFunction::<(A1, A2, A3), Rets, WithEnv, Env>::accepts(&func, env, args)
            <==> forall|given: &mut Env|
                *given == env ==> call_requires(func, (given, args.0, args.1, args.2)),
        forall|given: &mut Env|
            #[trigger] HostFunction::<
                (A1, A2, A3),
                Rets,
                WithEnv,
                Env,
            >::may_return(&func, given, args, r)
                <==> exists|out: RetsAsResult|
                    call_ensures(
                        func,
                        (given, args.0, args.1, args.2),
                        out,
                    ) && r == out.into_result_spec(),
{
}

/// A closure of four parameters is a host function without an environment.
impl<A1, A2, A3, A4, Rets, RetsAsResult, Func> HostFunction<
    (A1, A2, A3, A4),
    Rets,
    WithoutEnv,
    (),
> for Func where
    A1: WasmExternType,
    A2: WasmExternType,
    A3: WasmExternType,
    A4: WasmExternType,
    Rets: WasmTypeList,
    RetsAsResult: IntoResult<Rets>,
    Func: Fn(A1, A2, A3, A4) -> RetsAsResult + 'static + Send,
{
    type Error = RetsAsResult::Error;

    open spec fn accepts(&self, env: (), args: (A1, A2, A3, A4)) -> bool {
        call_requires(*self, (args.0, args.1, args.2, args.3))
    }

    open spec fn may_return(
        &self,
        env: &mut (),
        args: (A1, A2, A3, A4),
        r: Result<Rets, RetsAsResult::Error>,
    ) -> bool {
        exists|out: RetsAsResult|
            call_ensures(
                *self,
                (args.0, args.1, args.2, args.3),
                out,
            ) && r == out.into_result_spec()
    }

    fn call(&self, env: &mut (), args: (A1, A2, A3, A4)) -> (r: Result<Rets, RetsAsResult::Error>) {
        let (a1, a2, a3, a4) = args;
        let r = self(a1, a2, a3, a4).into_result();
        proof {
            assert(self.may_return(old(env), args, r));
        }
        r
    }
}

/// What calling a closure of four parameters as a host function asks and promises,
/// said of the closure itself.
pub proof fn lemma_host_function_4<A1, A2, A3, A4, Rets, RetsAsResult, Func>(
    func: Func,
    env: (),
    args: (A1, A2, A3, A4),
    r: Result<Rets, RetsAsResult::Error>,
) where
    A1: WasmExternType,
    A2: WasmExternType,
    A3: WasmExternType,
    A4: WasmExternType,
    Rets: WasmTypeList,
    RetsAsResult: IntoResult<Rets>,
    Func: Fn(A1, A2, A3, A4) -> RetsAsResult + 'static + Send,

    ensures
        HostFunction::<(A1, A2, A3, A4), Rets, WithoutEnv, ()>::accepts(&func, env, args)
            <==> call_requires(func, (args.0, args.1, args.2, args.3)),
        forall|given: &mut ()|
            #[trigger] HostFunction::<
                (A1, A2, A3, A4),
                Rets,
                WithoutEnv,
                (),
            >::may_return(&func, given, args, r)
                <==> exists|out: RetsAsResult|
                    call_ensures(
                        func,
                        (args.0, args.1, args.2, args.3),
                        out,
                    ) && r == out.into_result_spec(),
{
}

/// A closure of an environment and four parameters is a host function with an
/// environment.
impl<A1, A2, A3, A4, Rets, RetsAsResult, Env, Func> HostFunction<
    (A1, A2, A3, A4),
    Rets,
    WithEnv,
    Env,
> for Func where
    A1: WasmExternType,
    A2: WasmExternType,
    A3: WasmExternType,
    A4: WasmExternType,
    Rets: WasmTypeList,
    RetsAsResult: IntoResult<Rets>,
    Env: Sized,
    Func: Fn(&mut Env, A1, A2, A3, A4) -> RetsAsResult + Send + 'static,
{
    type Error = RetsAsResult::Error;

    open spec fn accepts(&self, env: Env, args: (A1, A2, A3, A4)) -> bool {
        forall|given: &mut Env|
            *given == env ==> call_requires(*self, (given, args.0, args.1, args.2, args.3))
    }

    open spec fn may_return(
        &self,
        env: &mut Env,
        args: (A1, A2, A3, A4),
        r: Result<Rets, RetsAsResult::Error>,
    ) -> bool {
        exists|out: RetsAsResult|
            call_ensures(
                *self,
                (env, args.0, args.1, args.2, args.3),
                out,
            ) && r == out.into_result_spec()
    }

    fn call(
        &self,
        env: &mut Env,
        args: (A1, A2, A3, A4),
    ) -> (r: Result<Rets, RetsAsResult::Error>) {
        let (a1, a2, a3, a4) = args;
        let ghost before = *env;
        let out = self(env, a1, a2, a3, a4);
        let r = out.into_result();
        proof {
            let given = choose|given: &mut Env|
                {
                    &&& *given == before
                    &&& *final(given) == *env
                    &&& call_ensures(*self, (given, a1, a2, a3, a4), out)
                };
            assert(self.may_return(given, args, r));
        }
        r
    }
}

/// What calling a closure of an environment and four parameters as a host function
/// asks and promises, said of the closure itself.
pub proof fn lemma_host_function_env_4<A1, A2, A3, A4, Rets, RetsAsResult, Env, Func>(
    func: Func,
    env: Env,
    args: (A1, A2, A3, A4),
    r: Result<Rets, RetsAsResult::Error>,
) where
    A1: WasmExternType,
    A2: WasmExternType,
    A3: WasmExternType,
    A4: WasmExternType,
    Rets: WasmTypeList,
    RetsAsResult: IntoResult<Rets>,
    Env: Sized,
    Func: Fn(&mut Env, A1, A2, A3, A4) -> RetsAsResult + Send + 'static,

    ensures
        HostFunction::<(A1, A2, A3, A4), Rets, WithEnv, Env>::accepts(&func, env, args)
            <==> forall|given: &mut Env|
                *given == env ==> call_requires(func, (given, args.0, args.1, args.2, args.3)),
        forall|given: &mut Env|
            #[trigger] HostFunction::<
                (A1, A2, A3, A4),
                Rets,
                WithEnv,
                Env,
            >::may_return(&func, given, args, r)
                <==> exists|out: RetsAsResult|
                    call_ensures(
                        func,
                        (given, args.0, args.1, args.2, args.3),
                        out,
                    ) && r == out.into_result_spec(),
{
}

/// A closure of five parameters is a host function without an environment.
impl<A1, A2, A3, A4, A5, Rets, RetsAsResult, Func> HostFunction<
    (A1, A2, A3, A4, A5),
    Rets,
    WithoutEnv,
    (),
> for Func where
    A1: WasmExternType,
    A2: WasmExternType,
    A3: WasmExternType,
    A4: WasmExternType,
    A5: WasmExternType,
    Rets: WasmTypeList,
    RetsAsResult: IntoResult<Rets>,
    Func: Fn(A1, A2, A3, A4, A5) -> RetsAsResult + 'static + Send,
{
    type Error = RetsAsResult::Error;

    open spec fn accepts(&self, env: (), args: (A1, A2, A3, A4, A5)) -> bool {
        call_requires(*self, (args.0, args.1, args.2, args.3, args.4))
    }

    open spec fn may_return(
        &self,
        env: &mut (),
        args: (A1, A2, A3, A4, A5),
        r: Result<Rets, RetsAsResult::Error>,
    ) -> bool {
        exists|out: RetsAsResult|
            call_ensures(
                *self,
                (args.0, args.1, args.2, args.3, args.4),
                out,
            ) && r == out.into_result_spec()
    }

    fn call(
        &self,
        env: &mut (),
        args: (A1, A2, A3, A4, A5),
    ) -> (r: Result<Rets, RetsAsResult::Error>) {
        let (a1, a2, a3, a4, a5) = args;
        let r = self(a1, a2, a3, a4, a5).into_result();
        proof {
            assert(self.may_return(old(env), args, r));
        }
        r
    }
}

/// What calling a closure of five parameters as a host function asks and promises,
/// said of the closure itself.
pub proof fn lemma_host_function_5<A1, A2, A3, A4, A5, Rets, RetsAsResult, Func>(
    func: Func,
    env: (),
    args: (A1, A2, A3, A4, A5),
    r: Result<Rets, RetsAsResult::Error>,
) where
    A1: WasmExternType,
    A2: WasmExternType,
    A3: WasmExternType,
    A4: WasmExternType,
    A5: WasmExternType,
    Rets: WasmTypeList,
    RetsAsResult: IntoResult<Rets>,
    Func: Fn(A1, A2, A3, A4, A5) -> RetsAsResult + 'static + Send,

    ensures
        HostFunction::<(A1, A2, A3, A4, A5), Rets, WithoutEnv, ()>::accepts(&func, env, args)
            <==> call_requires(func, (args.0, args.1, args.2, args.3, args.4)),
        forall|given: &mut ()|
            #[trigger] HostFunction::<
                (A1, A2, A3, A4, A5),
                Rets,
                WithoutEnv,
                (),
            >::may_return(&func, given, args, r)
                <==> exists|out: RetsAsResult|
                    call_ensures(
                        func,
                        (args.0, args.1, args.2, args.3, args.4),
                        out,
                    ) && r == out.into_result_spec(),
{
}

/// A closure of an environment and five parameters is a host function with an
/// environment.
impl<A1, A2, A3, A4, A5, Rets, RetsAsResult, Env, Func> HostFunction<
    (A1, A2, A3, A4, A5),
    Rets,
    WithEnv,
    Env,
> for Func where
    A1: WasmExternType,
    A2: WasmExternType,
    A3: WasmExternType,
    A4: WasmExternType,
    A5: WasmExternType,
    Rets: WasmTypeList,
    RetsAsResult: IntoResult<Rets>,
    Env: Sized,
    Func: Fn(&mut Env, A1, A2, A3, A4, A5) -> RetsAsResult + Send + 'static,
{
    type Error = RetsAsResult::Error;

    open spec fn accepts(&self, env: Env, args: (A1, A2, A3, A4, A5)) -> bool {
        forall|given: &mut Env|
            *given == env ==> call_requires(*self, (given, args.0, args.1, args.2, args.3, args.4))
    }

    open spec fn may_return(
        &self,
        env: &mut Env,
        args: (A1, A2, A3, A4, A5),
        r: Result<Rets, RetsAsResult::Error>,
    ) -> bool {
        exists|out: RetsAsResult|
            call_ensures(
                *self,
                (env, args.0, args.1, args.2, args.3, args.4),
                out,
            ) && r == out.into_result_spec()
    }

    fn call(
        &self,
        env: &mut Env,
        args: (A1, A2, A3, A4, A5),
    ) -> (r: Result<Rets, RetsAsResult::Error>) {
        let (a1, a2, a3, a4, a5) = args;
        let ghost before = *env;
        let out = self(env, a1, a2, a3, a4, a5);
        let r = out.into_result();
        proof {
            let given = choose|given: &mut Env|
                {
                    &&& *given == before
                    &&& *final(given) == *env
                    &&& call_ensures(*self, (given, a1, a2, a3, a4, a5), out)
                };
            assert(self.may_return(given, args, r));
        }
        r
    }
}

/// What calling a closure of an environment and five parameters as a host function
/// asks and promises, said of the closure itself.
pub proof fn lemma_host_function_env_5<A1, A2, A3, A4, A5, Rets, RetsAsResult, Env, Func>(
    func: Func,
    env: Env,
    args: (A1, A2, A3, A4, A5),
    r: Result<Rets, RetsAsResult::Error>,
) where
    A1: WasmExternType,
    A2: WasmExternType,
    A3: WasmExternType,
    A4: WasmExternType,
    A5: WasmExternType,
    Rets: WasmTypeList,
    RetsAsResult: IntoResult<Rets>,
    Env: Sized,
    Func: Fn(&mut Env, A1, A2, A3, A4, A5) -> RetsAsResult + Send + 'static,

    ensures
        HostFunction::<(A1, A2, A3, A4, A5), Rets, WithEnv, Env>::accepts(&func, env, args)
            <==> forall|given: &mut Env|
                *given == env ==> call_requires(
                    func,
                    (given, args.0, args.1, args.2, args.3, args.4),
                ),
        forall|given: &mut Env|
            #[trigger] HostFunction::<
                (A1, A2, A3, A4, A5),
                Rets,
                WithEnv,
                Env,
            >::may_return(&func, given, args, r)
                <==> exists|out: RetsAsResult|
                    call_ensures(
                        func,
                        (given, args.0, args.1, args.2, args.3, args.4),
                        out,
                    ) && r == out.into_result_spec(),
{
}

/// A closure of six parameters is a host function without an environment.
impl<A1, A2, A3, A4, A5, A6, Rets, RetsAsResult, Func> HostFunction<
    (A1, A2, A3, A4, A5, A6),
    Rets,
    WithoutEnv,
    (),
> for Func where
    A1: WasmExternType,
    A2: WasmExternType,
    A3: WasmExternType,
    A4: WasmExternType,
    A5: WasmExternType,
    A6: WasmExternType,
    Rets: WasmTypeList,
    RetsAsResult: IntoResult<Rets>,
    Func: Fn(A1, A2, A3, A4, A5, A6) -> RetsAsResult + 'static + Send,
{
    type Error = RetsAsResult::Error;

    open spec fn accepts(&self, env: (), args: (A1, A2, A3, A4, A5, A6)) -> bool {
        call_requires(*self, (args.0, args.1, args.2, args.3, args.4, args.5))
    }

    open spec fn may_return(
        &self,
        env: &mut (),
        args: (A1, A2, A3, A4, A5, A6),
        r: Result<Rets, RetsAsResult::Error>,
    ) -> bool {
        exists|out: RetsAsResult|
            call_ensures(
                *self,
                (args.0, args.1, args.2, args.3, args.4, args.5),
                out,
            ) && r == out.into_result_spec()
    }

    fn call(
        &self,
        env: &mut (),
        args: (A1, A2, A3, A4, A5, A6),
    ) -> (r: Result<Rets, RetsAsResult::Error>) {
        let (a1, a2, a3, a4, a5, a6) = args;
        let r = self(a1, a2, a3, a4, a5, a6).into_result();
        proof {
            assert(self.may_return(old(env), args, r));
        }
        r
    }
}

/// What calling a closure of six parameters as a host function asks and promises,
/// said of the closure itself.
pub proof fn lemma_host_function_6<A1, A2, A3, A4, A5, A6, Rets, RetsAsResult, Func>(
    func: Func,
    env: (),
    args: (A1, A2, A3, A4, A5, A6),
    r: Result<Rets, RetsAsResult::Error>,
) where
    A1: WasmExternType,
    A2: WasmExternType,
    A3: WasmExternType,
    A4: WasmExternType,
    A5: WasmExternType,
    A6: WasmExternType,
    Rets: WasmTypeList,
    RetsAsResult: IntoResult<Rets>,
    Func: Fn(A1, A2, A3, A4, A5, A6) -> RetsAsResult + 'static + Send,

    ensures
        HostFunction::<(A1, A2, A3, A4, A5, A6), Rets, WithoutEnv, ()>::accepts(&func, env, args)
            <==> call_requires(func, (args.0, args.1, args.2, args.3, args.4, args.5)),
        forall|given: &mut ()|
            #[trigger] HostFunction::<
                (A1, A2, A3, A4, A5, A6),
                Rets,
                WithoutEnv,
                (),
            >::may_return(&func, given, args, r)
                <==> exists|out: RetsAsResult|
                    call_ensures(
                        func,
                        (args.0, args.1, args.2, args.3, args.4, args.5),
                        out,
                    ) && r == out.into_result_spec(),
{
}

/// A closure of an environment and six parameters is a host function with an
/// environment.
impl<A1, A2, A3, A4, A5, A6, Rets, RetsAsResult, Env, Func> HostFunction<
    (A1, A2, A3, A4, A5, A6),
    Rets,
    WithEnv,
    Env,
> for Func where
    A1: WasmExternType,
    A2: WasmExternType,
    A3: WasmExternType,
    A4: WasmExternType,
    A5: WasmExternType,
    A6: WasmExternType,
    Rets: WasmTypeList,
    RetsAsResult: IntoResult<Rets>,
    Env: Sized,
    Func: Fn(&mut Env, A1, A2, A3, A4, A5, A6) -> RetsAsResult + Send + 'static,
{
    type Error = RetsAsResult::Error;

    open spec fn accepts(&self, env: Env, args: (A1, A2, A3, A4, A5, A6)) -> bool {
        forall|given: &mut Env|
            *given == env ==> call_requires(
                *self,
                (given, args.0, args.1, args.2, args.3, args.4, args.5),
            )
    }

    open spec fn may_return(
        &self,
        env: &mut Env,
        args: (A1, A2, A3, A4, A5, A6),
        r: Result<Rets, RetsAsResult::Error>,
    ) -> bool {
        exists|out: RetsAsResult|
            call_ensures(
                *self,
                (env, args.0, args.1, args.2, args.3, args.4, args.5),
                out,
            ) && r == out.into_result_spec()
    }

    fn call(
        &self,
        env: &mut Env,
        args: (A1, A2, A3, A4, A5, A6),
    ) -> (r: Result<Rets, RetsAsResult::Error>) {
        let (a1, a2, a3, a4, a5, a6) = args;
        let ghost before = *env;
        let out = self(env, a1, a2, a3, a4, a5, a6);
        let r = out.into_result();
        proof {
            let given = choose|given: &mut Env|
                {
                    &&& *given == before
                    &&& *final(given) == *env
                    &&& call_ensures(*self, (given, a1, a2, a3, a4, a5, a6), out)
                };
            assert(self.may_return(given, args, r));
        }
        r
    }
}

/// What calling a closure of an environment and six parameters as a host function
/// asks and promises, said of the closure itself.
pub proof fn lemma_host_function_env_6<A1, A2, A3, A4, A5, A6, Rets, RetsAsResult, Env, Func>(
    func: Func,
    env: Env,
    args: (A1, A2, A3, A4, A5, A6),
    r: Result<Rets, RetsAsResult::Error>,
) where
    A1: WasmExternType,
    A2: WasmExternType,
    A3: WasmExternType,
    A4: WasmExternType,
    A5: WasmExternType,
    A6: WasmExternType,
    Rets: WasmTypeList,
    RetsAsResult: IntoResult<Rets>,
    Env: Sized,
    Func: Fn(&mut Env, A1, A2, A3, A4, A5, A6) -> RetsAsResult + Send + 'static,

    ensures
        HostFunction::<(A1, A2, A3, A4, A5, A6), Rets, WithEnv, Env>::accepts(&func, env, args)
            <==> forall|given: &mut Env|
                *given == env ==> call_requires(
                    func,
                    (given, args.0, args.1, args.2, args.3, args.4, args.5),
                ),
        forall|given: &mut Env|
            #[trigger] HostFunction::<
                (A1, A2, A3, A4, A5, A6),
                Rets,
                WithEnv,
                Env,
            >::may_return(&func, given, args, r)
                <==> exists|out: RetsAsResult|
                    call_ensures(
                        func,
                        (given, args.0, args.1, args.2, args.3, args.4, args.5),
                        out,
                    ) && r == out.into_result_spec(),
{
}

/// A closure of seven parameters is a host function without an environment.
impl<A1, A2, A3, A4, A5, A6, A7, Rets, RetsAsResult, Func> HostFunction<
    (A1, A2, A3, A4, A5, A6, A7),
    Rets,
    WithoutEnv,
    (),
> for Func where
    A1: WasmExternType,
    A2: WasmExternType,
    A3: WasmExternType,
    A4: WasmExternType,
    A5: WasmExternType,
    A6: WasmExternType,
    A7: WasmExternType,
    Rets: WasmTypeList,
    RetsAsResult: IntoResult<Rets>,
    Func: Fn(A1, A2, A3, A4, A5, A6, A7) -> RetsAsResult + 'static + Send,
{
    type Error = RetsAsResult::Error;

    open spec fn accepts(&self, env: (), args: (A1, A2, A3, A4, A5, A6, A7)) -> bool {
        call_requires(*self, (args.0, args.1, args.2, args.3, args.4, args.5, args.6))
    }

    open spec fn may_return(
        &self,
        env: &mut (),
        args: (A1, A2, A3, A4, A5, A6, A7),
        r: Result<Rets, RetsAsResult::Error>,
    ) -> bool {
        exists|out: RetsAsResult|
            call_ensures(
                *self,
                (args.0, args.1, args.2, args.3, args.4, args.5, args.6),
                out,
            ) && r == out.into_result_spec()
    }

    fn call(
        &self,
        env: &mut (),
        args: (A1, A2, A3, A4, A5, A6, A7),
    ) -> (r: Result<Rets, RetsAsResult::Error>) {
        let (a1, a2, a3, a4, a5, a6, a7) = args;
        let r = self(a1, a2, a3, a4, a5, a6, a7).into_result();
        proof {
            assert(self.may_return(old(env), args, r));
        }
        r
    }
}

/// What calling a closure of seven parameters as a host function asks and promises,
/// said of the closure itself.
pub proof fn lemma_host_function_7<A1, A2, A3, A4, A5, A6, A7, Rets, RetsAsResult, Func>(
    func: Func,
    env: (),
    args: (A1, A2, A3, A4, A5, A6, A7),
    r: Result<Rets, RetsAsResult::Error>,
) where
    A1: WasmExternType,
    A2: WasmExternType,
    A3: WasmExternType,
    A4: WasmExternType,
    A5: WasmExternType,
    A6: WasmExternType,
    A7: WasmExternType,
    Rets: WasmTypeList,
    RetsAsResult: IntoResult<Rets>,
    Func: Fn(A1, A2, A3, A4, A5, A6, A7) -> RetsAsResult + 'static + Send,

    ensures
        HostFunction::<
            (A1, A2, A3, A4, A5, A6, A7),
            Rets,
            WithoutEnv,
            (),
        >::accepts(&func, env, args)
            <==> call_requires(func, (args.0, args.1, args.2, args.3, args.4, args.5, args.6)),
        forall|given: &mut ()|
            #[trigger] HostFunction::<
                (A1, A2, A3, A4, A5, A6, A7),
                Rets,
                WithoutEnv,
                (),
            >::may_return(&func, given, args, r)
                <==> exists|out: RetsAsResult|
                    call_ensures(
                        func,
                        (args.0, args.1, args.2, args.3, args.4, args.5, args.6),
                        out,
                    ) && r == out.into_result_spec(),
{
}

/// A closure of an environment and seven parameters is a host function with an
/// environment.
impl<A1, A2, A3, A4, A5, A6, A7, Rets, RetsAsResult, Env, Func> HostFunction<
    (A1, A2, A3, A4, A5, A6, A7),
    Rets,
    WithEnv,
    Env,
> for Func where
    A1: WasmExternType,
    A2: WasmExternType,
    A3: WasmExternType,
    A4: WasmExternType,
    A5: WasmExternType,
    A6: WasmExternType,
    A7: WasmExternType,
    Rets: WasmTypeList,
    RetsAsResult: IntoResult<Rets>,
    Env: Sized,
    Func: Fn(&mut Env, A1, A2, A3, A4, A5, A6, A7) -> RetsAsResult + Send + 'static,
{
    type Error = RetsAsResult::Error;

    open spec fn accepts(&self, env: Env, args: (A1, A2, A3, A4, A5, A6, A7)) -> bool {
        forall|given: &mut Env|
            *given == env ==> call_requires(
                *self,
                (given, args.0, args.1, args.2, args.3, args.4, args.5, args.6),
            )
    }

    open spec fn may_return(
        &self,
        env: &mut Env,
        args: (A1, A2, A3, A4, A5, A6, A7),
        r: Result<Rets, RetsAsResult::Error>,
    ) -> bool {
        exists|out: RetsAsResult|
            call_ensures(
                *self,
                (env, args.0, args.1, args.2, args.3, args.4, args.5, args.6),
                out,
            ) && r == out.into_result_spec()
    }

    fn call(
        &self,
        env: &mut Env,
        args: (A1, A2, A3, A4, A5, A6, A7),
    ) -> (r: Result<Rets, RetsAsResult::Error>) {
        let (a1, a2, a3, a4, a5, a6, a7) = args;
        let ghost before = *env;
        let out = self(env, a1, a2, a3, a4, a5, a6, a7);
        let r = out.into_result();
        proof {
            let given = choose|given: &mut Env|
                {
                    &&& *given == before
                    &&& *final(given) == *env
                    &&& call_ensures(*self, (given, a1, a2, a3, a4, a5, a6, a7), out)
                };
            assert(self.may_return(given, args, r));
        }
        r
    }
}

/// What calling a closure of an environment and seven parameters as a host function
/// asks and promises, said of the closure itself.
pub proof fn lemma_host_function_env_7<A1, A2, A3, A4, A5, A6, A7, Rets, RetsAsResult, Env, Func>(
    func: Func,
    env: Env,
    args: (A1, A2, A3, A4, A5, A6, A7),
    r: Result<Rets, RetsAsResult::Error>,
) where
    A1: WasmExternType,
    A2: WasmExternType,
    A3: WasmExternType,
    A4: WasmExternType,
    A5: WasmExternType,
    A6: WasmExternType,
    A7: WasmExternType,
    Rets: WasmTypeList,
    RetsAsResult: IntoResult<Rets>,
    Env: Sized,
    Func: Fn(&mut Env, A1, A2, A3, A4, A5, A6, A7) -> RetsAsResult + Send + 'static,

    ensures
        HostFunction::<(A1, A2, A3, A4, A5, A6, A7), Rets, WithEnv, Env>::accepts(&func, env, args)
            <==> forall|given: &mut Env|
                *given == env ==> call_requires(
                    func,
                    (given, args.0, args.1, args.2, args.3, args.4, args.5, args.6),
                ),
        forall|given: &mut Env|
            #[trigger] HostFunction::<
                (A1, A2, A3, A4, A5, A6, A7),
                Rets,
                WithEnv,
                Env,
            >::may_return(&func, given, args, r)
                <==> exists|out: RetsAsResult|
                    call_ensures(
                        func,
                        (given, args.0, args.1, args.2, args.3, args.4, args.5, args.6),
                        out,
                    ) && r == out.into_result_spec(),
{
}

/// A closure of eight parameters is a host function without an environment.
impl<A1, A2, A3, A4, A5, A6, A7, A8, Rets, RetsAsResult, Func> HostFunction<
    (A1, A2, A3, A4, A5, A6, A7, A8),
    Rets,
    WithoutEnv,
    (),
> for Func where
    A1: WasmExternType,
    A2: WasmExternType,
    A3: WasmExternType,
    A4: WasmExternType,
    A5: WasmExternType,
    A6: WasmExternType,
    A7: WasmExternType,
    A8: WasmExternType,
    Rets: WasmTypeList,
    RetsAsResult: IntoResult<Rets>,
    Func: Fn(A1, A2, A3, A4, A5, A6, A7, A8) -> RetsAsResult + 'static + Send,
{
    type Error = RetsAsResult::Error;

    open spec fn accepts(&self, env: (), args: (A1, A2, A3, A4, A5, A6, A7, A8)) -> bool {
        call_requires(*self, (args.0, args.1, args.2, args.3, args.4, args.5, args.6, args.7))
    }

    open spec fn may_return(
        &self,
        env: &mut (),
        args: (A1, A2, A3, A4, A5, A6, A7, A8),
        r: Result<Rets, RetsAsResult::Error>,
    ) -> bool {
        exists|out: RetsAsResult|
            call_ensures(
                *self,
                (args.0, args.1, args.2, args.3, args.4, args.5, args.6, args.7),
                out,
            ) && r == out.into_result_spec()
    }

    fn call(
        &self,
        env: &mut (),
        args: (A1, A2, A3, A4, A5, A6, A7, A8),
    ) -> (r: Result<Rets, RetsAsResult::Error>) {
        let (a1, a2, a3, a4, a5, a6, a7, a8) = args;
        let r = self(a1, a2, a3, a4, a5, a6, a7, a8).into_result();
        proof {
            assert(self.may_return(old(env), args, r));
        }
        r
    }
}

/// What calling a closure of eight parameters as a host function asks and promises,
/// said of the closure itself.
pub proof fn lemma_host_function_8<A1, A2, A3, A4, A5, A6, A7, A8, Rets, RetsAsResult, Func>(
    func: Func,
    env: (),
    args: (A1, A2, A3, A4, A5, A6, A7, A8),
    r: Result<Rets, RetsAsResult::Error>,
) where
    A1: WasmExternType,
    A2: WasmExternType,
    A3: WasmExternType,
    A4: WasmExternType,
    A5: WasmExternType,
    A6: WasmExternType,
    A7: WasmExternType,
    A8: WasmExternType,
    Rets: WasmTypeList,
    RetsAsResult: IntoResult<Rets>,
    Func: Fn(A1, A2, A3, A4, A5, A6, A7, A8) -> RetsAsResult + 'static + Send,

    ensures
        HostFunction::<
            (A1, A2, A3, A4, A5, A6, A7, A8),
            Rets,
            WithoutEnv,
            (),
        >::accepts(&func, env, args)
            <==> call_requires(
                func,
                (args.0, args.1, args.2, args.3, args.4, args.5, args.6, args.7),
            ),
        forall|given: &mut ()|
            #[trigger] HostFunction::<
                (A1, A2, A3, A4, A5, A6, A7, A8),
                Rets,
                WithoutEnv,
                (),
            >::may_return(&func, given, args, r)
                <==> exists|out: RetsAsResult|
                    call_ensures(
                        func,
                        (args.0, args.1, args.2, args.3, args.4, args.5, args.6, args.7),
                        out,
                    ) && r == out.into_result_spec(),
{
}

/// A closure of an environment and eight parameters is a host function with an
/// environment.
impl<A1, A2, A3, A4, A5, A6, A7, A8, Rets, RetsAsResult, Env, Func> HostFunction<
    (A1, A2, A3, A4, A5, A6, A7, A8),
    Rets,
    WithEnv,
    Env,
> for Func where
    A1: WasmExternType,
    A2: WasmExternType,
    A3: WasmExternType,
    A4: WasmExternType,
    A5: WasmExternType,
    A6: WasmExternType,
    A7: WasmExternType,
    A8: WasmExternType,
    Rets: WasmTypeList,
    RetsAsResult: IntoResult<Rets>,
    Env: Sized,
    Func: Fn(&mut Env, A1, A2, A3, A4, A5, A6, A7, A8) -> RetsAsResult + Send + 'static,
{
    type Error = RetsAsResult::Error;

    open spec fn accepts(&self, env: Env, args: (A1, A2, A3, A4, A5, A6, A7, A8)) -> bool {
        forall|given: &mut Env|
            *given == env ==> call_requires(
                *self,
                (given, args.0, args.1, args.2, args.3, args.4, args.5, args.6, args.7),
            )
    }

    open spec fn may_return(
        &self,
        env: &mut Env,
        args: (A1, A2, A3, A4, A5, A6, A7, A8),
        r: Result<Rets, RetsAsResult::Error>,
    ) -> bool {
        exists|out: RetsAsResult|
            call_ensures(
                *self,
                (env, args.0, args.1, args.2, args.3, args.4, args.5, args.6, args.7),
                out,
            ) && r == out.into_result_spec()
    }

    fn call(
        &self,
        env: &mut Env,
        args: (A1, A2, A3, A4, A5, A6, A7, A8),
    ) -> (r: Result<Rets, RetsAsResult::Error>) {
        let (a1, a2, a3, a4, a5, a6, a7, a8) = args;
        let ghost before = *env;
        let out = self(env, a1, a2, a3, a4, a5, a6, a7, a8);
        let r = out.into_result();
        proof {
            let given = choose|given: &mut Env|
                {
                    &&& *given == before
                    &&& *final(given) == *env
                    &&& call_ensures(*self, (given, a1, a2, a3, a4, a5, a6, a7, a8), out)
                };
            assert(self.may_return(given, args, r));
        }
        r
    }
}

/// What calling a closure of an environment and eight parameters as a host function
/// asks and promises, said of the closure itself.
pub proof fn lemma_host_function_env_8<
    A1, A2, A3, A4, A5, A6, A7, A8, Rets, RetsAsResult, Env, Func,
>(
    func: Func,
    env: Env,
    args: (A1, A2, A3, A4, A5, A6, A7, A8),
    r: Result<Rets, RetsAsResult::Error>,
) where
    A1: WasmExternType,
    A2: WasmExternType,
    A3: WasmExternType,
    A4: WasmExternType,
    A5: WasmExternType,
    A6: WasmExternType,
    A7: WasmExternType,
    A8: WasmExternType,
    Rets: WasmTypeList,
    RetsAsResult: IntoResult<Rets>,
    Env: Sized,
    Func: Fn(&mut Env, A1, A2, A3, A4, A5, A6, A7, A8) -> RetsAsResult + Send + 'static,

    ensures
        HostFunction::<
            (A1, A2, A3, A4, A5, A6, A7, A8),
            Rets,
            WithEnv,
            Env,
        >::accepts(&func, env, args)
            <==> forall|given: &mut Env|
                *given == env ==> call_requires(
                    func,
                    (given, args.0, args.1, args.2, args.3, args.4, args.5, args.6, args.7),
                ),
        forall|given: &mut Env|
            #[trigger] HostFunction::<
                (A1, A2, A3, A4, A5, A6, A7, A8),
                Rets,
                WithEnv,
                Env,
            >::may_return(&func, given, args, r)
                <==> exists|out: RetsAsResult|
                    call_ensures(
                        func,
                        (given, args.0, args.1, args.2, args.3, args.4, args.5, args.6, args.7),
                        out,
                    ) && r == out.into_result_spec(),
{
}

/// A closure of nine parameters is a host function without an environment.
impl<A1, A2, A3, A4, A5, A6, A7, A8, A9, Rets, RetsAsResult, Func> HostFunction<
    (A1, A2, A3, A4, A5, A6, A7, A8, A9),
    Rets,
    WithoutEnv,
    (),
> for Func where
    A1: WasmExternType,
    A2: WasmExternType,
    A3: WasmExternType,
    A4: WasmExternType,
    A5: WasmExternType,
    A6: WasmExternType,
    A7: WasmExternType,
    A8: WasmExternType,
    A9: WasmExternType,
    Rets: WasmTypeList,
    RetsAsResult: IntoResult<Rets>,
    Func: Fn(A1, A2, A3, A4, A5, A6, A7, A8, A9) -> RetsAsResult + 'static + Send,
{
    type Error = RetsAsResult::Error;

    open spec fn accepts(&self, env: (), args: (A1, A2, A3, A4, A5, A6, A7, A8, A9)) -> bool {
        call_requires(
            *self,
            (args.0, args.1, args.2, args.3, args.4, args.5, args.6, args.7, args.8),
        )
    }

    open spec fn may_return(
        &self,
        env: &mut (),
        args: (A1, A2, A3, A4, A5, A6, A7, A8, A9),
        r: Result<Rets, RetsAsResult::Error>,
    ) -> bool {
        exists|out: RetsAsResult|
            call_ensures(
                *self,
                (args.0, args.1, args.2, args.3, args.4, args.5, args.6, args.7, args.8),
                out,
            ) && r == out.into_result_spec()
    }

    fn call(
        &self,
        env: &mut (),
        args: (A1, A2, A3, A4, A5, A6, A7, A8, A9),
    ) -> (r: Result<Rets, RetsAsResult::Error>) {
        let (a1, a2, a3, a4, a5, a6, a7, a8, a9) = args;
        let r = self(a1, a2, a3, a4, a5, a6, a7, a8, a9).into_result();
        proof {
            assert(self.may_return(old(env), args, r));
        }
        r
    }
}

/// What calling a closure of nine parameters as a host function asks and promises,
/// said of the closure itself.
pub proof fn lemma_host_function_9<A1, A2, A3, A4, A5, A6, A7, A8, A9, Rets, RetsAsResult, Func>(
    func: Func,
    env: (),
    args: (A1, A2, A3, A4, A5, A6, A7, A8, A9),
    r: Result<Rets, RetsAsResult::Error>,
) where
    A1: WasmExternType,
    A2: WasmExternType,
    A3: WasmExternType,
    A4: WasmExternType,
    A5: WasmExternType,
    A6: WasmExternType,
    A7: WasmExternType,
    A8: WasmExternType,
    A9: WasmExternType,
    Rets: WasmTypeList,
    RetsAsResult: IntoResult<Rets>,
    Func: Fn(A1, A2, A3, A4, A5, A6, A7, A8, A9) -> RetsAsResult + 'static + Send,

    ensures
        HostFunction::<
            (A1, A2, A3, A4, A5, A6, A7, A8, A9),
            Rets,
            WithoutEnv,
            (),
        >::accepts(&func, env, args)
            <==> call_requires(
                func,
                (args.0, args.1, args.2, args.3, args.4, args.5, args.6, args.7, args.8),
            ),
        forall|given: &mut ()|
            #[trigger] HostFunction::<
                (A1, A2, A3, A4, A5, A6, A7, A8, A9),
                Rets,
                WithoutEnv,
                (),
            >::may_return(&func, given, args, r)
                <==> exists|out: RetsAsResult|
                    call_ensures(
                        func,
                        (args.0, args.1, args.2, args.3, args.4, args.5, args.6, args.7, args.8),
                        out,
                    ) && r == out.into_result_spec(),
{
}

/// A closure of an environment and nine parameters is a host function with an
/// environment.
impl<A1, A2, A3, A4, A5, A6, A7, A8, A9, Rets, RetsAsResult, Env, Func> HostFunction<
    (A1, A2, A3, A4, A5, A6, A7, A8, A9),
    Rets,
    WithEnv,
    Env,
> for Func where
    A1: WasmExternType,
    A2: WasmExternType,
    A3: WasmExternType,
    A4: WasmExternType,
    A5: WasmExternType,
    A6: WasmExternType,
    A7: WasmExternType,
    A8: WasmExternType,
    A9: WasmExternType,
    Rets: WasmTypeList,
    RetsAsResult: IntoResult<Rets>,
    Env: Sized,
    Func: Fn(&mut Env, A1, A2, A3, A4, A5, A6, A7, A8, A9) -> RetsAsResult + Send + 'static,
{
    type Error = RetsAsResult::Error;

    open spec fn accepts(&self, env: Env, args: (A1, A2, A3, A4, A5, A6, A7, A8, A9)) -> bool {
        forall|given: &mut Env|
            *given == env ==> call_requires(
                *self,
                (given, args.0, args.1, args.2, args.3, args.4, args.5, args.6, args.7, args.8),
            )
    }

    open spec fn may_return(
        &self,
        env: &mut Env,
        args: (A1, A2, A3, A4, A5, A6, A7, A8, A9),
        r: Result<Rets, RetsAsResult::Error>,
    ) -> bool {
        exists|out: RetsAsResult|
            call_ensures(
                *self,
                (env, args.0, args.1, args.2, args.3, args.4, args.5, args.6, args.7, args.8),
                out,
            ) && r == out.into_result_spec()
    }

    fn call(
        &self,
        env: &mut Env,
        args: (A1, A2, A3, A4, A5, A6, A7, A8, A9),
    ) -> (r: Result<Rets, RetsAsResult::Error>) {
        let (a1, a2, a3, a4, a5, a6, a7, a8, a9) = args;
        let ghost before = *env;
        let out = self(env, a1, a2, a3, a4, a5, a6, a7, a8, a9);
        let r = out.into_result();
        proof {
            let given = choose|given: &mut Env|
                {
                    &&& *given == before
                    &&& *final(given) == *env
                    &&& call_ensures(*self, (given, a1, a2, a3, a4, a5, a6, a7, a8, a9), out)
                };
            assert(self.may_return(given, args, r));
        }
        r
    }
}

/// What calling a closure of an environment and nine parameters as a host function
/// asks and promises, said of the closure itself.
pub proof fn lemma_host_function_env_9<
    A1, A2, A3, A4, A5, A6, A7, A8, A9, Rets, RetsAsResult, Env, Func,
>(
    func: Func,
    env: Env,
    args: (A1, A2, A3, A4, A5, A6, A7, A8, A9),
    r: Result<Rets, RetsAsResult::Error>,
) where
    A1: WasmExternType,
    A2: WasmExternType,
    A3: WasmExternType,
    A4: WasmExternType,
    A5: WasmExternType,
    A6: WasmExternType,
    A7: WasmExternType,
    A8: WasmExternType,
    A9: WasmExternType,
    Rets: WasmTypeList,
    RetsAsResult: IntoResult<Rets>,
    Env: Sized,
    Func: Fn(&mut Env, A1, A2, A3, A4, A5, A6, A7, A8, A9) -> RetsAsResult + Send + 'static,

    ensures
        HostFunction::<
            (A1, A2, A3, A4, A5, A6, A7, A8, A9),
            Rets,
            WithEnv,
            Env,
        >::accepts(&func, env, args)
            <==> forall|given: &mut Env|
                *given == env ==> call_requires(
                    func,
                    (given, args.0, args.1, args.2, args.3, args.4, args.5, args.6, args.7, args.8),
                ),
        forall|given: &mut Env|
            #[trigger] HostFunction::<
                (A1, A2, A3, A4, A5, A6, A7, A8, A9),
                Rets,
                WithEnv,
                Env,
            >::may_return(&func, given, args, r)
                <==> exists|out: RetsAsResult|
                    call_ensures(
                        func,
                        (
                            given, args.0, args.1, args.2, args.3, args.4, args.5, args.6, args.7,
                            args.8,
                        ),
                        out,
                    ) && r == out.into_result_spec(),
{
}

/// A closure of ten parameters is a host function without an environment.
impl<A1, A2, A3, A4, A5, A6, A7, A8, A9, A10, Rets, RetsAsResult, Func> HostFunction<
    (A1, A2, A3, A4, A5, A6, A7, A8, A9, A10),
    Rets,
    WithoutEnv,
    (),
> for Func where
    A1: WasmExternType,
    A2: WasmExternType,
    A3: WasmExternType,
    A4: WasmExternType,
    A5: WasmExternType,
    A6: WasmExternType,
    A7: WasmExternType,
    A8: WasmExternType,
    A9: WasmExternType,
    A10: WasmExternType,
    Rets: WasmTypeList,
    RetsAsResult: IntoResult<Rets>,
    Func: Fn(A1, A2, A3, A4, A5, A6, A7, A8, A9, A10) -> RetsAsResult + 'static + Send,
{
    type Error = RetsAsResult::Error;

    open spec fn accepts(&self, env: (), args: (A1, A2, A3, A4, A5, A6, A7, A8, A9, A10)) -> bool {
        call_requires(
            *self,
            (args.0, args.1, args.2, args.3, args.4, args.5, args.6, args.7, args.8, args.9),
        )
    }

    open spec fn may_return(
        &self,
        env: &mut (),
        args: (A1, A2, A3, A4, A5, A6, A7, A8, A9, A10),
        r: Result<Rets, RetsAsResult::Error>,
    ) -> bool {
        exists|out: RetsAsResult|
            call_ensures(
                *self,
                (args.0, args.1, args.2, args.3, args.4, args.5, args.6, args.7, args.8, args.9),
                out,
            ) && r == out.into_result_spec()
    }

    fn call(
        &self,
        env: &mut (),
        args: (A1, A2, A3, A4, A5, A6, A7, A8, A9, A10),
    ) -> (r: Result<Rets, RetsAsResult::Error>) {
        let (a1, a2, a3, a4, a5, a6, a7, a8, a9, a10) = args;
        let r = self(a1, a2, a3, a4, a5, a6, a7, a8, a9, a10).into_result();
        proof {
            assert(self.may_return(old(env), args, r));
        }
        r
    }
}

/// What calling a closure of ten parameters as a host function asks and promises,
/// said of the closure itself.
pub proof fn lemma_host_function_10<
    A1, A2, A3, A4, A5, A6, A7, A8, A9, A10, Rets, RetsAsResult, Func,
>(
    func: Func,
    env: (),
    args: (A1, A2, A3, A4, A5, A6, A7, A8, A9, A10),
    r: Result<Rets, RetsAsResult::Error>,
) where
    A1: WasmExternType,
    A2: WasmExternType,
    A3: WasmExternType,
    A4: WasmExternType,
    A5: WasmExternType,
    A6: WasmExternType,
    A7: WasmExternType,
    A8: WasmExternType,
    A9: WasmExternType,
    A10: WasmExternType,
    Rets: WasmTypeList,
    RetsAsResult: IntoResult<Rets>,
    Func: Fn(A1, A2, A3, A4, A5, A6, A7, A8, A9, A10) -> RetsAsResult + 'static + Send,

    ensures
        HostFunction::<
            (A1, A2, A3, A4, A5, A6, A7, A8, A9, A10),
            Rets,
            WithoutEnv,
            (),
        >::accepts(&func, env, args)
            <==> call_requires(
                func,
                (args.0, args.1, args.2, args.3, args.4, args.5, args.6, args.7, args.8, args.9),
            ),
        forall|given: &mut ()|
            #[trigger] HostFunction::<
                (A1, A2, A3, A4, A5, A6, A7, A8, A9, A10),
                Rets,
                WithoutEnv,
                (),
            >::may_return(&func, given, args, r)
                <==> exists|out: RetsAsResult|
                    call_ensures(
                        func,
                        (
                            args.0, args.1, args.2, args.3, args.4, args.5, args.6, args.7, args.8,
                            args.9,
                        ),
                        out,
                    ) && r == out.into_result_spec(),
{
}

/// A closure of an environment and ten parameters is a host function with an
/// environment.
impl<A1, A2, A3, A4, A5, A6, A7, A8, A9, A10, Rets, RetsAsResult, Env, Func> HostFunction<
    (A1, A2, A3, A4, A5, A6, A7, A8, A9, A10),
    Rets,
    WithEnv,
    Env,
> for Func where
    A1: WasmExternType,
    A2: WasmExternType,
    A3: WasmExternType,
    A4: WasmExternType,
    A5: WasmExternType,
    A6: WasmExternType,
    A7: WasmExternType,
    A8: WasmExternType,
    A9: WasmExternType,
    A10: WasmExternType,
    Rets: WasmTypeList,
    RetsAsResult: IntoResult<Rets>,
    Env: Sized,
    Func: Fn(&mut Env, A1, A2, A3, A4, A5, A6, A7, A8, A9, A10) -> RetsAsResult + Send + 'static,
{
    type Error = RetsAsResult::Error;

    open spec fn accepts(&self, env: Env, args: (A1, A2, A3, A4, A5, A6, A7, A8, A9, A10)) -> bool {
        forall|given: &mut Env|
            *given == env ==> call_requires(
                *self,
                (
                    given, args.0, args.1, args.2, args.3, args.4, args.5, args.6, args.7, args.8,
                    args.9,
                ),
            )
    }

    open spec fn may_return(
        &self,
        env: &mut Env,
        args: (A1, A2, A3, A4, A5, A6, A7, A8, A9, A10),
        r: Result<Rets, RetsAsResult::Error>,
    ) -> bool {
        exists|out: RetsAsResult|
            call_ensures(
                *self,
                (
                    env, args.0, args.1, args.2, args.3, args.4, args.5, args.6, args.7, args.8,
                    args.9,
                ),
                out,
            ) && r == out.into_result_spec()
    }

    fn call(
        &self,
        env: &mut Env,
        args: (A1, A2, A3, A4, A5, A6, A7, A8, A9, A10),
    ) -> (r: Result<Rets, RetsAsResult::Error>) {
        let (a1, a2, a3, a4, a5, a6, a7, a8, a9, a10) = args;
        let ghost before = *env;
        let out = self(env, a1, a2, a3, a4, a5, a6, a7, a8, a9, a10);
        let r = out.into_result();
        proof {
            let given = choose|given: &mut Env|
                {
                    &&& *given == before
                    &&& *final(given) == *env
                    &&& call_ensures(*self, (given, a1, a2, a3, a4, a5, a6, a7, a8, a9, a10), out)
                };
            assert(self.may_return(given, args, r));
        }
        r
    }
}

/// What calling a closure of an environment and ten parameters as a host function
/// asks and promises, said of the closure itself.
pub proof fn lemma_host_function_env_10<
    A1, A2, A3, A4, A5, A6, A7, A8, A9, A10, Rets, RetsAsResult, Env, Func,
>(
    func: Func,
    env: Env,
    args: (A1, A2, A3, A4, A5, A6, A7, A8, A9, A10),
    r: Result<Rets, RetsAsResult::Error>,
) where
    A1: WasmExternType,
    A2: WasmExternType,
    A3: WasmExternType,
    A4: WasmExternType,
    A5: WasmExternType,
    A6: WasmExternType,
    A7: WasmExternType,
    A8: WasmExternType,
    A9: WasmExternType,
    A10: WasmExternType,
    Rets: WasmTypeList,
    RetsAsResult: IntoResult<Rets>,
    Env: Sized,
    Func: Fn(&mut Env, A1, A2, A3, A4, A5, A6, A7, A8, A9, A10) -> RetsAsResult + Send + 'static,

    ensures
        HostFunction::<
            (A1, A2, A3, A4, A5, A6, A7, A8, A9, A10),
            Rets,
            WithEnv,
            Env,
        >::accepts(&func, env, args)
            <==> forall|given: &mut Env|
                *given == env ==> call_requires(
                    func,
                    (
                        given, args.0, args.1, args.2, args.3, args.4, args.5, args.6, args.7,
                        args.8, args.9,
                    ),
                ),
        forall|given: &mut Env|
            #[trigger] HostFunction::<
                (A1, A2, A3, A4, A5, A6, A7, A8, A9, A10),
                Rets,
                WithEnv,
                Env,
            >::may_return(&func, given, args, r)
                <==> exists|out: RetsAsResult|
                    call_ensures(
                        func,
                        (
                            given, args.0, args.1, args.2, args.3, args.4, args.5, args.6, args.7,
                            args.8, args.9,
                        ),
                        out,
                    ) && r == out.into_result_spec(),
{
}

/// A closure of eleven parameters is a host function without an environment.
impl<A1, A2, A3, A4, A5, A6, A7, A8, A9, A10, A11, Rets, RetsAsResult, Func> HostFunction<
    (A1, A2, A3, A4, A5, A6, A7, A8, A9, A10, A11),
    Rets,
    WithoutEnv,
    (),
> for Func where
    A1: WasmExternType,
    A2: WasmExternType,
    A3: WasmExternType,
    A4: WasmExternType,
    A5: WasmExternType,
    A6: WasmExternType,
    A7: WasmExternType,
    A8: WasmExternType,
    A9: WasmExternType,
    A10: WasmExternType,
    A11: WasmExternType,
    Rets: WasmTypeList,
    RetsAsResult: IntoResult<Rets>,
    Func: Fn(A1, A2, A3, A4, A5, A6, A7, A8, A9, A10, A11) -> RetsAsResult + 'static + Send,
{
    type Error = RetsAsResult::Error;

    open spec fn accepts(
        &self,
        env: (),
        args: (A1, A2, A3, A4, A5, A6, A7, A8, A9, A10, A11),
    ) -> bool {
        call_requires(
            *self,
            (
                args.0, args.1, args.2, args.3, args.4, args.5, args.6, args.7, args.8, args.9,
                args.10,
            ),
        )
    }

    open spec fn may_return(
        &self,
        env: &mut (),
        args: (A1, A2, A3, A4, A5, A6, A7, A8, A9, A10, A11),
        r: Result<Rets, RetsAsResult::Error>,
    ) -> bool {
        exists|out: RetsAsResult|
            call_ensures(
                *self,
                (
                    args.0, args.1, args.2, args.3, args.4, args.5, args.6, args.7, args.8, args.9,
                    args.10,
                ),
                out,
            ) && r == out.into_result_spec()
    }

    fn call(
        &self,
        env: &mut (),
        args: (A1, A2, A3, A4, A5, A6, A7, A8, A9, A10, A11),
    ) -> (r: Result<Rets, RetsAsResult::Error>) {
        let (a1, a2, a3, a4, a5, a6, a7, a8, a9, a10, a11) = args;
        let r = self(a1, a2, a3, a4, a5, a6, a7, a8, a9, a10, a11).into_result();
        proof {
            assert(self.may_return(old(env), args, r));
        }
        r
    }
}

/// What calling a closure of eleven parameters as a host function asks and promises,
/// said of the closure itself.
pub proof fn lemma_host_function_11<
    A1, A2, A3, A4, A5, A6, A7, A8, A9, A10, A11, Rets, RetsAsResult, Func,
>(
    func: Func,
    env: (),
    args: (A1, A2, A3, A4, A5, A6, A7, A8, A9, A10, A11),
    r: Result<Rets, RetsAsResult::Error>,
) where
    A1: WasmExternType,
    A2: WasmExternType,
    A3: WasmExternType,
    A4: WasmExternType,
    A5: WasmExternType,
    A6: WasmExternType,
    A7: WasmExternType,
    A8: WasmExternType,
    A9: WasmExternType,
    A10: WasmExternType,
    A11: WasmExternType,
    Rets: WasmTypeList,
    RetsAsResult: IntoResult<Rets>,
    Func: Fn(A1, A2, A3, A4, A5, A6, A7, A8, A9, A10, A11) -> RetsAsResult + 'static + Send,

    ensures
        HostFunction::<
            (A1, A2, A3, A4, A5, A6, A7, A8, A9, A10, A11),
            Rets,
            WithoutEnv,
            (),
        >::accepts(&func, env, args)
            <==> call_requires(
                func,
                (
                    args.0, args.1, args.2, args.3, args.4, args.5, args.6, args.7, args.8, args.9,
                    args.10,
                ),
            ),
        forall|given: &mut ()|
            #[trigger] HostFunction::<
                (A1, A2, A3, A4, A5, A6, A7, A8, A9, A10, A11),
                Rets,
                WithoutEnv,
                (),
            >::may_return(&func, given, args, r)
                <==> exists|out: RetsAsResult|
                    call_ensures(
                        func,
                        (
                            args.0, args.1, args.2, args.3, args.4, args.5, args.6, args.7, args.8,
                            args.9, args.10,
                        ),
                        out,
                    ) && r == out.into_result_spec(),
{
}

/// A closure of an environment and eleven parameters is a host function with an
/// environment.
impl<A1, A2, A3, A4, A5, A6, A7, A8, A9, A10, A11, Rets, RetsAsResult, Env, Func> HostFunction<
    (A1, A2, A3, A4, A5, A6, A7, A8, A9, A10, A11),
    Rets,
    WithEnv,
    Env,
> for Func where
    A1: WasmExternType,
    A2: WasmExternType,
    A3: WasmExternType,
    A4: WasmExternType,
    A5: WasmExternType,
    A6: WasmExternType,
    A7: WasmExternType,
    A8: WasmExternType,
    A9: WasmExternType,
    A10: WasmExternType,
    A11: WasmExternType,
    Rets: WasmTypeList,
    RetsAsResult: IntoResult<Rets>,
    Env: Sized,
    Func: Fn(
        &mut Env, A1, A2, A3, A4, A5, A6, A7, A8, A9, A10, A11,
    ) -> RetsAsResult + Send + 'static,
{
    type Error = RetsAsResult::Error;

    open spec fn accepts(
        &self,
        env: Env,
        args: (A1, A2, A3, A4, A5, A6, A7, A8, A9, A10, A11),
    ) -> bool {
        forall|given: &mut Env|
            *given == env ==> call_requires(
                *self,
                (
                    given, args.0, args.1, args.2, args.3, args.4, args.5, args.6, args.7, args.8,
                    args.9, args.10,
                ),
            )
    }

    open spec fn may_return(
        &self,
        env: &mut Env,
        args: (A1, A2, A3, A4, A5, A6, A7, A8, A9, A10, A11),
        r: Result<Rets, RetsAsResult::Error>,
    ) -> bool {
        exists|out: RetsAsResult|
            call_ensures(
                *self,
                (
                    env, args.0, args.1, args.2, args.3, args.4, args.5, args.6, args.7, args.8,
                    args.9, args.10,
                ),
                out,
            ) && r == out.into_result_spec()
    }

    fn call(
        &self,
        env: &mut Env,
        args: (A1, A2, A3, A4, A5, A6, A7, A8, A9, A10, A11),
    ) -> (r: Result<Rets, RetsAsResult::Error>) {
        let (a1, a2, a3, a4, a5, a6, a7, a8, a9, a10, a11) = args;
        let ghost before = *env;
        let out = self(env, a1, a2, a3, a4, a5, a6, a7, a8, a9, a10, a11);
        let r = out.into_result();
        proof {
            let given = choose|given: &mut Env|
                {
                    &&& *given == before
                    &&& *final(given) == *env
                    &&& call_ensures(
                        *self,
                        (given, a1, a2, a3, a4, a5, a6, a7, a8, a9, a10, a11),
                        out,
                    )
                };
            assert(self.may_return(given, args, r));
        }
        r
    }
}

/// What calling a closure of an environment and eleven parameters as a host function
/// asks and promises, said of the closure itself.
pub proof fn lemma_host_function_env_11<
    A1, A2, A3, A4, A5, A6, A7, A8, A9, A10, A11, Rets, RetsAsResult, Env, Func,
>(
    func: Func,
    env: Env,
    args: (A1, A2, A3, A4, A5, A6, A7, A8, A9, A10, A11),
    r: Result<Rets, RetsAsResult::Error>,
) where
    A1: WasmExternType,
    A2: WasmExternType,
    A3: WasmExternType,
    A4: WasmExternType,
    A5: WasmExternType,
    A6: WasmExternType,
    A7: WasmExternType,
    A8: WasmExternType,
    A9: WasmExternType,
    A10: WasmExternType,
    A11: WasmExternType,
    Rets: WasmTypeList,
    RetsAsResult: IntoResult<Rets>,
    Env: Sized,
    Func: Fn(
        &mut Env, A1, A2, A3, A4, A5, A6, A7, A8, A9, A10, A11,
    ) -> RetsAsResult + Send + 'static,

    ensures
        HostFunction::<
            (A1, A2, A3, A4, A5, A6, A7, A8, A9, A10, A11),
            Rets,
            WithEnv,
            Env,
        >::accepts(&func, env, args)
            <==> forall|given: &mut Env|
                *given == env ==> call_requires(
                    func,
                    (
                        given, args.0, args.1, args.2, args.3, args.4, args.5, args.6, args.7,
                        args.8, args.9, args.10,
                    ),
                ),
        forall|given: &mut Env|
            #[trigger] HostFunction::<
                (A1, A2, A3, A4, A5, A6, A7, A8, A9, A10, A11),
                Rets,
                WithEnv,
                Env,
            >::may_return(&func, given, args, r)
                <==> exists|out: RetsAsResult|
                    call_ensures(
                        func,
                        (
                            given, args.0, args.1, args.2, args.3, args.4, args.5, args.6, args.7,
                            args.8, args.9, args.10,
                        ),
                        out,
                    ) && r == out.into_result_spec(),
{
}

/// A closure of twelve parameters is a host function without an environment.
impl<A1, A2, A3, A4, A5, A6, A7, A8, A9, A10, A11, A12, Rets, RetsAsResult, Func> HostFunction<
    (A1, A2, A3, A4, A5, A6, A7, A8, A9, A10, A11, A12),
    Rets,
    WithoutEnv,
    (),
> for Func where
    A1: WasmExternType,
    A2: WasmExternType,
    A3: WasmExternType,
    A4: WasmExternType,
    A5: WasmExternType,
    A6: WasmExternType,
    A7: WasmExternType,
    A8: WasmExternType,
    A9: WasmExternType,
    A10: WasmExternType,
    A11: WasmExternType,
    A12: WasmExternType,
    Rets: WasmTypeList,
    RetsAsResult: IntoResult<Rets>,
    Func: Fn(A1, A2, A3, A4, A5, A6, A7, A8, A9, A10, A11, A12) -> RetsAsResult + 'static + Send,
{
    type Error = RetsAsResult::Error;

    open spec fn accepts(
        &self,
        env: (),
        args: (A1, A2, A3, A4, A5, A6, A7, A8, A9, A10, A11, A12),
    ) -> bool {
        call_requires(
            *self,
            (
                args.0, args.1, args.2, args.3, args.4, args.5, args.6, args.7, args.8, args.9,
                args.10, args.11,
            ),
        )
    }

    open spec fn may_return(
        &self,
        env: &mut (),
        args: (A1, A2, A3, A4, A5, A6, A7, A8, A9, A10, A11, A12),
        r: Result<Rets, RetsAsResult::Error>,
    ) -> bool {
        exists|out: RetsAsResult|
            call_ensures(
                *self,
                (
                    args.0, args.1, args.2, args.3, args.4, args.5, args.6, args.7, args.8, args.9,
                    args.10, args.11,
                ),
                out,
            ) && r == out.into_result_spec()
    }

    fn call(
        &self,
        env: &mut (),
        args: (A1, A2, A3, A4, A5, A6, A7, A8, A9, A10, A11, A12),
    ) -> (r: Result<Rets, RetsAsResult::Error>) {
        let (a1, a2, a3, a4, a5, a6, a7, a8, a9, a10, a11, a12) = args;
        let r = self(a1, a2, a3, a4, a5, a6, a7, a8, a9, a10, a11, a12).into_result();
        proof {
            assert(self.may_return(old(env), args, r));
        }
        r
    }
}

/// What calling a closure of twelve parameters as a host function asks and promises,
/// said of the closure itself.
pub proof fn lemma_host_function_12<
    A1, A2, A3, A4, A5, A6, A7, A8, A9, A10, A11, A12, Rets, RetsAsResult, Func,
>(
    func: Func,
    env: (),
    args: (A1, A2, A3, A4, A5, A6, A7, A8, A9, A10, A11, A12),
    r: Result<Rets, RetsAsResult::Error>,
) where
    A1: WasmExternType,
    A2: WasmExternType,
    A3: WasmExternType,
    A4: WasmExternType,
    A5: WasmExternType,
    A6: WasmExternType,
    A7: WasmExternType,
    A8: WasmExternType,
    A9: WasmExternType,
    A10: WasmExternType,
    A11: WasmExternType,
    A12: WasmExternType,
    Rets: WasmTypeList,
    RetsAsResult: IntoResult<Rets>,
    Func: Fn(A1, A2, A3, A4, A5, A6, A7, A8, A9, A10, A11, A12) -> RetsAsResult + 'static + Send,

    ensures
        HostFunction::<
            (A1, A2, A3, A4, A5, A6, A7, A8, A9, A10, A11, A12),
            Rets,
            WithoutEnv,
            (),
        >::accepts(&func, env, args)
            <==> call_requires(
                func,
                (
                    args.0, args.1, args.2, args.3, args.4, args.5, args.6, args.7, args.8, args.9,
                    args.10, args.11,
                ),
            ),
        forall|given: &mut ()|
            #[trigger] HostFunction::<
                (A1, A2, A3, A4, A5, A6, A7, A8, A9, A10, A11, A12),
                Rets,
                WithoutEnv,
                (),
            >::may_return(&func, given, args, r)
                <==> exists|out: RetsAsResult|
                    call_ensures(
                        func,
                        (
                            args.0, args.1, args.2, args.3, args.4, args.5, args.6, args.7, args.8,
                            args.9, args.10, args.11,
                        ),
                        out,
                    ) && r == out.into_result_spec(),
{
}

/// A closure of an environment and twelve parameters is a host function with an
/// environment.
impl<A1, A2, A3, A4, A5, A6, A7, A8, A9, A10, A11, A12, Rets, RetsAsResult, Env, Func> HostFunction<
    (A1, A2, A3, A4, A5, A6, A7, A8, A9, A10, A11, A12),
    Rets,
    WithEnv,
    Env,
> for Func where
    A1: WasmExternType,
    A2: WasmExternType,
    A3: WasmExternType,
    A4: WasmExternType,
    A5: WasmExternType,
    A6: WasmExternType,
    A7: WasmExternType,
    A8: WasmExternType,
    A9: WasmExternType,
    A10: WasmExternType,
    A11: WasmExternType,
    A12: WasmExternType,
    Rets: WasmTypeList,
    RetsAsResult: IntoResult<Rets>,
    Env: Sized,
    Func: Fn(
        &mut Env, A1, A2, A3, A4, A5, A6, A7, A8, A9, A10, A11, A12,
    ) -> RetsAsResult + Send + 'static,
{
    type Error = RetsAsResult::Error;

    open spec fn accepts(
        &self,
        env: Env,
        args: (A1, A2, A3, A4, A5, A6, A7, A8, A9, A10, A11, A12),
    ) -> bool {
        forall|given: &mut Env|
            *given == env ==> call_requires(
                *self,
                (
                    given, args.0, args.1, args.2, args.3, args.4, args.5, args.6, args.7, args.8,
                    args.9, args.10, args.11,
                ),
            )
    }

    open spec fn may_return(
        &self,
        env: &mut Env,
        args: (A1, A2, A3, A4, A5, A6, A7, A8, A9, A10, A11, A12),
        r: Result<Rets, RetsAsResult::Error>,
    ) -> bool {
        exists|out: RetsAsResult|
            call_ensures(
                *self,
                (
                    env, args.0, args.1, args.2, args.3, args.4, args.5, args.6, args.7, args.8,
                    args.9, args.10, args.11,
                ),
                out,
            ) && r == out.into_result_spec()
    }

    fn call(
        &self,
        env: &mut Env,
        args: (A1, A2, A3, A4, A5, A6, A7, A8, A9, A10, A11, A12),
    ) -> (r: Result<Rets, RetsAsResult::Error>) {
        let (a1, a2, a3, a4, a5, a6, a7, a8, a9, a10, a11, a12) = args;
        let ghost before = *env;
        let out = self(env, a1, a2, a3, a4, a5, a6, a7, a8, a9, a10, a11, a12);
        let r = out.into_result();
        proof {
            let given = choose|given: &mut Env|
                {
                    &&& *given == before
                    &&& *final(given) == *env
                    &&& call_ensures(
                        *self,
                        (given, a1, a2, a3, a4, a5, a6, a7, a8, a9, a10, a11, a12),
                        out,
                    )
                };
            assert(self.may_return(given, args, r));
        }
        r
    }
}

/// What calling a closure of an environment and twelve parameters as a host function
/// asks and promises, said of the closure itself.
pub proof fn lemma_host_function_env_12<
    A1, A2, A3, A4, A5, A6, A7, A8, A9, A10, A11, A12, Rets, RetsAsResult, Env, Func,
>(
    func: Func,
    env: Env,
    args: (A1, A2, A3, A4, A5, A6, A7, A8, A9, A10, A11, A12),
    r: Result<Rets, RetsAsResult::Error>,
) where
    A1: WasmExternType,
    A2: WasmExternType,
    A3: WasmExternType,
    A4: WasmExternType,
    A5: WasmExternType,
    A6: WasmExternType,
    A7: WasmExternType,
    A8: WasmExternType,
    A9: WasmExternType,
    A10: WasmExternType,
    A11: WasmExternType,
    A12: WasmExternType,
    Rets: WasmTypeList,
    RetsAsResult: IntoResult<Rets>,
    Env: Sized,
    Func: Fn(
        &mut Env, A1, A2, A3, A4, A5, A6, A7, A8, A9, A10, A11, A12,
    ) -> RetsAsResult + Send + 'static,

    ensures
        HostFunction::<
            (A1, A2, A3, A4, A5, A6, A7, A8, A9, A10, A11, A12),
            Rets,
            WithEnv,
            Env,
        >::accepts(&func, env, args)
            <==> forall|given: &mut Env|
                *given == env ==> call_requires(
                    func,
                    (
                        given, args.0, args.1, args.2, args.3, args.4, args.5, args.6, args.7,
                        args.8, args.9, args.10, args.11,
                    ),
                ),
        forall|given: &mut Env|
            #[trigger] HostFunction::<
                (A1, A2, A3, A4, A5, A6, A7, A8, A9, A10, A11, A12),
                Rets,
                WithEnv,
                Env,
            >::may_return(&func, given, args, r)
                <==> exists|out: RetsAsResult|
                    call_ensures(
                        func,
                        (
                            given, args.0, args.1, args.2, args.3, args.4, args.5, args.6, args.7,
                            args.8, args.9, args.10, args.11,
                        ),
                        out,
                    ) && r == out.into_result_spec(),
{
}

/// A closure of thirteen parameters is a host function without an environment.
impl<A1, A2, A3, A4, A5, A6, A7, A8, A9, A10, A11, A12, A13, Rets, RetsAsResult, Func> HostFunction<
    (A1, A2, A3, A4, A5, A6, A7, A8, A9, A10, A11, A12, A13),
    Rets,
    WithoutEnv,
    (),
> for Func where
    A1: WasmExternType,
    A2: WasmExternType,
    A3: WasmExternType,
    A4: WasmExternType,
    A5: WasmExternType,
    A6: WasmExternType,
    A7: WasmExternType,
    A8: WasmExternType,
    A9: WasmExternType,
    A10: WasmExternType,
    A11: WasmExternType,
    A12: WasmExternType,
    A13: WasmExternType,
    Rets: WasmTypeList,
    RetsAsResult: IntoResult<Rets>,
    Func: Fn(
        A1, A2, A3, A4, A5, A6, A7, A8, A9, A10, A11, A12, A13,
    ) -> RetsAsResult + 'static + Send,
{
    type Error = RetsAsResult::Error;

    open spec fn accepts(
        &self,
        env: (),
        args: (A1, A2, A3, A4, A5, A6, A7, A8, A9, A10, A11, A12, A13),
    ) -> bool {
        call_requires(
            *self,
            (
                args.0, args.1, args.2, args.3, args.4, args.5, args.6, args.7, args.8, args.9,
                args.10, args.11, args.12,
            ),
        )
    }

    open spec fn may_return(
        &self,
        env: &mut (),
        args: (A1, A2, A3, A4, A5, A6, A7, A8, A9, A10, A11, A12, A13),
        r: Result<Rets, RetsAsResult::Error>,
    ) -> bool {
        exists|out: RetsAsResult|
            call_ensures(
                *self,
                (
                    args.0, args.1, args.2, args.3, args.4, args.5, args.6, args.7, args.8, args.9,
                    args.10, args.11, args.12,
                ),
                out,
            ) && r == out.into_result_spec()
    }

    fn call(
        &self,
        env: &mut (),
        args: (A1, A2, A3, A4, A5, A6, A7, A8, A9, A10, A11, A12, A13),
    ) -> (r: Result<Rets, RetsAsResult::Error>) {
        let (a1, a2, a3, a4, a5, a6, a7, a8, a9, a10, a11, a12, a13) = args;
        let r = self(a1, a2, a3, a4, a5, a6, a7, a8, a9, a10, a11, a12, a13).into_result();
        proof {
            assert(self.may_return(old(env), args, r));
        }
        r
    }
}

/// What calling a closure of thirteen parameters as a host function asks and promises,
/// said of the closure itself.
pub proof fn lemma_host_function_13<
    A1, A2, A3, A4, A5, A6, A7, A8, A9, A10, A11, A12, A13, Rets, RetsAsResult, Func,
>(
    func: Func,
    env: (),
    args: (A1, A2, A3, A4, A5, A6, A7, A8, A9, A10, A11, A12, A13),
    r: Result<Rets, RetsAsResult::Error>,
) where
    A1: WasmExternType,
    A2: WasmExternType,
    A3: WasmExternType,
    A4: WasmExternType,
    A5: WasmExternType,
    A6: WasmExternType,
    A7: WasmExternType,
    A8: WasmExternType,
    A9: WasmExternType,
    A10: WasmExternType,
    A11: WasmExternType,
    A12: WasmExternType,
    A13: WasmExternType,
    Rets: WasmTypeList,
    RetsAsResult: IntoResult<Rets>,
    Func: Fn(
        A1, A2, A3, A4, A5, A6, A7, A8, A9, A10, A11, A12, A13,
    ) -> RetsAsResult + 'static + Send,

    ensures
        HostFunction::<
            (A1, A2, A3, A4, A5, A6, A7, A8, A9, A10, A11, A12, A13),
            Rets,
            WithoutEnv,
            (),
        >::accepts(&func, env, args)
            <==> call_requires(
                func,
                (
                    args.0, args.1, args.2, args.3, args.4, args.5, args.6, args.7, args.8, args.9,
                    args.10, args.11, args.12,
                ),
            ),
        forall|given: &mut ()|
            #[trigger] HostFunction::<
                (A1, A2, A3, A4, A5, A6, A7, A8, A9, A10, A11, A12, A13),
                Rets,
                WithoutEnv,
                (),
            >::may_return(&func, given, args, r)
                <==> exists|out: RetsAsResult|
                    call_ensures(
                        func,
                        (
                            args.0, args.1, args.2, args.3, args.4, args.5, args.6, args.7, args.8,
                            args.9, args.10, args.11, args.12,
                        ),
                        out,
                    ) && r == out.into_result_spec(),
{
}

/// A closure of an environment and thirteen parameters is a host function with an
/// environment.
impl<
    A1, A2, A3, A4, A5, A6, A7, A8, A9, A10, A11, A12, A13, Rets, RetsAsResult, Env, Func,
> HostFunction<
    (A1, A2, A3, A4, A5, A6, A7, A8, A9, A10, A11, A12, A13),
    Rets,
    WithEnv,
    Env,
> for Func where
    A1: WasmExternType,
    A2: WasmExternType,
    A3: WasmExternType,
    A4: WasmExternType,
    A5: WasmExternType,
    A6: WasmExternType,
    A7: WasmExternType,
    A8: WasmExternType,
    A9: WasmExternType,
    A10: WasmExternType,
    A11: WasmExternType,
    A12: WasmExternType,
    A13: WasmExternType,
    Rets: WasmTypeList,
    RetsAsResult: IntoResult<Rets>,
    Env: Sized,
    Func: Fn(
        &mut Env, A1, A2, A3, A4, A5, A6, A7, A8, A9, A10, A11, A12, A13,
    ) -> RetsAsResult + Send + 'static,
{
    type Error = RetsAsResult::Error;

    open spec fn accepts(
        &self,
        env: Env,
        args: (A1, A2, A3, A4, A5, A6, A7, A8, A9, A10, A11, A12, A13),
    ) -> bool {
        forall|given: &mut Env|
            *given == env ==> call_requires(
                *self,
                (
                    given, args.0, args.1, args.2, args.3, args.4, args.5, args.6, args.7, args.8,
                    args.9, args.10, args.11, args.12,
                ),
            )
    }

    open spec fn may_return(
        &self,
        env: &mut Env,
        args: (A1, A2, A3, A4, A5, A6, A7, A8, A9, A10, A11, A12, A13),
        r: Result<Rets, RetsAsResult::Error>,
    ) -> bool {
        exists|out: RetsAsResult|
            call_ensures(
                *self,
                (
                    env, args.0, args.1, args.2, args.3, args.4, args.5, args.6, args.7, args.8,
                    args.9, args.10, args.11, args.12,
                ),
                out,
            ) && r == out.into_result_spec()
    }

    fn call(
        &self,
        env: &mut Env,
        args: (A1, A2, A3, A4, A5, A6, A7, A8, A9, A10, A11, A12, A13),
    ) -> (r: Result<Rets, RetsAsResult::Error>) {
        let (a1, a2, a3, a4, a5, a6, a7, a8, a9, a10, a11, a12, a13) = args;
        let ghost before = *env;
        let out = self(env, a1, a2, a3, a4, a5, a6, a7, a8, a9, a10, a11, a12, a13);
        let r = out.into_result();
        proof {
            let given = choose|given: &mut Env|
                {
                    &&& *given == before
                    &&& *final(given) == *env
                    &&& call_ensures(
                        *self,
                        (given, a1, a2, a3, a4, a5, a6, a7, a8, a9, a10, a11, a12, a13),
                        out,
                    )
                };
            assert(self.may_return(given, args, r));
        }
        r
    }
}

/// What calling a closure of an environment and thirteen parameters as a host function
/// asks and promises, said of the closure itself.
pub proof fn lemma_host_function_env_13<
    A1, A2, A3, A4, A5, A6, A7, A8, A9, A10, A11, A12, A13, Rets, RetsAsResult, Env, Func,
>(
    func: Func,
    env: Env,
    args: (A1, A2, A3, A4, A5, A6, A7, A8, A9, A10, A11, A12, A13),
    r: Result<Rets, RetsAsResult::Error>,
) where
    A1: WasmExternType,
    A2: WasmExternType,
    A3: WasmExternType,
    A4: WasmExternType,
    A5: WasmExternType,
    A6: WasmExternType,
    A7: WasmExternType,
    A8: WasmExternType,
    A9: WasmExternType,
    A10: WasmExternType,
    A11: WasmExternType,
    A12: WasmExternType,
    A13: WasmExternType,
    Rets: WasmTypeList,
    RetsAsResult: IntoResult<Rets>,
    Env: Sized,
    Func: Fn(
        &mut Env, A1, A2, A3, A4, A5, A6, A7, A8, A9, A10, A11, A12, A13,
    ) -> RetsAsResult + Send + 'static,

    ensures
        HostFunction::<
            (A1, A2, A3, A4, A5, A6, A7, A8, A9, A10, A11, A12, A13),
            Rets,
            WithEnv,
            Env,
        >::accepts(&func, env, args)
            <==> forall|given: &mut Env|
                *given == env ==> call_requires(
                    func,
                    (
                        given, args.0, args.1, args.2, args.3, args.4, args.5, args.6, args.7,
                        args.8, args.9, args.10, args.11, args.12,
                    ),
                ),
        forall|given: &mut Env|
            #[trigger] HostFunction::<
                (A1, A2, A3, A4, A5, A6, A7, A8, A9, A10, A11, A12, A13),
                Rets,
                WithEnv,
                Env,
            >::may_return(&func, given, args, r)
                <==> exists|out: RetsAsResult|
                    call_ensures(
                        func,
                        (
                            given, args.0, args.1, args.2, args.3, args.4, args.5, args.6, args.7,
                            args.8, args.9, args.10, args.11, args.12,
                        ),
                        out,
                    ) && r == out.into_result_spec(),
{
}

/// A closure of fourteen parameters is a host function without an environment.
impl<
    A1, A2, A3, A4, A5, A6, A7, A8, A9, A10, A11, A12, A13, A14, Rets, RetsAsResult, Func,
> HostFunction<
    (A1, A2, A3, A4, A5, A6, A7, A8, A9, A10, A11, A12, A13, A14),
    Rets,
    WithoutEnv,
    (),
> for Func where
    A1: WasmExternType,
    A2: WasmExternType,
    A3: WasmExternType,
    A4: WasmExternType,
    A5: WasmExternType,
    A6: WasmExternType,
    A7: WasmExternType,
    A8: WasmExternType,
    A9: WasmExternType,
    A10: WasmExternType,
    A11: WasmExternType,
    A12: WasmExternType,
    A13: WasmExternType,
    A14: WasmExternType,
    Rets: WasmTypeList,
    RetsAsResult: IntoResult<Rets>,
    Func: Fn(
        A1, A2, A3, A4, A5, A6, A7, A8, A9, A10, A11, A12, A13, A14,
    ) -> RetsAsResult + 'static + Send,
{
    type Error = RetsAsResult::Error;

    open spec fn accepts(
        &self,
        env: (),
        args: (A1, A2, A3, A4, A5, A6, A7, A8, A9, A10, A11, A12, A13, A14),
    ) -> bool {
        call_requires(
            *self,
            (
                args.0, args.1, args.2, args.3, args.4, args.5, args.6, args.7, args.8, args.9,
                args.10, args.11, args.12, args.13,
            ),
        )
    }

    open spec fn may_return(
        &self,
        env: &mut (),
        args: (A1, A2, A3, A4, A5, A6, A7, A8, A9, A10, A11, A12, A13, A14),
        r: Result<Rets, RetsAsResult::Error>,
    ) -> bool {
        exists|out: RetsAsResult|
            call_ensures(
                *self,
                (
                    args.0, args.1, args.2, args.3, args.4, args.5, args.6, args.7, args.8, args.9,
                    args.10, args.11, args.12, args.13,
                ),
                out,
            ) && r == out.into_result_spec()
    }

    fn call(
        &self,
        env: &mut (),
        args: (A1, A2, A3, A4, A5, A6, A7, A8, A9, A10, A11, A12, A13, A14),
    ) -> (r: Result<Rets, RetsAsResult::Error>) {
        let (a1, a2, a3, a4, a5, a6, a7, a8, a9, a10, a11, a12, a13, a14) = args;
        let r = self(a1, a2, a3, a4, a5, a6, a7, a8, a9, a10, a11, a12, a13, a14).into_result();
        proof {
            assert(self.may_return(old(env), args, r));
        }
        r
    }
}

/// What calling a closure of fourteen parameters as a host function asks and promises,
/// said of the closure itself.
pub proof fn lemma_host_function_14<
    A1, A2, A3, A4, A5, A6, A7, A8, A9, A10, A11, A12, A13, A14, Rets, RetsAsResult, Func,
>(
    func: Func,
    env: (),
    args: (A1, A2, A3, A4, A5, A6, A7, A8, A9, A10, A11, A12, A13, A14),
    r: Result<Rets, RetsAsResult::Error>,
) where
    A1: WasmExternType,
    A2: WasmExternType,
    A3: WasmExternType,
    A4: WasmExternType,
    A5: WasmExternType,
    A6: WasmExternType,
    A7: WasmExternType,
    A8: WasmExternType,
    A9: WasmExternType,
    A10: WasmExternType,
    A11: WasmExternType,
    A12: WasmExternType,
    A13: WasmExternType,
    A14: WasmExternType,
    Rets: WasmTypeList,
    RetsAsResult: IntoResult<Rets>,
    Func: Fn(
        A1, A2, A3, A4, A5, A6, A7, A8, A9, A10, A11, A12, A13, A14,
    ) -> RetsAsResult + 'static + Send,

    ensures
        HostFunction::<
            (A1, A2, A3, A4, A5, A6, A7, A8, A9, A10, A11, A12, A13, A14),
            Rets,
            WithoutEnv,
            (),
        >::accepts(&func, env, args)
            <==> call_requires(
                func,
                (
                    args.0, args.1, args.2, args.3, args.4, args.5, args.6, args.7, args.8, args.9,
                    args.10, args.11, args.12, args.13,
                ),
            ),
        forall|given: &mut ()|
            #[trigger] HostFunction::<
                (A1, A2, A3, A4, A5, A6, A7, A8, A9, A10, A11, A12, A13, A14),
                Rets,
                WithoutEnv,
                (),
            >::may_return(&func, given, args, r)
                <==> exists|out: RetsAsResult|
                    call_ensures(
                        func,
                        (
                            args.0, args.1, args.2, args.3, args.4, args.5, args.6, args.7, args.8,
                            args.9, args.10, args.11, args.12, args.13,
                        ),
                        out,
                    ) && r == out.into_result_spec(),
{
}

/// A closure of an environment and fourteen parameters is a host function with an
/// environment.
impl<
    A1, A2, A3, A4, A5, A6, A7, A8, A9, A10, A11, A12, A13, A14, Rets, RetsAsResult, Env, Func,
> HostFunction<
    (A1, A2, A3, A4, A5, A6, A7, A8, A9, A10, A11, A12, A13, A14),
    Rets,
    WithEnv,
    Env,
> for Func where
    A1: WasmExternType,
    A2: WasmExternType,
    A3: WasmExternType,
    A4: WasmExternType,
    A5: WasmExternType,
    A6: WasmExternType,
    A7: WasmExternType,
    A8: WasmExternType,
    A9: WasmExternType,
    A10: WasmExternType,
    A11: WasmExternType,
    A12: WasmExternType,
    A13: WasmExternType,
    A14: WasmExternType,
    Rets: WasmTypeList,
    RetsAsResult: IntoResult<Rets>,
    Env: Sized,
    Func: Fn(
        &mut Env, A1, A2, A3, A4, A5, A6, A7, A8, A9, A10, A11, A12, A13, A14,
    ) -> RetsAsResult + Send + 'static,
{
    type Error = RetsAsResult::Error;

    open spec fn accepts(
        &self,
        env: Env,
        args: (A1, A2, A3, A4, A5, A6, A7, A8, A9, A10, A11, A12, A13, A14),
    ) -> bool {
        forall|given: &mut Env|
            *given == env ==> call_requires(
                *self,
                (
                    given, args.0, args.1, args.2, args.3, args.4, args.5, args.6, args.7, args.8,
                    args.9, args.10, args.11, args.12, args.13,
                ),
            )
    }

    open spec fn may_return(
        &self,
        env: &mut Env,
        args: (A1, A2, A3, A4, A5, A6, A7, A8, A9, A10, A11, A12, A13, A14),
        r: Result<Rets, RetsAsResult::Error>,
    ) -> bool {
        exists|out: RetsAsResult|
            call_ensures(
                *self,
                (
                    env, args.0, args.1, args.2, args.3, args.4, args.5, args.6, args.7, args.8,
                    args.9, args.10, args.11, args.12, args.13,
                ),
                out,
            ) && r == out.into_result_spec()
    }

    fn call(
        &self,
        env: &mut Env,
        args: (A1, A2, A3, A4, A5, A6, A7, A8, A9, A10, A11, A12, A13, A14),
    ) -> (r: Result<Rets, RetsAsResult::Error>) {
        let (a1, a2, a3, a4, a5, a6, a7, a8, a9, a10, a11, a12, a13, a14) = args;
        let ghost before = *env;
        let out = self(env, a1, a2, a3, a4, a5, a6, a7, a8, a9, a10, a11, a12, a13, a14);
        let r = out.into_result();
        proof {
            let given = choose|given: &mut Env|
                {
                    &&& *given == before
                    &&& *final(given) == *env
                    &&& call_ensures(
                        *self,
                        (given, a1, a2, a3, a4, a5, a6, a7, a8, a9, a10, a11, a12, a13, a14),
                        out,
                    )
                };
            assert(self.may_return(given, args, r));
        }
        r
    }
}

/// What calling a closure of an environment and fourteen parameters as a host function
/// asks and promises, said of the closure itself.
pub proof fn lemma_host_function_env_14<
    A1, A2, A3, A4, A5, A6, A7, A8, A9, A10, A11, A12, A13, A14, Rets, RetsAsResult, Env, Func,
>(
    func: Func,
    env: Env,
    args: (A1, A2, A3, A4, A5, A6, A7, A8, A9, A10, A11, A12, A13, A14),
    r: Result<Rets, RetsAsResult::Error>,
) where
    A1: WasmExternType,
    A2: WasmExternType,
    A3: WasmExternType,
    A4: WasmExternType,
    A5: WasmExternType,
    A6: WasmExternType,
    A7: WasmExternType,
    A8: WasmExternType,
    A9: WasmExternType,
    A10: WasmExternType,
    A11: WasmExternType,
    A12: WasmExternType,
    A13: WasmExternType,
    A14: WasmExternType,
    Rets: WasmTypeList,
    RetsAsResult: IntoResult<Rets>,
    Env: Sized,
    Func: Fn(
        &mut Env, A1, A2, A3, A4, A5, A6, A7, A8, A9, A10, A11, A12, A13, A14,
    ) -> RetsAsResult + Send + 'static,

    ensures
        HostFunction::<
            (A1, A2, A3, A4, A5, A6, A7, A8, A9, A10, A11, A12, A13, A14),
            Rets,
            WithEnv,
            Env,
        >::accepts(&func, env, args)
            <==> forall|given: &mut Env|
                *given == env ==> call_requires(
                    func,
                    (
                        given, args.0, args.1, args.2, args.3, args.4, args.5, args.6, args.7,
                        args.8, args.9, args.10, args.11, args.12, args.13,
                    ),
                ),
        forall|given: &mut Env|
            #[trigger] HostFunction::<
                (A1, A2, A3, A4, A5, A6, A7, A8, A9, A10, A11, A12, A13, A14),
                Rets,
                WithEnv,
                Env,
            >::may_return(&func, given, args, r)
                <==> exists|out: RetsAsResult|
                    call_ensures(
                        func,
                        (
                            given, args.0, args.1, args.2, args.3, args.4, args.5, args.6, args.7,
                            args.8, args.9, args.10, args.11, args.12, args.13,
                        ),
                        out,
                    ) && r == out.into_result_spec(),
{
}

/// A closure of fifteen parameters is a host function without an environment.
impl<
    A1, A2, A3, A4, A5, A6, A7, A8, A9, A10, A11, A12, A13, A14, A15, Rets, RetsAsResult, Func,
> HostFunction<
    (A1, A2, A3, A4, A5, A6, A7, A8, A9, A10, A11, A12, A13, A14, A15),
    Rets,
    WithoutEnv,
    (),
> for Func where
    A1: WasmExternType,
    A2: WasmExternType,
    A3: WasmExternType,
    A4: WasmExternType,
    A5: WasmExternType,
    A6: WasmExternType,
    A7: WasmExternType,
    A8: WasmExternType,
    A9: WasmExternType,
    A10: WasmExternType,
    A11: WasmExternType,
    A12: WasmExternType,
    A13: WasmExternType,
    A14: WasmExternType,
    A15: WasmExternType,
    Rets: WasmTypeList,
    RetsAsResult: IntoResult<Rets>,
    Func: Fn(
        A1, A2, A3, A4, A5, A6, A7, A8, A9, A10, A11, A12, A13, A14, A15,
    ) -> RetsAsResult + 'static + Send,
{
    type Error = RetsAsResult::Error;

    open spec fn accepts(
        &self,
        env: (),
        args: (A1, A2, A3, A4, A5, A6, A7, A8, A9, A10, A11, A12, A13, A14, A15),
    ) -> bool {
        call_requires(
            *self,
            (
                args.0, args.1, args.2, args.3, args.4, args.5, args.6, args.7, args.8, args.9,
                args.10, args.11, args.12, args.13, args.14,
            ),
        )
    }

    open spec fn may_return(
        &self,
        env: &mut (),
        args: (A1, A2, A3, A4, A5, A6, A7, A8, A9, A10, A11, A12, A13, A14, A15),
        r: Result<Rets, RetsAsResult::Error>,
    ) -> bool {
        exists|out: RetsAsResult|
            call_ensures(
                *self,
                (
                    args.0, args.1, args.2, args.3, args.4, args.5, args.6, args.7, args.8, args.9,
                    args.10, args.11, args.12, args.13, args.14,
                ),
                out,
            ) && r == out.into_result_spec()
    }

    fn call(
        &self,
        env: &mut (),
        args: (A1, A2, A3, A4, A5, A6, A7, A8, A9, A10, A11, A12, A13, A14, A15),
    ) -> (r: Result<Rets, RetsAsResult::Error>) {
        let (a1, a2, a3, a4, a5, a6, a7, a8, a9, a10, a11, a12, a13, a14, a15) = args;
        let r = self(
            a1, a2, a3, a4, a5, a6, a7, a8, a9, a10, a11, a12, a13, a14, a15,
        ).into_result();
        proof {
            assert(self.may_return(old(env), args, r));
        }
        r
    }
}

/// What calling a closure of fifteen parameters as a host function asks and promises,
/// said of the closure itself.
pub proof fn lemma_host_function_15<
    A1, A2, A3, A4, A5, A6, A7, A8, A9, A10, A11, A12, A13, A14, A15, Rets, RetsAsResult, Func,
>(
    func: Func,
    env: (),
    args: (A1, A2, A3, A4, A5, A6, A7, A8, A9, A10, A11, A12, A13, A14, A15),
    r: Result<Rets, RetsAsResult::Error>,
) where
    A1: WasmExternType,
    A2: WasmExternType,
    A3: WasmExternType,
    A4: WasmExternType,
    A5: WasmExternType,
    A6: WasmExternType,
    A7: WasmExternType,
    A8: WasmExternType,
    A9: WasmExternType,
    A10: WasmExternType,
    A11: WasmExternType,
    A12: WasmExternType,
    A13: WasmExternType,
    A14: WasmExternType,
    A15: WasmExternType,
    Rets: WasmTypeList,
    RetsAsResult: IntoResult<Rets>,
    Func: Fn(
        A1, A2, A3, A4, A5, A6, A7, A8, A9, A10, A11, A12, A13, A14, A15,
    ) -> RetsAsResult + 'static + Send,

    ensures
        HostFunction::<
            (A1, A2, A3, A4, A5, A6, A7, A8, A9, A10, A11, A12, A13, A14, A15),
            Rets,
            WithoutEnv,
            (),
        >::accepts(&func, env, args)
            <==> call_requires(
                func,
                (
                    args.0, args.1, args.2, args.3, args.4, args.5, args.6, args.7, args.8, args.9,
                    args.10, args.11, args.12, args.13, args.14,
                ),
            ),
        forall|given: &mut ()|
            #[trigger] HostFunction::<
                (A1, A2, A3, A4, A5, A6, A7, A8, A9, A10, A11, A12, A13, A14, A15),
                Rets,
                WithoutEnv,
                (),
            >::may_return(&func, given, args, r)
                <==> exists|out: RetsAsResult|
                    call_ensures(
                        func,
                        (
                            args.0, args.1, args.2, args.3, args.4, args.5, args.6, args.7, args.8,
                            args.9, args.10, args.11, args.12, args.13, args.14,
                        ),
                        out,
                    ) && r == out.into_result_spec(),
{
}

/// A closure of an environment and fifteen parameters is a host function with an
/// environment.
impl<
    A1, A2, A3, A4, A5, A6, A7, A8, A9, A10, A11, A12, A13, A14, A15, Rets, RetsAsResult, Env, Func,
> HostFunction<
    (A1, A2, A3, A4, A5, A6, A7, A8, A9, A10, A11, A12, A13, A14, A15),
    Rets,
    WithEnv,
    Env,
> for Func where
    A1: WasmExternType,
    A2: WasmExternType,
    A3: WasmExternType,
    A4: WasmExternType,
    A5: WasmExternType,
    A6: WasmExternType,
    A7: WasmExternType,
    A8: WasmExternType,
    A9: WasmExternType,
    A10: WasmExternType,
    A11: WasmExternType,
    A12: WasmExternType,
    A13: WasmExternType,
    A14: WasmExternType,
    A15: WasmExternType,
    Rets: WasmTypeList,
    RetsAsResult: IntoResult<Rets>,
    Env: Sized,
    Func: Fn(
        &mut Env, A1, A2, A3, A4, A5, A6, A7, A8, A9, A10, A11, A12, A13, A14, A15,
    ) -> RetsAsResult + Send + 'static,
{
    type Error = RetsAsResult::Error;

    open spec fn accepts(
        &self,
        env: Env,
        args: (A1, A2, A3, A4, A5, A6, A7, A8, A9, A10, A11, A12, A13, A14, A15),
    ) -> bool {
        forall|given: &mut Env|
            *given == env ==> call_requires(
                *self,
                (
                    given, args.0, args.1, args.2, args.3, args.4, args.5, args.6, args.7, args.8,
                    args.9, args.10, args.11, args.12, args.13, args.14,
                ),
            )
    }

    open spec fn may_return(
        &self,
        env: &mut Env,
        args: (A1, A2, A3, A4, A5, A6, A7, A8, A9, A10, A11, A12, A13, A14, A15),
        r: Result<Rets, RetsAsResult::Error>,
    ) -> bool {
        exists|out: RetsAsResult|
            call_ensures(
                *self,
                (
                    env, args.0, args.1, args.2, args.3, args.4, args.5, args.6, args.7, args.8,
                    args.9, args.10, args.11, args.12, args.13, args.14,
                ),
                out,
            ) && r == out.into_result_spec()
    }

    fn call(
        &self,
        env: &mut Env,
        args: (A1, A2, A3, A4, A5, A6, A7, A8, A9, A10, A11, A12, A13, A14, A15),
    ) -> (r: Result<Rets, RetsAsResult::Error>) {
        let (a1, a2, a3, a4, a5, a6, a7, a8, a9, a10, a11, a12, a13, a14, a15) = args;
        let ghost before = *env;
        let out = self(env, a1, a2, a3, a4, a5, a6, a7, a8, a9, a10, a11, a12, a13, a14, a15);
        let r = out.into_result();
        proof {
            let given = choose|given: &mut Env|
                {
                    &&& *given == before
                    &&& *final(given) == *env
                    &&& call_ensures(
                        *self,
                        (given, a1, a2, a3, a4, a5, a6, a7, a8, a9, a10, a11, a12, a13, a14, a15),
                        out,
                    )
                };
            assert(self.may_return(given, args, r));
        }
        r
    }
}

/// What calling a closure of an environment and fifteen parameters as a host function
/// asks and promises, said of the closure itself.
pub proof fn lemma_host_function_env_15<
    A1, A2, A3, A4, A5, A6, A7, A8, A9, A10, A11, A12, A13, A14, A15, Rets, RetsAsResult, Env, Func,
>(
    func: Func,
    env: Env,
    args: (A1, A2, A3, A4, A5, A6, A7, A8, A9, A10, A11, A12, A13, A14, A15),
    r: Result<Rets, RetsAsResult::Error>,
) where
    A1: WasmExternType,
    A2: WasmExternType,
    A3: WasmExternType,
    A4: WasmExternType,
    A5: WasmExternType,
    A6: WasmExternType,
    A7: WasmExternType,
    A8: WasmExternType,
    A9: WasmExternType,
    A10: WasmExternType,
    A11: WasmExternType,
    A12: WasmExternType,
    A13: WasmExternType,
    A14: WasmExternType,
    A15: WasmExternType,
    Rets: WasmTypeList,
    RetsAsResult: IntoResult<Rets>,
    Env: Sized,
    Func: Fn(
        &mut Env, A1, A2, A3, A4, A5, A6, A7, A8, A9, A10, A11, A12, A13, A14, A15,
    ) -> RetsAsResult + Send + 'static,

    ensures
        HostFunction::<
            (A1, A2, A3, A4, A5, A6, A7, A8, A9, A10, A11, A12, A13, A14, A15),
            Rets,
            WithEnv,
            Env,
        >::accepts(&func, env, args)
            <==> forall|given: &mut Env|
                *given == env ==> call_requires(
                    func,
                    (
                        given, args.0, args.1, args.2, args.3, args.4, args.5, args.6, args.7,
                        args.8, args.9, args.10, args.11, args.12, args.13, args.14,
                    ),
                ),
        forall|given: &mut Env|
            #[trigger] HostFunction::<
                (A1, A2, A3, A4, A5, A6, A7, A8, A9, A10, A11, A12, A13, A14, A15),
                Rets,
                WithEnv,
                Env,
            >::may_return(&func, given, args, r)
                <==> exists|out: RetsAsResult|
                    call_ensures(
                        func,
                        (
                            given, args.0, args.1, args.2, args.3, args.4, args.5, args.6, args.7,
                            args.8, args.9, args.10, args.11, args.12, args.13, args.14,
                        ),
                        out,
                    ) && r == out.into_result_spec(),
{
}

/// A closure of sixteen parameters is a host function without an environment.
impl<
    A1, A2, A3, A4, A5, A6, A7, A8, A9, A10, A11, A12, A13, A14, A15, A16, Rets, RetsAsResult, Func,
> HostFunction<
    (A1, A2, A3, A4, A5, A6, A7, A8, A9, A10, A11, A12, A13, A14, A15, A16),
    Rets,
    WithoutEnv,
    (),
> for Func where
    A1: WasmExternType,
    A2: WasmExternType,
    A3: WasmExternType,
    A4: WasmExternType,
    A5: WasmExternType,
    A6: WasmExternType,
    A7: WasmExternType,
    A8: WasmExternType,
    A9: WasmExternType,
    A10: WasmExternType,
    A11: WasmExternType,
    A12: WasmExternType,
    A13: WasmExternType,
    A14: WasmExternType,
    A15: WasmExternType,
    A16: WasmExternType,
    Rets: WasmTypeList,
    RetsAsResult: IntoResult<Rets>,
    Func: Fn(
        A1, A2, A3, A4, A5, A6, A7, A8, A9, A10, A11, A12, A13, A14, A15, A16,
    ) -> RetsAsResult + 'static + Send,
{
    type Error = RetsAsResult::Error;

    open spec fn accepts(
        &self,
        env: (),
        args: (A1, A2, A3, A4, A5, A6, A7, A8, A9, A10, A11, A12, A13, A14, A15, A16),
    ) -> bool {
        call_requires(
            *self,
            (
                args.0, args.1, args.2, args.3, args.4, args.5, args.6, args.7, args.8, args.9,
                args.10, args.11, args.12, args.13, args.14, args.15,
            ),
        )
    }

    open spec fn may_return(
        &self,
        env: &mut (),
        args: (A1, A2, A3, A4, A5, A6, A7, A8, A9, A10, A11, A12, A13, A14, A15, A16),
        r: Result<Rets, RetsAsResult::Error>,
    ) -> bool {
        exists|out: RetsAsResult|
            call_ensures(
                *self,
                (
                    args.0, args.1, args.2, args.3, args.4, args.5, args.6, args.7, args.8, args.9,
                    args.10, args.11, args.12, args.13, args.14, args.15,
                ),
                out,
            ) && r == out.into_result_spec()
    }

    fn call(
        &self,
        env: &mut (),
        args: (A1, A2, A3, A4, A5, A6, A7, A8, A9, A10, A11, A12, A13, A14, A15, A16),
    ) -> (r: Result<Rets, RetsAsResult::Error>) {
        let (a1, a2, a3, a4, a5, a6, a7, a8, a9, a10, a11, a12, a13, a14, a15, a16) = args;
        let r = self(
            a1, a2, a3, a4, a5, a6, a7, a8, a9, a10, a11, a12, a13, a14, a15, a16,
        ).into_result();
        proof {
            assert(self.may_return(old(env), args, r));
        }
        r
    }
}

/// What calling a closure of sixteen parameters as a host function asks and promises,
/// said of the closure itself.
pub proof fn lemma_host_function_16<
    A1, A2, A3, A4, A5, A6, A7, A8, A9, A10, A11, A12, A13, A14, A15, A16, Rets, RetsAsResult, Func,
>(
    func: Func,
    env: (),
    args: (A1, A2, A3, A4, A5, A6, A7, A8, A9, A10, A11, A12, A13, A14, A15, A16),
    r: Result<Rets, RetsAsResult::Error>,
) where
    A1: WasmExternType,
    A2: WasmExternType,
    A3: WasmExternType,
    A4: WasmExternType,
    A5: WasmExternType,
    A6: WasmExternType,
    A7: WasmExternType,
    A8: WasmExternType,
    A9: WasmExternType,
    A10: WasmExternType,
    A11: WasmExternType,
    A12: WasmExternType,
    A13: WasmExternType,
    A14: WasmExternType,
    A15: WasmExternType,
    A16: WasmExternType,
    Rets: WasmTypeList,
    RetsAsResult: IntoResult<Rets>,
    Func: Fn(
        A1, A2, A3, A4, A5, A6, A7, A8, A9, A10, A11, A12, A13, A14, A15, A16,
    ) -> RetsAsResult + 'static + Send,

    ensures
        HostFunction::<
            (A1, A2, A3, A4, A5, A6, A7, A8, A9, A10, A11, A12, A13, A14, A15, A16),
            Rets,
            WithoutEnv,
            (),
        >::accepts(&func, env, args)
            <==> call_requires(
                func,
                (
                    args.0, args.1, args.2, args.3, args.4, args.5, args.6, args.7, args.8, args.9,
                    args.10, args.11, args.12, args.13, args.14, args.15,
                ),
            ),
        forall|given: &mut ()|
            #[trigger] HostFunction::<
                (A1, A2, A3, A4, A5, A6, A7, A8, A9, A10, A11, A12, A13, A14, A15, A16),
                Rets,
                WithoutEnv,
                (),
            >::may_return(&func, given, args, r)
                <==> exists|out: RetsAsResult|
                    call_ensures(
                        func,
                        (
                            args.0, args.1, args.2, args.3, args.4, args.5, args.6, args.7, args.8,
                            args.9, args.10, args.11, args.12, args.13, args.14, args.15,
                        ),
                        out,
                    ) && r == out.into_result_spec(),
{
}

/// A closure of an environment and sixteen parameters is a host function with an
/// environment.
impl<
    A1, A2, A3, A4, A5, A6, A7, A8, A9, A10, A11, A12, A13, A14, A15, A16, Rets, RetsAsResult, Env,
    Func,
> HostFunction<
    (A1, A2, A3, A4, A5, A6, A7, A8, A9, A10, A11, A12, A13, A14, A15, A16),
    Rets,
    WithEnv,
    Env,
> for Func where
    A1: WasmExternType,
    A2: WasmExternType,
    A3: WasmExternType,
    A4: WasmExternType,
    A5: WasmExternType,
    A6: WasmExternType,
    A7: WasmExternType,
    A8: WasmExternType,
    A9: WasmExternType,
    A10: WasmExternType,
    A11: WasmExternType,
    A12: WasmExternType,
    A13: WasmExternType,
    A14: WasmExternType,
    A15: WasmExternType,
    A16: WasmExternType,
    Rets: WasmTypeList,
    RetsAsResult: IntoResult<Rets>,
    Env: Sized,
    Func: Fn(
        &mut Env, A1, A2, A3, A4, A5, A6, A7, A8, A9, A10, A11, A12, A13, A14, A15, A16,
    ) -> RetsAsResult + Send + 'static,
{
    type Error = RetsAsResult::Error;

    open spec fn accepts(
        &self,
        env: Env,
        args: (A1, A2, A3, A4, A5, A6, A7, A8, A9, A10, A11, A12, A13, A14, A15, A16),
    ) -> bool {
        forall|given: &mut Env|
            *given == env ==> call_requires(
                *self,
                (
                    given, args.0, args.1, args.2, args.3, args.4, args.5, args.6, args.7, args.8,
                    args.9, args.10, args.11, args.12, args.13, args.14, args.15,
                ),
            )
    }

    open spec fn may_return(
        &self,
        env: &mut Env,
        args: (A1, A2, A3, A4, A5, A6, A7, A8, A9, A10, A11, A12, A13, A14, A15, A16),
        r: Result<Rets, RetsAsResult::Error>,
    ) -> bool {
        exists|out: RetsAsResult|
            call_ensures(
                *self,
                (
                    env, args.0, args.1, args.2, args.3, args.4, args.5, args.6, args.7, args.8,
                    args.9, args.10, args.11, args.12, args.13, args.14, args.15,
                ),
                out,
            ) && r == out.into_result_spec()
    }

    fn call(
        &self,
        env: &mut Env,
        args: (A1, A2, A3, A4, A5, A6, A7, A8, A9, A10, A11, A12, A13, A14, A15, A16),
    ) -> (r: Result<Rets, RetsAsResult::Error>) {
        let (a1, a2, a3, a4, a5, a6, a7, a8, a9, a10, a11, a12, a13, a14, a15, a16) = args;
        let ghost before = *env;
        let out = self(env, a1, a2, a3, a4, a5, a6, a7, a8, a9, a10, a11, a12, a13, a14, a15, a16);
        let r = out.into_result();
        proof {
            let given = choose|given: &mut Env|
                {
                    &&& *given == before
                    &&& *final(given) == *env
                    &&& call_ensures(
                        *self,
                        (
                            given, a1, a2, a3, a4, a5, a6, a7, a8, a9, a10, a11, a12, a13, a14, a15,
                            a16,
                        ),
                        out,
                    )
                };
            assert(self.may_return(given, args, r));
        }
        r
    }
}

/// What calling a closure of an environment and sixteen parameters as a host function
/// asks and promises, said of the closure itself.
pub proof fn lemma_host_function_env_16<
    A1, A2, A3, A4, A5, A6, A7, A8, A9, A10, A11, A12, A13, A14, A15, A16, Rets, RetsAsResult, Env,
    Func,
>(
    func: Func,
    env: Env,
    args: (A1, A2, A3, A4, A5, A6, A7, A8, A9, A10, A11, A12, A13, A14, A15, A16),
    r: Result<Rets, RetsAsResult::Error>,
) where
    A1: WasmExternType,
    A2: WasmExternType,
    A3: WasmExternType,
    A4: WasmExternType,
    A5: WasmExternType,
    A6: WasmExternType,
    A7: WasmExternType,
    A8: WasmExternType,
    A9: WasmExternType,
    A10: WasmExternType,
    A11: WasmExternType,
    A12: WasmExternType,
    A13: WasmExternType,
    A14: WasmExternType,
    A15: WasmExternType,
    A16: WasmExternType,
    Rets: WasmTypeList,
    RetsAsResult: IntoResult<Rets>,
    Env: Sized,
    Func: Fn(
        &mut Env, A1, A2, A3, A4, A5, A6, A7, A8, A9, A10, A11, A12, A13, A14, A15, A16,
    ) -> RetsAsResult + Send + 'static,

    ensures
        HostFunction::<
            (A1, A2, A3, A4, A5, A6, A7, A8, A9, A10, A11, A12, A13, A14, A15, A16),
            Rets,
            WithEnv,
            Env,
        >::accepts(&func, env, args)
            <==> forall|given: &mut Env|
                *given == env ==> call_requires(
                    func,
                    (
                        given, args.0, args.1, args.2, args.3, args.4, args.5, args.6, args.7,
                        args.8, args.9, args.10, args.11, args.12, args.13, args.14, args.15,
                    ),
                ),
        forall|given: &mut Env|
            #[trigger] HostFunction::<
                (A1, A2, A3, A4, A5, A6, A7, A8, A9, A10, A11, A12, A13, A14, A15, A16),
                Rets,
                WithEnv,
                Env,
            >::may_return(&func, given, args, r)
                <==> exists|out: RetsAsResult|
                    call_ensures(
                        func,
                        (
                            given, args.0, args.1, args.2, args.3, args.4, args.5, args.6, args.7,
                            args.8, args.9, args.10, args.11, args.12, args.13, args.14, args.15,
                        ),
                        out,
                    ) && r == out.into_result_spec(),
{
}

/// A closure of seventeen parameters is a host function without an environment.
impl<
    A1, A2, A3, A4, A5, A6, A7, A8, A9, A10, A11, A12, A13, A14, A15, A16, A17, Rets, RetsAsResult,
    Func,
> HostFunction<
    (A1, A2, A3, A4, A5, A6, A7, A8, A9, A10, A11, A12, A13, A14, A15, A16, A17),
    Rets,
    WithoutEnv,
    (),
> for Func where
    A1: WasmExternType,
    A2: WasmExternType,
    A3: WasmExternType,
    A4: WasmExternType,
    A5: WasmExternType,
    A6: WasmExternType,
    A7: WasmExternType,
    A8: WasmExternType,
    A9: WasmExternType,
    A10: WasmExternType,
    A11: WasmExternType,
    A12: WasmExternType,
    A13: WasmExternType,
    A14: WasmExternType,
    A15: WasmExternType,
    A16: WasmExternType,
    A17: WasmExternType,
    Rets: WasmTypeList,
    RetsAsResult: IntoResult<Rets>,
    Func: Fn(
        A1, A2, A3, A4, A5, A6, A7, A8, A9, A10, A11, A12, A13, A14, A15, A16, A17,
    ) -> RetsAsResult + 'static + Send,
{
    type Error = RetsAsResult::Error;

    open spec fn accepts(
        &self,
        env: (),
        args: (A1, A2, A3, A4, A5, A6, A7, A8, A9, A10, A11, A12, A13, A14, A15, A16, A17),
    ) -> bool {
        call_requires(
            *self,
            (
                args.0, args.1, args.2, args.3, args.4, args.5, args.6, args.7, args.8, args.9,
                args.10, args.11, args.12, args.13, args.14, args.15, args.16,
            ),
        )
    }

    open spec fn may_return(
        &self,
        env: &mut (),
        args: (A1, A2, A3, A4, A5, A6, A7, A8, A9, A10, A11, A12, A13, A14, A15, A16, A17),
        r: Result<Rets, RetsAsResult::Error>,
    ) -> bool {
        exists|out: RetsAsResult|
            call_ensures(
                *self,
                (
                    args.0, args.1, args.2, args.3, args.4, args.5, args.6, args.7, args.8, args.9,
                    args.10, args.11, args.12, args.13, args.14, args.15, args.16,
                ),
                out,
            ) && r == out.into_result_spec()
    }

    fn call(
        &self,
        env: &mut (),
        args: (A1, A2, A3, A4, A5, A6, A7, A8, A9, A10, A11, A12, A13, A14, A15, A16, A17),
    ) -> (r: Result<Rets, RetsAsResult::Error>) {
        let (a1, a2, a3, a4, a5, a6, a7, a8, a9, a10, a11, a12, a13, a14, a15, a16, a17) = args;
        let r = self(
            a1, a2, a3, a4, a5, a6, a7, a8, a9, a10, a11, a12, a13, a14, a15, a16, a17,
        ).into_result();
        proof {
            assert(self.may_return(old(env), args, r));
        }
        r
    }
}

/// What calling a closure of seventeen parameters as a host function asks and promises,
/// said of the closure itself.
pub proof fn lemma_host_function_17<
    A1, A2, A3, A4, A5, A6, A7, A8, A9, A10, A11, A12, A13, A14, A15, A16, A17, Rets, RetsAsResult,
    Func,
>(
    func: Func,
    env: (),
    args: (A1, A2, A3, A4, A5, A6, A7, A8, A9, A10, A11, A12, A13, A14, A15, A16, A17),
    r: Result<Rets, RetsAsResult::Error>,
) where
    A1: WasmExternType,
    A2: WasmExternType,
    A3: WasmExternType,
    A4: WasmExternType,
    A5: WasmExternType,
    A6: WasmExternType,
    A7: WasmExternType,
    A8: WasmExternType,
    A9: WasmExternType,
    A10: WasmExternType,
    A11: WasmExternType,
    A12: WasmExternType,
    A13: WasmExternType,
    A14: WasmExternType,
    A15: WasmExternType,
    A16: WasmExternType,
    A17: WasmExternType,
    Rets: WasmTypeList,
    RetsAsResult: IntoResult<Rets>,
    Func: Fn(
        A1, A2, A3, A4, A5, A6, A7, A8, A9, A10, A11, A12, A13, A14, A15, A16, A17,
    ) -> RetsAsResult + 'static + Send,

    ensures
        HostFunction::<
            (A1, A2, A3, A4, A5, A6, A7, A8, A9, A10, A11, A12, A13, A14, A15, A16, A17),
            Rets,
            WithoutEnv,
            (),
        >::accepts(&func, env, args)
            <==> call_requires(
                func,
                (
                    args.0, args.1, args.2, args.3, args.4, args.5, args.6, args.7, args.8, args.9,
                    args.10, args.11, args.12, args.13, args.14, args.15, args.16,
                ),
            ),
        forall|given: &mut ()|
            #[trigger] HostFunction::<
                (A1, A2, A3, A4, A5, A6, A7, A8, A9, A10, A11, A12, A13, A14, A15, A16, A17),
                Rets,
                WithoutEnv,
                (),
            >::may_return(&func, given, args, r)
                <==> exists|out: RetsAsResult|
                    call_ensures(
                        func,
                        (
                            args.0, args.1, args.2, args.3, args.4, args.5, args.6, args.7, args.8,
                            args.9, args.10, args.11, args.12, args.13, args.14, args.15, args.16,
                        ),
                        out,
                    ) && r == out.into_result_spec(),
{
}

/// A closure of an environment and seventeen parameters is a host function with an
/// environment.
impl<
    A1, A2, A3, A4, A5, A6, A7, A8, A9, A10, A11, A12, A13, A14, A15, A16, A17, Rets, RetsAsResult,
    Env, Func,
> HostFunction<
    (A1, A2, A3, A4, A5, A6, A7, A8, A9, A10, A11, A12, A13, A14, A15, A16, A17),
    Rets,
    WithEnv,
    Env,
> for Func where
    A1: WasmExternType,
    A2: WasmExternType,
    A3: WasmExternType,
    A4: WasmExternType,
    A5: WasmExternType,
    A6: WasmExternType,
    A7: WasmExternType,
    A8: WasmExternType,
    A9: WasmExternType,
    A10: WasmExternType,
    A11: WasmExternType,
    A12: WasmExternType,
    A13: WasmExternType,
    A14: WasmExternType,
    A15: WasmExternType,
    A16: WasmExternType,
    A17: WasmExternType,
    Rets: WasmTypeList,
    RetsAsResult: IntoResult<Rets>,
    Env: Sized,
    Func: Fn(
        &mut Env, A1, A2, A3, A4, A5, A6, A7, A8, A9, A10, A11, A12, A13, A14, A15, A16, A17,
    ) -> RetsAsResult + Send + 'static,
{
    type Error = RetsAsResult::Error;

    open spec fn accepts(
        &self,
        env: Env,
        args: (A1, A2, A3, A4, A5, A6, A7, A8, A9, A10, A11, A12, A13, A14, A15, A16, A17),
    ) -> bool {
        forall|given: &mut Env|
            *given == env ==> call_requires(
                *self,
                (
                    given, args.0, args.1, args.2, args.3, args.4, args.5, args.6, args.7, args.8,
                    args.9, args.10, args.11, args.12, args.13, args.14, args.15, args.16,
                ),
            )
    }

    open spec fn may_return(
        &self,
        env: &mut Env,
        args: (A1, A2, A3, A4, A5, A6, A7, A8, A9, A10, A11, A12, A13, A14, A15, A16, A17),
        r: Result<Rets, RetsAsResult::Error>,
    ) -> bool {
        exists|out: RetsAsResult|
            call_ensures(
                *self,
                (
                    env, args.0, args.1, args.2, args.3, args.4, args.5, args.6, args.7, args.8,
                    args.9, args.10, args.11, args.12, args.13, args.14, args.15, args.16,
                ),
                out,
            ) && r == out.into_result_spec()
    }

    fn call(
        &self,
        env: &mut Env,
        args: (A1, A2, A3, A4, A5, A6, A7, A8, A9, A10, A11, A12, A13, A14, A15, A16, A17),
    ) -> (r: Result<Rets, RetsAsResult::Error>) {
        let (a1, a2, a3, a4, a5, a6, a7, a8, a9, a10, a11, a12, a13, a14, a15, a16, a17) = args;
        let ghost before = *env;
        let out = self(
            env, a1, a2, a3, a4, a5, a6, a7, a8, a9, a10, a11, a12, a13, a14, a15, a16, a17,
        );
        let r = out.into_result();
        proof {
            let given = choose|given: &mut Env|
                {
                    &&& *given == before
                    &&& *final(given) == *env
                    &&& call_ensures(
                        *self,
                        (
                            given, a1, a2, a3, a4, a5, a6, a7, a8, a9, a10, a11, a12, a13, a14, a15,
                            a16, a17,
                        ),
                        out,
                    )
                };
            assert(self.may_return(given, args, r));
        }
        r
    }
}

/// What calling a closure of an environment and seventeen parameters as a host function
/// asks and promises, said of the closure itself.
pub proof fn lemma_host_function_env_17<
    A1, A2, A3, A4, A5, A6, A7, A8, A9, A10, A11, A12, A13, A14, A15, A16, A17, Rets, RetsAsResult,
    Env, Func,
>(
    func: Func,
    env: Env,
    args: (A1, A2, A3, A4, A5, A6, A7, A8, A9, A10, A11, A12, A13, A14, A15, A16, A17),
    r: Result<Rets, RetsAsResult::Error>,
) where
    A1: WasmExternType,
    A2: WasmExternType,
    A3: WasmExternType,
    A4: WasmExternType,
    A5: WasmExternType,
    A6: WasmExternType,
    A7: WasmExternType,
    A8: WasmExternType,
    A9: WasmExternType,
    A10: WasmExternType,
    A11: WasmExternType,
    A12: WasmExternType,
    A13: WasmExternType,
    A14: WasmExternType,
    A15: WasmExternType,
    A16: WasmExternType,
    A17: WasmExternType,
    Rets: WasmTypeList,
    RetsAsResult: IntoResult<Rets>,
    Env: Sized,
    Func: Fn(
        &mut Env, A1, A2, A3, A4, A5, A6, A7, A8, A9, A10, A11, A12, A13, A14, A15, A16, A17,
    ) -> RetsAsResult + Send + 'static,

    ensures
        HostFunction::<
            (A1, A2, A3, A4, A5, A6, A7, A8, A9, A10, A11, A12, A13, A14, A15, A16, A17),
            Rets,
            WithEnv,
            Env,
        >::accepts(&func, env, args)
            <==> forall|given: &mut Env|
                *given == env ==> call_requires(
                    func,
                    (
                        given, args.0, args.1, args.2, args.3, args.4, args.5, args.6, args.7,
                        args.8, args.9, args.10, args.11, args.12, args.13, args.14, args.15,
                        args.16,
                    ),
                ),
        forall|given: &mut Env|
            #[trigger] HostFunction::<
                (A1, A2, A3, A4, A5, A6, A7, A8, A9, A10, A11, A12, A13, A14, A15, A16, A17),
                Rets,
                WithEnv,
                Env,
            >::may_return(&func, given, args, r)
                <==> exists|out: RetsAsResult|
                    call_ensures(
                        func,
                        (
                            given, args.0, args.1, args.2, args.3, args.4, args.5, args.6, args.7,
                            args.8, args.9, args.10, args.11, args.12, args.13, args.14, args.15,
                            args.16,
                        ),
                        out,
                    ) && r == out.into_result_spec(),
{
}

/// A closure of eighteen parameters is a host function without an environment.
impl<
    A1, A2, A3, A4, A5, A6, A7, A8, A9, A10, A11, A12, A13, A14, A15, A16, A17, A18, Rets,
    RetsAsResult, Func,
> HostFunction<
    (A1, A2, A3, A4, A5, A6, A7, A8, A9, A10, A11, A12, A13, A14, A15, A16, A17, A18),
    Rets,
    WithoutEnv,
    (),
> for Func where
    A1: WasmExternType,
    A2: WasmExternType,
    A3: WasmExternType,
    A4: WasmExternType,
    A5: WasmExternType,
    A6: WasmExternType,
    A7: WasmExternType,
    A8: WasmExternType,
    A9: WasmExternType,
    A10: WasmExternType,
    A11: WasmExternType,
    A12: WasmExternType,
    A13: WasmExternType,
    A14: WasmExternType,
    A15: WasmExternType,
    A16: WasmExternType,
    A17: WasmExternType,
    A18: WasmExternType,
    Rets: WasmTypeList,
    RetsAsResult: IntoResult<Rets>,
    Func: Fn(
        A1, A2, A3, A4, A5, A6, A7, A8, A9, A10, A11, A12, A13, A14, A15, A16, A17, A18,
    ) -> RetsAsResult + 'static + Send,
{
    type Error = RetsAsResult::Error;

    open spec fn accepts(
        &self,
        env: (),
        args: (A1, A2, A3, A4, A5, A6, A7, A8, A9, A10, A11, A12, A13, A14, A15, A16, A17, A18),
    ) -> bool {
        call_requires(
            *self,
            (
                args.0, args.1, args.2, args.3, args.4, args.5, args.6, args.7, args.8, args.9,
                args.10, args.11, args.12, args.13, args.14, args.15, args.16, args.17,
            ),
        )
    }

    open spec fn may_return(
        &self,
        env: &mut (),
        args: (A1, A2, A3, A4, A5, A6, A7, A8, A9, A10, A11, A12, A13, A14, A15, A16, A17, A18),
        r: Result<Rets, RetsAsResult::Error>,
    ) -> bool {
        exists|out: RetsAsResult|
            call_ensures(
                *self,
                (
                    args.0, args.1, args.2, args.3, args.4, args.5, args.6, args.7, args.8, args.9,
                    args.10, args.11, args.12, args.13, args.14, args.15, args.16, args.17,
                ),
                out,
            ) && r == out.into_result_spec()
    }

    fn call(
        &self,
        env: &mut (),
        args: (A1, A2, A3, A4, A5, A6, A7, A8, A9, A10, A11, A12, A13, A14, A15, A16, A17, A18),
    ) -> (r: Result<Rets, RetsAsResult::Error>) {
        let (
            a1, a2, a3, a4, a5, a6, a7, a8, a9, a10, a11, a12, a13, a14, a15, a16, a17, a18,
        ) = args;
        let r = self(
            a1, a2, a3, a4, a5, a6, a7, a8, a9, a10, a11, a12, a13, a14, a15, a16, a17, a18,
        ).into_result();
        proof {
            assert(self.may_return(old(env), args, r));
        }
        r
    }
}

/// What calling a closure of eighteen parameters as a host function asks and promises,
/// said of the closure itself.
pub proof fn lemma_host_function_18<
    A1, A2, A3, A4, A5, A6, A7, A8, A9, A10, A11, A12, A13, A14, A15, A16, A17, A18, Rets,
    RetsAsResult, Func,
>(
    func: Func,
    env: (),
    args: (A1, A2, A3, A4, A5, A6, A7, A8, A9, A10, A11, A12, A13, A14, A15, A16, A17, A18),
    r: Result<Rets, RetsAsResult::Error>,
) where
    A1: WasmExternType,
    A2: WasmExternType,
    A3: WasmExternType,
    A4: WasmExternType,
    A5: WasmExternType,
    A6: WasmExternType,
    A7: WasmExternType,
    A8: WasmExternType,
    A9: WasmExternType,
    A10: WasmExternType,
    A11: WasmExternType,
    A12: WasmExternType,
    A13: WasmExternType,
    A14: WasmExternType,
    A15: WasmExternType,
    A16: WasmExternType,
    A17: WasmExternType,
    A18: WasmExternType,
    Rets: WasmTypeList,
    RetsAsResult: IntoResult<Rets>,
    Func: Fn(
        A1, A2, A3, A4, A5, A6, A7, A8, A9, A10, A11, A12, A13, A14, A15, A16, A17, A18,
    ) -> RetsAsResult + 'static + Send,

    ensures
        HostFunction::<
            (A1, A2, A3, A4, A5, A6, A7, A8, A9, A10, A11, A12, A13, A14, A15, A16, A17, A18),
            Rets,
            WithoutEnv,
            (),
        >::accepts(&func, env, args)
            <==> call_requires(
                func,
                (
                    args.0, args.1, args.2, args.3, args.4, args.5, args.6, args.7, args.8, args.9,
                    args.10, args.11, args.12, args.13, args.14, args.15, args.16, args.17,
                ),
            ),
        forall|given: &mut ()|
            #[trigger] HostFunction::<
                (A1, A2, A3, A4, A5, A6, A7, A8, A9, A10, A11, A12, A13, A14, A15, A16, A17, A18),
                Rets,
                WithoutEnv,
                (),
            >::may_return(&func, given, args, r)
                <==> exists|out: RetsAsResult|
                    call_ensures(
                        func,
                        (
                            args.0, args.1, args.2, args.3, args.4, args.5, args.6, args.7, args.8,
                            args.9, args.10, args.11, args.12, args.13, args.14, args.15, args.16,
                            args.17,
                        ),
                        out,
                    ) && r == out.into_result_spec(),
{
}

/// A closure of an environment and eighteen parameters is a host function with an
/// environment.
impl<
    A1, A2, A3, A4, A5, A6, A7, A8, A9, A10, A11, A12, A13, A14, A15, A16, A17, A18, Rets,
    RetsAsResult, Env, Func,
> HostFunction<
    (A1, A2, A3, A4, A5, A6, A7, A8, A9, A10, A11, A12, A13, A14, A15, A16, A17, A18),
    Rets,
    WithEnv,
    Env,
> for Func where
    A1: WasmExternType,
    A2: WasmExternType,
    A3: WasmExternType,
    A4: WasmExternType,
    A5: WasmExternType,
    A6: WasmExternType,
    A7: WasmExternType,
    A8: WasmExternType,
    A9: WasmExternType,
    A10: WasmExternType,
    A11: WasmExternType,
    A12: WasmExternType,
    A13: WasmExternType,
    A14: WasmExternType,
    A15: WasmExternType,
    A16: WasmExternType,
    A17: WasmExternType,
    A18: WasmExternType,
    Rets: WasmTypeList,
    RetsAsResult: IntoResult<Rets>,
    Env: Sized,
    Func: Fn(
        &mut Env, A1, A2, A3, A4, A5, A6, A7, A8, A9, A10, A11, A12, A13, A14, A15, A16, A17, A18,
    ) -> RetsAsResult + Send + 'static,
{
    type Error = RetsAsResult::Error;

    open spec fn accepts(
        &self,
        env: Env,
        args: (A1, A2, A3, A4, A5, A6, A7, A8, A9, A10, A11, A12, A13, A14, A15, A16, A17, A18),
    ) -> bool {
        forall|given: &mut Env|
            *given == env ==> call_requires(
                *self,
                (
                    given, args.0, args.1, args.2, args.3, args.4, args.5, args.6, args.7, args.8,
                    args.9, args.10, args.11, args.12, args.13, args.14, args.15, args.16, args.17,
                ),
            )
    }

    open spec fn may_return(
        &self,
        env: &mut Env,
        args: (A1, A2, A3, A4, A5, A6, A7, A8, A9, A10, A11, A12, A13, A14, A15, A16, A17, A18),
        r: Result<Rets, RetsAsResult::Error>,
    ) -> bool {
        exists|out: RetsAsResult|
            call_ensures(
                *self,
                (
                    env, args.0, args.1, args.2, args.3, args.4, args.5, args.6, args.7, args.8,
                    args.9, args.10, args.11, args.12, args.13, args.14, args.15, args.16, args.17,
                ),
                out,
            ) && r == out.into_result_spec()
    }

    fn call(
        &self,
        env: &mut Env,
        args: (A1, A2, A3, A4, A5, A6, A7, A8, A9, A10, A11, A12, A13, A14, A15, A16, A17, A18),
    ) -> (r: Result<Rets, RetsAsResult::Error>) {
        let (
            a1, a2, a3, a4, a5, a6, a7, a8, a9, a10, a11, a12, a13, a14, a15, a16, a17, a18,
        ) = args;
        let ghost before = *env;
        let out = self(
            env, a1, a2, a3, a4, a5, a6, a7, a8, a9, a10, a11, a12, a13, a14, a15, a16, a17, a18,
        );
        let r = out.into_result();
        proof {
            let given = choose|given: &mut Env|
                {
                    &&& *given == before
                    &&& *final(given) == *env
                    &&& call_ensures(
                        *self,
                        (
                            given, a1, a2, a3, a4, a5, a6, a7, a8, a9, a10, a11, a12, a13, a14, a15,
                            a16, a17, a18,
                        ),
                        out,
                    )
                };
            assert(self.may_return(given, args, r));
        }
        r
    }
}

/// What calling a closure of an environment and eighteen parameters as a host function
/// asks and promises, said of the closure itself.
pub proof fn lemma_host_function_env_18<
    A1, A2, A3, A4, A5, A6, A7, A8, A9, A10, A11, A12, A13, A14, A15, A16, A17, A18, Rets,
    RetsAsResult, Env, Func,
>(
    func: Func,
    env: Env,
    args: (A1, A2, A3, A4, A5, A6, A7, A8, A9, A10, A11, A12, A13, A14, A15, A16, A17, A18),
    r: Result<Rets, RetsAsResult::Error>,
) where
    A1: WasmExternType,
    A2: WasmExternType,
    A3: WasmExternType,
    A4: WasmExternType,
    A5: WasmExternType,
    A6: WasmExternType,
    A7: WasmExternType,
    A8: WasmExternType,
    A9: WasmExternType,
    A10: WasmExternType,
    A11: WasmExternType,
    A12: WasmExternType,
    A13: WasmExternType,
    A14: WasmExternType,
    A15: WasmExternType,
    A16: WasmExternType,
    A17: WasmExternType,
    A18: WasmExternType,
    Rets: WasmTypeList,
    RetsAsResult: IntoResult<Rets>,
    Env: Sized,
    Func: Fn(
        &mut Env, A1, A2, A3, A4, A5, A6, A7, A8, A9, A10, A11, A12, A13, A14, A15, A16, A17, A18,
    ) -> RetsAsResult + Send + 'static,

    ensures
        HostFunction::<
            (A1, A2, A3, A4, A5, A6, A7, A8, A9, A10, A11, A12, A13, A14, A15, A16, A17, A18),
            Rets,
            WithEnv,
            Env,
        >::accepts(&func, env, args)
            <==> forall|given: &mut Env|
                *given == env ==> call_requires(
                    func,
                    (
                        given, args.0, args.1, args.2, args.3, args.4, args.5, args.6, args.7,
                        args.8, args.9, args.10, args.11, args.12, args.13, args.14, args.15,
                        args.16, args.17,
                    ),
                ),
        forall|given: &mut Env|
            #[trigger] HostFunction::<
                (A1, A2, A3, A4, A5, A6, A7, A8, A9, A10, A11, A12, A13, A14, A15, A16, A17, A18),
                Rets,
                WithEnv,
                Env,
            >::may_return(&func, given, args, r)
                <==> exists|out: RetsAsResult|
                    call_ensures(
                        func,
                        (
                            given, args.0, args.1, args.2, args.3, args.4, args.5, args.6, args.7,
                            args.8, args.9, args.10, args.11, args.12, args.13, args.14, args.15,
                            args.16, args.17,
                        ),
                        out,
                    ) && r == out.into_result_spec(),
{
}

/// A closure of nineteen parameters is a host function without an environment.
impl<
    A1, A2, A3, A4, A5, A6, A7, A8, A9, A10, A11, A12, A13, A14, A15, A16, A17, A18, A19, Rets,
    RetsAsResult, Func,
> HostFunction<
    (A1, A2, A3, A4, A5, A6, A7, A8, A9, A10, A11, A12, A13, A14, A15, A16, A17, A18, A19),
    Rets,
    WithoutEnv,
    (),
> for Func where
    A1: WasmExternType,
    A2: WasmExternType,
    A3: WasmExternType,
    A4: WasmExternType,
    A5: WasmExternType,
    A6: WasmExternType,
    A7: WasmExternType,
    A8: WasmExternType,
    A9: WasmExternType,
    A10: WasmExternType,
    A11: WasmExternType,
    A12: WasmExternType,
    A13: WasmExternType,
    A14: WasmExternType,
    A15: WasmExternType,
    A16: WasmExternType,
    A17: WasmExternType,
    A18: WasmExternType,
    A19: WasmExternType,
    Rets: WasmTypeList,
    RetsAsResult: IntoResult<Rets>,
    Func: Fn(
        A1, A2, A3, A4, A5, A6, A7, A8, A9, A10, A11, A12, A13, A14, A15, A16, A17, A18, A19,
    ) -> RetsAsResult + 'static + Send,
{
    type Error = RetsAsResult::Error;

    open spec fn accepts(
        &self,
        env: (),
        args: (
            A1, A2, A3, A4, A5, A6, A7, A8, A9, A10, A11, A12, A13, A14, A15, A16, A17, A18, A19,
        ),
    ) -> bool {
        call_requires(
            *self,
            (
                args.0, args.1, args.2, args.3, args.4, args.5, args.6, args.7, args.8, args.9,
                args.10, args.11, args.12, args.13, args.14, args.15, args.16, args.17, args.18,
            ),
        )
    }

    open spec fn may_return(
        &self,
        env: &mut (),
        args: (
            A1, A2, A3, A4, A5, A6, A7, A8, A9, A10, A11, A12, A13, A14, A15, A16, A17, A18, A19,
        ),
        r: Result<Rets, RetsAsResult::Error>,
    ) -> bool {
        exists|out: RetsAsResult|
            call_ensures(
                *self,
                (
                    args.0, args.1, args.2, args.3, args.4, args.5, args.6, args.7, args.8, args.9,
                    args.10, args.11, args.12, args.13, args.14, args.15, args.16, args.17, args.18,
                ),
                out,
            ) && r == out.into_result_spec()
    }

    fn call(
        &self,
        env: &mut (),
        args: (
            A1, A2, A3, A4, A5, A6, A7, A8, A9, A10, A11, A12, A13, A14, A15, A16, A17, A18, A19,
        ),
    ) -> (r: Result<Rets, RetsAsResult::Error>) {
        let (
            a1, a2, a3, a4, a5, a6, a7, a8, a9, a10, a11, a12, a13, a14, a15, a16, a17, a18, a19,
        ) = args;
        let r = self(
            a1, a2, a3, a4, a5, a6, a7, a8, a9, a10, a11, a12, a13, a14, a15, a16, a17, a18, a19,
        ).into_result();
        proof {
            assert(self.may_return(old(env), args, r));
        }
        r
    }
}

/// What calling a closure of nineteen parameters as a host function asks and promises,
/// said of the closure itself.
pub proof fn lemma_host_function_19<
    A1, A2, A3, A4, A5, A6, A7, A8, A9, A10, A11, A12, A13, A14, A15, A16, A17, A18, A19, Rets,
    RetsAsResult, Func,
>(
    func: Func,
    env: (),
    args: (A1, A2, A3, A4, A5, A6, A7, A8, A9, A10, A11, A12, A13, A14, A15, A16, A17, A18, A19),
    r: Result<Rets, RetsAsResult::Error>,
) where
    A1: WasmExternType,
    A2: WasmExternType,
    A3: WasmExternType,
    A4: WasmExternType,
    A5: WasmExternType,
    A6: WasmExternType,
    A7: WasmExternType,
    A8: WasmExternType,
    A9: WasmExternType,
    A10: WasmExternType,
    A11: WasmExternType,
    A12: WasmExternType,
    A13: WasmExternType,
    A14: WasmExternType,
    A15: WasmExternType,
    A16: WasmExternType,
    A17: WasmExternType,
    A18: WasmExternType,
    A19: WasmExternType,
    Rets: WasmTypeList,
    RetsAsResult: IntoResult<Rets>,
    Func: Fn(
        A1, A2, A3, A4, A5, A6, A7, A8, A9, A10, A11, A12, A13, A14, A15, A16, A17, A18, A19,
    ) -> RetsAsResult + 'static + Send,

    ensures
        HostFunction::<
            (A1, A2, A3, A4, A5, A6, A7, A8, A9, A10, A11, A12, A13, A14, A15, A16, A17, A18, A19),
            Rets,
            WithoutEnv,
            (),
        >::accepts(&func, env, args)
            <==> call_requires(
                func,
                (
                    args.0, args.1, args.2, args.3, args.4, args.5, args.6, args.7, args.8, args.9,
                    args.10, args.11, args.12, args.13, args.14, args.15, args.16, args.17, args.18,
                ),
            ),
        forall|given: &mut ()|
            #[trigger] HostFunction::<
                (
                    A1, A2, A3, A4, A5, A6, A7, A8, A9, A10, A11, A12, A13, A14, A15, A16, A17, A18,
                    A19,
                ),
                Rets,
                WithoutEnv,
                (),
            >::may_return(&func, given, args, r)
                <==> exists|out: RetsAsResult|
                    call_ensures(
                        func,
                        (
                            args.0, args.1, args.2, args.3, args.4, args.5, args.6, args.7, args.8,
                            args.9, args.10, args.11, args.12, args.13, args.14, args.15, args.16,
                            args.17, args.18,
                        ),
                        out,
                    ) && r == out.into_result_spec(),
{
}

/// A closure of an environment and nineteen parameters is a host function with an
/// environment.
impl<
    A1, A2, A3, A4, A5, A6, A7, A8, A9, A10, A11, A12, A13, A14, A15, A16, A17, A18, A19, Rets,
    RetsAsResult, Env, Func,
> HostFunction<
    (A1, A2, A3, A4, A5, A6, A7, A8, A9, A10, A11, A12, A13, A14, A15, A16, A17, A18, A19),
    Rets,
    WithEnv,
    Env,
> for Func where
    A1: WasmExternType,
    A2: WasmExternType,
    A3: WasmExternType,
    A4: WasmExternType,
    A5: WasmExternType,
    A6: WasmExternType,
    A7: WasmExternType,
    A8: WasmExternType,
    A9: WasmExternType,
    A10: WasmExternType,
    A11: WasmExternType,
    A12: WasmExternType,
    A13: WasmExternType,
    A14: WasmExternType,
    A15: WasmExternType,
    A16: WasmExternType,
    A17: WasmExternType,
    A18: WasmExternType,
    A19: WasmExternType,
    Rets: WasmTypeList,
    RetsAsResult: IntoResult<Rets>,
    Env: Sized,
    Func: Fn(
        &mut Env, A1, A2, A3, A4, A5, A6, A7, A8, A9, A10, A11, A12, A13, A14, A15, A16, A17, A18,
        A19,
    ) -> RetsAsResult + Send + 'static,
{
    type Error = RetsAsResult::Error;

    open spec fn accepts(
        &self,
        env: Env,
        args: (
            A1, A2, A3, A4, A5, A6, A7, A8, A9, A10, A11, A12, A13, A14, A15, A16, A17, A18, A19,
        ),
    ) -> bool {
        forall|given: &mut Env|
            *given == env ==> call_requires(
                *self,
                (
                    given, args.0, args.1, args.2, args.3, args.4, args.5, args.6, args.7, args.8,
                    args.9, args.10, args.11, args.12, args.13, args.14, args.15, args.16, args.17,
                    args.18,
                ),
            )
    }

    open spec fn may_return(
        &self,
        env: &mut Env,
        args: (
            A1, A2, A3, A4, A5, A6, A7, A8, A9, A10, A11, A12, A13, A14, A15, A16, A17, A18, A19,
        ),
        r: Result<Rets, RetsAsResult::Error>,
    ) -> bool {
        exists|out: RetsAsResult|
            call_ensures(
                *self,
                (
                    env, args.0, args.1, args.2, args.3, args.4, args.5, args.6, args.7, args.8,
                    args.9, args.10, args.11, args.12, args.13, args.14, args.15, args.16, args.17,
                    args.18,
                ),
                out,
            ) && r == out.into_result_spec()
    }

    fn call(
        &self,
        env: &mut Env,
        args: (
            A1, A2, A3, A4, A5, A6, A7, A8, A9, A10, A11, A12, A13, A14, A15, A16, A17, A18, A19,
        ),
    ) -> (r: Result<Rets, RetsAsResult::Error>) {
        let (
            a1, a2, a3, a4, a5, a6, a7, a8, a9, a10, a11, a12, a13, a14, a15, a16, a17, a18, a19,
        ) = args;
        let ghost before = *env;
        let out = self(
            env, a1, a2, a3, a4, a5, a6, a7, a8, a9, a10, a11, a12, a13, a14, a15, a16, a17, a18,
            a19,
        );
        let r = out.into_result();
        proof {
            let given = choose|given: &mut Env|
                {
                    &&& *given == before
                    &&& *final(given) == *env
                    &&& call_ensures(
                        *self,
                        (
                            given, a1, a2, a3, a4, a5, a6, a7, a8, a9, a10, a11, a12, a13, a14, a15,
                            a16, a17, a18, a19,
                        ),
                        out,
                    )
                };
            assert(self.may_return(given, args, r));
        }
        r
    }
}

/// What calling a closure of an environment and nineteen parameters as a host function
/// asks and promises, said of the closure itself.
pub proof fn lemma_host_function_env_19<
    A1, A2, A3, A4, A5, A6, A7, A8, A9, A10, A11, A12, A13, A14, A15, A16, A17, A18, A19, Rets,
    RetsAsResult, Env, Func,
>(
    func: Func,
    env: Env,
    args: (A1, A2, A3, A4, A5, A6, A7, A8, A9, A10, A11, A12, A13, A14, A15, A16, A17, A18, A19),
    r: Result<Rets, RetsAsResult::Error>,
) where
    A1: WasmExternType,
    A2: WasmExternType,
    A3: WasmExternType,
    A4: WasmExternType,
    A5: WasmExternType,
    A6: WasmExternType,
    A7: WasmExternType,
    A8: WasmExternType,
    A9: WasmExternType,
    A10: WasmExternType,
    A11: WasmExternType,
    A12: WasmExternType,
    A13: WasmExternType,
    A14: WasmExternType,
    A15: WasmExternType,
    A16: WasmExternType,
    A17: WasmExternType,
    A18: WasmExternType,
    A19: WasmExternType,
    Rets: WasmTypeList,
    RetsAsResult: IntoResult<Rets>,
    Env: Sized,
    Func: Fn(
        &mut Env, A1, A2, A3, A4, A5, A6, A7, A8, A9, A10, A11, A12, A13, A14, A15, A16, A17, A18,
        A19,
    ) -> RetsAsResult + Send + 'static,

    ensures
        HostFunction::<
            (A1, A2, A3, A4, A5, A6, A7, A8, A9, A10, A11, A12, A13, A14, A15, A16, A17, A18, A19),
            Rets,
            WithEnv,
            Env,
        >::accepts(&func, env, args)
            <==> forall|given: &mut Env|
                *given == env ==> call_requires(
                    func,
                    (
                        given, args.0, args.1, args.2, args.3, args.4, args.5, args.6, args.7,
                        args.8, args.9, args.10, args.11, args.12, args.13, args.14, args.15,
                        args.16, args.17, args.18,
                    ),
                ),
        forall|given: &mut Env|
            #[trigger] HostFunction::<
                (
                    A1, A2, A3, A4, A5, A6, A7, A8, A9, A10, A11, A12, A13, A14, A15, A16, A17, A18,
                    A19,
                ),
                Rets,
                WithEnv,
                Env,
            >::may_return(&func, given, args, r)
                <==> exists|out: RetsAsResult|
                    call_ensures(
                        func,
                        (
                            given, args.0, args.1, args.2, args.3, args.4, args.5, args.6, args.7,
                            args.8, args.9, args.10, args.11, args.12, args.13, args.14, args.15,
                            args.16, args.17, args.18,
                        ),
                        out,
                    ) && r == out.into_result_spec(),
{
}

/// A closure of twenty parameters is a host function without an environment.
impl<
    A1, A2, A3, A4, A5, A6, A7, A8, A9, A10, A11, A12, A13, A14, A15, A16, A17, A18, A19, A20, Rets,
    RetsAsResult, Func,
> HostFunction<
    (A1, A2, A3, A4, A5, A6, A7, A8, A9, A10, A11, A12, A13, A14, A15, A16, A17, A18, A19, A20),
    Rets,
    WithoutEnv,
    (),
> for Func where
    A1: WasmExternType,
    A2: WasmExternType,
    A3: WasmExternType,
    A4: WasmExternType,
    A5: WasmExternType,
    A6: WasmExternType,
    A7: WasmExternType,
    A8: WasmExternType,
    A9: WasmExternType,
    A10: WasmExternType,
    A11: WasmExternType,
    A12: WasmExternType,
    A13: WasmExternType,
    A14: WasmExternType,
    A15: WasmExternType,
    A16: WasmExternType,
    A17: WasmExternType,
    A18: WasmExternType,
    A19: WasmExternType,
    A20: WasmExternType,
    Rets: WasmTypeList,
    RetsAsResult: IntoResult<Rets>,
    Func: Fn(
        A1, A2, A3, A4, A5, A6, A7, A8, A9, A10, A11, A12, A13, A14, A15, A16, A17, A18, A19, A20,
    ) -> RetsAsResult + 'static + Send,
{
    type Error = RetsAsResult::Error;

    open spec fn accepts(
        &self,
        env: (),
        args: (
            A1, A2, A3, A4, A5, A6, A7, A8, A9, A10, A11, A12, A13, A14, A15, A16, A17, A18, A19,
            A20,
        ),
    ) -> bool {
        call_requires(
            *self,
            (
                args.0, args.1, args.2, args.3, args.4, args.5, args.6, args.7, args.8, args.9,
                args.10, args.11, args.12, args.13, args.14, args.15, args.16, args.17, args.18,
                args.19,
            ),
        )
    }

    open spec fn may_return(
        &self,
        env: &mut (),
        args: (
            A1, A2, A3, A4, A5, A6, A7, A8, A9, A10, A11, A12, A13, A14, A15, A16, A17, A18, A19,
            A20,
        ),
        r: Result<Rets, RetsAsResult::Error>,
    ) -> bool {
        exists|out: RetsAsResult|
            call_ensures(
                *self,
                (
                    args.0, args.1, args.2, args.3, args.4, args.5, args.6, args.7, args.8, args.9,
                    args.10, args.11, args.12, args.13, args.14, args.15, args.16, args.17, args.18,
                    args.19,
                ),
                out,
            ) && r == out.into_result_spec()
    }

    fn call(
        &self,
        env: &mut (),
        args: (
            A1, A2, A3, A4, A5, A6, A7, A8, A9, A10, A11, A12, A13, A14, A15, A16, A17, A18, A19,
            A20,
        ),
    ) -> (r: Result<Rets, RetsAsResult::Error>) {
        let (
            a1, a2, a3, a4, a5, a6, a7, a8, a9, a10, a11, a12, a13, a14, a15, a16, a17, a18, a19,
            a20,
        ) = args;
        let r = self(
            a1, a2, a3, a4, a5, a6, a7, a8, a9, a10, a11, a12, a13, a14, a15, a16, a17, a18, a19,
            a20,
        ).into_result();
        proof {
            assert(self.may_return(old(env), args, r));
        }
        r
    }
}

/// What calling a closure of twenty parameters as a host function asks and promises,
/// said of the closure itself.
pub proof fn lemma_host_function_20<
    A1, A2, A3, A4, A5, A6, A7, A8, A9, A10, A11, A12, A13, A14, A15, A16, A17, A18, A19, A20, Rets,
    RetsAsResult, Func,
>(
    func: Func,
    env: (),
    args: (
        A1, A2, A3, A4, A5, A6, A7, A8, A9, A10, A11, A12, A13, A14, A15, A16, A17, A18, A19, A20,
    ),
    r: Result<Rets, RetsAsResult::Error>,
) where
    A1: WasmExternType,
    A2: WasmExternType,
    A3: WasmExternType,
    A4: WasmExternType,
    A5: WasmExternType,
    A6: WasmExternType,
    A7: WasmExternType,
    A8: WasmExternType,
    A9: WasmExternType,
    A10: WasmExternType,
    A11: WasmExternType,
    A12: WasmExternType,
    A13: WasmExternType,
    A14: WasmExternType,
    A15: WasmExternType,
    A16: WasmExternType,
    A17: WasmExternType,
    A18: WasmExternType,
    A19: WasmExternType,
    A20: WasmExternType,
    Rets: WasmTypeList,
    RetsAsResult: IntoResult<Rets>,
    Func: Fn(
        A1, A2, A3, A4, A5, A6, A7, A8, A9, A10, A11, A12, A13, A14, A15, A16, A17, A18, A19, A20,
    ) -> RetsAsResult + 'static + Send,

    ensures
        HostFunction::<
            (
                A1, A2, A3, A4, A5, A6, A7, A8, A9, A10, A11, A12, A13, A14, A15, A16, A17, A18,
                A19, A20,
            ),
            Rets,
            WithoutEnv,
            (),
        >::accepts(&func, env, args)
            <==> call_requires(
                func,
                (
                    args.0, args.1, args.2, args.3, args.4, args.5, args.6, args.7, args.8, args.9,
                    args.10, args.11, args.12, args.13, args.14, args.15, args.16, args.17, args.18,
                    args.19,
                ),
            ),
        forall|given: &mut ()|
            #[trigger] HostFunction::<
                (
                    A1, A2, A3, A4, A5, A6, A7, A8, A9, A10, A11, A12, A13, A14, A15, A16, A17, A18,
                    A19, A20,
                ),
                Rets,
                WithoutEnv,
                (),
            >::may_return(&func, given, args, r)
                <==> exists|out: RetsAsResult|
                    call_ensures(
                        func,
                        (
                            args.0, args.1, args.2, args.3, args.4, args.5, args.6, args.7, args.8,
                            args.9, args.10, args.11, args.12, args.13, args.14, args.15, args.16,
                            args.17, args.18, args.19,
                        ),
                        out,
                    ) && r == out.into_result_spec(),
{
}

/// A closure of an environment and twenty parameters is a host function with an
/// environment.
impl<
    A1, A2, A3, A4, A5, A6, A7, A8, A9, A10, A11, A12, A13, A14, A15, A16, A17, A18, A19, A20, Rets,
    RetsAsResult, Env, Func,
> HostFunction<
    (A1, A2, A3, A4, A5, A6, A7, A8, A9, A10, A11, A12, A13, A14, A15, A16, A17, A18, A19, A20),
    Rets,
    WithEnv,
    Env,
> for Func where
    A1: WasmExternType,
    A2: WasmExternType,
    A3: WasmExternType,
    A4: WasmExternType,
    A5: WasmExternType,
    A6: WasmExternType,
    A7: WasmExternType,
    A8: WasmExternType,
    A9: WasmExternType,
    A10: WasmExternType,
    A11: WasmExternType,
    A12: WasmExternType,
    A13: WasmExternType,
    A14: WasmExternType,
    A15: WasmExternType,
    A16: WasmExternType,
    A17: WasmExternType,
    A18: WasmExternType,
    A19: WasmExternType,
    A20: WasmExternType,
    Rets: WasmTypeList,
    RetsAsResult: IntoResult<Rets>,
    Env: Sized,
    Func: Fn(
        &mut Env, A1, A2, A3, A4, A5, A6, A7, A8, A9, A10, A11, A12, A13, A14, A15, A16, A17, A18,
        A19, A20,
    ) -> RetsAsResult + Send + 'static,
{
    type Error = RetsAsResult::Error;

    open spec fn accepts(
        &self,
        env: Env,
        args: (
            A1, A2, A3, A4, A5, A6, A7, A8, A9, A10, A11, A12, A13, A14, A15, A16, A17, A18, A19,
            A20,
        ),
    ) -> bool {
        forall|given: &mut Env|
            *given == env ==> call_requires(
                *self,
                (
                    given, args.0, args.1, args.2, args.3, args.4, args.5, args.6, args.7, args.8,
                    args.9, args.10, args.11, args.12, args.13, args.14, args.15, args.16, args.17,
                    args.18, args.19,
                ),
            )
    }

    open spec fn may_return(
        &self,
        env: &mut Env,
        args: (
            A1, A2, A3, A4, A5, A6, A7, A8, A9, A10, A11, A12, A13, A14, A15, A16, A17, A18, A19,
            A20,
        ),
        r: Result<Rets, RetsAsResult::Error>,
    ) -> bool {
        exists|out: RetsAsResult|
            call_ensures(
                *self,
                (
                    env, args.0, args.1, args.2, args.3, args.4, args.5, args.6, args.7, args.8,
                    args.9, args.10, args.11, args.12, args.13, args.14, args.15, args.16, args.17,
                    args.18, args.19,
                ),
                out,
            ) && r == out.into_result_spec()
    }

    fn call(
        &self,
        env: &mut Env,
        args: (
            A1, A2, A3, A4, A5, A6, A7, A8, A9, A10, A11, A12, A13, A14, A15, A16, A17, A18, A19,
            A20,
        ),
    ) -> (r: Result<Rets, RetsAsResult::Error>) {
        let (
            a1, a2, a3, a4, a5, a6, a7, a8, a9, a10, a11, a12, a13, a14, a15, a16, a17, a18, a19,
            a20,
        ) = args;
        let ghost before = *env;
        let out = self(
            env, a1, a2, a3, a4, a5, a6, a7, a8, a9, a10, a11, a12, a13, a14, a15, a16, a17, a18,
            a19, a20,
        );
        let r = out.into_result();
        proof {
            let given = choose|given: &mut Env|
                {
                    &&& *given == before
                    &&& *final(given) == *env
                    &&& call_ensures(
                        *self,
                        (
                            given, a1, a2, a3, a4, a5, a6, a7, a8, a9, a10, a11, a12, a13, a14, a15,
                            a16, a17, a18, a19, a20,
                        ),
                        out,
                    )
                };
            assert(self.may_return(given, args, r));
        }
        r
    }
}

/// What calling a closure of an environment and twenty parameters as a host function
/// asks and promises, said of the closure itself.
pub proof fn lemma_host_function_env_20<
    A1, A2, A3, A4, A5, A6, A7, A8, A9, A10, A11, A12, A13, A14, A15, A16, A17, A18, A19, A20, Rets,
    RetsAsResult, Env, Func,
>(
    func: Func,
    env: Env,
    args: (
        A1, A2, A3, A4, A5, A6, A7, A8, A9, A10, A11, A12, A13, A14, A15, A16, A17, A18, A19, A20,
    ),
    r: Result<Rets, RetsAsResult::Error>,
) where
    A1: WasmExternType,
    A2: WasmExternType,
    A3: WasmExternType,
    A4: WasmExternType,
    A5: WasmExternType,
    A6: WasmExternType,
    A7: WasmExternType,
    A8: WasmExternType,
    A9: WasmExternType,
    A10: WasmExternType,
    A11: WasmExternType,
    A12: WasmExternType,
    A13: WasmExternType,
    A14: WasmExternType,
    A15: WasmExternType,
    A16: WasmExternType,
    A17: WasmExternType,
    A18: WasmExternType,
    A19: WasmExternType,
    A20: WasmExternType,
    Rets: WasmTypeList,
    RetsAsResult: IntoResult<Rets>,
    Env: Sized,
    Func: Fn(
        &mut Env, A1, A2, A3, A4, A5, A6, A7, A8, A9, A10, A11, A12, A13, A14, A15, A16, A17, A18,
        A19, A20,
    ) -> RetsAsResult + Send + 'static,

    ensures
        HostFunction::<
            (
                A1, A2, A3, A4, A5, A6, A7, A8, A9, A10, A11, A12, A13, A14, A15, A16, A17, A18,
                A19, A20,
            ),
            Rets,
            WithEnv,
            Env,
        >::accepts(&func, env, args)
            <==> forall|given: &mut Env|
                *given == env ==> call_requires(
                    func,
                    (
                        given, args.0, args.1, args.2, args.3, args.4, args.5, args.6, args.7,
                        args.8, args.9, args.10, args.11, args.12, args.13, args.14, args.15,
                        args.16, args.17, args.18, args.19,
                    ),
                ),
        forall|given: &mut Env|
            #[trigger] HostFunction::<
                (
                    A1, A2, A3, A4, A5, A6, A7, A8, A9, A10, A11, A12, A13, A14, A15, A16, A17, A18,
                    A19, A20,
                ),
                Rets,
                WithEnv,
                Env,
            >::may_return(&func, given, args, r)
                <==> exists|out: RetsAsResult|
                    call_ensures(
                        func,
                        (
                            given, args.0, args.1, args.2, args.3, args.4, args.5, args.6, args.7,
                            args.8, args.9, args.10, args.11, args.12, args.13, args.14, args.15,
                            args.16, args.17, args.18, args.19,
                        ),
                        out,
                    ) && r == out.into_result_spec(),
{
}

/// A closure of twenty-one parameters is a host function without an environment.
impl<
    A1, A2, A3, A4, A5, A6, A7, A8, A9, A10, A11, A12, A13, A14, A15, A16, A17, A18, A19, A20, A21,
    Rets, RetsAsResult, Func,
> HostFunction<
    (
        A1, A2, A3, A4, A5, A6, A7, A8, A9, A10, A11, A12, A13, A14, A15, A16, A17, A18, A19, A20,
        A21,
    ),
    Rets,
    WithoutEnv,
    (),
> for Func where
    A1: WasmExternType,
    A2: WasmExternType,
    A3: WasmExternType,
    A4: WasmExternType,
    A5: WasmExternType,
    A6: WasmExternType,
    A7: WasmExternType,
    A8: WasmExternType,
    A9: WasmExternType,
    A10: WasmExternType,
    A11: WasmExternType,
    A12: WasmExternType,
    A13: WasmExternType,
    A14: WasmExternType,
    A15: WasmExternType,
    A16: WasmExternType,
    A17: WasmExternType,
    A18: WasmExternType,
    A19: WasmExternType,
    A20: WasmExternType,
    A21: WasmExternType,
    Rets: WasmTypeList,
    RetsAsResult: IntoResult<Rets>,
    Func: Fn(
        A1, A2, A3, A4, A5, A6, A7, A8, A9, A10, A11, A12, A13, A14, A15, A16, A17, A18, A19, A20,
        A21,
    ) -> RetsAsResult + 'static + Send,
{
    type Error = RetsAsResult::Error;

    open spec fn accepts(
        &self,
        env: (),
        args: (
            A1, A2, A3, A4, A5, A6, A7, A8, A9, A10, A11, A12, A13, A14, A15, A16, A17, A18, A19,
            A20, A21,
        ),
    ) -> bool {
        call_requires(
            *self,
            (
                args.0, args.1, args.2, args.3, args.4, args.5, args.6, args.7, args.8, args.9,
                args.10, args.11, args.12, args.13, args.14, args.15, args.16, args.17, args.18,
                args.19, args.20,
            ),
        )
    }

    open spec fn may_return(
        &self,
        env: &mut (),
        args: (
            A1, A2, A3, A4, A5, A6, A7, A8, A9, A10, A11, A12, A13, A14, A15, A16, A17, A18, A19,
            A20, A21,
        ),
        r: Result<Rets, RetsAsResult::Error>,
    ) -> bool {
        exists|out: RetsAsResult|
            call_ensures(
                *self,
                (
                    args.0, args.1, args.2, args.3, args.4, args.5, args.6, args.7, args.8, args.9,
                    args.10, args.11, args.12, args.13, args.14, args.15, args.16, args.17, args.18,
                    args.19, args.20,
                ),
                out,
            ) && r == out.into_result_spec()
    }

    fn call(
        &self,
        env: &mut (),
        args: (
            A1, A2, A3, A4, A5, A6, A7, A8, A9, A10, A11, A12, A13, A14, A15, A16, A17, A18, A19,
            A20, A21,
        ),
    ) -> (r: Result<Rets, RetsAsResult::Error>) {
        let (
            a1, a2, a3, a4, a5, a6, a7, a8, a9, a10, a11, a12, a13, a14, a15, a16, a17, a18, a19,
            a20, a21,
        ) = args;
        let r = self(
            a1, a2, a3, a4, a5, a6, a7, a8, a9, a10, a11, a12, a13, a14, a15, a16, a17, a18, a19,
            a20, a21,
        ).into_result();
        proof {
            assert(self.may_return(old(env), args, r));
        }
        r
    }
}

/// What calling a closure of twenty-one parameters as a host function asks and promises,
/// said of the closure itself.
pub proof fn lemma_host_function_21<
    A1, A2, A3, A4, A5, A6, A7, A8, A9, A10, A11, A12, A13, A14, A15, A16, A17, A18, A19, A20, A21,
    Rets, RetsAsResult, Func,
>(
    func: Func,
    env: (),
    args: (
        A1, A2, A3, A4, A5, A6, A7, A8, A9, A10, A11, A12, A13, A14, A15, A16, A17, A18, A19, A20,
        A21,
    ),
    r: Result<Rets, RetsAsResult::Error>,
) where
    A1: WasmExternType,
    A2: WasmExternType,
    A3: WasmExternType,
    A4: WasmExternType,
    A5: WasmExternType,
    A6: WasmExternType,
    A7: WasmExternType,
    A8: WasmExternType,
    A9: WasmExternType,
    A10: WasmExternType,
    A11: WasmExternType,
    A12: WasmExternType,
    A13: WasmExternType,
    A14: WasmExternType,
    A15: WasmExternType,
    A16: WasmExternType,
    A17: WasmExternType,
    A18: WasmExternType,
    A19: WasmExternType,
    A20: WasmExternType,
    A21: WasmExternType,
    Rets: WasmTypeList,
    RetsAsResult: IntoResult<Rets>,
    Func: Fn(
        A1, A2, A3, A4, A5, A6, A7, A8, A9, A10, A11, A12, A13, A14, A15, A16, A17, A18, A19, A20,
        A21,
    ) -> RetsAsResult + 'static + Send,

    ensures
        HostFunction::<
            (
                A1, A2, A3, A4, A5, A6, A7, A8, A9, A10, A11, A12, A13, A14, A15, A16, A17, A18,
                A19, A20, A21,
            ),
            Rets,
            WithoutEnv,
            (),
        >::accepts(&func, env, args)
            <==> call_requires(
                func,
                (
                    args.0, args.1, args.2, args.3, args.4, args.5, args.6, args.7, args.8, args.9,
                    args.10, args.11, args.12, args.13, args.14, args.15, args.16, args.17, args.18,
                    args.19, args.20,
                ),
            ),
        forall|given: &mut ()|
            #[trigger] HostFunction::<
                (
                    A1, A2, A3, A4, A5, A6, A7, A8, A9, A10, A11, A12, A13, A14, A15, A16, A17, A18,
                    A19, A20, A21,
                ),
                Rets,
                WithoutEnv,
                (),
            >::may_return(&func, given, args, r)
                <==> exists|out: RetsAsResult|
                    call_ensures(
                        func,
                        (
                            args.0, args.1, args.2, args.3, args.4, args.5, args.6, args.7, args.8,
                            args.9, args.10, args.11, args.12, args.13, args.14, args.15, args.16,
                            args.17, args.18, args.19, args.20,
                        ),
                        out,
                    ) && r == out.into_result_spec(),
{
}

/// A closure of an environment and twenty-one parameters is a host function with an
/// environment.
impl<
    A1, A2, A3, A4, A5, A6, A7, A8, A9, A10, A11, A12, A13, A14, A15, A16, A17, A18, A19, A20, A21,
    Rets, RetsAsResult, Env, Func,
> HostFunction<
    (
        A1, A2, A3, A4, A5, A6, A7, A8, A9, A10, A11, A12, A13, A14, A15, A16, A17, A18, A19, A20,
        A21,
    ),
    Rets,
    WithEnv,
    Env,
> for Func where
    A1: WasmExternType,
    A2: WasmExternType,
    A3: WasmExternType,
    A4: WasmExternType,
    A5: WasmExternType,
    A6: WasmExternType,
    A7: WasmExternType,
    A8: WasmExternType,
    A9: WasmExternType,
    A10: WasmExternType,
    A11: WasmExternType,
    A12: WasmExternType,
    A13: WasmExternType,
    A14: WasmExternType,
    A15: WasmExternType,
    A16: WasmExternType,
    A17: WasmExternType,
    A18: WasmExternType,
    A19: WasmExternType,
    A20: WasmExternType,
    A21: WasmExternType,
    Rets: WasmTypeList,
    RetsAsResult: IntoResult<Rets>,
    Env: Sized,
    Func: Fn(
        &mut Env, A1, A2, A3, A4, A5, A6, A7, A8, A9, A10, A11, A12, A13, A14, A15, A16, A17, A18,
        A19, A20, A21,
    ) -> RetsAsResult + Send + 'static,
{
    type Error = RetsAsResult::Error;

    open spec fn accepts(
        &self,
        env: Env,
        args: (
            A1, A2, A3, A4, A5, A6, A7, A8, A9, A10, A11, A12, A13, A14, A15, A16, A17, A18, A19,
            A20, A21,
        ),
    ) -> bool {
        forall|given: &mut Env|
            *given == env ==> call_requires(
                *self,
                (
                    given, args.0, args.1, args.2, args.3, args.4, args.5, args.6, args.7, args.8,
                    args.9, args.10, args.11, args.12, args.13, args.14, args.15, args.16, args.17,
                    args.18, args.19, args.20,
                ),
            )
    }

    open spec fn may_return(
        &self,
        env: &mut Env,
        args: (
            A1, A2, A3, A4, A5, A6, A7, A8, A9, A10, A11, A12, A13, A14, A15, A16, A17, A18, A19,
            A20, A21,
        ),
        r: Result<Rets, RetsAsResult::Error>,
    ) -> bool {
        exists|out: RetsAsResult|
            call_ensures(
                *self,
                (
                    env, args.0, args.1, args.2, args.3, args.4, args.5, args.6, args.7, args.8,
                    args.9, args.10, args.11, args.12, args.13, args.14, args.15, args.16, args.17,
                    args.18, args.19, args.20,
                ),
                out,
            ) && r == out.into_result_spec()
    }

    fn call(
        &self,
        env: &mut Env,
        args: (
            A1, A2, A3, A4, A5, A6, A7, A8, A9, A10, A11, A12, A13, A14, A15, A16, A17, A18, A19,
            A20, A21,
        ),
    ) -> (r: Result<Rets, RetsAsResult::Error>) {
        let (
            a1, a2, a3, a4, a5, a6, a7, a8, a9, a10, a11, a12, a13, a14, a15, a16, a17, a18, a19,
            a20, a21,
        ) = args;
        let ghost before = *env;
        let out = self(
            env, a1, a2, a3, a4, a5, a6, a7, a8, a9, a10, a11, a12, a13, a14, a15, a16, a17, a18,
            a19, a20, a21,
        );
        let r = out.into_result();
        proof {
            let given = choose|given: &mut Env|
                {
                    &&& *given == before
                    &&& *final(given) == *env
                    &&& call_ensures(
                        *self,
                        (
                            given, a1, a2, a3, a4, a5, a6, a7, a8, a9, a10, a11, a12, a13, a14, a15,
                            a16, a17, a18, a19, a20, a21,
                        ),
                        out,
                    )
                };
            assert(self.may_return(given, args, r));
        }
        r
    }
}

/// What calling a closure of an environment and twenty-one parameters as a host function
/// asks and promises, said of the closure itself.
pub proof fn lemma_host_function_env_21<
    A1, A2, A3, A4, A5, A6, A7, A8, A9, A10, A11, A12, A13, A14, A15, A16, A17, A18, A19, A20, A21,
    Rets, RetsAsResult, Env, Func,
>(
    func: Func,
    env: Env,
    args: (
        A1, A2, A3, A4, A5, A6, A7, A8, A9, A10, A11, A12, A13, A14, A15, A16, A17, A18, A19, A20,
        A21,
    ),
    r: Result<Rets, RetsAsResult::Error>,
) where
    A1: WasmExternType,
    A2: WasmExternType,
    A3: WasmExternType,
    A4: WasmExternType,
    A5: WasmExternType,
    A6: WasmExternType,
    A7: WasmExternType,
    A8: WasmExternType,
    A9: WasmExternType,
    A10: WasmExternType,
    A11: WasmExternType,
    A12: WasmExternType,
    A13: WasmExternType,
    A14: WasmExternType,
    A15: WasmExternType,
    A16: WasmExternType,
    A17: WasmExternType,
    A18: WasmExternType,
    A19: WasmExternType,
    A20: WasmExternType,
    A21: WasmExternType,
    Rets: WasmTypeList,
    RetsAsResult: IntoResult<Rets>,
    Env: Sized,
    Func: Fn(
        &mut Env, A1, A2, A3, A4, A5, A6, A7, A8, A9, A10, A11, A12, A13, A14, A15, A16, A17, A18,
        A19, A20, A21,
    ) -> RetsAsResult + Send + 'static,

    ensures
        HostFunction::<
            (
                A1, A2, A3, A4, A5, A6, A7, A8, A9, A10, A11, A12, A13, A14, A15, A16, A17, A18,
                A19, A20, A21,
            ),
            Rets,
            WithEnv,
            Env,
        >::accepts(&func, env, args)
            <==> forall|given: &mut Env|
                *given == env ==> call_requires(
                    func,
                    (
                        given, args.0, args.1, args.2, args.3, args.4, args.5, args.6, args.7,
                        args.8, args.9, args.10, args.11, args.12, args.13, args.14, args.15,
                        args.16, args.17, args.18, args.19, args.20,
                    ),
                ),
        forall|given: &mut Env|
            #[trigger] HostFunction::<
                (
                    A1, A2, A3, A4, A5, A6, A7, A8, A9, A10, A11, A12, A13, A14, A15, A16, A17, A18,
                    A19, A20, A21,
                ),
                Rets,
                WithEnv,
                Env,
            >::may_return(&func, given, args, r)
                <==> exists|out: RetsAsResult|
                    call_ensures(
                        func,
                        (
                            given, args.0, args.1, args.2, args.3, args.4, args.5, args.6, args.7,
                            args.8, args.9, args.10, args.11, args.12, args.13, args.14, args.15,
                            args.16, args.17, args.18, args.19, args.20,
                        ),
                        out,
                    ) && r == out.into_result_spec(),
{
}

/// A closure of twenty-two parameters is a host function without an environment.
impl<
    A1, A2, A3, A4, A5, A6, A7, A8, A9, A10, A11, A12, A13, A14, A15, A16, A17, A18, A19, A20, A21,
    A22, Rets, RetsAsResult, Func,
> HostFunction<
    (
        A1, A2, A3, A4, A5, A6, A7, A8, A9, A10, A11, A12, A13, A14, A15, A16, A17, A18, A19, A20,
        A21, A22,
    ),
    Rets,
    WithoutEnv,
    (),
> for Func where
    A1: WasmExternType,
    A2: WasmExternType,
    A3: WasmExternType,
    A4: WasmExternType,
    A5: WasmExternType,
    A6: WasmExternType,
    A7: WasmExternType,
    A8: WasmExternType,
    A9: WasmExternType,
    A10: WasmExternType,
    A11: WasmExternType,
    A12: WasmExternType,
    A13: WasmExternType,
    A14: WasmExternType,
    A15: WasmExternType,
    A16: WasmExternType,
    A17: WasmExternType,
    A18: WasmExternType,
    A19: WasmExternType,
    A20: WasmExternType,
    A21: WasmExternType,
    A22: WasmExternType,
    Rets: WasmTypeList,
    RetsAsResult: IntoResult<Rets>,
    Func: Fn(
        A1, A2, A3, A4, A5, A6, A7, A8, A9, A10, A11, A12, A13, A14, A15, A16, A17, A18, A19, A20,
        A21, A22,
    ) -> RetsAsResult + 'static + Send,
{
    type Error = RetsAsResult::Error;

    open spec fn accepts(
        &self,
        env: (),
        args: (
            A1, A2, A3, A4, A5, A6, A7, A8, A9, A10, A11, A12, A13, A14, A15, A16, A17, A18, A19,
            A20, A21, A22,
        ),
    ) -> bool {
        call_requires(
            *self,
            (
                args.0, args.1, args.2, args.3, args.4, args.5, args.6, args.7, args.8, args.9,
                args.10, args.11, args.12, args.13, args.14, args.15, args.16, args.17, args.18,
                args.19, args.20, args.21,
            ),
        )
    }

    open spec fn may_return(
        &self,
        env: &mut (),
        args: (
            A1, A2, A3, A4, A5, A6, A7, A8, A9, A10, A11, A12, A13, A14, A15, A16, A17, A18, A19,
            A20, A21, A22,
        ),
        r: Result<Rets, RetsAsResult::Error>,
    ) -> bool {
        exists|out: RetsAsResult|
            call_ensures(
                *self,
                (
                    args.0, args.1, args.2, args.3, args.4, args.5, args.6, args.7, args.8, args.9,
                    args.10, args.11, args.12, args.13, args.14, args.15, args.16, args.17, args.18,
                    args.19, args.20, args.21,
                ),
                out,
            ) && r == out.into_result_spec()
    }

    fn call(
        &self,
        env: &mut (),
        args: (
            A1, A2, A3, A4, A5, A6, A7, A8, A9, A10, A11, A12, A13, A14, A15, A16, A17, A18, A19,
            A20, A21, A22,
        ),
    ) -> (r: Result<Rets, RetsAsResult::Error>) {
        let (
            a1, a2, a3, a4, a5, a6, a7, a8, a9, a10, a11, a12, a13, a14, a15, a16, a17, a18, a19,
            a20, a21, a22,
        ) = args;
        let r = self(
            a1, a2, a3, a4, a5, a6, a7, a8, a9, a10, a11, a12, a13, a14, a15, a16, a17, a18, a19,
            a20, a21, a22,
        ).into_result();
        proof {
            assert(self.may_return(old(env), args, r));
        }
        r
    }
}

/// What calling a closure of twenty-two parameters as a host function asks and promises,
/// said of the closure itself.
pub proof fn lemma_host_function_22<
    A1, A2, A3, A4, A5, A6, A7, A8, A9, A10, A11, A12, A13, A14, A15, A16, A17, A18, A19, A20, A21,
    A22, Rets, RetsAsResult, Func,
>(
    func: Func,
    env: (),
    args: (
        A1, A2, A3, A4, A5, A6, A7, A8, A9, A10, A11, A12, A13, A14, A15, A16, A17, A18, A19, A20,
        A21, A22,
    ),
    r: Result<Rets, RetsAsResult::Error>,
) where
    A1: WasmExternType,
    A2: WasmExternType,
    A3: WasmExternType,
    A4: WasmExternType,
    A5: WasmExternType,
    A6: WasmExternType,
    A7: WasmExternType,
    A8: WasmExternType,
    A9: WasmExternType,
    A10: WasmExternType,
    A11: WasmExternType,
    A12: WasmExternType,
    A13: WasmExternType,
    A14: WasmExternType,
    A15: WasmExternType,
    A16: WasmExternType,
    A17: WasmExternType,
    A18: WasmExternType,
    A19: WasmExternType,
    A20: WasmExternType,
    A21: WasmExternType,
    A22: WasmExternType,
    Rets: WasmTypeList,
    RetsAsResult: IntoResult<Rets>,
    Func: Fn(
        A1, A2, A3, A4, A5, A6, A7, A8, A9, A10, A11, A12, A13, A14, A15, A16, A17, A18, A19, A20,
        A21, A22,
    ) -> RetsAsResult + 'static + Send,

    ensures
        HostFunction::<
            (
                A1, A2, A3, A4, A5, A6, A7, A8, A9, A10, A11, A12, A13, A14, A15, A16, A17, A18,
                A19, A20, A21, A22,
            ),
            Rets,
            WithoutEnv,
            (),
        >::accepts(&func, env, args)
            <==> call_requires(
                func,
                (
                    args.0, args.1, args.2, args.3, args.4, args.5, args.6, args.7, args.8, args.9,
                    args.10, args.11, args.12, args.13, args.14, args.15, args.16, args.17, args.18,
                    args.19, args.20, args.21,
                ),
            ),
        forall|given: &mut ()|
            #[trigger] HostFunction::<
                (
                    A1, A2, A3, A4, A5, A6, A7, A8, A9, A10, A11, A12, A13, A14, A15, A16, A17, A18,
                    A19, A20, A21, A22,
                ),
                Rets,
                WithoutEnv,
                (),
            >::may_return(&func, given, args, r)
                <==> exists|out: RetsAsResult|
                    call_ensures(
                        func,
                        (
                            args.0, args.1, args.2, args.3, args.4, args.5, args.6, args.7, args.8,
                            args.9, args.10, args.11, args.12, args.13, args.14, args.15, args.16,
                            args.17, args.18, args.19, args.20, args.21,
                        ),
                        out,
                    ) && r == out.into_result_spec(),
{
}

/// A closure of an environment and twenty-two parameters is a host function with an
/// environment.
impl<
    A1, A2, A3, A4, A5, A6, A7, A8, A9, A10, A11, A12, A13, A14, A15, A16, A17, A18, A19, A20, A21,
    A22, Rets, RetsAsResult, Env, Func,
> HostFunction<
    (
        A1, A2, A3, A4, A5, A6, A7, A8, A9, A10, A11, A12, A13, A14, A15, A16, A17, A18, A19, A20,
        A21, A22,
    ),
    Rets,
    WithEnv,
    Env,
> for Func where
    A1: WasmExternType,
    A2: WasmExternType,
    A3: WasmExternType,
    A4: WasmExternType,
    A5: WasmExternType,
    A6: WasmExternType,
    A7: WasmExternType,
    A8: WasmExternType,
    A9: WasmExternType,
    A10: WasmExternType,
    A11: WasmExternType,
    A12: WasmExternType,
    A13: WasmExternType,
    A14: WasmExternType,
    A15: WasmExternType,
    A16: WasmExternType,
    A17: WasmExternType,
    A18: WasmExternType,
    A19: WasmExternType,
    A20: WasmExternType,
    A21: WasmExternType,
    A22: WasmExternType,
    Rets: WasmTypeList,
    RetsAsResult: IntoResult<Rets>,
    Env: Sized,
    Func: Fn(
        &mut Env, A1, A2, A3, A4, A5, A6, A7, A8, A9, A10, A11, A12, A13, A14, A15, A16, A17, A18,
        A19, A20, A21, A22,
    ) -> RetsAsResult + Send + 'static,
{
    type Error = RetsAsResult::Error;

    open spec fn accepts(
        &self,
        env: Env,
        args: (
            A1, A2, A3, A4, A5, A6, A7, A8, A9, A10, A11, A12, A13, A14, A15, A16, A17, A18, A19,
            A20, A21, A22,
        ),
    ) -> bool {
        forall|given: &mut Env|
            *given == env ==> call_requires(
                *self,
                (
                    given, args.0, args.1, args.2, args.3, args.4, args.5, args.6, args.7, args.8,
                    args.9, args.10, args.11, args.12, args.13, args.14, args.15, args.16, args.17,
                    args.18, args.19, args.20, args.21,
                ),
            )
    }

    open spec fn may_return(
        &self,
        env: &mut Env,
        args: (
            A1, A2, A3, A4, A5, A6, A7, A8, A9, A10, A11, A12, A13, A14, A15, A16, A17, A18, A19,
            A20, A21, A22,
        ),
        r: Result<Rets, RetsAsResult::Error>,
    ) -> bool {
        exists|out: RetsAsResult|
            call_ensures(
                *self,
                (
                    env, args.0, args.1, args.2, args.3, args.4, args.5, args.6, args.7, args.8,
                    args.9, args.10, args.11, args.12, args.13, args.14, args.15, args.16, args.17,
                    args.18, args.19, args.20, args.21,
                ),
                out,
            ) && r == out.into_result_spec()
    }

    fn call(
        &self,
        env: &mut Env,
        args: (
            A1, A2, A3, A4, A5, A6, A7, A8, A9, A10, A11, A12, A13, A14, A15, A16, A17, A18, A19,
            A20, A21, A22,
        ),
    ) -> (r: Result<Rets, RetsAsResult::Error>) {
        let (
            a1, a2, a3, a4, a5, a6, a7, a8, a9, a10, a11, a12, a13, a14, a15, a16, a17, a18, a19,
            a20, a21, a22,
        ) = args;
        let ghost before = *env;
        let out = self(
            env, a1, a2, a3, a4, a5, a6, a7, a8, a9, a10, a11, a12, a13, a14, a15, a16, a17, a18,
            a19, a20, a21, a22,
        );
        let r = out.into_result();
        proof {
            let given = choose|given: &mut Env|
                {
                    &&& *given == before
                    &&& *final(given) == *env
                    &&& call_ensures(
                        *self,
                        (
                            given, a1, a2, a3, a4, a5, a6, a7, a8, a9, a10, a11, a12, a13, a14, a15,
                            a16, a17, a18, a19, a20, a21, a22,
                        ),
                        out,
                    )
                };
            assert(self.may_return(given, args, r));
        }
        r
    }
}

/// What calling a closure of an environment and twenty-two parameters as a host function
/// asks and promises, said of the closure itself.
pub proof fn lemma_host_function_env_22<
    A1, A2, A3, A4, A5, A6, A7, A8, A9, A10, A11, A12, A13, A14, A15, A16, A17, A18, A19, A20, A21,
    A22, Rets, RetsAsResult, Env, Func,
>(
    func: Func,
    env: Env,
    args: (
        A1, A2, A3, A4, A5, A6, A7, A8, A9, A10, A11, A12, A13, A14, A15, A16, A17, A18, A19, A20,
        A21, A22,
    ),
    r: Result<Rets, RetsAsResult::Error>,
) where
    A1: WasmExternType,
    A2: WasmExternType,
    A3: WasmExternType,
    A4: WasmExternType,
    A5: WasmExternType,
    A6: WasmExternType,
    A7: WasmExternType,
    A8: WasmExternType,
    A9: WasmExternType,
    A10: WasmExternType,
    A11: WasmExternType,
    A12: WasmExternType,
    A13: WasmExternType,
    A14: WasmExternType,
    A15: WasmExternType,
    A16: WasmExternType,
    A17: WasmExternType,
    A18: WasmExternType,
    A19: WasmExternType,
    A20: WasmExternType,
    A21: WasmExternType,
    A22: WasmExternType,
    Rets: WasmTypeList,
    RetsAsResult: IntoResult<Rets>,
    Env: Sized,
    Func: Fn(
        &mut Env, A1, A2, A3, A4, A5, A6, A7, A8, A9, A10, A11, A12, A13, A14, A15, A16, A17, A18,
        A19, A20, A21, A22,
    ) -> RetsAsResult + Send + 'static,

    ensures
        HostFunction::<
            (
                A1, A2, A3, A4, A5, A6, A7, A8, A9, A10, A11, A12, A13, A14, A15, A16, A17, A18,
                A19, A20, A21, A22,
            ),
            Rets,
            WithEnv,
            Env,
        >::accepts(&func, env, args)
            <==> forall|given: &mut Env|
                *given == env ==> call_requires(
                    func,
                    (
                        given, args.0, args.1, args.2, args.3, args.4, args.5, args.6, args.7,
                        args.8, args.9, args.10, args.11, args.12, args.13, args.14, args.15,
                        args.16, args.17, args.18, args.19, args.20, args.21,
                    ),
                ),
        forall|given: &mut Env|
            #[trigger] HostFunction::<
                (
                    A1, A2, A3, A4, A5, A6, A7, A8, A9, A10, A11, A12, A13, A14, A15, A16, A17, A18,
                    A19, A20, A21, A22,
                ),
                Rets,
                WithEnv,
                Env,
            >::may_return(&func, given, args, r)
                <==> exists|out: RetsAsResult|
                    call_ensures(
                        func,
                        (
                            given, args.0, args.1, args.2, args.3, args.4, args.5, args.6, args.7,
                            args.8, args.9, args.10, args.11, args.12, args.13, args.14, args.15,
                            args.16, args.17, args.18, args.19, args.20, args.21,
                        ),
                        out,
                    ) && r == out.into_result_spec(),
{
}

/// A closure of twenty-three parameters is a host function without an environment.
impl<
    A1, A2, A3, A4, A5, A6, A7, A8, A9, A10, A11, A12, A13, A14, A15, A16, A17, A18, A19, A20, A21,
    A22, A23, Rets, RetsAsResult, Func,
> HostFunction<
    (
        A1, A2, A3, A4, A5, A6, A7, A8, A9, A10, A11, A12, A13, A14, A15, A16, A17, A18, A19, A20,
        A21, A22, A23,
    ),
    Rets,
    WithoutEnv,
    (),
> for Func where
    A1: WasmExternType,
    A2: WasmExternType,
    A3: WasmExternType,
    A4: WasmExternType,
    A5: WasmExternType,
    A6: WasmExternType,
    A7: WasmExternType,
    A8: WasmExternType,
    A9: WasmExternType,
    A10: WasmExternType,
    A11: WasmExternType,
    A12: WasmExternType,
    A13: WasmExternType,
    A14: WasmExternType,
    A15: WasmExternType,
    A16: WasmExternType,
    A17: WasmExternType,
    A18: WasmExternType,
    A19: WasmExternType,
    A20: WasmExternType,
    A21: WasmExternType,
    A22: WasmExternType,
    A23: WasmExternType,
    Rets: WasmTypeList,
    RetsAsResult: IntoResult<Rets>,
    Func: Fn(
        A1, A2, A3, A4, A5, A6, A7, A8, A9, A10, A11, A12, A13, A14, A15, A16, A17, A18, A19, A20,
        A21, A22, A23,
    ) -> RetsAsResult + 'static + Send,
{
    type Error = RetsAsResult::Error;

    open spec fn accepts(
        &self,
        env: (),
        args: (
            A1, A2, A3, A4, A5, A6, A7, A8, A9, A10, A11, A12, A13, A14, A15, A16, A17, A18, A19,
            A20, A21, A22, A23,
        ),
    ) -> bool {
        call_requires(
            *self,
            (
                args.0, args.1, args.2, args.3, args.4, args.5, args.6, args.7, args.8, args.9,
                args.10, args.11, args.12, args.13, args.14, args.15, args.16, args.17, args.18,
                args.19, args.20, args.21, args.22,
            ),
        )
    }

    open spec fn may_return(
        &self,
        env: &mut (),
        args: (
            A1, A2, A3, A4, A5, A6, A7, A8, A9, A10, A11, A12, A13, A14, A15, A16, A17, A18, A19,
            A20, A21, A22, A23,
        ),
        r: Result<Rets, RetsAsResult::Error>,
    ) -> bool {
        exists|out: RetsAsResult|
            call_ensures(
                *self,
                (
                    args.0, args.1, args.2, args.3, args.4, args.5, args.6, args.7, args.8, args.9,
                    args.10, args.11, args.12, args.13, args.14, args.15, args.16, args.17, args.18,
                    args.19, args.20, args.21, args.22,
                ),
                out,
            ) && r == out.into_result_spec()
    }

    fn call(
        &self,
        env: &mut (),
        args: (
            A1, A2, A3, A4, A5, A6, A7, A8, A9, A10, A11, A12, A13, A14, A15, A16, A17, A18, A19,
            A20, A21, A22, A23,
        ),
    ) -> (r: Result<Rets, RetsAsResult::Error>) {
        let (
            a1, a2, a3, a4, a5, a6, a7, a8, a9, a10, a11, a12, a13, a14, a15, a16, a17, a18, a19,
            a20, a21, a22, a23,
        ) = args;
        let r = self(
            a1, a2, a3, a4, a5, a6, a7, a8, a9, a10, a11, a12, a13, a14, a15, a16, a17, a18, a19,
            a20, a21, a22, a23,
        ).into_result();
        proof {
            assert(self.may_return(old(env), args, r));
        }
        r
    }
}

/// What calling a closure of twenty-three parameters as a host function asks and promises,
/// said of the closure itself.
pub proof fn lemma_host_function_23<
    A1, A2, A3, A4, A5, A6, A7, A8, A9, A10, A11, A12, A13, A14, A15, A16, A17, A18, A19, A20, A21,
    A22, A23, Rets, RetsAsResult, Func,
>(
    func: Func,
    env: (),
    args: (
        A1, A2, A3, A4, A5, A6, A7, A8, A9, A10, A11, A12, A13, A14, A15, A16, A17, A18, A19, A20,
        A21, A22, A23,
    ),
    r: Result<Rets, RetsAsResult::Error>,
) where
    A1: WasmExternType,
    A2: WasmExternType,
    A3: WasmExternType,
    A4: WasmExternType,
    A5: WasmExternType,
    A6: WasmExternType,
    A7: WasmExternType,
    A8: WasmExternType,
    A9: WasmExternType,
    A10: WasmExternType,
    A11: WasmExternType,
    A12: WasmExternType,
    A13: WasmExternType,
    A14: WasmExternType,
    A15: WasmExternType,
    A16: WasmExternType,
    A17: WasmExternType,
    A18: WasmExternType,
    A19: WasmExternType,
    A20: WasmExternType,
    A21: WasmExternType,
    A22: WasmExternType,
    A23: WasmExternType,
    Rets: WasmTypeList,
    RetsAsResult: IntoResult<Rets>,
    Func: Fn(
        A1, A2, A3, A4, A5, A6, A7, A8, A9, A10, A11, A12, A13, A14, A15, A16, A17, A18, A19, A20,
        A21, A22, A23,
    ) -> RetsAsResult + 'static + Send,

    ensures
        HostFunction::<
            (
                A1, A2, A3, A4, A5, A6, A7, A8, A9, A10, A11, A12, A13, A14, A15, A16, A17, A18,
                A19, A20, A21, A22, A23,
            ),
            Rets,
            WithoutEnv,
            (),
        >::accepts(&func, env, args)
            <==> call_requires(
                func,
                (
                    args.0, args.1, args.2, args.3, args.4, args.5, args.6, args.7, args.8, args.9,
                    args.10, args.11, args.12, args.13, args.14, args.15, args.16, args.17, args.18,
                    args.19, args.20, args.21, args.22,
                ),
            ),
        forall|given: &mut ()|
            #[trigger] HostFunction::<
                (
                    A1, A2, A3, A4, A5, A6, A7, A8, A9, A10, A11, A12, A13, A14, A15, A16, A17, A18,
                    A19, A20, A21, A22, A23,
                ),
                Rets,
                WithoutEnv,
                (),
            >::may_return(&func, given, args, r)
                <==> exists|out: RetsAsResult|
                    call_ensures(
                        func,
                        (
                            args.0, args.1, args.2, args.3, args.4, args.5, args.6, args.7, args.8,
                            args.9, args.10, args.11, args.12, args.13, args.14, args.15, args.16,
                            args.17, args.18, args.19, args.20, args.21, args.22,
                        ),
                        out,
                    ) && r == out.into_result_spec(),
{
}

/// A closure of an environment and twenty-three parameters is a host function with an
/// environment.
impl<
    A1, A2, A3, A4, A5, A6, A7, A8, A9, A10, A11, A12, A13, A14, A15, A16, A17, A18, A19, A20, A21,
    A22, A23, Rets, RetsAsResult, Env, Func,
> HostFunction<
    (
        A1, A2, A3, A4, A5, A6, A7, A8, A9, A10, A11, A12, A13, A14, A15, A16, A17, A18, A19, A20,
        A21, A22, A23,
    ),
    Rets,
    WithEnv,
    Env,
> for Func where
    A1: WasmExternType,
    A2: WasmExternType,
    A3: WasmExternType,
    A4: WasmExternType,
    A5: WasmExternType,
    A6: WasmExternType,
    A7: WasmExternType,
    A8: WasmExternType,
    A9: WasmExternType,
    A10: WasmExternType,
    A11: WasmExternType,
    A12: WasmExternType,
    A13: WasmExternType,
    A14: WasmExternType,
    A15: WasmExternType,
    A16: WasmExternType,
    A17: WasmExternType,
    A18: WasmExternType,
    A19: WasmExternType,
    A20: WasmExternType,
    A21: WasmExternType,
    A22: WasmExternType,
    A23: WasmExternType,
    Rets: WasmTypeList,
    RetsAsResult: IntoResult<Rets>,
    Env: Sized,
    Func: Fn(
        &mut Env, A1, A2, A3, A4, A5, A6, A7, A8, A9, A10, A11, A12, A13, A14, A15, A16, A17, A18,
        A19, A20, A21, A22, A23,
    ) -> RetsAsResult + Send + 'static,
{
    type Error = RetsAsResult::Error;

    open spec fn accepts(
        &self,
        env: Env,
        args: (
            A1, A2, A3, A4, A5, A6, A7, A8, A9, A10, A11, A12, A13, A14, A15, A16, A17, A18, A19,
            A20, A21, A22, A23,
        ),
    ) -> bool {
        forall|given: &mut Env|
            *given == env ==> call_requires(
                *self,
                (
                    given, args.0, args.1, args.2, args.3, args.4, args.5, args.6, args.7, args.8,
                    args.9, args.10, args.11, args.12, args.13, args.14, args.15, args.16, args.17,
                    args.18, args.19, args.20, args.21, args.22,
                ),
            )
    }

    open spec fn may_return(
        &self,
        env: &mut Env,
        args: (
            A1, A2, A3, A4, A5, A6, A7, A8, A9, A10, A11, A12, A13, A14, A15, A16, A17, A18, A19,
            A20, A21, A22, A23,
        ),
        r: Result<Rets, RetsAsResult::Error>,
    ) -> bool {
        exists|out: RetsAsResult|
            call_ensures(
                *self,
                (
                    env, args.0, args.1, args.2, args.3, args.4, args.5, args.6, args.7, args.8,
                    args.9, args.10, args.11, args.12, args.13, args.14, args.15, args.16, args.17,
                    args.18, args.19, args.20, args.21, args.22,
                ),
                out,
            ) && r == out.into_result_spec()
    }

    fn call(
        &self,
        env: &mut Env,
        args: (
            A1, A2, A3, A4, A5, A6, A7, A8, A9, A10, A11, A12, A13, A14, A15, A16, A17, A18, A19,
            A20, A21, A22, A23,
        ),
    ) -> (r: Result<Rets, RetsAsResult::Error>) {
        let (
            a1, a2, a3, a4, a5, a6, a7, a8, a9, a10, a11, a12, a13, a14, a15, a16, a17, a18, a19,
            a20, a21, a22, a23,
        ) = args;
        let ghost before = *env;
        let out = self(
            env, a1, a2, a3, a4, a5, a6, a7, a8, a9, a10, a11, a12, a13, a14, a15, a16, a17, a18,
            a19, a20, a21, a22, a23,
        );
        let r = out.into_result();
        proof {
            let given = choose|given: &mut Env|
                {
                    &&& *given == before
                    &&& *final(given) == *env
                    &&& call_ensures(
                        *self,
                        (
                            given, a1, a2, a3, a4, a5, a6, a7, a8, a9, a10, a11, a12, a13, a14, a15,
                            a16, a17, a18, a19, a20, a21, a22, a23,
                        ),
                        out,
                    )
                };
            assert(self.may_return(given, args, r));
        }
        r
    }
}

/// What calling a closure of an environment and twenty-three parameters as a host function
/// asks and promises, said of the closure itself.
pub proof fn lemma_host_function_env_23<
    A1, A2, A3, A4, A5, A6, A7, A8, A9, A10, A11, A12, A13, A14, A15, A16, A17, A18, A19, A20, A21,
    A22, A23, Rets, RetsAsResult, Env, Func,
>(
    func: Func,
    env: Env,
    args: (
        A1, A2, A3, A4, A5, A6, A7, A8, A9, A10, A11, A12, A13, A14, A15, A16, A17, A18, A19, A20,
        A21, A22, A23,
    ),
    r: Result<Rets, RetsAsResult::Error>,
) where
    A1: WasmExternType,
    A2: WasmExternType,
    A3: WasmExternType,
    A4: WasmExternType,
    A5: WasmExternType,
    A6: WasmExternType,
    A7: WasmExternType,
    A8: WasmExternType,
    A9: WasmExternType,
    A10: WasmExternType,
    A11: WasmExternType,
    A12: WasmExternType,
    A13: WasmExternType,
    A14: WasmExternType,
    A15: WasmExternType,
    A16: WasmExternType,
    A17: WasmExternType,
    A18: WasmExternType,
    A19: WasmExternType,
    A20: WasmExternType,
    A21: WasmExternType,
    A22: WasmExternType,
    A23: WasmExternType,
    Rets: WasmTypeList,
    RetsAsResult: IntoResult<Rets>,
    Env: Sized,
    Func: Fn(
        &mut Env, A1, A2, A3, A4, A5, A6, A7, A8, A9, A10, A11, A12, A13, A14, A15, A16, A17, A18,
        A19, A20, A21, A22, A23,
    ) -> RetsAsResult + Send + 'static,

    ensures
        HostFunction::<
            (
                A1, A2, A3, A4, A5, A6, A7, A8, A9, A10, A11, A12, A13, A14, A15, A16, A17, A18,
                A19, A20, A21, A22, A23,
            ),
            Rets,
            WithEnv,
            Env,
        >::accepts(&func, env, args)
            <==> forall|given: &mut Env|
                *given == env ==> call_requires(
                    func,
                    (
                        given, args.0, args.1, args.2, args.3, args.4, args.5, args.6, args.7,
                        args.8, args.9, args.10, args.11, args.12, args.13, args.14, args.15,
                        args.16, args.17, args.18, args.19, args.20, args.21, args.22,
                    ),
                ),
        forall|given: &mut Env|
            #[trigger] HostFunction::<
                (
                    A1, A2, A3, A4, A5, A6, A7, A8, A9, A10, A11, A12, A13, A14, A15, A16, A17, A18,
                    A19, A20, A21, A22, A23,
                ),
                Rets,
                WithEnv,
                Env,
            >::may_return(&func, given, args, r)
                <==> exists|out: RetsAsResult|
                    call_ensures(
                        func,
                        (
                            given, args.0, args.1, args.2, args.3, args.4, args.5, args.6, args.7,
                            args.8, args.9, args.10, args.11, args.12, args.13, args.14, args.15,
                            args.16, args.17, args.18, args.19, args.20, args.21, args.22,
                        ),
                        out,
                    ) && r == out.into_result_spec(),
{
}

/// A closure of twenty-four parameters is a host function without an environment.
impl<
    A1, A2, A3, A4, A5, A6, A7, A8, A9, A10, A11, A12, A13, A14, A15, A16, A17, A18, A19, A20, A21,
    A22, A23, A24, Rets, RetsAsResult, Func,
> HostFunction<
    (
        A1, A2, A3, A4, A5, A6, A7, A8, A9, A10, A11, A12, A13, A14, A15, A16, A17, A18, A19, A20,
        A21, A22, A23, A24,
    ),
    Rets,
    WithoutEnv,
    (),
> for Func where
    A1: WasmExternType,
    A2: WasmExternType,
    A3: WasmExternType,
    A4: WasmExternType,
    A5: WasmExternType,
    A6: WasmExternType,
    A7: WasmExternType,
    A8: WasmExternType,
    A9: WasmExternType,
    A10: WasmExternType,
    A11: WasmExternType,
    A12: WasmExternType,
    A13: WasmExternType,
    A14: WasmExternType,
    A15: WasmExternType,
    A16: WasmExternType,
    A17: WasmExternType,
    A18: WasmExternType,
    A19: WasmExternType,
    A20: WasmExternType,
    A21: WasmExternType,
    A22: WasmExternType,
    A23: WasmExternType,
    A24: WasmExternType,
    Rets: WasmTypeList,
    RetsAsResult: IntoResult<Rets>,
    Func: Fn(
        A1, A2, A3, A4, A5, A6, A7, A8, A9, A10, A11, A12, A13, A14, A15, A16, A17, A18, A19, A20,
        A21, A22, A23, A24,
    ) -> RetsAsResult + 'static + Send,
{
    type Error = RetsAsResult::Error;

    open spec fn accepts(
        &self,
        env: (),
        args: (
            A1, A2, A3, A4, A5, A6, A7, A8, A9, A10, A11, A12, A13, A14, A15, A16, A17, A18, A19,
            A20, A21, A22, A23, A24,
        ),
    ) -> bool {
        call_requires(
            *self,
            (
                args.0, args.1, args.2, args.3, args.4, args.5, args.6, args.7, args.8, args.9,
                args.10, args.11, args.12, args.13, args.14, args.15, args.16, args.17, args.18,
                args.19, args.20, args.21, args.22, args.23,
            ),
        )
    }

    open spec fn may_return(
        &self,
        env: &mut (),
        args: (
            A1, A2, A3, A4, A5, A6, A7, A8, A9, A10, A11, A12, A13, A14, A15, A16, A17, A18, A19,
            A20, A21, A22, A23, A24,
        ),
        r: Result<Rets, RetsAsResult::Error>,
    ) -> bool {
        exists|out: RetsAsResult|
            call_ensures(
                *self,
                (
                    args.0, args.1, args.2, args.3, args.4, args.5, args.6, args.7, args.8, args.9,
                    args.10, args.11, args.12, args.13, args.14, args.15, args.16, args.17, args.18,
                    args.19, args.20, args.21, args.22, args.23,
                ),
                out,
            ) && r == out.into_result_spec()
    }

    fn call(
        &self,
        env: &mut (),
        args: (
            A1, A2, A3, A4, A5, A6, A7, A8, A9, A10, A11, A12, A13, A14, A15, A16, A17, A18, A19,
            A20, A21, A22, A23, A24,
        ),
    ) -> (r: Result<Rets, RetsAsResult::Error>) {
        let (
            a1, a2, a3, a4, a5, a6, a7, a8, a9, a10, a11, a12, a13, a14, a15, a16, a17, a18, a19,
            a20, a21, a22, a23, a24,
        ) = args;
        let r = self(
            a1, a2, a3, a4, a5, a6, a7, a8, a9, a10, a11, a12, a13, a14, a15, a16, a17, a18, a19,
            a20, a21, a22, a23, a24,
        ).into_result();
        proof {
            assert(self.may_return(old(env), args, r));
        }
        r
    }
}

/// What calling a closure of twenty-four parameters as a host function asks and promises,
/// said of the closure itself.
pub proof fn lemma_host_function_24<
    A1, A2, A3, A4, A5, A6, A7, A8, A9, A10, A11, A12, A13, A14, A15, A16, A17, A18, A19, A20, A21,
    A22, A23, A24, Rets, RetsAsResult, Func,
>(
    func: Func,
    env: (),
    args: (
        A1, A2, A3, A4, A5, A6, A7, A8, A9, A10, A11, A12, A13, A14, A15, A16, A17, A18, A19, A20,
        A21, A22, A23, A24,
    ),
    r: Result<Rets, RetsAsResult::Error>,
) where
    A1: WasmExternType,
    A2: WasmExternType,
    A3: WasmExternType,
    A4: WasmExternType,
    A5: WasmExternType,
    A6: WasmExternType,
    A7: WasmExternType,
    A8: WasmExternType,
    A9: WasmExternType,
    A10: WasmExternType,
    A11: WasmExternType,
    A12: WasmExternType,
    A13: WasmExternType,
    A14: WasmExternType,
    A15: WasmExternType,
    A16: WasmExternType,
    A17: WasmExternType,
    A18: WasmExternType,
    A19: WasmExternType,
    A20: WasmExternType,
    A21: WasmExternType,
    A22: WasmExternType,
    A23: WasmExternType,
    A24: WasmExternType,
    Rets: WasmTypeList,
    RetsAsResult: IntoResult<Rets>,
    Func: Fn(
        A1, A2, A3, A4, A5, A6, A7, A8, A9, A10, A11, A12, A13, A14, A15, A16, A17, A18, A19, A20,
        A21, A22, A23, A24,
    ) -> RetsAsResult + 'static + Send,

    ensures
        HostFunction::<
            (
                A1, A2, A3, A4, A5, A6, A7, A8, A9, A10, A11, A12, A13, A14, A15, A16, A17, A18,
                A19, A20, A21, A22, A23, A24,
            ),
            Rets,
            WithoutEnv,
            (),
        >::accepts(&func, env, args)
            <==> call_requires(
                func,
                (
                    args.0, args.1, args.2, args.3, args.4, args.5, args.6, args.7, args.8, args.9,
                    args.10, args.11, args.12, args.13, args.14, args.15, args.16, args.17, args.18,
                    args.19, args.20, args.21, args.22, args.23,
                ),
            ),
        forall|given: &mut ()|
            #[trigger] HostFunction::<
                (
                    A1, A2, A3, A4, A5, A6, A7, A8, A9, A10, A11, A12, A13, A14, A15, A16, A17, A18,
                    A19, A20, A21, A22, A23, A24,
                ),
                Rets,
                WithoutEnv,
                (),
            >::may_return(&func, given, args, r)
                <==> exists|out: RetsAsResult|
                    call_ensures(
                        func,
                        (
                            args.0, args.1, args.2, args.3, args.4, args.5, args.6, args.7, args.8,
                            args.9, args.10, args.11, args.12, args.13, args.14, args.15, args.16,
                            args.17, args.18, args.19, args.20, args.21, args.22, args.23,
                        ),
                        out,
                    ) && r == out.into_result_spec(),
{
}

/// A closure of an environment and twenty-four parameters is a host function with an
/// environment.
impl<
    A1, A2, A3, A4, A5, A6, A7, A8, A9, A10, A11, A12, A13, A14, A15, A16, A17, A18, A19, A20, A21,
    A22, A23, A24, Rets, RetsAsResult, Env, Func,
> HostFunction<
    (
        A1, A2, A3, A4, A5, A6, A7, A8, A9, A10, A11, A12, A13, A14, A15, A16, A17, A18, A19, A20,
        A21, A22, A23, A24,
    ),
    Rets,
    WithEnv,
    Env,
> for Func where
    A1: WasmExternType,
    A2: WasmExternType,
    A3: WasmExternType,
    A4: WasmExternType,
    A5: WasmExternType,
    A6: WasmExternType,
    A7: WasmExternType,
    A8: WasmExternType,
    A9: WasmExternType,
    A10: WasmExternType,
    A11: WasmExternType,
    A12: WasmExternType,
    A13: WasmExternType,
    A14: WasmExternType,
    A15: WasmExternType,
    A16: WasmExternType,
    A17: WasmExternType,
    A18: WasmExternType,
    A19: WasmExternType,
    A20: WasmExternType,
    A21: WasmExternType,
    A22: WasmExternType,
    A23: WasmExternType,
    A24: WasmExternType,
    Rets: WasmTypeList,
    RetsAsResult: IntoResult<Rets>,
    Env: Sized,
    Func: Fn(
        &mut Env, A1, A2, A3, A4, A5, A6, A7, A8, A9, A10, A11, A12, A13, A14, A15, A16, A17, A18,
        A19, A20, A21, A22, A23, A24,
    ) -> RetsAsResult + Send + 'static,
{
    type Error = RetsAsResult::Error;

    open spec fn accepts(
        &self,
        env: Env,
        args: (
            A1, A2, A3, A4, A5, A6, A7, A8, A9, A10, A11, A12, A13, A14, A15, A16, A17, A18, A19,
            A20, A21, A22, A23, A24,
        ),
    ) -> bool {
        forall|given: &mut Env|
            *given == env ==> call_requires(
                *self,
                (
                    given, args.0, args.1, args.2, args.3, args.4, args.5, args.6, args.7, args.8,
                    args.9, args.10, args.11, args.12, args.13, args.14, args.15, args.16, args.17,
                    args.18, args.19, args.20, args.21, args.22, args.23,
                ),
            )
    }

    open spec fn may_return(
        &self,
        env: &mut Env,
        args: (
            A1, A2, A3, A4, A5, A6, A7, A8, A9, A10, A11, A12, A13, A14, A15, A16, A17, A18, A19,
            A20, A21, A22, A23, A24,
        ),
        r: Result<Rets, RetsAsResult::Error>,
    ) -> bool {
        exists|out: RetsAsResult|
            call_ensures(
                *self,
                (
                    env, args.0, args.1, args.2, args.3, args.4, args.5, args.6, args.7, args.8,
                    args.9, args.10, args.11, args.12, args.13, args.14, args.15, args.16, args.17,
                    args.18, args.19, args.20, args.21, args.22, args.23,
                ),
                out,
            ) && r == out.into_result_spec()
    }

    fn call(
        &self,
        env: &mut Env,
        args: (
            A1, A2, A3, A4, A5, A6, A7, A8, A9, A10, A11, A12, A13, A14, A15, A16, A17, A18, A19,
            A20, A21, A22, A23, A24,
        ),
    ) -> (r: Result<Rets, RetsAsResult::Error>) {
        let (
            a1, a2, a3, a4, a5, a6, a7, a8, a9, a10, a11, a12, a13, a14, a15, a16, a17, a18, a19,
            a20, a21, a22, a23, a24,
        ) = args;
        let ghost before = *env;
        let out = self(
            env, a1, a2, a3, a4, a5, a6, a7, a8, a9, a10, a11, a12, a13, a14, a15, a16, a17, a18,
            a19, a20, a21, a22, a23, a24,
        );
        let r = out.into_result();
        proof {
            let given = choose|given: &mut Env|
                {
                    &&& *given == before
                    &&& *final(given) == *env
                    &&& call_ensures(
                        *self,
                        (
                            given, a1, a2, a3, a4, a5, a6, a7, a8, a9, a10, a11, a12, a13, a14, a15,
                            a16, a17, a18, a19, a20, a21, a22, a23, a24,
                        ),
                        out,
                    )
                };
            assert(self.may_return(given, args, r));
        }
        r
    }
}

/// What calling a closure of an environment and twenty-four parameters as a host function
/// asks and promises, said of the closure itself.
pub proof fn lemma_host_function_env_24<
    A1, A2, A3, A4, A5, A6, A7, A8, A9, A10, A11, A12, A13, A14, A15, A16, A17, A18, A19, A20, A21,
    A22, A23, A24, Rets, RetsAsResult, Env, Func,
>(
    func: Func,
    env: Env,
    args: (
        A1, A2, A3, A4, A5, A6, A7, A8, A9, A10, A11, A12, A13, A14, A15, A16, A17, A18, A19, A20,
        A21, A22, A23, A24,
    ),
    r: Result<Rets, RetsAsResult::Error>,
) where
    A1: WasmExternType,
    A2: WasmExternType,
    A3: WasmExternType,
    A4: WasmExternType,
    A5: WasmExternType,
    A6: WasmExternType,
    A7: WasmExternType,
    A8: WasmExternType,
    A9: WasmExternType,
    A10: WasmExternType,
    A11: WasmExternType,
    A12: WasmExternType,
    A13: WasmExternType,
    A14: WasmExternType,
    A15: WasmExternType,
    A16: WasmExternType,
    A17: WasmExternType,
    A18: WasmExternType,
    A19: WasmExternType,
    A20: WasmExternType,
    A21: WasmExternType,
    A22: WasmExternType,
    A23: WasmExternType,
    A24: WasmExternType,
    Rets: WasmTypeList,
    RetsAsResult: IntoResult<Rets>,
    Env: Sized,
    Func: Fn(
        &mut Env, A1, A2, A3, A4, A5, A6, A7, A8, A9, A10, A11, A12, A13, A14, A15, A16, A17, A18,
        A19, A20, A21, A22, A23, A24,
    ) -> RetsAsResult + Send + 'static,

    ensures
        HostFunction::<
            (
                A1, A2, A3, A4, A5, A6, A7, A8, A9, A10, A11, A12, A13, A14, A15, A16, A17, A18,
                A19, A20, A21, A22, A23, A24,
            ),
            Rets,
            WithEnv,
            Env,
        >::accepts(&func, env, args)
            <==> forall|given: &mut Env|
                *given == env ==> call_requires(
                    func,
                    (
                        given, args.0, args.1, args.2, args.3, args.4, args.5, args.6, args.7,
                        args.8, args.9, args.10, args.11, args.12, args.13, args.14, args.15,
                        args.16, args.17, args.18, args.19, args.20, args.21, args.22, args.23,
                    ),
                ),
        forall|given: &mut Env|
            #[trigger] HostFunction::<
                (
                    A1, A2, A3, A4, A5, A6, A7, A8, A9, A10, A11, A12, A13, A14, A15, A16, A17, A18,
                    A19, A20, A21, A22, A23, A24,
                ),
                Rets,
                WithEnv,
                Env,
            >::may_return(&func, given, args, r)
                <==> exists|out: RetsAsResult|
                    call_ensures(
                        func,
                        (
                            given, args.0, args.1, args.2, args.3, args.4, args.5, args.6, args.7,
                            args.8, args.9, args.10, args.11, args.12, args.13, args.14, args.15,
                            args.16, args.17, args.18, args.19, args.20, args.21, args.22, args.23,
                        ),
                        out,
                    ) && r == out.into_result_spec(),
{
}

/// A closure of twenty-five parameters is a host function without an environment.
impl<
    A1, A2, A3, A4, A5, A6, A7, A8, A9, A10, A11, A12, A13, A14, A15, A16, A17, A18, A19, A20, A21,
    A22, A23, A24, A25, Rets, RetsAsResult, Func,
> HostFunction<
    (
        A1, A2, A3, A4, A5, A6, A7, A8, A9, A10, A11, A12, A13, A14, A15, A16, A17, A18, A19, A20,
        A21, A22, A23, A24, A25,
    ),
    Rets,
    WithoutEnv,
    (),
> for Func where
    A1: WasmExternType,
    A2: WasmExternType,
    A3: WasmExternType,
    A4: WasmExternType,
    A5: WasmExternType,
    A6: WasmExternType,
    A7: WasmExternType,
    A8: WasmExternType,
    A9: WasmExternType,
    A10: WasmExternType,
    A11: WasmExternType,
    A12: WasmExternType,
    A13: WasmExternType,
    A14: WasmExternType,
    A15: WasmExternType,
    A16: WasmExternType,
    A17: WasmExternType,
    A18: WasmExternType,
    A19: WasmExternType,
    A20: WasmExternType,
    A21: WasmExternType,
    A22: WasmExternType,
    A23: WasmExternType,
    A24: WasmExternType,
    A25: WasmExternType,
    Rets: WasmTypeList,
    RetsAsResult: IntoResult<Rets>,
    Func: Fn(
        A1, A2, A3, A4, A5, A6, A7, A8, A9, A10, A11, A12, A13, A14, A15, A16, A17, A18, A19, A20,
        A21, A22, A23, A24, A25,
    ) -> RetsAsResult + 'static + Send,
{
    type Error = RetsAsResult::Error;

    open spec fn accepts(
        &self,
        env: (),
        args: (
            A1, A2, A3, A4, A5, A6, A7, A8, A9, A10, A11, A12, A13, A14, A15, A16, A17, A18, A19,
            A20, A21, A22, A23, A24, A25,
        ),
    ) -> bool {
        call_requires(
            *self,
            (
                args.0, args.1, args.2, args.3, args.4, args.5, args.6, args.7, args.8, args.9,
                args.10, args.11, args.12, args.13, args.14, args.15, args.16, args.17, args.18,
                args.19, args.20, args.21, args.22, args.23, args.24,
            ),
        )
    }

    open spec fn may_return(
        &self,
        env: &mut (),
        args: (
            A1, A2, A3, A4, A5, A6, A7, A8, A9, A10, A11, A12, A13, A14, A15, A16, A17, A18, A19,
            A20, A21, A22, A23, A24, A25,
        ),
        r: Result<Rets, RetsAsResult::Error>,
    ) -> bool {
        exists|out: RetsAsResult|
            call_ensures(
                *self,
                (
                    args.0, args.1, args.2, args.3, args.4, args.5, args.6, args.7, args.8, args.9,
                    args.10, args.11, args.12, args.13, args.14, args.15, args.16, args.17, args.18,
                    args.19, args.20, args.21, args.22, args.23, args.24,
                ),
                out,
            ) && r == out.into_result_spec()
    }

    fn call(
        &self,
        env: &mut (),
        args: (
            A1, A2, A3, A4, A5, A6, A7, A8, A9, A10, A11, A12, A13, A14, A15, A16, A17, A18, A19,
            A20, A21, A22, A23, A24, A25,
        ),
    ) -> (r: Result<Rets, RetsAsResult::Error>) {
        let (
            a1, a2, a3, a4, a5, a6, a7, a8, a9, a10, a11, a12, a13, a14, a15, a16, a17, a18, a19,
            a20, a21, a22, a23, a24, a25,
        ) = args;
        let r = self(
            a1, a2, a3, a4, a5, a6, a7, a8, a9, a10, a11, a12, a13, a14, a15, a16, a17, a18, a19,
            a20, a21, a22, a23, a24, a25,
        ).into_result();
        proof {
            assert(self.may_return(old(env), args, r));
        }
        r
    }
}

/// What calling a closure of twenty-five parameters as a host function asks and promises,
/// said of the closure itself.
pub proof fn lemma_host_function_25<
    A1, A2, A3, A4, A5, A6, A7, A8, A9, A10, A11, A12, A13, A14, A15, A16, A17, A18, A19, A20, A21,
    A22, A23, A24, A25, Rets, RetsAsResult, Func,
>(
    func: Func,
    env: (),
    args: (
        A1, A2, A3, A4, A5, A6, A7, A8, A9, A10, A11, A12, A13, A14, A15, A16, A17, A18, A19, A20,
        A21, A22, A23, A24, A25,
    ),
    r: Result<Rets, RetsAsResult::Error>,
) where
    A1: WasmExternType,
    A2: WasmExternType,
    A3: WasmExternType,
    A4: WasmExternType,
    A5: WasmExternType,
    A6: WasmExternType,
    A7: WasmExternType,
    A8: WasmExternType,
    A9: WasmExternType,
    A10: WasmExternType,
    A11: WasmExternType,
    A12: WasmExternType,
    A13: WasmExternType,
    A14: WasmExternType,
    A15: WasmExternType,
    A16: WasmExternType,
    A17: WasmExternType,
    A18: WasmExternType,
    A19: WasmExternType,
    A20: WasmExternType,
    A21: WasmExternType,
    A22: WasmExternType,
    A23: WasmExternType,
    A24: WasmExternType,
    A25: WasmExternType,
    Rets: WasmTypeList,
    RetsAsResult: IntoResult<Rets>,
    Func: Fn(
        A1, A2, A3, A4, A5, A6, A7, A8, A9, A10, A11, A12, A13, A14, A15, A16, A17, A18, A19, A20,
        A21, A22, A23, A24, A25,
    ) -> RetsAsResult + 'static + Send,

    ensures
        HostFunction::<
            (
                A1, A2, A3, A4, A5, A6, A7, A8, A9, A10, A11, A12, A13, A14, A15, A16, A17, A18,
                A19, A20, A21, A22, A23, A24, A25,
            ),
            Rets,
            WithoutEnv,
            (),
        >::accepts(&func, env, args)
            <==> call_requires(
                func,
                (
                    args.0, args.1, args.2, args.3, args.4, args.5, args.6, args.7, args.8, args.9,
                    args.10, args.11, args.12, args.13, args.14, args.15, args.16, args.17, args.18,
                    args.19, args.20, args.21, args.22, args.23, args.24,
                ),
            ),
        forall|given: &mut ()|
            #[trigger] HostFunction::<
                (
                    A1, A2, A3, A4, A5, A6, A7, A8, A9, A10, A11, A12, A13, A14, A15, A16, A17, A18,
                    A19, A20, A21, A22, A23, A24, A25,
                ),
                Rets,
                WithoutEnv,
                (),
            >::may_return(&func, given, args, r)
                <==> exists|out: RetsAsResult|
                    call_ensures(
                        func,
                        (
                            args.0, args.1, args.2, args.3, args.4, args.5, args.6, args.7, args.8,
                            args.9, args.10, args.11, args.12, args.13, args.14, args.15, args.16,
                            args.17, args.18, args.19, args.20, args.21, args.22, args.23, args.24,
                        ),
                        out,
                    ) && r == out.into_result_spec(),
{
}

/// A closure of an environment and twenty-five parameters is a host function with an
/// environment.
impl<
    A1, A2, A3, A4, A5, A6, A7, A8, A9, A10, A11, A12, A13, A14, A15, A16, A17, A18, A19, A20, A21,
    A22, A23, A24, A25, Rets, RetsAsResult, Env, Func,
> HostFunction<
    (
        A1, A2, A3, A4, A5, A6, A7, A8, A9, A10, A11, A12, A13, A14, A15, A16, A17, A18, A19, A20,
        A21, A22, A23, A24, A25,
    ),
    Rets,
    WithEnv,
    Env,
> for Func where
    A1: WasmExternType,
    A2: WasmExternType,
    A3: WasmExternType,
    A4: WasmExternType,
    A5: WasmExternType,
    A6: WasmExternType,
    A7: WasmExternType,
    A8: WasmExternType,
    A9: WasmExternType,
    A10: WasmExternType,
    A11: WasmExternType,
    A12: WasmExternType,
    A13: WasmExternType,
    A14: WasmExternType,
    A15: WasmExternType,
    A16: WasmExternType,
    A17: WasmExternType,
    A18: WasmExternType,
    A19: WasmExternType,
    A20: WasmExternType,
    A21: WasmExternType,
    A22: WasmExternType,
    A23: WasmExternType,
    A24: WasmExternType,
    A25: WasmExternType,
    Rets: WasmTypeList,
    RetsAsResult: IntoResult<Rets>,
    Env: Sized,
    Func: Fn(
        &mut Env, A1, A2, A3, A4, A5, A6, A7, A8, A9, A10, A11, A12, A13, A14, A15, A16, A17, A18,
        A19, A20, A21, A22, A23, A24, A25,
    ) -> RetsAsResult + Send + 'static,
{
    type Error = RetsAsResult::Error;

    open spec fn accepts(
        &self,
        env: Env,
        args: (
            A1, A2, A3, A4, A5, A6, A7, A8, A9, A10, A11, A12, A13, A14, A15, A16, A17, A18, A19,
            A20, A21, A22, A23, A24, A25,
        ),
    ) -> bool {
        forall|given: &mut Env|
            *given == env ==> call_requires(
                *self,
                (
                    given, args.0, args.1, args.2, args.3, args.4, args.5, args.6, args.7, args.8,
                    args.9, args.10, args.11, args.12, args.13, args.14, args.15, args.16, args.17,
                    args.18, args.19, args.20, args.21, args.22, args.23, args.24,
                ),
            )
    }

    open spec fn may_return(
        &self,
        env: &mut Env,
        args: (
            A1, A2, A3, A4, A5, A6, A7, A8, A9, A10, A11, A12, A13, A14, A15, A16, A17, A18, A19,
            A20, A21, A22, A23, A24, A25,
        ),
        r: Result<Rets, RetsAsResult::Error>,
    ) -> bool {
        exists|out: RetsAsResult|
            call_ensures(
                *self,
                (
                    env, args.0, args.1, args.2, args.3, args.4, args.5, args.6, args.7, args.8,
                    args.9, args.10, args.11, args.12, args.13, args.14, args.15, args.16, args.17,
                    args.18, args.19, args.20, args.21, args.22, args.23, args.24,
                ),
                out,
            ) && r == out.into_result_spec()
    }

    fn call(
        &self,
        env: &mut Env,
        args: (
            A1, A2, A3, A4, A5, A6, A7, A8, A9, A10, A11, A12, A13, A14, A15, A16, A17, A18, A19,
            A20, A21, A22, A23, A24, A25,
        ),
    ) -> (r: Result<Rets, RetsAsResult::Error>) {
        let (
            a1, a2, a3, a4, a5, a6, a7, a8, a9, a10, a11, a12, a13, a14, a15, a16, a17, a18, a19,
            a20, a21, a22, a23, a24, a25,
        ) = args;
        let ghost before = *env;
        let out = self(
            env, a1, a2, a3, a4, a5, a6, a7, a8, a9, a10, a11, a12, a13, a14, a15, a16, a17, a18,
            a19, a20, a21, a22, a23, a24, a25,
        );
        let r = out.into_result();
        proof {
            let given = choose|given: &mut Env|
                {
                    &&& *given == before
                    &&& *final(given) == *env
                    &&& call_ensures(
                        *self,
                        (
                            given, a1, a2, a3, a4, a5, a6, a7, a8, a9, a10, a11, a12, a13, a14, a15,
                            a16, a17, a18, a19, a20, a21, a22, a23, a24, a25,
                        ),
                        out,
                    )
                };
            assert(self.may_return(given, args, r));
        }
        r
    }
}

/// What calling a closure of an environment and twenty-five parameters as a host function
/// asks and promises, said of the closure itself.
pub proof fn lemma_host_function_env_25<
    A1, A2, A3, A4, A5, A6, A7, A8, A9, A10, A11, A12, A13, A14, A15, A16, A17, A18, A19, A20, A21,
    A22, A23, A24, A25, Rets, RetsAsResult, Env, Func,
>(
    func: Func,
    env: Env,
    args: (
        A1, A2, A3, A4, A5, A6, A7, A8, A9, A10, A11, A12, A13, A14, A15, A16, A17, A18, A19, A20,
        A21, A22, A23, A24, A25,
    ),
    r: Result<Rets, RetsAsResult::Error>,
) where
    A1: WasmExternType,
    A2: WasmExternType,
    A3: WasmExternType,
    A4: WasmExternType,
    A5: WasmExternType,
    A6: WasmExternType,
    A7: WasmExternType,
    A8: WasmExternType,
    A9: WasmExternType,
    A10: WasmExternType,
    A11: WasmExternType,
    A12: WasmExternType,
    A13: WasmExternType,
    A14: WasmExternType,
    A15: WasmExternType,
    A16: WasmExternType,
    A17: WasmExternType,
    A18: WasmExternType,
    A19: WasmExternType,
    A20: WasmExternType,
    A21: WasmExternType,
    A22: WasmExternType,
    A23: WasmExternType,
    A24: WasmExternType,
    A25: WasmExternType,
    Rets: WasmTypeList,
    RetsAsResult: IntoResult<Rets>,
    Env: Sized,
    Func: Fn(
        &mut Env, A1, A2, A3, A4, A5, A6, A7, A8, A9, A10, A11, A12, A13, A14, A15, A16, A17, A18,
        A19, A20, A21, A22, A23, A24, A25,
    ) -> RetsAsResult + Send + 'static,

    ensures
        HostFunction::<
            (
                A1, A2, A3, A4, A5, A6, A7, A8, A9, A10, A11, A12, A13, A14, A15, A16, A17, A18,
                A19, A20, A21, A22, A23, A24, A25,
            ),
            Rets,
            WithEnv,
            Env,
        >::accepts(&func, env, args)
            <==> forall|given: &mut Env|
                *given == env ==> call_requires(
                    func,
                    (
                        given, args.0, args.1, args.2, args.3, args.4, args.5, args.6, args.7,
                        args.8, args.9, args.10, args.11, args.12, args.13, args.14, args.15,
                        args.16, args.17, args.18, args.19, args.20, args.21, args.22, args.23,
                        args.24,
                    ),
                ),
        forall|given: &mut Env|
            #[trigger] HostFunction::<
                (
                    A1, A2, A3, A4, A5, A6, A7, A8, A9, A10, A11, A12, A13, A14, A15, A16, A17, A18,
                    A19, A20, A21, A22, A23, A24, A25,
                ),
                Rets,
                WithEnv,
                Env,
            >::may_return(&func, given, args, r)
                <==> exists|out: RetsAsResult|
                    call_ensures(
                        func,
                        (
                            given, args.0, args.1, args.2, args.3, args.4, args.5, args.6, args.7,
                            args.8, args.9, args.10, args.11, args.12, args.13, args.14, args.15,
                            args.16, args.17, args.18, args.19, args.20, args.21, args.22, args.23,
                            args.24,
                        ),
                        out,
                    ) && r == out.into_result_spec(),
{
}

/// A closure of twenty-six parameters is a host function without an environment.
impl<
    A1, A2, A3, A4, A5, A6, A7, A8, A9, A10, A11, A12, A13, A14, A15, A16, A17, A18, A19, A20, A21,
    A22, A23, A24, A25, A26, Rets, RetsAsResult, Func,
> HostFunction<
    (
        A1, A2, A3, A4, A5, A6, A7, A8, A9, A10, A11, A12, A13, A14, A15, A16, A17, A18, A19, A20,
        A21, A22, A23, A24, A25, A26,
    ),
    Rets,
    WithoutEnv,
    (),
> for Func where
    A1: WasmExternType,
    A2: WasmExternType,
    A3: WasmExternType,
    A4: WasmExternType,
    A5: WasmExternType,
    A6: WasmExternType,
    A7: WasmExternType,
    A8: WasmExternType,
    A9: WasmExternType,
    A10: WasmExternType,
    A11: WasmExternType,
    A12: WasmExternType,
    A13: WasmExternType,
    A14: WasmExternType,
    A15: WasmExternType,
    A16: WasmExternType,
    A17: WasmExternType,
    A18: WasmExternType,
    A19: WasmExternType,
    A20: WasmExternType,
    A21: WasmExternType,
    A22: WasmExternType,
    A23: WasmExternType,
    A24: WasmExternType,
    A25: WasmExternType,
    A26: WasmExternType,
    Rets: WasmTypeList,
    RetsAsResult: IntoResult<Rets>,
    Func: Fn(
        A1, A2, A3, A4, A5, A6, A7, A8, A9, A10, A11, A12, A13, A14, A15, A16, A17, A18, A19, A20,
        A21, A22, A23, A24, A25, A26,
    ) -> RetsAsResult + 'static + Send,
{
    type Error = RetsAsResult::Error;

    open spec fn accepts(
        &self,
        env: (),
        args: (
            A1, A2, A3, A4, A5, A6, A7, A8, A9, A10, A11, A12, A13, A14, A15, A16, A17, A18, A19,
            A20, A21, A22, A23, A24, A25, A26,
        ),
    ) -> bool {
        call_requires(
            *self,
            (
                args.0, args.1, args.2, args.3, args.4, args.5, args.6, args.7, args.8, args.9,
                args.10, args.11, args.12, args.13, args.14, args.15, args.16, args.17, args.18,
                args.19, args.20, args.21, args.22, args.23, args.24, args.25,
            ),
        )
    }

    open spec fn may_return(
        &self,
        env: &mut (),
        args: (
            A1, A2, A3, A4, A5, A6, A7, A8, A9, A10, A11, A12, A13, A14, A15, A16, A17, A18, A19,
            A20, A21, A22, A23, A24, A25, A26,
        ),
        r: Result<Rets, RetsAsResult::Error>,
    ) -> bool {
        exists|out: RetsAsResult|
            call_ensures(
                *self,
                (
                    args.0, args.1, args.2, args.3, args.4, args.5, args.6, args.7, args.8, args.9,
                    args.10, args.11, args.12, args.13, args.14, args.15, args.16, args.17, args.18,
                    args.19, args.20, args.21, args.22, args.23, args.24, args.25,
                ),
                out,
            ) && r == out.into_result_spec()
    }

    fn call(
        &self,
        env: &mut (),
        args: (
            A1, A2, A3, A4, A5, A6, A7, A8, A9, A10, A11, A12, A13, A14, A15, A16, A17, A18, A19,
            A20, A21, A22, A23, A24, A25, A26,
        ),
    ) -> (r: Result<Rets, RetsAsResult::Error>) {
        let (
            a1, a2, a3, a4, a5, a6, a7, a8, a9, a10, a11, a12, a13, a14, a15, a16, a17, a18, a19,
            a20, a21, a22, a23, a24, a25, a26,
        ) = args;
        let r = self(
            a1, a2, a3, a4, a5, a6, a7, a8, a9, a10, a11, a12, a13, a14, a15, a16, a17, a18, a19,
            a20, a21, a22, a23, a24, a25, a26,
        ).into_result();
        proof {
            assert(self.may_return(old(env), args, r));
        }
        r
    }
}

/// What calling a closure of twenty-six parameters as a host function asks and promises,
/// said of the closure itself.
pub proof fn lemma_host_function_26<
    A1, A2, A3, A4, A5, A6, A7, A8, A9, A10, A11, A12, A13, A14, A15, A16, A17, A18, A19, A20, A21,
    A22, A23, A24, A25, A26, Rets, RetsAsResult, Func,
>(
    func: Func,
    env: (),
    args: (
        A1, A2, A3, A4, A5, A6, A7, A8, A9, A10, A11, A12, A13, A14, A15, A16, A17, A18, A19, A20,
        A21, A22, A23, A24, A25, A26,
    ),
    r: Result<Rets, RetsAsResult::Error>,
) where
    A1: WasmExternType,
    A2: WasmExternType,
    A3: WasmExternType,
    A4: WasmExternType,
    A5: WasmExternType,
    A6: WasmExternType,
    A7: WasmExternType,
    A8: WasmExternType,
    A9: WasmExternType,
    A10: WasmExternType,
    A11: WasmExternType,
    A12: WasmExternType,
    A13: WasmExternType,
    A14: WasmExternType,
    A15: WasmExternType,
    A16: WasmExternType,
    A17: WasmExternType,
    A18: WasmExternType,
    A19: WasmExternType,
    A20: WasmExternType,
    A21: WasmExternType,
    A22: WasmExternType,
    A23: WasmExternType,
    A24: WasmExternType,
    A25: WasmExternType,
    A26: WasmExternType,
    Rets: WasmTypeList,
    RetsAsResult: IntoResult<Rets>,
    Func: Fn(
        A1, A2, A3, A4, A5, A6, A7, A8, A9, A10, A11, A12, A13, A14, A15, A16, A17, A18, A19, A20,
        A21, A22, A23, A24, A25, A26,
    ) -> RetsAsResult + 'static + Send,

    ensures
        HostFunction::<
            (
                A1, A2, A3, A4, A5, A6, A7, A8, A9, A10, A11, A12, A13, A14, A15, A16, A17, A18,
                A19, A20, A21, A22, A23, A24, A25, A26,
            ),
            Rets,
            WithoutEnv,
            (),
        >::accepts(&func, env, args)
            <==> call_requires(
                func,
                (
                    args.0, args.1, args.2, args.3, args.4, args.5, args.6, args.7, args.8, args.9,
                    args.10, args.11, args.12, args.13, args.14, args.15, args.16, args.17, args.18,
                    args.19, args.20, args.21, args.22, args.23, args.24, args.25,
                ),
            ),
        forall|given: &mut ()|
            #[trigger] HostFunction::<
                (
                    A1, A2, A3, A4, A5, A6, A7, A8, A9, A10, A11, A12, A13, A14, A15, A16, A17, A18,
                    A19, A20, A21, A22, A23, A24, A25, A26,
                ),
                Rets,
                WithoutEnv,
                (),
            >::may_return(&func, given, args, r)
                <==> exists|out: RetsAsResult|
                    call_ensures(
                        func,
                        (
                            args.0, args.1, args.2, args.3, args.4, args.5, args.6, args.7, args.8,
                            args.9, args.10, args.11, args.12, args.13, args.14, args.15, args.16,
                            args.17, args.18, args.19, args.20, args.21, args.22, args.23, args.24,
                            args.25,
                        ),
                        out,
                    ) && r == out.into_result_spec(),
{
}

/// A closure of an environment and twenty-six parameters is a host function with an
/// environment.
impl<
    A1, A2, A3, A4, A5, A6, A7, A8, A9, A10, A11, A12, A13, A14, A15, A16, A17, A18, A19, A20, A21,
    A22, A23, A24, A25, A26, Rets, RetsAsResult, Env, Func,
> HostFunction<
    (
        A1, A2, A3, A4, A5, A6, A7, A8, A9, A10, A11, A12, A13, A14, A15, A16, A17, A18, A19, A20,
        A21, A22, A23, A24, A25, A26,
    ),
    Rets,
    WithEnv,
    Env,
> for Func where
    A1: WasmExternType,
    A2: WasmExternType,
    A3: WasmExternType,
    A4: WasmExternType,
    A5: WasmExternType,
    A6: WasmExternType,
    A7: WasmExternType,
    A8: WasmExternType,
    A9: WasmExternType,
    A10: WasmExternType,
    A11: WasmExternType,
    A12: WasmExternType,
    A13: WasmExternType,
    A14: WasmExternType,
    A15: WasmExternType,
    A16: WasmExternType,
    A17: WasmExternType,
    A18: WasmExternType,
    A19: WasmExternType,
    A20: WasmExternType,
    A21: WasmExternType,
    A22: WasmExternType,
    A23: WasmExternType,
    A24: WasmExternType,
    A25: WasmExternType,
    A26: WasmExternType,
    Rets: WasmTypeList,
    RetsAsResult: IntoResult<Rets>,
    Env: Sized,
    Func: Fn(
        &mut Env, A1, A2, A3, A4, A5, A6, A7, A8, A9, A10, A11, A12, A13, A14, A15, A16, A17, A18,
        A19, A20, A21, A22, A23, A24, A25, A26,
    ) -> RetsAsResult + Send + 'static,
{
    type Error = RetsAsResult::Error;

    open spec fn accepts(
        &self,
        env: Env,
        args: (
            A1, A2, A3, A4, A5, A6, A7, A8, A9, A10, A11, A12, A13, A14, A15, A16, A17, A18, A19,
            A20, A21, A22, A23, A24, A25, A26,
        ),
    ) -> bool {
        forall|given: &mut Env|
            *given == env ==> call_requires(
                *self,
                (
                    given, args.0, args.1, args.2, args.3, args.4, args.5, args.6, args.7, args.8,
                    args.9, args.10, args.11, args.12, args.13, args.14, args.15, args.16, args.17,
                    args.18, args.19, args.20, args.21, args.22, args.23, args.24, args.25,
                ),
            )
    }

    open spec fn may_return(
        &self,
        env: &mut Env,
        args: (
            A1, A2, A3, A4, A5, A6, A7, A8, A9, A10, A11, A12, A13, A14, A15, A16, A17, A18, A19,
            A20, A21, A22, A23, A24, A25, A26,
        ),
        r: Result<Rets, RetsAsResult::Error>,
    ) -> bool {
        exists|out: RetsAsResult|
            call_ensures(
                *self,
                (
                    env, args.0, args.1, args.2, args.3, args.4, args.5, args.6, args.7, args.8,
                    args.9, args.10, args.11, args.12, args.13, args.14, args.15, args.16, args.17,
                    args.18, args.19, args.20, args.21, args.22, args.23, args.24, args.25,
                ),
                out,
            ) && r == out.into_result_spec()
    }

    fn call(
        &self,
        env: &mut Env,
        args: (
            A1, A2, A3, A4, A5, A6, A7, A8, A9, A10, A11, A12, A13, A14, A15, A16, A17, A18, A19,
            A20, A21, A22, A23, A24, A25, A26,
        ),
    ) -> (r: Result<Rets, RetsAsResult::Error>) {
        let (
            a1, a2, a3, a4, a5, a6, a7, a8, a9, a10, a11, a12, a13, a14, a15, a16, a17, a18, a19,
            a20, a21, a22, a23, a24, a25, a26,
        ) = args;
        let ghost before = *env;
        let out = self(
            env, a1, a2, a3, a4, a5, a6, a7, a8, a9, a10, a11, a12, a13, a14, a15, a16, a17, a18,
            a19, a20, a21, a22, a23, a24, a25, a26,
        );
        let r = out.into_result();
        proof {
            let given = choose|given: &mut Env|
                {
                    &&& *given == before
                    &&& *final(given) == *env
                    &&& call_ensures(
                        *self,
                        (
                            given, a1, a2, a3, a4, a5, a6, a7, a8, a9, a10, a11, a12, a13, a14, a15,
                            a16, a17, a18, a19, a20, a21, a22, a23, a24, a25, a26,
                        ),
                        out,
                    )
                };
            assert(self.may_return(given, args, r));
        }
        r
    }
}

/// What calling a closure of an environment and twenty-six parameters as a host function
/// asks and promises, said of the closure itself.
pub proof fn lemma_host_function_env_26<
    A1, A2, A3, A4, A5, A6, A7, A8, A9, A10, A11, A12, A13, A14, A15, A16, A17, A18, A19, A20, A21,
    A22, A23, A24, A25, A26, Rets, RetsAsResult, Env, Func,
>(
    func: Func,
    env: Env,
    args: (
        A1, A2, A3, A4, A5, A6, A7, A8, A9, A10, A11, A12, A13, A14, A15, A16, A17, A18, A19, A20,
        A21, A22, A23, A24, A25, A26,
    ),
    r: Result<Rets, RetsAsResult::Error>,
) where
    A1: WasmExternType,
    A2: WasmExternType,
    A3: WasmExternType,
    A4: WasmExternType,
    A5: WasmExternType,
    A6: WasmExternType,
    A7: WasmExternType,
    A8: WasmExternType,
    A9: WasmExternType,
    A10: WasmExternType,
    A11: WasmExternType,
    A12: WasmExternType,
    A13: WasmExternType,
    A14: WasmExternType,
    A15: WasmExternType,
    A16: WasmExternType,
    A17: WasmExternType,
    A18: WasmExternType,
    A19: WasmExternType,
    A20: WasmExternType,
    A21: WasmExternType,
    A22: WasmExternType,
    A23: WasmExternType,
    A24: WasmExternType,
    A25: WasmExternType,
    A26: WasmExternType,
    Rets: WasmTypeList,
    RetsAsResult: IntoResult<Rets>,
    Env: Sized,
    Func: Fn(
        &mut Env, A1, A2, A3, A4, A5, A6, A7, A8, A9, A10, A11, A12, A13, A14, A15, A16, A17, A18,
        A19, A20, A21, A22, A23, A24, A25, A26,
    ) -> RetsAsResult + Send + 'static,

    ensures
        HostFunction::<
            (
                A1, A2, A3, A4, A5, A6, A7, A8, A9, A10, A11, A12, A13, A14, A15, A16, A17, A18,
                A19, A20, A21, A22, A23, A24, A25, A26,
            ),
            Rets,
            WithEnv,
            Env,
        >::accepts(&func, env, args)
            <==> forall|given: &mut Env|
                *given == env ==> call_requires(
                    func,
                    (
                        given, args.0, args.1, args.2, args.3, args.4, args.5, args.6, args.7,
                        args.8, args.9, args.10, args.11, args.12, args.13, args.14, args.15,
                        args.16, args.17, args.18, args.19, args.20, args.21, args.22, args.23,
                        args.24, args.25,
                    ),
                ),
        forall|given: &mut Env|
            #[trigger] HostFunction::<
                (
                    A1, A2, A3, A4, A5, A6, A7, A8, A9, A10, A11, A12, A13, A14, A15, A16, A17, A18,
                    A19, A20, A21, A22, A23, A24, A25, A26,
                ),
                Rets,
                WithEnv,
                Env,
            >::may_return(&func, given, args, r)
                <==> exists|out: RetsAsResult|
                    call_ensures(
                        func,
                        (
                            given, args.0, args.1, args.2, args.3, args.4, args.5, args.6, args.7,
                            args.8, args.9, args.10, args.11, args.12, args.13, args.14, args.15,
                            args.16, args.17, args.18, args.19, args.20, args.21, args.22, args.23,
                            args.24, args.25,
                        ),
                        out,
                    ) && r == out.into_result_spec(),
{
}

} // verus!
