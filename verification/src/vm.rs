//! What the engine knows of a function: where its code starts, what context it is entered
//! with, and the thunk through which native code enters guest code.

use crate::dynamic::{VMDynamicFunction, VMDynamicFunctionContext};
use crate::types::{FunctionType, RuntimeError};
use vstd::prelude::*;

verus! {

/// Whether the signature of a function was fixed by the types of a closure or handed over as
/// data.
#[derive(Clone, Copy, Debug, PartialEq, Eq, Structural)]
pub enum VMFunctionKind {
    /// The function is entered with one native argument for each parameter.
    Static,
    /// The function is entered with a frame of slots.
    Dynamic,
}

/// Where the code of a function starts.
#[derive(Clone, Copy, Debug, PartialEq, Eq, Hash, Structural)]
pub enum VMFunctionBody {
    /// Nowhere yet: the function waits for the linker to install its entry.
    Null,
    /// At the wrapper that enters a static host closure with native arguments.
    StaticWrapper,
    /// At the one wrapper that enters every dynamic function with a frame.
    DynamicWrapper,
    /// At compiled guest code, under an address that only the engine reads.
    Guest(usize),
}

/// A dynamic function of the environment `E` whose closure is no longer known by its type.
pub type VMDynamicFunctionBox<E = ()> = Box<dyn VMDynamicFunction<E>>;

/// What a function is entered with besides its arguments. `E` is the environment of a host
/// function, `C` the dynamic function that the context of a dynamic function holds.
pub enum VMContext<E = (), C = VMDynamicFunctionBox<E>> {
    /// Nothing.
    Null,
    /// The environment of a static host function, which the function owns.
    Environment(Box<E>),
    /// The closure and the signature of a dynamic host function.
    Dynamic(Box<VMDynamicFunctionContext<C>>),
    /// The context of the instance that a guest function belongs to, under a handle that
    /// only the engine reads. The instance owns it.
    Instance(usize),
}

/// A function as the engine sees it.
pub struct ExportFunction<E = (), C = VMDynamicFunctionBox<E>> {
    /// Where the code starts.
    pub address: VMFunctionBody,
    /// What the code is entered with.
    pub vmctx: VMContext<E, C>,
    /// The signature that the function was declared with.
    pub signature: FunctionType,
    /// How the function is entered.
    pub kind: VMFunctionKind,
}

/// A function as a table holds it: its code, its context, and the index under which the
/// engine knows its signature.
pub struct VMCallerCheckedAnyfunc<'a, E = (), C = VMDynamicFunctionBox<E>> {
    pub func_ptr: VMFunctionBody,
    pub type_index: u32,
    pub vmctx: &'a VMContext<E, C>,
}

/// The thunk of one signature. Entered with the context and the code of a guest function and
/// with a frame that holds the arguments, it runs the code and gives the frame back with the
/// results in it.
pub trait Trampoline {
    /// Whether a call with these arguments may end with `r`.
    spec fn may_return(
        &self,
        vmctx: &VMContext,
        address: VMFunctionBody,
        frame: Seq<i128>,
        r: Result<Vec<i128>, RuntimeError>,
    ) -> bool;

    /// Runs the code at `address`. The frame that comes back is as long as the one that went
    /// in.
    fn call(&self, vmctx: &VMContext, address: VMFunctionBody, frame: Vec<i128>) -> (r: Result<
        Vec<i128>,
        RuntimeError,
    >)
        ensures
            self.may_return(vmctx, address, frame@, r),
            r matches Ok(out) ==> out@.len() == frame@.len(),
    ;
}

/// A thunk whose closure is no longer known by its type.
pub type VMTrampoline = Box<dyn Trampoline>;

impl Trampoline for Box<dyn Trampoline> {
    open spec fn may_return(
        &self,
        vmctx: &VMContext,
        address: VMFunctionBody,
        frame: Seq<i128>,
        r: Result<Vec<i128>, RuntimeError>,
    ) -> bool {
        (**self).may_return(vmctx, address, frame, r)
    }

    fn call(&self, vmctx: &VMContext, address: VMFunctionBody, frame: Vec<i128>) -> (r: Result<
        Vec<i128>,
        RuntimeError,
    >) {
        (**self).call(vmctx, address, frame)
    }
}

/// Whether `func` can be entered with every frame and gives back a frame of the same length.
pub open spec fn is_thunk<F>(func: F) -> bool where
    F: Fn(&VMContext, VMFunctionBody, Vec<i128>) -> Result<Vec<i128>, RuntimeError>,
 {
    &&& forall|vmctx: &VMContext, address: VMFunctionBody, frame: Vec<i128>|
        call_requires(func, (vmctx, address, frame))
    &&& forall|vmctx: &VMContext, address: VMFunctionBody, frame: Vec<i128>, out: Vec<i128>|
        call_ensures(func, (vmctx, address, frame), Ok::<Vec<i128>, RuntimeError>(out))
            ==> out@.len() == frame@.len()
}

/// A trampoline made of a closure.
pub struct FnTrampoline<F> where
    F: Fn(&VMContext, VMFunctionBody, Vec<i128>) -> Result<Vec<i128>, RuntimeError>,
 {
    func: F,
}

impl<F> FnTrampoline<F> where
    F: Fn(&VMContext, VMFunctionBody, Vec<i128>) -> Result<Vec<i128>, RuntimeError>,
 {
    #[verifier::type_invariant]
    spec fn inv(self) -> bool {
        is_thunk(self.func)
    }

    /// The closure that the trampoline runs.
    pub closed spec fn func(self) -> F {
        self.func
    }

    /// Whether this is the trampoline that runs `func`: a call of it may end with whatever a
    /// call of `func` with the same context, the same address and the same frame may end
    /// with, and with nothing else.
    pub open spec fn runs(self, func: F) -> bool {
        &&& self.func() == func
        &&& forall|
            vmctx: &VMContext,
            address: VMFunctionBody,
            frame: Seq<i128>,
            r: Result<Vec<i128>, RuntimeError>,
        |
            #[trigger] self.may_return(vmctx, address, frame, r) <==> exists|given: Vec<i128>|
                given@ == frame && call_ensures(func, (vmctx, address, given), r)
    }

    /// The trampoline that runs `func`.
    pub fn new(func: F) -> (trampoline: Self)
        requires
            is_thunk(func),
        ensures
            trampoline.runs(func),
    {
        FnTrampoline { func }
    }
}

impl<F> Trampoline for FnTrampoline<F> where
    F: Fn(&VMContext, VMFunctionBody, Vec<i128>) -> Result<Vec<i128>, RuntimeError>,
 {
    open spec fn may_return(
        &self,
        vmctx: &VMContext,
        address: VMFunctionBody,
        frame: Seq<i128>,
        r: Result<Vec<i128>, RuntimeError>,
    ) -> bool {
        exists|given: Vec<i128>|
            given@ == frame && call_ensures(self.func(), (vmctx, address, given), r)
    }

    fn call(&self, vmctx: &VMContext, address: VMFunctionBody, frame: Vec<i128>) -> (r: Result<
        Vec<i128>,
        RuntimeError,
    >) {
        proof {
            use_type_invariant(self);
        }
        (self.func)(vmctx, address, frame)
    }
}

} // verus!
