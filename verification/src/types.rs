//! Value types, values, function types and the failures of a call.

use vstd::prelude::*;
use vstd::std_specs::cmp::PartialEqSpecImpl;

verus! {

/// The type of a scalar value that can cross a call.
#[derive(Clone, Copy, Debug, PartialEq, Eq, Hash, Structural)]
pub enum Type {
    /// Signed 32-bit integer.
    I32,
    /// Signed 64-bit integer.
    I64,
    /// 32-bit float.
    F32,
    /// 64-bit float.
    F64,
}

/// A 32-bit float, held by its bit pattern so that every payload survives.
#[derive(Clone, Copy, Debug, PartialEq, Eq, Hash, Structural)]
pub struct F32(pub u32);

/// A 64-bit float, held by its bit pattern so that every payload survives.
#[derive(Clone, Copy, Debug, PartialEq, Eq, Hash, Structural)]
pub struct F64(pub u64);

impl F32 {
    /// The float with the given bit pattern.
    pub fn from_bits(bits: u32) -> (r: Self)
        ensures
            r == F32(bits),
    {
        F32(bits)
    }

    /// The bit pattern of the float.
    pub fn to_bits(self) -> (bits: u32)
        ensures
            bits == self.0,
    {
        self.0
    }
}

impl F64 {
    /// The float with the given bit pattern.
    pub fn from_bits(bits: u64) -> (r: Self)
        ensures
            r == F64(bits),
    {
        F64(bits)
    }

    /// The bit pattern of the float.
    pub fn to_bits(self) -> (bits: u64)
        ensures
            bits == self.0,
    {
        self.0
    }
}

/// A scalar value together with its type.
#[derive(Clone, Copy, Debug, PartialEq, Eq, Structural)]
pub enum Val {
    /// A signed 32-bit integer.
    I32(i32),
    /// A signed 64-bit integer.
    I64(i64),
    /// A 32-bit float.
    F32(F32),
    /// A 64-bit float.
    F64(F64),
}

impl Val {
    /// The type of the value.
    pub open spec fn ty_spec(&self) -> Type {
        match self {
            Val::I32(_) => Type::I32,
            Val::I64(_) => Type::I64,
            Val::F32(_) => Type::F32,
            Val::F64(_) => Type::F64,
        }
    }

    /// The type of the value.
    #[verifier::when_used_as_spec(ty_spec)]
    pub fn ty(&self) -> (t: Type)
        ensures
            t == self.ty_spec(),
    {
        match self {
            Val::I32(_) => Type::I32,
            Val::I64(_) => Type::I64,
            Val::F32(_) => Type::F32,
            Val::F64(_) => Type::F64,
        }
    }
}

/// The types of a sequence of values, position by position.
pub open spec fn value_types(vals: Seq<Val>) -> Seq<Type> {
    Seq::new(vals.len(), |i: int| vals[i].ty_spec())
}

/// The types of `vals`, position by position.
pub fn types_of(vals: &[Val]) -> (types: Vec<Type>)
    ensures
        types@ == value_types(vals@),
{
    let mut types: Vec<Type> = Vec::new();
    let mut i: usize = 0;
    while i < vals.len()
        invariant
            i <= vals@.len(),
            types@.len() == i,
            forall|j: int| 0 <= j < i ==> types@[j] == vals@[j].ty_spec(),
        decreases vals@.len() - i,
    {
        types.push(vals[i].ty());
        i += 1;
    }
    proof {
        assert(types@ =~= value_types(vals@));
    }
    types
}

/// Whether two lists of types hold the same types in the same order.
pub fn same_types(a: &[Type], b: &[Type]) -> (same: bool)
    ensures
        same == (a@ == b@),
{
    if a.len() != b.len() {
        return false;
    }
    let mut i: usize = 0;
    while i < a.len()
        invariant
            a@.len() == b@.len(),
            i <= a@.len(),
            forall|j: int| 0 <= j < i ==> a@[j] == b@[j],
        decreases a@.len() - i,
    {
        if a[i] != b[i] {
            return false;
        }
        i += 1;
    }
    proof {
        assert(a@ =~= b@);
    }
    true
}

/// What a function type says: the types of the parameters and of the results, in order.
pub struct Signature {
    pub params: Seq<Type>,
    pub results: Seq<Type>,
}

/// The signature of a function. Nothing changes it once it is made.
#[derive(Debug)]
pub struct FunctionType {
    params: Vec<Type>,
    results: Vec<Type>,
}

impl View for FunctionType {
    type V = Signature;

    closed spec fn view(&self) -> Signature {
        Signature { params: self.params@, results: self.results@ }
    }
}

impl FunctionType {
    /// The function type with the given parameters and results.
    pub fn new(params: Vec<Type>, results: Vec<Type>) -> (ty: Self)
        ensures
            ty@ == (Signature { params: params@, results: results@ }),
    {
        FunctionType { params, results }
    }

    /// The types of the parameters.
    pub fn params(&self) -> (params: &[Type])
        ensures
            params@ == self@.params,
    {
        self.params.as_slice()
    }

    /// The types of the results.
    pub fn results(&self) -> (results: &[Type])
        ensures
            results@ == self@.results,
    {
        self.results.as_slice()
    }
}

impl Clone for FunctionType {
    fn clone(&self) -> (ty: Self)
        ensures
            ty@ == self@,
    {
        FunctionType { params: self.params.clone(), results: self.results.clone() }
    }
}

impl PartialEq for FunctionType {
    fn eq(&self, other: &Self) -> (same: bool) {
        same_types(self.params.as_slice(), other.params.as_slice()) && same_types(
            self.results.as_slice(),
            other.results.as_slice(),
        )
    }
}

/// Two function types are equal when their parameters match pairwise and their results do.
impl PartialEqSpecImpl for FunctionType {
    open spec fn obeys_eq_spec() -> bool {
        true
    }

    open spec fn eq_spec(&self, other: &Self) -> bool {
        self@ == other@
    }
}

/// What a `RuntimeError` says.
pub enum RuntimeErrorView {
    ParameterMismatch { found: Seq<Type>, expected: Signature },
    ResultMismatch { found: Seq<Type>, expected: Signature },
    DynamicResultMismatch { declared: Seq<Type>, returned: Seq<Type> },
    User { message: Seq<char> },
}

/// Why a call did not return its results.
#[derive(Debug, PartialEq)]
pub enum RuntimeError {
    /// The values given as arguments have the types `found`, which are not the parameters of
    /// `expected`.
    ParameterMismatch { found: Vec<Type>, expected: FunctionType },
    /// The place given for the results holds values of the types `found`, which are not as many
    /// as the results of `expected`.
    ResultMismatch { found: Vec<Type>, expected: FunctionType },
    /// A dynamic function declared the results `declared` and returned values of the types
    /// `returned`.
    DynamicResultMismatch { declared: Vec<Type>, returned: Vec<Type> },
    /// A failure that a host closure or guest code raised.
    User { message: String },
}

impl View for RuntimeError {
    type V = RuntimeErrorView;

    open spec fn view(&self) -> RuntimeErrorView {
        match self {
            RuntimeError::ParameterMismatch { found, expected } => {
                RuntimeErrorView::ParameterMismatch { found: found@, expected: expected@ }
            },
            RuntimeError::ResultMismatch { found, expected } => {
                RuntimeErrorView::ResultMismatch { found: found@, expected: expected@ }
            },
            RuntimeError::DynamicResultMismatch { declared, returned } => {
                RuntimeErrorView::DynamicResultMismatch {
                    declared: declared@,
                    returned: returned@,
                }
            },
            RuntimeError::User { message } => RuntimeErrorView::User { message: message@ },
        }
    }
}

impl RuntimeError {
    /// A failure with the given message, for a host closure to raise.
    pub fn new(message: String) -> (error: Self)
        ensures
            error@ == (RuntimeErrorView::User { message: message@ }),
    {
        RuntimeError::User { message }
    }
}

} // verus!
