//! What an instance exports, and how a function is taken out of an export.

use crate::function::Function;
use crate::vm::Trampoline;
use vstd::prelude::*;

verus! {

/// Something that an instance exports: a function, a global, a table or a memory. Only the
/// function is looked into here; `G`, `Tb` and `M` are whatever the other three are.
pub enum Extern<F, G, Tb, M> {
    Function(F),
    Global(G),
    Table(Tb),
    Memory(M),
}

/// Why an export could not be had as what was asked for.
#[derive(Clone, Copy, Debug, PartialEq, Eq, Structural)]
pub enum ExportError {
    /// The export is of another kind than the one asked for.
    IncompatibleType,
}

impl<S, T: Trampoline, E, C> Function<S, T, E, C> {
    /// The function that `_extern` is; an export of another kind is of an incompatible type.
    pub fn get_self_from_extern<'a, G, Tb, M>(_extern: &'a Extern<Self, G, Tb, M>) -> (r: Result<
        &'a Self,
        ExportError,
    >)
        ensures
            match *_extern {
                Extern::Function(function) => r == Ok::<&Self, ExportError>(&function),
                _ => r == Err::<&Self, ExportError>(ExportError::IncompatibleType),
            },
    {
        match _extern {
            Extern::Function(func) => Ok(func),
            _ => Err(ExportError::IncompatibleType),
        }
    }
}

} // verus!
