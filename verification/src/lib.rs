//! The calling bridge between native code and WebAssembly code.
//!
//! Guest code knows one flat representation of values, the slot, and one way
//! to call. Native code wants typed closures. This crate holds what stands
//! between the two: how values and tuples of values are laid into slots, how a
//! host closure is entered with native arguments, how a call of a guest
//! function is checked against its signature, and how a function whose
//! signature is known only as data is dispatched.

pub mod dynamic;
pub mod exports;
pub mod function;
pub mod host;
pub mod native;
pub mod slot;
pub mod type_list;
pub mod types;
pub mod vm;

pub use exports::{ExportError, Extern};
pub use function::{
    Function, FunctionDefinition, HostFunctionDefinition, NativeFunc, WasmFunctionDefinition,
};
pub use host::{HostFunction, HostFunctionKind, IntoResult, WithEnv, WithoutEnv};
pub use native::{NativeWasmType, WasmExternType};
pub use type_list::WasmTypeList;
pub use types::{FunctionType, RuntimeError, Type, Val, F32, F64};
