//! Lists of scalar values: the tuples that a typed host function takes and returns, with the
//! array of slots and the aggregate of natives that each is laid out as.
//!
//! A list is `()`, a scalar type by itself, or a tuple of two to twenty-six scalar types.

pub mod tuples;

pub use tuples::{
    S0, S1, S10, S11, S12, S13, S14, S15, S16, S17, S18, S19, S2, S20, S21, S22, S23, S24, S25,
    S26, S3, S4, S5, S6, S7, S8, S9,
};

use crate::types::Type;
use vstd::prelude::*;

verus! {

/// A list of scalar values, as a typed host function takes and returns it.
pub trait WasmTypeList: Sized {
    /// The aggregate that holds the native of each value, in the order of the values.
    type CStruct;

    /// The array that holds the slot of each value, in the order of the values.
    type Array: View<V = Seq<i128>>;

    /// The list that an array of slots holds.
    spec fn from_array_spec(array: Seq<i128>) -> Self;

    /// The slots of the values, in their order.
    spec fn into_array_spec(self) -> Seq<i128>;

    /// The list that an aggregate of natives stands for.
    spec fn from_c_struct_spec(c_struct: Self::CStruct) -> Self;

    /// The natives of the values, in their order.
    spec fn into_c_struct_spec(self) -> Self::CStruct;

    /// The value types of the list, in the order of the values.
    spec fn wasm_types_spec() -> Seq<Type>;

    /// Builds the list from an array of slots.
    fn from_array(array: Self::Array) -> (list: Self)
        ensures
            list == Self::from_array_spec(array@),
    ;

    /// Lays the values into an array of slots.
    fn into_array(self) -> (array: Self::Array)
        ensures
            array@ == self.into_array_spec(),
    ;

    /// An array with one slot for each value of the list, all zero: the place for the results
    /// of a call.
    fn empty_array() -> (array: Self::Array)
        ensures
            array@ == Seq::new(Self::wasm_types_spec().len(), |i: int| 0i128),
    ;

    /// Builds the list from an aggregate of natives.
    fn from_c_struct(c_struct: Self::CStruct) -> (list: Self)
        ensures
            list == Self::from_c_struct_spec(c_struct),
    ;

    /// Lays the values into an aggregate of natives.
    fn into_c_struct(self) -> (c_struct: Self::CStruct)
        ensures
            c_struct == self.into_c_struct_spec(),
    ;

    /// The value types of the list, in the order of the values.
    fn wasm_types() -> (types: Vec<Type>)
        ensures
            types@ == Self::wasm_types_spec(),
    ;

    /// A list laid into an array of slots and built from it again is the list itself, and the
    /// array has one slot for each value type of the list.
    proof fn lemma_array_round_trip(self)
        ensures
            Self::from_array_spec(self.into_array_spec()) == self,
            self.into_array_spec().len() == Self::wasm_types_spec().len(),
    ;

    /// A list laid into an aggregate of natives and built from it again is the list itself.
    proof fn lemma_c_struct_round_trip(self)
        ensures
            Self::from_c_struct_spec(self.into_c_struct_spec()) == self,
    ;
}

} // verus!
