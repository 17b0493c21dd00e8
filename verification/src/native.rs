//! The scalar types that a typed host function can take and return, each with the native type
//! it crosses a call as, and each native type with the slot it is laid into.

use crate::types::{Type, F32, F64};
use vstd::prelude::*;

verus! {

/// A type that crosses a call as it is: one for each value type.
pub trait NativeWasmType: Copy + Sized {
    /// The value type that this native type stands for.
    spec fn wasm_type_spec() -> Type;

    /// The slot that holds the value.
    spec fn to_binary_spec(self) -> i128;

    /// The value that a slot holds.
    spec fn from_binary_spec(bits: i128) -> Self;

    /// The value type that this native type stands for.
    fn wasm_type() -> (ty: Type)
        ensures
            ty == Self::wasm_type_spec(),
    ;

    /// Lays the value into a slot.
    fn to_binary(self) -> (bits: i128)
        ensures
            bits == self.to_binary_spec(),
    ;

    /// Takes the value out of a slot.
    fn from_binary(bits: i128) -> (native: Self)
        ensures
            native == Self::from_binary_spec(bits),
    ;

    /// A value laid into a slot and taken out again is the value itself.
    proof fn lemma_binary_round_trip(self)
        ensures
            Self::from_binary_spec(self.to_binary_spec()) == self,
    ;
}

impl NativeWasmType for i32 {
    open spec fn wasm_type_spec() -> Type {
        Type::I32
    }

    open spec fn to_binary_spec(self) -> i128 {
        self as i128
    }

    open spec fn from_binary_spec(bits: i128) -> Self {
        bits as i32
    }

    fn wasm_type() -> (ty: Type) {
        Type::I32
    }

    fn to_binary(self) -> (bits: i128) {
        self as i128
    }

    fn from_binary(bits: i128) -> (native: Self) {
        bits as i32
    }

    proof fn lemma_binary_round_trip(self) {
        assert((self as i128) as i32 == self) by (bit_vector);
    }
}

impl NativeWasmType for i64 {
    open spec fn wasm_type_spec() -> Type {
        Type::I64
    }

    open spec fn to_binary_spec(self) -> i128 {
        self as i128
    }

    open spec fn from_binary_spec(bits: i128) -> Self {
        bits as i64
    }

    fn wasm_type() -> (ty: Type) {
        Type::I64
    }

    fn to_binary(self) -> (bits: i128) {
        self as i128
    }

    fn from_binary(bits: i128) -> (native: Self) {
        bits as i64
    }

    proof fn lemma_binary_round_trip(self) {
        assert((self as i128) as i64 == self) by (bit_vector);
    }
}

impl NativeWasmType for F32 {
    open spec fn wasm_type_spec() -> Type {
        Type::F32
    }

    open spec fn to_binary_spec(self) -> i128 {
        self.0 as i128
    }

    open spec fn from_binary_spec(bits: i128) -> Self {
        F32(bits as u32)
    }

    fn wasm_type() -> (ty: Type) {
        Type::F32
    }

    fn to_binary(self) -> (bits: i128) {
        self.0 as i128
    }

    fn from_binary(bits: i128) -> (native: Self) {
        F32(bits as u32)
    }

    proof fn lemma_binary_round_trip(self) {
        let bits = self.0;
        assert((bits as i128) as u32 == bits) by (bit_vector);
    }
}

impl NativeWasmType for F64 {
    open spec fn wasm_type_spec() -> Type {
        Type::F64
    }

    open spec fn to_binary_spec(self) -> i128 {
        self.0 as i128
    }

    open spec fn from_binary_spec(bits: i128) -> Self {
        F64(bits as u64)
    }

    fn wasm_type() -> (ty: Type) {
        Type::F64
    }

    fn to_binary(self) -> (bits: i128) {
        self.0 as i128
    }

    fn from_binary(bits: i128) -> (native: Self) {
        F64(bits as u64)
    }

    proof fn lemma_binary_round_trip(self) {
        let bits = self.0;
        assert((bits as i128) as u64 == bits) by (bit_vector);
    }
}

/// A scalar type that a typed host function can take or return.
pub trait WasmExternType: Copy + Sized {
    /// The native type that a value of this type crosses a call as.
    type Native: NativeWasmType;

    /// The value that a native value stands for.
    spec fn from_native_spec(native: Self::Native) -> Self;

    /// The native value that stands for the value.
    spec fn to_native_spec(self) -> Self::Native;

    /// Converts a native value to this type.
    fn from_native(native: Self::Native) -> (value: Self)
        ensures
            value == Self::from_native_spec(native),
    ;

    /// Converts the value to its native type.
    fn to_native(self) -> (native: Self::Native)
        ensures
            native == self.to_native_spec(),
    ;

    /// A value converted to its native type and back is the value itself.
    proof fn lemma_native_round_trip(self)
        ensures
            Self::from_native_spec(self.to_native_spec()) == self,
    ;
}

impl WasmExternType for i8 {
    type Native = i32;

    open spec fn from_native_spec(native: i32) -> Self {
        native as i8
    }

    open spec fn to_native_spec(self) -> i32 {
        self as i32
    }

    fn from_native(native: i32) -> (value: Self) {
        native as i8
    }

    fn to_native(self) -> (native: i32) {
        self as i32
    }

    proof fn lemma_native_round_trip(self) {
        assert((self as i32) as i8 == self) by (bit_vector);
    }
}

impl WasmExternType for u8 {
    type Native = i32;

    open spec fn from_native_spec(native: i32) -> Self {
        native as u8
    }

    open spec fn to_native_spec(self) -> i32 {
        self as i32
    }

    fn from_native(native: i32) -> (value: Self) {
        native as u8
    }

    fn to_native(self) -> (native: i32) {
        self as i32
    }

    proof fn lemma_native_round_trip(self) {
        assert((self as i32) as u8 == self) by (bit_vector);
    }
}

impl WasmExternType for i16 {
    type Native = i32;

    open spec fn from_native_spec(native: i32) -> Self {
        native as i16
    }

    open spec fn to_native_spec(self) -> i32 {
        self as i32
    }

    fn from_native(native: i32) -> (value: Self) {
        native as i16
    }

    fn to_native(self) -> (native: i32) {
        self as i32
    }

    proof fn lemma_native_round_trip(self) {
        assert((self as i32) as i16 == self) by (bit_vector);
    }
}

impl WasmExternType for u16 {
    type Native = i32;

    open spec fn from_native_spec(native: i32) -> Self {
        native as u16
    }

    open spec fn to_native_spec(self) -> i32 {
        self as i32
    }

    fn from_native(native: i32) -> (value: Self) {
        native as u16
    }

    fn to_native(self) -> (native: i32) {
        self as i32
    }

    proof fn lemma_native_round_trip(self) {
        assert((self as i32) as u16 == self) by (bit_vector);
    }
}

impl WasmExternType for i32 {
    type Native = i32;

    open spec fn from_native_spec(native: i32) -> Self {
        native
    }

    open spec fn to_native_spec(self) -> i32 {
        self
    }

    fn from_native(native: i32) -> (value: Self) {
        native
    }

    fn to_native(self) -> (native: i32) {
        self
    }

    proof fn lemma_native_round_trip(self) {
    }
}

impl WasmExternType for u32 {
    type Native = i32;

    open spec fn from_native_spec(native: i32) -> Self {
        native as u32
    }

    open spec fn to_native_spec(self) -> i32 {
        self as i32
    }

    fn from_native(native: i32) -> (value: Self) {
        native as u32
    }

    fn to_native(self) -> (native: i32) {
        self as i32
    }

    proof fn lemma_native_round_trip(self) {
        assert((self as i32) as u32 == self) by (bit_vector);
    }
}

impl WasmExternType for i64 {
    type Native = i64;

    open spec fn from_native_spec(native: i64) -> Self {
        native
    }

    open spec fn to_native_spec(self) -> i64 {
        self
    }

    fn from_native(native: i64) -> (value: Self) {
        native
    }

    fn to_native(self) -> (native: i64) {
        self
    }

    proof fn lemma_native_round_trip(self) {
    }
}

impl WasmExternType for u64 {
    type Native = i64;

    open spec fn from_native_spec(native: i64) -> Self {
        native as u64
    }

    open spec fn to_native_spec(self) -> i64 {
        self as i64
    }

    fn from_native(native: i64) -> (value: Self) {
        native as u64
    }

    fn to_native(self) -> (native: i64) {
        self as i64
    }

    proof fn lemma_native_round_trip(self) {
        assert((self as i64) as u64 == self) by (bit_vector);
    }
}

impl WasmExternType for F32 {
    type Native = F32;

    open spec fn from_native_spec(native: F32) -> Self {
        native
    }

    open spec fn to_native_spec(self) -> F32 {
        self
    }

    fn from_native(native: F32) -> (value: Self) {
        native
    }

    fn to_native(self) -> (native: F32) {
        self
    }

    proof fn lemma_native_round_trip(self) {
    }
}

impl WasmExternType for F64 {
    type Native = F64;

    open spec fn from_native_spec(native: F64) -> Self {
        native
    }

    open spec fn to_native_spec(self) -> F64 {
        self
    }

    fn from_native(native: F64) -> (value: Self) {
        native
    }

    fn to_native(self) -> (native: F64) {
        self
    }

    proof fn lemma_native_round_trip(self) {
    }
}

/// The value type of the scalar type `A`.
pub open spec fn type_of<A: WasmExternType>() -> Type {
    A::Native::wasm_type_spec()
}

/// The slot that holds `value`.
pub open spec fn slot_of<A: WasmExternType>(value: A) -> i128 {
    value.to_native_spec().to_binary_spec()
}

/// The value of the scalar type `A` that `slot` holds.
pub open spec fn from_slot<A: WasmExternType>(slot: i128) -> A {
    A::from_native_spec(A::Native::from_binary_spec(slot))
}

/// Lays a value of a scalar type into a slot.
pub fn scalar_into_slot<A: WasmExternType>(value: A) -> (slot: i128)
    ensures
        slot == slot_of(value),
{
    value.to_native().to_binary()
}

/// Takes a value of the scalar type `A` out of a slot.
pub fn scalar_from_slot<A: WasmExternType>(slot: i128) -> (value: A)
    ensures
        value == from_slot::<A>(slot),
{
    A::from_native(A::Native::from_binary(slot))
}

/// A value of a scalar type laid into a slot and taken out again is the value itself.
pub proof fn lemma_scalar_round_trip<A: WasmExternType>(value: A)
    ensures
        from_slot::<A>(slot_of(value)) == value,
{
    value.to_native_spec().lemma_binary_round_trip();
    value.lemma_native_round_trip();
}

} // verus!
