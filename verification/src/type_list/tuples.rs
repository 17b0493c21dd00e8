//! Which types are lists of scalar values: `()`, every scalar type by itself, and the tuples
//! of two to twenty-six scalar types. Before each impl stands the aggregate of natives of
//! that many values.

use crate::native::{
    from_slot, lemma_scalar_round_trip, scalar_from_slot, scalar_into_slot, slot_of, type_of,
    NativeWasmType, WasmExternType,
};
use crate::type_list::WasmTypeList;
use crate::types::Type;
use vstd::prelude::*;

verus! {

/// The natives of no value at all.
pub struct S0();

impl WasmTypeList for () {
    type CStruct = S0;

    type Array = [i128; 0];

    open spec fn from_array_spec(array: Seq<i128>) -> Self {
        ()
    }

    open spec fn into_array_spec(self) -> Seq<i128> {
        Seq::empty()
    }

    open spec fn from_c_struct_spec(c_struct: S0) -> Self {
        ()
    }

    open spec fn into_c_struct_spec(self) -> S0 {
        S0()
    }

    open spec fn wasm_types_spec() -> Seq<Type> {
        Seq::empty()
    }

    fn from_array(array: [i128; 0]) -> (list: Self) {
        ()
    }

    fn into_array(self) -> (array: [i128; 0]) {
        let array: [i128; 0] = [];
        proof {
            assert(array@ =~= self.into_array_spec());
        }
        array
    }

    fn empty_array() -> (array: [i128; 0]) {
        let array: [i128; 0] = [];
        proof {
            assert(array@ =~= Seq::new(Self::wasm_types_spec().len(), |i: int| 0i128));
        }
        array
    }

    fn from_c_struct(c_struct: S0) -> (list: Self) {
        ()
    }

    fn into_c_struct(self) -> (c_struct: S0) {
        S0()
    }

    fn wasm_types() -> (types: Vec<Type>) {
        Vec::new()
    }

    proof fn lemma_array_round_trip(self) {
    }

    proof fn lemma_c_struct_round_trip(self) {
    }
}

/// The native of one value.
pub struct S1<A1: WasmExternType>(
    pub A1::Native,
);

impl<A1: WasmExternType> WasmTypeList for A1 {
    type CStruct = S1<A1>;

    type Array = [i128; 1];

    open spec fn from_array_spec(array: Seq<i128>) -> Self {
        from_slot::<A1>(array[0])
    }

    open spec fn into_array_spec(self) -> Seq<i128> {
        seq![slot_of(self)]
    }

    open spec fn from_c_struct_spec(c_struct: S1<A1>) -> Self {
        A1::from_native_spec(c_struct.0)
    }

    open spec fn into_c_struct_spec(self) -> S1<A1> {
        S1(self.to_native_spec())
    }

    open spec fn wasm_types_spec() -> Seq<Type> {
        seq![type_of::<A1>()]
    }

    fn from_array(array: [i128; 1]) -> (list: Self) {
        scalar_from_slot(array[0])
    }

    fn into_array(self) -> (array: [i128; 1]) {
        let array = [scalar_into_slot(self)];
        proof {
            assert(array@ =~= self.into_array_spec());
        }
        array
    }

    fn empty_array() -> (array: [i128; 1]) {
        let array: [i128; 1] = [0];
        proof {
            assert(array@ =~= Seq::new(Self::wasm_types_spec().len(), |i: int| 0i128));
        }
        array
    }

    fn from_c_struct(c_struct: S1<A1>) -> (list: Self) {
        A1::from_native(c_struct.0)
    }

    fn into_c_struct(self) -> (c_struct: S1<A1>) {
        S1(self.to_native())
    }

    fn wasm_types() -> (types: Vec<Type>) {
        let types = vec![A1::Native::wasm_type()];
        proof {
            assert(types@ =~= Self::wasm_types_spec());
        }
        types
    }

    proof fn lemma_array_round_trip(self) {
        lemma_scalar_round_trip(self);
    }

    proof fn lemma_c_struct_round_trip(self) {
        self.lemma_native_round_trip();
    }
}

/// The natives of 2 values, in the order of the values.
pub struct S2<A1: WasmExternType, A2: WasmExternType>(
    pub A1::Native, pub A2::Native,
);

impl<A1: WasmExternType, A2: WasmExternType> WasmTypeList for (A1, A2) {
    type CStruct = S2<A1, A2>;

    type Array = [i128; 2];

    open spec fn from_array_spec(array: Seq<i128>) -> Self {
        (from_slot::<A1>(array[0]), from_slot::<A2>(array[1]))
    }

    open spec fn into_array_spec(self) -> Seq<i128> {
        seq![slot_of(self.0), slot_of(self.1)]
    }

    open spec fn from_c_struct_spec(c_struct: S2<A1, A2>) -> Self {
        (A1::from_native_spec(c_struct.0), A2::from_native_spec(c_struct.1))
    }

    open spec fn into_c_struct_spec(self) -> S2<A1, A2> {
        S2(self.0.to_native_spec(), self.1.to_native_spec())
    }

    open spec fn wasm_types_spec() -> Seq<Type> {
        seq![type_of::<A1>(), type_of::<A2>()]
    }

    fn from_array(array: [i128; 2]) -> (list: Self) {
        (scalar_from_slot(array[0]), scalar_from_slot(array[1]))
    }

    fn into_array(self) -> (array: [i128; 2]) {
        let (a1, a2) = self;
        let array = [scalar_into_slot(a1), scalar_into_slot(a2)];
        proof {
            assert(array@ =~= self.into_array_spec());
        }
        array
    }

    fn empty_array() -> (array: [i128; 2]) {
        let array: [i128; 2] = [0, 0];
        proof {
            assert(array@ =~= Seq::new(Self::wasm_types_spec().len(), |i: int| 0i128));
        }
        array
    }

    fn from_c_struct(c_struct: S2<A1, A2>) -> (list: Self) {
        let S2(a1, a2) = c_struct;
        (A1::from_native(a1), A2::from_native(a2))
    }

    fn into_c_struct(self) -> (c_struct: S2<A1, A2>) {
        let (a1, a2) = self;
        S2(a1.to_native(), a2.to_native())
    }

    fn wasm_types() -> (types: Vec<Type>) {
        let types = vec![A1::Native::wasm_type(), A2::Native::wasm_type()];
        proof {
            assert(types@ =~= Self::wasm_types_spec());
        }
        types
    }

    proof fn lemma_array_round_trip(self) {
        lemma_scalar_round_trip(self.0);
        lemma_scalar_round_trip(self.1);
    }

    proof fn lemma_c_struct_round_trip(self) {
        self.0.lemma_native_round_trip();
        self.1.lemma_native_round_trip();
    }
}

/// The natives of 3 values, in the order of the values.
pub struct S3<A1: WasmExternType, A2: WasmExternType, A3: WasmExternType>(
    pub A1::Native, pub A2::Native, pub A3::Native,
);

impl<A1: WasmExternType, A2: WasmExternType, A3: WasmExternType> WasmTypeList for (A1, A2, A3) {
    type CStruct = S3<A1, A2, A3>;

    type Array = [i128; 3];

    open spec fn from_array_spec(array: Seq<i128>) -> Self {
        (from_slot::<A1>(array[0]), from_slot::<A2>(array[1]), from_slot::<A3>(array[2]))
    }

    open spec fn into_array_spec(self) -> Seq<i128> {
        seq![slot_of(self.0), slot_of(self.1), slot_of(self.2)]
    }

    open spec fn from_c_struct_spec(c_struct: S3<A1, A2, A3>) -> Self {
        (
            A1::from_native_spec(c_struct.0), A2::from_native_spec(c_struct.1),
            A3::from_native_spec(c_struct.2),
        )
    }

    open spec fn into_c_struct_spec(self) -> S3<A1, A2, A3> {
        S3(self.0.to_native_spec(), self.1.to_native_spec(), self.2.to_native_spec())
    }

    open spec fn wasm_types_spec() -> Seq<Type> {
        seq![type_of::<A1>(), type_of::<A2>(), type_of::<A3>()]
    }

    fn from_array(array: [i128; 3]) -> (list: Self) {
        (scalar_from_slot(array[0]), scalar_from_slot(array[1]), scalar_from_slot(array[2]))
    }

    fn into_array(self) -> (array: [i128; 3]) {
        let (a1, a2, a3) = self;
        let array = [scalar_into_slot(a1), scalar_into_slot(a2), scalar_into_slot(a3)];
        proof {
            assert(array@ =~= self.into_array_spec());
        }
        array
    }

    fn empty_array() -> (array: [i128; 3]) {
        let array: [i128; 3] = [0, 0, 0];
        proof {
            assert(array@ =~= Seq::new(Self::wasm_types_spec().len(), |i: int| 0i128));
        }
        array
    }

    fn from_c_struct(c_struct: S3<A1, A2, A3>) -> (list: Self) {
        let S3(a1, a2, a3) = c_struct;
        (A1::from_native(a1), A2::from_native(a2), A3::from_native(a3))
    }

    fn into_c_struct(self) -> (c_struct: S3<A1, A2, A3>) {
        let (a1, a2, a3) = self;
        S3(a1.to_native(), a2.to_native(), a3.to_native())
    }

    fn wasm_types() -> (types: Vec<Type>) {
        let types = vec![A1::Native::wasm_type(), A2::Native::wasm_type(), A3::Native::wasm_type()];
        proof {
            assert(types@ =~= Self::wasm_types_spec());
        }
        types
    }

    proof fn lemma_array_round_trip(self) {
        lemma_scalar_round_trip(self.0);
        lemma_scalar_round_trip(self.1);
        lemma_scalar_round_trip(self.2);
    }

    proof fn lemma_c_struct_round_trip(self) {
        self.0.lemma_native_round_trip();
        self.1.lemma_native_round_trip();
        self.2.lemma_native_round_trip();
    }
}

/// The natives of 4 values, in the order of the values.
pub struct S4<A1: WasmExternType, A2: WasmExternType, A3: WasmExternType, A4: WasmExternType>(
    pub A1::Native, pub A2::Native, pub A3::Native, pub A4::Native,
);

impl<
    A1: WasmExternType, A2: WasmExternType, A3: WasmExternType, A4: WasmExternType,
> WasmTypeList for (A1, A2, A3, A4) {
    type CStruct = S4<A1, A2, A3, A4>;

    type Array = [i128; 4];

    open spec fn from_array_spec(array: Seq<i128>) -> Self {
        (
            from_slot::<A1>(array[0]), from_slot::<A2>(array[1]), from_slot::<A3>(array[2]),
            from_slot::<A4>(array[3]),
        )
    }

    open spec fn into_array_spec(self) -> Seq<i128> {
        seq![slot_of(self.0), slot_of(self.1), slot_of(self.2), slot_of(self.3)]
    }

    open spec fn from_c_struct_spec(c_struct: S4<A1, A2, A3, A4>) -> Self {
        (
            A1::from_native_spec(c_struct.0), A2::from_native_spec(c_struct.1),
            A3::from_native_spec(c_struct.2), A4::from_native_spec(c_struct.3),
        )
    }

    open spec fn into_c_struct_spec(self) -> S4<A1, A2, A3, A4> {
        S4(
            self.0.to_native_spec(), self.1.to_native_spec(), self.2.to_native_spec(),
            self.3.to_native_spec(),
        )
    }

    open spec fn wasm_types_spec() -> Seq<Type> {
        seq![type_of::<A1>(), type_of::<A2>(), type_of::<A3>(), type_of::<A4>()]
    }

    fn from_array(array: [i128; 4]) -> (list: Self) {
        (
            scalar_from_slot(array[0]), scalar_from_slot(array[1]), scalar_from_slot(array[2]),
            scalar_from_slot(array[3]),
        )
    }

    fn into_array(self) -> (array: [i128; 4]) {
        let (a1, a2, a3, a4) = self;
        let array = [
            scalar_into_slot(a1), scalar_into_slot(a2), scalar_into_slot(a3), scalar_into_slot(a4),
        ];
        proof {
            assert(array@ =~= self.into_array_spec());
        }
        array
    }

    fn empty_array() -> (array: [i128; 4]) {
        let array: [i128; 4] = [0, 0, 0, 0];
        proof {
            assert(array@ =~= Seq::new(Self::wasm_types_spec().len(), |i: int| 0i128));
        }
        array
    }

    fn from_c_struct(c_struct: S4<A1, A2, A3, A4>) -> (list: Self) {
        let S4(a1, a2, a3, a4) = c_struct;
        (A1::from_native(a1), A2::from_native(a2), A3::from_native(a3), A4::from_native(a4))
    }

    fn into_c_struct(self) -> (c_struct: S4<A1, A2, A3, A4>) {
        let (a1, a2, a3, a4) = self;
        S4(a1.to_native(), a2.to_native(), a3.to_native(), a4.to_native())
    }

    fn wasm_types() -> (types: Vec<Type>) {
        let types = vec![
            A1::Native::wasm_type(), A2::Native::wasm_type(), A3::Native::wasm_type(),
            A4::Native::wasm_type(),
        ];
        proof {
            assert(types@ =~= Self::wasm_types_spec());
        }
        types
    }

    proof fn lemma_array_round_trip(self) {
        lemma_scalar_round_trip(self.0);
        lemma_scalar_round_trip(self.1);
        lemma_scalar_round_trip(self.2);
        lemma_scalar_round_trip(self.3);
    }

    proof fn lemma_c_struct_round_trip(self) {
        self.0.lemma_native_round_trip();
        self.1.lemma_native_round_trip();
        self.2.lemma_native_round_trip();
        self.3.lemma_native_round_trip();
    }
}

/// The natives of 5 values, in the order of the values.
pub struct S5<
    A1: WasmExternType, A2: WasmExternType, A3: WasmExternType, A4: WasmExternType,
    A5: WasmExternType,
>(
    pub A1::Native, pub A2::Native, pub A3::Native, pub A4::Native, pub A5::Native,
);

impl<
    A1: WasmExternType, A2: WasmExternType, A3: WasmExternType, A4: WasmExternType,
    A5: WasmExternType,
> WasmTypeList for (A1, A2, A3, A4, A5) {
    type CStruct = S5<A1, A2, A3, A4, A5>;

    type Array = [i128; 5];

    open spec fn from_array_spec(array: Seq<i128>) -> Self {
        (
            from_slot::<A1>(array[0]), from_slot::<A2>(array[1]), from_slot::<A3>(array[2]),
            from_slot::<A4>(array[3]), from_slot::<A5>(array[4]),
        )
    }

    open spec fn into_array_spec(self) -> Seq<i128> {
        seq![slot_of(self.0), slot_of(self.1), slot_of(self.2), slot_of(self.3), slot_of(self.4)]
    }

    open spec fn from_c_struct_spec(c_struct: S5<A1, A2, A3, A4, A5>) -> Self {
        (
            A1::from_native_spec(c_struct.0), A2::from_native_spec(c_struct.1),
            A3::from_native_spec(c_struct.2), A4::from_native_spec(c_struct.3),
            A5::from_native_spec(c_struct.4),
        )
    }

    open spec fn into_c_struct_spec(self) -> S5<A1, A2, A3, A4, A5> {
        S5(
            self.0.to_native_spec(), self.1.to_native_spec(), self.2.to_native_spec(),
            self.3.to_native_spec(), self.4.to_native_spec(),
        )
    }

    open spec fn wasm_types_spec() -> Seq<Type> {
        seq![type_of::<A1>(), type_of::<A2>(), type_of::<A3>(), type_of::<A4>(), type_of::<A5>()]
    }

    fn from_array(array: [i128; 5]) -> (list: Self) {
        (
            scalar_from_slot(array[0]), scalar_from_slot(array[1]), scalar_from_slot(array[2]),
            scalar_from_slot(array[3]), scalar_from_slot(array[4]),
        )
    }

    fn into_array(self) -> (array: [i128; 5]) {
        let (a1, a2, a3, a4, a5) = self;
        let array = [
            scalar_into_slot(a1), scalar_into_slot(a2), scalar_into_slot(a3), scalar_into_slot(a4),
            scalar_into_slot(a5),
        ];
        proof {
            assert(array@ =~= self.into_array_spec());
        }
        array
    }

    fn empty_array() -> (array: [i128; 5]) {
        let array: [i128; 5] = [0, 0, 0, 0, 0];
        proof {
            assert(array@ =~= Seq::new(Self::wasm_types_spec().len(), |i: int| 0i128));
        }
        array
    }

    fn from_c_struct(c_struct: S5<A1, A2, A3, A4, A5>) -> (list: Self) {
        let S5(a1, a2, a3, a4, a5) = c_struct;
        (
            A1::from_native(a1), A2::from_native(a2), A3::from_native(a3), A4::from_native(a4),
            A5::from_native(a5),
        )
    }

    fn into_c_struct(self) -> (c_struct: S5<A1, A2, A3, A4, A5>) {
        let (a1, a2, a3, a4, a5) = self;
        S5(a1.to_native(), a2.to_native(), a3.to_native(), a4.to_native(), a5.to_native())
    }

    fn wasm_types() -> (types: Vec<Type>) {
        let types = vec![
            A1::Native::wasm_type(), A2::Native::wasm_type(), A3::Native::wasm_type(),
            A4::Native::wasm_type(), A5::Native::wasm_type(),
        ];
        proof {
            assert(types@ =~= Self::wasm_types_spec());
        }
        types
    }

    proof fn lemma_array_round_trip(self) {
        lemma_scalar_round_trip(self.0);
        lemma_scalar_round_trip(self.1);
        lemma_scalar_round_trip(self.2);
        lemma_scalar_round_trip(self.3);
        lemma_scalar_round_trip(self.4);
    }

    proof fn lemma_c_struct_round_trip(self) {
        self.0.lemma_native_round_trip();
        self.1.lemma_native_round_trip();
        self.2.lemma_native_round_trip();
        self.3.lemma_native_round_trip();
        self.4.lemma_native_round_trip();
    }
}

/// The natives of 6 values, in the order of the values.
pub struct S6<
    A1: WasmExternType, A2: WasmExternType, A3: WasmExternType, A4: WasmExternType,
    A5: WasmExternType, A6: WasmExternType,
>(
    pub A1::Native, pub A2::Native, pub A3::Native, pub A4::Native, pub A5::Native, pub A6::Native,
);

impl<
    A1: WasmExternType, A2: WasmExternType, A3: WasmExternType, A4: WasmExternType,
    A5: WasmExternType, A6: WasmExternType,
> WasmTypeList for (A1, A2, A3, A4, A5, A6) {
    type CStruct = S6<A1, A2, A3, A4, A5, A6>;

    type Array = [i128; 6];

    open spec fn from_array_spec(array: Seq<i128>) -> Self {
        (
            from_slot::<A1>(array[0]), from_slot::<A2>(array[1]), from_slot::<A3>(array[2]),
            from_slot::<A4>(array[3]), from_slot::<A5>(array[4]), from_slot::<A6>(array[5]),
        )
    }

    open spec fn into_array_spec(self) -> Seq<i128> {
        seq![
            slot_of(self.0), slot_of(self.1), slot_of(self.2), slot_of(self.3), slot_of(self.4),
            slot_of(self.5),
        ]
    }

    open spec fn from_c_struct_spec(c_struct: S6<A1, A2, A3, A4, A5, A6>) -> Self {
        (
            A1::from_native_spec(c_struct.0), A2::from_native_spec(c_struct.1),
            A3::from_native_spec(c_struct.2), A4::from_native_spec(c_struct.3),
            A5::from_native_spec(c_struct.4), A6::from_native_spec(c_struct.5),
        )
    }

    open spec fn into_c_struct_spec(self) -> S6<A1, A2, A3, A4, A5, A6> {
        S6(
            self.0.to_native_spec(), self.1.to_native_spec(), self.2.to_native_spec(),
            self.3.to_native_spec(), self.4.to_native_spec(), self.5.to_native_spec(),
        )
    }

    open spec fn wasm_types_spec() -> Seq<Type> {
        seq![
            type_of::<A1>(), type_of::<A2>(), type_of::<A3>(), type_of::<A4>(), type_of::<A5>(),
            type_of::<A6>(),
        ]
    }

    fn from_array(array: [i128; 6]) -> (list: Self) {
        (
            scalar_from_slot(array[0]), scalar_from_slot(array[1]), scalar_from_slot(array[2]),
            scalar_from_slot(array[3]), scalar_from_slot(array[4]), scalar_from_slot(array[5]),
        )
    }

    fn into_array(self) -> (array: [i128; 6]) {
        let (a1, a2, a3, a4, a5, a6) = self;
        let array = [
            scalar_into_slot(a1), scalar_into_slot(a2), scalar_into_slot(a3), scalar_into_slot(a4),
            scalar_into_slot(a5), scalar_into_slot(a6),
        ];
        proof {
            assert(array@ =~= self.into_array_spec());
        }
        array
    }

    fn empty_array() -> (array: [i128; 6]) {
        let array: [i128; 6] = [0, 0, 0, 0, 0, 0];
        proof {
            assert(array@ =~= Seq::new(Self::wasm_types_spec().len(), |i: int| 0i128));
        }
        array
    }

    fn from_c_struct(c_struct: S6<A1, A2, A3, A4, A5, A6>) -> (list: Self) {
        let S6(a1, a2, a3, a4, a5, a6) = c_struct;
        (
            A1::from_native(a1), A2::from_native(a2), A3::from_native(a3), A4::from_native(a4),
            A5::from_native(a5), A6::from_native(a6),
        )
    }

    fn into_c_struct(self) -> (c_struct: S6<A1, A2, A3, A4, A5, A6>) {
        let (a1, a2, a3, a4, a5, a6) = self;
        S6(
            a1.to_native(), a2.to_native(), a3.to_native(), a4.to_native(), a5.to_native(),
            a6.to_native(),
        )
    }

    fn wasm_types() -> (types: Vec<Type>) {
        let types = vec![
            A1::Native::wasm_type(), A2::Native::wasm_type(), A3::Native::wasm_type(),
            A4::Native::wasm_type(), A5::Native::wasm_type(), A6::Native::wasm_type(),
        ];
        proof {
            assert(types@ =~= Self::wasm_types_spec());
        }
        types
    }

    proof fn lemma_array_round_trip(self) {
        lemma_scalar_round_trip(self.0);
        lemma_scalar_round_trip(self.1);
        lemma_scalar_round_trip(self.2);
        lemma_scalar_round_trip(self.3);
        lemma_scalar_round_trip(self.4);
        lemma_scalar_round_trip(self.5);
    }

    proof fn lemma_c_struct_round_trip(self) {
        self.0.lemma_native_round_trip();
        self.1.lemma_native_round_trip();
        self.2.lemma_native_round_trip();
        self.3.lemma_native_round_trip();
        self.4.lemma_native_round_trip();
        self.5.lemma_native_round_trip();
    }
}

/// The natives of 7 values, in the order of the values.
pub struct S7<
    A1: WasmExternType, A2: WasmExternType, A3: WasmExternType, A4: WasmExternType,
    A5: WasmExternType, A6: WasmExternType, A7: WasmExternType,
>(
    pub A1::Native, pub A2::Native, pub A3::Native, pub A4::Native, pub A5::Native, pub A6::Native,
    pub A7::Native,
);

impl<
    A1: WasmExternType, A2: WasmExternType, A3: WasmExternType, A4: WasmExternType,
    A5: WasmExternType, A6: WasmExternType, A7: WasmExternType,
> WasmTypeList for (A1, A2, A3, A4, A5, A6, A7) {
    type CStruct = S7<A1, A2, A3, A4, A5, A6, A7>;

    type Array = [i128; 7];

    open spec fn from_array_spec(array: Seq<i128>) -> Self {
        (
            from_slot::<A1>(array[0]), from_slot::<A2>(array[1]), from_slot::<A3>(array[2]),
            from_slot::<A4>(array[3]), from_slot::<A5>(array[4]), from_slot::<A6>(array[5]),
            from_slot::<A7>(array[6]),
        )
    }

    open spec fn into_array_spec(self) -> Seq<i128> {
        seq![
            slot_of(self.0), slot_of(self.1), slot_of(self.2), slot_of(self.3), slot_of(self.4),
            slot_of(self.5), slot_of(self.6),
        ]
    }

    open spec fn from_c_struct_spec(c_struct: S7<A1, A2, A3, A4, A5, A6, A7>) -> Self {
        (
            A1::from_native_spec(c_struct.0), A2::from_native_spec(c_struct.1),
            A3::from_native_spec(c_struct.2), A4::from_native_spec(c_struct.3),
            A5::from_native_spec(c_struct.4), A6::from_native_spec(c_struct.5),
            A7::from_native_spec(c_struct.6),
        )
    }

    open spec fn into_c_struct_spec(self) -> S7<A1, A2, A3, A4, A5, A6, A7> {
        S7(
            self.0.to_native_spec(), self.1.to_native_spec(), self.2.to_native_spec(),
            self.3.to_native_spec(), self.4.to_native_spec(), self.5.to_native_spec(),
            self.6.to_native_spec(),
        )
    }

    open spec fn wasm_types_spec() -> Seq<Type> {
        seq![
            type_of::<A1>(), type_of::<A2>(), type_of::<A3>(), type_of::<A4>(), type_of::<A5>(),
            type_of::<A6>(), type_of::<A7>(),
        ]
    }

    fn from_array(array: [i128; 7]) -> (list: Self) {
        (
            scalar_from_slot(array[0]), scalar_from_slot(array[1]), scalar_from_slot(array[2]),
            scalar_from_slot(array[3]), scalar_from_slot(array[4]), scalar_from_slot(array[5]),
            scalar_from_slot(array[6]),
        )
    }

    fn into_array(self) -> (array: [i128; 7]) {
        let (a1, a2, a3, a4, a5, a6, a7) = self;
        let array = [
            scalar_into_slot(a1), scalar_into_slot(a2), scalar_into_slot(a3), scalar_into_slot(a4),
            scalar_into_slot(a5), scalar_into_slot(a6), scalar_into_slot(a7),
        ];
        proof {
            assert(array@ =~= self.into_array_spec());
        }
        array
    }

    fn empty_array() -> (array: [i128; 7]) {
        let array: [i128; 7] = [0, 0, 0, 0, 0, 0, 0];
        proof {
            assert(array@ =~= Seq::new(Self::wasm_types_spec().len(), |i: int| 0i128));
        }
        array
    }

    fn from_c_struct(c_struct: S7<A1, A2, A3, A4, A5, A6, A7>) -> (list: Self) {
        let S7(a1, a2, a3, a4, a5, a6, a7) = c_struct;
        (
            A1::from_native(a1), A2::from_native(a2), A3::from_native(a3), A4::from_native(a4),
            A5::from_native(a5), A6::from_native(a6), A7::from_native(a7),
        )
    }

    fn into_c_struct(self) -> (c_struct: S7<A1, A2, A3, A4, A5, A6, A7>) {
        let (a1, a2, a3, a4, a5, a6, a7) = self;
        S7(
            a1.to_native(), a2.to_native(), a3.to_native(), a4.to_native(), a5.to_native(),
            a6.to_native(), a7.to_native(),
        )
    }

    fn wasm_types() -> (types: Vec<Type>) {
        let types = vec![
            A1::Native::wasm_type(), A2::Native::wasm_type(), A3::Native::wasm_type(),
            A4::Native::wasm_type(), A5::Native::wasm_type(), A6::Native::wasm_type(),
            A7::Native::wasm_type(),
        ];
        proof {
            assert(types@ =~= Self::wasm_types_spec());
        }
        types
    }

    proof fn lemma_array_round_trip(self) {
        lemma_scalar_round_trip(self.0);
        lemma_scalar_round_trip(self.1);
        lemma_scalar_round_trip(self.2);
        lemma_scalar_round_trip(self.3);
        lemma_scalar_round_trip(self.4);
        lemma_scalar_round_trip(self.5);
        lemma_scalar_round_trip(self.6);
    }

    proof fn lemma_c_struct_round_trip(self) {
        self.0.lemma_native_round_trip();
        self.1.lemma_native_round_trip();
        self.2.lemma_native_round_trip();
        self.3.lemma_native_round_trip();
        self.4.lemma_native_round_trip();
        self.5.lemma_native_round_trip();
        self.6.lemma_native_round_trip();
    }
}

/// The natives of 8 values, in the order of the values.
pub struct S8<
    A1: WasmExternType, A2: WasmExternType, A3: WasmExternType, A4: WasmExternType,
    A5: WasmExternType, A6: WasmExternType, A7: WasmExternType, A8: WasmExternType,
>(
    pub A1::Native, pub A2::Native, pub A3::Native, pub A4::Native, pub A5::Native, pub A6::Native,
    pub A7::Native, pub A8::Native,
);

impl<
    A1: WasmExternType, A2: WasmExternType, A3: WasmExternType, A4: WasmExternType,
    A5: WasmExternType, A6: WasmExternType, A7: WasmExternType, A8: WasmExternType,
> WasmTypeList for (A1, A2, A3, A4, A5, A6, A7, A8) {
    type CStruct = S8<A1, A2, A3, A4, A5, A6, A7, A8>;

    type Array = [i128; 8];

    open spec fn from_array_spec(array: Seq<i128>) -> Self {
        (
            from_slot::<A1>(array[0]), from_slot::<A2>(array[1]), from_slot::<A3>(array[2]),
            from_slot::<A4>(array[3]), from_slot::<A5>(array[4]), from_slot::<A6>(array[5]),
            from_slot::<A7>(array[6]), from_slot::<A8>(array[7]),
        )
    }

    open spec fn into_array_spec(self) -> Seq<i128> {
        seq![
            slot_of(self.0), slot_of(self.1), slot_of(self.2), slot_of(self.3), slot_of(self.4),
            slot_of(self.5), slot_of(self.6), slot_of(self.7),
        ]
    }

    open spec fn from_c_struct_spec(c_struct: S8<A1, A2, A3, A4, A5, A6, A7, A8>) -> Self {
        (
            A1::from_native_spec(c_struct.0), A2::from_native_spec(c_struct.1),
            A3::from_native_spec(c_struct.2), A4::from_native_spec(c_struct.3),
            A5::from_native_spec(c_struct.4), A6::from_native_spec(c_struct.5),
            A7::from_native_spec(c_struct.6), A8::from_native_spec(c_struct.7),
        )
    }

    open spec fn into_c_struct_spec(self) -> S8<A1, A2, A3, A4, A5, A6, A7, A8> {
        S8(
            self.0.to_native_spec(), self.1.to_native_spec(), self.2.to_native_spec(),
            self.3.to_native_spec(), self.4.to_native_spec(), self.5.to_native_spec(),
            self.6.to_native_spec(), self.7.to_native_spec(),
        )
    }

    open spec fn wasm_types_spec() -> Seq<Type> {
        seq![
            type_of::<A1>(), type_of::<A2>(), type_of::<A3>(), type_of::<A4>(), type_of::<A5>(),
            type_of::<A6>(), type_of::<A7>(), type_of::<A8>(),
        ]
    }

    fn from_array(array: [i128; 8]) -> (list: Self) {
        (
            scalar_from_slot(array[0]), scalar_from_slot(array[1]), scalar_from_slot(array[2]),
            scalar_from_slot(array[3]), scalar_from_slot(array[4]), scalar_from_slot(array[5]),
            scalar_from_slot(array[6]), scalar_from_slot(array[7]),
        )
    }

    fn into_array(self) -> (array: [i128; 8]) {
        let (a1, a2, a3, a4, a5, a6, a7, a8) = self;
        let array = [
            scalar_into_slot(a1), scalar_into_slot(a2), scalar_into_slot(a3), scalar_into_slot(a4),
            scalar_into_slot(a5), scalar_into_slot(a6), scalar_into_slot(a7), scalar_into_slot(a8),
        ];
        proof {
            assert(array@ =~= self.into_array_spec());
        }
        array
    }

    fn empty_array() -> (array: [i128; 8]) {
        let array: [i128; 8] = [0, 0, 0, 0, 0, 0, 0, 0];
        proof {
            assert(array@ =~= Seq::new(Self::wasm_types_spec().len(), |i: int| 0i128));
        }
        array
    }

    fn from_c_struct(c_struct: S8<A1, A2, A3, A4, A5, A6, A7, A8>) -> (list: Self) {
        let S8(a1, a2, a3, a4, a5, a6, a7, a8) = c_struct;
        (
            A1::from_native(a1), A2::from_native(a2), A3::from_native(a3), A4::from_native(a4),
            A5::from_native(a5), A6::from_native(a6), A7::from_native(a7), A8::from_native(a8),
        )
    }

    fn into_c_struct(self) -> (c_struct: S8<A1, A2, A3, A4, A5, A6, A7, A8>) {
        let (a1, a2, a3, a4, a5, a6, a7, a8) = self;
        S8(
            a1.to_native(), a2.to_native(), a3.to_native(), a4.to_native(), a5.to_native(),
            a6.to_native(), a7.to_native(), a8.to_native(),
        )
    }

    fn wasm_types() -> (types: Vec<Type>) {
        let types = vec![
            A1::Native::wasm_type(), A2::Native::wasm_type(), A3::Native::wasm_type(),
            A4::Native::wasm_type(), A5::Native::wasm_type(), A6::Native::wasm_type(),
            A7::Native::wasm_type(), A8::Native::wasm_type(),
        ];
        proof {
            assert(types@ =~= Self::wasm_types_spec());
        }
        types
    }

    proof fn lemma_array_round_trip(self) {
        lemma_scalar_round_trip(self.0);
        lemma_scalar_round_trip(self.1);
        lemma_scalar_round_trip(self.2);
        lemma_scalar_round_trip(self.3);
        lemma_scalar_round_trip(self.4);
        lemma_scalar_round_trip(self.5);
        lemma_scalar_round_trip(self.6);
        lemma_scalar_round_trip(self.7);
    }

    proof fn lemma_c_struct_round_trip(self) {
        self.0.lemma_native_round_trip();
        self.1.lemma_native_round_trip();
        self.2.lemma_native_round_trip();
        self.3.lemma_native_round_trip();
        self.4.lemma_native_round_trip();
        self.5.lemma_native_round_trip();
        self.6.lemma_native_round_trip();
        self.7.lemma_native_round_trip();
    }
}

/// The natives of 9 values, in the order of the values.
pub struct S9<
    A1: WasmExternType, A2: WasmExternType, A3: WasmExternType, A4: WasmExternType,
    A5: WasmExternType, A6: WasmExternType, A7: WasmExternType, A8: WasmExternType,
    A9: WasmExternType,
>(
    pub A1::Native, pub A2::Native, pub A3::Native, pub A4::Native, pub A5::Native, pub A6::Native,
    pub A7::Native, pub A8::Native, pub A9::Native,
);

impl<
    A1: WasmExternType, A2: WasmExternType, A3: WasmExternType, A4: WasmExternType,
    A5: WasmExternType, A6: WasmExternType, A7: WasmExternType, A8: WasmExternType,
    A9: WasmExternType,
> WasmTypeList for (A1, A2, A3, A4, A5, A6, A7, A8, A9) {
    type CStruct = S9<A1, A2, A3, A4, A5, A6, A7, A8, A9>;

    type Array = [i128; 9];

    open spec fn from_array_spec(array: Seq<i128>) -> Self {
        (
            from_slot::<A1>(array[0]), from_slot::<A2>(array[1]), from_slot::<A3>(array[2]),
            from_slot::<A4>(array[3]), from_slot::<A5>(array[4]), from_slot::<A6>(array[5]),
            from_slot::<A7>(array[6]), from_slot::<A8>(array[7]), from_slot::<A9>(array[8]),
        )
    }

    open spec fn into_array_spec(self) -> Seq<i128> {
        seq![
            slot_of(self.0), slot_of(self.1), slot_of(self.2), slot_of(self.3), slot_of(self.4),
            slot_of(self.5), slot_of(self.6), slot_of(self.7), slot_of(self.8),
        ]
    }

    open spec fn from_c_struct_spec(c_struct: S9<A1, A2, A3, A4, A5, A6, A7, A8, A9>) -> Self {
        (
            A1::from_native_spec(c_struct.0), A2::from_native_spec(c_struct.1),
            A3::from_native_spec(c_struct.2), A4::from_native_spec(c_struct.3),
            A5::from_native_spec(c_struct.4), A6::from_native_spec(c_struct.5),
            A7::from_native_spec(c_struct.6), A8::from_native_spec(c_struct.7),
            A9::from_native_spec(c_struct.8),
        )
    }

    open spec fn into_c_struct_spec(self) -> S9<A1, A2, A3, A4, A5, A6, A7, A8, A9> {
        S9(
            self.0.to_native_spec(), self.1.to_native_spec(), self.2.to_native_spec(),
            self.3.to_native_spec(), self.4.to_native_spec(), self.5.to_native_spec(),
            self.6.to_native_spec(), self.7.to_native_spec(), self.8.to_native_spec(),
        )
    }

    open spec fn wasm_types_spec() -> Seq<Type> {
        seq![
            type_of::<A1>(), type_of::<A2>(), type_of::<A3>(), type_of::<A4>(), type_of::<A5>(),
            type_of::<A6>(), type_of::<A7>(), type_of::<A8>(), type_of::<A9>(),
        ]
    }

    fn from_array(array: [i128; 9]) -> (list: Self) {
        (
            scalar_from_slot(array[0]), scalar_from_slot(array[1]), scalar_from_slot(array[2]),
            scalar_from_slot(array[3]), scalar_from_slot(array[4]), scalar_from_slot(array[5]),
            scalar_from_slot(array[6]), scalar_from_slot(array[7]), scalar_from_slot(array[8]),
        )
    }

    fn into_array(self) -> (array: [i128; 9]) {
        let (a1, a2, a3, a4, a5, a6, a7, a8, a9) = self;
        let array = [
            scalar_into_slot(a1), scalar_into_slot(a2), scalar_into_slot(a3), scalar_into_slot(a4),
            scalar_into_slot(a5), scalar_into_slot(a6), scalar_into_slot(a7), scalar_into_slot(a8),
            scalar_into_slot(a9),
        ];
        proof {
            assert(array@ =~= self.into_array_spec());
        }
        array
    }

    fn empty_array() -> (array: [i128; 9]) {
        let array: [i128; 9] = [0, 0, 0, 0, 0, 0, 0, 0, 0];
        proof {
            assert(array@ =~= Seq::new(Self::wasm_types_spec().len(), |i: int| 0i128));
        }
        array
    }

    fn from_c_struct(c_struct: S9<A1, A2, A3, A4, A5, A6, A7, A8, A9>) -> (list: Self) {
        let S9(a1, a2, a3, a4, a5, a6, a7, a8, a9) = c_struct;
        (
            A1::from_native(a1), A2::from_native(a2), A3::from_native(a3), A4::from_native(a4),
            A5::from_native(a5), A6::from_native(a6), A7::from_native(a7), A8::from_native(a8),
            A9::from_native(a9),
        )
    }

    fn into_c_struct(self) -> (c_struct: S9<A1, A2, A3, A4, A5, A6, A7, A8, A9>) {
        let (a1, a2, a3, a4, a5, a6, a7, a8, a9) = self;
        S9(
            a1.to_native(), a2.to_native(), a3.to_native(), a4.to_native(), a5.to_native(),
            a6.to_native(), a7.to_native(), a8.to_native(), a9.to_native(),
        )
    }

    fn wasm_types() -> (types: Vec<Type>) {
        let types = vec![
            A1::Native::wasm_type(), A2::Native::wasm_type(), A3::Native::wasm_type(),
            A4::Native::wasm_type(), A5::Native::wasm_type(), A6::Native::wasm_type(),
            A7::Native::wasm_type(), A8::Native::wasm_type(), A9::Native::wasm_type(),
        ];
        proof {
            assert(types@ =~= Self::wasm_types_spec());
        }
        types
    }

    proof fn lemma_array_round_trip(self) {
        lemma_scalar_round_trip(self.0);
        lemma_scalar_round_trip(self.1);
        lemma_scalar_round_trip(self.2);
        lemma_scalar_round_trip(self.3);
        lemma_scalar_round_trip(self.4);
        lemma_scalar_round_trip(self.5);
        lemma_scalar_round_trip(self.6);
        lemma_scalar_round_trip(self.7);
        lemma_scalar_round_trip(self.8);
    }

    proof fn lemma_c_struct_round_trip(self) {
        self.0.lemma_native_round_trip();
        self.1.lemma_native_round_trip();
        self.2.lemma_native_round_trip();
        self.3.lemma_native_round_trip();
        self.4.lemma_native_round_trip();
        self.5.lemma_native_round_trip();
        self.6.lemma_native_round_trip();
        self.7.lemma_native_round_trip();
        self.8.lemma_native_round_trip();
    }
}

/// The natives of 10 values, in the order of the values.
pub struct S10<
    A1: WasmExternType, A2: WasmExternType, A3: WasmExternType, A4: WasmExternType,
    A5: WasmExternType, A6: WasmExternType, A7: WasmExternType, A8: WasmExternType,
    A9: WasmExternType, A10: WasmExternType,
>(
    pub A1::Native, pub A2::Native, pub A3::Native, pub A4::Native, pub A5::Native, pub A6::Native,
    pub A7::Native, pub A8::Native, pub A9::Native, pub A10::Native,
);

impl<
    A1: WasmExternType, A2: WasmExternType, A3: WasmExternType, A4: WasmExternType,
    A5: WasmExternType, A6: WasmExternType, A7: WasmExternType, A8: WasmExternType,
    A9: WasmExternType, A10: WasmExternType,
> WasmTypeList for (A1, A2, A3, A4, A5, A6, A7, A8, A9, A10) {
    type CStruct = S10<A1, A2, A3, A4, A5, A6, A7, A8, A9, A10>;

    type Array = [i128; 10];

    open spec fn from_array_spec(array: Seq<i128>) -> Self {
        (
            from_slot::<A1>(array[0]), from_slot::<A2>(array[1]), from_slot::<A3>(array[2]),
            from_slot::<A4>(array[3]), from_slot::<A5>(array[4]), from_slot::<A6>(array[5]),
            from_slot::<A7>(array[6]), from_slot::<A8>(array[7]), from_slot::<A9>(array[8]),
            from_slot::<A10>(array[9]),
        )
    }

    open spec fn into_array_spec(self) -> Seq<i128> {
        seq![
            slot_of(self.0), slot_of(self.1), slot_of(self.2), slot_of(self.3), slot_of(self.4),
            slot_of(self.5), slot_of(self.6), slot_of(self.7), slot_of(self.8), slot_of(self.9),
        ]
    }

    open spec fn from_c_struct_spec(c_struct: S10<
        A1, A2, A3, A4, A5, A6, A7, A8, A9, A10,
    >) -> Self {
        (
            A1::from_native_spec(c_struct.0), A2::from_native_spec(c_struct.1),
            A3::from_native_spec(c_struct.2), A4::from_native_spec(c_struct.3),
            A5::from_native_spec(c_struct.4), A6::from_native_spec(c_struct.5),
            A7::from_native_spec(c_struct.6), A8::from_native_spec(c_struct.7),
            A9::from_native_spec(c_struct.8), A10::from_native_spec(c_struct.9),
        )
    }

    open spec fn into_c_struct_spec(self) -> S10<A1, A2, A3, A4, A5, A6, A7, A8, A9, A10> {
        S10(
            self.0.to_native_spec(), self.1.to_native_spec(), self.2.to_native_spec(),
            self.3.to_native_spec(), self.4.to_native_spec(), self.5.to_native_spec(),
            self.6.to_native_spec(), self.7.to_native_spec(), self.8.to_native_spec(),
            self.9.to_native_spec(),
        )
    }

    open spec fn wasm_types_spec() -> Seq<Type> {
        seq![
            type_of::<A1>(), type_of::<A2>(), type_of::<A3>(), type_of::<A4>(), type_of::<A5>(),
            type_of::<A6>(), type_of::<A7>(), type_of::<A8>(), type_of::<A9>(), type_of::<A10>(),
        ]
    }

    fn from_array(array: [i128; 10]) -> (list: Self) {
        (
            scalar_from_slot(array[0]), scalar_from_slot(array[1]), scalar_from_slot(array[2]),
            scalar_from_slot(array[3]), scalar_from_slot(array[4]), scalar_from_slot(array[5]),
            scalar_from_slot(array[6]), scalar_from_slot(array[7]), scalar_from_slot(array[8]),
            scalar_from_slot(array[9]),
        )
    }

    fn into_array(self) -> (array: [i128; 10]) {
        let (a1, a2, a3, a4, a5, a6, a7, a8, a9, a10) = self;
        let array = [
            scalar_into_slot(a1), scalar_into_slot(a2), scalar_into_slot(a3), scalar_into_slot(a4),
            scalar_into_slot(a5), scalar_into_slot(a6), scalar_into_slot(a7), scalar_into_slot(a8),
            scalar_into_slot(a9), scalar_into_slot(a10),
        ];
        proof {
            assert(array@ =~= self.into_array_spec());
        }
        array
    }

    fn empty_array() -> (array: [i128; 10]) {
        let array: [i128; 10] = [0, 0, 0, 0, 0, 0, 0, 0, 0, 0];
        proof {
            assert(array@ =~= Seq::new(Self::wasm_types_spec().len(), |i: int| 0i128));
        }
        array
    }

    fn from_c_struct(c_struct: S10<A1, A2, A3, A4, A5, A6, A7, A8, A9, A10>) -> (list: Self) {
        let S10(a1, a2, a3, a4, a5, a6, a7, a8, a9, a10) = c_struct;
        (
            A1::from_native(a1), A2::from_native(a2), A3::from_native(a3), A4::from_native(a4),
            A5::from_native(a5), A6::from_native(a6), A7::from_native(a7), A8::from_native(a8),
            A9::from_native(a9), A10::from_native(a10),
        )
    }

    fn into_c_struct(self) -> (c_struct: S10<A1, A2, A3, A4, A5, A6, A7, A8, A9, A10>) {
        let (a1, a2, a3, a4, a5, a6, a7, a8, a9, a10) = self;
        S10(
            a1.to_native(), a2.to_native(), a3.to_native(), a4.to_native(), a5.to_native(),
            a6.to_native(), a7.to_native(), a8.to_native(), a9.to_native(), a10.to_native(),
        )
    }

    fn wasm_types() -> (types: Vec<Type>) {
        let types = vec![
            A1::Native::wasm_type(), A2::Native::wasm_type(), A3::Native::wasm_type(),
            A4::Native::wasm_type(), A5::Native::wasm_type(), A6::Native::wasm_type(),
            A7::Native::wasm_type(), A8::Native::wasm_type(), A9::Native::wasm_type(),
            A10::Native::wasm_type(),
        ];
        proof {
            assert(types@ =~= Self::wasm_types_spec());
        }
        types
    }

    proof fn lemma_array_round_trip(self) {
        lemma_scalar_round_trip(self.0);
        lemma_scalar_round_trip(self.1);
        lemma_scalar_round_trip(self.2);
        lemma_scalar_round_trip(self.3);
        lemma_scalar_round_trip(self.4);
        lemma_scalar_round_trip(self.5);
        lemma_scalar_round_trip(self.6);
        lemma_scalar_round_trip(self.7);
        lemma_scalar_round_trip(self.8);
        lemma_scalar_round_trip(self.9);
    }

    proof fn lemma_c_struct_round_trip(self) {
        self.0.lemma_native_round_trip();
        self.1.lemma_native_round_trip();
        self.2.lemma_native_round_trip();
        self.3.lemma_native_round_trip();
        self.4.lemma_native_round_trip();
        self.5.lemma_native_round_trip();
        self.6.lemma_native_round_trip();
        self.7.lemma_native_round_trip();
        self.8.lemma_native_round_trip();
        self.9.lemma_native_round_trip();
    }
}

/// The natives of 11 values, in the order of the values.
pub struct S11<
    A1: WasmExternType, A2: WasmExternType, A3: WasmExternType, A4: WasmExternType,
    A5: WasmExternType, A6: WasmExternType, A7: WasmExternType, A8: WasmExternType,
    A9: WasmExternType, A10: WasmExternType, A11: WasmExternType,
>(
    pub A1::Native, pub A2::Native, pub A3::Native, pub A4::Native, pub A5::Native, pub A6::Native,
    pub A7::Native, pub A8::Native, pub A9::Native, pub A10::Native, pub A11::Native,
);

impl<
    A1: WasmExternType, A2: WasmExternType, A3: WasmExternType, A4: WasmExternType,
    A5: WasmExternType, A6: WasmExternType, A7: WasmExternType, A8: WasmExternType,
    A9: WasmExternType, A10: WasmExternType, A11: WasmExternType,
> WasmTypeList for (A1, A2, A3, A4, A5, A6, A7, A8, A9, A10, A11) {
    type CStruct = S11<A1, A2, A3, A4, A5, A6, A7, A8, A9, A10, A11>;

    type Array = [i128; 11];

    open spec fn from_array_spec(array: Seq<i128>) -> Self {
        (
            from_slot::<A1>(array[0]), from_slot::<A2>(array[1]), from_slot::<A3>(array[2]),
            from_slot::<A4>(array[3]), from_slot::<A5>(array[4]), from_slot::<A6>(array[5]),
            from_slot::<A7>(array[6]), from_slot::<A8>(array[7]), from_slot::<A9>(array[8]),
            from_slot::<A10>(array[9]), from_slot::<A11>(array[10]),
        )
    }

    open spec fn into_array_spec(self) -> Seq<i128> {
        seq![
            slot_of(self.0), slot_of(self.1), slot_of(self.2), slot_of(self.3), slot_of(self.4),
            slot_of(self.5), slot_of(self.6), slot_of(self.7), slot_of(self.8), slot_of(self.9),
            slot_of(self.10),
        ]
    }

    open spec fn from_c_struct_spec(c_struct: S11<
        A1, A2, A3, A4, A5, A6, A7, A8, A9, A10, A11,
    >) -> Self {
        (
            A1::from_native_spec(c_struct.0), A2::from_native_spec(c_struct.1),
            A3::from_native_spec(c_struct.2), A4::from_native_spec(c_struct.3),
            A5::from_native_spec(c_struct.4), A6::from_native_spec(c_struct.5),
            A7::from_native_spec(c_struct.6), A8::from_native_spec(c_struct.7),
            A9::from_native_spec(c_struct.8), A10::from_native_spec(c_struct.9),
            A11::from_native_spec(c_struct.10),
        )
    }

    open spec fn into_c_struct_spec(self) -> S11<A1, A2, A3, A4, A5, A6, A7, A8, A9, A10, A11> {
        S11(
            self.0.to_native_spec(), self.1.to_native_spec(), self.2.to_native_spec(),
            self.3.to_native_spec(), self.4.to_native_spec(), self.5.to_native_spec(),
            self.6.to_native_spec(), self.7.to_native_spec(), self.8.to_native_spec(),
            self.9.to_native_spec(), self.10.to_native_spec(),
        )
    }

    open spec fn wasm_types_spec() -> Seq<Type> {
        seq![
            type_of::<A1>(), type_of::<A2>(), type_of::<A3>(), type_of::<A4>(), type_of::<A5>(),
            type_of::<A6>(), type_of::<A7>(), type_of::<A8>(), type_of::<A9>(), type_of::<A10>(),
            type_of::<A11>(),
        ]
    }

    fn from_array(array: [i128; 11]) -> (list: Self) {
        (
            scalar_from_slot(array[0]), scalar_from_slot(array[1]), scalar_from_slot(array[2]),
            scalar_from_slot(array[3]), scalar_from_slot(array[4]), scalar_from_slot(array[5]),
            scalar_from_slot(array[6]), scalar_from_slot(array[7]), scalar_from_slot(array[8]),
            scalar_from_slot(array[9]), scalar_from_slot(array[10]),
        )
    }

    fn into_array(self) -> (array: [i128; 11]) {
        let (a1, a2, a3, a4, a5, a6, a7, a8, a9, a10, a11) = self;
        let array = [
            scalar_into_slot(a1), scalar_into_slot(a2), scalar_into_slot(a3), scalar_into_slot(a4),
            scalar_into_slot(a5), scalar_into_slot(a6), scalar_into_slot(a7), scalar_into_slot(a8),
            scalar_into_slot(a9), scalar_into_slot(a10), scalar_into_slot(a11),
        ];
        proof {
            assert(array@ =~= self.into_array_spec());
        }
        array
    }

    fn empty_array() -> (array: [i128; 11]) {
        let array: [i128; 11] = [0, 0, 0, 0, 0, 0, 0, 0, 0, 0, 0];
        proof {
            assert(array@ =~= Seq::new(Self::wasm_types_spec().len(), |i: int| 0i128));
        }
        array
    }

    fn from_c_struct(c_struct: S11<A1, A2, A3, A4, A5, A6, A7, A8, A9, A10, A11>) -> (list: Self) {
        let S11(a1, a2, a3, a4, a5, a6, a7, a8, a9, a10, a11) = c_struct;
        (
            A1::from_native(a1), A2::from_native(a2), A3::from_native(a3), A4::from_native(a4),
            A5::from_native(a5), A6::from_native(a6), A7::from_native(a7), A8::from_native(a8),
            A9::from_native(a9), A10::from_native(a10), A11::from_native(a11),
        )
    }

    fn into_c_struct(self) -> (c_struct: S11<A1, A2, A3, A4, A5, A6, A7, A8, A9, A10, A11>) {
        let (a1, a2, a3, a4, a5, a6, a7, a8, a9, a10, a11) = self;
        S11(
            a1.to_native(), a2.to_native(), a3.to_native(), a4.to_native(), a5.to_native(),
            a6.to_native(), a7.to_native(), a8.to_native(), a9.to_native(), a10.to_native(),
            a11.to_native(),
        )
    }

    fn wasm_types() -> (types: Vec<Type>) {
        let types = vec![
            A1::Native::wasm_type(), A2::Native::wasm_type(), A3::Native::wasm_type(),
            A4::Native::wasm_type(), A5::Native::wasm_type(), A6::Native::wasm_type(),
            A7::Native::wasm_type(), A8::Native::wasm_type(), A9::Native::wasm_type(),
            A10::Native::wasm_type(), A11::Native::wasm_type(),
        ];
        proof {
            assert(types@ =~= Self::wasm_types_spec());
        }
        types
    }

    proof fn lemma_array_round_trip(self) {
        lemma_scalar_round_trip(self.0);
        lemma_scalar_round_trip(self.1);
        lemma_scalar_round_trip(self.2);
        lemma_scalar_round_trip(self.3);
        lemma_scalar_round_trip(self.4);
        lemma_scalar_round_trip(self.5);
        lemma_scalar_round_trip(self.6);
        lemma_scalar_round_trip(self.7);
        lemma_scalar_round_trip(self.8);
        lemma_scalar_round_trip(self.9);
        lemma_scalar_round_trip(self.10);
    }

    proof fn lemma_c_struct_round_trip(self) {
        self.0.lemma_native_round_trip();
        self.1.lemma_native_round_trip();
        self.2.lemma_native_round_trip();
        self.3.lemma_native_round_trip();
        self.4.lemma_native_round_trip();
        self.5.lemma_native_round_trip();
        self.6.lemma_native_round_trip();
        self.7.lemma_native_round_trip();
        self.8.lemma_native_round_trip();
        self.9.lemma_native_round_trip();
        self.10.lemma_native_round_trip();
    }
}

/// The natives of 12 values, in the order of the values.
pub struct S12<
    A1: WasmExternType, A2: WasmExternType, A3: WasmExternType, A4: WasmExternType,
    A5: WasmExternType, A6: WasmExternType, A7: WasmExternType, A8: WasmExternType,
    A9: WasmExternType, A10: WasmExternType, A11: WasmExternType, A12: WasmExternType,
>(
    pub A1::Native, pub A2::Native, pub A3::Native, pub A4::Native, pub A5::Native, pub A6::Native,
    pub A7::Native, pub A8::Native, pub A9::Native, pub A10::Native, pub A11::Native,
    pub A12::Native,
);

impl<
    A1: WasmExternType, A2: WasmExternType, A3: WasmExternType, A4: WasmExternType,
    A5: WasmExternType, A6: WasmExternType, A7: WasmExternType, A8: WasmExternType,
    A9: WasmExternType, A10: WasmExternType, A11: WasmExternType, A12: WasmExternType,
> WasmTypeList for (A1, A2, A3, A4, A5, A6, A7, A8, A9, A10, A11, A12) {
    type CStruct = S12<A1, A2, A3, A4, A5, A6, A7, A8, A9, A10, A11, A12>;

    type Array = [i128; 12];

    open spec fn from_array_spec(array: Seq<i128>) -> Self {
        (
            from_slot::<A1>(array[0]), from_slot::<A2>(array[1]), from_slot::<A3>(array[2]),
            from_slot::<A4>(array[3]), from_slot::<A5>(array[4]), from_slot::<A6>(array[5]),
            from_slot::<A7>(array[6]), from_slot::<A8>(array[7]), from_slot::<A9>(array[8]),
            from_slot::<A10>(array[9]), from_slot::<A11>(array[10]), from_slot::<A12>(array[11]),
        )
    }

    open spec fn into_array_spec(self) -> Seq<i128> {
        seq![
            slot_of(self.0), slot_of(self.1), slot_of(self.2), slot_of(self.3), slot_of(self.4),
            slot_of(self.5), slot_of(self.6), slot_of(self.7), slot_of(self.8), slot_of(self.9),
            slot_of(self.10), slot_of(self.11),
        ]
    }

    open spec fn from_c_struct_spec(c_struct: S12<
        A1, A2, A3, A4, A5, A6, A7, A8, A9, A10, A11, A12,
    >) -> Self {
        (
            A1::from_native_spec(c_struct.0), A2::from_native_spec(c_struct.1),
            A3::from_native_spec(c_struct.2), A4::from_native_spec(c_struct.3),
            A5::from_native_spec(c_struct.4), A6::from_native_spec(c_struct.5),
            A7::from_native_spec(c_struct.6), A8::from_native_spec(c_struct.7),
            A9::from_native_spec(c_struct.8), A10::from_native_spec(c_struct.9),
            A11::from_native_spec(c_struct.10), A12::from_native_spec(c_struct.11),
        )
    }

    open spec fn into_c_struct_spec(self) -> S12<
        A1, A2, A3, A4, A5, A6, A7, A8, A9, A10, A11, A12,
    > {
        S12(
            self.0.to_native_spec(), self.1.to_native_spec(), self.2.to_native_spec(),
            self.3.to_native_spec(), self.4.to_native_spec(), self.5.to_native_spec(),
            self.6.to_native_spec(), self.7.to_native_spec(), self.8.to_native_spec(),
            self.9.to_native_spec(), self.10.to_native_spec(), self.11.to_native_spec(),
        )
    }

    open spec fn wasm_types_spec() -> Seq<Type> {
        seq![
            type_of::<A1>(), type_of::<A2>(), type_of::<A3>(), type_of::<A4>(), type_of::<A5>(),
            type_of::<A6>(), type_of::<A7>(), type_of::<A8>(), type_of::<A9>(), type_of::<A10>(),
            type_of::<A11>(), type_of::<A12>(),
        ]
    }

    fn from_array(array: [i128; 12]) -> (list: Self) {
        (
            scalar_from_slot(array[0]), scalar_from_slot(array[1]), scalar_from_slot(array[2]),
            scalar_from_slot(array[3]), scalar_from_slot(array[4]), scalar_from_slot(array[5]),
            scalar_from_slot(array[6]), scalar_from_slot(array[7]), scalar_from_slot(array[8]),
            scalar_from_slot(array[9]), scalar_from_slot(array[10]), scalar_from_slot(array[11]),
        )
    }

    fn into_array(self) -> (array: [i128; 12]) {
        let (a1, a2, a3, a4, a5, a6, a7, a8, a9, a10, a11, a12) = self;
        let array = [
            scalar_into_slot(a1), scalar_into_slot(a2), scalar_into_slot(a3), scalar_into_slot(a4),
            scalar_into_slot(a5), scalar_into_slot(a6), scalar_into_slot(a7), scalar_into_slot(a8),
            scalar_into_slot(a9), scalar_into_slot(a10), scalar_into_slot(a11),
            scalar_into_slot(a12),
        ];
        proof {
            assert(array@ =~= self.into_array_spec());
        }
        array
    }

    fn empty_array() -> (array: [i128; 12]) {
        let array: [i128; 12] = [0, 0, 0, 0, 0, 0, 0, 0, 0, 0, 0, 0];
        proof {
            assert(array@ =~= Seq::new(Self::wasm_types_spec().len(), |i: int| 0i128));
        }
        array
    }

    fn from_c_struct(c_struct: S12<
        A1, A2, A3, A4, A5, A6, A7, A8, A9, A10, A11, A12,
    >) -> (list: Self) {
        let S12(a1, a2, a3, a4, a5, a6, a7, a8, a9, a10, a11, a12) = c_struct;
        (
            A1::from_native(a1), A2::from_native(a2), A3::from_native(a3), A4::from_native(a4),
            A5::from_native(a5), A6::from_native(a6), A7::from_native(a7), A8::from_native(a8),
            A9::from_native(a9), A10::from_native(a10), A11::from_native(a11),
            A12::from_native(a12),
        )
    }

    fn into_c_struct(self) -> (c_struct: S12<A1, A2, A3, A4, A5, A6, A7, A8, A9, A10, A11, A12>) {
        let (a1, a2, a3, a4, a5, a6, a7, a8, a9, a10, a11, a12) = self;
        S12(
            a1.to_native(), a2.to_native(), a3.to_native(), a4.to_native(), a5.to_native(),
            a6.to_native(), a7.to_native(), a8.to_native(), a9.to_native(), a10.to_native(),
            a11.to_native(), a12.to_native(),
        )
    }

    fn wasm_types() -> (types: Vec<Type>) {
        let types = vec![
            A1::Native::wasm_type(), A2::Native::wasm_type(), A3::Native::wasm_type(),
            A4::Native::wasm_type(), A5::Native::wasm_type(), A6::Native::wasm_type(),
            A7::Native::wasm_type(), A8::Native::wasm_type(), A9::Native::wasm_type(),
            A10::Native::wasm_type(), A11::Native::wasm_type(), A12::Native::wasm_type(),
        ];
        proof {
            assert(types@ =~= Self::wasm_types_spec());
        }
        types
    }

    proof fn lemma_array_round_trip(self) {
        lemma_scalar_round_trip(self.0);
        lemma_scalar_round_trip(self.1);
        lemma_scalar_round_trip(self.2);
        lemma_scalar_round_trip(self.3);
        lemma_scalar_round_trip(self.4);
        lemma_scalar_round_trip(self.5);
        lemma_scalar_round_trip(self.6);
        lemma_scalar_round_trip(self.7);
        lemma_scalar_round_trip(self.8);
        lemma_scalar_round_trip(self.9);
        lemma_scalar_round_trip(self.10);
        lemma_scalar_round_trip(self.11);
    }

    proof fn lemma_c_struct_round_trip(self) {
        self.0.lemma_native_round_trip();
        self.1.lemma_native_round_trip();
        self.2.lemma_native_round_trip();
        self.3.lemma_native_round_trip();
        self.4.lemma_native_round_trip();
        self.5.lemma_native_round_trip();
        self.6.lemma_native_round_trip();
        self.7.lemma_native_round_trip();
        self.8.lemma_native_round_trip();
        self.9.lemma_native_round_trip();
        self.10.lemma_native_round_trip();
        self.11.lemma_native_round_trip();
    }
}

/// The natives of 13 values, in the order of the values.
pub struct S13<
    A1: WasmExternType, A2: WasmExternType, A3: WasmExternType, A4: WasmExternType,
    A5: WasmExternType, A6: WasmExternType, A7: WasmExternType, A8: WasmExternType,
    A9: WasmExternType, A10: WasmExternType, A11: WasmExternType, A12: WasmExternType,
    A13: WasmExternType,
>(
    pub A1::Native, pub A2::Native, pub A3::Native, pub A4::Native, pub A5::Native, pub A6::Native,
    pub A7::Native, pub A8::Native, pub A9::Native, pub A10::Native, pub A11::Native,
    pub A12::Native, pub A13::Native,
);

impl<
    A1: WasmExternType, A2: WasmExternType, A3: WasmExternType, A4: WasmExternType,
    A5: WasmExternType, A6: WasmExternType, A7: WasmExternType, A8: WasmExternType,
    A9: WasmExternType, A10: WasmExternType, A11: WasmExternType, A12: WasmExternType,
    A13: WasmExternType,
> WasmTypeList for (A1, A2, A3, A4, A5, A6, A7, A8, A9, A10, A11, A12, A13) {
    type CStruct = S13<A1, A2, A3, A4, A5, A6, A7, A8, A9, A10, A11, A12, A13>;

    type Array = [i128; 13];

    open spec fn from_array_spec(array: Seq<i128>) -> Self {
        (
            from_slot::<A1>(array[0]), from_slot::<A2>(array[1]), from_slot::<A3>(array[2]),
            from_slot::<A4>(array[3]), from_slot::<A5>(array[4]), from_slot::<A6>(array[5]),
            from_slot::<A7>(array[6]), from_slot::<A8>(array[7]), from_slot::<A9>(array[8]),
            from_slot::<A10>(array[9]), from_slot::<A11>(array[10]), from_slot::<A12>(array[11]),
            from_slot::<A13>(array[12]),
        )
    }

    open spec fn into_array_spec(self) -> Seq<i128> {
        seq![
            slot_of(self.0), slot_of(self.1), slot_of(self.2), slot_of(self.3), slot_of(self.4),
            slot_of(self.5), slot_of(self.6), slot_of(self.7), slot_of(self.8), slot_of(self.9),
            slot_of(self.10), slot_of(self.11), slot_of(self.12),
        ]
    }

    open spec fn from_c_struct_spec(c_struct: S13<
        A1, A2, A3, A4, A5, A6, A7, A8, A9, A10, A11, A12, A13,
    >) -> Self {
        (
            A1::from_native_spec(c_struct.0), A2::from_native_spec(c_struct.1),
            A3::from_native_spec(c_struct.2), A4::from_native_spec(c_struct.3),
            A5::from_native_spec(c_struct.4), A6::from_native_spec(c_struct.5),
            A7::from_native_spec(c_struct.6), A8::from_native_spec(c_struct.7),
            A9::from_native_spec(c_struct.8), A10::from_native_spec(c_struct.9),
            A11::from_native_spec(c_struct.10), A12::from_native_spec(c_struct.11),
            A13::from_native_spec(c_struct.12),
        )
    }

    open spec fn into_c_struct_spec(self) -> S13<
        A1, A2, A3, A4, A5, A6, A7, A8, A9, A10, A11, A12, A13,
    > {
        S13(
            self.0.to_native_spec(), self.1.to_native_spec(), self.2.to_native_spec(),
            self.3.to_native_spec(), self.4.to_native_spec(), self.5.to_native_spec(),
            self.6.to_native_spec(), self.7.to_native_spec(), self.8.to_native_spec(),
            self.9.to_native_spec(), self.10.to_native_spec(), self.11.to_native_spec(),
            self.12.to_native_spec(),
        )
    }

    open spec fn wasm_types_spec() -> Seq<Type> {
        seq![
            type_of::<A1>(), type_of::<A2>(), type_of::<A3>(), type_of::<A4>(), type_of::<A5>(),
            type_of::<A6>(), type_of::<A7>(), type_of::<A8>(), type_of::<A9>(), type_of::<A10>(),
            type_of::<A11>(), type_of::<A12>(), type_of::<A13>(),
        ]
    }

    fn from_array(array: [i128; 13]) -> (list: Self) {
        (
            scalar_from_slot(array[0]), scalar_from_slot(array[1]), scalar_from_slot(array[2]),
            scalar_from_slot(array[3]), scalar_from_slot(array[4]), scalar_from_slot(array[5]),
            scalar_from_slot(array[6]), scalar_from_slot(array[7]), scalar_from_slot(array[8]),
            scalar_from_slot(array[9]), scalar_from_slot(array[10]), scalar_from_slot(array[11]),
            scalar_from_slot(array[12]),
        )
    }

    fn into_array(self) -> (array: [i128; 13]) {
        let (a1, a2, a3, a4, a5, a6, a7, a8, a9, a10, a11, a12, a13) = self;
        let array = [
            scalar_into_slot(a1), scalar_into_slot(a2), scalar_into_slot(a3), scalar_into_slot(a4),
            scalar_into_slot(a5), scalar_into_slot(a6), scalar_into_slot(a7), scalar_into_slot(a8),
            scalar_into_slot(a9), scalar_into_slot(a10), scalar_into_slot(a11),
            scalar_into_slot(a12), scalar_into_slot(a13),
        ];
        proof {
            assert(array@ =~= self.into_array_spec());
        }
        array
    }

    fn empty_array() -> (array: [i128; 13]) {
        let array: [i128; 13] = [0, 0, 0, 0, 0, 0, 0, 0, 0, 0, 0, 0, 0];
        proof {
            assert(array@ =~= Seq::new(Self::wasm_types_spec().len(), |i: int| 0i128));
        }
        array
    }

    fn from_c_struct(c_struct: S13<
        A1, A2, A3, A4, A5, A6, A7, A8, A9, A10, A11, A12, A13,
    >) -> (list: Self) {
        let S13(a1, a2, a3, a4, a5, a6, a7, a8, a9, a10, a11, a12, a13) = c_struct;
        (
            A1::from_native(a1), A2::from_native(a2), A3::from_native(a3), A4::from_native(a4),
            A5::from_native(a5), A6::from_native(a6), A7::from_native(a7), A8::from_native(a8),
            A9::from_native(a9), A10::from_native(a10), A11::from_native(a11),
            A12::from_native(a12), A13::from_native(a13),
        )
    }

    fn into_c_struct(self) -> (c_struct: S13<
        A1, A2, A3, A4, A5, A6, A7, A8, A9, A10, A11, A12, A13,
    >) {
        let (a1, a2, a3, a4, a5, a6, a7, a8, a9, a10, a11, a12, a13) = self;
        S13(
            a1.to_native(), a2.to_native(), a3.to_native(), a4.to_native(), a5.to_native(),
            a6.to_native(), a7.to_native(), a8.to_native(), a9.to_native(), a10.to_native(),
            a11.to_native(), a12.to_native(), a13.to_native(),
        )
    }

    fn wasm_types() -> (types: Vec<Type>) {
        let types = vec![
            A1::Native::wasm_type(), A2::Native::wasm_type(), A3::Native::wasm_type(),
            A4::Native::wasm_type(), A5::Native::wasm_type(), A6::Native::wasm_type(),
            A7::Native::wasm_type(), A8::Native::wasm_type(), A9::Native::wasm_type(),
            A10::Native::wasm_type(), A11::Native::wasm_type(), A12::Native::wasm_type(),
            A13::Native::wasm_type(),
        ];
        proof {
            assert(types@ =~= Self::wasm_types_spec());
        }
        types
    }

    proof fn lemma_array_round_trip(self) {
        lemma_scalar_round_trip(self.0);
        lemma_scalar_round_trip(self.1);
        lemma_scalar_round_trip(self.2);
        lemma_scalar_round_trip(self.3);
        lemma_scalar_round_trip(self.4);
        lemma_scalar_round_trip(self.5);
        lemma_scalar_round_trip(self.6);
        lemma_scalar_round_trip(self.7);
        lemma_scalar_round_trip(self.8);
        lemma_scalar_round_trip(self.9);
        lemma_scalar_round_trip(self.10);
        lemma_scalar_round_trip(self.11);
        lemma_scalar_round_trip(self.12);
    }

    proof fn lemma_c_struct_round_trip(self) {
        self.0.lemma_native_round_trip();
        self.1.lemma_native_round_trip();
        self.2.lemma_native_round_trip();
        self.3.lemma_native_round_trip();
        self.4.lemma_native_round_trip();
        self.5.lemma_native_round_trip();
        self.6.lemma_native_round_trip();
        self.7.lemma_native_round_trip();
        self.8.lemma_native_round_trip();
        self.9.lemma_native_round_trip();
        self.10.lemma_native_round_trip();
        self.11.lemma_native_round_trip();
        self.12.lemma_native_round_trip();
    }
}

/// The natives of 14 values, in the order of the values.
pub struct S14<
    A1: WasmExternType, A2: WasmExternType, A3: WasmExternType, A4: WasmExternType,
    A5: WasmExternType, A6: WasmExternType, A7: WasmExternType, A8: WasmExternType,
    A9: WasmExternType, A10: WasmExternType, A11: WasmExternType, A12: WasmExternType,
    A13: WasmExternType, A14: WasmExternType,
>(
    pub A1::Native, pub A2::Native, pub A3::Native, pub A4::Native, pub A5::Native, pub A6::Native,
    pub A7::Native, pub A8::Native, pub A9::Native, pub A10::Native, pub A11::Native,
    pub A12::Native, pub A13::Native, pub A14::Native,
);

impl<
    A1: WasmExternType, A2: WasmExternType, A3: WasmExternType, A4: WasmExternType,
    A5: WasmExternType, A6: WasmExternType, A7: WasmExternType, A8: WasmExternType,
    A9: WasmExternType, A10: WasmExternType, A11: WasmExternType, A12: WasmExternType,
    A13: WasmExternType, A14: WasmExternType,
> WasmTypeList for (A1, A2, A3, A4, A5, A6, A7, A8, A9, A10, A11, A12, A13, A14) {
    type CStruct = S14<A1, A2, A3, A4, A5, A6, A7, A8, A9, A10, A11, A12, A13, A14>;

    type Array = [i128; 14];

    open spec fn from_array_spec(array: Seq<i128>) -> Self {
        (
            from_slot::<A1>(array[0]), from_slot::<A2>(array[1]), from_slot::<A3>(array[2]),
            from_slot::<A4>(array[3]), from_slot::<A5>(array[4]), from_slot::<A6>(array[5]),
            from_slot::<A7>(array[6]), from_slot::<A8>(array[7]), from_slot::<A9>(array[8]),
            from_slot::<A10>(array[9]), from_slot::<A11>(array[10]), from_slot::<A12>(array[11]),
            from_slot::<A13>(array[12]), from_slot::<A14>(array[13]),
        )
    }

    open spec fn into_array_spec(self) -> Seq<i128> {
        seq![
            slot_of(self.0), slot_of(self.1), slot_of(self.2), slot_of(self.3), slot_of(self.4),
            slot_of(self.5), slot_of(self.6), slot_of(self.7), slot_of(self.8), slot_of(self.9),
            slot_of(self.10), slot_of(self.11), slot_of(self.12), slot_of(self.13),
        ]
    }

    open spec fn from_c_struct_spec(c_struct: S14<
        A1, A2, A3, A4, A5, A6, A7, A8, A9, A10, A11, A12, A13, A14,
    >) -> Self {
        (
            A1::from_native_spec(c_struct.0), A2::from_native_spec(c_struct.1),
            A3::from_native_spec(c_struct.2), A4::from_native_spec(c_struct.3),
            A5::from_native_spec(c_struct.4), A6::from_native_spec(c_struct.5),
            A7::from_native_spec(c_struct.6), A8::from_native_spec(c_struct.7),
            A9::from_native_spec(c_struct.8), A10::from_native_spec(c_struct.9),
            A11::from_native_spec(c_struct.10), A12::from_native_spec(c_struct.11),
            A13::from_native_spec(c_struct.12), A14::from_native_spec(c_struct.13),
        )
    }

    open spec fn into_c_struct_spec(self) -> S14<
        A1, A2, A3, A4, A5, A6, A7, A8, A9, A10, A11, A12, A13, A14,
    > {
        S14(
            self.0.to_native_spec(), self.1.to_native_spec(), self.2.to_native_spec(),
            self.3.to_native_spec(), self.4.to_native_spec(), self.5.to_native_spec(),
            self.6.to_native_spec(), self.7.to_native_spec(), self.8.to_native_spec(),
            self.9.to_native_spec(), self.10.to_native_spec(), self.11.to_native_spec(),
            self.12.to_native_spec(), self.13.to_native_spec(),
        )
    }

    open spec fn wasm_types_spec() -> Seq<Type> {
        seq![
            type_of::<A1>(), type_of::<A2>(), type_of::<A3>(), type_of::<A4>(), type_of::<A5>(),
            type_of::<A6>(), type_of::<A7>(), type_of::<A8>(), type_of::<A9>(), type_of::<A10>(),
            type_of::<A11>(), type_of::<A12>(), type_of::<A13>(), type_of::<A14>(),
        ]
    }

    fn from_array(array: [i128; 14]) -> (list: Self) {
        (
            scalar_from_slot(array[0]), scalar_from_slot(array[1]), scalar_from_slot(array[2]),
            scalar_from_slot(array[3]), scalar_from_slot(array[4]), scalar_from_slot(array[5]),
            scalar_from_slot(array[6]), scalar_from_slot(array[7]), scalar_from_slot(array[8]),
            scalar_from_slot(array[9]), scalar_from_slot(array[10]), scalar_from_slot(array[11]),
            scalar_from_slot(array[12]), scalar_from_slot(array[13]),
        )
    }

    fn into_array(self) -> (array: [i128; 14]) {
        let (a1, a2, a3, a4, a5, a6, a7, a8, a9, a10, a11, a12, a13, a14) = self;
        let array = [
            scalar_into_slot(a1), scalar_into_slot(a2), scalar_into_slot(a3), scalar_into_slot(a4),
            scalar_into_slot(a5), scalar_into_slot(a6), scalar_into_slot(a7), scalar_into_slot(a8),
            scalar_into_slot(a9), scalar_into_slot(a10), scalar_into_slot(a11),
            scalar_into_slot(a12), scalar_into_slot(a13), scalar_into_slot(a14),
        ];
        proof {
            assert(array@ =~= self.into_array_spec());
        }
        array
    }

    fn empty_array() -> (array: [i128; 14]) {
        let array: [i128; 14] = [0, 0, 0, 0, 0, 0, 0, 0, 0, 0, 0, 0, 0, 0];
        proof {
            assert(array@ =~= Seq::new(Self::wasm_types_spec().len(), |i: int| 0i128));
        }
        array
    }

    fn from_c_struct(c_struct: S14<
        A1, A2, A3, A4, A5, A6, A7, A8, A9, A10, A11, A12, A13, A14,
    >) -> (list: Self) {
        let S14(a1, a2, a3, a4, a5, a6, a7, a8, a9, a10, a11, a12, a13, a14) = c_struct;
        (
            A1::from_native(a1), A2::from_native(a2), A3::from_native(a3), A4::from_native(a4),
            A5::from_native(a5), A6::from_native(a6), A7::from_native(a7), A8::from_native(a8),
            A9::from_native(a9), A10::from_native(a10), A11::from_native(a11),
            A12::from_native(a12), A13::from_native(a13), A14::from_native(a14),
        )
    }

    fn into_c_struct(self) -> (c_struct: S14<
        A1, A2, A3, A4, A5, A6, A7, A8, A9, A10, A11, A12, A13, A14,
    >) {
        let (a1, a2, a3, a4, a5, a6, a7, a8, a9, a10, a11, a12, a13, a14) = self;
        S14(
            a1.to_native(), a2.to_native(), a3.to_native(), a4.to_native(), a5.to_native(),
            a6.to_native(), a7.to_native(), a8.to_native(), a9.to_native(), a10.to_native(),
            a11.to_native(), a12.to_native(), a13.to_native(), a14.to_native(),
        )
    }

    fn wasm_types() -> (types: Vec<Type>) {
        let types = vec![
            A1::Native::wasm_type(), A2::Native::wasm_type(), A3::Native::wasm_type(),
            A4::Native::wasm_type(), A5::Native::wasm_type(), A6::Native::wasm_type(),
            A7::Native::wasm_type(), A8::Native::wasm_type(), A9::Native::wasm_type(),
            A10::Native::wasm_type(), A11::Native::wasm_type(), A12::Native::wasm_type(),
            A13::Native::wasm_type(), A14::Native::wasm_type(),
        ];
        proof {
            assert(types@ =~= Self::wasm_types_spec());
        }
        types
    }

    proof fn lemma_array_round_trip(self) {
        lemma_scalar_round_trip(self.0);
        lemma_scalar_round_trip(self.1);
        lemma_scalar_round_trip(self.2);
        lemma_scalar_round_trip(self.3);
        lemma_scalar_round_trip(self.4);
        lemma_scalar_round_trip(self.5);
        lemma_scalar_round_trip(self.6);
        lemma_scalar_round_trip(self.7);
        lemma_scalar_round_trip(self.8);
        lemma_scalar_round_trip(self.9);
        lemma_scalar_round_trip(self.10);
        lemma_scalar_round_trip(self.11);
        lemma_scalar_round_trip(self.12);
        lemma_scalar_round_trip(self.13);
    }

    proof fn lemma_c_struct_round_trip(self) {
        self.0.lemma_native_round_trip();
        self.1.lemma_native_round_trip();
        self.2.lemma_native_round_trip();
        self.3.lemma_native_round_trip();
        self.4.lemma_native_round_trip();
        self.5.lemma_native_round_trip();
        self.6.lemma_native_round_trip();
        self.7.lemma_native_round_trip();
        self.8.lemma_native_round_trip();
        self.9.lemma_native_round_trip();
        self.10.lemma_native_round_trip();
        self.11.lemma_native_round_trip();
        self.12.lemma_native_round_trip();
        self.13.lemma_native_round_trip();
    }
}

/// The natives of 15 values, in the order of the values.
pub struct S15<
    A1: WasmExternType, A2: WasmExternType, A3: WasmExternType, A4: WasmExternType,
    A5: WasmExternType, A6: WasmExternType, A7: WasmExternType, A8: WasmExternType,
    A9: WasmExternType, A10: WasmExternType, A11: WasmExternType, A12: WasmExternType,
    A13: WasmExternType, A14: WasmExternType, A15: WasmExternType,
>(
    pub A1::Native, pub A2::Native, pub A3::Native, pub A4::Native, pub A5::Native, pub A6::Native,
    pub A7::Native, pub A8::Native, pub A9::Native, pub A10::Native, pub A11::Native,
    pub A12::Native, pub A13::Native, pub A14::Native, pub A15::Native,
);

impl<
    A1: WasmExternType, A2: WasmExternType, A3: WasmExternType, A4: WasmExternType,
    A5: WasmExternType, A6: WasmExternType, A7: WasmExternType, A8: WasmExternType,
    A9: WasmExternType, A10: WasmExternType, A11: WasmExternType, A12: WasmExternType,
    A13: WasmExternType, A14: WasmExternType, A15: WasmExternType,
> WasmTypeList for (A1, A2, A3, A4, A5, A6, A7, A8, A9, A10, A11, A12, A13, A14, A15) {
    type CStruct = S15<A1, A2, A3, A4, A5, A6, A7, A8, A9, A10, A11, A12, A13, A14, A15>;

    type Array = [i128; 15];

    open spec fn from_array_spec(array: Seq<i128>) -> Self {
        (
            from_slot::<A1>(array[0]), from_slot::<A2>(array[1]), from_slot::<A3>(array[2]),
            from_slot::<A4>(array[3]), from_slot::<A5>(array[4]), from_slot::<A6>(array[5]),
            from_slot::<A7>(array[6]), from_slot::<A8>(array[7]), from_slot::<A9>(array[8]),
            from_slot::<A10>(array[9]), from_slot::<A11>(array[10]), from_slot::<A12>(array[11]),
            from_slot::<A13>(array[12]), from_slot::<A14>(array[13]), from_slot::<A15>(array[14]),
        )
    }

    open spec fn into_array_spec(self) -> Seq<i128> {
        seq![
            slot_of(self.0), slot_of(self.1), slot_of(self.2), slot_of(self.3), slot_of(self.4),
            slot_of(self.5), slot_of(self.6), slot_of(self.7), slot_of(self.8), slot_of(self.9),
            slot_of(self.10), slot_of(self.11), slot_of(self.12), slot_of(self.13),
            slot_of(self.14),
        ]
    }

    open spec fn from_c_struct_spec(c_struct: S15<
        A1, A2, A3, A4, A5, A6, A7, A8, A9, A10, A11, A12, A13, A14, A15,
    >) -> Self {
        (
            A1::from_native_spec(c_struct.0), A2::from_native_spec(c_struct.1),
            A3::from_native_spec(c_struct.2), A4::from_native_spec(c_struct.3),
            A5::from_native_spec(c_struct.4), A6::from_native_spec(c_struct.5),
            A7::from_native_spec(c_struct.6), A8::from_native_spec(c_struct.7),
            A9::from_native_spec(c_struct.8), A10::from_native_spec(c_struct.9),
            A11::from_native_spec(c_struct.10), A12::from_native_spec(c_struct.11),
            A13::from_native_spec(c_struct.12), A14::from_native_spec(c_struct.13),
            A15::from_native_spec(c_struct.14),
        )
    }

    open spec fn into_c_struct_spec(self) -> S15<
        A1, A2, A3, A4, A5, A6, A7, A8, A9, A10, A11, A12, A13, A14, A15,
    > {
        S15(
            self.0.to_native_spec(), self.1.to_native_spec(), self.2.to_native_spec(),
            self.3.to_native_spec(), self.4.to_native_spec(), self.5.to_native_spec(),
            self.6.to_native_spec(), self.7.to_native_spec(), self.8.to_native_spec(),
            self.9.to_native_spec(), self.10.to_native_spec(), self.11.to_native_spec(),
            self.12.to_native_spec(), self.13.to_native_spec(), self.14.to_native_spec(),
        )
    }

    open spec fn wasm_types_spec() -> Seq<Type> {
        seq![
            type_of::<A1>(), type_of::<A2>(), type_of::<A3>(), type_of::<A4>(), type_of::<A5>(),
            type_of::<A6>(), type_of::<A7>(), type_of::<A8>(), type_of::<A9>(), type_of::<A10>(),
            type_of::<A11>(), type_of::<A12>(), type_of::<A13>(), type_of::<A14>(),
            type_of::<A15>(),
        ]
    }

    fn from_array(array: [i128; 15]) -> (list: Self) {
        (
            scalar_from_slot(array[0]), scalar_from_slot(array[1]), scalar_from_slot(array[2]),
            scalar_from_slot(array[3]), scalar_from_slot(array[4]), scalar_from_slot(array[5]),
            scalar_from_slot(array[6]), scalar_from_slot(array[7]), scalar_from_slot(array[8]),
            scalar_from_slot(array[9]), scalar_from_slot(array[10]), scalar_from_slot(array[11]),
            scalar_from_slot(array[12]), scalar_from_slot(array[13]), scalar_from_slot(array[14]),
        )
    }

    fn into_array(self) -> (array: [i128; 15]) {
        let (a1, a2, a3, a4, a5, a6, a7, a8, a9, a10, a11, a12, a13, a14, a15) = self;
        let array = [
            scalar_into_slot(a1), scalar_into_slot(a2), scalar_into_slot(a3), scalar_into_slot(a4),
            scalar_into_slot(a5), scalar_into_slot(a6), scalar_into_slot(a7), scalar_into_slot(a8),
            scalar_into_slot(a9), scalar_into_slot(a10), scalar_into_slot(a11),
            scalar_into_slot(a12), scalar_into_slot(a13), scalar_into_slot(a14),
            scalar_into_slot(a15),
        ];
        proof {
            assert(array@ =~= self.into_array_spec());
        }
        array
    }

    fn empty_array() -> (array: [i128; 15]) {
        let array: [i128; 15] = [0, 0, 0, 0, 0, 0, 0, 0, 0, 0, 0, 0, 0, 0, 0];
        proof {
            assert(array@ =~= Seq::new(Self::wasm_types_spec().len(), |i: int| 0i128));
        }
        array
    }

    fn from_c_struct(c_struct: S15<
        A1, A2, A3, A4, A5, A6, A7, A8, A9, A10, A11, A12, A13, A14, A15,
    >) -> (list: Self) {
        let S15(a1, a2, a3, a4, a5, a6, a7, a8, a9, a10, a11, a12, a13, a14, a15) = c_struct;
        (
            A1::from_native(a1), A2::from_native(a2), A3::from_native(a3), A4::from_native(a4),
            A5::from_native(a5), A6::from_native(a6), A7::from_native(a7), A8::from_native(a8),
            A9::from_native(a9), A10::from_native(a10), A11::from_native(a11),
            A12::from_native(a12), A13::from_native(a13), A14::from_native(a14),
            A15::from_native(a15),
        )
    }

    fn into_c_struct(self) -> (c_struct: S15<
        A1, A2, A3, A4, A5, A6, A7, A8, A9, A10, A11, A12, A13, A14, A15,
    >) {
        let (a1, a2, a3, a4, a5, a6, a7, a8, a9, a10, a11, a12, a13, a14, a15) = self;
        S15(
            a1.to_native(), a2.to_native(), a3.to_native(), a4.to_native(), a5.to_native(),
            a6.to_native(), a7.to_native(), a8.to_native(), a9.to_native(), a10.to_native(),
            a11.to_native(), a12.to_native(), a13.to_native(), a14.to_native(), a15.to_native(),
        )
    }

    fn wasm_types() -> (types: Vec<Type>) {
        let types = vec![
            A1::Native::wasm_type(), A2::Native::wasm_type(), A3::Native::wasm_type(),
            A4::Native::wasm_type(), A5::Native::wasm_type(), A6::Native::wasm_type(),
            A7::Native::wasm_type(), A8::Native::wasm_type(), A9::Native::wasm_type(),
            A10::Native::wasm_type(), A11::Native::wasm_type(), A12::Native::wasm_type(),
            A13::Native::wasm_type(), A14::Native::wasm_type(), A15::Native::wasm_type(),
        ];
        proof {
            assert(types@ =~= Self::wasm_types_spec());
        }
        types
    }

    proof fn lemma_array_round_trip(self) {
        lemma_scalar_round_trip(self.0);
        lemma_scalar_round_trip(self.1);
        lemma_scalar_round_trip(self.2);
        lemma_scalar_round_trip(self.3);
        lemma_scalar_round_trip(self.4);
        lemma_scalar_round_trip(self.5);
        lemma_scalar_round_trip(self.6);
        lemma_scalar_round_trip(self.7);
        lemma_scalar_round_trip(self.8);
        lemma_scalar_round_trip(self.9);
        lemma_scalar_round_trip(self.10);
        lemma_scalar_round_trip(self.11);
        lemma_scalar_round_trip(self.12);
        lemma_scalar_round_trip(self.13);
        lemma_scalar_round_trip(self.14);
    }

    proof fn lemma_c_struct_round_trip(self) {
        self.0.lemma_native_round_trip();
        self.1.lemma_native_round_trip();
        self.2.lemma_native_round_trip();
        self.3.lemma_native_round_trip();
        self.4.lemma_native_round_trip();
        self.5.lemma_native_round_trip();
        self.6.lemma_native_round_trip();
        self.7.lemma_native_round_trip();
        self.8.lemma_native_round_trip();
        self.9.lemma_native_round_trip();
        self.10.lemma_native_round_trip();
        self.11.lemma_native_round_trip();
        self.12.lemma_native_round_trip();
        self.13.lemma_native_round_trip();
        self.14.lemma_native_round_trip();
    }
}

/// The natives of 16 values, in the order of the values.
pub struct S16<
    A1: WasmExternType, A2: WasmExternType, A3: WasmExternType, A4: WasmExternType,
    A5: WasmExternType, A6: WasmExternType, A7: WasmExternType, A8: WasmExternType,
    A9: WasmExternType, A10: WasmExternType, A11: WasmExternType, A12: WasmExternType,
    A13: WasmExternType, A14: WasmExternType, A15: WasmExternType, A16: WasmExternType,
>(
    pub A1::Native, pub A2::Native, pub A3::Native, pub A4::Native, pub A5::Native, pub A6::Native,
    pub A7::Native, pub A8::Native, pub A9::Native, pub A10::Native, pub A11::Native,
    pub A12::Native, pub A13::Native, pub A14::Native, pub A15::Native, pub A16::Native,
);

impl<
    A1: WasmExternType, A2: WasmExternType, A3: WasmExternType, A4: WasmExternType,
    A5: WasmExternType, A6: WasmExternType, A7: WasmExternType, A8: WasmExternType,
    A9: WasmExternType, A10: WasmExternType, A11: WasmExternType, A12: WasmExternType,
    A13: WasmExternType, A14: WasmExternType, A15: WasmExternType, A16: WasmExternType,
> WasmTypeList for (A1, A2, A3, A4, A5, A6, A7, A8, A9, A10, A11, A12, A13, A14, A15, A16) {
    type CStruct = S16<A1, A2, A3, A4, A5, A6, A7, A8, A9, A10, A11, A12, A13, A14, A15, A16>;

    type Array = [i128; 16];

    open spec fn from_array_spec(array: Seq<i128>) -> Self {
        (
            from_slot::<A1>(array[0]), from_slot::<A2>(array[1]), from_slot::<A3>(array[2]),
            from_slot::<A4>(array[3]), from_slot::<A5>(array[4]), from_slot::<A6>(array[5]),
            from_slot::<A7>(array[6]), from_slot::<A8>(array[7]), from_slot::<A9>(array[8]),
            from_slot::<A10>(array[9]), from_slot::<A11>(array[10]), from_slot::<A12>(array[11]),
            from_slot::<A13>(array[12]), from_slot::<A14>(array[13]), from_slot::<A15>(array[14]),
            from_slot::<A16>(array[15]),
        )
    }

    open spec fn into_array_spec(self) -> Seq<i128> {
        seq![
            slot_of(self.0), slot_of(self.1), slot_of(self.2), slot_of(self.3), slot_of(self.4),
            slot_of(self.5), slot_of(self.6), slot_of(self.7), slot_of(self.8), slot_of(self.9),
            slot_of(self.10), slot_of(self.11), slot_of(self.12), slot_of(self.13),
            slot_of(self.14), slot_of(self.15),
        ]
    }

    open spec fn from_c_struct_spec(c_struct: S16<
        A1, A2, A3, A4, A5, A6, A7, A8, A9, A10, A11, A12, A13, A14, A15, A16,
    >) -> Self {
        (
            A1::from_native_spec(c_struct.0), A2::from_native_spec(c_struct.1),
            A3::from_native_spec(c_struct.2), A4::from_native_spec(c_struct.3),
            A5::from_native_spec(c_struct.4), A6::from_native_spec(c_struct.5),
            A7::from_native_spec(c_struct.6), A8::from_native_spec(c_struct.7),
            A9::from_native_spec(c_struct.8), A10::from_native_spec(c_struct.9),
            A11::from_native_spec(c_struct.10), A12::from_native_spec(c_struct.11),
            A13::from_native_spec(c_struct.12), A14::from_native_spec(c_struct.13),
            A15::from_native_spec(c_struct.14), A16::from_native_spec(c_struct.15),
        )
    }

    open spec fn into_c_struct_spec(self) -> S16<
        A1, A2, A3, A4, A5, A6, A7, A8, A9, A10, A11, A12, A13, A14, A15, A16,
    > {
        S16(
            self.0.to_native_spec(), self.1.to_native_spec(), self.2.to_native_spec(),
            self.3.to_native_spec(), self.4.to_native_spec(), self.5.to_native_spec(),
            self.6.to_native_spec(), self.7.to_native_spec(), self.8.to_native_spec(),
            self.9.to_native_spec(), self.10.to_native_spec(), self.11.to_native_spec(),
            self.12.to_native_spec(), self.13.to_native_spec(), self.14.to_native_spec(),
            self.15.to_native_spec(),
        )
    }

    open spec fn wasm_types_spec() -> Seq<Type> {
        seq![
            type_of::<A1>(), type_of::<A2>(), type_of::<A3>(), type_of::<A4>(), type_of::<A5>(),
            type_of::<A6>(), type_of::<A7>(), type_of::<A8>(), type_of::<A9>(), type_of::<A10>(),
            type_of::<A11>(), type_of::<A12>(), type_of::<A13>(), type_of::<A14>(),
            type_of::<A15>(), type_of::<A16>(),
        ]
    }

    fn from_array(array: [i128; 16]) -> (list: Self) {
        (
            scalar_from_slot(array[0]), scalar_from_slot(array[1]), scalar_from_slot(array[2]),
            scalar_from_slot(array[3]), scalar_from_slot(array[4]), scalar_from_slot(array[5]),
            scalar_from_slot(array[6]), scalar_from_slot(array[7]), scalar_from_slot(array[8]),
            scalar_from_slot(array[9]), scalar_from_slot(array[10]), scalar_from_slot(array[11]),
            scalar_from_slot(array[12]), scalar_from_slot(array[13]), scalar_from_slot(array[14]),
            scalar_from_slot(array[15]),
        )
    }

    fn into_array(self) -> (array: [i128; 16]) {
        let (a1, a2, a3, a4, a5, a6, a7, a8, a9, a10, a11, a12, a13, a14, a15, a16) = self;
        let array = [
            scalar_into_slot(a1), scalar_into_slot(a2), scalar_into_slot(a3), scalar_into_slot(a4),
            scalar_into_slot(a5), scalar_into_slot(a6), scalar_into_slot(a7), scalar_into_slot(a8),
            scalar_into_slot(a9), scalar_into_slot(a10), scalar_into_slot(a11),
            scalar_into_slot(a12), scalar_into_slot(a13), scalar_into_slot(a14),
            scalar_into_slot(a15), scalar_into_slot(a16),
        ];
        proof {
            assert(array@ =~= self.into_array_spec());
        }
        array
    }

    fn empty_array() -> (array: [i128; 16]) {
        let array: [i128; 16] = [0, 0, 0, 0, 0, 0, 0, 0, 0, 0, 0, 0, 0, 0, 0, 0];
        proof {
            assert(array@ =~= Seq::new(Self::wasm_types_spec().len(), |i: int| 0i128));
        }
        array
    }

    fn from_c_struct(c_struct: S16<
        A1, A2, A3, A4, A5, A6, A7, A8, A9, A10, A11, A12, A13, A14, A15, A16,
    >) -> (list: Self) {
        let S16(a1, a2, a3, a4, a5, a6, a7, a8, a9, a10, a11, a12, a13, a14, a15, a16) = c_struct;
        (
            A1::from_native(a1), A2::from_native(a2), A3::from_native(a3), A4::from_native(a4),
            A5::from_native(a5), A6::from_native(a6), A7::from_native(a7), A8::from_native(a8),
            A9::from_native(a9), A10::from_native(a10), A11::from_native(a11),
            A12::from_native(a12), A13::from_native(a13), A14::from_native(a14),
            A15::from_native(a15), A16::from_native(a16),
        )
    }

    fn into_c_struct(self) -> (c_struct: S16<
        A1, A2, A3, A4, A5, A6, A7, A8, A9, A10, A11, A12, A13, A14, A15, A16,
    >) {
        let (a1, a2, a3, a4, a5, a6, a7, a8, a9, a10, a11, a12, a13, a14, a15, a16) = self;
        S16(
            a1.to_native(), a2.to_native(), a3.to_native(), a4.to_native(), a5.to_native(),
            a6.to_native(), a7.to_native(), a8.to_native(), a9.to_native(), a10.to_native(),
            a11.to_native(), a12.to_native(), a13.to_native(), a14.to_native(), a15.to_native(),
            a16.to_native(),
        )
    }

    fn wasm_types() -> (types: Vec<Type>) {
        let types = vec![
            A1::Native::wasm_type(), A2::Native::wasm_type(), A3::Native::wasm_type(),
            A4::Native::wasm_type(), A5::Native::wasm_type(), A6::Native::wasm_type(),
            A7::Native::wasm_type(), A8::Native::wasm_type(), A9::Native::wasm_type(),
            A10::Native::wasm_type(), A11::Native::wasm_type(), A12::Native::wasm_type(),
            A13::Native::wasm_type(), A14::Native::wasm_type(), A15::Native::wasm_type(),
            A16::Native::wasm_type(),
        ];
        proof {
            assert(types@ =~= Self::wasm_types_spec());
        }
        types
    }

    proof fn lemma_array_round_trip(self) {
        lemma_scalar_round_trip(self.0);
        lemma_scalar_round_trip(self.1);
        lemma_scalar_round_trip(self.2);
        lemma_scalar_round_trip(self.3);
        lemma_scalar_round_trip(self.4);
        lemma_scalar_round_trip(self.5);
        lemma_scalar_round_trip(self.6);
        lemma_scalar_round_trip(self.7);
        lemma_scalar_round_trip(self.8);
        lemma_scalar_round_trip(self.9);
        lemma_scalar_round_trip(self.10);
        lemma_scalar_round_trip(self.11);
        lemma_scalar_round_trip(self.12);
        lemma_scalar_round_trip(self.13);
        lemma_scalar_round_trip(self.14);
        lemma_scalar_round_trip(self.15);
    }

    proof fn lemma_c_struct_round_trip(self) {
        self.0.lemma_native_round_trip();
        self.1.lemma_native_round_trip();
        self.2.lemma_native_round_trip();
        self.3.lemma_native_round_trip();
        self.4.lemma_native_round_trip();
        self.5.lemma_native_round_trip();
        self.6.lemma_native_round_trip();
        self.7.lemma_native_round_trip();
        self.8.lemma_native_round_trip();
        self.9.lemma_native_round_trip();
        self.10.lemma_native_round_trip();
        self.11.lemma_native_round_trip();
        self.12.lemma_native_round_trip();
        self.13.lemma_native_round_trip();
        self.14.lemma_native_round_trip();
        self.15.lemma_native_round_trip();
    }
}

/// The natives of 17 values, in the order of the values.
pub struct S17<
    A1: WasmExternType, A2: WasmExternType, A3: WasmExternType, A4: WasmExternType,
    A5: WasmExternType, A6: WasmExternType, A7: WasmExternType, A8: WasmExternType,
    A9: WasmExternType, A10: WasmExternType, A11: WasmExternType, A12: WasmExternType,
    A13: WasmExternType, A14: WasmExternType, A15: WasmExternType, A16: WasmExternType,
    A17: WasmExternType,
>(
    pub A1::Native, pub A2::Native, pub A3::Native, pub A4::Native, pub A5::Native, pub A6::Native,
    pub A7::Native, pub A8::Native, pub A9::Native, pub A10::Native, pub A11::Native,
    pub A12::Native, pub A13::Native, pub A14::Native, pub A15::Native, pub A16::Native,
    pub A17::Native,
);

impl<
    A1: WasmExternType, A2: WasmExternType, A3: WasmExternType, A4: WasmExternType,
    A5: WasmExternType, A6: WasmExternType, A7: WasmExternType, A8: WasmExternType,
    A9: WasmExternType, A10: WasmExternType, A11: WasmExternType, A12: WasmExternType,
    A13: WasmExternType, A14: WasmExternType, A15: WasmExternType, A16: WasmExternType,
    A17: WasmExternType,
> WasmTypeList for (A1, A2, A3, A4, A5, A6, A7, A8, A9, A10, A11, A12, A13, A14, A15, A16, A17) {
    type CStruct = S17<A1, A2, A3, A4, A5, A6, A7, A8, A9, A10, A11, A12, A13, A14, A15, A16, A17>;

    type Array = [i128; 17];

    open spec fn from_array_spec(array: Seq<i128>) -> Self {
        (
            from_slot::<A1>(array[0]), from_slot::<A2>(array[1]), from_slot::<A3>(array[2]),
            from_slot::<A4>(array[3]), from_slot::<A5>(array[4]), from_slot::<A6>(array[5]),
            from_slot::<A7>(array[6]), from_slot::<A8>(array[7]), from_slot::<A9>(array[8]),
            from_slot::<A10>(array[9]), from_slot::<A11>(array[10]), from_slot::<A12>(array[11]),
            from_slot::<A13>(array[12]), from_slot::<A14>(array[13]), from_slot::<A15>(array[14]),
            from_slot::<A16>(array[15]), from_slot::<A17>(array[16]),
        )
    }

    open spec fn into_array_spec(self) -> Seq<i128> {
        seq![
            slot_of(self.0), slot_of(self.1), slot_of(self.2), slot_of(self.3), slot_of(self.4),
            slot_of(self.5), slot_of(self.6), slot_of(self.7), slot_of(self.8), slot_of(self.9),
            slot_of(self.10), slot_of(self.11), slot_of(self.12), slot_of(self.13),
            slot_of(self.14), slot_of(self.15), slot_of(self.16),
        ]
    }

    open spec fn from_c_struct_spec(c_struct: S17<
        A1, A2, A3, A4, A5, A6, A7, A8, A9, A10, A11, A12, A13, A14, A15, A16, A17,
    >) -> Self {
        (
            A1::from_native_spec(c_struct.0), A2::from_native_spec(c_struct.1),
            A3::from_native_spec(c_struct.2), A4::from_native_spec(c_struct.3),
            A5::from_native_spec(c_struct.4), A6::from_native_spec(c_struct.5),
            A7::from_native_spec(c_struct.6), A8::from_native_spec(c_struct.7),
            A9::from_native_spec(c_struct.8), A10::from_native_spec(c_struct.9),
            A11::from_native_spec(c_struct.10), A12::from_native_spec(c_struct.11),
            A13::from_native_spec(c_struct.12), A14::from_native_spec(c_struct.13),
            A15::from_native_spec(c_struct.14), A16::from_native_spec(c_struct.15),
            A17::from_native_spec(c_struct.16),
        )
    }

    open spec fn into_c_struct_spec(self) -> S17<
        A1, A2, A3, A4, A5, A6, A7, A8, A9, A10, A11, A12, A13, A14, A15, A16, A17,
    > {
        S17(
            self.0.to_native_spec(), self.1.to_native_spec(), self.2.to_native_spec(),
            self.3.to_native_spec(), self.4.to_native_spec(), self.5.to_native_spec(),
            self.6.to_native_spec(), self.7.to_native_spec(), self.8.to_native_spec(),
            self.9.to_native_spec(), self.10.to_native_spec(), self.11.to_native_spec(),
            self.12.to_native_spec(), self.13.to_native_spec(), self.14.to_native_spec(),
            self.15.to_native_spec(), self.16.to_native_spec(),
        )
    }

    open spec fn wasm_types_spec() -> Seq<Type> {
        seq![
            type_of::<A1>(), type_of::<A2>(), type_of::<A3>(), type_of::<A4>(), type_of::<A5>(),
            type_of::<A6>(), type_of::<A7>(), type_of::<A8>(), type_of::<A9>(), type_of::<A10>(),
            type_of::<A11>(), type_of::<A12>(), type_of::<A13>(), type_of::<A14>(),
            type_of::<A15>(), type_of::<A16>(), type_of::<A17>(),
        ]
    }

    fn from_array(array: [i128; 17]) -> (list: Self) {
        (
            scalar_from_slot(array[0]), scalar_from_slot(array[1]), scalar_from_slot(array[2]),
            scalar_from_slot(array[3]), scalar_from_slot(array[4]), scalar_from_slot(array[5]),
            scalar_from_slot(array[6]), scalar_from_slot(array[7]), scalar_from_slot(array[8]),
            scalar_from_slot(array[9]), scalar_from_slot(array[10]), scalar_from_slot(array[11]),
            scalar_from_slot(array[12]), scalar_from_slot(array[13]), scalar_from_slot(array[14]),
            scalar_from_slot(array[15]), scalar_from_slot(array[16]),
        )
    }

    fn into_array(self) -> (array: [i128; 17]) {
        let (a1, a2, a3, a4, a5, a6, a7, a8, a9, a10, a11, a12, a13, a14, a15, a16, a17) = self;
        let array = [
            scalar_into_slot(a1), scalar_into_slot(a2), scalar_into_slot(a3), scalar_into_slot(a4),
            scalar_into_slot(a5), scalar_into_slot(a6), scalar_into_slot(a7), scalar_into_slot(a8),
            scalar_into_slot(a9), scalar_into_slot(a10), scalar_into_slot(a11),
            scalar_into_slot(a12), scalar_into_slot(a13), scalar_into_slot(a14),
            scalar_into_slot(a15), scalar_into_slot(a16), scalar_into_slot(a17),
        ];
        proof {
            assert(array@ =~= self.into_array_spec());
        }
        array
    }

    fn empty_array() -> (array: [i128; 17]) {
        let array: [i128; 17] = [0, 0, 0, 0, 0, 0, 0, 0, 0, 0, 0, 0, 0, 0, 0, 0, 0];
        proof {
            assert(array@ =~= Seq::new(Self::wasm_types_spec().len(), |i: int| 0i128));
        }
        array
    }

    fn from_c_struct(c_struct: S17<
        A1, A2, A3, A4, A5, A6, A7, A8, A9, A10, A11, A12, A13, A14, A15, A16, A17,
    >) -> (list: Self) {
        let S17(
            a1, a2, a3, a4, a5, a6, a7, a8, a9, a10, a11, a12, a13, a14, a15, a16, a17,
        ) = c_struct;
        (
            A1::from_native(a1), A2::from_native(a2), A3::from_native(a3), A4::from_native(a4),
            A5::from_native(a5), A6::from_native(a6), A7::from_native(a7), A8::from_native(a8),
            A9::from_native(a9), A10::from_native(a10), A11::from_native(a11),
            A12::from_native(a12), A13::from_native(a13), A14::from_native(a14),
            A15::from_native(a15), A16::from_native(a16), A17::from_native(a17),
        )
    }

    fn into_c_struct(self) -> (c_struct: S17<
        A1, A2, A3, A4, A5, A6, A7, A8, A9, A10, A11, A12, A13, A14, A15, A16, A17,
    >) {
        let (a1, a2, a3, a4, a5, a6, a7, a8, a9, a10, a11, a12, a13, a14, a15, a16, a17) = self;
        S17(
            a1.to_native(), a2.to_native(), a3.to_native(), a4.to_native(), a5.to_native(),
            a6.to_native(), a7.to_native(), a8.to_native(), a9.to_native(), a10.to_native(),
            a11.to_native(), a12.to_native(), a13.to_native(), a14.to_native(), a15.to_native(),
            a16.to_native(), a17.to_native(),
        )
    }

    fn wasm_types() -> (types: Vec<Type>) {
        let types = vec![
            A1::Native::wasm_type(), A2::Native::wasm_type(), A3::Native::wasm_type(),
            A4::Native::wasm_type(), A5::Native::wasm_type(), A6::Native::wasm_type(),
            A7::Native::wasm_type(), A8::Native::wasm_type(), A9::Native::wasm_type(),
            A10::Native::wasm_type(), A11::Native::wasm_type(), A12::Native::wasm_type(),
            A13::Native::wasm_type(), A14::Native::wasm_type(), A15::Native::wasm_type(),
            A16::Native::wasm_type(), A17::Native::wasm_type(),
        ];
        proof {
            assert(types@ =~= Self::wasm_types_spec());
        }
        types
    }

    proof fn lemma_array_round_trip(self) {
        lemma_scalar_round_trip(self.0);
        lemma_scalar_round_trip(self.1);
        lemma_scalar_round_trip(self.2);
        lemma_scalar_round_trip(self.3);
        lemma_scalar_round_trip(self.4);
        lemma_scalar_round_trip(self.5);
        lemma_scalar_round_trip(self.6);
        lemma_scalar_round_trip(self.7);
        lemma_scalar_round_trip(self.8);
        lemma_scalar_round_trip(self.9);
        lemma_scalar_round_trip(self.10);
        lemma_scalar_round_trip(self.11);
        lemma_scalar_round_trip(self.12);
        lemma_scalar_round_trip(self.13);
        lemma_scalar_round_trip(self.14);
        lemma_scalar_round_trip(self.15);
        lemma_scalar_round_trip(self.16);
    }

    proof fn lemma_c_struct_round_trip(self) {
        self.0.lemma_native_round_trip();
        self.1.lemma_native_round_trip();
        self.2.lemma_native_round_trip();
        self.3.lemma_native_round_trip();
        self.4.lemma_native_round_trip();
        self.5.lemma_native_round_trip();
        self.6.lemma_native_round_trip();
        self.7.lemma_native_round_trip();
        self.8.lemma_native_round_trip();
        self.9.lemma_native_round_trip();
        self.10.lemma_native_round_trip();
        self.11.lemma_native_round_trip();
        self.12.lemma_native_round_trip();
        self.13.lemma_native_round_trip();
        self.14.lemma_native_round_trip();
        self.15.lemma_native_round_trip();
        self.16.lemma_native_round_trip();
    }
}

/// The natives of 18 values, in the order of the values.
pub struct S18<
    A1: WasmExternType, A2: WasmExternType, A3: WasmExternType, A4: WasmExternType,
    A5: WasmExternType, A6: WasmExternType, A7: WasmExternType, A8: WasmExternType,
    A9: WasmExternType, A10: WasmExternType, A11: WasmExternType, A12: WasmExternType,
    A13: WasmExternType, A14: WasmExternType, A15: WasmExternType, A16: WasmExternType,
    A17: WasmExternType, A18: WasmExternType,
>(
    pub A1::Native, pub A2::Native, pub A3::Native, pub A4::Native, pub A5::Native, pub A6::Native,
    pub A7::Native, pub A8::Native, pub A9::Native, pub A10::Native, pub A11::Native,
    pub A12::Native, pub A13::Native, pub A14::Native, pub A15::Native, pub A16::Native,
    pub A17::Native, pub A18::Native,
);

impl<
    A1: WasmExternType, A2: WasmExternType, A3: WasmExternType, A4: WasmExternType,
    A5: WasmExternType, A6: WasmExternType, A7: WasmExternType, A8: WasmExternType,
    A9: WasmExternType, A10: WasmExternType, A11: WasmExternType, A12: WasmExternType,
    A13: WasmExternType, A14: WasmExternType, A15: WasmExternType, A16: WasmExternType,
    A17: WasmExternType, A18: WasmExternType,
> WasmTypeList for (
    A1, A2, A3, A4, A5, A6, A7, A8, A9, A10, A11, A12, A13, A14, A15, A16, A17, A18,
) {
    type CStruct = S18<
        A1, A2, A3, A4, A5, A6, A7, A8, A9, A10, A11, A12, A13, A14, A15, A16, A17, A18,
    >;

    type Array = [i128; 18];

    open spec fn from_array_spec(array: Seq<i128>) -> Self {
        (
            from_slot::<A1>(array[0]), from_slot::<A2>(array[1]), from_slot::<A3>(array[2]),
            from_slot::<A4>(array[3]), from_slot::<A5>(array[4]), from_slot::<A6>(array[5]),
            from_slot::<A7>(array[6]), from_slot::<A8>(array[7]), from_slot::<A9>(array[8]),
            from_slot::<A10>(array[9]), from_slot::<A11>(array[10]), from_slot::<A12>(array[11]),
            from_slot::<A13>(array[12]), from_slot::<A14>(array[13]), from_slot::<A15>(array[14]),
            from_slot::<A16>(array[15]), from_slot::<A17>(array[16]), from_slot::<A18>(array[17]),
        )
    }

    open spec fn into_array_spec(self) -> Seq<i128> {
        seq![
            slot_of(self.0), slot_of(self.1), slot_of(self.2), slot_of(self.3), slot_of(self.4),
            slot_of(self.5), slot_of(self.6), slot_of(self.7), slot_of(self.8), slot_of(self.9),
            slot_of(self.10), slot_of(self.11), slot_of(self.12), slot_of(self.13),
            slot_of(self.14), slot_of(self.15), slot_of(self.16), slot_of(self.17),
        ]
    }

    open spec fn from_c_struct_spec(c_struct: S18<
        A1, A2, A3, A4, A5, A6, A7, A8, A9, A10, A11, A12, A13, A14, A15, A16, A17, A18,
    >) -> Self {
        (
            A1::from_native_spec(c_struct.0), A2::from_native_spec(c_struct.1),
            A3::from_native_spec(c_struct.2), A4::from_native_spec(c_struct.3),
            A5::from_native_spec(c_struct.4), A6::from_native_spec(c_struct.5),
            A7::from_native_spec(c_struct.6), A8::from_native_spec(c_struct.7),
            A9::from_native_spec(c_struct.8), A10::from_native_spec(c_struct.9),
            A11::from_native_spec(c_struct.10), A12::from_native_spec(c_struct.11),
            A13::from_native_spec(c_struct.12), A14::from_native_spec(c_struct.13),
            A15::from_native_spec(c_struct.14), A16::from_native_spec(c_struct.15),
            A17::from_native_spec(c_struct.16), A18::from_native_spec(c_struct.17),
        )
    }

    open spec fn into_c_struct_spec(self) -> S18<
        A1, A2, A3, A4, A5, A6, A7, A8, A9, A10, A11, A12, A13, A14, A15, A16, A17, A18,
    > {
        S18(
            self.0.to_native_spec(), self.1.to_native_spec(), self.2.to_native_spec(),
            self.3.to_native_spec(), self.4.to_native_spec(), self.5.to_native_spec(),
            self.6.to_native_spec(), self.7.to_native_spec(), self.8.to_native_spec(),
            self.9.to_native_spec(), self.10.to_native_spec(), self.11.to_native_spec(),
            self.12.to_native_spec(), self.13.to_native_spec(), self.14.to_native_spec(),
            self.15.to_native_spec(), self.16.to_native_spec(), self.17.to_native_spec(),
        )
    }

    open spec fn wasm_types_spec() -> Seq<Type> {
        seq![
            type_of::<A1>(), type_of::<A2>(), type_of::<A3>(), type_of::<A4>(), type_of::<A5>(),
            type_of::<A6>(), type_of::<A7>(), type_of::<A8>(), type_of::<A9>(), type_of::<A10>(),
            type_of::<A11>(), type_of::<A12>(), type_of::<A13>(), type_of::<A14>(),
            type_of::<A15>(), type_of::<A16>(), type_of::<A17>(), type_of::<A18>(),
        ]
    }

    fn from_array(array: [i128; 18]) -> (list: Self) {
        (
            scalar_from_slot(array[0]), scalar_from_slot(array[1]), scalar_from_slot(array[2]),
            scalar_from_slot(array[3]), scalar_from_slot(array[4]), scalar_from_slot(array[5]),
            scalar_from_slot(array[6]), scalar_from_slot(array[7]), scalar_from_slot(array[8]),
            scalar_from_slot(array[9]), scalar_from_slot(array[10]), scalar_from_slot(array[11]),
            scalar_from_slot(array[12]), scalar_from_slot(array[13]), scalar_from_slot(array[14]),
            scalar_from_slot(array[15]), scalar_from_slot(array[16]), scalar_from_slot(array[17]),
        )
    }

    fn into_array(self) -> (array: [i128; 18]) {
        let (
            a1, a2, a3, a4, a5, a6, a7, a8, a9, a10, a11, a12, a13, a14, a15, a16, a17, a18,
        ) = self;
        let array = [
            scalar_into_slot(a1), scalar_into_slot(a2), scalar_into_slot(a3), scalar_into_slot(a4),
            scalar_into_slot(a5), scalar_into_slot(a6), scalar_into_slot(a7), scalar_into_slot(a8),
            scalar_into_slot(a9), scalar_into_slot(a10), scalar_into_slot(a11),
            scalar_into_slot(a12), scalar_into_slot(a13), scalar_into_slot(a14),
            scalar_into_slot(a15), scalar_into_slot(a16), scalar_into_slot(a17),
            scalar_into_slot(a18),
        ];
        proof {
            assert(array@ =~= self.into_array_spec());
        }
        array
    }

    fn empty_array() -> (array: [i128; 18]) {
        let array: [i128; 18] = [0, 0, 0, 0, 0, 0, 0, 0, 0, 0, 0, 0, 0, 0, 0, 0, 0, 0];
        proof {
            assert(array@ =~= Seq::new(Self::wasm_types_spec().len(), |i: int| 0i128));
        }
        array
    }

    fn from_c_struct(c_struct: S18<
        A1, A2, A3, A4, A5, A6, A7, A8, A9, A10, A11, A12, A13, A14, A15, A16, A17, A18,
    >) -> (list: Self) {
        let S18(
            a1, a2, a3, a4, a5, a6, a7, a8, a9, a10, a11, a12, a13, a14, a15, a16, a17, a18,
        ) = c_struct;
        (
            A1::from_native(a1), A2::from_native(a2), A3::from_native(a3), A4::from_native(a4),
            A5::from_native(a5), A6::from_native(a6), A7::from_native(a7), A8::from_native(a8),
            A9::from_native(a9), A10::from_native(a10), A11::from_native(a11),
            A12::from_native(a12), A13::from_native(a13), A14::from_native(a14),
            A15::from_native(a15), A16::from_native(a16), A17::from_native(a17),
            A18::from_native(a18),
        )
    }

    fn into_c_struct(self) -> (c_struct: S18<
        A1, A2, A3, A4, A5, A6, A7, A8, A9, A10, A11, A12, A13, A14, A15, A16, A17, A18,
    >) {
        let (
            a1, a2, a3, a4, a5, a6, a7, a8, a9, a10, a11, a12, a13, a14, a15, a16, a17, a18,
        ) = self;
        S18(
            a1.to_native(), a2.to_native(), a3.to_native(), a4.to_native(), a5.to_native(),
            a6.to_native(), a7.to_native(), a8.to_native(), a9.to_native(), a10.to_native(),
            a11.to_native(), a12.to_native(), a13.to_native(), a14.to_native(), a15.to_native(),
            a16.to_native(), a17.to_native(), a18.to_native(),
        )
    }

    fn wasm_types() -> (types: Vec<Type>) {
        let types = vec![
            A1::Native::wasm_type(), A2::Native::wasm_type(), A3::Native::wasm_type(),
            A4::Native::wasm_type(), A5::Native::wasm_type(), A6::Native::wasm_type(),
            A7::Native::wasm_type(), A8::Native::wasm_type(), A9::Native::wasm_type(),
            A10::Native::wasm_type(), A11::Native::wasm_type(), A12::Native::wasm_type(),
            A13::Native::wasm_type(), A14::Native::wasm_type(), A15::Native::wasm_type(),
            A16::Native::wasm_type(), A17::Native::wasm_type(), A18::Native::wasm_type(),
        ];
        proof {
            assert(types@ =~= Self::wasm_types_spec());
        }
        types
    }

    proof fn lemma_array_round_trip(self) {
        lemma_scalar_round_trip(self.0);
        lemma_scalar_round_trip(self.1);
        lemma_scalar_round_trip(self.2);
        lemma_scalar_round_trip(self.3);
        lemma_scalar_round_trip(self.4);
        lemma_scalar_round_trip(self.5);
        lemma_scalar_round_trip(self.6);
        lemma_scalar_round_trip(self.7);
        lemma_scalar_round_trip(self.8);
        lemma_scalar_round_trip(self.9);
        lemma_scalar_round_trip(self.10);
        lemma_scalar_round_trip(self.11);
        lemma_scalar_round_trip(self.12);
        lemma_scalar_round_trip(self.13);
        lemma_scalar_round_trip(self.14);
        lemma_scalar_round_trip(self.15);
        lemma_scalar_round_trip(self.16);
        lemma_scalar_round_trip(self.17);
    }

    proof fn lemma_c_struct_round_trip(self) {
        self.0.lemma_native_round_trip();
        self.1.lemma_native_round_trip();
        self.2.lemma_native_round_trip();
        self.3.lemma_native_round_trip();
        self.4.lemma_native_round_trip();
        self.5.lemma_native_round_trip();
        self.6.lemma_native_round_trip();
        self.7.lemma_native_round_trip();
        self.8.lemma_native_round_trip();
        self.9.lemma_native_round_trip();
        self.10.lemma_native_round_trip();
        self.11.lemma_native_round_trip();
        self.12.lemma_native_round_trip();
        self.13.lemma_native_round_trip();
        self.14.lemma_native_round_trip();
        self.15.lemma_native_round_trip();
        self.16.lemma_native_round_trip();
        self.17.lemma_native_round_trip();
    }
}

/// The natives of 19 values, in the order of the values.
pub struct S19<
    A1: WasmExternType, A2: WasmExternType, A3: WasmExternType, A4: WasmExternType,
    A5: WasmExternType, A6: WasmExternType, A7: WasmExternType, A8: WasmExternType,
    A9: WasmExternType, A10: WasmExternType, A11: WasmExternType, A12: WasmExternType,
    A13: WasmExternType, A14: WasmExternType, A15: WasmExternType, A16: WasmExternType,
    A17: WasmExternType, A18: WasmExternType, A19: WasmExternType,
>(
    pub A1::Native, pub A2::Native, pub A3::Native, pub A4::Native, pub A5::Native, pub A6::Native,
    pub A7::Native, pub A8::Native, pub A9::Native, pub A10::Native, pub A11::Native,
    pub A12::Native, pub A13::Native, pub A14::Native, pub A15::Native, pub A16::Native,
    pub A17::Native, pub A18::Native, pub A19::Native,
);

impl<
    A1: WasmExternType, A2: WasmExternType, A3: WasmExternType, A4: WasmExternType,
    A5: WasmExternType, A6: WasmExternType, A7: WasmExternType, A8: WasmExternType,
    A9: WasmExternType, A10: WasmExternType, A11: WasmExternType, A12: WasmExternType,
    A13: WasmExternType, A14: WasmExternType, A15: WasmExternType, A16: WasmExternType,
    A17: WasmExternType, A18: WasmExternType, A19: WasmExternType,
> WasmTypeList for (
    A1, A2, A3, A4, A5, A6, A7, A8, A9, A10, A11, A12, A13, A14, A15, A16, A17, A18, A19,
) {
    type CStruct = S19<
        A1, A2, A3, A4, A5, A6, A7, A8, A9, A10, A11, A12, A13, A14, A15, A16, A17, A18, A19,
    >;

    type Array = [i128; 19];

    open spec fn from_array_spec(array: Seq<i128>) -> Self {
        (
            from_slot::<A1>(array[0]), from_slot::<A2>(array[1]), from_slot::<A3>(array[2]),
            from_slot::<A4>(array[3]), from_slot::<A5>(array[4]), from_slot::<A6>(array[5]),
            from_slot::<A7>(array[6]), from_slot::<A8>(array[7]), from_slot::<A9>(array[8]),
            from_slot::<A10>(array[9]), from_slot::<A11>(array[10]), from_slot::<A12>(array[11]),
            from_slot::<A13>(array[12]), from_slot::<A14>(array[13]), from_slot::<A15>(array[14]),
            from_slot::<A16>(array[15]), from_slot::<A17>(array[16]), from_slot::<A18>(array[17]),
            from_slot::<A19>(array[18]),
        )
    }

    open spec fn into_array_spec(self) -> Seq<i128> {
        seq![
            slot_of(self.0), slot_of(self.1), slot_of(self.2), slot_of(self.3), slot_of(self.4),
            slot_of(self.5), slot_of(self.6), slot_of(self.7), slot_of(self.8), slot_of(self.9),
            slot_of(self.10), slot_of(self.11), slot_of(self.12), slot_of(self.13),
            slot_of(self.14), slot_of(self.15), slot_of(self.16), slot_of(self.17),
            slot_of(self.18),
        ]
    }

    open spec fn from_c_struct_spec(c_struct: S19<
        A1, A2, A3, A4, A5, A6, A7, A8, A9, A10, A11, A12, A13, A14, A15, A16, A17, A18, A19,
    >) -> Self {
        (
            A1::from_native_spec(c_struct.0), A2::from_native_spec(c_struct.1),
            A3::from_native_spec(c_struct.2), A4::from_native_spec(c_struct.3),
            A5::from_native_spec(c_struct.4), A6::from_native_spec(c_struct.5),
            A7::from_native_spec(c_struct.6), A8::from_native_spec(c_struct.7),
            A9::from_native_spec(c_struct.8), A10::from_native_spec(c_struct.9),
            A11::from_native_spec(c_struct.10), A12::from_native_spec(c_struct.11),
            A13::from_native_spec(c_struct.12), A14::from_native_spec(c_struct.13),
            A15::from_native_spec(c_struct.14), A16::from_native_spec(c_struct.15),
            A17::from_native_spec(c_struct.16), A18::from_native_spec(c_struct.17),
            A19::from_native_spec(c_struct.18),
        )
    }

    open spec fn into_c_struct_spec(self) -> S19<
        A1, A2, A3, A4, A5, A6, A7, A8, A9, A10, A11, A12, A13, A14, A15, A16, A17, A18, A19,
    > {
        S19(
            self.0.to_native_spec(), self.1.to_native_spec(), self.2.to_native_spec(),
            self.3.to_native_spec(), self.4.to_native_spec(), self.5.to_native_spec(),
            self.6.to_native_spec(), self.7.to_native_spec(), self.8.to_native_spec(),
            self.9.to_native_spec(), self.10.to_native_spec(), self.11.to_native_spec(),
            self.12.to_native_spec(), self.13.to_native_spec(), self.14.to_native_spec(),
            self.15.to_native_spec(), self.16.to_native_spec(), self.17.to_native_spec(),
            self.18.to_native_spec(),
        )
    }

    open spec fn wasm_types_spec() -> Seq<Type> {
        seq![
            type_of::<A1>(), type_of::<A2>(), type_of::<A3>(), type_of::<A4>(), type_of::<A5>(),
            type_of::<A6>(), type_of::<A7>(), type_of::<A8>(), type_of::<A9>(), type_of::<A10>(),
            type_of::<A11>(), type_of::<A12>(), type_of::<A13>(), type_of::<A14>(),
            type_of::<A15>(), type_of::<A16>(), type_of::<A17>(), type_of::<A18>(),
            type_of::<A19>(),
        ]
    }

    fn from_array(array: [i128; 19]) -> (list: Self) {
        (
            scalar_from_slot(array[0]), scalar_from_slot(array[1]), scalar_from_slot(array[2]),
            scalar_from_slot(array[3]), scalar_from_slot(array[4]), scalar_from_slot(array[5]),
            scalar_from_slot(array[6]), scalar_from_slot(array[7]), scalar_from_slot(array[8]),
            scalar_from_slot(array[9]), scalar_from_slot(array[10]), scalar_from_slot(array[11]),
            scalar_from_slot(array[12]), scalar_from_slot(array[13]), scalar_from_slot(array[14]),
            scalar_from_slot(array[15]), scalar_from_slot(array[16]), scalar_from_slot(array[17]),
            scalar_from_slot(array[18]),
        )
    }

    fn into_array(self) -> (array: [i128; 19]) {
        let (
            a1, a2, a3, a4, a5, a6, a7, a8, a9, a10, a11, a12, a13, a14, a15, a16, a17, a18, a19,
        ) = self;
        let array = [
            scalar_into_slot(a1), scalar_into_slot(a2), scalar_into_slot(a3), scalar_into_slot(a4),
            scalar_into_slot(a5), scalar_into_slot(a6), scalar_into_slot(a7), scalar_into_slot(a8),
            scalar_into_slot(a9), scalar_into_slot(a10), scalar_into_slot(a11),
            scalar_into_slot(a12), scalar_into_slot(a13), scalar_into_slot(a14),
            scalar_into_slot(a15), scalar_into_slot(a16), scalar_into_slot(a17),
            scalar_into_slot(a18), scalar_into_slot(a19),
        ];
        proof {
            assert(array@ =~= self.into_array_spec());
        }
        array
    }

    fn empty_array() -> (array: [i128; 19]) {
        let array: [i128; 19] = [0, 0, 0, 0, 0, 0, 0, 0, 0, 0, 0, 0, 0, 0, 0, 0, 0, 0, 0];
        proof {
            assert(array@ =~= Seq::new(Self::wasm_types_spec().len(), |i: int| 0i128));
        }
        array
    }

    fn from_c_struct(c_struct: S19<
        A1, A2, A3, A4, A5, A6, A7, A8, A9, A10, A11, A12, A13, A14, A15, A16, A17, A18, A19,
    >) -> (list: Self) {
        let S19(
            a1, a2, a3, a4, a5, a6, a7, a8, a9, a10, a11, a12, a13, a14, a15, a16, a17, a18, a19,
        ) = c_struct;
        (
            A1::from_native(a1), A2::from_native(a2), A3::from_native(a3), A4::from_native(a4),
            A5::from_native(a5), A6::from_native(a6), A7::from_native(a7), A8::from_native(a8),
            A9::from_native(a9), A10::from_native(a10), A11::from_native(a11),
            A12::from_native(a12), A13::from_native(a13), A14::from_native(a14),
            A15::from_native(a15), A16::from_native(a16), A17::from_native(a17),
            A18::from_native(a18), A19::from_native(a19),
        )
    }

    fn into_c_struct(self) -> (c_struct: S19<
        A1, A2, A3, A4, A5, A6, A7, A8, A9, A10, A11, A12, A13, A14, A15, A16, A17, A18, A19,
    >) {
        let (
            a1, a2, a3, a4, a5, a6, a7, a8, a9, a10, a11, a12, a13, a14, a15, a16, a17, a18, a19,
        ) = self;
        S19(
            a1.to_native(), a2.to_native(), a3.to_native(), a4.to_native(), a5.to_native(),
            a6.to_native(), a7.to_native(), a8.to_native(), a9.to_native(), a10.to_native(),
            a11.to_native(), a12.to_native(), a13.to_native(), a14.to_native(), a15.to_native(),
            a16.to_native(), a17.to_native(), a18.to_native(), a19.to_native(),
        )
    }

    fn wasm_types() -> (types: Vec<Type>) {
        let types = vec![
            A1::Native::wasm_type(), A2::Native::wasm_type(), A3::Native::wasm_type(),
            A4::Native::wasm_type(), A5::Native::wasm_type(), A6::Native::wasm_type(),
            A7::Native::wasm_type(), A8::Native::wasm_type(), A9::Native::wasm_type(),
            A10::Native::wasm_type(), A11::Native::wasm_type(), A12::Native::wasm_type(),
            A13::Native::wasm_type(), A14::Native::wasm_type(), A15::Native::wasm_type(),
            A16::Native::wasm_type(), A17::Native::wasm_type(), A18::Native::wasm_type(),
            A19::Native::wasm_type(),
        ];
        proof {
            assert(types@ =~= Self::wasm_types_spec());
        }
        types
    }

    proof fn lemma_array_round_trip(self) {
        lemma_scalar_round_trip(self.0);
        lemma_scalar_round_trip(self.1);
        lemma_scalar_round_trip(self.2);
        lemma_scalar_round_trip(self.3);
        lemma_scalar_round_trip(self.4);
        lemma_scalar_round_trip(self.5);
        lemma_scalar_round_trip(self.6);
        lemma_scalar_round_trip(self.7);
        lemma_scalar_round_trip(self.8);
        lemma_scalar_round_trip(self.9);
        lemma_scalar_round_trip(self.10);
        lemma_scalar_round_trip(self.11);
        lemma_scalar_round_trip(self.12);
        lemma_scalar_round_trip(self.13);
        lemma_scalar_round_trip(self.14);
        lemma_scalar_round_trip(self.15);
        lemma_scalar_round_trip(self.16);
        lemma_scalar_round_trip(self.17);
        lemma_scalar_round_trip(self.18);
    }

    proof fn lemma_c_struct_round_trip(self) {
        self.0.lemma_native_round_trip();
        self.1.lemma_native_round_trip();
        self.2.lemma_native_round_trip();
        self.3.lemma_native_round_trip();
        self.4.lemma_native_round_trip();
        self.5.lemma_native_round_trip();
        self.6.lemma_native_round_trip();
        self.7.lemma_native_round_trip();
        self.8.lemma_native_round_trip();
        self.9.lemma_native_round_trip();
        self.10.lemma_native_round_trip();
        self.11.lemma_native_round_trip();
        self.12.lemma_native_round_trip();
        self.13.lemma_native_round_trip();
        self.14.lemma_native_round_trip();
        self.15.lemma_native_round_trip();
        self.16.lemma_native_round_trip();
        self.17.lemma_native_round_trip();
        self.18.lemma_native_round_trip();
    }
}

/// The natives of 20 values, in the order of the values.
pub struct S20<
    A1: WasmExternType, A2: WasmExternType, A3: WasmExternType, A4: WasmExternType,
    A5: WasmExternType, A6: WasmExternType, A7: WasmExternType, A8: WasmExternType,
    A9: WasmExternType, A10: WasmExternType, A11: WasmExternType, A12: WasmExternType,
    A13: WasmExternType, A14: WasmExternType, A15: WasmExternType, A16: WasmExternType,
    A17: WasmExternType, A18: WasmExternType, A19: WasmExternType, A20: WasmExternType,
>(
    pub A1::Native, pub A2::Native, pub A3::Native, pub A4::Native, pub A5::Native, pub A6::Native,
    pub A7::Native, pub A8::Native, pub A9::Native, pub A10::Native, pub A11::Native,
    pub A12::Native, pub A13::Native, pub A14::Native, pub A15::Native, pub A16::Native,
    pub A17::Native, pub A18::Native, pub A19::Native, pub A20::Native,
);

impl<
    A1: WasmExternType, A2: WasmExternType, A3: WasmExternType, A4: WasmExternType,
    A5: WasmExternType, A6: WasmExternType, A7: WasmExternType, A8: WasmExternType,
    A9: WasmExternType, A10: WasmExternType, A11: WasmExternType, A12: WasmExternType,
    A13: WasmExternType, A14: WasmExternType, A15: WasmExternType, A16: WasmExternType,
    A17: WasmExternType, A18: WasmExternType, A19: WasmExternType, A20: WasmExternType,
> WasmTypeList for (
    A1, A2, A3, A4, A5, A6, A7, A8, A9, A10, A11, A12, A13, A14, A15, A16, A17, A18, A19, A20,
) {
    type CStruct = S20<
        A1, A2, A3, A4, A5, A6, A7, A8, A9, A10, A11, A12, A13, A14, A15, A16, A17, A18, A19, A20,
    >;

    type Array = [i128; 20];

    open spec fn from_array_spec(array: Seq<i128>) -> Self {
        (
            from_slot::<A1>(array[0]), from_slot::<A2>(array[1]), from_slot::<A3>(array[2]),
            from_slot::<A4>(array[3]), from_slot::<A5>(array[4]), from_slot::<A6>(array[5]),
            from_slot::<A7>(array[6]), from_slot::<A8>(array[7]), from_slot::<A9>(array[8]),
            from_slot::<A10>(array[9]), from_slot::<A11>(array[10]), from_slot::<A12>(array[11]),
            from_slot::<A13>(array[12]), from_slot::<A14>(array[13]), from_slot::<A15>(array[14]),
            from_slot::<A16>(array[15]), from_slot::<A17>(array[16]), from_slot::<A18>(array[17]),
            from_slot::<A19>(array[18]), from_slot::<A20>(array[19]),
        )
    }

    open spec fn into_array_spec(self) -> Seq<i128> {
        seq![
            slot_of(self.0), slot_of(self.1), slot_of(self.2), slot_of(self.3), slot_of(self.4),
            slot_of(self.5), slot_of(self.6), slot_of(self.7), slot_of(self.8), slot_of(self.9),
            slot_of(self.10), slot_of(self.11), slot_of(self.12), slot_of(self.13),
            slot_of(self.14), slot_of(self.15), slot_of(self.16), slot_of(self.17),
            slot_of(self.18), slot_of(self.19),
        ]
    }

    open spec fn from_c_struct_spec(c_struct: S20<
        A1, A2, A3, A4, A5, A6, A7, A8, A9, A10, A11, A12, A13, A14, A15, A16, A17, A18, A19, A20,
    >) -> Self {
        (
            A1::from_native_spec(c_struct.0), A2::from_native_spec(c_struct.1),
            A3::from_native_spec(c_struct.2), A4::from_native_spec(c_struct.3),
            A5::from_native_spec(c_struct.4), A6::from_native_spec(c_struct.5),
            A7::from_native_spec(c_struct.6), A8::from_native_spec(c_struct.7),
            A9::from_native_spec(c_struct.8), A10::from_native_spec(c_struct.9),
            A11::from_native_spec(c_struct.10), A12::from_native_spec(c_struct.11),
            A13::from_native_spec(c_struct.12), A14::from_native_spec(c_struct.13),
            A15::from_native_spec(c_struct.14), A16::from_native_spec(c_struct.15),
            A17::from_native_spec(c_struct.16), A18::from_native_spec(c_struct.17),
            A19::from_native_spec(c_struct.18), A20::from_native_spec(c_struct.19),
        )
    }

    open spec fn into_c_struct_spec(self) -> S20<
        A1, A2, A3, A4, A5, A6, A7, A8, A9, A10, A11, A12, A13, A14, A15, A16, A17, A18, A19, A20,
    > {
        S20(
            self.0.to_native_spec(), self.1.to_native_spec(), self.2.to_native_spec(),
            self.3.to_native_spec(), self.4.to_native_spec(), self.5.to_native_spec(),
            self.6.to_native_spec(), self.7.to_native_spec(), self.8.to_native_spec(),
            self.9.to_native_spec(), self.10.to_native_spec(), self.11.to_native_spec(),
            self.12.to_native_spec(), self.13.to_native_spec(), self.14.to_native_spec(),
            self.15.to_native_spec(), self.16.to_native_spec(), self.17.to_native_spec(),
            self.18.to_native_spec(), self.19.to_native_spec(),
        )
    }

    open spec fn wasm_types_spec() -> Seq<Type> {
        seq![
            type_of::<A1>(), type_of::<A2>(), type_of::<A3>(), type_of::<A4>(), type_of::<A5>(),
            type_of::<A6>(), type_of::<A7>(), type_of::<A8>(), type_of::<A9>(), type_of::<A10>(),
            type_of::<A11>(), type_of::<A12>(), type_of::<A13>(), type_of::<A14>(),
            type_of::<A15>(), type_of::<A16>(), type_of::<A17>(), type_of::<A18>(),
            type_of::<A19>(), type_of::<A20>(),
        ]
    }

    fn from_array(array: [i128; 20]) -> (list: Self) {
        (
            scalar_from_slot(array[0]), scalar_from_slot(array[1]), scalar_from_slot(array[2]),
            scalar_from_slot(array[3]), scalar_from_slot(array[4]), scalar_from_slot(array[5]),
            scalar_from_slot(array[6]), scalar_from_slot(array[7]), scalar_from_slot(array[8]),
            scalar_from_slot(array[9]), scalar_from_slot(array[10]), scalar_from_slot(array[11]),
            scalar_from_slot(array[12]), scalar_from_slot(array[13]), scalar_from_slot(array[14]),
            scalar_from_slot(array[15]), scalar_from_slot(array[16]), scalar_from_slot(array[17]),
            scalar_from_slot(array[18]), scalar_from_slot(array[19]),
        )
    }

    fn into_array(self) -> (array: [i128; 20]) {
        let (
            a1, a2, a3, a4, a5, a6, a7, a8, a9, a10, a11, a12, a13, a14, a15, a16, a17, a18, a19,
            a20,
        ) = self;
        let array = [
            scalar_into_slot(a1), scalar_into_slot(a2), scalar_into_slot(a3), scalar_into_slot(a4),
            scalar_into_slot(a5), scalar_into_slot(a6), scalar_into_slot(a7), scalar_into_slot(a8),
            scalar_into_slot(a9), scalar_into_slot(a10), scalar_into_slot(a11),
            scalar_into_slot(a12), scalar_into_slot(a13), scalar_into_slot(a14),
            scalar_into_slot(a15), scalar_into_slot(a16), scalar_into_slot(a17),
            scalar_into_slot(a18), scalar_into_slot(a19), scalar_into_slot(a20),
        ];
        proof {
            assert(array@ =~= self.into_array_spec());
        }
        array
    }

    fn empty_array() -> (array: [i128; 20]) {
        let array: [i128; 20] = [0, 0, 0, 0, 0, 0, 0, 0, 0, 0, 0, 0, 0, 0, 0, 0, 0, 0, 0, 0];
        proof {
            assert(array@ =~= Seq::new(Self::wasm_types_spec().len(), |i: int| 0i128));
        }
        array
    }

    fn from_c_struct(c_struct: S20<
        A1, A2, A3, A4, A5, A6, A7, A8, A9, A10, A11, A12, A13, A14, A15, A16, A17, A18, A19, A20,
    >) -> (list: Self) {
        let S20(
            a1, a2, a3, a4, a5, a6, a7, a8, a9, a10, a11, a12, a13, a14, a15, a16, a17, a18, a19,
            a20,
        ) = c_struct;
        (
            A1::from_native(a1), A2::from_native(a2), A3::from_native(a3), A4::from_native(a4),
            A5::from_native(a5), A6::from_native(a6), A7::from_native(a7), A8::from_native(a8),
            A9::from_native(a9), A10::from_native(a10), A11::from_native(a11),
            A12::from_native(a12), A13::from_native(a13), A14::from_native(a14),
            A15::from_native(a15), A16::from_native(a16), A17::from_native(a17),
            A18::from_native(a18), A19::from_native(a19), A20::from_native(a20),
        )
    }

    fn into_c_struct(self) -> (c_struct: S20<
        A1, A2, A3, A4, A5, A6, A7, A8, A9, A10, A11, A12, A13, A14, A15, A16, A17, A18, A19, A20,
    >) {
        let (
            a1, a2, a3, a4, a5, a6, a7, a8, a9, a10, a11, a12, a13, a14, a15, a16, a17, a18, a19,
            a20,
        ) = self;
        S20(
            a1.to_native(), a2.to_native(), a3.to_native(), a4.to_native(), a5.to_native(),
            a6.to_native(), a7.to_native(), a8.to_native(), a9.to_native(), a10.to_native(),
            a11.to_native(), a12.to_native(), a13.to_native(), a14.to_native(), a15.to_native(),
            a16.to_native(), a17.to_native(), a18.to_native(), a19.to_native(), a20.to_native(),
        )
    }

    fn wasm_types() -> (types: Vec<Type>) {
        let types = vec![
            A1::Native::wasm_type(), A2::Native::wasm_type(), A3::Native::wasm_type(),
            A4::Native::wasm_type(), A5::Native::wasm_type(), A6::Native::wasm_type(),
            A7::Native::wasm_type(), A8::Native::wasm_type(), A9::Native::wasm_type(),
            A10::Native::wasm_type(), A11::Native::wasm_type(), A12::Native::wasm_type(),
            A13::Native::wasm_type(), A14::Native::wasm_type(), A15::Native::wasm_type(),
            A16::Native::wasm_type(), A17::Native::wasm_type(), A18::Native::wasm_type(),
            A19::Native::wasm_type(), A20::Native::wasm_type(),
        ];
        proof {
            assert(types@ =~= Self::wasm_types_spec());
        }
        types
    }

    proof fn lemma_array_round_trip(self) {
        lemma_scalar_round_trip(self.0);
        lemma_scalar_round_trip(self.1);
        lemma_scalar_round_trip(self.2);
        lemma_scalar_round_trip(self.3);
        lemma_scalar_round_trip(self.4);
        lemma_scalar_round_trip(self.5);
        lemma_scalar_round_trip(self.6);
        lemma_scalar_round_trip(self.7);
        lemma_scalar_round_trip(self.8);
        lemma_scalar_round_trip(self.9);
        lemma_scalar_round_trip(self.10);
        lemma_scalar_round_trip(self.11);
        lemma_scalar_round_trip(self.12);
        lemma_scalar_round_trip(self.13);
        lemma_scalar_round_trip(self.14);
        lemma_scalar_round_trip(self.15);
        lemma_scalar_round_trip(self.16);
        lemma_scalar_round_trip(self.17);
        lemma_scalar_round_trip(self.18);
        lemma_scalar_round_trip(self.19);
    }

    proof fn lemma_c_struct_round_trip(self) {
        self.0.lemma_native_round_trip();
        self.1.lemma_native_round_trip();
        self.2.lemma_native_round_trip();
        self.3.lemma_native_round_trip();
        self.4.lemma_native_round_trip();
        self.5.lemma_native_round_trip();
        self.6.lemma_native_round_trip();
        self.7.lemma_native_round_trip();
        self.8.lemma_native_round_trip();
        self.9.lemma_native_round_trip();
        self.10.lemma_native_round_trip();
        self.11.lemma_native_round_trip();
        self.12.lemma_native_round_trip();
        self.13.lemma_native_round_trip();
        self.14.lemma_native_round_trip();
        self.15.lemma_native_round_trip();
        self.16.lemma_native_round_trip();
        self.17.lemma_native_round_trip();
        self.18.lemma_native_round_trip();
        self.19.lemma_native_round_trip();
    }
}

/// The natives of 21 values, in the order of the values.
pub struct S21<
    A1: WasmExternType, A2: WasmExternType, A3: WasmExternType, A4: WasmExternType,
    A5: WasmExternType, A6: WasmExternType, A7: WasmExternType, A8: WasmExternType,
    A9: WasmExternType, A10: WasmExternType, A11: WasmExternType, A12: WasmExternType,
    A13: WasmExternType, A14: WasmExternType, A15: WasmExternType, A16: WasmExternType,
    A17: WasmExternType, A18: WasmExternType, A19: WasmExternType, A20: WasmExternType,
    A21: WasmExternType,
>(
    pub A1::Native, pub A2::Native, pub A3::Native, pub A4::Native, pub A5::Native, pub A6::Native,
    pub A7::Native, pub A8::Native, pub A9::Native, pub A10::Native, pub A11::Native,
    pub A12::Native, pub A13::Native, pub A14::Native, pub A15::Native, pub A16::Native,
    pub A17::Native, pub A18::Native, pub A19::Native, pub A20::Native, pub A21::Native,
);

impl<
    A1: WasmExternType, A2: WasmExternType, A3: WasmExternType, A4: WasmExternType,
    A5: WasmExternType, A6: WasmExternType, A7: WasmExternType, A8: WasmExternType,
    A9: WasmExternType, A10: WasmExternType, A11: WasmExternType, A12: WasmExternType,
    A13: WasmExternType, A14: WasmExternType, A15: WasmExternType, A16: WasmExternType,
    A17: WasmExternType, A18: WasmExternType, A19: WasmExternType, A20: WasmExternType,
    A21: WasmExternType,
> WasmTypeList for (
    A1, A2, A3, A4, A5, A6, A7, A8, A9, A10, A11, A12, A13, A14, A15, A16, A17, A18, A19, A20, A21,
) {
    type CStruct = S21<
        A1, A2, A3, A4, A5, A6, A7, A8, A9, A10, A11, A12, A13, A14, A15, A16, A17, A18, A19, A20,
        A21,
    >;

    type Array = [i128; 21];

    open spec fn from_array_spec(array: Seq<i128>) -> Self {
        (
            from_slot::<A1>(array[0]), from_slot::<A2>(array[1]), from_slot::<A3>(array[2]),
            from_slot::<A4>(array[3]), from_slot::<A5>(array[4]), from_slot::<A6>(array[5]),
            from_slot::<A7>(array[6]), from_slot::<A8>(array[7]), from_slot::<A9>(array[8]),
            from_slot::<A10>(array[9]), from_slot::<A11>(array[10]), from_slot::<A12>(array[11]),
            from_slot::<A13>(array[12]), from_slot::<A14>(array[13]), from_slot::<A15>(array[14]),
            from_slot::<A16>(array[15]), from_slot::<A17>(array[16]), from_slot::<A18>(array[17]),
            from_slot::<A19>(array[18]), from_slot::<A20>(array[19]), from_slot::<A21>(array[20]),
        )
    }

    open spec fn into_array_spec(self) -> Seq<i128> {
        seq![
            slot_of(self.0), slot_of(self.1), slot_of(self.2), slot_of(self.3), slot_of(self.4),
            slot_of(self.5), slot_of(self.6), slot_of(self.7), slot_of(self.8), slot_of(self.9),
            slot_of(self.10), slot_of(self.11), slot_of(self.12), slot_of(self.13),
            slot_of(self.14), slot_of(self.15), slot_of(self.16), slot_of(self.17),
            slot_of(self.18), slot_of(self.19), slot_of(self.20),
        ]
    }

    open spec fn from_c_struct_spec(c_struct: S21<
        A1, A2, A3, A4, A5, A6, A7, A8, A9, A10, A11, A12, A13, A14, A15, A16, A17, A18, A19, A20,
        A21,
    >) -> Self {
        (
            A1::from_native_spec(c_struct.0), A2::from_native_spec(c_struct.1),
            A3::from_native_spec(c_struct.2), A4::from_native_spec(c_struct.3),
            A5::from_native_spec(c_struct.4), A6::from_native_spec(c_struct.5),
            A7::from_native_spec(c_struct.6), A8::from_native_spec(c_struct.7),
            A9::from_native_spec(c_struct.8), A10::from_native_spec(c_struct.9),
            A11::from_native_spec(c_struct.10), A12::from_native_spec(c_struct.11),
            A13::from_native_spec(c_struct.12), A14::from_native_spec(c_struct.13),
            A15::from_native_spec(c_struct.14), A16::from_native_spec(c_struct.15),
            A17::from_native_spec(c_struct.16), A18::from_native_spec(c_struct.17),
            A19::from_native_spec(c_struct.18), A20::from_native_spec(c_struct.19),
            A21::from_native_spec(c_struct.20),
        )
    }

    open spec fn into_c_struct_spec(self) -> S21<
        A1, A2, A3, A4, A5, A6, A7, A8, A9, A10, A11, A12, A13, A14, A15, A16, A17, A18, A19, A20,
        A21,
    > {
        S21(
            self.0.to_native_spec(), self.1.to_native_spec(), self.2.to_native_spec(),
            self.3.to_native_spec(), self.4.to_native_spec(), self.5.to_native_spec(),
            self.6.to_native_spec(), self.7.to_native_spec(), self.8.to_native_spec(),
            self.9.to_native_spec(), self.10.to_native_spec(), self.11.to_native_spec(),
            self.12.to_native_spec(), self.13.to_native_spec(), self.14.to_native_spec(),
            self.15.to_native_spec(), self.16.to_native_spec(), self.17.to_native_spec(),
            self.18.to_native_spec(), self.19.to_native_spec(), self.20.to_native_spec(),
        )
    }

    open spec fn wasm_types_spec() -> Seq<Type> {
        seq![
            type_of::<A1>(), type_of::<A2>(), type_of::<A3>(), type_of::<A4>(), type_of::<A5>(),
            type_of::<A6>(), type_of::<A7>(), type_of::<A8>(), type_of::<A9>(), type_of::<A10>(),
            type_of::<A11>(), type_of::<A12>(), type_of::<A13>(), type_of::<A14>(),
            type_of::<A15>(), type_of::<A16>(), type_of::<A17>(), type_of::<A18>(),
            type_of::<A19>(), type_of::<A20>(), type_of::<A21>(),
        ]
    }

    fn from_array(array: [i128; 21]) -> (list: Self) {
        (
            scalar_from_slot(array[0]), scalar_from_slot(array[1]), scalar_from_slot(array[2]),
            scalar_from_slot(array[3]), scalar_from_slot(array[4]), scalar_from_slot(array[5]),
            scalar_from_slot(array[6]), scalar_from_slot(array[7]), scalar_from_slot(array[8]),
            scalar_from_slot(array[9]), scalar_from_slot(array[10]), scalar_from_slot(array[11]),
            scalar_from_slot(array[12]), scalar_from_slot(array[13]), scalar_from_slot(array[14]),
            scalar_from_slot(array[15]), scalar_from_slot(array[16]), scalar_from_slot(array[17]),
            scalar_from_slot(array[18]), scalar_from_slot(array[19]), scalar_from_slot(array[20]),
        )
    }

    fn into_array(self) -> (array: [i128; 21]) {
        let (
            a1, a2, a3, a4, a5, a6, a7, a8, a9, a10, a11, a12, a13, a14, a15, a16, a17, a18, a19,
            a20, a21,
        ) = self;
        let array = [
            scalar_into_slot(a1), scalar_into_slot(a2), scalar_into_slot(a3), scalar_into_slot(a4),
            scalar_into_slot(a5), scalar_into_slot(a6), scalar_into_slot(a7), scalar_into_slot(a8),
            scalar_into_slot(a9), scalar_into_slot(a10), scalar_into_slot(a11),
            scalar_into_slot(a12), scalar_into_slot(a13), scalar_into_slot(a14),
            scalar_into_slot(a15), scalar_into_slot(a16), scalar_into_slot(a17),
            scalar_into_slot(a18), scalar_into_slot(a19), scalar_into_slot(a20),
            scalar_into_slot(a21),
        ];
        proof {
            assert(array@ =~= self.into_array_spec());
        }
        array
    }

    fn empty_array() -> (array: [i128; 21]) {
        let array: [i128; 21] = [0, 0, 0, 0, 0, 0, 0, 0, 0, 0, 0, 0, 0, 0, 0, 0, 0, 0, 0, 0, 0];
        proof {
            assert(array@ =~= Seq::new(Self::wasm_types_spec().len(), |i: int| 0i128));
        }
        array
    }

    fn from_c_struct(c_struct: S21<
        A1, A2, A3, A4, A5, A6, A7, A8, A9, A10, A11, A12, A13, A14, A15, A16, A17, A18, A19, A20,
        A21,
    >) -> (list: Self) {
        let S21(
            a1, a2, a3, a4, a5, a6, a7, a8, a9, a10, a11, a12, a13, a14, a15, a16, a17, a18, a19,
            a20, a21,
        ) = c_struct;
        (
            A1::from_native(a1), A2::from_native(a2), A3::from_native(a3), A4::from_native(a4),
            A5::from_native(a5), A6::from_native(a6), A7::from_native(a7), A8::from_native(a8),
            A9::from_native(a9), A10::from_native(a10), A11::from_native(a11),
            A12::from_native(a12), A13::from_native(a13), A14::from_native(a14),
            A15::from_native(a15), A16::from_native(a16), A17::from_native(a17),
            A18::from_native(a18), A19::from_native(a19), A20::from_native(a20),
            A21::from_native(a21),
        )
    }

    fn into_c_struct(self) -> (c_struct: S21<
        A1, A2, A3, A4, A5, A6, A7, A8, A9, A10, A11, A12, A13, A14, A15, A16, A17, A18, A19, A20,
        A21,
    >) {
        let (
            a1, a2, a3, a4, a5, a6, a7, a8, a9, a10, a11, a12, a13, a14, a15, a16, a17, a18, a19,
            a20, a21,
        ) = self;
        S21(
            a1.to_native(), a2.to_native(), a3.to_native(), a4.to_native(), a5.to_native(),
            a6.to_native(), a7.to_native(), a8.to_native(), a9.to_native(), a10.to_native(),
            a11.to_native(), a12.to_native(), a13.to_native(), a14.to_native(), a15.to_native(),
            a16.to_native(), a17.to_native(), a18.to_native(), a19.to_native(), a20.to_native(),
            a21.to_native(),
        )
    }

    fn wasm_types() -> (types: Vec<Type>) {
        let types = vec![
            A1::Native::wasm_type(), A2::Native::wasm_type(), A3::Native::wasm_type(),
            A4::Native::wasm_type(), A5::Native::wasm_type(), A6::Native::wasm_type(),
            A7::Native::wasm_type(), A8::Native::wasm_type(), A9::Native::wasm_type(),
            A10::Native::wasm_type(), A11::Native::wasm_type(), A12::Native::wasm_type(),
            A13::Native::wasm_type(), A14::Native::wasm_type(), A15::Native::wasm_type(),
            A16::Native::wasm_type(), A17::Native::wasm_type(), A18::Native::wasm_type(),
            A19::Native::wasm_type(), A20::Native::wasm_type(), A21::Native::wasm_type(),
        ];
        proof {
            assert(types@ =~= Self::wasm_types_spec());
        }
        types
    }

    proof fn lemma_array_round_trip(self) {
        lemma_scalar_round_trip(self.0);
        lemma_scalar_round_trip(self.1);
        lemma_scalar_round_trip(self.2);
        lemma_scalar_round_trip(self.3);
        lemma_scalar_round_trip(self.4);
        lemma_scalar_round_trip(self.5);
        lemma_scalar_round_trip(self.6);
        lemma_scalar_round_trip(self.7);
        lemma_scalar_round_trip(self.8);
        lemma_scalar_round_trip(self.9);
        lemma_scalar_round_trip(self.10);
        lemma_scalar_round_trip(self.11);
        lemma_scalar_round_trip(self.12);
        lemma_scalar_round_trip(self.13);
        lemma_scalar_round_trip(self.14);
        lemma_scalar_round_trip(self.15);
        lemma_scalar_round_trip(self.16);
        lemma_scalar_round_trip(self.17);
        lemma_scalar_round_trip(self.18);
        lemma_scalar_round_trip(self.19);
        lemma_scalar_round_trip(self.20);
    }

    proof fn lemma_c_struct_round_trip(self) {
        self.0.lemma_native_round_trip();
        self.1.lemma_native_round_trip();
        self.2.lemma_native_round_trip();
        self.3.lemma_native_round_trip();
        self.4.lemma_native_round_trip();
        self.5.lemma_native_round_trip();
        self.6.lemma_native_round_trip();
        self.7.lemma_native_round_trip();
        self.8.lemma_native_round_trip();
        self.9.lemma_native_round_trip();
        self.10.lemma_native_round_trip();
        self.11.lemma_native_round_trip();
        self.12.lemma_native_round_trip();
        self.13.lemma_native_round_trip();
        self.14.lemma_native_round_trip();
        self.15.lemma_native_round_trip();
        self.16.lemma_native_round_trip();
        self.17.lemma_native_round_trip();
        self.18.lemma_native_round_trip();
        self.19.lemma_native_round_trip();
        self.20.lemma_native_round_trip();
    }
}

/// The natives of 22 values, in the order of the values.
pub struct S22<
    A1: WasmExternType, A2: WasmExternType, A3: WasmExternType, A4: WasmExternType,
    A5: WasmExternType, A6: WasmExternType, A7: WasmExternType, A8: WasmExternType,
    A9: WasmExternType, A10: WasmExternType, A11: WasmExternType, A12: WasmExternType,
    A13: WasmExternType, A14: WasmExternType, A15: WasmExternType, A16: WasmExternType,
    A17: WasmExternType, A18: WasmExternType, A19: WasmExternType, A20: WasmExternType,
    A21: WasmExternType, A22: WasmExternType,
>(
    pub A1::Native, pub A2::Native, pub A3::Native, pub A4::Native, pub A5::Native, pub A6::Native,
    pub A7::Native, pub A8::Native, pub A9::Native, pub A10::Native, pub A11::Native,
    pub A12::Native, pub A13::Native, pub A14::Native, pub A15::Native, pub A16::Native,
    pub A17::Native, pub A18::Native, pub A19::Native, pub A20::Native, pub A21::Native,
    pub A22::Native,
);

impl<
    A1: WasmExternType, A2: WasmExternType, A3: WasmExternType, A4: WasmExternType,
    A5: WasmExternType, A6: WasmExternType, A7: WasmExternType, A8: WasmExternType,
    A9: WasmExternType, A10: WasmExternType, A11: WasmExternType, A12: WasmExternType,
    A13: WasmExternType, A14: WasmExternType, A15: WasmExternType, A16: WasmExternType,
    A17: WasmExternType, A18: WasmExternType, A19: WasmExternType, A20: WasmExternType,
    A21: WasmExternType, A22: WasmExternType,
> WasmTypeList for (
    A1, A2, A3, A4, A5, A6, A7, A8, A9, A10, A11, A12, A13, A14, A15, A16, A17, A18, A19, A20, A21,
    A22,
) {
    type CStruct = S22<
        A1, A2, A3, A4, A5, A6, A7, A8, A9, A10, A11, A12, A13, A14, A15, A16, A17, A18, A19, A20,
        A21, A22,
    >;

    type Array = [i128; 22];

    open spec fn from_array_spec(array: Seq<i128>) -> Self {
        (
            from_slot::<A1>(array[0]), from_slot::<A2>(array[1]), from_slot::<A3>(array[2]),
            from_slot::<A4>(array[3]), from_slot::<A5>(array[4]), from_slot::<A6>(array[5]),
            from_slot::<A7>(array[6]), from_slot::<A8>(array[7]), from_slot::<A9>(array[8]),
            from_slot::<A10>(array[9]), from_slot::<A11>(array[10]), from_slot::<A12>(array[11]),
            from_slot::<A13>(array[12]), from_slot::<A14>(array[13]), from_slot::<A15>(array[14]),
            from_slot::<A16>(array[15]), from_slot::<A17>(array[16]), from_slot::<A18>(array[17]),
            from_slot::<A19>(array[18]), from_slot::<A20>(array[19]), from_slot::<A21>(array[20]),
            from_slot::<A22>(array[21]),
        )
    }

    open spec fn into_array_spec(self) -> Seq<i128> {
        seq![
            slot_of(self.0), slot_of(self.1), slot_of(self.2), slot_of(self.3), slot_of(self.4),
            slot_of(self.5), slot_of(self.6), slot_of(self.7), slot_of(self.8), slot_of(self.9),
            slot_of(self.10), slot_of(self.11), slot_of(self.12), slot_of(self.13),
            slot_of(self.14), slot_of(self.15), slot_of(self.16), slot_of(self.17),
            slot_of(self.18), slot_of(self.19), slot_of(self.20), slot_of(self.21),
        ]
    }

    open spec fn from_c_struct_spec(c_struct: S22<
        A1, A2, A3, A4, A5, A6, A7, A8, A9, A10, A11, A12, A13, A14, A15, A16, A17, A18, A19, A20,
        A21, A22,
    >) -> Self {
        (
            A1::from_native_spec(c_struct.0), A2::from_native_spec(c_struct.1),
            A3::from_native_spec(c_struct.2), A4::from_native_spec(c_struct.3),
            A5::from_native_spec(c_struct.4), A6::from_native_spec(c_struct.5),
            A7::from_native_spec(c_struct.6), A8::from_native_spec(c_struct.7),
            A9::from_native_spec(c_struct.8), A10::from_native_spec(c_struct.9),
            A11::from_native_spec(c_struct.10), A12::from_native_spec(c_struct.11),
            A13::from_native_spec(c_struct.12), A14::from_native_spec(c_struct.13),
            A15::from_native_spec(c_struct.14), A16::from_native_spec(c_struct.15),
            A17::from_native_spec(c_struct.16), A18::from_native_spec(c_struct.17),
            A19::from_native_spec(c_struct.18), A20::from_native_spec(c_struct.19),
            A21::from_native_spec(c_struct.20), A22::from_native_spec(c_struct.21),
        )
    }

    open spec fn into_c_struct_spec(self) -> S22<
        A1, A2, A3, A4, A5, A6, A7, A8, A9, A10, A11, A12, A13, A14, A15, A16, A17, A18, A19, A20,
        A21, A22,
    > {
        S22(
            self.0.to_native_spec(), self.1.to_native_spec(), self.2.to_native_spec(),
            self.3.to_native_spec(), self.4.to_native_spec(), self.5.to_native_spec(),
            self.6.to_native_spec(), self.7.to_native_spec(), self.8.to_native_spec(),
            self.9.to_native_spec(), self.10.to_native_spec(), self.11.to_native_spec(),
            self.12.to_native_spec(), self.13.to_native_spec(), self.14.to_native_spec(),
            self.15.to_native_spec(), self.16.to_native_spec(), self.17.to_native_spec(),
            self.18.to_native_spec(), self.19.to_native_spec(), self.20.to_native_spec(),
            self.21.to_native_spec(),
        )
    }

    open spec fn wasm_types_spec() -> Seq<Type> {
        seq![
            type_of::<A1>(), type_of::<A2>(), type_of::<A3>(), type_of::<A4>(), type_of::<A5>(),
            type_of::<A6>(), type_of::<A7>(), type_of::<A8>(), type_of::<A9>(), type_of::<A10>(),
            type_of::<A11>(), type_of::<A12>(), type_of::<A13>(), type_of::<A14>(),
            type_of::<A15>(), type_of::<A16>(), type_of::<A17>(), type_of::<A18>(),
            type_of::<A19>(), type_of::<A20>(), type_of::<A21>(), type_of::<A22>(),
        ]
    }

    fn from_array(array: [i128; 22]) -> (list: Self) {
        (
            scalar_from_slot(array[0]), scalar_from_slot(array[1]), scalar_from_slot(array[2]),
            scalar_from_slot(array[3]), scalar_from_slot(array[4]), scalar_from_slot(array[5]),
            scalar_from_slot(array[6]), scalar_from_slot(array[7]), scalar_from_slot(array[8]),
            scalar_from_slot(array[9]), scalar_from_slot(array[10]), scalar_from_slot(array[11]),
            scalar_from_slot(array[12]), scalar_from_slot(array[13]), scalar_from_slot(array[14]),
            scalar_from_slot(array[15]), scalar_from_slot(array[16]), scalar_from_slot(array[17]),
            scalar_from_slot(array[18]), scalar_from_slot(array[19]), scalar_from_slot(array[20]),
            scalar_from_slot(array[21]),
        )
    }

    fn into_array(self) -> (array: [i128; 22]) {
        let (
            a1, a2, a3, a4, a5, a6, a7, a8, a9, a10, a11, a12, a13, a14, a15, a16, a17, a18, a19,
            a20, a21, a22,
        ) = self;
        let array = [
            scalar_into_slot(a1), scalar_into_slot(a2), scalar_into_slot(a3), scalar_into_slot(a4),
            scalar_into_slot(a5), scalar_into_slot(a6), scalar_into_slot(a7), scalar_into_slot(a8),
            scalar_into_slot(a9), scalar_into_slot(a10), scalar_into_slot(a11),
            scalar_into_slot(a12), scalar_into_slot(a13), scalar_into_slot(a14),
            scalar_into_slot(a15), scalar_into_slot(a16), scalar_into_slot(a17),
            scalar_into_slot(a18), scalar_into_slot(a19), scalar_into_slot(a20),
            scalar_into_slot(a21), scalar_into_slot(a22),
        ];
        proof {
            assert(array@ =~= self.into_array_spec());
        }
        array
    }

    fn empty_array() -> (array: [i128; 22]) {
        let array: [i128; 22] = [0, 0, 0, 0, 0, 0, 0, 0, 0, 0, 0, 0, 0, 0, 0, 0, 0, 0, 0, 0, 0, 0];
        proof {
            assert(array@ =~= Seq::new(Self::wasm_types_spec().len(), |i: int| 0i128));
        }
        array
    }

    fn from_c_struct(c_struct: S22<
        A1, A2, A3, A4, A5, A6, A7, A8, A9, A10, A11, A12, A13, A14, A15, A16, A17, A18, A19, A20,
        A21, A22,
    >) -> (list: Self) {
        let S22(
            a1, a2, a3, a4, a5, a6, a7, a8, a9, a10, a11, a12, a13, a14, a15, a16, a17, a18, a19,
            a20, a21, a22,
        ) = c_struct;
        (
            A1::from_native(a1), A2::from_native(a2), A3::from_native(a3), A4::from_native(a4),
            A5::from_native(a5), A6::from_native(a6), A7::from_native(a7), A8::from_native(a8),
            A9::from_native(a9), A10::from_native(a10), A11::from_native(a11),
            A12::from_native(a12), A13::from_native(a13), A14::from_native(a14),
            A15::from_native(a15), A16::from_native(a16), A17::from_native(a17),
            A18::from_native(a18), A19::from_native(a19), A20::from_native(a20),
            A21::from_native(a21), A22::from_native(a22),
        )
    }

    fn into_c_struct(self) -> (c_struct: S22<
        A1, A2, A3, A4, A5, A6, A7, A8, A9, A10, A11, A12, A13, A14, A15, A16, A17, A18, A19, A20,
        A21, A22,
    >) {
        let (
            a1, a2, a3, a4, a5, a6, a7, a8, a9, a10, a11, a12, a13, a14, a15, a16, a17, a18, a19,
            a20, a21, a22,
        ) = self;
        S22(
            a1.to_native(), a2.to_native(), a3.to_native(), a4.to_native(), a5.to_native(),
            a6.to_native(), a7.to_native(), a8.to_native(), a9.to_native(), a10.to_native(),
            a11.to_native(), a12.to_native(), a13.to_native(), a14.to_native(), a15.to_native(),
            a16.to_native(), a17.to_native(), a18.to_native(), a19.to_native(), a20.to_native(),
            a21.to_native(), a22.to_native(),
        )
    }

    fn wasm_types() -> (types: Vec<Type>) {
        let types = vec![
            A1::Native::wasm_type(), A2::Native::wasm_type(), A3::Native::wasm_type(),
            A4::Native::wasm_type(), A5::Native::wasm_type(), A6::Native::wasm_type(),
            A7::Native::wasm_type(), A8::Native::wasm_type(), A9::Native::wasm_type(),
            A10::Native::wasm_type(), A11::Native::wasm_type(), A12::Native::wasm_type(),
            A13::Native::wasm_type(), A14::Native::wasm_type(), A15::Native::wasm_type(),
            A16::Native::wasm_type(), A17::Native::wasm_type(), A18::Native::wasm_type(),
            A19::Native::wasm_type(), A20::Native::wasm_type(), A21::Native::wasm_type(),
            A22::Native::wasm_type(),
        ];
        proof {
            assert(types@ =~= Self::wasm_types_spec());
        }
        types
    }

    proof fn lemma_array_round_trip(self) {
        lemma_scalar_round_trip(self.0);
        lemma_scalar_round_trip(self.1);
        lemma_scalar_round_trip(self.2);
        lemma_scalar_round_trip(self.3);
        lemma_scalar_round_trip(self.4);
        lemma_scalar_round_trip(self.5);
        lemma_scalar_round_trip(self.6);
        lemma_scalar_round_trip(self.7);
        lemma_scalar_round_trip(self.8);
        lemma_scalar_round_trip(self.9);
        lemma_scalar_round_trip(self.10);
        lemma_scalar_round_trip(self.11);
        lemma_scalar_round_trip(self.12);
        lemma_scalar_round_trip(self.13);
        lemma_scalar_round_trip(self.14);
        lemma_scalar_round_trip(self.15);
        lemma_scalar_round_trip(self.16);
        lemma_scalar_round_trip(self.17);
        lemma_scalar_round_trip(self.18);
        lemma_scalar_round_trip(self.19);
        lemma_scalar_round_trip(self.20);
        lemma_scalar_round_trip(self.21);
    }

    proof fn lemma_c_struct_round_trip(self) {
        self.0.lemma_native_round_trip();
        self.1.lemma_native_round_trip();
        self.2.lemma_native_round_trip();
        self.3.lemma_native_round_trip();
        self.4.lemma_native_round_trip();
        self.5.lemma_native_round_trip();
        self.6.lemma_native_round_trip();
        self.7.lemma_native_round_trip();
        self.8.lemma_native_round_trip();
        self.9.lemma_native_round_trip();
        self.10.lemma_native_round_trip();
        self.11.lemma_native_round_trip();
        self.12.lemma_native_round_trip();
        self.13.lemma_native_round_trip();
        self.14.lemma_native_round_trip();
        self.15.lemma_native_round_trip();
        self.16.lemma_native_round_trip();
        self.17.lemma_native_round_trip();
        self.18.lemma_native_round_trip();
        self.19.lemma_native_round_trip();
        self.20.lemma_native_round_trip();
        self.21.lemma_native_round_trip();
    }
}

/// The natives of 23 values, in the order of the values.
pub struct S23<
    A1: WasmExternType, A2: WasmExternType, A3: WasmExternType, A4: WasmExternType,
    A5: WasmExternType, A6: WasmExternType, A7: WasmExternType, A8: WasmExternType,
    A9: WasmExternType, A10: WasmExternType, A11: WasmExternType, A12: WasmExternType,
    A13: WasmExternType, A14: WasmExternType, A15: WasmExternType, A16: WasmExternType,
    A17: WasmExternType, A18: WasmExternType, A19: WasmExternType, A20: WasmExternType,
    A21: WasmExternType, A22: WasmExternType, A23: WasmExternType,
>(
    pub A1::Native, pub A2::Native, pub A3::Native, pub A4::Native, pub A5::Native, pub A6::Native,
    pub A7::Native, pub A8::Native, pub A9::Native, pub A10::Native, pub A11::Native,
    pub A12::Native, pub A13::Native, pub A14::Native, pub A15::Native, pub A16::Native,
    pub A17::Native, pub A18::Native, pub A19::Native, pub A20::Native, pub A21::Native,
    pub A22::Native, pub A23::Native,
);

impl<
    A1: WasmExternType, A2: WasmExternType, A3: WasmExternType, A4: WasmExternType,
    A5: WasmExternType, A6: WasmExternType, A7: WasmExternType, A8: WasmExternType,
    A9: WasmExternType, A10: WasmExternType, A11: WasmExternType, A12: WasmExternType,
    A13: WasmExternType, A14: WasmExternType, A15: WasmExternType, A16: WasmExternType,
    A17: WasmExternType, A18: WasmExternType, A19: WasmExternType, A20: WasmExternType,
    A21: WasmExternType, A22: WasmExternType, A23: WasmExternType,
> WasmTypeList for (
    A1, A2, A3, A4, A5, A6, A7, A8, A9, A10, A11, A12, A13, A14, A15, A16, A17, A18, A19, A20, A21,
    A22, A23,
) {
    type CStruct = S23<
        A1, A2, A3, A4, A5, A6, A7, A8, A9, A10, A11, A12, A13, A14, A15, A16, A17, A18, A19, A20,
        A21, A22, A23,
    >;

    type Array = [i128; 23];

    open spec fn from_array_spec(array: Seq<i128>) -> Self {
        (
            from_slot::<A1>(array[0]), from_slot::<A2>(array[1]), from_slot::<A3>(array[2]),
            from_slot::<A4>(array[3]), from_slot::<A5>(array[4]), from_slot::<A6>(array[5]),
            from_slot::<A7>(array[6]), from_slot::<A8>(array[7]), from_slot::<A9>(array[8]),
            from_slot::<A10>(array[9]), from_slot::<A11>(array[10]), from_slot::<A12>(array[11]),
            from_slot::<A13>(array[12]), from_slot::<A14>(array[13]), from_slot::<A15>(array[14]),
            from_slot::<A16>(array[15]), from_slot::<A17>(array[16]), from_slot::<A18>(array[17]),
            from_slot::<A19>(array[18]), from_slot::<A20>(array[19]), from_slot::<A21>(array[20]),
            from_slot::<A22>(array[21]), from_slot::<A23>(array[22]),
        )
    }

    open spec fn into_array_spec(self) -> Seq<i128> {
        seq![
            slot_of(self.0), slot_of(self.1), slot_of(self.2), slot_of(self.3), slot_of(self.4),
            slot_of(self.5), slot_of(self.6), slot_of(self.7), slot_of(self.8), slot_of(self.9),
            slot_of(self.10), slot_of(self.11), slot_of(self.12), slot_of(self.13),
            slot_of(self.14), slot_of(self.15), slot_of(self.16), slot_of(self.17),
            slot_of(self.18), slot_of(self.19), slot_of(self.20), slot_of(self.21),
            slot_of(self.22),
        ]
    }

    open spec fn from_c_struct_spec(c_struct: S23<
        A1, A2, A3, A4, A5, A6, A7, A8, A9, A10, A11, A12, A13, A14, A15, A16, A17, A18, A19, A20,
        A21, A22, A23,
    >) -> Self {
        (
            A1::from_native_spec(c_struct.0), A2::from_native_spec(c_struct.1),
            A3::from_native_spec(c_struct.2), A4::from_native_spec(c_struct.3),
            A5::from_native_spec(c_struct.4), A6::from_native_spec(c_struct.5),
            A7::from_native_spec(c_struct.6), A8::from_native_spec(c_struct.7),
            A9::from_native_spec(c_struct.8), A10::from_native_spec(c_struct.9),
            A11::from_native_spec(c_struct.10), A12::from_native_spec(c_struct.11),
            A13::from_native_spec(c_struct.12), A14::from_native_spec(c_struct.13),
            A15::from_native_spec(c_struct.14), A16::from_native_spec(c_struct.15),
            A17::from_native_spec(c_struct.16), A18::from_native_spec(c_struct.17),
            A19::from_native_spec(c_struct.18), A20::from_native_spec(c_struct.19),
            A21::from_native_spec(c_struct.20), A22::from_native_spec(c_struct.21),
            A23::from_native_spec(c_struct.22),
        )
    }

    open spec fn into_c_struct_spec(self) -> S23<
        A1, A2, A3, A4, A5, A6, A7, A8, A9, A10, A11, A12, A13, A14, A15, A16, A17, A18, A19, A20,
        A21, A22, A23,
    > {
        S23(
            self.0.to_native_spec(), self.1.to_native_spec(), self.2.to_native_spec(),
            self.3.to_native_spec(), self.4.to_native_spec(), self.5.to_native_spec(),
            self.6.to_native_spec(), self.7.to_native_spec(), self.8.to_native_spec(),
            self.9.to_native_spec(), self.10.to_native_spec(), self.11.to_native_spec(),
            self.12.to_native_spec(), self.13.to_native_spec(), self.14.to_native_spec(),
            self.15.to_native_spec(), self.16.to_native_spec(), self.17.to_native_spec(),
            self.18.to_native_spec(), self.19.to_native_spec(), self.20.to_native_spec(),
            self.21.to_native_spec(), self.22.to_native_spec(),
        )
    }

    open spec fn wasm_types_spec() -> Seq<Type> {
        seq![
            type_of::<A1>(), type_of::<A2>(), type_of::<A3>(), type_of::<A4>(), type_of::<A5>(),
            type_of::<A6>(), type_of::<A7>(), type_of::<A8>(), type_of::<A9>(), type_of::<A10>(),
            type_of::<A11>(), type_of::<A12>(), type_of::<A13>(), type_of::<A14>(),
            type_of::<A15>(), type_of::<A16>(), type_of::<A17>(), type_of::<A18>(),
            type_of::<A19>(), type_of::<A20>(), type_of::<A21>(), type_of::<A22>(),
            type_of::<A23>(),
        ]
    }

    fn from_array(array: [i128; 23]) -> (list: Self) {
        (
            scalar_from_slot(array[0]), scalar_from_slot(array[1]), scalar_from_slot(array[2]),
            scalar_from_slot(array[3]), scalar_from_slot(array[4]), scalar_from_slot(array[5]),
            scalar_from_slot(array[6]), scalar_from_slot(array[7]), scalar_from_slot(array[8]),
            scalar_from_slot(array[9]), scalar_from_slot(array[10]), scalar_from_slot(array[11]),
            scalar_from_slot(array[12]), scalar_from_slot(array[13]), scalar_from_slot(array[14]),
            scalar_from_slot(array[15]), scalar_from_slot(array[16]), scalar_from_slot(array[17]),
            scalar_from_slot(array[18]), scalar_from_slot(array[19]), scalar_from_slot(array[20]),
            scalar_from_slot(array[21]), scalar_from_slot(array[22]),
        )
    }

    fn into_array(self) -> (array: [i128; 23]) {
        let (
            a1, a2, a3, a4, a5, a6, a7, a8, a9, a10, a11, a12, a13, a14, a15, a16, a17, a18, a19,
            a20, a21, a22, a23,
        ) = self;
        let array = [
            scalar_into_slot(a1), scalar_into_slot(a2), scalar_into_slot(a3), scalar_into_slot(a4),
            scalar_into_slot(a5), scalar_into_slot(a6), scalar_into_slot(a7), scalar_into_slot(a8),
            scalar_into_slot(a9), scalar_into_slot(a10), scalar_into_slot(a11),
            scalar_into_slot(a12), scalar_into_slot(a13), scalar_into_slot(a14),
            scalar_into_slot(a15), scalar_into_slot(a16), scalar_into_slot(a17),
            scalar_into_slot(a18), scalar_into_slot(a19), scalar_into_slot(a20),
            scalar_into_slot(a21), scalar_into_slot(a22), scalar_into_slot(a23),
        ];
        proof {
            assert(array@ =~= self.into_array_spec());
        }
        array
    }

    fn empty_array() -> (array: [i128; 23]) {
        let array: [i128; 23] = [
            0, 0, 0, 0, 0, 0, 0, 0, 0, 0, 0, 0, 0, 0, 0, 0, 0, 0, 0, 0, 0, 0, 0,
        ];
        proof {
            assert(array@ =~= Seq::new(Self::wasm_types_spec().len(), |i: int| 0i128));
        }
        array
    }

    fn from_c_struct(c_struct: S23<
        A1, A2, A3, A4, A5, A6, A7, A8, A9, A10, A11, A12, A13, A14, A15, A16, A17, A18, A19, A20,
        A21, A22, A23,
    >) -> (list: Self) {
        let S23(
            a1, a2, a3, a4, a5, a6, a7, a8, a9, a10, a11, a12, a13, a14, a15, a16, a17, a18, a19,
            a20, a21, a22, a23,
        ) = c_struct;
        (
            A1::from_native(a1), A2::from_native(a2), A3::from_native(a3), A4::from_native(a4),
            A5::from_native(a5), A6::from_native(a6), A7::from_native(a7), A8::from_native(a8),
            A9::from_native(a9), A10::from_native(a10), A11::from_native(a11),
            A12::from_native(a12), A13::from_native(a13), A14::from_native(a14),
            A15::from_native(a15), A16::from_native(a16), A17::from_native(a17),
            A18::from_native(a18), A19::from_native(a19), A20::from_native(a20),
            A21::from_native(a21), A22::from_native(a22), A23::from_native(a23),
        )
    }

    fn into_c_struct(self) -> (c_struct: S23<
        A1, A2, A3, A4, A5, A6, A7, A8, A9, A10, A11, A12, A13, A14, A15, A16, A17, A18, A19, A20,
        A21, A22, A23,
    >) {
        let (
            a1, a2, a3, a4, a5, a6, a7, a8, a9, a10, a11, a12, a13, a14, a15, a16, a17, a18, a19,
            a20, a21, a22, a23,
        ) = self;
        S23(
            a1.to_native(), a2.to_native(), a3.to_native(), a4.to_native(), a5.to_native(),
            a6.to_native(), a7.to_native(), a8.to_native(), a9.to_native(), a10.to_native(),
            a11.to_native(), a12.to_native(), a13.to_native(), a14.to_native(), a15.to_native(),
            a16.to_native(), a17.to_native(), a18.to_native(), a19.to_native(), a20.to_native(),
            a21.to_native(), a22.to_native(), a23.to_native(),
        )
    }

    fn wasm_types() -> (types: Vec<Type>) {
        let types = vec![
            A1::Native::wasm_type(), A2::Native::wasm_type(), A3::Native::wasm_type(),
            A4::Native::wasm_type(), A5::Native::wasm_type(), A6::Native::wasm_type(),
            A7::Native::wasm_type(), A8::Native::wasm_type(), A9::Native::wasm_type(),
            A10::Native::wasm_type(), A11::Native::wasm_type(), A12::Native::wasm_type(),
            A13::Native::wasm_type(), A14::Native::wasm_type(), A15::Native::wasm_type(),
            A16::Native::wasm_type(), A17::Native::wasm_type(), A18::Native::wasm_type(),
            A19::Native::wasm_type(), A20::Native::wasm_type(), A21::Native::wasm_type(),
            A22::Native::wasm_type(), A23::Native::wasm_type(),
        ];
        proof {
            assert(types@ =~= Self::wasm_types_spec());
        }
        types
    }

    proof fn lemma_array_round_trip(self) {
        lemma_scalar_round_trip(self.0);
        lemma_scalar_round_trip(self.1);
        lemma_scalar_round_trip(self.2);
        lemma_scalar_round_trip(self.3);
        lemma_scalar_round_trip(self.4);
        lemma_scalar_round_trip(self.5);
        lemma_scalar_round_trip(self.6);
        lemma_scalar_round_trip(self.7);
        lemma_scalar_round_trip(self.8);
        lemma_scalar_round_trip(self.9);
        lemma_scalar_round_trip(self.10);
        lemma_scalar_round_trip(self.11);
        lemma_scalar_round_trip(self.12);
        lemma_scalar_round_trip(self.13);
        lemma_scalar_round_trip(self.14);
        lemma_scalar_round_trip(self.15);
        lemma_scalar_round_trip(self.16);
        lemma_scalar_round_trip(self.17);
        lemma_scalar_round_trip(self.18);
        lemma_scalar_round_trip(self.19);
        lemma_scalar_round_trip(self.20);
        lemma_scalar_round_trip(self.21);
        lemma_scalar_round_trip(self.22);
    }

    proof fn lemma_c_struct_round_trip(self) {
        self.0.lemma_native_round_trip();
        self.1.lemma_native_round_trip();
        self.2.lemma_native_round_trip();
        self.3.lemma_native_round_trip();
        self.4.lemma_native_round_trip();
        self.5.lemma_native_round_trip();
        self.6.lemma_native_round_trip();
        self.7.lemma_native_round_trip();
        self.8.lemma_native_round_trip();
        self.9.lemma_native_round_trip();
        self.10.lemma_native_round_trip();
        self.11.lemma_native_round_trip();
        self.12.lemma_native_round_trip();
        self.13.lemma_native_round_trip();
        self.14.lemma_native_round_trip();
        self.15.lemma_native_round_trip();
        self.16.lemma_native_round_trip();
        self.17.lemma_native_round_trip();
        self.18.lemma_native_round_trip();
        self.19.lemma_native_round_trip();
        self.20.lemma_native_round_trip();
        self.21.lemma_native_round_trip();
        self.22.lemma_native_round_trip();
    }
}

/// The natives of 24 values, in the order of the values.
pub struct S24<
    A1: WasmExternType, A2: WasmExternType, A3: WasmExternType, A4: WasmExternType,
    A5: WasmExternType, A6: WasmExternType, A7: WasmExternType, A8: WasmExternType,
    A9: WasmExternType, A10: WasmExternType, A11: WasmExternType, A12: WasmExternType,
    A13: WasmExternType, A14: WasmExternType, A15: WasmExternType, A16: WasmExternType,
    A17: WasmExternType, A18: WasmExternType, A19: WasmExternType, A20: WasmExternType,
    A21: WasmExternType, A22: WasmExternType, A23: WasmExternType, A24: WasmExternType,
>(
    pub A1::Native, pub A2::Native, pub A3::Native, pub A4::Native, pub A5::Native, pub A6::Native,
    pub A7::Native, pub A8::Native, pub A9::Native, pub A10::Native, pub A11::Native,
    pub A12::Native, pub A13::Native, pub A14::Native, pub A15::Native, pub A16::Native,
    pub A17::Native, pub A18::Native, pub A19::Native, pub A20::Native, pub A21::Native,
    pub A22::Native, pub A23::Native, pub A24::Native,
);

impl<
    A1: WasmExternType, A2: WasmExternType, A3: WasmExternType, A4: WasmExternType,
    A5: WasmExternType, A6: WasmExternType, A7: WasmExternType, A8: WasmExternType,
    A9: WasmExternType, A10: WasmExternType, A11: WasmExternType, A12: WasmExternType,
    A13: WasmExternType, A14: WasmExternType, A15: WasmExternType, A16: WasmExternType,
    A17: WasmExternType, A18: WasmExternType, A19: WasmExternType, A20: WasmExternType,
    A21: WasmExternType, A22: WasmExternType, A23: WasmExternType, A24: WasmExternType,
> WasmTypeList for (
    A1, A2, A3, A4, A5, A6, A7, A8, A9, A10, A11, A12, A13, A14, A15, A16, A17, A18, A19, A20, A21,
    A22, A23, A24,
) {
    type CStruct = S24<
        A1, A2, A3, A4, A5, A6, A7, A8, A9, A10, A11, A12, A13, A14, A15, A16, A17, A18, A19, A20,
        A21, A22, A23, A24,
    >;

    type Array = [i128; 24];

    open spec fn from_array_spec(array: Seq<i128>) -> Self {
        (
            from_slot::<A1>(array[0]), from_slot::<A2>(array[1]), from_slot::<A3>(array[2]),
            from_slot::<A4>(array[3]), from_slot::<A5>(array[4]), from_slot::<A6>(array[5]),
            from_slot::<A7>(array[6]), from_slot::<A8>(array[7]), from_slot::<A9>(array[8]),
            from_slot::<A10>(array[9]), from_slot::<A11>(array[10]), from_slot::<A12>(array[11]),
            from_slot::<A13>(array[12]), from_slot::<A14>(array[13]), from_slot::<A15>(array[14]),
            from_slot::<A16>(array[15]), from_slot::<A17>(array[16]), from_slot::<A18>(array[17]),
            from_slot::<A19>(array[18]), from_slot::<A20>(array[19]), from_slot::<A21>(array[20]),
            from_slot::<A22>(array[21]), from_slot::<A23>(array[22]), from_slot::<A24>(array[23]),
        )
    }

    open spec fn into_array_spec(self) -> Seq<i128> {
        seq![
            slot_of(self.0), slot_of(self.1), slot_of(self.2), slot_of(self.3), slot_of(self.4),
            slot_of(self.5), slot_of(self.6), slot_of(self.7), slot_of(self.8), slot_of(self.9),
            slot_of(self.10), slot_of(self.11), slot_of(self.12), slot_of(self.13),
            slot_of(self.14), slot_of(self.15), slot_of(self.16), slot_of(self.17),
            slot_of(self.18), slot_of(self.19), slot_of(self.20), slot_of(self.21),
            slot_of(self.22), slot_of(self.23),
        ]
    }

    open spec fn from_c_struct_spec(c_struct: S24<
        A1, A2, A3, A4, A5, A6, A7, A8, A9, A10, A11, A12, A13, A14, A15, A16, A17, A18, A19, A20,
        A21, A22, A23, A24,
    >) -> Self {
        (
            A1::from_native_spec(c_struct.0), A2::from_native_spec(c_struct.1),
            A3::from_native_spec(c_struct.2), A4::from_native_spec(c_struct.3),
            A5::from_native_spec(c_struct.4), A6::from_native_spec(c_struct.5),
            A7::from_native_spec(c_struct.6), A8::from_native_spec(c_struct.7),
            A9::from_native_spec(c_struct.8), A10::from_native_spec(c_struct.9),
            A11::from_native_spec(c_struct.10), A12::from_native_spec(c_struct.11),
            A13::from_native_spec(c_struct.12), A14::from_native_spec(c_struct.13),
            A15::from_native_spec(c_struct.14), A16::from_native_spec(c_struct.15),
            A17::from_native_spec(c_struct.16), A18::from_native_spec(c_struct.17),
            A19::from_native_spec(c_struct.18), A20::from_native_spec(c_struct.19),
            A21::from_native_spec(c_struct.20), A22::from_native_spec(c_struct.21),
            A23::from_native_spec(c_struct.22), A24::from_native_spec(c_struct.23),
        )
    }

    open spec fn into_c_struct_spec(self) -> S24<
        A1, A2, A3, A4, A5, A6, A7, A8, A9, A10, A11, A12, A13, A14, A15, A16, A17, A18, A19, A20,
        A21, A22, A23, A24,
    > {
        S24(
            self.0.to_native_spec(), self.1.to_native_spec(), self.2.to_native_spec(),
            self.3.to_native_spec(), self.4.to_native_spec(), self.5.to_native_spec(),
            self.6.to_native_spec(), self.7.to_native_spec(), self.8.to_native_spec(),
            self.9.to_native_spec(), self.10.to_native_spec(), self.11.to_native_spec(),
            self.12.to_native_spec(), self.13.to_native_spec(), self.14.to_native_spec(),
            self.15.to_native_spec(), self.16.to_native_spec(), self.17.to_native_spec(),
            self.18.to_native_spec(), self.19.to_native_spec(), self.20.to_native_spec(),
            self.21.to_native_spec(), self.22.to_native_spec(), self.23.to_native_spec(),
        )
    }

    open spec fn wasm_types_spec() -> Seq<Type> {
        seq![
            type_of::<A1>(), type_of::<A2>(), type_of::<A3>(), type_of::<A4>(), type_of::<A5>(),
            type_of::<A6>(), type_of::<A7>(), type_of::<A8>(), type_of::<A9>(), type_of::<A10>(),
            type_of::<A11>(), type_of::<A12>(), type_of::<A13>(), type_of::<A14>(),
            type_of::<A15>(), type_of::<A16>(), type_of::<A17>(), type_of::<A18>(),
            type_of::<A19>(), type_of::<A20>(), type_of::<A21>(), type_of::<A22>(),
            type_of::<A23>(), type_of::<A24>(),
        ]
    }

    fn from_array(array: [i128; 24]) -> (list: Self) {
        (
            scalar_from_slot(array[0]), scalar_from_slot(array[1]), scalar_from_slot(array[2]),
            scalar_from_slot(array[3]), scalar_from_slot(array[4]), scalar_from_slot(array[5]),
            scalar_from_slot(array[6]), scalar_from_slot(array[7]), scalar_from_slot(array[8]),
            scalar_from_slot(array[9]), scalar_from_slot(array[10]), scalar_from_slot(array[11]),
            scalar_from_slot(array[12]), scalar_from_slot(array[13]), scalar_from_slot(array[14]),
            scalar_from_slot(array[15]), scalar_from_slot(array[16]), scalar_from_slot(array[17]),
            scalar_from_slot(array[18]), scalar_from_slot(array[19]), scalar_from_slot(array[20]),
            scalar_from_slot(array[21]), scalar_from_slot(array[22]), scalar_from_slot(array[23]),
        )
    }

    fn into_array(self) -> (array: [i128; 24]) {
        let (
            a1, a2, a3, a4, a5, a6, a7, a8, a9, a10, a11, a12, a13, a14, a15, a16, a17, a18, a19,
            a20, a21, a22, a23, a24,
        ) = self;
        let array = [
            scalar_into_slot(a1), scalar_into_slot(a2), scalar_into_slot(a3), scalar_into_slot(a4),
            scalar_into_slot(a5), scalar_into_slot(a6), scalar_into_slot(a7), scalar_into_slot(a8),
            scalar_into_slot(a9), scalar_into_slot(a10), scalar_into_slot(a11),
            scalar_into_slot(a12), scalar_into_slot(a13), scalar_into_slot(a14),
            scalar_into_slot(a15), scalar_into_slot(a16), scalar_into_slot(a17),
            scalar_into_slot(a18), scalar_into_slot(a19), scalar_into_slot(a20),
            scalar_into_slot(a21), scalar_into_slot(a22), scalar_into_slot(a23),
            scalar_into_slot(a24),
        ];
        proof {
            assert(array@ =~= self.into_array_spec());
        }
        array
    }

    fn empty_array() -> (array: [i128; 24]) {
        let array: [i128; 24] = [
            0, 0, 0, 0, 0, 0, 0, 0, 0, 0, 0, 0, 0, 0, 0, 0, 0, 0, 0, 0, 0, 0, 0, 0,
        ];
        proof {
            assert(array@ =~= Seq::new(Self::wasm_types_spec().len(), |i: int| 0i128));
        }
        array
    }

    fn from_c_struct(c_struct: S24<
        A1, A2, A3, A4, A5, A6, A7, A8, A9, A10, A11, A12, A13, A14, A15, A16, A17, A18, A19, A20,
        A21, A22, A23, A24,
    >) -> (list: Self) {
        let S24(
            a1, a2, a3, a4, a5, a6, a7, a8, a9, a10, a11, a12, a13, a14, a15, a16, a17, a18, a19,
            a20, a21, a22, a23, a24,
        ) = c_struct;
        (
            A1::from_native(a1), A2::from_native(a2), A3::from_native(a3), A4::from_native(a4),
            A5::from_native(a5), A6::from_native(a6), A7::from_native(a7), A8::from_native(a8),
            A9::from_native(a9), A10::from_native(a10), A11::from_native(a11),
            A12::from_native(a12), A13::from_native(a13), A14::from_native(a14),
            A15::from_native(a15), A16::from_native(a16), A17::from_native(a17),
            A18::from_native(a18), A19::from_native(a19), A20::from_native(a20),
            A21::from_native(a21), A22::from_native(a22), A23::from_native(a23),
            A24::from_native(a24),
        )
    }

    fn into_c_struct(self) -> (c_struct: S24<
        A1, A2, A3, A4, A5, A6, A7, A8, A9, A10, A11, A12, A13, A14, A15, A16, A17, A18, A19, A20,
        A21, A22, A23, A24,
    >) {
        let (
            a1, a2, a3, a4, a5, a6, a7, a8, a9, a10, a11, a12, a13, a14, a15, a16, a17, a18, a19,
            a20, a21, a22, a23, a24,
        ) = self;
        S24(
            a1.to_native(), a2.to_native(), a3.to_native(), a4.to_native(), a5.to_native(),
            a6.to_native(), a7.to_native(), a8.to_native(), a9.to_native(), a10.to_native(),
            a11.to_native(), a12.to_native(), a13.to_native(), a14.to_native(), a15.to_native(),
            a16.to_native(), a17.to_native(), a18.to_native(), a19.to_native(), a20.to_native(),
            a21.to_native(), a22.to_native(), a23.to_native(), a24.to_native(),
        )
    }

    fn wasm_types() -> (types: Vec<Type>) {
        let types = vec![
            A1::Native::wasm_type(), A2::Native::wasm_type(), A3::Native::wasm_type(),
            A4::Native::wasm_type(), A5::Native::wasm_type(), A6::Native::wasm_type(),
            A7::Native::wasm_type(), A8::Native::wasm_type(), A9::Native::wasm_type(),
            A10::Native::wasm_type(), A11::Native::wasm_type(), A12::Native::wasm_type(),
            A13::Native::wasm_type(), A14::Native::wasm_type(), A15::Native::wasm_type(),
            A16::Native::wasm_type(), A17::Native::wasm_type(), A18::Native::wasm_type(),
            A19::Native::wasm_type(), A20::Native::wasm_type(), A21::Native::wasm_type(),
            A22::Native::wasm_type(), A23::Native::wasm_type(), A24::Native::wasm_type(),
        ];
        proof {
            assert(types@ =~= Self::wasm_types_spec());
        }
        types
    }

    proof fn lemma_array_round_trip(self) {
        lemma_scalar_round_trip(self.0);
        lemma_scalar_round_trip(self.1);
        lemma_scalar_round_trip(self.2);
        lemma_scalar_round_trip(self.3);
        lemma_scalar_round_trip(self.4);
        lemma_scalar_round_trip(self.5);
        lemma_scalar_round_trip(self.6);
        lemma_scalar_round_trip(self.7);
        lemma_scalar_round_trip(self.8);
        lemma_scalar_round_trip(self.9);
        lemma_scalar_round_trip(self.10);
        lemma_scalar_round_trip(self.11);
        lemma_scalar_round_trip(self.12);
        lemma_scalar_round_trip(self.13);
        lemma_scalar_round_trip(self.14);
        lemma_scalar_round_trip(self.15);
        lemma_scalar_round_trip(self.16);
        lemma_scalar_round_trip(self.17);
        lemma_scalar_round_trip(self.18);
        lemma_scalar_round_trip(self.19);
        lemma_scalar_round_trip(self.20);
        lemma_scalar_round_trip(self.21);
        lemma_scalar_round_trip(self.22);
        lemma_scalar_round_trip(self.23);
    }

    proof fn lemma_c_struct_round_trip(self) {
        self.0.lemma_native_round_trip();
        self.1.lemma_native_round_trip();
        self.2.lemma_native_round_trip();
        self.3.lemma_native_round_trip();
        self.4.lemma_native_round_trip();
        self.5.lemma_native_round_trip();
        self.6.lemma_native_round_trip();
        self.7.lemma_native_round_trip();
        self.8.lemma_native_round_trip();
        self.9.lemma_native_round_trip();
        self.10.lemma_native_round_trip();
        self.11.lemma_native_round_trip();
        self.12.lemma_native_round_trip();
        self.13.lemma_native_round_trip();
        self.14.lemma_native_round_trip();
        self.15.lemma_native_round_trip();
        self.16.lemma_native_round_trip();
        self.17.lemma_native_round_trip();
        self.18.lemma_native_round_trip();
        self.19.lemma_native_round_trip();
        self.20.lemma_native_round_trip();
        self.21.lemma_native_round_trip();
        self.22.lemma_native_round_trip();
        self.23.lemma_native_round_trip();
    }
}

/// The natives of 25 values, in the order of the values.
pub struct S25<
    A1: WasmExternType, A2: WasmExternType, A3: WasmExternType, A4: WasmExternType,
    A5: WasmExternType, A6: WasmExternType, A7: WasmExternType, A8: WasmExternType,
    A9: WasmExternType, A10: WasmExternType, A11: WasmExternType, A12: WasmExternType,
    A13: WasmExternType, A14: WasmExternType, A15: WasmExternType, A16: WasmExternType,
    A17: WasmExternType, A18: WasmExternType, A19: WasmExternType, A20: WasmExternType,
    A21: WasmExternType, A22: WasmExternType, A23: WasmExternType, A24: WasmExternType,
    A25: WasmExternType,
>(
    pub A1::Native, pub A2::Native, pub A3::Native, pub A4::Native, pub A5::Native, pub A6::Native,
    pub A7::Native, pub A8::Native, pub A9::Native, pub A10::Native, pub A11::Native,
    pub A12::Native, pub A13::Native, pub A14::Native, pub A15::Native, pub A16::Native,
    pub A17::Native, pub A18::Native, pub A19::Native, pub A20::Native, pub A21::Native,
    pub A22::Native, pub A23::Native, pub A24::Native, pub A25::Native,
);

impl<
    A1: WasmExternType, A2: WasmExternType, A3: WasmExternType, A4: WasmExternType,
    A5: WasmExternType, A6: WasmExternType, A7: WasmExternType, A8: WasmExternType,
    A9: WasmExternType, A10: WasmExternType, A11: WasmExternType, A12: WasmExternType,
    A13: WasmExternType, A14: WasmExternType, A15: WasmExternType, A16: WasmExternType,
    A17: WasmExternType, A18: WasmExternType, A19: WasmExternType, A20: WasmExternType,
    A21: WasmExternType, A22: WasmExternType, A23: WasmExternType, A24: WasmExternType,
    A25: WasmExternType,
> WasmTypeList for (
    A1, A2, A3, A4, A5, A6, A7, A8, A9, A10, A11, A12, A13, A14, A15, A16, A17, A18, A19, A20, A21,
    A22, A23, A24, A25,
) {
    type CStruct = S25<
        A1, A2, A3, A4, A5, A6, A7, A8, A9, A10, A11, A12, A13, A14, A15, A16, A17, A18, A19, A20,
        A21, A22, A23, A24, A25,
    >;

    type Array = [i128; 25];

    open spec fn from_array_spec(array: Seq<i128>) -> Self {
        (
            from_slot::<A1>(array[0]), from_slot::<A2>(array[1]), from_slot::<A3>(array[2]),
            from_slot::<A4>(array[3]), from_slot::<A5>(array[4]), from_slot::<A6>(array[5]),
            from_slot::<A7>(array[6]), from_slot::<A8>(array[7]), from_slot::<A9>(array[8]),
            from_slot::<A10>(array[9]), from_slot::<A11>(array[10]), from_slot::<A12>(array[11]),
            from_slot::<A13>(array[12]), from_slot::<A14>(array[13]), from_slot::<A15>(array[14]),
            from_slot::<A16>(array[15]), from_slot::<A17>(array[16]), from_slot::<A18>(array[17]),
            from_slot::<A19>(array[18]), from_slot::<A20>(array[19]), from_slot::<A21>(array[20]),
            from_slot::<A22>(array[21]), from_slot::<A23>(array[22]), from_slot::<A24>(array[23]),
            from_slot::<A25>(array[24]),
        )
    }

    open spec fn into_array_spec(self) -> Seq<i128> {
        seq![
            slot_of(self.0), slot_of(self.1), slot_of(self.2), slot_of(self.3), slot_of(self.4),
            slot_of(self.5), slot_of(self.6), slot_of(self.7), slot_of(self.8), slot_of(self.9),
            slot_of(self.10), slot_of(self.11), slot_of(self.12), slot_of(self.13),
            slot_of(self.14), slot_of(self.15), slot_of(self.16), slot_of(self.17),
            slot_of(self.18), slot_of(self.19), slot_of(self.20), slot_of(self.21),
            slot_of(self.22), slot_of(self.23), slot_of(self.24),
        ]
    }

    open spec fn from_c_struct_spec(c_struct: S25<
        A1, A2, A3, A4, A5, A6, A7, A8, A9, A10, A11, A12, A13, A14, A15, A16, A17, A18, A19, A20,
        A21, A22, A23, A24, A25,
    >) -> Self {
        (
            A1::from_native_spec(c_struct.0), A2::from_native_spec(c_struct.1),
            A3::from_native_spec(c_struct.2), A4::from_native_spec(c_struct.3),
            A5::from_native_spec(c_struct.4), A6::from_native_spec(c_struct.5),
            A7::from_native_spec(c_struct.6), A8::from_native_spec(c_struct.7),
            A9::from_native_spec(c_struct.8), A10::from_native_spec(c_struct.9),
            A11::from_native_spec(c_struct.10), A12::from_native_spec(c_struct.11),
            A13::from_native_spec(c_struct.12), A14::from_native_spec(c_struct.13),
            A15::from_native_spec(c_struct.14), A16::from_native_spec(c_struct.15),
            A17::from_native_spec(c_struct.16), A18::from_native_spec(c_struct.17),
            A19::from_native_spec(c_struct.18), A20::from_native_spec(c_struct.19),
            A21::from_native_spec(c_struct.20), A22::from_native_spec(c_struct.21),
            A23::from_native_spec(c_struct.22), A24::from_native_spec(c_struct.23),
            A25::from_native_spec(c_struct.24),
        )
    }

    open spec fn into_c_struct_spec(self) -> S25<
        A1, A2, A3, A4, A5, A6, A7, A8, A9, A10, A11, A12, A13, A14, A15, A16, A17, A18, A19, A20,
        A21, A22, A23, A24, A25,
    > {
        S25(
            self.0.to_native_spec(), self.1.to_native_spec(), self.2.to_native_spec(),
            self.3.to_native_spec(), self.4.to_native_spec(), self.5.to_native_spec(),
            self.6.to_native_spec(), self.7.to_native_spec(), self.8.to_native_spec(),
            self.9.to_native_spec(), self.10.to_native_spec(), self.11.to_native_spec(),
            self.12.to_native_spec(), self.13.to_native_spec(), self.14.to_native_spec(),
            self.15.to_native_spec(), self.16.to_native_spec(), self.17.to_native_spec(),
            self.18.to_native_spec(), self.19.to_native_spec(), self.20.to_native_spec(),
            self.21.to_native_spec(), self.22.to_native_spec(), self.23.to_native_spec(),
            self.24.to_native_spec(),
        )
    }

    open spec fn wasm_types_spec() -> Seq<Type> {
        seq![
            type_of::<A1>(), type_of::<A2>(), type_of::<A3>(), type_of::<A4>(), type_of::<A5>(),
            type_of::<A6>(), type_of::<A7>(), type_of::<A8>(), type_of::<A9>(), type_of::<A10>(),
            type_of::<A11>(), type_of::<A12>(), type_of::<A13>(), type_of::<A14>(),
            type_of::<A15>(), type_of::<A16>(), type_of::<A17>(), type_of::<A18>(),
            type_of::<A19>(), type_of::<A20>(), type_of::<A21>(), type_of::<A22>(),
            type_of::<A23>(), type_of::<A24>(), type_of::<A25>(),
        ]
    }

    fn from_array(array: [i128; 25]) -> (list: Self) {
        (
            scalar_from_slot(array[0]), scalar_from_slot(array[1]), scalar_from_slot(array[2]),
            scalar_from_slot(array[3]), scalar_from_slot(array[4]), scalar_from_slot(array[5]),
            scalar_from_slot(array[6]), scalar_from_slot(array[7]), scalar_from_slot(array[8]),
            scalar_from_slot(array[9]), scalar_from_slot(array[10]), scalar_from_slot(array[11]),
            scalar_from_slot(array[12]), scalar_from_slot(array[13]), scalar_from_slot(array[14]),
            scalar_from_slot(array[15]), scalar_from_slot(array[16]), scalar_from_slot(array[17]),
            scalar_from_slot(array[18]), scalar_from_slot(array[19]), scalar_from_slot(array[20]),
            scalar_from_slot(array[21]), scalar_from_slot(array[22]), scalar_from_slot(array[23]),
            scalar_from_slot(array[24]),
        )
    }

    fn into_array(self) -> (array: [i128; 25]) {
        let (
            a1, a2, a3, a4, a5, a6, a7, a8, a9, a10, a11, a12, a13, a14, a15, a16, a17, a18, a19,
            a20, a21, a22, a23, a24, a25,
        ) = self;
        let array = [
            scalar_into_slot(a1), scalar_into_slot(a2), scalar_into_slot(a3), scalar_into_slot(a4),
            scalar_into_slot(a5), scalar_into_slot(a6), scalar_into_slot(a7), scalar_into_slot(a8),
            scalar_into_slot(a9), scalar_into_slot(a10), scalar_into_slot(a11),
            scalar_into_slot(a12), scalar_into_slot(a13), scalar_into_slot(a14),
            scalar_into_slot(a15), scalar_into_slot(a16), scalar_into_slot(a17),
            scalar_into_slot(a18), scalar_into_slot(a19), scalar_into_slot(a20),
            scalar_into_slot(a21), scalar_into_slot(a22), scalar_into_slot(a23),
            scalar_into_slot(a24), scalar_into_slot(a25),
        ];
        proof {
            assert(array@ =~= self.into_array_spec());
        }
        array
    }

    fn empty_array() -> (array: [i128; 25]) {
        let array: [i128; 25] = [
            0, 0, 0, 0, 0, 0, 0, 0, 0, 0, 0, 0, 0, 0, 0, 0, 0, 0, 0, 0, 0, 0, 0, 0, 0,
        ];
        proof {
            assert(array@ =~= Seq::new(Self::wasm_types_spec().len(), |i: int| 0i128));
        }
        array
    }

    fn from_c_struct(c_struct: S25<
        A1, A2, A3, A4, A5, A6, A7, A8, A9, A10, A11, A12, A13, A14, A15, A16, A17, A18, A19, A20,
        A21, A22, A23, A24, A25,
    >) -> (list: Self) {
        let S25(
            a1, a2, a3, a4, a5, a6, a7, a8, a9, a10, a11, a12, a13, a14, a15, a16, a17, a18, a19,
            a20, a21, a22, a23, a24, a25,
        ) = c_struct;
        (
            A1::from_native(a1), A2::from_native(a2), A3::from_native(a3), A4::from_native(a4),
            A5::from_native(a5), A6::from_native(a6), A7::from_native(a7), A8::from_native(a8),
            A9::from_native(a9), A10::from_native(a10), A11::from_native(a11),
            A12::from_native(a12), A13::from_native(a13), A14::from_native(a14),
            A15::from_native(a15), A16::from_native(a16), A17::from_native(a17),
            A18::from_native(a18), A19::from_native(a19), A20::from_native(a20),
            A21::from_native(a21), A22::from_native(a22), A23::from_native(a23),
            A24::from_native(a24), A25::from_native(a25),
        )
    }

    fn into_c_struct(self) -> (c_struct: S25<
        A1, A2, A3, A4, A5, A6, A7, A8, A9, A10, A11, A12, A13, A14, A15, A16, A17, A18, A19, A20,
        A21, A22, A23, A24, A25,
    >) {
        let (
            a1, a2, a3, a4, a5, a6, a7, a8, a9, a10, a11, a12, a13, a14, a15, a16, a17, a18, a19,
            a20, a21, a22, a23, a24, a25,
        ) = self;
        S25(
            a1.to_native(), a2.to_native(), a3.to_native(), a4.to_native(), a5.to_native(),
            a6.to_native(), a7.to_native(), a8.to_native(), a9.to_native(), a10.to_native(),
            a11.to_native(), a12.to_native(), a13.to_native(), a14.to_native(), a15.to_native(),
            a16.to_native(), a17.to_native(), a18.to_native(), a19.to_native(), a20.to_native(),
            a21.to_native(), a22.to_native(), a23.to_native(), a24.to_native(), a25.to_native(),
        )
    }

    fn wasm_types() -> (types: Vec<Type>) {
        let types = vec![
            A1::Native::wasm_type(), A2::Native::wasm_type(), A3::Native::wasm_type(),
            A4::Native::wasm_type(), A5::Native::wasm_type(), A6::Native::wasm_type(),
            A7::Native::wasm_type(), A8::Native::wasm_type(), A9::Native::wasm_type(),
            A10::Native::wasm_type(), A11::Native::wasm_type(), A12::Native::wasm_type(),
            A13::Native::wasm_type(), A14::Native::wasm_type(), A15::Native::wasm_type(),
            A16::Native::wasm_type(), A17::Native::wasm_type(), A18::Native::wasm_type(),
            A19::Native::wasm_type(), A20::Native::wasm_type(), A21::Native::wasm_type(),
            A22::Native::wasm_type(), A23::Native::wasm_type(), A24::Native::wasm_type(),
            A25::Native::wasm_type(),
        ];
        proof {
            assert(types@ =~= Self::wasm_types_spec());
        }
        types
    }

    proof fn lemma_array_round_trip(self) {
        lemma_scalar_round_trip(self.0);
        lemma_scalar_round_trip(self.1);
        lemma_scalar_round_trip(self.2);
        lemma_scalar_round_trip(self.3);
        lemma_scalar_round_trip(self.4);
        lemma_scalar_round_trip(self.5);
        lemma_scalar_round_trip(self.6);
        lemma_scalar_round_trip(self.7);
        lemma_scalar_round_trip(self.8);
        lemma_scalar_round_trip(self.9);
        lemma_scalar_round_trip(self.10);
        lemma_scalar_round_trip(self.11);
        lemma_scalar_round_trip(self.12);
        lemma_scalar_round_trip(self.13);
        lemma_scalar_round_trip(self.14);
        lemma_scalar_round_trip(self.15);
        lemma_scalar_round_trip(self.16);
        lemma_scalar_round_trip(self.17);
        lemma_scalar_round_trip(self.18);
        lemma_scalar_round_trip(self.19);
        lemma_scalar_round_trip(self.20);
        lemma_scalar_round_trip(self.21);
        lemma_scalar_round_trip(self.22);
        lemma_scalar_round_trip(self.23);
        lemma_scalar_round_trip(self.24);
    }

    proof fn lemma_c_struct_round_trip(self) {
        self.0.lemma_native_round_trip();
        self.1.lemma_native_round_trip();
        self.2.lemma_native_round_trip();
        self.3.lemma_native_round_trip();
        self.4.lemma_native_round_trip();
        self.5.lemma_native_round_trip();
        self.6.lemma_native_round_trip();
        self.7.lemma_native_round_trip();
        self.8.lemma_native_round_trip();
        self.9.lemma_native_round_trip();
        self.10.lemma_native_round_trip();
        self.11.lemma_native_round_trip();
        self.12.lemma_native_round_trip();
        self.13.lemma_native_round_trip();
        self.14.lemma_native_round_trip();
        self.15.lemma_native_round_trip();
        self.16.lemma_native_round_trip();
        self.17.lemma_native_round_trip();
        self.18.lemma_native_round_trip();
        self.19.lemma_native_round_trip();
        self.20.lemma_native_round_trip();
        self.21.lemma_native_round_trip();
        self.22.lemma_native_round_trip();
        self.23.lemma_native_round_trip();
        self.24.lemma_native_round_trip();
    }
}

/// The natives of 26 values, in the order of the values.
pub struct S26<
    A1: WasmExternType, A2: WasmExternType, A3: WasmExternType, A4: WasmExternType,
    A5: WasmExternType, A6: WasmExternType, A7: WasmExternType, A8: WasmExternType,
    A9: WasmExternType, A10: WasmExternType, A11: WasmExternType, A12: WasmExternType,
    A13: WasmExternType, A14: WasmExternType, A15: WasmExternType, A16: WasmExternType,
    A17: WasmExternType, A18: WasmExternType, A19: WasmExternType, A20: WasmExternType,
    A21: WasmExternType, A22: WasmExternType, A23: WasmExternType, A24: WasmExternType,
    A25: WasmExternType, A26: WasmExternType,
>(
    pub A1::Native, pub A2::Native, pub A3::Native, pub A4::Native, pub A5::Native, pub A6::Native,
    pub A7::Native, pub A8::Native, pub A9::Native, pub A10::Native, pub A11::Native,
    pub A12::Native, pub A13::Native, pub A14::Native, pub A15::Native, pub A16::Native,
    pub A17::Native, pub A18::Native, pub A19::Native, pub A20::Native, pub A21::Native,
    pub A22::Native, pub A23::Native, pub A24::Native, pub A25::Native, pub A26::Native,
);

impl<
    A1: WasmExternType, A2: WasmExternType, A3: WasmExternType, A4: WasmExternType,
    A5: WasmExternType, A6: WasmExternType, A7: WasmExternType, A8: WasmExternType,
    A9: WasmExternType, A10: WasmExternType, A11: WasmExternType, A12: WasmExternType,
    A13: WasmExternType, A14: WasmExternType, A15: WasmExternType, A16: WasmExternType,
    A17: WasmExternType, A18: WasmExternType, A19: WasmExternType, A20: WasmExternType,
    A21: WasmExternType, A22: WasmExternType, A23: WasmExternType, A24: WasmExternType,
    A25: WasmExternType, A26: WasmExternType,
> WasmTypeList for (
    A1, A2, A3, A4, A5, A6, A7, A8, A9, A10, A11, A12, A13, A14, A15, A16, A17, A18, A19, A20, A21,
    A22, A23, A24, A25, A26,
) {
    type CStruct = S26<
        A1, A2, A3, A4, A5, A6, A7, A8, A9, A10, A11, A12, A13, A14, A15, A16, A17, A18, A19, A20,
        A21, A22, A23, A24, A25, A26,
    >;

    type Array = [i128; 26];

    open spec fn from_array_spec(array: Seq<i128>) -> Self {
        (
            from_slot::<A1>(array[0]), from_slot::<A2>(array[1]), from_slot::<A3>(array[2]),
            from_slot::<A4>(array[3]), from_slot::<A5>(array[4]), from_slot::<A6>(array[5]),
            from_slot::<A7>(array[6]), from_slot::<A8>(array[7]), from_slot::<A9>(array[8]),
            from_slot::<A10>(array[9]), from_slot::<A11>(array[10]), from_slot::<A12>(array[11]),
            from_slot::<A13>(array[12]), from_slot::<A14>(array[13]), from_slot::<A15>(array[14]),
            from_slot::<A16>(array[15]), from_slot::<A17>(array[16]), from_slot::<A18>(array[17]),
            from_slot::<A19>(array[18]), from_slot::<A20>(array[19]), from_slot::<A21>(array[20]),
            from_slot::<A22>(array[21]), from_slot::<A23>(array[22]), from_slot::<A24>(array[23]),
            from_slot::<A25>(array[24]), from_slot::<A26>(array[25]),
        )
    }

    open spec fn into_array_spec(self) -> Seq<i128> {
        seq![
            slot_of(self.0), slot_of(self.1), slot_of(self.2), slot_of(self.3), slot_of(self.4),
            slot_of(self.5), slot_of(self.6), slot_of(self.7), slot_of(self.8), slot_of(self.9),
            slot_of(self.10), slot_of(self.11), slot_of(self.12), slot_of(self.13),
            slot_of(self.14), slot_of(self.15), slot_of(self.16), slot_of(self.17),
            slot_of(self.18), slot_of(self.19), slot_of(self.20), slot_of(self.21),
            slot_of(self.22), slot_of(self.23), slot_of(self.24), slot_of(self.25),
        ]
    }

    open spec fn from_c_struct_spec(c_struct: S26<
        A1, A2, A3, A4, A5, A6, A7, A8, A9, A10, A11, A12, A13, A14, A15, A16, A17, A18, A19, A20,
        A21, A22, A23, A24, A25, A26,
    >) -> Self {
        (
            A1::from_native_spec(c_struct.0), A2::from_native_spec(c_struct.1),
            A3::from_native_spec(c_struct.2), A4::from_native_spec(c_struct.3),
            A5::from_native_spec(c_struct.4), A6::from_native_spec(c_struct.5),
            A7::from_native_spec(c_struct.6), A8::from_native_spec(c_struct.7),
            A9::from_native_spec(c_struct.8), A10::from_native_spec(c_struct.9),
            A11::from_native_spec(c_struct.10), A12::from_native_spec(c_struct.11),
            A13::from_native_spec(c_struct.12), A14::from_native_spec(c_struct.13),
            A15::from_native_spec(c_struct.14), A16::from_native_spec(c_struct.15),
            A17::from_native_spec(c_struct.16), A18::from_native_spec(c_struct.17),
            A19::from_native_spec(c_struct.18), A20::from_native_spec(c_struct.19),
            A21::from_native_spec(c_struct.20), A22::from_native_spec(c_struct.21),
            A23::from_native_spec(c_struct.22), A24::from_native_spec(c_struct.23),
            A25::from_native_spec(c_struct.24), A26::from_native_spec(c_struct.25),
        )
    }

    open spec fn into_c_struct_spec(self) -> S26<
        A1, A2, A3, A4, A5, A6, A7, A8, A9, A10, A11, A12, A13, A14, A15, A16, A17, A18, A19, A20,
        A21, A22, A23, A24, A25, A26,
    > {
        S26(
            self.0.to_native_spec(), self.1.to_native_spec(), self.2.to_native_spec(),
            self.3.to_native_spec(), self.4.to_native_spec(), self.5.to_native_spec(),
            self.6.to_native_spec(), self.7.to_native_spec(), self.8.to_native_spec(),
            self.9.to_native_spec(), self.10.to_native_spec(), self.11.to_native_spec(),
            self.12.to_native_spec(), self.13.to_native_spec(), self.14.to_native_spec(),
            self.15.to_native_spec(), self.16.to_native_spec(), self.17.to_native_spec(),
            self.18.to_native_spec(), self.19.to_native_spec(), self.20.to_native_spec(),
            self.21.to_native_spec(), self.22.to_native_spec(), self.23.to_native_spec(),
            self.24.to_native_spec(), self.25.to_native_spec(),
        )
    }

    open spec fn wasm_types_spec() -> Seq<Type> {
        seq![
            type_of::<A1>(), type_of::<A2>(), type_of::<A3>(), type_of::<A4>(), type_of::<A5>(),
            type_of::<A6>(), type_of::<A7>(), type_of::<A8>(), type_of::<A9>(), type_of::<A10>(),
            type_of::<A11>(), type_of::<A12>(), type_of::<A13>(), type_of::<A14>(),
            type_of::<A15>(), type_of::<A16>(), type_of::<A17>(), type_of::<A18>(),
            type_of::<A19>(), type_of::<A20>(), type_of::<A21>(), type_of::<A22>(),
            type_of::<A23>(), type_of::<A24>(), type_of::<A25>(), type_of::<A26>(),
        ]
    }

    fn from_array(array: [i128; 26]) -> (list: Self) {
        (
            scalar_from_slot(array[0]), scalar_from_slot(array[1]), scalar_from_slot(array[2]),
            scalar_from_slot(array[3]), scalar_from_slot(array[4]), scalar_from_slot(array[5]),
            scalar_from_slot(array[6]), scalar_from_slot(array[7]), scalar_from_slot(array[8]),
            scalar_from_slot(array[9]), scalar_from_slot(array[10]), scalar_from_slot(array[11]),
            scalar_from_slot(array[12]), scalar_from_slot(array[13]), scalar_from_slot(array[14]),
            scalar_from_slot(array[15]), scalar_from_slot(array[16]), scalar_from_slot(array[17]),
            scalar_from_slot(array[18]), scalar_from_slot(array[19]), scalar_from_slot(array[20]),
            scalar_from_slot(array[21]), scalar_from_slot(array[22]), scalar_from_slot(array[23]),
            scalar_from_slot(array[24]), scalar_from_slot(array[25]),
        )
    }

    fn into_array(self) -> (array: [i128; 26]) {
        let (
            a1, a2, a3, a4, a5, a6, a7, a8, a9, a10, a11, a12, a13, a14, a15, a16, a17, a18, a19,
            a20, a21, a22, a23, a24, a25, a26,
        ) = self;
        let array = [
            scalar_into_slot(a1), scalar_into_slot(a2), scalar_into_slot(a3), scalar_into_slot(a4),
            scalar_into_slot(a5), scalar_into_slot(a6), scalar_into_slot(a7), scalar_into_slot(a8),
            scalar_into_slot(a9), scalar_into_slot(a10), scalar_into_slot(a11),
            scalar_into_slot(a12), scalar_into_slot(a13), scalar_into_slot(a14),
            scalar_into_slot(a15), scalar_into_slot(a16), scalar_into_slot(a17),
            scalar_into_slot(a18), scalar_into_slot(a19), scalar_into_slot(a20),
            scalar_into_slot(a21), scalar_into_slot(a22), scalar_into_slot(a23),
            scalar_into_slot(a24), scalar_into_slot(a25), scalar_into_slot(a26),
        ];
        proof {
            assert(array@ =~= self.into_array_spec());
        }
        array
    }

    fn empty_array() -> (array: [i128; 26]) {
        let array: [i128; 26] = [
            0, 0, 0, 0, 0, 0, 0, 0, 0, 0, 0, 0, 0, 0, 0, 0, 0, 0, 0, 0, 0, 0, 0, 0, 0, 0,
        ];
        proof {
            assert(array@ =~= Seq::new(Self::wasm_types_spec().len(), |i: int| 0i128));
        }
        array
    }

    fn from_c_struct(c_struct: S26<
        A1, A2, A3, A4, A5, A6, A7, A8, A9, A10, A11, A12, A13, A14, A15, A16, A17, A18, A19, A20,
        A21, A22, A23, A24, A25, A26,
    >) -> (list: Self) {
        let S26(
            a1, a2, a3, a4, a5, a6, a7, a8, a9, a10, a11, a12, a13, a14, a15, a16, a17, a18, a19,
            a20, a21, a22, a23, a24, a25, a26,
        ) = c_struct;
        (
            A1::from_native(a1), A2::from_native(a2), A3::from_native(a3), A4::from_native(a4),
            A5::from_native(a5), A6::from_native(a6), A7::from_native(a7), A8::from_native(a8),
            A9::from_native(a9), A10::from_native(a10), A11::from_native(a11),
            A12::from_native(a12), A13::from_native(a13), A14::from_native(a14),
            A15::from_native(a15), A16::from_native(a16), A17::from_native(a17),
            A18::from_native(a18), A19::from_native(a19), A20::from_native(a20),
            A21::from_native(a21), A22::from_native(a22), A23::from_native(a23),
            A24::from_native(a24), A25::from_native(a25), A26::from_native(a26),
        )
    }

    fn into_c_struct(self) -> (c_struct: S26<
        A1, A2, A3, A4, A5, A6, A7, A8, A9, A10, A11, A12, A13, A14, A15, A16, A17, A18, A19, A20,
        A21, A22, A23, A24, A25, A26,
    >) {
        let (
            a1, a2, a3, a4, a5, a6, a7, a8, a9, a10, a11, a12, a13, a14, a15, a16, a17, a18, a19,
            a20, a21, a22, a23, a24, a25, a26,
        ) = self;
        S26(
            a1.to_native(), a2.to_native(), a3.to_native(), a4.to_native(), a5.to_native(),
            a6.to_native(), a7.to_native(), a8.to_native(), a9.to_native(), a10.to_native(),
            a11.to_native(), a12.to_native(), a13.to_native(), a14.to_native(), a15.to_native(),
            a16.to_native(), a17.to_native(), a18.to_native(), a19.to_native(), a20.to_native(),
            a21.to_native(), a22.to_native(), a23.to_native(), a24.to_native(), a25.to_native(),
            a26.to_native(),
        )
    }

    fn wasm_types() -> (types: Vec<Type>) {
        let types = vec![
            A1::Native::wasm_type(), A2::Native::wasm_type(), A3::Native::wasm_type(),
            A4::Native::wasm_type(), A5::Native::wasm_type(), A6::Native::wasm_type(),
            A7::Native::wasm_type(), A8::Native::wasm_type(), A9::Native::wasm_type(),
            A10::Native::wasm_type(), A11::Native::wasm_type(), A12::Native::wasm_type(),
            A13::Native::wasm_type(), A14::Native::wasm_type(), A15::Native::wasm_type(),
            A16::Native::wasm_type(), A17::Native::wasm_type(), A18::Native::wasm_type(),
            A19::Native::wasm_type(), A20::Native::wasm_type(), A21::Native::wasm_type(),
            A22::Native::wasm_type(), A23::Native::wasm_type(), A24::Native::wasm_type(),
            A25::Native::wasm_type(), A26::Native::wasm_type(),
        ];
        proof {
            assert(types@ =~= Self::wasm_types_spec());
        }
        types
    }

    proof fn lemma_array_round_trip(self) {
        lemma_scalar_round_trip(self.0);
        lemma_scalar_round_trip(self.1);
        lemma_scalar_round_trip(self.2);
        lemma_scalar_round_trip(self.3);
        lemma_scalar_round_trip(self.4);
        lemma_scalar_round_trip(self.5);
        lemma_scalar_round_trip(self.6);
        lemma_scalar_round_trip(self.7);
        lemma_scalar_round_trip(self.8);
        lemma_scalar_round_trip(self.9);
        lemma_scalar_round_trip(self.10);
        lemma_scalar_round_trip(self.11);
        lemma_scalar_round_trip(self.12);
        lemma_scalar_round_trip(self.13);
        lemma_scalar_round_trip(self.14);
        lemma_scalar_round_trip(self.15);
        lemma_scalar_round_trip(self.16);
        lemma_scalar_round_trip(self.17);
        lemma_scalar_round_trip(self.18);
        lemma_scalar_round_trip(self.19);
        lemma_scalar_round_trip(self.20);
        lemma_scalar_round_trip(self.21);
        lemma_scalar_round_trip(self.22);
        lemma_scalar_round_trip(self.23);
        lemma_scalar_round_trip(self.24);
        lemma_scalar_round_trip(self.25);
    }

    proof fn lemma_c_struct_round_trip(self) {
        self.0.lemma_native_round_trip();
        self.1.lemma_native_round_trip();
        self.2.lemma_native_round_trip();
        self.3.lemma_native_round_trip();
        self.4.lemma_native_round_trip();
        self.5.lemma_native_round_trip();
        self.6.lemma_native_round_trip();
        self.7.lemma_native_round_trip();
        self.8.lemma_native_round_trip();
        self.9.lemma_native_round_trip();
        self.10.lemma_native_round_trip();
        self.11.lemma_native_round_trip();
        self.12.lemma_native_round_trip();
        self.13.lemma_native_round_trip();
        self.14.lemma_native_round_trip();
        self.15.lemma_native_round_trip();
        self.16.lemma_native_round_trip();
        self.17.lemma_native_round_trip();
        self.18.lemma_native_round_trip();
        self.19.lemma_native_round_trip();
        self.20.lemma_native_round_trip();
        self.21.lemma_native_round_trip();
        self.22.lemma_native_round_trip();
        self.23.lemma_native_round_trip();
        self.24.lemma_native_round_trip();
        self.25.lemma_native_round_trip();
    }
}

} // verus!
