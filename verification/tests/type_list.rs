use wasm_function::type_list::{S0, S1, S2, S4};
use wasm_function::{Type, WasmTypeList, F32, F64};

fn f32_of(value: f32) -> F32 {
    F32::from_bits(value.to_bits())
}

fn f64_of(value: f64) -> F64 {
    F64::from_bits(value.to_bits())
}

#[test]
fn test_from_array() {
    assert_eq!(<()>::from_array([]), ());
    assert_eq!(<i32>::from_array([1]), (1i32));
    assert_eq!(<(i32, i64)>::from_array([1, 2]), (1i32, 2i64));
    assert_eq!(
        <(i32, i64, F32, F64)>::from_array([
            1,
            2,
            (3.1f32).to_bits().into(),
            (4.2f64).to_bits().into()
        ]),
        (1, 2, f32_of(3.1f32), f64_of(4.2f64))
    );
}

#[test]
fn test_into_array() {
    assert_eq!(().into_array(), []);
    assert_eq!((1).into_array(), [1]);
    assert_eq!((1i32, 2i64).into_array(), [1, 2]);
    assert_eq!(
        (1i32, 2i32, f32_of(3.1f32), f64_of(4.2f64)).into_array(),
        [1, 2, (3.1f32).to_bits().into(), (4.2f64).to_bits().into()]
    );
}

#[test]
fn test_empty_array() {
    assert_eq!(<()>::empty_array().len(), 0);
    assert_eq!(<i32>::empty_array().len(), 1);
    assert_eq!(<(i32, i64)>::empty_array().len(), 2);
}

#[test]
fn test_from_c_struct() {
    assert_eq!(<()>::from_c_struct(S0()), ());
    assert_eq!(<i32>::from_c_struct(S1(1)), (1i32));
    assert_eq!(<(i32, i64)>::from_c_struct(S2(1, 2)), (1i32, 2i64));
    assert_eq!(
        <(i32, i64, F32, F64)>::from_c_struct(S4(1, 2, f32_of(3.1), f64_of(4.2))),
        (1i32, 2i64, f32_of(3.1f32), f64_of(4.2f64))
    );
}

#[test]
fn test_wasm_types_for_uni_values() {
    assert_eq!(<i32>::wasm_types(), [Type::I32]);
    assert_eq!(<i64>::wasm_types(), [Type::I64]);
    assert_eq!(<F32>::wasm_types(), [Type::F32]);
    assert_eq!(<F64>::wasm_types(), [Type::F64]);
}

#[test]
fn test_wasm_types_for_multi_values() {
    assert_eq!(<(i32, i32)>::wasm_types(), [Type::I32, Type::I32]);
    assert_eq!(<(i64, i64)>::wasm_types(), [Type::I64, Type::I64]);
    assert_eq!(<(F32, F32)>::wasm_types(), [Type::F32, Type::F32]);
    assert_eq!(<(F64, F64)>::wasm_types(), [Type::F64, Type::F64]);

    assert_eq!(
        <(i32, i64, F32, F64)>::wasm_types(),
        [Type::I32, Type::I64, Type::F32, Type::F64]
    );
}

#[test]
fn a_tuple_comes_back_from_its_array() {
    assert_eq!(<()>::from_array(().into_array()), ());
    assert_eq!(<i32>::from_array((-5i32).into_array()), -5);
    assert_eq!(<u8>::from_array(200u8.into_array()), 200);
    let pair = (i32::MIN, f64_of(f64::NAN));
    assert_eq!(<(i32, F64)>::from_array(pair.into_array()), pair);
    let mixed = (-1i8, 2u16, u32::MAX, i64::MIN, u64::MAX, f32_of(-0.0));
    assert_eq!(<(i8, u16, u32, i64, u64, F32)>::from_array(mixed.into_array()), mixed);
}

#[test]
fn a_tuple_of_twenty_six_comes_back_from_its_array() {
    let tuple = (
        1i8, 2u8, -3i16, 4u16, -5i32, 6u32, -7i64, 8u64, f32_of(9.5), f64_of(-10.5), 11i8, 12u8,
        13i16, 14u16, 15i32, u32::MAX, i64::MIN, u64::MAX, f32_of(f32::NAN), f64_of(f64::NAN),
        i8::MIN, u8::MAX, i16::MIN, u16::MAX, i32::MIN, 26u32,
    );
    let array = tuple.into_array();
    assert_eq!(array.len(), 26);
    assert_eq!(array[0], 1);
    assert_eq!(array[2], -3);
    assert_eq!(array[15], -1);
    assert_eq!(array[16], i64::MIN as i128);
    assert_eq!(array[18], f32::NAN.to_bits() as i128);
    assert_eq!(array[25], 26);
    let back = <(
        i8, u8, i16, u16, i32, u32, i64, u64, F32, F64, i8, u8, i16, u16, i32, u32, i64, u64,
        F32, F64, i8, u8, i16, u16, i32, u32,
    )>::from_array(array);
    assert_eq!(back.0, tuple.0);
    assert_eq!(back.1, tuple.1);
    assert_eq!(back.2, tuple.2);
    assert_eq!(back.3, tuple.3);
    assert_eq!(back.4, tuple.4);
    assert_eq!(back.5, tuple.5);
    assert_eq!(back.6, tuple.6);
    assert_eq!(back.7, tuple.7);
    assert_eq!(back.8, tuple.8);
    assert_eq!(back.9, tuple.9);
    assert_eq!(back.10, tuple.10);
    assert_eq!(back.11, tuple.11);
    assert_eq!(back.12, tuple.12);
    assert_eq!(back.13, tuple.13);
    assert_eq!(back.14, tuple.14);
    assert_eq!(back.15, tuple.15);
    assert_eq!(back.16, tuple.16);
    assert_eq!(back.17, tuple.17);
    assert_eq!(back.18, tuple.18);
    assert_eq!(back.19, tuple.19);
    assert_eq!(back.20, tuple.20);
    assert_eq!(back.21, tuple.21);
    assert_eq!(back.22, tuple.22);
    assert_eq!(back.23, tuple.23);
    assert_eq!(back.24, tuple.24);
    assert_eq!(back.25, tuple.25);
}

#[test]
fn a_tuple_comes_back_from_its_natives() {
    let natives = (-1i8, 2u16, u32::MAX, u64::MAX, f32_of(1.5)).into_c_struct();
    assert_eq!(natives.0, -1i32);
    assert_eq!(natives.1, 2i32);
    assert_eq!(natives.2, -1i32);
    assert_eq!(natives.3, -1i64);
    assert_eq!(natives.4, f32_of(1.5));
    assert_eq!(
        <(i8, u16, u32, u64, F32)>::from_c_struct(natives),
        (-1i8, 2u16, u32::MAX, u64::MAX, f32_of(1.5))
    );
    assert_eq!(<u8>::from_c_struct(S1(0x1ff)), 255);
    assert_eq!(7i64.into_c_struct().0, 7);
    let S0() = ().into_c_struct();
}

#[test]
fn an_empty_array_is_all_zero() {
    assert_eq!(<()>::empty_array(), []);
    assert_eq!(<i64>::empty_array(), [0]);
    assert_eq!(<(i32, F64, u8)>::empty_array(), [0, 0, 0]);
    assert_eq!(
        <(
            i8, u8, i16, u16, i32, u32, i64, u64, F32, F64, i8, u8, i16, u16, i32, u32, i64,
            u64, F32, F64, i8, u8, i16, u16, i32, u32,
        )>::empty_array(),
        [0; 26]
    );
}

#[test]
fn small_integers_are_listed_as_i32() {
    assert_eq!(
        <(i8, u8, i16, u16, u32, u64)>::wasm_types(),
        [Type::I32, Type::I32, Type::I32, Type::I32, Type::I32, Type::I64]
    );
    assert_eq!(<()>::wasm_types(), []);
    assert_eq!(
        <(
            i8, u8, i16, u16, i32, u32, i64, u64, F32, F64, i8, u8, i16, u16, i32, u32, i64,
            u64, F32, F64, i8, u8, i16, u16, i32, u32,
        )>::wasm_types()
        .len(),
        26
    );
}
