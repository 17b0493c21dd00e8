use wasm_function::native::{scalar_from_slot, scalar_into_slot};
use wasm_function::slot::{read_values, scalar_to_slot, slot_to_scalar, write_values};
use wasm_function::types::types_of;
use wasm_function::{NativeWasmType, Type, Val, WasmExternType, F32, F64};

fn round_trip(value: Val) {
    assert_eq!(slot_to_scalar(scalar_to_slot(value), value.ty()), value);
}

#[test]
fn every_value_comes_back_from_its_slot() {
    for value in [0, 1, -1, 7, -20, i32::MIN, i32::MAX] {
        round_trip(Val::I32(value));
    }
    for value in [0, 1, -1, i64::MIN, i64::MAX, 1 << 40, -(1 << 40)] {
        round_trip(Val::I64(value));
    }
    for value in [0.0f32, -0.0, 1.5, -3.1, f32::MIN, f32::MAX, f32::INFINITY, f32::NAN] {
        round_trip(Val::F32(F32::from_bits(value.to_bits())));
    }
    for value in [0.0f64, -0.0, 1.5, -4.2, f64::MIN, f64::MAX, f64::NEG_INFINITY, f64::NAN] {
        round_trip(Val::F64(F64::from_bits(value.to_bits())));
    }
}

#[test]
fn the_payload_of_a_nan_survives_the_slot() {
    let quiet = 0x7fc0_1234u32;
    let signalling = 0x7f80_0001u32;
    for bits in [quiet, signalling, 0xffff_ffff] {
        let back = slot_to_scalar(scalar_to_slot(Val::F32(F32::from_bits(bits))), Type::F32);
        assert_eq!(back, Val::F32(F32::from_bits(bits)));
    }
    let wide = 0x7ff8_0000_dead_beefu64;
    let back = slot_to_scalar(scalar_to_slot(Val::F64(F64::from_bits(wide))), Type::F64);
    assert_eq!(back, Val::F64(F64::from_bits(wide)));
    assert!(f64::from_bits(wide).is_nan());
}

#[test]
fn an_integer_keeps_its_value_in_the_slot() {
    assert_eq!(scalar_to_slot(Val::I32(5)), 5);
    assert_eq!(scalar_to_slot(Val::I32(-1)), -1);
    assert_eq!(scalar_to_slot(Val::I32(i32::MIN)), -2147483648);
    assert_eq!(scalar_to_slot(Val::I64(-1)), -1);
    assert_eq!(scalar_to_slot(Val::I64(i64::MAX)), 9223372036854775807);
}

#[test]
fn a_float_gives_its_bits_to_the_slot() {
    assert_eq!(scalar_to_slot(Val::F32(F32::from_bits(3.1f32.to_bits()))), 0x4046_6666);
    assert_eq!(scalar_to_slot(Val::F32(F32::from_bits(0xffff_ffff))), 0xffff_ffff);
    assert_eq!(
        scalar_to_slot(Val::F64(F64::from_bits(4.2f64.to_bits()))),
        0x4010_cccc_cccc_cccd
    );
}

#[test]
fn a_slot_gives_its_low_bits() {
    assert_eq!(slot_to_scalar(0x1_0000_0005, Type::I32), Val::I32(5));
    assert_eq!(slot_to_scalar(0xffff_ffff, Type::I32), Val::I32(-1));
    assert_eq!(slot_to_scalar(-1, Type::I64), Val::I64(-1));
    assert_eq!(slot_to_scalar(-1, Type::F32), Val::F32(F32::from_bits(0xffff_ffff)));
    assert_eq!(slot_to_scalar(1 << 64, Type::F64), Val::F64(F64::from_bits(0)));
}

#[test]
fn a_value_knows_its_type() {
    assert_eq!(Val::I32(0).ty(), Type::I32);
    assert_eq!(Val::I64(0).ty(), Type::I64);
    assert_eq!(Val::F32(F32::from_bits(0)).ty(), Type::F32);
    assert_eq!(Val::F64(F64::from_bits(0)).ty(), Type::F64);
    assert_eq!(
        types_of(&[Val::I64(1), Val::F32(F32(2)), Val::I32(3)]),
        vec![Type::I64, Type::F32, Type::I32]
    );
}

#[test]
fn float_bits_go_in_and_out() {
    assert_eq!(F32::from_bits(0x3fc0_0000).to_bits(), 0x3fc0_0000);
    assert_eq!(f32::from_bits(F32::from_bits(1.5f32.to_bits()).to_bits()), 1.5);
    assert_eq!(f64::from_bits(F64::from_bits(2.5f64.to_bits()).to_bits()), 2.5);
}

#[test]
fn values_written_to_a_frame_are_read_back() {
    let values = [
        Val::I32(-7),
        Val::F64(F64::from_bits(f64::NAN.to_bits())),
        Val::I64(i64::MIN),
        Val::F32(F32::from_bits(0x8000_0001)),
    ];
    let mut frame = vec![-1i128; 6];
    write_values(&mut frame, &values);
    assert_eq!(frame[0], -7);
    assert_eq!(frame[2], i64::MIN as i128);
    assert_eq!(frame[3], 0x8000_0001);
    assert_eq!(frame[4], -1);
    assert_eq!(frame[5], -1);
    assert_eq!(read_values(&frame, &types_of(&values)), values);
}

#[test]
fn reading_fewer_types_than_slots_reads_the_first_slots() {
    let frame = [1i128, 2, 3];
    assert_eq!(read_values(&frame, &[Type::I32, Type::I64]), vec![Val::I32(1), Val::I64(2)]);
    assert_eq!(read_values(&frame, &[]), vec![]);
}

#[test]
fn native_types_name_their_value_types() {
    assert_eq!(<i32 as NativeWasmType>::wasm_type(), Type::I32);
    assert_eq!(<i64 as NativeWasmType>::wasm_type(), Type::I64);
    assert_eq!(<F32 as NativeWasmType>::wasm_type(), Type::F32);
    assert_eq!(<F64 as NativeWasmType>::wasm_type(), Type::F64);
}

#[test]
fn natives_go_through_slots() {
    assert_eq!((-2i32).to_binary(), -2);
    assert_eq!(i32::from_binary(-2), -2);
    assert_eq!(i32::from_binary(0x1_0000_0003), 3);
    assert_eq!((i64::MIN).to_binary(), i64::MIN as i128);
    assert_eq!(i64::from_binary(i64::MIN as i128), i64::MIN);
    assert_eq!(F32::from_bits(0xdead_beef).to_binary(), 0xdead_beef);
    assert_eq!(F32::from_binary(0xdead_beef), F32::from_bits(0xdead_beef));
    assert_eq!(F64::from_bits(u64::MAX).to_binary(), u64::MAX as i128);
    assert_eq!(F64::from_binary(u64::MAX as i128), F64::from_bits(u64::MAX));
}

#[test]
fn small_integers_cross_as_i32() {
    assert_eq!((-1i8).to_native(), -1);
    assert_eq!(<i8 as WasmExternType>::from_native(-1), -1);
    assert_eq!(<i8 as WasmExternType>::from_native(0x17f), 0x7f);
    assert_eq!(255u8.to_native(), 255);
    assert_eq!(<u8 as WasmExternType>::from_native(300), 44);
    assert_eq!((-2i16).to_native(), -2);
    assert_eq!(<i16 as WasmExternType>::from_native(-2), -2);
    assert_eq!(65535u16.to_native(), 65535);
    assert_eq!(<u16 as WasmExternType>::from_native(65536 + 9), 9);
    assert_eq!(u32::MAX.to_native(), -1);
    assert_eq!(<u32 as WasmExternType>::from_native(-1), u32::MAX);
    assert_eq!(u64::MAX.to_native(), -1);
    assert_eq!(<u64 as WasmExternType>::from_native(-1), u64::MAX);
    assert_eq!(7i32.to_native(), 7);
    assert_eq!(<i64 as WasmExternType>::from_native(-9), -9);
}

#[test]
fn every_scalar_type_comes_back_from_its_slot() {
    for value in [i8::MIN, -1, 0, 1, i8::MAX] {
        assert_eq!(scalar_from_slot::<i8>(scalar_into_slot(value)), value);
    }
    for value in [0u8, 1, 128, u8::MAX] {
        assert_eq!(scalar_from_slot::<u8>(scalar_into_slot(value)), value);
    }
    for value in [i16::MIN, -1, 0, i16::MAX] {
        assert_eq!(scalar_from_slot::<i16>(scalar_into_slot(value)), value);
    }
    for value in [0u16, 0x8000, u16::MAX] {
        assert_eq!(scalar_from_slot::<u16>(scalar_into_slot(value)), value);
    }
    for value in [i32::MIN, -1, 0, i32::MAX] {
        assert_eq!(scalar_from_slot::<i32>(scalar_into_slot(value)), value);
    }
    for value in [0u32, 0x8000_0000, u32::MAX] {
        assert_eq!(scalar_from_slot::<u32>(scalar_into_slot(value)), value);
    }
    for value in [i64::MIN, -1, 0, i64::MAX] {
        assert_eq!(scalar_from_slot::<i64>(scalar_into_slot(value)), value);
    }
    for value in [0u64, 1 << 63, u64::MAX] {
        assert_eq!(scalar_from_slot::<u64>(scalar_into_slot(value)), value);
    }
    for bits in [0u32, 0x7fc0_0001, 0xffff_ffff] {
        let value = F32::from_bits(bits);
        assert_eq!(scalar_from_slot::<F32>(scalar_into_slot(value)), value);
    }
    for bits in [0u64, 0x7ff8_0000_0000_0001, u64::MAX] {
        let value = F64::from_bits(bits);
        assert_eq!(scalar_from_slot::<F64>(scalar_into_slot(value)), value);
    }
    assert_eq!(scalar_into_slot(u32::MAX), -1);
    assert_eq!(scalar_into_slot(u8::MAX), 255);
    assert_eq!(scalar_into_slot(F32::from_bits(u32::MAX)), 0xffff_ffff);
}
