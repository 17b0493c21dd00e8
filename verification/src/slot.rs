//! The slot: the one representation in which a value crosses a call, and the frame of slots
//! that carries the arguments in and the results out.

use crate::types::{value_types, Type, Val, F32, F64};
use vstd::prelude::*;

verus! {

/// The slot that holds `v`: an integer keeps its value, a float gives its bits.
pub open spec fn scalar_to_slot_spec(v: Val) -> i128 {
    match v {
        Val::I32(x) => x as i128,
        Val::I64(x) => x as i128,
        Val::F32(x) => x.0 as i128,
        Val::F64(x) => x.0 as i128,
    }
}

/// The value of type `ty` that `slot` holds: its low 32 or 64 bits.
pub open spec fn slot_to_scalar_spec(slot: i128, ty: Type) -> Val {
    match ty {
        Type::I32 => Val::I32(slot as i32),
        Type::I64 => Val::I64(slot as i64),
        Type::F32 => Val::F32(F32(slot as u32)),
        Type::F64 => Val::F64(F64(slot as u64)),
    }
}

/// Lays a value into a slot.
#[verifier::when_used_as_spec(scalar_to_slot_spec)]
pub fn scalar_to_slot(v: Val) -> (slot: i128)
    ensures
        slot == scalar_to_slot_spec(v),
{
    match v {
        Val::I32(x) => x as i128,
        Val::I64(x) => x as i128,
        Val::F32(x) => x.0 as i128,
        Val::F64(x) => x.0 as i128,
    }
}

/// Takes the value of type `ty` out of a slot.
#[verifier::when_used_as_spec(slot_to_scalar_spec)]
pub fn slot_to_scalar(slot: i128, ty: Type) -> (v: Val)
    ensures
        v == slot_to_scalar_spec(slot, ty),
{
    match ty {
        Type::I32 => Val::I32(slot as i32),
        Type::I64 => Val::I64(slot as i64),
        Type::F32 => Val::F32(F32(slot as u32)),
        Type::F64 => Val::F64(F64(slot as u64)),
    }
}

/// A value laid into a slot and taken out again under its own type is the value itself.
pub proof fn lemma_slot_round_trip(v: Val)
    ensures
        slot_to_scalar(scalar_to_slot(v), v.ty()) == v,
{
    match v {
        Val::I32(x) => {
            assert((x as i128) as i32 == x) by (bit_vector);
        },
        Val::I64(x) => {
            assert((x as i128) as i64 == x) by (bit_vector);
        },
        Val::F32(x) => {
            let bits = x.0;
            assert((bits as i128) as u32 == bits) by (bit_vector);
        },
        Val::F64(x) => {
            let bits = x.0;
            assert((bits as i128) as u64 == bits) by (bit_vector);
        },
    }
}

/// `frame` after the slots of `vals` were written over its first positions.
pub open spec fn frame_with(frame: Seq<i128>, vals: Seq<Val>) -> Seq<i128> {
    Seq::new(
        frame.len(),
        |i: int|
            if i < vals.len() {
                scalar_to_slot_spec(vals[i])
            } else {
                frame[i]
            },
    )
}

/// The values of the types `types` that the first positions of `frame` hold.
pub open spec fn frame_values(frame: Seq<i128>, types: Seq<Type>) -> Seq<Val> {
    Seq::new(types.len(), |i: int| slot_to_scalar_spec(frame[i], types[i]))
}

/// Writes the slots of `vals` over the first positions of `frame`.
pub fn write_values(frame: &mut Vec<i128>, vals: &[Val])
    requires
        vals@.len() <= old(frame)@.len(),
    ensures
        final(frame)@ == frame_with(old(frame)@, vals@),
{
    let mut i: usize = 0;
    while i < vals.len()
        invariant
            i <= vals@.len(),
            vals@.len() <= frame@.len(),
            frame@.len() == old(frame)@.len(),
            forall|j: int| 0 <= j < i ==> frame@[j] == scalar_to_slot_spec(vals@[j]),
            forall|j: int| i <= j < frame@.len() ==> frame@[j] == old(frame)@[j],
        decreases vals@.len() - i,
    {
        frame.set(i, scalar_to_slot(vals[i]));
        i += 1;
    }
    proof {
        assert(frame@ =~= frame_with(old(frame)@, vals@));
    }
}

/// Reads the values of the types `types` from the first positions of `frame`.
pub fn read_values(frame: &[i128], types: &[Type]) -> (vals: Vec<Val>)
    requires
        types@.len() <= frame@.len(),
    ensures
        vals@ == frame_values(frame@, types@),
{
    let mut vals: Vec<Val> = Vec::new();
    let mut i: usize = 0;
    while i < types.len()
        invariant
            i <= types@.len(),
            types@.len() <= frame@.len(),
            vals@.len() == i,
            forall|j: int| 0 <= j < i ==> vals@[j] == slot_to_scalar_spec(frame@[j], types@[j]),
        decreases types@.len() - i,
    {
        vals.push(slot_to_scalar(frame[i], types[i]));
        i += 1;
    }
    proof {
        assert(vals@ =~= frame_values(frame@, types@));
    }
    vals
}

/// Values written into a frame and read back under their own types are the values themselves,
/// whatever the frame held before.
pub proof fn lemma_frame_round_trip(frame: Seq<i128>, vals: Seq<Val>)
    requires
        vals.len() <= frame.len(),
    ensures
        frame_values(frame_with(frame, vals), value_types(vals)) == vals,
{
    let back = frame_values(frame_with(frame, vals), value_types(vals));
    assert forall|i: int| 0 <= i < vals.len() implies back[i] == vals[i] by {
        lemma_slot_round_trip(vals[i]);
    }
    assert(back =~= vals);
}

/// The values read from a frame have the types that were asked for.
pub proof fn lemma_frame_values_types(frame: Seq<i128>, types: Seq<Type>)
    ensures
        value_types(frame_values(frame, types)) == types,
{
    assert(value_types(frame_values(frame, types)) =~= types);
}

} // verus!
