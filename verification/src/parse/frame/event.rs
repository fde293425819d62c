//! The event frame: an event to play back, with its arguments.
use vstd::prelude::*;
use crate::errors;
use crate::parse::{decoded, le_i32, le_u32, spec_fields, spec_le_i32, spec_le_u32, spec_xyz, xyz};
use crate::types::{EventArgs, EventData, FrameData};

verus! {

impl EventArgs {
    /// The record of 72 bytes at `at` holds these fields.
    pub open spec fn encoded_at(self, bytes: Seq<u8>, at: int) -> bool {
        &&& self.flags == spec_le_i32(bytes, at)
        &&& self.entity_index == spec_le_i32(bytes, at + 4)
        &&& spec_xyz(self.origin, bytes, at + 8)
        &&& spec_xyz(self.angles, bytes, at + 20)
        &&& spec_xyz(self.velocity, bytes, at + 32)
        &&& self.ducking == spec_le_i32(bytes, at + 44)
        &&& self.fparam1 == spec_le_u32(bytes, at + 48)
        &&& self.fparam2 == spec_le_u32(bytes, at + 52)
        &&& self.iparam1 == spec_le_i32(bytes, at + 56)
        &&& self.iparam2 == spec_le_i32(bytes, at + 60)
        &&& self.bparam1 == spec_le_i32(bytes, at + 64)
        &&& self.bparam2 == spec_le_i32(bytes, at + 68)
    }
}

impl EventData {
    /// The record of 84 bytes at `at` holds these fields.
    pub open spec fn encoded_at(self, bytes: Seq<u8>, at: int) -> bool {
        &&& self.flags == spec_le_i32(bytes, at)
        &&& self.index == spec_le_i32(bytes, at + 4)
        &&& self.delay == spec_le_u32(bytes, at + 8)
        &&& self.args.encoded_at(bytes, at + 12)
    }
}

/// The outcome of `event_args`: every field has four bytes.
pub open spec fn spec_event_args(bytes: Seq<u8>, at: int) -> Result<int, errors::Error> {
    spec_fields(bytes, at, 72, 4)
}

/// The outcome of `event_data`: three fields of four bytes, then the arguments.
pub open spec fn spec_event(bytes: Seq<u8>, at: int) -> Result<int, errors::Error> {
    spec_fields(bytes, at, 84, 4)
}

pub fn event_args(input: &[u8], pos: usize) -> (r: Result<(usize, EventArgs), errors::Error>)
    ensures
        decoded(r, spec_event_args(input@, pos as int)),
        r matches Ok((_, v)) ==> v.encoded_at(input@, pos as int),
{
    let (pos, flags) = le_i32(input, pos)?;
    let (pos, entity_index) = le_i32(input, pos)?;
    let (pos, origin) = xyz(input, pos)?;
    let (pos, angles) = xyz(input, pos)?;
    let (pos, velocity) = xyz(input, pos)?;
    let (pos, ducking) = le_i32(input, pos)?;
    let (pos, fparam1) = le_u32(input, pos)?;
    let (pos, fparam2) = le_u32(input, pos)?;
    let (pos, iparam1) = le_i32(input, pos)?;
    let (pos, iparam2) = le_i32(input, pos)?;
    let (pos, bparam1) = le_i32(input, pos)?;
    let (pos, bparam2) = le_i32(input, pos)?;
    Ok((pos, EventArgs {
        flags,
        entity_index,
        origin,
        angles,
        velocity,
        ducking,
        fparam1,
        fparam2,
        iparam1,
        iparam2,
        bparam1,
        bparam2,
    }))
}

pub fn event_data<'a>(input: &'a [u8], pos: usize) -> (r: Result<
    (usize, FrameData<'a>),
    errors::Error,
>)
    ensures
        decoded(r, spec_event(input@, pos as int)),
        r matches Ok((_, v)) ==> v matches FrameData::Event(data) && data.encoded_at(
            input@,
            pos as int,
        ),
{
    let (pos, flags) = le_i32(input, pos)?;
    let (pos, index) = le_i32(input, pos)?;
    let (pos, delay) = le_u32(input, pos)?;
    let (pos, args) = event_args(input, pos)?;
    Ok((pos, FrameData::Event(EventData {
        flags,
        index,
        delay,
        args,
    })))
}

} // verus!
