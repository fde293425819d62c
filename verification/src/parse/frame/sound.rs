//! The sound frame: a sample's name and how to play it.
use vstd::prelude::*;
use crate::errors;
use crate::parse::{
    decoded, le_i32, le_u32, length_bytes, spec_as_usize, spec_fields, spec_le_i32, spec_le_u32,
    spec_length_bytes, spec_read,
};
use crate::types::{FrameData, SoundData};

verus! {

impl SoundData<'_> {
    /// The channel stands at `at`, the sample's length behind it, then the
    /// sample, and behind the sample four fields of four bytes.
    pub open spec fn encoded_at(self, bytes: Seq<u8>, at: int) -> bool {
        let end = at + 8 + spec_as_usize(spec_le_i32(bytes, at + 4) as i32);
        &&& self.channel == spec_le_i32(bytes, at)
        &&& self.sample@ == bytes.subrange(at + 8, end)
        &&& self.attenuation == spec_le_u32(bytes, end)
        &&& self.volume == spec_le_u32(bytes, end + 4)
        &&& self.flags == spec_le_i32(bytes, end + 8)
        &&& self.pitch == spec_le_i32(bytes, end + 12)
    }
}

/// The outcome of `sound_data`.
pub open spec fn spec_sound(bytes: Seq<u8>, at: int) -> Result<int, errors::Error> {
    match spec_read(bytes, at, 4) {
        Err(e) => Err(e),
        Ok(a) => match spec_length_bytes(bytes, a) {
            Err(e) => Err(e),
            Ok(b) => spec_fields(bytes, b, 16, 4),
        },
    }
}

pub fn sound_data<'a>(input: &'a [u8], pos: usize) -> (r: Result<
    (usize, FrameData<'a>),
    errors::Error,
>)
    ensures
        decoded(r, spec_sound(input@, pos as int)),
        r matches Ok((_, v)) ==> v matches FrameData::Sound(data) && data.encoded_at(
            input@,
            pos as int,
        ),
{
    let (pos, channel) = le_i32(input, pos)?;
    let (pos, sample) = length_bytes(input, pos)?;
    let (pos, attenuation) = le_u32(input, pos)?;
    let (pos, volume) = le_u32(input, pos)?;
    let (pos, flags) = le_i32(input, pos)?;
    let (pos, pitch) = le_i32(input, pos)?;
    Ok((pos, FrameData::Sound(SoundData { channel, sample, attenuation, volume, flags, pitch })))
}

} // verus!
