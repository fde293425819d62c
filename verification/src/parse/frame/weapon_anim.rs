//! The weapon-animation frame.
use vstd::prelude::*;
use crate::errors;
use crate::parse::{decoded, le_i32, spec_fields, spec_le_i32};
use crate::types::{FrameData, WeaponAnimData};

verus! {

impl WeaponAnimData {
    /// The record of 8 bytes at `at` holds these fields.
    pub open spec fn encoded_at(self, bytes: Seq<u8>, at: int) -> bool {
        &&& self.anim == spec_le_i32(bytes, at)
        &&& self.body == spec_le_i32(bytes, at + 4)
    }
}

/// The outcome of `weapon_anim_data`: two fields of four bytes.
pub open spec fn spec_weapon_anim(bytes: Seq<u8>, at: int) -> Result<int, errors::Error> {
    spec_fields(bytes, at, 8, 4)
}

pub fn weapon_anim_data<'a>(input: &'a [u8], pos: usize) -> (r: Result<
    (usize, FrameData<'a>),
    errors::Error,
>)
    ensures
        decoded(r, spec_weapon_anim(input@, pos as int)),
        r matches Ok((_, v)) ==> v matches FrameData::WeaponAnim(data) && data.encoded_at(
            input@,
            pos as int,
        ),
{
    let (pos, anim) = le_i32(input, pos)?;
    let (pos, body) = le_i32(input, pos)?;
    Ok((pos, FrameData::WeaponAnim(WeaponAnimData {
        anim,
        body,
    })))
}

} // verus!
