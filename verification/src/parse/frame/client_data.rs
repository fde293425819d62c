//! The client-data frame: where the player stands and looks.
use vstd::prelude::*;
use crate::errors;
use crate::parse::{decoded, le_i32, le_u32, spec_fields, spec_le_i32, spec_le_u32, spec_xyz, xyz};
use crate::types::{ClientDataData, FrameData};

verus! {

impl ClientDataData {
    /// The record of 32 bytes at `at` holds these fields.
    pub open spec fn encoded_at(self, bytes: Seq<u8>, at: int) -> bool {
        &&& spec_xyz(self.origin, bytes, at)
        &&& spec_xyz(self.viewangles, bytes, at + 12)
        &&& self.weapon_bits == spec_le_i32(bytes, at + 24)
        &&& self.fov == spec_le_u32(bytes, at + 28)
    }
}

/// The outcome of `client_data_data`: every field has four bytes.
pub open spec fn spec_client_data(bytes: Seq<u8>, at: int) -> Result<int, errors::Error> {
    spec_fields(bytes, at, 32, 4)
}

pub fn client_data_data<'a>(input: &'a [u8], pos: usize) -> (r: Result<
    (usize, FrameData<'a>),
    errors::Error,
>)
    ensures
        decoded(r, spec_client_data(input@, pos as int)),
        r matches Ok((_, v)) ==> v matches FrameData::ClientData(data) && data.encoded_at(
            input@,
            pos as int,
        ),
{
    let (pos, origin) = xyz(input, pos)?;
    let (pos, viewangles) = xyz(input, pos)?;
    let (pos, weapon_bits) = le_i32(input, pos)?;
    let (pos, fov) = le_u32(input, pos)?;
    Ok((pos, FrameData::ClientData(ClientDataData {
        origin,
        viewangles,
        weapon_bits,
        fov,
    })))
}

} // verus!
