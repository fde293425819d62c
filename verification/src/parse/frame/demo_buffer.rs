//! The demo-buffer frame: bytes with their length before them.
use vstd::prelude::*;
use crate::errors;
use crate::parse::{decoded, length_bytes, spec_as_usize, spec_le_i32, spec_length_bytes};
use crate::types::{DemoBufferData, FrameData};

verus! {

impl DemoBufferData<'_> {
    /// The buffer is the bytes behind the length at `at`, as many as the
    /// length says.
    pub open spec fn encoded_at(self, bytes: Seq<u8>, at: int) -> bool {
        self.buffer@ == bytes.subrange(
            at + 4,
            at + 4 + spec_as_usize(spec_le_i32(bytes, at) as i32),
        )
    }
}

/// The outcome of `demo_buffer_data`: a length and as many bytes.
pub open spec fn spec_demo_buffer(bytes: Seq<u8>, at: int) -> Result<int, errors::Error> {
    spec_length_bytes(bytes, at)
}

pub fn demo_buffer_data<'a>(input: &'a [u8], pos: usize) -> (r: Result<
    (usize, FrameData<'a>),
    errors::Error,
>)
    ensures
        decoded(r, spec_demo_buffer(input@, pos as int)),
        r matches Ok((_, v)) ==> v matches FrameData::DemoBuffer(data) && data.encoded_at(
            input@,
            pos as int,
        ),
{
    let (pos, buffer) = length_bytes(input, pos)?;
    Ok((pos, FrameData::DemoBuffer(DemoBufferData { buffer })))
}

} // verus!
