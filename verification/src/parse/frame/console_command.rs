//! The console-command frame: 64 bytes of text, padded with zero bytes.
use vstd::prelude::*;
use crate::errors;
use crate::parse::{decoded, spec_read, take};
use crate::types::{ConsoleCommandData, FrameData};

verus! {

impl ConsoleCommandData<'_> {
    /// The command is the 64 bytes at `at`, as they stand.
    pub open spec fn encoded_at(self, bytes: Seq<u8>, at: int) -> bool {
        self.command@ == bytes.subrange(at, at + 64)
    }
}

/// The outcome of `console_command_data`: one read of 64 bytes.
pub open spec fn spec_console_command(bytes: Seq<u8>, at: int) -> Result<int, errors::Error> {
    spec_read(bytes, at, 64)
}

pub fn console_command_data<'a>(input: &'a [u8], pos: usize) -> (r: Result<
    (usize, FrameData<'a>),
    errors::Error,
>)
    ensures
        decoded(r, spec_console_command(input@, pos as int)),
        r matches Ok((_, v)) ==> v matches FrameData::ConsoleCommand(data) && data.encoded_at(
            input@,
            pos as int,
        ),
{
    let (pos, command) = take(input, pos, 64)?;
    Ok((pos, FrameData::ConsoleCommand(ConsoleCommandData { command })))
}

} // verus!
