//! Demo header decoders.
//!
//! The header is the first 544 bytes of a demo: the magic value, the two
//! protocol numbers, the map's name, the game directory, the map's checksum
//! and the offset of the directory.
use vstd::prelude::*;
use crate::errors;
use crate::errors::ErrorKind;
use crate::parse::{
    decoded, invalid, le_i32, need, spec_fields, spec_le_i32, spec_read, spec_region, take, Error,
    Needed,
};
use crate::types::Header;

verus! {

pub const SUPPORTED_DEMO_PROTOCOL: i32 = 5;

/// The magic value: the letters `HLDEMO`.
pub open spec fn spec_magic_value() -> Seq<u8> {
    seq![0x48u8, 0x4c, 0x44, 0x45, 0x4d, 0x4f]
}

/// Among the first six bytes, as far as the input has them, one differs
/// from the magic value.
pub open spec fn spec_magic_differs(bytes: Seq<u8>) -> bool {
    exists|i: int| 0 <= i < 6 && i < bytes.len() && bytes[i] != #[trigger] spec_magic_value()[i]
}

/// The outcome of `magic`. A byte that differs is told before a missing
/// one; two more bytes follow the magic value, whatever they hold.
pub open spec fn spec_magic(bytes: Seq<u8>) -> Result<int, errors::Error> {
    if spec_magic_differs(bytes) {
        Err(invalid(Error::InvalidMagic))
    } else if bytes.len() < 6 {
        Err(need(6))
    } else {
        spec_read(bytes, 6, 2)
    }
}

/// The outcome of `demo_protocol`.
pub open spec fn spec_demo_protocol(bytes: Seq<u8>, at: int) -> Result<int, errors::Error> {
    if at + 4 > bytes.len() {
        Err(need(4))
    } else if spec_le_i32(bytes, at) != SUPPORTED_DEMO_PROTOCOL {
        Err(invalid(Error::InvalidDemoProtocol(spec_le_i32(bytes, at) as i32)))
    } else {
        Ok(at + 4)
    }
}

/// The outcome of the header's fields, one after the other.
pub open spec fn spec_header_fields(bytes: Seq<u8>) -> Result<int, errors::Error> {
    match spec_magic(bytes) {
        Err(e) => Err(e),
        Ok(a) => match spec_demo_protocol(bytes, a) {
            Err(e) => Err(e),
            Ok(b) => match spec_read(bytes, b, 4) {
                Err(e) => Err(e),
                Ok(c) => match spec_read(bytes, c, 260) {
                    Err(e) => Err(e),
                    Ok(d) => match spec_read(bytes, d, 260) {
                        Err(e) => Err(e),
                        Ok(e) => spec_fields(bytes, e, 8, 4),
                    },
                },
            },
        },
    }
}

/// The outcome of `header`: every error is marked as met in the header.
pub open spec fn spec_header(bytes: Seq<u8>) -> Result<int, errors::Error> {
    spec_region(Error::Header, spec_header_fields(bytes))
}

impl Header<'_> {
    /// The first 544 bytes hold this header.
    pub open spec fn encoded_in(self, bytes: Seq<u8>) -> bool {
        &&& self.demo_protocol == spec_le_i32(bytes, 8)
        &&& self.net_protocol == spec_le_i32(bytes, 12)
        &&& self.map_name@ == bytes.subrange(16, 276)
        &&& self.game_dir@ == bytes.subrange(276, 536)
        &&& self.map_crc == spec_le_i32(bytes, 536)
        &&& self.directory_offset == spec_le_i32(bytes, 540)
    }
}

/// Reads the magic value and the two bytes behind it.
pub fn magic(input: &[u8]) -> (r: Result<(usize, ()), errors::Error>)
    ensures
        decoded(r, spec_magic(input@)),
{
    let value: [u8; 6] = [0x48, 0x4c, 0x44, 0x45, 0x4d, 0x4f];
    assert(value@ =~= spec_magic_value());
    let len = input.len();
    let mut i: usize = 0;
    while i < 6 && i < len
        invariant
            i <= 6,
            i <= len,
            len == input@.len(),
            value@ == spec_magic_value(),
            forall|j: int| 0 <= j < i ==> input@[j] == spec_magic_value()[j],
        decreases 6 - i,
    {
        if input[i] != value[i] {
            return Err(errors::Error::from(Error::InvalidMagic));
        }
        i += 1;
    }
    if len < 6 {
        return Err(errors::Error::from_needed(Needed::Size(6)));
    }
    let (end, _) = take(input, 6, 2)?;
    Ok((end, ()))
}

/// Accepts the one demo protocol that is supported.
pub fn check_demo_protocol(protocol: i32) -> (r: Result<i32, Error>)
    ensures
        protocol == SUPPORTED_DEMO_PROTOCOL ==> r === Ok(protocol),
        protocol != SUPPORTED_DEMO_PROTOCOL ==> r === Err(Error::InvalidDemoProtocol(protocol)),
{
    if protocol == SUPPORTED_DEMO_PROTOCOL {
        Ok(protocol)
    } else {
        Err(Error::InvalidDemoProtocol(protocol))
    }
}

/// Reads the demo protocol and rejects any but the supported one.
pub fn demo_protocol(input: &[u8], pos: usize) -> (r: Result<(usize, i32), errors::Error>)
    ensures
        decoded(r, spec_demo_protocol(input@, pos as int)),
        r matches Ok((_, v)) ==> v == spec_le_i32(input@, pos as int),
{
    let (end, protocol) = le_i32(input, pos)?;
    match check_demo_protocol(protocol) {
        Ok(protocol) => Ok((end, protocol)),
        Err(code) => Err(errors::Error::from(code)),
    }
}

fn header_fields<'a>(input: &'a [u8]) -> (r: Result<(usize, Header<'a>), errors::Error>)
    ensures
        decoded(r, spec_header_fields(input@)),
        r matches Ok((_, v)) ==> v.encoded_in(input@),
{
    let (pos, _) = magic(input)?;
    let (pos, demo_protocol) = demo_protocol(input, pos)?;
    let (pos, net_protocol) = le_i32(input, pos)?;
    let (pos, map_name) = take(input, pos, 260)?;
    let (pos, game_dir) = take(input, pos, 260)?;
    let (pos, map_crc) = le_i32(input, pos)?;
    let (pos, directory_offset) = le_i32(input, pos)?;
    Ok((pos, Header { demo_protocol, net_protocol, map_name, game_dir, map_crc, directory_offset }))
}

/// Decodes the header at the start of the input. An error is marked as met
/// in the header.
pub fn header<'a>(input: &'a [u8]) -> (r: Result<(usize, Header<'a>), errors::Error>)
    ensures
        decoded(r, spec_header(input@)),
        r matches Ok((_, v)) ==> v.encoded_in(input@),
{
    match header_fields(input) {
        Ok(found) => Ok(found),
        Err(e) => Err(errors::Error::with_chain(e, ErrorKind::ParseError(Error::Header))),
    }
}

} // verus!
