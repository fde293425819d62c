//! Decoders for the parts of a demo, and the field readers they are built from.
//!
//! A decoder takes the whole buffer and a cursor, and gives back the cursor
//! behind what it read together with the value. What a decoder does on a
//! given buffer is stated twice: a spec function named after it says where
//! the cursor ends or which error comes, and a predicate `encoded_at` on the
//! decoded type says which bytes each field was read from.
use vstd::prelude::*;
use vstd::slice::slice_subrange;
use vstd::string::StringExecFns;
use crate::errors;
use crate::errors::{decimal, signed_decimal, spec_decimal, spec_signed_decimal, ErrorKind};

pub mod demo;
pub mod directory;
pub mod frame;
pub mod header;

pub use self::demo::{demo, demo_without_frames};

verus! {

/// What a decoder rejects, and which part of the demo it could not decode.
#[derive(Debug, Clone, Copy, PartialEq, Eq, Hash)]
pub enum Error {
    Header,
    Directory,
    Frames,
    InvalidMagic,
    InvalidDemoProtocol(i32),
    InvalidDirectoryEntryCount(i32),
    InvalidFrameType(u8),
    InvalidNetMsgLength(i32),
}

impl Error {
    /// What the error says, in words.
    pub open spec fn spec_to_string(self) -> Seq<char> {
        match self {
            Error::Header => "couldn't parse the demo header"@,
            Error::Directory => "couldn't parse the demo directory"@,
            Error::Frames => "couldn't parse the demo frames"@,
            Error::InvalidMagic => "invalid magic value"@,
            Error::InvalidDemoProtocol(protocol) => "invalid demo protocol: "@
                + spec_signed_decimal(protocol as int) + " (only protocol "@ + spec_signed_decimal(
                header::SUPPORTED_DEMO_PROTOCOL as int,
            ) + " is supported)"@,
            Error::InvalidDirectoryEntryCount(count) => "invalid directory entry count: "@
                + spec_signed_decimal(count as int) + " (expected from "@ + spec_signed_decimal(
                directory::MIN_ENTRY_COUNT as int,
            ) + " to "@ + spec_signed_decimal(directory::MAX_ENTRY_COUNT as int) + ")"@,
            Error::InvalidFrameType(frame_type) => "invalid frame type: "@ + spec_decimal(
                frame_type as nat,
            ) + " (expected from 0 to "@ + spec_decimal(frame::MAX_FRAME_TYPE as nat) + ")"@,
            Error::InvalidNetMsgLength(length) => "invalid netmsg length: "@ + spec_signed_decimal(
                length as int,
            ) + " (expected from "@ + spec_signed_decimal(
                frame::netmsg::MIN_MESSAGE_LENGTH as int,
            ) + " to "@ + spec_signed_decimal(frame::netmsg::MAX_MESSAGE_LENGTH as int) + ")"@,
        }
    }

    /// What the error says, in words.
    pub fn to_string(&self) -> (text: String)
        ensures
            text@ == self.spec_to_string(),
    {
        match self {
            Error::Header => String::from_str("couldn't parse the demo header"),
            Error::Directory => String::from_str("couldn't parse the demo directory"),
            Error::Frames => String::from_str("couldn't parse the demo frames"),
            Error::InvalidMagic => String::from_str("invalid magic value"),
            Error::InvalidDemoProtocol(protocol) => {
                let mut text = String::from_str("invalid demo protocol: ");
                text.append(signed_decimal(*protocol).as_str());
                text.append(" (only protocol ");
                text.append(signed_decimal(header::SUPPORTED_DEMO_PROTOCOL).as_str());
                text.append(" is supported)");
                text
            },
            Error::InvalidDirectoryEntryCount(count) => {
                let mut text = String::from_str("invalid directory entry count: ");
                text.append(signed_decimal(*count).as_str());
                text.append(" (expected from ");
                text.append(signed_decimal(directory::MIN_ENTRY_COUNT).as_str());
                text.append(" to ");
                text.append(signed_decimal(directory::MAX_ENTRY_COUNT).as_str());
                text.append(")");
                text
            },
            Error::InvalidFrameType(frame_type) => {
                let mut text = String::from_str("invalid frame type: ");
                text.append(decimal(*frame_type as u64).as_str());
                text.append(" (expected from 0 to ");
                text.append(decimal(frame::MAX_FRAME_TYPE as u64).as_str());
                text.append(")");
                text
            },
            Error::InvalidNetMsgLength(length) => {
                let mut text = String::from_str("invalid netmsg length: ");
                text.append(signed_decimal(*length).as_str());
                text.append(" (expected from ");
                text.append(signed_decimal(frame::netmsg::MIN_MESSAGE_LENGTH).as_str());
                text.append(" to ");
                text.append(signed_decimal(frame::netmsg::MAX_MESSAGE_LENGTH).as_str());
                text.append(")");
                text
            },
        }
    }
}

impl Error {
    /// The error names a part of the demo, not a reason.
    pub open spec fn spec_is_region(self) -> bool {
        self is Header || self is Directory || self is Frames
    }
}

/// How many bytes a read was short of, as far as the reader knows.
#[derive(Debug, Clone, Copy, PartialEq, Eq)]
pub enum Needed {
    /// More bytes are needed, but it is not known how many.
    Unknown,
    /// The read asked for this many bytes and the input held fewer.
    Size(usize),
}

/// The error of a read that asked for `count` bytes and found fewer.
pub open spec fn need(count: usize) -> errors::Error {
    errors::Error::spec_from_kind(ErrorKind::NeedMoreBytes(Some(count)))
}

/// The error of content that was rejected for the reason `code`.
pub open spec fn invalid(code: Error) -> errors::Error {
    errors::Error::spec_from_kind(ErrorKind::ParseError(code))
}

/// The error `inner`, met while decoding the part `region`.
pub open spec fn within(region: Error, inner: errors::Error) -> errors::Error {
    errors::Error::spec_with_chain(inner, ErrorKind::ParseError(region))
}

/// `outcome` with its error, if it is one, wrapped in `region`.
pub open spec fn spec_region(region: Error, outcome: Result<int, errors::Error>) -> Result<
    int,
    errors::Error,
> {
    match outcome {
        Ok(end) => Ok(end),
        Err(e) => Err(within(region, e)),
    }
}

/// The error has one layer, which gives a reason: content that was
/// rejected, or a read that fell short.
pub open spec fn spec_is_reason(e: errors::Error) -> bool {
    &&& e.cause is None
    &&& e.kind matches ErrorKind::ParseError(code) ==> !code.spec_is_region()
}

/// The error has two layers: the part of the demo that could not be
/// decoded, and inside it the reason.
pub open spec fn spec_is_layered(e: errors::Error) -> bool {
    &&& e.kind matches ErrorKind::ParseError(region) && region.spec_is_region()
    &&& e.cause matches Some(inner) && spec_is_reason(*inner)
}

/// Where the cursor stands after a read of `width` bytes at `at`, or the
/// error of that read.
pub open spec fn spec_read(bytes: Seq<u8>, at: int, width: usize) -> Result<int, errors::Error> {
    if at + width <= bytes.len() {
        Ok(at + width)
    } else {
        Err(need(width))
    }
}

/// Where the cursor stands after a run of fields of `width` bytes each that
/// holds `total` bytes in all, or the error of the first field that fell
/// short.
pub open spec fn spec_fields(bytes: Seq<u8>, at: int, total: int, width: usize) -> Result<
    int,
    errors::Error,
> {
    if at + total <= bytes.len() {
        Ok(at + total)
    } else {
        Err(need(width))
    }
}

/// A decoder's result `r` has the cursor or the error that `outcome` names.
pub open spec fn decoded<T>(
    r: Result<(usize, T), errors::Error>,
    outcome: Result<int, errors::Error>,
) -> bool {
    match r {
        Ok((end, _)) => outcome === Ok(end as int),
        Err(e) => outcome === Err(e),
    }
}

/// The signed reading of `value`, a number below `modulus`, in two's complement.
pub open spec fn signed(value: int, modulus: int) -> int {
    if 2 * value >= modulus {
        value - modulus
    } else {
        value
    }
}

/// The byte at `at`, read as a signed number.
pub open spec fn spec_i8(bytes: Seq<u8>, at: int) -> int {
    signed(bytes[at] as int, 0x100)
}

/// The number that two bytes at `at` spell in little-endian order.
pub open spec fn spec_le_u16(bytes: Seq<u8>, at: int) -> int {
    bytes[at] + 0x100 * bytes[at + 1]
}

/// The signed reading of `spec_le_u16`.
pub open spec fn spec_le_i16(bytes: Seq<u8>, at: int) -> int {
    signed(spec_le_u16(bytes, at), 0x1_0000)
}

/// The number that four bytes at `at` spell in little-endian order.
pub open spec fn spec_le_u32(bytes: Seq<u8>, at: int) -> int {
    bytes[at] + 0x100 * bytes[at + 1] + 0x1_0000 * bytes[at + 2] + 0x100_0000 * bytes[at + 3]
}

/// The signed reading of `spec_le_u32`.
pub open spec fn spec_le_i32(bytes: Seq<u8>, at: int) -> int {
    signed(spec_le_u32(bytes, at), 0x1_0000_0000)
}

/// Three numbers of four bytes each, one after the other from `at`.
pub open spec fn spec_xyz(v: [u32; 3], bytes: Seq<u8>, at: int) -> bool {
    &&& v[0] == spec_le_u32(bytes, at)
    &&& v[1] == spec_le_u32(bytes, at + 4)
    &&& v[2] == spec_le_u32(bytes, at + 8)
}

/// Four signed numbers of four bytes each, one after the other from `at`.
pub open spec fn spec_i32_4(v: [i32; 4], bytes: Seq<u8>, at: int) -> bool {
    &&& v[0] == spec_le_i32(bytes, at)
    &&& v[1] == spec_le_i32(bytes, at + 4)
    &&& v[2] == spec_le_i32(bytes, at + 8)
    &&& v[3] == spec_le_i32(bytes, at + 12)
}

/// A signed length or offset as the file's writer meant it: as a `usize`,
/// a negative number wrapping round to the top of the range.
pub open spec fn spec_as_usize(value: i32) -> usize {
    if value >= 0 {
        value as usize
    } else {
        (usize::MAX + 1 + value) as usize
    }
}

/// Where the cursor stands after a length of four bytes at `at` and as many
/// bytes as it says, or the error of the read that fell short.
pub open spec fn spec_length_bytes(bytes: Seq<u8>, at: int) -> Result<int, errors::Error> {
    if at + 4 > bytes.len() {
        Err(need(4))
    } else {
        spec_read(bytes, at + 4, spec_as_usize(spec_le_i32(bytes, at) as i32))
    }
}

/// `nom::be_u8`: the first byte; on empty input, `Incomplete(Needed::Size(1))`.
#[verifier::external_body]
fn nom_be_u8(input: &[u8]) -> (r: Result<u8, Needed>)
    ensures
        input@.len() >= 1 ==> r === Ok(input@[0]),
        input@.len() < 1 ==> r === Err(Needed::Size(1)),
{
    match nom::be_u8(input) {
        Ok((_, value)) => Ok(value),
        Err(nom::Err::Incomplete(nom::Needed::Size(n))) => Err(Needed::Size(n)),
        Err(_) => Err(Needed::Unknown),
    }
}

/// `nom::be_i8`: the first byte, read as signed; on empty input,
/// `Incomplete(Needed::Size(1))`.
#[verifier::external_body]
fn nom_be_i8(input: &[u8]) -> (r: Result<i8, Needed>)
    ensures
        input@.len() >= 1 ==> r === Ok(spec_i8(input@, 0) as i8),
        input@.len() < 1 ==> r === Err(Needed::Size(1)),
{
    match nom::be_i8(input) {
        Ok((_, value)) => Ok(value),
        Err(nom::Err::Incomplete(nom::Needed::Size(n))) => Err(Needed::Size(n)),
        Err(_) => Err(Needed::Unknown),
    }
}

/// `nom::le_u16`: with two bytes or more, the little-endian number of the
/// first two; with fewer, `Incomplete(Needed::Size(2))`.
#[verifier::external_body]
fn nom_le_u16(input: &[u8]) -> (r: Result<u16, Needed>)
    ensures
        input@.len() >= 2 ==> r === Ok(spec_le_u16(input@, 0) as u16),
        input@.len() < 2 ==> r === Err(Needed::Size(2)),
{
    match nom::le_u16(input) {
        Ok((_, value)) => Ok(value),
        Err(nom::Err::Incomplete(nom::Needed::Size(n))) => Err(Needed::Size(n)),
        Err(_) => Err(Needed::Unknown),
    }
}

/// `nom::le_i16`: with two bytes or more, the little-endian number of the
/// first two, read as signed; with fewer, `Incomplete(Needed::Size(2))`.
#[verifier::external_body]
fn nom_le_i16(input: &[u8]) -> (r: Result<i16, Needed>)
    ensures
        input@.len() >= 2 ==> r === Ok(spec_le_i16(input@, 0) as i16),
        input@.len() < 2 ==> r === Err(Needed::Size(2)),
{
    match nom::le_i16(input) {
        Ok((_, value)) => Ok(value),
        Err(nom::Err::Incomplete(nom::Needed::Size(n))) => Err(Needed::Size(n)),
        Err(_) => Err(Needed::Unknown),
    }
}

/// `nom::le_u32`: with four bytes or more, the little-endian number of the
/// first four; with fewer, `Incomplete(Needed::Size(4))`.
#[verifier::external_body]
fn nom_le_u32(input: &[u8]) -> (r: Result<u32, Needed>)
    ensures
        input@.len() >= 4 ==> r === Ok(spec_le_u32(input@, 0) as u32),
        input@.len() < 4 ==> r === Err(Needed::Size(4)),
{
    match nom::le_u32(input) {
        Ok((_, value)) => Ok(value),
        Err(nom::Err::Incomplete(nom::Needed::Size(n))) => Err(Needed::Size(n)),
        Err(_) => Err(Needed::Unknown),
    }
}

/// `nom::le_i32`: with four bytes or more, the little-endian number of the
/// first four, read as signed; with fewer, `Incomplete(Needed::Size(4))`.
#[verifier::external_body]
fn nom_le_i32(input: &[u8]) -> (r: Result<i32, Needed>)
    ensures
        input@.len() >= 4 ==> r === Ok(spec_le_i32(input@, 0) as i32),
        input@.len() < 4 ==> r === Err(Needed::Size(4)),
{
    match nom::le_i32(input) {
        Ok((_, value)) => Ok(value),
        Err(nom::Err::Incomplete(nom::Needed::Size(n))) => Err(Needed::Size(n)),
        Err(_) => Err(Needed::Unknown),
    }
}

/// The input from the cursor on; nothing, where the cursor is behind the end.
fn rest<'a>(input: &'a [u8], pos: usize) -> (tail: &'a [u8])
    ensures
        pos <= input@.len() ==> tail@ == input@.subrange(pos as int, input@.len() as int),
        pos > input@.len() ==> tail@.len() == 0,
        input@.len() <= usize::MAX,
{
    let len = input.len();
    if pos <= len {
        slice_subrange(input, pos, len)
    } else {
        slice_subrange(input, len, len)
    }
}

/// Reads one byte.
pub fn be_u8(input: &[u8], pos: usize) -> (r: Result<(usize, u8), errors::Error>)
    ensures
        decoded(r, spec_read(input@, pos as int, 1)),
        r matches Ok((_, v)) ==> v == input@[pos as int],
{
    match nom_be_u8(rest(input, pos)) {
        Ok(value) => Ok((pos + 1, value)),
        Err(needed) => Err(errors::Error::from_needed(needed)),
    }
}

/// Reads one byte as a signed number.
pub fn be_i8(input: &[u8], pos: usize) -> (r: Result<(usize, i8), errors::Error>)
    ensures
        decoded(r, spec_read(input@, pos as int, 1)),
        r matches Ok((_, v)) ==> v == spec_i8(input@, pos as int),
{
    match nom_be_i8(rest(input, pos)) {
        Ok(value) => Ok((pos + 1, value)),
        Err(needed) => Err(errors::Error::from_needed(needed)),
    }
}

/// Reads two bytes as a little-endian number.
pub fn le_u16(input: &[u8], pos: usize) -> (r: Result<(usize, u16), errors::Error>)
    ensures
        decoded(r, spec_read(input@, pos as int, 2)),
        r matches Ok((_, v)) ==> v == spec_le_u16(input@, pos as int),
{
    match nom_le_u16(rest(input, pos)) {
        Ok(value) => Ok((pos + 2, value)),
        Err(needed) => Err(errors::Error::from_needed(needed)),
    }
}

/// Reads two bytes as a signed little-endian number.
pub fn le_i16(input: &[u8], pos: usize) -> (r: Result<(usize, i16), errors::Error>)
    ensures
        decoded(r, spec_read(input@, pos as int, 2)),
        r matches Ok((_, v)) ==> v == spec_le_i16(input@, pos as int),
{
    match nom_le_i16(rest(input, pos)) {
        Ok(value) => Ok((pos + 2, value)),
        Err(needed) => Err(errors::Error::from_needed(needed)),
    }
}

/// Reads four bytes as a little-endian number. A single-precision field is
/// read with this too: the number is then the field's bits.
pub fn le_u32(input: &[u8], pos: usize) -> (r: Result<(usize, u32), errors::Error>)
    ensures
        decoded(r, spec_read(input@, pos as int, 4)),
        r matches Ok((_, v)) ==> v == spec_le_u32(input@, pos as int),
{
    match nom_le_u32(rest(input, pos)) {
        Ok(value) => Ok((pos + 4, value)),
        Err(needed) => Err(errors::Error::from_needed(needed)),
    }
}

/// Reads four bytes as a signed little-endian number.
pub fn le_i32(input: &[u8], pos: usize) -> (r: Result<(usize, i32), errors::Error>)
    ensures
        decoded(r, spec_read(input@, pos as int, 4)),
        r matches Ok((_, v)) ==> v == spec_le_i32(input@, pos as int),
{
    match nom_le_i32(rest(input, pos)) {
        Ok(value) => Ok((pos + 4, value)),
        Err(needed) => Err(errors::Error::from_needed(needed)),
    }
}

/// Takes `count` bytes as they stand, borrowed from the input.
pub fn take<'a>(input: &'a [u8], pos: usize, count: usize) -> (r: Result<
    (usize, &'a [u8]),
    errors::Error,
>)
    ensures
        decoded(r, spec_read(input@, pos as int, count)),
        r matches Ok((end, v)) ==> v@ == input@.subrange(pos as int, end as int),
{
    let len = input.len();
    if pos <= len && count <= len - pos {
        Ok((pos + count, slice_subrange(input, pos, pos + count)))
    } else {
        Err(errors::Error::from_needed(Needed::Size(count)))
    }
}

/// Reads a vector of three single-precision fields.
pub fn xyz(input: &[u8], pos: usize) -> (r: Result<(usize, [u32; 3]), errors::Error>)
    ensures
        decoded(r, spec_fields(input@, pos as int, 12, 4)),
        r matches Ok((_, v)) ==> spec_xyz(v, input@, pos as int),
{
    let (pos, x) = le_u32(input, pos)?;
    let (pos, y) = le_u32(input, pos)?;
    let (pos, z) = le_u32(input, pos)?;
    Ok((pos, [x, y, z]))
}

/// Reads four signed numbers of four bytes each.
pub fn i32_4(input: &[u8], pos: usize) -> (r: Result<(usize, [i32; 4]), errors::Error>)
    ensures
        decoded(r, spec_fields(input@, pos as int, 16, 4)),
        r matches Ok((_, v)) ==> spec_i32_4(v, input@, pos as int),
{
    let (pos, a) = le_i32(input, pos)?;
    let (pos, b) = le_i32(input, pos)?;
    let (pos, c) = le_i32(input, pos)?;
    let (pos, d) = le_i32(input, pos)?;
    Ok((pos, [a, b, c, d]))
}

/// A signed length or offset as a `usize`; see `spec_as_usize`.
pub fn as_usize(value: i32) -> (n: usize)
    ensures
        n == spec_as_usize(value),
{
    if value >= 0 {
        value as usize
    } else {
        usize::MAX - ((-(value + 1)) as usize)
    }
}

/// Reads a length of four bytes and takes as many bytes as it says.
pub fn length_bytes<'a>(input: &'a [u8], pos: usize) -> (r: Result<
    (usize, &'a [u8]),
    errors::Error,
>)
    ensures
        decoded(r, spec_length_bytes(input@, pos as int)),
        r matches Ok((end, v)) ==> v@ == input@.subrange(pos + 4, end as int),
{
    let (pos, length) = le_i32(input, pos)?;
    take(input, pos, as_usize(length))
}

} // verus!
