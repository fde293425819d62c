//! Decoders for frames and for the streams they stand in.
//!
//! A frame is a header of nine bytes (a type, a time, a frame number) and
//! the data that its type calls for. A stream of frames ends with the first
//! frame of the next-section type, which belongs to the stream.
use vstd::prelude::*;
use crate::errors;
use crate::errors::ErrorKind;
use crate::parse::{
    be_u8, decoded, invalid, le_i32, le_u32, need, spec_fields, spec_is_layered, spec_is_reason,
    spec_le_i32, spec_le_u32, within, Error, Needed,
};
use crate::types::{Frame, FrameData};
use self::client_data::{client_data_data, spec_client_data};
use self::console_command::{console_command_data, spec_console_command};
use self::demo_buffer::{demo_buffer_data, spec_demo_buffer};
use self::event::{event_data, spec_event};
use self::netmsg::{net_msg_data, net_msg_start_data, spec_net_msg_data};
use self::sound::{sound_data, spec_sound};
use self::weapon_anim::{spec_weapon_anim, weapon_anim_data};

pub mod client_data;
pub mod console_command;
pub mod demo_buffer;
pub mod event;
pub mod netmsg;
pub mod sound;
pub mod weapon_anim;

verus! {

pub const MAX_FRAME_TYPE: u8 = 9;

/// The type byte of the frame that ends a stream.
pub const NEXT_SECTION: u8 = 5;

/// The possible frame types. `NetMsg` holds the raw type: 0 for the network
/// message that opens a recording, 1 for an ordinary one.
#[derive(Debug, Clone, Copy, PartialEq, Eq)]
pub enum FrameType {
    NetMsg(u8),
    DemoStart,
    ConsoleCommand,
    ClientData,
    NextSection,
    Event,
    WeaponAnim,
    Sound,
    DemoBuffer,
}

/// A demo frame header.
///
/// Every frame starts with a header, followed by frame data depending on the
/// frame type. The time is held as single-precision bits.
pub struct FrameHeader {
    pub frame_type: FrameType,
    pub time: u32,
    pub frame: i32,
}

/// The frame type that the type byte `raw` stands for, where it is at most
/// `MAX_FRAME_TYPE`.
pub open spec fn spec_frame_type(raw: u8) -> FrameType {
    if raw == 2 {
        FrameType::DemoStart
    } else if raw == 3 {
        FrameType::ConsoleCommand
    } else if raw == 4 {
        FrameType::ClientData
    } else if raw == 5 {
        FrameType::NextSection
    } else if raw == 6 {
        FrameType::Event
    } else if raw == 7 {
        FrameType::WeaponAnim
    } else if raw == 8 {
        FrameType::Sound
    } else if raw == 9 {
        FrameType::DemoBuffer
    } else {
        FrameType::NetMsg(raw)
    }
}

impl FrameHeader {
    /// The nine bytes at `at` hold this header.
    pub open spec fn encoded_at(self, bytes: Seq<u8>, at: int) -> bool {
        &&& self.frame_type == spec_frame_type(bytes[at])
        &&& self.time == spec_le_u32(bytes, at + 1)
        &&& self.frame == spec_le_i32(bytes, at + 5)
    }
}

impl FrameData<'_> {
    /// The bytes at `at` hold this data, for a frame of the type `frame_type`.
    pub open spec fn encoded_at(self, bytes: Seq<u8>, at: int, frame_type: FrameType) -> bool {
        match frame_type {
            FrameType::NetMsg(raw) => if raw == 0 {
                self matches FrameData::NetMsgStart(data) && data.encoded_at(bytes, at)
            } else {
                self matches FrameData::NetMsg(data) && data.encoded_at(bytes, at)
            },
            FrameType::DemoStart => self is DemoStart,
            FrameType::ConsoleCommand => self matches FrameData::ConsoleCommand(data)
                && data.encoded_at(bytes, at),
            FrameType::ClientData => self matches FrameData::ClientData(data) && data.encoded_at(
                bytes,
                at,
            ),
            FrameType::NextSection => self is NextSection,
            FrameType::Event => self matches FrameData::Event(data) && data.encoded_at(bytes, at),
            FrameType::WeaponAnim => self matches FrameData::WeaponAnim(data) && data.encoded_at(
                bytes,
                at,
            ),
            FrameType::Sound => self matches FrameData::Sound(data) && data.encoded_at(bytes, at),
            FrameType::DemoBuffer => self matches FrameData::DemoBuffer(data) && data.encoded_at(
                bytes,
                at,
            ),
        }
    }
}

impl Frame<'_> {
    /// The bytes at `at` hold this frame: its header, and behind the header
    /// the data of the header's type.
    #[verifier::opaque]
    pub open spec fn encoded_at(self, bytes: Seq<u8>, at: int) -> bool {
        &&& self.time == spec_le_u32(bytes, at + 1)
        &&& self.frame == spec_le_i32(bytes, at + 5)
        &&& self.data.encoded_at(bytes, at + 9, spec_frame_type(bytes[at]))
    }
}

/// The outcome of `frame_header`. A type above `MAX_FRAME_TYPE` is rejected
/// as soon as it is read.
pub open spec fn spec_frame_header(bytes: Seq<u8>, at: int) -> Result<int, errors::Error> {
    if at + 1 > bytes.len() {
        Err(need(1))
    } else if bytes[at] > MAX_FRAME_TYPE {
        Err(invalid(Error::InvalidFrameType(bytes[at])))
    } else {
        spec_fields(bytes, at + 1, 8, 4)
    }
}

/// The outcome of `frame_data`. The two marker types have no data.
pub open spec fn spec_frame_data(bytes: Seq<u8>, at: int, frame_type: FrameType) -> Result<
    int,
    errors::Error,
> {
    match frame_type {
        FrameType::NetMsg(_) => spec_net_msg_data(bytes, at),
        FrameType::DemoStart => Ok(at),
        FrameType::ConsoleCommand => spec_console_command(bytes, at),
        FrameType::ClientData => spec_client_data(bytes, at),
        FrameType::NextSection => Ok(at),
        FrameType::Event => spec_event(bytes, at),
        FrameType::WeaponAnim => spec_weapon_anim(bytes, at),
        FrameType::Sound => spec_sound(bytes, at),
        FrameType::DemoBuffer => spec_demo_buffer(bytes, at),
    }
}

/// The outcome of `frame`: the header, then the data of the header's type.
pub open spec fn spec_frame(bytes: Seq<u8>, at: int) -> Result<int, errors::Error> {
    match spec_frame_header(bytes, at) {
        Err(e) => Err(e),
        Ok(a) => spec_frame_data(bytes, a, spec_frame_type(bytes[at])),
    }
}

/// The frames `starts`, with those that `more` names behind them, or the
/// error of `more`.
pub open spec fn spec_behind(starts: Seq<int>, more: Result<Seq<int>, errors::Error>) -> Result<
    Seq<int>,
    errors::Error,
> {
    match more {
        Ok(rest) => Ok(starts + rest),
        Err(e) => Err(e),
    }
}

/// Where each frame of the stream at `at` starts, up to and with the first
/// frame of the next-section type; or the error of the first frame that
/// cannot be decoded. A stream that runs to the end of the input without a
/// next-section frame ends in the error of a read that fell short.
pub open spec fn spec_frames(bytes: Seq<u8>, at: int) -> Result<Seq<int>, errors::Error>
    decreases bytes.len() - at,
{
    match spec_frame(bytes, at) {
        Err(e) => Err(e),
        Ok(end) => if bytes[at] == NEXT_SECTION {
            Ok(seq![at])
        } else {
            spec_behind(seq![at], spec_frames(bytes, end))
        },
    }
}

/// The frames `frames` are those of the stream at `at`, in the file's order.
pub open spec fn spec_frames_encoded(frames: Seq<Frame>, bytes: Seq<u8>, at: int) -> bool {
    &&& spec_frames(bytes, at) matches Ok(starts)
    &&& frames.len() == starts.len()
    &&& forall|i: int| 0 <= i < frames.len() ==> (#[trigger] frames[i]).encoded_at(bytes, starts[i])
}

/// The last of `frames` is a next-section frame, and it is the only one.
pub open spec fn spec_ends_with_next_section(frames: Seq<Frame>) -> bool {
    &&& frames.len() >= 1
    &&& frames.last().data is NextSection
    &&& forall|i: int| 0 <= i < frames.len() - 1 ==> !((#[trigger] frames[i]).data is NextSection)
}

/// The outcome of `offset_frames`: the stream at `offset`, every error
/// marked as met in the frames.
pub open spec fn spec_offset_frames(bytes: Seq<u8>, offset: usize) -> Result<
    Seq<int>,
    errors::Error,
> {
    if offset > bytes.len() {
        Err(within(Error::Frames, need(offset)))
    } else {
        match spec_frames(bytes, offset as int) {
            Ok(starts) => Ok(starts),
            Err(e) => Err(within(Error::Frames, e)),
        }
    }
}

/// Tells a type byte's frame type, and rejects a byte above `MAX_FRAME_TYPE`.
pub fn parse_frame_type(frame_type: u8) -> (r: Result<FrameType, Error>)
    ensures
        frame_type <= MAX_FRAME_TYPE ==> r === Ok(spec_frame_type(frame_type)),
        frame_type > MAX_FRAME_TYPE ==> r === Err(Error::InvalidFrameType(frame_type)),
{
    if frame_type > MAX_FRAME_TYPE {
        Err(Error::InvalidFrameType(frame_type))
    } else {
        let frame_type = match frame_type {
            2 => FrameType::DemoStart,
            3 => FrameType::ConsoleCommand,
            4 => FrameType::ClientData,
            5 => FrameType::NextSection,
            6 => FrameType::Event,
            7 => FrameType::WeaponAnim,
            8 => FrameType::Sound,
            9 => FrameType::DemoBuffer,
            x => FrameType::NetMsg(x),
        };
        Ok(frame_type)
    }
}

pub fn frame_header(input: &[u8], pos: usize) -> (r: Result<(usize, FrameHeader), errors::Error>)
    ensures
        decoded(r, spec_frame_header(input@, pos as int)),
        r matches Ok((_, v)) ==> v.encoded_at(input@, pos as int),
{
    let (pos, raw) = be_u8(input, pos)?;
    let frame_type = match parse_frame_type(raw) {
        Ok(frame_type) => frame_type,
        Err(code) => {
            return Err(errors::Error::from(code));
        },
    };
    let (pos, time) = le_u32(input, pos)?;
    let (pos, frame) = le_i32(input, pos)?;
    Ok((pos, FrameHeader { frame_type, time, frame }))
}

/// The frame at the cursor, if it is a next-section frame; `None` if it is
/// of another type or its header cannot be decoded.
pub fn frame_next_section<'a>(input: &'a [u8], pos: usize) -> (r: Option<(usize, Frame<'a>)>)
    ensures
        r is Some <==> spec_frame_header(input@, pos as int) is Ok && input@[pos as int]
            == NEXT_SECTION,
        r matches Some((end, v)) ==> end == pos + 9 && v.encoded_at(input@, pos as int)
            && v.data is NextSection,
{
    reveal(Frame::encoded_at);
    match frame_header(input, pos) {
        Ok((end, header)) => match header.frame_type {
            FrameType::NextSection => Some(
                (end, Frame { time: header.time, frame: header.frame, data: FrameData::NextSection }),
            ),
            _ => None,
        },
        Err(_) => None,
    }
}

/// Decodes the data of a frame of the type `frame_type`. In `NetMsg`, a raw
/// type other than 0 gives a network message of the ordinary kind.
pub fn frame_data<'a>(input: &'a [u8], pos: usize, frame_type: FrameType) -> (r: Result<
    (usize, FrameData<'a>),
    errors::Error,
>)
    ensures
        decoded(r, spec_frame_data(input@, pos as int, frame_type)),
        r matches Ok((_, v)) ==> v.encoded_at(input@, pos as int, frame_type),
{
    match frame_type {
        FrameType::NetMsg(raw) => if raw == 0 {
            net_msg_start_data(input, pos)
        } else {
            net_msg_data(input, pos)
        },
        FrameType::DemoStart => Ok((pos, FrameData::DemoStart)),
        FrameType::ConsoleCommand => console_command_data(input, pos),
        FrameType::ClientData => client_data_data(input, pos),
        FrameType::NextSection => Ok((pos, FrameData::NextSection)),
        FrameType::Event => event_data(input, pos),
        FrameType::WeaponAnim => weapon_anim_data(input, pos),
        FrameType::Sound => sound_data(input, pos),
        FrameType::DemoBuffer => demo_buffer_data(input, pos),
    }
}

pub fn frame<'a>(input: &'a [u8], pos: usize) -> (r: Result<(usize, Frame<'a>), errors::Error>)
    ensures
        decoded(r, spec_frame(input@, pos as int)),
        r matches Ok((_, v)) ==> v.encoded_at(input@, pos as int),
        r matches Ok((end, v)) ==> pos + 9 <= end <= input@.len() && (v.data is NextSection
            <==> input@[pos as int] == NEXT_SECTION),
{
    reveal(Frame::encoded_at);
    let (end, header) = frame_header(input, pos)?;
    let (end, data) = frame_data(input, end, header.frame_type)?;
    Ok((end, Frame { time: header.time, frame: header.frame, data }))
}

/// Decodes frames from the cursor on until a next-section frame has been
/// decoded, and gives them in the file's order, that frame last. An error
/// is marked as met in the frames.
pub fn frames<'a>(input: &'a [u8], pos: usize) -> (r: Result<
    (usize, Vec<Frame<'a>>),
    errors::Error,
>)
    ensures
        match r {
            Ok((end, v)) => {
                &&& spec_frames_encoded(v@, input@, pos as int)
                &&& spec_ends_with_next_section(v@)
                &&& spec_frames(input@, pos as int) matches Ok(starts) && end == starts.last() + 9
            },
            Err(e) => spec_frames(input@, pos as int) matches Err(inner) && e == within(
                Error::Frames,
                inner,
            ),
        },
{
    let ghost mut starts: Seq<int> = Seq::empty();
    let mut frames: Vec<Frame<'a>> = Vec::new();
    let mut cursor = pos;
    loop
        invariant
            frames@.len() == starts.len(),
            forall|i: int|
                0 <= i < frames@.len() ==> (#[trigger] frames@[i]).encoded_at(input@, starts[i]),
            forall|i: int| 0 <= i < frames@.len() ==> !((#[trigger] frames@[i]).data is NextSection),
            spec_frames(input@, pos as int) == spec_behind(
                starts,
                spec_frames(input@, cursor as int),
            ),
        decreases input@.len() - cursor,
    {
        match frame_next_section(input, cursor) {
            Some((end, last)) => {
                frames.push(last);
                proof {
                    assert(starts + seq![cursor as int] == starts.push(cursor as int));
                    starts = starts.push(cursor as int);
                }
                return Ok((end, frames));
            },
            None => {},
        }
        match frame(input, cursor) {
            Err(e) => {
                return Err(errors::Error::with_chain(e, ErrorKind::ParseError(Error::Frames)));
            },
            Ok((end, next)) => {
                frames.push(next);
                proof {
                    if let Ok(more) = spec_frames(input@, end as int) {
                        assert(starts + (seq![cursor as int] + more) == starts.push(cursor as int)
                            + more);
                    }
                    starts = starts.push(cursor as int);
                }
                cursor = end;
            },
        }
    }
}

/// Decodes the stream of frames that starts `offset` bytes into the input.
pub fn offset_frames<'a>(input: &'a [u8], offset: usize) -> (r: Result<
    Vec<Frame<'a>>,
    errors::Error,
>)
    ensures
        match r {
            Ok(v) => {
                &&& spec_offset_frames(input@, offset) is Ok
                &&& spec_frames_encoded(v@, input@, offset as int)
                &&& spec_ends_with_next_section(v@)
            },
            Err(e) => spec_offset_frames(input@, offset) === Err(e),
        },
{
    if input.len() < offset {
        return Err(
            errors::Error::with_chain(
                errors::Error::from_needed(Needed::Size(offset)),
                ErrorKind::ParseError(Error::Frames),
            ),
        );
    }
    match frames(input, offset) {
        Ok((_, frames)) => Ok(frames),
        Err(e) => Err(e),
    }
}

/// A stream whose first frame has a type above `MAX_FRAME_TYPE` is
/// rejected as an invalid frame type met in the frames, not in the header or
/// the directory; the error holds the type that was read.
pub proof fn lemma_invalid_frame_type_is_rejected(bytes: Seq<u8>, offset: usize)
    requires
        offset < bytes.len(),
        bytes[offset as int] > MAX_FRAME_TYPE,
    ensures
        spec_offset_frames(bytes, offset) === Err(
            within(Error::Frames, invalid(Error::InvalidFrameType(bytes[offset as int]))),
        ),
{
}

/// The frames of a stream end with the stream's only next-section frame:
/// the last start that `spec_frames` names is that of a frame of the
/// next-section type, and no start before it is.
pub proof fn lemma_frames_end_with_next_section(bytes: Seq<u8>, at: int)
    requires
        spec_frames(bytes, at) is Ok,
    ensures
        ({
            let starts = spec_frames(bytes, at)->Ok_0;
            &&& starts.len() >= 1
            &&& starts[0] == at
            &&& bytes[starts.last()] == NEXT_SECTION
            &&& forall|i: int| 0 <= i < starts.len() - 1 ==> bytes[#[trigger] starts[i]] != NEXT_SECTION
        }),
    decreases bytes.len() - at,
{
    if bytes[at] != NEXT_SECTION {
        let end = spec_frame(bytes, at)->Ok_0;
        lemma_frames_end_with_next_section(bytes, end);
        let rest = spec_frames(bytes, end)->Ok_0;
        let starts = spec_frames(bytes, at)->Ok_0;
        assert(starts == seq![at] + rest);
        assert forall|i: int| 0 <= i < starts.len() - 1 implies bytes[#[trigger] starts[i]]
            != NEXT_SECTION by {
            if i > 0 {
                assert(starts[i] == rest[i - 1]);
            }
        }
        assert(starts.last() == rest.last());
    }
}

/// An error of a stream of frames, before it is marked as met in the
/// frames, has one layer, which gives the reason.
pub proof fn lemma_frames_error_is_reason(bytes: Seq<u8>, at: int)
    ensures
        spec_frames(bytes, at) matches Err(e) ==> spec_is_reason(e),
    decreases bytes.len() - at,
{
    if let Ok(end) = spec_frame(bytes, at) {
        if bytes[at] != NEXT_SECTION {
            lemma_frames_error_is_reason(bytes, end);
        }
    }
}

/// Every error of `offset_frames` has two layers, the outer of which names
/// the frames.
pub proof fn lemma_offset_frames_error_is_layered(bytes: Seq<u8>, offset: usize)
    ensures
        spec_offset_frames(bytes, offset) matches Err(e) ==> spec_is_layered(e) && e.kind
            == ErrorKind::ParseError(Error::Frames),
{
    lemma_frames_error_is_reason(bytes, offset as int);
}

} // verus!
