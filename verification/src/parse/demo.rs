//! Decoders for a whole demo: the header, and the directory at the offset
//! that the header names.
use vstd::prelude::*;
use crate::errors;
use crate::errors::ErrorKind;
use crate::parse::directory::{
    lemma_entry_frames_error_is_layered, lemma_offset_directory_error_is_layered,
    offset_directory, offset_directory_with_frames, spec_offset_directory,
    spec_offset_directory_with_frames,
};
use crate::parse::header::{
    header, spec_header, spec_magic_differs, spec_magic_value, SUPPORTED_DEMO_PROTOCOL,
};
use crate::parse::{
    as_usize, invalid, spec_as_usize, spec_is_layered, spec_le_i32, within, Error,
};
use crate::types::Demo;

verus! {

/// The offset of the directory, as the header's last field names it.
pub open spec fn spec_directory_offset(bytes: Seq<u8>) -> usize {
    spec_as_usize(spec_le_i32(bytes, 540) as i32)
}

/// The outcome of `demo_without_frames`: the error of the header, else that
/// of the directory, else none.
pub open spec fn spec_demo_without_frames(bytes: Seq<u8>) -> Result<(), errors::Error> {
    match spec_header(bytes) {
        Err(e) => Err(e),
        Ok(_) => match spec_offset_directory(bytes, spec_directory_offset(bytes)) {
            Err(e) => Err(e),
            Ok(_) => Ok(()),
        },
    }
}

/// The outcome of `demo`: the error of the header, else that of the
/// directory, else that of the first stream of frames that has one, else
/// none.
pub open spec fn spec_demo(bytes: Seq<u8>) -> Result<(), errors::Error> {
    match spec_header(bytes) {
        Err(e) => Err(e),
        Ok(_) => match spec_offset_directory_with_frames(bytes, spec_directory_offset(bytes)) {
            Err(e) => Err(e),
            Ok(_) => Ok(()),
        },
    }
}

impl Demo<'_> {
    /// The bytes hold this demo's header, and at the offset that the header
    /// names, its directory. Of the frames it says nothing.
    pub open spec fn encoded_in(self, bytes: Seq<u8>) -> bool {
        &&& self.header.encoded_in(bytes)
        &&& self.directory.encoded_at(bytes, spec_directory_offset(bytes) as int)
    }
}

/// Parses a demo: the header, the directory, and every entry's frames.
pub fn demo<'a>(input: &'a [u8]) -> (r: Result<Demo<'a>, errors::Error>)
    ensures
        match r {
            Ok(v) => {
                &&& spec_demo(input@) is Ok
                &&& v.encoded_in(input@)
                &&& v.directory.spec_with_frames(input@)
            },
            Err(e) => spec_demo(input@) === Err(e),
        },
{
    let (_, header) = header(input)?;
    let directory = offset_directory_with_frames(input, as_usize(header.directory_offset))?;
    Ok(Demo { header, directory })
}

/// Parses a demo's header and directory, without parsing frame data: every
/// entry is left without frames.
pub fn demo_without_frames<'a>(input: &'a [u8]) -> (r: Result<Demo<'a>, errors::Error>)
    ensures
        match r {
            Ok(v) => {
                &&& spec_demo_without_frames(input@) is Ok
                &&& v.encoded_in(input@)
                &&& v.directory.spec_without_frames()
            },
            Err(e) => spec_demo_without_frames(input@) === Err(e),
        },
{
    let (_, header) = header(input)?;
    let directory = offset_directory(input, as_usize(header.directory_offset))?;
    Ok(Demo { header, directory })
}

/// Decoding without frames and decoding with them agree: where the whole
/// demo can be decoded, so can the header and the directory alone; and two
/// demos decoded from the same bytes, one with frames and one without, have
/// the same header and, entry by entry, the same fields but for the frames,
/// of which the one without has none.
pub proof fn lemma_without_frames_agrees(bytes: Seq<u8>, full: Demo, bare: Demo)
    requires
        full.encoded_in(bytes),
        bare.encoded_in(bytes),
        bare.directory.spec_without_frames(),
    ensures
        spec_demo(bytes) is Ok ==> spec_demo_without_frames(bytes) is Ok,
        spec_demo_without_frames(bytes) is Err ==> spec_demo(bytes) == spec_demo_without_frames(
            bytes,
        ),
        full.header == bare.header,
        full.directory.entries@.len() == bare.directory.entries@.len(),
        forall|i: int|
            0 <= i < full.directory.entries@.len() ==> {
                let with = #[trigger] full.directory.entries@[i];
                let without = bare.directory.entries@[i];
                &&& with.entry_type == without.entry_type
                &&& with.description == without.description
                &&& with.flags == without.flags
                &&& with.cd_track == without.cd_track
                &&& with.track_time == without.track_time
                &&& with.frame_count == without.frame_count
                &&& with.offset == without.offset
                &&& with.file_length == without.file_length
                &&& without.frames@.len() == 0
            },
{
    assert(full.header.map_name =~= bare.header.map_name);
    assert(full.header.game_dir =~= bare.header.game_dir);
    assert forall|i: int| 0 <= i < full.directory.entries@.len() implies {
        let with = #[trigger] full.directory.entries@[i];
        let without = bare.directory.entries@[i];
        &&& with.entry_type == without.entry_type
        &&& with.description == without.description
        &&& with.flags == without.flags
        &&& with.cd_track == without.cd_track
        &&& with.track_time == without.track_time
        &&& with.frame_count == without.frame_count
        &&& with.offset == without.offset
        &&& with.file_length == without.file_length
        &&& without.frames@.len() == 0
    } by {
        let at = spec_directory_offset(bytes) as int;
        assert(full.directory.entries@[i].encoded_at(bytes, at + 4 + 92 * i));
        assert(bare.directory.entries@[i].encoded_at(bytes, at + 4 + 92 * i));
        assert(full.directory.entries@[i].description =~= bare.directory.entries@[i].description);
    }
}

/// A buffer of six bytes or more whose first six are not the magic value
/// is rejected, with or without frames, as an invalid magic value met in
/// the header, whatever the bytes behind them are.
pub proof fn lemma_wrong_magic_is_rejected(bytes: Seq<u8>)
    requires
        bytes.len() >= 6,
        bytes.subrange(0, 6) != spec_magic_value(),
    ensures
        spec_demo(bytes) === Err(within(Error::Header, invalid(Error::InvalidMagic))),
        spec_demo_without_frames(bytes) == spec_demo(bytes),
{
    if !spec_magic_differs(bytes) {
        assert(bytes.subrange(0, 6) =~= spec_magic_value()) by {
            assert forall|i: int| 0 <= i < 6 implies bytes.subrange(0, 6)[i]
                == spec_magic_value()[i] by {
                if bytes[i] != spec_magic_value()[i] {
                    assert(spec_magic_differs(bytes));
                }
            }
        }
    }
}

/// A buffer with the magic value and a demo protocol other than the
/// supported one is rejected, with or without frames, as an invalid demo
/// protocol met in the header; the error holds the protocol that was read.
pub proof fn lemma_other_protocol_is_rejected(bytes: Seq<u8>)
    requires
        bytes.len() >= 12,
        bytes.subrange(0, 6) == spec_magic_value(),
        spec_le_i32(bytes, 8) != SUPPORTED_DEMO_PROTOCOL,
    ensures
        spec_demo(bytes) === Err(
            within(
                Error::Header,
                invalid(Error::InvalidDemoProtocol(spec_le_i32(bytes, 8) as i32)),
            ),
        ),
        spec_demo_without_frames(bytes) == spec_demo(bytes),
{
    assert(!spec_magic_differs(bytes)) by {
        assert forall|i: int| 0 <= i < 6 && i < bytes.len() implies bytes[i]
            == #[trigger] spec_magic_value()[i] by {
            assert(bytes.subrange(0, 6)[i] == bytes[i]);
        }
    }
}

/// Every error of decoding a demo has two layers: the outer names the part
/// of the demo that could not be decoded, the inner gives the reason.
/// Without frames the part is the header or the directory; with frames, a
/// demo whose header and directory can be decoded fails in the frames.
pub proof fn lemma_errors_are_layered(bytes: Seq<u8>)
    ensures
        spec_demo_without_frames(bytes) matches Err(e) ==> {
            &&& spec_is_layered(e)
            &&& e.kind == ErrorKind::ParseError(Error::Header) || e.kind == ErrorKind::ParseError(
                Error::Directory,
            )
            &&& e.kind == ErrorKind::ParseError(Error::Header) <==> spec_header(bytes) is Err
        },
        spec_demo(bytes) matches Err(e) ==> {
            &&& spec_is_layered(e)
            &&& e.kind == ErrorKind::ParseError(Error::Frames) <==> spec_demo_without_frames(
                bytes,
            ) is Ok
        },
{
    let offset = spec_directory_offset(bytes);
    lemma_offset_directory_error_is_layered(bytes, offset);
    let count = spec_le_i32(bytes, offset as int);
    if count >= 0 {
        lemma_entry_frames_error_is_layered(bytes, offset + 4, count as nat);
    }
}

} // verus!
