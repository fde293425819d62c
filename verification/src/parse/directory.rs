//! Demo directory decoders.
//!
//! The directory is a count and as many entries of 92 bytes. Each entry
//! names the offset of its own stream of frames.
use vstd::prelude::*;
use crate::errors;
use crate::errors::ErrorKind;
use crate::parse::frame::{
    lemma_offset_frames_error_is_layered, offset_frames, spec_ends_with_next_section,
    spec_frames_encoded, spec_offset_frames,
};
use crate::parse::{
    as_usize, decoded, invalid, le_i32, le_u32, need, spec_as_usize, spec_is_layered,
    spec_is_reason, spec_le_i32, spec_le_u32, spec_region, take, within, Error, Needed,
};
use crate::types::{Directory, DirectoryEntry, Frame};

verus! {

pub const MIN_ENTRY_COUNT: i32 = 1;

pub const MAX_ENTRY_COUNT: i32 = 1024;

impl DirectoryEntry<'_> {
    /// The record of 92 bytes at `at` holds these fields. Of the frames it
    /// says nothing.
    pub open spec fn encoded_at(self, bytes: Seq<u8>, at: int) -> bool {
        &&& self.entry_type == spec_le_i32(bytes, at)
        &&& self.description@ == bytes.subrange(at + 4, at + 68)
        &&& self.flags == spec_le_i32(bytes, at + 68)
        &&& self.cd_track == spec_le_i32(bytes, at + 72)
        &&& self.track_time == spec_le_u32(bytes, at + 76)
        &&& self.frame_count == spec_le_i32(bytes, at + 80)
        &&& self.offset == spec_le_i32(bytes, at + 84)
        &&& self.file_length == spec_le_i32(bytes, at + 88)
    }

    /// The offset of the entry's stream of frames.
    pub open spec fn spec_frames_offset(self) -> usize {
        spec_as_usize(self.offset)
    }
}

/// The outcome of `entry`. The description, 64 bytes, stands at 4; every
/// other field has four bytes.
pub open spec fn spec_entry(bytes: Seq<u8>, at: int) -> Result<int, errors::Error> {
    let left = bytes.len() - at;
    if left < 4 {
        Err(need(4))
    } else if left < 68 {
        Err(need(64))
    } else if left < 92 {
        Err(need(4))
    } else {
        Ok(at + 92)
    }
}

/// The outcome of `count` entries, one behind the other from `at`.
pub open spec fn spec_entries(bytes: Seq<u8>, at: int, count: nat) -> Result<int, errors::Error>
    decreases count,
{
    if count == 0 {
        Ok(at)
    } else {
        match spec_entry(bytes, at) {
            Err(e) => Err(e),
            Ok(end) => spec_entries(bytes, end, (count - 1) as nat),
        }
    }
}

/// The outcome of the directory's fields: the count, which must lie
/// between `MIN_ENTRY_COUNT` and `MAX_ENTRY_COUNT`, and the entries.
pub open spec fn spec_directory_fields(bytes: Seq<u8>, at: int) -> Result<int, errors::Error> {
    let count = spec_le_i32(bytes, at);
    if at + 4 > bytes.len() {
        Err(need(4))
    } else if count < MIN_ENTRY_COUNT || count > MAX_ENTRY_COUNT {
        Err(invalid(Error::InvalidDirectoryEntryCount(count as i32)))
    } else {
        spec_entries(bytes, at + 4, count as nat)
    }
}

/// The outcome of `directory`: every error is marked as met in the directory.
pub open spec fn spec_directory(bytes: Seq<u8>, at: int) -> Result<int, errors::Error> {
    spec_region(Error::Directory, spec_directory_fields(bytes, at))
}

/// The outcome of `offset_directory`: the directory at `offset`.
pub open spec fn spec_offset_directory(bytes: Seq<u8>, offset: usize) -> Result<
    int,
    errors::Error,
> {
    if offset > bytes.len() {
        Err(within(Error::Directory, need(offset)))
    } else {
        spec_directory(bytes, offset as int)
    }
}

/// The first error among the streams of frames of `count` entries, the
/// first of which stands at `at`; `None` where every stream can be decoded.
pub open spec fn spec_entry_frames(bytes: Seq<u8>, at: int, count: nat) -> Option<errors::Error>
    decreases count,
{
    if count == 0 {
        None
    } else {
        match spec_offset_frames(bytes, spec_as_usize(spec_le_i32(bytes, at + 84) as i32)) {
            Err(e) => Some(e),
            Ok(_) => spec_entry_frames(bytes, at + 92, (count - 1) as nat),
        }
    }
}

/// The outcome of `offset_directory_with_frames`: the directory is decoded
/// whole before the first stream of frames is.
pub open spec fn spec_offset_directory_with_frames(bytes: Seq<u8>, offset: usize) -> Result<
    int,
    errors::Error,
> {
    match spec_offset_directory(bytes, offset) {
        Err(e) => Err(e),
        Ok(end) => match spec_entry_frames(
            bytes,
            offset + 4,
            spec_le_i32(bytes, offset as int) as nat,
        ) {
            Some(e) => Err(e),
            None => Ok(end),
        },
    }
}

impl Directory<'_> {
    /// The bytes at `at` hold this directory: the count of its entries, and
    /// the entries in the file's order. Of the frames it says nothing.
    pub open spec fn encoded_at(self, bytes: Seq<u8>, at: int) -> bool {
        &&& self.entries@.len() == spec_le_i32(bytes, at)
        &&& forall|i: int|
            0 <= i < self.entries@.len() ==> (#[trigger] self.entries@[i]).encoded_at(
                bytes,
                at + 4 + 92 * i,
            )
    }

    /// No entry has frames.
    pub open spec fn spec_without_frames(self) -> bool {
        forall|i: int|
            0 <= i < self.entries@.len() ==> (#[trigger] self.entries@[i]).frames@.len() == 0
    }

    /// Each entry has the frames of the stream at its offset, which end with
    /// the stream's one next-section frame.
    pub open spec fn spec_with_frames(self, bytes: Seq<u8>) -> bool {
        forall|i: int|
            0 <= i < self.entries@.len() ==> {
                let entry = #[trigger] self.entries@[i];
                &&& spec_frames_encoded(entry.frames@, bytes, entry.spec_frames_offset() as int)
                &&& spec_ends_with_next_section(entry.frames@)
            }
    }
}

pub fn entry<'a>(input: &'a [u8], pos: usize) -> (r: Result<
    (usize, DirectoryEntry<'a>),
    errors::Error,
>)
    ensures
        decoded(r, spec_entry(input@, pos as int)),
        r matches Ok((_, v)) ==> v.encoded_at(input@, pos as int) && v.frames@.len() == 0,
{
    let (pos, entry_type) = le_i32(input, pos)?;
    let (pos, description) = take(input, pos, 64)?;
    let (pos, flags) = le_i32(input, pos)?;
    let (pos, cd_track) = le_i32(input, pos)?;
    let (pos, track_time) = le_u32(input, pos)?;
    let (pos, frame_count) = le_i32(input, pos)?;
    let (pos, offset) = le_i32(input, pos)?;
    let (pos, file_length) = le_i32(input, pos)?;
    Ok(
        (
            pos,
            DirectoryEntry {
                entry_type,
                description,
                flags,
                cd_track,
                track_time,
                frame_count,
                offset,
                file_length,
                frames: Vec::new(),
            },
        ),
    )
}

/// Accepts a count of entries from `MIN_ENTRY_COUNT` to `MAX_ENTRY_COUNT`.
pub fn check_count(count: i32) -> (r: Result<usize, Error>)
    ensures
        MIN_ENTRY_COUNT <= count <= MAX_ENTRY_COUNT ==> r === Ok(count as usize),
        !(MIN_ENTRY_COUNT <= count <= MAX_ENTRY_COUNT) ==> r === Err(
            Error::InvalidDirectoryEntryCount(count),
        ),
{
    if count < MIN_ENTRY_COUNT || count > MAX_ENTRY_COUNT {
        Err(Error::InvalidDirectoryEntryCount(count))
    } else {
        Ok(count as usize)
    }
}

fn directory_fields<'a>(input: &'a [u8], pos: usize) -> (r: Result<
    (usize, Directory<'a>),
    errors::Error,
>)
    ensures
        decoded(r, spec_directory_fields(input@, pos as int)),
        r matches Ok((_, v)) ==> v.encoded_at(input@, pos as int) && v.spec_without_frames(),
{
    let (first, length) = le_i32(input, pos)?;
    let length = match check_count(length) {
        Ok(length) => length,
        Err(code) => {
            return Err(errors::Error::from(code));
        },
    };
    let mut entries: Vec<DirectoryEntry<'a>> = Vec::new();
    let mut cursor = first;
    while entries.len() < length
        invariant
            entries@.len() <= length,
            first == pos + 4,
            first <= input@.len(),
            length == spec_le_i32(input@, pos as int),
            MIN_ENTRY_COUNT <= length <= MAX_ENTRY_COUNT,
            cursor == first + 92 * entries@.len(),
            spec_entries(input@, first as int, length as nat) == spec_entries(
                input@,
                cursor as int,
                (length - entries@.len()) as nat,
            ),
            forall|i: int|
                0 <= i < entries@.len() ==> (#[trigger] entries@[i]).encoded_at(
                    input@,
                    first + 92 * i,
                ) && entries@[i].frames@.len() == 0,
        decreases length - entries@.len(),
    {
        let (end, next) = entry(input, cursor)?;
        entries.push(next);
        cursor = end;
    }
    Ok((cursor, Directory { entries }))
}

/// Decodes the directory at the cursor, its entries without frames. An
/// error is marked as met in the directory.
pub fn directory<'a>(input: &'a [u8], pos: usize) -> (r: Result<
    (usize, Directory<'a>),
    errors::Error,
>)
    ensures
        decoded(r, spec_directory(input@, pos as int)),
        r matches Ok((_, v)) ==> v.encoded_at(input@, pos as int) && v.spec_without_frames(),
{
    match directory_fields(input, pos) {
        Ok(found) => Ok(found),
        Err(e) => Err(errors::Error::with_chain(e, ErrorKind::ParseError(Error::Directory))),
    }
}

/// Decodes the directory that starts `offset` bytes into the input, its
/// entries without frames.
pub fn offset_directory<'a>(input: &'a [u8], offset: usize) -> (r: Result<
    Directory<'a>,
    errors::Error,
>)
    ensures
        match r {
            Ok(v) => {
                &&& spec_offset_directory(input@, offset) is Ok
                &&& v.encoded_at(input@, offset as int)
                &&& v.spec_without_frames()
            },
            Err(e) => spec_offset_directory(input@, offset) === Err(e),
        },
{
    if input.len() < offset {
        return Err(
            errors::Error::with_chain(
                errors::Error::from_needed(Needed::Size(offset)),
                ErrorKind::ParseError(Error::Directory),
            ),
        );
    }
    match directory(input, offset) {
        Ok((_, directory)) => Ok(directory),
        Err(e) => Err(e),
    }
}

/// The entry `entry` with `frames` for its frames.
fn with_frames<'a>(entry: &DirectoryEntry<'a>, frames: Vec<Frame<'a>>) -> (r: DirectoryEntry<'a>)
    ensures
        r.frames == frames,
        r.entry_type == entry.entry_type,
        r.description == entry.description,
        r.flags == entry.flags,
        r.cd_track == entry.cd_track,
        r.track_time == entry.track_time,
        r.frame_count == entry.frame_count,
        r.offset == entry.offset,
        r.file_length == entry.file_length,
{
    DirectoryEntry {
        entry_type: entry.entry_type,
        description: entry.description,
        flags: entry.flags,
        cd_track: entry.cd_track,
        track_time: entry.track_time,
        frame_count: entry.frame_count,
        offset: entry.offset,
        file_length: entry.file_length,
        frames,
    }
}

/// Decodes the directory that starts `offset` bytes into the input, and for
/// each entry, in the file's order, the stream of frames at the entry's
/// offset. The first stream that cannot be decoded ends the decoding with
/// its error.
pub fn offset_directory_with_frames<'a>(input: &'a [u8], offset: usize) -> (r: Result<
    Directory<'a>,
    errors::Error,
>)
    ensures
        match r {
            Ok(v) => {
                &&& spec_offset_directory_with_frames(input@, offset) is Ok
                &&& v.encoded_at(input@, offset as int)
                &&& v.spec_with_frames(input@)
            },
            Err(e) => spec_offset_directory_with_frames(input@, offset) === Err(e),
        },
{
    let directory = offset_directory(input, offset)?;
    let mut entries = directory.entries;
    let count = entries.len();
    let mut i: usize = 0;
    while i < count
        invariant
            i <= count,
            entries@.len() == count,
            count == spec_le_i32(input@, offset as int),
            spec_offset_directory(input@, offset) is Ok,
            forall|j: int|
                0 <= j < count ==> (#[trigger] entries@[j]).encoded_at(input@, offset + 4 + 92 * j),
            forall|j: int|
                0 <= j < i ==> {
                    let entry = #[trigger] entries@[j];
                    &&& spec_frames_encoded(
                        entry.frames@,
                        input@,
                        entry.spec_frames_offset() as int,
                    )
                    &&& spec_ends_with_next_section(entry.frames@)
                },
            spec_entry_frames(input@, offset + 4, count as nat) == spec_entry_frames(
                input@,
                offset + 4 + 92 * i,
                (count - i) as nat,
            ),
        decreases count - i,
    {
        let frames = offset_frames(input, as_usize(entries[i].offset))?;
        let next = with_frames(&entries[i], frames);
        entries.set(i, next);
        i += 1;
    }
    Ok(Directory { entries })
}

/// Entries that all fit in the input are decoded: `count` entries from
/// `at` end 92 bytes times `count` further on.
pub proof fn lemma_entries_fit(bytes: Seq<u8>, at: int, count: nat)
    requires
        at + 92 * count <= bytes.len(),
    ensures
        spec_entries(bytes, at, count) === Ok(at + 92 * count),
    decreases count,
{
    if count > 0 {
        lemma_entries_fit(bytes, at + 92, (count - 1) as nat);
    }
}

/// The count of entries decides: a directory whose count lies between
/// `MIN_ENTRY_COUNT` and `MAX_ENTRY_COUNT`, the two included, and whose
/// entries fit in the input is decoded; one whose count lies outside is
/// rejected as an invalid count met in the directory, and the error holds
/// the count that was read.
pub proof fn lemma_entry_count_decides(bytes: Seq<u8>, offset: usize)
    requires
        offset + 4 <= bytes.len(),
    ensures
        ({
            let count = spec_le_i32(bytes, offset as int);
            if MIN_ENTRY_COUNT <= count <= MAX_ENTRY_COUNT {
                offset + 4 + 92 * count <= bytes.len() ==> spec_offset_directory(bytes, offset)
                    === Ok(offset + 4 + 92 * count)
            } else {
                spec_offset_directory(bytes, offset) === Err(
                    within(
                        Error::Directory,
                        invalid(Error::InvalidDirectoryEntryCount(count as i32)),
                    ),
                )
            }
        }),
{
    let count = spec_le_i32(bytes, offset as int);
    if MIN_ENTRY_COUNT <= count <= MAX_ENTRY_COUNT && offset + 4 + 92 * count <= bytes.len() {
        lemma_entries_fit(bytes, offset + 4, count as nat);
    }
}

/// An error of a run of entries has one layer, which gives the reason.
pub proof fn lemma_entries_error_is_reason(bytes: Seq<u8>, at: int, count: nat)
    ensures
        spec_entries(bytes, at, count) matches Err(e) ==> spec_is_reason(e),
    decreases count,
{
    if count > 0 {
        if let Ok(end) = spec_entry(bytes, at) {
            lemma_entries_error_is_reason(bytes, end, (count - 1) as nat);
        }
    }
}

/// Every error of `offset_directory` has two layers, the outer of which
/// names the directory.
pub proof fn lemma_offset_directory_error_is_layered(bytes: Seq<u8>, offset: usize)
    ensures
        spec_offset_directory(bytes, offset) matches Err(e) ==> spec_is_layered(e) && e.kind
            == ErrorKind::ParseError(Error::Directory),
{
    let count = spec_le_i32(bytes, offset as int);
    if count >= 0 {
        lemma_entries_error_is_reason(bytes, offset + 4, count as nat);
    }
}

/// The first error among the streams of frames of a run of entries has two
/// layers, the outer of which names the frames.
pub proof fn lemma_entry_frames_error_is_layered(bytes: Seq<u8>, at: int, count: nat)
    ensures
        spec_entry_frames(bytes, at, count) matches Some(e) ==> spec_is_layered(e) && e.kind
            == ErrorKind::ParseError(Error::Frames),
    decreases count,
{
    if count > 0 {
        lemma_offset_frames_error_is_layered(
            bytes,
            spec_as_usize(spec_le_i32(bytes, at + 84) as i32),
        );
        lemma_entry_frames_error_is_layered(bytes, at + 92, (count - 1) as nat);
    }
}

} // verus!
