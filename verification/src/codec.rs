//! Decoding and encoding of Standard MIDI Files. The codec itself is `midly`;
//! this module screens the input, calls it, and says what comes back.
use crate::event::{EventKind, FileModel, MidiFile, TimedEvent};
use vstd::prelude::*;

verus! {

/// `midly::Error`, the cause the decoder gives when it refuses an input.
#[verifier::external_type_specification]
#[verifier::external_body]
pub struct ExError(midly::Error);

/// Why a byte buffer is no Standard MIDI File.
#[derive(Debug)]
pub enum FormatError {
    /// The buffer does not start with the magic `MThd` of the header chunk.
    BadMagic,
    /// A header chunk holds the frame-rate byte `0x80`, which names no rate.
    InvalidFrameRate,
    /// The decoder refused the buffer; the cause is its own.
    Malformed(midly::Error),
}

/// Why a file cannot be encoded.
#[derive(Clone, Copy, Debug, PartialEq, Eq)]
pub enum EncodeError {
    /// An event holds a value that does not fit its field on the wire.
    OutOfRange,
    /// The encoder refused the file: it breaks a size limit of the format.
    TooLarge,
}

/// The length in bytes of a chunk's head: four of identifier, four of length.
pub const CHUNK_HEAD: usize = 8;

/// The least length of a header chunk's data: format, track count and
/// timing, two bytes each.
pub const HEADER_DATA: u64 = 6;

/// The offset of the frame-rate byte, the first of the timing, from the start
/// of a header chunk.
pub const FRAME_RATE_OFFSET: usize = 12;

/// The frame-rate byte that names no frame rate: as a signed byte it is the
/// one value without a negative.
pub const NO_FRAME_RATE: u8 = 0x80;

/// The big-endian number held by the four bytes at `at`.
pub open spec fn be32(bytes: Seq<u8>, at: int) -> int {
    bytes[at] * 0x100_0000 + bytes[at + 1] * 0x1_0000 + bytes[at + 2] * 0x100 + bytes[at + 3]
}

/// The four bytes at `at` spell `MThd`.
pub open spec fn is_header_id(bytes: Seq<u8>, at: int) -> bool {
    &&& bytes[at] == 0x4D
    &&& bytes[at + 1] == 0x54
    &&& bytes[at + 2] == 0x68
    &&& bytes[at + 3] == 0x64
}

/// The buffer starts with the magic of the header chunk.
pub open spec fn has_header_magic(bytes: Seq<u8>) -> bool {
    bytes.len() >= 4 && is_header_id(bytes, 0)
}

/// Walking the chunks that are framed whole from `at` on, one of them is a
/// header chunk of six bytes or more whose frame-rate byte is `0x80`.
pub open spec fn has_invalid_frame_rate(bytes: Seq<u8>, at: int) -> bool
    decreases bytes.len() - at,
{
    if at < 0 || at + CHUNK_HEAD > bytes.len() {
        false
    } else {
        let len = be32(bytes, at + 4);
        if at + CHUNK_HEAD + len > bytes.len() {
            false
        } else if is_header_id(bytes, at) && len >= HEADER_DATA && bytes[at + FRAME_RATE_OFFSET]
            == NO_FRAME_RATE {
            true
        } else {
            has_invalid_frame_rate(bytes, at + CHUNK_HEAD + len)
        }
    }
}

/// What `midly::Smf::parse` makes of a buffer: the file, or nothing where it
/// refuses the buffer.
pub uninterp spec fn smf_parsed(bytes: Seq<u8>) -> Option<FileModel<'static>>;

/// What `midly::Smf::write` makes of a file: the bytes, or nothing where it
/// refuses the file.
pub uninterp spec fn smf_written(file: FileModel) -> Option<Seq<u8>>;

/// The file a buffer decodes to, if any.
pub open spec fn decoded(bytes: Seq<u8>) -> Option<FileModel<'static>> {
    if has_header_magic(bytes) && !has_invalid_frame_rate(bytes, 0) {
        smf_parsed(bytes)
    } else {
        None
    }
}

/// Calls `midly::Smf::parse` and hands its tracks over event by event, a
/// note-on as [`EventKind::NoteOn`] and any other kind as it is.
///
/// Trusted: the call succeeds exactly where [`smf_parsed`] says so, and then
/// returns that file; `midly` keeps a delta within 28 bits, a channel within
/// four and key and velocity within seven, so the file is well formed. The
/// buffers left out are those on which reading a header chunk negates the
/// signed byte -128, and those the RIFF unwrapping would take.
#[verifier::external_body]
fn parse_smf<'a>(bytes: &'a [u8]) -> (r: Result<MidiFile<'a>, midly::Error>)
    requires
        has_header_magic(bytes@),
        !has_invalid_frame_rate(bytes@, 0),
    ensures
        r is Ok <==> smf_parsed(bytes@) is Some,
        r matches Ok(file) ==> smf_parsed(bytes@) == Some(file@) && file@.well_formed(),
{
    let smf = midly::Smf::parse(bytes)?;
    let tracks = smf.tracks.into_iter().map(|track| track.into_iter().map(|ev| TimedEvent {
        delta: ev.delta.as_int(),
        kind: match ev.kind {
            midly::TrackEventKind::Midi { channel, message: midly::MidiMessage::NoteOn { key, vel } } =>
                EventKind::NoteOn { channel: channel.as_int(), key: key.as_int(), vel: vel.as_int() },
            other => EventKind::Other(other),
        },
    }).collect()).collect();
    Ok(MidiFile { header: smf.header, tracks })
}

/// Hands the file to `midly` event by event and calls `midly::Smf::write` on
/// an empty buffer.
///
/// Trusted: the call succeeds exactly where [`smf_written`] says so, and then
/// returns those bytes. On a well-formed file no field is cut to fit.
#[verifier::external_body]
fn write_smf(file: &MidiFile) -> (r: Option<Vec<u8>>)
    requires
        file@.well_formed(),
    ensures
        r is Some <==> smf_written(file@) is Some,
        r matches Some(out) ==> smf_written(file@) == Some(out@),
{
    let tracks = file.tracks.iter().map(|track| track.iter().map(|ev| midly::TrackEvent {
        delta: ev.delta.into(),
        kind: match ev.kind {
            EventKind::NoteOn { channel, key, vel } => midly::TrackEventKind::Midi {
                channel: channel.into(),
                message: midly::MidiMessage::NoteOn { key: key.into(), vel: vel.into() },
            },
            EventKind::Other(kind) => kind,
        },
    }).collect()).collect();
    let mut out = Vec::new();
    midly::Smf { header: file.header, tracks }.write(&mut out).ok().map(|_| out)
}

/// Reads the big-endian number held by the four bytes at `at`.
fn read_be32(bytes: &[u8], at: usize) -> (n: u64)
    requires
        at + 4 <= bytes@.len(),
    ensures
        n == be32(bytes@, at as int),
        n <= 0xFFFF_FFFF,
{
    let b0 = bytes[at] as u64;
    let b1 = bytes[at + 1] as u64;
    let b2 = bytes[at + 2] as u64;
    let b3 = bytes[at + 3] as u64;
    b0 * 0x100_0000 + b1 * 0x1_0000 + b2 * 0x100 + b3
}

/// Tests whether the four bytes at `at` spell `MThd`.
fn header_id_at(bytes: &[u8], at: usize) -> (b: bool)
    requires
        at + 4 <= bytes@.len(),
    ensures
        b == is_header_id(bytes@, at as int),
{
    bytes[at] == 0x4D && bytes[at + 1] == 0x54 && bytes[at + 2] == 0x68 && bytes[at + 3] == 0x64
}

/// Tests whether the buffer starts with the magic `MThd`.
pub fn starts_with_header_magic(bytes: &[u8]) -> (b: bool)
    ensures
        b == has_header_magic(bytes@),
{
    bytes.len() >= 4 && header_id_at(bytes, 0)
}

/// Walks the chunks of the buffer and tests whether a header chunk among them
/// holds the frame-rate byte `0x80`.
pub fn finds_invalid_frame_rate(bytes: &[u8]) -> (b: bool)
    ensures
        b == has_invalid_frame_rate(bytes@, 0),
{
    let mut at: usize = 0;
    while bytes.len() - at >= CHUNK_HEAD
        invariant
            at <= bytes.len(),
            has_invalid_frame_rate(bytes@, 0) == has_invalid_frame_rate(bytes@, at as int),
        decreases bytes.len() - at,
    {
        let len = read_be32(bytes, at + 4);
        let room = (bytes.len() - at - CHUNK_HEAD) as u64;
        if len > room {
            return false;
        }
        if header_id_at(bytes, at) && len >= HEADER_DATA && bytes[at + FRAME_RATE_OFFSET]
            == NO_FRAME_RATE {
            return true;
        }
        at = at + CHUNK_HEAD + len as usize;
    }
    false
}

/// Decodes a Standard MIDI File.
///
/// The buffer must start with `MThd`, no header chunk of it may hold the
/// frame-rate byte `0x80`, which the decoder cannot read, and the decoder
/// must accept it; the error tells which of the three failed first. A decoded
/// file is well formed.
pub fn decode<'a>(bytes: &'a [u8]) -> (r: Result<MidiFile<'a>, FormatError>)
    ensures
        match r {
            Ok(file) => decoded(bytes@) == Some(file@) && file@.well_formed(),
            Err(FormatError::BadMagic) => !has_header_magic(bytes@),
            Err(FormatError::InvalidFrameRate) => {
                &&& has_header_magic(bytes@)
                &&& has_invalid_frame_rate(bytes@, 0)
            },
            Err(FormatError::Malformed(_)) => {
                &&& has_header_magic(bytes@)
                &&& !has_invalid_frame_rate(bytes@, 0)
                &&& smf_parsed(bytes@) is None
            },
        },
        r is Ok <==> decoded(bytes@) is Some,
{
    if !starts_with_header_magic(bytes) {
        return Err(FormatError::BadMagic);
    }
    if finds_invalid_frame_rate(bytes) {
        return Err(FormatError::InvalidFrameRate);
    }
    match parse_smf(bytes) {
        Ok(file) => Ok(file),
        Err(cause) => Err(FormatError::Malformed(cause)),
    }
}

/// Encodes a file as a Standard MIDI File.
///
/// A file that is not well formed is refused as out of range, one that the
/// encoder refuses as too large; any other file gives its bytes.
pub fn encode(file: &MidiFile) -> (r: Result<Vec<u8>, EncodeError>)
    ensures
        match r {
            Ok(bytes) => file@.well_formed() && smf_written(file@) == Some(bytes@),
            Err(EncodeError::OutOfRange) => !file@.well_formed(),
            Err(EncodeError::TooLarge) => file@.well_formed() && smf_written(file@) is None,
        },
{
    if !file.is_well_formed() {
        return Err(EncodeError::OutOfRange);
    }
    match write_smf(file) {
        Some(bytes) => Ok(bytes),
        None => Err(EncodeError::TooLarge),
    }
}

} // verus!
