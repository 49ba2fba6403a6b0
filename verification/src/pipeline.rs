//! From the bytes of the input file to the bytes of the output file.
use crate::codec::{decode, decoded, encode, smf_written, EncodeError, FormatError};
use crate::trim::{search_matches, trim_file, trimmed_file, NoteSearch, TrackCountError, EXPECTED_TRACKS};
use vstd::prelude::*;

verus! {

/// Why an input could not be trimmed.
#[derive(Debug)]
pub enum TrimError {
    /// The input is no well-formed Standard MIDI File.
    Format(FormatError),
    /// The input does not hold exactly one track.
    TrackCount(TrackCountError),
    /// The trimmed file could not be encoded.
    Encode(EncodeError),
}

/// The bytes of the trimmed file and what the search found in the input.
#[derive(Debug, PartialEq, Eq)]
pub struct Trimmed {
    pub bytes: Vec<u8>,
    pub search: NoteSearch,
}

/// Trims the leading silence from the Standard MIDI File held in `input`.
///
/// The input is decoded, must hold exactly one track, has that track trimmed
/// and is encoded again with its header unchanged. Nothing is returned unless
/// every step succeeded.
pub fn trim_midi(input: &[u8]) -> (r: Result<Trimmed, TrimError>)
    ensures
        match decoded(input@) {
            None => r matches Err(TrimError::Format(_)),
            Some(file) => if file.tracks.len() != EXPECTED_TRACKS {
                r matches Err(TrimError::TrackCount(e)) && e.found == file.tracks.len()
            } else {
                match smf_written(trimmed_file(file)) {
                    Some(bytes) => {
                        &&& r matches Ok(out)
                        &&& out.bytes@ == bytes
                        &&& search_matches(file.tracks[0], out.search)
                    },
                    None => r matches Err(TrimError::Encode(EncodeError::TooLarge)),
                }
            },
        },
{
    let file = match decode(input) {
        Ok(file) => file,
        Err(cause) => {
            return Err(TrimError::Format(cause));
        },
    };
    let trimmed = match trim_file(file) {
        Ok(trimmed) => trimmed,
        Err(cause) => {
            return Err(TrimError::TrackCount(cause));
        },
    };
    match encode(&trimmed.file) {
        Ok(bytes) => Ok(Trimmed { bytes, search: trimmed.search }),
        Err(cause) => Err(TrimError::Encode(cause)),
    }
}

} // verus!
