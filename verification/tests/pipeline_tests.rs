use midi_trim::codec::{EncodeError, FormatError};
use midi_trim::pipeline::{trim_midi, TrimError, Trimmed};
use midi_trim::trim::NoteSearch;

const HEADER_480: [u8; 14] = [b'M', b'T', b'h', b'd', 0, 0, 0, 6, 0, 0, 0, 1, 0x01, 0xE0];

const HEADER_TWO_TRACKS: [u8; 14] = [b'M', b'T', b'h', b'd', 0, 0, 0, 6, 0, 1, 0, 2, 0x01, 0xE0];

fn file_bytes(header: &[u8], tracks: &[&[u8]]) -> Vec<u8> {
    let mut bytes = header.to_vec();
    for track in tracks {
        bytes.extend_from_slice(b"MTrk");
        bytes.extend_from_slice(&(track.len() as u32).to_be_bytes());
        bytes.extend_from_slice(track);
    }
    bytes
}

#[test]
fn trims_the_leading_controllers() {
    let track = [
        0x0A, 0xB0, 0x07, 0x01, 0x05, 0xB0, 0x07, 0x02, 0x03, 0x90, 0x3C, 0x40, 0x64, 0x80, 0x3C, 0x00, 0x00,
        0xFF, 0x2F, 0x00,
    ];
    let kept = [0x00, 0x90, 0x3C, 0x40, 0x64, 0x80, 0x3C, 0x00, 0x00, 0xFF, 0x2F, 0x00];
    let out = trim_midi(&file_bytes(&HEADER_480, &[&track])).unwrap();
    assert_eq!(out.search, NoteSearch::Found { index: 2, delta: 3 });
    assert_eq!(out.bytes, file_bytes(&HEADER_480, &[&kept]));
}

#[test]
fn trimmed_input_comes_back_as_it_is() {
    let track = [0x00, 0x90, 0x3C, 0x40, 0x64, 0x80, 0x3C, 0x00, 0x00, 0xFF, 0x2F, 0x00];
    let input = file_bytes(&HEADER_480, &[&track]);
    let out = trim_midi(&input).unwrap();
    assert_eq!(out, Trimmed { bytes: input, search: NoteSearch::Found { index: 0, delta: 0 } });
}

#[test]
fn input_without_a_note_gives_an_empty_track_chunk() {
    let input = file_bytes(&HEADER_480, &[&[0x00, 0xFF, 0x2F, 0x00]]);
    let out = trim_midi(&input).unwrap();
    assert_eq!(out.search, NoteSearch::NotFound);
    assert_eq!(out.bytes, file_bytes(&HEADER_480, &[&[]]));
    assert_eq!(&out.bytes[14..], b"MTrk\0\0\0\0");
}

#[test]
fn header_passes_through() {
    let header = [b'M', b'T', b'h', b'd', 0, 0, 0, 6, 0, 1, 0, 1, 0xE7, 0x50];
    let input = file_bytes(&header, &[&[0x60, 0x99, 0x24, 0x7F]]);
    let out = trim_midi(&input).unwrap();
    assert_eq!(out.search, NoteSearch::Found { index: 0, delta: 96 });
    assert_eq!(out.bytes, file_bytes(&header, &[&[0x00, 0x99, 0x24, 0x7F]]));
}

#[test]
fn note_on_kept_first_gets_its_status_byte() {
    let track = [0x00, 0x90, 0x3C, 0x00, 0x00, 0xFF, 0x2F, 0x00];
    let silent_first = [0x10, 0xB0, 0x07, 0x01, 0x20, 0x90, 0x3C, 0x00, 0x00, 0xFF, 0x2F, 0x00];
    let out = trim_midi(&file_bytes(&HEADER_480, &[&silent_first])).unwrap();
    assert_eq!(out.search, NoteSearch::Found { index: 1, delta: 32 });
    assert_eq!(out.bytes, file_bytes(&HEADER_480, &[&track]));
}

#[test]
fn two_tracks_are_refused() {
    let input = file_bytes(&HEADER_TWO_TRACKS, &[&[0x00, 0xFF, 0x2F, 0x00], &[0x00, 0x90, 0x3C, 0x40]]);
    match trim_midi(&input) {
        Err(TrimError::TrackCount(refusal)) => assert_eq!(refusal.found, 2),
        other => panic!("{:?}", other),
    }
}

#[test]
fn no_track_is_refused() {
    let header = [b'M', b'T', b'h', b'd', 0, 0, 0, 6, 0, 1, 0, 0, 0x01, 0xE0];
    match trim_midi(&header) {
        Err(TrimError::TrackCount(refusal)) => assert_eq!(refusal.found, 0),
        other => panic!("{:?}", other),
    }
}

#[test]
fn truncated_input_is_a_format_error() {
    assert!(matches!(trim_midi(&HEADER_480), Err(TrimError::Format(FormatError::Malformed(_)))));
    let input = file_bytes(&HEADER_480, &[&[0x00, 0x90, 0x3C, 0x40]]);
    assert!(matches!(trim_midi(&input[..input.len() - 1]), Err(TrimError::Format(FormatError::Malformed(_)))));
}

#[test]
fn input_that_is_no_midi_file_is_a_format_error() {
    assert!(matches!(trim_midi(b""), Err(TrimError::Format(FormatError::BadMagic))));
    assert!(matches!(trim_midi(b"not a midi file"), Err(TrimError::Format(FormatError::BadMagic))));
    let header = [b'M', b'T', b'h', b'd', 0, 0, 0, 6, 0, 0, 0, 1, 0x80, 0x00];
    assert!(matches!(
        trim_midi(&file_bytes(&header, &[&[]])),
        Err(TrimError::Format(FormatError::InvalidFrameRate))
    ));
}

#[test]
fn format_error_comes_before_the_track_count() {
    let single_track_format = [b'M', b'T', b'h', b'd', 0, 0, 0, 6, 0, 0, 0, 2, 0x01, 0xE0];
    let input = file_bytes(&single_track_format, &[&[0x00, 0xFF, 0x2F, 0x00], &[0x00, 0xFF, 0x2F, 0x00]]);
    assert!(matches!(trim_midi(&input), Err(TrimError::Format(FormatError::Malformed(_)))));
}

#[test]
fn encode_errors_name_their_kind() {
    assert_ne!(EncodeError::OutOfRange, EncodeError::TooLarge);
}
