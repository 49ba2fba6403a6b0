use midi_trim::event::{EventKind, MidiFile, TimedEvent};
use midi_trim::trim::{find_first_note_on, trim_file, trim_track, NoteSearch, TrackCountError};
use midly::num::{u4, u7};
use midly::{MetaMessage, MidiMessage, TrackEventKind};

fn controller(delta: u32, value: u8) -> TimedEvent<'static> {
    let message = MidiMessage::Controller { controller: u7::new(7), value: u7::new(value) };
    TimedEvent { delta, kind: EventKind::Other(TrackEventKind::Midi { channel: u4::new(0), message }) }
}

fn note_off(delta: u32, key: u8) -> TimedEvent<'static> {
    let message = MidiMessage::NoteOff { key: u7::new(key), vel: u7::new(0) };
    TimedEvent { delta, kind: EventKind::Other(TrackEventKind::Midi { channel: u4::new(0), message }) }
}

fn note_on(delta: u32, channel: u8, key: u8, vel: u8) -> TimedEvent<'static> {
    TimedEvent { delta, kind: EventKind::NoteOn { channel, key, vel } }
}

fn end_of_track(delta: u32) -> TimedEvent<'static> {
    TimedEvent { delta, kind: EventKind::Other(TrackEventKind::Meta(MetaMessage::EndOfTrack)) }
}

fn header() -> midly::Header {
    midly::Header::new(midly::Format::SingleTrack, midly::Timing::Metrical(midly::num::u15::new(480)))
}

#[test]
fn drops_the_events_before_the_first_note_on() {
    let mut track = vec![controller(10, 1), controller(5, 2), note_on(3, 0, 60, 64), note_off(100, 60)];
    let found = trim_track(&mut track);
    assert_eq!(found, NoteSearch::Found { index: 2, delta: 3 });
    assert_eq!(track, vec![note_on(0, 0, 60, 64), note_off(100, 60)]);
}

#[test]
fn later_events_keep_their_deltas_and_order() {
    let mut track = vec![
        end_of_track(7),
        note_on(9, 3, 61, 1),
        controller(4, 9),
        note_on(5, 3, 62, 2),
        note_off(6, 61),
        end_of_track(0),
    ];
    let found = trim_track(&mut track);
    assert_eq!(found, NoteSearch::Found { index: 1, delta: 9 });
    assert_eq!(
        track,
        vec![note_on(0, 3, 61, 1), controller(4, 9), note_on(5, 3, 62, 2), note_off(6, 61), end_of_track(0)]
    );
}

#[test]
fn already_trimmed_track_is_unchanged() {
    let before = vec![note_on(0, 1, 72, 90), note_off(240, 72), end_of_track(0)];
    let mut track = before.clone();
    let found = trim_track(&mut track);
    assert_eq!(found, NoteSearch::Found { index: 0, delta: 0 });
    assert_eq!(track, before);
}

#[test]
fn trimming_twice_changes_nothing_more() {
    let mut track = vec![controller(1, 1), note_on(2, 0, 40, 40), note_on(3, 0, 41, 41)];
    trim_track(&mut track);
    let once = track.clone();
    let found = trim_track(&mut track);
    assert_eq!(found, NoteSearch::Found { index: 0, delta: 0 });
    assert_eq!(track, once);
}

#[test]
fn note_on_at_the_start_with_a_delta_moves_to_tick_zero() {
    let mut track = vec![note_on(96, 0, 60, 64), note_off(10, 60)];
    let found = trim_track(&mut track);
    assert_eq!(found, NoteSearch::Found { index: 0, delta: 96 });
    assert_eq!(track, vec![note_on(0, 0, 60, 64), note_off(10, 60)]);
}

#[test]
fn track_without_a_note_on_becomes_empty() {
    let mut track = vec![end_of_track(0)];
    let found = trim_track(&mut track);
    assert_eq!(found, NoteSearch::NotFound);
    assert!(track.is_empty());
}

#[test]
fn note_offs_and_controllers_are_no_notes() {
    let mut track = vec![controller(1, 1), note_off(2, 60), end_of_track(3)];
    assert_eq!(find_first_note_on(&track), NoteSearch::NotFound);
    assert_eq!(trim_track(&mut track), NoteSearch::NotFound);
    assert!(track.is_empty());
}

#[test]
fn empty_track_stays_empty() {
    let mut track: Vec<TimedEvent> = Vec::new();
    assert_eq!(trim_track(&mut track), NoteSearch::NotFound);
    assert!(track.is_empty());
}

#[test]
fn note_on_with_velocity_zero_counts_as_a_note() {
    let mut track = vec![controller(12, 0), note_on(8, 2, 64, 0), note_on(4, 2, 65, 100)];
    let found = trim_track(&mut track);
    assert_eq!(found, NoteSearch::Found { index: 1, delta: 8 });
    assert_eq!(track, vec![note_on(0, 2, 64, 0), note_on(4, 2, 65, 100)]);
}

#[test]
fn any_channel_and_key_count_as_a_note() {
    let track = vec![end_of_track(1), note_on(2, 15, 127, 127)];
    assert_eq!(find_first_note_on(&track), NoteSearch::Found { index: 1, delta: 2 });
}

#[test]
fn search_leaves_the_track_alone() {
    let track = vec![controller(10, 1), note_on(3, 0, 60, 64)];
    let copy = track.clone();
    assert_eq!(find_first_note_on(&track), NoteSearch::Found { index: 1, delta: 3 });
    assert_eq!(track, copy);
}

#[test]
fn file_with_one_track_is_trimmed_and_keeps_its_header() {
    let file = MidiFile { header: header(), tracks: vec![vec![controller(10, 1), note_on(3, 0, 60, 64)]] };
    let out = trim_file(file).unwrap();
    assert_eq!(out.search, NoteSearch::Found { index: 1, delta: 3 });
    assert_eq!(out.file, MidiFile { header: header(), tracks: vec![vec![note_on(0, 0, 60, 64)]] });
}

#[test]
fn file_without_a_note_keeps_one_empty_track() {
    let file = MidiFile { header: header(), tracks: vec![vec![end_of_track(0)]] };
    let out = trim_file(file).unwrap();
    assert_eq!(out.search, NoteSearch::NotFound);
    assert_eq!(out.file, MidiFile { header: header(), tracks: vec![vec![]] });
}

#[test]
fn file_with_two_tracks_is_refused() {
    let file = MidiFile { header: header(), tracks: vec![vec![note_on(0, 0, 60, 64)], vec![end_of_track(0)]] };
    assert_eq!(trim_file(file), Err(TrackCountError { found: 2 }));
}

#[test]
fn file_with_no_track_is_refused() {
    let file = MidiFile { header: header(), tracks: vec![] };
    assert_eq!(trim_file(file), Err(TrackCountError { found: 0 }));
}
