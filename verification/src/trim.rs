//! The trimmer: everything before the first note-on goes, and the note-on
//! itself moves to tick zero.
use crate::event::{track_well_formed, FileModel, MidiFile, TimedEvent, Track};
use vstd::prelude::*;

verus! {

/// What the search for the first note-on of a track found.
#[derive(Clone, Copy, Debug, PartialEq, Eq)]
pub enum NoteSearch {
    /// The first note-on stands at `index`, `delta` ticks after its predecessor.
    Found { index: usize, delta: u32 },
    /// The track holds no note-on.
    NotFound,
}

/// The track a file must hold, no more and no less.
pub const EXPECTED_TRACKS: usize = 1;

/// A file that cannot be trimmed because it does not hold exactly one track.
#[derive(Clone, Copy, Debug, PartialEq, Eq)]
pub struct TrackCountError {
    /// The number of tracks the file holds.
    pub found: usize,
}

/// A trimmed file together with what the search found in its track before.
#[derive(Debug, PartialEq, Eq)]
pub struct TrimmedFile<'a> {
    pub file: MidiFile<'a>,
    pub search: NoteSearch,
}

/// The number of events that stand before the first note-on of `track`; the
/// length of the track where it holds none.
pub open spec fn leading_silence(track: Seq<TimedEvent>) -> nat
    decreases track.len(),
{
    if track.len() == 0 || track[0].note_on() {
        0
    } else {
        1 + leading_silence(track.drop_first())
    }
}

/// `index` is where the first note-on of `track` stands.
pub open spec fn is_first_note_on(track: Seq<TimedEvent>, index: int) -> bool {
    &&& 0 <= index < track.len()
    &&& track[index].note_on()
    &&& forall|j: int| 0 <= j < index ==> !(#[trigger] track[j]).note_on()
}

/// `track` holds no note-on at all.
pub open spec fn has_no_note_on(track: Seq<TimedEvent>) -> bool {
    forall|j: int| 0 <= j < track.len() ==> !(#[trigger] track[j]).note_on()
}

/// What the search reports for `track`.
pub open spec fn search_matches(track: Seq<TimedEvent>, found: NoteSearch) -> bool {
    match found {
        NoteSearch::Found { index, delta } => {
            &&& is_first_note_on(track, index as int)
            &&& delta == track[index as int].delta
        },
        NoteSearch::NotFound => has_no_note_on(track),
    }
}

/// The track without its leading silence: the events from the first note-on
/// on, that note-on at tick zero and every later event as it was. Empty where
/// the track holds no note-on.
pub open spec fn trimmed<'a>(track: Seq<TimedEvent<'a>>) -> Seq<TimedEvent<'a>> {
    let first = leading_silence(track) as int;
    if first < track.len() {
        track.subrange(first, track.len() as int).update(0, track[first].at_tick_zero())
    } else {
        Seq::empty()
    }
}

/// The file with its only track trimmed and its header as it was.
pub open spec fn trimmed_file<'a>(file: FileModel<'a>) -> FileModel<'a> {
    FileModel { header: file.header, tracks: seq![trimmed(file.tracks[0])] }
}

/// `leading_silence` counts exactly the events before the first note-on.
pub proof fn lemma_leading_silence(track: Seq<TimedEvent>)
    ensures
        leading_silence(track) <= track.len(),
        forall|j: int| 0 <= j < leading_silence(track) ==> !(#[trigger] track[j]).note_on(),
        leading_silence(track) < track.len() ==> track[leading_silence(track) as int].note_on(),
    decreases track.len(),
{
    if track.len() == 0 || track[0].note_on() {
    } else {
        let rest = track.drop_first();
        lemma_leading_silence(rest);
        assert forall|j: int| 0 <= j < leading_silence(track) implies !(#[trigger] track[j]).note_on() by {
            if j > 0 {
                assert(track[j] == rest[j - 1]);
            }
        }
        if leading_silence(track) < track.len() {
            assert(track[leading_silence(track) as int] == rest[leading_silence(rest) as int]);
        }
    }
}

/// The first note-on, where there is one, stands right after the leading
/// silence, and only there.
pub proof fn lemma_first_note_on(track: Seq<TimedEvent>, index: int)
    ensures
        is_first_note_on(track, index) <==> (index == leading_silence(track) && index < track.len()),
{
    lemma_leading_silence(track);
    let first = leading_silence(track) as int;
    if is_first_note_on(track, index) {
        if first < index {
            assert(!track[first].note_on());
        }
        if index < first {
            assert(!track[index].note_on());
        }
    }
}

/// A track without a note-on is silent over its whole length, and only such a
/// track is.
pub proof fn lemma_no_note_on(track: Seq<TimedEvent>)
    ensures
        has_no_note_on(track) <==> leading_silence(track) == track.len(),
{
    lemma_leading_silence(track);
    let first = leading_silence(track) as int;
    if has_no_note_on(track) && first < track.len() {
        assert(track[first].note_on());
    }
}

/// Finds the first note-on of `track`: the first event in playing order whose
/// kind is a note-on, on any channel and with any key and velocity.
pub fn find_first_note_on(track: &Vec<TimedEvent>) -> (found: NoteSearch)
    ensures
        search_matches(track@, found),
{
    let mut i: usize = 0;
    while i < track.len()
        invariant
            i <= track.len(),
            forall|j: int| 0 <= j < i ==> !(#[trigger] track@[j]).note_on(),
        decreases track.len() - i,
    {
        if track[i].is_note_on() {
            return NoteSearch::Found { index: i, delta: track[i].delta };
        }
        i += 1;
    }
    NoteSearch::NotFound
}

/// Trims `track` in place and reports what the search found in it.
///
/// The events before the first note-on are dropped together with the time
/// they carried; the note-on gets delta zero; every later event stays as it
/// was. A track without a note-on, an empty one too, comes out empty, and a
/// track that starts with a note-on at delta zero comes out as it went in.
pub fn trim_track<'a>(track: &mut Track<'a>) -> (found: NoteSearch)
    ensures
        final(track)@ == trimmed(old(track)@),
        search_matches(old(track)@, found),
        has_no_note_on(old(track)@) ==> final(track)@.len() == 0,
        old(track)@.len() > 0 && old(track)@[0].note_on() && old(track)@[0].delta == 0
            ==> final(track)@ == old(track)@,
{
    let found = find_first_note_on(track);
    match found {
        NoteSearch::Found { index, delta: _ } => {
            let len = track.len();
            proof {
                lemma_first_note_on(track@, index as int);
            }
            let mut kept: Vec<TimedEvent<'a>> = Vec::new();
            kept.push(TimedEvent { delta: 0, kind: track[index].kind });
            let mut i: usize = index + 1;
            while i < len
                invariant
                    len == track.len(),
                    index < i <= len,
                    kept@.len() == i - index,
                    kept@[0] == track@[index as int].at_tick_zero(),
                    forall|k: int| 1 <= k < kept@.len() ==> kept@[k] == track@[index + k],
                decreases len - i,
            {
                kept.push(track[i]);
                i += 1;
            }
            assert(kept@ =~= trimmed(track@));
            *track = kept;
        },
        NoteSearch::NotFound => {
            proof {
                lemma_no_note_on(track@);
            }
            track.clear();
        },
    }
    proof {
        if has_no_note_on(old(track)@) {
            lemma_trim_without_note_on(old(track)@);
        }
        if old(track)@.len() > 0 && old(track)@[0].note_on() && old(track)@[0].delta == 0 {
            lemma_trim_of_trimmed_input(old(track)@);
        }
    }
    found
}

/// Trims a file that holds exactly one track; any other file is refused with
/// the number of tracks it holds. The header passes through as it is.
pub fn trim_file<'a>(file: MidiFile<'a>) -> (r: Result<TrimmedFile<'a>, TrackCountError>)
    ensures
        r is Ok <==> file@.tracks.len() == EXPECTED_TRACKS,
        r matches Err(refusal) ==> refusal.found == file@.tracks.len(),
        r matches Ok(out) ==> {
            &&& out.file@ == trimmed_file(file@)
            &&& out.file@.tracks.len() == EXPECTED_TRACKS
            &&& search_matches(file@.tracks[0], out.search)
            &&& file@.well_formed() ==> out.file@.well_formed()
        },
{
    let mut file = file;
    if file.tracks.len() != EXPECTED_TRACKS {
        return Err(TrackCountError { found: file.tracks.len() });
    }
    let ghost before = file@;
    let mut track = file.tracks.pop().unwrap();
    let search = trim_track(&mut track);
    file.tracks.push(track);
    proof {
        assert(file@.tracks =~= trimmed_file(before).tracks);
        if before.well_formed() {
            lemma_trim_keeps_well_formed(before.tracks[0]);
        }
    }
    Ok(TrimmedFile { file, search })
}

/// Trimming keeps a well-formed track well formed.
pub proof fn lemma_trim_keeps_well_formed(track: Seq<TimedEvent>)
    requires
        track_well_formed(track),
    ensures
        track_well_formed(trimmed(track)),
{
    lemma_leading_silence(track);
    let first = leading_silence(track) as int;
    let out = trimmed(track);
    assert forall|i: int| 0 <= i < out.len() implies (#[trigger] out[i]).well_formed() by {
        assert(track[first + i].well_formed());
    }
}

/// A track that already starts with a note-on at tick zero is left as it is.
pub proof fn lemma_trim_of_trimmed_input(track: Seq<TimedEvent>)
    requires
        track.len() > 0,
        track[0].note_on(),
        track[0].delta == 0,
    ensures
        trimmed(track) == track,
{
    assert(trimmed(track) =~= track);
}

/// Trimming twice gives what trimming once gives.
pub proof fn lemma_trim_idempotent(track: Seq<TimedEvent>)
    ensures
        trimmed(trimmed(track)) == trimmed(track),
{
    lemma_leading_silence(track);
    let once = trimmed(track);
    if once.len() > 0 {
        lemma_trim_of_trimmed_input(once);
    } else {
        assert(trimmed(once) =~= once);
    }
}

/// A track without a note-on, an empty one too, trims to the empty track.
pub proof fn lemma_trim_without_note_on(track: Seq<TimedEvent>)
    requires
        has_no_note_on(track),
    ensures
        trimmed(track) == Seq::<TimedEvent>::empty(),
{
    lemma_no_note_on(track);
}

/// Where the first note-on stands at `index`, trimming drops exactly `index`
/// events, puts that note-on first with delta zero and its kind unchanged,
/// and leaves every later event, delta and kind, as it was.
pub proof fn lemma_trim_at_first_note_on(track: Seq<TimedEvent>, index: int)
    requires
        is_first_note_on(track, index),
    ensures
        trimmed(track).len() == track.len() - index,
        trimmed(track)[0].delta == 0,
        trimmed(track)[0].kind == track[index].kind,
        forall|k: int| 1 <= k < track.len() - index ==> trimmed(track)[k] == track[index + k],
{
    lemma_first_note_on(track, index);
}

} // verus!
