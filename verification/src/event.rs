//! The data model: timed events, tracks and files.
use vstd::prelude::*;

verus! {

/// `midly::TrackEventKind`, the payload of one track event. Verified code
/// carries it through and cannot look inside.
#[verifier::external_type_specification]
#[verifier::external_body]
pub struct ExTrackEventKind<'a>(midly::TrackEventKind<'a>);

/// `midly::Header`, the format and timing fields of the header chunk.
/// Verified code carries it through and cannot look inside.
#[verifier::external_type_specification]
#[verifier::external_body]
pub struct ExHeader(midly::Header);

/// The largest delta time: what a variable-length quantity of four bytes,
/// seven bits each, can hold.
pub const MAX_DELTA: u32 = 0x0FFF_FFFF;

/// The highest channel: a channel takes the low four bits of the status byte.
pub const MAX_CHANNEL: u8 = 15;

/// The highest key and the highest velocity: a data byte holds seven bits.
pub const MAX_DATA: u8 = 127;

/// What an event is, as far as trimming cares.
#[derive(Clone, Copy, Debug, PartialEq, Eq)]
pub enum EventKind<'a> {
    /// A channel-voice note-on message, whatever its velocity.
    NoteOn { channel: u8, key: u8, vel: u8 },
    /// Any other event: a payload that is carried through as it is. A decoded
    /// file never holds a note-on here, and nor should a file built by hand:
    /// the trimmer takes what stands here for silence.
    Other(midly::TrackEventKind<'a>),
}

/// One event of a track together with the ticks elapsed since the previous one.
#[derive(Clone, Copy, Debug, PartialEq, Eq)]
pub struct TimedEvent<'a> {
    pub delta: u32,
    pub kind: EventKind<'a>,
}

/// A track: its events in playing order.
pub type Track<'a> = Vec<TimedEvent<'a>>;

/// A decoded file: the header and the tracks in file order.
#[derive(Debug, PartialEq, Eq)]
pub struct MidiFile<'a> {
    pub header: midly::Header,
    pub tracks: Vec<Track<'a>>,
}

/// The mathematical content of a [`MidiFile`].
pub struct FileModel<'a> {
    pub header: midly::Header,
    pub tracks: Seq<Seq<TimedEvent<'a>>>,
}

impl<'a> EventKind<'a> {
    /// The fields of a note-on fit the wire format: a channel of four bits,
    /// key and velocity of seven.
    pub open spec fn well_formed(self) -> bool {
        match self {
            EventKind::NoteOn { channel, key, vel } => {
                channel <= MAX_CHANNEL && key <= MAX_DATA && vel <= MAX_DATA
            },
            EventKind::Other(_) => true,
        }
    }

    /// Tests [`Self::well_formed`].
    pub fn is_well_formed(&self) -> (b: bool)
        ensures
            b == self.well_formed(),
    {
        match self {
            EventKind::NoteOn { channel, key, vel } => {
                *channel <= MAX_CHANNEL && *key <= MAX_DATA && *vel <= MAX_DATA
            },
            EventKind::Other(_) => true,
        }
    }
}

impl<'a> TimedEvent<'a> {
    /// The event is a note-on.
    pub open spec fn note_on(self) -> bool {
        self.kind is NoteOn
    }

    /// The same event at no distance from its predecessor.
    pub open spec fn at_tick_zero(self) -> TimedEvent<'a> {
        TimedEvent { delta: 0, kind: self.kind }
    }

    /// The delta fits 28 bits and the kind is well formed.
    pub open spec fn well_formed(self) -> bool {
        self.delta <= MAX_DELTA && self.kind.well_formed()
    }

    /// Tests [`Self::note_on`].
    pub fn is_note_on(&self) -> (b: bool)
        ensures
            b == self.note_on(),
    {
        match self.kind {
            EventKind::NoteOn { .. } => true,
            EventKind::Other(_) => false,
        }
    }

    /// Tests [`Self::well_formed`].
    pub fn is_well_formed(&self) -> (b: bool)
        ensures
            b == self.well_formed(),
    {
        self.delta <= MAX_DELTA && self.kind.is_well_formed()
    }
}

/// Every event of the track is well formed.
pub open spec fn track_well_formed(track: Seq<TimedEvent>) -> bool {
    forall|i: int| 0 <= i < track.len() ==> (#[trigger] track[i]).well_formed()
}

/// Tests [`track_well_formed`].
pub fn is_track_well_formed(track: &Vec<TimedEvent>) -> (b: bool)
    ensures
        b == track_well_formed(track@),
{
    let mut i: usize = 0;
    while i < track.len()
        invariant
            i <= track.len(),
            forall|j: int| 0 <= j < i ==> (#[trigger] track@[j]).well_formed(),
        decreases track.len() - i,
    {
        if !track[i].is_well_formed() {
            return false;
        }
        i += 1;
    }
    true
}

impl<'a> FileModel<'a> {
    /// Every track of the file is well formed.
    pub open spec fn well_formed(self) -> bool {
        forall|t: int| 0 <= t < self.tracks.len() ==> track_well_formed(#[trigger] self.tracks[t])
    }
}

impl<'a> View for MidiFile<'a> {
    type V = FileModel<'a>;

    open spec fn view(&self) -> FileModel<'a> {
        FileModel {
            header: self.header,
            tracks: Seq::new(self.tracks@.len(), |t: int| self.tracks@[t]@),
        }
    }
}

impl<'a> MidiFile<'a> {
    /// Tests whether the file is well formed, which encoding asks for.
    pub fn is_well_formed(&self) -> (b: bool)
        ensures
            b == self@.well_formed(),
    {
        let mut t: usize = 0;
        while t < self.tracks.len()
            invariant
                t <= self.tracks.len(),
                forall|u: int| 0 <= u < t ==> track_well_formed(#[trigger] self@.tracks[u]),
            decreases self.tracks.len() - t,
        {
            if !is_track_well_formed(&self.tracks[t]) {
                assert(!track_well_formed(self@.tracks[t as int]));
                return false;
            }
            t += 1;
        }
        true
    }
}

} // verus!
