//! The data the engine works on: playback snapshots as the player reports
//! them, the anchor the engine owns across polls, and the presence payload
//! it emits.

use vstd::prelude::*;

verus! {

/// Milliseconds of drift between the observed and the predicted playback
/// position above which a change counts as a user-initiated seek.
pub const DRIFT_TOLERANCE_MS: i64 = 670;

/// The playback position is reported in millionths of the track.
pub const POSITION_SCALE: i64 = 1_000_000;

/// Upper bound on the absolute timestamps the engine works with,
/// milliseconds since the Unix epoch.  Far beyond any real clock value; it
/// keeps every intermediate of the anchor arithmetic inside `i64`.
pub const MAX_EPOCH_MS: i64 = 100_000_000_000_000;

/// Upper bound on a track's length in seconds, so that a length expressed
/// in milliseconds stays below [`MAX_EPOCH_MS`].
pub const MAX_TRACK_LENGTH_S: i64 = 100_000_000_000;

/// Playback status as the player reports it.
#[derive(Clone, Copy, PartialEq, Eq, Structural, Debug)]
pub enum PlayState {
    Playing,
    Paused,
    Stopped,
    Unknown,
}

/// Track metadata from the player's status document; every field may be
/// absent.
pub struct Meta {
    pub title: Option<String>,
    pub filename: Option<String>,
    pub artist: Option<String>,
    pub album: Option<String>,
}

/// The metadata category of the status document.
pub struct Categories {
    pub meta: Option<Meta>,
}

/// The information block of the status document.
pub struct Information {
    pub category: Option<Categories>,
}

/// One polled observation of the player.
pub struct Snapshot {
    pub state: PlayState,
    /// Total track length in seconds.
    pub length: Option<i64>,
    /// Normalized playback position, in millionths of the track
    /// (`0 ..= POSITION_SCALE`).
    pub position_ppm: Option<i64>,
    pub information: Option<Information>,
}

/// The mathematical view of a snapshot: the metadata chain flattened, a
/// field `None` when any level of the chain is absent.
pub struct SnapshotModel {
    pub state: PlayState,
    pub length: Option<int>,
    pub position_ppm: Option<int>,
    pub title: Option<Seq<char>>,
    pub artist: Option<Seq<char>>,
    pub album: Option<Seq<char>>,
    pub filename: Option<Seq<char>>,
}

impl View for Snapshot {
    type V = SnapshotModel;

    open spec fn view(&self) -> SnapshotModel {
        SnapshotModel {
            state: self.state,
            length: match self.length {
                Some(l) => Some(l as int),
                None => None,
            },
            position_ppm: match self.position_ppm {
                Some(p) => Some(p as int),
                None => None,
            },
            title: match self.information {
                Some(Information { category: Some(Categories { meta: Some(ref m) }) }) => match m
                    .title {
                    Some(ref t) => Some(t@),
                    None => None,
                },
                _ => None,
            },
            artist: match self.information {
                Some(Information { category: Some(Categories { meta: Some(ref m) }) }) => match m
                    .artist {
                    Some(ref a) => Some(a@),
                    None => None,
                },
                _ => None,
            },
            album: match self.information {
                Some(Information { category: Some(Categories { meta: Some(ref m) }) }) => match m
                    .album {
                    Some(ref a) => Some(a@),
                    None => None,
                },
                _ => None,
            },
            filename: match self.information {
                Some(Information { category: Some(Categories { meta: Some(ref m) }) }) => match m
                    .filename {
                    Some(ref f) => Some(f@),
                    None => None,
                },
                _ => None,
            },
        }
    }
}

impl SnapshotModel {
    /// Numeric fields stay inside the bounds the player's protocol gives
    /// them: a non-negative length and a position that is a fraction of the
    /// track.
    pub open spec fn wf(self) -> bool {
        &&& match self.length {
            Some(l) => 0 <= l <= MAX_TRACK_LENGTH_S,
            None => true,
        }
        &&& match self.position_ppm {
            Some(p) => 0 <= p <= POSITION_SCALE,
            None => true,
        }
    }

    pub open spec fn is_playing(self) -> bool {
        self.state is Playing
    }

    /// Track title, with the placeholder used when the metadata is absent.
    pub open spec fn title_or_default(self) -> Seq<char> {
        match self.title {
            Some(t) => t,
            None => "Unknown Title"@,
        }
    }

    /// Artist, with the placeholder used when the metadata is absent.
    pub open spec fn artist_or_default(self) -> Seq<char> {
        match self.artist {
            Some(a) => a,
            None => "Artist"@,
        }
    }

    /// Album, with the placeholder used when the metadata is absent.
    pub open spec fn album_or_default(self) -> Seq<char> {
        match self.album {
            Some(a) => a,
            None => "Album"@,
        }
    }

    /// Source filename; empty when the metadata is absent.
    pub open spec fn filename_or_default(self) -> Seq<char> {
        match self.filename {
            Some(f) => f,
            None => ""@,
        }
    }

    /// Track length in seconds, absent meaning zero.
    pub open spec fn length_s(self) -> int {
        match self.length {
            Some(l) => l,
            None => 0,
        }
    }

    /// Playback position in millionths of the track, absent meaning zero.
    pub open spec fn position_ppm_or_zero(self) -> int {
        match self.position_ppm {
            Some(p) => p,
            None => 0,
        }
    }

    /// The playback position in milliseconds, as observed in this snapshot:
    /// the position (in millionths of the track) times the length in
    /// seconds gives thousandths of a millisecond.  Preferred over any
    /// player-reported elapsed-time field, which is only
    /// integer-second-accurate.
    pub open spec fn observed_seek_ms(self) -> int {
        self.position_ppm_or_zero() * self.length_s() / 1000
    }
}

/// The observed playback position of a well-formed snapshot is between
/// zero and the end of the longest representable track.
pub proof fn lemma_observed_seek_bounds(s: SnapshotModel)
    requires
        s.wf(),
    ensures
        0 <= s.observed_seek_ms() <= MAX_EPOCH_MS,
{
    let pos = s.position_ppm_or_zero();
    let len = s.length_s();
    assert(0 <= pos * len <= 100_000_000_000_000_000) by (nonlinear_arith)
        requires
            0 <= pos <= POSITION_SCALE,
            0 <= len <= MAX_TRACK_LENGTH_S,
    ;
    assert(0 <= pos * len / 1000 <= MAX_EPOCH_MS) by (nonlinear_arith)
        requires
            0 <= pos * len <= 100_000_000_000_000_000,
    ;
}

/// The engine's belief about the currently displayed track: its source
/// filename, the play flag last observed, and the absolute timestamps
/// between which the track runs if playback continues uninterrupted.
pub struct Anchor {
    /// Source filename of the tracked file; empty when none is tracked yet.
    pub active_file: String,
    /// The is-playing flag recorded by the previous reconciliation call.
    pub is_playing: bool,
    /// Absolute start timestamp, milliseconds since the epoch.
    pub start_ms: i64,
    /// Absolute end timestamp, milliseconds since the epoch.
    pub end_ms: i64,
}

/// The mathematical view of an [`Anchor`].
pub struct AnchorModel {
    pub active_file: Seq<char>,
    pub is_playing: bool,
    pub start_ms: int,
    pub end_ms: int,
}

impl View for Anchor {
    type V = AnchorModel;

    open spec fn view(&self) -> AnchorModel {
        AnchorModel {
            active_file: self.active_file@,
            is_playing: self.is_playing,
            start_ms: self.start_ms as int,
            end_ms: self.end_ms as int,
        }
    }
}

impl AnchorModel {
    /// The anchor window never runs backwards, and both ends stay within
    /// bounds that keep the reconciliation arithmetic inside `i64`.
    pub open spec fn wf(self) -> bool {
        &&& -(MAX_EPOCH_MS as int) <= self.start_ms <= MAX_EPOCH_MS as int
        &&& self.start_ms <= self.end_ms
        &&& self.end_ms - self.start_ms <= MAX_EPOCH_MS as int
    }
}

/// What a reconciliation call decided about a snapshot.
#[derive(Clone, Copy, PartialEq, Eq, Structural, Debug)]
pub enum Classification {
    TrackChanged,
    SeekDetected,
    NoSignificantChange,
}

/// One presence update, ready for delivery to the display.
pub struct PresencePayload {
    /// Detail line, `"artist - title"`.
    pub details: String,
    /// Secondary line: the album, rewritten for the Aquatic track group.
    pub state_line: String,
    /// Primary image id.
    pub large_image: String,
    /// Secondary image id; empty when none is wanted.  Never attach an
    /// empty secondary image to the display connection.
    pub small_image: String,
    /// Descriptive text of the primary image: the track's category while
    /// playing, a fixed pause marker otherwise.
    pub large_text: String,
    /// Descriptive text of the secondary image, present exactly when the
    /// secondary image is.
    pub small_text: Option<String>,
    /// Link attached to the primary image; only cataloged albums outside
    /// the Aquatic group get one.
    pub large_url: Option<String>,
    /// Absolute `(start, end)` timestamps, present only while playing.
    pub timestamps: Option<(i64, i64)>,
}

/// The mathematical view of a [`PresencePayload`].
pub struct PayloadModel {
    pub details: Seq<char>,
    pub state_line: Seq<char>,
    pub large_image: Seq<char>,
    pub small_image: Seq<char>,
    pub large_text: Seq<char>,
    pub small_text: Option<Seq<char>>,
    pub large_url: Option<Seq<char>>,
    pub timestamps: Option<(int, int)>,
}

impl View for PresencePayload {
    type V = PayloadModel;

    open spec fn view(&self) -> PayloadModel {
        PayloadModel {
            details: self.details@,
            state_line: self.state_line@,
            large_image: self.large_image@,
            small_image: self.small_image@,
            large_text: self.large_text@,
            small_text: match self.small_text {
                Some(ref t) => Some(t@),
                None => None,
            },
            large_url: match self.large_url {
                Some(ref u) => Some(u@),
                None => None,
            },
            timestamps: match self.timestamps {
                Some((s, e)) => Some((s as int, e as int)),
                None => None,
            },
        }
    }
}

} // verus!
