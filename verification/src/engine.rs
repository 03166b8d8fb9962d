//! The playback-state reconciliation engine.
//!
//! Each poll hands the engine one snapshot and the current time.  The
//! engine decides whether the track changed, whether the user seeked, keeps
//! the anchor's absolute start/end timestamps in step, and produces a
//! presence payload only when an update is warranted.

use vstd::prelude::*;
use vstd::math::abs;
use crate::classifier::{
    album_to_asset, is_aquatic_album, lemma_primary_fallback_iff, special_case_aquatic,
    spec_album_in_catalog, spec_album_primary, spec_album_secondary, spec_is_aquatic_album,
    spec_special_cased,
};
use crate::model::{
    lemma_observed_seek_bounds, Anchor, AnchorModel, Classification, Meta, PayloadModel, PlayState,
    PresencePayload, Snapshot, SnapshotModel, DRIFT_TOLERANCE_MS, MAX_EPOCH_MS, MAX_TRACK_LENGTH_S,
    POSITION_SCALE,
};
use crate::songs::{dimension_to_string, song_to_dimension, spec_dimension_label,
    spec_song_dimension};
use crate::text::{file_name_of, spec_file_name, spec_underscored, str_eq, underscore_spaces};

verus! {

/// Whether the snapshot names a different file than the anchor tracks.
pub open spec fn spec_track_changed(a: AnchorModel, s: SnapshotModel) -> bool {
    s.filename_or_default() != a.active_file
}

/// Observed minus predicted playback position, in milliseconds.  The
/// prediction assumes playback continued uninterrupted since the anchor's
/// start.
pub open spec fn spec_seek_delta_ms(a: AnchorModel, s: SnapshotModel, now_ms: int) -> int {
    s.observed_seek_ms() - (now_ms - a.start_ms)
}

/// What a reconciliation call decides: a track change wins over everything,
/// then a drift beyond tolerance while playing counts as a seek, and
/// anything else is insignificant.
pub open spec fn spec_classify(a: AnchorModel, s: SnapshotModel, now_ms: int) -> Classification {
    if spec_track_changed(a, s) {
        Classification::TrackChanged
    } else if s.is_playing() && abs(spec_seek_delta_ms(a, s, now_ms)) > DRIFT_TOLERANCE_MS {
        Classification::SeekDetected
    } else {
        Classification::NoSignificantChange
    }
}

/// The anchor after a reconciliation call: reset on a track change, shifted
/// by the seek delta on a seek, untouched otherwise; the play flag is
/// recorded unconditionally.
pub open spec fn spec_next_anchor(a: AnchorModel, s: SnapshotModel, now_ms: int) -> AnchorModel {
    match spec_classify(a, s, now_ms) {
        Classification::TrackChanged => AnchorModel {
            active_file: s.filename_or_default(),
            is_playing: s.is_playing(),
            start_ms: now_ms,
            end_ms: now_ms + s.length_s() * 1000,
        },
        Classification::SeekDetected => AnchorModel {
            active_file: a.active_file,
            is_playing: s.is_playing(),
            start_ms: a.start_ms - spec_seek_delta_ms(a, s, now_ms),
            end_ms: a.end_ms - spec_seek_delta_ms(a, s, now_ms),
        },
        Classification::NoSignificantChange => AnchorModel { is_playing: s.is_playing(), ..a },
    }
}

/// Whether the call produces a payload: only a snapshot that neither
/// changed the track, nor seeked, nor toggled the play flag is suppressed.
pub open spec fn spec_emits(a: AnchorModel, s: SnapshotModel, now_ms: int) -> bool {
    spec_classify(a, s, now_ms) != Classification::NoSignificantChange || s.is_playing()
        != a.is_playing
}

/// The payload a reconciliation call produces when one is warranted.
pub open spec fn spec_payload(a: AnchorModel, s: SnapshotModel, now_ms: int) -> PayloadModel {
    let a2 = spec_next_anchor(a, s, now_ms);
    let album = s.album_or_default();
    PayloadModel {
        details: s.artist_or_default() + " - "@ + s.title_or_default(),
        state_line: spec_special_cased(album),
        large_image: spec_album_primary(album),
        small_image: spec_album_secondary(album),
        large_text: if s.is_playing() {
            spec_dimension_label(spec_song_dimension(spec_file_name(s.filename_or_default())))
        } else {
            "Paused"@
        },
        small_text: if spec_album_in_catalog(album) {
            Some("from Minecraft"@)
        } else {
            None
        },
        large_url: if spec_album_in_catalog(album) && !spec_is_aquatic_album(album) {
            Some("https://minecraft.wiki/w/"@ + spec_underscored(spec_special_cased(album)))
        } else {
            None
        },
        timestamps: if s.is_playing() {
            Some((a2.start_ms, a2.end_ms))
        } else {
            None
        },
    }
}

impl Snapshot {
    /// The playback position in milliseconds observed in this snapshot.
    pub fn observed_seek_ms(&self) -> (r: i64)
        requires
            self@.wf(),
        ensures
            r == self@.observed_seek_ms(),
            0 <= r <= MAX_EPOCH_MS,
    {
        let pos: i64 = match self.position_ppm {
            Some(p) => p,
            None => 0,
        };
        let len: i64 = match self.length {
            Some(l) => l,
            None => 0,
        };
        proof {
            assert(0 <= pos * len <= 100_000_000_000_000_000) by (nonlinear_arith)
                requires
                    0 <= pos <= POSITION_SCALE,
                    0 <= len <= MAX_TRACK_LENGTH_S,
            ;
            lemma_observed_seek_bounds(self@);
        }
        pos * len / 1000
    }

    fn meta(&self) -> (r: Option<&Meta>)
        ensures
            match r {
                Some(m) => {
                    &&& self@.title == (match m.title {
                        Some(ref t) => Some(t@),
                        None => None,
                    })
                    &&& self@.artist == (match m.artist {
                        Some(ref a) => Some(a@),
                        None => None,
                    })
                    &&& self@.album == (match m.album {
                        Some(ref a) => Some(a@),
                        None => None,
                    })
                    &&& self@.filename == (match m.filename {
                        Some(ref f) => Some(f@),
                        None => None,
                    })
                },
                None => {
                    &&& self@.title is None
                    &&& self@.artist is None
                    &&& self@.album is None
                    &&& self@.filename is None
                },
            },
    {
        match &self.information {
            Some(info) => match &info.category {
                Some(cat) => match &cat.meta {
                    Some(m) => Some(m),
                    None => None,
                },
                None => None,
            },
            None => None,
        }
    }

    /// Track title with its placeholder default.
    pub fn title_or_default(&self) -> (r: String)
        ensures
            r@ == self@.title_or_default(),
    {
        match self.meta() {
            Some(m) => match &m.title {
                Some(t) => t.clone(),
                None => String::from_str("Unknown Title"),
            },
            None => String::from_str("Unknown Title"),
        }
    }

    /// Artist with its placeholder default.
    pub fn artist_or_default(&self) -> (r: String)
        ensures
            r@ == self@.artist_or_default(),
    {
        match self.meta() {
            Some(m) => match &m.artist {
                Some(a) => a.clone(),
                None => String::from_str("Artist"),
            },
            None => String::from_str("Artist"),
        }
    }

    /// Album with its placeholder default.
    pub fn album_or_default(&self) -> (r: String)
        ensures
            r@ == self@.album_or_default(),
    {
        match self.meta() {
            Some(m) => match &m.album {
                Some(a) => a.clone(),
                None => String::from_str("Album"),
            },
            None => String::from_str("Album"),
        }
    }

    /// Source filename, empty when absent.
    pub fn filename_or_default(&self) -> (r: String)
        ensures
            r@ == self@.filename_or_default(),
    {
        match self.meta() {
            Some(m) => match &m.filename {
                Some(f) => f.clone(),
                None => String::from_str(""),
            },
            None => String::from_str(""),
        }
    }

    fn is_playing(&self) -> (r: bool)
        ensures
            r == self@.is_playing(),
    {
        match self.state {
            PlayState::Playing => true,
            _ => false,
        }
    }
}

impl Anchor {
    /// The empty anchor the engine starts from: no tracked file, not
    /// playing, both timestamps zero.
    pub fn new() -> (a: Anchor)
        ensures
            a@ == (AnchorModel {
                active_file: Seq::<char>::empty(),
                is_playing: false,
                start_ms: 0,
                end_ms: 0,
            }),
            a@.wf(),
    {
        let a = Anchor { active_file: String::new(), is_playing: false, start_ms: 0, end_ms: 0 };
        proof {
            assert(a@.active_file =~= Seq::<char>::empty());
        }
        a
    }

    /// Observed minus predicted playback position for this snapshot.
    pub fn seek_delta_ms(&self, snapshot: &Snapshot, now_ms: i64) -> (r: i64)
        requires
            self@.wf(),
            snapshot@.wf(),
            0 <= now_ms <= MAX_EPOCH_MS,
        ensures
            r == spec_seek_delta_ms(self@, snapshot@, now_ms as int),
            -2 * MAX_EPOCH_MS <= r <= 2 * MAX_EPOCH_MS,
    {
        let observed = snapshot.observed_seek_ms();
        observed - (now_ms - self.start_ms)
    }

    /// Decides what the snapshot means against this anchor: a track change,
    /// a user seek, or nothing significant.
    pub fn classify(&self, snapshot: &Snapshot, now_ms: i64) -> (r: Classification)
        requires
            self@.wf(),
            snapshot@.wf(),
            0 <= now_ms <= MAX_EPOCH_MS,
        ensures
            r == spec_classify(self@, snapshot@, now_ms as int),
    {
        let filename = snapshot.filename_or_default();
        if !str_eq(self.active_file.as_str(), filename.as_str()) {
            return Classification::TrackChanged;
        }
        let delta = self.seek_delta_ms(snapshot, now_ms);
        if snapshot.is_playing() && (delta > DRIFT_TOLERANCE_MS || delta < -DRIFT_TOLERANCE_MS) {
            Classification::SeekDetected
        } else {
            Classification::NoSignificantChange
        }
    }

    /// One reconciliation step: consumes a snapshot and the current time,
    /// updates the anchor, and returns the presence payload to deliver, or
    /// `None` when no update is warranted.
    pub fn reconcile(&mut self, snapshot: &Snapshot, now_ms: i64) -> (r: Option<PresencePayload>)
        requires
            old(self)@.wf(),
            snapshot@.wf(),
            0 <= now_ms <= MAX_EPOCH_MS,
        ensures
            final(self)@ == spec_next_anchor(old(self)@, snapshot@, now_ms as int),
            final(self)@.wf(),
            (r is Some) == spec_emits(old(self)@, snapshot@, now_ms as int),
            (r matches Some(p) ==> p@ == spec_payload(old(self)@, snapshot@, now_ms as int)),
    {
        let classification = self.classify(snapshot, now_ms);
        let playing = snapshot.is_playing();
        let filename = snapshot.filename_or_default();

        let mut emit = true;
        match classification {
            Classification::TrackChanged => {
                let len: i64 = match snapshot.length {
                    Some(l) => l,
                    None => 0,
                };
                self.active_file = filename.clone();
                self.start_ms = now_ms;
                self.end_ms = now_ms + len * 1000;
            },
            Classification::SeekDetected => {
                let delta = self.seek_delta_ms(snapshot, now_ms);
                proof {
                    lemma_observed_seek_bounds(snapshot@);
                    assert(self.start_ms - delta == now_ms - snapshot@.observed_seek_ms());
                }
                self.start_ms = self.start_ms - delta;
                self.end_ms = self.end_ms - delta;
            },
            Classification::NoSignificantChange => {
                if self.is_playing == playing {
                    emit = false;
                }
            },
        }
        self.is_playing = playing;
        if !emit {
            return None;
        }

        let title = snapshot.title_or_default();
        let artist = snapshot.artist_or_default();
        let album_raw = snapshot.album_or_default();
        let album = special_case_aquatic(&album_raw);

        let dimension = song_to_dimension(file_name_of(filename.as_str()));
        let (large_image, small_image) = album_to_asset(&album_raw);
        let aquatic = is_aquatic_album(&album_raw);
        let fallback = str_eq(large_image, "mclogo");
        proof {
            lemma_primary_fallback_iff(album_raw@);
        }

        let large_text = if playing {
            String::from_str(dimension_to_string(&dimension))
        } else {
            String::from_str("Paused")
        };
        let small_text = if fallback {
            None
        } else {
            Some(String::from_str("from Minecraft"))
        };
        let large_url = if !fallback && !aquatic {
            let mut url = String::from_str("https://minecraft.wiki/w/");
            url.append(underscore_spaces(album.as_str()).as_str());
            Some(url)
        } else {
            None
        };

        let mut details = artist.clone();
        details.append(" - ");
        details.append(title.as_str());

        let timestamps = if playing {
            Some((self.start_ms, self.end_ms))
        } else {
            None
        };

        Some(
            PresencePayload {
                details,
                state_line: album,
                large_image: String::from_str(large_image),
                small_image: String::from_str(small_image),
                large_text,
                small_text,
                large_url,
                timestamps,
            },
        )
    }
}

/// Steady state is idempotent: whatever a reconciliation call did, later
/// calls with the same filename and play flag whose drift stays within
/// tolerance produce no payload and leave the anchor untouched.
pub proof fn lemma_steady_state_idempotent(a0: AnchorModel, s: SnapshotModel, t1: int, t2: int)
    requires
        abs(spec_seek_delta_ms(spec_next_anchor(a0, s, t1), s, t2)) <= DRIFT_TOLERANCE_MS,
    ensures
        !spec_emits(spec_next_anchor(a0, s, t1), s, t2),
        spec_next_anchor(spec_next_anchor(a0, s, t1), s, t2) == spec_next_anchor(a0, s, t1),
{
}

/// A track change resets the anchor: the new window starts now and ends
/// after the new track's length, whatever the anchor held before.
pub proof fn lemma_track_change_resets_anchor(a: AnchorModel, s: SnapshotModel, t: int)
    requires
        spec_track_changed(a, s),
    ensures
        spec_next_anchor(a, s, t).active_file == s.filename_or_default(),
        spec_next_anchor(a, s, t).start_ms == t,
        spec_next_anchor(a, s, t).end_ms == t + 1000 * s.length_s(),
        spec_emits(a, s, t),
{
}

/// A detected seek with delta `d` shifts both anchor timestamps by exactly
/// `-d`, preserving the width of the window.
pub proof fn lemma_seek_shift(a: AnchorModel, s: SnapshotModel, t: int)
    requires
        !spec_track_changed(a, s),
        s.is_playing(),
        abs(spec_seek_delta_ms(a, s, t)) > DRIFT_TOLERANCE_MS,
    ensures
        spec_next_anchor(a, s, t).start_ms == a.start_ms - spec_seek_delta_ms(a, s, t),
        spec_next_anchor(a, s, t).end_ms == a.end_ms - spec_seek_delta_ms(a, s, t),
        spec_next_anchor(a, s, t).end_ms - spec_next_anchor(a, s, t).start_ms == a.end_ms
            - a.start_ms,
        spec_emits(a, s, t),
{
}

/// A payload produced while the player is not playing carries no
/// timestamps: a consumer should not show a countdown for a clock that
/// does not advance.
pub proof fn lemma_pause_suppresses_timestamps(a: AnchorModel, s: SnapshotModel, t: int)
    requires
        !s.is_playing(),
    ensures
        spec_payload(a, s, t).timestamps is None,
{
}

/// An album of the Aquatic track group always resolves to the dedicated
/// image pair, the rewritten album label, and no link, regardless of the
/// snapshot's filename or anything else in it.
pub proof fn lemma_aquatic_payload(a: AnchorModel, s: SnapshotModel, t: int)
    requires
        spec_is_aquatic_album(s.album_or_default()),
    ensures
        spec_payload(a, s, t).large_image == "vol_c418_aquatic"@,
        spec_payload(a, s, t).small_image == "mclogo"@,
        spec_payload(a, s, t).state_line == "Minecraft: Update Aquatic *(Not a real album)*"@,
        spec_payload(a, s, t).large_url is None,
{
}

/// An album outside the catalog resolves to the fallback primary image,
/// an empty secondary image, and neither secondary text nor link: the
/// fallback image is never paired with a non-empty secondary image.
pub proof fn lemma_fallback_payload(a: AnchorModel, s: SnapshotModel, t: int)
    requires
        !spec_album_in_catalog(s.album_or_default()),
    ensures
        spec_payload(a, s, t).large_image == "mclogo"@,
        spec_payload(a, s, t).small_image == Seq::<char>::empty(),
        spec_payload(a, s, t).small_text is None,
        spec_payload(a, s, t).large_url is None,
{
    crate::classifier::lemma_fallback_secondary_empty(s.album_or_default());
}

} // verus!
