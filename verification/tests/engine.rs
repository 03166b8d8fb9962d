use vlc_presence::model::{
    Anchor, Categories, Classification, Information, Meta, PlayState, Snapshot,
};

fn meta(
    title: Option<&str>,
    artist: Option<&str>,
    album: Option<&str>,
    filename: Option<&str>,
) -> Option<Information> {
    Some(Information {
        category: Some(Categories {
            meta: Some(Meta {
                title: title.map(|s| s.to_string()),
                filename: filename.map(|s| s.to_string()),
                artist: artist.map(|s| s.to_string()),
                album: album.map(|s| s.to_string()),
            }),
        }),
    })
}

fn playing_snapshot(length: i64, position_ppm: i64, filename: &str, album: &str) -> Snapshot {
    Snapshot {
        state: PlayState::Playing,
        length: Some(length),
        position_ppm: Some(position_ppm),
        information: meta(Some("Title"), Some("Artist Name"), Some(album), Some(filename)),
    }
}

#[test]
fn example_scenario_wet_hands() {
    let mut anchor = Anchor::new();
    let snapshot = Snapshot {
        state: PlayState::Playing,
        length: Some(200),
        position_ppm: Some(500_000),
        information: meta(
            Some("Wet Hands"),
            Some("C418"),
            Some("Minecraft - Volume Alpha"),
            Some("wet_hands.ogg"),
        ),
    };
    let payload = anchor.reconcile(&snapshot, 10_000).expect("a payload is warranted");
    assert_eq!(anchor.start_ms, 10_000);
    assert_eq!(anchor.end_ms, 210_000);
    assert_eq!(anchor.active_file, "wet_hands.ogg");
    assert!(anchor.is_playing);
    assert_eq!(payload.details, "C418 - Wet Hands");
    assert_eq!(payload.state_line, "Minecraft - Volume Alpha");
    assert_eq!(payload.large_image, "vol_alpha");
    assert_eq!(payload.small_image, "mclogo");
    assert_eq!(payload.large_text, "Overworld Music");
    assert_eq!(payload.small_text.as_deref(), Some("from Minecraft"));
    assert_eq!(
        payload.large_url.as_deref(),
        Some("https://minecraft.wiki/w/Minecraft_-_Volume_Alpha")
    );
    assert_eq!(payload.timestamps, Some((10_000, 210_000)));
}

#[test]
fn steady_state_suppresses_updates() {
    let mut anchor = Anchor::new();
    let snapshot = playing_snapshot(200, 0, "sweden.ogg", "Minecraft - Volume Alpha");
    assert!(anchor.reconcile(&snapshot, 1_000).is_some());
    // One second later the track has advanced by one second: position
    // 5000 ppm of 200 s is 1000 ms, exactly the predicted seek.
    let later = playing_snapshot(200, 5_000, "sweden.ogg", "Minecraft - Volume Alpha");
    assert!(anchor.reconcile(&later, 2_000).is_none());
    assert_eq!(anchor.start_ms, 1_000);
    assert_eq!(anchor.end_ms, 201_000);
    // And again, with drift inside the tolerance.
    let drifted = playing_snapshot(200, 7_500, "sweden.ogg", "Minecraft - Volume Alpha");
    assert!(anchor.reconcile(&drifted, 3_000).is_none());
    assert_eq!(anchor.start_ms, 1_000);
}

#[test]
fn track_change_resets_anchor() {
    let mut anchor = Anchor::new();
    let first = playing_snapshot(200, 0, "sweden.ogg", "Minecraft - Volume Alpha");
    anchor.reconcile(&first, 1_000);
    let second = playing_snapshot(180, 0, "dry_hands.ogg", "Minecraft - Volume Alpha");
    let payload = anchor.reconcile(&second, 500_000);
    assert!(payload.is_some());
    assert_eq!(anchor.active_file, "dry_hands.ogg");
    assert_eq!(anchor.start_ms, 500_000);
    assert_eq!(anchor.end_ms, 500_000 + 180_000);
}

#[test]
fn seek_shifts_both_timestamps() {
    let mut anchor = Anchor::new();
    let first = playing_snapshot(200, 0, "sweden.ogg", "Minecraft - Volume Alpha");
    anchor.reconcile(&first, 1_000);
    let width = anchor.end_ms - anchor.start_ms;
    // At 11_000 the engine predicts 10_000 ms elapsed; the user seeked to
    // the middle of the track (100_000 ms), a delta of +90_000.
    let seeked = playing_snapshot(200, 500_000, "sweden.ogg", "Minecraft - Volume Alpha");
    let payload = anchor.reconcile(&seeked, 11_000).expect("seek warrants an update");
    assert_eq!(anchor.start_ms, 1_000 - 90_000);
    assert_eq!(anchor.end_ms, 201_000 - 90_000);
    assert_eq!(anchor.end_ms - anchor.start_ms, width);
    assert_eq!(payload.timestamps, Some((anchor.start_ms, anchor.end_ms)));
}

#[test]
fn seek_while_paused_is_not_a_seek() {
    let mut anchor = Anchor::new();
    let first = playing_snapshot(200, 0, "sweden.ogg", "Minecraft - Volume Alpha");
    anchor.reconcile(&first, 1_000);
    let mut paused = playing_snapshot(200, 500_000, "sweden.ogg", "Minecraft - Volume Alpha");
    paused.state = PlayState::Paused;
    // The play flag changed, so a payload is still produced, but the
    // anchor window is not shifted.
    let payload = anchor.reconcile(&paused, 11_000).expect("pause warrants an update");
    assert_eq!(anchor.start_ms, 1_000);
    assert_eq!(anchor.end_ms, 201_000);
    assert!(!anchor.is_playing);
    assert!(payload.timestamps.is_none());
    assert_eq!(payload.large_text, "Paused");
    // A second paused poll changes nothing and is suppressed.
    assert!(anchor.reconcile(&paused, 12_000).is_none());
}

#[test]
fn unknown_length_gives_zero_width_window() {
    let mut anchor = Anchor::new();
    let snapshot = Snapshot {
        state: PlayState::Playing,
        length: None,
        position_ppm: None,
        information: meta(None, None, None, Some("sweden.ogg")),
    };
    let payload = anchor.reconcile(&snapshot, 42_000).expect("track change");
    assert_eq!(anchor.start_ms, 42_000);
    assert_eq!(anchor.end_ms, 42_000);
    assert_eq!(payload.timestamps, Some((42_000, 42_000)));
}

#[test]
fn absent_metadata_uses_placeholders() {
    let mut anchor = Anchor::new();
    let snapshot = Snapshot {
        state: PlayState::Playing,
        length: Some(100),
        position_ppm: Some(0),
        information: None,
    };
    // The fresh anchor already tracks the empty filename, but the observed
    // position lags a full second behind the prediction, so the call counts
    // as a seek and a payload is due.
    let payload = anchor.reconcile(&snapshot, 1_000).expect("drift beyond tolerance");
    assert_eq!(payload.details, "Artist - Unknown Title");
    assert_eq!(payload.state_line, "Album");
    assert_eq!(payload.large_image, "mclogo");
    assert_eq!(payload.small_image, "");
    assert!(payload.small_text.is_none());
    assert!(payload.large_url.is_none());
    assert_eq!(payload.large_text, "Minecraft Music");
}

#[test]
fn aquatic_album_payload() {
    let mut anchor = Anchor::new();
    let snapshot = playing_snapshot(160, 0, "axolotl.ogg", "Axolotl");
    let payload = anchor.reconcile(&snapshot, 1_000).expect("track change");
    assert_eq!(payload.large_image, "vol_c418_aquatic");
    assert_eq!(payload.small_image, "mclogo");
    assert_eq!(payload.state_line, "Minecraft: Update Aquatic *(Not a real album)*");
    assert!(payload.large_url.is_none());
    assert_eq!(payload.small_text.as_deref(), Some("from Minecraft"));
}

#[test]
fn filename_with_path_is_classified_by_its_file_name() {
    let mut anchor = Anchor::new();
    let snapshot = playing_snapshot(200, 0, "C:\\music\\ost\\pigstep.ogg", "Unknown Album");
    let payload = anchor.reconcile(&snapshot, 1_000).expect("track change");
    assert_eq!(payload.large_text, "Music Disc");
    assert_eq!(anchor.active_file, "C:\\music\\ost\\pigstep.ogg");
}

#[test]
fn classify_matches_the_three_cases() {
    let mut anchor = Anchor::new();
    let snapshot = playing_snapshot(200, 0, "sweden.ogg", "Minecraft - Volume Alpha");
    assert_eq!(anchor.classify(&snapshot, 1_000), Classification::TrackChanged);
    anchor.reconcile(&snapshot, 1_000);
    let steady = playing_snapshot(200, 5_000, "sweden.ogg", "Minecraft - Volume Alpha");
    assert_eq!(anchor.classify(&steady, 2_000), Classification::NoSignificantChange);
    let seeked = playing_snapshot(200, 500_000, "sweden.ogg", "Minecraft - Volume Alpha");
    assert_eq!(anchor.classify(&seeked, 2_000), Classification::SeekDetected);
}

#[test]
fn observed_seek_uses_position_times_length() {
    let snapshot = playing_snapshot(200, 500_000, "sweden.ogg", "Minecraft - Volume Alpha");
    assert_eq!(snapshot.observed_seek_ms(), 100_000);
    let no_position = Snapshot {
        state: PlayState::Playing,
        length: Some(200),
        position_ppm: None,
        information: None,
    };
    assert_eq!(no_position.observed_seek_ms(), 0);
}

#[test]
fn clock_is_not_negative() {
    assert!(vlc_presence::clock::epoch_ms() >= 0);
}
