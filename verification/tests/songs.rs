use vlc_presence::songs::{dimension_to_string, song_to_dimension, Dimension};

#[test]
fn overworld_tracks() {
    for f in ["sweden.ogg", "wet_hands.ogg", "aerie.ogg", "shuniji.ogg", "yakusoku.ogg"] {
        assert_eq!(song_to_dimension(f), Dimension::Overworld);
    }
}

#[test]
fn nether_tracks() {
    for f in ["concrete_halls.ogg", "rubedo.ogg", "warmth.ogg"] {
        assert_eq!(song_to_dimension(f), Dimension::Nether);
    }
}

#[test]
fn end_tracks() {
    for f in ["boss.ogg", "the_end.ogg", "alpha.ogg"] {
        assert_eq!(song_to_dimension(f), Dimension::End);
    }
}

#[test]
fn disc_tracks() {
    for f in ["11.ogg", "pigstep.ogg", "lava_chicken.ogg", "creator_music_box.ogg"] {
        assert_eq!(song_to_dimension(f), Dimension::Disc);
    }
}

#[test]
fn unknown_tracks_fall_back_to_the_default_category() {
    for f in ["", "sweden", "Sweden.ogg", "sweden.ogg ", "not_in_the_game.ogg"] {
        assert_eq!(song_to_dimension(f), Dimension::Minecraft);
    }
}

#[test]
fn dimension_labels() {
    assert_eq!(dimension_to_string(&Dimension::Overworld), "Overworld Music");
    assert_eq!(dimension_to_string(&Dimension::Nether), "Nether Music");
    assert_eq!(dimension_to_string(&Dimension::End), "End Music");
    assert_eq!(dimension_to_string(&Dimension::Disc), "Music Disc");
    assert_eq!(dimension_to_string(&Dimension::Minecraft), "Minecraft Music");
}
