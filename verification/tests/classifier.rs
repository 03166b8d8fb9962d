use vlc_presence::classifier::{album_to_asset, is_aquatic_album, special_case_aquatic};

#[test]
fn aquatic_albums_resolve_to_the_dedicated_pair() {
    for name in ["Axolotl", "Dragon Fish", "Shuniji"] {
        let album = name.to_string();
        assert!(is_aquatic_album(&album));
        assert_eq!(album_to_asset(&album), ("vol_c418_aquatic", "mclogo"));
        assert_eq!(
            special_case_aquatic(&album),
            "Minecraft: Update Aquatic *(Not a real album)*"
        );
    }
}

#[test]
fn cataloged_albums_map_to_their_images() {
    let cases = [
        ("Minecraft - Volume Alpha", "vol_alpha"),
        ("Minecraft - Volume Beta", "vol_beta"),
        ("Minecraft: Nether Update (Original Game Soundtrack)", "vol_nether"),
        ("Minecraft: Caves & Cliffs (Original Game Soundtrack)", "vol_caves"),
        ("Minecraft: The Wild Update (Original Game Soundtrack)", "vol_wild"),
        ("Minecraft: Trails & Tales (Original Game Soundtrack)", "vol_trails"),
        ("Minecraft: Tricky Trials (Original Game Soundtrack)", "vol_tricky"),
        ("Minecraft: Chase the Skies (Original Game Soundtrack)", "vol_chase"),
    ];
    for (album, primary) in cases {
        assert_eq!(album_to_asset(&album.to_string()), (primary, "mclogo"));
    }
}

#[test]
fn unknown_album_gets_fallback_and_empty_secondary() {
    for name in ["", "Some Other Album", "minecraft - volume alpha", "Axolotl "] {
        let album = name.to_string();
        let (primary, secondary) = album_to_asset(&album);
        assert_eq!(primary, "mclogo");
        assert_eq!(secondary, "");
    }
}

#[test]
fn non_aquatic_albums_keep_their_name() {
    let album = "Minecraft - Volume Beta".to_string();
    assert_eq!(special_case_aquatic(&album), "Minecraft - Volume Beta");
    let unknown = "Some Other Album".to_string();
    assert_eq!(special_case_aquatic(&unknown), "Some Other Album");
}
