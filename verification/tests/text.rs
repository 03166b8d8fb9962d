use vlc_presence::text::{file_name_of, underscore_spaces};

#[test]
fn underscores_replace_spaces() {
    assert_eq!(underscore_spaces("Minecraft - Volume Alpha"), "Minecraft_-_Volume_Alpha");
    assert_eq!(underscore_spaces(""), "");
    assert_eq!(underscore_spaces("nospace"), "nospace");
    assert_eq!(underscore_spaces("  "), "__");
}

#[test]
fn file_name_is_the_part_after_the_last_separator() {
    assert_eq!(file_name_of("wet_hands.ogg"), "wet_hands.ogg");
    assert_eq!(file_name_of("/music/ost/sweden.ogg"), "sweden.ogg");
    assert_eq!(file_name_of("C:\\Music\\OST\\pigstep.ogg"), "pigstep.ogg");
    assert_eq!(file_name_of("mixed\\path/last.ogg"), "last.ogg");
    assert_eq!(file_name_of("trailing/"), "");
    assert_eq!(file_name_of(""), "");
}
