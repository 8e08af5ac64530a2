use rs_audio::assets::loader::{
    has_asset, load_asset, same_text, WARNING_ASCII, WARNING_ASCII_TEXT, WARNING_VOLUME,
    WARNING_VOLUME_TEXT,
};

#[test]
fn bundled_texts_are_found_by_name() {
    assert!(has_asset("warning_ascii.txt"));
    assert!(has_asset("warning_volume.txt"));
    assert!(!has_asset("warning.txt"));
    assert!(!has_asset(""));
}

#[test]
fn the_two_texts_differ_and_offer_the_three_answers() {
    let banner = load_asset("warning_ascii.txt");
    let warning = load_asset("warning_volume.txt");
    assert_ne!(banner, warning);
    assert_eq!(banner, WARNING_ASCII_TEXT);
    assert_eq!(warning, WARNING_VOLUME_TEXT);
    assert_eq!(load_asset(WARNING_ASCII), banner);
    assert_eq!(load_asset(WARNING_VOLUME), warning);
    assert!(banner.lines().count() == 5);
    assert!(warning.contains("[c]"));
    assert!(warning.contains("[a]"));
    assert!(warning.contains("[d]"));
}

#[test]
fn same_text_compares_character_by_character() {
    assert!(same_text("", ""));
    assert!(same_text("caf\u{e9}", "caf\u{e9}"));
    assert!(!same_text("cafe", "caf\u{e9}"));
    assert!(!same_text("abc", "abcd"));
    assert!(!same_text("abd", "abc"));
}
