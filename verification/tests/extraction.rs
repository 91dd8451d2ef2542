use smart_tags::errors::TagError;
use smart_tags::track::{extract_track_number, stem_of_name};

#[test]
fn extracts_leading_number() {
    assert_eq!(extract_track_number("2-intro.mp3"), Ok(2));
}

#[test]
fn extracts_two_digit_number() {
    assert_eq!(extract_track_number("10-outro.m4a"), Ok(10));
}

#[test]
fn extracts_first_run_only() {
    assert_eq!(extract_track_number("03-song-44.mp3"), Ok(3));
}

#[test]
fn extracts_embedded_number() {
    assert_eq!(extract_track_number("part7end.mp3"), Ok(7));
}

#[test]
fn leading_zeros_parse() {
    assert_eq!(extract_track_number("007-bond.mp3"), Ok(7));
}

#[test]
fn no_digits_fails() {
    let r = extract_track_number("cover");
    assert_eq!(r, Err(TagError::TrackExtraction { name: "cover".to_owned() }));
}

#[test]
fn stem_drops_the_extension() {
    assert_eq!(stem_of_name("cover.mp3"), "cover");
    assert_eq!(stem_of_name("2-intro.mp3"), "2-intro");
    assert_eq!(stem_of_name("a.b.c.m4a"), "a.b.c");
    assert_eq!(stem_of_name("noext"), "noext");
    assert_eq!(stem_of_name(""), "");
}

#[test]
fn empty_name_fails() {
    assert!(matches!(
        extract_track_number(""),
        Err(TagError::TrackExtraction { .. })
    ));
}

#[test]
fn largest_track_number_fits() {
    assert_eq!(extract_track_number("65535.mp3"), Ok(65535));
}

#[test]
fn too_large_run_fails() {
    assert!(matches!(
        extract_track_number("65536.mp3"),
        Err(TagError::TrackExtraction { .. })
    ));
}

#[test]
fn very_long_run_fails() {
    assert!(matches!(
        extract_track_number("123456789012345678901234567890.mp3"),
        Err(TagError::TrackExtraction { .. })
    ));
}

#[test]
fn non_ascii_name_with_number() {
    assert_eq!(extract_track_number("épisode-12.mp3"), Ok(12));
}
