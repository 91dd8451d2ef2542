use id3::{Tag, TagLike, Version};
use std::io::Cursor;

// The library trusts the ID3 codec to hand back what its setters stored.
// This exercises that assumption with the real codec, through an in-memory
// serialization round trip of every field the smart recipe sets.
#[test]
fn id3_codec_round_trips_in_memory() {
    let mut tag = Tag::new();
    tag.set_artist("Ada");
    tag.set_album_artist("Ada");
    tag.set_album("Demo");
    tag.set_title("Track-2-2-intro.mp3");
    tag.set_track(2);
    tag.set_total_tracks(2);
    tag.set_disc(1);
    tag.set_total_discs(1);

    let mut buf: Vec<u8> = Vec::new();
    tag.write_to(&mut buf, Version::Id3v24).unwrap();
    let back = Tag::read_from(Cursor::new(buf)).unwrap();

    assert_eq!(back.artist(), Some("Ada"));
    assert_eq!(back.album_artist(), Some("Ada"));
    assert_eq!(back.album(), Some("Demo"));
    assert_eq!(back.title(), Some("Track-2-2-intro.mp3"));
    assert_eq!(back.track(), Some(2));
    assert_eq!(back.total_tracks(), Some(2));
    assert_eq!(back.disc(), Some(1));
    assert_eq!(back.total_discs(), Some(1));
}

use smart_tags::handle::str_eq;

#[test]
fn string_equality_helper() {
    assert!(str_eq("mp3", "mp3"));
    assert!(!str_eq("mp3", "m4a"));
    assert!(!str_eq("mp3", "mp3 "));
    assert!(str_eq("", ""));
}
