use smart_tags::codec_id3::Id3Handle;
use smart_tags::codec_mp4::Mp4Handle;
use smart_tags::handle::CommonTag;
use smart_tags::render::{make_title, u16_to_string};
use smart_tags::run::{apply_set, apply_smart_tag};

#[test]
fn renders_numbers_in_decimal() {
    assert_eq!(u16_to_string(0), "0");
    assert_eq!(u16_to_string(7), "7");
    assert_eq!(u16_to_string(10), "10");
    assert_eq!(u16_to_string(65535), "65535");
}

#[test]
fn synthesizes_titles() {
    assert_eq!(make_title(2, "2-intro.mp3"), "Track-2-2-intro.mp3");
    assert_eq!(make_title(10, "10-outro.m4a"), "Track-10-10-outro.m4a");
}

#[test]
fn smart_recipe_on_id3_scenario() {
    let mut h = Id3Handle::empty();
    apply_smart_tag(&mut h, "Ada", "Demo", "2-intro.mp3", 2, 2);
    assert_eq!(h.artist(), Some("Ada"));
    assert_eq!(h.album_artist(), Some("Ada"));
    assert_eq!(h.album(), Some("Demo"));
    assert_eq!(h.title(), Some("Track-2-2-intro.mp3"));
    let st = h.snapshot();
    assert_eq!(st.track, Some(2));
    assert_eq!(st.track_total, Some(2));
    assert_eq!(st.disc, Some(1));
    assert_eq!(st.disc_total, Some(1));
}

#[test]
fn smart_recipe_on_mp4_scenario() {
    let mut h = Mp4Handle::empty();
    apply_smart_tag(&mut h, "Ada", "Demo", "10-outro.m4a", 10, 2);
    assert_eq!(h.artist(), Some("Ada"));
    assert_eq!(h.album_artist(), Some("Ada"));
    assert_eq!(h.album(), Some("Demo"));
    assert_eq!(h.title(), Some("Track-10-10-outro.m4a"));
    let st = h.snapshot();
    assert_eq!(st.track, Some(10));
    assert_eq!(st.track_total, Some(2));
    assert_eq!(st.disc, Some(1));
    assert_eq!(st.disc_total, Some(1));
}

#[test]
fn smart_recipe_is_idempotent() {
    let mut h = Id3Handle::empty();
    apply_smart_tag(&mut h, "Ada", "Demo", "2-intro.mp3", 2, 2);
    let first = h.snapshot();
    apply_smart_tag(&mut h, "Ada", "Demo", "2-intro.mp3", 2, 2);
    let second = h.snapshot();
    assert_eq!(first, second);
}

#[test]
fn smart_recipe_overwrites_prior_state() {
    let mut h1 = Mp4Handle::empty();
    let mut h2 = Mp4Handle::empty();
    apply_set(
        &mut h2,
        &Some("Old Artist".to_owned()),
        &Some("Old Album".to_owned()),
        &Some("Old Title".to_owned()),
        Some(9),
    );
    apply_smart_tag(&mut h1, "Ada", "Demo", "3-x.m4a", 3, 4);
    apply_smart_tag(&mut h2, "Ada", "Demo", "3-x.m4a", 3, 4);
    assert_eq!(h1.snapshot(), h2.snapshot());
}

#[test]
fn set_then_get_round_trips_every_field() {
    let mut h = Id3Handle::empty();
    assert_eq!(h.artist(), None);
    assert_eq!(h.title(), None);
    h.set_artist("A");
    h.set_album_artist("B");
    h.set_album("C");
    h.set_title("D");
    h.set_track(3, 9);
    h.set_disc(2, 5);
    assert_eq!(h.artist(), Some("A"));
    assert_eq!(h.album_artist(), Some("B"));
    assert_eq!(h.album(), Some("C"));
    assert_eq!(h.title(), Some("D"));
    let st = h.snapshot();
    assert_eq!(st.track, Some(3));
    assert_eq!(st.track_total, Some(9));
    assert_eq!(st.disc, Some(2));
    assert_eq!(st.disc_total, Some(5));
}

#[test]
fn apply_set_touches_only_supplied_fields() {
    let mut h = Mp4Handle::empty();
    apply_set(&mut h, &Some("Ada".to_owned()), &None, &None, Some(5));
    assert_eq!(h.artist(), Some("Ada"));
    assert_eq!(h.album_artist(), Some("Ada"));
    assert_eq!(h.album(), None);
    assert_eq!(h.title(), None);
    let st = h.snapshot();
    assert_eq!(st.track, Some(5));
    assert_eq!(st.track_total, Some(1));
    assert_eq!(st.disc, None);
}
