use vstd::prelude::*;

use crate::errors::TagError;
use crate::handle::CommonTag;
use crate::tag_state::{TagState, TagView};
use id3::TagLike;

verus! {

#[verifier::external_type_specification]
#[verifier::external_body]
pub struct ExId3Tag(id3::Tag);

/// Relies on id3::Tag::new: a tag that holds no frames.
#[verifier::external_body]
fn id3_new() -> id3::Tag {
    id3::Tag::new()
}

/// Relies on id3::Tag::read_from_path: the tag of the file at this path; the
/// codec's error is rendered to text.
#[verifier::external_body]
fn id3_read(path: &str) -> Result<id3::Tag, String> {
    id3::Tag::read_from_path(path).map_err(|e| e.to_string())
}

/// Relies on id3::Tag::write_to_path with version ID3v2.4: rewrites the tag
/// of the file at this path, preserving its audio stream.
#[verifier::external_body]
fn id3_write(t: &id3::Tag, path: &str) -> Result<(), String> {
    t.write_to_path(path, id3::Version::Id3v24).map_err(|e| e.to_string())
}

/// Relies on id3::TagLike::artist: the artist frame's text, if present.
#[verifier::external_body]
fn id3_artist<'a>(t: &'a id3::Tag) -> Option<&'a str> {
    t.artist()
}

/// Relies on id3::TagLike::album_artist: the album-artist frame's text.
#[verifier::external_body]
fn id3_album_artist<'a>(t: &'a id3::Tag) -> Option<&'a str> {
    t.album_artist()
}

/// Relies on id3::TagLike::album: the album frame's text.
#[verifier::external_body]
fn id3_album<'a>(t: &'a id3::Tag) -> Option<&'a str> {
    t.album()
}

/// Relies on id3::TagLike::title: the title frame's text.
#[verifier::external_body]
fn id3_title<'a>(t: &'a id3::Tag) -> Option<&'a str> {
    t.title()
}

/// Relies on id3::TagLike::track: the track number of the track frame.
#[verifier::external_body]
fn id3_track(t: &id3::Tag) -> Option<u32> {
    t.track()
}

/// Relies on id3::TagLike::total_tracks: the total of the track frame.
#[verifier::external_body]
fn id3_total_tracks(t: &id3::Tag) -> Option<u32> {
    t.total_tracks()
}

/// Relies on id3::TagLike::disc: the disc number of the disc frame.
#[verifier::external_body]
fn id3_disc(t: &id3::Tag) -> Option<u32> {
    t.disc()
}

/// Relies on id3::TagLike::total_discs: the total of the disc frame.
#[verifier::external_body]
fn id3_total_discs(t: &id3::Tag) -> Option<u32> {
    t.total_discs()
}

/// Relies on id3::TagLike::set_artist: overwrites the artist frame.
#[verifier::external_body]
fn id3_set_artist(t: &mut id3::Tag, v: &str) {
    t.set_artist(v);
}

/// Relies on id3::TagLike::set_album_artist: overwrites the album-artist
/// frame.
#[verifier::external_body]
fn id3_set_album_artist(t: &mut id3::Tag, v: &str) {
    t.set_album_artist(v);
}

/// Relies on id3::TagLike::set_album: overwrites the album frame.
#[verifier::external_body]
fn id3_set_album(t: &mut id3::Tag, v: &str) {
    t.set_album(v);
}

/// Relies on id3::TagLike::set_title: overwrites the title frame.
#[verifier::external_body]
fn id3_set_title(t: &mut id3::Tag, v: &str) {
    t.set_title(v);
}

/// Relies on id3::TagLike::set_track: overwrites the track number.
#[verifier::external_body]
fn id3_set_track(t: &mut id3::Tag, v: u32) {
    t.set_track(v);
}

/// Relies on id3::TagLike::set_total_tracks: overwrites the track total.
#[verifier::external_body]
fn id3_set_total_tracks(t: &mut id3::Tag, v: u32) {
    t.set_total_tracks(v);
}

/// Relies on id3::TagLike::set_disc: overwrites the disc number.
#[verifier::external_body]
fn id3_set_disc(t: &mut id3::Tag, v: u32) {
    t.set_disc(v);
}

/// Relies on id3::TagLike::set_total_discs: overwrites the disc total.
#[verifier::external_body]
fn id3_set_total_discs(t: &mut id3::Tag, v: u32) {
    t.set_total_discs(v);
}

/// The numbers this format stores are wider than the uniform pair the
/// abstraction exposes; a value that does not fit counts as absent.
pub open spec fn spec_narrow(o: Option<u32>) -> Option<u16> {
    match o {
        Some(v) => if v <= u16::MAX {
            Some(v as u16)
        } else {
            None
        },
        None => None,
    }
}

fn narrow_num(o: Option<u32>) -> (r: Option<u16>)
    ensures
        r == spec_narrow(o),
{
    match o {
        Some(v) => if v <= 65535 {
            Some(v as u16)
        } else {
            None
        },
        None => None,
    }
}

fn opt_str_owned(o: Option<&str>) -> (r: Option<String>)
    ensures
        r.deep_view() == o.deep_view(),
{
    match o {
        Some(s) => Some(s.to_owned()),
        None => None,
    }
}

/// A per-file handle over an ID3v2 tag: the codec's tag value, mirrored by
/// the abstract tag state the contracts speak about.
pub struct Id3Handle {
    inner: id3::Tag,
    state: TagState,
}

impl CommonTag for Id3Handle {
    closed spec fn state(&self) -> TagView {
        self.state@
    }

    open spec fn spec_ext() -> Seq<char> {
        "mp3"@
    }

    fn ext_name() -> (r: &'static str) {
        "mp3"
    }

    fn empty() -> (r: Self) {
        Id3Handle { inner: id3_new(), state: TagState::new() }
    }

    fn read_from_path(path: &str) -> (r: (Self, bool)) {
        match id3_read(path) {
            Ok(t) => {
                let state = TagState {
                    artist: opt_str_owned(id3_artist(&t)),
                    album_artist: opt_str_owned(id3_album_artist(&t)),
                    album: opt_str_owned(id3_album(&t)),
                    title: opt_str_owned(id3_title(&t)),
                    track: narrow_num(id3_track(&t)),
                    track_total: narrow_num(id3_total_tracks(&t)),
                    disc: narrow_num(id3_disc(&t)),
                    disc_total: narrow_num(id3_total_discs(&t)),
                };
                (Id3Handle { inner: t, state }, true)
            },
            Err(_) => (Self::empty(), false),
        }
    }

    fn artist(&self) -> (r: Option<&str>) {
        match &self.state.artist {
            Some(s) => Some(s.as_str()),
            None => None,
        }
    }

    fn album_artist(&self) -> (r: Option<&str>) {
        match &self.state.album_artist {
            Some(s) => Some(s.as_str()),
            None => None,
        }
    }

    fn album(&self) -> (r: Option<&str>) {
        match &self.state.album {
            Some(s) => Some(s.as_str()),
            None => None,
        }
    }

    fn title(&self) -> (r: Option<&str>) {
        match &self.state.title {
            Some(s) => Some(s.as_str()),
            None => None,
        }
    }

    fn set_artist(&mut self, name: &str) {
        id3_set_artist(&mut self.inner, name);
        self.state.set_artist(name);
    }

    fn set_album_artist(&mut self, name: &str) {
        id3_set_album_artist(&mut self.inner, name);
        self.state.set_album_artist(name);
    }

    fn set_album(&mut self, name: &str) {
        id3_set_album(&mut self.inner, name);
        self.state.set_album(name);
    }

    fn set_title(&mut self, name: &str) {
        id3_set_title(&mut self.inner, name);
        self.state.set_title(name);
    }

    fn set_track(&mut self, d: u16, t: u16) {
        id3_set_track(&mut self.inner, d as u32);
        id3_set_total_tracks(&mut self.inner, t as u32);
        self.state.set_track(d, t);
    }

    fn set_disc(&mut self, d: u16, t: u16) {
        id3_set_disc(&mut self.inner, d as u32);
        id3_set_total_discs(&mut self.inner, t as u32);
        self.state.set_disc(d, t);
    }

    fn snapshot(&self) -> (r: TagState) {
        self.state.snapshot()
    }

    fn write_to_path(&self, path: &str) -> (r: Result<(), TagError>) {
        match id3_write(&self.inner, path) {
            Ok(()) => Ok(()),
            Err(detail) => Err(TagError::TagWrite { path: path.to_owned(), detail }),
        }
    }
}

} // verus!
