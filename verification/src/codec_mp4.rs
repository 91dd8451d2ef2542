use vstd::prelude::*;

use crate::errors::TagError;
use crate::handle::CommonTag;
use crate::tag_state::{TagState, TagView};

verus! {

#[verifier::external_type_specification]
#[verifier::external_body]
pub struct ExMp4Tag(mp4ameta::Tag);

/// Relies on mp4ameta::Tag::default: a tag that holds no metadata atoms.
#[verifier::external_body]
fn mp4_new() -> mp4ameta::Tag {
    mp4ameta::Tag::default()
}

/// Relies on mp4ameta::Tag::read_from_path: the tag of the MPEG-4 file at
/// this path; the codec's error is rendered to text.
#[verifier::external_body]
fn mp4_read(path: &str) -> Result<mp4ameta::Tag, String> {
    mp4ameta::Tag::read_from_path(path).map_err(|e| e.to_string())
}

/// Relies on mp4ameta::Userdata::write_to_path: rewrites the metadata of the
/// MPEG-4 file at this path, overwriting what was there.
#[verifier::external_body]
fn mp4_write(t: &mp4ameta::Tag, path: &str) -> Result<(), String> {
    t.write_to_path(path).map_err(|e| e.to_string())
}

/// Relies on mp4ameta::Userdata::artist: the first artist entry, if present.
#[verifier::external_body]
fn mp4_artist<'a>(t: &'a mp4ameta::Tag) -> Option<&'a str> {
    t.artist()
}

/// Relies on mp4ameta::Userdata::album_artist: the first album-artist entry.
#[verifier::external_body]
fn mp4_album_artist<'a>(t: &'a mp4ameta::Tag) -> Option<&'a str> {
    t.album_artist()
}

/// Relies on mp4ameta::Userdata::album: the album entry, if present.
#[verifier::external_body]
fn mp4_album<'a>(t: &'a mp4ameta::Tag) -> Option<&'a str> {
    t.album()
}

/// Relies on mp4ameta::Userdata::title: the title entry, if present.
#[verifier::external_body]
fn mp4_title<'a>(t: &'a mp4ameta::Tag) -> Option<&'a str> {
    t.title()
}

/// Relies on mp4ameta::Userdata::track_number: the track number, if present.
#[verifier::external_body]
fn mp4_track_number(t: &mp4ameta::Tag) -> Option<u16> {
    t.track_number()
}

/// Relies on mp4ameta::Userdata::total_tracks: the track total, if present.
#[verifier::external_body]
fn mp4_total_tracks(t: &mp4ameta::Tag) -> Option<u16> {
    t.total_tracks()
}

/// Relies on mp4ameta::Userdata::disc_number: the disc number, if present.
#[verifier::external_body]
fn mp4_disc_number(t: &mp4ameta::Tag) -> Option<u16> {
    t.disc_number()
}

/// Relies on mp4ameta::Userdata::total_discs: the disc total, if present.
#[verifier::external_body]
fn mp4_total_discs(t: &mp4ameta::Tag) -> Option<u16> {
    t.total_discs()
}

/// Relies on mp4ameta::Userdata::set_artist: overwrites the artist entry.
#[verifier::external_body]
fn mp4_set_artist(t: &mut mp4ameta::Tag, v: &str) {
    t.set_artist(v);
}

/// Relies on mp4ameta::Userdata::set_album_artist: overwrites the
/// album-artist entry.
#[verifier::external_body]
fn mp4_set_album_artist(t: &mut mp4ameta::Tag, v: &str) {
    t.set_album_artist(v);
}

/// Relies on mp4ameta::Userdata::set_album: overwrites the album entry.
#[verifier::external_body]
fn mp4_set_album(t: &mut mp4ameta::Tag, v: &str) {
    t.set_album(v);
}

/// Relies on mp4ameta::Userdata::set_title: overwrites the title entry.
#[verifier::external_body]
fn mp4_set_title(t: &mut mp4ameta::Tag, v: &str) {
    t.set_title(v);
}

/// Relies on mp4ameta::Userdata::set_track: overwrites the track number and
/// total in one step, the pair this format stores together. The tuple atom
/// encodes a zero as absent, so a zero set here does not survive on disk.
#[verifier::external_body]
fn mp4_set_track(t: &mut mp4ameta::Tag, d: u16, total: u16) {
    t.set_track(d, total);
}

/// Relies on mp4ameta::Userdata::set_disc: overwrites the disc number and
/// total in one step. The tuple atom encodes a zero as absent, so a zero set
/// here does not survive on disk.
#[verifier::external_body]
fn mp4_set_disc(t: &mut mp4ameta::Tag, d: u16, total: u16) {
    t.set_disc(d, total);
}

fn opt_str_owned(o: Option<&str>) -> (r: Option<String>)
    ensures
        r.deep_view() == o.deep_view(),
{
    match o {
        Some(s) => Some(s.to_owned()),
        None => None,
    }
}

/// A per-file handle over an MPEG-4 atom tag: the codec's tag value,
/// mirrored by the abstract tag state the contracts speak about.
pub struct Mp4Handle {
    inner: mp4ameta::Tag,
    state: TagState,
}

impl CommonTag for Mp4Handle {
    closed spec fn state(&self) -> TagView {
        self.state@
    }

    open spec fn spec_ext() -> Seq<char> {
        "m4a"@
    }

    fn ext_name() -> (r: &'static str) {
        "m4a"
    }

    fn empty() -> (r: Self) {
        Mp4Handle { inner: mp4_new(), state: TagState::new() }
    }

    fn read_from_path(path: &str) -> (r: (Self, bool)) {
        match mp4_read(path) {
            Ok(t) => {
                let state = TagState {
                    artist: opt_str_owned(mp4_artist(&t)),
                    album_artist: opt_str_owned(mp4_album_artist(&t)),
                    album: opt_str_owned(mp4_album(&t)),
                    title: opt_str_owned(mp4_title(&t)),
                    track: mp4_track_number(&t),
                    track_total: mp4_total_tracks(&t),
                    disc: mp4_disc_number(&t),
                    disc_total: mp4_total_discs(&t),
                };
                (Mp4Handle { inner: t, state }, true)
            },
            Err(_) => (Self::empty(), false),
        }
    }

    fn artist(&self) -> (r: Option<&str>) {
        match &self.state.artist {
            Some(s) => Some(s.as_str()),
            None => None,
        }
    }

    fn album_artist(&self) -> (r: Option<&str>) {
        match &self.state.album_artist {
            Some(s) => Some(s.as_str()),
            None => None,
        }
    }

    fn album(&self) -> (r: Option<&str>) {
        match &self.state.album {
            Some(s) => Some(s.as_str()),
            None => None,
        }
    }

    fn title(&self) -> (r: Option<&str>) {
        match &self.state.title {
            Some(s) => Some(s.as_str()),
            None => None,
        }
    }

    fn set_artist(&mut self, name: &str) {
        mp4_set_artist(&mut self.inner, name);
        self.state.set_artist(name);
    }

    fn set_album_artist(&mut self, name: &str) {
        mp4_set_album_artist(&mut self.inner, name);
        self.state.set_album_artist(name);
    }

    fn set_album(&mut self, name: &str) {
        mp4_set_album(&mut self.inner, name);
        self.state.set_album(name);
    }

    fn set_title(&mut self, name: &str) {
        mp4_set_title(&mut self.inner, name);
        self.state.set_title(name);
    }

    fn set_track(&mut self, d: u16, t: u16) {
        mp4_set_track(&mut self.inner, d, t);
        self.state.set_track(d, t);
    }

    fn set_disc(&mut self, d: u16, t: u16) {
        mp4_set_disc(&mut self.inner, d, t);
        self.state.set_disc(d, t);
    }

    fn snapshot(&self) -> (r: TagState) {
        self.state.snapshot()
    }

    fn write_to_path(&self, path: &str) -> (r: Result<(), TagError>) {
        match mp4_write(&self.inner, path) {
            Ok(()) => Ok(()),
            Err(detail) => Err(TagError::TagWrite { path: path.to_owned(), detail }),
        }
    }
}

} // verus!
