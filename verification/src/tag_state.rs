use vstd::prelude::*;

use crate::render::title_of;

verus! {

/// The format-agnostic tag state: every attribute an audio tag can carry in
/// this library, each optional because absence is a valid tag state. Track and
/// disc positions are exposed uniformly as a (current, total) pair of numbers,
/// whatever encoding the underlying format uses.
#[derive(Debug, PartialEq, Eq)]
pub struct TagState {
    pub artist: Option<String>,
    pub album_artist: Option<String>,
    pub album: Option<String>,
    pub title: Option<String>,
    pub track: Option<u16>,
    pub track_total: Option<u16>,
    pub disc: Option<u16>,
    pub disc_total: Option<u16>,
}

/// The mathematical view of a `TagState`: strings become character sequences.
pub ghost struct TagView {
    pub artist: Option<Seq<char>>,
    pub album_artist: Option<Seq<char>>,
    pub album: Option<Seq<char>>,
    pub title: Option<Seq<char>>,
    pub track: Option<u16>,
    pub track_total: Option<u16>,
    pub disc: Option<u16>,
    pub disc_total: Option<u16>,
}

impl View for TagState {
    type V = TagView;

    open spec fn view(&self) -> TagView {
        TagView {
            artist: self.artist.deep_view(),
            album_artist: self.album_artist.deep_view(),
            album: self.album.deep_view(),
            title: self.title.deep_view(),
            track: self.track,
            track_total: self.track_total,
            disc: self.disc,
            disc_total: self.disc_total,
        }
    }
}

/// The state of a handle whose file had no readable tags: all fields empty.
pub open spec fn empty_tag() -> TagView {
    TagView {
        artist: None,
        album_artist: None,
        album: None,
        title: None,
        track: None,
        track_total: None,
        disc: None,
        disc_total: None,
    }
}

pub open spec fn with_artist(s: TagView, v: Seq<char>) -> TagView {
    TagView { artist: Some(v), ..s }
}

pub open spec fn with_album_artist(s: TagView, v: Seq<char>) -> TagView {
    TagView { album_artist: Some(v), ..s }
}

pub open spec fn with_album(s: TagView, v: Seq<char>) -> TagView {
    TagView { album: Some(v), ..s }
}

pub open spec fn with_title(s: TagView, v: Seq<char>) -> TagView {
    TagView { title: Some(v), ..s }
}

pub open spec fn with_track(s: TagView, d: u16, t: u16) -> TagView {
    TagView { track: Some(d), track_total: Some(t), ..s }
}

pub open spec fn with_disc(s: TagView, d: u16, t: u16) -> TagView {
    TagView { disc: Some(d), disc_total: Some(t), ..s }
}

/// The smart-tagging recipe as a function on tag states: artist and
/// album-artist become the author, the album is set, the title embeds the
/// track number and the original filename, the track pair is (track, total),
/// and the whole batch counts as a single single-disc release.
pub open spec fn apply_smart(
    s: TagView,
    author: Seq<char>,
    album: Seq<char>,
    name: Seq<char>,
    track: u16,
    total: u16,
) -> TagView {
    with_disc(
        with_track(
            with_title(
                with_album(with_album_artist(with_artist(s, author), author), album),
                title_of(track, name),
            ),
            track,
            total,
        ),
        1,
        1,
    )
}

/// The tag state the smart recipe always produces: it overwrites every field,
/// so the result does not depend on the state the recipe started from.
pub open spec fn smart_state(
    author: Seq<char>,
    album: Seq<char>,
    name: Seq<char>,
    track: u16,
    total: u16,
) -> TagView {
    TagView {
        artist: Some(author),
        album_artist: Some(author),
        album: Some(album),
        title: Some(title_of(track, name)),
        track: Some(track),
        track_total: Some(total),
        disc: Some(1),
        disc_total: Some(1),
    }
}

impl TagState {
    /// A tag state with every field empty.
    pub fn new() -> (r: TagState)
        ensures
            r@ == empty_tag(),
    {
        TagState {
            artist: None,
            album_artist: None,
            album: None,
            title: None,
            track: None,
            track_total: None,
            disc: None,
            disc_total: None,
        }
    }

    pub fn set_artist(&mut self, name: &str)
        ensures
            final(self)@ == with_artist(old(self)@, name@),
    {
        self.artist = Some(name.to_owned());
    }

    pub fn set_album_artist(&mut self, name: &str)
        ensures
            final(self)@ == with_album_artist(old(self)@, name@),
    {
        self.album_artist = Some(name.to_owned());
    }

    pub fn set_album(&mut self, name: &str)
        ensures
            final(self)@ == with_album(old(self)@, name@),
    {
        self.album = Some(name.to_owned());
    }

    pub fn set_title(&mut self, name: &str)
        ensures
            final(self)@ == with_title(old(self)@, name@),
    {
        self.title = Some(name.to_owned());
    }

    pub fn set_track(&mut self, d: u16, t: u16)
        ensures
            final(self)@ == with_track(old(self)@, d, t),
    {
        self.track = Some(d);
        self.track_total = Some(t);
    }

    pub fn set_disc(&mut self, d: u16, t: u16)
        ensures
            final(self)@ == with_disc(old(self)@, d, t),
    {
        self.disc = Some(d);
        self.disc_total = Some(t);
    }

    /// An owned copy of this tag state.
    pub fn snapshot(&self) -> (r: TagState)
        ensures
            r@ == self@,
    {
        TagState {
            artist: clone_opt_string(&self.artist),
            album_artist: clone_opt_string(&self.album_artist),
            album: clone_opt_string(&self.album),
            title: clone_opt_string(&self.title),
            track: self.track,
            track_total: self.track_total,
            disc: self.disc,
            disc_total: self.disc_total,
        }
    }
}

fn clone_opt_string(o: &Option<String>) -> (r: Option<String>)
    ensures
        r.deep_view() == o.deep_view(),
{
    match o {
        Some(s) => Some(s.clone()),
        None => None,
    }
}

} // verus!
