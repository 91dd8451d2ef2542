use vstd::prelude::*;

use crate::errors::TagError;
use crate::tag_state::{empty_tag, with_album, with_album_artist, with_artist, with_disc,
    with_title, with_track, TagState, TagView};

verus! {

/// The two concrete tag formats this library unifies.
#[derive(Debug, Clone, Copy, PartialEq, Eq, Structural)]
pub enum TagFormat {
    Mp3,
    M4a,
}

/// The format a file extension selects, if it is a supported audio extension.
pub open spec fn spec_format_of(e: Seq<char>) -> Option<TagFormat> {
    if e == "mp3"@ {
        Some(TagFormat::Mp3)
    } else if e == "m4a"@ {
        Some(TagFormat::M4a)
    } else {
        None
    }
}

/// Character-for-character string equality.
pub fn str_eq(a: &str, b: &str) -> (r: bool)
    ensures
        r == (a@ == b@),
{
    let n = a.unicode_len();
    let m = b.unicode_len();
    if n != m {
        proof {
            if a@ == b@ {
                assert(a@.len() == b@.len());
            }
        }
        return false;
    }
    let mut i: usize = 0;
    while i < n
        invariant
            n as nat == a@.len(),
            m as nat == b@.len(),
            n == m,
            i <= n,
            forall|k: int| 0 <= k < i ==> a@[k] == b@[k],
        decreases n - i,
    {
        if a.get_char(i) != b.get_char(i) {
            proof {
                if a@ == b@ {
                    assert(a@[i as int] == b@[i as int]);
                }
            }
            return false;
        }
        i = i + 1;
    }
    proof {
        assert(a@ =~= b@);
    }
    true
}

impl TagFormat {
    /// Dispatch by file extension, the only place callers branch on format.
    pub fn from_extension(ext: &str) -> (r: Option<TagFormat>)
        ensures
            r == spec_format_of(ext@),
    {
        if str_eq(ext, "mp3") {
            Some(TagFormat::Mp3)
        } else if str_eq(ext, "m4a") {
            Some(TagFormat::M4a)
        } else {
            None
        }
    }
}

/// An optional borrowed string agrees with an optional character sequence.
pub open spec fn opt_str_matches(r: Option<&str>, m: Option<Seq<char>>) -> bool {
    match (r, m) {
        (Some(s), Some(v)) => s@ == v,
        (None, None) => true,
        _ => false,
    }
}

/// The capability interface unifying the two concrete tag formats: one set of
/// accessors and mutators over the same abstract tag state, hiding the
/// formats' incompatible field encodings. Each mutator unconditionally
/// overwrites its field; there are no merge semantics.
pub trait CommonTag: Sized {
    /// The abstract tag state this handle currently carries.
    spec fn state(&self) -> TagView;

    /// The file extension this format owns.
    spec fn spec_ext() -> Seq<char>;

    fn ext_name() -> (r: &'static str)
        ensures
            r@ == Self::spec_ext(),
    ;

    /// A handle with every field empty, as for a file not yet tagged.
    fn empty() -> (r: Self)
        ensures
            r.state() == empty_tag(),
    ;

    /// Loads the file's existing tags. A file with no readable tags yields a
    /// handle with all fields empty rather than a failure, so that files can
    /// be tagged for the first time; the flag says whether existing tags
    /// were loaded.
    fn read_from_path(path: &str) -> (r: (Self, bool))
        ensures
            !r.1 ==> r.0.state() == empty_tag(),
    ;

    fn artist(&self) -> (r: Option<&str>)
        ensures
            opt_str_matches(r, self.state().artist),
    ;

    fn album_artist(&self) -> (r: Option<&str>)
        ensures
            opt_str_matches(r, self.state().album_artist),
    ;

    fn album(&self) -> (r: Option<&str>)
        ensures
            opt_str_matches(r, self.state().album),
    ;

    fn title(&self) -> (r: Option<&str>)
        ensures
            opt_str_matches(r, self.state().title),
    ;

    fn set_artist(&mut self, name: &str)
        ensures
            final(self).state() == with_artist(old(self).state(), name@),
    ;

    fn set_album_artist(&mut self, name: &str)
        ensures
            final(self).state() == with_album_artist(old(self).state(), name@),
    ;

    fn set_album(&mut self, name: &str)
        ensures
            final(self).state() == with_album(old(self).state(), name@),
    ;

    fn set_title(&mut self, name: &str)
        ensures
            final(self).state() == with_title(old(self).state(), name@),
    ;

    fn set_track(&mut self, d: u16, t: u16)
        ensures
            final(self).state() == with_track(old(self).state(), d, t),
    ;

    fn set_disc(&mut self, d: u16, t: u16)
        ensures
            final(self).state() == with_disc(old(self).state(), d, t),
    ;

    /// An owned copy of the handle's abstract tag state.
    fn snapshot(&self) -> (r: TagState)
        ensures
            r@ == self.state(),
    ;

    /// Serializes the handle back to the file at the given path, overwriting
    /// its tag content. A target that is not writable, or a serialization the
    /// codec rejects, is reported, never swallowed.
    fn write_to_path(&self, path: &str) -> (r: Result<(), TagError>)
        ensures
            r matches Err(e) ==> e matches TagError::TagWrite { path: p, .. } && p@ == path@,
    ;
}

} // verus!
