use vstd::prelude::*;

use crate::tag_state::{apply_smart, smart_state, TagView};
use crate::render::title_of;

verus! {

/// The smart recipe overwrites every field, so its outcome is the same
/// whatever tag state it started from.
pub proof fn lemma_smart_recipe_uniform(
    s1: TagView,
    s2: TagView,
    author: Seq<char>,
    album: Seq<char>,
    name: Seq<char>,
    track: u16,
    total: u16,
)
    ensures
        apply_smart(s1, author, album, name, track, total) == apply_smart(
            s2,
            author,
            album,
            name,
            track,
            total,
        ),
{
}

/// What the smart recipe leaves behind is exactly the smart state for its
/// arguments.
pub proof fn lemma_apply_smart_is_smart_state(
    s: TagView,
    author: Seq<char>,
    album: Seq<char>,
    name: Seq<char>,
    track: u16,
    total: u16,
)
    ensures
        apply_smart(s, author, album, name, track, total) == smart_state(
            author,
            album,
            name,
            track,
            total,
        ),
{
}

/// Idempotence: running the smart recipe twice with identical author, album
/// and filename leaves the tag state of the first run unchanged.
pub proof fn lemma_smart_recipe_idempotent(
    s: TagView,
    author: Seq<char>,
    album: Seq<char>,
    name: Seq<char>,
    track: u16,
    total: u16,
)
    ensures
        apply_smart(
            apply_smart(s, author, album, name, track, total),
            author,
            album,
            name,
            track,
            total,
        ) == apply_smart(s, author, album, name, track, total),
{
}

/// Round trip at the abstraction level: every field the smart recipe's
/// mutators set reads back exactly as it was set.
pub proof fn lemma_smart_recipe_fields(
    s: TagView,
    author: Seq<char>,
    album: Seq<char>,
    name: Seq<char>,
    track: u16,
    total: u16,
)
    ensures
        apply_smart(s, author, album, name, track, total).artist == Some(author),
        apply_smart(s, author, album, name, track, total).album_artist == Some(author),
        apply_smart(s, author, album, name, track, total).album == Some(album),
        apply_smart(s, author, album, name, track, total).title == Some(title_of(track, name)),
        apply_smart(s, author, album, name, track, total).track == Some(track),
        apply_smart(s, author, album, name, track, total).track_total == Some(total),
        apply_smart(s, author, album, name, track, total).disc == Some(1u16),
        apply_smart(s, author, album, name, track, total).disc_total == Some(1u16),
{
}

} // verus!
