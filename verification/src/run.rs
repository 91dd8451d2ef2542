use vstd::prelude::*;

use core::sync::atomic::{AtomicUsize, Ordering};
use std::io::Write;

use rayon::iter::{IntoParallelRefIterator, ParallelIterator};

use crate::confirm::{confirmation_granted, is_confirmation};
use crate::errors::TagError;
use crate::handle::CommonTag;
use crate::laws::lemma_apply_smart_is_smart_state;
use crate::plan::{BatchPlan, EntryView, TrackPlanEntry};
use crate::progress::ProgressCounter;
use crate::render::make_title;
use crate::tag_state::{apply_smart, smart_state, with_album, with_album_artist, with_artist,
    with_title, with_track, TagState, TagView};

verus! {

/// Applies the smart recipe to one handle, in memory: artist and
/// album-artist become the author, the album is set, the title embeds the
/// track number and the original filename, the track pair is (track, total)
/// and the disc pair is (1, 1).
pub fn apply_smart_tag<T: CommonTag>(
    tag: &mut T,
    author: &str,
    album: &str,
    name: &str,
    track: u16,
    total: u16,
)
    ensures
        final(tag).state() == apply_smart(
            old(tag).state(),
            author@,
            album@,
            name@,
            track,
            total,
        ),
{
    tag.set_artist(author);
    tag.set_album_artist(author);
    tag.set_album(album);
    let title = make_title(track, name);
    tag.set_title(title.as_str());
    tag.set_track(track, total);
    tag.set_disc(1, 1);
}

/// The per-file recipe: mutate the handle's tag state, then serialize it
/// back to its file. A failing write is reported with the offending path.
pub fn write_tag<T: CommonTag>(
    tag: &mut T,
    author: &str,
    album: &str,
    name: &str,
    path: &str,
    track: u16,
    total_tracks: u16,
) -> (r: Result<(), TagError>)
    ensures
        final(tag).state() == apply_smart(
            old(tag).state(),
            author@,
            album@,
            name@,
            track,
            total_tracks,
        ),
        r matches Err(e) ==> e matches TagError::TagWrite { path: p, .. } && p@ == path@,
{
    apply_smart_tag(tag, author, album, name, track, total_tracks);
    tag.write_to_path(path)
}

/// What one work item's outcome must look like: on success, the tag state
/// written is exactly the smart state for this entry; on failure, the error
/// names this entry's path.
pub open spec fn result_matches(
    r: Result<TagState, TagError>,
    e: EntryView,
    author: Seq<char>,
    album: Seq<char>,
    total: u16,
) -> bool {
    match r {
        Ok(st) => st@ == smart_state(author, album, e.name, e.track, total),
        Err(err) => err matches TagError::TagWrite { path: p, .. } && p@ == e.path,
    }
}

/// Processes one entry of an approved plan: loads the handle for the entry's
/// format, applies the smart recipe, writes the handle back, and returns the
/// tag state that was written.
pub fn process_entry(entry: &TrackPlanEntry, author: &str, album: &str, total: u16) -> (r:
    Result<TagState, TagError>)
    ensures
        result_matches(r, entry@, author@, album@, total),
{
    match entry.format {
        crate::handle::TagFormat::Mp3 => {
            let (mut h, _) = crate::codec_id3::Id3Handle::read_from_path(entry.path.as_str());
            let ghost s0 = h.state();
            match write_tag(
                &mut h,
                author,
                album,
                entry.name.as_str(),
                entry.path.as_str(),
                entry.track,
                total,
            ) {
                Ok(()) => {
                    proof {
                        lemma_apply_smart_is_smart_state(
                            s0,
                            author@,
                            album@,
                            entry.name@,
                            entry.track,
                            total,
                        );
                    }
                    Ok(h.snapshot())
                },
                Err(e) => Err(e),
            }
        },
        crate::handle::TagFormat::M4a => {
            let (mut h, _) = crate::codec_mp4::Mp4Handle::read_from_path(entry.path.as_str());
            let ghost s0 = h.state();
            match write_tag(
                &mut h,
                author,
                album,
                entry.name.as_str(),
                entry.path.as_str(),
                entry.track,
                total,
            ) {
                Ok(()) => {
                    proof {
                        lemma_apply_smart_is_smart_state(
                            s0,
                            author@,
                            album@,
                            entry.name@,
                            entry.track,
                            total,
                        );
                    }
                    Ok(h.snapshot())
                },
                Err(e) => Err(e),
            }
        },
    }
}

/// Relies on std writeln: emits one progress line on standard output.
#[verifier::external_body]
fn report_progress(path: &str, left: usize) {
    let _ = writeln!(std::io::stdout(), "processed {:?}; {} files left", path, left);
}

/// Processes one entry, then counts it off the live countdown the workers
/// share and reports how many files are left.
pub fn process_entry_counted(
    entry: &TrackPlanEntry,
    author: &str,
    album: &str,
    total: u16,
    live: &AtomicUsize,
) -> (r: Result<TagState, TagError>)
    ensures
        result_matches(r, entry@, author@, album@, total),
{
    let r = process_entry(entry, author, album, total);
    let prev = live.fetch_sub(1, Ordering::SeqCst);
    let left = if prev > 0 {
        prev - 1
    } else {
        0
    };
    report_progress(entry.path.as_str(), left);
    r
}

/// Relies on rayon's ParallelIterator::map and collect over a slice: the
/// closure runs once per entry, distributed over the worker pool, and the
/// collected results stand in input order. Each element's clause restates
/// the verified closure's own postcondition.
#[verifier::external_body]
fn par_process_entries(
    entries: &Vec<TrackPlanEntry>,
    author: &str,
    album: &str,
    total: u16,
    live: &AtomicUsize,
) -> (r: Vec<Result<TagState, TagError>>)
    ensures
        r@.len() == entries@.len(),
        forall|i: int|
            0 <= i < r@.len() ==> result_matches(
                #[trigger] r@[i],
                entries@[i]@,
                author@,
                album@,
                total,
            ),
{
    entries.par_iter().map(|e| process_entry_counted(e, author, album, total, live)).collect()
}

/// One file's outcome in the run report.
pub struct EntryOutcome {
    pub path: String,
    pub result: Result<TagState, TagError>,
}

/// What a confirmed run leaves behind: one outcome per plan entry, in plan
/// order, and the progress counter that counted the work down.
pub struct RunReport {
    pub outcomes: Vec<EntryOutcome>,
    pub progress: ProgressCounter,
}

/// The report a run over this plan must produce: outcomes correspond to the
/// plan one for one, and the counter was decremented exactly once per entry,
/// ending at zero.
pub open spec fn report_for(
    r: RunReport,
    plan: Seq<EntryView>,
    author: Seq<char>,
    album: Seq<char>,
) -> bool {
    &&& r.outcomes@.len() == plan.len()
    &&& forall|i: int| 0 <= i < plan.len() ==> (#[trigger] r.outcomes@[i]).path@ == plan[i].path
    &&& forall|i: int|
        0 <= i < plan.len() ==> result_matches(
            (#[trigger] r.outcomes@[i]).result,
            plan[i],
            author,
            album,
            plan.len() as u16,
        )
    &&& r.progress.wf()
    &&& r.progress.total@ == plan.len()
    &&& r.progress.completed@ == plan.len()
    &&& r.progress.remaining == 0
}

/// Applies the smart recipe to every entry of an approved plan, fanned out
/// over a worker pool, no write beginning before the plan was confirmed by
/// the caller. Failures are isolated per file: one bad file does not keep
/// the others from being attempted, and every outcome is reported rather
/// than hidden.
pub fn execute_plan(plan: &BatchPlan, author: &str, album: &str) -> (r: RunReport)
    requires
        plan.entries@.len() <= u16::MAX,
    ensures
        report_for(r, plan@, author@, album@),
{
    let n = plan.entries.len();
    let live = AtomicUsize::new(n);
    let mut results = par_process_entries(&plan.entries, author, album, n as u16, &live);
    let ghost allres = results@;
    let mut progress = ProgressCounter::new(n);
    let mut outcomes: Vec<EntryOutcome> = Vec::new();
    let mut i: usize = 0;
    while i < n
        invariant
            i <= n,
            n == plan.entries@.len(),
            n <= u16::MAX,
            allres.len() == n,
            results@ == allres.subrange(i as int, n as int),
            forall|k: int|
                0 <= k < n ==> result_matches(
                    #[trigger] allres[k],
                    plan.entries@[k]@,
                    author@,
                    album@,
                    n as u16,
                ),
            outcomes@.len() == i,
            forall|k: int|
                0 <= k < i ==> (#[trigger] outcomes@[k]).path@ == plan.entries@[k]@.path,
            forall|k: int|
                0 <= k < i ==> result_matches(
                    (#[trigger] outcomes@[k]).result,
                    plan.entries@[k]@,
                    author@,
                    album@,
                    n as u16,
                ),
            progress.wf(),
            progress.total@ == n as nat,
            progress.completed@ == i as nat,
            progress.remaining == n - i,
        decreases n - i,
    {
        proof {
            assert(results@[0] == allres[i as int]);
            assert(allres.subrange(i as int, n as int).remove(0) =~= allres.subrange(
                i as int + 1,
                n as int,
            ));
        }
        let res = results.remove(0);
        let outcome = EntryOutcome { path: plan.entries[i].path.clone(), result: res };
        outcomes.push(outcome);
        progress.complete_one();
        i = i + 1;
    }
    proof {
        assert(plan@.len() == n as nat);
    }
    RunReport { outcomes, progress }
}

/// The tag state after setting only the attributes the operator supplied.
/// Setting an artist also sets the album artist; a supplied track number
/// counts as track one-of-one.
pub open spec fn apply_set_spec(
    s: TagView,
    artist: Option<Seq<char>>,
    album: Option<Seq<char>>,
    title: Option<Seq<char>>,
    track: Option<u16>,
) -> TagView {
    let s1 = match artist {
        Some(a) => with_album_artist(with_artist(s, a), a),
        None => s,
    };
    let s2 = match album {
        Some(a) => with_album(s1, a),
        None => s1,
    };
    let s3 = match title {
        Some(t) => with_title(s2, t),
        None => s2,
    };
    match track {
        Some(t) => with_track(s3, t, 1),
        None => s3,
    }
}

/// Sets a single file's attributes: each supplied value overwrites its
/// field, each absent value leaves the field untouched.
pub fn apply_set<T: CommonTag>(
    tag: &mut T,
    artist: &Option<String>,
    album: &Option<String>,
    title: &Option<String>,
    track: Option<u16>,
)
    ensures
        final(tag).state() == apply_set_spec(
            old(tag).state(),
            artist.deep_view(),
            album.deep_view(),
            title.deep_view(),
            track,
        ),
{
    if let Some(a) = artist {
        tag.set_artist(a.as_str());
        tag.set_album_artist(a.as_str());
    }
    if let Some(al) = album {
        tag.set_album(al.as_str());
    }
    if let Some(t) = title {
        tag.set_title(t.as_str());
    }
    if let Some(tr) = track {
        tag.set_track(tr, 1);
    }
}

/// The confirmed entry point: runs the plan only if the operator's line,
/// trimmed, is exactly the affirmative token. A declined confirmation is not
/// an error: it is a normal exit in which no write is attempted at all.
pub fn run_confirmed(plan: &BatchPlan, input: &str, author: &str, album: &str) -> (r: Option<
    RunReport,
>)
    requires
        plan.entries@.len() <= u16::MAX,
    ensures
        r is Some <==> is_confirmation(input@),
        r matches Some(rep) ==> report_for(rep, plan@, author@, album@),
{
    if confirmation_granted(input) {
        Some(execute_plan(plan, author, album))
    } else {
        None
    }
}

} // verus!
