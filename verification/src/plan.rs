use vstd::prelude::*;

use crate::errors::TagError;
use crate::handle::{spec_format_of, TagFormat};
use crate::track::{extract_track_number, extractable, run_value, spec_stem, stem_of_name};

verus! {

/// One directory entry as the scanner hands it over: the full path, the bare
/// filename, and the extension if the name has one.
#[derive(Debug)]
pub struct FileEntry {
    pub path: String,
    pub name: String,
    pub ext: Option<String>,
}

/// The mathematical view of a directory entry.
pub ghost struct FileView {
    pub path: Seq<char>,
    pub name: Seq<char>,
    pub ext: Option<Seq<char>>,
}

impl View for FileEntry {
    type V = FileView;

    open spec fn view(&self) -> FileView {
        FileView { path: self.path@, name: self.name@, ext: self.ext.deep_view() }
    }
}

impl DeepView for FileEntry {
    type V = FileView;

    open spec fn deep_view(&self) -> FileView {
        self@
    }
}

/// One planned assignment: this file gets this track number.
#[derive(Debug)]
pub struct TrackPlanEntry {
    pub path: String,
    pub name: String,
    pub format: TagFormat,
    pub track: u16,
}

/// The mathematical view of a plan entry.
pub ghost struct EntryView {
    pub path: Seq<char>,
    pub name: Seq<char>,
    pub format: TagFormat,
    pub track: u16,
}

impl View for TrackPlanEntry {
    type V = EntryView;

    open spec fn view(&self) -> EntryView {
        EntryView { path: self.path@, name: self.name@, format: self.format, track: self.track }
    }
}

impl DeepView for TrackPlanEntry {
    type V = EntryView;

    open spec fn deep_view(&self) -> EntryView {
        self@
    }
}

/// The ordered set of planned assignments for one invocation. It exists only
/// between extraction and confirmation and is never persisted.
#[derive(Debug)]
pub struct BatchPlan {
    pub entries: Vec<TrackPlanEntry>,
}

impl View for BatchPlan {
    type V = Seq<EntryView>;

    open spec fn view(&self) -> Seq<EntryView> {
        self.entries.deep_view()
    }
}

/// A directory entry with a supported audio extension.
pub open spec fn is_audio(f: FileView) -> bool {
    f.ext matches Some(e) && spec_format_of(e) is Some
}

/// The sub-sequence of entries the batch works on, in directory order.
pub open spec fn audio_files(fs: Seq<FileView>) -> Seq<FileView> {
    fs.filter(|f: FileView| is_audio(f))
}

/// A track number can be planned for this filename: its stem holds a digit
/// run that fits.
pub open spec fn plannable(name: Seq<char>) -> bool {
    extractable(spec_stem(name))
}

/// The plan entry correctly derived from this audio file: the track number
/// is read from the stem, so digits of the extension never count.
pub open spec fn entry_for(e: EntryView, f: FileView) -> bool {
    &&& e.path == f.path
    &&& e.name == f.name
    &&& f.ext matches Some(x) && spec_format_of(x) == Some(e.format)
    &&& plannable(f.name)
    &&& e.track == run_value(spec_stem(f.name))
}

/// Appending one file extends the audio sub-sequence exactly when the file
/// is an audio file.
proof fn lemma_audio_push(prefix: Seq<FileView>, f: FileView)
    ensures
        audio_files(prefix.push(f)) == if is_audio(f) {
            audio_files(prefix).push(f)
        } else {
            audio_files(prefix)
        },
{
    reveal(Seq::filter);
    assert(prefix.push(f).drop_last() =~= prefix);
}

/// The audio files of a directory prefix are a prefix of the directory's
/// audio files.
proof fn lemma_audio_prefix(fvs: Seq<FileView>, m: int)
    requires
        0 <= m <= fvs.len(),
    ensures
        audio_files(fvs.subrange(0, m)).is_prefix_of(audio_files(fvs)),
    decreases fvs.len() - m,
{
    if m == fvs.len() {
        assert(fvs.subrange(0, m) =~= fvs);
    } else {
        lemma_audio_prefix(fvs, m + 1);
        assert(fvs.subrange(0, m + 1) =~= fvs.subrange(0, m).push(fvs[m]));
        lemma_audio_push(fvs.subrange(0, m), fvs[m]);
    }
}

/// Builds the batch plan for one invocation: keeps the files with a
/// supported audio extension, in directory order, and derives each one's
/// track number from its filename. The first file whose name yields no track
/// number aborts the whole plan, before anything is written.
pub fn build_plan(files: &Vec<FileEntry>) -> (r: Result<BatchPlan, TagError>)
    ensures
        r is Ok <==> (forall|k: int|
            0 <= k < audio_files(files.deep_view()).len() ==> plannable(
                #[trigger] audio_files(files.deep_view())[k].name,
            )),
        r matches Ok(p) ==> {
            let audio = audio_files(files.deep_view());
            &&& p@.len() == audio.len()
            &&& forall|k: int| 0 <= k < audio.len() ==> entry_for(#[trigger] p@[k], audio[k])
        },
        r matches Err(e) ==> {
            let audio = audio_files(files.deep_view());
            &&& e matches TagError::TrackExtraction { name: n } && (exists|k: int|
                0 <= k < audio.len() && !plannable(#[trigger] audio[k].name) && n@
                    == audio[k].name && (forall|m: int|
                    0 <= m < k ==> plannable(#[trigger] audio[m].name)))
        },
{
    let ghost fvs = files.deep_view();
    let n = files.len();
    let mut entries: Vec<TrackPlanEntry> = Vec::new();
    let mut idx: usize = 0;
    while idx < n
        invariant
            fvs == files.deep_view(),
            n == files@.len(),
            idx <= n,
            entries.deep_view().len() == audio_files(fvs.subrange(0, idx as int)).len(),
            forall|k: int|
                0 <= k < entries.deep_view().len() ==> entry_for(
                    #[trigger] entries.deep_view()[k],
                    audio_files(fvs.subrange(0, idx as int))[k],
                ),
            forall|k: int|
                0 <= k < audio_files(fvs.subrange(0, idx as int)).len() ==> plannable(
                    #[trigger] audio_files(fvs.subrange(0, idx as int))[k].name,
                ),
        decreases n - idx,
    {
        let ghost apre = audio_files(fvs.subrange(0, idx as int));
        proof {
            assert(fvs.subrange(0, idx as int + 1) =~= fvs.subrange(0, idx as int).push(
                fvs[idx as int],
            ));
            lemma_audio_push(fvs.subrange(0, idx as int), fvs[idx as int]);
        }
        let f = &files[idx];
        let fmt_opt = match &f.ext {
            Some(ext) => TagFormat::from_extension(ext.as_str()),
            None => None,
        };
        match fmt_opt {
            None => {
                proof {
                    assert(!is_audio(fvs[idx as int]));
                }
            },
            Some(fmt) => {
                proof {
                    assert(is_audio(fvs[idx as int]));
                }
                let stem = stem_of_name(f.name.as_str());
                match extract_track_number(stem) {
                    Ok(track) => {
                        let entry = TrackPlanEntry {
                            path: f.path.clone(),
                            name: f.name.clone(),
                            format: fmt,
                            track,
                        };
                        let ghost olddv = entries.deep_view();
                        let ghost ev = entry@;
                        proof {
                            assert(entry_for(ev, fvs[idx as int]));
                        }
                        entries.push(entry);
                        proof {
                            let newaudio = audio_files(fvs.subrange(0, idx as int + 1));
                            assert(newaudio == apre.push(fvs[idx as int]));
                            assert(entries.deep_view().len() == olddv.len() + 1);
                            assert forall|k: int|
                                0 <= k < entries.deep_view().len() implies entry_for(
                                #[trigger] entries.deep_view()[k],
                                newaudio[k],
                            ) by {
                                if k < olddv.len() {
                                    assert(entries.deep_view()[k] == olddv[k]);
                                    assert(newaudio[k] == apre[k]);
                                } else {
                                    assert(entries.deep_view()[k] == ev);
                                    assert(newaudio[k] == fvs[idx as int]);
                                }
                            }
                        }
                    },
                    Err(_) => {
                        let e = TagError::TrackExtraction { name: f.name.clone() };
                        proof {
                            lemma_audio_prefix(fvs, idx as int + 1);
                            let audio = audio_files(files.deep_view());
                            assert(files.deep_view() == fvs);
                            let k = apre.len() as int;
                            let pfx = audio_files(fvs.subrange(0, idx as int + 1));
                            assert(pfx == apre.push(fvs[idx as int]));
                            assert(pfx.len() == k + 1);
                            assert(pfx =~= audio.subrange(0, k + 1));
                            assert(audio.subrange(0, k + 1)[k] == audio[k]);
                            assert(audio[k] == fvs[idx as int]);
                            assert(0 <= k < audio.len());
                            assert(!plannable(audio[k].name));
                            assert forall|m: int| 0 <= m < k implies plannable(
                                #[trigger] audio[m].name,
                            ) by {
                                assert(audio.subrange(0, k + 1)[m] == audio[m]);
                                assert(apre[m] == audio[m]);
                                assert(plannable(apre[m].name));
                            }
                        }
                        return Err(e);
                    },
                }
            },
        }
        idx = idx + 1;
    }
    proof {
        assert(fvs.subrange(0, n as int) =~= fvs);
    }
    Ok(BatchPlan { entries })
}

} // verus!
