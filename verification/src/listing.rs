use vstd::prelude::*;

use crate::handle::{str_eq, CommonTag};
use crate::plan::{FileEntry, FileView};

verus! {

/// A directory entry carrying exactly this extension.
pub open spec fn has_ext(f: FileView, e: Seq<char>) -> bool {
    f.ext == Some(e)
}

/// The entries of a listing that carry this extension, in listing order.
pub open spec fn matching_files(fs: Seq<FileView>, e: Seq<char>) -> Seq<FileView> {
    fs.filter(|f: FileView| has_ext(f, e))
}

/// Appending one file extends the matching sub-sequence exactly when the
/// file carries the extension.
proof fn lemma_matching_push(prefix: Seq<FileView>, f: FileView, e: Seq<char>)
    ensures
        matching_files(prefix.push(f), e) == if has_ext(f, e) {
            matching_files(prefix, e).push(f)
        } else {
            matching_files(prefix, e)
        },
{
    reveal(Seq::filter);
    assert(prefix.push(f).drop_last() =~= prefix);
}

/// Loads one tag handle per listed file whose extension is the format's
/// own, in listing order.
pub fn get_id3<T: CommonTag>(files: &Vec<FileEntry>) -> (r: Vec<T>)
    ensures
        r@.len() == matching_files(files.deep_view(), T::spec_ext()).len(),
{
    let ghost fvs = files.deep_view();
    let n = files.len();
    let mut tags: Vec<T> = Vec::new();
    let mut idx: usize = 0;
    while idx < n
        invariant
            fvs == files.deep_view(),
            n == files@.len(),
            idx <= n,
            tags@.len() == matching_files(fvs.subrange(0, idx as int), T::spec_ext()).len(),
        decreases n - idx,
    {
        proof {
            assert(fvs.subrange(0, idx as int + 1) =~= fvs.subrange(0, idx as int).push(
                fvs[idx as int],
            ));
            lemma_matching_push(fvs.subrange(0, idx as int), fvs[idx as int], T::spec_ext());
        }
        let f = &files[idx];
        match &f.ext {
            Some(ext) => {
                if str_eq(ext.as_str(), T::ext_name()) {
                    let (tag, _) = T::read_from_path(f.path.as_str());
                    tags.push(tag);
                } else {
                    proof {
                        assert(!has_ext(fvs[idx as int], T::spec_ext()));
                    }
                }
            },
            None => {
                proof {
                    assert(!has_ext(fvs[idx as int], T::spec_ext()));
                }
            },
        }
        idx = idx + 1;
    }
    proof {
        assert(fvs.subrange(0, n as int) =~= fvs);
    }
    tags
}

} // verus!
