use vstd::prelude::*;

verus! {

/// The failures the batch-tagging pipeline can report. Every variant names the
/// offending input so that a fatal condition identifies the path or filename
/// and the attempted operation.
#[derive(Debug, PartialEq, Eq)]
pub enum TagError {
    /// The directory listing itself could not be produced.
    DirectoryRead { detail: String },
    /// A filename holds no digit run, or the run does not fit a track number.
    TrackExtraction { name: String },
    /// The codec could not load the tag container at this path.
    TagRead { path: String, detail: String },
    /// The codec rejected the serialization, or the target was not writable.
    TagWrite { path: String, detail: String },
}

impl TagError {
    /// The words the error reports: the attempted operation and the
    /// offending path or filename.
    pub open spec fn spec_message(&self) -> Seq<char> {
        match self {
            TagError::DirectoryRead { detail } => "cannot read the directory: "@ + detail@,
            TagError::TrackExtraction { name } => "no track number can be extracted from "@
                + name@,
            TagError::TagRead { path, detail } => "cannot read the tag of "@ + path@ + ": "@
                + detail@,
            TagError::TagWrite { path, detail } => "cannot write the tag of "@ + path@ + ": "@
                + detail@,
        }
    }

    /// Renders the error for the operator.
    pub fn message(&self) -> (r: String)
        ensures
            r@ == self.spec_message(),
    {
        match self {
            TagError::DirectoryRead { detail } => {
                let mut s = "cannot read the directory: ".to_owned();
                s.append(detail.as_str());
                proof {
                    assert(s@ =~= self.spec_message());
                }
                s
            },
            TagError::TrackExtraction { name } => {
                let mut s = "no track number can be extracted from ".to_owned();
                s.append(name.as_str());
                proof {
                    assert(s@ =~= self.spec_message());
                }
                s
            },
            TagError::TagRead { path, detail } => {
                let mut s = "cannot read the tag of ".to_owned();
                s.append(path.as_str());
                s.append(": ");
                s.append(detail.as_str());
                proof {
                    assert(s@ =~= self.spec_message());
                }
                s
            },
            TagError::TagWrite { path, detail } => {
                let mut s = "cannot write the tag of ".to_owned();
                s.append(path.as_str());
                s.append(": ");
                s.append(detail.as_str());
                proof {
                    assert(s@ =~= self.spec_message());
                }
                s
            },
        }
    }
}

} // verus!
