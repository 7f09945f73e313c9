//! Blobs: the named units of text that an indexing run submits.

use vstd::prelude::*;

verus! {

/// A named unit of text: a whole file, or one chunk of a large file.
///
/// `path` is the file's path below the project root, with forward slashes, and for a
/// chunk carries the suffix that numbers it.
pub struct Blob {
    pub path: String,
    pub content: String,
}

/// The mathematical value of a [`Blob`].
pub struct BlobView {
    pub path: Seq<char>,
    pub content: Seq<char>,
}

impl View for Blob {
    type V = BlobView;

    open spec fn view(&self) -> BlobView {
        BlobView { path: self.path@, content: self.content@ }
    }
}

impl DeepView for Blob {
    type V = BlobView;

    open spec fn deep_view(&self) -> BlobView {
        self@
    }
}

impl Blob {
    /// A blob of the given path and content.
    pub fn new(path: String, content: String) -> (blob: Blob)
        ensures
            blob@ == (BlobView { path: path@, content: content@ }),
    {
        Blob { path, content }
    }

    /// A copy of this blob.
    pub fn duplicate(&self) -> (copy: Blob)
        ensures
            copy@ == self@,
    {
        Blob { path: self.path.clone(), content: self.content.clone() }
    }
}

} // verus!
