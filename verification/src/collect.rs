//! Collecting the blobs of a project: which entries of its tree are passed over, which
//! directories are walked, which files are read, and what is made of a file's bytes.
//!
//! The collector decides; its caller lists the directories and reads the files.

use crate::blob::{Blob, BlobView};
use crate::chunking::{split_blobs, split_content};
use crate::config::clone_list;
use crate::encoding::{decoded_text, max_decode_input, read_file_with_encoding};
use crate::exclude::{
    all_portable, build_exclude_globset, glob_set_builds, is_excluded, path_pieces,
    should_exclude, split_pieces, valid_patterns, ExclusionSet,
};
use crate::path::{normalize_separators, normalized_path};
use crate::text::{
    ascii_case_equal, chars_of, equal_ignoring_ascii_case, replace_char, same_chars, text_of,
};
use vstd::prelude::*;

verus! {

/// The lower-case form of `s`, as std's `str::to_lowercase` gives it.
pub uninterp spec fn lowercased(s: Seq<char>) -> Seq<char>;

/// std's `str::to_lowercase`: the lower-case form of `s`.
#[verifier::external_body]
fn to_lowercase(s: &str) -> (lower: String)
    ensures
        lower@ == lowercased(s@),
{
    s.to_lowercase()
}

/// The place of the last `c` in `s`, or `-1` where `s` holds none.
pub open spec fn last_index_of(s: Seq<char>, c: char) -> int
    decreases s.len(),
{
    if s.len() == 0 {
        -1
    } else if s.last() == c {
        s.len() - 1
    } else {
        last_index_of(s.drop_last(), c)
    }
}

/// The name of the file at `path`: what follows the last slash.
pub open spec fn file_name(path: Seq<char>) -> Seq<char> {
    path_pieces(path).last()
}

/// The extension of the file named `name`: what follows the last dot, where a dot
/// stands behind the first character; the name `..` has none.
pub open spec fn extension_of(name: Seq<char>) -> Option<Seq<char>> {
    let dot = last_index_of(name, '.');
    if name == ".."@ || dot <= 0 {
        None
    } else {
        Some(name.skip(dot + 1))
    }
}

/// The extension of the file at `rel_path` with its dot in front, as the file's name
/// has it.
pub open spec fn dotted_extension(rel_path: Seq<char>) -> Option<Seq<char>> {
    match extension_of(file_name(normalized_path(rel_path))) {
        Some(extension) => Some(seq!['.'] + extension),
        None => None,
    }
}

/// Whether `extensions` lists `dotted`, whatever the case of the ASCII letters.
pub open spec fn extension_is_listed(dotted: Seq<char>, extensions: Seq<Seq<char>>) -> bool {
    exists|i: int| 0 <= i < extensions.len() && ascii_case_equal(#[trigger] extensions[i], dotted)
}

/// Whether the file at `rel_path` has one of `extensions`: whether its extension, in
/// lower case and with its dot in front, is listed.
pub open spec fn has_text_extension(rel_path: Seq<char>, extensions: Seq<Seq<char>>) -> bool {
    match dotted_extension(rel_path) {
        Some(dotted) => extension_is_listed(lowercased(dotted), extensions),
        None => false,
    }
}

/// What becomes of an entry of the tree.
#[derive(Clone, Copy, Debug, PartialEq, Eq, Structural)]
pub enum EntryVerdict {
    /// The entry is passed over.
    Skip,
    /// The entry is a directory that is walked.
    Descend,
    /// The entry is a file that is read.
    Read,
}

/// The state of one walk through a project's tree.
pub struct Collector {
    pub text_extensions: Vec<String>,
    /// The set of the exclusion patterns, if there are any.
    pub exclude: Option<ExclusionSet>,
    pub max_lines: usize,
    /// The directories that are still to be listed, the next one last.
    pub pending: Vec<String>,
    /// The blobs collected so far.
    pub blobs: Vec<Blob>,
}

/// The mathematical value of a [`Collector`].
pub struct CollectorView {
    pub text_extensions: Seq<Seq<char>>,
    pub exclude: Option<Seq<Seq<char>>>,
    pub max_lines: usize,
    pub pending: Seq<Seq<char>>,
    pub blobs: Seq<BlobView>,
}

impl View for Collector {
    type V = CollectorView;

    open spec fn view(&self) -> CollectorView {
        CollectorView {
            text_extensions: self.text_extensions.deep_view(),
            exclude: match self.exclude {
                Some(set) => Some(set.patterns()),
                None => None,
            },
            max_lines: self.max_lines,
            pending: self.pending.deep_view(),
            blobs: self.blobs.deep_view(),
        }
    }
}

/// The patterns in force for a list of exclusion patterns: its valid patterns, where
/// there are patterns at all and a set can be built of the valid ones.
pub open spec fn exclusion_of(patterns: Seq<Seq<char>>) -> Option<Seq<Seq<char>>> {
    if patterns.len() > 0 && glob_set_builds(valid_patterns(patterns, patterns.len())) {
        Some(valid_patterns(patterns, patterns.len()))
    } else {
        None
    }
}

/// Whether the exclusion patterns in force, if any, are portable.
pub open spec fn exclusion_is_portable(exclude: Option<Seq<Seq<char>>>) -> bool {
    match exclude {
        Some(patterns) => all_portable(patterns),
        None => true,
    }
}

/// What becomes of an entry of which this much is known. An entry that the project's
/// ignore rules match is passed over, then one that the exclusion patterns match; of the
/// others a directory is walked, and a file is read where it has one of the extensions.
pub open spec fn verdict_of(ignored: bool, excluded: bool, is_dir: bool, has_extension: bool)
    -> EntryVerdict {
    if ignored || excluded {
        EntryVerdict::Skip
    } else if is_dir {
        EntryVerdict::Descend
    } else if has_extension {
        EntryVerdict::Read
    } else {
        EntryVerdict::Skip
    }
}

/// What becomes of the entry at `rel_path`.
pub open spec fn entry_verdict(
    collector: CollectorView,
    rel_path: Seq<char>,
    is_dir: bool,
    ignored: bool,
) -> EntryVerdict {
    verdict_of(
        ignored,
        collector.exclude matches Some(patterns) && is_excluded(patterns, rel_path),
        is_dir,
        has_text_extension(rel_path, collector.text_extensions),
    )
}

/// The blobs of the file at `rel_path` with these bytes; a file that could not be read
/// has none.
pub open spec fn file_blobs(rel_path: Seq<char>, bytes: Option<Seq<u8>>, max_lines: usize) -> Seq<
    BlobView,
> {
    match bytes {
        Some(read) => split_blobs(normalized_path(rel_path), decoded_text(read), max_lines as nat),
        None => Seq::empty(),
    }
}

/// The place of the last `c` in `chars`, if there is one.
pub fn find_last(chars: &Vec<char>, c: char) -> (place: Option<usize>)
    ensures
        match place {
            Some(i) => i as int,
            None => -1,
        } == last_index_of(chars@, c),
        place matches Some(i) ==> i < chars@.len(),
{
    let mut k: usize = chars.len();
    assert(chars@.take(k as int) =~= chars@);
    while k > 0
        invariant
            k <= chars@.len(),
            last_index_of(chars@, c) == last_index_of(chars@.take(k as int), c),
        decreases k,
    {
        proof {
            assert(chars@.take(k as int).last() == chars@[k as int - 1]);
            assert(chars@.take(k as int).drop_last() =~= chars@.take(k as int - 1));
        }
        if chars[k - 1] == c {
            return Some(k - 1);
        }
        k -= 1;
    }
    None
}

/// The extension of the file at `rel_path` with its dot in front, as the file's name
/// has it.
pub fn raw_extension(rel_path: &str) -> (dotted: Option<String>)
    ensures
        match dotted {
            Some(text) => Some(text@),
            None => None,
        } == dotted_extension(rel_path@),
{
    let raw = chars_of(rel_path);
    let path = replace_char(&raw, '\\', '/');
    let mut parts = split_pieces(&path, '/');
    proof {
        crate::exclude::lemma_pieces(path@, '/');
    }
    assert(parts.deep_view().len() == parts@.len());
    let name = match parts.pop() {
        Some(name) => name,
        None => {
            return None;
        },
    };
    assert(name.deep_view() =~~= name@);
    assert(name@ == file_name(normalized_path(rel_path@)));
    let dots = chars_of("..");
    if same_chars(&name, &dots) {
        return None;
    }
    let dot = match find_last(&name, '.') {
        Some(dot) => dot,
        None => {
            return None;
        },
    };
    if dot == 0 {
        return None;
    }
    let mut dotted: Vec<char> = Vec::new();
    dotted.push('.');
    let n = name.len();
    let mut k: usize = dot + 1;
    assert(dotted@ =~= seq!['.'] + name@.subrange(dot as int + 1, k as int));
    while k < n
        invariant
            n == name@.len(),
            dot < k <= name@.len(),
            dotted@ == seq!['.'] + name@.subrange(dot as int + 1, k as int),
        decreases name@.len() - k,
    {
        dotted.push(name[k]);
        assert(dotted@ =~= seq!['.'] + name@.subrange(dot as int + 1, k as int + 1));
        k += 1;
    }
    assert(dotted@ =~= seq!['.'] + name@.skip(dot as int + 1));
    Some(text_of(dotted.as_slice()))
}

/// Whether `extensions` lists `dotted`, whatever the case of the ASCII letters.
pub fn extension_listed(dotted: &str, extensions: &Vec<String>) -> (listed: bool)
    ensures
        listed == extension_is_listed(dotted@, extensions.deep_view()),
{
    let wanted = chars_of(dotted);
    let mut i: usize = 0;
    assert(extensions.deep_view().len() == extensions@.len());
    while i < extensions.len()
        invariant
            i <= extensions@.len(),
            wanted@ == dotted@,
            forall|j: int|
                0 <= j < i ==> !ascii_case_equal(#[trigger] extensions.deep_view()[j], wanted@),
        decreases extensions@.len() - i,
    {
        assert(extensions.deep_view()[i as int] == extensions@[i as int]@);
        let extension = chars_of(extensions[i].as_str());
        if equal_ignoring_ascii_case(&extension, &wanted) {
            return true;
        }
        i += 1;
    }
    false
}

/// Whether the file at `rel_path` has one of `extensions`.
pub fn has_allowed_extension(rel_path: &str, extensions: &Vec<String>) -> (allowed: bool)
    ensures
        allowed == has_text_extension(rel_path@, extensions.deep_view()),
{
    match raw_extension(rel_path) {
        Some(dotted) => {
            let lower = to_lowercase(dotted.as_str());
            extension_listed(lower.as_str(), extensions)
        },
        None => false,
    }
}

/// What becomes of an entry of which this much is known.
pub fn verdict_for(ignored: bool, excluded: bool, is_dir: bool, has_extension: bool) -> (verdict:
    EntryVerdict)
    ensures
        verdict == verdict_of(ignored, excluded, is_dir, has_extension),
{
    if ignored || excluded {
        EntryVerdict::Skip
    } else if is_dir {
        EntryVerdict::Descend
    } else if has_extension {
        EntryVerdict::Read
    } else {
        EntryVerdict::Skip
    }
}

impl Collector {
    /// What holds of a collector between its steps.
    pub open spec fn wf(self) -> bool {
        self.max_lines > 0
    }

    /// The collector at the start of a walk: the root is to be listed, and nothing is
    /// collected. Where a set cannot be built of the exclusion patterns, nothing is
    /// excluded.
    pub fn new(text_extensions: &Vec<String>, exclude_patterns: &Vec<String>, max_lines: usize) -> (collector:
        Collector)
        requires
            max_lines > 0,
        ensures
            collector.wf(),
            collector@.text_extensions == text_extensions.deep_view(),
            collector@.max_lines == max_lines,
            collector@.pending == seq![Seq::<char>::empty()],
            collector@.blobs == Seq::<BlobView>::empty(),
            exclude_patterns@.len() == 0 ==> collector@.exclude is None,
            all_portable(exclude_patterns.deep_view()) ==> collector@.exclude == exclusion_of(
                exclude_patterns.deep_view(),
            ),
    {
        assert(exclude_patterns.deep_view().len() == exclude_patterns@.len());
        let exclude = if exclude_patterns.len() == 0 {
            None
        } else {
            match build_exclude_globset(exclude_patterns) {
                Ok(set) => Some(set),
                Err(_) => None,
            }
        };
        let mut pending: Vec<String> = Vec::new();
        pending.push(String::new());
        let blobs: Vec<Blob> = Vec::new();
        assert(pending.deep_view() =~= seq![Seq::<char>::empty()]);
        assert(blobs.deep_view() =~= Seq::<BlobView>::empty());
        Collector {
            text_extensions: clone_list(text_extensions),
            exclude,
            max_lines,
            pending,
            blobs,
        }
    }

    /// The directory to list next, which is the one that was found last; `None` where
    /// the walk is over.
    pub fn next_dir(&mut self) -> (dir: Option<String>)
        ensures
            old(self)@.pending.len() == 0 ==> dir is None && final(self)@ == old(self)@,
            old(self)@.pending.len() > 0 ==> (dir matches Some(path) && path@ == old(
                self,
            )@.pending.last()) && final(self)@ == (CollectorView {
                pending: old(self)@.pending.drop_last(),
                ..old(self)@
            }),
            final(self).wf() == old(self).wf(),
    {
        let ghost before = self.pending.deep_view();
        assert(before.len() == self.pending@.len());
        let dir = self.pending.pop();
        proof {
            if before.len() > 0 {
                assert(self.pending.deep_view() =~= before.drop_last());
            } else {
                assert(self.pending.deep_view() =~= before);
            }
        }
        dir
    }

    /// Decides what becomes of the entry at `rel_path`, a path below the root, and notes
    /// a directory that is to be walked. `ignored` says whether the project's ignore
    /// rules match the entry.
    pub fn visit(&mut self, rel_path: &str, is_dir: bool, ignored: bool) -> (verdict: EntryVerdict)
        ensures
            exclusion_is_portable(old(self)@.exclude) ==> verdict == entry_verdict(
                old(self)@,
                rel_path@,
                is_dir,
                ignored,
            ),
            ignored ==> verdict is Skip,
            verdict is Descend ==> is_dir,
            verdict is Read ==> !is_dir,
            final(self)@ == (CollectorView {
                pending: if verdict is Descend {
                    old(self)@.pending.push(rel_path@)
                } else {
                    old(self)@.pending
                },
                ..old(self)@
            }),
            final(self).wf() == old(self).wf(),
    {
        let excluded = !ignored && should_exclude(rel_path, self.exclude.as_ref());
        let has_extension = !ignored && !excluded && !is_dir && has_allowed_extension(
            rel_path,
            &self.text_extensions,
        );
        let verdict = verdict_for(ignored, excluded, is_dir, has_extension);
        if let EntryVerdict::Descend = verdict {
            let ghost before = self.pending.deep_view();
            self.pending.push(String::from_str(rel_path));
            assert(self.pending.deep_view() =~= before.push(rel_path@));
        }
        verdict
    }

    /// Adds the blobs of the file at `rel_path`, whose bytes are `bytes`; a file that
    /// could not be read, for which `bytes` is `None`, adds nothing.
    pub fn add_file(&mut self, rel_path: &str, bytes: Option<&[u8]>)
        requires
            old(self).wf(),
            bytes matches Some(read) ==> read@.len() <= max_decode_input(),
        ensures
            final(self).wf(),
            final(self)@ == (CollectorView {
                blobs: old(self)@.blobs + file_blobs(
                    rel_path@,
                    match bytes {
                        Some(read) => Some(read@),
                        None => None,
                    },
                    old(self)@.max_lines,
                ),
                ..old(self)@
            }),
    {
        let ghost before = self.blobs.deep_view();
        match bytes {
            Some(read) => {
                let content = read_file_with_encoding(read);
                let path = normalize_separators(rel_path);
                let mut parts = split_content(path.as_str(), content.as_str(), self.max_lines);
                let ghost added = parts.deep_view();
                self.blobs.append(&mut parts);
                assert(self.blobs.deep_view() =~= before + added);
            },
            None => {
                assert(self.blobs.deep_view() =~= before + Seq::<BlobView>::empty());
            },
        }
    }

    /// The blobs that the walk has collected.
    pub fn finish(self) -> (blobs: Vec<Blob>)
        ensures
            blobs.deep_view() == self@.blobs,
    {
        self.blobs
    }
}

} // verus!
