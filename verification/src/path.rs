//! Paths as text: separators, segments, file names and extensions.

use crate::text::{chars_of, replace_char, replaced, text_of};
use vstd::prelude::*;

verus! {

/// `path` with every backslash turned into a forward slash.
pub open spec fn normalized_path(path: Seq<char>) -> Seq<char> {
    replaced(path, '\\', '/')
}

/// `path` with every backslash turned into a forward slash.
pub fn normalize_separators(path: &str) -> (normalized: String)
    ensures
        normalized@ == normalized_path(path@),
{
    let chars = chars_of(path);
    let out = replace_char(&chars, '\\', '/');
    text_of(out.as_slice())
}

/// A normalized path holds no backslash.
pub proof fn lemma_normalized_path_has_no_backslash(path: Seq<char>)
    ensures
        !normalized_path(path).contains('\\'),
        normalized_path(path).len() == path.len(),
{
    let n = normalized_path(path);
    if n.contains('\\') {
        let i = choose|i: int| 0 <= i < n.len() && n[i] == '\\';
        assert(n[i] == if path[i] == '\\' { '/' } else { path[i] });
    }
}

/// Normalizing a second time changes nothing: every spelling of a root is kept under
/// the spelling with forward slashes.
pub proof fn normalizing_twice_changes_nothing(path: Seq<char>)
    ensures
        normalized_path(normalized_path(path)) == normalized_path(path),
{
    assert(normalized_path(normalized_path(path)) =~= normalized_path(path));
}

} // verus!
