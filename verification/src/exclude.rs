//! Exclusion of paths by glob patterns: a path is excluded where the whole of it, or
//! any one of its segments, matches a pattern.

use crate::path::{lemma_normalized_path_has_no_backslash, normalized_path};
use crate::text::{chars_of, replace_char, text_of};
use vstd::prelude::*;

verus! {

/// `globset::GlobSet`: a set of patterns, ready for matching.
#[verifier::external_type_specification]
#[verifier::external_body]
pub struct ExGlobSet(globset::GlobSet);

/// `globset::GlobSetBuilder`: the patterns of a set in the making.
#[verifier::external_type_specification]
#[verifier::external_body]
pub struct ExGlobSetBuilder(globset::GlobSetBuilder);

/// `globset::Error`: why a pattern does not parse or a set cannot be built.
#[verifier::external_type_specification]
#[verifier::external_body]
pub struct ExGlobError(globset::Error);

/// Whether `globset::Glob::new` accepts `pattern`.
pub uninterp spec fn glob_is_valid(pattern: Seq<char>) -> bool;

/// Whether `globset::GlobSetBuilder::build` makes a set of `patterns`.
pub uninterp spec fn glob_set_builds(patterns: Seq<Seq<char>>) -> bool;

/// Whether `globset::GlobSet::is_match` finds that one of `patterns` matches `path`.
pub uninterp spec fn glob_set_matches(patterns: Seq<Seq<char>>, path: Seq<char>) -> bool;

/// The patterns that a builder holds, in the order in which they were added.
pub uninterp spec fn builder_patterns(builder: globset::GlobSetBuilder) -> Seq<Seq<char>>;

/// The patterns that a set was built of.
pub uninterp spec fn glob_set_patterns(set: globset::GlobSet) -> Seq<Seq<char>>;

/// Whether `text` reads the same on every platform: it holds no backslash, which is a
/// separator of paths on some platforms and an escape on the others.
pub open spec fn is_portable(text: Seq<char>) -> bool {
    !text.contains('\\')
}

/// Whether each of `texts` is portable.
pub open spec fn all_portable(texts: Seq<Seq<char>>) -> bool {
    forall|i: int| 0 <= i < texts.len() ==> is_portable(#[trigger] texts[i])
}

/// The valid ones among the first `n` of `patterns`, in their order.
pub open spec fn valid_patterns(patterns: Seq<Seq<char>>, n: nat) -> Seq<Seq<char>>
    decreases n,
{
    if n == 0 {
        Seq::empty()
    } else if glob_is_valid(patterns[n - 1]) {
        valid_patterns(patterns, (n - 1) as nat).push(patterns[n - 1])
    } else {
        valid_patterns(patterns, (n - 1) as nat)
    }
}

/// `globset::GlobSetBuilder::new`: a builder that holds no pattern.
#[verifier::external_body]
fn new_builder() -> (builder: globset::GlobSetBuilder)
    ensures
        builder_patterns(builder) == Seq::<Seq<char>>::empty(),
{
    globset::GlobSetBuilder::new()
}

/// `globset::Glob::new`, and for the glob it gives `globset::GlobSetBuilder::add`: a
/// pattern that parses is added behind the builder's patterns, and one that does not
/// parse leaves the builder as it was. Whether a portable pattern parses depends on the
/// pattern alone.
#[verifier::external_body]
fn add_pattern(builder: &mut globset::GlobSetBuilder, pattern: &str) -> (added: Result<
    (),
    globset::Error,
>)
    ensures
        is_portable(pattern@) ==> (added is Ok <==> glob_is_valid(pattern@)),
        added is Ok ==> builder_patterns(*final(builder)) == builder_patterns(*old(builder)).push(
            pattern@,
        ),
        added is Err ==> builder_patterns(*final(builder)) == builder_patterns(*old(builder)),
{
    let glob = globset::Glob::new(pattern)?;
    builder.add(glob);
    Ok(())
}

/// `globset::GlobSetBuilder::build`: a set of the builder's patterns. Whether portable
/// patterns give a set depends on the patterns alone.
#[verifier::external_body]
fn build_set(builder: &globset::GlobSetBuilder) -> (built: Result<globset::GlobSet, globset::Error>)
    ensures
        all_portable(builder_patterns(*builder)) ==> (built is Ok <==> glob_set_builds(
            builder_patterns(*builder),
        )),
        built matches Ok(set) ==> glob_set_patterns(set) == builder_patterns(*builder),
{
    builder.build()
}

/// `globset::GlobSet::is_match`: whether one of the set's patterns matches `path`. For
/// portable patterns and a portable path this depends on the patterns and the path alone.
#[verifier::external_body]
fn set_is_match(set: &globset::GlobSet, path: &str) -> (matched: bool)
    ensures
        all_portable(glob_set_patterns(*set)) && is_portable(path@) ==> matched
            == glob_set_matches(glob_set_patterns(*set), path@),
{
    set.is_match(path)
}

/// A set of exclusion patterns, built with the defaults of `globset` and ready for
/// matching.
pub struct ExclusionSet {
    set: globset::GlobSet,
}

impl ExclusionSet {
    /// The patterns of the set, in the order in which they were given.
    pub closed spec fn patterns(self) -> Seq<Seq<char>> {
        glob_set_patterns(self.set)
    }
}

/// Why no set could be made of the exclusion patterns.
#[derive(Clone, Copy, Debug, PartialEq, Eq, Structural)]
pub enum ExcludeError {
    /// The patterns, each of them valid, could not be compiled together.
    Build,
}

/// The valid patterns of a portable list are portable.
pub proof fn lemma_valid_patterns_portable(patterns: Seq<Seq<char>>, n: nat)
    requires
        n <= patterns.len(),
        all_portable(patterns),
    ensures
        all_portable(valid_patterns(patterns, n)),
    decreases n,
{
    if n > 0 {
        lemma_valid_patterns_portable(patterns, (n - 1) as nat);
    }
}

/// The set of the valid ones among `patterns`; a pattern that does not parse is passed
/// over.
pub fn build_exclude_globset(patterns: &Vec<String>) -> (built: Result<
    ExclusionSet,
    ExcludeError,
>)
    ensures
        all_portable(patterns.deep_view()) ==> (built is Ok <==> glob_set_builds(
            valid_patterns(patterns.deep_view(), patterns@.len()),
        )),
        all_portable(patterns.deep_view()) ==> (built matches Ok(set) ==> set.patterns()
            == valid_patterns(patterns.deep_view(), patterns@.len())),
{
    let mut builder = new_builder();
    let mut i: usize = 0;
    while i < patterns.len()
        invariant
            i <= patterns@.len(),
            all_portable(patterns.deep_view()) ==> builder_patterns(builder) == valid_patterns(
                patterns.deep_view(),
                i as nat,
            ),
        decreases patterns@.len() - i,
    {
        assert(patterns.deep_view()[i as int] == patterns@[i as int]@);
        match add_pattern(&mut builder, patterns[i].as_str()) {
            Ok(()) => {},
            Err(_) => {},
        }
        i += 1;
    }
    proof {
        if all_portable(patterns.deep_view()) {
            lemma_valid_patterns_portable(patterns.deep_view(), patterns@.len());
        }
    }
    match build_set(&builder) {
        Ok(set) => Ok(ExclusionSet { set }),
        Err(_) => Err(ExcludeError::Build),
    }
}

/// The pieces of `s` between the occurrences of `sep`; a piece may be empty.
pub open spec fn pieces(s: Seq<char>, sep: char) -> Seq<Seq<char>>
    decreases s.len(),
{
    if s.len() == 0 {
        seq![Seq::<char>::empty()]
    } else {
        let before = pieces(s.drop_last(), sep);
        if s.last() == sep {
            before.push(Seq::<char>::empty())
        } else {
            before.drop_last().push(before.last().push(s.last()))
        }
    }
}

/// There is always a piece, and no piece holds the separator.
pub proof fn lemma_pieces(s: Seq<char>, sep: char)
    ensures
        pieces(s, sep).len() >= 1,
        forall|i: int| 0 <= i < pieces(s, sep).len() ==> !(#[trigger] pieces(s, sep)[i]).contains(sep),
        forall|i: int, c: char|
            0 <= i < pieces(s, sep).len() && #[trigger] pieces(s, sep)[i].contains(c)
                ==> s.contains(c),
    decreases s.len(),
{
    if s.len() > 0 {
        let rest = s.drop_last();
        lemma_pieces(rest, sep);
        let before = pieces(rest, sep);
        let now = pieces(s, sep);
        assert forall|c: char| rest.contains(c) implies s.contains(c) by {
            let k = choose|k: int| 0 <= k < rest.len() && rest[k] == c;
            assert(s[k] == c);
        }
        assert(s.contains(s.last())) by {
            assert(s[s.len() - 1] == s.last());
        }
        assert forall|i: int| 0 <= i < now.len() implies !(#[trigger] now[i]).contains(sep) by {
            if s.last() == sep {
                if i < before.len() {
                    assert(now[i] == before[i]);
                }
            } else if i < before.len() - 1 {
                assert(now[i] == before[i]);
            } else {
                let grown = before.last().push(s.last());
                assert(now[i] == grown);
                if grown.contains(sep) {
                    let k = choose|k: int| 0 <= k < grown.len() && grown[k] == sep;
                    assert(before.last()[k] == sep);
                    assert(before[before.len() - 1].contains(sep));
                }
            }
        }
        assert forall|i: int, c: char|
            0 <= i < now.len() && #[trigger] now[i].contains(c) implies s.contains(c) by {
            if s.last() == sep {
                if i < before.len() {
                    assert(now[i] == before[i]);
                    assert(rest.contains(c));
                } else {
                    assert(now[i].len() == 0);
                }
            } else if i < before.len() - 1 {
                assert(now[i] == before[i]);
                assert(rest.contains(c));
            } else {
                let grown = before.last().push(s.last());
                assert(now[i] == grown);
                let k = choose|k: int| 0 <= k < grown.len() && grown[k] == c;
                if k < before.last().len() {
                    assert(before.last()[k] == c);
                    assert(before[before.len() - 1].contains(c));
                    assert(rest.contains(c));
                }
            }
        }
    }
}

/// The pieces of a path between its slashes, the empty ones among them.
pub open spec fn path_pieces(path: Seq<char>) -> Seq<Seq<char>> {
    pieces(path, '/')
}

/// The ones among the first `n` of `parts` that are not empty, in their order.
pub open spec fn nonempty_parts(parts: Seq<Seq<char>>, n: nat) -> Seq<Seq<char>>
    decreases n,
{
    if n == 0 {
        Seq::empty()
    } else if parts[n - 1].len() > 0 {
        nonempty_parts(parts, (n - 1) as nat).push(parts[n - 1])
    } else {
        nonempty_parts(parts, (n - 1) as nat)
    }
}

/// The segments of a path: the pieces between its slashes that are not empty.
pub open spec fn path_segments(path: Seq<char>) -> Seq<Seq<char>> {
    nonempty_parts(path_pieces(path), path_pieces(path).len())
}

/// What is held against the patterns for a path: the path itself, with forward
/// slashes, and then each of its segments.
pub open spec fn match_candidates(rel_path: Seq<char>) -> Seq<Seq<char>> {
    seq![normalized_path(rel_path)] + path_segments(normalized_path(rel_path))
}

/// Whether one of `patterns` matches the path or one of its segments.
pub open spec fn is_excluded(patterns: Seq<Seq<char>>, rel_path: Seq<char>) -> bool {
    exists|i: int|
        0 <= i < match_candidates(rel_path).len() && glob_set_matches(
            patterns,
            #[trigger] match_candidates(rel_path)[i],
        )
}

/// A non-empty part is among the non-empty parts, and these are parts.
pub proof fn lemma_nonempty_parts(parts: Seq<Seq<char>>, n: nat)
    requires
        n <= parts.len(),
    ensures
        forall|i: int|
            0 <= i < nonempty_parts(parts, n).len() ==> (#[trigger] nonempty_parts(parts, n)[i]).len()
                > 0 && exists|k: int| 0 <= k < n && parts[k] == nonempty_parts(parts, n)[i],
        forall|k: int|
            0 <= k < n && (#[trigger] parts[k]).len() > 0 ==> nonempty_parts(parts, n).contains(
                parts[k],
            ),
    decreases n,
{
    if n > 0 {
        lemma_nonempty_parts(parts, (n - 1) as nat);
        let before = nonempty_parts(parts, (n - 1) as nat);
        let now = nonempty_parts(parts, n);
        assert forall|i: int| 0 <= i < now.len() implies (#[trigger] now[i]).len() > 0 && exists|
            k: int,
        | 0 <= k < n && parts[k] == now[i] by {
            if i < before.len() {
                assert(now[i] == before[i]);
                let k = choose|k: int| 0 <= k < n - 1 && parts[k] == before[i];
                assert(parts[k] == now[i]);
            } else {
                assert(parts[n - 1] == now[i]);
            }
        }
        assert forall|k: int| 0 <= k < n && (#[trigger] parts[k]).len() > 0 implies now.contains(
            parts[k],
        ) by {
            if k < n - 1 {
                assert(before.contains(parts[k]));
                let i = choose|i: int| 0 <= i < before.len() && before[i] == parts[k];
                assert(now[i] == parts[k]);
            } else {
                assert(now[now.len() - 1] == parts[k]);
            }
        }
    }
}

/// What is held against the patterns holds no backslash.
pub proof fn lemma_candidates_are_portable(rel_path: Seq<char>)
    ensures
        all_portable(match_candidates(rel_path)),
{
    let path = normalized_path(rel_path);
    let parts = path_pieces(path);
    lemma_normalized_path_has_no_backslash(rel_path);
    lemma_pieces(path, '/');
    lemma_nonempty_parts(parts, parts.len());
    let all = match_candidates(rel_path);
    assert forall|i: int| 0 <= i < all.len() implies is_portable(#[trigger] all[i]) by {
        if i > 0 {
            let segment = path_segments(path)[i - 1];
            assert(all[i] == segment);
            let k = choose|k: int| 0 <= k < parts.len() && parts[k] == segment;
            if segment.contains('\\') {
                assert(parts[k].contains('\\'));
            }
        }
    }
}

/// A path is excluded as soon as one of its segments matches, whatever the path as a
/// whole does.
pub proof fn exclusion_by_segment(patterns: Seq<Seq<char>>, rel_path: Seq<char>, i: int)
    requires
        0 <= i < path_segments(normalized_path(rel_path)).len(),
        glob_set_matches(patterns, path_segments(normalized_path(rel_path))[i]),
    ensures
        is_excluded(patterns, rel_path),
{
    assert(match_candidates(rel_path)[i + 1] == path_segments(normalized_path(rel_path))[i]);
}

/// A path is excluded as soon as the whole of it matches.
pub proof fn exclusion_by_whole_path(patterns: Seq<Seq<char>>, rel_path: Seq<char>)
    requires
        glob_set_matches(patterns, normalized_path(rel_path)),
    ensures
        is_excluded(patterns, rel_path),
{
    assert(match_candidates(rel_path)[0] == normalized_path(rel_path));
}

/// The pieces of `chars` between the occurrences of `sep`.
pub fn split_pieces(chars: &Vec<char>, sep: char) -> (parts: Vec<Vec<char>>)
    ensures
        parts.deep_view() == pieces(chars@, sep),
{
    let mut done: Vec<Vec<char>> = Vec::new();
    let mut current: Vec<char> = Vec::new();
    let mut i: usize = 0;
    assert(chars@.take(0) =~= Seq::<char>::empty());
    assert(done.deep_view().push(current.deep_view()) =~~= seq![Seq::<char>::empty()]);
    while i < chars.len()
        invariant
            i <= chars@.len(),
            done.deep_view().push(current.deep_view()) == pieces(chars@.take(i as int), sep),
        decreases chars@.len() - i,
    {
        let ghost before = pieces(chars@.take(i as int), sep);
        let ghost held = done.deep_view();
        let ghost piece = current.deep_view();
        proof {
            assert(chars@.take(i as int + 1).drop_last() =~= chars@.take(i as int));
            assert(chars@.take(i as int + 1).last() == chars@[i as int]);
            assert(before.last() == piece);
            assert(before.drop_last() =~= held);
        }
        let c = chars[i];
        if c == sep {
            done.push(current);
            current = Vec::new();
            assert(done.deep_view() =~~= held.push(piece));
            assert(current.deep_view() =~~= Seq::<char>::empty());
        } else {
            current.push(c);
            assert(current.deep_view() =~~= piece.push(c));
        }
        i += 1;
    }
    proof {
        assert(chars@.take(i as int) =~= chars@);
    }
    let ghost held = done.deep_view();
    let ghost piece = current.deep_view();
    done.push(current);
    assert(done.deep_view() =~~= held.push(piece));
    done
}

/// What is held against the patterns for a path: the path itself, with forward
/// slashes, and then each of its segments.
pub fn candidates(rel_path: &str) -> (list: Vec<String>)
    ensures
        list.deep_view() == match_candidates(rel_path@),
{
    let raw = chars_of(rel_path);
    let chars = replace_char(&raw, '\\', '/');
    let parts = split_pieces(&chars, '/');
    let mut list: Vec<String> = Vec::new();
    list.push(text_of(chars.as_slice()));
    let ghost whole = seq![normalized_path(rel_path@)];
    assert(list.deep_view() =~= whole + nonempty_parts(path_pieces(chars@), 0));
    let mut i: usize = 0;
    assert(parts.deep_view().len() == parts@.len());
    while i < parts.len()
        invariant
            i <= parts@.len(),
            parts.deep_view() == path_pieces(chars@),
            chars@ == normalized_path(rel_path@),
            whole == seq![normalized_path(rel_path@)],
            list.deep_view() == whole + nonempty_parts(path_pieces(chars@), i as nat),
        decreases parts@.len() - i,
    {
        let ghost before = list.deep_view();
        assert(parts.deep_view()[i as int] == parts@[i as int].deep_view());
        assert(parts@[i as int].deep_view() =~~= parts@[i as int]@);
        if parts[i].len() > 0 {
            list.push(text_of(parts[i].as_slice()));
            assert(list.deep_view() =~= before.push(parts@[i as int]@));
            assert(whole + nonempty_parts(path_pieces(chars@), i as nat).push(parts@[i as int]@)
                =~= (whole + nonempty_parts(path_pieces(chars@), i as nat)).push(
                parts@[i as int]@,
            ));
        }
        i += 1;
    }
    list
}

/// Whether the path is excluded: whether the set, if there is one, matches the path or
/// one of its segments.
pub fn should_exclude(rel_path: &str, exclude: Option<&ExclusionSet>) -> (excluded: bool)
    ensures
        exclude is None ==> !excluded,
        exclude matches Some(set) ==> (all_portable(set.patterns()) ==> excluded == is_excluded(
            set.patterns(),
            rel_path@,
        )),
{
    let set = match exclude {
        None => {
            return false;
        },
        Some(set) => set,
    };
    let list = candidates(rel_path);
    proof {
        lemma_candidates_are_portable(rel_path@);
    }
    let mut i: usize = 0;
    assert(list.deep_view().len() == list@.len());
    while i < list.len()
        invariant
            i <= list@.len(),
            exclude == Some(set),
            list.deep_view() == match_candidates(rel_path@),
            all_portable(match_candidates(rel_path@)),
            all_portable(set.patterns()) ==> forall|k: int|
                0 <= k < i ==> !glob_set_matches(
                    set.patterns(),
                    #[trigger] match_candidates(rel_path@)[k],
                ),
        decreases list@.len() - i,
    {
        assert(list.deep_view()[i as int] == list@[i as int]@);
        if set_is_match(&set.set, list[i].as_str()) {
            return true;
        }
        i += 1;
    }
    false
}

} // verus!
