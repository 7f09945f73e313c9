//! Splitting the content of a file into blobs along its lines.
//!
//! A line ends behind its newline character, which stays with it; what follows the last
//! newline, if anything, is a line too. A file with more lines than a blob may hold is
//! cut into chunks of that many lines, the last of which may be shorter.

use crate::arith::{ceil_div, div_ceil, lemma_ceil_div_covers};
use crate::blob::{Blob, BlobView};
use crate::text::{chars_of, concat_all, decimal, decimal_text, text_between};
use vstd::prelude::*;

verus! {

/// The offsets behind the newline characters of `s`, in rising order.
pub open spec fn line_breaks(s: Seq<char>) -> Seq<int>
    decreases s.len(),
{
    if s.len() == 0 {
        Seq::empty()
    } else if s.last() == '\n' {
        line_breaks(s.drop_last()).push(s.len() as int)
    } else {
        line_breaks(s.drop_last())
    }
}

/// The offsets at which the lines of `s` begin, and behind them the length of `s`: the
/// line numbered `k`, counted from zero, lies between the offsets at `k` and at `k + 1`.
pub open spec fn line_bounds(s: Seq<char>) -> Seq<int> {
    let inner = seq![0int] + line_breaks(s);
    if s.len() > 0 && s.last() != '\n' {
        inner.push(s.len() as int)
    } else {
        inner
    }
}

/// The number of lines of `s`.
pub open spec fn line_count(s: Seq<char>) -> nat {
    (line_bounds(s).len() - 1) as nat
}

/// The line of `s` numbered `k`, counted from zero, with its newline.
pub open spec fn line(s: Seq<char>, k: int) -> Seq<char> {
    s.subrange(line_bounds(s)[k], line_bounds(s)[k + 1])
}

/// The lines of `s`.
pub open spec fn lines(s: Seq<char>) -> Seq<Seq<char>> {
    Seq::new(line_count(s), |k: int| line(s, k))
}

/// The number of the line behind the last line of the chunk numbered `j`, counted from
/// zero, of a text of `total` lines.
pub open spec fn chunk_last_line(total: nat, max_lines: nat, j: int) -> int {
    if j * max_lines + max_lines <= total {
        j * max_lines + max_lines
    } else {
        total as int
    }
}

/// The content of the chunk numbered `j`, counted from zero: the lines from the one
/// numbered `j * max_lines` on, `max_lines` of them or as many as are left.
pub open spec fn chunk_content(content: Seq<char>, max_lines: nat, j: int) -> Seq<char> {
    content.subrange(
        line_bounds(content)[j * max_lines],
        line_bounds(content)[chunk_last_line(line_count(content), max_lines, j)],
    )
}

/// The path of the chunk numbered `number`, counted from one, of `count` chunks.
pub open spec fn chunk_path(path: Seq<char>, number: nat, count: nat) -> Seq<char> {
    path + "#chunk"@ + decimal(number) + "of"@ + decimal(count)
}

/// The blobs of the file at `path` with this content: the file as it is where it has no
/// more than `max_lines` lines, and else its chunks.
pub open spec fn split_blobs(path: Seq<char>, content: Seq<char>, max_lines: nat) -> Seq<BlobView> {
    let total = line_count(content);
    if total <= max_lines {
        seq![BlobView { path, content }]
    } else {
        let count = ceil_div(total as int, max_lines as int) as nat;
        Seq::new(
            count,
            |j: int|
                BlobView {
                    path: chunk_path(path, (j + 1) as nat, count),
                    content: chunk_content(content, max_lines, j),
                },
        )
    }
}

/// The contents of `blobs`, in their order.
pub open spec fn contents_of(blobs: Seq<BlobView>) -> Seq<Seq<char>> {
    Seq::new(blobs.len(), |i: int| blobs[i].content)
}

/// The offsets behind newlines rise, and lie within the text.
pub proof fn lemma_line_breaks(s: Seq<char>)
    ensures
        forall|i: int| 0 <= i < line_breaks(s).len() ==> 1 <= #[trigger] line_breaks(s)[i] <= s.len(),
        forall|i: int, j: int|
            0 <= i < j < line_breaks(s).len() ==> line_breaks(s)[i] < line_breaks(s)[j],
        s.len() > 0 && s.last() != '\n' ==> forall|i: int|
            0 <= i < line_breaks(s).len() ==> #[trigger] line_breaks(s)[i] < s.len(),
        s.len() > 0 && s.last() == '\n' ==> line_breaks(s).len() > 0 && line_breaks(s).last()
            == s.len(),
    decreases s.len(),
{
    if s.len() > 0 {
        lemma_line_breaks(s.drop_last());
        let before = line_breaks(s.drop_last());
        let now = line_breaks(s);
        assert forall|i: int| 0 <= i < now.len() implies 1 <= #[trigger] now[i] <= s.len() by {
            if i < before.len() {
                assert(now[i] == before[i]);
            }
        }
        assert forall|i: int, j: int| 0 <= i < j < now.len() implies now[i] < now[j] by {
            assert(now[i] == before[i]);
            if j < before.len() {
                assert(now[j] == before[j]);
            }
        }
        if s.last() != '\n' {
            assert forall|i: int| 0 <= i < now.len() implies #[trigger] now[i] < s.len() by {
                assert(now[i] == before[i]);
            }
        }
    }
}

/// The bounds of the lines begin with zero, rise, and end with the length of the text.
pub proof fn lemma_line_bounds(s: Seq<char>)
    ensures
        line_bounds(s).len() >= 1,
        line_bounds(s)[0] == 0,
        line_bounds(s).last() == s.len(),
        forall|i: int| 0 <= i < line_bounds(s).len() ==> 0 <= #[trigger] line_bounds(s)[i] <= s.len(),
        forall|i: int, j: int|
            0 <= i < j < line_bounds(s).len() ==> line_bounds(s)[i] < line_bounds(s)[j],
        s.len() == 0 ==> line_count(s) == 0,
{
    lemma_line_breaks(s);
    let breaks = line_breaks(s);
    let inner = seq![0int] + breaks;
    assert(inner[0] == 0);
    assert forall|i: int| 1 <= i < inner.len() implies inner[i] == breaks[i - 1] by {}
    let bounds = line_bounds(s);
    assert forall|i: int, j: int| 0 <= i < j < bounds.len() implies bounds[i] < bounds[j] by {
        if j < inner.len() {
            assert(bounds[j] == breaks[j - 1]);
            if i > 0 {
                assert(bounds[i] == breaks[i - 1]);
            }
        } else {
            if i > 0 {
                assert(bounds[i] == breaks[i - 1]);
            }
        }
    }
    assert forall|i: int| 0 <= i < bounds.len() implies 0 <= #[trigger] bounds[i] <= s.len() by {
        if 0 < i < inner.len() {
            assert(bounds[i] == breaks[i - 1]);
        }
    }
}

/// An offset behind a newline stands behind a newline, and behind each newline stands
/// such an offset.
pub proof fn lemma_line_breaks_mark_newlines(s: Seq<char>)
    ensures
        forall|i: int|
            0 <= i < line_breaks(s).len() ==> 1 <= #[trigger] line_breaks(s)[i] <= s.len() && s[line_breaks(
                s,
            )[i] - 1] == '\n',
        forall|p: int| 0 <= p < s.len() && s[p] == '\n' ==> line_breaks(s).contains(p + 1),
    decreases s.len(),
{
    if s.len() > 0 {
        let rest = s.drop_last();
        lemma_line_breaks_mark_newlines(rest);
        lemma_line_breaks(s);
        let before = line_breaks(rest);
        let now = line_breaks(s);
        assert forall|i: int| 0 <= i < now.len() implies 1 <= #[trigger] now[i] <= s.len()
            && s[now[i] - 1] == '\n' by {
            if i < before.len() {
                assert(now[i] == before[i]);
                assert(rest[before[i] - 1] == s[before[i] - 1]);
            }
        }
        assert forall|p: int| 0 <= p < s.len() && s[p] == '\n' implies now.contains(p + 1) by {
            if p < rest.len() {
                assert(rest[p] == s[p]);
                assert(before.contains(p + 1));
                let i = choose|i: int| 0 <= i < before.len() && before[i] == p + 1;
                assert(now[i] == p + 1);
            } else {
                assert(now[now.len() - 1] == p + 1);
            }
        }
    }
}

/// A line is not empty and holds no newline but at its end; every line but the last
/// ends with a newline.
pub proof fn lines_end_with_their_newlines(s: Seq<char>, k: int)
    requires
        0 <= k < line_count(s),
    ensures
        line(s, k).len() > 0,
        forall|i: int| 0 <= i < line(s, k).len() - 1 ==> line(s, k)[i] != '\n',
        k + 1 < line_count(s) ==> line(s, k).last() == '\n',
{
    lemma_line_bounds(s);
    lemma_line_breaks(s);
    lemma_line_breaks_mark_newlines(s);
    let bounds = line_bounds(s);
    let breaks = line_breaks(s);
    let from = bounds[k];
    let to = bounds[k + 1];
    assert(from < to);
    assert forall|m: int| 1 <= m <= breaks.len() implies bounds[m] == breaks[m - 1] by {}
    assert forall|i: int| 0 <= i < line(s, k).len() - 1 implies line(s, k)[i] != '\n' by {
        let p = from + i;
        if s[p] == '\n' {
            assert(breaks.contains(p + 1));
            let m = choose|m: int| 0 <= m < breaks.len() && breaks[m] == p + 1;
            assert(bounds[m + 1] == p + 1);
            if m + 1 <= k {
                if m + 1 < k {
                    assert(bounds[m + 1] < bounds[k]);
                }
            } else {
                if k + 1 < m + 1 {
                    assert(bounds[k + 1] < bounds[m + 1]);
                }
            }
        }
    }
    if k + 1 < line_count(s) {
        assert(bounds[k + 1] == breaks[k]);
        assert(line(s, k).last() == s[to - 1]);
    }
}

/// The lines numbered from `a` up to `b`, joined, are the text between their bounds.
pub proof fn lemma_lines_join(s: Seq<char>, a: int, b: int)
    requires
        0 <= a <= b <= line_count(s),
    ensures
        line_bounds(s)[a] <= line_bounds(s)[b],
        concat_all(lines(s).subrange(a, b)) == s.subrange(line_bounds(s)[a], line_bounds(s)[b]),
    decreases b - a,
{
    lemma_line_bounds(s);
    let bounds = line_bounds(s);
    let part = lines(s).subrange(a, b);
    if a == b {
        assert(part =~= Seq::<Seq<char>>::empty());
        assert(s.subrange(bounds[a], bounds[a]) =~= Seq::<char>::empty());
    } else {
        lemma_lines_join(s, a, b - 1);
        assert(part.drop_last() =~= lines(s).subrange(a, b - 1));
        assert(part.last() == line(s, b - 1));
        assert(bounds[b - 1] < bounds[b]);
        if a < b - 1 {
            assert(bounds[a] < bounds[b - 1]);
        }
        assert(s.subrange(bounds[a], bounds[b - 1]) + s.subrange(bounds[b - 1], bounds[b])
            =~= s.subrange(bounds[a], bounds[b]));
    }
}

/// The lines of a text, joined, are the text.
pub proof fn lines_join_to_the_text(s: Seq<char>)
    ensures
        concat_all(lines(s)) == s,
{
    lemma_line_bounds(s);
    lemma_lines_join(s, 0, line_count(s) as int);
    assert(lines(s).subrange(0, line_count(s) as int) =~= lines(s));
    assert(s.subrange(0, s.len() as int) =~= s);
}

/// A chunk holds whole lines: those from the one numbered `j * max_lines` on, up to the
/// chunk's last line.
pub proof fn chunks_hold_whole_lines(content: Seq<char>, max_lines: nat, j: int)
    requires
        max_lines > 0,
        line_count(content) > max_lines,
        0 <= j < ceil_div(line_count(content) as int, max_lines as int),
    ensures
        0 <= j * max_lines < chunk_last_line(line_count(content), max_lines, j) <= line_count(
            content,
        ),
        chunk_last_line(line_count(content), max_lines, j) - j * max_lines <= max_lines,
        chunk_content(content, max_lines, j) == concat_all(
            lines(content).subrange(
                j * max_lines,
                chunk_last_line(line_count(content), max_lines, j),
            ),
        ),
{
    let total = line_count(content);
    let count = ceil_div(total as int, max_lines as int);
    lemma_ceil_div_covers(total as int, max_lines as int);
    assert(0 <= j * max_lines <= (count - 1) * max_lines) by (nonlinear_arith)
        requires
            0 <= j <= count - 1,
            max_lines > 0,
    ;
    lemma_lines_join(content, j * max_lines, chunk_last_line(total, max_lines, j));
}

/// The bounds of the lines of `chars`.
fn line_bounds_of(chars: &Vec<char>) -> (bounds: Vec<usize>)
    ensures
        bounds@.len() == line_bounds(chars@).len(),
        forall|k: int| 0 <= k < bounds@.len() ==> bounds@[k] as int == line_bounds(chars@)[k],
{
    let n = chars.len();
    let mut bounds: Vec<usize> = Vec::new();
    bounds.push(0);
    let mut i: usize = 0;
    assert(chars@.take(0).len() == 0);
    while i < n
        invariant
            i <= n == chars@.len(),
            bounds@.len() == 1 + line_breaks(chars@.take(i as int)).len(),
            bounds@[0] == 0,
            forall|k: int|
                1 <= k < bounds@.len() ==> bounds@[k] as int == line_breaks(
                    chars@.take(i as int),
                )[k - 1],
        decreases n - i,
    {
        proof {
            assert(chars@.take(i as int + 1).drop_last() =~= chars@.take(i as int));
            assert(chars@.take(i as int + 1).last() == chars@[i as int]);
        }
        if chars[i] == '\n' {
            bounds.push(i + 1);
        }
        i += 1;
    }
    proof {
        assert(chars@.take(n as int) =~= chars@);
    }
    if n > 0 && chars[n - 1] != '\n' {
        bounds.push(n);
    }
    bounds
}

/// The blobs of the file at `path` with this content.
pub fn split_content(path: &str, content: &str, max_lines: usize) -> (blobs: Vec<Blob>)
    requires
        max_lines > 0 || content@.len() == 0,
    ensures
        blobs.deep_view() == split_blobs(path@, content@, max_lines as nat),
{
    let chars = chars_of(content);
    let bounds = line_bounds_of(&chars);
    proof {
        lemma_line_bounds(chars@);
    }
    let total = bounds.len() - 1;
    let mut blobs: Vec<Blob> = Vec::new();
    if total <= max_lines {
        blobs.push(Blob::new(String::from_str(path), String::from_str(content)));
        assert(blobs.deep_view() =~= seq![BlobView { path: path@, content: content@ }]);
        return blobs;
    }
    let count = div_ceil(total, max_lines);
    let count_text = decimal_text(count as u64);
    proof {
        lemma_ceil_div_covers(total as int, max_lines as int);
    }
    let mut j: usize = 0;
    let mut first: usize = 0;
    assert(blobs.deep_view() =~= Seq::<BlobView>::empty());
    while j < count
        invariant
            j <= count,
            max_lines > 0,
            total == line_count(chars@),
            total > max_lines,
            chars@ == content@,
            count == ceil_div(total as int, max_lines as int),
            (count - 1) * max_lines < total,
            count_text@ == decimal(count as nat),
            j < count ==> first == j * max_lines,
            bounds@.len() == line_bounds(chars@).len(),
            forall|k: int| 0 <= k < bounds@.len() ==> bounds@[k] as int == line_bounds(chars@)[k],
            forall|a: int, b: int|
                0 <= a < b < line_bounds(chars@).len() ==> line_bounds(chars@)[a] < line_bounds(
                    chars@,
                )[b],
            forall|a: int|
                0 <= a < line_bounds(chars@).len() ==> 0 <= #[trigger] line_bounds(chars@)[a]
                    <= chars@.len(),
            blobs@.len() == j,
            forall|k: int|
                0 <= k < j ==> blobs@[k]@ == (BlobView {
                    path: chunk_path(path@, (k + 1) as nat, count as nat),
                    content: chunk_content(content@, max_lines as nat, k),
                }),
        decreases count - j,
    {
        assert(j * max_lines <= (count - 1) * max_lines) by (nonlinear_arith)
            requires
                j <= count - 1,
                max_lines > 0,
        ;
        let last = if total - first <= max_lines {
            total
        } else {
            first + max_lines
        };
        assert(last == chunk_last_line(total as nat, max_lines as nat, j as int));
        let text = text_between(&chars, bounds[first], bounds[last]);
        let mut name = String::from_str(path);
        name.append("#chunk");
        name.append(decimal_text(j as u64 + 1).as_str());
        name.append("of");
        name.append(count_text.as_str());
        blobs.push(Blob::new(name, text));
        proof {
            if j + 1 < count {
                assert((j + 1) * max_lines <= (count - 1) * max_lines) by (nonlinear_arith)
                    requires
                        j + 1 <= count - 1,
                        max_lines > 0,
                ;
                assert((j + 1) * max_lines == j * max_lines + max_lines) by (nonlinear_arith);
            }
        }
        j += 1;
        first = last;
    }
    assert(blobs.deep_view() =~= split_blobs(path@, content@, max_lines as nat));
    blobs
}

/// How far the first `m` chunks of `content` reach.
pub open spec fn chunks_reach(content: Seq<char>, max_lines: nat, m: int) -> int {
    if m * max_lines <= line_count(content) {
        line_bounds(content)[m * max_lines]
    } else {
        content.len() as int
    }
}

/// The first `m` chunks of a text, joined, are the text up to where they reach.
proof fn lemma_chunks_join(path: Seq<char>, content: Seq<char>, max_lines: nat, m: int)
    requires
        max_lines > 0,
        line_count(content) > max_lines,
        0 <= m <= ceil_div(line_count(content) as int, max_lines as int),
    ensures
        0 <= chunks_reach(content, max_lines, m) <= content.len(),
        concat_all(contents_of(split_blobs(path, content, max_lines)).take(m)) == content.subrange(
            0,
            chunks_reach(content, max_lines, m),
        ),
    decreases m,
{
    let total = line_count(content);
    let count = ceil_div(total as int, max_lines as int);
    let bounds = line_bounds(content);
    let parts = contents_of(split_blobs(path, content, max_lines));
    lemma_line_bounds(content);
    lemma_ceil_div_covers(total as int, max_lines as int);
    assert(m * max_lines >= 0) by (nonlinear_arith)
        requires
            m >= 0,
            max_lines > 0,
    ;
    if m == 0 {
        assert(parts.take(0) =~= Seq::<Seq<char>>::empty());
        assert(0 * max_lines == 0) by (nonlinear_arith);
        assert(content.subrange(0, 0) =~= Seq::<char>::empty());
    } else {
        let j = m - 1;
        lemma_chunks_join(path, content, max_lines, j);
        assert(j * max_lines <= (count - 1) * max_lines) by (nonlinear_arith)
            requires
                j <= count - 1,
                max_lines > 0,
        ;
        assert(m * max_lines == j * max_lines + max_lines) by (nonlinear_arith)
            requires
                m == j + 1,
        ;
        assert(parts.take(m).drop_last() =~= parts.take(j));
        assert(parts.take(m).last() == chunk_content(content, max_lines, j));
        let from = bounds[j * max_lines];
        let last = chunk_last_line(total, max_lines, j);
        let to = bounds[last];
        assert(chunks_reach(content, max_lines, j) == from);
        assert(to == chunks_reach(content, max_lines, m)) by {
            if m * max_lines > total {
                assert(last == total);
                assert(bounds.last() == content.len());
            }
        }
        assert(from <= to) by {
            if j * max_lines < last {
                assert(bounds[j * max_lines] < bounds[last]);
            }
        }
        assert(content.subrange(0, from) + content.subrange(from, to) =~= content.subrange(0, to));
    }
}

/// The contents of a file's blobs, joined in their order, are the file's content.
pub proof fn chunking_round_trip(path: Seq<char>, content: Seq<char>, max_lines: nat)
    requires
        max_lines > 0 || content.len() == 0,
    ensures
        concat_all(contents_of(split_blobs(path, content, max_lines))) == content,
{
    let total = line_count(content);
    let parts = contents_of(split_blobs(path, content, max_lines));
    lemma_line_bounds(content);
    if total <= max_lines {
        assert(parts =~= seq![content]);
        assert(parts.drop_last() =~= Seq::<Seq<char>>::empty());
        assert(concat_all(parts.drop_last()) =~= Seq::<char>::empty());
        assert(Seq::<char>::empty() + content =~= content);
    } else {
        let count = ceil_div(total as int, max_lines as int);
        lemma_ceil_div_covers(total as int, max_lines as int);
        lemma_chunks_join(path, content, max_lines, count);
        assert(parts.take(count) =~= parts);
        assert(chunks_reach(content, max_lines, count) == content.len()) by {
            if count * max_lines <= total {
                assert(line_bounds(content).last() == content.len());
            }
        }
        assert(content.subrange(0, content.len() as int) =~= content);
    }
}

/// A file with no more lines than a blob may hold gives one blob: the file as it is.
pub proof fn chunking_keeps_small_files(path: Seq<char>, content: Seq<char>, max_lines: nat)
    requires
        line_count(content) <= max_lines,
    ensures
        split_blobs(path, content, max_lines) == seq![BlobView { path, content }],
{
}

/// A file with one line more than a blob may hold gives two chunks: the first of as
/// many lines as a blob may hold, the second of the one line that is left.
pub proof fn chunking_boundary(path: Seq<char>, content: Seq<char>, max_lines: nat)
    requires
        max_lines > 0,
        line_count(content) == max_lines + 1,
    ensures
        split_blobs(path, content, max_lines).len() == 2,
        split_blobs(path, content, max_lines)[0] == (BlobView {
            path: chunk_path(path, 1, 2),
            content: content.subrange(0, line_bounds(content)[max_lines as int]),
        }),
        split_blobs(path, content, max_lines)[1] == (BlobView {
            path: chunk_path(path, 2, 2),
            content: line(content, max_lines as int),
        }),
{
    let total = line_count(content);
    lemma_line_bounds(content);
    assert(ceil_div(total as int, max_lines as int) == 2) by (nonlinear_arith)
        requires
            max_lines > 0,
            total == max_lines + 1,
    ;
    assert(0 * max_lines == 0) by (nonlinear_arith);
    assert(1 * max_lines == max_lines) by (nonlinear_arith);
}

} // verus!
