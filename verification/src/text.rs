//! Text helpers: comparing and joining strings, the last segment of a path,
//! and captured command output without its line ending.

use vstd::prelude::*;

verus! {

/// Whether `text` holds `word` as a contiguous run of characters.
pub open spec fn mentions(text: Seq<char>, word: Seq<char>) -> bool {
    exists|at: int|
        0 <= at && at + word.len() <= text.len() && #[trigger] text.subrange(
            at,
            at + word.len(),
        ) == word
}

/// A word is mentioned by any text that is built around it.
pub proof fn lemma_mentions_between(before: Seq<char>, word: Seq<char>, after: Seq<char>)
    ensures
        mentions(before + word + after, word),
{
    let text = before + word + after;
    let at = before.len() as int;
    assert(text.subrange(at, at + word.len()) =~= word);
}

/// Index of the last `'/'` in `path`, or `-1` when it holds none.
pub open spec fn last_slash(path: Seq<char>) -> int
    decreases path.len(),
{
    if path.len() == 0 {
        -1
    } else if path.last() == '/' {
        path.len() - 1
    } else {
        last_slash(path.drop_last())
    }
}

/// What follows the last `'/'` of `path`; all of `path` when it holds none.
pub open spec fn final_segment(path: Seq<char>) -> Seq<char> {
    path.skip(last_slash(path) + 1)
}

/// Whether `c` ends a line.
pub open spec fn is_line_end(c: char) -> bool {
    c == '\n' || c == '\r'
}

/// `text` without the line endings that close it.
pub open spec fn without_line_end(text: Seq<char>) -> Seq<char>
    decreases text.len(),
{
    if text.len() > 0 && is_line_end(text.last()) {
        without_line_end(text.drop_last())
    } else {
        text
    }
}

/// `last_slash` stays inside the path.
pub proof fn lemma_last_slash_bounds(path: Seq<char>)
    ensures
        -1 <= last_slash(path) < path.len(),
        last_slash(path) >= 0 ==> path[last_slash(path)] == '/',
        forall|i: int| last_slash(path) < i < path.len() ==> path[i] != '/',
    decreases path.len(),
{
    if path.len() > 0 && path.last() != '/' {
        let shorter = path.drop_last();
        lemma_last_slash_bounds(shorter);
        assert forall|i: int| last_slash(path) < i < path.len() implies path[i] != '/' by {
            if i < shorter.len() {
                assert(shorter[i] == path[i]);
            }
        }
    }
}

/// The final segment holds no `'/'`, closes the path, and what stands before
/// it is empty or ends in `'/'`.
pub proof fn lemma_final_segment_splits(path: Seq<char>)
    ensures
        !final_segment(path).contains('/'),
        path == path.take(last_slash(path) + 1) + final_segment(path),
        last_slash(path) >= 0 ==> path.take(last_slash(path) + 1).last() == '/',
{
    lemma_last_slash_bounds(path);
    let cut = last_slash(path) + 1;
    let name = final_segment(path);
    assert forall|i: int| 0 <= i < name.len() implies name[i] != '/' by {
        assert(name[i] == path[cut + i]);
    }
    assert(path =~= path.take(cut) + name);
}

/// The final segment is the only name without `'/'` that closes the path
/// behind nothing or behind a `'/'`.
pub proof fn lemma_final_segment_is_unique(path: Seq<char>, dir: Seq<char>, name: Seq<char>)
    requires
        path == dir + name,
        !name.contains('/'),
        dir.len() == 0 || dir.last() == '/',
    ensures
        final_segment(path) == name,
{
    let cut = dir.len() as int;
    let found = last_slash(path);
    lemma_last_slash_bounds(path);
    if cut > 0 {
        assert(path[cut - 1] == dir.last());
    }
    if found >= cut {
        assert(path[found] == name[found - cut]);
        assert(name.contains(name[found - cut]));
    }
    assert(path.skip(cut) =~= name);
}

/// A name without `'/'` is the final segment of every path that ends in
/// a `'/'` followed by that name, however deep the directory, and of the
/// path that holds the name alone.
pub proof fn lemma_final_segment_of_joined(dir: Seq<char>, name: Seq<char>)
    requires
        !name.contains('/'),
    ensures
        final_segment(dir + seq!['/'] + name) == name,
        final_segment(name) == name,
{
    lemma_final_segment_is_unique(dir + seq!['/'] + name, dir + seq!['/'], name);
    assert(Seq::<char>::empty() + name =~= name);
    lemma_final_segment_is_unique(name, Seq::empty(), name);
}

/// What is left once the line endings are taken off closes with none, and
/// only line endings were taken off.
pub proof fn lemma_without_line_end(text: Seq<char>)
    ensures
        without_line_end(text).len() <= text.len(),
        without_line_end(text) == text.take(without_line_end(text).len() as int),
        without_line_end(text).len() > 0 ==> !is_line_end(without_line_end(text).last()),
        forall|i: int| without_line_end(text).len() <= i < text.len() ==> is_line_end(text[i]),
    decreases text.len(),
{
    if text.len() > 0 && is_line_end(text.last()) {
        let shorter = text.drop_last();
        lemma_without_line_end(shorter);
        let kept = without_line_end(text);
        assert(kept =~= text.take(kept.len() as int));
        assert forall|i: int| kept.len() <= i < text.len() implies is_line_end(text[i]) by {
            if i < shorter.len() {
                assert(shorter[i] == text[i]);
            }
        }
    } else {
        assert(text =~= text.take(text.len() as int));
    }
}

/// Whether two texts hold the same characters.
pub fn same_text(a: &str, b: &str) -> (same: bool)
    ensures
        same == (a@ == b@),
{
    let left = a.to_owned();
    let right = b.to_owned();
    left == right
}

/// `first` followed by `second`.
pub fn join(first: &str, second: &str) -> (joined: String)
    ensures
        joined@ == first@ + second@,
{
    let mut joined = first.to_owned();
    joined.append(second);
    joined
}

/// `first`, `second` and `third`, one after the other.
pub fn join3(first: &str, second: &str, third: &str) -> (joined: String)
    ensures
        joined@ == first@ + second@ + third@,
{
    let mut joined = first.to_owned();
    joined.append(second);
    joined.append(third);
    joined
}

/// The last segment of `path`: what follows its last `'/'`.
pub fn base_name(path: &str) -> (name: String)
    ensures
        name@ == final_segment(path@),
{
    let len = path.unicode_len();
    let mut start: usize = 0;
    let mut seen: usize = 0;
    for c in it: path.chars()
        invariant
            it.seq() == path@,
            seen == it.index(),
            len == path@.len(),
            start == last_slash(path@.take(seen as int)) + 1,
    {
        proof {
            let grown = path@.take(seen + 1);
            assert(grown.drop_last() =~= path@.take(seen as int));
            assert(grown.last() == c);
        }
        seen = seen + 1;
        if c == '/' {
            start = seen;
        }
    }
    proof {
        assert(path@.take(seen as int) =~= path@);
        lemma_last_slash_bounds(path@);
        assert(path@.subrange(start as int, len as int) =~= final_segment(path@));
    }
    path.substring_char(start, len).to_owned()
}

/// `text` without the line endings that close it.
pub fn strip_line_end(text: &str) -> (kept: String)
    ensures
        kept@ == without_line_end(text@),
{
    let len = text.unicode_len();
    let mut keep: usize = 0;
    let mut seen: usize = 0;
    for c in it: text.chars()
        invariant
            it.seq() == text@,
            seen == it.index(),
            len == text@.len(),
            keep <= seen,
            keep == without_line_end(text@.take(seen as int)).len(),
    {
        proof {
            let grown = text@.take(seen + 1);
            assert(grown.drop_last() =~= text@.take(seen as int));
            assert(grown.last() == c);
            lemma_without_line_end(grown.drop_last());
        }
        seen = seen + 1;
        if c != '\n' && c != '\r' {
            keep = seen;
        }
    }
    proof {
        assert(text@.take(seen as int) =~= text@);
        lemma_without_line_end(text@);
        assert(text@.subrange(0, keep as int) =~= without_line_end(text@));
    }
    text.substring_char(0, keep).to_owned()
}

} // verus!
