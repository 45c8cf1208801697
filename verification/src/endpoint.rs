//! Endpoints: the paths, relative to the API's base, that requests name.
//!
//! An endpoint is read segment by segment. Slashes only separate: one slash or
//! many between two segments, in front of the first or behind the last, name
//! the same path.

use vstd::prelude::*;

verus! {

/// Whether `c` occurs in `text`.
pub open spec fn has_char(text: Seq<char>, c: char) -> bool {
    exists|i: int| 0 <= i < text.len() && text[i] == c
}

/// Whether an endpoint carries a query or a fragment, which no endpoint may.
pub open spec fn has_query_or_fragment(endpoint: Seq<char>) -> bool {
    has_char(endpoint, '?') || has_char(endpoint, '#')
}

/// The place of the first slash in `text`, or the length of `text` if it has none.
pub open spec fn first_slash(text: Seq<char>) -> nat
    decreases text.len(),
{
    if text.len() == 0 || text[0] == '/' {
        0
    } else {
        1 + first_slash(text.skip(1))
    }
}

/// The segments of a path: what stands between its slashes, without the empty
/// pieces.
pub open spec fn path_segments(path: Seq<char>) -> Seq<Seq<char>>
    decreases path.len(),
{
    if path.len() == 0 {
        Seq::empty()
    } else {
        let cut = first_slash(path);
        let head = path.take(cut as int);
        let tail = if cut < path.len() {
            path.skip(cut as int + 1)
        } else {
            Seq::empty()
        };
        if head.len() == 0 {
            path_segments(tail)
        } else {
            seq![head] + path_segments(tail)
        }
    }
}

/// A piece that can stand as a segment: not empty, and without a slash.
pub open spec fn is_segment(piece: Seq<char>) -> bool {
    piece.len() > 0 && !has_char(piece, '/')
}

/// The path that names the given segments with single slashes between them and
/// none around them.
pub open spec fn joined(segments: Seq<Seq<char>>) -> Seq<char>
    decreases segments.len(),
{
    if segments.len() == 0 {
        Seq::empty()
    } else if segments.len() == 1 {
        segments[0]
    } else {
        segments[0] + seq!['/'] + joined(segments.skip(1))
    }
}

/// The texts of a list of strings.
pub open spec fn texts(strings: Seq<String>) -> Seq<Seq<char>> {
    strings.map_values(|s: String| s@)
}

/// `first_slash` stays within the text, nothing before it is a slash, and what
/// stands at it is one.
pub proof fn lemma_first_slash(text: Seq<char>)
    ensures
        first_slash(text) <= text.len(),
        forall|i: int| 0 <= i < first_slash(text) ==> text[i] != '/',
        first_slash(text) < text.len() ==> text[first_slash(text) as int] == '/',
    decreases text.len(),
{
    if text.len() != 0 && text[0] != '/' {
        let rest = text.skip(1);
        lemma_first_slash(rest);
        assert forall|i: int| 0 <= i < first_slash(text) implies text[i] != '/' by {
            if i > 0 {
                assert(text[i] == rest[i - 1]);
            }
        }
    }
}

/// A place with no slash before it, which holds a slash or is the end, is the
/// place of the first slash.
pub proof fn lemma_first_slash_is(text: Seq<char>, at: int)
    requires
        0 <= at <= text.len(),
        forall|i: int| 0 <= i < at ==> text[i] != '/',
        at < text.len() ==> text[at] == '/',
    ensures
        first_slash(text) == at,
{
    lemma_first_slash(text);
}

/// Each of the segments of a path is a segment: not empty, and without a slash.
pub proof fn lemma_segments_are_segments(path: Seq<char>)
    ensures
        forall|k: int| 0 <= k < path_segments(path).len() ==> is_segment(#[trigger] path_segments(path)[k]),
    decreases path.len(),
{
    if path.len() != 0 {
        lemma_first_slash(path);
        let cut = first_slash(path);
        let head = path.take(cut as int);
        let tail = if cut < path.len() {
            path.skip(cut as int + 1)
        } else {
            Seq::empty()
        };
        lemma_segments_are_segments(tail);
        if head.len() != 0 {
            assert(!has_char(head, '/')) by {
                if has_char(head, '/') {
                    let i = choose|i: int| 0 <= i < head.len() && head[i] == '/';
                    assert(path[i] == '/');
                }
            }
        }
        assert forall|k: int| 0 <= k < path_segments(path).len() implies is_segment(
            #[trigger] path_segments(path)[k],
        ) by {
            if head.len() == 0 {
                assert(path_segments(path)[k] == path_segments(tail)[k]);
            } else if k > 0 {
                assert(path_segments(path)[k] == path_segments(tail)[k - 1]);
            }
        }
    }
}

/// A slash between two paths separates their segments.
pub proof fn lemma_slash_separates(front: Seq<char>, back: Seq<char>)
    ensures
        path_segments(front + seq!['/'] + back) == path_segments(front) + path_segments(back),
    decreases front.len(),
{
    let whole = front + seq!['/'] + back;
    lemma_first_slash(front);
    let cut = first_slash(front) as int;
    assert forall|i: int| 0 <= i < cut implies whole[i] != '/' by {
        assert(whole[i] == front[i]);
    }
    lemma_first_slash_is(whole, cut);
    assert(whole.take(cut) == front.take(cut));
    if cut < front.len() {
        let rest = front.skip(cut + 1);
        assert(whole.skip(cut + 1) == rest + seq!['/'] + back);
        lemma_slash_separates(rest, back);
        if cut != 0 {
            assert(seq![front.take(cut)] + (path_segments(rest) + path_segments(back)) == (seq![
                front.take(cut),
            ] + path_segments(rest)) + path_segments(back));
        }
    } else {
        assert(whole.skip(cut + 1) == back);
        assert(front.take(cut) == front);
        if front.len() != 0 {
            assert(path_segments(Seq::<char>::empty()) == Seq::<Seq<char>>::empty());
        }
    }
}

/// A path without a slash has itself as its one segment, or none if it is empty.
pub proof fn lemma_segment_alone(piece: Seq<char>)
    requires
        !has_char(piece, '/'),
    ensures
        path_segments(piece) == if piece.len() == 0 {
            Seq::<Seq<char>>::empty()
        } else {
            seq![piece]
        },
{
    if piece.len() != 0 {
        lemma_first_slash_is(piece, piece.len() as int);
        assert(piece.take(piece.len() as int) == piece);
        assert(path_segments(Seq::<char>::empty()) == Seq::<Seq<char>>::empty());
    }
}

/// Reading the path that `joined` writes gives back the segments it was
/// written from.
pub proof fn lemma_segments_of_joined(segments: Seq<Seq<char>>)
    requires
        forall|k: int| 0 <= k < segments.len() ==> is_segment(#[trigger] segments[k]),
    ensures
        path_segments(joined(segments)) == segments,
    decreases segments.len(),
{
    if segments.len() == 0 {
    } else if segments.len() == 1 {
        lemma_segment_alone(segments[0]);
    } else {
        let rest = segments.skip(1);
        assert forall|k: int| 0 <= k < rest.len() implies is_segment(#[trigger] rest[k]) by {
            assert(rest[k] == segments[k + 1]);
        }
        lemma_segments_of_joined(rest);
        lemma_slash_separates(segments[0], joined(rest));
        lemma_segment_alone(segments[0]);
    }
}

/// Slashes that separate nothing change nothing: an endpoint has the segments
/// of its normal form, the path with single slashes between the segments and
/// none around them.
pub proof fn lemma_redundant_slashes(endpoint: Seq<char>)
    ensures
        path_segments(joined(path_segments(endpoint))) == path_segments(endpoint),
{
    lemma_segments_are_segments(endpoint);
    lemma_segments_of_joined(path_segments(endpoint));
}

/// A character of a segment of a path occurs in the path.
pub proof fn lemma_segment_chars(path: Seq<char>, k: int, c: char)
    requires
        0 <= k < path_segments(path).len(),
        has_char(path_segments(path)[k], c),
    ensures
        has_char(path, c),
    decreases path.len(),
{
    lemma_first_slash(path);
    let cut = first_slash(path);
    let head = path.take(cut as int);
    let tail = if cut < path.len() {
        path.skip(cut as int + 1)
    } else {
        Seq::empty()
    };
    if head.len() != 0 && k == 0 {
        let i = choose|i: int| 0 <= i < head.len() && head[i] == c;
        assert(path[i] == c);
    } else {
        let below = if head.len() != 0 {
            k - 1
        } else {
            k
        };
        lemma_segment_chars(tail, below, c);
        let i = choose|i: int| 0 <= i < tail.len() && tail[i] == c;
        assert(path[cut + 1 + i] == c);
    }
}

/// A character of a joined path is a slash, or occurs in one of the segments.
pub proof fn lemma_joined_chars(segments: Seq<Seq<char>>, c: char) -> (k: int)
    requires
        has_char(joined(segments), c),
        c != '/',
    ensures
        0 <= k < segments.len(),
        has_char(segments[k], c),
    decreases segments.len(),
{
    if segments.len() == 1 {
        0
    } else {
        let whole = joined(segments);
        let first = segments[0];
        let rest = joined(segments.skip(1));
        let i = choose|i: int| 0 <= i < whole.len() && whole[i] == c;
        if i < first.len() {
            assert(first[i] == c);
            0
        } else {
            assert(rest[i - first.len() - 1] == c);
            lemma_joined_chars(segments.skip(1), c) + 1
        }
    }
}

/// The normal form of an endpoint has no character but a slash that the
/// endpoint does not have.
pub proof fn lemma_normal_form_chars(endpoint: Seq<char>, c: char)
    requires
        has_char(joined(path_segments(endpoint)), c),
        c != '/',
    ensures
        has_char(endpoint, c),
{
    let k = lemma_joined_chars(path_segments(endpoint), c);
    lemma_segment_chars(endpoint, k, c);
}

/// One slash more beside a slash, in front of a path or behind it, leaves the
/// segments as they are.
pub proof fn lemma_extra_slash(front: Seq<char>, back: Seq<char>)
    ensures
        path_segments(front + seq!['/', '/'] + back) == path_segments(front + seq!['/'] + back),
        path_segments(seq!['/'] + back) == path_segments(back),
        path_segments(front + seq!['/']) == path_segments(front),
{
    let empty = Seq::<char>::empty();
    assert(front + seq!['/', '/'] + back == front + seq!['/'] + (seq!['/'] + back));
    lemma_slash_separates(front, seq!['/'] + back);
    lemma_slash_separates(empty, back);
    lemma_slash_separates(front, back);
    lemma_slash_separates(front, empty);
}

/// Tells whether `wanted` occurs in `text`.
pub fn contains_char(text: &str, wanted: char) -> (found: bool)
    ensures
        found == has_char(text@, wanted),
{
    let mut found = false;
    for c in it: text.chars()
        invariant
            it.seq() == text@,
            found == has_char(text@.take(it.index() as int), wanted),
    {
        proof {
            let n = it.index() as int;
            let before = text@.take(n);
            let after = text@.take(n + 1);
            assert(after[n] == c);
            if has_char(before, wanted) {
                let i = choose|i: int| 0 <= i < before.len() && before[i] == wanted;
                assert(after[i] == wanted);
            }
            if has_char(after, wanted) && c != wanted {
                let i = choose|i: int| 0 <= i < after.len() && after[i] == wanted;
                assert(before[i] == wanted);
            }
        }
        if c == wanted {
            found = true;
        }
    }
    assert(text@.take(text@.len() as int) == text@);
    found
}

/// Splits a path into its segments.
pub fn split_path(path: &str) -> (segments: Vec<String>)
    ensures
        texts(segments@) == path_segments(path@),
{
    let length = path.unicode_len();
    let mut segments: Vec<String> = Vec::new();
    let mut start: usize = 0;
    let mut at: usize = 0;
    assert(path@.skip(0) == path@);
    for c in it: path.chars()
        invariant
            it.seq() == path@,
            length == path@.len(),
            at == it.index(),
            start <= at <= length,
            forall|k: int| start <= k < at ==> path@[k] != '/',
            path_segments(path@) == texts(segments@) + path_segments(path@.skip(start as int)),
    {
        if c == '/' {
            let ghost rest = path@.skip(start as int);
            let ghost piece = path@.subrange(start as int, at as int);
            let ghost before = segments@;
            proof {
                assert forall|i: int| 0 <= i < at - start implies rest[i] != '/' by {
                    assert(rest[i] == path@[start + i]);
                }
                lemma_first_slash_is(rest, at - start);
                assert(rest.take(at - start) == piece);
                assert(rest.skip(at - start + 1) == path@.skip(at + 1));
            }
            if start < at {
                segments.push(path.substring_char(start, at).to_owned());
                proof {
                    assert(texts(before) + (seq![piece] + path_segments(path@.skip(at + 1))) == (
                    texts(before) + seq![piece]) + path_segments(path@.skip(at + 1)));
                }
            }
            start = at + 1;
        }
        at = at + 1;
    }
    let ghost rest = path@.skip(start as int);
    proof {
        assert(!has_char(rest, '/')) by {
            if has_char(rest, '/') {
                let i = choose|i: int| 0 <= i < rest.len() && rest[i] == '/';
                assert(path@[start + i] == '/');
            }
        }
        lemma_segment_alone(rest);
    }
    if start < at {
        segments.push(path.substring_char(start, at).to_owned());
    }
    segments
}

} // verus!
