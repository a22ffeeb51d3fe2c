//! Joining a buffer to one text and splitting one text into a buffer, with
//! a configurable line separator.
//!
//! These are the pure halves of loading and saving: the surrounding
//! application reads or writes the text itself, while the engine only ever
//! sees the sequence of codepoints.

use crate::cursor::Cursor;
use crate::model::CursorModel;
use vstd::prelude::*;

verus! {

/// The lines obtained by cutting `text` at every occurrence of `sep`,
/// scanning from the left.  A text without the separator is one line; an
/// empty separator never matches, so it also yields one line.
pub open spec fn spec_split(text: Seq<char>, sep: Seq<char>) -> Seq<Seq<char>>
    decreases text.len(),
{
    if sep.len() == 0 || sep.len() > text.len() {
        seq![text]
    } else if text.take(sep.len() as int) == sep {
        seq![Seq::<char>::empty()] + spec_split(text.skip(sep.len() as int), sep)
    } else {
        let rest = spec_split(text.skip(1), sep);
        seq![seq![text[0]] + rest[0]] + rest.skip(1)
    }
}

/// The text obtained by writing every line, with `sep` between neighbours.
pub open spec fn spec_join(lines: Seq<Seq<char>>, sep: Seq<char>) -> Seq<char>
    decreases lines.len(),
{
    if lines.len() == 0 {
        Seq::empty()
    } else if lines.len() == 1 {
        lines[0]
    } else {
        lines[0] + sep + spec_join(lines.skip(1), sep)
    }
}

/// A split always yields at least one line.
pub proof fn lemma_split_len(text: Seq<char>, sep: Seq<char>)
    ensures
        spec_split(text, sep).len() >= 1,
    decreases text.len(),
{
    if sep.len() == 0 || sep.len() > text.len() {
    } else if text.take(sep.len() as int) == sep {
        lemma_split_len(text.skip(sep.len() as int), sep);
    } else {
        lemma_split_len(text.skip(1), sep);
    }
}

/// Joining after appending one more line appends one separator and that
/// line.
pub proof fn lemma_join_snoc(lines: Seq<Seq<char>>, last: Seq<char>, sep: Seq<char>)
    requires
        lines.len() >= 1,
    ensures
        spec_join(lines.push(last), sep) == spec_join(lines, sep) + sep + last,
    decreases lines.len(),
{
    if lines.len() == 1 {
        assert(lines.push(last).skip(1) =~= seq![last]);
        assert(spec_join(seq![last], sep) == last);
        assert(lines.push(last)[0] == lines[0]);
    } else {
        lemma_join_snoc(lines.skip(1), last, sep);
        assert(lines.push(last).skip(1) =~= lines.skip(1).push(last));
        assert(lines[0] + sep + (spec_join(lines.skip(1), sep) + sep + last) =~= (lines[0] + sep
            + spec_join(lines.skip(1), sep)) + sep + last);
    }
}

/// Splitting a text and joining the lines with the same separator gives
/// the text back: the cuts forget nothing but the separators themselves,
/// and the join writes exactly one separator at every cut.
pub proof fn lemma_split_join_roundtrip(text: Seq<char>, sep: Seq<char>)
    ensures
        spec_join(spec_split(text, sep), sep) == text,
    decreases text.len(),
{
    if sep.len() == 0 || sep.len() > text.len() {
    } else if text.take(sep.len() as int) == sep {
        let k = sep.len() as int;
        let rest = spec_split(text.skip(k), sep);
        lemma_split_len(text.skip(k), sep);
        lemma_split_join_roundtrip(text.skip(k), sep);
        assert((seq![Seq::<char>::empty()] + rest).skip(1) =~= rest);
        assert(Seq::<char>::empty() + sep + text.skip(k) =~= text);
    } else {
        let rest = spec_split(text.skip(1), sep);
        lemma_split_len(text.skip(1), sep);
        lemma_split_join_roundtrip(text.skip(1), sep);
        let first = seq![text[0]] + rest[0];
        if rest.len() == 1 {
            assert(spec_join(rest, sep) == rest[0]);
            assert(seq![first] + rest.skip(1) =~= seq![first]);
            assert(seq![text[0]] + text.skip(1) =~= text);
        } else {
            assert((seq![first] + rest.skip(1)).skip(1) =~= rest.skip(1));
            assert((seq![first] + rest.skip(1))[0] == first);
            assert(first + sep + spec_join(rest.skip(1), sep) =~= seq![text[0]] + (rest[0] + sep
                + spec_join(rest.skip(1), sep)));
            assert(seq![text[0]] + text.skip(1) =~= text);
        }
    }
}

/// Appends every codepoint of `piece` to `out`.
fn push_all(out: &mut Vec<char>, piece: &Vec<char>)
    ensures
        final(out)@ == old(out)@ + piece@,
{
    let mut i: usize = 0;
    while i < piece.len()
        invariant
            i <= piece@.len(),
            out@ == old(out)@ + piece@.take(i as int),
        decreases piece@.len() - i,
    {
        out.push(piece[i]);
        i = i + 1;
        proof {
            assert(old(out)@ + piece@.take(i as int) =~= (old(out)@ + piece@.take(
                i - 1,
            )).push(piece@[i - 1]));
        }
    }
    proof {
        assert(old(out)@ + piece@.take(piece@.len() as int) =~= old(out)@ + piece@);
    }
}

/// True when the whole separator occurs in `text` at offset `i`.
fn is_separator_at(text: &Vec<char>, separator: &Vec<char>, i: usize) -> (r: bool)
    requires
        i <= text@.len(),
    ensures
        r == (i + separator@.len() <= text@.len() && text@.subrange(
            i as int,
            i + separator@.len(),
        ) == separator@),
{
    if separator.len() > text.len() - i {
        return false;
    }
    let mut j: usize = 0;
    while j < separator.len()
        invariant
            j <= separator@.len(),
            i + separator@.len() <= text.len(),
            text.len() == text@.len(),
            forall|t: int| 0 <= t < j ==> text@[i + t] == separator@[t],
        decreases separator@.len() - j,
    {
        if text[i + j] != separator[j] {
            assert(text@.subrange(i as int, i + separator@.len())[j as int] != separator@[j as int]);
            return false;
        }
        j = j + 1;
    }
    proof {
        assert(text@.subrange(i as int, i + separator@.len()) =~= separator@);
    }
    true
}

/// Cuts `text` at every occurrence of `separator`, scanning from the left.
fn split_text(text: &Vec<char>, separator: &Vec<char>) -> (r: Vec<Vec<char>>)
    ensures
        r.deep_view() == spec_split(text@, separator@),
{
    if separator.len() == 0 {
        let mut whole: Vec<char> = Vec::new();
        push_all(&mut whole, text);
        let mut pieces: Vec<Vec<char>> = Vec::new();
        pieces.push(whole);
        proof {
            assert(whole@ =~= text@);
            assert(pieces.deep_view() =~~= seq![text@]);
        }
        return pieces;
    }
    let mut pieces: Vec<Vec<char>> = Vec::new();
    let mut piece: Vec<char> = Vec::new();
    let mut i: usize = 0;
    proof {
        lemma_split_len(text@, separator@);
        assert(text@.skip(0) =~= text@);
        assert(pieces.deep_view() =~~= Seq::<Seq<char>>::empty());
        assert(spec_split(text@, separator@) =~~= pieces.deep_view() + seq![piece@ + spec_split(
            text@.skip(0),
            separator@,
        )[0]] + spec_split(text@.skip(0), separator@).skip(1));
    }
    while i < text.len()
        invariant
            i <= text@.len(),
            separator@.len() >= 1,
            spec_split(text@, separator@) == pieces.deep_view() + seq![piece@ + spec_split(
                text@.skip(i as int),
                separator@,
            )[0]] + spec_split(text@.skip(i as int), separator@).skip(1),
        decreases text@.len() - i,
    {
        let ghost prev_pieces = pieces.deep_view();
        let ghost prev_piece = piece@;
        let ghost suffix = text@.skip(i as int);
        let ghost rest = spec_split(suffix, separator@);
        if is_separator_at(text, separator, i) {
            pieces.push(piece);
            piece = Vec::new();
            i = i + separator.len();
            proof {
                let k = separator@.len() as int;
                assert(suffix.take(k) =~= text@.subrange(i - k, i as int));
                assert(suffix.skip(k) =~= text@.skip(i as int));
                let rest_after = spec_split(text@.skip(i as int), separator@);
                lemma_split_len(text@.skip(i as int), separator@);
                assert(rest =~= seq![Seq::<char>::empty()] + rest_after);
                assert(rest[0] == Seq::<char>::empty());
                assert(rest.skip(1) =~= rest_after);
                assert(prev_piece + rest[0] =~= prev_piece);
                assert(pieces.deep_view() =~~= prev_pieces.push(prev_piece));
                assert(rest_after =~= seq![rest_after[0]] + rest_after.skip(1));
                assert(prev_pieces + seq![prev_piece + rest[0]] + rest.skip(1) =~~= pieces.deep_view()
                    + seq![piece@ + rest_after[0]] + rest_after.skip(1));
            }
        } else {
            piece.push(text[i]);
            i = i + 1;
            proof {
                let k = separator@.len() as int;
                let rest_after = spec_split(text@.skip(i as int), separator@);
                lemma_split_len(text@.skip(i as int), separator@);
                assert(suffix.skip(1) =~= text@.skip(i as int));
                assert(suffix[0] == text@[i - 1]);
                if k > suffix.len() {
                    assert(rest == seq![suffix]);
                    assert(k > text@.skip(i as int).len());
                    assert(rest_after == seq![text@.skip(i as int)]);
                    assert(piece@ + rest_after[0] =~= prev_piece + suffix);
                    assert(prev_pieces + seq![prev_piece + rest[0]] + rest.skip(1) =~~= pieces.deep_view()
                        + seq![piece@ + rest_after[0]] + rest_after.skip(1));
                } else {
                    assert(suffix.take(k) =~= text@.subrange(i - 1, i - 1 + k));
                    assert(suffix.take(k) != separator@);
                    assert(rest == seq![seq![suffix[0]] + rest_after[0]] + rest_after.skip(1));
                    assert(piece@ + rest_after[0] =~= prev_piece + (seq![suffix[0]] + rest_after[0]));
                    assert(prev_pieces + seq![prev_piece + rest[0]] + rest.skip(1) =~~= pieces.deep_view()
                        + seq![piece@ + rest_after[0]] + rest_after.skip(1));
                }
            }
        }
    }
    pieces.push(piece);
    proof {
        let rest = spec_split(text@.skip(text@.len() as int), separator@);
        assert(text@.skip(text@.len() as int) =~= Seq::<char>::empty());
        assert(rest == seq![Seq::<char>::empty()]);
        assert(rest.skip(1) =~= Seq::<Seq<char>>::empty());
        assert(pieces.deep_view() =~~= spec_split(text@, separator@));
    }
    pieces
}

/// Joins every line of `lines`, writing `separator` between neighbours.
fn join_lines(lines: &Vec<Vec<char>>, separator: &Vec<char>) -> (r: Vec<char>)
    requires
        lines@.len() >= 1,
    ensures
        r@ == spec_join(lines.deep_view(), separator@),
{
    let mut out: Vec<char> = Vec::new();
    push_all(&mut out, &lines[0]);
    proof {
        assert(out@ =~= lines.deep_view()[0]);
        assert(lines.deep_view().take(1)[0] == lines.deep_view()[0]);
        assert(out@ == spec_join(lines.deep_view().take(1), separator@));
    }
    let mut i: usize = 1;
    while i < lines.len()
        invariant
            1 <= i <= lines@.len(),
            out@ == spec_join(lines.deep_view().take(i as int), separator@),
        decreases lines@.len() - i,
    {
        push_all(&mut out, separator);
        push_all(&mut out, &lines[i]);
        proof {
            lemma_join_snoc(lines.deep_view().take(i as int), lines.deep_view()[i as int],
                separator@);
            assert(lines.deep_view().take(i as int).push(lines.deep_view()[i as int])
                =~= lines.deep_view().take(i + 1));
            assert(out@ =~= spec_join(lines.deep_view().take(i as int), separator@) + separator@
                + lines.deep_view()[i as int]);
        }
        i = i + 1;
    }
    proof {
        assert(lines.deep_view().take(lines@.len() as int) =~= lines.deep_view());
    }
    out
}

impl Cursor {
    /// Builds a cursor from one text, cutting it into lines at every
    /// occurrence of the separator.
    pub fn multi_line_string_to_cursor(text: &Vec<char>, separator: &Vec<char>) -> (cursor: Cursor)
        ensures
            cursor@ == CursorModel::init(spec_split(text@, separator@)),
            cursor@.wf(),
    {
        proof {
            lemma_split_len(text@, separator@);
        }
        Cursor::new(split_text(text, separator))
    }

    /// Writes the buffer as one text, with the separator between
    /// neighbouring lines.
    pub fn to_multi_line_string(&self, separator: &Vec<char>) -> (r: Vec<char>)
        requires
            self@.wf(),
        ensures
            r@ == spec_join(self@.lines, separator@),
    {
        join_lines(&self.lines, separator)
    }
}

} // verus!
