//! Texts cut and joined at a separator.

use vstd::prelude::*;
use vstd::string::*;

verus! {

/// The longest prefix of `text` that does not end in `c`.
pub open spec fn trim_end(text: Seq<char>, c: char) -> Seq<char>
    decreases text.len(),
{
    if text.len() > 0 && text.last() == c {
        trim_end(text.drop_last(), c)
    } else {
        text
    }
}

/// `text` cut at each `sep`: the pieces between the separators, in order. A
/// text without `sep` is one piece; the empty text is one empty piece.
pub open spec fn split_at(text: Seq<char>, sep: char) -> Seq<Seq<char>>
    decreases text.len(),
{
    if text.len() == 0 {
        seq![Seq::empty()]
    } else {
        let before = split_at(text.drop_last(), sep);
        if text.last() == sep {
            before.push(Seq::empty())
        } else {
            before.drop_last().push(before.last().push(text.last()))
        }
    }
}

/// `parts` in one text, with `sep` between each two.
pub open spec fn join(parts: Seq<Seq<char>>, sep: char) -> Seq<char>
    decreases parts.len(),
{
    if parts.len() == 0 {
        Seq::empty()
    } else if parts.len() == 1 {
        parts[0]
    } else {
        join(parts.drop_last(), sep) + seq![sep] + parts.last()
    }
}

/// What a list of texts stands for.
pub open spec fn texts(list: Seq<String>) -> Seq<Seq<char>> {
    Seq::new(list.len(), |i: int| list[i]@)
}

/// A text cut at a separator has at least one piece, and no piece holds the
/// separator.
pub proof fn law_split_pieces_hold_no_separator(text: Seq<char>, sep: char)
    ensures
        split_at(text, sep).len() > 0,
        forall|i: int|
            0 <= i < split_at(text, sep).len() ==> !(#[trigger] split_at(text, sep)[i]).contains(
                sep,
            ),
    decreases text.len(),
{
    if text.len() > 0 {
        law_split_pieces_hold_no_separator(text.drop_last(), sep);
        let before = split_at(text.drop_last(), sep);
        if text.last() != sep {
            let grown = before.last().push(text.last());
            assert forall|k: int| 0 <= k < grown.len() implies grown[k] != sep by {}
        }
    }
}

/// The pieces of a text, joined at the separator, are the text again.
pub proof fn law_split_joins_back(text: Seq<char>, sep: char)
    ensures
        join(split_at(text, sep), sep) == text,
    decreases text.len(),
{
    if text.len() > 0 {
        law_split_joins_back(text.drop_last(), sep);
        law_split_pieces_hold_no_separator(text.drop_last(), sep);
        let before = split_at(text.drop_last(), sep);
        if text.last() == sep {
            let now = before.push(Seq::empty());
            assert(now.drop_last() == before);
        } else {
            let now = before.drop_last().push(before.last().push(text.last()));
            assert(now.drop_last() == before.drop_last());
            if before.len() > 1 {
                assert(join(now, sep) =~= join(before, sep).push(text.last()));
            }
        }
    }
}

/// The number of characters of `text` that are left when every `c` at its end
/// is taken away.
pub fn trimmed_len(text: &str, c: char) -> (len: usize)
    ensures
        len <= text@.len(),
        trim_end(text@, c) == text@.subrange(0, len as int),
{
    let n = text.unicode_len();
    let mut len: usize = 0;
    let mut i: usize = 0;
    for x in iter: text.chars()
        invariant
            iter.seq() == text@,
            n == text@.len(),
            i == iter.index(),
            len <= i,
            trim_end(text@.subrange(0, i as int), c) == text@.subrange(0, len as int),
    {
        assert(text@.subrange(0, i + 1).drop_last() == text@.subrange(0, i as int));
        i = i + 1;
        if x != c {
            len = i;
        }
    }
    assert(text@.subrange(0, i as int) == text@);
    len
}

/// `text` without any `c` at its end.
pub fn trim_end_matches(text: &str, c: char) -> (trimmed: &str)
    ensures
        trimmed@ == trim_end(text@, c),
{
    let len = trimmed_len(text, c);
    text.substring_char(0, len)
}

/// Cuts `text` at each `sep`.
pub fn split(text: &str, sep: char) -> (parts: Vec<String>)
    ensures
        texts(parts@) == split_at(text@, sep),
{
    let n = text.unicode_len();
    let mut parts: Vec<String> = Vec::new();
    let mut start: usize = 0;
    let mut i: usize = 0;
    assert(text@.subrange(0, 0) =~= Seq::<char>::empty());
    for x in iter: text.chars()
        invariant
            iter.seq() == text@,
            n == text@.len(),
            i == iter.index(),
            start <= i,
            split_at(text@.subrange(0, i as int), sep) == texts(parts@).push(
                text@.subrange(start as int, i as int),
            ),
    {
        let ghost pending = text@.subrange(start as int, i as int);
        assert(text@.subrange(0, i + 1).drop_last() == text@.subrange(0, i as int));
        if x == sep {
            let piece = text.substring_char(start, i).to_owned();
            parts.push(piece);
            start = i + 1;
            assert(text@.subrange(start as int, i + 1) =~= Seq::<char>::empty());
        } else {
            assert(pending.push(x) =~= text@.subrange(start as int, i + 1));
        }
        i = i + 1;
    }
    let piece = text.substring_char(start, i).to_owned();
    parts.push(piece);
    assert(text@.subrange(0, i as int) == text@);
    parts
}

} // verus!
