//! Text operations on sequences of characters: splitting at a separator,
//! joining, and turning forward slashes into backslashes.

use vstd::prelude::*;
use vstd::string::*;

verus! {

/// The pieces of `s` between the occurrences of `separator`, from left to right.
/// A text without the separator is one piece; the empty text is one empty piece.
pub open spec fn pieces(s: Seq<char>, separator: char) -> Seq<Seq<char>>
    decreases s.len(),
{
    if s.len() == 0 {
        seq![Seq::<char>::empty()]
    } else {
        let before = pieces(s.drop_last(), separator);
        if s.last() == separator {
            before.push(Seq::<char>::empty())
        } else {
            before.drop_last().push(before.last().push(s.last()))
        }
    }
}

/// The pieces put together again, with `separator` between neighbours.
pub open spec fn joined(pieces: Seq<Seq<char>>, separator: char) -> Seq<char>
    decreases pieces.len(),
{
    if pieces.len() == 0 {
        Seq::<char>::empty()
    } else if pieces.len() == 1 {
        pieces[0]
    } else {
        joined(pieces.drop_last(), separator) + seq![separator] + pieces.last()
    }
}

/// `s` with every forward slash replaced by a backslash.
pub open spec fn backslashed(s: Seq<char>) -> Seq<char> {
    s.map_values(
        |c: char|
            if c == '/' {
                '\\'
            } else {
                c
            },
    )
}

/// What follows the last backslash of `s`; all of `s` where it has none.
pub open spec fn last_piece(s: Seq<char>) -> Seq<char> {
    pieces(s, '\\').last()
}

/// A split always yields at least one piece.
pub proof fn lemma_split_nonempty(s: Seq<char>, separator: char)
    ensures
        pieces(s, separator).len() >= 1,
    decreases s.len(),
{
    if s.len() > 0 {
        lemma_split_nonempty(s.drop_last(), separator);
    }
}

/// No piece of a split holds the separator.
pub proof fn lemma_split_pieces_clean(s: Seq<char>, separator: char)
    ensures
        forall|i: int|
            0 <= i < pieces(s, separator).len() ==> !(#[trigger] pieces(s, separator)[i]).contains(
                separator,
            ),
    decreases s.len(),
{
    if s.len() > 0 {
        lemma_split_nonempty(s.drop_last(), separator);
        lemma_split_pieces_clean(s.drop_last(), separator);
    }
}

/// Joining the pieces of a split gives the text back.
pub proof fn lemma_join_split(s: Seq<char>, separator: char)
    ensures
        joined(pieces(s, separator), separator) == s,
    decreases s.len(),
{
    if s.len() > 0 {
        let rest = s.drop_last();
        let before = pieces(rest, separator);
        lemma_split_nonempty(rest, separator);
        lemma_join_split(rest, separator);
        if s.last() == separator {
            assert(before.push(Seq::<char>::empty()).drop_last() == before);
        } else if before.len() > 1 {
            let grown = before.last().push(s.last());
            let head = joined(before.drop_last(), separator) + seq![separator];
            assert(before.drop_last().push(grown).drop_last() == before.drop_last());
            assert(head + grown == (head + before.last()).push(s.last()));
        }
    }
}

/// A text without the separator is its own single piece.
pub proof fn lemma_split_clean(s: Seq<char>, separator: char)
    requires
        !s.contains(separator),
    ensures
        pieces(s, separator) == seq![s],
    decreases s.len(),
{
    if s.len() == 0 {
        assert(s == Seq::<char>::empty());
    } else {
        let rest = s.drop_last();
        assert(!rest.contains(separator));
        lemma_split_clean(rest, separator);
        assert(rest.push(s.last()) == s);
    }
}

/// Appending a separator and a text without one adds that text as a last piece.
pub proof fn lemma_split_append(s: Seq<char>, t: Seq<char>, separator: char)
    requires
        !t.contains(separator),
    ensures
        pieces(s + seq![separator] + t, separator) == pieces(s, separator).push(t),
    decreases t.len(),
{
    let whole = s + seq![separator] + t;
    if t.len() == 0 {
        assert(whole.drop_last() == s);
        assert(t == Seq::<char>::empty());
    } else {
        let rest = t.drop_last();
        assert(!rest.contains(separator));
        lemma_split_append(s, rest, separator);
        assert(whole.drop_last() == s + seq![separator] + rest);
        assert(rest.push(t.last()) == t);
    }
}

/// Pieces without the separator, written with the separator between them,
/// split into just those pieces again. Together with `lemma_join_split` and
/// `lemma_split_pieces_clean` this makes the pieces of a text the one way to
/// write it as separator-free parts with the separator between them.
pub proof fn lemma_split_join(tokens: Seq<Seq<char>>, separator: char)
    requires
        tokens.len() >= 1,
        forall|i: int| 0 <= i < tokens.len() ==> !(#[trigger] tokens[i]).contains(separator),
    ensures
        pieces(joined(tokens, separator), separator) == tokens,
    decreases tokens.len(),
{
    if tokens.len() == 1 {
        lemma_split_clean(tokens[0], separator);
    } else {
        let front = tokens.drop_last();
        lemma_split_join(front, separator);
        lemma_split_append(joined(front, separator), tokens.last(), separator);
    }
}

/// Splits `s` at every occurrence of `separator`.
pub fn split(s: &str, separator: char) -> (tokens: Vec<String>)
    ensures
        tokens.deep_view() == pieces(s@, separator),
{
    let n = s.unicode_len();
    let mut tokens: Vec<String> = Vec::new();
    let mut start: usize = 0;
    let mut i: usize = 0;
    assert(s@.subrange(0, 0) == Seq::<char>::empty());
    while i < n
        invariant
            n == s@.len(),
            start <= i <= n,
            pieces(s@.subrange(0, i as int), separator) == tokens.deep_view().push(
                s@.subrange(start as int, i as int),
            ),
        decreases n - i,
    {
        assert(s@.subrange(0, i + 1).drop_last() == s@.subrange(0, i as int));
        if s.get_char(i) == separator {
            let token = s.substring_char(start, i).to_string();
            tokens.push(token);
            start = i + 1;
            assert(s@.subrange(start as int, start as int) == Seq::<char>::empty());
        } else {
            assert(s@.subrange(start as int, i as int).push(s@[i as int]) == s@.subrange(
                start as int,
                i + 1,
            ));
        }
        i = i + 1;
    }
    assert(s@.subrange(0, n as int) == s@);
    let token = s.substring_char(start, n).to_string();
    tokens.push(token);
    tokens
}

/// Replaces every forward slash of `s` by a backslash.
pub fn to_backslashes(s: &str) -> (out: String)
    ensures
        out@ == backslashed(s@),
{
    let n = s.unicode_len();
    let mut out = String::new();
    let mut i: usize = 0;
    proof {
        reveal_strlit("\\");
    }
    while i < n
        invariant
            n == s@.len(),
            i <= n,
            out@ == backslashed(s@.subrange(0, i as int)),
            "\\"@ == seq!['\\'],
        decreases n - i,
    {
        if s.get_char(i) == '/' {
            out.append("\\");
        } else {
            out.append(s.substring_char(i, i + 1));
        }
        i = i + 1;
    }
    out
}

/// What follows the last backslash of `s`; all of `s` where it has none.
pub fn last_segment(s: &str) -> (out: String)
    ensures
        out@ == last_piece(s@),
{
    let mut tokens = split(s, '\\');
    proof {
        lemma_split_nonempty(s@, '\\');
    }
    match tokens.pop() {
        Some(token) => token,
        None => String::new(),
    }
}

} // verus!
