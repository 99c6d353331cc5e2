//! Reading a profile selection: `dev.trace` selects the profile `trace` of
//! the profile `dev`.

use vstd::prelude::*;
use super::tree::segments;

verus! {

/// The separator between the segments of a profile selection.
pub const SEPARATOR: char = '.';

/// The pieces of `text` between its separators, in order. A text without a
/// separator is one piece; the empty text is one empty piece.
pub open spec fn split(text: Seq<char>) -> Seq<Seq<char>>
    decreases text.len(),
{
    if text.len() == 0 {
        seq![Seq::<char>::empty()]
    } else {
        let before = split(text.drop_last());
        if text.last() == SEPARATOR {
            before.push(Seq::<char>::empty())
        } else {
            before.drop_last().push(before.last().push(text.last()))
        }
    }
}

/// `pieces` put together again, with a separator between every two.
pub open spec fn join(pieces: Seq<Seq<char>>) -> Seq<char>
    decreases pieces.len(),
{
    if pieces.len() == 0 {
        Seq::<char>::empty()
    } else if pieces.len() == 1 {
        pieces[0]
    } else {
        join(pieces.drop_last()).push(SEPARATOR) + pieces.last()
    }
}

/// A text always splits into at least one piece.
pub proof fn lemma_split_is_not_empty(text: Seq<char>)
    ensures
        split(text).len() >= 1,
    decreases text.len(),
{
    if text.len() > 0 {
        lemma_split_is_not_empty(text.drop_last());
    }
}

/// Splitting loses nothing: the pieces of a text, joined, are the text.
pub proof fn law_join_undoes_split(text: Seq<char>)
    ensures
        join(split(text)) == text,
    decreases text.len(),
{
    if text.len() > 0 {
        let shorter = text.drop_last();
        let before = split(shorter);
        let pieces = split(text);
        law_join_undoes_split(shorter);
        lemma_split_is_not_empty(shorter);
        if text.last() == SEPARATOR {
            assert(pieces.drop_last() =~= before);
        } else if before.len() > 1 {
            assert(pieces.drop_last() =~= before.drop_last());
            assert(join(pieces) =~= join(before).push(text.last()));
        }
    }
}

/// No piece of a split text holds a separator.
pub proof fn law_pieces_hold_no_separator(text: Seq<char>, piece: int, at: int)
    requires
        0 <= piece < split(text).len(),
        0 <= at < split(text)[piece].len(),
    ensures
        split(text)[piece][at] != SEPARATOR,
    decreases text.len(),
{
    if text.len() > 0 {
        let shorter = text.drop_last();
        let before = split(shorter);
        lemma_split_is_not_empty(shorter);
        if text.last() == SEPARATOR {
            law_pieces_hold_no_separator(shorter, piece, at);
        } else if piece < before.len() - 1 {
            law_pieces_hold_no_separator(shorter, piece, at);
        } else if at < before.last().len() {
            law_pieces_hold_no_separator(shorter, piece, at);
        }
    }
}

/// Pieces without a separator in them are the pieces of their join: there is
/// one way only to split a text on its separators.
pub proof fn law_split_undoes_join(pieces: Seq<Seq<char>>)
    requires
        pieces.len() >= 1,
        forall|piece: int, at: int|
            0 <= piece < pieces.len() && 0 <= at < pieces[piece].len() ==> pieces[piece][at]
                != SEPARATOR,
    ensures
        split(join(pieces)) == pieces,
    decreases pieces.len(), pieces.last().len(),
{
    let last = pieces.last();
    if last.len() > 0 {
        let trimmed = pieces.drop_last().push(last.drop_last());
        assert forall|piece: int, at: int|
            0 <= piece < trimmed.len() && 0 <= at < trimmed[piece].len() implies trimmed[piece][at]
            != SEPARATOR by {
            assert(trimmed[piece][at] == pieces[piece][at]);
        }
        law_split_undoes_join(trimmed);
        if pieces.len() >= 2 {
            assert(trimmed.drop_last() =~= pieces.drop_last());
        }
        assert(join(pieces).drop_last() =~= join(trimmed));
        assert(trimmed.last().push(last.last()) =~= last);
    } else if pieces.len() == 1 {
        assert(last =~= Seq::<char>::empty());
    } else {
        let shorter = pieces.drop_last();
        assert(last =~= Seq::<char>::empty());
        law_split_undoes_join(shorter);
        assert(join(pieces).drop_last() =~= join(shorter));
    }
}

/// The profile path that a selection names: no path where nothing is
/// selected, else the selection's pieces between its dots.
pub open spec fn selected_path(selection: Option<Seq<char>>) -> Seq<Seq<char>> {
    match selection {
        Some(text) => split(text),
        None => Seq::<Seq<char>>::empty(),
    }
}

/// Splits a profile selection on its dots into a profile path. No selection
/// is the empty path, which selects the root.
pub fn profile_path(selection: Option<&str>) -> (path: Vec<String>)
    ensures
        segments(path@) == selected_path(
            match selection {
                Some(text) => Some(text@),
                None => None,
            },
        ),
{
    let mut path: Vec<String> = Vec::new();
    let text = match selection {
        Some(text) => text,
        None => {
            return path;
        },
    };
    let len = text.unicode_len();
    let mut start: usize = 0;
    let mut at: usize = 0;
    assert(text@.take(0) =~= Seq::<char>::empty());
    for c in it: text.chars()
        invariant
            it.seq() == text@,
            len == text@.len(),
            at == it.index(),
            start <= at <= len,
            segments(path@).push(text@.subrange(start as int, at as int)) == split(
                text@.take(at as int),
            ),
    {
        proof {
            let seen = text@.take(at + 1);
            assert(seen.drop_last() =~= text@.take(at as int));
            let before = segments(path@).push(text@.subrange(start as int, at as int));
            assert(before.last().push(c) =~= text@.subrange(start as int, at + 1));
        }
        if c == SEPARATOR {
            let piece = text.substring_char(start, at);
            path.push(piece.to_owned());
            start = at + 1;
            assert(text@.subrange(start as int, at + 1) =~= Seq::<char>::empty());
        }
        at += 1;
    }
    let piece = text.substring_char(start, at);
    path.push(piece.to_owned());
    assert(text@.take(at as int) =~= text@);
    path
}

} // verus!
