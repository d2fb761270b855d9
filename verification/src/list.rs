//! Comma-separated list values: how a variable's text becomes the items of a
//! `Vec<T>` field.

use vstd::prelude::*;

use crate::text::{chars_of, string_from_chars};
use crate::whitespace::{blank, is_blank, trim_whitespace, trimmed};

verus! {

/// The pieces of `s` between commas, in order, as `str::split(',')` gives
/// them: `"a,,b"` has the pieces `a`, the empty piece, and `b`; the empty
/// string has one empty piece.
pub open spec fn comma_split(s: Seq<char>) -> Seq<Seq<char>>
    decreases s.len(),
{
    if s.len() == 0 {
        seq![Seq::empty()]
    } else {
        let prev = comma_split(s.drop_last());
        if s.last() == ',' {
            prev.push(Seq::empty())
        } else {
            prev.update(prev.len() - 1, prev.last().push(s.last()))
        }
    }
}

/// Every item trimmed.
pub open spec fn trim_items(items: Seq<Seq<char>>) -> Seq<Seq<char>> {
    items.map_values(|x: Seq<char>| trimmed(x))
}

/// The items that are not empty or whitespace only, in order.
pub open spec fn drop_blank(items: Seq<Seq<char>>) -> Seq<Seq<char>>
    decreases items.len(),
{
    if items.len() == 0 {
        Seq::empty()
    } else {
        let prev = drop_blank(items.drop_last());
        if is_blank(items.last()) {
            prev
        } else {
            prev.push(items.last())
        }
    }
}

/// Whether some item is empty or whitespace only.
pub open spec fn has_blank(items: Seq<Seq<char>>) -> bool {
    exists|i: int| 0 <= i < items.len() && is_blank(#[trigger] items[i])
}

/// The items of a list value: its comma-separated pieces, each trimmed when
/// `trim` is set, and without the blank ones when `filter_empty` is set.
pub open spec fn list_items(raw: Seq<char>, trim: bool, filter_empty: bool) -> Seq<Seq<char>> {
    let pieces = comma_split(raw);
    let trimmed_pieces = if trim {
        trim_items(pieces)
    } else {
        pieces
    };
    if filter_empty {
        drop_blank(trimmed_pieces)
    } else {
        trimmed_pieces
    }
}

proof fn lemma_comma_split_nonempty(s: Seq<char>)
    ensures
        comma_split(s).len() >= 1,
    decreases s.len(),
{
    if s.len() > 0 {
        lemma_comma_split_nonempty(s.drop_last());
    }
}

/// Splits a value at its commas.
pub fn split_commas(s: &str) -> (out: Vec<String>)
    ensures
        out.deep_view() == comma_split(s@),
{
    let chars = chars_of(s);
    let mut items: Vec<String> = Vec::new();
    let mut current: Vec<char> = Vec::new();
    let mut i: usize = 0;
    while i < chars.len()
        invariant
            chars@ == s@,
            i <= chars@.len(),
            items.deep_view().push(current@) == comma_split(chars@.take(i as int)),
        decreases chars.len() - i,
    {
        let c = chars[i];
        let ghost before = items.deep_view().push(current@);
        proof {
            let t = chars@.take(i + 1);
            assert(t.drop_last() == chars@.take(i as int));
            assert(t.last() == c);
            lemma_comma_split_nonempty(chars@.take(i as int));
        }
        if c == ',' {
            let piece = string_from_chars(&current);
            let ghost old_items = items.deep_view();
            items.push(piece);
            current = Vec::new();
            proof {
                assert(items.deep_view() =~= old_items.push(piece@));
                assert(items.deep_view().push(current@) =~= before.push(Seq::empty()));
            }
        } else {
            current.push(c);
            proof {
                assert(items.deep_view().push(current@) =~= before.update(
                    before.len() - 1,
                    before.last().push(c),
                ));
            }
        }
        i = i + 1;
    }
    let piece = string_from_chars(&current);
    let ghost old_items = items.deep_view();
    items.push(piece);
    proof {
        assert(items.deep_view() =~= old_items.push(piece@));
        assert(chars@.take(chars@.len() as int) == chars@);
    }
    items
}

/// Every item trimmed.
pub fn trim_all(items: &Vec<String>) -> (out: Vec<String>)
    ensures
        out.deep_view() == trim_items(items.deep_view()),
{
    let mut out: Vec<String> = Vec::new();
    let mut i: usize = 0;
    while i < items.len()
        invariant
            i <= items@.len(),
            out.deep_view() == trim_items(items.deep_view()).take(i as int),
        decreases items.len() - i,
    {
        let t = trim_whitespace(items[i].as_str());
        let ghost old_out = out.deep_view();
        out.push(t);
        proof {
            assert(items.deep_view()[i as int] == items@[i as int]@);
            assert(out.deep_view() =~= old_out.push(t@));
            assert(trim_items(items.deep_view()).take(i + 1) =~= trim_items(items.deep_view()).take(i as int).push(
                t@,
            ));
        }
        i = i + 1;
    }
    assert(trim_items(items.deep_view()).take(items.len() as int) == trim_items(items.deep_view()));
    out
}

/// The items that are not empty or whitespace only, in order.
pub fn drop_blank_items(items: &Vec<String>) -> (out: Vec<String>)
    ensures
        out.deep_view() == drop_blank(items.deep_view()),
{
    let mut out: Vec<String> = Vec::new();
    let mut i: usize = 0;
    while i < items.len()
        invariant
            i <= items@.len(),
            out.deep_view() == drop_blank(items.deep_view().take(i as int)),
        decreases items.len() - i,
    {
        let ghost t = items.deep_view().take(i + 1);
        proof {
            assert(t.drop_last() == items.deep_view().take(i as int));
            assert(t.last() == items@[i as int]@);
        }
        if !blank(items[i].as_str()) {
            let copy = crate::text::owned(items[i].as_str());
            let ghost old_out = out.deep_view();
            out.push(copy);
            proof {
                assert(out.deep_view() =~= old_out.push(copy@));
            }
        }
        i = i + 1;
    }
    assert(items.deep_view().take(items.len() as int) == items.deep_view());
    out
}

/// Whether some item is empty or whitespace only.
pub fn any_blank(items: &Vec<String>) -> (b: bool)
    ensures
        b == has_blank(items.deep_view()),
{
    let mut i: usize = 0;
    while i < items.len()
        invariant
            i <= items@.len(),
            forall|j: int| 0 <= j < i ==> !is_blank(#[trigger] items.deep_view()[j]),
        decreases items.len() - i,
    {
        if blank(items[i].as_str()) {
            assert(is_blank(items.deep_view()[i as int]));
            return true;
        }
        i = i + 1;
    }
    false
}

/// The items of a list value (see [`list_items`]).
pub fn split_list(raw: &str, trim: bool, filter_empty: bool) -> (out: Vec<String>)
    ensures
        out.deep_view() == list_items(raw@, trim, filter_empty),
{
    let pieces = split_commas(raw);
    let trimmed_pieces = if trim {
        trim_all(&pieces)
    } else {
        pieces
    };
    if filter_empty {
        drop_blank_items(&trimmed_pieces)
    } else {
        trimmed_pieces
    }
}

} // verus!
