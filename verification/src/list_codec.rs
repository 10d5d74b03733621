//! The text form of a list value: its items, separated by single spaces.
//! Splitting and joining undo each other, which is what lets a list value
//! pass through a document unchanged.

use vstd::prelude::*;
use crate::text::{find_char, lemma_position_found, lemma_position_from, position, position_from};

verus! {

/// The pieces of `text` between its spaces. A text without spaces is one
/// piece, the empty text included; two spaces in a row enclose an empty piece.
pub open spec fn split_spaces(text: Seq<char>) -> Seq<Seq<char>>
    decreases text.len(),
{
    let at = position(text, ' ');
    if 0 <= at < text.len() {
        seq![text.subrange(0, at)] + split_spaces(text.subrange(at + 1, text.len() as int))
    } else {
        seq![text]
    }
}

/// The items, with one space between each two.
pub open spec fn join_spaces(items: Seq<Seq<char>>) -> Seq<char>
    decreases items.len(),
{
    if items.len() == 0 {
        Seq::empty()
    } else if items.len() == 1 {
        items[0]
    } else {
        items[0] + seq![' '] + join_spaces(items.drop_first())
    }
}

/// Whether a text holds no space.
pub open spec fn has_no_space(text: Seq<char>) -> bool {
    forall|i: int| 0 <= i < text.len() ==> text[i] != ' '
}

/// The characters of each text of a run.
pub open spec fn texts(items: Seq<String>) -> Seq<Seq<char>> {
    Seq::new(items.len(), |i: int| items[i]@)
}

/// The first space of a text seen from `from` on is the first space of the
/// rest of the text.
proof fn lemma_position_of_rest(text: Seq<char>, from: int)
    requires
        0 <= from <= text.len(),
    ensures
        position(text.subrange(from, text.len() as int), ' ') == position_from(text, ' ', from)
            - from,
{
    let rest = text.subrange(from, text.len() as int);
    let at = position_from(text, ' ', from);
    lemma_position_from(text, ' ', from);
    assert forall|j: int| 0 <= j < at - from implies rest[j] != ' ' by {
        assert(rest[j] == text[j + from]);
    }
    lemma_position_found(rest, ' ', 0, at - from);
}

/// Joining one more item at the end.
proof fn lemma_join_push(items: Seq<Seq<char>>, item: Seq<char>)
    ensures
        join_spaces(items.push(item)) == if items.len() == 0 {
            item
        } else {
            join_spaces(items) + seq![' '] + item
        },
    decreases items.len(),
{
    let all = items.push(item);
    if items.len() == 0 {
        assert(all[0] == item);
    } else if items.len() == 1 {
        assert(all.drop_first() =~= seq![item]);
        assert(join_spaces(all.drop_first()) == item);
        assert(all[0] == items[0]);
    } else {
        lemma_join_push(items.drop_first(), item);
        assert(all.drop_first() =~= items.drop_first().push(item));
        assert(all[0] == items[0]);
        assert(join_spaces(all) =~= join_spaces(items) + seq![' '] + item);
    }
}

/// Splitting a text and joining the pieces gives the text back.
pub proof fn lemma_join_of_split(text: Seq<char>)
    ensures
        join_spaces(split_spaces(text)) == text,
        split_spaces(text).len() >= 1,
    decreases text.len(),
{
    let at = position(text, ' ');
    lemma_position_from(text, ' ', 0);
    if at < text.len() {
        let head = text.subrange(0, at);
        let rest = text.subrange(at + 1, text.len() as int);
        lemma_join_of_split(rest);
        let pieces = seq![head] + split_spaces(rest);
        assert(pieces.drop_first() =~= split_spaces(rest));
        assert(pieces[0] == head);
        assert(head + seq![' '] + rest =~= text);
    }
}

/// Joining items that hold no space and splitting the text gives the items
/// back. A list without items has no text form of its own: the empty text
/// stands for one empty item.
pub proof fn lemma_split_of_join(items: Seq<Seq<char>>)
    requires
        items.len() >= 1,
        forall|i: int| 0 <= i < items.len() ==> has_no_space(#[trigger] items[i]),
    ensures
        split_spaces(join_spaces(items)) == items,
    decreases items.len(),
{
    let text = join_spaces(items);
    if items.len() == 1 {
        assert(has_no_space(items[0]));
        lemma_position_found(text, ' ', 0, text.len() as int);
        assert(seq![text] =~= items);
    } else {
        let first = items[0];
        let rest = items.drop_first();
        assert(has_no_space(first));
        assert forall|i: int| 0 <= i < rest.len() implies has_no_space(#[trigger] rest[i]) by {
            assert(rest[i] == items[i + 1]);
        }
        lemma_split_of_join(rest);
        assert(text == first + seq![' '] + join_spaces(rest));
        assert forall|j: int| 0 <= j < first.len() implies text[j] != ' ' by {
            assert(text[j] == first[j]);
        }
        assert(text[first.len() as int] == ' ');
        lemma_position_found(text, ' ', 0, first.len() as int);
        assert(text.subrange(0, first.len() as int) =~= first);
        assert(text.subrange(first.len() as int + 1, text.len() as int) =~= join_spaces(rest));
        assert(seq![first] + rest =~= items);
    }
}

/// Decodes the text form of a list: the pieces between its single spaces.
pub fn decode_list(text: &str) -> (items: Vec<String>)
    ensures
        texts(items@) == split_spaces(text@),
{
    let n = text.unicode_len();
    let mut items: Vec<String> = Vec::new();
    let mut start: usize = 0;
    proof {
        assert(text@.subrange(0, n as int) =~= text@);
        assert(texts(items@) =~= Seq::empty());
        assert(Seq::<Seq<char>>::empty() + split_spaces(text@) =~= split_spaces(text@));
    }
    loop
        invariant_except_break
            start <= n,
            n == text@.len(),
            texts(items@) + split_spaces(text@.subrange(start as int, n as int)) == split_spaces(
                text@,
            ),
        ensures
            texts(items@) == split_spaces(text@),
        decreases n - start,
    {
        let at = find_char(text, ' ', start);
        let ghost rest = text@.subrange(start as int, n as int);
        let ghost before = texts(items@);
        proof {
            lemma_position_of_rest(text@, start as int);
            assert(rest.subrange(0, at - start) =~= text@.subrange(start as int, at as int));
        }
        let piece = text.substring_char(start, at);
        items.push(piece.to_owned());
        proof {
            assert(texts(items@) =~= before + seq![piece@]);
        }
        if at == n {
            proof {
                assert(rest.subrange(0, at - start) =~= rest);
                assert(split_spaces(rest) =~= seq![rest]);
            }
            break ;
        }
        proof {
            assert(rest.subrange(at - start + 1, rest.len() as int) =~= text@.subrange(
                at + 1,
                n as int,
            ));
            assert(before + (seq![piece@] + split_spaces(text@.subrange(at + 1, n as int)))
                =~= (before + seq![piece@]) + split_spaces(text@.subrange(at + 1, n as int)));
        }
        start = at + 1;
    }
    items
}

/// Encodes a list: the texts of its items with single spaces between them.
pub fn encode_list(items: &Vec<String>) -> (text: String)
    ensures
        text@ == join_spaces(texts(items@)),
{
    let mut text = String::new();
    let mut i: usize = 0;
    proof {
        assert(texts(items@).take(0) =~= Seq::empty());
    }
    while i < items.len()
        invariant
            i <= items.len(),
            text@ == join_spaces(texts(items@).take(i as int)),
        decreases items.len() - i,
    {
        proof {
            lemma_join_push(texts(items@).take(i as int), items@[i as int]@);
            assert(texts(items@).take(i + 1) =~= texts(items@).take(i as int).push(
                items@[i as int]@,
            ));
            reveal_strlit(" ");
            assert(" "@ =~= seq![' ']);
            assert(Seq::<char>::empty() + items@[i as int]@ =~= items@[i as int]@);
        }
        if i > 0 {
            text.append(" ");
        }
        text.append(items[i].as_str());
        i = i + 1;
    }
    proof {
        assert(texts(items@).take(i as int) == texts(items@));
    }
    text
}

} // verus!
