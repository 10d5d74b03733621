//! The caller's table from namespace name to Rust module, as written in one
//! line of configuration: `namespace: module`, or a module alone for the
//! schema's own namespace.

use vstd::prelude::*;
use crate::text::{head, table_model, tail};

verus! {

/// Whether `": "` stands in `text` at index `at`.
pub open spec fn is_separator_at(text: Seq<char>, at: int) -> bool {
    0 <= at && at + 1 < text.len() && text[at] == ':' && text[at + 1] == ' '
}

/// Index of the first `": "` in `text` at or after `from`; `text.len()` if
/// there is none.
pub open spec fn separator_from(text: Seq<char>, from: int) -> int
    decreases text.len() - from,
{
    if from < 0 || from + 1 >= text.len() {
        text.len() as int
    } else if is_separator_at(text, from) {
        from
    } else {
        separator_from(text, from + 1)
    }
}

/// A scan that met no separator from `from` up to `at` may go on from `at`.
proof fn lemma_separator_skip(text: Seq<char>, from: int, at: int)
    requires
        0 <= from <= at,
        forall|j: int| from <= j < at ==> !is_separator_at(text, j),
    ensures
        separator_from(text, from) == separator_from(text, at),
    decreases at - from,
{
    if from < at {
        if from + 1 < text.len() {
            lemma_separator_skip(text, from + 1, at);
        } else {
            assert(separator_from(text, at) == text.len()) by {
                assert(at + 1 >= text.len());
            }
        }
    }
}

/// What one line of configuration says: nothing where it is empty; the
/// module for the schema's own namespace, which the empty name stands for,
/// where it holds no `": "`; the namespace and its module where it holds
/// one; and nothing where it holds more.
pub open spec fn mappings_of(text: Seq<char>) -> Seq<(Seq<char>, Seq<char>)> {
    let at = separator_from(text, 0);
    if text.len() == 0 {
        Seq::empty()
    } else if at == text.len() {
        seq![(Seq::empty(), text)]
    } else if separator_from(text, at + 2) < text.len() {
        Seq::empty()
    } else {
        seq![(text.subrange(0, at), text.subrange(at + 2, text.len() as int))]
    }
}

/// Finds the first `": "` in `text` at or after `from`.
pub(crate) fn find_separator(text: &str, from: usize) -> (at: usize)
    requires
        from <= text@.len(),
    ensures
        at == separator_from(text@, from as int),
        from <= at <= text@.len(),
        at < text@.len() ==> at + 2 <= text@.len(),
{
    let n = text.unicode_len();
    let mut i = from;
    while n - i > 1
        invariant
            from <= i <= n,
            n == text@.len(),
            forall|j: int| from <= j < i ==> !is_separator_at(text@, j),
        decreases n - i,
    {
        if text.get_char(i) == ':' && text.get_char(i + 1) == ' ' {
            proof {
                lemma_separator_skip(text@, from as int, i as int);
            }
            return i;
        }
        i = i + 1;
    }
    proof {
        lemma_separator_skip(text@, from as int, i as int);
    }
    n
}

/// Reads the table from namespace name to module off one line of configuration.
pub fn parse_module_namespace_mappings(text: &str) -> (table: Vec<(String, String)>)
    ensures
        table_model(table@) == mappings_of(text@),
{
    let n = text.unicode_len();
    let mut table: Vec<(String, String)> = Vec::new();
    if n == 0 {
        proof {
            assert(table_model(table@) =~= Seq::empty());
        }
        return table;
    }
    let at = find_separator(text, 0);
    if at == n {
        let namespace = String::new();
        table.push((namespace, text.to_owned()));
        proof {
            assert(table_model(table@) =~= seq![(Seq::<char>::empty(), text@)]);
        }
        return table;
    }
    let next = find_separator(text, at + 2);
    if next < n {
        proof {
            assert(table_model(table@) =~= Seq::empty());
        }
        return table;
    }
    let namespace = head(text, at).to_owned();
    let module = tail(text, at + 2).to_owned();
    table.push((namespace, module));
    proof {
        assert(table_model(table@) =~= seq![
            (text@.subrange(0, at as int), text@.subrange(at + 2, n as int)),
        ]);
    }
    table
}

} // verus!
