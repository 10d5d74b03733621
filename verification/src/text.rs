//! Character-level operations on text, with their mathematical meaning.

use vstd::prelude::*;

verus! {

/// Whether two texts hold the same characters.
pub fn same_text(a: &str, b: &str) -> (same: bool)
    ensures
        same == (a@ == b@),
{
    let left = a.to_owned();
    let right = b.to_owned();
    left == right
}

/// Index of the first `c` in `s` at or after `from`; `s.len()` if there is none.
pub open spec fn position_from(s: Seq<char>, c: char, from: int) -> int
    decreases s.len() - from,
{
    if from < 0 || from >= s.len() {
        s.len() as int
    } else if s[from] == c {
        from
    } else {
        position_from(s, c, from + 1)
    }
}

/// Index of the first `c` in `s`; `s.len()` if there is none.
pub open spec fn position(s: Seq<char>, c: char) -> int {
    position_from(s, c, 0)
}

/// `position_from` finds the first occurrence and nothing before it.
pub(crate) proof fn lemma_position_from(s: Seq<char>, c: char, from: int)
    requires
        0 <= from <= s.len(),
    ensures
        from <= position_from(s, c, from) <= s.len(),
        position_from(s, c, from) < s.len() ==> s[position_from(s, c, from)] == c,
        forall|j: int| from <= j < position_from(s, c, from) ==> s[j] != c,
    decreases s.len() - from,
{
    if from < s.len() && s[from] != c {
        lemma_position_from(s, c, from + 1);
    }
}

/// A scan that met no `c` from `from` up to `at` fixes the result.
pub(crate) proof fn lemma_position_found(s: Seq<char>, c: char, from: int, at: int)
    requires
        0 <= from <= at <= s.len(),
        forall|j: int| from <= j < at ==> s[j] != c,
        at < s.len() ==> s[at] == c,
    ensures
        position_from(s, c, from) == at,
    decreases at - from,
{
    if from < at {
        lemma_position_found(s, c, from + 1, at);
    }
}

/// Finds the first `c` in `s` at or after `from`.
pub(crate) fn find_char(s: &str, c: char, from: usize) -> (at: usize)
    requires
        from <= s@.len(),
    ensures
        at == position_from(s@, c, from as int),
        from <= at <= s@.len(),
{
    let n = s.unicode_len();
    let mut i = from;
    while i < n
        invariant
            from <= i <= n,
            n == s@.len(),
            forall|j: int| from <= j < i ==> s@[j] != c,
        decreases n - i,
    {
        if s.get_char(i) == c {
            proof {
                lemma_position_found(s@, c, from as int, i as int);
            }
            return i;
        }
        i = i + 1;
    }
    proof {
        lemma_position_found(s@, c, from as int, i as int);
    }
    i
}

/// `s` with every `from` replaced by the text `to`.
pub open spec fn replaced(s: Seq<char>, from: char, to: Seq<char>) -> Seq<char>
    decreases s.len(),
{
    if s.len() == 0 {
        Seq::<char>::empty()
    } else if s.last() == from {
        replaced(s.drop_last(), from, to) + to
    } else {
        replaced(s.drop_last(), from, to).push(s.last())
    }
}

/// Replaces every `from` in `s` by the text `to`.
pub fn replace_char(s: &str, from: char, to: &str) -> (out: String)
    ensures
        out@ == replaced(s@, from, to@),
{
    let n = s.unicode_len();
    let mut out = String::new();
    let mut i: usize = 0;
    while i < n
        invariant
            i <= n,
            n == s@.len(),
            out@ == replaced(s@.subrange(0, i as int), from, to@),
        decreases n - i,
    {
        proof {
            assert(s@.subrange(0, i + 1).drop_last() == s@.subrange(0, i as int));
            assert(s@.subrange(0, i + 1).last() == s@[i as int]);
        }
        if s.get_char(i) == from {
            out.append(to);
        } else {
            let piece = s.substring_char(i, i + 1);
            proof {
                assert(piece@ == seq![s@[i as int]]);
                assert(out@ + piece@ == out@.push(s@[i as int]));
            }
            out.append(piece);
        }
        i = i + 1;
    }
    proof {
        assert(s@.subrange(0, n as int) == s@);
    }
    out
}

/// The part of `s` before index `at`.
pub(crate) fn head(s: &str, at: usize) -> (out: &str)
    requires
        at <= s@.len(),
    ensures
        out@ == s@.subrange(0, at as int),
{
    s.substring_char(0, at)
}

/// The part of `s` from index `at` on.
pub(crate) fn tail(s: &str, at: usize) -> (out: &str)
    requires
        at <= s@.len(),
    ensures
        out@ == s@.subrange(at as int, s@.len() as int),
{
    let n = s.unicode_len();
    s.substring_char(at, n)
}

/// The characters of an optional text.
pub open spec fn text_option(o: Option<String>) -> Option<Seq<char>> {
    match o {
        Some(text) => Some(text@),
        None => None,
    }
}

/// The pairs of a table of texts, each text as its characters.
pub open spec fn table_model(table: Seq<(String, String)>) -> Seq<(Seq<char>, Seq<char>)> {
    Seq::new(table.len(), |i: int| (table[i].0@, table[i].1@))
}

/// The value of the last pair among the first `end` of `table` whose key is `key`.
pub open spec fn lookup_before(table: Seq<(Seq<char>, Seq<char>)>, key: Seq<char>, end: int)
    -> Option<Seq<char>>
    decreases end,
{
    if end <= 0 || end > table.len() {
        None
    } else if table[end - 1].0 == key {
        Some(table[end - 1].1)
    } else {
        lookup_before(table, key, end - 1)
    }
}

/// The value that `table` holds for `key`. A table is read as a map filled
/// pair by pair: a later pair replaces an earlier one with the same key, so
/// each key has one value, that of its last pair.
pub open spec fn lookup(table: Seq<(Seq<char>, Seq<char>)>, key: Seq<char>) -> Option<
    Seq<char>,
> {
    lookup_before(table, key, table.len() as int)
}

/// Looks `key` up in a table of pairs; the last pair with that key decides.
pub fn find_value(table: &Vec<(String, String)>, key: &str) -> (value: Option<String>)
    ensures
        text_option(value) == lookup(table_model(table@), key@),
{
    let ghost model = table_model(table@);
    let mut i: usize = table.len();
    while i > 0
        invariant
            i <= table.len(),
            model == table_model(table@),
            lookup_before(model, key@, i as int) == lookup(model, key@),
        decreases i,
    {
        if same_text(table[i - 1].0.as_str(), key) {
            return Some(table[i - 1].1.clone());
        }
        i = i - 1;
    }
    None
}

/// Copies a table of pairs.
pub fn copy_table(table: &Vec<(String, String)>) -> (copy: Vec<(String, String)>)
    ensures
        table_model(copy@) == table_model(table@),
{
    let mut copy: Vec<(String, String)> = Vec::new();
    let mut i: usize = 0;
    while i < table.len()
        invariant
            i <= table.len(),
            copy@.len() == i,
            forall|j: int| 0 <= j < i ==> copy@[j].0@ == table@[j].0@ && copy@[j].1@ == table@[j].1@,
        decreases table.len() - i,
    {
        copy.push((table[i].0.clone(), table[i].1.clone()));
        i = i + 1;
    }
    proof {
        assert(table_model(copy@) =~= table_model(table@));
    }
    copy
}

} // verus!
