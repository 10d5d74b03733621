//! Whether local names must carry a namespace prefix.

use vstd::prelude::*;

verus! {

#[derive(Clone, Copy, Debug, PartialEq, Eq)]
pub enum Qualification {
    Qualified,
    Unqualified,
}

impl Default for Qualification {
    /// A schema that does not say leaves local names unqualified.
    fn default() -> (r: Self)
        ensures
            r == Qualification::Unqualified,
    {
        Qualification::Unqualified
    }
}

/// What the literal `qualified` or `unqualified` denotes; no other text is a qualification.
pub open spec fn qualification_of(s: Seq<char>) -> Option<Qualification> {
    if s == "qualified"@ {
        Some(Qualification::Qualified)
    } else if s == "unqualified"@ {
        Some(Qualification::Unqualified)
    } else {
        None
    }
}

impl Qualification {
    /// Reads the literal form, which is matched exactly.
    pub fn parse(s: &str) -> (r: Option<Qualification>)
        ensures
            r == qualification_of(s@),
    {
        if crate::text::same_text(s, "qualified") {
            Some(Qualification::Qualified)
        } else if crate::text::same_text(s, "unqualified") {
            Some(Qualification::Unqualified)
        } else {
            None
        }
    }
}

} // verus!
