//! A union of simple types.

use vstd::prelude::*;

verus! {

#[derive(Clone, Default, Debug, PartialEq)]
pub struct Union {
    pub member_types: String,
}

} // verus!
