//! An import of another schema's namespace.

use vstd::prelude::*;

verus! {

#[derive(Clone, Default, Debug, PartialEq)]
pub struct Import {
    pub id: Option<String>,
    pub namespace: Option<String>,
    pub schema_location: Option<String>,
}

} // verus!
