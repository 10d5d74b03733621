//! Documentation attached to a schema item.

use vstd::prelude::*;
use crate::attribute::Attribute;
use crate::naming::{quote_text, string_literal};
use crate::xsd_context::XsdContext;

verus! {

#[derive(Clone, Default, Debug, PartialEq)]
pub struct Annotation {
    pub id: Option<String>,
    pub attributes: Vec<Attribute>,
    pub documentation: Vec<String>,
}

/// One documentation text as a `doc` attribute.
pub open spec fn doc_line_text(documentation: Seq<char>) -> Seq<char> {
    "#[doc = "@ + string_literal(documentation) + "] "@
}

/// The documentation texts as `doc` attributes, in order.
pub open spec fn docs_text(documentation: Seq<String>) -> Seq<char>
    decreases documentation.len(),
{
    if documentation.len() == 0 {
        Seq::empty()
    } else {
        docs_text(documentation.drop_last()) + doc_line_text(documentation.last()@)
    }
}

/// The documentation of an item that may carry an annotation.
pub open spec fn annotation_text(annotation: Option<Annotation>) -> Seq<char> {
    match annotation {
        Some(a) => docs_text(a.documentation@),
        None => Seq::empty(),
    }
}

impl Annotation {
    /// Generates the `doc` attributes for this annotation. They add
    /// documentation to a declaration and nothing to its structure.
    pub fn implement(
        &self,
        _namespace_definition: &str,
        _prefix: &Option<String>,
        _context: &XsdContext,
    ) -> (out: String)
        ensures
            out@ == docs_text(self.documentation@),
    {
        let mut out = String::new();
        let mut i: usize = 0;
        proof {
            assert(self.documentation@.take(0) =~= Seq::empty());
        }
        while i < self.documentation.len()
            invariant
                i <= self.documentation.len(),
                out@ == docs_text(self.documentation@.take(i as int)),
            decreases self.documentation.len() - i,
        {
            proof {
                assert(self.documentation@.take(i + 1).drop_last() == self.documentation@.take(
                    i as int,
                ));
                assert(self.documentation@.take(i + 1).last() == self.documentation@[i as int]);
            }
            let mut line = "#[doc = ".to_owned();
            let literal = quote_text(self.documentation[i].as_str());
            line.append(literal.as_str());
            line.append("] ");
            out.append(line.as_str());
            i = i + 1;
        }
        proof {
            assert(self.documentation@.take(i as int) == self.documentation@);
        }
        out
    }
}

/// Generates the documentation of an item that may carry an annotation.
pub fn implement_annotation(
    annotation: &Option<Annotation>,
    namespace_definition: &str,
    prefix: &Option<String>,
    context: &XsdContext,
) -> (out: String)
    ensures
        out@ == annotation_text(*annotation),
{
    match annotation {
        Some(a) => a.implement(namespace_definition, prefix, context),
        None => String::new(),
    }
}

} // verus!
