//! Failures of the translation, each naming the construct at fault.

use vstd::prelude::*;

verus! {

/// The reason a translation stops.
#[derive(Clone, Copy, Debug, PartialEq, Eq)]
pub enum ErrorKind {
    /// The document holds no `schema` root in the XML Schema namespace.
    SchemaNotFound,
    /// A literal or a name is malformed.
    Format,
    /// A name in the schema's own namespace is not a known primitive.
    UnsupportedType,
    /// A construct sets none, or more than one, of its exclusive shapes.
    AmbiguousType,
    /// Output prefix and target namespace were not given together.
    Configuration,
    /// A reference, group reference or restriction base is absent.
    MissingReference,
}

/// A failed translation: why it failed and on which construct.
#[derive(Clone, Debug, PartialEq, Eq)]
pub struct GenError {
    pub kind: ErrorKind,
    pub subject: String,
}

/// Mathematical model of a [`GenError`].
pub struct Failure {
    pub kind: ErrorKind,
    pub subject: Seq<char>,
}

impl View for GenError {
    type V = Failure;

    open spec fn view(&self) -> Failure {
        Failure { kind: self.kind, subject: self.subject@ }
    }
}

/// Model of a fallible text result: the characters produced, or the failure.
pub type Outcome = Result<Seq<char>, Failure>;

/// The model of an executable text result.
pub open spec fn outcome(r: Result<String, GenError>) -> Outcome {
    match r {
        Ok(text) => Ok(text@),
        Err(e) => Err(e@),
    }
}

/// The failure of the given kind on the given subject.
pub open spec fn failure(kind: ErrorKind, subject: Seq<char>) -> Failure {
    Failure { kind, subject }
}

impl GenError {
    /// Builds the failure of `kind` about `subject`.
    pub fn new(kind: ErrorKind, subject: &str) -> (e: GenError)
        ensures
            e@ == failure(kind, subject@),
    {
        GenError { kind, subject: subject.to_owned() }
    }

    /// Builds the failure of `kind` that names no construct.
    pub fn bare(kind: ErrorKind) -> (e: GenError)
        ensures
            e@ == failure(kind, Seq::empty()),
    {
        proof {
            reveal_strlit("");
            assert(""@ =~= Seq::<char>::empty());
        }
        GenError::new(kind, "")
    }

    /// A one-line description, for reports.
    pub fn message(&self) -> (text: String)
        ensures
            text@ == failure_message(self@),
    {
        let mut text = String::new();
        text.append(kind_label(self.kind));
        text.append(": ");
        text.append(self.subject.as_str());
        text
    }
}

/// The fixed wording for each kind of failure.
pub open spec fn kind_label_spec(kind: ErrorKind) -> Seq<char> {
    match kind {
        ErrorKind::SchemaNotFound => "Bad XML Schema, unable to found schema element."@,
        ErrorKind::Format => "malformed value"@,
        ErrorKind::UnsupportedType => "type not implemented"@,
        ErrorKind::AmbiguousType => "ambiguous or missing type"@,
        ErrorKind::Configuration => "prefix and target namespace do not agree"@,
        ErrorKind::MissingReference => "missing reference"@,
    }
}

/// What [`GenError::message`] returns.
pub open spec fn failure_message(f: Failure) -> Seq<char> {
    kind_label_spec(f.kind) + ": "@ + f.subject
}

/// The fixed wording for each kind of failure.
pub fn kind_label(kind: ErrorKind) -> (label: &'static str)
    ensures
        label@ == kind_label_spec(kind),
{
    match kind {
        ErrorKind::SchemaNotFound => "Bad XML Schema, unable to found schema element.",
        ErrorKind::Format => "malformed value",
        ErrorKind::UnsupportedType => "type not implemented",
        ErrorKind::AmbiguousType => "ambiguous or missing type",
        ErrorKind::Configuration => "prefix and target namespace do not agree",
        ErrorKind::MissingReference => "missing reference",
    }
}

} // verus!
