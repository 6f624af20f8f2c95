//! Why an expansion is refused, and where the refusal points.

use vstd::prelude::*;
use vstd::string::StringExecFns;

verus! {

/// The reasons for which an expansion is refused.
#[derive(Debug, Clone, Copy, PartialEq, Eq, Structural)]
pub enum ErrorKind {
    /// The annotation was given an argument.
    AttributeArgumentsNotAllowed,
    /// The function has no parameter.
    MissingSubjectParameter,
    /// The first parameter is not written with `self`.
    InvalidSubjectParameter,
    /// The `self` parameter has no declared type.
    UntypedSubject,
}

/// The piece of the input that a diagnostic points at.
#[derive(Debug, Clone, Copy, PartialEq, Eq, Structural)]
pub enum Anchor {
    /// The arguments of the annotation.
    AttributeArguments,
    /// The whole parameter list.
    ParameterList,
    /// The parameter at this place in the list.
    Parameter { index: usize },
}

/// One refusal: the reason and the place.
#[derive(Debug, Clone, Copy, PartialEq, Eq, Structural)]
pub struct Diagnostic {
    pub kind: ErrorKind,
    pub anchor: Anchor,
}

/// The sentence shown for each reason.
pub open spec fn message_of(kind: ErrorKind) -> Seq<char> {
    match kind {
        ErrorKind::AttributeArgumentsNotAllowed => "attribute arguments are not allowed"@,
        ErrorKind::MissingSubjectParameter => "function must have a parameter named `self`"@,
        ErrorKind::InvalidSubjectParameter => "parameter must be called `self`"@,
        ErrorKind::UntypedSubject => "the `self` parameter must have a type"@,
    }
}

impl Diagnostic {
    /// The sentence shown for this refusal.
    pub fn message(&self) -> (out: String)
        ensures
            out@ == message_of(self.kind),
    {
        match self.kind {
            ErrorKind::AttributeArgumentsNotAllowed => String::from_str(
                "attribute arguments are not allowed",
            ),
            ErrorKind::MissingSubjectParameter => String::from_str(
                "function must have a parameter named `self`",
            ),
            ErrorKind::InvalidSubjectParameter => String::from_str(
                "parameter must be called `self`",
            ),
            ErrorKind::UntypedSubject => String::from_str("the `self` parameter must have a type"),
        }
    }
}

} // verus!
