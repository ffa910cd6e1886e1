//! What the analysis reports when no builder can be generated for a type.

use vstd::prelude::*;
use vstd::string::StringExecFns;

verus! {

/// A generation-time failure. Each names the type or the field at fault.
#[derive(Clone, Debug, PartialEq, Eq)]
pub enum Diagnostic {
    /// The type is not a struct with named fields.
    UnsupportedShape { subject: String },
    /// A `builder` annotation whose payload is not `each = "<identifier>"`.
    MalformedDirective { field: String, payload: String },
    /// A directive on a field whose type is not a container of one type
    /// argument.
    NotAContainer { field: String },
}

pub enum DiagnosticModel {
    UnsupportedShape { subject: Seq<char> },
    MalformedDirective { field: Seq<char>, payload: Seq<char> },
    NotAContainer { field: Seq<char> },
}

impl View for Diagnostic {
    type V = DiagnosticModel;

    open spec fn view(&self) -> DiagnosticModel {
        match self {
            Diagnostic::UnsupportedShape { subject } => DiagnosticModel::UnsupportedShape {
                subject: subject@,
            },
            Diagnostic::MalformedDirective { field, payload } => {
                DiagnosticModel::MalformedDirective { field: field@, payload: payload@ }
            },
            Diagnostic::NotAContainer { field } => DiagnosticModel::NotAContainer {
                field: field@,
            },
        }
    }
}

/// Whether an outcome is the expected one, seen through the views: the same
/// value, or the same diagnostic.
pub open spec fn agrees<T: View>(
    outcome: Result<T, Diagnostic>,
    expected: Result<T::V, DiagnosticModel>,
) -> bool {
    match expected {
        Ok(value) => outcome matches Ok(found) && found@ == value,
        Err(diagnostic) => outcome matches Err(found) && found@ == diagnostic,
    }
}

impl DiagnosticModel {
    /// The text shown to whoever asked for the builder.
    pub open spec fn message(self) -> Seq<char> {
        match self {
            DiagnosticModel::UnsupportedShape { subject } => "only supports struct: "@
                + subject,
            DiagnosticModel::MalformedDirective { field, payload } => "malformed directive on field "@
                + field + ": expected each = \"<identifier>\", found "@ + payload,
            DiagnosticModel::NotAContainer { field } => "directive on field "@ + field
                + ": its type is not a container of one type argument"@,
        }
    }
}

impl Diagnostic {
    /// The text shown to whoever asked for the builder.
    pub fn message(&self) -> (text: String)
        ensures
            text@ == self@.message(),
    {
        match self {
            Diagnostic::UnsupportedShape { subject } => {
                let mut text = String::from_str("only supports struct: ");
                text.append(subject.as_str());
                text
            },
            Diagnostic::MalformedDirective { field, payload } => {
                let mut text = String::from_str("malformed directive on field ");
                text.append(field.as_str());
                text.append(": expected each = \"<identifier>\", found ");
                text.append(payload.as_str());
                text
            },
            Diagnostic::NotAContainer { field } => {
                let mut text = String::from_str("directive on field ");
                text.append(field.as_str());
                text.append(": its type is not a container of one type argument");
                text
            },
        }
    }
}

} // verus!
