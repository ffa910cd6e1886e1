//! The attribute parser: finds, among a field's annotations, the one
//! directive `each = "<identifier>"` that renames the field's setter.
//!
//! The first annotation in the `builder` namespace decides. If its payload has
//! the shape of the directive and its literal reads as one identifier, the
//! field is repeated under that alias; if not, the field is rejected.
//! Annotations after it are not looked at.
//!
//! Reading the literal is left to `syn`. What `syn` reads in a literal is
//! called the reading: the identifier, or nothing. Every decision is a
//! function that takes the reading as an argument.

use vstd::prelude::*;
use crate::diagnostic::{agrees, Diagnostic, DiagnosticModel};
use crate::schema::{
    Annotation, AnnotationModel, FieldDefinition, FieldDefinitionModel, Operand, OperandModel,
    Payload, PayloadModel,
};
use crate::text::{first_where, first_where_absent, first_where_found, optional_text, same_text};

verus! {

/// Whether the annotation is in the namespace this library reads.
pub open spec fn recognized(annotation: AnnotationModel) -> bool {
    annotation.namespace == "builder"@
}

/// The string literal of a payload that reads `each = "<literal>"`.
pub open spec fn directive_literal(payload: PayloadModel) -> Option<Seq<char>> {
    match payload {
        PayloadModel::Assignment {
            target: OperandModel::Name(name),
            value: OperandModel::Text(literal),
        } => if name == "each"@ {
            Some(literal)
        } else {
            None
        },
        _ => None,
    }
}

/// What a recognized annotation of `field` yields, given the reading of its
/// literal: the reading as alias, or the diagnostic that names field and
/// payload.
pub open spec fn directive_outcome(
    field: Seq<char>,
    annotation: AnnotationModel,
    reading: Option<Seq<char>>,
) -> Result<Seq<char>, DiagnosticModel> {
    if directive_literal(annotation.payload) is Some && reading is Some {
        Ok(reading->0)
    } else {
        Err(DiagnosticModel::MalformedDirective { field, payload: annotation.written })
    }
}

/// The annotation that decides a field: the first that is recognized.
pub open spec fn deciding(field: FieldDefinitionModel) -> Option<int> {
    first_where(field.annotations, |a: AnnotationModel| recognized(a))
}

/// The literal of a field that is to be read: that of its deciding
/// annotation, where the payload has the shape of the directive.
pub open spec fn pending_literal(field: FieldDefinitionModel) -> Option<Seq<char>> {
    match deciding(field) {
        Some(at) => directive_literal(field.annotations[at].payload),
        None => None,
    }
}

/// Whether `reading` can be the reading of a field: where no literal is to be
/// read, nothing was read.
pub open spec fn reading_fits(field: FieldDefinitionModel, reading: Option<Seq<char>>) -> bool {
    pending_literal(field) is None ==> reading is None
}

/// The directive of a field, given the reading of its literal: `Ok(None)`
/// without a recognized annotation, else what the deciding annotation yields.
pub open spec fn field_directive(field: FieldDefinitionModel, reading: Option<Seq<char>>) -> Result<
    Option<Seq<char>>,
    DiagnosticModel,
> {
    match deciding(field) {
        None => Ok(None),
        Some(at) => match directive_outcome(field.name, field.annotations[at], reading) {
            Ok(alias) => Ok(Some(alias)),
            Err(diagnostic) => Err(diagnostic),
        },
    }
}

/// Whether the outcome of the attribute parser is the expected one.
pub open spec fn directive_agrees(
    outcome: Result<Option<String>, Diagnostic>,
    expected: Result<Option<Seq<char>>, DiagnosticModel>,
) -> bool {
    match expected {
        Ok(alias) => outcome matches Ok(found) && optional_text(found) == alias,
        Err(diagnostic) => outcome matches Err(found) && found@ == diagnostic,
    }
}

/// Calls `syn::parse_str::<syn::Ident>` on `text` and writes the identifier
/// out again; `None` where `syn` returns an error. Trusted, and nothing is
/// claimed of the result: which texts `syn` takes for an identifier is its
/// lexer's matter, and inside a macro expansion that lexer is the compiler's.
#[verifier::external_body]
fn read_identifier(text: &str) -> (reading: Option<String>) {
    match syn::parse_str::<syn::Ident>(text) {
        Ok(identifier) => Some(identifier.to_string()),
        Err(_) => None,
    }
}

/// Whether the annotation is in the namespace this library reads.
pub fn is_recognized(annotation: &Annotation) -> (yes: bool)
    ensures
        yes == recognized(annotation@),
{
    same_text(annotation.namespace.as_str(), "builder")
}

/// The string literal of a payload that reads `each = "<literal>"`.
pub fn directive_literal_of(payload: &Payload) -> (literal: Option<&String>)
    ensures
        match directive_literal(payload@) {
            Some(text) => literal matches Some(found) && found@ == text,
            None => literal is None,
        },
{
    match payload {
        Payload::Assignment { target: Operand::Name(name), value: Operand::Text(literal) } => {
            if same_text(name.as_str(), "each") {
                Some(literal)
            } else {
                None
            }
        },
        _ => None,
    }
}

/// Decides a recognized annotation of `field` from the reading of its
/// literal.
pub fn directive_from(field: &str, annotation: &Annotation, reading: Option<String>) -> (outcome:
    Result<String, Diagnostic>)
    ensures
        agrees(outcome, directive_outcome(field@, annotation@, optional_text(reading))),
{
    let shaped = directive_literal_of(&annotation.payload).is_some();
    match reading {
        Some(alias) => {
            if shaped {
                return Ok(alias);
            }
        },
        None => {},
    }
    Err(
        Diagnostic::MalformedDirective {
            field: field.to_owned(),
            payload: annotation.written.clone(),
        },
    )
}

/// Reads a recognized annotation of `field`: where the payload is not of the
/// shape `each = "<literal>"`, the diagnostic; else the literal is read, and
/// the outcome is that of `directive_from` for what was read.
pub fn read_directive(field: &str, annotation: &Annotation) -> (outcome: Result<
    String,
    Diagnostic,
>)
    ensures
        directive_literal(annotation@.payload) is None ==> agrees(
            outcome,
            directive_outcome(field@, annotation@, None),
        ),
        exists|reading: Option<Seq<char>>|
            agrees(outcome, #[trigger] directive_outcome(field@, annotation@, reading)),
{
    let reading = match directive_literal_of(&annotation.payload) {
        Some(literal) => read_identifier(literal.as_str()),
        None => None,
    };
    directive_from(field, annotation, reading)
}

/// The annotation that decides a field: the first that is recognized.
pub fn deciding_annotation(field: &FieldDefinition) -> (found: Option<&Annotation>)
    ensures
        match deciding(field@) {
            Some(at) => found matches Some(annotation) && annotation@ == field@.annotations[at],
            None => found is None,
        },
{
    let ghost wanted = |a: AnnotationModel| recognized(a);
    let mut at: usize = 0;
    while at < field.annotations.len()
        invariant
            at <= field.annotations.len(),
            wanted == (|a: AnnotationModel| recognized(a)),
            forall|j: int| 0 <= j < at ==> !wanted(#[trigger] field@.annotations[j]),
        decreases field.annotations.len() - at,
    {
        assert(field@.annotations[at as int] == field.annotations[at as int]@);
        if is_recognized(&field.annotations[at]) {
            proof {
                first_where_found(field@.annotations, wanted, at as int);
            }
            return Some(&field.annotations[at]);
        }
        at += 1;
    }
    proof {
        first_where_absent(field@.annotations, wanted);
    }
    None
}

/// The literal of a field that is to be read, if there is one.
pub fn pending_literal_of(field: &FieldDefinition) -> (literal: Option<&String>)
    ensures
        match pending_literal(field@) {
            Some(text) => literal matches Some(found) && found@ == text,
            None => literal is None,
        },
{
    match deciding_annotation(field) {
        Some(annotation) => directive_literal_of(&annotation.payload),
        None => None,
    }
}

/// The attribute parser for one field, given the reading of its literal: the
/// alias of its directive, `None` where it has no recognized annotation, or
/// the diagnostic of its deciding annotation.
pub fn directive_with(field: &FieldDefinition, reading: Option<String>) -> (outcome: Result<
    Option<String>,
    Diagnostic,
>)
    ensures
        directive_agrees(outcome, field_directive(field@, optional_text(reading))),
{
    match deciding_annotation(field) {
        Some(annotation) => match directive_from(field.name.as_str(), annotation, reading) {
            Ok(alias) => Ok(Some(alias)),
            Err(diagnostic) => Err(diagnostic),
        },
        None => Ok(None),
    }
}

/// Reads the literal of a field, where one is to be read: what `syn` reads in
/// it. Without such a literal nothing is read.
pub fn read_literal(field: &FieldDefinition) -> (reading: Option<String>)
    ensures
        reading_fits(field@, optional_text(reading)),
{
    match pending_literal_of(field) {
        Some(literal) => read_identifier(literal.as_str()),
        None => None,
    }
}

/// The attribute parser for one field. Where no literal is to be read, the
/// outcome is decided here: no directive for a field without a recognized
/// annotation, the diagnostic for a deciding annotation of another shape.
/// Else the literal is read, and the outcome is that of `directive_with` for
/// what was read.
pub fn parse_directive(field: &FieldDefinition) -> (outcome: Result<Option<String>, Diagnostic>)
    ensures
        pending_literal(field@) is None ==> directive_agrees(outcome, field_directive(field@, None)),
        exists|reading: Option<Seq<char>>|
            reading_fits(field@, reading) && directive_agrees(
                outcome,
                #[trigger] field_directive(field@, reading),
            ),
{
    let reading = read_literal(field);
    directive_with(field, reading)
}

} // verus!
