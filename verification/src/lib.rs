//! Builders from field schemas.
//!
//! Given the fields of a struct, already parsed, this library classifies each
//! field as required, optional or repeated, synthesizes the schema of a
//! builder for the struct, and writes the builder as Rust source text. The
//! same schema can be run directly by the builder engine in [`engine`].
//!
//! The passes run strictly forward: [`directive`] reads a field's
//! annotations, [`classify`] classifies the fields, [`synthesis`] derives the
//! slots and setters, [`emit`] writes the text.

use vstd::prelude::*;

pub mod classify;
pub mod diagnostic;
pub mod directive;
pub mod emit;
pub mod engine;
pub mod laws;
pub mod schema;
pub mod synthesis;
pub mod text;

use crate::classify::{
    analysis_of, analysis_without_readings, analyze_with, nothing_to_read, read_literals,
    readings_fit,
};
use crate::diagnostic::{agrees, Diagnostic, DiagnosticModel};
use crate::schema::{TypeDefinition, TypeDefinitionModel, TypeShape};
use crate::synthesis::{schema_of, synthesize, BuilderDescriptor, BuilderDescriptorModel};
use crate::text::optional_texts;

verus! {

/// The schema of the builder of a type definition, given the readings of its
/// fields' literals, or the diagnostic of its analysis.
pub open spec fn schema_for(
    definition: TypeDefinitionModel,
    readings: Seq<Option<Seq<char>>>,
) -> Result<BuilderDescriptorModel, DiagnosticModel> {
    match analysis_of(definition, readings) {
        Ok(subject) => Ok(schema_of(subject)),
        Err(diagnostic) => Err(diagnostic),
    }
}

/// The generated definitions of a type definition, given the readings of its
/// fields' literals, or the diagnostic of its analysis.
pub open spec fn derivation(
    definition: TypeDefinitionModel,
    readings: Seq<Option<Seq<char>>>,
) -> Result<Seq<char>, DiagnosticModel> {
    match schema_for(definition, readings) {
        Ok(schema) => Ok(crate::emit::generated(schema)),
        Err(diagnostic) => Err(diagnostic),
    }
}

/// Analyses a type definition, given the readings of its fields' literals,
/// and synthesizes the schema of its builder. On a diagnostic there is no
/// schema at all.
pub fn describe_with(definition: &TypeDefinition, readings: &Vec<Option<String>>) -> (outcome:
    Result<BuilderDescriptor, Diagnostic>)
    ensures
        agrees(outcome, schema_for(definition@, optional_texts(readings@))),
{
    match analyze_with(definition, readings) {
        Ok(subject) => Ok(synthesize(&subject)),
        Err(diagnostic) => Err(diagnostic),
    }
}

/// Generates the builder of a type definition, given the readings of its
/// fields' literals: the builder type, its setters, its `build` and the
/// factory, as Rust source text. On a diagnostic nothing is generated.
pub fn derive_with(definition: &TypeDefinition, readings: &Vec<Option<String>>) -> (outcome: Result<
    String,
    Diagnostic,
>)
    ensures
        agrees(outcome, derivation(definition@, optional_texts(readings@))),
{
    match describe_with(definition, readings) {
        Ok(schema) => Ok(crate::emit::emit(&schema)),
        Err(diagnostic) => Err(diagnostic),
    }
}

/// Analyses a type definition and synthesizes the schema of its builder. What
/// is not a struct is rejected here, and a definition without a literal to
/// read is decided here. Else the literals are read, and the outcome is that
/// of `describe_with` for what was read. An alias may equal the setter name of
/// another field; `BuilderDescriptor::setters_are_distinct` tells.
pub fn describe(definition: &TypeDefinition) -> (outcome: Result<BuilderDescriptor, Diagnostic>)
    ensures
        definition@.shape != TypeShape::Struct ==> (outcome matches Err(found) && found@
            == (DiagnosticModel::UnsupportedShape { subject: definition@.name })),
        nothing_to_read(definition@.fields) ==> agrees(
            outcome,
            schema_for(definition@, Seq::empty()),
        ),
        exists|readings: Seq<Option<Seq<char>>>|
            readings_fit(definition@.fields, readings) && agrees(
                outcome,
                #[trigger] schema_for(definition@, readings),
            ),
{
    let readings = read_literals(definition);
    proof {
        if nothing_to_read(definition@.fields) {
            analysis_without_readings(definition@, optional_texts(readings@));
        }
    }
    describe_with(definition, &readings)
}

/// Generates the builder of a type definition: the builder type, its setters,
/// its `build` and the factory, as Rust source text. What is not a struct is
/// rejected here, and a definition without a literal to read is decided here.
/// Else the literals are read, and the outcome is that of `derive_with` for
/// what was read. On a diagnostic nothing is generated.
pub fn derive(definition: &TypeDefinition) -> (outcome: Result<String, Diagnostic>)
    ensures
        definition@.shape != TypeShape::Struct ==> (outcome matches Err(found) && found@
            == (DiagnosticModel::UnsupportedShape { subject: definition@.name })),
        nothing_to_read(definition@.fields) ==> agrees(
            outcome,
            derivation(definition@, Seq::empty()),
        ),
        exists|readings: Seq<Option<Seq<char>>>|
            readings_fit(definition@.fields, readings) && agrees(
                outcome,
                #[trigger] derivation(definition@, readings),
            ),
{
    let readings = read_literals(definition);
    proof {
        if nothing_to_read(definition@.fields) {
            analysis_without_readings(definition@, optional_texts(readings@));
        }
    }
    derive_with(definition, &readings)
}

} // verus!
