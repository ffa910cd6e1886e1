//! The field classifier: assigns each field to one of required, optional and
//! repeated, from its directive and the form of its declared type.

use vstd::prelude::*;
use crate::diagnostic::{agrees, Diagnostic, DiagnosticModel};
use crate::directive::{
    directive_with, field_directive, pending_literal, read_literal, reading_fits,
};
use crate::schema::{
    DeclaredType, DeclaredTypeModel, FieldDefinition, FieldDefinitionModel, TypeDefinition,
    TypeDefinitionModel, TypeForm, TypeFormModel, TypeShape,
};
use crate::text::{
    first_where, first_where_absent, first_where_found, optional_text, optional_texts, same_text,
};

verus! {

/// The class of a field, with what the setter's signature needs.
#[derive(Clone, Debug, PartialEq, Eq)]
pub enum Classification {
    /// Must be set before a value can be built.
    Required,
    /// Declared as `Option<inner>`; may stay unset.
    Optional { inner: String },
    /// Carries a directive; collects values of type `element` through a
    /// setter named `alias`.
    Repeated { element: String, alias: String },
}

pub enum ClassificationModel {
    Required,
    Optional { inner: Seq<char> },
    Repeated { element: Seq<char>, alias: Seq<char> },
}

impl View for Classification {
    type V = ClassificationModel;

    open spec fn view(&self) -> ClassificationModel {
        match self {
            Classification::Required => ClassificationModel::Required,
            Classification::Optional { inner } => ClassificationModel::Optional { inner: inner@ },
            Classification::Repeated { element, alias } => ClassificationModel::Repeated {
                element: element@,
                alias: alias@,
            },
        }
    }
}

/// A classified field.
#[derive(Clone, Debug, PartialEq, Eq)]
pub struct FieldDescriptor {
    pub name: String,
    /// The declared type as written.
    pub declared: String,
    pub class: Classification,
}

pub struct FieldDescriptorModel {
    pub name: Seq<char>,
    pub declared: Seq<char>,
    pub class: ClassificationModel,
}

impl View for FieldDescriptor {
    type V = FieldDescriptorModel;

    open spec fn view(&self) -> FieldDescriptorModel {
        FieldDescriptorModel { name: self.name@, declared: self.declared@, class: self.class@ }
    }
}

/// A type whose fields are all classified, in declaration order.
#[derive(Clone, Debug, PartialEq, Eq)]
pub struct TypeDescriptor {
    pub name: String,
    pub fields: Vec<FieldDescriptor>,
}

pub struct TypeDescriptorModel {
    pub name: Seq<char>,
    pub fields: Seq<FieldDescriptorModel>,
}

impl View for TypeDescriptor {
    type V = TypeDescriptorModel;

    open spec fn view(&self) -> TypeDescriptorModel {
        TypeDescriptorModel {
            name: self.name@,
            fields: self.fields@.map_values(|f: FieldDescriptor| f@),
        }
    }
}

/// The type argument of a named type that has exactly one generic argument,
/// which is a type.
pub open spec fn sole_argument(declared: DeclaredTypeModel) -> Option<Seq<char>> {
    match declared.form {
        TypeFormModel::Named { name, arguments } => if arguments.len() == 1
            && arguments[0].is_type {
            Some(arguments[0].written)
        } else {
            None
        },
        TypeFormModel::Other => None,
    }
}

/// The inner type of a type written `Option<inner>`.
pub open spec fn optional_inner(declared: DeclaredTypeModel) -> Option<Seq<char>> {
    match declared.form {
        TypeFormModel::Named { name, arguments } => if name == "Option"@ {
            sole_argument(declared)
        } else {
            None
        },
        TypeFormModel::Other => None,
    }
}

/// The class of a field whose directive gave `alias`. A directive makes the
/// field repeated and needs a container; without one, `Option<inner>` makes it
/// optional; every other field is required.
pub open spec fn classification_of(field: FieldDefinitionModel, alias: Option<Seq<char>>) -> Result<
    ClassificationModel,
    DiagnosticModel,
> {
    match alias {
        Some(alias) => match sole_argument(field.declared) {
            Some(element) => Ok(ClassificationModel::Repeated { element, alias }),
            None => Err(DiagnosticModel::NotAContainer { field: field.name }),
        },
        None => match optional_inner(field.declared) {
            Some(inner) => Ok(ClassificationModel::Optional { inner }),
            None => Ok(ClassificationModel::Required),
        },
    }
}

/// The descriptor of a field whose directive gave `alias`.
pub open spec fn descriptor_of(field: FieldDefinitionModel, alias: Option<Seq<char>>) -> Result<
    FieldDescriptorModel,
    DiagnosticModel,
> {
    match classification_of(field, alias) {
        Ok(class) => Ok(
            FieldDescriptorModel { name: field.name, declared: field.declared.written, class },
        ),
        Err(diagnostic) => Err(diagnostic),
    }
}

/// The descriptor of a field, given the reading of its literal: the directive
/// is decided, then the field is classified.
pub open spec fn field_analysis(field: FieldDefinitionModel, reading: Option<Seq<char>>) -> Result<
    FieldDescriptorModel,
    DiagnosticModel,
> {
    match field_directive(field, reading) {
        Ok(alias) => descriptor_of(field, alias),
        Err(diagnostic) => Err(diagnostic),
    }
}

/// The reading of field `at`: nothing, where the list does not reach it.
pub open spec fn reading_at(readings: Seq<Option<Seq<char>>>, at: int) -> Option<Seq<char>> {
    if 0 <= at < readings.len() {
        readings[at]
    } else {
        None
    }
}

/// Whether `readings` can be the readings of the fields: one per field, and
/// nothing where no literal is to be read.
pub open spec fn readings_fit(
    fields: Seq<FieldDefinitionModel>,
    readings: Seq<Option<Seq<char>>>,
) -> bool {
    &&& readings.len() == fields.len()
    &&& forall|i: int| 0 <= i < fields.len() ==> reading_fits(fields[i], #[trigger] readings[i])
}

/// Whether no field has a literal that is to be read.
pub open spec fn nothing_to_read(fields: Seq<FieldDefinitionModel>) -> bool {
    forall|i: int| 0 <= i < fields.len() ==> pending_literal(#[trigger] fields[i]) is None
}

/// The analysis of each field, given the readings.
pub open spec fn field_analyses(
    fields: Seq<FieldDefinitionModel>,
    readings: Seq<Option<Seq<char>>>,
) -> Seq<Result<FieldDescriptorModel, DiagnosticModel>> {
    Seq::new(fields.len(), |i: int| field_analysis(fields[i], reading_at(readings, i)))
}

/// The analysis of a type, given the readings of its fields' literals: only a
/// struct is accepted; the first field, in declaration order, that cannot be
/// analysed gives the diagnostic; else every field is classified, in order.
pub open spec fn analysis_of(
    definition: TypeDefinitionModel,
    readings: Seq<Option<Seq<char>>>,
) -> Result<TypeDescriptorModel, DiagnosticModel> {
    if definition.shape != TypeShape::Struct {
        Err(DiagnosticModel::UnsupportedShape { subject: definition.name })
    } else {
        let analyses = field_analyses(definition.fields, readings);
        match first_where(
            analyses,
            |a: Result<FieldDescriptorModel, DiagnosticModel>| a is Err,
        ) {
            Some(at) => Err(analyses[at]->Err_0),
            None => Ok(
                TypeDescriptorModel {
                    name: definition.name,
                    fields: analyses.map_values(
                        |a: Result<FieldDescriptorModel, DiagnosticModel>| a->Ok_0,
                    ),
                },
            ),
        }
    }
}

/// Without a literal to read, the readings play no part in the analysis.
pub proof fn analysis_without_readings(
    definition: TypeDefinitionModel,
    readings: Seq<Option<Seq<char>>>,
)
    requires
        nothing_to_read(definition.fields),
        readings_fit(definition.fields, readings),
    ensures
        analysis_of(definition, readings) == analysis_of(definition, Seq::empty()),
{
    assert(field_analyses(definition.fields, readings) =~= field_analyses(
        definition.fields,
        Seq::empty(),
    )) by {
        assert forall|i: int| 0 <= i < definition.fields.len() implies reading_at(readings, i)
            == reading_at(Seq::empty(), i) by {
            assert(reading_fits(definition.fields[i], readings[i]));
            assert(pending_literal(definition.fields[i]) is None);
        }
    }
}

/// The type argument of a named type that has exactly one generic argument,
/// which is a type.
pub fn sole_argument_of(declared: &DeclaredType) -> (argument: Option<&String>)
    ensures
        match sole_argument(declared@) {
            Some(text) => argument matches Some(found) && found@ == text,
            None => argument is None,
        },
{
    match &declared.form {
        TypeForm::Named { name, arguments } => {
            if arguments.len() == 1 && arguments[0].is_type {
                Some(&arguments[0].written)
            } else {
                None
            }
        },
        TypeForm::Other => None,
    }
}

/// The inner type of a type written `Option<inner>`.
pub fn optional_inner_of(declared: &DeclaredType) -> (inner: Option<&String>)
    ensures
        match optional_inner(declared@) {
            Some(text) => inner matches Some(found) && found@ == text,
            None => inner is None,
        },
{
    match &declared.form {
        TypeForm::Named { name, arguments } => {
            if same_text(name.as_str(), "Option") {
                sole_argument_of(declared)
            } else {
                None
            }
        },
        TypeForm::Other => None,
    }
}

/// The field classifier: classifies `field`, whose directive gave `alias`.
pub fn classify(field: &FieldDefinition, alias: Option<String>) -> (outcome: Result<
    FieldDescriptor,
    Diagnostic,
>)
    ensures
        agrees(outcome, descriptor_of(field@, optional_text(alias))),
{
    let class = match alias {
        Some(alias) => match sole_argument_of(&field.declared) {
            Some(element) => Classification::Repeated { element: element.clone(), alias },
            None => {
                return Err(Diagnostic::NotAContainer { field: field.name.clone() });
            },
        },
        None => match optional_inner_of(&field.declared) {
            Some(inner) => Classification::Optional { inner: inner.clone() },
            None => Classification::Required,
        },
    };
    Ok(FieldDescriptor { name: field.name.clone(), declared: field.declared.written.clone(), class })
}

/// Classifies `field`, given the reading of its literal.
pub fn analyze_field_with(field: &FieldDefinition, reading: Option<String>) -> (outcome: Result<
    FieldDescriptor,
    Diagnostic,
>)
    ensures
        agrees(outcome, field_analysis(field@, optional_text(reading))),
{
    match directive_with(field, reading) {
        Ok(alias) => classify(field, alias),
        Err(diagnostic) => Err(diagnostic),
    }
}

/// Reads the literal of `field`, where one is to be read, and classifies the
/// field. Without such a literal the outcome is decided here; else it is that
/// of `analyze_field_with` for what was read.
pub fn analyze_field(field: &FieldDefinition) -> (outcome: Result<FieldDescriptor, Diagnostic>)
    ensures
        pending_literal(field@) is None ==> agrees(outcome, field_analysis(field@, None)),
        exists|reading: Option<Seq<char>>|
            reading_fits(field@, reading) && agrees(
                outcome,
                #[trigger] field_analysis(field@, reading),
            ),
{
    let reading = read_literal(field);
    analyze_field_with(field, reading)
}

/// Reads the literal of each field, where one is to be read: one reading per
/// field, in declaration order.
pub fn read_literals(definition: &TypeDefinition) -> (readings: Vec<Option<String>>)
    ensures
        readings_fit(definition@.fields, optional_texts(readings@)),
{
    let mut readings: Vec<Option<String>> = Vec::new();
    let mut at: usize = 0;
    while at < definition.fields.len()
        invariant
            at <= definition.fields.len(),
            readings.len() == at,
            forall|j: int|
                0 <= j < at ==> reading_fits(
                    definition@.fields[j],
                    optional_text(#[trigger] readings[j]),
                ),
        decreases definition.fields.len() - at,
    {
        assert(definition@.fields[at as int] == definition.fields[at as int]@);
        readings.push(read_literal(&definition.fields[at]));
        at += 1;
    }
    readings
}

/// Analyses a type definition, given the readings of its fields' literals:
/// rejects what is not a struct, then classifies the fields in declaration
/// order and stops at the first that fails. A field that `readings` does not
/// reach counts as one in whose literal nothing was read.
pub fn analyze_with(definition: &TypeDefinition, readings: &Vec<Option<String>>) -> (outcome: Result<
    TypeDescriptor,
    Diagnostic,
>)
    ensures
        agrees(outcome, analysis_of(definition@, optional_texts(readings@))),
{
    match definition.shape {
        TypeShape::Struct => {},
        _ => {
            return Err(Diagnostic::UnsupportedShape { subject: definition.name.clone() });
        },
    }
    let ghost failing = |a: Result<FieldDescriptorModel, DiagnosticModel>| a is Err;
    let ghost analyses = field_analyses(definition@.fields, optional_texts(readings@));
    let mut fields: Vec<FieldDescriptor> = Vec::new();
    let mut at: usize = 0;
    while at < definition.fields.len()
        invariant
            at <= definition.fields.len(),
            fields.len() == at,
            definition.shape == TypeShape::Struct,
            failing == (|a: Result<FieldDescriptorModel, DiagnosticModel>| a is Err),
            analyses == field_analyses(definition@.fields, optional_texts(readings@)),
            forall|j: int|
                0 <= j < at ==> analyses[j] == Ok::<FieldDescriptorModel, DiagnosticModel>(
                    (#[trigger] fields[j])@,
                ),
        decreases definition.fields.len() - at,
    {
        assert(definition@.fields[at as int] == definition.fields[at as int]@);
        let reading = if at < readings.len() {
            match &readings[at] {
                Some(read) => Some(read.clone()),
                None => None,
            }
        } else {
            None
        };
        assert(optional_text(reading) == reading_at(optional_texts(readings@), at as int));
        match analyze_field_with(&definition.fields[at], reading) {
            Ok(descriptor) => {
                fields.push(descriptor);
            },
            Err(diagnostic) => {
                proof {
                    assert forall|j: int| 0 <= j < at implies !failing(#[trigger] analyses[j]) by {
                        assert(analyses[j] == Ok::<FieldDescriptorModel, DiagnosticModel>(
                            fields[j]@,
                        ));
                    }
                    first_where_found(analyses, failing, at as int);
                }
                return Err(diagnostic);
            },
        }
        at += 1;
    }
    proof {
        assert forall|j: int| 0 <= j < analyses.len() implies !failing(#[trigger] analyses[j]) by {
            assert(analyses[j] == Ok::<FieldDescriptorModel, DiagnosticModel>(fields[j]@));
        }
        first_where_absent(analyses, failing);
    }
    let found = TypeDescriptor { name: definition.name.clone(), fields };
    assert(found@.fields =~= analyses.map_values(
        |a: Result<FieldDescriptorModel, DiagnosticModel>| a->Ok_0,
    ));
    Ok(found)
}

/// Analyses a type definition. What is not a struct is rejected here, and a
/// definition without a literal to read is analysed here. Else the literals
/// are read, and the outcome is that of `analyze_with` for what was read.
pub fn analyze(definition: &TypeDefinition) -> (outcome: Result<TypeDescriptor, Diagnostic>)
    ensures
        definition@.shape != TypeShape::Struct ==> (outcome matches Err(found) && found@
            == (DiagnosticModel::UnsupportedShape { subject: definition@.name })),
        nothing_to_read(definition@.fields) ==> agrees(
            outcome,
            analysis_of(definition@, Seq::empty()),
        ),
        exists|readings: Seq<Option<Seq<char>>>|
            readings_fit(definition@.fields, readings) && agrees(
                outcome,
                #[trigger] analysis_of(definition@, readings),
            ),
{
    let readings = read_literals(definition);
    proof {
        if nothing_to_read(definition@.fields) {
            analysis_without_readings(definition@, optional_texts(readings@));
        }
    }
    analyze_with(definition, &readings)
}

} // verus!
