//! The input of the analysis: a type definition as a front end hands it over,
//! already parsed. Each type has a view made of sequences of characters.

use vstd::prelude::*;

verus! {

/// One side of an assignment in an annotation's payload.
#[derive(Clone, Debug, PartialEq, Eq)]
pub enum Operand {
    /// A single identifier, such as `each`.
    Name(String),
    /// A string literal; the text is the literal's value.
    Text(String),
    /// Any other expression.
    Other,
}

pub enum OperandModel {
    Name(Seq<char>),
    Text(Seq<char>),
    Other,
}

impl View for Operand {
    type V = OperandModel;

    open spec fn view(&self) -> OperandModel {
        match self {
            Operand::Name(name) => OperandModel::Name(name@),
            Operand::Text(value) => OperandModel::Text(value@),
            Operand::Other => OperandModel::Other,
        }
    }
}

/// What stands between the parentheses of an annotation.
#[derive(Clone, Debug, PartialEq, Eq)]
pub enum Payload {
    /// `target = value`.
    Assignment { target: Operand, value: Operand },
    /// Anything else, an empty or unreadable payload included.
    Other,
}

pub enum PayloadModel {
    Assignment { target: OperandModel, value: OperandModel },
    Other,
}

impl View for Payload {
    type V = PayloadModel;

    open spec fn view(&self) -> PayloadModel {
        match self {
            Payload::Assignment { target, value } => PayloadModel::Assignment {
                target: target@,
                value: value@,
            },
            Payload::Other => PayloadModel::Other,
        }
    }
}

/// One annotation of a field, such as `#[builder(each = "arg")]`.
#[derive(Clone, Debug, PartialEq, Eq)]
pub struct Annotation {
    /// The annotation's name where it is a single identifier (`builder`),
    /// else its path as written.
    pub namespace: String,
    /// The payload as written, for diagnostics.
    pub written: String,
    pub payload: Payload,
}

pub struct AnnotationModel {
    pub namespace: Seq<char>,
    pub written: Seq<char>,
    pub payload: PayloadModel,
}

impl View for Annotation {
    type V = AnnotationModel;

    open spec fn view(&self) -> AnnotationModel {
        AnnotationModel {
            namespace: self.namespace@,
            written: self.written@,
            payload: self.payload@,
        }
    }
}

/// One generic argument of a declared type.
#[derive(Clone, Debug, PartialEq, Eq)]
pub struct TypeArgument {
    /// The argument as written.
    pub written: String,
    /// Whether the argument is a type, not a lifetime or a constant.
    pub is_type: bool,
}

pub struct TypeArgumentModel {
    pub written: Seq<char>,
    pub is_type: bool,
}

impl View for TypeArgument {
    type V = TypeArgumentModel;

    open spec fn view(&self) -> TypeArgumentModel {
        TypeArgumentModel { written: self.written@, is_type: self.is_type }
    }
}

/// The outermost form of a declared type.
#[derive(Clone, Debug, PartialEq, Eq)]
pub enum TypeForm {
    /// A single name followed by its generic arguments, if any:
    /// `String`, `Option<String>`, `Vec<u8>`.
    Named { name: String, arguments: Vec<TypeArgument> },
    /// Any other form: a reference, a tuple, a path of several segments.
    Other,
}

pub enum TypeFormModel {
    Named { name: Seq<char>, arguments: Seq<TypeArgumentModel> },
    Other,
}

impl View for TypeForm {
    type V = TypeFormModel;

    open spec fn view(&self) -> TypeFormModel {
        match self {
            TypeForm::Named { name, arguments } => TypeFormModel::Named {
                name: name@,
                arguments: arguments@.map_values(|a: TypeArgument| a@),
            },
            TypeForm::Other => TypeFormModel::Other,
        }
    }
}

/// The type a field is declared with.
#[derive(Clone, Debug, PartialEq, Eq)]
pub struct DeclaredType {
    /// The type as written.
    pub written: String,
    pub form: TypeForm,
}

pub struct DeclaredTypeModel {
    pub written: Seq<char>,
    pub form: TypeFormModel,
}

impl View for DeclaredType {
    type V = DeclaredTypeModel;

    open spec fn view(&self) -> DeclaredTypeModel {
        DeclaredTypeModel { written: self.written@, form: self.form@ }
    }
}

/// One declared field with its annotations, in the order written.
#[derive(Clone, Debug, PartialEq, Eq)]
pub struct FieldDefinition {
    pub name: String,
    pub declared: DeclaredType,
    pub annotations: Vec<Annotation>,
}

pub struct FieldDefinitionModel {
    pub name: Seq<char>,
    pub declared: DeclaredTypeModel,
    pub annotations: Seq<AnnotationModel>,
}

impl View for FieldDefinition {
    type V = FieldDefinitionModel;

    open spec fn view(&self) -> FieldDefinitionModel {
        FieldDefinitionModel {
            name: self.name@,
            declared: self.declared@,
            annotations: self.annotations@.map_values(|a: Annotation| a@),
        }
    }
}

/// The shape of the type a builder is asked for.
#[derive(Clone, Copy, Debug, PartialEq, Eq, Structural)]
pub enum TypeShape {
    /// A flat set of named fields, possibly empty.
    Struct,
    /// Fields without names.
    TupleStruct,
    Enum,
    Union,
}

/// A type definition: its name, its shape and its fields in declaration
/// order.
#[derive(Clone, Debug, PartialEq, Eq)]
pub struct TypeDefinition {
    pub name: String,
    pub shape: TypeShape,
    pub fields: Vec<FieldDefinition>,
}

pub struct TypeDefinitionModel {
    pub name: Seq<char>,
    pub shape: TypeShape,
    pub fields: Seq<FieldDefinitionModel>,
}

impl View for TypeDefinition {
    type V = TypeDefinitionModel;

    open spec fn view(&self) -> TypeDefinitionModel {
        TypeDefinitionModel {
            name: self.name@,
            shape: self.shape,
            fields: self.fields@.map_values(|f: FieldDefinition| f@),
        }
    }
}

} // verus!
