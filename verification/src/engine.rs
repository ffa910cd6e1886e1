//! The builder engine: runs a synthesized schema. A builder holds one entry
//! per slot; setters fill the entries, and `build` checks the required ones
//! and assembles a record.
//!
//! Values are text. What a value means, and whether it suits the type that
//! the schema names for it, is the caller's matter.

use vstd::prelude::*;
use vstd::string::StringExecFns;
use crate::synthesis::{BuilderDescriptor, BuilderDescriptorModel, Slot, SlotModel, Storage};
use crate::text::{
    first_where, first_where_absent, first_where_found, optional_text, same_text, texts,
};

verus! {

/// What an entry holds. The variant is the class of the field.
#[derive(Clone, Debug, PartialEq, Eq)]
enum Content {
    /// A required field: absent until set.
    Required(Option<String>),
    /// An optional field: absent until set.
    Optional(Option<String>),
    /// A repeated field: the values appended so far, in call order.
    Repeated(Vec<String>),
}

pub enum ContentModel {
    Required(Option<Seq<char>>),
    Optional(Option<Seq<char>>),
    Repeated(Seq<Seq<char>>),
}

impl View for Content {
    type V = ContentModel;

    closed spec fn view(&self) -> ContentModel {
        match self {
            Content::Required(value) => ContentModel::Required(optional_text(*value)),
            Content::Optional(value) => ContentModel::Optional(optional_text(*value)),
            Content::Repeated(values) => ContentModel::Repeated(texts(values@)),
        }
    }
}

/// One entry of a builder: a slot of the schema with what it holds.
#[derive(Clone, Debug, PartialEq, Eq)]
struct Entry {
    field: String,
    setter: String,
    content: Content,
}

pub struct EntryModel {
    pub field: Seq<char>,
    pub setter: Seq<char>,
    pub content: ContentModel,
}

impl View for Entry {
    type V = EntryModel;

    closed spec fn view(&self) -> EntryModel {
        EntryModel { field: self.field@, setter: self.setter@, content: self.content@ }
    }
}

/// A builder: a mutable accumulator with one entry per field of the type it
/// builds, in declaration order.
#[derive(Clone, Debug, PartialEq, Eq)]
pub struct Builder {
    subject: String,
    entries: Vec<Entry>,
}

pub struct BuilderModel {
    pub subject: Seq<char>,
    pub entries: Seq<EntryModel>,
}

impl View for Builder {
    type V = BuilderModel;

    closed spec fn view(&self) -> BuilderModel {
        BuilderModel {
            subject: self.subject@,
            entries: self.entries@.map_values(|e: Entry| e@),
        }
    }
}

/// The value of one field of a built record.
#[derive(Clone, Debug, PartialEq, Eq)]
pub enum FieldValue {
    Required(String),
    Optional(Option<String>),
    Repeated(Vec<String>),
}

pub enum FieldValueModel {
    Required(Seq<char>),
    Optional(Option<Seq<char>>),
    Repeated(Seq<Seq<char>>),
}

impl View for FieldValue {
    type V = FieldValueModel;

    open spec fn view(&self) -> FieldValueModel {
        match self {
            FieldValue::Required(value) => FieldValueModel::Required(value@),
            FieldValue::Optional(value) => FieldValueModel::Optional(optional_text(*value)),
            FieldValue::Repeated(values) => FieldValueModel::Repeated(texts(values@)),
        }
    }
}

/// One field of a built record.
#[derive(Clone, Debug, PartialEq, Eq)]
pub struct Field {
    pub name: String,
    pub value: FieldValue,
}

pub struct FieldModel {
    pub name: Seq<char>,
    pub value: FieldValueModel,
}

impl View for Field {
    type V = FieldModel;

    open spec fn view(&self) -> FieldModel {
        FieldModel { name: self.name@, value: self.value@ }
    }
}

/// A built value: the fields of the type, in declaration order. It owns its
/// data and shares nothing with the builder it came from.
#[derive(Clone, Debug, PartialEq, Eq)]
pub struct Record {
    pub subject: String,
    pub fields: Vec<Field>,
}

pub struct RecordModel {
    pub subject: Seq<char>,
    pub fields: Seq<FieldModel>,
}

impl View for Record {
    type V = RecordModel;

    open spec fn view(&self) -> RecordModel {
        RecordModel { subject: self.subject@, fields: self.fields@.map_values(|f: Field| f@) }
    }
}

/// A failure at run time. The caller may go on with the same builder.
#[derive(Clone, Debug, PartialEq, Eq)]
pub enum BuildError {
    /// `build` found this required field absent, before any other.
    MissingField { field: String },
    /// No slot of the builder has a setter of this name.
    UnknownSetter { setter: String },
}

pub enum BuildErrorModel {
    MissingField { field: Seq<char> },
    UnknownSetter { setter: Seq<char> },
}

impl View for BuildError {
    type V = BuildErrorModel;

    open spec fn view(&self) -> BuildErrorModel {
        match self {
            BuildError::MissingField { field } => BuildErrorModel::MissingField { field: field@ },
            BuildError::UnknownSetter { setter } => BuildErrorModel::UnknownSetter {
                setter: setter@,
            },
        }
    }
}

impl BuildErrorModel {
    /// The message of the error.
    pub open spec fn message(self) -> Seq<char> {
        match self {
            BuildErrorModel::MissingField { field } => "missing field: "@ + field,
            BuildErrorModel::UnknownSetter { setter } => "unknown setter: "@ + setter,
        }
    }
}

impl BuildError {
    /// The message of the error; that of a missing field ends in the field's
    /// name.
    pub fn message(&self) -> (text: String)
        ensures
            text@ == self@.message(),
    {
        match self {
            BuildError::MissingField { field } => {
                let mut text = String::from_str("missing field: ");
                text.append(field.as_str());
                text
            },
            BuildError::UnknownSetter { setter } => {
                let mut text = String::from_str("unknown setter: ");
                text.append(setter.as_str());
                text
            },
        }
    }
}

/// What a slot holds before any setter was called: nothing.
pub open spec fn initial_content(storage: Storage) -> ContentModel {
    match storage {
        Storage::Wrapped => ContentModel::Required(None),
        Storage::Declared => ContentModel::Optional(None),
        Storage::Sequence => ContentModel::Repeated(Seq::empty()),
    }
}

/// The entry of a slot before any setter was called.
pub open spec fn initial_entry(slot: SlotModel) -> EntryModel {
    EntryModel { field: slot.field, setter: slot.setter, content: initial_content(slot.storage) }
}

/// The builder that the factory returns: every entry in its initial state.
pub open spec fn fresh(schema: BuilderDescriptorModel) -> BuilderModel {
    BuilderModel {
        subject: schema.subject,
        entries: schema.slots.map_values(|s: SlotModel| initial_entry(s)),
    }
}

/// The entry that a setter name addresses: the first with that setter.
pub open spec fn resolve(entries: Seq<EntryModel>, setter: Seq<char>) -> Option<int> {
    first_where(entries, |e: EntryModel| e.setter == setter)
}

/// What an entry holds after its setter was called with `value`: a replace
/// setter stores the value as present, an append setter puts it at the end.
pub open spec fn content_after(content: ContentModel, value: Seq<char>) -> ContentModel {
    match content {
        ContentModel::Required(_) => ContentModel::Required(Some(value)),
        ContentModel::Optional(_) => ContentModel::Optional(Some(value)),
        ContentModel::Repeated(values) => ContentModel::Repeated(values.push(value)),
    }
}

/// An entry after its setter was called with `value`.
pub open spec fn entry_after(entry: EntryModel, value: Seq<char>) -> EntryModel {
    EntryModel { content: content_after(entry.content, value), ..entry }
}

/// The builder after a call of the setter named `setter` with `value`. A name
/// that addresses no entry changes nothing.
pub open spec fn after_set(builder: BuilderModel, setter: Seq<char>, value: Seq<char>) -> BuilderModel {
    match resolve(builder.entries, setter) {
        Some(at) => BuilderModel {
            entries: builder.entries.update(at, entry_after(builder.entries[at], value)),
            ..builder
        },
        None => builder,
    }
}

/// Whether the entry is a required field that is absent.
pub open spec fn is_missing(entry: EntryModel) -> bool {
    entry.content == ContentModel::Required(None)
}

/// The first required field, in declaration order, that is absent.
pub open spec fn first_missing(builder: BuilderModel) -> Option<int> {
    first_where(builder.entries, |e: EntryModel| is_missing(e))
}

/// Whether every required field is present.
pub open spec fn ready(builder: BuilderModel) -> bool {
    first_missing(builder) is None
}

/// The value that a field takes from its entry: a required field its stored
/// value, an optional field what it holds, present or absent, a repeated field
/// its whole sequence.
pub open spec fn value_of(content: ContentModel) -> FieldValueModel {
    match content {
        ContentModel::Required(value) => FieldValueModel::Required(value->0),
        ContentModel::Optional(value) => FieldValueModel::Optional(value),
        ContentModel::Repeated(values) => FieldValueModel::Repeated(values),
    }
}

/// The field assembled from an entry.
pub open spec fn field_of(entry: EntryModel) -> FieldModel {
    FieldModel { name: entry.field, value: value_of(entry.content) }
}

/// The record assembled from a builder.
pub open spec fn assembled(builder: BuilderModel) -> RecordModel {
    RecordModel {
        subject: builder.subject,
        fields: builder.entries.map_values(|e: EntryModel| field_of(e)),
    }
}

/// What `build` returns: the error that names the first missing required
/// field, or the assembled record where none is missing.
pub open spec fn build_outcome(builder: BuilderModel) -> Result<RecordModel, BuildErrorModel> {
    match first_missing(builder) {
        Some(at) => Err(BuildErrorModel::MissingField { field: builder.entries[at].field }),
        None => Ok(assembled(builder)),
    }
}

/// The place of the first field of that name among the fields of a record.
pub open spec fn position_of(fields: Seq<FieldModel>, name: Seq<char>) -> Option<int> {
    first_where(fields, |f: FieldModel| f.name == name)
}

impl Record {
    /// The value of the field named `name`: of the first, where several
    /// fields have that name.
    pub fn get(&self, name: &str) -> (found: Option<&FieldValue>)
        ensures
            match position_of(self@.fields, name@) {
                Some(at) => found matches Some(value) && value@ == self@.fields[at].value,
                None => found is None,
            },
    {
        let ghost wanted = |f: FieldModel| f.name == name@;
        let mut at: usize = 0;
        while at < self.fields.len()
            invariant
                at <= self.fields.len(),
                wanted == (|f: FieldModel| f.name == name@),
                forall|j: int| 0 <= j < at ==> !wanted(#[trigger] self@.fields[j]),
            decreases self.fields.len() - at,
        {
            assert(self@.fields[at as int] == self.fields[at as int]@);
            if same_text(self.fields[at].name.as_str(), name) {
                proof {
                    first_where_found(self@.fields, wanted, at as int);
                }
                return Some(&self.fields[at].value);
            }
            at += 1;
        }
        proof {
            first_where_absent(self@.fields, wanted);
        }
        None
    }
}

/// A copy of each text, in order.
fn copy_texts(values: &Vec<String>) -> (copy: Vec<String>)
    ensures
        copy@ == values@,
{
    let mut copy: Vec<String> = Vec::new();
    let mut at: usize = 0;
    while at < values.len()
        invariant
            at <= values.len(),
            copy@ == values@.take(at as int),
        decreases values.len() - at,
    {
        copy.push(values[at].clone());
        assert(values@.take(at + 1) =~= values@.take(at as int).push(values[at as int]));
        at += 1;
    }
    assert(values@.take(values.len() as int) =~= values@);
    copy
}

/// The entry of a slot before any setter was called.
fn new_entry(slot: &Slot) -> (entry: Entry)
    ensures
        entry@ == initial_entry(slot@),
{
    let content = match slot.storage {
        Storage::Wrapped => Content::Required(None),
        Storage::Declared => Content::Optional(None),
        Storage::Sequence => {
            let values: Vec<String> = Vec::new();
            assert(texts(values@) =~= Seq::<Seq<char>>::empty());
            Content::Repeated(values)
        },
    };
    Entry { field: slot.field.clone(), setter: slot.setter.clone(), content }
}

impl BuilderDescriptor {
    /// The factory of the type this schema describes: a fresh builder.
    pub fn builder(&self) -> (builder: Builder)
        ensures
            builder@ == fresh(self@),
    {
        Builder::new(self)
    }
}

impl Builder {
    /// A fresh builder of `schema`: every required and optional field is
    /// absent and every repeated field is empty.
    pub fn new(schema: &BuilderDescriptor) -> (builder: Builder)
        ensures
            builder@ == fresh(schema@),
    {
        let mut entries: Vec<Entry> = Vec::new();
        let mut at: usize = 0;
        while at < schema.slots.len()
            invariant
                at <= schema.slots.len(),
                entries.len() == at,
                forall|j: int|
                    0 <= j < at ==> (#[trigger] entries[j])@ == initial_entry(schema@.slots[j]),
            decreases schema.slots.len() - at,
        {
            assert(schema@.slots[at as int] == schema.slots[at as int]@);
            entries.push(new_entry(&schema.slots[at]));
            at += 1;
        }
        let builder = Builder { subject: schema.subject.clone(), entries };
        assert(builder@.entries =~= fresh(schema@).entries);
        builder
    }

    /// The index of the entry that `setter` addresses.
    fn find(&self, setter: &str) -> (found: Option<usize>)
        ensures
            match resolve(self@.entries, setter@) {
                Some(at) => found == Some(at as usize) && 0 <= at < self.entries.len(),
                None => found is None,
            },
    {
        let ghost wanted = |e: EntryModel| e.setter == setter@;
        let mut at: usize = 0;
        while at < self.entries.len()
            invariant
                at <= self.entries.len(),
                wanted == (|e: EntryModel| e.setter == setter@),
                forall|j: int| 0 <= j < at ==> !wanted(#[trigger] self@.entries[j]),
            decreases self.entries.len() - at,
        {
            assert(self@.entries[at as int] == self.entries[at as int]@);
            if same_text(self.entries[at].setter.as_str(), setter) {
                proof {
                    first_where_found(self@.entries, wanted, at as int);
                }
                return Some(at);
            }
            at += 1;
        }
        proof {
            first_where_absent(self@.entries, wanted);
        }
        None
    }

    /// Calls the setter named `setter` with `value`: a required or optional
    /// field then holds `value`, a repeated field has it appended. Returns the
    /// builder itself, so that calls can be chained. A name that is the setter
    /// of no field is an error, and leaves the builder as it was.
    pub fn set(&mut self, setter: &str, value: String) -> (outcome: Result<&mut Self, BuildError>)
        ensures
            match resolve(old(self)@.entries, setter@) {
                Some(at) => outcome matches Ok(me) && *final(me) == *final(self) && me@
                    == after_set(old(self)@, setter@, value@),
                None => outcome matches Err(error) && error@ == (BuildErrorModel::UnknownSetter {
                    setter: setter@,
                }) && *final(self) == *old(self),
            },
    {
        match self.find(setter) {
            Some(at) => {
                assert(self@.entries[at as int] == self.entries[at as int]@);
                let entry = &mut self.entries[at];
                match &mut entry.content {
                    Content::Required(held) => {
                        *held = Some(value);
                    },
                    Content::Optional(held) => {
                        *held = Some(value);
                    },
                    Content::Repeated(values) => {
                        values.push(value);
                        assert(texts(values@) =~= texts(old(self).entries[at as int].content->Repeated_0@).push(value@));
                    },
                }
                assert(self@.entries =~= after_set(old(self)@, setter@, value@).entries);
                Ok(self)
            },
            None => Err(BuildError::UnknownSetter { setter: setter.to_owned() }),
        }
    }

    /// Whether every required field is present, so that `build` succeeds.
    pub fn is_ready(&self) -> (yes: bool)
        ensures
            yes == ready(self@),
    {
        let ghost wanted = |e: EntryModel| is_missing(e);
        let mut at: usize = 0;
        while at < self.entries.len()
            invariant
                at <= self.entries.len(),
                wanted == (|e: EntryModel| is_missing(e)),
                forall|j: int| 0 <= j < at ==> !wanted(#[trigger] self@.entries[j]),
            decreases self.entries.len() - at,
        {
            assert(self@.entries[at as int] == self.entries[at as int]@);
            match &self.entries[at].content {
                Content::Required(None) => {
                    proof {
                        first_where_found(self@.entries, wanted, at as int);
                    }
                    return false;
                },
                _ => {},
            }
            at += 1;
        }
        proof {
            first_where_absent(self@.entries, wanted);
        }
        true
    }

    /// Checks the required fields in declaration order and fails on the first
    /// that is absent, naming it; else assembles a record from copies of what
    /// the entries hold. The builder is left as it was and can be set and
    /// built again.
    pub fn build(&self) -> (outcome: Result<Record, BuildError>)
        ensures
            match build_outcome(self@) {
                Ok(record) => outcome matches Ok(built) && built@ == record,
                Err(error) => outcome matches Err(found) && found@ == error,
            },
    {
        let ghost wanted = |e: EntryModel| is_missing(e);
        let mut fields: Vec<Field> = Vec::new();
        let mut at: usize = 0;
        while at < self.entries.len()
            invariant
                at <= self.entries.len(),
                fields.len() == at,
                wanted == (|e: EntryModel| is_missing(e)),
                forall|j: int| 0 <= j < at ==> !wanted(#[trigger] self@.entries[j]),
                forall|j: int| 0 <= j < at ==> (#[trigger] fields[j])@ == field_of(self@.entries[j]),
            decreases self.entries.len() - at,
        {
            let entry = &self.entries[at];
            assert(self@.entries[at as int] == entry@);
            let value = match &entry.content {
                Content::Required(None) => {
                    proof {
                        first_where_found(self@.entries, wanted, at as int);
                    }
                    return Err(BuildError::MissingField { field: entry.field.clone() });
                },
                Content::Required(Some(held)) => FieldValue::Required(held.clone()),
                Content::Optional(Some(held)) => FieldValue::Optional(Some(held.clone())),
                Content::Optional(None) => FieldValue::Optional(None),
                Content::Repeated(values) => FieldValue::Repeated(copy_texts(values)),
            };
            fields.push(Field { name: entry.field.clone(), value });
            at += 1;
        }
        proof {
            first_where_absent(self@.entries, wanted);
        }
        let built = Record { subject: self.subject.clone(), fields };
        assert(built@.fields =~= assembled(self@).fields);
        Ok(built)
    }
}

} // verus!
