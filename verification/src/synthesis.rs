//! The schema synthesizer: derives from the classified fields the builder's
//! storage, one slot per field, and the setter of each slot.

use vstd::prelude::*;
use vstd::string::StringExecFns;
use crate::classify::{
    Classification, ClassificationModel, FieldDescriptor, FieldDescriptorModel, TypeDescriptor,
    TypeDescriptorModel,
};
use crate::text::{
    first_where, first_where_absent, first_where_found, first_where_is_least, same_text,
};

verus! {

/// How a slot stores its field.
#[derive(Clone, Copy, Debug, PartialEq, Eq, Structural)]
pub enum Storage {
    /// A required field: the declared type, present or absent.
    Wrapped,
    /// An optional field: the declared type unchanged, which can be absent.
    Declared,
    /// A repeated field: a sequence of elements that only grows.
    Sequence,
}

/// What a setter does to its slot.
#[derive(Clone, Copy, Debug, PartialEq, Eq, Structural)]
pub enum SetterKind {
    /// Stores the value as present; the last write wins.
    Replace,
    /// Puts the value at the end of the sequence.
    Append,
}

impl Storage {
    /// The kind of the setter of a slot with this storage.
    pub open spec fn kind(self) -> SetterKind {
        if self == Storage::Sequence {
            SetterKind::Append
        } else {
            SetterKind::Replace
        }
    }

    /// The kind of the setter of a slot with this storage.
    pub fn setter_kind(self) -> (kind: SetterKind)
        ensures
            kind == self.kind(),
    {
        match self {
            Storage::Sequence => SetterKind::Append,
            _ => SetterKind::Replace,
        }
    }
}

/// One storage slot of a builder, with its setter.
#[derive(Clone, Debug, PartialEq, Eq)]
pub struct Slot {
    /// The name of the field the slot stands for.
    pub field: String,
    pub storage: Storage,
    /// The type of the slot as written in the builder.
    pub stored_as: String,
    /// The name of the setter: the field's name, or the alias of a repeated
    /// field.
    pub setter: String,
    /// The type of the one value the setter accepts.
    pub parameter: String,
}

pub struct SlotModel {
    pub field: Seq<char>,
    pub storage: Storage,
    pub stored_as: Seq<char>,
    pub setter: Seq<char>,
    pub parameter: Seq<char>,
}

impl View for Slot {
    type V = SlotModel;

    open spec fn view(&self) -> SlotModel {
        SlotModel {
            field: self.field@,
            storage: self.storage,
            stored_as: self.stored_as@,
            setter: self.setter@,
            parameter: self.parameter@,
        }
    }
}

/// The schema of a builder: the slots in declaration order, the name of the
/// builder and the name of the type it builds.
#[derive(Clone, Debug, PartialEq, Eq)]
pub struct BuilderDescriptor {
    /// The name of the type that is built.
    pub subject: String,
    /// The name of the builder type.
    pub name: String,
    pub slots: Vec<Slot>,
}

pub struct BuilderDescriptorModel {
    pub subject: Seq<char>,
    pub name: Seq<char>,
    pub slots: Seq<SlotModel>,
}

impl View for BuilderDescriptor {
    type V = BuilderDescriptorModel;

    open spec fn view(&self) -> BuilderDescriptorModel {
        BuilderDescriptorModel {
            subject: self.subject@,
            name: self.name@,
            slots: self.slots@.map_values(|s: Slot| s@),
        }
    }
}

/// The slot that a setter name addresses: the first with that setter.
pub open spec fn owner_of(slots: Seq<SlotModel>, setter: Seq<char>) -> Option<int> {
    first_where(slots, |s: SlotModel| s.setter == setter)
}

/// Whether every slot is reached by its own setter, which is to say that no
/// two slots share a setter name.
pub open spec fn setters_distinct(slots: Seq<SlotModel>) -> bool {
    forall|at: int|
        0 <= at < slots.len() ==> (#[trigger] owner_of(slots, slots[at].setter)) == Some(at)
}

/// Every slot is reached by its own setter exactly when the setter names
/// differ pairwise.
pub proof fn setters_distinct_means_pairwise(slots: Seq<SlotModel>)
    ensures
        setters_distinct(slots) <==> (forall|i: int, j: int|
            0 <= i < j < slots.len() ==> (#[trigger] slots[i]).setter != (#[trigger] slots[j]).setter),
{
    if setters_distinct(slots) {
        assert forall|i: int, j: int| 0 <= i < j < slots.len() implies (#[trigger] slots[i]).setter
            != (#[trigger] slots[j]).setter by {
            first_where_is_least(slots, |s: SlotModel| s.setter == slots[j].setter);
            assert(owner_of(slots, slots[j].setter) == Some(j));
        }
    }
    if forall|i: int, j: int|
        0 <= i < j < slots.len() ==> (#[trigger] slots[i]).setter != (#[trigger] slots[j]).setter {
        assert forall|at: int| 0 <= at < slots.len() implies (#[trigger] owner_of(
            slots,
            slots[at].setter,
        )) == Some(at) by {
            assert forall|j: int| 0 <= j < at implies !(|s: SlotModel| s.setter
                == slots[at].setter)(#[trigger] slots[j]) by {
                assert(slots[j].setter != slots[at].setter);
            }
            first_where_found(slots, |s: SlotModel| s.setter == slots[at].setter, at);
        }
    }
}

/// The slot of a classified field.
pub open spec fn slot_of(field: FieldDescriptorModel) -> SlotModel {
    match field.class {
        ClassificationModel::Required => SlotModel {
            field: field.name,
            storage: Storage::Wrapped,
            stored_as: "Option<"@ + field.declared + ">"@,
            setter: field.name,
            parameter: field.declared,
        },
        ClassificationModel::Optional { inner } => SlotModel {
            field: field.name,
            storage: Storage::Declared,
            stored_as: field.declared,
            setter: field.name,
            parameter: inner,
        },
        ClassificationModel::Repeated { element, alias } => SlotModel {
            field: field.name,
            storage: Storage::Sequence,
            stored_as: "Vec<"@ + element + ">"@,
            setter: alias,
            parameter: element,
        },
    }
}

/// The schema of the builder of a classified type: one slot per field, in
/// declaration order.
pub open spec fn schema_of(subject: TypeDescriptorModel) -> BuilderDescriptorModel {
    BuilderDescriptorModel {
        subject: subject.name,
        name: subject.name + "Builder"@,
        slots: subject.fields.map_values(|f: FieldDescriptorModel| slot_of(f)),
    }
}

impl BuilderDescriptor {
    /// The slot that a setter name addresses: the first with that setter.
    pub fn owner(&self, setter: &str) -> (found: Option<usize>)
        ensures
            match owner_of(self@.slots, setter@) {
                Some(at) => 0 <= at < self.slots.len() && found == Some(at as usize),
                None => found is None,
            },
    {
        let ghost wanted = |s: SlotModel| s.setter == setter@;
        let mut at: usize = 0;
        while at < self.slots.len()
            invariant
                at <= self.slots.len(),
                wanted == (|s: SlotModel| s.setter == setter@),
                forall|j: int| 0 <= j < at ==> !wanted(#[trigger] self@.slots[j]),
            decreases self.slots.len() - at,
        {
            assert(self@.slots[at as int] == self.slots[at as int]@);
            if same_text(self.slots[at].setter.as_str(), setter) {
                proof {
                    first_where_found(self@.slots, wanted, at as int);
                }
                return Some(at);
            }
            at += 1;
        }
        proof {
            first_where_absent(self@.slots, wanted);
        }
        None
    }

    /// Whether every slot is reached by its own setter. Where two slots share
    /// a setter name, the setter reaches the one declared first, and no call
    /// can fill the other.
    pub fn setters_are_distinct(&self) -> (yes: bool)
        ensures
            yes == setters_distinct(self@.slots),
    {
        let mut at: usize = 0;
        while at < self.slots.len()
            invariant
                at <= self.slots.len(),
                forall|j: int|
                    0 <= j < at ==> (#[trigger] owner_of(self@.slots, self@.slots[j].setter))
                        == Some(j),
            decreases self.slots.len() - at,
        {
            assert(self@.slots[at as int] == self.slots[at as int]@);
            match self.owner(self.slots[at].setter.as_str()) {
                Some(first) => {
                    if first != at {
                        assert(owner_of(self@.slots, self@.slots[at as int].setter) != Some(
                            at as int,
                        ));
                        return false;
                    }
                },
                None => {
                    assert(owner_of(self@.slots, self@.slots[at as int].setter) != Some(at as int));
                    return false;
                },
            }
            assert(owner_of(self@.slots, self@.slots[at as int].setter) == Some(at as int));
            at += 1;
        }
        true
    }
}

/// `opening`, then `inner`, then `>`.
fn bracketed(opening: &str, inner: &String) -> (text: String)
    ensures
        text@ == opening@ + inner@ + ">"@,
{
    let mut text = String::from_str(opening);
    text.append(inner.as_str());
    text.append(">");
    text
}

/// Synthesizes the slot of a classified field.
pub fn synthesize_slot(field: &FieldDescriptor) -> (slot: Slot)
    ensures
        slot@ == slot_of(field@),
{
    match &field.class {
        Classification::Required => Slot {
            field: field.name.clone(),
            storage: Storage::Wrapped,
            stored_as: bracketed("Option<", &field.declared),
            setter: field.name.clone(),
            parameter: field.declared.clone(),
        },
        Classification::Optional { inner } => Slot {
            field: field.name.clone(),
            storage: Storage::Declared,
            stored_as: field.declared.clone(),
            setter: field.name.clone(),
            parameter: inner.clone(),
        },
        Classification::Repeated { element, alias } => Slot {
            field: field.name.clone(),
            storage: Storage::Sequence,
            stored_as: bracketed("Vec<", element),
            setter: alias.clone(),
            parameter: element.clone(),
        },
    }
}

/// The schema synthesizer: one slot and one setter per field, in declaration
/// order.
pub fn synthesize(subject: &TypeDescriptor) -> (schema: BuilderDescriptor)
    ensures
        schema@ == schema_of(subject@),
{
    let mut slots: Vec<Slot> = Vec::new();
    let mut at: usize = 0;
    while at < subject.fields.len()
        invariant
            at <= subject.fields.len(),
            slots.len() == at,
            forall|j: int| 0 <= j < at ==> (#[trigger] slots[j])@ == slot_of(subject@.fields[j]),
        decreases subject.fields.len() - at,
    {
        assert(subject@.fields[at as int] == subject.fields[at as int]@);
        slots.push(synthesize_slot(&subject.fields[at]));
        at += 1;
    }
    let mut name = subject.name.clone();
    name.append("Builder");
    let schema = BuilderDescriptor { subject: subject.name.clone(), name, slots };
    assert(schema@.slots =~= schema_of(subject@).slots);
    schema
}

} // verus!
