//! The code emitter: writes the builder type, its setters, its `build` and the
//! factory of the source type as Rust source text. The text is a function of
//! the schema alone, and follows the declaration order of the fields.

use vstd::prelude::*;
use vstd::string::StringExecFns;
use crate::synthesis::{BuilderDescriptor, BuilderDescriptorModel, Slot, SlotModel, Storage};
use crate::text::{joined, joined_step};

verus! {

/// The places of the generated text where every slot writes a piece.
#[derive(Clone, Copy, Debug, PartialEq, Eq, Structural)]
pub enum Part {
    /// The slot's line in the builder type.
    Slot,
    /// The slot's setter.
    Setter,
    /// The test in `build` that a required field is present.
    Check,
    /// The field's line in the value that `build` assembles.
    Assembly,
    /// The slot's line in the builder that the factory returns.
    Initial,
}

/// The piece that a slot writes at a part.
pub open spec fn piece(part: Part, slot: SlotModel) -> Seq<char> {
    match part {
        Part::Slot => "    "@ + slot.field + ": "@ + slot.stored_as + ",\n"@,
        Part::Setter => if slot.storage == Storage::Sequence {
            "    fn "@ + slot.setter + "(&mut self, ele: "@ + slot.parameter
                + ") -> &mut Self {\n        self."@ + slot.field
                + ".push(ele);\n        self\n    }\n\n"@
        } else {
            "    fn "@ + slot.setter + "(&mut self, "@ + slot.field + ": "@ + slot.parameter
                + ") -> &mut Self {\n        self."@ + slot.field + " = Some("@ + slot.field
                + ");\n        self\n    }\n\n"@
        },
        Part::Check => if slot.storage == Storage::Wrapped {
            "        if self."@ + slot.field
                + ".is_none() {\n            return Err(format!(\"missing field: {}\", stringify!("@
                + slot.field + ")).into());\n        }\n"@
        } else {
            Seq::empty()
        },
        Part::Assembly => if slot.storage == Storage::Wrapped {
            "            "@ + slot.field + ": self."@ + slot.field + ".clone().unwrap(),\n"@
        } else {
            "            "@ + slot.field + ": self."@ + slot.field + ".clone(),\n"@
        },
        Part::Initial => if slot.storage == Storage::Sequence {
            "            "@ + slot.field + ": Vec::new(),\n"@
        } else {
            "            "@ + slot.field + ": None,\n"@
        },
    }
}

/// The pieces of all slots at a part, in declaration order.
pub open spec fn section(part: Part, slots: Seq<SlotModel>) -> Seq<char> {
    joined(slots.map_values(|s: SlotModel| piece(part, s)))
}

/// The generated definitions: the builder type with one slot per field, the
/// setters, `build`, and the factory on the source type.
pub open spec fn generated(schema: BuilderDescriptorModel) -> Seq<char> {
    "pub struct "@ + schema.name + " {\n"@ + section(Part::Slot, schema.slots) + "}\n\nimpl "@
        + schema.name + " {\n"@ + section(Part::Setter, schema.slots)
        + "    pub fn build(&mut self) -> Result<"@ + schema.subject
        + ", Box<dyn ::std::error::Error>> {\n"@ + section(Part::Check, schema.slots)
        + "        return Ok("@ + schema.subject + " {\n"@ + section(Part::Assembly, schema.slots)
        + "        });\n    }\n}\n\nimpl "@ + schema.subject + " {\n    pub fn builder() -> "@
        + schema.name + " {\n        "@ + schema.name + " {\n"@ + section(
        Part::Initial,
        schema.slots,
    ) + "        }\n    }\n}\n"@
}

/// Writes the piece of one slot at a part.
pub fn emit_piece(part: Part, slot: &Slot) -> (text: String)
    ensures
        text@ == piece(part, slot@),
{
    let field = slot.field.as_str();
    match part {
        Part::Slot => {
            let mut text = String::from_str("    ");
            text.append(field);
            text.append(": ");
            text.append(slot.stored_as.as_str());
            text.append(",\n");
            text
        },
        Part::Setter => {
            let mut text = String::from_str("    fn ");
            text.append(slot.setter.as_str());
            match slot.storage {
                Storage::Sequence => {
                    text.append("(&mut self, ele: ");
                    text.append(slot.parameter.as_str());
                    text.append(") -> &mut Self {\n        self.");
                    text.append(field);
                    text.append(".push(ele);\n        self\n    }\n\n");
                },
                _ => {
                    text.append("(&mut self, ");
                    text.append(field);
                    text.append(": ");
                    text.append(slot.parameter.as_str());
                    text.append(") -> &mut Self {\n        self.");
                    text.append(field);
                    text.append(" = Some(");
                    text.append(field);
                    text.append(");\n        self\n    }\n\n");
                },
            }
            text
        },
        Part::Check => {
            match slot.storage {
                Storage::Wrapped => {
                    let mut text = String::from_str("        if self.");
                    text.append(field);
                    text.append(
                        ".is_none() {\n            return Err(format!(\"missing field: {}\", stringify!(",
                    );
                    text.append(field);
                    text.append(")).into());\n        }\n");
                    text
                },
                _ => String::new(),
            }
        },
        Part::Assembly => {
            let mut text = String::from_str("            ");
            text.append(field);
            text.append(": self.");
            text.append(field);
            match slot.storage {
                Storage::Wrapped => {
                    text.append(".clone().unwrap(),\n");
                },
                _ => {
                    text.append(".clone(),\n");
                },
            }
            text
        },
        Part::Initial => {
            let mut text = String::from_str("            ");
            text.append(field);
            match slot.storage {
                Storage::Sequence => {
                    text.append(": Vec::new(),\n");
                },
                _ => {
                    text.append(": None,\n");
                },
            }
            text
        },
    }
}

/// Writes the pieces of all slots at a part, in declaration order.
pub fn emit_section(part: Part, slots: &Vec<Slot>) -> (text: String)
    ensures
        text@ == section(part, slots@.map_values(|s: Slot| s@)),
{
    let ghost pieces = slots@.map_values(|s: Slot| s@).map_values(|s: SlotModel| piece(part, s));
    let mut text = String::new();
    let mut at: usize = 0;
    while at < slots.len()
        invariant
            at <= slots.len(),
            pieces == slots@.map_values(|s: Slot| s@).map_values(|s: SlotModel| piece(part, s)),
            text@ == joined(pieces.take(at as int)),
        decreases slots.len() - at,
    {
        let next = emit_piece(part, &slots[at]);
        proof {
            joined_step(pieces, at as int);
        }
        text.append(next.as_str());
        at += 1;
    }
    assert(pieces.take(slots.len() as int) =~= pieces);
    text
}

/// The code emitter: writes the generated definitions of a schema.
pub fn emit(schema: &BuilderDescriptor) -> (text: String)
    ensures
        text@ == generated(schema@),
{
    let name = schema.name.as_str();
    let subject = schema.subject.as_str();
    let mut text = String::from_str("pub struct ");
    text.append(name);
    text.append(" {\n");
    text.append(emit_section(Part::Slot, &schema.slots).as_str());
    text.append("}\n\nimpl ");
    text.append(name);
    text.append(" {\n");
    text.append(emit_section(Part::Setter, &schema.slots).as_str());
    text.append("    pub fn build(&mut self) -> Result<");
    text.append(subject);
    text.append(", Box<dyn ::std::error::Error>> {\n");
    text.append(emit_section(Part::Check, &schema.slots).as_str());
    text.append("        return Ok(");
    text.append(subject);
    text.append(" {\n");
    text.append(emit_section(Part::Assembly, &schema.slots).as_str());
    text.append("        });\n    }\n}\n\nimpl ");
    text.append(subject);
    text.append(" {\n    pub fn builder() -> ");
    text.append(name);
    text.append(" {\n        ");
    text.append(name);
    text.append(" {\n");
    text.append(emit_section(Part::Initial, &schema.slots).as_str());
    text.append("        }\n    }\n}\n");
    text
}

} // verus!
