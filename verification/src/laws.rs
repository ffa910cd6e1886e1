//! What holds of every builder, proved over the models of the engine.
//!
//! A run of a builder is a sequence of setter calls. The laws say what each
//! entry holds after a run, and what `build` then returns.

use vstd::prelude::*;
use crate::engine::{
    after_set, assembled, build_outcome, entry_after, field_of, first_missing, fresh,
    initial_entry, is_missing, ready, resolve, BuildErrorModel, BuilderModel, ContentModel,
    EntryModel, FieldModel, FieldValueModel, RecordModel,
};
use crate::classify::{
    field_analyses, field_analysis, reading_at, sole_argument, ClassificationModel,
    FieldDescriptorModel, TypeDescriptorModel,
};
use crate::diagnostic::DiagnosticModel;
use crate::directive::pending_literal;
use crate::schema::{FieldDefinitionModel, TypeDefinitionModel};
use crate::schema_for;
use crate::synthesis::{
    owner_of, schema_of, setters_distinct, slot_of, BuilderDescriptorModel, SlotModel, Storage,
};
use crate::text::{first_where_absent, first_where_found, first_where_is_least};

verus! {

/// One setter call: the setter's name and the value passed.
pub struct Call {
    pub setter: Seq<char>,
    pub value: Seq<char>,
}

/// The builder after the calls, made in order.
pub open spec fn after_calls(builder: BuilderModel, calls: Seq<Call>) -> BuilderModel
    decreases calls.len(),
{
    if calls.len() == 0 {
        builder
    } else {
        after_set(after_calls(builder, calls.drop_last()), calls.last().setter, calls.last().value)
    }
}

/// The values passed under the setter name `setter`, in call order.
pub open spec fn values_for(calls: Seq<Call>, setter: Seq<char>) -> Seq<Seq<char>> {
    calls.filter(|c: Call| c.setter == setter).map_values(|c: Call| c.value)
}

/// The last call adds its value to those of its own setter, and to no others.
proof fn values_for_last(calls: Seq<Call>, setter: Seq<char>)
    requires
        calls.len() > 0,
    ensures
        values_for(calls, setter) == if calls.last().setter == setter {
            values_for(calls.drop_last(), setter).push(calls.last().value)
        } else {
            values_for(calls.drop_last(), setter)
        },
{
    reveal_with_fuel(Seq::filter, 2);
    if calls.last().setter == setter {
        assert(values_for(calls, setter) =~= values_for(calls.drop_last(), setter).push(
            calls.last().value,
        ));
    }
}

/// The values that reach entry `at`: those of the calls whose setter name
/// addresses that entry, in call order.
pub open spec fn values_to(entries: Seq<EntryModel>, calls: Seq<Call>, at: int) -> Seq<Seq<char>> {
    calls.filter(|c: Call| resolve(entries, c.setter) == Some(at)).map_values(|c: Call| c.value)
}

/// The last call adds its value to those of the entry it addresses, and to
/// no others.
proof fn values_to_last(entries: Seq<EntryModel>, calls: Seq<Call>, at: int)
    requires
        calls.len() > 0,
    ensures
        values_to(entries, calls, at) == if resolve(entries, calls.last().setter) == Some(at) {
            values_to(entries, calls.drop_last(), at).push(calls.last().value)
        } else {
            values_to(entries, calls.drop_last(), at)
        },
{
    reveal_with_fuel(Seq::filter, 2);
    if resolve(entries, calls.last().setter) == Some(at) {
        assert(values_to(entries, calls, at) =~= values_to(entries, calls.drop_last(), at).push(
            calls.last().value,
        ));
    }
}

/// What an entry holds after its setter was called with each of `values` in
/// turn: a required or optional field holds the last, a repeated field has
/// them all appended in order.
pub open spec fn content_after_all(content: ContentModel, values: Seq<Seq<char>>) -> ContentModel {
    match content {
        ContentModel::Required(held) => ContentModel::Required(
            if values.len() == 0 {
                held
            } else {
                Some(values.last())
            },
        ),
        ContentModel::Optional(held) => ContentModel::Optional(
            if values.len() == 0 {
                held
            } else {
                Some(values.last())
            },
        ),
        ContentModel::Repeated(held) => ContentModel::Repeated(held + values),
    }
}

/// Whether the setter of entry `at` reaches it: no entry before it has a
/// setter of the same name.
pub open spec fn reaches(entries: Seq<EntryModel>, at: int) -> bool {
    0 <= at < entries.len() && resolve(entries, entries[at].setter) == Some(at)
}

/// Whether two contents are of the same class.
pub open spec fn same_class(left: ContentModel, right: ContentModel) -> bool {
    match left {
        ContentModel::Required(_) => right is Required,
        ContentModel::Optional(_) => right is Optional,
        ContentModel::Repeated(_) => right is Repeated,
    }
}

/// Whether two builders have the same entries but for what they hold.
pub open spec fn same_layout(left: BuilderModel, right: BuilderModel) -> bool {
    &&& left.subject == right.subject
    &&& left.entries.len() == right.entries.len()
    &&& forall|j: int|
        0 <= j < left.entries.len() ==> {
            &&& (#[trigger] left.entries[j]).field == right.entries[j].field
            &&& left.entries[j].setter == right.entries[j].setter
            &&& same_class(left.entries[j].content, right.entries[j].content)
        }
}

/// Builders of the same layout resolve every setter name alike.
pub proof fn same_layout_resolves_alike(left: BuilderModel, right: BuilderModel, setter: Seq<char>)
    requires
        same_layout(left, right),
    ensures
        resolve(left.entries, setter) == resolve(right.entries, setter),
{
    let wanted = |e: EntryModel| e.setter == setter;
    first_where_is_least(left.entries, wanted);
    match resolve(left.entries, setter) {
        Some(at) => {
            assert forall|j: int| 0 <= j < at implies !wanted(#[trigger] right.entries[j]) by {
                assert(!wanted(left.entries[j]));
            }
            first_where_found(right.entries, wanted, at);
        },
        None => {
            assert forall|j: int| 0 <= j < right.entries.len() implies !wanted(
                #[trigger] right.entries[j],
            ) by {
                assert(!wanted(left.entries[j]));
            }
            first_where_absent(right.entries, wanted);
        },
    }
}

/// A setter call changes what one entry holds, and nothing else: the layout
/// stays, and every entry but the one addressed stays as it was.
pub proof fn set_changes_one_entry(builder: BuilderModel, setter: Seq<char>, value: Seq<char>)
    ensures
        same_layout(builder, after_set(builder, setter, value)),
        forall|j: int|
            0 <= j < builder.entries.len() && resolve(builder.entries, setter) != Some(j)
                ==> #[trigger] after_set(builder, setter, value).entries[j] == builder.entries[j],
        resolve(builder.entries, setter) matches Some(at) ==> after_set(
            builder,
            setter,
            value,
        ).entries[at] == entry_after(builder.entries[at], value),
{
    first_where_is_least(builder.entries, |e: EntryModel| e.setter == setter);
}

/// A run of calls keeps the layout of the builder.
pub proof fn calls_keep_layout(builder: BuilderModel, calls: Seq<Call>)
    ensures
        same_layout(builder, after_calls(builder, calls)),
    decreases calls.len(),
{
    if calls.len() > 0 {
        let before = after_calls(builder, calls.drop_last());
        calls_keep_layout(builder, calls.drop_last());
        set_changes_one_entry(before, calls.last().setter, calls.last().value);
    }
}

/// The state machine of one entry: after any run of calls, an entry holds what
/// the calls that reach it, in call order, made of what it held before. For a
/// required or optional field the last write wins; the appends of a repeated
/// field accumulate in call order; an entry that no call reaches stays as it
/// was.
pub proof fn entry_after_calls(builder: BuilderModel, calls: Seq<Call>, at: int)
    requires
        0 <= at < builder.entries.len(),
    ensures
        after_calls(builder, calls).entries.len() == builder.entries.len(),
        after_calls(builder, calls).entries[at] == (EntryModel {
            content: content_after_all(
                builder.entries[at].content,
                values_to(builder.entries, calls, at),
            ),
            ..builder.entries[at]
        }),
    decreases calls.len(),
{
    calls_keep_layout(builder, calls);
    if calls.len() == 0 {
        assert(values_to(builder.entries, calls, at) =~= Seq::<Seq<char>>::empty());
        assert(builder.entries[at].content matches ContentModel::Repeated(held) ==> held
            + Seq::<Seq<char>>::empty() =~= held);
    } else {
        let earlier = calls.drop_last();
        let last = calls.last();
        values_to_last(builder.entries, calls, at);
        let before = after_calls(builder, earlier);
        entry_after_calls(builder, earlier, at);
        calls_keep_layout(builder, earlier);
        same_layout_resolves_alike(builder, before, last.setter);
        set_changes_one_entry(before, last.setter, last.value);
        if resolve(builder.entries, last.setter) == Some(at) {
            assert(builder.entries[at].content matches ContentModel::Repeated(held) ==> (held
                + values_to(builder.entries, earlier, at)).push(last.value) =~= held + values_to(
                builder.entries,
                calls,
                at,
            ));
        }
    }
}

/// Where the setter of an entry reaches it, the values that reach the entry
/// are those of the calls of that name.
pub proof fn reached_by_name(entries: Seq<EntryModel>, calls: Seq<Call>, at: int)
    requires
        reaches(entries, at),
    ensures
        values_to(entries, calls, at) == values_for(calls, entries[at].setter),
    decreases calls.len(),
{
    if calls.len() == 0 {
        assert(values_to(entries, calls, at) =~= values_for(calls, entries[at].setter));
    } else {
        reached_by_name(entries, calls.drop_last(), at);
        values_to_last(entries, calls, at);
        values_for_last(calls, entries[at].setter);
        first_where_is_least(entries, |e: EntryModel| e.setter == calls.last().setter);
    }
}

/// In a builder of a schema whose setters are distinct, each field receives
/// the values of the calls of its own setter's name, all of them and no
/// others.
pub proof fn distinct_setters_receive_by_name(
    schema: BuilderDescriptorModel,
    calls: Seq<Call>,
    at: int,
)
    requires
        setters_distinct(schema.slots),
        0 <= at < schema.slots.len(),
    ensures
        values_to(fresh(schema).entries, calls, at) == values_for(calls, schema.slots[at].setter),
{
    let entries = fresh(schema).entries;
    let wanted = |e: EntryModel| e.setter == schema.slots[at].setter;
    first_where_is_least(schema.slots, |s: SlotModel| s.setter == schema.slots[at].setter);
    assert(owner_of(schema.slots, schema.slots[at].setter) == Some(at));
    assert forall|j: int| 0 <= j < at implies !wanted(#[trigger] entries[j]) by {
        assert(entries[j] == initial_entry(schema.slots[j]));
    }
    assert(entries[at] == initial_entry(schema.slots[at]));
    first_where_found(entries, wanted, at);
    reached_by_name(entries, calls, at);
}

/// A fresh builder fails to build wherever the schema has a required slot,
/// and the error names the required field declared first.
pub proof fn fresh_builder_names_first_required(schema: BuilderDescriptorModel, at: int)
    requires
        0 <= at < schema.slots.len(),
        schema.slots[at].storage == Storage::Wrapped,
        forall|j: int| 0 <= j < at ==> (#[trigger] schema.slots[j]).storage != Storage::Wrapped,
    ensures
        build_outcome(fresh(schema)) == Err::<RecordModel, BuildErrorModel>(
            BuildErrorModel::MissingField { field: schema.slots[at].field },
        ),
{
    let wanted = |e: EntryModel| is_missing(e);
    assert forall|j: int| 0 <= j < at implies !wanted(#[trigger] fresh(schema).entries[j]) by {
        assert(schema.slots[j].storage != Storage::Wrapped);
    }
    first_where_found(fresh(schema).entries, wanted, at);
}

/// For a type whose fields are all required, and which has at least one, a
/// freshly constructed builder fails to build, and the error names the field
/// declared first.
pub proof fn all_required_fresh_build_fails(subject: TypeDescriptorModel)
    requires
        subject.fields.len() > 0,
        forall|i: int| 0 <= i < subject.fields.len() ==> (#[trigger] subject.fields[i]).class
            is Required,
    ensures
        build_outcome(fresh(schema_of(subject))) == Err::<RecordModel, BuildErrorModel>(
            BuildErrorModel::MissingField { field: subject.fields[0].name },
        ),
{
    assert(subject.fields[0].class is Required);
    fresh_builder_names_first_required(schema_of(subject), 0);
}

/// One slot per field: the schema of a definition has as many slots as the
/// definition has fields, slot `i` stands for field `i`, and its storage is
/// that of the field's one class. This holds whatever was read in the
/// literals.
pub proof fn slots_match_fields(definition: TypeDefinitionModel, readings: Seq<Option<Seq<char>>>)
    requires
        schema_for(definition, readings) is Ok,
    ensures
        schema_for(definition, readings)->Ok_0.slots.len() == definition.fields.len(),
        forall|i: int|
            0 <= i < definition.fields.len() ==> {
                let slot = #[trigger] schema_for(definition, readings)->Ok_0.slots[i];
                &&& field_analysis(definition.fields[i], reading_at(readings, i)) matches Ok(field)
                &&& slot.field == definition.fields[i].name
                &&& slot == slot_of(field)
            },
{
    let analyses = field_analyses(definition.fields, readings);
    first_where_is_least(analyses, |a: Result<FieldDescriptorModel, DiagnosticModel>| a is Err);
    assert forall|i: int| 0 <= i < definition.fields.len() implies (#[trigger] analyses[i])
        is Ok by {}
}

/// A field is repeated only where a directive matched and its declared type
/// is a container of one type argument; the element type is that argument and
/// the alias is what was read in the directive's literal.
pub proof fn repeated_needs_directive_and_container(
    field: FieldDefinitionModel,
    reading: Option<Seq<char>>,
)
    requires
        field_analysis(field, reading) matches Ok(found) && found.class is Repeated,
    ensures
        pending_literal(field) is Some,
        reading matches Some(alias) && sole_argument(field.declared) matches Some(element)
            && field_analysis(field, reading)->Ok_0.class == (ClassificationModel::Repeated {
            element,
            alias,
        }),
{
}

/// The entries of a fresh builder are the initial entries of the slots.
proof fn fresh_entries(schema: BuilderDescriptorModel)
    ensures
        fresh(schema).entries.len() == schema.slots.len(),
        forall|i: int|
            0 <= i < schema.slots.len() ==> #[trigger] fresh(schema).entries[i] == initial_entry(
                schema.slots[i],
            ),
{
}

/// A setter call never takes a value away: a builder that is ready stays
/// ready after any setter call.
pub proof fn set_keeps_ready(builder: BuilderModel, setter: Seq<char>, value: Seq<char>)
    requires
        ready(builder),
    ensures
        ready(after_set(builder, setter, value)),
{
    let wanted = |e: EntryModel| is_missing(e);
    let after = after_set(builder, setter, value);
    first_where_is_least(builder.entries, wanted);
    set_changes_one_entry(builder, setter, value);
    assert forall|j: int| 0 <= j < after.entries.len() implies !wanted(
        #[trigger] after.entries[j],
    ) by {
        assert(!wanted(builder.entries[j]));
    }
    first_where_absent(after.entries, wanted);
}

/// The setter of an optional or a repeated field never decides a build: after
/// a call of it, `build` succeeds if it succeeded before, and else names the
/// same missing field.
pub proof fn unrequired_setter_keeps_first_missing(
    builder: BuilderModel,
    setter: Seq<char>,
    value: Seq<char>,
)
    requires
        resolve(builder.entries, setter) matches Some(at) && !(builder.entries[at].content
            is Required),
    ensures
        first_missing(after_set(builder, setter, value)) == first_missing(builder),
        build_outcome(after_set(builder, setter, value)) is Ok <==> build_outcome(builder) is Ok,
        build_outcome(builder) is Err ==> build_outcome(after_set(builder, setter, value))
            == build_outcome(builder),
{
    let wanted = |e: EntryModel| is_missing(e);
    let after = after_set(builder, setter, value);
    first_where_is_least(builder.entries, wanted);
    first_where_is_least(builder.entries, |e: EntryModel| e.setter == setter);
    set_changes_one_entry(builder, setter, value);
    assert forall|j: int| 0 <= j < after.entries.len() implies wanted(#[trigger] after.entries[j])
        == wanted(builder.entries[j]) by {}
    match first_missing(builder) {
        Some(at) => {
            assert forall|j: int| 0 <= j < at implies !wanted(#[trigger] after.entries[j]) by {
                assert(!wanted(builder.entries[j]));
            }
            assert(wanted(builder.entries[at]));
            first_where_found(after.entries, wanted, at);
        },
        None => {
            assert forall|j: int| 0 <= j < after.entries.len() implies !wanted(
                #[trigger] after.entries[j],
            ) by {
                assert(!wanted(builder.entries[j]));
            }
            first_where_absent(after.entries, wanted);
        },
    }
}

/// When a run leaves a fresh builder ready: exactly when every required
/// field was reached by a call at least once. Calls that reach other fields,
/// however many, play no part.
pub proof fn ready_after_calls(schema: BuilderDescriptorModel, calls: Seq<Call>)
    ensures
        ready(after_calls(fresh(schema), calls)) <==> (forall|i: int|
            0 <= i < schema.slots.len() && (#[trigger] schema.slots[i]).storage == Storage::Wrapped
                ==> values_to(fresh(schema).entries, calls, i).len() > 0),
{
    let wanted = |e: EntryModel| is_missing(e);
    let start = fresh(schema);
    let end = after_calls(start, calls);
    fresh_entries(schema);
    calls_keep_layout(start, calls);
    first_where_is_least(end.entries, wanted);
    assert forall|i: int| 0 <= i < schema.slots.len() implies (wanted(#[trigger] end.entries[i])
        <==> schema.slots[i].storage == Storage::Wrapped && values_to(
        start.entries,
        calls,
        i,
    ).len() == 0) by {
        assert(start.entries[i] == initial_entry(schema.slots[i]));
        entry_after_calls(start, calls, i);
    }
    if ready(end) {
        assert forall|i: int|
            0 <= i < schema.slots.len() && (#[trigger] schema.slots[i]).storage
                == Storage::Wrapped implies values_to(start.entries, calls, i).len() > 0 by {
            assert(!wanted(end.entries[i]));
        }
    } else {
        let at = first_missing(end)->0;
        assert(wanted(end.entries[at]));
        assert(schema.slots[at].storage == Storage::Wrapped);
    }
}

/// Calling the setter of every required field once, and any other setters,
/// then building, succeeds, and each required field of the record equals the
/// value passed to its setter. A call is of a field's setter where its name
/// addresses that field.
pub proof fn required_setters_then_build(schema: BuilderDescriptorModel, calls: Seq<Call>)
    requires
        forall|i: int|
            0 <= i < schema.slots.len() && (#[trigger] schema.slots[i]).storage == Storage::Wrapped
                ==> values_to(fresh(schema).entries, calls, i).len() == 1,
    ensures
        build_outcome(after_calls(fresh(schema), calls)) matches Ok(record) && record.fields.len()
            == schema.slots.len() && (forall|i: int|
            0 <= i < schema.slots.len() && (#[trigger] schema.slots[i]).storage == Storage::Wrapped
                ==> record.fields[i] == (FieldModel {
                name: schema.slots[i].field,
                value: FieldValueModel::Required(values_to(fresh(schema).entries, calls, i)[0]),
            })),
{
    let start = fresh(schema);
    let end = after_calls(start, calls);
    fresh_entries(schema);
    calls_keep_layout(start, calls);
    ready_after_calls(schema, calls);
    assert(ready(end));
    assert forall|i: int|
        0 <= i < schema.slots.len() && (#[trigger] schema.slots[i]).storage
            == Storage::Wrapped implies assembled(end).fields[i] == (FieldModel {
        name: schema.slots[i].field,
        value: FieldValueModel::Required(values_to(start.entries, calls, i)[0]),
    }) by {
        assert(start.entries[i] == initial_entry(schema.slots[i]));
        entry_after_calls(start, calls, i);
    }
}

/// An optional field of a built record is absent where no call reached it,
/// and else holds the value of the last call that did.
pub proof fn optional_field_after_calls(schema: BuilderDescriptorModel, calls: Seq<Call>, at: int)
    requires
        0 <= at < schema.slots.len(),
        schema.slots[at].storage == Storage::Declared,
    ensures
        build_outcome(after_calls(fresh(schema), calls)) matches Ok(record) ==> record.fields[at]
            == (FieldModel {
            name: schema.slots[at].field,
            value: FieldValueModel::Optional(
                if values_to(fresh(schema).entries, calls, at).len() == 0 {
                    None
                } else {
                    Some(values_to(fresh(schema).entries, calls, at).last())
                },
            ),
        }),
{
    let start = fresh(schema);
    fresh_entries(schema);
    assert(start.entries[at] == initial_entry(schema.slots[at]));
    entry_after_calls(start, calls, at);
}

/// A repeated field of a built record holds the values of the calls that
/// reached it, all of them and in call order; none, where no call did.
pub proof fn repeated_field_after_calls(schema: BuilderDescriptorModel, calls: Seq<Call>, at: int)
    requires
        0 <= at < schema.slots.len(),
        schema.slots[at].storage == Storage::Sequence,
    ensures
        build_outcome(after_calls(fresh(schema), calls)) matches Ok(record) ==> record.fields[at]
            == (FieldModel {
            name: schema.slots[at].field,
            value: FieldValueModel::Repeated(values_to(fresh(schema).entries, calls, at)),
        }),
{
    let start = fresh(schema);
    fresh_entries(schema);
    assert(start.entries[at] == initial_entry(schema.slots[at]));
    entry_after_calls(start, calls, at);
    assert(Seq::<Seq<char>>::empty() + values_to(start.entries, calls, at) =~= values_to(
        start.entries,
        calls,
        at,
    ));
}

/// After a successful build, a further setter call leaves the builder ready,
/// and the record built next differs from the record built before in the one
/// field that the setter addresses, where it holds what the call made of it.
/// The record built before is a value of its own, which no call changes.
pub proof fn build_after_later_set(builder: BuilderModel, setter: Seq<char>, value: Seq<char>)
    requires
        build_outcome(builder) is Ok,
    ensures
        build_outcome(after_set(builder, setter, value)) matches Ok(later) && {
            let earlier = build_outcome(builder)->Ok_0;
            &&& later.subject == earlier.subject
            &&& later.fields.len() == earlier.fields.len()
            &&& forall|j: int|
                0 <= j < earlier.fields.len() && resolve(builder.entries, setter) != Some(j)
                    ==> #[trigger] later.fields[j] == earlier.fields[j]
            &&& resolve(builder.entries, setter) matches Some(at) ==> later.fields[at] == field_of(
                entry_after(builder.entries[at], value),
            )
        },
{
    set_keeps_ready(builder, setter, value);
    set_changes_one_entry(builder, setter, value);
    first_where_is_least(builder.entries, |e: EntryModel| e.setter == setter);
}

} // verus!
