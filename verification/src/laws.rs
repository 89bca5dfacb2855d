//! What holds of every generated builder.
//!
//! The laws are stated over the analysed fields of a record and over any
//! sequence of accessor calls. None of them asks anything of the fields but
//! that a per-element accessor is only asked of a repeated field, which the
//! analysis of a record guarantees.

use vstd::prelude::*;
use crate::annotation::interpretation;
use crate::classify::{classification, Shape};
use crate::derive::{field_items, items_upto, Item};
use crate::machine::{
    after_build, build, collected, first_missing, fresh, missing, run, step, stored, Argument,
    Call, FieldValue, Slot,
};
use crate::plan::{analysis, field_failure, field_plan, first_failure, FieldPlan};
use crate::scheme::{code_of, program_of, Action, FieldCode, Finish, Initial, Storage};
use crate::syntax::{FieldDescriptor, Fields};

verus! {

/// Every field of the record asks for a per-element accessor only if it is
/// repeated.
pub open spec fn consistent(fields: Seq<FieldPlan>) -> bool {
    forall|i: int| 0 <= i < fields.len() ==> (#[trigger] fields[i]).consistent()
}

/// The slot of the field starts absent and every accessor of the field
/// stores a value in it.
pub open spec fn stores_only(code: FieldCode) -> bool {
    &&& code.initial == Initial::Absent
    &&& forall|m: int| 0 <= m < code.methods.len() ==> (#[trigger] code.methods[m]).action
        == Action::Store
}

/// The slot of the field starts empty, every accessor of the field replaces
/// or extends the collection in it, and the finalizer takes the collection
/// as it is.
pub open spec fn collects_only(code: FieldCode) -> bool {
    &&& code.initial == Initial::Empty
    &&& code.finish == Finish::AsIs
    &&& forall|m: int| 0 <= m < code.methods.len() ==> (#[trigger] code.methods[m]).action
        != Action::Store
}

/// `values.len()` calls in a row of the method at `method` of the field at
/// `field`, one for each of the values.
pub open spec fn calls_with<V>(field: int, method: int, values: Seq<V>) -> Seq<Call<V>> {
    Seq::new(
        values.len(),
        |k: int| Call { field, method, argument: Argument::One(values[k]) },
    )
}

/// The four passes agree on every field: what the initializer puts into the
/// slot is what the accessors expect to find and what the finalizer expects
/// to read, and the finalizer unwraps exactly the fields that the builder
/// type wraps, which are the plain ones.
pub proof fn law_passes_agree(field: FieldPlan)
    requires
        field.consistent(),
    ensures
        field.shape == Shape::Repeated ==> collects_only(code_of(field)),
        field.shape != Shape::Repeated ==> stores_only(code_of(field)),
        code_of(field).finish == Finish::Required <==> field.shape == Shape::Plain,
        code_of(field).finish == Finish::Required <==> code_of(field).storage == Storage::Wrapped,
{
}

/// The analysis of a record lets through only fields that ask for a
/// per-element accessor where it can be had.
pub proof fn law_analysis_is_consistent(target: Seq<char>, input: &Fields)
    requires
        analysis(target, input) is Ok,
    ensures
        consistent(analysis(target, input)->Ok_0.fields),
{
    let fields = input->Named_0@;
    let plans = analysis(target, input)->Ok_0.fields;
    assert forall|i: int| 0 <= i < plans.len() implies (#[trigger] plans[i]).consistent() by {
        lemma_no_failure(fields, 0, i);
    }
}

/// Where no field from `start` on has anything wrong with it, none has.
proof fn lemma_no_failure(fields: Seq<FieldDescriptor>, start: int, i: int)
    requires
        0 <= start <= i < fields.len(),
        first_failure(fields, start) is None,
    ensures
        field_failure(&fields[i], i) is None,
    decreases i - start,
{
    if start < i {
        lemma_no_failure(fields, start + 1, i);
    }
}

/// A call changes the slot of the field it names and no other.
pub proof fn law_calls_change_own_field_only<V>(
    program: Seq<FieldCode>,
    state: Seq<Slot<V>>,
    call: Call<V>,
    i: int,
)
    requires
        0 <= i < state.len(),
        call.field != i,
    ensures
        step(program, state, call).len() == state.len(),
        step(program, state, call)[i] == state[i],
{
}

/// After any calls, the slot of a field whose accessors only store holds
/// the value stored last, or nothing if none was stored.
pub proof fn law_single_slot<V>(program: Seq<FieldCode>, calls: Seq<Call<V>>, i: int)
    requires
        0 <= i < program.len(),
        stores_only(program[i]),
    ensures
        run(program, fresh(program), calls).len() == program.len(),
        run(program, fresh(program), calls)[i] == Slot::Single(stored(program, calls, i)),
    decreases calls.len(),
{
    if calls.len() > 0 {
        law_single_slot(program, calls.drop_last(), i);
    }
}

/// After any calls, the slot of a field whose accessors only replace and
/// append holds the collection that those calls put together.
pub proof fn law_many_slot<V>(program: Seq<FieldCode>, calls: Seq<Call<V>>, i: int)
    requires
        0 <= i < program.len(),
        collects_only(program[i]),
    ensures
        run(program, fresh(program), calls).len() == program.len(),
        run(program, fresh(program), calls)[i] == Slot::Many(collected(program, calls, i)),
    decreases calls.len(),
{
    if calls.len() > 0 {
        law_many_slot(program, calls.drop_last(), i);
    }
}

/// The finalizer fails on the first field that is missing and on no other.
pub proof fn law_first_missing<V>(program: Seq<FieldCode>, state: Seq<Slot<V>>, start: int)
    requires
        0 <= start,
    ensures
        match first_missing(program, state, start) {
            Some(i) => start <= i < program.len() && missing(program, state, i) && forall|j: int|
                start <= j < i ==> !missing(program, state, j),
            None => forall|j: int| start <= j < program.len() ==> !missing(program, state, j),
        },
    decreases program.len() - start,
{
    if start < program.len() && !missing(program, state, start) {
        law_first_missing(program, state, start + 1);
    }
}

/// A record of plain fields comes back as it was given: once every field
/// has been set, in whatever order and however often, the build succeeds and
/// every field of the record holds the value that was set last.
pub proof fn law_plain_record_round_trip<V>(fields: Seq<FieldPlan>, calls: Seq<Call<V>>)
    requires
        consistent(fields),
        forall|i: int| 0 <= i < fields.len() ==> (#[trigger] fields[i]).shape == Shape::Plain,
        forall|i: int|
            0 <= i < fields.len() ==> (#[trigger] stored(program_of(fields), calls, i)) is Some,
    ensures
        build(program_of(fields), run(program_of(fields), fresh(program_of(fields)), calls)) == Ok::<
            Seq<FieldValue<V>>,
            int,
        >(
            Seq::new(
                fields.len(),
                |i: int| FieldValue::Plain(stored(program_of(fields), calls, i)->0),
            ),
        ),
{
    let program = program_of(fields);
    let state = run(program, fresh(program), calls);
    assert forall|i: int| 0 <= i < fields.len() implies state[i] == Slot::Single(
        stored(program, calls, i),
    ) && program[i].finish == Finish::Required by {
        law_passes_agree(fields[i]);
        law_single_slot(program, calls, i);
    }
    law_first_missing(program, state, 0);
    assert(build(program, state)->Ok_0 =~= Seq::new(
        fields.len(),
        |i: int| FieldValue::Plain(stored(program, calls, i)->0),
    ));
}

/// Setting every field of a record of plain fields once, in declaration
/// order, and building gives the record of the values that were set.
pub proof fn law_set_all_then_build<V>(fields: Seq<FieldPlan>, values: Seq<V>)
    requires
        values.len() == fields.len(),
        forall|i: int|
            0 <= i < fields.len() ==> (#[trigger] fields[i]).shape == Shape::Plain
                && fields[i].custom is Absent,
    ensures
        build(
            program_of(fields),
            run(
                program_of(fields),
                fresh(program_of(fields)),
                Seq::new(
                    values.len(),
                    |i: int| Call { field: i, method: 0, argument: Argument::One(values[i]) },
                ),
            ),
        ) == Ok::<Seq<FieldValue<V>>, int>(
            Seq::new(values.len(), |i: int| FieldValue::Plain(values[i])),
        ),
{
    let program = program_of(fields);
    let calls = Seq::new(
        values.len(),
        |i: int| Call { field: i, method: 0, argument: Argument::One(values[i]) },
    );
    assert forall|i: int| 0 <= i < fields.len() implies stored(program, calls, i) == Some(
        values[i],
    ) by {
        lemma_stored_in_order(fields, values, calls.len() as int, i);
        assert(calls.take(calls.len() as int) =~= calls);
    }
    law_plain_record_round_trip(fields, calls);
    assert(Seq::new(fields.len(), |i: int| FieldValue::Plain(stored(program, calls, i)->0))
        =~= Seq::new(values.len(), |i: int| FieldValue::Plain(values[i])));
}

/// After the first `n` setters have been called in declaration order, the
/// field at `i` holds its value if `i < n` and nothing otherwise.
proof fn lemma_stored_in_order<V>(fields: Seq<FieldPlan>, values: Seq<V>, n: int, i: int)
    requires
        values.len() == fields.len(),
        0 <= n <= values.len(),
        0 <= i < fields.len(),
        forall|i: int|
            0 <= i < fields.len() ==> (#[trigger] fields[i]).shape == Shape::Plain
                && fields[i].custom is Absent,
    ensures
        stored(
            program_of(fields),
            Seq::new(
                values.len(),
                |i: int| Call { field: i, method: 0, argument: Argument::One(values[i]) },
            ).take(n),
            i,
        ) == if i < n {
            Some(values[i])
        } else {
            None
        },
    decreases n,
{
    let calls = Seq::new(
        values.len(),
        |i: int| Call { field: i, method: 0, argument: Argument::One(values[i]) },
    );
    if n > 0 {
        lemma_stored_in_order(fields, values, n - 1, i);
        assert(calls.take(n).drop_last() =~= calls.take(n - 1));
    }
}

/// A build with a required field unset fails, and it fails on the earliest
/// such field: where the plain field at `i` has never been set and every
/// plain field before it has, the build reports the field at `i`.
pub proof fn law_first_unset_field_fails<V>(fields: Seq<FieldPlan>, calls: Seq<Call<V>>, i: int)
    requires
        consistent(fields),
        0 <= i < fields.len(),
        fields[i].shape == Shape::Plain,
        stored(program_of(fields), calls, i) is None,
        forall|j: int|
            0 <= j < i && (#[trigger] fields[j]).shape == Shape::Plain ==> stored(
                program_of(fields),
                calls,
                j,
            ) is Some,
    ensures
        build(program_of(fields), run(program_of(fields), fresh(program_of(fields)), calls))
            == Err::<Seq<FieldValue<V>>, int>(i),
{
    let program = program_of(fields);
    let state = run(program, fresh(program), calls);
    assert forall|j: int| 0 <= j <= i implies (#[trigger] missing(program, state, j) <==> j
        == i) by {
        law_passes_agree(fields[j]);
        if fields[j].shape == Shape::Repeated {
            law_many_slot(program, calls, j);
        } else {
            law_single_slot(program, calls, j);
        }
    }
    law_first_missing(program, state, 0);
    assert(missing(program, state, i));
}

/// A build fails only for want of a plain field: the field it reports is a
/// plain one that has never been set.
pub proof fn law_only_unset_plain_fields_fail<V>(fields: Seq<FieldPlan>, calls: Seq<Call<V>>)
    requires
        consistent(fields),
    ensures
        match build(program_of(fields), run(program_of(fields), fresh(program_of(fields)), calls)) {
            Ok(record) => record.len() == fields.len(),
            Err(i) => 0 <= i < fields.len() && fields[i].shape == Shape::Plain && stored(
                program_of(fields),
                calls,
                i,
            ) is None,
        },
{
    let program = program_of(fields);
    let state = run(program, fresh(program), calls);
    law_first_missing(program, state, 0);
    if first_missing(program, state, 0) is Some {
        let i = first_missing(program, state, 0)->0;
        law_passes_agree(fields[i]);
        if fields[i].shape == Shape::Repeated {
            law_many_slot(program, calls, i);
        } else {
            law_single_slot(program, calls, i);
        }
    }
}

/// An optional field goes into the record as it stands: absent if it has
/// never been set, and otherwise with the value that was set last.
pub proof fn law_optional_field<V>(fields: Seq<FieldPlan>, calls: Seq<Call<V>>, i: int)
    requires
        consistent(fields),
        0 <= i < fields.len(),
        fields[i].shape == Shape::Optional,
    ensures
        !missing(program_of(fields), run(program_of(fields), fresh(program_of(fields)), calls), i),
        build(program_of(fields), run(program_of(fields), fresh(program_of(fields)), calls))
            matches Ok(record) ==> record[i] == FieldValue::Optional(
            stored(program_of(fields), calls, i),
        ),
{
    let program = program_of(fields);
    law_passes_agree(fields[i]);
    law_single_slot(program, calls, i);
}

/// No accessor takes a value back: a field that has been set stays set,
/// whatever is called afterwards.
pub proof fn law_set_stays_set<V>(
    program: Seq<FieldCode>,
    calls: Seq<Call<V>>,
    more: Seq<Call<V>>,
    i: int,
)
    requires
        stored(program, calls, i) is Some,
    ensures
        stored(program, calls + more, i) is Some,
    decreases more.len(),
{
    if more.len() == 0 {
    } else {
        law_set_stays_set(program, calls, more.drop_last(), i);
        assert((calls + more).drop_last() =~= calls + more.drop_last());
    }
}

/// A repeated field goes into the record with the collection that its
/// accessors have put together, and never fails the build.
pub proof fn law_repeated_field<V>(fields: Seq<FieldPlan>, calls: Seq<Call<V>>, i: int)
    requires
        consistent(fields),
        0 <= i < fields.len(),
        fields[i].shape == Shape::Repeated,
    ensures
        !missing(program_of(fields), run(program_of(fields), fresh(program_of(fields)), calls), i),
        build(program_of(fields), run(program_of(fields), fresh(program_of(fields)), calls))
            matches Ok(record) ==> record[i] == FieldValue::Repeated(
            collected(program_of(fields), calls, i),
        ),
{
    let program = program_of(fields);
    law_passes_agree(fields[i]);
    law_many_slot(program, calls, i);
}

/// The collection of a field that no call names is empty.
pub proof fn law_untouched_collection_is_empty<V>(
    program: Seq<FieldCode>,
    calls: Seq<Call<V>>,
    i: int,
)
    requires
        forall|k: int| 0 <= k < calls.len() ==> (#[trigger] calls[k]).field != i,
    ensures
        collected(program, calls, i) == Seq::<V>::empty(),
    decreases calls.len(),
{
    if calls.len() > 0 {
        law_untouched_collection_is_empty(program, calls.drop_last(), i);
    }
}

/// Calls of a per-element accessor add their values to the collection one
/// by one, in call order, behind what the collection held before.
pub proof fn law_appends_in_call_order<V>(
    program: Seq<FieldCode>,
    calls: Seq<Call<V>>,
    i: int,
    method: int,
    values: Seq<V>,
)
    requires
        0 <= i < program.len(),
        0 <= method < program[i].methods.len(),
        program[i].methods[method].action == Action::Append,
    ensures
        collected(program, calls + calls_with(i, method, values), i) == collected(
            program,
            calls,
            i,
        ) + values,
    decreases values.len(),
{
    let appends = calls_with(i, method, values);
    if values.len() > 0 {
        law_appends_in_call_order(program, calls, i, method, values.drop_last());
        assert((calls + appends).drop_last() =~= calls + calls_with(
            i,
            method,
            values.drop_last(),
        ));
        assert(collected(program, calls, i) + values =~= (collected(program, calls, i)
            + values.drop_last()).push(values.last()));
    }
}

/// No value is stored in a field that no call names.
pub proof fn law_untouched_field_is_unset<V>(program: Seq<FieldCode>, calls: Seq<Call<V>>, i: int)
    requires
        forall|k: int| 0 <= k < calls.len() ==> (#[trigger] calls[k]).field != i,
    ensures
        stored(program, calls, i) == None::<V>,
    decreases calls.len(),
{
    if calls.len() > 0 {
        law_untouched_field_is_unset(program, calls.drop_last(), i);
    }
}

/// An optional field that no call has named is absent in the record.
pub proof fn law_unset_optional_field_is_absent<V>(
    fields: Seq<FieldPlan>,
    calls: Seq<Call<V>>,
    i: int,
)
    requires
        consistent(fields),
        0 <= i < fields.len(),
        fields[i].shape == Shape::Optional,
        forall|k: int| 0 <= k < calls.len() ==> (#[trigger] calls[k]).field != i,
    ensures
        build(program_of(fields), run(program_of(fields), fresh(program_of(fields)), calls))
            matches Ok(record) ==> record[i] == FieldValue::Optional(None::<V>),
{
    law_optional_field(fields, calls, i);
    law_untouched_field_is_unset(program_of(fields), calls, i);
}

/// A repeated field that no call has named is an empty collection in the
/// record, and does not fail the build.
pub proof fn law_untouched_repeated_field_is_empty<V>(
    fields: Seq<FieldPlan>,
    calls: Seq<Call<V>>,
    i: int,
)
    requires
        consistent(fields),
        0 <= i < fields.len(),
        fields[i].shape == Shape::Repeated,
        forall|k: int| 0 <= k < calls.len() ==> (#[trigger] calls[k]).field != i,
    ensures
        !missing(program_of(fields), run(program_of(fields), fresh(program_of(fields)), calls), i),
        build(program_of(fields), run(program_of(fields), fresh(program_of(fields)), calls))
            matches Ok(record) ==> record[i] == FieldValue::Repeated(Seq::<V>::empty()),
{
    law_repeated_field(fields, calls, i);
    law_untouched_collection_is_empty(program_of(fields), calls, i);
}

/// Calling the per-element accessor of a field once for each of `values`,
/// after calls that have not named the field, gives the record exactly
/// `values` in that field, in call order.
pub proof fn law_each_accumulates<V>(
    fields: Seq<FieldPlan>,
    before: Seq<Call<V>>,
    i: int,
    method: int,
    values: Seq<V>,
)
    requires
        consistent(fields),
        0 <= i < fields.len(),
        fields[i].shape == Shape::Repeated,
        0 <= method < program_of(fields)[i].methods.len(),
        program_of(fields)[i].methods[method].action == Action::Append,
        forall|k: int| 0 <= k < before.len() ==> (#[trigger] before[k]).field != i,
    ensures
        build(
            program_of(fields),
            run(
                program_of(fields),
                fresh(program_of(fields)),
                before + calls_with(i, method, values),
            ),
        ) matches Ok(record) ==> record[i] == FieldValue::Repeated(values),
{
    let program = program_of(fields);
    law_repeated_field(fields, before + calls_with(i, method, values), i);
    law_appends_in_call_order(program, before, i, method, values);
    law_untouched_collection_is_empty(program, before, i);
}

/// A call that names another field leaves the collection of this one as it
/// is.
pub proof fn law_other_calls_leave_collection<V>(
    program: Seq<FieldCode>,
    calls: Seq<Call<V>>,
    call: Call<V>,
    i: int,
)
    requires
        call.field != i,
    ensures
        collected(program, calls.push(call), i) == collected(program, calls, i),
        stored(program, calls.push(call), i) == stored(program, calls, i),
{
    assert(calls.push(call).drop_last() =~= calls);
}

/// The finalizer leaves the builder as the initializer made it, whether the
/// build has succeeded or failed.
pub proof fn law_build_empties_builder<V>(fields: Seq<FieldPlan>, calls: Seq<Call<V>>)
    requires
        consistent(fields),
    ensures
        after_build(run(program_of(fields), fresh(program_of(fields)), calls)) == fresh::<V>(
            program_of(fields),
        ),
{
    let program = program_of(fields);
    let state = run(program, fresh(program), calls);
    assert forall|i: int| 0 <= i < fields.len() implies #[trigger] after_build(state)[i] == fresh::<
        V,
    >(program)[i] by {
        law_passes_agree(fields[i]);
        if fields[i].shape == Shape::Repeated {
            law_many_slot(program, calls, i);
        } else {
            law_single_slot(program, calls, i);
        }
    }
    lemma_run_keeps_length(program, fresh::<V>(program), calls);
}

/// Calls neither add slots to a builder nor take any away.
proof fn lemma_run_keeps_length<V>(
    program: Seq<FieldCode>,
    state: Seq<Slot<V>>,
    calls: Seq<Call<V>>,
)
    ensures
        run(program, state, calls).len() == state.len(),
    decreases calls.len(),
{
    if calls.len() > 0 {
        lemma_run_keeps_length(program, state, calls.drop_last());
    }
}

/// A malformed request is reported and never stops generation: a field
/// whose type can be classified and whose request is malformed has nothing
/// wrong with it for the analysis, and contributes its report to the block
/// of accessors, and nothing else.
pub proof fn law_malformed_request_is_reported(field: &FieldDescriptor, index: int)
    requires
        classification(&field.declared_type) is Some,
        interpretation(field.raw_annotations@) is Malformed,
    ensures
        field_failure(field, index) is None,
        field_items(index, field_plan(field)) == seq![
            Item::CompileError {
                field: index,
                diagnostic: interpretation(field.raw_annotations@)->Malformed_0,
            },
        ],
{
}

/// What a field contributes to the block of accessors depends on that field
/// alone and stands in the block whatever the other fields are: the items of
/// the field at `j` are those between the items of the fields before it and
/// the items of the fields after it.
pub proof fn law_block_holds_items_of_each_field(fields: Seq<FieldPlan>, j: int)
    requires
        0 <= j < fields.len(),
    ensures
        items_upto(fields, j + 1).len() == items_upto(fields, j).len() + field_items(
            j,
            fields[j],
        ).len(),
        items_upto(fields, j + 1).len() <= items_upto(fields, fields.len() as int).len(),
        items_upto(fields, fields.len() as int).subrange(
            items_upto(fields, j).len() as int,
            items_upto(fields, j + 1).len() as int,
        ) == field_items(j, fields[j]),
{
    lemma_items_stay(fields, j, fields.len() as int);
}

/// The items of the field at `j` stay where they are when the items of
/// further fields are added behind them.
proof fn lemma_items_stay(fields: Seq<FieldPlan>, j: int, n: int)
    requires
        0 <= j < n <= fields.len(),
    ensures
        items_upto(fields, j + 1).len() <= items_upto(fields, n).len(),
        items_upto(fields, n).subrange(
            items_upto(fields, j).len() as int,
            items_upto(fields, j + 1).len() as int,
        ) == field_items(j, fields[j]),
    decreases n - j,
{
    let start = items_upto(fields, j).len() as int;
    let end = items_upto(fields, j + 1).len() as int;
    if n == j + 1 {
    } else {
        lemma_items_stay(fields, j, n - 1);
        assert(items_upto(fields, n).subrange(start, end) =~= items_upto(fields, n - 1).subrange(
            start,
            end,
        ));
    }
}

} // verus!
