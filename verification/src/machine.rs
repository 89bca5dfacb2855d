//! What a generated builder does when it is used, stated over the decisions
//! of the four passes.
//!
//! A builder holds one slot for each field of its record. A slot is made by
//! the initializer, changed by the field's accessors and read, and emptied,
//! by the finalizer. The values that go through the slots are of whatever
//! type the record's fields have; here they are of any type `V`.

use vstd::prelude::*;
use vstd::string::StringExecFns;
use crate::derive::missing_field_message;
use crate::plan::BuilderSpec;
use crate::scheme::{
    accessor_views, code_of, finish_for, initial_for, methods_for, program_of, Accessor, Action,
    FieldCode, Finish, Initial, Method,
};
use crate::text::str_eq;

verus! {

/// What a builder holds for one field.
pub enum Slot<V> {
    /// A value that is there or not.
    Single(Option<V>),
    /// A collection.
    Many(Seq<V>),
}

/// What an accessor is called with.
pub enum Argument<V> {
    /// One value.
    One(V),
    /// A whole collection.
    All(Seq<V>),
}

/// What a field of the finished record holds.
pub enum FieldValue<V> {
    Plain(V),
    Optional(Option<V>),
    Repeated(Seq<V>),
}

/// One call of an accessor: of the method at index `method` among those of
/// the field at index `field`.
pub struct Call<V> {
    pub field: int,
    pub method: int,
    pub argument: Argument<V>,
}

/// The slot that the initializer makes.
pub open spec fn fresh_slot<V>(initial: Initial) -> Slot<V> {
    match initial {
        Initial::Absent => Slot::Single(None),
        Initial::Empty => Slot::Many(Seq::empty()),
    }
}

/// The builder that the initializer makes.
pub open spec fn fresh<V>(program: Seq<FieldCode>) -> Seq<Slot<V>> {
    Seq::new(program.len(), |i: int| fresh_slot(program[i].initial))
}

/// The contents of a slot that holds a collection.
pub open spec fn contents<V>(slot: Slot<V>) -> Seq<V> {
    match slot {
        Slot::Many(items) => items,
        Slot::Single(_) => Seq::empty(),
    }
}

/// The slot after an accessor has run on it. An argument of the wrong form,
/// which no compiler lets through, leaves the slot as it is.
pub open spec fn act<V>(action: Action, slot: Slot<V>, argument: Argument<V>) -> Slot<V> {
    match (action, argument) {
        (Action::Store, Argument::One(value)) => Slot::Single(Some(value)),
        (Action::Replace, Argument::All(values)) => Slot::Many(values),
        (Action::Append, Argument::One(value)) => Slot::Many(contents(slot).push(value)),
        _ => slot,
    }
}

/// Whether the call names a method that the builder has.
pub open spec fn addresses<V>(program: Seq<FieldCode>, call: Call<V>) -> bool {
    0 <= call.field < program.len() && 0 <= call.method < program[call.field].methods.len()
}

/// The action of the method that a call names.
pub open spec fn action_of<V>(program: Seq<FieldCode>, call: Call<V>) -> Action {
    program[call.field].methods[call.method].action
}

/// The builder after one call. A call of a method that the builder does not
/// have changes nothing.
pub open spec fn step<V>(program: Seq<FieldCode>, state: Seq<Slot<V>>, call: Call<V>) -> Seq<
    Slot<V>,
> {
    if addresses(program, call) && call.field < state.len() {
        state.update(call.field, act(action_of(program, call), state[call.field], call.argument))
    } else {
        state
    }
}

/// The builder after a sequence of calls.
pub open spec fn run<V>(program: Seq<FieldCode>, state: Seq<Slot<V>>, calls: Seq<Call<V>>) -> Seq<
    Slot<V>,
>
    decreases calls.len(),
{
    if calls.len() == 0 {
        state
    } else {
        step(program, run(program, state, calls.drop_last()), calls.last())
    }
}

/// The slot that the finalizer leaves behind.
pub open spec fn emptied<V>(slot: Slot<V>) -> Slot<V> {
    match slot {
        Slot::Single(_) => Slot::Single(None),
        Slot::Many(_) => Slot::Many(Seq::empty()),
    }
}

/// What the finalizer reads out of a slot, or `None` where a required value
/// is not there.
pub open spec fn read<V>(finish: Finish, slot: Slot<V>) -> Option<FieldValue<V>> {
    match (finish, slot) {
        (Finish::Required, Slot::Single(Some(value))) => Some(FieldValue::Plain(value)),
        (Finish::Required, _) => None,
        (Finish::AsIs, Slot::Single(value)) => Some(FieldValue::Optional(value)),
        (Finish::AsIs, Slot::Many(items)) => Some(FieldValue::Repeated(items)),
    }
}

/// Whether the field at `i` fails the build.
pub open spec fn missing<V>(program: Seq<FieldCode>, state: Seq<Slot<V>>, i: int) -> bool {
    read(program[i].finish, state[i]) is None
}

/// The first field from `start` on that fails the build.
pub open spec fn first_missing<V>(program: Seq<FieldCode>, state: Seq<Slot<V>>, start: int)
    -> Option<int>
    decreases program.len() - start,
{
    if start < 0 || start >= program.len() {
        None
    } else if missing(program, state, start) {
        Some(start)
    } else {
        first_missing(program, state, start + 1)
    }
}

/// What the finalizer returns: the record, or the index of the first
/// required field that was not given.
pub open spec fn build<V>(program: Seq<FieldCode>, state: Seq<Slot<V>>) -> Result<
    Seq<FieldValue<V>>,
    int,
> {
    match first_missing(program, state, 0) {
        Some(i) => Err(i),
        None => Ok(Seq::new(program.len(), |i: int| read(program[i].finish, state[i])->0)),
    }
}

/// The builder after the finalizer has run, whatever it returned.
pub open spec fn after_build<V>(state: Seq<Slot<V>>) -> Seq<Slot<V>> {
    Seq::new(state.len(), |i: int| emptied(state[i]))
}

/// The value that the calls have stored last in the field at `i`.
pub open spec fn stored<V>(program: Seq<FieldCode>, calls: Seq<Call<V>>, i: int) -> Option<V>
    decreases calls.len(),
{
    if calls.len() == 0 {
        None
    } else {
        let call = calls.last();
        if call.field == i && addresses(program, call) && action_of(program, call) == Action::Store
            && call.argument is One {
            Some(call.argument->One_0)
        } else {
            stored(program, calls.drop_last(), i)
        }
    }
}

/// The collection that the calls have put together in the field at `i`.
pub open spec fn collected<V>(program: Seq<FieldCode>, calls: Seq<Call<V>>, i: int) -> Seq<V>
    decreases calls.len(),
{
    if calls.len() == 0 {
        Seq::empty()
    } else {
        let call = calls.last();
        let before = collected(program, calls.drop_last(), i);
        if call.field == i && addresses(program, call) {
            match (action_of(program, call), call.argument) {
                (Action::Replace, Argument::All(values)) => values,
                (Action::Append, Argument::One(value)) => before.push(value),
                _ => before,
            }
        } else {
            before
        }
    }
}

/// Index of the first method from `start` on that is called `name`.
pub open spec fn method_named(methods: Seq<Method>, name: Seq<char>, start: int) -> Option<int>
    decreases methods.len() - start,
{
    if start < 0 || start >= methods.len() {
        None
    } else if methods[start].name == name {
        Some(start)
    } else {
        method_named(methods, name, start + 1)
    }
}

/// The first method called `name` of the first field from `start` on that
/// has one: the field's index and the method's index among the field's.
pub open spec fn lookup(program: Seq<FieldCode>, name: Seq<char>, start: int) -> Option<
    (int, int),
>
    decreases program.len() - start,
{
    if start < 0 || start >= program.len() {
        None
    } else {
        match method_named(program[start].methods, name, 0) {
            Some(method) => Some((start, method)),
            None => lookup(program, name, start + 1),
        }
    }
}

/// What a builder holds for one field.
#[derive(Debug, PartialEq, Eq)]
pub enum Cell<V> {
    Single(Option<V>),
    Many(Vec<V>),
}

impl<V> View for Cell<V> {
    type V = Slot<V>;

    open spec fn view(&self) -> Slot<V> {
        match *self {
            Cell::Single(value) => Slot::Single(value),
            Cell::Many(items) => Slot::Many(items@),
        }
    }
}

/// What an accessor is called with.
#[derive(Debug, PartialEq, Eq)]
pub enum Input<V> {
    One(V),
    All(Vec<V>),
}

impl<V> View for Input<V> {
    type V = Argument<V>;

    open spec fn view(&self) -> Argument<V> {
        match *self {
            Input::One(value) => Argument::One(value),
            Input::All(values) => Argument::All(values@),
        }
    }
}

/// What a field of the finished record holds.
#[derive(Debug, PartialEq, Eq)]
pub enum Output<V> {
    Plain(V),
    Optional(Option<V>),
    Repeated(Vec<V>),
}

impl<V> View for Output<V> {
    type V = FieldValue<V>;

    open spec fn view(&self) -> FieldValue<V> {
        match *self {
            Output::Plain(value) => FieldValue::Plain(value),
            Output::Optional(value) => FieldValue::Optional(value),
            Output::Repeated(items) => FieldValue::Repeated(items@),
        }
    }
}

/// A builder in use.
#[derive(Debug, PartialEq, Eq)]
pub struct Builder<V> {
    pub slots: Vec<Cell<V>>,
}

impl<V> View for Builder<V> {
    type V = Seq<Slot<V>>;

    open spec fn view(&self) -> Seq<Slot<V>> {
        self.slots@.map_values(|cell: Cell<V>| cell@)
    }
}

/// A failed build.
#[derive(Debug, PartialEq, Eq)]
pub struct BuildError {
    /// Index of the required field that was not given.
    pub field: usize,
    /// What the builder says of it.
    pub message: String,
}

/// The fields of a finished record, seen as values.
pub open spec fn output_views<V>(values: Seq<Output<V>>) -> Seq<FieldValue<V>> {
    values.map_values(|value: Output<V>| value@)
}

/// Finds the first accessor called `name` among those of one field.
fn find_accessor(accessors: &Vec<Accessor<'_>>, name: &str) -> (r: Option<usize>)
    ensures
        match method_named(accessor_views(accessors@), name@, 0) {
            Some(m) => r == Some(m as usize),
            None => r is None,
        },
{
    let mut m: usize = 0;
    while m < accessors.len()
        invariant
            m <= accessors.len(),
            method_named(accessor_views(accessors@), name@, 0) == method_named(
                accessor_views(accessors@),
                name@,
                m as int,
            ),
        decreases accessors.len() - m,
    {
        if str_eq(accessors[m].name.as_str(), name) {
            return Some(m);
        }
        m = m + 1;
    }
    None
}

/// The slot after an accessor has run on it.
fn act_on<V>(action: Action, cell: Cell<V>, argument: Input<V>) -> (r: Cell<V>)
    ensures
        r@ == act(action, cell@, argument@),
{
    match action {
        Action::Store => match argument {
            Input::One(value) => Cell::Single(Some(value)),
            Input::All(_) => cell,
        },
        Action::Replace => match argument {
            Input::All(values) => Cell::Many(values),
            Input::One(_) => cell,
        },
        Action::Append => match argument {
            Input::One(value) => {
                let mut items = match cell {
                    Cell::Many(items) => items,
                    Cell::Single(_) => Vec::new(),
                };
                items.push(value);
                Cell::Many(items)
            },
            Input::All(_) => cell,
        },
    }
}

impl<'a> BuilderSpec<'a> {
    /// What the generated code does with each field.
    pub open spec fn program(&self) -> Seq<FieldCode> {
        program_of(self@.fields)
    }

    /// Makes a builder as the generated `builder()` does.
    pub fn fresh_builder<V>(&self) -> (r: Builder<V>)
        ensures
            r@ == fresh::<V>(self.program()),
    {
        let mut slots: Vec<Cell<V>> = Vec::new();
        let mut i: usize = 0;
        while i < self.fields.len()
            invariant
                i <= self.fields.len(),
                slots@.len() == i,
                forall|j: int|
                    0 <= j < i ==> (#[trigger] slots@[j])@ == fresh_slot::<V>(
                        self.program()[j].initial,
                    ),
            decreases self.fields.len() - i,
        {
            match initial_for(self.fields[i].kind.shape()) {
                Initial::Absent => slots.push(Cell::Single(None)),
                Initial::Empty => slots.push(Cell::Many(Vec::new())),
            }
            i = i + 1;
        }
        let builder = Builder { slots };
        builder
    }

    /// Finds the accessor called `name`: the index of its field and its
    /// index among the accessors of that field.
    pub fn find_method(&self, name: &str) -> (r: Option<(usize, usize)>)
        ensures
            match lookup(self.program(), name@, 0) {
                Some((field, method)) => r == Some((field as usize, method as usize)),
                None => r is None,
            },
    {
        let mut i: usize = 0;
        while i < self.fields.len()
            invariant
                i <= self.fields.len(),
                lookup(self.program(), name@, 0) == lookup(self.program(), name@, i as int),
            decreases self.fields.len() - i,
        {
            let accessors = methods_for(&self.fields[i]);
            match find_accessor(&accessors, name) {
                Some(m) => {
                    return Some((i, m));
                },
                None => {},
            }
            i = i + 1;
        }
        None
    }

    /// Calls the accessor called `name` on a builder, as the generated
    /// method of that name does. Returns whether there is such an accessor;
    /// where there is none the builder stays as it is.
    pub fn call<V>(&self, builder: &mut Builder<V>, name: &str, argument: Input<V>) -> (r: bool)
        ensures
            match lookup(self.program(), name@, 0) {
                Some((field, method)) => r && final(builder)@ == step(
                    self.program(),
                    old(builder)@,
                    Call { field, method, argument: argument@ },
                ),
                None => !r && final(builder)@ == old(builder)@,
            },
    {
        let (field, method) = match self.find_method(name) {
            Some(found) => found,
            None => {
                return false;
            },
        };
        proof {
            lemma_lookup_in_range(self.program(), name@, 0);
            assert(self.program().len() == self.fields.len());
        }
        if field >= builder.slots.len() {
            return true;
        }
        let accessors = methods_for(&self.fields[field]);
        let action = accessors[method].action;
        let cell = builder.slots.remove(field);
        let changed = act_on(action, cell, argument);
        builder.slots.insert(field, changed);
        true
    }

    /// Builds the record out of a builder of this record, as the generated
    /// `build()` does, and leaves the builder empty.
    pub fn build<V>(&self, builder: &mut Builder<V>) -> (r: Result<Vec<Output<V>>, BuildError>)
        requires
            old(builder)@.len() == self.program().len(),
        ensures
            final(builder)@ == after_build(old(builder)@),
            match build(self.program(), old(builder)@) {
                Ok(record) => r matches Ok(values) && output_views(values@) == record,
                Err(i) => r matches Err(error) && error.field == i && error.message@
                    == missing_field_message(self.program()[i].name),
            },
    {
        let n = self.fields.len();
        let ghost program = self.program();
        let ghost before = old(builder)@;
        let mut values: Vec<Output<V>> = Vec::new();
        let mut left: Vec<Cell<V>> = Vec::new();
        let mut failed: Option<usize> = None;
        let mut i: usize = 0;
        while i < n
            invariant
                i <= n,
                n == self.fields.len(),
                program == self.program(),
                before.len() == n,
                builder.slots@.len() == n - i,
                forall|j: int|
                    0 <= j < n - i ==> (#[trigger] builder.slots@[j])@ == before[i + j],
                left@.len() == i,
                forall|j: int| 0 <= j < i ==> (#[trigger] left@[j])@ == emptied(before[j]),
                failed matches Some(k) ==> k < i,
                first_missing(program, before, 0) == match failed {
                    Some(k) => Some(k as int),
                    None => first_missing(program, before, i as int),
                },
                failed is None ==> values@.len() == i,
                failed is None ==> forall|j: int|
                    0 <= j < i ==> Some((#[trigger] values@[j])@) == read(
                        program[j].finish,
                        before[j],
                    ),
            decreases n - i,
        {
            let cell = builder.slots.remove(0);
            let finish = finish_for(self.fields[i].kind.shape());
            match cell {
                Cell::Single(value) => {
                    left.push(Cell::Single(None));
                    match finish {
                        Finish::Required => match value {
                            Some(value) => {
                                if failed.is_none() {
                                    values.push(Output::Plain(value));
                                }
                            },
                            None => {
                                if failed.is_none() {
                                    failed = Some(i);
                                }
                            },
                        },
                        Finish::AsIs => {
                            if failed.is_none() {
                                values.push(Output::Optional(value));
                            }
                        },
                    }
                },
                Cell::Many(items) => {
                    left.push(Cell::Many(Vec::new()));
                    match finish {
                        Finish::Required => {
                            if failed.is_none() {
                                failed = Some(i);
                            }
                        },
                        Finish::AsIs => {
                            if failed.is_none() {
                                values.push(Output::Repeated(items));
                            }
                        },
                    }
                },
            }
            i = i + 1;
        }
        builder.slots = left;
        match failed {
            Some(field) => {
                let mut message = String::from_str("no value given for field `");
                message.append(self.fields[field].descriptor.name.as_str());
                message.append("`");
                Err(BuildError { field, message })
            },
            None => {
                Ok(values)
            },
        }
    }
}

/// A method that is found is one that the builder has.
pub proof fn lemma_lookup_in_range(program: Seq<FieldCode>, name: Seq<char>, start: int)
    requires
        0 <= start,
    ensures
        lookup(program, name, start) matches Some((field, method)) ==> start <= field
            < program.len() && 0 <= method < program[field].methods.len()
            && program[field].methods[method].name == name,
    decreases program.len() - start,
{
    if start < program.len() {
        lemma_method_named_in_range(program[start].methods, name, 0);
        lemma_lookup_in_range(program, name, start + 1);
    }
}

/// A method that is found by name has that name.
pub proof fn lemma_method_named_in_range(methods: Seq<Method>, name: Seq<char>, start: int)
    requires
        0 <= start,
    ensures
        method_named(methods, name, start) matches Some(m) ==> start <= m < methods.len()
            && methods[m].name == name,
    decreases methods.len() - start,
{
    if start < methods.len() {
        lemma_method_named_in_range(methods, name, start + 1);
    }
}

} // verus!
