//! The four passes that write the builder of a record: its type, the
//! function that makes a fresh one, its accessors and its finalizer.
//!
//! Each pass is a function of the analysed record alone. The code comes out
//! as text, to be read back as tokens by whoever hands it to a compiler.

use vstd::prelude::*;
use vstd::string::StringExecFns;
use crate::annotation::{Customization, Diagnostic};
use crate::plan::{analysis, create_from_input, BuilderPlan, BuilderSpec, Custom, FieldPlan, FieldSpec, GenerationError};
use crate::scheme::{
    accessor_views, finish_for, finish_of, initial_for, initial_of, methods_for, methods_of,
    storage_for, storage_of, Accessor, Action, Finish, Initial, Method, Storage,
};
use crate::syntax::{Body, Fields, Record};
use crate::text::{concat, lemma_concat_step};

verus! {

/// The lines that a pass writes once per field.
#[derive(Clone, Copy, PartialEq, Eq, Structural, Debug)]
pub enum Pass {
    /// The field of the builder type.
    Declaration,
    /// The field's first value, in the function that makes a builder.
    Initializer,
    /// The finalizer's statement that empties the field.
    Take,
    /// The finalizer's line that fills the record's field.
    Populate,
}

/// The type of the builder field, as text.
pub open spec fn storage_type(field: FieldPlan) -> Seq<char> {
    match storage_of(field.shape) {
        Storage::Wrapped => "std::option::Option<"@ + field.declared + ">"@,
        Storage::Declared => field.declared,
    }
}

/// The first value of the builder field, as text.
pub open spec fn initial_value(field: FieldPlan) -> Seq<char> {
    match initial_of(field.shape) {
        Initial::Absent => "std::option::Option::None"@,
        Initial::Empty => "std::vec::Vec::new()"@,
    }
}

/// What a failed build says of the required field `name`.
pub open spec fn missing_field_message(name: Seq<char>) -> Seq<char> {
    "no value given for field `"@ + name + "`"@
}

/// The expression that the finalizer puts into the record's field.
pub open spec fn final_value(field: FieldPlan) -> Seq<char> {
    match finish_of(field.shape) {
        Finish::Required => field.name + ".ok_or(std::boxed::Box::<dyn std::error::Error>::from(\""@
            + missing_field_message(field.name) + "\"))?"@,
        Finish::AsIs => field.name,
    }
}

/// The lines that `pass` writes for `field`.
pub open spec fn piece(pass: Pass, field: FieldPlan) -> Seq<char> {
    match pass {
        Pass::Declaration => "    pub "@ + field.name + ": "@ + storage_type(field) + ",\n"@,
        Pass::Initializer => "            "@ + field.name + ": "@ + initial_value(field) + ",\n"@,
        Pass::Take => "        let "@ + field.name + " = std::mem::take(&mut self."@ + field.name
            + ");\n"@,
        Pass::Populate => "            "@ + field.name + ": "@ + final_value(field) + ",\n"@,
    }
}

/// The lines that `pass` writes for all fields, in declaration order.
pub open spec fn pieces(pass: Pass, fields: Seq<FieldPlan>) -> Seq<char> {
    concat(fields.map_values(|field: FieldPlan| piece(pass, field)))
}

/// The builder type.
pub open spec fn builder_struct_text(plan: BuilderPlan) -> Seq<char> {
    "pub struct "@ + plan.builder + " {\n"@ + pieces(Pass::Declaration, plan.fields) + "}\n"@
}

/// The function of the record that makes a fresh builder.
pub open spec fn builder_fn_text(plan: BuilderPlan) -> Seq<char> {
    "impl "@ + plan.target + " {\n    pub fn builder() -> "@ + plan.builder + " {\n        "@
        + plan.builder + " {\n"@ + pieces(Pass::Initializer, plan.fields)
        + "        }\n    }\n}\n"@
}

/// The finalizer. It empties every field of the builder before it looks at
/// any of them, so that nothing stays behind, whether the build succeeds or
/// fails.
pub open spec fn build_method_text(plan: BuilderPlan) -> Seq<char> {
    "impl "@ + plan.builder + " {\n    pub fn build(&mut self) -> std::result::Result<"@
        + plan.target + ", std::boxed::Box<dyn std::error::Error>> {\n"@ + pieces(
        Pass::Take,
        plan.fields,
    ) + "        std::result::Result::Ok("@ + plan.target + " {\n"@ + pieces(
        Pass::Populate,
        plan.fields,
    ) + "        })\n    }\n}\n"@
}

/// One accessor of the field `field`, as text.
pub open spec fn method_text(field: Seq<char>, method: Method) -> Seq<char> {
    match method.action {
        Action::Store => "    pub fn "@ + method.name + "(&mut self, input: "@ + method.parameter
            + ") -> &mut Self {\n        self."@ + field
            + " = std::option::Option::Some(input);\n        self\n    }\n"@,
        Action::Replace => "    pub fn "@ + method.name + "(&mut self, input: "@
            + method.parameter + ") -> &mut Self {\n        self."@ + field
            + " = input;\n        self\n    }\n"@,
        Action::Append => "    pub fn "@ + method.name + "(&mut self, input: "@ + method.parameter
            + ") -> &mut Self {\n        let mut vec = std::mem::take(&mut self."@ + field
            + ");\n        vec.push(input);\n        self."@ + field
            + " = vec;\n        self\n    }\n"@,
    }
}

/// One item of the block of accessors.
pub enum Item {
    /// An accessor of the field at index `field`.
    Method { field: int, text: Seq<char> },
    /// The report of a malformed request on the field at index `field`,
    /// standing where the field's accessors would.
    CompileError { field: int, diagnostic: Diagnostic },
}

/// The block of accessors.
pub struct Block {
    /// The type that the block belongs to.
    pub self_type: Seq<char>,
    pub items: Seq<Item>,
}

/// The items that the field at `index` contributes: its accessors, or the
/// report of its malformed request.
pub open spec fn field_items(index: int, field: FieldPlan) -> Seq<Item> {
    match field.custom {
        Custom::Malformed(diagnostic) => seq![Item::CompileError { field: index, diagnostic }],
        _ => methods_of(field).map_values(
            |method: Method| Item::Method { field: index, text: method_text(field.name, method) },
        ),
    }
}

/// The items of the first `n` fields, in declaration order.
pub open spec fn items_upto(fields: Seq<FieldPlan>, n: int) -> Seq<Item>
    decreases n,
{
    if n <= 0 {
        Seq::empty()
    } else {
        items_upto(fields, n - 1) + field_items(n - 1, fields[n - 1])
    }
}

/// The accessors of the builder.
pub open spec fn builder_methods_block(plan: BuilderPlan) -> Block {
    Block { self_type: plan.builder, items: items_upto(plan.fields, plan.fields.len() as int) }
}

/// The line that reports a malformed request to the compiler.
pub open spec fn compile_error_text() -> Seq<char> {
    "    compile_error!(\"expected `builder(each = \\\"...\\\")`\");\n"@
}

/// One item as text.
pub open spec fn item_text(item: Item) -> Seq<char> {
    match item {
        Item::Method { field: _, text } => text,
        Item::CompileError { .. } => compile_error_text(),
    }
}

/// The whole block as text.
pub open spec fn block_text(block: Block) -> Seq<char> {
    "impl "@ + block.self_type + " {\n"@ + concat(
        block.items.map_values(|item: Item| item_text(item)),
    ) + "}\n"@
}

/// One item of the block of accessors.
#[derive(Debug, PartialEq, Eq)]
pub enum ImplItem {
    /// An accessor of the field at index `field`.
    Method { field: usize, text: String },
    /// The report of a malformed request on the field at index `field`.
    CompileError { field: usize, diagnostic: Diagnostic },
}

impl View for ImplItem {
    type V = Item;

    open spec fn view(&self) -> Item {
        match *self {
            ImplItem::Method { field, text } => Item::Method { field: field as int, text: text@ },
            ImplItem::CompileError { field, diagnostic } => Item::CompileError {
                field: field as int,
                diagnostic,
            },
        }
    }
}

/// The block of accessors.
#[derive(Debug, PartialEq, Eq)]
pub struct ImplBlock {
    pub self_type: String,
    pub items: Vec<ImplItem>,
}

impl View for ImplBlock {
    type V = Block;

    open spec fn view(&self) -> Block {
        Block {
            self_type: self.self_type@,
            items: self.items@.map_values(|item: ImplItem| item@),
        }
    }
}

/// Writes the type of a builder field.
fn emit_storage_type(field: &FieldSpec<'_>) -> (r: String)
    ensures
        r@ == storage_type(field@),
{
    match storage_for(field.kind.shape()) {
        Storage::Wrapped => {
            let mut out = String::from_str("std::option::Option<");
            out.append(field.descriptor.declared_type.text.as_str());
            out.append(">");
            out
        },
        Storage::Declared => field.descriptor.declared_type.text.clone(),
    }
}

/// Writes the expression that fills the record's field.
fn emit_final_value(field: &FieldSpec<'_>) -> (r: String)
    ensures
        r@ == final_value(field@),
{
    match finish_for(field.kind.shape()) {
        Finish::Required => {
            let mut message = String::from_str("no value given for field `");
            message.append(field.descriptor.name.as_str());
            message.append("`");
            let mut out = field.descriptor.name.clone();
            out.append(".ok_or(std::boxed::Box::<dyn std::error::Error>::from(\"");
            out.append(message.as_str());
            out.append("\"))?");
            out
        },
        Finish::AsIs => field.descriptor.name.clone(),
    }
}

/// Writes the lines of `pass` for one field.
fn emit_piece(pass: Pass, field: &FieldSpec<'_>) -> (r: String)
    ensures
        r@ == piece(pass, field@),
{
    let name = field.descriptor.name.as_str();
    match pass {
        Pass::Declaration => {
            let ty = emit_storage_type(field);
            let mut out = String::from_str("    pub ");
            out.append(name);
            out.append(": ");
            out.append(ty.as_str());
            out.append(",\n");
            out
        },
        Pass::Initializer => {
            let mut out = String::from_str("            ");
            out.append(name);
            out.append(": ");
            match initial_for(field.kind.shape()) {
                Initial::Absent => out.append("std::option::Option::None"),
                Initial::Empty => out.append("std::vec::Vec::new()"),
            }
            out.append(",\n");
            out
        },
        Pass::Take => {
            let mut out = String::from_str("        let ");
            out.append(name);
            out.append(" = std::mem::take(&mut self.");
            out.append(name);
            out.append(");\n");
            out
        },
        Pass::Populate => {
            let value = emit_final_value(field);
            let mut out = String::from_str("            ");
            out.append(name);
            out.append(": ");
            out.append(value.as_str());
            out.append(",\n");
            out
        },
    }
}

/// Writes one accessor of the field called `field`.
fn emit_method(field: &str, accessor: &Accessor<'_>) -> (r: String)
    ensures
        r@ == method_text(field@, accessor@),
{
    let mut out = String::from_str("    pub fn ");
    out.append(accessor.name.as_str());
    out.append("(&mut self, input: ");
    out.append(accessor.parameter.as_str());
    match accessor.action {
        Action::Store => {
            out.append(") -> &mut Self {\n        self.");
            out.append(field);
            out.append(" = std::option::Option::Some(input);\n        self\n    }\n");
        },
        Action::Replace => {
            out.append(") -> &mut Self {\n        self.");
            out.append(field);
            out.append(" = input;\n        self\n    }\n");
        },
        Action::Append => {
            out.append(") -> &mut Self {\n        let mut vec = std::mem::take(&mut self.");
            out.append(field);
            out.append(");\n        vec.push(input);\n        self.");
            out.append(field);
            out.append(" = vec;\n        self\n    }\n");
        },
    }
    out
}

impl<'a> BuilderSpec<'a> {
    /// Writes the lines of `pass` for every field, in declaration order.
    pub fn emit_pieces(&self, pass: Pass) -> (r: String)
        ensures
            r@ == pieces(pass, self@.fields),
    {
        let ghost all = self@.fields.map_values(|field: FieldPlan| piece(pass, field));
        let mut out = String::new();
        let mut i: usize = 0;
        while i < self.fields.len()
            invariant
                i <= self.fields.len(),
                all == self@.fields.map_values(|field: FieldPlan| piece(pass, field)),
                out@ == concat(all.take(i as int)),
            decreases self.fields.len() - i,
        {
            let line = emit_piece(pass, &self.fields[i]);
            proof {
                lemma_concat_step(all, i as int);
            }
            out.append(line.as_str());
            i = i + 1;
        }
        proof {
            assert(all.take(i as int) =~= all);
        }
        out
    }

    /// Writes the builder type.
    pub fn builder_struct(&self) -> (r: String)
        ensures
            r@ == builder_struct_text(self@),
    {
        let body = self.emit_pieces(Pass::Declaration);
        let mut out = String::from_str("pub struct ");
        out.append(self.builder_name.as_str());
        out.append(" {\n");
        out.append(body.as_str());
        out.append("}\n");
        out
    }

    /// Writes the function of the record that makes a fresh builder.
    pub fn builder_fn(&self) -> (r: String)
        ensures
            r@ == builder_fn_text(self@),
    {
        let body = self.emit_pieces(Pass::Initializer);
        let mut out = String::from_str("impl ");
        out.append(self.target_name);
        out.append(" {\n    pub fn builder() -> ");
        out.append(self.builder_name.as_str());
        out.append(" {\n        ");
        out.append(self.builder_name.as_str());
        out.append(" {\n");
        out.append(body.as_str());
        out.append("        }\n    }\n}\n");
        out
    }

    /// Writes the finalizer.
    pub fn build_method(&self) -> (r: String)
        ensures
            r@ == build_method_text(self@),
    {
        let takes = self.emit_pieces(Pass::Take);
        let values = self.emit_pieces(Pass::Populate);
        let mut out = String::from_str("impl ");
        out.append(self.builder_name.as_str());
        out.append(" {\n    pub fn build(&mut self) -> std::result::Result<");
        out.append(self.target_name);
        out.append(", std::boxed::Box<dyn std::error::Error>> {\n");
        out.append(takes.as_str());
        out.append("        std::result::Result::Ok(");
        out.append(self.target_name);
        out.append(" {\n");
        out.append(values.as_str());
        out.append("        })\n    }\n}\n");
        out
    }

    /// Writes the accessors, or for a field with a malformed request the
    /// report that stands in their place.
    pub fn builder_methods(&self) -> (r: ImplBlock)
        ensures
            r@ == builder_methods_block(self@),
    {
        let mut items: Vec<ImplItem> = Vec::new();
        let mut i: usize = 0;
        while i < self.fields.len()
            invariant
                i <= self.fields.len(),
                items@.map_values(|item: ImplItem| item@) == items_upto(self@.fields, i as int),
            decreases self.fields.len() - i,
        {
            let field = &self.fields[i];
            let ghost before = items@.map_values(|item: ImplItem| item@);
            match field.customization {
                Customization::Malformed(diagnostic) => {
                    items.push(ImplItem::CompileError { field: i, diagnostic });
                    proof {
                        assert(items@.map_values(|item: ImplItem| item@) =~= before + field_items(
                            i as int,
                            field@,
                        ));
                    }
                },
                _ => {
                    let accessors = methods_for(field);
                    let mut k: usize = 0;
                    while k < accessors.len()
                        invariant
                            k <= accessors.len(),
                            accessor_views(accessors@) == methods_of(field@),
                            !(field@.custom is Malformed),
                            items@.map_values(|item: ImplItem| item@) == before + field_items(
                                i as int,
                                field@,
                            ).take(k as int),
                        decreases accessors.len() - k,
                    {
                        let text = emit_method(field.descriptor.name.as_str(), &accessors[k]);
                        let ghost sofar = items@.map_values(|item: ImplItem| item@);
                        items.push(ImplItem::Method { field: i, text });
                        proof {
                            assert(items@.map_values(|item: ImplItem| item@) =~= sofar.push(
                                field_items(i as int, field@)[k as int],
                            ));
                        }
                        k = k + 1;
                    }
                },
            }
            i = i + 1;
        }
        ImplBlock { self_type: self.builder_name.clone(), items }
    }
}

impl ImplBlock {
    /// Writes the block out, with the line `compile_error!(..)` for each
    /// report.
    pub fn text(&self) -> (r: String)
        ensures
            r@ == block_text(self@),
    {
        let ghost all = self@.items.map_values(|item: Item| item_text(item));
        let mut body = String::new();
        let mut i: usize = 0;
        while i < self.items.len()
            invariant
                i <= self.items.len(),
                all == self@.items.map_values(|item: Item| item_text(item)),
                body@ == concat(all.take(i as int)),
            decreases self.items.len() - i,
        {
            proof {
                lemma_concat_step(all, i as int);
            }
            match &self.items[i] {
                ImplItem::Method { field: _, text } => {
                    body.append(text.as_str());
                },
                ImplItem::CompileError { .. } => {
                    body.append("    compile_error!(\"expected `builder(each = \\\"...\\\")`\");\n");
                },
            }
            i = i + 1;
        }
        proof {
            assert(all.take(i as int) =~= all);
        }
        let mut out = String::from_str("impl ");
        out.append(self.self_type.as_str());
        out.append(" {\n");
        out.append(body.as_str());
        out.append("}\n");
        out
    }
}

/// Writes the builder type of the record called `name` with the field
/// section `input`.
pub fn make_builder_struct(name: &str, input: &Fields) -> (r: Result<String, GenerationError>)
    ensures
        match analysis(name@, input) {
            Ok(plan) => r matches Ok(text) && text@ == builder_struct_text(plan),
            Err(error) => r matches Err(e) && e == error,
        },
{
    match create_from_input(name, input) {
        Ok(spec) => Ok(spec.builder_struct()),
        Err(error) => Err(error),
    }
}

/// Writes the function that makes a fresh builder of the record called
/// `name` with the field section `input`.
pub fn make_builder_fn(name: &str, input: &Fields) -> (r: Result<String, GenerationError>)
    ensures
        match analysis(name@, input) {
            Ok(plan) => r matches Ok(text) && text@ == builder_fn_text(plan),
            Err(error) => r matches Err(e) && e == error,
        },
{
    match create_from_input(name, input) {
        Ok(spec) => Ok(spec.builder_fn()),
        Err(error) => Err(error),
    }
}

/// Writes the accessors of the builder of the record called `name` with the
/// field section `input`.
pub fn make_builder_methods(name: &str, input: &Fields) -> (r: Result<ImplBlock, GenerationError>)
    ensures
        match analysis(name@, input) {
            Ok(plan) => r matches Ok(block) && block@ == builder_methods_block(plan),
            Err(error) => r matches Err(e) && e == error,
        },
{
    match create_from_input(name, input) {
        Ok(spec) => Ok(spec.builder_methods()),
        Err(error) => Err(error),
    }
}

/// Writes the finalizer of the builder of the record called `name` with the
/// field section `input`.
pub fn make_build_method(name: &str, input: &Fields) -> (r: Result<String, GenerationError>)
    ensures
        match analysis(name@, input) {
            Ok(plan) => r matches Ok(text) && text@ == build_method_text(plan),
            Err(error) => r matches Err(e) && e == error,
        },
{
    match create_from_input(name, input) {
        Ok(spec) => Ok(spec.build_method()),
        Err(error) => Err(error),
    }
}

/// Everything that is generated for one record.
pub struct Code {
    pub builder_struct: Seq<char>,
    pub builder_fn: Seq<char>,
    pub builder_methods: Block,
    pub build_method: Seq<char>,
}

/// Everything that is generated for one record, in the order in which it is
/// handed to the compiler.
#[derive(Debug, PartialEq, Eq)]
pub struct Expansion {
    pub builder_struct: String,
    pub builder_fn: String,
    pub builder_methods: ImplBlock,
    pub build_method: String,
}

impl View for Expansion {
    type V = Code;

    open spec fn view(&self) -> Code {
        Code {
            builder_struct: self.builder_struct@,
            builder_fn: self.builder_fn@,
            builder_methods: self.builder_methods@,
            build_method: self.build_method@,
        }
    }
}

/// The output of the four passes, one after the other.
pub open spec fn code_text(code: Code) -> Seq<char> {
    code.builder_struct + code.builder_fn + block_text(code.builder_methods) + code.build_method
}

impl Expansion {
    /// Writes the whole expansion out as one text, with the line
    /// `compile_error!(..)` for each report.
    pub fn text(&self) -> (r: String)
        ensures
            r@ == code_text(self@),
    {
        let methods = self.builder_methods.text();
        let mut out = self.builder_struct.clone();
        out.append(self.builder_fn.as_str());
        out.append(methods.as_str());
        out.append(self.build_method.as_str());
        out
    }
}

/// What the four passes write for an analysed record.
pub open spec fn code_of_plan(plan: BuilderPlan) -> Code {
    Code {
        builder_struct: builder_struct_text(plan),
        builder_fn: builder_fn_text(plan),
        builder_methods: builder_methods_block(plan),
        build_method: build_method_text(plan),
    }
}

/// What is generated for an item: the output of the four passes for a record
/// that can be analysed, and nothing at all for anything else.
pub open spec fn derivation(input: &Record) -> Result<Code, GenerationError> {
    match input.body {
        Body::Struct(fields) => match analysis(input.name@, &fields) {
            Ok(plan) => Ok(code_of_plan(plan)),
            Err(error) => Err(error),
        },
        _ => Err(GenerationError::NotAStruct),
    }
}

/// Generates the builder of `input`.
pub fn derive(input: &Record) -> (r: Result<Expansion, GenerationError>)
    ensures
        match derivation(input) {
            Ok(code) => r matches Ok(expansion) && expansion@ == code,
            Err(error) => r matches Err(e) && e == error,
        },
{
    let fields = match &input.body {
        Body::Struct(fields) => fields,
        _ => {
            return Err(GenerationError::NotAStruct);
        },
    };
    match create_from_input(input.name.as_str(), fields) {
        Ok(spec) => Ok(
            Expansion {
                builder_struct: spec.builder_struct(),
                builder_fn: spec.builder_fn(),
                builder_methods: spec.builder_methods(),
                build_method: spec.build_method(),
            },
        ),
        Err(error) => Err(error),
    }
}

} // verus!
