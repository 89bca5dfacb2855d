use builder::annotation::Diagnostic;
use builder::derive::{
    make_build_method, make_builder_fn, make_builder_methods, make_builder_struct, ImplItem, Pass,
};
use builder::plan::{create_from_input, GenerationError};
use builder::syntax::{
    Annotation, Body, FieldDescriptor, Fields, GenericArgument, Literal, Meta, NestedMeta,
    PathArguments, PathSegment, Record, TypeExpr,
};

fn plain(name: &str) -> TypeExpr {
    TypeExpr {
        text: name.to_string(),
        path: Some(vec![PathSegment { ident: name.to_string(), arguments: PathArguments::Empty }]),
    }
}

fn wrapped(outer: &str, inner: TypeExpr) -> TypeExpr {
    TypeExpr {
        text: format!("{}<{}>", outer, inner.text),
        path: Some(vec![PathSegment {
            ident: outer.to_string(),
            arguments: PathArguments::AngleBracketed(vec![GenericArgument::Type(inner)]),
        }]),
    }
}

fn pair(key: &str, value: Literal) -> Annotation {
    Annotation {
        meta: Some(Meta::List {
            path: vec!["builder".to_string()],
            nested: vec![NestedMeta::Meta(Meta::NameValue { path: vec![key.to_string()], value })],
        }),
    }
}

fn per_element(name: &str) -> Annotation {
    pair("each", Literal::Str(name.to_string()))
}

fn descriptor(name: &str, ty: TypeExpr, annotations: Vec<Annotation>) -> FieldDescriptor {
    FieldDescriptor { name: name.to_string(), declared_type: ty, raw_annotations: annotations }
}

fn command_fields() -> Fields {
    Fields::Named(vec![
        descriptor("executable", plain("String"), vec![]),
        descriptor("args", wrapped("Vec", plain("String")), vec![per_element("arg")]),
        descriptor("env", wrapped("Option", plain("String")), vec![]),
        descriptor("current_dir", wrapped("Option", plain("String")), vec![]),
    ])
}

fn method_names(block: &syn::ItemImpl) -> Vec<String> {
    let mut names = Vec::new();
    for item in &block.items {
        if let syn::ImplItem::Method(method) = item {
            names.push(method.sig.ident.to_string());
        }
    }
    names
}

#[test]
fn builder_struct_of_command() {
    let text = make_builder_struct("Command", &command_fields()).unwrap();
    assert_eq!(
        text,
        "pub struct CommandBuilder {\n\
         \x20   pub executable: std::option::Option<String>,\n\
         \x20   pub args: Vec<String>,\n\
         \x20   pub env: Option<String>,\n\
         \x20   pub current_dir: Option<String>,\n\
         }\n"
    );
}

#[test]
fn builder_struct_is_a_struct_with_the_fields_of_the_record() {
    let text = make_builder_struct("Command", &command_fields()).unwrap();
    let item = syn::parse_str::<syn::ItemStruct>(&text).unwrap();
    assert_eq!(item.ident.to_string(), "CommandBuilder");
    let names: Vec<String> =
        item.fields.iter().map(|field| field.ident.as_ref().unwrap().to_string()).collect();
    assert_eq!(names, vec!["executable", "args", "env", "current_dir"]);
}

#[test]
fn builder_fn_of_command() {
    let text = make_builder_fn("Command", &command_fields()).unwrap();
    assert_eq!(
        text,
        "impl Command {\n\
         \x20   pub fn builder() -> CommandBuilder {\n\
         \x20       CommandBuilder {\n\
         \x20           executable: std::option::Option::None,\n\
         \x20           args: std::vec::Vec::new(),\n\
         \x20           env: std::option::Option::None,\n\
         \x20           current_dir: std::option::Option::None,\n\
         \x20       }\n\
         \x20   }\n\
         }\n"
    );
    let item = syn::parse_str::<syn::ItemImpl>(&text).unwrap();
    assert_eq!(method_names(&item), vec!["builder"]);
}

#[test]
fn build_method_of_command() {
    let text = make_build_method("Command", &command_fields()).unwrap();
    assert_eq!(
        text,
        "impl CommandBuilder {\n\
         \x20   pub fn build(&mut self) -> std::result::Result<Command, std::boxed::Box<dyn std::error::Error>> {\n\
         \x20       let executable = std::mem::take(&mut self.executable);\n\
         \x20       let args = std::mem::take(&mut self.args);\n\
         \x20       let env = std::mem::take(&mut self.env);\n\
         \x20       let current_dir = std::mem::take(&mut self.current_dir);\n\
         \x20       std::result::Result::Ok(Command {\n\
         \x20           executable: executable.ok_or(std::boxed::Box::<dyn std::error::Error>::from(\"no value given for field `executable`\"))?,\n\
         \x20           args: args,\n\
         \x20           env: env,\n\
         \x20           current_dir: current_dir,\n\
         \x20       })\n\
         \x20   }\n\
         }\n"
    );
    let item = syn::parse_str::<syn::ItemImpl>(&text).unwrap();
    assert_eq!(method_names(&item), vec!["build"]);
}

#[test]
fn builder_methods_of_command() {
    let block = make_builder_methods("Command", &command_fields()).unwrap();
    assert_eq!(block.self_type, "CommandBuilder");
    let expected = vec![
        ImplItem::Method {
            field: 0,
            text: "    pub fn executable(&mut self, input: String) -> &mut Self {\n\
                   \x20       self.executable = std::option::Option::Some(input);\n\
                   \x20       self\n\
                   \x20   }\n"
                .to_string(),
        },
        ImplItem::Method {
            field: 1,
            text: "    pub fn args(&mut self, input: Vec<String>) -> &mut Self {\n\
                   \x20       self.args = input;\n\
                   \x20       self\n\
                   \x20   }\n"
                .to_string(),
        },
        ImplItem::Method {
            field: 1,
            text: "    pub fn arg(&mut self, input: String) -> &mut Self {\n\
                   \x20       let mut vec = std::mem::take(&mut self.args);\n\
                   \x20       vec.push(input);\n\
                   \x20       self.args = vec;\n\
                   \x20       self\n\
                   \x20   }\n"
                .to_string(),
        },
        ImplItem::Method {
            field: 2,
            text: "    pub fn env(&mut self, input: String) -> &mut Self {\n\
                   \x20       self.env = std::option::Option::Some(input);\n\
                   \x20       self\n\
                   \x20   }\n"
                .to_string(),
        },
        ImplItem::Method {
            field: 3,
            text: "    pub fn current_dir(&mut self, input: String) -> &mut Self {\n\
                   \x20       self.current_dir = std::option::Option::Some(input);\n\
                   \x20       self\n\
                   \x20   }\n"
                .to_string(),
        },
    ];
    assert_eq!(block.items, expected);
}

#[test]
fn block_text_is_an_impl_with_every_accessor() {
    let block = make_builder_methods("Command", &command_fields()).unwrap();
    let text = block.text();
    assert!(text.starts_with("impl CommandBuilder {\n    pub fn executable("));
    assert!(text.ends_with("    }\n}\n"));
    let item = syn::parse_str::<syn::ItemImpl>(&text).unwrap();
    assert_eq!(method_names(&item), vec!["executable", "args", "arg", "env", "current_dir"]);
}

#[test]
fn every_accessor_is_a_method_on_its_own() {
    let block = make_builder_methods("Command", &command_fields()).unwrap();
    for item in &block.items {
        match item {
            ImplItem::Method { text, .. } => {
                assert!(syn::parse_str::<syn::ImplItemMethod>(text).is_ok());
            }
            ImplItem::CompileError { .. } => panic!("no diagnostic"),
        }
    }
}

#[test]
fn accessor_named_like_its_field_takes_the_place_of_the_setter() {
    let input = Fields::Named(vec![descriptor(
        "env",
        wrapped("Vec", plain("String")),
        vec![per_element("env")],
    )]);
    let block = make_builder_methods("Command", &input).unwrap();
    assert_eq!(
        block.items,
        vec![ImplItem::Method {
            field: 0,
            text: "    pub fn env(&mut self, input: String) -> &mut Self {\n\
                   \x20       let mut vec = std::mem::take(&mut self.env);\n\
                   \x20       vec.push(input);\n\
                   \x20       self.env = vec;\n\
                   \x20       self\n\
                   \x20   }\n"
                .to_string(),
        }]
    );
}

#[test]
fn repeated_field_without_request_gets_the_bulk_setter_alone() {
    let input = Fields::Named(vec![descriptor("args", wrapped("Vec", plain("u8")), vec![])]);
    let block = make_builder_methods("T", &input).unwrap();
    assert_eq!(
        block.items,
        vec![ImplItem::Method {
            field: 0,
            text: "    pub fn args(&mut self, input: Vec<u8>) -> &mut Self {\n\
                   \x20       self.args = input;\n\
                   \x20       self\n\
                   \x20   }\n"
                .to_string(),
        }]
    );
}

#[test]
fn optional_field_is_set_with_the_wrapped_type() {
    let input =
        Fields::Named(vec![descriptor("env", wrapped("Option", wrapped("Vec", plain("u8"))), vec![])]);
    let block = make_builder_methods("T", &input).unwrap();
    match &block.items[0] {
        ImplItem::Method { field, text } => {
            assert_eq!(*field, 0);
            assert!(text.starts_with("    pub fn env(&mut self, input: Vec<u8>) -> &mut Self {\n"));
        }
        ImplItem::CompileError { .. } => panic!("no diagnostic"),
    }
    let declaration = make_builder_struct("T", &input).unwrap();
    assert_eq!(declaration, "pub struct TBuilder {\n    pub env: Option<Vec<u8>>,\n}\n");
}

#[test]
fn malformed_request_is_reported_in_place_of_the_accessors() {
    let input = Fields::Named(vec![
        descriptor("executable", plain("String"), vec![]),
        descriptor(
            "args",
            wrapped("Vec", plain("String")),
            vec![
                Annotation { meta: None },
                pair("eac", Literal::Str("arg".to_string())),
            ],
        ),
        descriptor("env", wrapped("Vec", plain("String")), vec![per_element("var")]),
    ]);
    let block = make_builder_methods("Command", &input).unwrap();
    assert_eq!(block.items.len(), 4);
    assert!(matches!(&block.items[0], ImplItem::Method { field: 0, .. }));
    assert_eq!(
        block.items[1],
        ImplItem::CompileError { field: 1, diagnostic: Diagnostic { attribute: 1 } }
    );
    assert!(matches!(&block.items[2], ImplItem::Method { field: 2, .. }));
    assert!(matches!(&block.items[3], ImplItem::Method { field: 2, .. }));
    let text = block.text();
    assert!(text.contains("    compile_error!(\"expected `builder(each = \\\"...\\\")`\");\n"));
    let item = syn::parse_str::<syn::ItemImpl>(&text).unwrap();
    assert_eq!(method_names(&item), vec!["executable", "env", "var"]);
    assert_eq!(item.items.len(), 4);
    match &item.items[1] {
        syn::ImplItem::Macro(invocation) => {
            assert!(invocation.mac.path.is_ident("compile_error"));
            let message = invocation.mac.parse_body::<syn::LitStr>().unwrap();
            assert_eq!(message.value(), "expected `builder(each = \"...\")`");
        }
        _ => panic!("a macro invocation"),
    }
    // The other passes are not touched by the malformed request.
    assert!(make_builder_struct("Command", &input).is_ok());
    assert!(make_builder_fn("Command", &input).is_ok());
    assert!(make_build_method("Command", &input).is_ok());
}

#[test]
fn value_that_is_no_string_is_reported_too() {
    let input = Fields::Named(vec![descriptor(
        "args",
        wrapped("Vec", plain("String")),
        vec![pair("each", Literal::Other)],
    )]);
    let block = make_builder_methods("Command", &input).unwrap();
    assert_eq!(
        block.items,
        vec![ImplItem::CompileError { field: 0, diagnostic: Diagnostic { attribute: 0 } }]
    );
}

#[test]
fn fatal_errors_leave_no_output_in_any_pass() {
    let input = Fields::Named(vec![
        descriptor("a", plain("u8"), vec![]),
        descriptor("b", plain("String"), vec![per_element("item")]),
    ]);
    let error = GenerationError::EachOnNonRepeated { field: 1 };
    assert_eq!(make_builder_struct("T", &input), Err(error));
    assert_eq!(make_builder_fn("T", &input), Err(error));
    assert_eq!(make_builder_methods("T", &input), Err(error));
    assert_eq!(make_build_method("T", &input), Err(error));
    assert_eq!(make_builder_struct("T", &Fields::Unit), Err(GenerationError::FieldlessRecord));
    assert_eq!(make_builder_fn("T", &Fields::Unnamed), Err(GenerationError::PositionalFields));
    assert_eq!(
        make_builder_methods("T", &Fields::Named(vec![])),
        Err(GenerationError::FieldlessRecord)
    );
    let unsupported = Fields::Named(vec![descriptor("a", plain("Vec"), vec![])]);
    assert_eq!(
        make_build_method("T", &unsupported),
        Err(GenerationError::UnsupportedContainer { field: 0 })
    );
    let unnamed = Fields::Named(vec![descriptor(
        "a",
        wrapped("Vec", plain("u8")),
        vec![per_element("1st")],
    )]);
    assert_eq!(
        make_builder_methods("T", &unnamed),
        Err(GenerationError::InvalidAccessorName { field: 0 })
    );
}

#[test]
fn derive_puts_the_four_passes_together() {
    let record = Record { name: "Command".to_string(), body: Body::Struct(command_fields()) };
    let expansion = builder::derive::derive(&record).unwrap();
    assert_eq!(expansion.builder_struct, make_builder_struct("Command", &command_fields()).unwrap());
    assert_eq!(expansion.builder_fn, make_builder_fn("Command", &command_fields()).unwrap());
    assert_eq!(
        expansion.builder_methods,
        make_builder_methods("Command", &command_fields()).unwrap()
    );
    assert_eq!(expansion.build_method, make_build_method("Command", &command_fields()).unwrap());
    let whole = expansion.text();
    assert_eq!(
        whole,
        format!(
            "{}{}{}{}",
            expansion.builder_struct,
            expansion.builder_fn,
            expansion.builder_methods.text(),
            expansion.build_method
        )
    );
    let file = syn::parse_file(&whole).unwrap();
    assert_eq!(file.items.len(), 4);
}

#[test]
fn derive_is_for_structs_only() {
    let on_enum = Record { name: "Choice".to_string(), body: Body::Enum };
    assert_eq!(builder::derive::derive(&on_enum).err(), Some(GenerationError::NotAStruct));
    let on_union = Record { name: "Overlay".to_string(), body: Body::Union };
    assert_eq!(builder::derive::derive(&on_union).err(), Some(GenerationError::NotAStruct));
    let on_unit = Record { name: "Marker".to_string(), body: Body::Struct(Fields::Unit) };
    assert_eq!(builder::derive::derive(&on_unit).err(), Some(GenerationError::FieldlessRecord));
}

#[test]
fn passes_write_one_line_per_field() {
    let input = Fields::Named(vec![
        descriptor("a", plain("u8"), vec![]),
        descriptor("b", wrapped("Vec", plain("u8")), vec![]),
    ]);
    let spec = create_from_input("T", &input).unwrap();
    assert_eq!(
        spec.emit_pieces(Pass::Declaration),
        "    pub a: std::option::Option<u8>,\n    pub b: Vec<u8>,\n"
    );
    assert_eq!(
        spec.emit_pieces(Pass::Initializer),
        "            a: std::option::Option::None,\n            b: std::vec::Vec::new(),\n"
    );
    assert_eq!(
        spec.emit_pieces(Pass::Take),
        "        let a = std::mem::take(&mut self.a);\n        let b = std::mem::take(&mut self.b);\n"
    );
    assert_eq!(
        spec.emit_pieces(Pass::Populate),
        "            a: a.ok_or(std::boxed::Box::<dyn std::error::Error>::from(\"no value given for field `a`\"))?,\n            b: b,\n"
    );
}
