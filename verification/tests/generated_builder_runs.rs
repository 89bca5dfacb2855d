// The builder of `Command` below is the generator's output, word for word:
// `the_code_below_is_what_the_generator_writes` holds the generator to it.
// The other tests use it as a program.

use builder::syntax::{
    Annotation, Body, FieldDescriptor, Fields, GenericArgument, Literal, Meta, NestedMeta,
    PathArguments, PathSegment, Record, TypeExpr,
};

#[derive(Debug, PartialEq)]
pub struct Command {
    executable: String,
    args: Vec<String>,
    env: Option<String>,
    current_dir: Option<String>,
}

pub struct CommandBuilder {
    pub executable: std::option::Option<String>,
    pub args: Vec<String>,
    pub env: Option<String>,
    pub current_dir: Option<String>,
}
impl Command {
    pub fn builder() -> CommandBuilder {
        CommandBuilder {
            executable: std::option::Option::None,
            args: std::vec::Vec::new(),
            env: std::option::Option::None,
            current_dir: std::option::Option::None,
        }
    }
}
impl CommandBuilder {
    pub fn executable(&mut self, input: String) -> &mut Self {
        self.executable = std::option::Option::Some(input);
        self
    }
    pub fn args(&mut self, input: Vec<String>) -> &mut Self {
        self.args = input;
        self
    }
    pub fn arg(&mut self, input: String) -> &mut Self {
        let mut vec = std::mem::take(&mut self.args);
        vec.push(input);
        self.args = vec;
        self
    }
    pub fn env(&mut self, input: String) -> &mut Self {
        self.env = std::option::Option::Some(input);
        self
    }
    pub fn current_dir(&mut self, input: String) -> &mut Self {
        self.current_dir = std::option::Option::Some(input);
        self
    }
}
impl CommandBuilder {
    pub fn build(&mut self) -> std::result::Result<Command, std::boxed::Box<dyn std::error::Error>> {
        let executable = std::mem::take(&mut self.executable);
        let args = std::mem::take(&mut self.args);
        let env = std::mem::take(&mut self.env);
        let current_dir = std::mem::take(&mut self.current_dir);
        std::result::Result::Ok(Command {
            executable: executable.ok_or(std::boxed::Box::<dyn std::error::Error>::from("no value given for field `executable`"))?,
            args: args,
            env: env,
            current_dir: current_dir,
        })
    }
}

const GENERATED: &str = r#"pub struct CommandBuilder {
    pub executable: std::option::Option<String>,
    pub args: Vec<String>,
    pub env: Option<String>,
    pub current_dir: Option<String>,
}
impl Command {
    pub fn builder() -> CommandBuilder {
        CommandBuilder {
            executable: std::option::Option::None,
            args: std::vec::Vec::new(),
            env: std::option::Option::None,
            current_dir: std::option::Option::None,
        }
    }
}
impl CommandBuilder {
    pub fn executable(&mut self, input: String) -> &mut Self {
        self.executable = std::option::Option::Some(input);
        self
    }
    pub fn args(&mut self, input: Vec<String>) -> &mut Self {
        self.args = input;
        self
    }
    pub fn arg(&mut self, input: String) -> &mut Self {
        let mut vec = std::mem::take(&mut self.args);
        vec.push(input);
        self.args = vec;
        self
    }
    pub fn env(&mut self, input: String) -> &mut Self {
        self.env = std::option::Option::Some(input);
        self
    }
    pub fn current_dir(&mut self, input: String) -> &mut Self {
        self.current_dir = std::option::Option::Some(input);
        self
    }
}
impl CommandBuilder {
    pub fn build(&mut self) -> std::result::Result<Command, std::boxed::Box<dyn std::error::Error>> {
        let executable = std::mem::take(&mut self.executable);
        let args = std::mem::take(&mut self.args);
        let env = std::mem::take(&mut self.env);
        let current_dir = std::mem::take(&mut self.current_dir);
        std::result::Result::Ok(Command {
            executable: executable.ok_or(std::boxed::Box::<dyn std::error::Error>::from("no value given for field `executable`"))?,
            args: args,
            env: env,
            current_dir: current_dir,
        })
    }
}
"#;

fn string_type() -> TypeExpr {
    TypeExpr {
        text: "String".to_string(),
        path: Some(vec![PathSegment {
            ident: "String".to_string(),
            arguments: PathArguments::Empty,
        }]),
    }
}

fn string_in(outer: &str) -> TypeExpr {
    TypeExpr {
        text: format!("{}<String>", outer),
        path: Some(vec![PathSegment {
            ident: outer.to_string(),
            arguments: PathArguments::AngleBracketed(vec![GenericArgument::Type(string_type())]),
        }]),
    }
}

fn command_record() -> Record {
    let each_arg = Annotation {
        meta: Some(Meta::List {
            path: vec!["builder".to_string()],
            nested: vec![NestedMeta::Meta(Meta::NameValue {
                path: vec!["each".to_string()],
                value: Literal::Str("arg".to_string()),
            })],
        }),
    };
    Record {
        name: "Command".to_string(),
        body: Body::Struct(Fields::Named(vec![
            FieldDescriptor {
                name: "executable".to_string(),
                declared_type: string_type(),
                raw_annotations: vec![],
            },
            FieldDescriptor {
                name: "args".to_string(),
                declared_type: string_in("Vec"),
                raw_annotations: vec![each_arg],
            },
            FieldDescriptor {
                name: "env".to_string(),
                declared_type: string_in("Option"),
                raw_annotations: vec![],
            },
            FieldDescriptor {
                name: "current_dir".to_string(),
                declared_type: string_in("Option"),
                raw_annotations: vec![],
            },
        ])),
    }
}

#[test]
fn the_code_below_is_what_the_generator_writes() {
    let expansion = builder::derive::derive(&command_record()).unwrap();
    assert_eq!(expansion.text(), GENERATED);
}

#[test]
fn generated_command_builder_builds_the_command() {
    let command = Command::builder()
        .executable("cat".to_string())
        .arg("-".to_string())
        .arg("file.txt".to_string())
        .build()
        .unwrap();
    assert_eq!(
        command,
        Command {
            executable: "cat".to_string(),
            args: vec!["-".to_string(), "file.txt".to_string()],
            env: None,
            current_dir: None,
        }
    );
}

#[test]
fn generated_command_builder_names_the_missing_executable() {
    let error = Command::builder().arg("-".to_string()).build().unwrap_err();
    assert_eq!(error.to_string(), "no value given for field `executable`");
}

#[test]
fn generated_command_builder_sets_optional_fields() {
    let command = Command::builder()
        .executable("env".to_string())
        .env("A=1".to_string())
        .current_dir("/tmp".to_string())
        .build()
        .unwrap();
    assert_eq!(command.env, Some("A=1".to_string()));
    assert_eq!(command.current_dir, Some("/tmp".to_string()));
    assert_eq!(command.args, Vec::<String>::new());
}

#[test]
fn generated_command_builder_replaces_and_extends_the_arguments() {
    let command = Command::builder()
        .executable("ls".to_string())
        .arg("-l".to_string())
        .args(vec!["-a".to_string()])
        .arg("-h".to_string())
        .build()
        .unwrap();
    assert_eq!(command.args, vec!["-a".to_string(), "-h".to_string()]);
}

#[test]
fn generated_command_builder_is_empty_after_a_build() {
    let mut builder = Command::builder();
    builder.executable("cat".to_string()).arg("-".to_string()).env("A=1".to_string());
    assert!(builder.build().is_ok());
    assert_eq!(builder.executable, None);
    assert_eq!(builder.args, Vec::<String>::new());
    assert_eq!(builder.env, None);
    assert!(builder.build().is_err());
}

#[test]
fn generated_command_builder_is_empty_after_a_failed_build() {
    let mut builder = Command::builder();
    builder.arg("-".to_string()).current_dir("/tmp".to_string());
    assert!(builder.build().is_err());
    assert_eq!(builder.args, Vec::<String>::new());
    assert_eq!(builder.current_dir, None);
    builder.executable("ls".to_string());
    assert_eq!(
        builder.build().unwrap(),
        Command { executable: "ls".to_string(), args: vec![], env: None, current_dir: None }
    );
}
