use builder::builder_ident;
use builder::descriptor::{FieldDescriptor, RawField, TypeDescriptor, TypeShape, UnsupportedShape};
use builder::synth;

fn command_descriptor() -> TypeDescriptor {
    TypeDescriptor {
        name: "Command".to_string(),
        fields: vec![
            FieldDescriptor { name: "executable".to_string(), ty: "String".to_string() },
            FieldDescriptor { name: "args".to_string(), ty: "Vec<String>".to_string() },
        ],
    }
}

const COMMAND_STRUCT: &str = "pub struct CommandBuilder {\n    executable: Option<String>,\n    args: Option<Vec<String>>,\n}\n";

const COMMAND_CONSTRUCTOR: &str = "impl Command {\n    pub fn builder() -> CommandBuilder {\n        CommandBuilder {\n            executable: None,\n            args: None,\n        }\n    }\n}\n";

const COMMAND_SETTERS: &str = "    pub fn executable(&mut self, executable: String) -> &mut Self {\n        self.executable = Some(executable);\n        self\n    }\n    pub fn args(&mut self, args: Vec<String>) -> &mut Self {\n        self.args = Some(args);\n        self\n    }\n";

const COMMAND_FINALIZER: &str = "    pub fn build(&self) -> Result<Command, String> {\n        let executable = match &self.executable {\n            Some(value) => value.clone(),\n            None => return Err(\"missing field: executable\".to_string()),\n        };\n        let args = match &self.args {\n            Some(value) => value.clone(),\n            None => return Err(\"missing field: args\".to_string()),\n        };\n        Ok(Command {\n            executable,\n            args,\n        })\n    }\n";

#[test]
fn builder_ident_appends_suffix() {
    assert_eq!(builder_ident("Command"), "CommandBuilder");
    assert_eq!(builder_ident(""), "Builder");
}

#[test]
fn struct_decl_emits_optional_slots() {
    let desc = command_descriptor();
    assert_eq!(synth::struct_decl(&desc), COMMAND_STRUCT);
}

#[test]
fn constructor_emits_empty_slots() {
    let desc = command_descriptor();
    assert_eq!(synth::constructor_decl(&desc), COMMAND_CONSTRUCTOR);
}

#[test]
fn setter_decls_emit_one_setter_per_field() {
    let desc = command_descriptor();
    assert_eq!(synth::setter_decls(&desc), COMMAND_SETTERS);
}

#[test]
fn finalizer_checks_every_slot() {
    let desc = command_descriptor();
    assert_eq!(synth::finalizer_decl(&desc), COMMAND_FINALIZER);
}

#[test]
fn synthesize_concatenates_the_artifact() {
    let desc = command_descriptor();
    let expected = format!(
        "{}{}impl CommandBuilder {{\n{}{}}}\n",
        COMMAND_STRUCT, COMMAND_CONSTRUCTOR, COMMAND_FINALIZER, COMMAND_SETTERS
    );
    assert_eq!(synth::synthesize(&desc), expected);
}

#[test]
fn synthesize_is_deterministic() {
    let once = synth::synthesize(&command_descriptor());
    let again = synth::synthesize(&command_descriptor());
    assert_eq!(once, again);
}

#[test]
fn synthesize_shape_reads_then_emits() {
    let raw = vec![
        RawField { name: Some("executable".to_string()), ty: "String".to_string() },
        RawField { name: None, ty: "u32".to_string() },
        RawField { name: Some("args".to_string()), ty: "Vec<String>".to_string() },
    ];
    let code = synth::synthesize_shape("Command".to_string(), TypeShape::Product(raw)).unwrap();
    assert_eq!(code, synth::synthesize(&command_descriptor()));
}

#[test]
fn synthesize_shape_rejects_sum_and_union() {
    let sum = synth::synthesize_shape("Either".to_string(), TypeShape::Sum);
    assert_eq!(sum.unwrap_err(), UnsupportedShape::SumType);
    let union_like = synth::synthesize_shape("Raw".to_string(), TypeShape::Union);
    assert_eq!(union_like.unwrap_err(), UnsupportedShape::UnionType);
}

#[test]
fn artifact_for_zero_named_fields_is_trivial() {
    let desc = TypeDescriptor { name: "Unit".to_string(), fields: vec![] };
    let expected = "pub struct UnitBuilder {\n}\n\
        impl Unit {\n    pub fn builder() -> UnitBuilder {\n        UnitBuilder {\n        }\n    }\n}\n\
        impl UnitBuilder {\n    pub fn build(&self) -> Result<Unit, String> {\n        Ok(Unit {\n        })\n    }\n}\n";
    assert_eq!(synth::synthesize(&desc), expected);
}
