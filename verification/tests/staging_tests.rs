use builder::descriptor::{FieldDescriptor, RawField, TypeDescriptor, TypeShape, UnsupportedShape};
use builder::staging::Builder;
use builder::value::Value;

fn command_descriptor() -> TypeDescriptor {
    TypeDescriptor {
        name: "Command".to_string(),
        fields: vec![
            FieldDescriptor { name: "executable".to_string(), ty: "String".to_string() },
            FieldDescriptor { name: "args".to_string(), ty: "StringList".to_string() },
        ],
    }
}

#[derive(Debug, PartialEq)]
struct Command {
    executable: String,
    args: Vec<String>,
}

fn command_from(mut vals: Vec<Value>) -> Command {
    assert_eq!(vals.len(), 2);
    let args = match vals.pop().unwrap() {
        Value::List(v) => v,
        other => panic!("args slot held {:?}", other),
    };
    let executable = match vals.pop().unwrap() {
        Value::Str(s) => s,
        other => panic!("executable slot held {:?}", other),
    };
    Command { executable, args }
}

#[test]
fn reader_keeps_named_fields_in_order() {
    let raw = vec![
        RawField { name: Some("executable".to_string()), ty: "String".to_string() },
        RawField { name: Some("args".to_string()), ty: "StringList".to_string() },
    ];
    let desc = builder::descriptor::read_descriptor("Command".to_string(), TypeShape::Product(raw))
        .unwrap();
    assert_eq!(desc.name, "Command");
    assert_eq!(desc.fields.len(), 2);
    assert_eq!(desc.fields[0].name, "executable");
    assert_eq!(desc.fields[0].ty, "String");
    assert_eq!(desc.fields[1].name, "args");
    assert_eq!(desc.fields[1].ty, "StringList");
}

#[test]
fn reader_drops_positional_fields() {
    let raw = vec![
        RawField { name: None, ty: "u32".to_string() },
        RawField { name: Some("named".to_string()), ty: "String".to_string() },
        RawField { name: None, ty: "bool".to_string() },
    ];
    let desc = builder::descriptor::read_descriptor("Mixed".to_string(), TypeShape::Product(raw))
        .unwrap();
    assert_eq!(desc.fields.len(), 1);
    assert_eq!(desc.fields[0].name, "named");
    assert_eq!(desc.fields[0].ty, "String");
}

#[test]
fn reader_rejects_sum_type() {
    let r = builder::descriptor::read_descriptor("Either".to_string(), TypeShape::Sum);
    assert_eq!(r.unwrap_err(), UnsupportedShape::SumType);
}

#[test]
fn reader_rejects_union_type() {
    let r = builder::descriptor::read_descriptor("Raw".to_string(), TypeShape::Union);
    assert_eq!(r.unwrap_err(), UnsupportedShape::UnionType);
}

#[test]
fn fresh_builder_has_one_empty_slot_per_field() {
    let desc = command_descriptor();
    let b = Builder::for_descriptor(&desc);
    assert_eq!(b.slot_count(), 2);
    assert!(!b.slot_is_set(0));
    assert!(!b.slot_is_set(1));
}

#[test]
fn builder_round_trip_equals_direct_construction() {
    let desc = command_descriptor();
    let mut b = Builder::for_descriptor(&desc);
    assert!(b.set("executable", Value::Str("ls".to_string())));
    assert!(b.set("args", Value::List(vec!["-la".to_string()])));
    let built = command_from(b.finalize().unwrap());
    let direct = Command { executable: "ls".to_string(), args: vec!["-la".to_string()] };
    assert_eq!(built, direct);
}

#[test]
fn finalize_incomplete_names_missing_field() {
    let desc = command_descriptor();
    let mut b = Builder::for_descriptor(&desc);
    assert!(b.set("executable", Value::Str("ls".to_string())));
    let err = b.finalize().unwrap_err();
    assert_eq!(err.missing, "args");
}

#[test]
fn finalize_every_strict_subset_fails() {
    let desc = TypeDescriptor {
        name: "Triple".to_string(),
        fields: vec![
            FieldDescriptor { name: "a".to_string(), ty: "String".to_string() },
            FieldDescriptor { name: "b".to_string(), ty: "String".to_string() },
            FieldDescriptor { name: "c".to_string(), ty: "String".to_string() },
        ],
    };
    let names = ["a", "b", "c"];
    // every strict subset of the three fields, as a bitmask
    for mask in 0u32..7 {
        let mut b = Builder::for_descriptor(&desc);
        for (i, name) in names.iter().enumerate() {
            if mask & (1 << i) != 0 {
                assert!(b.set(name, Value::Str("v".to_string())));
            }
        }
        assert!(b.finalize().is_err(), "subset {:03b} must not finalize", mask);
    }
}

#[test]
fn setter_overwrites_previous_value() {
    let desc = command_descriptor();
    let mut b = Builder::for_descriptor(&desc);
    assert!(b.set("executable", Value::Str("ls".to_string())));
    assert!(b.set("args", Value::List(vec![])));
    assert!(b.set("executable", Value::Str("pwd".to_string())));
    let built = command_from(b.finalize().unwrap());
    assert_eq!(built.executable, "pwd");
    assert_eq!(built.args, Vec::<String>::new());
}

#[test]
fn zero_field_builder_finalizes_trivially() {
    let raw = vec![
        RawField { name: None, ty: "u32".to_string() },
        RawField { name: None, ty: "u64".to_string() },
    ];
    let desc = builder::descriptor::read_descriptor("Pair".to_string(), TypeShape::Product(raw))
        .unwrap();
    assert_eq!(desc.fields.len(), 0);
    let b = Builder::for_descriptor(&desc);
    assert_eq!(b.slot_count(), 0);
    let vals = b.finalize().unwrap();
    assert!(vals.is_empty());
}

#[test]
fn set_unknown_field_is_rejected() {
    let desc = command_descriptor();
    let mut b = Builder::for_descriptor(&desc);
    assert!(!b.set("cwd", Value::Str("/tmp".to_string())));
    assert!(!b.slot_is_set(0));
    assert!(!b.slot_is_set(1));
}

#[test]
fn field_index_finds_first_match() {
    let desc = command_descriptor();
    let b = Builder::for_descriptor(&desc);
    assert_eq!(b.field_index("executable"), Some(0));
    assert_eq!(b.field_index("args"), Some(1));
    assert_eq!(b.field_index("env"), None);
}

#[test]
fn set_at_stores_by_index() {
    let desc = command_descriptor();
    let mut b = Builder::for_descriptor(&desc);
    b.set_at(0, Value::Str("ls".to_string()));
    assert!(b.slot_is_set(0));
    assert!(!b.slot_is_set(1));
}

#[test]
fn finalize_twice_succeeds_with_equal_results() {
    let desc = command_descriptor();
    let mut b = Builder::for_descriptor(&desc);
    assert!(b.set("executable", Value::Str("ls".to_string())));
    assert!(b.set("args", Value::List(vec!["-la".to_string()])));
    let first = b.finalize().unwrap();
    let second = b.finalize().unwrap();
    assert_eq!(first, second);
}

#[test]
fn duplicate_preserves_value() {
    let s = Value::Str("ls".to_string());
    let l = Value::List(vec!["-l".to_string(), "-a".to_string()]);
    assert_eq!(s.duplicate(), s);
    assert_eq!(l.duplicate(), l);
}
