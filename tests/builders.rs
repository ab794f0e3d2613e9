use serde_save::{
    decimal_text, persisted, replay, Error, Persist, Save, Serializer, ShortCircuit, Variant,
};

fn protocol_message(save: &Save<Error>) -> (String, bool) {
    match save {
        Save::Error(e) => (e.message().to_string(), e.is_protocol()),
        other => panic!("not an error: {:?}", other),
    }
}

#[test]
fn sequence_short_of_its_hint_fails() {
    let mut b = Serializer::new().serialize_seq(Some(3));
    b.serialize_element(Ok(Save::I32(1))).unwrap();
    b.serialize_element(Ok(Save::I32(2))).unwrap();
    let e = b.end().unwrap_err();
    assert_eq!(e.message(), "protocol error: expected a sequence of length 3, got 2");
    assert!(e.is_protocol());
}

#[test]
fn sequence_short_of_its_hint_persists_a_third_element() {
    let mut b = Serializer::new().save_errors().serialize_seq(Some(3));
    b.serialize_element(Ok(Save::I32(1))).unwrap();
    b.serialize_element(Ok(Save::I32(2))).unwrap();
    match b.end().unwrap() {
        Save::Sequence(items) => {
            assert_eq!(items.len(), 3);
            assert_eq!(items[0], Save::I32(1));
            assert_eq!(items[1], Save::I32(2));
            let (msg, protocol) = protocol_message(&items[2]);
            assert_eq!(msg, "protocol error: expected a sequence of length 3, got 2");
            assert!(protocol);
        }
        other => panic!("{:?}", other),
    }
}

#[test]
fn sequence_without_hint_is_not_checked() {
    let mut b = Serializer::new().serialize_seq(None);
    b.serialize_element(Ok(Save::Bool(true))).unwrap();
    assert_eq!(b.end().unwrap(), Save::Sequence(vec![Save::Bool(true)]));
}

#[test]
fn checks_can_be_disabled() {
    let mut b = Serializer::new()
        .check_for_protocol_errors(false)
        .serialize_tuple(5);
    b.serialize_element(Ok(Save::U8(7))).unwrap();
    assert_eq!(b.end().unwrap(), Save::Tuple(vec![Save::U8(7)]));
}

#[test]
fn tuple_kinds_name_themselves() {
    let e = Serializer::new().serialize_tuple(1).end().unwrap_err();
    assert_eq!(e.message(), "protocol error: expected a tuple of length 1, got 0");
    let mut b = Serializer::new().serialize_tuple_struct("P", 1);
    b.serialize_field(Ok(Save::U8(1))).unwrap();
    b.serialize_field(Ok(Save::U8(2))).unwrap();
    let e = b.end().unwrap_err();
    assert_eq!(e.message(), "protocol error: expected a tuple struct of length 1, got 2");
    let e = Serializer::new()
        .serialize_tuple_variant("E", 0, "V", 12)
        .end()
        .unwrap_err();
    assert_eq!(e.message(), "protocol error: expected a tuple variant of length 12, got 0");
}

#[test]
fn tuple_variant_keeps_its_variant() {
    let mut b = Serializer::new().serialize_tuple_variant("E", 4, "V", 1);
    b.serialize_field(Ok(Save::Char('x'))).unwrap();
    assert_eq!(
        b.end().unwrap(),
        Save::TupleVariant {
            variant: Variant { name: "E", variant_index: 4, variant: "V" },
            values: vec![Save::Char('x')],
        }
    );
}

#[test]
fn struct_duplicate_field_names() {
    let mut b = Serializer::new().save_errors().serialize_struct("S", 2);
    b.serialize_field("a", Ok(Save::U8(1))).unwrap();
    b.serialize_field("a", Ok(Save::U8(2))).unwrap();
    match b.end().unwrap() {
        Save::Struct { name, fields } => {
            assert_eq!(name, "S");
            assert_eq!(fields.len(), 3);
            assert_eq!(fields[0], ("a", Some(Save::U8(1))));
            assert_eq!(fields[1], ("a", Some(Save::U8(2))));
            assert_eq!(fields[2].0, "!error");
            let (msg, protocol) = protocol_message(fields[2].1.as_ref().unwrap());
            assert!(msg.contains("duplicate field names: a"));
            assert_eq!(msg, "protocol error: struct has duplicate field names: a");
            assert!(protocol);
        }
        other => panic!("{:?}", other),
    }
}

#[test]
fn struct_checks_are_independent() {
    let mut b = Serializer::new().save_errors().serialize_struct_variant("E", 0, "V", 3);
    b.serialize_field("a", Ok(Save::U8(1))).unwrap();
    b.serialize_field("a", Ok(Save::U8(2))).unwrap();
    match b.end().unwrap() {
        Save::StructVariant { fields, .. } => {
            assert_eq!(fields.len(), 4);
            let (dup, _) = protocol_message(fields[2].1.as_ref().unwrap());
            assert_eq!(dup, "protocol error: struct has duplicate field names: a");
            assert_eq!(fields[3].0, "!error");
            let (len, protocol) = protocol_message(fields[3].1.as_ref().unwrap());
            assert_eq!(len, "protocol error: expected a struct of length 3, got 2");
            assert!(protocol);
        }
        other => panic!("{:?}", other),
    }
}

#[test]
fn struct_duplicates_listed_once_per_repetition() {
    let mut b = Serializer::new().serialize_struct("S", 5);
    for name in ["a", "b", "a", "b", "a"] {
        b.serialize_field(name, Ok(Save::Unit)).unwrap();
    }
    let e = b.end().unwrap_err();
    assert_eq!(e.message(), "protocol error: struct has duplicate field names: a, b, a");
}

#[test]
fn struct_variant_checks_its_length() {
    let mut b = Serializer::new().serialize_struct_variant("E", 1, "S", 2);
    b.serialize_field("x", Ok(Save::I8(-1))).unwrap();
    let e = b.end().unwrap_err();
    assert_eq!(e.message(), "protocol error: expected a struct of length 2, got 1");
}

#[test]
fn map_with_orphaned_value() {
    let mut b = Serializer::new().save_errors().serialize_map(None);
    b.serialize_key(Ok(Save::string("k1"))).unwrap();
    b.serialize_key(Ok(Save::string("k2"))).unwrap();
    b.serialize_value(Ok(Save::U32(1))).unwrap();
    b.serialize_value(Ok(Save::U32(2))).unwrap();
    b.serialize_value(Ok(Save::U32(3))).unwrap();
    match b.end().unwrap() {
        Save::Mapping(pairs) => {
            assert_eq!(pairs.len(), 3);
            assert_eq!(pairs[0], (Save::string("k1"), Save::U32(1)));
            assert_eq!(pairs[1], (Save::string("k2"), Save::U32(2)));
            let (msg, protocol) = protocol_message(&pairs[2].0);
            assert_eq!(msg, "protocol error: map has 2 keys and 3 values");
            assert!(protocol);
            assert_eq!(pairs[2].1, Save::U32(3));
        }
        other => panic!("{:?}", other),
    }
}

#[test]
fn map_with_orphaned_key_short_circuits() {
    let mut b = Serializer::new().serialize_map(Some(1));
    b.serialize_key(Ok(Save::Unit)).unwrap();
    let e = b.end().unwrap_err();
    assert_eq!(e.message(), "protocol error: map has 1 keys and 0 values");
}

#[test]
fn map_duplicate_keys_are_kept() {
    let mut b = Serializer::new().serialize_map(Some(2));
    for v in [1u8, 2] {
        b.serialize_key(Ok(Save::Bool(true))).unwrap();
        b.serialize_value(Ok(Save::U8(v))).unwrap();
    }
    assert_eq!(
        b.end().unwrap(),
        Save::Mapping(vec![(Save::Bool(true), Save::U8(1)), (Save::Bool(true), Save::U8(2))])
    );
}

#[test]
fn map_length_hint_adds_a_pair_of_errors() {
    let mut b = Serializer::new().save_errors().serialize_map(Some(3));
    b.serialize_key(Ok(Save::U8(0))).unwrap();
    b.serialize_value(Ok(Save::U8(1))).unwrap();
    match b.end().unwrap() {
        Save::Mapping(pairs) => {
            assert_eq!(pairs.len(), 2);
            let (k, _) = protocol_message(&pairs[1].0);
            let (v, _) = protocol_message(&pairs[1].1);
            assert_eq!(k, "protocol error: expected a map of length 3, got 1");
            assert_eq!(v, k);
        }
        other => panic!("{:?}", other),
    }
}

#[test]
fn skipped_field_differs_from_absent_value() {
    let mut b = Serializer::new().serialize_struct("S", 2);
    b.skip_field("x");
    b.serialize_field("y", Ok(Save::Option(None))).unwrap();
    match b.end().unwrap() {
        Save::Struct { fields, .. } => {
            assert_eq!(fields[0], ("x", None));
            assert_eq!(fields[1], ("y", Some(Save::Option(None))));
            assert_ne!(fields[0].1, fields[1].1);
        }
        other => panic!("{:?}", other),
    }
}

#[test]
fn short_circuit_against_persist() {
    let mut b = Serializer::new().serialize_struct("S", 1);
    let e = b.serialize_field("f", Err(Error::custom("boom"))).unwrap_err();
    assert_eq!(e.message(), "boom");
    assert!(!e.is_protocol());

    let mut b = Serializer::new().save_errors().serialize_struct("S", 1);
    b.serialize_field("f", Err(Error::custom("boom"))).unwrap();
    assert_eq!(
        b.end().unwrap(),
        Save::strukt("S", vec![("f", Save::error("boom"))])
    );
}

#[test]
fn short_circuit_tree_needs_no_error_arm() {
    fn describe(save: Save) -> &'static str {
        match save {
            Save::Error(e) => match e {},
            Save::Unit => "unit",
            _ => "other",
        }
    }
    let tree: Save<_> = Serializer::<ShortCircuit>::new().serialize_unit();
    assert_eq!(describe(tree), "unit");
}

#[test]
fn root_failure_becomes_root_error() {
    assert_eq!(persisted(Err(Error::custom("bad"))), Save::error("bad"));
    assert_eq!(persisted(Ok(Save::U64(9))), Save::U64(9));
}

#[test]
fn option_and_newtypes_wrap_their_value() {
    let s = Serializer::new();
    assert_eq!(
        s.serialize_some(Ok(Save::I16(3))).unwrap(),
        Save::Option(Some(Box::new(Save::I16(3))))
    );
    let s = Serializer::new().save_errors();
    assert_eq!(
        s.serialize_newtype_struct("N", Err(Error::custom("no"))).unwrap(),
        Save::NewTypeStruct { name: "N", value: Box::new(Save::error("no")) }
    );
    let s = Serializer::new();
    assert!(s
        .serialize_newtype_variant("E", 2, "V", Err(Error::custom("no")))
        .is_err());
}

#[test]
fn leaves() {
    let s = || -> Serializer<Persist> { Serializer::new().save_errors() };
    assert_eq!(s().serialize_str("hi"), Save::string("hi"));
    assert_eq!(s().serialize_bytes(&[1, 2]), Save::bytes(vec![1, 2]));
    assert_eq!(s().serialize_f64(1.5f64.to_bits()), Save::F64(1.5f64.to_bits()));
    assert_eq!(s().serialize_i128(-5), Save::I128(-5));
    assert_eq!(s().serialize_unit_struct("U"), Save::UnitStruct("U"));
    assert_eq!(
        s().serialize_unit_variant("E", 1, "B"),
        Save::UnitVariant(Variant { name: "E", variant_index: 1, variant: "B" })
    );
    assert_eq!(s().collect_str(String::from("12")), Save::string("12"));
    assert_eq!(Save::<Error>::from(7u16), Save::U16(7));
    assert_eq!(Save::<Error>::from(()), Save::Unit);
}

#[test]
fn configuration_is_handed_on() {
    let s = Serializer::new().human_readable(false);
    assert!(!s.is_human_readable());
    let b = s.serialize_seq(None);
    assert!(!b.serializer().is_human_readable());
    assert!(Serializer::default().is_human_readable());
}

#[test]
fn decimal_rendering() {
    assert_eq!(decimal_text(0), "0");
    assert_eq!(decimal_text(305), "305");
    assert_eq!(decimal_text(usize::MAX), usize::MAX.to_string());
}

fn sample() -> Save<Error> {
    Save::Struct {
        name: "Outer",
        fields: vec![
            ("seq", Some(Save::Sequence(vec![Save::U8(1), Save::Option(None)]))),
            ("skipped", None),
            (
                "map",
                Some(Save::Mapping(vec![(Save::string("k"), Save::Tuple(vec![Save::Unit]))])),
            ),
            (
                "variant",
                Some(Save::StructVariant {
                    variant: Variant { name: "E", variant_index: 3, variant: "S" },
                    fields: vec![("n", Some(Save::NewTypeStruct {
                        name: "N",
                        value: Box::new(Save::bytes(vec![0, 255])),
                    }))],
                }),
            ),
        ],
    }
}

#[test]
fn replay_reproduces_a_tree() {
    let tree = sample();
    let again = replay(&tree, Serializer::new().save_errors()).unwrap();
    assert_eq!(again, tree);
}

#[test]
fn replay_surfaces_persisted_errors() {
    let tree = Save::Sequence(vec![Save::U8(1), Save::error("kept")]);
    let e = replay(&tree, Serializer::new().save_errors().check_for_protocol_errors(false)).unwrap();
    assert_eq!(e, Save::Sequence(vec![Save::U8(1), Save::error("kept")]));
    let e = replay(&Save::error("kept"), Serializer::new().save_errors()).unwrap_err();
    assert_eq!(e.message(), "kept");
    assert!(!e.is_protocol());
}

#[test]
fn replay_checks_repeated_names() {
    let tree: Save<Error> = Save::strukt("S", vec![("a", Save::Unit), ("a", Save::Unit)]);
    let unchecked = replay(&tree, Serializer::new().save_errors().check_for_protocol_errors(false));
    assert_eq!(unchecked.unwrap(), tree);
    match replay(&tree, Serializer::new().save_errors()).unwrap() {
        Save::Struct { fields, .. } => {
            assert_eq!(fields.len(), 3);
            assert_eq!(fields[2].0, "!error");
            let (msg, _) = protocol_message(fields[2].1.as_ref().unwrap());
            assert_eq!(msg, "protocol error: struct has duplicate field names: a");
        }
        other => panic!("{:?}", other),
    }
    let e = replay(&tree, Serializer::new()).unwrap_err();
    assert_eq!(e.message(), "protocol error: struct has duplicate field names: a");
}

#[test]
fn replay_short_circuits_on_the_first_persisted_error() {
    let tree: Save<Error> = Save::Sequence(vec![
        Save::U8(1),
        Save::Tuple(vec![Save::error("first")]),
        Save::error("second"),
    ]);
    let e = replay(&tree, Serializer::new().check_for_protocol_errors(false)).unwrap_err();
    assert_eq!(e.message(), "first");
    assert!(!e.is_protocol());
}

#[test]
fn replay_persists_nested_errors_in_place() {
    let tree: Save<Error> = Save::Mapping(vec![(Save::string("k"), Save::error("bad"))]);
    let again = replay(&tree, Serializer::new().save_errors()).unwrap();
    assert_eq!(again, tree);
}

#[test]
fn tuples_convert_in_order() {
    let t: Save = Save::from((Save::U8(1), Save::U8(2), Save::U8(3)));
    assert_eq!(t, Save::Tuple(vec![Save::U8(1), Save::U8(2), Save::U8(3)]));
    let one: Save = Save::from((Save::Unit,));
    assert_eq!(one, Save::Tuple(vec![Save::Unit]));
}
