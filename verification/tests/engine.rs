use smol_vergen::errors::SerializeToEnvError;
use smol_vergen::flat_map::FlatMap;
use smol_vergen::scalar::ScalarValue;
use smol_vergen::serialize_to_env::{
    serialize_to_map, SerializeToEnv, SerializeToEnvMap, SerializeToEnvStruct, StructuredValue,
};

fn text(s: &str) -> StructuredValue {
    StructuredValue::Scalar(ScalarValue::Text(s.to_string()))
}

fn record(fields: Vec<(&str, StructuredValue)>) -> StructuredValue {
    StructuredValue::Record(
        fields.into_iter().map(|(n, v)| (n.to_string(), v)).collect(),
    )
}

#[test]
fn test() {
    let s = record(vec![("name", text("John Doe")), ("email", text("test@example.com"))]);
    let result = serialize_to_map("TEST", &s).unwrap();
    assert_eq!(result.get("TEST_NAME").unwrap().as_str(), "John Doe");
    assert_eq!(result.get("TEST_EMAIL").unwrap().as_str(), "test@example.com");
}

#[test]
fn absent_optional_is_omitted() {
    let s = StructuredValue::Record(vec![
        ("name".to_string(), text("a")),
        ("nickname".to_string(), StructuredValue::OptionalScalar(None)),
    ]);
    let result = serialize_to_map("P", &s).unwrap();
    assert_eq!(result.len(), 1);
    assert_eq!(result.get("P_NAME").unwrap().as_str(), "a");
    assert!(result.get("P_NICKNAME").is_none());
}

#[test]
fn present_optional_is_kept() {
    let s = StructuredValue::Record(vec![(
        "nickname".to_string(),
        StructuredValue::OptionalScalar(Some(ScalarValue::Text("jd".to_string()))),
    )]);
    let result = serialize_to_map("P", &s).unwrap();
    assert_eq!(result.len(), 1);
    assert_eq!(result.get("P_NICKNAME").unwrap().as_str(), "jd");
}

#[test]
fn nested_record_composes_keys() {
    let author = record(vec![("name", text("John Doe")), ("email", text("john@example.com"))]);
    let s = record(vec![("commitAuthor", author)]);
    let result = serialize_to_map("TEST", &s).unwrap();
    assert_eq!(result.len(), 2);
    assert_eq!(result.get("TEST_COMMIT_AUTHOR_NAME").unwrap().as_str(), "John Doe");
    assert_eq!(
        result.get("TEST_COMMIT_AUTHOR_EMAIL").unwrap().as_str(),
        "john@example.com"
    );
}

#[test]
fn third_level_record_is_too_deep() {
    let deepest = record(vec![("x", text("v"))]);
    let mid = record(vec![("inner", deepest)]);
    let root = record(vec![("outer", mid)]);
    let result = serialize_to_map("P", &root);
    assert!(matches!(result, Err(SerializeToEnvError::NestingTooDeep)));
}

#[test]
fn map_inside_nested_record_is_too_deep() {
    let deepest = StructuredValue::Mapping(vec![(text("k"), text("v"))]);
    let mid = record(vec![("inner", deepest)]);
    let root = record(vec![("outer", mid)]);
    let result = serialize_to_map("P", &root);
    assert!(matches!(result, Err(SerializeToEnvError::NestingTooDeep)));
}

#[test]
fn scalar_root_is_unsupported() {
    let result = serialize_to_map("P", &StructuredValue::Scalar(ScalarValue::Integer(42)));
    match result {
        Err(SerializeToEnvError::UnsupportedShape(kind)) => assert_eq!(kind.as_str(), "Scalar"),
        _ => panic!("expected UnsupportedShape"),
    }
}

#[test]
fn sequence_root_is_unsupported() {
    let s = StructuredValue::Sequence(vec![text("a"), text("b")]);
    let result = serialize_to_map("P", &s);
    match result {
        Err(SerializeToEnvError::UnsupportedShape(kind)) => assert_eq!(kind.as_str(), "Sequence"),
        _ => panic!("expected UnsupportedShape"),
    }
}

#[test]
fn other_roots_are_unsupported() {
    for (v, kind) in [
        (StructuredValue::Unit, "Unit"),
        (StructuredValue::Bytes(vec![1, 2, 3]), "Bytes"),
        (StructuredValue::Tuple(vec![text("a")]), "Tuple"),
        (StructuredValue::OptionalScalar(None), "Option"),
    ] {
        match serialize_to_map("P", &v) {
            Err(SerializeToEnvError::UnsupportedShape(k)) => assert_eq!(k.as_str(), kind),
            _ => panic!("expected UnsupportedShape for {}", kind),
        }
    }
}

#[test]
fn sequence_field_is_unsupported() {
    let s = record(vec![("list", StructuredValue::Sequence(vec![text("a")]))]);
    let result = serialize_to_map("P", &s);
    assert!(matches!(result, Err(SerializeToEnvError::UnsupportedShape(_))));
}

#[test]
fn map_root_flattens_scalar_entries() {
    let s = StructuredValue::Mapping(vec![
        (text("branch"), text("main")),
        (text("commitShort"), text("abc123")),
    ]);
    let result = serialize_to_map("M", &s).unwrap();
    assert_eq!(result.len(), 2);
    assert_eq!(result.get("M_BRANCH").unwrap().as_str(), "main");
    assert_eq!(result.get("M_COMMIT_SHORT").unwrap().as_str(), "abc123");
}

#[test]
fn colliding_map_keys_are_rejected() {
    let s = StructuredValue::Mapping(vec![
        (text("Commit-Short"), text("one")),
        (text("commit_short"), text("two")),
    ]);
    let result = serialize_to_map("P", &s);
    match result {
        Err(SerializeToEnvError::DuplicateKey(key)) => {
            assert_eq!(key.as_str(), "P_COMMIT_SHORT");
        }
        _ => panic!("expected DuplicateKey"),
    }
}

#[test]
fn colliding_record_fields_are_rejected() {
    let s = record(vec![("someField", text("one")), ("SOME_FIELD", text("two"))]);
    let result = serialize_to_map("P", &s);
    assert!(matches!(result, Err(SerializeToEnvError::DuplicateKey(_))));
}

#[test]
fn non_string_map_key_is_rejected() {
    let s = StructuredValue::Mapping(vec![(
        StructuredValue::Scalar(ScalarValue::Integer(3)),
        text("v"),
    )]);
    let result = serialize_to_map("P", &s);
    assert!(matches!(result, Err(SerializeToEnvError::KeyNotString)));
}

#[test]
fn composite_map_key_is_rejected() {
    let s = StructuredValue::Mapping(vec![(record(vec![("a", text("b"))]), text("v"))]);
    let result = serialize_to_map("P", &s);
    assert!(matches!(result, Err(SerializeToEnvError::KeyNotString)));
}

#[test]
fn flatten_is_deterministic() {
    let s = record(vec![
        ("name", text("a")),
        ("inner", record(vec![("x", text("1")), ("y", text("2"))])),
    ]);
    let first = serialize_to_map("P", &s).unwrap();
    let second = serialize_to_map("P", &s).unwrap();
    assert_eq!(first.len(), second.len());
    let lhs = first.pairs();
    let rhs = second.pairs();
    for i in 0..lhs.len() {
        assert_eq!(lhs[i].0, rhs[i].0);
        assert_eq!(lhs[i].1, rhs[i].1);
    }
}

#[test]
fn empty_record_yields_empty_mapping() {
    let s = StructuredValue::Record(vec![]);
    let result = serialize_to_map("P", &s).unwrap();
    assert_eq!(result.len(), 0);
}

#[test]
fn empty_prefix_uses_bare_names() {
    let s = record(vec![("name", text("a"))]);
    let result = serialize_to_map("", &s).unwrap();
    assert_eq!(result.get("NAME").unwrap().as_str(), "a");
}

#[test]
fn no_partial_output_on_failure() {
    let s = record(vec![
        ("good", text("ok")),
        ("bad", StructuredValue::Unit),
    ]);
    let result = serialize_to_map("P", &s);
    assert!(result.is_err());
}

#[test]
fn missing_key_on_value_without_key() {
    let mut sm = SerializeToEnvMap::new("P".to_string(), false);
    let mut out = FlatMap::new();
    let result = sm.serialize_value(&text("v"), &mut out);
    assert!(matches!(result, Err(SerializeToEnvError::MissingKey)));
}

#[test]
fn double_key_on_two_keys_in_a_row() {
    let mut sm = SerializeToEnvMap::new("P".to_string(), false);
    assert!(sm.serialize_key(&text("a")).is_ok());
    let result = sm.serialize_key(&text("b"));
    assert!(matches!(result, Err(SerializeToEnvError::DoubleKey)));
}

#[test]
fn struct_serializer_key_discipline() {
    let mut st = SerializeToEnvStruct::new("P".to_string(), false);
    let mut out = FlatMap::new();
    let result = st.serialize_value(&text("v"), &mut out);
    assert!(matches!(result, Err(SerializeToEnvError::MissingKey)));
    assert!(st.serialize_key_name("a").is_ok());
    assert!(matches!(
        st.serialize_key_name("b"),
        Err(SerializeToEnvError::DoubleKey)
    ));
}

#[test]
fn serializer_end_owes_nothing() {
    let st = SerializeToEnvStruct::new("P".to_string(), false);
    assert!(st.end().is_ok());
    let sm = SerializeToEnvMap::new("P".to_string(), false);
    assert!(sm.end().is_ok());
}

#[test]
fn flatten_entry_point_matches_free_function() {
    let s = record(vec![("name", text("a"))]);
    let ser = SerializeToEnv::new("P".to_string());
    let result = ser.flatten(&s).unwrap();
    assert_eq!(result.get("P_NAME").unwrap().as_str(), "a");
}

#[test]
fn error_messages_name_the_condition() {
    assert_eq!(
        SerializeToEnvError::MissingKey.message().as_str(),
        "Missing Key"
    );
    assert_eq!(
        SerializeToEnvError::DoubleKey.message().as_str(),
        "Double Key"
    );
    assert_eq!(
        SerializeToEnvError::UnsupportedShape("Unit".to_string())
            .message()
            .as_str(),
        "Cannot serialize Unit to environment variable"
    );
    assert_eq!(
        SerializeToEnvError::NestingTooDeep.message().as_str(),
        "Complex Types in Complex Types are not supported"
    );
    assert_eq!(
        SerializeToEnvError::KeyNotString.message().as_str(),
        "Key must be able to serialize to string"
    );
    assert_eq!(
        SerializeToEnvError::DuplicateKey("P_X".to_string()).message().as_str(),
        "Duplicate key P_X"
    );
}

#[test]
fn flat_map_refuses_duplicates() {
    let mut m = FlatMap::new();
    assert!(m.insert_new("A".to_string(), "1".to_string()).is_ok());
    assert!(m.insert_new("B".to_string(), "2".to_string()).is_ok());
    let result = m.insert_new("A".to_string(), "3".to_string());
    assert!(matches!(result, Err(SerializeToEnvError::DuplicateKey(_))));
    assert_eq!(m.len(), 2);
    assert!(m.contains_key("A"));
    assert!(!m.contains_key("C"));
    assert_eq!(m.get("A").unwrap().as_str(), "1");
    assert!(m.get("C").is_none());
}
