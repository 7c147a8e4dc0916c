use store_lib::binder::{
    bind, coerce, identifier_from, strip_quotes, timestamp_from, BoundValue,
};
use store_lib::document::{Document, FieldValue};
use store_lib::registry::{ColumnKind, Registry};
use store_lib::stores::store::{StoreError, StoreTrait};
use store_lib::stores::user_store::UserPGStore;

fn text(s: &str) -> FieldValue {
    FieldValue::Text(s.to_string())
}

fn name(s: &str) -> String {
    s.to_string()
}

fn coercion_error(field: &str) -> StoreError {
    StoreError::CoercionError(field.to_string())
}

fn registry() -> Registry {
    UserPGStore.registry()
}

#[test]
fn strip_quotes_takes_enclosing_quotes_away() {
    assert_eq!(strip_quotes(&name("\"alice\"")), "alice");
    assert_eq!(strip_quotes(&name("alice")), "alice");
    assert_eq!(strip_quotes(&name("\"\"alice\"")), "alice");
    assert_eq!(strip_quotes(&name("alice\"\"\"")), "alice");
}

#[test]
fn strip_quotes_keeps_quotes_inside() {
    assert_eq!(strip_quotes(&name("\"a\"b\"")), "a\"b");
    assert_eq!(strip_quotes(&name("a\"b")), "a\"b");
    assert_eq!(strip_quotes(&name("'alice'")), "'alice'");
}

#[test]
fn strip_quotes_of_nothing_but_quotes_is_empty() {
    assert_eq!(strip_quotes(&name("")), "");
    assert_eq!(strip_quotes(&name("\"")), "");
    assert_eq!(strip_quotes(&name("\"\"\"")), "");
}

#[test]
fn strip_quotes_counts_characters_not_bytes() {
    assert_eq!(strip_quotes(&name("\"h\u{e9}llo w\u{f6}rld\"")), "h\u{e9}llo w\u{f6}rld");
    assert_eq!(strip_quotes(&name("\"\u{1f600}\"")), "\u{1f600}");
}

#[test]
fn strip_quotes_agrees_with_trim_matches() {
    for sample in ["", "\"", "\"\"", "a", "\"a", "a\"", "\"a\"", "\"\"a\"b\"\"", " \"a\" ", "\u{e9}\""] {
        assert_eq!(strip_quotes(&sample.to_string()), sample.trim_matches('"'));
    }
}

#[test]
fn identifier_is_read_from_its_hyphenated_form() {
    let bound = coerce(
        ColumnKind::Identifier,
        &text("550e8400-e29b-41d4-a716-446655440000"),
        &name("id"),
        &registry(),
    );
    assert_eq!(bound, Ok(BoundValue::Identifier(113059749145936325402354257176981405696)));
    let bound = coerce(
        ColumnKind::Identifier,
        &text("a1a2a3a4-b1b2-c1c2-d1d2-d3d4d5d6d7d8"),
        &name("id"),
        &registry(),
    );
    assert_eq!(bound, Ok(BoundValue::Identifier(0xa1a2a3a4b1b2c1c2d1d2d3d4d5d6d7d8)));
}

#[test]
fn identifier_is_read_as_the_uuid_crate_reads_it() {
    for sample in [
        "550e8400e29b41d4a716446655440000",
        "550E8400-E29B-41D4-A716-446655440000",
        "urn:uuid:550e8400-e29b-41d4-a716-446655440000",
        "{550e8400-e29b-41d4-a716-446655440000}",
        "00000000-0000-0000-0000-000000000000",
        "ffffffff-ffff-ffff-ffff-ffffffffffff",
    ] {
        let expected = uuid::Uuid::parse_str(sample).unwrap().as_u128();
        let bound = coerce(ColumnKind::Identifier, &text(sample), &name("id"), &registry());
        assert_eq!(bound, Ok(BoundValue::Identifier(expected)));
    }
}

#[test]
fn malformed_identifier_is_a_coercion_error() {
    for sample in ["", "alice", "550e8400-e29b-41d4-a716", "550e8400-e29b-41d4-a716-44665544000g"] {
        let bound = coerce(ColumnKind::Identifier, &text(sample), &name("id"), &registry());
        assert_eq!(bound, Err(coercion_error("id")));
    }
}

#[test]
fn identifier_must_be_a_string() {
    for value in [FieldValue::Null, FieldValue::Bool(true), FieldValue::Number("7".to_string()), FieldValue::Nested] {
        let bound = coerce(ColumnKind::Identifier, &value, &name("id"), &registry());
        assert_eq!(bound, Err(coercion_error("id")));
    }
}

#[test]
fn timestamp_is_read_from_its_iso_form() {
    let bound =
        coerce(ColumnKind::Timestamp, &text("2015-09-18T23:56:04"), &name("created_at"), &registry());
    assert_eq!(bound, Ok(BoundValue::Timestamp(1442620564, 0)));
    let bound = coerce(
        ColumnKind::Timestamp,
        &text("2016-11-15T07:39:24.500"),
        &name("created_at"),
        &registry(),
    );
    assert_eq!(bound, Ok(BoundValue::Timestamp(1479195564, 500_000_000)));
    let bound = coerce(
        ColumnKind::Timestamp,
        &text("1969-12-31T23:59:59.000000001"),
        &name("created_at"),
        &registry(),
    );
    assert_eq!(bound, Ok(BoundValue::Timestamp(-1, 1)));
}

#[test]
fn unparseable_timestamp_is_a_coercion_error() {
    for sample in ["", "yesterday", "2015-09-18", "2015-13-18T23:56:04", "2015-09-18T25:00:00"] {
        let bound =
            coerce(ColumnKind::Timestamp, &text(sample), &name("updated_at"), &registry());
        assert_eq!(bound, Err(coercion_error("updated_at")));
    }
    let bound =
        coerce(ColumnKind::Timestamp, &FieldValue::Number("0".to_string()), &name("t"), &registry());
    assert_eq!(bound, Err(coercion_error("t")));
}

#[test]
fn boolean_is_a_boolean_literal() {
    let bound = coerce(ColumnKind::Boolean, &FieldValue::Bool(true), &name("confirmed"), &registry());
    assert_eq!(bound, Ok(BoundValue::Boolean(true)));
    let bound = coerce(ColumnKind::Boolean, &FieldValue::Bool(false), &name("confirmed"), &registry());
    assert_eq!(bound, Ok(BoundValue::Boolean(false)));
}

#[test]
fn what_is_no_boolean_is_a_coercion_error() {
    for value in [text("true"), FieldValue::Number("1".to_string()), FieldValue::Null, FieldValue::Nested] {
        let bound = coerce(ColumnKind::Boolean, &value, &name("confirmed"), &registry());
        assert_eq!(bound, Err(coercion_error("confirmed")));
    }
}

#[test]
fn label_must_be_one_of_the_registry() {
    let bound = coerce(ColumnKind::Enumeration, &text("Normal"), &name("user_role"), &registry());
    assert_eq!(bound, Ok(BoundValue::Label("Normal".to_string())));
    for sample in ["normal", "Root", "", "\"Normal\""] {
        let bound = coerce(ColumnKind::Enumeration, &text(sample), &name("user_role"), &registry());
        assert_eq!(bound, Err(coercion_error("user_role")));
    }
    let bound = coerce(ColumnKind::Enumeration, &FieldValue::Bool(true), &name("user_role"), &registry());
    assert_eq!(bound, Err(coercion_error("user_role")));
}

#[test]
fn text_is_a_string_without_enclosing_quotes() {
    let bound = coerce(ColumnKind::Text, &text("alice"), &name("username"), &registry());
    assert_eq!(bound, Ok(BoundValue::Text("alice".to_string())));
    let bound = coerce(ColumnKind::Text, &text("\"alice\""), &name("username"), &registry());
    assert_eq!(bound, Ok(BoundValue::Text("alice".to_string())));
    let bound = coerce(ColumnKind::Text, &text(""), &name("username"), &registry());
    assert_eq!(bound, Ok(BoundValue::Text("".to_string())));
}

#[test]
fn text_must_be_a_string() {
    for value in [FieldValue::Null, FieldValue::Bool(true), FieldValue::Number("7".to_string()), FieldValue::Nested] {
        let bound = coerce(ColumnKind::Text, &value, &name("username"), &registry());
        assert_eq!(bound, Err(coercion_error("username")));
    }
}

#[test]
fn parsed_values_become_parameters() {
    assert_eq!(identifier_from(Some(5), &name("id")), Ok(BoundValue::Identifier(5)));
    assert_eq!(identifier_from(None, &name("id")), Err(coercion_error("id")));
    assert_eq!(timestamp_from(Some((9, 3)), &name("at")), Ok(BoundValue::Timestamp(9, 3)));
    assert_eq!(timestamp_from(None, &name("at")), Err(coercion_error("at")));
}

#[test]
fn bind_follows_the_order_of_the_names() {
    let mut doc = Document::new();
    doc.insert(name("username"), text("alice"));
    doc.insert(name("confirmed"), FieldValue::Bool(true));
    doc.insert(name("id"), text("550e8400-e29b-41d4-a716-446655440000"));
    let bound = bind(&vec![name("id"), name("username"), name("confirmed")], &doc, &registry());
    assert_eq!(
        bound,
        Ok(vec![
            BoundValue::Identifier(113059749145936325402354257176981405696),
            BoundValue::Text("alice".to_string()),
            BoundValue::Boolean(true),
        ])
    );
    let bound = bind(&vec![name("confirmed"), name("username")], &doc, &registry());
    assert_eq!(
        bound,
        Ok(vec![BoundValue::Boolean(true), BoundValue::Text("alice".to_string())])
    );
}

#[test]
fn bind_of_no_names_binds_nothing() {
    let mut doc = Document::new();
    doc.insert(name("username"), text("alice"));
    assert_eq!(bind(&vec![], &doc, &registry()), Ok(vec![]));
}

#[test]
fn bind_takes_fields_that_are_not_declared_for_text() {
    let mut doc = Document::new();
    doc.insert(name("nickname"), text("\"al\""));
    assert_eq!(
        bind(&vec![name("nickname")], &doc, &registry()),
        Ok(vec![BoundValue::Text("al".to_string())])
    );
}

#[test]
fn bind_fails_at_the_first_field_that_cannot_be_coerced() {
    let mut doc = Document::new();
    doc.insert(name("username"), text("alice"));
    doc.insert(name("confirmed"), text("yes"));
    doc.insert(name("id"), text("nope"));
    let names = vec![name("username"), name("confirmed"), name("id")];
    assert_eq!(bind(&names, &doc, &registry()), Err(coercion_error("confirmed")));
    let names = vec![name("id"), name("confirmed")];
    assert_eq!(bind(&names, &doc, &registry()), Err(coercion_error("id")));
}

#[test]
fn bind_fails_on_a_field_that_the_document_lacks() {
    let mut doc = Document::new();
    doc.insert(name("username"), text("alice"));
    let names = vec![name("username"), name("email")];
    assert_eq!(bind(&names, &doc, &registry()), Err(coercion_error("email")));
}
