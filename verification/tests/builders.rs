use store_lib::builder::{build_assignment, build_predicate};
use store_lib::document::{Document, FieldValue};
use store_lib::registry::{ColumnKind, Registry};
use store_lib::sql_text::{render_clause, render_decimal, render_fragment, render_placeholder};
use store_lib::stores::store::{StoreError, StoreTrait};
use store_lib::stores::user_store::UserPGStore;

fn text(s: &str) -> FieldValue {
    FieldValue::Text(s.to_string())
}

fn document(entries: Vec<(&str, FieldValue)>) -> Document {
    let mut doc = Document::new();
    for (name, value) in entries {
        assert!(doc.insert(name.to_string(), value));
    }
    doc
}

fn wide_registry(n: usize) -> Registry {
    let mut registry = Registry::new("kind".to_string(), vec![]);
    for i in 0..n {
        assert!(registry.declare(format!("c{}", i), ColumnKind::Text));
    }
    registry
}

#[test]
fn decimal_numerals() {
    assert_eq!(render_decimal(0), "0");
    assert_eq!(render_decimal(7), "7");
    assert_eq!(render_decimal(9), "9");
    assert_eq!(render_decimal(10), "10");
    assert_eq!(render_decimal(109), "109");
    assert_eq!(render_decimal(1234567890), "1234567890");
    assert_eq!(render_decimal(u128::MAX), "340282366920938463463374607431768211455");
}

#[test]
fn placeholders_and_fragments() {
    assert_eq!(render_placeholder(1), "$1");
    assert_eq!(render_placeholder(12), "$12");
    assert_eq!(render_fragment(&"username".to_string(), 1), "username = $1");
    assert_eq!(render_fragment(&"email".to_string(), 23), "email = $23");
}

#[test]
fn clause_numbers_fragments_from_one() {
    let names = vec!["a".to_string(), "b".to_string(), "c".to_string()];
    assert_eq!(render_clause(&names, " AND "), "a = $1 AND b = $2 AND c = $3");
    assert_eq!(render_clause(&names, ", "), "a = $1, b = $2, c = $3");
    assert_eq!(render_clause(&vec!["a".to_string()], " AND "), "a = $1");
    assert_eq!(render_clause(&vec![], " AND "), "");
}

#[test]
fn predicate_of_one_field() {
    let registry = UserPGStore.registry();
    let doc = document(vec![("username", text("alice"))]);
    let predicate = build_predicate(&doc, &registry).unwrap();
    assert_eq!(predicate.where_clause, "username = $1");
    assert_eq!(predicate.fields, vec!["username".to_string()]);
}

#[test]
fn predicate_keeps_the_order_of_the_document() {
    let registry = UserPGStore.registry();
    let doc = document(vec![
        ("email", text("alice@x.com")),
        ("confirmed", FieldValue::Bool(false)),
        ("username", text("alice")),
    ]);
    let predicate = build_predicate(&doc, &registry).unwrap();
    assert_eq!(predicate.where_clause, "email = $1 AND confirmed = $2 AND username = $3");
    assert_eq!(
        predicate.fields,
        vec!["email".to_string(), "confirmed".to_string(), "username".to_string()]
    );
}

#[test]
fn predicate_has_as_many_fragments_as_fields() {
    let registry = wide_registry(12);
    let mut doc = Document::new();
    for i in 0..12 {
        doc.insert(format!("c{}", i), text("v"));
    }
    let predicate = build_predicate(&doc, &registry).unwrap();
    assert_eq!(predicate.fields.len(), 12);
    assert_eq!(predicate.where_clause.matches(" AND ").count(), 11);
    assert_eq!(predicate.where_clause.matches(" = $").count(), 12);
    assert!(predicate.where_clause.starts_with("c0 = $1 AND c1 = $2 AND "));
    assert!(predicate.where_clause.ends_with(" AND c9 = $10 AND c10 = $11 AND c11 = $12"));
}

#[test]
fn predicate_rejects_the_empty_document() {
    let registry = UserPGStore.registry();
    assert_eq!(build_predicate(&Document::new(), &registry), Err(StoreError::InvalidInput));
}

#[test]
fn predicate_rejects_what_is_no_object() {
    let registry = UserPGStore.registry();
    assert_eq!(
        build_predicate(&Document::not_an_object(), &registry),
        Err(StoreError::InvalidInput)
    );
}

#[test]
fn predicate_rejects_a_nested_value() {
    let registry = UserPGStore.registry();
    let doc = document(vec![("username", text("alice")), ("email", FieldValue::Nested)]);
    assert_eq!(build_predicate(&doc, &registry), Err(StoreError::InvalidInput));
}

#[test]
fn predicate_rejects_a_field_that_is_not_declared() {
    let registry = UserPGStore.registry();
    let doc = document(vec![("username", text("alice")), ("1 = 1; --", text("x"))]);
    assert_eq!(build_predicate(&doc, &registry), Err(StoreError::InvalidInput));
    let doc = document(vec![("nickname", text("al"))]);
    assert_eq!(build_predicate(&doc, &registry), Err(StoreError::InvalidInput));
}

#[test]
fn predicate_accepts_null_and_numbers_as_scalars() {
    let registry = UserPGStore.registry();
    let doc = document(vec![
        ("username", FieldValue::Null),
        ("email", FieldValue::Number("5".to_string())),
    ]);
    let predicate = build_predicate(&doc, &registry).unwrap();
    assert_eq!(predicate.where_clause, "username = $1 AND email = $2");
}

#[test]
fn assignment_of_two_fields() {
    let registry = UserPGStore.registry();
    let doc = document(vec![("username", text("alice2")), ("email", text("a@x.com"))]);
    let assignment = build_assignment(&doc, &registry, 42).unwrap();
    assert_eq!(assignment.set_clause, "username = $1, email = $2");
    assert_eq!(assignment.closing_predicate, "WHERE id = $3");
    assert_eq!(assignment.fields, vec!["username".to_string(), "email".to_string()]);
    assert_eq!(assignment.id_index, 3);
    assert_eq!(assignment.id, 42);
}

#[test]
fn assignment_binds_the_identifier_after_the_last_field() {
    let registry = wide_registry(10);
    let mut doc = Document::new();
    for i in 0..10 {
        doc.insert(format!("c{}", i), text("v"));
    }
    let assignment = build_assignment(&doc, &registry, 7).unwrap();
    assert_eq!(assignment.fields.len(), 10);
    assert_eq!(assignment.set_clause.matches(", ").count(), 9);
    assert!(assignment.set_clause.ends_with("c8 = $9, c9 = $10"));
    assert_eq!(assignment.closing_predicate, "WHERE id = $11");
    assert_eq!(assignment.id_index, 11);
}

#[test]
fn assignment_names_only_the_fields_of_the_document() {
    let registry = UserPGStore.registry();
    let doc = document(vec![("confirmed", FieldValue::Bool(true))]);
    let assignment = build_assignment(&doc, &registry, 1).unwrap();
    assert_eq!(assignment.set_clause, "confirmed = $1");
    assert!(!assignment.set_clause.contains("username"));
    assert!(!assignment.set_clause.contains("email"));
    assert_eq!(assignment.closing_predicate, "WHERE id = $2");
}

#[test]
fn assignment_rejects_what_the_predicate_rejects() {
    let registry = UserPGStore.registry();
    assert_eq!(build_assignment(&Document::new(), &registry, 1), Err(StoreError::InvalidInput));
    assert_eq!(
        build_assignment(&Document::not_an_object(), &registry, 1),
        Err(StoreError::InvalidInput)
    );
    let doc = document(vec![("email", FieldValue::Nested)]);
    assert_eq!(build_assignment(&doc, &registry, 1), Err(StoreError::InvalidInput));
    let doc = document(vec![("shoe_size", text("44"))]);
    assert_eq!(build_assignment(&doc, &registry, 1), Err(StoreError::InvalidInput));
}
