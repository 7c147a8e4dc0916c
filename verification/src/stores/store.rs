//! What every entity store shares: the failures of an operation and the
//! contract of a store.
//!
//! A store does not talk to the backend. Each operation makes the statement
//! that is to be executed, and turns what the backend answers into
//! documents; running the statement is left to the caller.

use crate::binder::{bound_models, BoundValue};
use crate::document::Document;
use crate::materializer::{cell_models, comes_back, row_outcome, Cell};
use crate::registry::{ColumnModel, Registry, RegistryModel};
use crate::statement::{
    bind_values_outcome, count_query, delete_by_id_query, ends_as, insert_outcome, patch_outcome,
    select_by_id_query, select_page_query, slug_outcome, update_outcome, BoundQuery,
};
use crate::stores::token_store::TokenPGStore;
use crate::stores::user_store::UserPGStore;
use vstd::prelude::*;
use vstd::string::*;

verus! {

/// Why an operation of a store failed.
#[derive(Debug, PartialEq, Eq)]
pub enum StoreError {
    /// The document handed to a dynamic builder is not a flat object, is
    /// empty, or names a field that the registry does not declare.
    InvalidInput,
    /// The value of the named field cannot be parsed into the semantic kind
    /// that the registry declares for it.
    CoercionError(String),
    /// The named column of a result row cannot be read as the type that the
    /// backend reports for it.
    DecodeError(String),
    /// The named field, which the entity requires, is absent from the
    /// document or has the wrong shape.
    ValidationError(String),
    /// The backend reported that a uniqueness rule is violated; the text says
    /// which in plain words.
    UniqueConstraint(String),
    /// A lookup that expects exactly one row found none.
    NotFound,
    /// Any other failure of the backend, with its description.
    Backend(String),
}

/// The stores of this library.
#[derive(Debug, PartialEq, Eq)]
pub enum Store {
    UserPostgresStore(UserPGStore),
    TokenPostgersStore(TokenPGStore),
}

/// The mathematical model of a [`StoreError`].
pub enum ErrorModel {
    InvalidInput,
    CoercionError(Seq<char>),
    DecodeError(Seq<char>),
    ValidationError(Seq<char>),
    UniqueConstraint(Seq<char>),
    NotFound,
    Backend(Seq<char>),
}

impl View for StoreError {
    type V = ErrorModel;

    open spec fn view(&self) -> ErrorModel {
        match *self {
            StoreError::InvalidInput => ErrorModel::InvalidInput,
            StoreError::CoercionError(field) => ErrorModel::CoercionError(field@),
            StoreError::DecodeError(column) => ErrorModel::DecodeError(column@),
            StoreError::ValidationError(field) => ErrorModel::ValidationError(field@),
            StoreError::UniqueConstraint(cause) => ErrorModel::UniqueConstraint(cause@),
            StoreError::NotFound => ErrorModel::NotFound,
            StoreError::Backend(detail) => ErrorModel::Backend(detail@),
        }
    }
}

/// The failure that stands for a failure of the backend: a violation of one
/// of the uniqueness rules of the users table is told apart by the name of
/// the constraint, and everything else keeps the backend's description.
pub open spec fn backend_failure(constraint: Option<Seq<char>>, detail: Seq<char>) -> ErrorModel {
    if constraint == Some("users_username_key"@) {
        ErrorModel::UniqueConstraint("username taken"@)
    } else if constraint == Some("users_email_key"@) {
        ErrorModel::UniqueConstraint("email taken"@)
    } else {
        ErrorModel::Backend(detail)
    }
}

/// The text that describes a failure to a reader.
pub open spec fn message_text(error: ErrorModel) -> Seq<char> {
    match error {
        ErrorModel::InvalidInput => "Invalid Input"@,
        ErrorModel::CoercionError(field) => "Coercion Error: "@ + field,
        ErrorModel::DecodeError(column) => "Decode Error: "@ + column,
        ErrorModel::ValidationError(field) => "Validation Error: "@ + field,
        ErrorModel::UniqueConstraint(cause) => "Store Error: "@ + cause,
        ErrorModel::NotFound => "NotFound"@,
        ErrorModel::Backend(detail) => "Store Error: "@ + detail,
    }
}

fn prefixed(prefix: &str, rest: &String) -> (text: String)
    ensures
        text@ == prefix@ + rest@,
{
    let mut text = String::from_str(prefix);
    text.append(rest.as_str());
    text
}

impl StoreError {
    /// Classifies a failure of the backend from the name of the constraint
    /// that it reports, if any, and its description.
    pub fn from_backend(constraint: Option<String>, detail: String) -> (error: StoreError)
        ensures
            error@ == backend_failure(
                match constraint {
                    Some(name) => Some(name@),
                    None => None,
                },
                detail@,
            ),
    {
        match constraint {
            Some(name) => {
                if name == String::from_str("users_username_key") {
                    StoreError::UniqueConstraint(String::from_str("username taken"))
                } else if name == String::from_str("users_email_key") {
                    StoreError::UniqueConstraint(String::from_str("email taken"))
                } else {
                    StoreError::Backend(detail)
                }
            },
            None => StoreError::Backend(detail),
        }
    }

    /// The text that describes the failure to a reader.
    pub fn message(&self) -> (text: String)
        ensures
            text@ == message_text(self@),
    {
        match self {
            StoreError::InvalidInput => String::from_str("Invalid Input"),
            StoreError::CoercionError(field) => prefixed("Coercion Error: ", field),
            StoreError::DecodeError(column) => prefixed("Decode Error: ", column),
            StoreError::ValidationError(field) => prefixed("Validation Error: ", field),
            StoreError::UniqueConstraint(cause) => prefixed("Store Error: ", cause),
            StoreError::NotFound => String::from_str("NotFound"),
            StoreError::Backend(detail) => prefixed("Store Error: ", detail),
        }
    }
}

/// The contract of an entity store, the same for every entity.
///
/// A store owns the name of its table, the registry of its columns, the
/// fields that make an entity, and the two fixed statements that write a
/// whole entity. Its operations make statements and read rows; running a
/// statement is left to the caller.
pub trait StoreTrait {
    /// The name of the table.
    spec fn table_name(&self) -> Seq<char>;

    /// The registry of the columns of the table.
    spec fn schema(&self) -> RegistryModel;

    /// The fields that a document must hold to be an entity, with their
    /// kinds, in the order of the parameters of the two fixed statements.
    spec fn shape(&self) -> Seq<ColumnModel>;

    /// The text of the statement that inserts an entity.
    spec fn insert_text(&self) -> Seq<char>;

    /// The text of the statement that replaces an entity.
    spec fn update_text(&self) -> Seq<char>;

    /// The name of the table.
    fn table(&self) -> (name: String)
        ensures
            name@ == self.table_name(),
    ;

    /// The registry of the columns of the table.
    fn registry(&self) -> (registry: Registry)
        ensures
            registry.wf(),
            registry@ == self.schema(),
    ;

    /// Makes the statement that inserts the entity that `item` holds.
    /// Fields that the store maintains itself are passed over.
    fn insert(&self, item: &Document) -> (query: Result<BoundQuery, StoreError>)
        ensures
            ends_as(query, insert_outcome(self.insert_text(), self.shape(), item, self.schema())),
    ;

    /// Makes the statement that selects the row of `id`.
    fn get(&self, id: u128) -> (query: BoundQuery)
        ensures
            query@ == select_by_id_query(self.table_name(), id),
    ;

    /// Makes the statement that selects at most `limit` rows in the order
    /// of their identifiers, after the first `offset` of them.
    fn get_all_paginate(&self, limit: i64, offset: i64) -> (query: BoundQuery)
        ensures
            query@ == select_page_query(self.table_name(), limit, offset),
    ;

    /// Makes the statement that counts the rows.
    fn count(&self) -> (query: BoundQuery)
        ensures
            query@ == count_query(self.table_name()),
    ;

    /// Makes the statement that selects the rows whose fields equal those
    /// of `json_slug`.
    fn get_by_slug(&self, json_slug: &Document) -> (query: Result<BoundQuery, StoreError>)
        ensures
            ends_as(query, slug_outcome(self.table_name(), json_slug, self.schema())),
    ;

    /// Makes the statement that deletes the row of `id`.
    fn delete(&self, id: u128) -> (query: BoundQuery)
        ensures
            query@ == delete_by_id_query(self.table_name(), id),
    ;

    /// Makes the statement that replaces the entity in the row of `id` by
    /// the one that `item` holds and refreshes the time of its last update.
    fn update(&self, id: u128, item: &Document) -> (query: Result<BoundQuery, StoreError>)
        ensures
            ends_as(
                query,
                update_outcome(self.update_text(), self.shape(), id, item, self.schema()),
            ),
    ;

    /// Makes the statement that assigns the fields of `patch` to the row of
    /// `id` and refreshes the time of its last update.
    fn patch(&self, id: u128, patch: &Document) -> (query: Result<BoundQuery, StoreError>)
        ensures
            ends_as(query, patch_outcome(self.table_name(), id, patch, self.schema())),
    ;

    /// Binds every field of `json_value`, in its order.
    fn bind_values(&self, json_value: &Document) -> (bound: Result<Vec<BoundValue>, StoreError>)
        ensures
            match bind_values_outcome(json_value, self.schema()) {
                Ok(models) => bound matches Ok(parameters) && bound_models(parameters@) == models,
                Err(failure) => bound matches Err(error) && error@ == failure,
            },
    ;

    /// Turns a row of a result into a document.
    fn row_to_json(&self, row: &Vec<Cell>) -> (document: Result<Document, StoreError>)
        ensures
            match row_outcome(cell_models(row@), self.schema()) {
                Ok(entries) => document matches Ok(doc) && doc.wf() && doc.is_object() && doc@
                    == entries,
                Err(failure) => document matches Err(error) && error@ == failure,
            },
            document is Ok ==> forall|i: int|
                0 <= i < row@.len() ==> comes_back(
                    #[trigger] cell_models(row@)[i],
                    self.schema(),
                ),
    ;
}

} // verus!
