//! The statements that the operations of a store hand to the backend: text
//! with positional placeholders, and the parameters to bind to them.
//!
//! The name of a table goes into the text as it is, as the names of fields
//! do: it is the store that names its table, never a caller's document.

use crate::binder::{
    bind, bind_outcome, bound_fields, bound_models, coerced, BoundModel, BoundValue,
};
use crate::builder::{
    accepted, and_separator, build_assignment, build_predicate, closing_predicate_text,
    comma_separator, set_clause_text, where_clause_text,
};
use crate::document::{distinct_names, lemma_find_from, names_of, position_of, Document, FieldModel};
use crate::entity::{entity_outcome, entity_parameters};
use crate::registry::{column_models, ColumnDescriptor, ColumnModel, Registry, RegistryModel};
use crate::sequences::lemma_first_none_from;
use crate::sql_text::{fragment_text, fragments, joined, placeholder_text, texts};
use crate::stores::store::{ErrorModel, StoreError};
use vstd::prelude::*;
use vstd::string::*;

verus! {

/// A statement for the backend: its text, with positional placeholders
/// numbered from 1, and the parameters, the one at position `i` belonging to
/// the placeholder `i + 1`.
#[derive(Debug, PartialEq, Eq)]
pub struct BoundQuery {
    pub sql: String,
    pub parameters: Vec<BoundValue>,
}

/// The mathematical model of a [`BoundQuery`].
pub struct QueryModel {
    pub sql: Seq<char>,
    pub parameters: Seq<BoundModel>,
}

impl View for BoundQuery {
    type V = QueryModel;

    open spec fn view(&self) -> QueryModel {
        QueryModel { sql: self.sql@, parameters: bound_models(self.parameters@) }
    }
}

/// Whether an operation ended as `outcome` says: with that statement, or
/// with that failure.
pub open spec fn ends_as(
    made: Result<BoundQuery, StoreError>,
    outcome: Result<QueryModel, ErrorModel>,
) -> bool {
    match outcome {
        Ok(query) => made matches Ok(statement) && statement@ == query,
        Err(failure) => made matches Err(error) && error@ == failure,
    }
}

/// The statement that selects the row of an identifier.
pub open spec fn select_by_id_query(table: Seq<char>, id: u128) -> QueryModel {
    QueryModel {
        sql: "SELECT * FROM "@ + table + " WHERE id = $1"@,
        parameters: seq![BoundModel::Identifier(id)],
    }
}

/// The statement that selects at most `limit` rows in the order of their
/// identifiers, after the first `offset` of them.
pub open spec fn select_page_query(table: Seq<char>, limit: i64, offset: i64) -> QueryModel {
    QueryModel {
        sql: "SELECT * FROM "@ + table + " ORDER BY id ASC LIMIT $1 OFFSET $2"@,
        parameters: seq![BoundModel::Integer(limit), BoundModel::Integer(offset)],
    }
}

/// The statement that counts the rows.
pub open spec fn count_query(table: Seq<char>) -> QueryModel {
    QueryModel { sql: "SELECT COUNT(id) FROM "@ + table, parameters: Seq::empty() }
}

/// The statement that deletes the row of an identifier.
pub open spec fn delete_by_id_query(table: Seq<char>, id: u128) -> QueryModel {
    QueryModel {
        sql: "DELETE FROM "@ + table + " WHERE id = $1"@,
        parameters: seq![BoundModel::Identifier(id)],
    }
}

/// The text of the statement that selects the rows whose fields called
/// `names` equal the parameters.
pub open spec fn slug_text(table: Seq<char>, names: Seq<Seq<char>>) -> Seq<char> {
    "SELECT * FROM "@ + table + " WHERE "@ + where_clause_text(names)
}

/// The outcome of a lookup by the fields of a document: invalid input for a
/// document that the builders reject, a coercion error for the first field
/// whose value cannot be coerced, and else the statement whose filter has
/// one fragment for each field and whose parameters are the coerced values,
/// both in the order of the document.
pub open spec fn slug_outcome(table: Seq<char>, slug: &Document, registry: RegistryModel)
    -> Result<QueryModel, ErrorModel> {
    if !accepted(slug, registry) {
        Err(ErrorModel::InvalidInput)
    } else {
        match bind_outcome(names_of(slug@), slug@, registry) {
            Ok(parameters) => Ok(
                QueryModel { sql: slug_text(table, names_of(slug@)), parameters },
            ),
            Err(failure) => Err(failure),
        }
    }
}

/// The assignment that refreshes the time of the last update, as it
/// follows the assignments of a patch.
pub const REFRESH: &'static str = ", updated_at = (now() at time zone 'utc') ";

/// The name of the column that holds the time of the last update.
pub const UPDATED_AT: &'static str = "updated_at";

/// The text of the statement that assigns the parameters to the fields
/// called `names` of the row of an identifier.
pub open spec fn patch_text(table: Seq<char>, names: Seq<Seq<char>>) -> Seq<char> {
    "UPDATE "@ + table + " SET "@ + set_clause_text(names) + REFRESH@
        + closing_predicate_text(names.len() + 1)
}

/// The outcome of a patch: invalid input for a document that the builders
/// reject or that sets the time of the last update itself, a coercion error
/// for the first field whose value cannot be coerced, and else the statement
/// that assigns the coerced values to the fields of the document, refreshes
/// the time of the last update, and binds the identifier last.
pub open spec fn patch_outcome(
    table: Seq<char>,
    id: u128,
    patch: &Document,
    registry: RegistryModel,
) -> Result<QueryModel, ErrorModel> {
    if !accepted(patch, registry) || position_of(patch@, UPDATED_AT@) is Some {
        Err(ErrorModel::InvalidInput)
    } else {
        match bind_outcome(names_of(patch@), patch@, registry) {
            Ok(parameters) => Ok(
                QueryModel {
                    sql: patch_text(table, names_of(patch@)),
                    parameters: parameters.push(BoundModel::Identifier(id)),
                },
            ),
            Err(failure) => Err(failure),
        }
    }
}

/// The outcome of an insertion with the fixed statement `text`.
pub open spec fn insert_outcome(
    text: Seq<char>,
    shape: Seq<ColumnModel>,
    item: &Document,
    registry: RegistryModel,
) -> Result<QueryModel, ErrorModel> {
    match entity_outcome(shape, item@, registry) {
        Ok(parameters) => Ok(QueryModel { sql: text, parameters }),
        Err(failure) => Err(failure),
    }
}

/// The outcome of a full update with the fixed statement `text`, whose last
/// placeholder is that of the identifier.
pub open spec fn update_outcome(
    text: Seq<char>,
    shape: Seq<ColumnModel>,
    id: u128,
    item: &Document,
    registry: RegistryModel,
) -> Result<QueryModel, ErrorModel> {
    match entity_outcome(shape, item@, registry) {
        Ok(parameters) => Ok(
            QueryModel { sql: text, parameters: parameters.push(BoundModel::Identifier(id)) },
        ),
        Err(failure) => Err(failure),
    }
}

/// In a document, whose names are distinct, each field is bound from its
/// own value: the parameter at position `i` of the fields, bound in their
/// order, is the value at position `i`, coerced into the kind that the
/// registry gives its name.
pub proof fn lemma_bound_in_place(fields: Seq<FieldModel>, registry: RegistryModel, i: int)
    requires
        distinct_names(fields),
        0 <= i < fields.len(),
    ensures
        bound_fields(names_of(fields), fields, registry)[i] == coerced(
            registry.kind_of(fields[i].name),
            fields[i].value,
            registry,
        ),
{
    lemma_find_from(fields, fields[i].name, 0);
}

/// The statement of a lookup has one fragment and one parameter for each
/// field of the document, in the order of the document: the parameter at
/// position `i` is the value at position `i`, coerced into the kind that the
/// registry gives its name. No name goes into the text that the registry
/// does not declare.
pub proof fn lemma_slug_statement(table: Seq<char>, slug: &Document, registry: RegistryModel)
    requires
        slug.wf(),
        slug_outcome(table, slug, registry) is Ok,
    ensures
        ({
            let query = slug_outcome(table, slug, registry)->Ok_0;
            &&& slug@.len() >= 1
            &&& forall|i: int| 0 <= i < slug@.len() ==> registry.declares(#[trigger] slug@[i].name)
            &&& fragments(names_of(slug@)).len() == slug@.len()
            &&& forall|i: int|
                0 <= i < slug@.len() ==> (#[trigger] fragments(names_of(slug@))[i])
                    == fragment_text(slug@[i].name, (i + 1) as nat)
            &&& query.sql == "SELECT * FROM "@ + table + " WHERE "@ + joined(
                fragments(names_of(slug@)),
                and_separator(),
            )
            &&& query.parameters.len() == slug@.len()
            &&& forall|i: int|
                0 <= i < slug@.len() ==> Some(#[trigger] query.parameters[i]) == coerced(
                    registry.kind_of(slug@[i].name),
                    slug@[i].value,
                    registry,
                )
        }),
{
    let outcomes = bound_fields(names_of(slug@), slug@, registry);
    lemma_first_none_from(outcomes, 0);
    let query = slug_outcome(table, slug, registry)->Ok_0;
    assert forall|i: int| 0 <= i < slug@.len() implies Some(#[trigger] query.parameters[i])
        == coerced(registry.kind_of(slug@[i].name), slug@[i].value, registry) by {
        lemma_bound_in_place(slug@, registry, i);
        assert(outcomes[i] is Some);
    }
}

/// The statement of a patch has one fragment and one parameter for each
/// field of the document, in the order of the document, and after them the
/// one placeholder of the identifier, which is bound last. No field that
/// the document does not hold is assigned, and no name goes into the text
/// that the registry does not declare.
pub proof fn lemma_patch_statement(
    table: Seq<char>,
    id: u128,
    patch: &Document,
    registry: RegistryModel,
)
    requires
        patch.wf(),
        patch_outcome(table, id, patch, registry) is Ok,
    ensures
        ({
            let query = patch_outcome(table, id, patch, registry)->Ok_0;
            let n = patch@.len() as int;
            &&& n >= 1
            &&& forall|i: int| 0 <= i < n ==> registry.declares(#[trigger] patch@[i].name)
            &&& fragments(names_of(patch@)).len() == n
            &&& forall|i: int|
                0 <= i < n ==> (#[trigger] fragments(names_of(patch@))[i]) == fragment_text(
                    patch@[i].name,
                    (i + 1) as nat,
                )
            &&& query.sql == "UPDATE "@ + table + " SET "@ + joined(
                fragments(names_of(patch@)),
                comma_separator(),
            ) + REFRESH@ + "WHERE id = "@ + placeholder_text((n + 1) as nat)
            &&& query.parameters.len() == n + 1
            &&& query.parameters[n] == BoundModel::Identifier(id)
            &&& forall|i: int|
                0 <= i < n ==> Some(#[trigger] query.parameters[i]) == coerced(
                    registry.kind_of(patch@[i].name),
                    patch@[i].value,
                    registry,
                )
        }),
{
    let outcomes = bound_fields(names_of(patch@), patch@, registry);
    lemma_first_none_from(outcomes, 0);
    let query = patch_outcome(table, id, patch, registry)->Ok_0;
    assert forall|i: int| 0 <= i < patch@.len() implies Some(#[trigger] query.parameters[i])
        == coerced(registry.kind_of(patch@[i].name), patch@[i].value, registry) by {
        lemma_bound_in_place(patch@, registry, i);
        assert(outcomes[i] is Some);
    }
}

/// A document without entries is turned down, by a lookup as by a patch:
/// there is no statement that matches every row or that assigns nothing.
pub proof fn lemma_empty_document(
    table: Seq<char>,
    id: u128,
    document: &Document,
    registry: RegistryModel,
)
    requires
        document@.len() == 0,
    ensures
        slug_outcome(table, document, registry) == Err::<QueryModel, ErrorModel>(
            ErrorModel::InvalidInput,
        ),
        patch_outcome(table, id, document, registry) == Err::<QueryModel, ErrorModel>(
            ErrorModel::InvalidInput,
        ),
{
}

fn concat3(a: &str, b: &str, c: &str) -> (text: String)
    ensures
        text@ == a@ + b@ + c@,
{
    let mut text = String::from_str(a);
    text.append(b);
    text.append(c);
    text
}

fn identifier_only(id: u128) -> (parameters: Vec<BoundValue>)
    ensures
        bound_models(parameters@) == seq![BoundModel::Identifier(id)],
{
    let mut parameters: Vec<BoundValue> = Vec::new();
    parameters.push(BoundValue::Identifier(id));
    assert(bound_models(parameters@) =~= seq![BoundModel::Identifier(id)]);
    parameters
}

fn with_identifier(parameters: Vec<BoundValue>, id: u128) -> (extended: Vec<BoundValue>)
    ensures
        bound_models(extended@) == bound_models(parameters@).push(BoundModel::Identifier(id)),
{
    let mut extended = parameters;
    extended.push(BoundValue::Identifier(id));
    assert(bound_models(extended@) =~= bound_models(parameters@).push(
        BoundModel::Identifier(id),
    ));
    extended
}

/// Makes the statement that selects the row of `id` from `table`.
pub fn select_by_id(table: &String, id: u128) -> (query: BoundQuery)
    ensures
        query@ == select_by_id_query(table@, id),
{
    BoundQuery {
        sql: concat3("SELECT * FROM ", table.as_str(), " WHERE id = $1"),
        parameters: identifier_only(id),
    }
}

/// Makes the statement that selects at most `limit` rows of `table` in the
/// order of their identifiers, after the first `offset` of them. Neither
/// number is held to any bound.
pub fn select_page(table: &String, limit: i64, offset: i64) -> (query: BoundQuery)
    ensures
        query@ == select_page_query(table@, limit, offset),
{
    let mut parameters: Vec<BoundValue> = Vec::new();
    parameters.push(BoundValue::Integer(limit));
    parameters.push(BoundValue::Integer(offset));
    assert(bound_models(parameters@) =~= seq![
        BoundModel::Integer(limit),
        BoundModel::Integer(offset),
    ]);
    BoundQuery {
        sql: concat3("SELECT * FROM ", table.as_str(), " ORDER BY id ASC LIMIT $1 OFFSET $2"),
        parameters,
    }
}

/// Makes the statement that counts the rows of `table`.
pub fn count_rows(table: &String) -> (query: BoundQuery)
    ensures
        query@ == count_query(table@),
{
    let parameters: Vec<BoundValue> = Vec::new();
    assert(bound_models(parameters@) =~= Seq::<BoundModel>::empty());
    let sql = concat3("SELECT COUNT(id) FROM ", table.as_str(), "");
    proof {
        reveal_strlit("");
        assert(sql@ =~= "SELECT COUNT(id) FROM "@ + table@);
    }
    BoundQuery { sql, parameters }
}

/// Makes the statement that deletes the row of `id` from `table`. The
/// statement is the same however often it is made, and a backend that finds
/// no such row has nothing to do.
pub fn delete_by_id(table: &String, id: u128) -> (query: BoundQuery)
    ensures
        query@ == delete_by_id_query(table@, id),
{
    BoundQuery {
        sql: concat3("DELETE FROM ", table.as_str(), " WHERE id = $1"),
        parameters: identifier_only(id),
    }
}

/// Makes the statement that selects the rows of `table` whose fields equal
/// those of `slug`.
pub fn select_by_slug(table: &String, slug: &Document, registry: &Registry) -> (query: Result<
    BoundQuery,
    StoreError,
>)
    ensures
        ends_as(query, slug_outcome(table@, slug, registry@)),
{
    let predicate = match build_predicate(slug, registry) {
        Ok(predicate) => predicate,
        Err(error) => {
            return Err(error);
        },
    };
    let parameters = match bind(&predicate.fields, slug, registry) {
        Ok(parameters) => parameters,
        Err(error) => {
            return Err(error);
        },
    };
    let mut sql = concat3("SELECT * FROM ", table.as_str(), " WHERE ");
    sql.append(predicate.where_clause.as_str());
    Ok(BoundQuery { sql, parameters })
}

/// Makes the statement that assigns the fields of `patch` to the row of
/// `id` in `table` and refreshes the time of its last update.
pub fn patch_by_id(table: &String, id: u128, patch: &Document, registry: &Registry) -> (query:
    Result<BoundQuery, StoreError>)
    ensures
        ends_as(query, patch_outcome(table@, id, patch, registry@)),
{
    let assignment = match build_assignment(patch, registry, id) {
        Ok(assignment) => assignment,
        Err(error) => {
            return Err(error);
        },
    };
    if patch.position(&String::from_str(UPDATED_AT)).is_some() {
        return Err(StoreError::InvalidInput);
    }
    let parameters = match bind(&assignment.fields, patch, registry) {
        Ok(parameters) => parameters,
        Err(error) => {
            return Err(error);
        },
    };
    let mut sql = concat3("UPDATE ", table.as_str(), " SET ");
    sql.append(assignment.set_clause.as_str());
    sql.append(REFRESH);
    sql.append(assignment.closing_predicate.as_str());
    assert(names_of(patch@).len() == patch@.len());
    Ok(BoundQuery { sql, parameters: with_identifier(parameters, assignment.id) })
}

/// The outcome of binding every field of a document, in its order.
pub open spec fn bind_values_outcome(document: &Document, registry: RegistryModel) -> Result<
    Seq<BoundModel>,
    ErrorModel,
> {
    bind_outcome(names_of(document@), document@, registry)
}

/// Binds every field of `document`, in its order.
pub fn bind_document(document: &Document, registry: &Registry) -> (bound: Result<
    Vec<BoundValue>,
    StoreError,
>)
    ensures
        match bind_values_outcome(document, registry@) {
            Ok(models) => bound matches Ok(parameters) && bound_models(parameters@) == models,
            Err(failure) => bound matches Err(error) && error@ == failure,
        },
{
    let mut names: Vec<String> = Vec::new();
    let mut i: usize = 0;
    while i < document.len()
        invariant
            0 <= i <= document@.len(),
            names@.len() == i,
            forall|k: int| 0 <= k < i ==> names@[k]@ == document@[k].name,
        decreases document@.len() - i,
    {
        names.push(document.field(i).name.clone());
        i = i + 1;
    }
    assert(texts(names@) =~= names_of(document@));
    bind(&names, document, registry)
}

/// Makes the statement with the fixed text `text` that inserts the entity
/// that `item` holds.
pub fn insert_entity(
    text: &str,
    shape: &Vec<ColumnDescriptor>,
    item: &Document,
    registry: &Registry,
) -> (query: Result<BoundQuery, StoreError>)
    ensures
        ends_as(
            query,
            insert_outcome(text@, column_models(shape@), item, registry@),
        ),
{
    match entity_parameters(shape, item, registry) {
        Ok(parameters) => Ok(BoundQuery { sql: String::from_str(text), parameters }),
        Err(error) => Err(error),
    }
}

/// Makes the statement with the fixed text `text` that replaces the entity
/// in the row of `id` by the one that `item` holds.
pub fn update_entity(
    text: &str,
    shape: &Vec<ColumnDescriptor>,
    id: u128,
    item: &Document,
    registry: &Registry,
) -> (query: Result<BoundQuery, StoreError>)
    ensures
        ends_as(
            query,
            update_outcome(text@, column_models(shape@), id, item, registry@),
        ),
{
    match entity_parameters(shape, item, registry) {
        Ok(parameters) => Ok(
            BoundQuery { sql: String::from_str(text), parameters: with_identifier(parameters, id) },
        ),
        Err(error) => Err(error),
    }
}

} // verus!
