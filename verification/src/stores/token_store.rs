//! The store of authentication tokens.

use crate::binder::{bound_models, BoundModel, BoundValue};
use crate::document::Document;
use crate::entity::{entity_fields, entity_outcome, entity_parameters};
use crate::materializer::{cell_models, row_outcome, row_to_document, Cell, CellModel};
use crate::registry::{
    column_models, lemma_column_from, ColumnDescriptor, ColumnKind, ColumnModel, Registry,
    RegistryModel,
};
use crate::round_trip::{
    columns_of, distinct_cells, fits, lemma_row_binds_back, lemma_row_reads_back, plain, values_of,
};
use crate::sequences::{lemma_first_none_from, unwrapped};
use crate::statement::{
    bind_document, bind_values_outcome, count_rows, delete_by_id, insert_entity, patch_by_id,
    select_by_id, select_by_slug, select_page, update_entity, BoundQuery, QueryModel,
};
use crate::stores::store::{ErrorModel, StoreError, StoreTrait};
use vstd::pervasive::unreached;
use vstd::prelude::*;
use vstd::string::*;

verus! {

/// The store of the `tokens` table.
///
/// A token is written from a document that holds its `token_string`,
/// `token_type` and `blacklisted`.
#[derive(Clone, Copy, Debug, Default, PartialEq, Eq)]
pub struct TokenPGStore;

/// The statement that inserts a token.
pub const INSERT_TOKEN: &'static str =
    "INSERT INTO tokens (token_string, token_type, blacklisted) VALUES ($1, $2, $3)";

/// The statement that replaces a token and refreshes the time of its last
/// update.
pub const UPDATE_TOKEN: &'static str =
    "UPDATE tokens SET token_string = $1, token_type = $2, blacklisted = $3, updated_at = (now() at time zone 'utc') WHERE id = $4";

/// The registry of the columns of the `tokens` table.
pub open spec fn token_schema() -> RegistryModel {
    RegistryModel {
        columns: seq![
            ColumnModel { name: "id"@, kind: ColumnKind::Identifier },
            ColumnModel { name: "token_string"@, kind: ColumnKind::Text },
            ColumnModel { name: "token_type"@, kind: ColumnKind::Enumeration },
            ColumnModel { name: "blacklisted"@, kind: ColumnKind::Boolean },
            ColumnModel { name: "created_at"@, kind: ColumnKind::Timestamp },
            ColumnModel { name: "updated_at"@, kind: ColumnKind::Timestamp },
        ],
        enumeration_type: "token_type"@,
        labels: seq!["AccessToken"@, "RefreshToken"@],
    }
}

/// The fields of a token, in the order of the parameters of the statements
/// that write one.
pub open spec fn token_shape() -> Seq<ColumnModel> {
    seq![
        ColumnModel { name: "token_string"@, kind: ColumnKind::Text },
        ColumnModel { name: "token_type"@, kind: ColumnKind::Enumeration },
        ColumnModel { name: "blacklisted"@, kind: ColumnKind::Boolean },
    ]
}

/// The statement that deletes the row of a token.
pub open spec fn delete_by_token_query(token_string: Seq<char>) -> QueryModel {
    QueryModel {
        sql: "DELETE FROM tokens WHERE token_string = $1"@,
        parameters: seq![BoundModel::Text(token_string)],
    }
}

/// The names of the columns of the `tokens` table differ in their length or
/// in their first letter.
proof fn lemma_token_columns()
    ensures
        "id"@.len() == 2,
        "token_string"@.len() == 12,
        "token_type"@.len() == 10 && "token_type"@[0] == 't',
        "blacklisted"@.len() == 11,
        "created_at"@.len() == 10 && "created_at"@[0] == 'c',
        "updated_at"@.len() == 10 && "updated_at"@[0] == 'u',
{
    reveal_strlit("id");
    reveal_strlit("token_string");
    reveal_strlit("token_type");
    reveal_strlit("blacklisted");
    reveal_strlit("created_at");
    reveal_strlit("updated_at");
}

/// The names of the types that the backend reports for the columns of the
/// `tokens` table differ in their length or in their first letter.
proof fn lemma_token_types()
    ensures
        "UUID"@.len() == 4 && "UUID"@[0] == 'U',
        "BOOL"@.len() == 4 && "BOOL"@[0] == 'B',
        "TIMESTAMP"@.len() == 9 && "TIMESTAMP"@[0] == 'T',
        "VARCHAR"@.len() == 7,
        "token_type"@.len() == 10,
{
    reveal_strlit("UUID");
    reveal_strlit("BOOL");
    reveal_strlit("TIMESTAMP");
    reveal_strlit("VARCHAR");
    reveal_strlit("token_type");
}

/// The cells of a row of tokens have distinct names and fit the registry of
/// the table, column by column.
proof fn lemma_token_row_shape(row: TokenRow)
    ensures
        distinct_cells(row.reported()),
        fits(row.reported(), token_schema()),
        columns_of(row.reported(), token_schema()) == token_schema().columns,
        values_of(row.reported()) == row.parameters(),
{
    lemma_token_columns();
    lemma_token_types();
    let cells = row.reported();
    let schema = token_schema();
    assert forall|i: int| 0 <= i < cells.len() implies schema.kind_of((#[trigger] cells[i]).name)
        == schema.columns[i].kind && schema.kind_for_type(cells[i].reported_type)
        == schema.columns[i].kind by {
        lemma_column_from(schema.columns, cells[i].name, 0);
    }
    assert(columns_of(cells, schema) =~= schema.columns);
    assert(values_of(cells) =~= row.parameters());
}

fn cell(name: &str, reported_type: &str, value: BoundValue) -> (made: Cell)
    ensures
        made@ == (CellModel {
            name: name@,
            reported_type: reported_type@,
            value: Some(value@),
        }),
{
    Cell {
        name: String::from_str(name),
        reported_type: String::from_str(reported_type),
        value: Some(value),
    }
}

fn column(name: &str, kind: ColumnKind) -> (descriptor: ColumnDescriptor)
    ensures
        descriptor@ == (ColumnModel { name: name@, kind }),
{
    ColumnDescriptor { name: String::from_str(name), kind }
}

fn token_fields() -> (shape: Vec<ColumnDescriptor>)
    ensures
        column_models(shape@) == token_shape(),
{
    let mut shape: Vec<ColumnDescriptor> = Vec::new();
    shape.push(column("token_string", ColumnKind::Text));
    shape.push(column("token_type", ColumnKind::Enumeration));
    shape.push(column("blacklisted", ColumnKind::Boolean));
    assert(column_models(shape@) =~= token_shape());
    shape
}

/// A row of the `tokens` table, each column in its own type.
#[derive(Debug, PartialEq, Eq)]
pub struct TokenRow {
    pub id: u128,
    pub token_string: String,
    pub token_type: String,
    pub blacklisted: bool,
    /// Seconds since 1970 and the nanoseconds into the second.
    pub created_at: (i64, u32),
    /// Seconds since 1970 and the nanoseconds into the second.
    pub updated_at: (i64, u32),
}

impl TokenRow {
    /// What the columns of the row hold, in the order of the registry.
    pub open spec fn parameters(&self) -> Seq<BoundModel> {
        seq![
            BoundModel::Identifier(self.id),
            BoundModel::Text(self.token_string@),
            BoundModel::Label(self.token_type@),
            BoundModel::Boolean(self.blacklisted),
            BoundModel::Timestamp(self.created_at.0, self.created_at.1),
            BoundModel::Timestamp(self.updated_at.0, self.updated_at.1),
        ]
    }

    /// The cells of the row, as the backend reports them.
    pub open spec fn reported(&self) -> Seq<CellModel> {
        seq![
            CellModel {
                name: "id"@,
                reported_type: "UUID"@,
                value: Some(BoundModel::Identifier(self.id)),
            },
            CellModel {
                name: "token_string"@,
                reported_type: "VARCHAR"@,
                value: Some(BoundModel::Text(self.token_string@)),
            },
            CellModel {
                name: "token_type"@,
                reported_type: "token_type"@,
                value: Some(BoundModel::Label(self.token_type@)),
            },
            CellModel {
                name: "blacklisted"@,
                reported_type: "BOOL"@,
                value: Some(BoundModel::Boolean(self.blacklisted)),
            },
            CellModel {
                name: "created_at"@,
                reported_type: "TIMESTAMP"@,
                value: Some(BoundModel::Timestamp(self.created_at.0, self.created_at.1)),
            },
            CellModel {
                name: "updated_at"@,
                reported_type: "TIMESTAMP"@,
                value: Some(BoundModel::Timestamp(self.updated_at.0, self.updated_at.1)),
            },
        ]
    }

    /// Whether every column of the row holds a plain value.
    pub open spec fn is_plain(&self) -> bool {
        forall|i: int| 0 <= i < 6 ==> plain(#[trigger] self.parameters()[i])
    }

    /// Reads a row from a document that holds every column of the table,
    /// each value coerced into the kind of its column. Reading fails at the
    /// first column, in the order of the registry, that is absent or whose
    /// value cannot be coerced.
    pub fn from_document(document: &Document) -> (read: Result<TokenRow, StoreError>)
        ensures
            match entity_outcome(token_schema().columns, document@, token_schema()) {
                Ok(models) => read matches Ok(row) && row.parameters() == models,
                Err(failure) => read matches Err(error) && error@ == failure,
            },
    {
        let registry = TokenPGStore.registry();
        let ghost outcomes = entity_fields(token_schema().columns, document@, token_schema());
        let mut parameters = match entity_parameters(registry.columns(), document, &registry) {
            Ok(parameters) => parameters,
            Err(error) => {
                return Err(error);
            },
        };
        let ghost read = parameters@;
        proof {
            lemma_first_none_from(outcomes, 0);
            assert(token_schema().columns.len() == 6);
            assert(outcomes.len() == 6);
            assert(bound_models(parameters@) == unwrapped(outcomes));
            assert(unwrapped(outcomes).len() == 6);
            assert(bound_models(parameters@).len() == parameters@.len());
            assert forall|k: int| 0 <= k < 6 implies outcomes[k] == Some(
                #[trigger] parameters@[k]@,
            ) by {
                assert(bound_models(parameters@)[k] == parameters@[k]@);
                assert(unwrapped(outcomes)[k] == outcomes[k].unwrap());
            }
            assert(read[0]@ is Identifier) by {
                assert(outcomes[0] == Some(read[0]@));
            }
            assert(read[1]@ is Text) by {
                assert(outcomes[1] == Some(read[1]@));
            }
            assert(read[2]@ is Label) by {
                assert(outcomes[2] == Some(read[2]@));
            }
            assert(read[3]@ is Boolean) by {
                assert(outcomes[3] == Some(read[3]@));
            }
            assert(read[4]@ is Timestamp) by {
                assert(outcomes[4] == Some(read[4]@));
            }
            assert(read[5]@ is Timestamp) by {
                assert(outcomes[5] == Some(read[5]@));
            }
        }
        let updated_at = match parameters.pop() {
            Some(BoundValue::Timestamp(seconds, nanos)) => (seconds, nanos),
            _ => unreached(),
        };
        assert(parameters@ =~= read.take(5));
        let created_at = match parameters.pop() {
            Some(BoundValue::Timestamp(seconds, nanos)) => (seconds, nanos),
            _ => unreached(),
        };
        assert(parameters@ =~= read.take(4));
        let blacklisted = match parameters.pop() {
            Some(BoundValue::Boolean(b)) => b,
            _ => unreached(),
        };
        assert(parameters@ =~= read.take(3));
        let token_type = match parameters.pop() {
            Some(BoundValue::Label(label)) => label,
            _ => unreached(),
        };
        assert(parameters@ =~= read.take(2));
        let token_string = match parameters.pop() {
            Some(BoundValue::Text(text)) => text,
            _ => unreached(),
        };
        assert(parameters@ =~= read.take(1));
        let id = match parameters.pop() {
            Some(BoundValue::Identifier(id)) => id,
            _ => unreached(),
        };
        assert(parameters@ =~= read.take(0));
        let row = TokenRow { id, token_string, token_type, blacklisted, created_at, updated_at };
        assert(row.parameters() =~= bound_models(read));
        Ok(row)
    }

    /// Turns the row into a document, as a row of a result is turned into
    /// one.
    ///
    /// A row of plain values that is turned into a document is read back
    /// from it as the same row, and the fields of the document are bound to
    /// the values of the row.
    pub fn to_document(&self) -> (document: Result<Document, StoreError>)
        ensures
            match row_outcome(self.reported(), token_schema()) {
                Ok(entries) => document matches Ok(doc) && doc.wf() && doc.is_object() && doc@
                    == entries,
                Err(failure) => document matches Err(error) && error@ == failure,
            },
            document matches Ok(doc) ==> (self.is_plain() ==> entity_outcome(
                token_schema().columns,
                doc@,
                token_schema(),
            ) == Ok::<Seq<BoundModel>, ErrorModel>(self.parameters())),
            document matches Ok(doc) ==> (self.is_plain() ==> bind_values_outcome(
                &doc,
                token_schema(),
            ) == Ok::<Seq<BoundModel>, ErrorModel>(self.parameters())),
    {
        let registry = TokenPGStore.registry();
        let cells = self.cells();
        let document = row_to_document(&cells, &registry);
        proof {
            if document is Ok && self.is_plain() {
                lemma_token_row_shape(*self);
                let row = self.reported();
                assert forall|i: int| 0 <= i < row.len() implies (#[trigger] row[i]).value
                    is Some && plain(row[i].value.unwrap()) by {
                    assert(row[i].value == Some(self.parameters()[i]));
                }
                lemma_row_reads_back(row, token_schema());
                lemma_row_binds_back(row, token_schema());
            }
        }
        document
    }

    /// The cells of the row, as the backend reports them.
    pub fn cells(&self) -> (row: Vec<Cell>)
        ensures
            cell_models(row@) == self.reported(),
    {
        let mut row: Vec<Cell> = Vec::new();
        row.push(cell("id", "UUID", BoundValue::Identifier(self.id)));
        row.push(cell("token_string", "VARCHAR", BoundValue::Text(self.token_string.clone())));
        row.push(cell("token_type", "token_type", BoundValue::Label(self.token_type.clone())));
        row.push(cell("blacklisted", "BOOL", BoundValue::Boolean(self.blacklisted)));
        row.push(
            cell(
                "created_at",
                "TIMESTAMP",
                BoundValue::Timestamp(self.created_at.0, self.created_at.1),
            ),
        );
        row.push(
            cell(
                "updated_at",
                "TIMESTAMP",
                BoundValue::Timestamp(self.updated_at.0, self.updated_at.1),
            ),
        );
        assert(cell_models(row@) =~= self.reported());
        row
    }
}

impl TokenPGStore {
    /// Makes the statement that deletes the row of the token
    /// `token_string`.
    pub fn delete_by_token(&self, token_string: &String) -> (query: BoundQuery)
        ensures
            query@ == delete_by_token_query(token_string@),
    {
        let mut parameters: Vec<BoundValue> = Vec::new();
        parameters.push(BoundValue::Text(token_string.clone()));
        assert(bound_models(parameters@) =~= seq![BoundModel::Text(token_string@)]);
        BoundQuery {
            sql: String::from_str("DELETE FROM tokens WHERE token_string = $1"),
            parameters,
        }
    }
}

impl StoreTrait for TokenPGStore {
    open spec fn table_name(&self) -> Seq<char> {
        "tokens"@
    }

    open spec fn schema(&self) -> RegistryModel {
        token_schema()
    }

    open spec fn shape(&self) -> Seq<ColumnModel> {
        token_shape()
    }

    open spec fn insert_text(&self) -> Seq<char> {
        INSERT_TOKEN@
    }

    open spec fn update_text(&self) -> Seq<char> {
        UPDATE_TOKEN@
    }

    fn table(&self) -> (name: String) {
        String::from_str("tokens")
    }

    fn registry(&self) -> (registry: Registry) {
        let mut labels: Vec<String> = Vec::new();
        labels.push(String::from_str("AccessToken"));
        labels.push(String::from_str("RefreshToken"));
        let mut registry = Registry::new(String::from_str("token_type"), labels);
        proof {
            lemma_token_columns();
        }
        proof {
            lemma_column_from(registry@.columns, "id"@, 0);
        }
        registry.declare(String::from_str("id"), ColumnKind::Identifier);
        assert(registry@.columns =~= token_schema().columns.take(1));
        proof {
            lemma_column_from(registry@.columns, "token_string"@, 0);
        }
        registry.declare(String::from_str("token_string"), ColumnKind::Text);
        assert(registry@.columns =~= token_schema().columns.take(2));
        proof {
            lemma_column_from(registry@.columns, "token_type"@, 0);
        }
        registry.declare(String::from_str("token_type"), ColumnKind::Enumeration);
        assert(registry@.columns =~= token_schema().columns.take(3));
        proof {
            lemma_column_from(registry@.columns, "blacklisted"@, 0);
        }
        registry.declare(String::from_str("blacklisted"), ColumnKind::Boolean);
        assert(registry@.columns =~= token_schema().columns.take(4));
        proof {
            lemma_column_from(registry@.columns, "created_at"@, 0);
        }
        registry.declare(String::from_str("created_at"), ColumnKind::Timestamp);
        assert(registry@.columns =~= token_schema().columns.take(5));
        proof {
            lemma_column_from(registry@.columns, "updated_at"@, 0);
        }
        registry.declare(String::from_str("updated_at"), ColumnKind::Timestamp);
        assert(registry@.columns =~= token_schema().columns.take(6));
        assert(token_schema().columns.take(6) =~= token_schema().columns);
        assert(registry@.labels =~= token_schema().labels);
        registry
    }

    fn insert(&self, item: &Document) -> (query: Result<BoundQuery, StoreError>) {
        insert_entity(
            INSERT_TOKEN,
            &token_fields(),
            item,
            &self.registry(),
        )
    }

    fn get(&self, id: u128) -> (query: BoundQuery) {
        select_by_id(&self.table(), id)
    }

    fn get_all_paginate(&self, limit: i64, offset: i64) -> (query: BoundQuery) {
        select_page(&self.table(), limit, offset)
    }

    fn count(&self) -> (query: BoundQuery) {
        count_rows(&self.table())
    }

    fn get_by_slug(&self, json_slug: &Document) -> (query: Result<BoundQuery, StoreError>) {
        select_by_slug(&self.table(), json_slug, &self.registry())
    }

    fn delete(&self, id: u128) -> (query: BoundQuery) {
        delete_by_id(&self.table(), id)
    }

    fn update(&self, id: u128, item: &Document) -> (query: Result<BoundQuery, StoreError>) {
        update_entity(
            UPDATE_TOKEN,
            &token_fields(),
            id,
            item,
            &self.registry(),
        )
    }

    fn patch(&self, id: u128, patch: &Document) -> (query: Result<BoundQuery, StoreError>) {
        patch_by_id(&self.table(), id, patch, &self.registry())
    }

    fn bind_values(&self, json_value: &Document) -> (bound: Result<Vec<BoundValue>, StoreError>) {
        bind_document(json_value, &self.registry())
    }

    fn row_to_json(&self, row: &Vec<Cell>) -> (document: Result<Document, StoreError>) {
        row_to_document(row, &self.registry())
    }
}

} // verus!
