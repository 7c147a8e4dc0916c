//! The store of users.

use crate::binder::{bound_models, BoundModel, BoundValue};
use crate::document::Document;
use crate::entity::{entity_fields, entity_outcome, entity_parameters};
use crate::materializer::{cell_models, row_outcome, row_to_document, Cell, CellModel};
use crate::registry::{
    column_models, lemma_column_from, ColumnDescriptor, ColumnKind, ColumnModel, Registry,
    RegistryModel,
};
use crate::round_trip::{
    columns_of, distinct_cells, fits, lemma_row_binds_back, lemma_row_reads_back, plain, values_of,
};
use crate::sequences::{lemma_first_none_from, unwrapped};
use crate::statement::{
    bind_document, bind_values_outcome, count_rows, delete_by_id, insert_entity, patch_by_id,
    select_by_id, select_by_slug, select_page, update_entity, BoundQuery, QueryModel,
};
use crate::stores::store::{ErrorModel, StoreError, StoreTrait};
use vstd::pervasive::unreached;
use vstd::prelude::*;
use vstd::string::*;

verus! {

/// The store of the `users` table.
///
/// A user is written from a document that holds its `username`, `email`,
/// `password`, `role` and `confirmed`. The password goes into the row as the
/// document holds it: a caller that stores hashes puts the hash in its
/// place before the entity is inserted.
#[derive(Clone, Copy, Debug, Default, PartialEq, Eq)]
pub struct UserPGStore;

/// The statement that inserts a user.
pub const INSERT_USER: &'static str =
    "INSERT INTO users (username, email, password_hash, user_role, confirmed) VALUES ($1, $2, $3, $4, $5)";

/// The statement that replaces a user and refreshes the time of its last
/// update.
pub const UPDATE_USER: &'static str =
    "UPDATE users SET username = $1, email = $2, password_hash = $3, user_role = $4, confirmed = $5, updated_at = (now() at time zone 'utc') WHERE id = $6";

/// The registry of the columns of the `users` table.
pub open spec fn user_schema() -> RegistryModel {
    RegistryModel {
        columns: seq![
            ColumnModel { name: "id"@, kind: ColumnKind::Identifier },
            ColumnModel { name: "username"@, kind: ColumnKind::Text },
            ColumnModel { name: "email"@, kind: ColumnKind::Text },
            ColumnModel { name: "password_hash"@, kind: ColumnKind::Text },
            ColumnModel { name: "user_role"@, kind: ColumnKind::Enumeration },
            ColumnModel { name: "confirmed"@, kind: ColumnKind::Boolean },
            ColumnModel { name: "created_at"@, kind: ColumnKind::Timestamp },
            ColumnModel { name: "updated_at"@, kind: ColumnKind::Timestamp },
        ],
        enumeration_type: "user_role"@,
        labels: seq!["Normal"@, "Admin"@],
    }
}

/// The fields of a user, in the order of the parameters of the statements
/// that write one.
pub open spec fn user_shape() -> Seq<ColumnModel> {
    seq![
        ColumnModel { name: "username"@, kind: ColumnKind::Text },
        ColumnModel { name: "email"@, kind: ColumnKind::Text },
        ColumnModel { name: "password"@, kind: ColumnKind::Text },
        ColumnModel { name: "role"@, kind: ColumnKind::Enumeration },
        ColumnModel { name: "confirmed"@, kind: ColumnKind::Boolean },
    ]
}

/// The statement that selects the user of a name.
pub open spec fn by_username_query(username: Seq<char>) -> QueryModel {
    QueryModel {
        sql: "SELECT * FROM users WHERE username = $1"@,
        parameters: seq![BoundModel::Text(username)],
    }
}

/// The names of the columns of the `users` table differ in their length or
/// in their first letter.
proof fn lemma_user_columns()
    ensures
        "id"@.len() == 2,
        "username"@.len() == 8,
        "email"@.len() == 5,
        "password_hash"@.len() == 13,
        "user_role"@.len() == 9 && "user_role"@[0] == 'u',
        "confirmed"@.len() == 9 && "confirmed"@[0] == 'c',
        "created_at"@.len() == 10 && "created_at"@[0] == 'c',
        "updated_at"@.len() == 10 && "updated_at"@[0] == 'u',
{
    reveal_strlit("id");
    reveal_strlit("username");
    reveal_strlit("email");
    reveal_strlit("password_hash");
    reveal_strlit("user_role");
    reveal_strlit("confirmed");
    reveal_strlit("created_at");
    reveal_strlit("updated_at");
}

/// The names of the types that the backend reports for the columns of the
/// `users` table differ in their length or in their first letter.
proof fn lemma_user_types()
    ensures
        "UUID"@.len() == 4 && "UUID"@[0] == 'U',
        "BOOL"@.len() == 4 && "BOOL"@[0] == 'B',
        "TIMESTAMP"@.len() == 9 && "TIMESTAMP"@[0] == 'T',
        "VARCHAR"@.len() == 7,
        "user_role"@.len() == 9 && "user_role"@[0] == 'u',
{
    reveal_strlit("UUID");
    reveal_strlit("BOOL");
    reveal_strlit("TIMESTAMP");
    reveal_strlit("VARCHAR");
    reveal_strlit("user_role");
}

/// The cells of a row of users have distinct names and fit the registry of
/// the table, column by column.
proof fn lemma_user_row_shape(row: UserRow)
    ensures
        distinct_cells(row.reported()),
        fits(row.reported(), user_schema()),
        columns_of(row.reported(), user_schema()) == user_schema().columns,
        values_of(row.reported()) == row.parameters(),
{
    lemma_user_columns();
    lemma_user_types();
    let cells = row.reported();
    let schema = user_schema();
    assert forall|i: int| 0 <= i < cells.len() implies schema.kind_of((#[trigger] cells[i]).name)
        == schema.columns[i].kind && schema.kind_for_type(cells[i].reported_type)
        == schema.columns[i].kind by {
        lemma_column_from(schema.columns, cells[i].name, 0);
    }
    assert(columns_of(cells, schema) =~= schema.columns);
    assert(values_of(cells) =~= row.parameters());
}

fn column(name: &str, kind: ColumnKind) -> (descriptor: ColumnDescriptor)
    ensures
        descriptor@ == (ColumnModel { name: name@, kind }),
{
    ColumnDescriptor { name: String::from_str(name), kind }
}

fn cell(name: &str, reported_type: &str, value: BoundValue) -> (made: Cell)
    ensures
        made@ == (CellModel {
            name: name@,
            reported_type: reported_type@,
            value: Some(value@),
        }),
{
    Cell {
        name: String::from_str(name),
        reported_type: String::from_str(reported_type),
        value: Some(value),
    }
}

fn user_fields() -> (shape: Vec<ColumnDescriptor>)
    ensures
        column_models(shape@) == user_shape(),
{
    let mut shape: Vec<ColumnDescriptor> = Vec::new();
    shape.push(column("username", ColumnKind::Text));
    shape.push(column("email", ColumnKind::Text));
    shape.push(column("password", ColumnKind::Text));
    shape.push(column("role", ColumnKind::Enumeration));
    shape.push(column("confirmed", ColumnKind::Boolean));
    assert(column_models(shape@) =~= user_shape());
    shape
}

/// A row of the `users` table, each column in its own type.
#[derive(Debug, PartialEq, Eq)]
pub struct UserRow {
    pub id: u128,
    pub username: String,
    pub email: String,
    pub password_hash: String,
    pub user_role: String,
    pub confirmed: bool,
    /// Seconds since 1970 and the nanoseconds into the second.
    pub created_at: (i64, u32),
    /// Seconds since 1970 and the nanoseconds into the second.
    pub updated_at: (i64, u32),
}

impl UserRow {
    /// What the columns of the row hold, in the order of the registry.
    pub open spec fn parameters(&self) -> Seq<BoundModel> {
        seq![
            BoundModel::Identifier(self.id),
            BoundModel::Text(self.username@),
            BoundModel::Text(self.email@),
            BoundModel::Text(self.password_hash@),
            BoundModel::Label(self.user_role@),
            BoundModel::Boolean(self.confirmed),
            BoundModel::Timestamp(self.created_at.0, self.created_at.1),
            BoundModel::Timestamp(self.updated_at.0, self.updated_at.1),
        ]
    }

    /// The cells of the row, as the backend reports them.
    pub open spec fn reported(&self) -> Seq<CellModel> {
        seq![
            CellModel {
                name: "id"@,
                reported_type: "UUID"@,
                value: Some(BoundModel::Identifier(self.id)),
            },
            CellModel {
                name: "username"@,
                reported_type: "VARCHAR"@,
                value: Some(BoundModel::Text(self.username@)),
            },
            CellModel {
                name: "email"@,
                reported_type: "VARCHAR"@,
                value: Some(BoundModel::Text(self.email@)),
            },
            CellModel {
                name: "password_hash"@,
                reported_type: "VARCHAR"@,
                value: Some(BoundModel::Text(self.password_hash@)),
            },
            CellModel {
                name: "user_role"@,
                reported_type: "user_role"@,
                value: Some(BoundModel::Label(self.user_role@)),
            },
            CellModel {
                name: "confirmed"@,
                reported_type: "BOOL"@,
                value: Some(BoundModel::Boolean(self.confirmed)),
            },
            CellModel {
                name: "created_at"@,
                reported_type: "TIMESTAMP"@,
                value: Some(BoundModel::Timestamp(self.created_at.0, self.created_at.1)),
            },
            CellModel {
                name: "updated_at"@,
                reported_type: "TIMESTAMP"@,
                value: Some(BoundModel::Timestamp(self.updated_at.0, self.updated_at.1)),
            },
        ]
    }

    /// Reads a row from a document that holds every column of the table,
    /// each value coerced into the kind of its column. Reading fails at the
    /// first column, in the order of the registry, that is absent or whose
    /// value cannot be coerced.
    pub fn from_document(document: &Document) -> (read: Result<UserRow, StoreError>)
        ensures
            match entity_outcome(user_schema().columns, document@, user_schema()) {
                Ok(models) => read matches Ok(row) && row.parameters() == models,
                Err(failure) => read matches Err(error) && error@ == failure,
            },
    {
        let registry = UserPGStore.registry();
        let ghost outcomes = entity_fields(user_schema().columns, document@, user_schema());
        let mut parameters = match entity_parameters(registry.columns(), document, &registry) {
            Ok(parameters) => parameters,
            Err(error) => {
                return Err(error);
            },
        };
        let ghost read = parameters@;
        proof {
            lemma_first_none_from(outcomes, 0);
            assert(user_schema().columns.len() == 8);
            assert(outcomes.len() == 8);
            assert(bound_models(parameters@) == unwrapped(outcomes));
            assert(unwrapped(outcomes).len() == 8);
            assert(bound_models(parameters@).len() == parameters@.len());
            assert forall|k: int| 0 <= k < 8 implies outcomes[k] == Some(
                #[trigger] parameters@[k]@,
            ) by {
                assert(bound_models(parameters@)[k] == parameters@[k]@);
                assert(unwrapped(outcomes)[k] == outcomes[k].unwrap());
            }
            assert(read[0]@ is Identifier) by {
                assert(outcomes[0] == Some(read[0]@));
            }
            assert(read[1]@ is Text) by {
                assert(outcomes[1] == Some(read[1]@));
            }
            assert(read[2]@ is Text) by {
                assert(outcomes[2] == Some(read[2]@));
            }
            assert(read[3]@ is Text) by {
                assert(outcomes[3] == Some(read[3]@));
            }
            assert(read[4]@ is Label) by {
                assert(outcomes[4] == Some(read[4]@));
            }
            assert(read[5]@ is Boolean) by {
                assert(outcomes[5] == Some(read[5]@));
            }
            assert(read[6]@ is Timestamp) by {
                assert(outcomes[6] == Some(read[6]@));
            }
            assert(read[7]@ is Timestamp) by {
                assert(outcomes[7] == Some(read[7]@));
            }
        }
        let updated_at = match parameters.pop() {
            Some(BoundValue::Timestamp(seconds, nanos)) => (seconds, nanos),
            _ => unreached(),
        };
        assert(parameters@ =~= read.take(7));
        let created_at = match parameters.pop() {
            Some(BoundValue::Timestamp(seconds, nanos)) => (seconds, nanos),
            _ => unreached(),
        };
        assert(parameters@ =~= read.take(6));
        let confirmed = match parameters.pop() {
            Some(BoundValue::Boolean(b)) => b,
            _ => unreached(),
        };
        assert(parameters@ =~= read.take(5));
        let user_role = match parameters.pop() {
            Some(BoundValue::Label(label)) => label,
            _ => unreached(),
        };
        assert(parameters@ =~= read.take(4));
        let password_hash = match parameters.pop() {
            Some(BoundValue::Text(text)) => text,
            _ => unreached(),
        };
        assert(parameters@ =~= read.take(3));
        let email = match parameters.pop() {
            Some(BoundValue::Text(text)) => text,
            _ => unreached(),
        };
        assert(parameters@ =~= read.take(2));
        let username = match parameters.pop() {
            Some(BoundValue::Text(text)) => text,
            _ => unreached(),
        };
        assert(parameters@ =~= read.take(1));
        let id = match parameters.pop() {
            Some(BoundValue::Identifier(id)) => id,
            _ => unreached(),
        };
        assert(parameters@ =~= read.take(0));
        let row = UserRow {
            id,
            username,
            email,
            password_hash,
            user_role,
            confirmed,
            created_at,
            updated_at,
        };
        assert(row.parameters() =~= bound_models(read));
        Ok(row)
    }

    /// Whether every column of the row holds a plain value.
    pub open spec fn is_plain(&self) -> bool {
        forall|i: int| 0 <= i < 8 ==> plain(#[trigger] self.parameters()[i])
    }

    /// Turns the row into a document, as a row of a result is turned into
    /// one.
    ///
    /// A row of plain values that is turned into a document is read back
    /// from it as the same row, and the fields of the document are bound to
    /// the values of the row.
    pub fn to_document(&self) -> (document: Result<Document, StoreError>)
        ensures
            match row_outcome(self.reported(), user_schema()) {
                Ok(entries) => document matches Ok(doc) && doc.wf() && doc.is_object() && doc@
                    == entries,
                Err(failure) => document matches Err(error) && error@ == failure,
            },
            document matches Ok(doc) ==> (self.is_plain() ==> entity_outcome(
                user_schema().columns,
                doc@,
                user_schema(),
            ) == Ok::<Seq<BoundModel>, ErrorModel>(self.parameters())),
            document matches Ok(doc) ==> (self.is_plain() ==> bind_values_outcome(
                &doc,
                user_schema(),
            ) == Ok::<Seq<BoundModel>, ErrorModel>(self.parameters())),
    {
        let registry = UserPGStore.registry();
        let cells = self.cells();
        let document = row_to_document(&cells, &registry);
        proof {
            if document is Ok && self.is_plain() {
                lemma_user_row_shape(*self);
                let row = self.reported();
                assert forall|i: int| 0 <= i < row.len() implies (#[trigger] row[i]).value
                    is Some && plain(row[i].value.unwrap()) by {
                    assert(row[i].value == Some(self.parameters()[i]));
                }
                lemma_row_reads_back(row, user_schema());
                lemma_row_binds_back(row, user_schema());
            }
        }
        document
    }

    /// The cells of the row, as the backend reports them.
    pub fn cells(&self) -> (row: Vec<Cell>)
        ensures
            cell_models(row@) == self.reported(),
    {
        let mut row: Vec<Cell> = Vec::new();
        row.push(cell("id", "UUID", BoundValue::Identifier(self.id)));
        row.push(cell("username", "VARCHAR", BoundValue::Text(self.username.clone())));
        row.push(cell("email", "VARCHAR", BoundValue::Text(self.email.clone())));
        row.push(cell("password_hash", "VARCHAR", BoundValue::Text(self.password_hash.clone())));
        row.push(cell("user_role", "user_role", BoundValue::Label(self.user_role.clone())));
        row.push(cell("confirmed", "BOOL", BoundValue::Boolean(self.confirmed)));
        row.push(
            cell(
                "created_at",
                "TIMESTAMP",
                BoundValue::Timestamp(self.created_at.0, self.created_at.1),
            ),
        );
        row.push(
            cell(
                "updated_at",
                "TIMESTAMP",
                BoundValue::Timestamp(self.updated_at.0, self.updated_at.1),
            ),
        );
        assert(cell_models(row@) =~= self.reported());
        row
    }
}

impl UserPGStore {
    /// Makes the statement that selects the user called `username`.
    pub fn get_by_username(&self, username: &String) -> (query: BoundQuery)
        ensures
            query@ == by_username_query(username@),
    {
        let mut parameters: Vec<BoundValue> = Vec::new();
        parameters.push(BoundValue::Text(username.clone()));
        assert(bound_models(parameters@) =~= seq![BoundModel::Text(username@)]);
        BoundQuery { sql: String::from_str("SELECT * FROM users WHERE username = $1"), parameters }
    }
}

impl StoreTrait for UserPGStore {
    open spec fn table_name(&self) -> Seq<char> {
        "users"@
    }

    open spec fn schema(&self) -> RegistryModel {
        user_schema()
    }

    open spec fn shape(&self) -> Seq<ColumnModel> {
        user_shape()
    }

    open spec fn insert_text(&self) -> Seq<char> {
        INSERT_USER@
    }

    open spec fn update_text(&self) -> Seq<char> {
        UPDATE_USER@
    }

    fn table(&self) -> (name: String) {
        String::from_str("users")
    }

    fn registry(&self) -> (registry: Registry) {
        let mut labels: Vec<String> = Vec::new();
        labels.push(String::from_str("Normal"));
        labels.push(String::from_str("Admin"));
        let mut registry = Registry::new(String::from_str("user_role"), labels);
        proof {
            lemma_user_columns();
        }
        proof {
            lemma_column_from(registry@.columns, "id"@, 0);
        }
        registry.declare(String::from_str("id"), ColumnKind::Identifier);
        assert(registry@.columns =~= user_schema().columns.take(1));
        proof {
            lemma_column_from(registry@.columns, "username"@, 0);
        }
        registry.declare(String::from_str("username"), ColumnKind::Text);
        assert(registry@.columns =~= user_schema().columns.take(2));
        proof {
            lemma_column_from(registry@.columns, "email"@, 0);
        }
        registry.declare(String::from_str("email"), ColumnKind::Text);
        assert(registry@.columns =~= user_schema().columns.take(3));
        proof {
            lemma_column_from(registry@.columns, "password_hash"@, 0);
        }
        registry.declare(String::from_str("password_hash"), ColumnKind::Text);
        assert(registry@.columns =~= user_schema().columns.take(4));
        proof {
            lemma_column_from(registry@.columns, "user_role"@, 0);
        }
        registry.declare(String::from_str("user_role"), ColumnKind::Enumeration);
        assert(registry@.columns =~= user_schema().columns.take(5));
        proof {
            lemma_column_from(registry@.columns, "confirmed"@, 0);
        }
        registry.declare(String::from_str("confirmed"), ColumnKind::Boolean);
        assert(registry@.columns =~= user_schema().columns.take(6));
        proof {
            lemma_column_from(registry@.columns, "created_at"@, 0);
        }
        registry.declare(String::from_str("created_at"), ColumnKind::Timestamp);
        assert(registry@.columns =~= user_schema().columns.take(7));
        proof {
            lemma_column_from(registry@.columns, "updated_at"@, 0);
        }
        registry.declare(String::from_str("updated_at"), ColumnKind::Timestamp);
        assert(registry@.columns =~= user_schema().columns.take(8));
        assert(user_schema().columns.take(8) =~= user_schema().columns);
        assert(registry@.labels =~= user_schema().labels);
        registry
    }

    fn insert(&self, item: &Document) -> (query: Result<BoundQuery, StoreError>) {
        insert_entity(
            INSERT_USER,
            &user_fields(),
            item,
            &self.registry(),
        )
    }

    fn get(&self, id: u128) -> (query: BoundQuery) {
        select_by_id(&self.table(), id)
    }

    fn get_all_paginate(&self, limit: i64, offset: i64) -> (query: BoundQuery) {
        select_page(&self.table(), limit, offset)
    }

    fn count(&self) -> (query: BoundQuery) {
        count_rows(&self.table())
    }

    fn get_by_slug(&self, json_slug: &Document) -> (query: Result<BoundQuery, StoreError>) {
        select_by_slug(&self.table(), json_slug, &self.registry())
    }

    fn delete(&self, id: u128) -> (query: BoundQuery) {
        delete_by_id(&self.table(), id)
    }

    fn update(&self, id: u128, item: &Document) -> (query: Result<BoundQuery, StoreError>) {
        update_entity(
            UPDATE_USER,
            &user_fields(),
            id,
            item,
            &self.registry(),
        )
    }

    fn patch(&self, id: u128, patch: &Document) -> (query: Result<BoundQuery, StoreError>) {
        patch_by_id(&self.table(), id, patch, &self.registry())
    }

    fn bind_values(&self, json_value: &Document) -> (bound: Result<Vec<BoundValue>, StoreError>) {
        bind_document(json_value, &self.registry())
    }

    fn row_to_json(&self, row: &Vec<Cell>) -> (document: Result<Document, StoreError>) {
        row_to_document(row, &self.registry())
    }
}

} // verus!
