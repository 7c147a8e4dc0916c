use store_lib::binder::BoundValue;
use store_lib::document::{Document, FieldValue};
use store_lib::materializer::{found_or_missing, row_count, rows_to_documents, Cell};
use store_lib::statement::BoundQuery;
use store_lib::stores::store::{StoreError, StoreTrait};
use store_lib::stores::token_store::{TokenPGStore, TokenRow};
use store_lib::stores::user_store::{UserPGStore, UserRow};

/// What a backend answers to a statement.
enum Answer {
    Done,
    Counted(i64),
    Rows(Vec<Vec<Cell>>),
}

/// A table in memory that runs the statements of a store as a database
/// would: it reads the text, takes the parameter of each placeholder from
/// its position, and keeps the rows in the order of their identifiers.
struct Table {
    name: &'static str,
    enumeration: &'static str,
    unique: Vec<(&'static str, &'static str)>,
    defaults: Vec<(&'static str, BoundValue)>,
    rows: Vec<Vec<(String, BoundValue)>>,
    clock: i64,
    next_id: u128,
}

fn parameter(statement: &BoundQuery, placeholder: &str) -> BoundValue {
    let index: usize = placeholder.trim().trim_start_matches('$').parse().unwrap();
    assert!(index >= 1 && index <= statement.parameters.len(), "no parameter for {placeholder}");
    copy(&statement.parameters[index - 1])
}

fn copy(value: &BoundValue) -> BoundValue {
    match value {
        BoundValue::Identifier(id) => BoundValue::Identifier(*id),
        BoundValue::Label(label) => BoundValue::Label(label.clone()),
        BoundValue::Timestamp(seconds, nanos) => BoundValue::Timestamp(*seconds, *nanos),
        BoundValue::Boolean(b) => BoundValue::Boolean(*b),
        BoundValue::Text(text) => BoundValue::Text(text.clone()),
        BoundValue::Integer(n) => BoundValue::Integer(*n),
    }
}

fn identifier(row: &[(String, BoundValue)]) -> u128 {
    match row.iter().find(|(name, _)| name == "id") {
        Some((_, BoundValue::Identifier(id))) => *id,
        _ => panic!("a row without an identifier"),
    }
}

impl Table {
    fn users() -> Table {
        Table {
            name: "users",
            enumeration: "user_role",
            unique: vec![("username", "users_username_key"), ("email", "users_email_key")],
            defaults: vec![],
            rows: vec![],
            clock: 1_700_000_000,
            next_id: 1,
        }
    }

    fn tokens() -> Table {
        Table {
            name: "tokens",
            enumeration: "token_type",
            unique: vec![],
            defaults: vec![],
            rows: vec![],
            clock: 1_700_000_000,
            next_id: 1,
        }
    }

    fn now(&mut self) -> BoundValue {
        self.clock += 1;
        BoundValue::Timestamp(self.clock, 0)
    }

    fn matching(&self, statement: &BoundQuery, filter: &str) -> Vec<usize> {
        let conditions: Vec<(String, BoundValue)> = filter
            .split(" AND ")
            .map(|condition| {
                let (column, placeholder) = condition.split_once(" = ").unwrap();
                (column.to_string(), parameter(statement, placeholder))
            })
            .collect();
        (0..self.rows.len())
            .filter(|&i| {
                conditions.iter().all(|(column, wanted)| {
                    self.rows[i].iter().any(|(name, held)| name == column && held == wanted)
                })
            })
            .collect()
    }

    fn violated(&self, row: &[(String, BoundValue)], but: Option<usize>) -> Option<&'static str> {
        for (column, constraint) in &self.unique {
            let value = row.iter().find(|(name, _)| name == column).map(|(_, v)| v);
            for (i, other) in self.rows.iter().enumerate() {
                if Some(i) != but
                    && other.iter().find(|(name, _)| name == column).map(|(_, v)| v) == value
                {
                    return Some(constraint);
                }
            }
        }
        None
    }

    fn cells(&self, row: &[(String, BoundValue)]) -> Vec<Cell> {
        row.iter()
            .map(|(name, value)| Cell {
                name: name.clone(),
                reported_type: match value {
                    BoundValue::Identifier(_) => "UUID".to_string(),
                    BoundValue::Label(_) => self.enumeration.to_string(),
                    BoundValue::Timestamp(_, _) => "TIMESTAMP".to_string(),
                    BoundValue::Boolean(_) => "BOOL".to_string(),
                    BoundValue::Text(_) => "VARCHAR".to_string(),
                    BoundValue::Integer(_) => "INT8".to_string(),
                },
                value: Some(copy(value)),
            })
            .collect()
    }

    fn run(&mut self, statement: &BoundQuery) -> Result<Answer, StoreError> {
        let sql = statement.sql.as_str();
        let table = self.name;
        if let Some(rest) = sql.strip_prefix(&format!("INSERT INTO {table} (")) {
            let (columns, values) = rest.split_once(") VALUES (").unwrap();
            let values = values.strip_suffix(')').unwrap();
            let columns: Vec<&str> = columns.split(", ").collect();
            let values: Vec<&str> = values.split(", ").collect();
            assert_eq!(columns.len(), values.len());
            assert_eq!(values.len(), statement.parameters.len());
            let mut row = vec![("id".to_string(), BoundValue::Identifier(self.next_id))];
            for (column, placeholder) in columns.iter().zip(values) {
                row.push((column.to_string(), parameter(statement, placeholder)));
            }
            for (column, value) in &self.defaults {
                row.push((column.to_string(), copy(value)));
            }
            let at = self.now();
            row.push(("created_at".to_string(), copy(&at)));
            row.push(("updated_at".to_string(), at));
            if let Some(constraint) = self.violated(&row, None) {
                return Err(StoreError::from_backend(
                    Some(constraint.to_string()),
                    format!("duplicate key value violates unique constraint \"{constraint}\""),
                ));
            }
            self.next_id += 1;
            self.rows.push(row);
            return Ok(Answer::Done);
        }
        if sql == format!("SELECT COUNT(id) FROM {table}") {
            assert!(statement.parameters.is_empty());
            return Ok(Answer::Counted(self.rows.len() as i64));
        }
        if let Some(rest) = sql.strip_prefix(&format!("SELECT * FROM {table} ORDER BY id ASC ")) {
            let (limit, offset) =
                rest.strip_prefix("LIMIT ").unwrap().split_once(" OFFSET ").unwrap();
            assert_eq!(statement.parameters.len(), 2);
            let (limit, offset) = match (parameter(statement, limit), parameter(statement, offset)) {
                (BoundValue::Integer(limit), BoundValue::Integer(offset)) => (limit, offset),
                _ => panic!("a limit or an offset that is no number"),
            };
            let mut order: Vec<usize> = (0..self.rows.len()).collect();
            order.sort_by_key(|&i| identifier(&self.rows[i]));
            let rows = order
                .into_iter()
                .skip(offset.max(0) as usize)
                .take(limit.max(0) as usize)
                .map(|i| self.cells(&self.rows[i]))
                .collect();
            return Ok(Answer::Rows(rows));
        }
        if let Some(filter) = sql.strip_prefix(&format!("SELECT * FROM {table} WHERE ")) {
            assert_eq!(filter.matches('$').count(), statement.parameters.len());
            let found = self.matching(statement, filter);
            return Ok(Answer::Rows(found.iter().map(|&i| self.cells(&self.rows[i])).collect()));
        }
        if let Some(filter) = sql.strip_prefix(&format!("DELETE FROM {table} WHERE ")) {
            assert_eq!(filter.matches('$').count(), statement.parameters.len());
            let found = self.matching(statement, filter);
            for i in found.into_iter().rev() {
                self.rows.remove(i);
            }
            return Ok(Answer::Done);
        }
        if let Some(rest) = sql.strip_prefix(&format!("UPDATE {table} SET ")) {
            let (assignments, filter) = rest.split_once(" WHERE ").unwrap();
            let assignments = assignments.trim_end();
            assert_eq!(sql.matches('$').count(), statement.parameters.len());
            let found = self.matching(statement, filter);
            let at = self.now();
            for i in found {
                let mut row: Vec<(String, BoundValue)> =
                    self.rows[i].iter().map(|(name, value)| (name.clone(), copy(value))).collect();
                for assignment in assignments.split(", ") {
                    let (column, value) = assignment.split_once(" = ").unwrap();
                    let value = if value == "(now() at time zone 'utc')" {
                        copy(&at)
                    } else {
                        parameter(statement, value)
                    };
                    let held = row.iter_mut().find(|(name, _)| name == column);
                    held.expect("an assignment to a column that the table lacks").1 = value;
                }
                if let Some(constraint) = self.violated(&row, Some(i)) {
                    return Err(StoreError::from_backend(
                        Some(constraint.to_string()),
                        "duplicate key".to_string(),
                    ));
                }
                self.rows[i] = row;
            }
            return Ok(Answer::Done);
        }
        panic!("a statement that the table does not know: {sql}");
    }

    fn execute<S: StoreTrait>(
        &mut self,
        _: &S,
        statement: Result<BoundQuery, StoreError>,
    ) -> Result<(), StoreError> {
        self.run(&statement?).map(|_| ())
    }

    fn fetch<S: StoreTrait>(
        &mut self,
        store: &S,
        statement: Result<BoundQuery, StoreError>,
    ) -> Result<Vec<Document>, StoreError> {
        match self.run(&statement?)? {
            Answer::Rows(rows) => rows_to_documents(&rows, &store.registry()),
            _ => panic!("a statement that selects nothing"),
        }
    }

    fn count<S: StoreTrait>(&mut self, store: &S) -> u64 {
        match self.run(&store.count()).unwrap() {
            Answer::Counted(n) => row_count(Some(n)),
            _ => panic!("a statement that counts nothing"),
        }
    }
}

fn text(s: &str) -> FieldValue {
    FieldValue::Text(s.to_string())
}

fn document(entries: Vec<(&str, FieldValue)>) -> Document {
    let mut doc = Document::new();
    for (name, value) in entries {
        assert!(doc.insert(name.to_string(), value));
    }
    doc
}

fn user(name: &str) -> Document {
    document(vec![
        ("username", text(name)),
        ("email", text(&format!("{name}@x.com"))),
        ("password", text("secret")),
        ("role", text("Normal")),
        ("confirmed", FieldValue::Bool(false)),
    ])
}

fn token(string: &str, kind: &str) -> Document {
    document(vec![
        ("token_string", text(string)),
        ("token_type", text(kind)),
        ("blacklisted", FieldValue::Bool(false)),
    ])
}

#[test]
fn an_inserted_user_is_counted_and_found_by_name() {
    let store = UserPGStore;
    let mut users = Table::users();
    users.execute(&store, store.insert(&user("bob"))).unwrap();
    let before = users.count(&store);
    users.execute(&store, store.insert(&user("alice"))).unwrap();
    assert_eq!(users.count(&store), before + 1);
    let found =
        users.fetch(&store, store.get_by_slug(&document(vec![("username", text("alice"))]))).unwrap();
    assert_eq!(found.len(), 1);
    assert_eq!(found[0].get(&"username".to_string()), Some(&text("alice")));
    assert_eq!(found[0].get(&"email".to_string()), Some(&text("alice@x.com")));
    assert_eq!(found[0].get(&"user_role".to_string()), Some(&text("Normal")));
    assert_eq!(found[0].get(&"confirmed".to_string()), Some(&FieldValue::Bool(false)));
    let row = UserRow::from_document(&found[0]).unwrap();
    assert_eq!(row.username, "alice");
    assert_eq!(row.password_hash, "secret");
}

#[test]
fn a_lookup_that_matches_nothing_is_empty() {
    let store = UserPGStore;
    let mut users = Table::users();
    users.execute(&store, store.insert(&user("alice"))).unwrap();
    let found =
        users.fetch(&store, store.get_by_slug(&document(vec![("username", text("carol"))]))).unwrap();
    assert!(found.is_empty());
    assert!(users.fetch(&store, Ok(store.get(99))).unwrap().is_empty());
}

#[test]
fn a_lookup_by_two_fields_needs_both_to_match() {
    let store = UserPGStore;
    let mut users = Table::users();
    users.execute(&store, store.insert(&user("alice"))).unwrap();
    users.execute(&store, store.insert(&user("bob"))).unwrap();
    let both = document(vec![("confirmed", FieldValue::Bool(false)), ("email", text("bob@x.com"))]);
    let found = users.fetch(&store, store.get_by_slug(&both)).unwrap();
    assert_eq!(found.len(), 1);
    assert_eq!(found[0].get(&"username".to_string()), Some(&text("bob")));
    let none = document(vec![("username", text("alice")), ("email", text("bob@x.com"))]);
    assert!(users.fetch(&store, store.get_by_slug(&none)).unwrap().is_empty());
    let all = document(vec![("confirmed", FieldValue::Bool(false))]);
    assert_eq!(users.fetch(&store, store.get_by_slug(&all)).unwrap().len(), 2);
}

#[test]
fn a_patch_changes_what_it_names_and_the_update_time() {
    let store = UserPGStore;
    let mut users = Table::users();
    users.execute(&store, store.insert(&user("alice"))).unwrap();
    let slug = document(vec![("username", text("alice"))]);
    let before = UserRow::from_document(&users.fetch(&store, store.get_by_slug(&slug)).unwrap()[0])
        .unwrap();
    let patch = document(vec![("username", text("alice2"))]);
    users.execute(&store, store.patch(before.id, &patch)).unwrap();
    let after = users.fetch(&store, Ok(store.get(before.id))).unwrap();
    assert_eq!(after.len(), 1);
    let after = UserRow::from_document(&after[0]).unwrap();
    assert_eq!(after.username, "alice2");
    assert_eq!(after.email, before.email);
    assert_eq!(after.password_hash, before.password_hash);
    assert_eq!(after.created_at, before.created_at);
    assert!(after.updated_at > before.updated_at);
}

#[test]
fn a_patch_of_one_row_leaves_the_others() {
    let store = UserPGStore;
    let mut users = Table::users();
    users.execute(&store, store.insert(&user("alice"))).unwrap();
    users.execute(&store, store.insert(&user("bob"))).unwrap();
    let patch = document(vec![("confirmed", FieldValue::Bool(true)), ("user_role", text("Admin"))]);
    users.execute(&store, store.patch(2, &patch)).unwrap();
    let alice = UserRow::from_document(&users.fetch(&store, Ok(store.get(1))).unwrap()[0]).unwrap();
    let bob = UserRow::from_document(&users.fetch(&store, Ok(store.get(2))).unwrap()[0]).unwrap();
    assert!(!alice.confirmed);
    assert_eq!(alice.user_role, "Normal");
    assert!(bob.confirmed);
    assert_eq!(bob.user_role, "Admin");
    assert_eq!(bob.username, "bob");
}

#[test]
fn a_rejected_patch_changes_nothing() {
    let store = UserPGStore;
    let mut users = Table::users();
    users.execute(&store, store.insert(&user("alice"))).unwrap();
    let before = users.fetch(&store, Ok(store.get(1))).unwrap();
    assert_eq!(users.execute(&store, store.patch(1, &Document::new())), Err(StoreError::InvalidInput));
    let unknown = document(vec![("shoe_size", text("44"))]);
    assert_eq!(users.execute(&store, store.patch(1, &unknown)), Err(StoreError::InvalidInput));
    assert_eq!(users.fetch(&store, Ok(store.get(1))).unwrap(), before);
}

#[test]
fn a_second_user_of_the_same_name_is_turned_down() {
    let store = UserPGStore;
    let mut users = Table::users();
    users.execute(&store, store.insert(&user("alice"))).unwrap();
    let before = users.count(&store);
    let mut twin = user("alice");
    twin.insert("email".to_string(), text("other@x.com"));
    let refused = users.execute(&store, store.insert(&twin));
    assert_eq!(refused, Err(StoreError::UniqueConstraint("username taken".to_string())));
    assert_eq!(refused.unwrap_err().message(), "Store Error: username taken");
    assert_eq!(users.count(&store), before);
}

#[test]
fn a_second_user_of_the_same_email_is_turned_down() {
    let store = UserPGStore;
    let mut users = Table::users();
    users.execute(&store, store.insert(&user("alice"))).unwrap();
    let mut twin = user("alicia");
    twin.insert("email".to_string(), text("alice@x.com"));
    assert_eq!(
        users.execute(&store, store.insert(&twin)),
        Err(StoreError::UniqueConstraint("email taken".to_string()))
    );
    assert_eq!(users.count(&store), 1);
}

#[test]
fn deleting_twice_is_deleting_once() {
    let store = UserPGStore;
    let mut users = Table::users();
    users.execute(&store, store.insert(&user("alice"))).unwrap();
    users.execute(&store, store.insert(&user("bob"))).unwrap();
    users.execute(&store, Ok(store.delete(1))).unwrap();
    let once = users.fetch(&store, Ok(store.get_all_paginate(10, 0))).unwrap();
    assert_eq!(users.count(&store), 1);
    assert_eq!(users.execute(&store, Ok(store.delete(1))), Ok(()));
    let twice = users.fetch(&store, Ok(store.get_all_paginate(10, 0))).unwrap();
    assert_eq!(once, twice);
    assert_eq!(users.count(&store), 1);
    assert_eq!(twice[0].get(&"username".to_string()), Some(&text("bob")));
}

#[test]
fn the_count_of_an_empty_table_is_zero() {
    assert_eq!(Table::users().count(&UserPGStore), 0);
    assert_eq!(Table::tokens().count(&TokenPGStore), 0);
}

#[test]
fn a_page_has_at_most_as_many_rows_as_its_limit() {
    let store = UserPGStore;
    let mut users = Table::users();
    for name in ["a", "b", "c", "d", "e", "f", "g"] {
        users.execute(&store, store.insert(&user(name))).unwrap();
    }
    let page = users.fetch(&store, Ok(store.get_all_paginate(5, 0))).unwrap();
    assert_eq!(page.len(), 5);
    assert_eq!(page[0].get(&"username".to_string()), Some(&text("a")));
    assert_eq!(page[4].get(&"username".to_string()), Some(&text("e")));
    let rest = users.fetch(&store, Ok(store.get_all_paginate(5, 5))).unwrap();
    assert_eq!(rest.len(), 2);
    assert_eq!(rest[1].get(&"username".to_string()), Some(&text("g")));
    assert!(users.fetch(&store, Ok(store.get_all_paginate(0, 0))).unwrap().is_empty());
}

#[test]
fn an_update_replaces_the_whole_entity() {
    let store = UserPGStore;
    let mut users = Table::users();
    users.execute(&store, store.insert(&user("alice"))).unwrap();
    let before = UserRow::from_document(&users.fetch(&store, Ok(store.get(1))).unwrap()[0]).unwrap();
    let mut carol = user("carol");
    carol.insert("confirmed".to_string(), FieldValue::Bool(true));
    users.execute(&store, store.update(1, &carol)).unwrap();
    let after = UserRow::from_document(&users.fetch(&store, Ok(store.get(1))).unwrap()[0]).unwrap();
    assert_eq!(after.id, before.id);
    assert_eq!(after.username, "carol");
    assert_eq!(after.email, "carol@x.com");
    assert!(after.confirmed);
    assert_eq!(after.created_at, before.created_at);
    assert!(after.updated_at > before.updated_at);
}

#[test]
fn a_user_is_found_by_name_or_not_found() {
    let store = UserPGStore;
    let mut users = Table::users();
    users.execute(&store, store.insert(&user("alice"))).unwrap();
    let mut found =
        users.fetch(&store, Ok(store.get_by_username(&"alice".to_string()))).unwrap();
    let row = found_or_missing(found.pop()).unwrap();
    assert_eq!(row.get(&"email".to_string()), Some(&text("alice@x.com")));
    let mut found = users.fetch(&store, Ok(store.get_by_username(&"zed".to_string()))).unwrap();
    assert_eq!(found_or_missing(found.pop()), Err(StoreError::NotFound));
}

#[test]
fn tokens_are_inserted_found_patched_and_deleted() {
    let store = TokenPGStore;
    let mut tokens = Table::tokens();
    tokens.execute(&store, store.insert(&token("first.token", "AccessToken"))).unwrap();
    let before = tokens.count(&store);
    tokens.execute(&store, store.insert(&token("second.token", "RefreshToken"))).unwrap();
    assert_eq!(tokens.count(&store), before + 1);

    let slug = document(vec![("token_string", text("second.token"))]);
    let found = tokens.fetch(&store, store.get_by_slug(&slug)).unwrap();
    assert_eq!(found.len(), 1);
    let row = TokenRow::from_document(&found[0]).unwrap();
    assert_eq!(row.token_type, "RefreshToken");
    assert!(!row.blacklisted);

    let page = tokens.fetch(&store, Ok(store.get_all_paginate(5, 0))).unwrap();
    assert!(page.len() as i64 <= 5);

    tokens.execute(&store, store.update(row.id, &token("third.token", "AccessToken"))).unwrap();
    let updated =
        TokenRow::from_document(&tokens.fetch(&store, Ok(store.get(row.id))).unwrap()[0]).unwrap();
    assert_eq!(updated.token_string, "third.token");
    assert_eq!(updated.token_type, "AccessToken");

    let patch = document(vec![("token_string", text("\"fourth.token\""))]);
    tokens.execute(&store, store.patch(row.id, &patch)).unwrap();
    let patched =
        TokenRow::from_document(&tokens.fetch(&store, Ok(store.get(row.id))).unwrap()[0]).unwrap();
    assert_eq!(patched.token_string, "fourth.token");
    assert_eq!(patched.token_type, "AccessToken");
    assert!(patched.updated_at > updated.updated_at);

    tokens.execute(&store, Ok(store.delete_by_token(&"first.token".to_string()))).unwrap();
    assert_eq!(tokens.count(&store), 1);
    tokens.execute(&store, Ok(store.delete(row.id))).unwrap();
    assert_eq!(tokens.count(&store), 0);
}
