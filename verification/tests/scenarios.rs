//! End-to-end scenarios against a simulated store: the tests play the store,
//! recording the statements and parameter rows the library plans and handing
//! result rows back to its decoders.

use debil_mysql::{
    create_table_query, decode_rows, first_decode, first_query, save_all_plan,
    save_query_with_params, select_query, table_name, Error, FieldAttribute, MySQLValue,
    QueryBuilder, RowMap, SQLMapper, SQLTable, SQLValue, SchemaColumn,
};

#[derive(Debug, PartialEq, Clone)]
struct User {
    user_id: String,
    name: String,
    email: String,
    age: i32,
}

impl SQLMapper for User {
    fn map_from_sql(values: RowMap) -> Result<User, Error> {
        let mut m = values;
        let user_id: String = m.take_column("user_id")?;
        let name: String = m.take_column("name")?;
        let email: String = m.take_column("email")?;
        let age: i32 = m.take_column("age")?;
        Ok(User { user_id, name, email, age })
    }
}

// The proof obligations of the table capability are checked by the verifier
// only for implementations inside the library; here they are stubs.
impl SQLTable for User {
    fn table_name() -> String {
        "user".to_string()
    }

    fn schema_of() -> Vec<SchemaColumn> {
        vec![
            SchemaColumn::new(
                "user_id".to_string(),
                "varchar(50)".to_string(),
                FieldAttribute { primary_key: Some(true), unique: None, not_null: None },
            ),
            SchemaColumn::new(
                "name".to_string(),
                "varchar(50)".to_string(),
                FieldAttribute { primary_key: None, unique: Some(true), not_null: None },
            ),
            SchemaColumn::new(
                "email".to_string(),
                "varchar(256)".to_string(),
                FieldAttribute::default(),
            ),
            SchemaColumn::new("age".to_string(), "int".to_string(), FieldAttribute::default()),
        ]
    }

    fn map_to_sql(self) -> Vec<(String, MySQLValue)> {
        vec![
            ("user_id".to_string(), SQLValue::serialize(self.user_id)),
            ("name".to_string(), SQLValue::serialize(self.name)),
            ("email".to_string(), SQLValue::serialize(self.email)),
            ("age".to_string(), SQLValue::serialize(self.age)),
        ]
    }

    fn lemma_schema_wf() {
    }

    fn lemma_row_wf(self) {
    }

    fn lemma_roundtrip(self) {
    }
}

#[derive(Debug, PartialEq, Clone)]
struct UserItem {
    user_id: String,
    item_id: String,
}

impl SQLMapper for UserItem {
    fn map_from_sql(values: RowMap) -> Result<UserItem, Error> {
        let mut m = values;
        let user_id: String = m.take_column("user_id")?;
        let item_id: String = m.take_column("item_id")?;
        Ok(UserItem { user_id, item_id })
    }
}

impl SQLTable for UserItem {
    fn table_name() -> String {
        "user_item_relation".to_string()
    }

    fn schema_of() -> Vec<SchemaColumn> {
        vec![
            SchemaColumn::new(
                "user_id".to_string(),
                "varchar(50)".to_string(),
                FieldAttribute::default(),
            ),
            SchemaColumn::new(
                "item_id".to_string(),
                "varchar(50)".to_string(),
                FieldAttribute::default(),
            ),
        ]
    }

    fn map_to_sql(self) -> Vec<(String, MySQLValue)> {
        vec![
            ("user_id".to_string(), SQLValue::serialize(self.user_id)),
            ("item_id".to_string(), SQLValue::serialize(self.item_id)),
        ]
    }

    fn lemma_schema_wf() {
    }

    fn lemma_row_wf(self) {
    }

    fn lemma_roundtrip(self) {
    }
}

/// A read-only joined projection: a full user plus one joined column. It
/// has the mapper capability alone, since it owns no writable table.
#[derive(Debug, PartialEq)]
struct JoinedUserItemsView {
    user: User,
    item_id: Option<String>,
}

impl SQLMapper for JoinedUserItemsView {
    fn map_from_sql(values: RowMap) -> Result<JoinedUserItemsView, Error> {
        let mut m = values;
        let item_id: Option<String> = m.take_column("item_id")?;
        let user = User::map_from_sql(m)?;
        Ok(JoinedUserItemsView { user, item_id })
    }
}

/// The simulated store: rows are kept as serialized parameter sets in
/// insertion order and handed back as row maps.
fn rows_of(saved: &[Vec<(String, MySQLValue)>]) -> Vec<RowMap> {
    saved.iter().map(|pairs| RowMap::from_pairs(pairs.clone())).collect()
}

#[test]
fn create_save_load_roundtrip() {
    // Scenario: create a 4-column table, save two distinct records, load
    // them back in insertion order.
    let q = create_table_query(&User::table_name(), &User::schema_of());
    assert_eq!(
        q,
        "CREATE TABLE IF NOT EXISTS user (user_id varchar(50) PRIMARY KEY, \
         name varchar(50) UNIQUE, email varchar(256), age int)"
    );

    let alice = User {
        user_id: "u-1".to_string(),
        name: "alice".to_string(),
        email: "alice@example.com".to_string(),
        age: 30,
    };
    let bob = User {
        user_id: "u-2".to_string(),
        name: "bob".to_string(),
        email: "bob@example.com".to_string(),
        age: 31,
    };

    let mut store: Vec<Vec<(String, MySQLValue)>> = Vec::new();
    for u in [alice.clone(), bob.clone()] {
        let (q, params) = save_query_with_params(u);
        assert_eq!(
            q,
            "INSERT INTO user (user_id, name, email, age) \
             VALUES (:user_id, :name, :email, :age)"
        );
        store.push(params);
    }

    let q = select_query::<User>(QueryBuilder::new());
    assert_eq!(q, "SELECT user.user_id, user.name, user.email, user.age FROM user");
    let loaded: Vec<User> = decode_rows(rows_of(&store)).unwrap();
    assert_eq!(loaded, vec![alice, bob]);
}

#[test]
fn first_on_empty_then_after_one_save() {
    // Scenario: a strict `first` on an empty table is the NotFound
    // condition; after one save it returns that one record.
    let q = first_query::<User>(QueryBuilder::new());
    assert_eq!(q, "SELECT user.user_id, user.name, user.email, user.age FROM user LIMIT 1");

    let empty: Vec<RowMap> = Vec::new();
    let r: Result<User, Error> = first_decode(empty);
    assert!(matches!(&r, Err(e) if e.is_not_found()));
    assert!(matches!(r, Err(Error::NotFoundError)));

    let u = User {
        user_id: "u-9".to_string(),
        name: "nine".to_string(),
        email: "nine@example.com".to_string(),
        age: 9,
    };
    let (_, params) = save_query_with_params(u.clone());
    let r: User = first_decode(rows_of(&[params])).unwrap();
    assert_eq!(r, u);
}

#[test]
fn save_all_batches_and_short_circuits() {
    let none = save_all_plan::<User>(vec![]);
    assert!(none.is_none());

    let users = vec![
        User {
            user_id: "_a".to_string(),
            name: "".to_string(),
            email: "".to_string(),
            age: 0,
        },
        User {
            user_id: "_b".to_string(),
            name: "".to_string(),
            email: "".to_string(),
            age: 0,
        },
    ];
    let (q, param_sets) = save_all_plan(users).unwrap();
    assert_eq!(
        q,
        "INSERT INTO user (user_id, name, email, age) VALUES (:user_id, :name, :email, :age)"
    );
    assert_eq!(param_sets.len(), 2);
    assert_eq!(param_sets[0][0].1, MySQLValue::Text("_a".to_string()));
    assert_eq!(param_sets[1][0].1, MySQLValue::Text("_b".to_string()));
}

#[test]
fn db_test_it_should_create_and_select() {
    // The create-and-select flow, with the store simulated: save two users,
    // batch-save two more, load all four back in insertion order, then run
    // a join query and map its rows into the joined view.
    let user1 = User {
        user_id: "user-123456".to_string(),
        name: "foo".to_string(),
        email: "dddd@example.com".to_string(),
        age: 20,
    };
    let user2 = User {
        user_id: "user-456789".to_string(),
        name: "bar".to_string(),
        email: "quux@example.com".to_string(),
        age: 55,
    };

    let mut store: Vec<Vec<(String, MySQLValue)>> = Vec::new();
    store.push(save_query_with_params(user1.clone()).1);
    store.push(save_query_with_params(user2.clone()).1);
    let batch = vec![
        User {
            user_id: "_a".to_string(),
            name: "".to_string(),
            email: "".to_string(),
            age: 0,
        },
        User {
            user_id: "_b".to_string(),
            name: "".to_string(),
            email: "".to_string(),
            age: 0,
        },
    ];
    let (_, mut param_sets) = save_all_plan(batch).unwrap();
    store.append(&mut param_sets);

    let result: Vec<User> = decode_rows(rows_of(&store)).unwrap();
    assert_eq!(result.len(), 4);
    assert_eq!(result[0..2].to_vec(), vec![user1, user2]);

    // Join query: one user with three related items.
    let user_id = "user-join-and-load".to_string();
    let user = User {
        user_id: user_id.clone(),
        name: "foo".to_string(),
        email: "dddd@example.com".to_string(),
        age: 20,
    };
    let items = ["item-abcd", "item-defg", "item-pqrs"];

    let q = select_query::<User>(
        QueryBuilder::new()
            .left_join(
                table_name::<UserItem>(),
                ("user_id".to_string(), "user_id".to_string()),
            )
            .filter(format!("{}.user_id = '{}'", table_name::<User>(), user_id))
            .append_selects(vec![format!("{}.item_id", table_name::<UserItem>())]),
    );
    assert_eq!(
        q,
        "SELECT user_item_relation.item_id, user.user_id, user.name, user.email, user.age \
         FROM user LEFT JOIN user_item_relation ON user.user_id = user_item_relation.user_id \
         WHERE user.user_id = 'user-join-and-load'"
    );

    // The store answers with one row per matching item, each carrying the
    // joined column and the duplicated parent fields.
    let joined_rows: Vec<RowMap> = items
        .iter()
        .map(|item| {
            let mut pairs = user.clone().map_to_sql();
            pairs.push(("item_id".to_string(), MySQLValue::Text(item.to_string())));
            RowMap::from_pairs(pairs)
        })
        .collect();
    let j: Vec<JoinedUserItemsView> = decode_rows(joined_rows).unwrap();
    assert_eq!(
        j,
        vec![
            JoinedUserItemsView { user: user.clone(), item_id: Some("item-abcd".to_string()) },
            JoinedUserItemsView { user: user.clone(), item_id: Some("item-defg".to_string()) },
            JoinedUserItemsView { user: user.clone(), item_id: Some("item-pqrs".to_string()) },
        ]
    );
}

#[test]
fn joined_view_with_no_match_carries_null() {
    let user = User {
        user_id: "u-solo".to_string(),
        name: "solo".to_string(),
        email: "solo@example.com".to_string(),
        age: 1,
    };
    let mut pairs = user.clone().map_to_sql();
    pairs.push(("item_id".to_string(), MySQLValue::Null));
    let row = RowMap::from_pairs(pairs);
    let view = JoinedUserItemsView::map_from_sql(row).unwrap();
    assert_eq!(view, JoinedUserItemsView { user, item_id: None });
}
