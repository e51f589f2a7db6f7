//! The migration engine's decisions: ADD for missing columns, MODIFY for
//! non-conforming ones, nothing for conforming ones, and never anything for
//! live columns that are not declared.

use debil_mysql::{
    introspection_query, migration_plan, plan_column, render_migration_query, FieldAttribute,
    LiveColumn, MigrationAction, MySQLValue, RowMap, SQLMapper, SchemaColumn,
};

fn attr() -> FieldAttribute {
    FieldAttribute::default()
}

fn col(name: &str, sql_type: &str, attr: FieldAttribute) -> SchemaColumn {
    SchemaColumn::new(name.to_string(), sql_type.to_string(), attr)
}

fn live(data_type: &str, column_type: &str, is_nullable: &str, column_key: &str) -> LiveColumn {
    LiveColumn::new(
        data_type.to_string(),
        column_type.to_string(),
        is_nullable.to_string(),
        column_key.to_string(),
    )
}

#[test]
fn absent_column_is_added() {
    let c = col("extra", "varchar(100)", attr());
    let action = plan_column(&c, &vec![]).unwrap();
    assert!(matches!(action, MigrationAction::AddColumn(_)));
    let q = render_migration_query(&"migration_test".to_string(), &action);
    assert_eq!(q, "ALTER TABLE migration_test ADD COLUMN extra varchar(100)");
}

#[test]
fn conforming_column_is_left_alone() {
    // The declared type may match either the base data type (int) or the
    // full column type (varchar(10)); both count as conforming.
    let c = col("n", "int", attr());
    assert!(plan_column(&c, &vec![live("int", "int(11)", "YES", "")]).is_none());
    let c = col("pk", "varchar(10)", attr());
    assert!(plan_column(&c, &vec![live("varchar", "varchar(10)", "YES", "")]).is_none());
}

#[test]
fn changed_type_is_modified() {
    let c = col("n", "bigint", attr());
    let action = plan_column(&c, &vec![live("int", "int(11)", "YES", "")]).unwrap();
    assert!(matches!(action, MigrationAction::ModifyColumn(_)));
    let q = render_migration_query(&"migration_test".to_string(), &action);
    assert_eq!(q, "ALTER TABLE migration_test MODIFY COLUMN n bigint");
}

#[test]
fn unspecified_qualifiers_are_not_enforced() {
    // Tri-state attributes: `None` must not behave like `Some(false)`, so a
    // nullable, unkeyed live column conforms whatever its flags say.
    let c = col("n", "int", attr());
    assert!(plan_column(&c, &vec![live("int", "int(11)", "NO", "UNI")]).is_none());
    assert!(plan_column(&c, &vec![live("int", "int(11)", "YES", "")]).is_none());
}

#[test]
fn specified_nullability_is_enforced() {
    let c = col(
        "email",
        "varchar(256)",
        FieldAttribute { primary_key: None, unique: None, not_null: Some(true) },
    );
    assert!(plan_column(&c, &vec![live("varchar", "varchar(256)", "NO", "")]).is_none());
    let action = plan_column(&c, &vec![live("varchar", "varchar(256)", "YES", "")]).unwrap();
    let q = render_migration_query(&"user".to_string(), &action);
    assert_eq!(q, "ALTER TABLE user MODIFY COLUMN email varchar(256) NOT NULL");
}

#[test]
fn specified_uniqueness_is_enforced_and_primary_counts_as_unique() {
    let c = col(
        "name",
        "varchar(50)",
        FieldAttribute { primary_key: None, unique: Some(true), not_null: None },
    );
    assert!(plan_column(&c, &vec![live("varchar", "varchar(50)", "YES", "UNI")]).is_none());
    assert!(plan_column(&c, &vec![live("varchar", "varchar(50)", "YES", "PRI")]).is_none());
    let action = plan_column(&c, &vec![live("varchar", "varchar(50)", "YES", "")]).unwrap();
    let q = render_migration_query(&"user".to_string(), &action);
    assert_eq!(q, "ALTER TABLE user MODIFY COLUMN name varchar(50) UNIQUE");
}

#[test]
fn modify_never_redeclares_a_primary_key() {
    let c = col(
        "user_id",
        "varchar(50)",
        FieldAttribute { primary_key: Some(true), unique: None, not_null: Some(true) },
    );
    // As an ADD, the full declaration renders, primary key included.
    let add = plan_column(&c, &vec![]).unwrap();
    assert_eq!(
        render_migration_query(&"user".to_string(), &add),
        "ALTER TABLE user ADD COLUMN user_id varchar(50) NOT NULL PRIMARY KEY"
    );
    // As a MODIFY, the primary key qualifier is suppressed: the store would
    // reject a second primary key declaration.
    let modify = plan_column(&c, &vec![live("varchar", "varchar(40)", "NO", "PRI")]).unwrap();
    assert_eq!(
        render_migration_query(&"user".to_string(), &modify),
        "ALTER TABLE user MODIFY COLUMN user_id varchar(50) NOT NULL"
    );
}

#[test]
fn migration_is_idempotent_on_conforming_schema() {
    let schema = vec![
        col("n", "int", attr()),
        col("pk", "varchar(10)", attr()),
        col("still_remaining", "int", attr()),
    ];
    let lives = vec![
        vec![live("int", "int(11)", "YES", "")],
        vec![live("varchar", "varchar(10)", "YES", "")],
        vec![live("int", "int(11)", "YES", "")],
    ];
    let plan = migration_plan(&schema, &lives);
    assert_eq!(plan.len(), 0);
}

#[test]
fn migration_is_additive_over_undeclared_columns() {
    // A record declaring a subset of the live table's columns plans nothing
    // for the columns it does not declare: no statement mentions them.
    let schema = vec![col("n", "bigint", attr()), col("extra", "varchar(100)", attr())];
    let lives = vec![vec![live("int", "int(11)", "YES", "")], vec![]];
    let plan = migration_plan(&schema, &lives);
    let queries: Vec<String> = plan
        .iter()
        .map(|a| render_migration_query(&"migration_test".to_string(), a))
        .collect();
    assert_eq!(
        queries,
        vec![
            "ALTER TABLE migration_test MODIFY COLUMN n bigint".to_string(),
            "ALTER TABLE migration_test ADD COLUMN extra varchar(100)".to_string(),
        ]
    );
    // The live column `still_remaining` was not declared; no plan of any
    // declared schema can name it.
    for q in &queries {
        assert!(!q.contains("still_remaining"));
    }
}

#[test]
fn introspection_statement_shape() {
    assert_eq!(
        introspection_query(),
        "SELECT DATA_TYPE, COLUMN_TYPE, IS_NULLABLE, COLUMN_KEY FROM INFORMATION_SCHEMA.COLUMNS \
         WHERE TABLE_NAME = :table_name AND COLUMN_NAME = :column_name"
    );
}

#[test]
fn live_descriptor_decodes_from_catalog_row() {
    let pairs = vec![
        ("DATA_TYPE".to_string(), MySQLValue::Text("varchar".to_string())),
        ("COLUMN_TYPE".to_string(), MySQLValue::Text("varchar(50)".to_string())),
        ("IS_NULLABLE".to_string(), MySQLValue::Text("NO".to_string())),
        ("COLUMN_KEY".to_string(), MySQLValue::Text("PRI".to_string())),
    ];
    let row = RowMap::from_pairs(pairs);
    let live = LiveColumn::map_from_sql(row).unwrap();
    assert_eq!(live.data_type, "varchar");
    assert_eq!(live.column_type, "varchar(50)");
    assert_eq!(live.is_nullable, "NO");
    assert_eq!(live.column_key, "PRI");
}

#[test]
fn it_should_migrate() {
    // Two sequential migrations of the same table name: first a record with
    // an int column, then one that widens it, adds a column, and widens the
    // bounded text column.
    let before = vec![
        col("n", "int", attr()),
        col("pk", "varchar(10)", attr()),
        col("still_remaining", "int", attr()),
    ];
    // The table is created from the full declared schema, so every column's
    // descriptor conforms and the first migration plans nothing.
    let before_lives = vec![
        vec![live("int", "int(11)", "YES", "")],
        vec![live("varchar", "varchar(10)", "YES", "")],
        vec![live("int", "int(11)", "YES", "")],
    ];
    assert_eq!(migration_plan(&before, &before_lives).len(), 0);

    // The second record widens `n` to bigint, adds `extra`, and widens `pk`.
    let after = vec![
        col("n", "bigint", attr()),
        col("extra", "varchar(100)", attr()),
        col("pk", "varchar(11)", attr()),
    ];
    let after_lives = vec![
        vec![live("int", "int(11)", "YES", "")],
        vec![],
        vec![live("varchar", "varchar(10)", "YES", "")],
    ];
    let plan = migration_plan(&after, &after_lives);
    let queries: Vec<String> = plan
        .iter()
        .map(|a| render_migration_query(&"migration_test".to_string(), a))
        .collect();
    assert_eq!(
        queries,
        vec![
            "ALTER TABLE migration_test MODIFY COLUMN n bigint".to_string(),
            "ALTER TABLE migration_test ADD COLUMN extra varchar(100)".to_string(),
            "ALTER TABLE migration_test MODIFY COLUMN pk varchar(11)".to_string(),
        ]
    );

    // Once the store has applied those statements, everything conforms and
    // a further run plans nothing.
    let converged_lives = vec![
        vec![live("bigint", "bigint(20)", "YES", "")],
        vec![live("varchar", "varchar(100)", "YES", "")],
        vec![live("varchar", "varchar(11)", "YES", "")],
    ];
    assert_eq!(migration_plan(&after, &converged_lives).len(), 0);
}
