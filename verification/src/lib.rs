//! A verified relational-persistence core for a MySQL-flavoured store:
//! a scalar value codec, record/row mapping, SELECT query construction,
//! and an additive schema-migration planner.

mod conn;
mod error;
mod migration;
mod query;
mod row;
mod schema;
mod text;
mod types;

pub use conn::{
    decode_rows, first_decode, first_query, map_from_sql, save_all_plan, save_query_with_params,
    schema_of, select_query, spec_insert_query, spec_param_names, spec_qualified_columns,
    spec_seeded_query, table_name,
};
pub use error::Error;
pub use migration::{
    action_models, introspection_query, lemma_applied_column_conforms,
    lemma_migration_additive, lemma_migration_idempotent, lemma_plan_targets_declared,
    lemma_second_run_plans_nothing,
    live_models, migration_plan, plan_column, render_migration_query, spec_apply_action_dom,
    spec_apply_plan_dom, spec_conforms, spec_introspection_query, spec_key_conforms,
    spec_migration_plan, spec_migration_query, spec_null_conforms, spec_plan_column,
    spec_strip_primary_key, spec_type_conforms, ActionModel, LiveColumn, LiveColumnModel,
    MigrationAction,
};
pub use query::{
    lemma_independent_setters_commute, spec_build, spec_join_clause, spec_joins_clause,
    spec_limit_clause, spec_select_clause, spec_where_clause, spec_with_append_selects,
    spec_with_filter, spec_with_join, spec_with_limit, spec_with_selects, spec_with_table,
    JoinClause, JoinModel, QueryBuilder, QueryModel,
};
pub use row::{
    distinct_pair_names, lemma_map_of_pairs_contains, lemma_map_of_pairs_get,
    lemma_record_roundtrip, map_of_pairs, pair_models, pair_names, RowMap, SQLMapper, SQLTable,
};
pub use schema::{
    create_column_query, create_table_query, distinct_column_names, drop_table_query,
    schema_models, schema_names, spec_column_def, spec_column_defs, spec_create_table_query,
    spec_drop_table_query, ColumnModel, FieldAttribute, SchemaColumn,
};
pub use text::{digit_char, join_strings, push_dec, seq_views, spec_dec, spec_join};
pub use types::{MySQLValue, SQLScalar, SQLValue};
