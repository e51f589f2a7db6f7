//! Declared table schemas: column attributes, column definitions, and the
//! DDL text they render to.

use crate::text::{join_strings, spec_join};
use vstd::prelude::*;

verus! {

/// Declarative qualifiers of one column.
///
/// Each qualifier is a true tri-state: `None` means "unspecified / don't
/// enforce", which is distinct from `Some(false)`. Collapsing `None` to
/// `false` would make migration treat "unspecified" as "must be absent" and
/// emit spurious ALTER statements.
#[derive(Clone, Copy, Debug, PartialEq, Eq)]
pub struct FieldAttribute {
    /// Whether the column is the table's primary key.
    pub primary_key: Option<bool>,
    /// Whether the column carries a unique key.
    pub unique: Option<bool>,
    /// Whether the column rejects NULL.
    pub not_null: Option<bool>,
}

impl FieldAttribute {
    /// All qualifiers left unspecified.
    pub fn unspecified() -> (r: FieldAttribute)
        ensures
            r == (FieldAttribute { primary_key: None, unique: None, not_null: None }),
    {
        FieldAttribute { primary_key: None, unique: None, not_null: None }
    }
}

impl Default for FieldAttribute {
    /// The default attribute leaves every qualifier unspecified.
    fn default() -> (r: FieldAttribute)
        ensures
            r == (FieldAttribute { primary_key: None, unique: None, not_null: None }),
    {
        FieldAttribute { primary_key: None, unique: None, not_null: None }
    }
}

/// The mathematical model of one declared column: the views of its name and
/// SQL type, plus its attributes.
pub ghost struct ColumnModel {
    pub name: Seq<char>,
    pub sql_type: Seq<char>,
    pub attr: FieldAttribute,
}

/// One entry of a declared table schema: `(column name, SQL type, attributes)`.
#[derive(Clone, Debug)]
pub struct SchemaColumn {
    pub name: String,
    pub sql_type: String,
    pub attr: FieldAttribute,
}

impl View for SchemaColumn {
    type V = ColumnModel;

    open spec fn view(&self) -> ColumnModel {
        ColumnModel { name: self.name@, sql_type: self.sql_type@, attr: self.attr }
    }
}

impl SchemaColumn {
    /// Builds a schema entry from its parts.
    pub fn new(name: String, sql_type: String, attr: FieldAttribute) -> (r: SchemaColumn)
        ensures
            r@ == (ColumnModel { name: name@, sql_type: sql_type@, attr }),
    {
        SchemaColumn { name, sql_type, attr }
    }

    /// A copy of this entry with the same model.
    pub fn clone_entry(&self) -> (r: SchemaColumn)
        ensures
            r@ == self@,
    {
        SchemaColumn {
            name: self.name.clone(),
            sql_type: self.sql_type.clone(),
            attr: self.attr,
        }
    }
}

/// The models of a declared schema's columns.
pub open spec fn schema_models(s: Seq<SchemaColumn>) -> Seq<ColumnModel> {
    s.map_values(|c: SchemaColumn| c@)
}

/// The names of a schema's columns, in declaration order.
pub open spec fn schema_names(cols: Seq<ColumnModel>) -> Seq<Seq<char>> {
    cols.map_values(|c: ColumnModel| c.name)
}

/// Whether a schema's column names are pairwise distinct.
pub open spec fn distinct_column_names(cols: Seq<ColumnModel>) -> bool {
    forall|i: int, j: int|
        0 <= i < j < cols.len() ==> cols[i].name != cols[j].name
}

/// The column definition text of one declared column:
/// `<name> <type>[ NOT NULL][ UNIQUE][ PRIMARY KEY]`.
pub open spec fn spec_column_def(c: ColumnModel) -> Seq<char> {
    c.name + " "@ + c.sql_type + (if c.attr.not_null == Some(true) {
        " NOT NULL"@
    } else {
        Seq::<char>::empty()
    }) + (if c.attr.unique == Some(true) {
        " UNIQUE"@
    } else {
        Seq::<char>::empty()
    }) + (if c.attr.primary_key == Some(true) {
        " PRIMARY KEY"@
    } else {
        Seq::<char>::empty()
    })
}

/// Renders the column definition of one declared column, as used inside
/// CREATE TABLE and after ADD/MODIFY COLUMN.
pub fn create_column_query(column_name: String, column_type: String, attr: FieldAttribute) -> (r:
    String)
    ensures
        r@ == spec_column_def(ColumnModel { name: column_name@, sql_type: column_type@, attr }),
{
    let mut s = column_name;
    s.append(" ");
    s.append(column_type.as_str());
    let not_null = if let Some(b) = attr.not_null {
        b
    } else {
        false
    };
    if not_null {
        s.append(" NOT NULL");
    }
    let unique = if let Some(b) = attr.unique {
        b
    } else {
        false
    };
    if unique {
        s.append(" UNIQUE");
    }
    let primary_key = if let Some(b) = attr.primary_key {
        b
    } else {
        false
    };
    if primary_key {
        s.append(" PRIMARY KEY");
    }
    s
}

/// The column definition texts of a whole schema.
pub open spec fn spec_column_defs(cols: Seq<ColumnModel>) -> Seq<Seq<char>> {
    cols.map_values(|c: ColumnModel| spec_column_def(c))
}

/// The idempotent table creation statement for a declared schema:
/// `CREATE TABLE IF NOT EXISTS <table> (<column defs joined by ", ">)`.
pub open spec fn spec_create_table_query(table: Seq<char>, cols: Seq<ColumnModel>) -> Seq<char> {
    "CREATE TABLE IF NOT EXISTS "@ + table + " ("@ + spec_join(spec_column_defs(cols), ", "@)
        + ")"@
}

/// Renders the idempotent creation statement of a table with the full
/// declared schema.
pub fn create_table_query(table_name: &String, schema: &Vec<SchemaColumn>) -> (r: String)
    ensures
        r@ == spec_create_table_query(table_name@, schema_models(schema@)),
{
    let ghost cols = schema_models(schema@);
    let mut defs: Vec<String> = Vec::new();
    let mut i: usize = 0;
    while i < schema.len()
        invariant
            i <= schema.len(),
            cols == schema_models(schema@),
            crate::text::seq_views(defs@) =~= spec_column_defs(cols).take(i as int),
        decreases schema.len() - i,
    {
        let c = &schema[i];
        let def = create_column_query(c.name.clone(), c.sql_type.clone(), c.attr);
        proof {
            assert(cols[i as int] == schema@[i as int]@);
            assert(def@ == spec_column_defs(cols)[i as int]);
        }
        let ghost prev = crate::text::seq_views(defs@);
        defs.push(def);
        proof {
            assert(crate::text::seq_views(defs@) =~= prev.push(def@));
            assert(spec_column_defs(cols).take(i + 1) =~= prev.push(def@));
        }
        i += 1;
    }
    let mut s = String::from_str("CREATE TABLE IF NOT EXISTS ");
    s.append(table_name.as_str());
    s.append(" (");
    let joined = join_strings(&defs, ", ");
    s.append(joined.as_str());
    s.append(")");
    proof {
        assert(spec_column_defs(cols).take(schema@.len() as int) =~= spec_column_defs(cols));
        assert(s@ =~= spec_create_table_query(table_name@, cols));
    }
    s
}

/// The removal statement for a table: `DROP TABLE IF EXISTS <table>`.
pub open spec fn spec_drop_table_query(table: Seq<char>) -> Seq<char> {
    "DROP TABLE IF EXISTS "@ + table
}

/// Renders the removal statement of a table.
pub fn drop_table_query(table_name: &String) -> (r: String)
    ensures
        r@ == spec_drop_table_query(table_name@),
{
    let mut s = String::from_str("DROP TABLE IF EXISTS ");
    s.append(table_name.as_str());
    s
}

} // verus!
