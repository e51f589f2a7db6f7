//! The statement-planning and row-decoding layer of the connection façade:
//! everything the façade decides or computes around the store — which
//! statement to issue for a load, a save or a batched save, and how result
//! rows become records. The store I/O itself happens outside, one operation
//! at a time on the single connection handle, and hands rows back here.

use crate::error::Error;
use crate::query::{
    spec_build, spec_with_append_selects, spec_with_limit, spec_with_table, QueryBuilder,
};
use crate::row::{pair_models, pair_names, RowMap, SQLMapper, SQLTable};
use crate::schema::{schema_names, SchemaColumn};
use crate::text::{join_strings, seq_views, spec_join};
use crate::types::MySQLValue;
use vstd::prelude::*;

verus! {

/// The table name of a record type.
pub fn table_name<T: SQLTable>() -> (r: String)
    ensures
        r@ == T::spec_table_name(),
{
    T::table_name()
}

/// The declared column schema of a record type.
pub fn schema_of<T: SQLTable>() -> (r: Vec<SchemaColumn>)
    ensures
        crate::schema::schema_models(r@) == T::spec_schema(),
{
    T::schema_of()
}

/// Rebuilds a record of type `T` from a row map.
pub fn map_from_sql<T: SQLMapper>(values: RowMap) -> (r: Result<T, Error>)
    requires
        values.wf(),
    ensures
        match r {
            Result::Ok(v) => T::spec_from_row(values@) == Some(v),
            Result::Err(e) => T::spec_from_row(values@) is None && e is ShapeMismatchError,
        },
{
    T::map_from_sql(values)
}

/// Whether some row of a result does not decode as a `T`.
pub open spec fn spec_some_row_fails<T: SQLMapper>(rows: Seq<RowMap>) -> bool {
    exists|i: int| 0 <= i < rows.len() && T::spec_from_row(#[trigger] rows[i]@) is None
}

/// Decodes every result row of a query into a record, in row order.
/// Fails with the first row's shape mismatch when one does not decode.
pub fn decode_rows<T: SQLMapper>(rows: Vec<RowMap>) -> (r: Result<Vec<T>, Error>)
    requires
        forall|i: int| 0 <= i < rows@.len() ==> (#[trigger] rows@[i]).wf(),
    ensures
        match r {
            Result::Ok(vs) => vs@.len() == rows@.len() && forall|i: int|
                0 <= i < rows@.len() ==> T::spec_from_row(#[trigger] rows@[i]@) == Some(vs@[i]),
            Result::Err(e) => e is ShapeMismatchError && spec_some_row_fails::<T>(rows@),
        },
{
    let ghost orig = rows@;
    let mut rest = rows;
    let mut out: Vec<T> = Vec::new();
    while rest.len() > 0
        invariant
            orig == rows@,
            out@.len() + rest@.len() == orig.len(),
            rest@ =~= orig.skip(out@.len() as int),
            forall|i: int| 0 <= i < orig.len() ==> (#[trigger] orig[i]).wf(),
            forall|i: int|
                0 <= i < out@.len() ==> T::spec_from_row(#[trigger] orig[i]@) == Some(out@[i]),
        decreases rest.len(),
    {
        let ghost k = out@.len() as int;
        let row = rest.remove(0);
        proof {
            assert(row == orig[k]);
            assert(rest@ =~= orig.skip(k + 1));
        }
        match T::map_from_sql(row) {
            Result::Ok(v) => {
                out.push(v);
            },
            Result::Err(e) => {
                proof {
                    assert(T::spec_from_row(orig[k]@) is None);
                    assert(spec_some_row_fails::<T>(rows@));
                }
                return Result::Err(e);
            },
        }
    }
    Result::Ok(out)
}

/// Decodes the rows of a strict `first` query: the zero-rows case is the
/// NotFound condition, one row yields its record (with several rows, the
/// last one, as popping the decoded rows leaves it).
pub fn first_decode<T: SQLMapper>(rows: Vec<RowMap>) -> (r: Result<T, Error>)
    requires
        forall|i: int| 0 <= i < rows@.len() ==> (#[trigger] rows@[i]).wf(),
    ensures
        match r {
            Result::Ok(v) => rows@.len() > 0 && !spec_some_row_fails::<T>(rows@)
                && T::spec_from_row(rows@.last()@) == Some(v),
            Result::Err(e) => {
                ||| (e is NotFoundError && rows@.len() == 0)
                ||| (e is ShapeMismatchError && spec_some_row_fails::<T>(rows@))
            },
        },
{
    match decode_rows::<T>(rows) {
        Result::Ok(mut vs) => {
            match vs.pop() {
                Some(v) => Result::Ok(v),
                None => Result::Err(Error::NotFoundError),
            }
        },
        Result::Err(e) => Result::Err(e),
    }
}

/// Column expressions qualified with their table: `<table>.<name>`, to keep
/// base-schema projections unambiguous across joins.
pub open spec fn spec_qualified_columns(table: Seq<char>, names: Seq<Seq<char>>) -> Seq<
    Seq<char>,
> {
    names.map_values(|n: Seq<char>| table + "."@ + n)
}

/// The builder state a load of `T` renders: the caller's builder, pointed
/// at `T`'s table, with `T`'s qualified schema columns appended to the
/// projections.
pub open spec fn spec_seeded_query<T: SQLTable>(m: crate::query::QueryModel)
    -> crate::query::QueryModel {
    spec_with_append_selects(
        spec_with_table(m, T::spec_table_name()),
        spec_qualified_columns(T::spec_table_name(), schema_names(T::spec_schema())),
    )
}

/// The qualified projection list of `T`'s schema, as fresh strings.
fn qualified_columns<T: SQLTable>() -> (r: Vec<String>)
    ensures
        seq_views(r@) == spec_qualified_columns(
            T::spec_table_name(),
            schema_names(T::spec_schema()),
        ),
{
    let table = T::table_name();
    let schema = T::schema_of();
    let ghost names = schema_names(T::spec_schema());
    let ghost target = spec_qualified_columns(T::spec_table_name(), names);
    let mut r: Vec<String> = Vec::new();
    let mut i: usize = 0;
    while i < schema.len()
        invariant
            i <= schema.len(),
            table@ == T::spec_table_name(),
            crate::schema::schema_models(schema@) == T::spec_schema(),
            names == schema_names(T::spec_schema()),
            target == spec_qualified_columns(T::spec_table_name(), names),
            seq_views(r@) =~= target.take(i as int),
        decreases schema.len() - i,
    {
        let mut s = table.clone();
        s.append(".");
        s.append(schema[i].name.as_str());
        proof {
            assert(T::spec_schema()[i as int] == schema@[i as int]@);
            assert(names[i as int] == schema@[i as int].name@);
            assert(s@ == target[i as int]);
        }
        let ghost prev = seq_views(r@);
        r.push(s);
        proof {
            assert(seq_views(r@) =~= prev.push(s@));
            assert(seq_views(r@) =~= target.take(i + 1));
        }
        i += 1;
    }
    proof {
        assert(target.take(target.len() as int) =~= target);
    }
    r
}

/// Renders the SELECT statement of a load of `T` seeded from the caller's
/// builder, exactly as the builder renders the seeded state.
pub fn select_query<T: SQLTable>(builder: QueryBuilder) -> (r: String)
    ensures
        r@ == spec_build(spec_seeded_query::<T>(builder@)),
{
    let table = T::table_name();
    let columns = qualified_columns::<T>();
    builder.table(table).append_selects(columns).build()
}

/// Renders the SELECT statement of a strict `first` of `T`: the seeded
/// load query with an implicit row limit of one.
pub fn first_query<T: SQLTable>(builder: QueryBuilder) -> (r: String)
    ensures
        r@ == spec_build(spec_with_limit(spec_seeded_query::<T>(builder@), 1)),
{
    let table = T::table_name();
    let columns = qualified_columns::<T>();
    builder.table(table).append_selects(columns).limit(1).build()
}

/// The parameter placeholder of each column name: `:<name>`.
pub open spec fn spec_param_names(names: Seq<Seq<char>>) -> Seq<Seq<char>> {
    names.map_values(|n: Seq<char>| ":"@ + n)
}

/// The single-row insert statement of a record type:
/// `INSERT INTO <table> (<names>) VALUES (<:name placeholders>)`, both
/// lists joined by `", "` in row order.
pub open spec fn spec_insert_query(table: Seq<char>, names: Seq<Seq<char>>) -> Seq<char> {
    "INSERT INTO "@ + table + " ("@ + spec_join(names, ", "@) + ") VALUES ("@ + spec_join(
        spec_param_names(names),
        ", "@,
    ) + ")"@
}

/// Serializes one record and renders the insert statement that saves it,
/// with the record's named wire values as its parameters.
pub fn save_query_with_params<T: SQLTable>(data: T) -> (r: (String, Vec<(String, MySQLValue)>))
    ensures
        r.0@ == spec_insert_query(T::spec_table_name(), T::spec_row_names()),
        pair_models(r.1@) == data.spec_row(),
{
    proof {
        data.lemma_row_wf();
    }
    let ghost row = data.spec_row();
    let pairs = data.map_to_sql();
    let ghost row_names = T::spec_row_names();
    let ghost placeholders = spec_param_names(row_names);
    let mut names: Vec<String> = Vec::new();
    let mut params: Vec<String> = Vec::new();
    let mut i: usize = 0;
    while i < pairs.len()
        invariant
            i <= pairs.len(),
            pair_models(pairs@) == row,
            row_names == T::spec_row_names(),
            row_names == pair_names(row),
            placeholders == spec_param_names(row_names),
            seq_views(names@) =~= row_names.take(i as int),
            seq_views(params@) =~= placeholders.take(i as int),
        decreases pairs.len() - i,
    {
        let name = pairs[i].0.clone();
        proof {
            assert(pair_models(pairs@)[i as int] == (pairs@[i as int].0@, pairs@[i as int].1));
            assert(row_names[i as int] == row[i as int].0);
            assert(name@ == row_names[i as int]);
        }
        let mut placeholder = String::from_str(":");
        placeholder.append(name.as_str());
        proof {
            assert(placeholder@ == placeholders[i as int]);
        }
        let ghost prev_names = seq_views(names@);
        let ghost prev_params = seq_views(params@);
        names.push(name);
        params.push(placeholder);
        proof {
            assert(seq_views(names@) =~= prev_names.push(row_names[i as int]));
            assert(seq_views(names@) =~= row_names.take(i + 1));
            assert(seq_views(params@) =~= prev_params.push(placeholders[i as int]));
            assert(seq_views(params@) =~= placeholders.take(i + 1));
        }
        i += 1;
    }
    proof {
        assert(row_names.take(row_names.len() as int) =~= row_names);
        assert(placeholders.take(placeholders.len() as int) =~= placeholders);
    }
    let mut q = String::from_str("INSERT INTO ");
    let table = T::table_name();
    q.append(table.as_str());
    q.append(" (");
    let name_list = join_strings(&names, ", ");
    q.append(name_list.as_str());
    q.append(") VALUES (");
    let param_list = join_strings(&params, ", ");
    q.append(param_list.as_str());
    q.append(")");
    proof {
        assert(q@ =~= spec_insert_query(T::spec_table_name(), T::spec_row_names()));
    }
    (q, pairs)
}

/// Plans a batched save: nothing at all for an empty input, else the one
/// shared insert statement of the record type together with one parameter
/// set per record, in input order, for a single batched round trip.
pub fn save_all_plan<T: SQLTable>(datas: Vec<T>) -> (r: Option<
    (String, Vec<Vec<(String, MySQLValue)>>),
>)
    ensures
        (datas@.len() == 0) == (r is None),
        match r {
            Some(p) => {
                &&& p.0@ == spec_insert_query(T::spec_table_name(), T::spec_row_names())
                &&& p.1@.len() == datas@.len()
                &&& forall|i: int|
                    0 <= i < datas@.len() ==> pair_models(#[trigger] p.1@[i]@)
                        == datas@[i].spec_row()
            },
            None => true,
        },
{
    if datas.len() == 0 {
        return None;
    }
    let ghost orig = datas@;
    let mut rest = datas;
    let mut query: Option<String> = None;
    let mut param_sets: Vec<Vec<(String, MySQLValue)>> = Vec::new();
    while rest.len() > 0
        invariant
            param_sets@.len() + rest@.len() == orig.len(),
            rest@ =~= orig.skip(param_sets@.len() as int),
            param_sets@.len() > 0 ==> (query matches Some(q) && q@ == spec_insert_query(
                T::spec_table_name(),
                T::spec_row_names(),
            )),
            param_sets@.len() == 0 ==> query is None,
            forall|i: int|
                0 <= i < param_sets@.len() ==> pair_models(#[trigger] param_sets@[i]@)
                    == orig[i].spec_row(),
        decreases rest.len(),
    {
        let ghost k = param_sets@.len() as int;
        let data = rest.remove(0);
        proof {
            assert(data == orig[k]);
            assert(rest@ =~= orig.skip(k + 1));
        }
        let (q, ps) = save_query_with_params(data);
        if param_sets.len() == 0 {
            query = Some(q);
        }
        param_sets.push(ps);
    }
    match query {
        Some(q) => Some((q, param_sets)),
        None => unreached(),
    }
}

} // verus!
