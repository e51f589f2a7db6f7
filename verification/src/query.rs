//! The SELECT query builder: accumulates a target table, projections, LEFT
//! JOIN clauses, filter predicates and a row limit, in any call order, and
//! renders a single SELECT statement in a fixed deterministic order.

use crate::text::{join_strings, push_dec, seq_views, spec_dec, spec_join};
use vstd::prelude::*;

verus! {

/// The model of one LEFT JOIN clause.
pub ghost struct JoinModel {
    /// The joined table.
    pub table: Seq<char>,
    /// The column of the primary table matched in the ON condition.
    pub local_column: Seq<char>,
    /// The column of the joined table matched in the ON condition.
    pub joined_column: Seq<char>,
}

/// The mathematical model of a builder's accumulated state.
pub ghost struct QueryModel {
    /// The projected column expressions, in order.
    pub selects: Seq<Seq<char>>,
    /// The primary table, once set.
    pub from: Option<Seq<char>>,
    /// The filter predicate fragments, joined by AND.
    pub wheres: Seq<Seq<char>>,
    /// The optional row limit.
    pub limit: Option<u32>,
    /// The LEFT JOIN clauses, in order.
    pub joins: Seq<JoinModel>,
}

/// The builder state after `table`.
pub open spec fn spec_with_table(m: QueryModel, t: Seq<char>) -> QueryModel {
    QueryModel { from: Some(t), ..m }
}

/// The builder state after `selects`.
pub open spec fn spec_with_selects(m: QueryModel, sel: Seq<Seq<char>>) -> QueryModel {
    QueryModel { selects: sel, ..m }
}

/// The builder state after `append_selects`.
pub open spec fn spec_with_append_selects(m: QueryModel, sel: Seq<Seq<char>>) -> QueryModel {
    QueryModel { selects: m.selects + sel, ..m }
}

/// The builder state after `filter`.
pub open spec fn spec_with_filter(m: QueryModel, cond: Seq<char>) -> QueryModel {
    QueryModel { wheres: m.wheres.push(cond), ..m }
}

/// The builder state after `limit`.
pub open spec fn spec_with_limit(m: QueryModel, n: u32) -> QueryModel {
    QueryModel { limit: Some(n), ..m }
}

/// The builder state after `left_join`.
pub open spec fn spec_with_join(m: QueryModel, j: JoinModel) -> QueryModel {
    QueryModel { joins: m.joins.push(j), ..m }
}

/// The projection list: `*` when no projection was given.
pub open spec fn spec_select_clause(selects: Seq<Seq<char>>) -> Seq<char> {
    if selects.len() == 0 {
        "*"@
    } else {
        spec_join(selects, ", "@)
    }
}

/// One rendered LEFT JOIN clause, with its leading space:
/// ` LEFT JOIN <t> ON <table>.<local> = <t>.<joined>`.
pub open spec fn spec_join_clause(table: Seq<char>, j: JoinModel) -> Seq<char> {
    " LEFT JOIN "@ + j.table + " ON "@ + table + "."@ + j.local_column + " = "@ + j.table + "."@
        + j.joined_column
}

/// All rendered LEFT JOIN clauses, in order.
pub open spec fn spec_joins_clause(table: Seq<char>, joins: Seq<JoinModel>) -> Seq<char>
    decreases joins.len(),
{
    if joins.len() == 0 {
        Seq::empty()
    } else {
        spec_joins_clause(table, joins.drop_last()) + spec_join_clause(table, joins.last())
    }
}

/// The rendered WHERE clause, empty when no filter was given:
/// ` WHERE <predicates joined by " AND ">`.
pub open spec fn spec_where_clause(wheres: Seq<Seq<char>>) -> Seq<char> {
    if wheres.len() == 0 {
        Seq::empty()
    } else {
        " WHERE "@ + spec_join(wheres, " AND "@)
    }
}

/// The rendered LIMIT clause, empty when no limit was given.
pub open spec fn spec_limit_clause(limit: Option<u32>) -> Seq<char> {
    match limit {
        None => Seq::empty(),
        Some(n) => " LIMIT "@ + spec_dec(n as int),
    }
}

/// The whole rendered statement, in the fixed order
/// `SELECT <projections> FROM <table>[ LEFT JOIN ..]*[ WHERE ..][ LIMIT n]`.
pub open spec fn spec_build(m: QueryModel) -> Seq<char>
    recommends
        m.from is Some,
{
    "SELECT "@ + spec_select_clause(m.selects) + " FROM "@ + m.from.unwrap() + spec_joins_clause(
        m.from.unwrap(),
        m.joins,
    ) + spec_where_clause(m.wheres) + spec_limit_clause(m.limit)
}

/// One LEFT JOIN clause of a builder.
#[derive(Clone, Debug)]
pub struct JoinClause {
    /// The joined table.
    pub table: String,
    /// The column of the primary table matched in the ON condition.
    pub local_column: String,
    /// The column of the joined table matched in the ON condition.
    pub joined_column: String,
}

impl View for JoinClause {
    type V = JoinModel;

    open spec fn view(&self) -> JoinModel {
        JoinModel {
            table: self.table@,
            local_column: self.local_column@,
            joined_column: self.joined_column@,
        }
    }
}

/// A SELECT statement under construction. Setters may be called in any
/// order; `build` renders the accumulated state deterministically.
///
/// The builder performs no column reference validation: malformed
/// projections or filters are caught only at the store. Projections the
/// caller appends are used verbatim and are the caller's to qualify.
#[derive(Debug)]
pub struct QueryBuilder {
    selects: Vec<String>,
    from: Option<String>,
    wheres: Vec<String>,
    limit: Option<u32>,
    joins: Vec<JoinClause>,
}

impl View for QueryBuilder {
    type V = QueryModel;

    closed spec fn view(&self) -> QueryModel {
        QueryModel {
            selects: seq_views(self.selects@),
            from: match self.from {
                Some(t) => Some(t@),
                None => None,
            },
            wheres: seq_views(self.wheres@),
            limit: self.limit,
            joins: self.joins@.map_values(|j: JoinClause| j@),
        }
    }
}

impl QueryBuilder {
    /// An empty builder: no table, no projection, no join, no filter, no
    /// limit.
    pub fn new() -> (r: QueryBuilder)
        ensures
            r@ == (QueryModel {
                selects: Seq::<Seq<char>>::empty(),
                from: None,
                wheres: Seq::<Seq<char>>::empty(),
                limit: None,
                joins: Seq::<JoinModel>::empty(),
            }),
    {
        let r = QueryBuilder {
            selects: Vec::new(),
            from: None,
            wheres: Vec::new(),
            limit: None,
            joins: Vec::new(),
        };
        proof {
            assert(seq_views(r.selects@) =~= Seq::<Seq<char>>::empty());
            assert(seq_views(r.wheres@) =~= Seq::<Seq<char>>::empty());
            assert(r.joins@.map_values(|j: JoinClause| j@) =~= Seq::<JoinModel>::empty());
        }
        r
    }

    /// Sets the primary table.
    pub fn table(self, table_name: String) -> (r: QueryBuilder)
        ensures
            r@ == spec_with_table(self@, table_name@),
    {
        QueryBuilder { from: Some(table_name), ..self }
    }

    /// Replaces the projected column expressions.
    pub fn selects(self, selects: Vec<String>) -> (r: QueryBuilder)
        ensures
            r@ == spec_with_selects(self@, seq_views(selects@)),
    {
        QueryBuilder { selects, ..self }
    }

    /// Appends projected column expressions after the ones already given.
    pub fn append_selects(self, selects: Vec<String>) -> (r: QueryBuilder)
        ensures
            r@ == spec_with_append_selects(self@, seq_views(selects@)),
    {
        let mut this = self;
        let ghost front = seq_views(this.selects@);
        let ghost added = seq_views(selects@);
        let mut i: usize = 0;
        while i < selects.len()
            invariant
                i <= selects.len(),
                added == seq_views(selects@),
                this.from == self.from,
                this.limit == self.limit,
                this.wheres == self.wheres,
                this.joins == self.joins,
                seq_views(this.selects@) =~= front + added.take(i as int),
            decreases selects.len() - i,
        {
            let s = selects[i].clone();
            proof {
                assert(s@ == added[i as int]);
            }
            let ghost prev = seq_views(this.selects@);
            this.selects.push(s);
            proof {
                assert(seq_views(this.selects@) =~= prev.push(s@));
                assert(prev.push(s@) =~= front + added.take(i + 1));
            }
            i += 1;
        }
        proof {
            assert(added.take(selects@.len() as int) =~= added);
            assert(seq_views(this.selects@) =~= front + added);
        }
        this
    }

    /// Adds one free-form filter predicate fragment.
    pub fn filter(self, cond: String) -> (r: QueryBuilder)
        ensures
            r@ == spec_with_filter(self@, cond@),
    {
        let mut this = self;
        let ghost prev = seq_views(this.wheres@);
        this.wheres.push(cond);
        proof {
            assert(seq_views(this.wheres@) =~= prev.push(this.wheres@.last()@));
        }
        this
    }

    /// Sets the row limit.
    pub fn limit(self, n: u32) -> (r: QueryBuilder)
        ensures
            r@ == spec_with_limit(self@, n),
    {
        QueryBuilder { limit: Some(n), ..self }
    }

    /// Adds one LEFT JOIN clause: `on_fields` is `(local column, joined
    /// column)`, rendered as `ON <table>.<local> = <joined table>.<joined>`.
    pub fn left_join(self, target_table: String, on_fields: (String, String)) -> (r: QueryBuilder)
        ensures
            r@ == spec_with_join(
                self@,
                JoinModel {
                    table: target_table@,
                    local_column: on_fields.0@,
                    joined_column: on_fields.1@,
                },
            ),
    {
        let mut this = self;
        let (local_column, joined_column) = on_fields;
        let clause = JoinClause { table: target_table, local_column, joined_column };
        let ghost prev = this.joins@.map_values(|j: JoinClause| j@);
        let ghost model = clause@;
        this.joins.push(clause);
        proof {
            assert(this.joins@.map_values(|j: JoinClause| j@) =~= prev.push(model));
        }
        this
    }

    /// Renders the accumulated state as one SELECT statement. The primary
    /// table must have been set.
    pub fn build(self) -> (r: String)
        requires
            self@.from is Some,
        ensures
            r@ == spec_build(self@),
    {
        let ghost m = self@;
        let mut s = String::from_str("SELECT ");
        if self.selects.len() == 0 {
            s.append("*");
        } else {
            let projections = join_strings(&self.selects, ", ");
            s.append(projections.as_str());
        }
        s.append(" FROM ");
        let table = match self.from {
            Some(t) => t,
            None => unreached(),
        };
        s.append(table.as_str());
        proof {
            assert(s@ == "SELECT "@ + spec_select_clause(m.selects) + " FROM "@ + m.from.unwrap());
        }
        let ghost joins = m.joins;
        let ghost head = s@;
        let mut k: usize = 0;
        while k < self.joins.len()
            invariant
                k <= self.joins.len(),
                joins == self.joins@.map_values(|j: JoinClause| j@),
                table@ == m.from.unwrap(),
                s@ == head + spec_joins_clause(table@, joins.take(k as int)),
            decreases self.joins.len() - k,
        {
            let j = &self.joins[k];
            s.append(" LEFT JOIN ");
            s.append(j.table.as_str());
            s.append(" ON ");
            s.append(table.as_str());
            s.append(".");
            s.append(j.local_column.as_str());
            s.append(" = ");
            s.append(j.table.as_str());
            s.append(".");
            s.append(j.joined_column.as_str());
            proof {
                assert(joins[k as int] == self.joins@[k as int]@);
                assert(joins.take(k + 1).drop_last() =~= joins.take(k as int));
                assert(joins.take(k + 1).last() == joins[k as int]);
                assert(s@ =~= head + spec_joins_clause(table@, joins.take(k + 1)));
            }
            k += 1;
        }
        proof {
            assert(joins.take(joins.len() as int) =~= joins);
        }
        if self.wheres.len() > 0 {
            s.append(" WHERE ");
            let predicates = join_strings(&self.wheres, " AND ");
            s.append(predicates.as_str());
        }
        if let Some(n) = self.limit {
            s.append(" LIMIT ");
            push_dec(&mut s, n);
        }
        proof {
            assert(s@ =~= spec_build(m));
        }
        s
    }
}

/// Builder call order among independent setters does not matter: setters
/// that accumulate into different parts of the builder state commute, so
/// call sequences that differ only in the order of independent setters
/// reach the same state and render the same SQL text.
pub proof fn lemma_independent_setters_commute(
    m: QueryModel,
    t: Seq<char>,
    sel: Seq<Seq<char>>,
    cond: Seq<char>,
    n: u32,
    j: JoinModel,
)
    ensures
        spec_with_filter(spec_with_table(m, t), cond) == spec_with_table(
            spec_with_filter(m, cond),
            t,
        ),
        spec_with_limit(spec_with_table(m, t), n) == spec_with_table(spec_with_limit(m, n), t),
        spec_with_join(spec_with_table(m, t), j) == spec_with_table(spec_with_join(m, j), t),
        spec_with_append_selects(spec_with_table(m, t), sel) == spec_with_table(
            spec_with_append_selects(m, sel),
            t,
        ),
        spec_with_limit(spec_with_filter(m, cond), n) == spec_with_filter(
            spec_with_limit(m, n),
            cond,
        ),
        spec_with_join(spec_with_filter(m, cond), j) == spec_with_filter(
            spec_with_join(m, j),
            cond,
        ),
        spec_with_append_selects(spec_with_filter(m, cond), sel) == spec_with_filter(
            spec_with_append_selects(m, sel),
            cond,
        ),
        spec_with_join(spec_with_limit(m, n), j) == spec_with_limit(spec_with_join(m, j), n),
        spec_with_append_selects(spec_with_limit(m, n), sel) == spec_with_limit(
            spec_with_append_selects(m, sel),
            n,
        ),
        spec_with_append_selects(spec_with_join(m, j), sel) == spec_with_join(
            spec_with_append_selects(m, sel),
            j,
        ),
{
}

} // verus!
