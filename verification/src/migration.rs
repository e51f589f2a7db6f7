//! The migration engine: diffs a record's declared schema against the live
//! column metadata the store's catalog reports, and plans ADD/MODIFY column
//! statements that converge the live schema toward the declared one without
//! ever touching a live column that is not declared.

use crate::error::Error;
use crate::row::{RowMap, SQLMapper};
use crate::schema::{
    schema_names, spec_column_def, ColumnModel, FieldAttribute, SchemaColumn,
};
use crate::types::MySQLValue;
use vstd::prelude::*;

verus! {

broadcast use vstd::string::group_string_axioms;

/// The model of a live column descriptor.
pub ghost struct LiveColumnModel {
    pub data_type: Seq<char>,
    pub column_type: Seq<char>,
    pub is_nullable: Seq<char>,
    pub column_key: Seq<char>,
}

/// The live descriptor of one existing column, exactly as the store's
/// metadata catalog reports it: base data type, full column type (the base
/// type plus a width suffix where the type carries one), nullability flag
/// (`YES`/`NO`) and key flag (`PRI`/`UNI`/empty).
#[derive(Clone, Debug)]
pub struct LiveColumn {
    pub data_type: String,
    pub column_type: String,
    pub is_nullable: String,
    pub column_key: String,
}

impl View for LiveColumn {
    type V = LiveColumnModel;

    open spec fn view(&self) -> LiveColumnModel {
        LiveColumnModel {
            data_type: self.data_type@,
            column_type: self.column_type@,
            is_nullable: self.is_nullable@,
            column_key: self.column_key@,
        }
    }
}

impl LiveColumn {
    /// Builds a live descriptor from the four catalog strings.
    pub fn new(data_type: String, column_type: String, is_nullable: String, column_key: String)
        -> (r: LiveColumn)
        ensures
            r@ == (LiveColumnModel {
                data_type: data_type@,
                column_type: column_type@,
                is_nullable: is_nullable@,
                column_key: column_key@,
            }),
    {
        LiveColumn { data_type, column_type, is_nullable, column_key }
    }
}

/// The models of a sequence of live descriptors.
pub open spec fn live_models(s: Seq<LiveColumn>) -> Seq<LiveColumnModel> {
    s.map_values(|l: LiveColumn| l@)
}

impl SQLMapper for LiveColumn {
    open spec fn spec_from_row(m: Map<Seq<char>, MySQLValue>) -> Option<LiveColumn> {
        if m.contains_key("DATA_TYPE"@) && m["DATA_TYPE"@] is Text && m.contains_key(
            "COLUMN_TYPE"@,
        ) && m["COLUMN_TYPE"@] is Text && m.contains_key("IS_NULLABLE"@) && m["IS_NULLABLE"@]
            is Text && m.contains_key("COLUMN_KEY"@) && m["COLUMN_KEY"@] is Text {
            Some(
                LiveColumn {
                    data_type: m["DATA_TYPE"@]->Text_0,
                    column_type: m["COLUMN_TYPE"@]->Text_0,
                    is_nullable: m["IS_NULLABLE"@]->Text_0,
                    column_key: m["COLUMN_KEY"@]->Text_0,
                },
            )
        } else {
            None
        }
    }

    fn map_from_sql(values: RowMap) -> (r: Result<LiveColumn, Error>) {
        proof {
            reveal_strlit("DATA_TYPE");
            reveal_strlit("COLUMN_TYPE");
            reveal_strlit("IS_NULLABLE");
            reveal_strlit("COLUMN_KEY");
            assert("DATA_TYPE"@.len() == 9);
            assert("COLUMN_TYPE"@.len() == 11);
            assert("IS_NULLABLE"@.len() == 11);
            assert("COLUMN_KEY"@.len() == 10);
            assert("COLUMN_TYPE"@[0] == 'C' && "IS_NULLABLE"@[0] == 'I');
            assert("COLUMN_TYPE"@ != "IS_NULLABLE"@);
        }
        let mut m = values;
        let data_type = match m.take_column::<String>("DATA_TYPE") {
            Ok(v) => v,
            Err(e) => {
                return Err(e);
            },
        };
        let column_type = match m.take_column::<String>("COLUMN_TYPE") {
            Ok(v) => v,
            Err(e) => {
                return Err(e);
            },
        };
        let is_nullable = match m.take_column::<String>("IS_NULLABLE") {
            Ok(v) => v,
            Err(e) => {
                return Err(e);
            },
        };
        let column_key = match m.take_column::<String>("COLUMN_KEY") {
            Ok(v) => v,
            Err(e) => {
                return Err(e);
            },
        };
        Ok(LiveColumn { data_type, column_type, is_nullable, column_key })
    }
}

/// Whether a live descriptor's SQL type conforms to the declared type: the
/// declared type string may equal either the base data type or the full
/// column type, since bounded text types carry a width suffix that the base
/// data type lacks. A change is flagged only when both differ.
pub open spec fn spec_type_conforms(live: LiveColumnModel, c: ColumnModel) -> bool {
    live.data_type == c.sql_type || live.column_type == c.sql_type
}

/// Whether a live descriptor's nullability conforms: checked only when the
/// declared `not_null` is specified.
pub open spec fn spec_null_conforms(live: LiveColumnModel, c: ColumnModel) -> bool {
    c.attr.not_null matches Some(b) ==> b == (live.is_nullable == "NO"@)
}

/// Whether a live descriptor's key flag conforms: checked only when the
/// declared `unique` is specified. The catalog's key flag conflates primary
/// and unique keys, so a primary-key flag counts as unique.
pub open spec fn spec_key_conforms(live: LiveColumnModel, c: ColumnModel) -> bool {
    c.attr.unique matches Some(b) ==> b == (live.column_key == "UNI"@ || live.column_key
        == "PRI"@)
}

/// Whether a live descriptor fully conforms to a declared column, so that
/// migration has nothing to do for it.
pub open spec fn spec_conforms(live: LiveColumnModel, c: ColumnModel) -> bool {
    spec_type_conforms(live, c) && spec_null_conforms(live, c) && spec_key_conforms(live, c)
}

/// The model of one planned migration action on a declared column.
pub ghost struct ActionModel {
    /// True for ADD COLUMN, false for MODIFY COLUMN.
    pub add: bool,
    /// The declared column the action targets.
    pub column: ColumnModel,
}

/// One planned migration action: adding a missing declared column, or
/// modifying a live one that does not conform to its declaration.
#[derive(Clone, Debug)]
pub enum MigrationAction {
    /// The declared column is absent from the live table.
    AddColumn(SchemaColumn),
    /// The live column does not conform to this declaration.
    ModifyColumn(SchemaColumn),
}

impl View for MigrationAction {
    type V = ActionModel;

    open spec fn view(&self) -> ActionModel {
        match self {
            MigrationAction::AddColumn(c) => ActionModel { add: true, column: c@ },
            MigrationAction::ModifyColumn(c) => ActionModel { add: false, column: c@ },
        }
    }
}

/// A declared column with its primary-key qualifier suppressed, as a MODIFY
/// COLUMN definition must render it: re-declaring a primary key on an
/// existing table would declare a second one, which the store rejects.
pub open spec fn spec_strip_primary_key(c: ColumnModel) -> ColumnModel {
    ColumnModel {
        attr: FieldAttribute { primary_key: None, ..c.attr },
        ..c
    }
}

/// The statement a migration action renders to:
/// `ALTER TABLE <t> ADD COLUMN <def>` or `ALTER TABLE <t> MODIFY COLUMN
/// <def without PRIMARY KEY>`.
pub open spec fn spec_migration_query(table: Seq<char>, a: ActionModel) -> Seq<char> {
    if a.add {
        "ALTER TABLE "@ + table + " ADD COLUMN "@ + spec_column_def(a.column)
    } else {
        "ALTER TABLE "@ + table + " MODIFY COLUMN "@ + spec_column_def(
            spec_strip_primary_key(a.column),
        )
    }
}

/// Renders one planned action as an ALTER TABLE statement.
pub fn render_migration_query(table_name: &String, action: &MigrationAction) -> (r: String)
    ensures
        r@ == spec_migration_query(table_name@, action@),
{
    let mut s = String::from_str("ALTER TABLE ");
    s.append(table_name.as_str());
    match action {
        MigrationAction::AddColumn(c) => {
            s.append(" ADD COLUMN ");
            let def = crate::schema::create_column_query(
                c.name.clone(),
                c.sql_type.clone(),
                c.attr,
            );
            s.append(def.as_str());
        },
        MigrationAction::ModifyColumn(c) => {
            s.append(" MODIFY COLUMN ");
            let attr = FieldAttribute {
                primary_key: None,
                unique: c.attr.unique,
                not_null: c.attr.not_null,
            };
            let def = crate::schema::create_column_query(c.name.clone(), c.sql_type.clone(), attr);
            s.append(def.as_str());
        },
    }
    s
}

/// The decision for one declared column given the live descriptors the
/// catalog returned for it.
pub open spec fn spec_plan_column(c: ColumnModel, lives: Seq<LiveColumnModel>) -> Option<
    ActionModel,
> {
    if lives.len() == 0 {
        Some(ActionModel { add: true, column: c })
    } else if !spec_conforms(lives[0], c) {
        Some(ActionModel { add: false, column: c })
    } else {
        None
    }
}

/// Decides what migration must do for one declared column, from the rows
/// the catalog introspection returned for it: absent live column means ADD,
/// a non-conforming one means MODIFY, a conforming one means nothing.
pub fn plan_column(column: &SchemaColumn, lives: &Vec<LiveColumn>) -> (r: Option<MigrationAction>)
    ensures
        match r {
            Some(a) => spec_plan_column(column@, live_models(lives@)) == Some(a@),
            None => spec_plan_column(column@, live_models(lives@)) is None,
        },
{
    if lives.len() == 0 {
        return Some(MigrationAction::AddColumn(column.clone_entry()));
    }
    let live = &lives[0];
    proof {
        assert(live_models(lives@)[0] == lives@[0]@);
    }
    let type_conforms = live.data_type == column.sql_type || live.column_type == column.sql_type;
    let null_conforms = match column.attr.not_null {
        Some(b) => {
            let no = String::from_str("NO");
            b == (live.is_nullable == no)
        },
        None => true,
    };
    let key_conforms = match column.attr.unique {
        Some(b) => {
            let uni = String::from_str("UNI");
            let pri = String::from_str("PRI");
            b == (live.column_key == uni || live.column_key == pri)
        },
        None => true,
    };
    if type_conforms && null_conforms && key_conforms {
        None
    } else {
        Some(MigrationAction::ModifyColumn(column.clone_entry()))
    }
}

/// The planned actions for a whole declared schema, given per-column
/// catalog answers, in declaration order.
pub open spec fn spec_migration_plan(
    cols: Seq<ColumnModel>,
    lives: Seq<Seq<LiveColumnModel>>,
) -> Seq<ActionModel>
    recommends
        cols.len() == lives.len(),
    decreases cols.len(),
{
    if cols.len() == 0 {
        Seq::empty()
    } else {
        spec_migration_plan(cols.drop_last(), lives.drop_last()) + match spec_plan_column(
            cols.last(),
            lives.last(),
        ) {
            Some(a) => seq![a],
            None => Seq::empty(),
        }
    }
}

/// The models of a sequence of planned actions.
pub open spec fn action_models(s: Seq<MigrationAction>) -> Seq<ActionModel> {
    s.map_values(|a: MigrationAction| a@)
}

/// Plans a whole migration at once: one decision per declared column, in
/// declaration order, given the catalog's answer for each column.
pub fn migration_plan(schema: &Vec<SchemaColumn>, lives: &Vec<Vec<LiveColumn>>) -> (r: Vec<
    MigrationAction,
>)
    requires
        schema@.len() == lives@.len(),
    ensures
        action_models(r@) == spec_migration_plan(
            crate::schema::schema_models(schema@),
            lives@.map_values(|v: Vec<LiveColumn>| live_models(v@)),
        ),
{
    let ghost cols = crate::schema::schema_models(schema@);
    let ghost live_seq = lives@.map_values(|v: Vec<LiveColumn>| live_models(v@));
    let mut r: Vec<MigrationAction> = Vec::new();
    let mut i: usize = 0;
    while i < schema.len()
        invariant
            i <= schema.len(),
            schema@.len() == lives@.len(),
            cols == crate::schema::schema_models(schema@),
            live_seq == lives@.map_values(|v: Vec<LiveColumn>| live_models(v@)),
            action_models(r@) =~= spec_migration_plan(
                cols.take(i as int),
                live_seq.take(i as int),
            ),
        decreases schema.len() - i,
    {
        let ghost prev = action_models(r@);
        let decision = plan_column(&schema[i], &lives[i]);
        proof {
            assert(cols[i as int] == schema@[i as int]@);
            assert(live_seq[i as int] == live_models(lives@[i as int]@));
            assert(cols.take(i + 1).drop_last() =~= cols.take(i as int));
            assert(live_seq.take(i + 1).drop_last() =~= live_seq.take(i as int));
            assert(cols.take(i + 1).last() == cols[i as int]);
            assert(live_seq.take(i + 1).last() == live_seq[i as int]);
        }
        match decision {
            Some(a) => {
                let ghost am = a@;
                r.push(a);
                proof {
                    assert(action_models(r@) =~= prev.push(am));
                    assert(action_models(r@) =~= spec_migration_plan(
                        cols.take(i + 1),
                        live_seq.take(i + 1),
                    ));
                }
            },
            None => {
                proof {
                    assert(action_models(r@) =~= spec_migration_plan(
                        cols.take(i + 1),
                        live_seq.take(i + 1),
                    ));
                }
            },
        }
        i += 1;
    }
    proof {
        assert(cols.take(cols.len() as int) =~= cols);
        assert(live_seq.take(live_seq.len() as int) =~= live_seq);
    }
    r
}

/// The fixed catalog introspection statement the migration engine issues,
/// to be bound with the table and column name parameters. Its result rows
/// carry exactly the four columns a [`LiveColumn`] holds, in this order.
pub open spec fn spec_introspection_query() -> Seq<char> {
    "SELECT DATA_TYPE, COLUMN_TYPE, IS_NULLABLE, COLUMN_KEY FROM INFORMATION_SCHEMA.COLUMNS WHERE TABLE_NAME = :table_name AND COLUMN_NAME = :column_name"@
}

/// The catalog introspection statement as a string.
pub fn introspection_query() -> (r: String)
    ensures
        r@ == spec_introspection_query(),
{
    String::from_str(
        "SELECT DATA_TYPE, COLUMN_TYPE, IS_NULLABLE, COLUMN_KEY FROM INFORMATION_SCHEMA.COLUMNS WHERE TABLE_NAME = :table_name AND COLUMN_NAME = :column_name",
    )
}

/// Migration idempotence: when every declared column's live descriptor
/// already conforms — as it does right after a migration the store applied
/// faithfully — the plan is empty, so a second run issues no statements.
pub proof fn lemma_migration_idempotent(cols: Seq<ColumnModel>, lives: Seq<Seq<LiveColumnModel>>)
    requires
        cols.len() == lives.len(),
        forall|i: int|
            0 <= i < cols.len() ==> #[trigger] lives[i].len() > 0 && spec_conforms(
                lives[i][0],
                cols[i],
            ),
    ensures
        spec_migration_plan(cols, lives) == Seq::<ActionModel>::empty(),
    decreases cols.len(),
{
    if cols.len() > 0 {
        let n = cols.len() - 1;
        let front = lives.drop_last();
        assert forall|i: int|
            0 <= i < cols.drop_last().len() implies #[trigger] front[i].len() > 0 && spec_conforms(
            front[i][0],
            cols.drop_last()[i],
        ) by {
            assert(front[i] == lives[i]);
            assert(cols.drop_last()[i] == cols[i]);
            assert(lives[i].len() > 0 && spec_conforms(lives[i][0], cols[i]));
        }
        lemma_migration_idempotent(cols.drop_last(), lives.drop_last());
        assert(lives[n].len() > 0 && spec_conforms(lives[n][0], cols[n]));
        assert(spec_migration_plan(cols, lives) =~= Seq::<ActionModel>::empty());
    }
}

/// The live descriptor of a column the store just created or modified from
/// its declared definition conforms to that declaration, provided the
/// declaration does not pair a primary key with `unique: Some(false)`: the
/// store reports the declared type as the base or full column type, reports
/// `NO` nullability exactly for a declared NOT NULL, and flags the key as
/// primary, unique, or absent as declared.
pub proof fn lemma_applied_column_conforms(c: ColumnModel, live: LiveColumnModel)
    requires
        live.data_type == c.sql_type || live.column_type == c.sql_type,
        c.attr.not_null == Some(true) ==> live.is_nullable == "NO"@,
        c.attr.not_null != Some(true) ==> live.is_nullable == "YES"@,
        c.attr.primary_key == Some(true) ==> live.column_key == "PRI"@,
        c.attr.primary_key != Some(true) && c.attr.unique == Some(true) ==> live.column_key
            == "UNI"@,
        c.attr.primary_key != Some(true) && c.attr.unique != Some(true) ==> live.column_key
            == ""@,
        !(c.attr.primary_key == Some(true) && c.attr.unique == Some(false)),
    ensures
        spec_conforms(live, c),
{
    reveal_strlit("NO");
    reveal_strlit("YES");
    reveal_strlit("PRI");
    reveal_strlit("UNI");
    reveal_strlit("");
    assert("NO"@.len() == 2);
    assert("YES"@.len() == 3);
    assert(""@.len() == 0);
    assert("UNI"@.len() == 3);
    assert("PRI"@.len() == 3);
    assert("UNI"@[0] == 'U' && "PRI"@[0] == 'P');
    assert("YES"@ != "NO"@);
    assert(""@ != "UNI"@ && ""@ != "PRI"@);
    assert("UNI"@ != "PRI"@);
}

/// Migration idempotence, end to end: when a run's statements have been
/// applied faithfully by the store — each declared column is now reported
/// with the declared type as its base or full column type, with `NO`
/// nullability exactly when NOT NULL was declared, and with the declared
/// key flag — and no declaration pairs a primary key with
/// `unique: Some(false)`, a second run plans no statement at all.
pub proof fn lemma_second_run_plans_nothing(
    cols: Seq<ColumnModel>,
    lives: Seq<Seq<LiveColumnModel>>,
)
    requires
        cols.len() == lives.len(),
        forall|i: int| 0 <= i < cols.len() ==> #[trigger] lives[i].len() > 0,
        forall|i: int|
            0 <= i < cols.len() ==> (#[trigger] lives[i][0].data_type == cols[i].sql_type
                || lives[i][0].column_type == cols[i].sql_type),
        forall|i: int|
            0 <= i < cols.len() ==> #[trigger] lives[i][0].is_nullable == (
            if cols[i].attr.not_null == Some(true) {
                "NO"@
            } else {
                "YES"@
            }),
        forall|i: int|
            0 <= i < cols.len() ==> #[trigger] lives[i][0].column_key == (
            if cols[i].attr.primary_key == Some(true) {
                "PRI"@
            } else if cols[i].attr.unique == Some(true) {
                "UNI"@
            } else {
                ""@
            }),
        forall|i: int|
            0 <= i < cols.len() ==> !((#[trigger] cols[i].attr.primary_key) == Some(true)
                && cols[i].attr.unique == Some(false)),
    ensures
        spec_migration_plan(cols, lives) == Seq::<ActionModel>::empty(),
{
    assert forall|i: int|
        0 <= i < cols.len() implies #[trigger] lives[i].len() > 0 && spec_conforms(
        lives[i][0],
        cols[i],
    ) by {
        lemma_applied_column_conforms(cols[i], lives[i][0]);
    }
    lemma_migration_idempotent(cols, lives);
}

/// The set of live column names after one planned action: ADD introduces
/// the declared name, MODIFY keeps the domain as it is (the name is already
/// live, so inserting it changes nothing).
pub open spec fn spec_apply_action_dom(dom: Set<Seq<char>>, a: ActionModel) -> Set<Seq<char>> {
    dom.insert(a.column.name)
}

/// The set of live column names after a whole plan runs.
pub open spec fn spec_apply_plan_dom(dom: Set<Seq<char>>, plan: Seq<ActionModel>) -> Set<
    Seq<char>,
>
    decreases plan.len(),
{
    if plan.len() == 0 {
        dom
    } else {
        spec_apply_action_dom(spec_apply_plan_dom(dom, plan.drop_last()), plan.last())
    }
}

/// Every planned action targets a declared column.
pub proof fn lemma_plan_targets_declared(cols: Seq<ColumnModel>, lives: Seq<Seq<LiveColumnModel>>)
    requires
        cols.len() == lives.len(),
    ensures
        forall|i: int|
            0 <= i < spec_migration_plan(cols, lives).len() ==> cols.contains(
                #[trigger] spec_migration_plan(cols, lives)[i].column,
            ),
    decreases cols.len(),
{
    if cols.len() > 0 {
        lemma_plan_targets_declared(cols.drop_last(), lives.drop_last());
        let plan = spec_migration_plan(cols, lives);
        let front = spec_migration_plan(cols.drop_last(), lives.drop_last());
        assert forall|i: int| 0 <= i < plan.len() implies cols.contains(
            #[trigger] plan[i].column,
        ) by {
            if i < front.len() {
                assert(plan[i] == front[i]);
                let j = choose|j: int|
                    0 <= j < cols.drop_last().len() && cols.drop_last()[j] == front[i].column;
                assert(cols[j] == front[i].column);
            } else {
                assert(plan[i].column == cols.last());
                assert(cols[cols.len() - 1] == cols.last());
            }
        }
    }
}

/// Migration additivity: running a plan never removes a live column — the
/// live name set only grows — and every name it introduces is a declared
/// column's. A live column absent from the declared schema is never
/// dropped, whatever the plan does.
pub proof fn lemma_migration_additive(
    cols: Seq<ColumnModel>,
    lives: Seq<Seq<LiveColumnModel>>,
    dom: Set<Seq<char>>,
)
    requires
        cols.len() == lives.len(),
    ensures
        dom.subset_of(spec_apply_plan_dom(dom, spec_migration_plan(cols, lives))),
        forall|n: Seq<char>|
            spec_apply_plan_dom(dom, spec_migration_plan(cols, lives)).contains(n) ==> dom.contains(
                n,
            ) || schema_names(cols).contains(n),
{
    let plan = spec_migration_plan(cols, lives);
    lemma_plan_targets_declared(cols, lives);
    lemma_apply_plan_dom_grows(dom, plan);
    assert forall|n: Seq<char>|
        spec_apply_plan_dom(dom, plan).contains(n) && !dom.contains(n) implies schema_names(
        cols,
    ).contains(n) by {
        lemma_apply_plan_dom_names(dom, plan, n);
        let i = choose|i: int| 0 <= i < plan.len() && plan[i].column.name == n;
        let j = choose|j: int| 0 <= j < cols.len() && cols[j] == plan[i].column;
        assert(schema_names(cols)[j] == n);
    }
}

/// Applying a plan only ever grows the live name set.
proof fn lemma_apply_plan_dom_grows(dom: Set<Seq<char>>, plan: Seq<ActionModel>)
    ensures
        dom.subset_of(spec_apply_plan_dom(dom, plan)),
    decreases plan.len(),
{
    if plan.len() > 0 {
        lemma_apply_plan_dom_grows(dom, plan.drop_last());
    }
}

/// A name in the applied set was live before or is some action's target.
proof fn lemma_apply_plan_dom_names(dom: Set<Seq<char>>, plan: Seq<ActionModel>, n: Seq<char>)
    requires
        spec_apply_plan_dom(dom, plan).contains(n),
        !dom.contains(n),
    ensures
        exists|i: int| 0 <= i < plan.len() && plan[i].column.name == n,
    decreases plan.len(),
{
    if plan.len() > 0 {
        if plan.last().column.name == n {
            assert(plan[plan.len() - 1].column.name == n);
        } else {
            lemma_apply_plan_dom_names(dom, plan.drop_last(), n);
            let i = choose|i: int|
                0 <= i < plan.drop_last().len() && plan.drop_last()[i].column.name == n;
            assert(plan[i].column.name == n);
        }
    }
}

} // verus!
