use vstd::prelude::*;
use crate::error::StoreError;
use crate::store::{
    Store, store_tables, store_in_txn, store_schema, store_versions, dml_err, txn_kept,
    sql_identifier, sql_identifier_list,
};
use crate::model::SchemaModel;
use crate::clock::now_rfc3339;

verus! {

// The migration runner: a monotonically increasing schema version, recorded
// one row per applied step.  Each step is attempted in ascending order, is
// skipped when already recorded, and otherwise runs inside its own
// transaction: its schema changes and its version record become durable
// together, and a mid-step failure rolls the whole step back.  Steps are
// strictly additive: create-table-if-absent, add-column-if-absent (by live
// introspection), add-index-if-absent.

/// The version of the newest known migration step.
pub const LATEST_SCHEMA_VERSION: i64 = 5;

/// All five step versions are recorded.
pub open spec fn all_versions_applied(vs: Set<int>) -> bool {
    vs.contains(1) && vs.contains(2) && vs.contains(3) && vs.contains(4) && vs.contains(5)
}

/// Migrations never remove anything: every table, column and index of the
/// earlier schema is still in the later one.
pub open spec fn schema_grows(a: SchemaModel, b: SchemaModel) -> bool {
    &&& a.migrations ==> b.migrations
    &&& a.entries ==> b.entries
    &&& a.pages ==> b.pages
    &&& a.tasks ==> b.tasks
    &&& a.goals ==> b.goals
    &&& a.habits ==> b.habits
    &&& a.habit_logs ==> b.habit_logs
    &&& a.tasks ==> (forall|c: Seq<char>|
        a.task_cols.contains(c) ==> b.task_cols.contains(c))
    &&& forall|c: Seq<char>| a.indexes.contains(c) ==> b.indexes.contains(c)
}

/// What every step guarantees.  On success its version is recorded, the
/// schema only grew, a step found already recorded changes nothing, and
/// every pre-existing table keeps its rows (the tasks table keeps its row
/// keys; added columns change what a row holds).  On failure the step's own
/// transaction has rolled everything back: tables, schema and versions are
/// exactly as the step found them.
pub open spec fn step_contract(pre: Store, post: Store, v: int, ok: bool) -> bool {
    &&& !store_in_txn(post)
    &&& store_schema(post).migrations
    &&& ok ==> {
        &&& store_versions(post) == store_versions(pre).insert(v)
        &&& schema_grows(store_schema(pre), store_schema(post))
        &&& (store_versions(pre).contains(v) ==> store_tables(post) == store_tables(pre)
            && store_schema(post) == store_schema(pre) && store_versions(post) == store_versions(
            pre,
        ))
        &&& (store_schema(pre).entries ==> store_tables(post).entries == store_tables(pre).entries)
        &&& (store_schema(pre).pages ==> store_tables(post).pages == store_tables(pre).pages)
        &&& (store_schema(pre).goals ==> store_tables(post).goals == store_tables(pre).goals)
        &&& (store_schema(pre).habits ==> store_tables(post).habits == store_tables(pre).habits)
        &&& (store_schema(pre).habit_logs ==> store_tables(post).habit_logs == store_tables(
            pre,
        ).habit_logs)
        &&& (store_schema(pre).tasks ==> store_tables(post).tasks.dom() == store_tables(
            pre,
        ).tasks.dom())
    }
    &&& !ok ==> (store_tables(post) == store_tables(pre) && store_schema(post) == store_schema(
        pre,
    ) && store_versions(post) == store_versions(pre))
}

/// Adds a column to the tasks table unless live introspection shows it is
/// already there.
fn ensure_task_column(store: &mut Store, col: &str, decl: &str) -> (r: Result<(), StoreError>)
    requires
        sql_identifier(col@),
    ensures
        r matches Ok(_) ==> {
            &&& store_versions(*final(store)) == store_versions(*old(store))
            &&& txn_kept(*old(store), *final(store))
            &&& store_schema(*final(store)) == SchemaModel {
                task_cols: store_schema(*final(store)).task_cols,
                ..store_schema(*old(store))
            }
            &&& store_schema(*final(store)).task_cols.contains(col@)
            &&& store_schema(*final(store)).tasks
            &&& (forall|c: Seq<char>|
                store_schema(*old(store)).task_cols.contains(c) ==> store_schema(
                    *final(store),
                ).task_cols.contains(c))
            &&& store_tables(*final(store)).entries == store_tables(*old(store)).entries
            &&& store_tables(*final(store)).pages == store_tables(*old(store)).pages
            &&& store_tables(*final(store)).goals == store_tables(*old(store)).goals
            &&& store_tables(*final(store)).habits == store_tables(*old(store)).habits
            &&& store_tables(*final(store)).habit_logs == store_tables(*old(store)).habit_logs
            &&& store_tables(*final(store)).tasks.dom() == store_tables(*old(store)).tasks.dom()
        },
        r is Err ==> dml_err(*old(store), *final(store)),
{
    let have = match store.has_task_column(col) {
        Ok(b) => b,
        Err(e) => {
            return Err(e);
        },
    };
    if have {
        proof {
            assert(store_schema(*store) =~= SchemaModel {
                task_cols: store_schema(*store).task_cols,
                ..store_schema(*store)
            });
        }
        return Ok(());
    }
    match store.add_task_column(col, decl) {
        Ok(_) => Ok(()),
        Err(e) => Err(e),
    }
}

/// Step 1: the base journal, page and task tables.
fn apply_step_one(store: &mut Store) -> (r: Result<(), StoreError>)
    requires
        !store_in_txn(*old(store)),
        store_schema(*old(store)).migrations,
    ensures
        step_contract(*old(store), *final(store), 1, r is Ok),
        r matches Ok(_) ==> (!store_versions(*old(store)).contains(1) ==> store_schema(
            *final(store),
        ).entries && store_schema(*final(store)).pages && store_schema(*final(store)).tasks),
{
    match store.begin() {
        Ok(_) => {},
        Err(e) => {
            return Err(e);
        },
    }
    let applied = match store.version_applied(1) {
        Ok(b) => b,
        Err(e) => {
            store.abort();
            return Err(e);
        },
    };
    if applied {
        match store.commit() {
            Ok(_) => {
                proof {
                    assert(store_versions(*store).insert(1) =~= store_versions(*store));
                }
                return Ok(());
            },
            Err(e) => {
                store.abort();
                return Err(e);
            },
        }
    }
    match store.create_entries_table() {
        Ok(_) => {},
        Err(e) => {
            store.abort();
            return Err(e);
        },
    }
    match store.create_pages_table() {
        Ok(_) => {},
        Err(e) => {
            store.abort();
            return Err(e);
        },
    }
    match store.create_tasks_table() {
        Ok(_) => {},
        Err(e) => {
            store.abort();
            return Err(e);
        },
    }
    let now = now_rfc3339();
    match store.record_version(1, now.as_str()) {
        Ok(_) => {},
        Err(e) => {
            store.abort();
            return Err(e);
        },
    }
    match store.commit() {
        Ok(_) => Ok(()),
        Err(e) => {
            store.abort();
            Err(e)
        },
    }
}

/// Step 2: task priority, due date and completion stamp, with an index.
fn apply_step_two(store: &mut Store) -> (r: Result<(), StoreError>)
    requires
        !store_in_txn(*old(store)),
        store_schema(*old(store)).migrations,
    ensures
        step_contract(*old(store), *final(store), 2, r is Ok),
        r matches Ok(_) ==> (!store_versions(*old(store)).contains(2) ==> store_schema(
            *final(store),
        ).tasks && store_schema(*final(store)).task_cols.contains("priority"@) && store_schema(
            *final(store),
        ).task_cols.contains("due_date"@) && store_schema(*final(store)).task_cols.contains(
            "completed_at"@,
        ) && store_schema(*final(store)).indexes.contains("idx_tasks_status_due_date"@)),
{
    match store.begin() {
        Ok(_) => {},
        Err(e) => {
            return Err(e);
        },
    }
    let applied = match store.version_applied(2) {
        Ok(b) => b,
        Err(e) => {
            store.abort();
            return Err(e);
        },
    };
    if applied {
        match store.commit() {
            Ok(_) => {
                proof {
                    assert(store_versions(*store).insert(2) =~= store_versions(*store));
                }
                return Ok(());
            },
            Err(e) => {
                store.abort();
                return Err(e);
            },
        }
    }
    proof {
        reveal_strlit("priority");
        assert(sql_identifier("priority"@));
    }
    match ensure_task_column(store, "priority", "TEXT NOT NULL DEFAULT 'medium'") {
        Ok(_) => {},
        Err(e) => {
            store.abort();
            return Err(e);
        },
    }
    proof {
        reveal_strlit("due_date");
        assert(sql_identifier("due_date"@));
    }
    match ensure_task_column(store, "due_date", "TEXT") {
        Ok(_) => {},
        Err(e) => {
            store.abort();
            return Err(e);
        },
    }
    proof {
        reveal_strlit("completed_at");
        assert(sql_identifier("completed_at"@));
    }
    match ensure_task_column(store, "completed_at", "TEXT") {
        Ok(_) => {},
        Err(e) => {
            store.abort();
            return Err(e);
        },
    }
    proof {
        reveal_strlit("idx_tasks_status_due_date");
        reveal_strlit("tasks");
        reveal_strlit("status, due_date");
        assert(sql_identifier("idx_tasks_status_due_date"@));
        assert(sql_identifier("tasks"@));
        assert(sql_identifier_list("status, due_date"@));
    }
    match store.create_index("idx_tasks_status_due_date", "tasks", "status, due_date") {
        Ok(_) => {},
        Err(e) => {
            store.abort();
            return Err(e);
        },
    }
    let now = now_rfc3339();
    match store.record_version(2, now.as_str()) {
        Ok(_) => {},
        Err(e) => {
            store.abort();
            return Err(e);
        },
    }
    match store.commit() {
        Ok(_) => Ok(()),
        Err(e) => {
            store.abort();
            Err(e)
        },
    }
}

/// Step 3: the goals domain, with an index.
fn apply_step_three(store: &mut Store) -> (r: Result<(), StoreError>)
    requires
        !store_in_txn(*old(store)),
        store_schema(*old(store)).migrations,
    ensures
        step_contract(*old(store), *final(store), 3, r is Ok),
        r matches Ok(_) ==> (!store_versions(*old(store)).contains(3) ==> store_schema(
            *final(store),
        ).goals && store_schema(*final(store)).indexes.contains("idx_goals_status_target_date"@)),
{
    match store.begin() {
        Ok(_) => {},
        Err(e) => {
            return Err(e);
        },
    }
    let applied = match store.version_applied(3) {
        Ok(b) => b,
        Err(e) => {
            store.abort();
            return Err(e);
        },
    };
    if applied {
        match store.commit() {
            Ok(_) => {
                proof {
                    assert(store_versions(*store).insert(3) =~= store_versions(*store));
                }
                return Ok(());
            },
            Err(e) => {
                store.abort();
                return Err(e);
            },
        }
    }
    match store.create_goals_table() {
        Ok(_) => {},
        Err(e) => {
            store.abort();
            return Err(e);
        },
    }
    proof {
        reveal_strlit("idx_goals_status_target_date");
        reveal_strlit("goals");
        reveal_strlit("status, target_date");
        assert(sql_identifier("idx_goals_status_target_date"@));
        assert(sql_identifier("goals"@));
        assert(sql_identifier_list("status, target_date"@));
    }
    match store.create_index("idx_goals_status_target_date", "goals", "status, target_date") {
        Ok(_) => {},
        Err(e) => {
            store.abort();
            return Err(e);
        },
    }
    let now = now_rfc3339();
    match store.record_version(3, now.as_str()) {
        Ok(_) => {},
        Err(e) => {
            store.abort();
            return Err(e);
        },
    }
    match store.commit() {
        Ok(_) => Ok(()),
        Err(e) => {
            store.abort();
            Err(e)
        },
    }
}

/// Step 4: habits and their daily completion logs, with an index.
fn apply_step_four(store: &mut Store) -> (r: Result<(), StoreError>)
    requires
        !store_in_txn(*old(store)),
        store_schema(*old(store)).migrations,
    ensures
        step_contract(*old(store), *final(store), 4, r is Ok),
        r matches Ok(_) ==> (!store_versions(*old(store)).contains(4) ==> store_schema(
            *final(store),
        ).habits && store_schema(*final(store)).habit_logs && store_schema(
            *final(store),
        ).indexes.contains("idx_habit_logs_habit_date"@)),
{
    match store.begin() {
        Ok(_) => {},
        Err(e) => {
            return Err(e);
        },
    }
    let applied = match store.version_applied(4) {
        Ok(b) => b,
        Err(e) => {
            store.abort();
            return Err(e);
        },
    };
    if applied {
        match store.commit() {
            Ok(_) => {
                proof {
                    assert(store_versions(*store).insert(4) =~= store_versions(*store));
                }
                return Ok(());
            },
            Err(e) => {
                store.abort();
                return Err(e);
            },
        }
    }
    match store.create_habits_table() {
        Ok(_) => {},
        Err(e) => {
            store.abort();
            return Err(e);
        },
    }
    match store.create_logs_table() {
        Ok(_) => {},
        Err(e) => {
            store.abort();
            return Err(e);
        },
    }
    proof {
        reveal_strlit("idx_habit_logs_habit_date");
        reveal_strlit("habit_logs");
        reveal_strlit("habit_id, date");
        assert(sql_identifier("idx_habit_logs_habit_date"@));
        assert(sql_identifier("habit_logs"@));
        assert(sql_identifier_list("habit_id, date"@));
    }
    match store.create_index("idx_habit_logs_habit_date", "habit_logs", "habit_id, date") {
        Ok(_) => {},
        Err(e) => {
            store.abort();
            return Err(e);
        },
    }
    let now = now_rfc3339();
    match store.record_version(4, now.as_str()) {
        Ok(_) => {},
        Err(e) => {
            store.abort();
            return Err(e);
        },
    }
    match store.commit() {
        Ok(_) => Ok(()),
        Err(e) => {
            store.abort();
            Err(e)
        },
    }
}

/// Step 5: persistent task timer columns, with an index.
fn apply_step_five(store: &mut Store) -> (r: Result<(), StoreError>)
    requires
        !store_in_txn(*old(store)),
        store_schema(*old(store)).migrations,
    ensures
        step_contract(*old(store), *final(store), 5, r is Ok),
        r matches Ok(_) ==> (!store_versions(*old(store)).contains(5) ==> store_schema(
            *final(store),
        ).tasks && store_schema(*final(store)).task_cols.contains("time_estimate_minutes"@)
            && store_schema(*final(store)).task_cols.contains("timer_started_at"@) && store_schema(
            *final(store),
        ).task_cols.contains("timer_accumulated_seconds"@) && store_schema(
            *final(store),
        ).indexes.contains("idx_tasks_timer_started_at"@)),
{
    match store.begin() {
        Ok(_) => {},
        Err(e) => {
            return Err(e);
        },
    }
    let applied = match store.version_applied(5) {
        Ok(b) => b,
        Err(e) => {
            store.abort();
            return Err(e);
        },
    };
    if applied {
        match store.commit() {
            Ok(_) => {
                proof {
                    assert(store_versions(*store).insert(5) =~= store_versions(*store));
                }
                return Ok(());
            },
            Err(e) => {
                store.abort();
                return Err(e);
            },
        }
    }
    proof {
        reveal_strlit("time_estimate_minutes");
        assert(sql_identifier("time_estimate_minutes"@));
    }
    match ensure_task_column(store, "time_estimate_minutes", "INTEGER NOT NULL DEFAULT 0") {
        Ok(_) => {},
        Err(e) => {
            store.abort();
            return Err(e);
        },
    }
    proof {
        reveal_strlit("timer_started_at");
        assert(sql_identifier("timer_started_at"@));
    }
    match ensure_task_column(store, "timer_started_at", "TEXT") {
        Ok(_) => {},
        Err(e) => {
            store.abort();
            return Err(e);
        },
    }
    proof {
        reveal_strlit("timer_accumulated_seconds");
        assert(sql_identifier("timer_accumulated_seconds"@));
    }
    match ensure_task_column(store, "timer_accumulated_seconds", "INTEGER NOT NULL DEFAULT 0") {
        Ok(_) => {},
        Err(e) => {
            store.abort();
            return Err(e);
        },
    }
    proof {
        reveal_strlit("idx_tasks_timer_started_at");
        reveal_strlit("tasks");
        reveal_strlit("timer_started_at");
        assert(sql_identifier("idx_tasks_timer_started_at"@));
        assert(sql_identifier("tasks"@));
        assert(sql_identifier_list("timer_started_at"@));
    }
    match store.create_index("idx_tasks_timer_started_at", "tasks", "timer_started_at") {
        Ok(_) => {},
        Err(e) => {
            store.abort();
            return Err(e);
        },
    }
    let now = now_rfc3339();
    match store.record_version(5, now.as_str()) {
        Ok(_) => {},
        Err(e) => {
            store.abort();
            return Err(e);
        },
    }
    match store.commit() {
        Ok(_) => Ok(()),
        Err(e) => {
            store.abort();
            Err(e)
        },
    }
}

/// Brings the schema from whatever version is recorded up to the latest,
/// idempotently.  A database already at the latest version is untouched: no
/// step re-executes, no row and no schema object changes.  Each step is its
/// own transaction: a failing step rolls back whole, is never recorded as
/// applied, and stops the runner; versions recorded earlier survive, and no
/// version at or past the failed one is newly recorded.  Pre-existing rows
/// of existing tables are preserved in full (tasks keep their row keys;
/// added columns extend what a row holds).
pub fn run_migrations(store: &mut Store) -> (r: Result<(), StoreError>)
    requires
        !store_in_txn(*old(store)),
    ensures
        !store_in_txn(*final(store)),
        r matches Ok(_) ==> {
            let pre_v = store_versions(*old(store));
            let post_v = store_versions(*final(store));
            &&& store_schema(*final(store)).migrations
            &&& (store_schema(*old(store)).migrations ==> schema_grows(
                store_schema(*old(store)),
                store_schema(*final(store)),
            ))
            &&& post_v == pre_v.insert(1).insert(2).insert(3).insert(4).insert(5)
            &&& all_versions_applied(post_v)
            &&& (!store_schema(*old(store)).migrations ==> post_v == Set::<int>::empty().insert(
                1,
            ).insert(2).insert(3).insert(4).insert(5))
            &&& (!pre_v.contains(1) ==> store_schema(*final(store)).entries && store_schema(
                *final(store),
            ).pages && store_schema(*final(store)).tasks)
            &&& (!pre_v.contains(2) ==> store_schema(*final(store)).tasks && store_schema(
                *final(store),
            ).task_cols.contains("priority"@) && store_schema(*final(store)).task_cols.contains(
                "due_date"@,
            ) && store_schema(*final(store)).task_cols.contains("completed_at"@) && store_schema(
                *final(store),
            ).indexes.contains("idx_tasks_status_due_date"@))
            &&& (!pre_v.contains(3) ==> store_schema(*final(store)).goals && store_schema(
                *final(store),
            ).indexes.contains("idx_goals_status_target_date"@))
            &&& (!pre_v.contains(4) ==> store_schema(*final(store)).habits && store_schema(
                *final(store),
            ).habit_logs && store_schema(*final(store)).indexes.contains(
                "idx_habit_logs_habit_date"@,
            ))
            &&& (!pre_v.contains(5) ==> store_schema(*final(store)).tasks && store_schema(
                *final(store),
            ).task_cols.contains("time_estimate_minutes"@) && store_schema(
                *final(store),
            ).task_cols.contains("timer_started_at"@) && store_schema(
                *final(store),
            ).task_cols.contains("timer_accumulated_seconds"@) && store_schema(
                *final(store),
            ).indexes.contains("idx_tasks_timer_started_at"@))
            &&& (store_schema(*old(store)).entries ==> store_tables(*final(store)).entries
                == store_tables(*old(store)).entries)
            &&& (store_schema(*old(store)).pages ==> store_tables(*final(store)).pages
                == store_tables(*old(store)).pages)
            &&& (store_schema(*old(store)).goals ==> store_tables(*final(store)).goals
                == store_tables(*old(store)).goals)
            &&& (store_schema(*old(store)).habits ==> store_tables(*final(store)).habits
                == store_tables(*old(store)).habits)
            &&& (store_schema(*old(store)).habit_logs ==> store_tables(*final(store)).habit_logs
                == store_tables(*old(store)).habit_logs)
            &&& (store_schema(*old(store)).tasks ==> store_tables(*final(store)).tasks.dom()
                == store_tables(*old(store)).tasks.dom())
        },
        (r matches Ok(_) && store_schema(*old(store)).migrations && all_versions_applied(
            store_versions(*old(store)),
        )) ==> {
            &&& store_tables(*final(store)) == store_tables(*old(store))
            &&& store_schema(*final(store)) == store_schema(*old(store))
            &&& store_versions(*final(store)) == store_versions(*old(store))
        },
        r matches Err(e) ==> (e matches StoreError::StorageUnavailable ==> store_tables(
            *final(store),
        ) == store_tables(*old(store)) && store_schema(*final(store)) == store_schema(*old(store))
            && store_versions(*final(store)) == store_versions(*old(store))),
        r matches Err(e) ==> (e matches StoreError::MigrationFailed { version } ==> {
            &&& 1 <= version <= LATEST_SCHEMA_VERSION
            &&& (store_schema(*old(store)).migrations ==> (forall|x: int|
                store_versions(*old(store)).contains(x) ==> store_versions(
                    *final(store),
                ).contains(x)))
            &&& (forall|x: int|
                x >= version ==> ((#[trigger] store_versions(*final(store)).contains(x))
                    ==> store_schema(*old(store)).migrations && store_versions(
                    *old(store),
                ).contains(x)))
        }),
{
    match store.create_migrations_table() {
        Ok(_) => {},
        Err(_) => {
            return Err(StoreError::StorageUnavailable);
        },
    }
    match apply_step_one(store) {
        Ok(_) => {},
        Err(_) => {
            return Err(StoreError::MigrationFailed { version: 1 });
        },
    }
    match apply_step_two(store) {
        Ok(_) => {},
        Err(_) => {
            return Err(StoreError::MigrationFailed { version: 2 });
        },
    }
    match apply_step_three(store) {
        Ok(_) => {},
        Err(_) => {
            return Err(StoreError::MigrationFailed { version: 3 });
        },
    }
    match apply_step_four(store) {
        Ok(_) => {},
        Err(_) => {
            return Err(StoreError::MigrationFailed { version: 4 });
        },
    }
    match apply_step_five(store) {
        Ok(_) => {},
        Err(_) => {
            return Err(StoreError::MigrationFailed { version: 5 });
        },
    }
    proof {
        let pre_v = store_versions(*old(store));
        let post_v = store_versions(*final(store));
        assert(post_v =~= pre_v.insert(1).insert(2).insert(3).insert(4).insert(5));
        if !store_schema(*old(store)).migrations {
            assert(post_v =~= Set::<int>::empty().insert(1).insert(2).insert(3).insert(4).insert(
                5,
            ));
        }
        if store_schema(*old(store)).migrations && all_versions_applied(pre_v) {
            assert(store_schema(*final(store)) =~= store_schema(*old(store)));
            assert(store_versions(*final(store)) =~= store_versions(*old(store)));
        }
    }
    Ok(())
}

/// Whether a migration step version is recorded as applied.
pub fn migration_applied(store: &Store, version: i64) -> (r: Result<bool, StoreError>)
    requires
        store_schema(*store).migrations,
    ensures
        r matches Ok(b) ==> b == store_versions(*store).contains(version as int),
{
    store.version_applied(version)
}

/// Opens (creating if absent) the database file and brings its schema to the
/// latest version.  The containing directory must already exist.  A failed
/// migration step is fatal: the store is not returned.
pub fn init(path: &str) -> (r: Result<Store, StoreError>)
    ensures
        r matches Ok(s) ==> !store_in_txn(s) && store_schema(s).migrations && all_versions_applied(
            store_versions(s),
        ),
{
    let mut store = match Store::open(path) {
        Ok(s) => s,
        Err(e) => {
            return Err(e);
        },
    };
    match run_migrations(&mut store) {
        Ok(_) => Ok(store),
        Err(e) => Err(e),
    }
}

} // verus!
