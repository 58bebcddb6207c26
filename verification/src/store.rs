use vstd::prelude::*;
use rusqlite::OptionalExtension;
use crate::error::StoreError;
use crate::model::{StoreModel, SchemaModel, pairs_map_onto, keys_distinct};
use crate::records::{Entry, EntryData, Page, PageData, Task, TaskData, Goal, GoalData, Habit,
    HabitData, HabitLog, LogData};
use crate::norm::spec_opt_view;
use crate::util::lex_le;

verus! {

// The storage engine: one SQLite connection, used through small trusted
// wrappers whose contracts are stated over the ghost model of the database
// (`StoreModel`, `SchemaModel`, the applied-migration set, and the state of
// the explicit transaction).  Everything above this module is verified
// against these contracts.

#[verifier::external_type_specification]
#[verifier::external_body]
pub struct ExConnection(rusqlite::Connection);

/// The handle to the database.  At most one operation uses it at a time: the
/// callers hold it by exclusive borrow for the full duration of each
/// operation, transactions included.
pub struct Store {
    conn: rusqlite::Connection,
}

/// The contents of the six data tables of the store.
pub uninterp spec fn store_tables(s: Store) -> StoreModel;

/// Whether an explicit transaction is open on the store.
pub uninterp spec fn store_in_txn(s: Store) -> bool;

/// The table contents at the time the open transaction began.
pub uninterp spec fn store_txn_base(s: Store) -> StoreModel;

/// Which tables, task columns and indexes exist in the store.
pub uninterp spec fn store_schema(s: Store) -> SchemaModel;

/// The set of schema versions recorded as applied.
pub uninterp spec fn store_versions(s: Store) -> Set<int>;

/// The schema as it stood when the open transaction began.
pub uninterp spec fn store_txn_schema(s: Store) -> SchemaModel;

/// The version set as it stood when the open transaction began.
pub uninterp spec fn store_txn_versions(s: Store) -> Set<int>;

/// Transaction bookkeeping is untouched: whether one is open, and the
/// contents, schema and version set recorded at its start.
pub open spec fn txn_kept(pre: Store, post: Store) -> bool {
    &&& store_in_txn(post) == store_in_txn(pre)
    &&& store_txn_base(post) == store_txn_base(pre)
    &&& store_txn_schema(post) == store_txn_schema(pre)
    &&& store_txn_versions(post) == store_txn_versions(pre)
}

/// Schema, versions and transaction state are untouched: what every
/// successful data statement guarantees besides its own effect.
pub open spec fn dml_ok(pre: Store, post: Store) -> bool {
    &&& store_schema(post) == store_schema(pre)
    &&& store_versions(post) == store_versions(pre)
    &&& txn_kept(pre, post)
}

/// A failed statement changes nothing itself; when it happens inside an
/// explicit transaction the engine may instead have rolled the whole
/// transaction back, restoring contents, schema and versions to the
/// transaction's start.
pub open spec fn dml_err(pre: Store, post: Store) -> bool {
    ||| (store_tables(post) == store_tables(pre) && store_schema(post) == store_schema(pre)
        && store_versions(post) == store_versions(pre) && txn_kept(pre, post))
    ||| (store_in_txn(pre) && !store_in_txn(post) && store_tables(post) == store_txn_base(pre)
        && store_schema(post) == store_txn_schema(pre) && store_versions(post)
        == store_txn_versions(pre))
}

/// A failed statement outside a transaction leaves the data exactly as it
/// was.
pub proof fn lemma_dml_err_outside_txn(pre: Store, post: Store)
    requires
        dml_err(pre, post),
        !store_in_txn(pre),
    ensures
        store_tables(post) == store_tables(pre),
        !store_in_txn(post),
{
}

pub open spec fn entry_pairs(rows: Seq<Entry>) -> Seq<(Seq<char>, EntryData)> {
    rows.map_values(|e: Entry| (e.date@, e.data()))
}

pub open spec fn page_pairs(rows: Seq<Page>) -> Seq<(int, PageData)> {
    rows.map_values(|p: Page| (p.id as int, p.data()))
}

pub open spec fn task_pairs(rows: Seq<Task>) -> Seq<(int, TaskData)> {
    rows.map_values(|t: Task| (t.id as int, t.data()))
}

pub open spec fn goal_pairs(rows: Seq<Goal>) -> Seq<(int, GoalData)> {
    rows.map_values(|g: Goal| (g.id as int, g.data()))
}

pub open spec fn habit_pairs(rows: Seq<Habit>) -> Seq<(int, HabitData)> {
    rows.map_values(|h: Habit| (h.id as int, h.data()))
}

pub open spec fn log_pairs(rows: Seq<HabitLog>) -> Seq<(int, LogData)> {
    rows.map_values(|l: HabitLog| (l.id as int, l.data()))
}

/// A listing of a whole table: the rows, written in order into a map by
/// their key, are exactly the table, and no key repeats.
pub open spec fn lists_table<K, V>(ps: Seq<(K, V)>, table: Map<K, V>) -> bool {
    &&& pairs_map_onto(Map::<K, V>::empty(), ps) == table
    &&& keys_distinct(ps)
}

/// A plain SQL identifier: a letter or underscore followed by letters,
/// digits or underscores.  The schema statements splice their names into the
/// SQL text, so their contracts admit only arguments of this shape, which
/// the statement then uses verbatim as one name.
pub open spec fn sql_ident_start(c: char) -> bool {
    (0x41 <= c as int <= 0x5A) || (0x61 <= c as int <= 0x7A) || c as int == 0x5F
}

pub open spec fn sql_ident_char(c: char) -> bool {
    sql_ident_start(c) || (0x30 <= c as int <= 0x39)
}

pub open spec fn sql_identifier(s: Seq<char>) -> bool {
    &&& s.len() > 0
    &&& sql_ident_start(s[0])
    &&& forall|i: int| 0 < i < s.len() ==> sql_ident_char(#[trigger] s[i])
}

/// A comma-and-space separated list of plain identifiers, as an index's
/// column list: only identifier characters, commas and spaces, starting with
/// an identifier character.
pub open spec fn sql_identifier_list(s: Seq<char>) -> bool {
    &&& s.len() > 0
    &&& sql_ident_start(s[0])
    &&& forall|i: int|
        0 < i < s.len() ==> sql_ident_char(#[trigger] s[i]) || s[i] as int == 0x2C || s[i] as int
            == 0x20
}

/// The rank goals are grouped by when listed: active, paused, completed,
/// archived, then anything else.
pub open spec fn goal_rank(s: Seq<char>) -> int {
    if s == "active"@ {
        0
    } else if s == "paused"@ {
        1
    } else if s == "completed"@ {
        2
    } else if s == "archived"@ {
        3
    } else {
        4
    }
}

/// The listing order of goals: by status rank, then goals with a target date
/// before those without, ascending by target date, newest activity first as
/// the tiebreak.
pub open spec fn goal_listed_le(a: Goal, b: Goal) -> bool {
    let ra = goal_rank(a.status@);
    let rb = goal_rank(b.status@);
    if ra != rb {
        ra < rb
    } else {
        match (spec_opt_view(a.target_date), spec_opt_view(b.target_date)) {
            (Some(da), Some(db)) => if da != db {
                lex_le(da, db)
            } else {
                lex_le(b.updated_at@, a.updated_at@)
            },
            (Some(da), None) => true,
            (None, Some(db)) => false,
            (None, None) => lex_le(b.updated_at@, a.updated_at@),
        }
    }
}

impl Store {
    /// Relies on rusqlite's `Connection::open` and `execute_batch`: opens
    /// (creating if absent) the database file and applies the write-ahead-log
    /// and relaxed-fsync pragmas.  The containing directory must already
    /// exist.  No transaction is open on a fresh connection, and a database
    /// always holds finitely many rows.
    #[verifier::external_body]
    pub fn open(path: &str) -> (r: Result<Store, StoreError>)
        ensures
            r matches Ok(s) ==> !store_in_txn(s) && store_tables(s).doms_finite()
                && store_versions(s).finite(),
    {
        let conn = rusqlite::Connection::open(path).map_err(|_| StoreError::StorageUnavailable)?;
        conn.execute_batch("PRAGMA journal_mode = WAL; PRAGMA synchronous = NORMAL;")
            .map_err(|_| StoreError::StorageUnavailable)?;
        Ok(Store { conn })
    }

    /// Relies on rusqlite's `Connection::execute_batch` running `BEGIN`:
    /// opens an explicit transaction whose base is the current contents.
    #[verifier::external_body]
    pub(crate) fn begin(&mut self) -> (r: Result<(), StoreError>)
        requires
            !store_in_txn(*old(self)),
        ensures
            store_tables(*final(self)) == store_tables(*old(self)),
            store_schema(*final(self)) == store_schema(*old(self)),
            store_versions(*final(self)) == store_versions(*old(self)),
            r matches Ok(_) ==> store_in_txn(*final(self)) && store_txn_base(*final(self))
                == store_tables(*old(self)) && store_txn_schema(*final(self)) == store_schema(
                *old(self),
            ) && store_txn_versions(*final(self)) == store_versions(*old(self)),
            r is Err ==> !store_in_txn(*final(self)),
    {
        self.conn.execute_batch("BEGIN").map_err(|_| StoreError::QueryFailed)
    }

    /// Relies on rusqlite's `Connection::execute_batch` running `COMMIT`:
    /// makes the open transaction's writes durable.  A failed commit either
    /// leaves the transaction open and the data as it was, or the engine has
    /// rolled the transaction back.
    #[verifier::external_body]
    pub(crate) fn commit(&mut self) -> (r: Result<(), StoreError>)
        requires
            store_in_txn(*old(self)),
        ensures
            r matches Ok(_) ==> !store_in_txn(*final(self)) && store_tables(*final(self))
                == store_tables(*old(self)) && store_schema(*final(self)) == store_schema(
                *old(self),
            ) && store_versions(*final(self)) == store_versions(*old(self)),
            r is Err ==> {
                ||| (store_in_txn(*final(self)) && store_tables(*final(self)) == store_tables(
                    *old(self),
                ) && store_schema(*final(self)) == store_schema(*old(self)) && store_versions(
                    *final(self),
                ) == store_versions(*old(self)) && txn_kept(*old(self), *final(self)))
                ||| (!store_in_txn(*final(self)) && store_tables(*final(self)) == store_txn_base(
                    *old(self),
                ) && store_schema(*final(self)) == store_txn_schema(*old(self)) && store_versions(
                    *final(self),
                ) == store_txn_versions(*old(self)))
            },
    {
        self.conn.execute_batch("COMMIT").map_err(|_| StoreError::QueryFailed)
    }

    /// Relies on rusqlite's `Connection::execute_batch` running `ROLLBACK`:
    /// abandons the open transaction, restoring its base contents.  When the
    /// engine already rolled the transaction back on a failure, the statement
    /// fails and the contents are the base already; outside a transaction it
    /// fails and changes nothing.
    #[verifier::external_body]
    pub(crate) fn abort(&mut self)
        ensures
            !store_in_txn(*final(self)),
            store_tables(*final(self)) == if store_in_txn(*old(self)) {
                store_txn_base(*old(self))
            } else {
                store_tables(*old(self))
            },
            store_schema(*final(self)) == if store_in_txn(*old(self)) {
                store_txn_schema(*old(self))
            } else {
                store_schema(*old(self))
            },
            store_versions(*final(self)) == if store_in_txn(*old(self)) {
                store_txn_versions(*old(self))
            } else {
                store_versions(*old(self))
            },
    {
        let _ = self.conn.execute_batch("ROLLBACK");
    }

    // ---- journal entries ----

    /// Relies on rusqlite's `Connection::prepare` and `Statement::query_map`
    /// over `SELECT ... FROM entries ORDER BY date DESC`.
    #[verifier::external_body]
    pub(crate) fn select_entries(&self) -> (r: Result<Vec<Entry>, StoreError>)
        ensures
            r matches Ok(rows) ==> {
                &&& lists_table(entry_pairs(rows@), store_tables(*self).entries)
                &&& forall|i: int, j: int|
                    0 <= i < j < rows@.len() ==> lex_le(
                        (#[trigger] rows@[j]).date@,
                        (#[trigger] rows@[i]).date@,
                    )
            },
    {
        let mut stmt = self.conn.prepare(
            "SELECT id, date, yesterday, today, created_at FROM entries ORDER BY date DESC",
        ).map_err(|_| StoreError::QueryFailed)?;
        let rows = stmt.query_map((), |row| {
            Ok(Entry { id: row.get(0)?, date: row.get(1)?, yesterday: row.get(2)?,
                today: row.get(3)?, created_at: row.get(4)? })
        }).map_err(|_| StoreError::QueryFailed)?;
        rows.collect::<Result<Vec<_>, _>>().map_err(|_| StoreError::QueryFailed)
    }

    /// Relies on rusqlite's `Connection::query_row` over `SELECT ... FROM
    /// entries WHERE date = ?1` (the date column is unique).
    #[verifier::external_body]
    pub(crate) fn get_entry_row(&self, date: &str) -> (r: Result<Option<Entry>, StoreError>)
        ensures
            r matches Ok(Some(e)) ==> store_tables(*self).entries.dom().contains(date@)
                && e.data() == store_tables(*self).entries[date@] && e.date@ == date@,
            r matches Ok(None) ==> !store_tables(*self).entries.dom().contains(date@),
    {
        self.conn.query_row(
            "SELECT id, date, yesterday, today, created_at FROM entries WHERE date = ?1",
            (date,),
            |row| Ok(Entry { id: row.get(0)?, date: row.get(1)?, yesterday: row.get(2)?,
                today: row.get(3)?, created_at: row.get(4)? }),
        ).optional().map_err(|_| StoreError::QueryFailed)
    }

    /// Relies on rusqlite's `Connection::execute` over `INSERT INTO entries
    /// ... ON CONFLICT(date) DO UPDATE`: writes the row for that date,
    /// inserting or overwriting all its fields.
    #[verifier::external_body]
    pub(crate) fn upsert_entry(
        &mut self,
        date: &str,
        yesterday: &str,
        today: &str,
        created_at: &str,
    ) -> (r: Result<(), StoreError>)
        ensures
            r matches Ok(_) ==> dml_ok(*old(self), *final(self)) && store_tables(*final(self))
                == store_tables(*old(self)).with_entries(
                store_tables(*old(self)).entries.insert(
                    date@,
                    EntryData { yesterday: yesterday@, today: today@, created_at: created_at@ },
                ),
            ),
            r is Err ==> dml_err(*old(self), *final(self)),
    {
        self.conn.execute(
            "INSERT INTO entries (date, yesterday, today, created_at) VALUES (?1, ?2, ?3, ?4) \
             ON CONFLICT(date) DO UPDATE SET yesterday = excluded.yesterday, \
             today = excluded.today, created_at = excluded.created_at",
            (date, yesterday, today, created_at),
        ).map(|_| ()).map_err(|_| StoreError::QueryFailed)
    }

    /// Relies on rusqlite's `Connection::execute` over `DELETE FROM entries
    /// WHERE date = ?1`.
    #[verifier::external_body]
    pub(crate) fn delete_entry_row(&mut self, date: &str) -> (r: Result<(), StoreError>)
        ensures
            r matches Ok(_) ==> dml_ok(*old(self), *final(self)) && store_tables(*final(self))
                == store_tables(*old(self)).with_entries(
                store_tables(*old(self)).entries.remove(date@),
            ),
            r is Err ==> dml_err(*old(self), *final(self)),
    {
        self.conn.execute("DELETE FROM entries WHERE date = ?1", (date,)).map(|_| ()).map_err(
            |_| StoreError::QueryFailed,
        )
    }

    /// Relies on rusqlite's `Connection::execute` over `DELETE FROM entries`.
    #[verifier::external_body]
    pub(crate) fn delete_all_entries(&mut self) -> (r: Result<(), StoreError>)
        ensures
            r matches Ok(_) ==> dml_ok(*old(self), *final(self)) && store_tables(*final(self))
                == store_tables(*old(self)).with_entries(Map::empty()),
            r is Err ==> dml_err(*old(self), *final(self)),
    {
        self.conn.execute("DELETE FROM entries", ()).map(|_| ()).map_err(
            |_| StoreError::QueryFailed,
        )
    }

    // ---- pages ----

    /// Relies on rusqlite's `Connection::prepare` and `Statement::query_map`
    /// over `SELECT ... FROM pages ORDER BY updated_at DESC`.
    #[verifier::external_body]
    pub(crate) fn select_pages(&self) -> (r: Result<Vec<Page>, StoreError>)
        ensures
            r matches Ok(rows) ==> {
                &&& lists_table(page_pairs(rows@), store_tables(*self).pages)
                &&& forall|i: int, j: int|
                    0 <= i < j < rows@.len() ==> lex_le(
                        (#[trigger] rows@[j]).updated_at@,
                        (#[trigger] rows@[i]).updated_at@,
                    )
            },
    {
        let mut stmt = self.conn.prepare(
            "SELECT id, title, content, created_at, updated_at FROM pages ORDER BY updated_at DESC",
        ).map_err(|_| StoreError::QueryFailed)?;
        let rows = stmt.query_map((), |row| {
            Ok(Page { id: row.get(0)?, title: row.get(1)?, content: row.get(2)?,
                created_at: row.get(3)?, updated_at: row.get(4)? })
        }).map_err(|_| StoreError::QueryFailed)?;
        rows.collect::<Result<Vec<_>, _>>().map_err(|_| StoreError::QueryFailed)
    }

    /// Relies on rusqlite's `Connection::query_row` over `SELECT ... FROM
    /// pages WHERE id = ?1`.
    #[verifier::external_body]
    pub(crate) fn get_page_row(&self, id: i64) -> (r: Result<Option<Page>, StoreError>)
        ensures
            r matches Ok(Some(p)) ==> store_tables(*self).pages.dom().contains(id as int)
                && p.data() == store_tables(*self).pages[id as int] && p.id == id,
            r matches Ok(None) ==> !store_tables(*self).pages.dom().contains(id as int),
    {
        self.conn.query_row(
            "SELECT id, title, content, created_at, updated_at FROM pages WHERE id = ?1",
            (id,),
            |row| Ok(Page { id: row.get(0)?, title: row.get(1)?, content: row.get(2)?,
                created_at: row.get(3)?, updated_at: row.get(4)? }),
        ).optional().map_err(|_| StoreError::QueryFailed)
    }

    /// Relies on rusqlite's `Connection::execute` over `INSERT INTO pages`
    /// and `last_insert_rowid`: inserts a fresh row and returns its
    /// engine-assigned identifier, which no existing row uses.
    #[verifier::external_body]
    pub(crate) fn insert_page(
        &mut self,
        title: &str,
        content: &str,
        created_at: &str,
        updated_at: &str,
    ) -> (r: Result<i64, StoreError>)
        ensures
            r matches Ok(id) ==> dml_ok(*old(self), *final(self)) && !store_tables(
                *old(self),
            ).pages.dom().contains(id as int) && store_tables(*final(self)) == store_tables(
                *old(self),
            ).with_pages(
                store_tables(*old(self)).pages.insert(
                    id as int,
                    PageData {
                        title: title@,
                        content: content@,
                        created_at: created_at@,
                        updated_at: updated_at@,
                    },
                ),
            ),
            r is Err ==> dml_err(*old(self), *final(self)),
    {
        self.conn.execute(
            "INSERT INTO pages (title, content, created_at, updated_at) VALUES (?1, ?2, ?3, ?4)",
            (title, content, created_at, updated_at),
        ).map_err(|_| StoreError::QueryFailed)?;
        Ok(self.conn.last_insert_rowid())
    }

    /// Relies on rusqlite's `Connection::execute` over `INSERT INTO pages
    /// ... ON CONFLICT(id) DO UPDATE`: writes the row at that identifier,
    /// inserting or overwriting all its fields.
    #[verifier::external_body]
    pub(crate) fn upsert_page(
        &mut self,
        id: i64,
        title: &str,
        content: &str,
        created_at: &str,
        updated_at: &str,
    ) -> (r: Result<(), StoreError>)
        ensures
            r matches Ok(_) ==> dml_ok(*old(self), *final(self)) && store_tables(*final(self))
                == store_tables(*old(self)).with_pages(
                store_tables(*old(self)).pages.insert(
                    id as int,
                    PageData {
                        title: title@,
                        content: content@,
                        created_at: created_at@,
                        updated_at: updated_at@,
                    },
                ),
            ),
            r is Err ==> dml_err(*old(self), *final(self)),
    {
        self.conn.execute(
            "INSERT INTO pages (id, title, content, created_at, updated_at) \
             VALUES (?1, ?2, ?3, ?4, ?5) ON CONFLICT(id) DO UPDATE SET \
             title = excluded.title, content = excluded.content, \
             created_at = excluded.created_at, updated_at = excluded.updated_at",
            (id, title, content, created_at, updated_at),
        ).map(|_| ()).map_err(|_| StoreError::QueryFailed)
    }

    /// Relies on rusqlite's `Connection::execute` over `DELETE FROM pages
    /// WHERE id = ?1`.
    #[verifier::external_body]
    pub(crate) fn delete_page_row(&mut self, id: i64) -> (r: Result<(), StoreError>)
        ensures
            r matches Ok(_) ==> dml_ok(*old(self), *final(self)) && store_tables(*final(self))
                == store_tables(*old(self)).with_pages(
                store_tables(*old(self)).pages.remove(id as int),
            ),
            r is Err ==> dml_err(*old(self), *final(self)),
    {
        self.conn.execute("DELETE FROM pages WHERE id = ?1", (id,)).map(|_| ()).map_err(
            |_| StoreError::QueryFailed,
        )
    }

    /// Relies on rusqlite's `Connection::execute` over `DELETE FROM pages`.
    #[verifier::external_body]
    pub(crate) fn delete_all_pages(&mut self) -> (r: Result<(), StoreError>)
        ensures
            r matches Ok(_) ==> dml_ok(*old(self), *final(self)) && store_tables(*final(self))
                == store_tables(*old(self)).with_pages(Map::empty()),
            r is Err ==> dml_err(*old(self), *final(self)),
    {
        self.conn.execute("DELETE FROM pages", ()).map(|_| ()).map_err(
            |_| StoreError::QueryFailed,
        )
    }

    // ---- tasks ----

    /// Relies on rusqlite's `Connection::prepare` and `Statement::query_map`
    /// over `SELECT ... FROM tasks ORDER BY updated_at DESC`.
    #[verifier::external_body]
    pub(crate) fn select_tasks(&self) -> (r: Result<Vec<Task>, StoreError>)
        ensures
            r matches Ok(rows) ==> {
                &&& lists_table(task_pairs(rows@), store_tables(*self).tasks)
                &&& forall|i: int, j: int|
                    0 <= i < j < rows@.len() ==> lex_le(
                        (#[trigger] rows@[j]).updated_at@,
                        (#[trigger] rows@[i]).updated_at@,
                    )
            },
    {
        let out = self.conn.prepare(
            "SELECT id, title, description, status, priority, due_date, completed_at, \
             time_estimate_minutes, timer_started_at, timer_accumulated_seconds, created_at, \
             updated_at FROM tasks ORDER BY updated_at DESC",
        ).and_then(|mut stmt| {
            stmt.query_map((), |r| {
                Ok(Task { id: r.get(0)?, title: r.get(1)?, description: r.get(2)?,
                    status: r.get(3)?, priority: r.get(4)?, due_date: r.get(5)?,
                    completed_at: r.get(6)?, time_estimate_minutes: r.get(7)?,
                    timer_started_at: r.get(8)?, timer_accumulated_seconds: r.get(9)?,
                    created_at: r.get(10)?, updated_at: r.get(11)? })
            })?.collect()
        });
        out.map_err(|_| StoreError::QueryFailed)
    }

    /// Relies on rusqlite's `Connection::query_row` over `SELECT ... FROM
    /// tasks WHERE id = ?1`.
    #[verifier::external_body]
    pub(crate) fn get_task_row(&self, id: i64) -> (r: Result<Option<Task>, StoreError>)
        ensures
            r matches Ok(Some(t)) ==> store_tables(*self).tasks.dom().contains(id as int)
                && t.data() == store_tables(*self).tasks[id as int] && t.id == id,
            r matches Ok(None) ==> !store_tables(*self).tasks.dom().contains(id as int),
    {
        self.conn.query_row(
            "SELECT id, title, description, status, priority, due_date, completed_at, \
             time_estimate_minutes, timer_started_at, timer_accumulated_seconds, created_at, \
             updated_at FROM tasks WHERE id = ?1",
            (id,),
            |r| Ok(Task { id: r.get(0)?, title: r.get(1)?, description: r.get(2)?,
                status: r.get(3)?, priority: r.get(4)?, due_date: r.get(5)?,
                completed_at: r.get(6)?, time_estimate_minutes: r.get(7)?,
                timer_started_at: r.get(8)?, timer_accumulated_seconds: r.get(9)?,
                created_at: r.get(10)?, updated_at: r.get(11)? }),
        ).optional().map_err(|_| StoreError::QueryFailed)
    }

    /// Relies on rusqlite's `Connection::execute` over `INSERT INTO tasks`
    /// and `last_insert_rowid`: inserts a fresh row and returns its
    /// engine-assigned identifier, which no existing row uses.
    #[verifier::external_body]
    pub(crate) fn insert_task(
        &mut self,
        title: &str,
        description: &str,
        status: &str,
        priority: &str,
        due_date: &Option<String>,
        completed_at: &Option<String>,
        time_estimate_minutes: i64,
        timer_started_at: &Option<String>,
        timer_accumulated_seconds: i64,
        created_at: &str,
        updated_at: &str,
    ) -> (r: Result<i64, StoreError>)
        ensures
            r matches Ok(id) ==> dml_ok(*old(self), *final(self)) && !store_tables(
                *old(self),
            ).tasks.dom().contains(id as int) && store_tables(*final(self)) == store_tables(
                *old(self),
            ).with_tasks(
                store_tables(*old(self)).tasks.insert(
                    id as int,
                    TaskData {
                        title: title@,
                        description: description@,
                        status: status@,
                        priority: priority@,
                        due_date: spec_opt_view(*due_date),
                        completed_at: spec_opt_view(*completed_at),
                        time_estimate_minutes: time_estimate_minutes as int,
                        timer_started_at: spec_opt_view(*timer_started_at),
                        timer_accumulated_seconds: timer_accumulated_seconds as int,
                        created_at: created_at@,
                        updated_at: updated_at@,
                    },
                ),
            ),
            r is Err ==> dml_err(*old(self), *final(self)),
    {
        self.conn.execute(
            "INSERT INTO tasks (title, description, status, priority, due_date, completed_at, \
             time_estimate_minutes, timer_started_at, timer_accumulated_seconds, created_at, \
             updated_at) VALUES (?1, ?2, ?3, ?4, ?5, ?6, ?7, ?8, ?9, ?10, ?11)",
            (title, description, status, priority, due_date.as_deref(), completed_at.as_deref(),
                time_estimate_minutes, timer_started_at.as_deref(), timer_accumulated_seconds,
                created_at, updated_at),
        ).map_err(|_| StoreError::QueryFailed)?;
        Ok(self.conn.last_insert_rowid())
    }

    /// Relies on rusqlite's `Connection::execute` over `INSERT INTO tasks
    /// ... ON CONFLICT(id) DO UPDATE`: writes the row at that identifier,
    /// inserting or overwriting all its fields.
    #[verifier::external_body]
    pub(crate) fn upsert_task(
        &mut self,
        id: i64,
        title: &str,
        description: &str,
        status: &str,
        priority: &str,
        due_date: &Option<String>,
        completed_at: &Option<String>,
        time_estimate_minutes: i64,
        timer_started_at: &Option<String>,
        timer_accumulated_seconds: i64,
        created_at: &str,
        updated_at: &str,
    ) -> (r: Result<(), StoreError>)
        ensures
            r matches Ok(_) ==> dml_ok(*old(self), *final(self)) && store_tables(*final(self))
                == store_tables(*old(self)).with_tasks(
                store_tables(*old(self)).tasks.insert(
                    id as int,
                    TaskData {
                        title: title@,
                        description: description@,
                        status: status@,
                        priority: priority@,
                        due_date: spec_opt_view(*due_date),
                        completed_at: spec_opt_view(*completed_at),
                        time_estimate_minutes: time_estimate_minutes as int,
                        timer_started_at: spec_opt_view(*timer_started_at),
                        timer_accumulated_seconds: timer_accumulated_seconds as int,
                        created_at: created_at@,
                        updated_at: updated_at@,
                    },
                ),
            ),
            r is Err ==> dml_err(*old(self), *final(self)),
    {
        self.conn.execute(
            "INSERT INTO tasks (id, title, description, status, priority, due_date, completed_at, \
             time_estimate_minutes, timer_started_at, timer_accumulated_seconds, created_at, \
             updated_at) VALUES (?1, ?2, ?3, ?4, ?5, ?6, ?7, ?8, ?9, ?10, ?11, ?12) \
             ON CONFLICT(id) DO UPDATE SET title = excluded.title, \
             description = excluded.description, status = excluded.status, \
             priority = excluded.priority, due_date = excluded.due_date, \
             completed_at = excluded.completed_at, \
             time_estimate_minutes = excluded.time_estimate_minutes, \
             timer_started_at = excluded.timer_started_at, \
             timer_accumulated_seconds = excluded.timer_accumulated_seconds, \
             created_at = excluded.created_at, updated_at = excluded.updated_at",
            (id, title, description, status, priority, due_date.as_deref(),
                completed_at.as_deref(), time_estimate_minutes, timer_started_at.as_deref(),
                timer_accumulated_seconds, created_at, updated_at),
        ).map(|_| ()).map_err(|_| StoreError::QueryFailed)
    }

    /// Relies on rusqlite's `Connection::execute` over `DELETE FROM tasks
    /// WHERE id = ?1`.
    #[verifier::external_body]
    pub(crate) fn delete_task_row(&mut self, id: i64) -> (r: Result<(), StoreError>)
        ensures
            r matches Ok(_) ==> dml_ok(*old(self), *final(self)) && store_tables(*final(self))
                == store_tables(*old(self)).with_tasks(
                store_tables(*old(self)).tasks.remove(id as int),
            ),
            r is Err ==> dml_err(*old(self), *final(self)),
    {
        self.conn.execute("DELETE FROM tasks WHERE id = ?1", (id,)).map(|_| ()).map_err(
            |_| StoreError::QueryFailed,
        )
    }

    /// Relies on rusqlite's `Connection::execute` over `DELETE FROM tasks`.
    #[verifier::external_body]
    pub(crate) fn delete_all_tasks(&mut self) -> (r: Result<(), StoreError>)
        ensures
            r matches Ok(_) ==> dml_ok(*old(self), *final(self)) && store_tables(*final(self))
                == store_tables(*old(self)).with_tasks(Map::empty()),
            r is Err ==> dml_err(*old(self), *final(self)),
    {
        self.conn.execute("DELETE FROM tasks", ()).map(|_| ()).map_err(
            |_| StoreError::QueryFailed,
        )
    }

    // ---- goals ----

    /// Relies on rusqlite's `Connection::prepare` and `Statement::query_map`
    /// over `SELECT ... FROM goals` ordered by status rank, target date
    /// presence, target date ascending and recency (see `goal_listed_le`).
    #[verifier::external_body]
    pub(crate) fn select_goals(&self) -> (r: Result<Vec<Goal>, StoreError>)
        ensures
            r matches Ok(rows) ==> {
                &&& lists_table(goal_pairs(rows@), store_tables(*self).goals)
                &&& forall|i: int, j: int|
                    0 <= i < j < rows@.len() ==> goal_listed_le(
                        #[trigger] rows@[i],
                        #[trigger] rows@[j],
                    )
            },
    {
        let mut stmt = self.conn.prepare(
            "SELECT id, title, description, status, progress, target_date, created_at, updated_at \
             FROM goals ORDER BY CASE status WHEN 'active' THEN 0 WHEN 'paused' THEN 1 \
             WHEN 'completed' THEN 2 WHEN 'archived' THEN 3 ELSE 4 END, \
             target_date IS NULL, target_date ASC, updated_at DESC",
        ).map_err(|_| StoreError::QueryFailed)?;
        let rows = stmt.query_map((), |row| {
            Ok(Goal { id: row.get(0)?, title: row.get(1)?, description: row.get(2)?,
                status: row.get(3)?, progress: row.get(4)?, target_date: row.get(5)?,
                created_at: row.get(6)?, updated_at: row.get(7)? })
        }).map_err(|_| StoreError::QueryFailed)?;
        rows.collect::<Result<Vec<_>, _>>().map_err(|_| StoreError::QueryFailed)
    }

    /// Relies on rusqlite's `Connection::query_row` over `SELECT ... FROM
    /// goals WHERE id = ?1`.
    #[verifier::external_body]
    pub(crate) fn get_goal_row(&self, id: i64) -> (r: Result<Option<Goal>, StoreError>)
        ensures
            r matches Ok(Some(g)) ==> store_tables(*self).goals.dom().contains(id as int)
                && g.data() == store_tables(*self).goals[id as int] && g.id == id,
            r matches Ok(None) ==> !store_tables(*self).goals.dom().contains(id as int),
    {
        self.conn.query_row(
            "SELECT id, title, description, status, progress, target_date, created_at, updated_at \
             FROM goals WHERE id = ?1",
            (id,),
            |row| Ok(Goal { id: row.get(0)?, title: row.get(1)?, description: row.get(2)?,
                status: row.get(3)?, progress: row.get(4)?, target_date: row.get(5)?,
                created_at: row.get(6)?, updated_at: row.get(7)? }),
        ).optional().map_err(|_| StoreError::QueryFailed)
    }

    /// Relies on rusqlite's `Connection::execute` over `INSERT INTO goals`
    /// and `last_insert_rowid`: inserts a fresh row and returns its
    /// engine-assigned identifier, which no existing row uses.
    #[verifier::external_body]
    pub(crate) fn insert_goal(
        &mut self,
        title: &str,
        description: &str,
        status: &str,
        progress: i64,
        target_date: &Option<String>,
        created_at: &str,
        updated_at: &str,
    ) -> (r: Result<i64, StoreError>)
        ensures
            r matches Ok(id) ==> dml_ok(*old(self), *final(self)) && !store_tables(
                *old(self),
            ).goals.dom().contains(id as int) && store_tables(*final(self)) == store_tables(
                *old(self),
            ).with_goals(
                store_tables(*old(self)).goals.insert(
                    id as int,
                    GoalData {
                        title: title@,
                        description: description@,
                        status: status@,
                        progress: progress as int,
                        target_date: spec_opt_view(*target_date),
                        created_at: created_at@,
                        updated_at: updated_at@,
                    },
                ),
            ),
            r is Err ==> dml_err(*old(self), *final(self)),
    {
        self.conn.execute(
            "INSERT INTO goals (title, description, status, progress, target_date, created_at, \
             updated_at) VALUES (?1, ?2, ?3, ?4, ?5, ?6, ?7)",
            (title, description, status, progress, target_date.as_deref(), created_at,
                updated_at),
        ).map_err(|_| StoreError::QueryFailed)?;
        Ok(self.conn.last_insert_rowid())
    }

    /// Relies on rusqlite's `Connection::execute` over `INSERT INTO goals
    /// ... ON CONFLICT(id) DO UPDATE`: writes the row at that identifier,
    /// inserting or overwriting all its fields.
    #[verifier::external_body]
    pub(crate) fn upsert_goal(
        &mut self,
        id: i64,
        title: &str,
        description: &str,
        status: &str,
        progress: i64,
        target_date: &Option<String>,
        created_at: &str,
        updated_at: &str,
    ) -> (r: Result<(), StoreError>)
        ensures
            r matches Ok(_) ==> dml_ok(*old(self), *final(self)) && store_tables(*final(self))
                == store_tables(*old(self)).with_goals(
                store_tables(*old(self)).goals.insert(
                    id as int,
                    GoalData {
                        title: title@,
                        description: description@,
                        status: status@,
                        progress: progress as int,
                        target_date: spec_opt_view(*target_date),
                        created_at: created_at@,
                        updated_at: updated_at@,
                    },
                ),
            ),
            r is Err ==> dml_err(*old(self), *final(self)),
    {
        self.conn.execute(
            "INSERT INTO goals (id, title, description, status, progress, target_date, \
             created_at, updated_at) VALUES (?1, ?2, ?3, ?4, ?5, ?6, ?7, ?8) \
             ON CONFLICT(id) DO UPDATE SET title = excluded.title, \
             description = excluded.description, status = excluded.status, \
             progress = excluded.progress, target_date = excluded.target_date, \
             created_at = excluded.created_at, updated_at = excluded.updated_at",
            (id, title, description, status, progress, target_date.as_deref(), created_at,
                updated_at),
        ).map(|_| ()).map_err(|_| StoreError::QueryFailed)
    }

    /// Relies on rusqlite's `Connection::execute` over `DELETE FROM goals
    /// WHERE id = ?1`.
    #[verifier::external_body]
    pub(crate) fn delete_goal_row(&mut self, id: i64) -> (r: Result<(), StoreError>)
        ensures
            r matches Ok(_) ==> dml_ok(*old(self), *final(self)) && store_tables(*final(self))
                == store_tables(*old(self)).with_goals(
                store_tables(*old(self)).goals.remove(id as int),
            ),
            r is Err ==> dml_err(*old(self), *final(self)),
    {
        self.conn.execute("DELETE FROM goals WHERE id = ?1", (id,)).map(|_| ()).map_err(
            |_| StoreError::QueryFailed,
        )
    }

    /// Relies on rusqlite's `Connection::execute` over `DELETE FROM goals`.
    #[verifier::external_body]
    pub(crate) fn delete_all_goals(&mut self) -> (r: Result<(), StoreError>)
        ensures
            r matches Ok(_) ==> dml_ok(*old(self), *final(self)) && store_tables(*final(self))
                == store_tables(*old(self)).with_goals(Map::empty()),
            r is Err ==> dml_err(*old(self), *final(self)),
    {
        self.conn.execute("DELETE FROM goals", ()).map(|_| ()).map_err(
            |_| StoreError::QueryFailed,
        )
    }

    // ---- habits ----

    /// Relies on rusqlite's `Connection::prepare` and `Statement::query_map`
    /// over `SELECT ... FROM habits ORDER BY updated_at DESC`.
    #[verifier::external_body]
    pub(crate) fn select_habits(&self) -> (r: Result<Vec<Habit>, StoreError>)
        ensures
            r matches Ok(rows) ==> {
                &&& lists_table(habit_pairs(rows@), store_tables(*self).habits)
                &&& forall|i: int, j: int|
                    0 <= i < j < rows@.len() ==> lex_le(
                        (#[trigger] rows@[j]).updated_at@,
                        (#[trigger] rows@[i]).updated_at@,
                    )
            },
    {
        let mut stmt = self.conn.prepare(
            "SELECT id, title, description, target_per_week, color, created_at, updated_at \
             FROM habits ORDER BY updated_at DESC",
        ).map_err(|_| StoreError::QueryFailed)?;
        let rows = stmt.query_map((), |row| {
            Ok(Habit { id: row.get(0)?, title: row.get(1)?, description: row.get(2)?,
                target_per_week: row.get(3)?, color: row.get(4)?, created_at: row.get(5)?,
                updated_at: row.get(6)? })
        }).map_err(|_| StoreError::QueryFailed)?;
        rows.collect::<Result<Vec<_>, _>>().map_err(|_| StoreError::QueryFailed)
    }

    /// Relies on rusqlite's `Connection::query_row` over `SELECT ... FROM
    /// habits WHERE id = ?1`.
    #[verifier::external_body]
    pub(crate) fn get_habit_row(&self, id: i64) -> (r: Result<Option<Habit>, StoreError>)
        ensures
            r matches Ok(Some(h)) ==> store_tables(*self).habits.dom().contains(id as int)
                && h.data() == store_tables(*self).habits[id as int] && h.id == id,
            r matches Ok(None) ==> !store_tables(*self).habits.dom().contains(id as int),
    {
        self.conn.query_row(
            "SELECT id, title, description, target_per_week, color, created_at, updated_at \
             FROM habits WHERE id = ?1",
            (id,),
            |row| Ok(Habit { id: row.get(0)?, title: row.get(1)?, description: row.get(2)?,
                target_per_week: row.get(3)?, color: row.get(4)?, created_at: row.get(5)?,
                updated_at: row.get(6)? }),
        ).optional().map_err(|_| StoreError::QueryFailed)
    }

    /// Relies on rusqlite's `Connection::execute` over `INSERT INTO habits`
    /// and `last_insert_rowid`: inserts a fresh row and returns its
    /// engine-assigned identifier, which no existing row uses.
    #[verifier::external_body]
    pub(crate) fn insert_habit(
        &mut self,
        title: &str,
        description: &str,
        target_per_week: i64,
        color: &str,
        created_at: &str,
        updated_at: &str,
    ) -> (r: Result<i64, StoreError>)
        ensures
            r matches Ok(id) ==> dml_ok(*old(self), *final(self)) && !store_tables(
                *old(self),
            ).habits.dom().contains(id as int) && store_tables(*final(self)) == store_tables(
                *old(self),
            ).with_habits(
                store_tables(*old(self)).habits.insert(
                    id as int,
                    HabitData {
                        title: title@,
                        description: description@,
                        target_per_week: target_per_week as int,
                        color: color@,
                        created_at: created_at@,
                        updated_at: updated_at@,
                    },
                ),
            ),
            r is Err ==> dml_err(*old(self), *final(self)),
    {
        self.conn.execute(
            "INSERT INTO habits (title, description, target_per_week, color, created_at, \
             updated_at) VALUES (?1, ?2, ?3, ?4, ?5, ?6)",
            (title, description, target_per_week, color, created_at, updated_at),
        ).map_err(|_| StoreError::QueryFailed)?;
        Ok(self.conn.last_insert_rowid())
    }

    /// Relies on rusqlite's `Connection::execute` over `INSERT INTO habits
    /// ... ON CONFLICT(id) DO UPDATE`: writes the row at that identifier,
    /// inserting or overwriting all its fields.
    #[verifier::external_body]
    pub(crate) fn upsert_habit(
        &mut self,
        id: i64,
        title: &str,
        description: &str,
        target_per_week: i64,
        color: &str,
        created_at: &str,
        updated_at: &str,
    ) -> (r: Result<(), StoreError>)
        ensures
            r matches Ok(_) ==> dml_ok(*old(self), *final(self)) && store_tables(*final(self))
                == store_tables(*old(self)).with_habits(
                store_tables(*old(self)).habits.insert(
                    id as int,
                    HabitData {
                        title: title@,
                        description: description@,
                        target_per_week: target_per_week as int,
                        color: color@,
                        created_at: created_at@,
                        updated_at: updated_at@,
                    },
                ),
            ),
            r is Err ==> dml_err(*old(self), *final(self)),
    {
        self.conn.execute(
            "INSERT INTO habits (id, title, description, target_per_week, color, created_at, \
             updated_at) VALUES (?1, ?2, ?3, ?4, ?5, ?6, ?7) \
             ON CONFLICT(id) DO UPDATE SET title = excluded.title, \
             description = excluded.description, target_per_week = excluded.target_per_week, \
             color = excluded.color, created_at = excluded.created_at, \
             updated_at = excluded.updated_at",
            (id, title, description, target_per_week, color, created_at, updated_at),
        ).map(|_| ()).map_err(|_| StoreError::QueryFailed)
    }

    /// Relies on rusqlite's `Connection::execute` over `DELETE FROM habits
    /// WHERE id = ?1`.  The build links SQLite with foreign-key enforcement
    /// on, and habit_logs declares `ON DELETE CASCADE`, so deleting an
    /// existing habit also deletes the logs that reference it.
    #[verifier::external_body]
    pub(crate) fn delete_habit_row(&mut self, id: i64) -> (r: Result<(), StoreError>)
        ensures
            r matches Ok(_) ==> dml_ok(*old(self), *final(self)) && store_tables(*final(self))
                == store_tables(*old(self)).with_habits(
                store_tables(*old(self)).habits.remove(id as int),
            ).with_habit_logs(
                if store_tables(*old(self)).habits.dom().contains(id as int) {
                    store_tables(*old(self)).habit_logs.remove_keys(
                        Set::new(
                            |k: int|
                                store_tables(*old(self)).habit_logs.dom().contains(k)
                                    && store_tables(*old(self)).habit_logs[k].habit_id
                                    == id as int,
                        ),
                    )
                } else {
                    store_tables(*old(self)).habit_logs
                },
            ),
            r is Err ==> dml_err(*old(self), *final(self)),
    {
        self.conn.execute("DELETE FROM habits WHERE id = ?1", (id,)).map(|_| ()).map_err(
            |_| StoreError::QueryFailed,
        )
    }

    /// Relies on rusqlite's `Connection::execute` over `DELETE FROM habits`.
    /// The build links SQLite with foreign-key enforcement on, and
    /// habit_logs declares `ON DELETE CASCADE`, so the logs referencing any
    /// deleted habit are deleted with it.
    #[verifier::external_body]
    pub(crate) fn delete_all_habits(&mut self) -> (r: Result<(), StoreError>)
        ensures
            r matches Ok(_) ==> dml_ok(*old(self), *final(self)) && store_tables(*final(self))
                == store_tables(*old(self)).with_habits(Map::empty()).with_habit_logs(
                store_tables(*old(self)).habit_logs.remove_keys(
                    Set::new(
                        |k: int|
                            store_tables(*old(self)).habit_logs.dom().contains(k) && store_tables(
                                *old(self),
                            ).habits.dom().contains(
                                store_tables(*old(self)).habit_logs[k].habit_id,
                            ),
                    ),
                ),
            ),
            r is Err ==> dml_err(*old(self), *final(self)),
    {
        self.conn.execute("DELETE FROM habits", ()).map(|_| ()).map_err(
            |_| StoreError::QueryFailed,
        )
    }

    // ---- habit logs ----

    /// Relies on rusqlite's `Connection::prepare` and `Statement::query_map`
    /// over `SELECT ... FROM habit_logs`.
    #[verifier::external_body]
    pub(crate) fn select_logs(&self) -> (r: Result<Vec<HabitLog>, StoreError>)
        ensures
            r matches Ok(rows) ==> lists_table(log_pairs(rows@), store_tables(*self).habit_logs),
    {
        let mut stmt = self.conn.prepare(
            "SELECT id, habit_id, date, created_at FROM habit_logs",
        ).map_err(|_| StoreError::QueryFailed)?;
        let rows = stmt.query_map((), |row| {
            Ok(HabitLog { id: row.get(0)?, habit_id: row.get(1)?, date: row.get(2)?,
                created_at: row.get(3)? })
        }).map_err(|_| StoreError::QueryFailed)?;
        rows.collect::<Result<Vec<_>, _>>().map_err(|_| StoreError::QueryFailed)
    }

    /// Relies on rusqlite's `Connection::prepare` and `Statement::query_map`
    /// over `SELECT date FROM habit_logs WHERE habit_id = ?1 ORDER BY date
    /// DESC`: exactly the dates of that habit's logs, each once (the pair of
    /// habit and date is unique), newest first.
    #[verifier::external_body]
    pub(crate) fn select_log_dates(&self, habit_id: i64) -> (r: Result<Vec<String>, StoreError>)
        ensures
            r matches Ok(ds) ==> {
                &&& forall|i: int|
                    0 <= i < ds@.len() ==> exists|k: int|
                        #[trigger] store_tables(*self).habit_logs.dom().contains(k)
                            && store_tables(*self).habit_logs[k].habit_id == habit_id as int
                            && store_tables(*self).habit_logs[k].date == (#[trigger] ds@[i])@
                &&& forall|k: int|
                    store_tables(*self).habit_logs.dom().contains(k) && (#[trigger] store_tables(
                        *self,
                    ).habit_logs[k]).habit_id == habit_id as int ==> exists|i: int|
                        0 <= i < ds@.len() && ds@[i]@ == store_tables(*self).habit_logs[k].date
                &&& forall|i: int, j: int| 0 <= i < j < ds@.len() ==> ds@[i]@ != ds@[j]@
                &&& forall|i: int, j: int|
                    0 <= i < j < ds@.len() ==> lex_le((#[trigger] ds@[j])@, (#[trigger] ds@[i])@)
            },
    {
        let mut stmt = self.conn.prepare(
            "SELECT date FROM habit_logs WHERE habit_id = ?1 ORDER BY date DESC",
        ).map_err(|_| StoreError::QueryFailed)?;
        let rows = stmt.query_map((habit_id,), |row| row.get::<_, String>(0)).map_err(
            |_| StoreError::QueryFailed,
        )?;
        rows.collect::<Result<Vec<_>, _>>().map_err(|_| StoreError::QueryFailed)
    }

    /// Relies on rusqlite's `Connection::query_row` over `SELECT id FROM
    /// habit_logs WHERE habit_id = ?1 AND date = ?2` (that pair is unique).
    #[verifier::external_body]
    pub(crate) fn get_log_id(&self, habit_id: i64, date: &str) -> (r: Result<
        Option<i64>,
        StoreError,
    >)
        ensures
            r matches Ok(Some(id)) ==> store_tables(*self).habit_logs.dom().contains(id as int)
                && store_tables(*self).habit_logs[id as int].habit_id == habit_id as int
                && store_tables(*self).habit_logs[id as int].date == date@,
            r matches Ok(None) ==> forall|k: int|
                store_tables(*self).habit_logs.dom().contains(k) ==> !((#[trigger] store_tables(
                    *self,
                ).habit_logs[k]).habit_id == habit_id as int && store_tables(
                    *self,
                ).habit_logs[k].date == date@),
    {
        self.conn.query_row(
            "SELECT id FROM habit_logs WHERE habit_id = ?1 AND date = ?2",
            (habit_id, date),
            |row| row.get::<_, i64>(0),
        ).optional().map_err(|_| StoreError::QueryFailed)
    }

    /// Relies on rusqlite's `Connection::execute` over `INSERT INTO
    /// habit_logs` and `last_insert_rowid`: inserts a fresh row and returns
    /// its engine-assigned identifier.  The insert succeeds only when no
    /// other log already records the same habit on the same date, since that
    /// pair is declared unique.
    #[verifier::external_body]
    pub(crate) fn insert_log(
        &mut self,
        habit_id: i64,
        date: &str,
        created_at: &str,
    ) -> (r: Result<i64, StoreError>)
        ensures
            r matches Ok(id) ==> dml_ok(*old(self), *final(self)) && !store_tables(
                *old(self),
            ).habit_logs.dom().contains(id as int) && (forall|k: int|
                store_tables(*old(self)).habit_logs.dom().contains(k) ==> !((
                #[trigger] store_tables(*old(self)).habit_logs[k]).habit_id == habit_id as int
                    && store_tables(*old(self)).habit_logs[k].date == date@))
                && store_tables(*final(self)) == store_tables(*old(self)).with_habit_logs(
                store_tables(*old(self)).habit_logs.insert(
                    id as int,
                    LogData { habit_id: habit_id as int, date: date@, created_at: created_at@ },
                ),
            ),
            r is Err ==> dml_err(*old(self), *final(self)),
    {
        self.conn.execute(
            "INSERT INTO habit_logs (habit_id, date, created_at) VALUES (?1, ?2, ?3)",
            (habit_id, date, created_at),
        ).map_err(|_| StoreError::QueryFailed)?;
        Ok(self.conn.last_insert_rowid())
    }

    /// Relies on rusqlite's `Connection::execute` over `INSERT INTO
    /// habit_logs ... ON CONFLICT(id) DO UPDATE`: writes the row at that
    /// identifier.  It succeeds only when no other row records the same
    /// habit on the same date, since that pair is declared unique.
    #[verifier::external_body]
    pub(crate) fn upsert_log(
        &mut self,
        id: i64,
        habit_id: i64,
        date: &str,
        created_at: &str,
    ) -> (r: Result<(), StoreError>)
        ensures
            r matches Ok(_) ==> dml_ok(*old(self), *final(self)) && (forall|k: int|
                store_tables(*old(self)).habit_logs.dom().contains(k) && k != id as int ==> !((
                #[trigger] store_tables(*old(self)).habit_logs[k]).habit_id == habit_id as int
                    && store_tables(*old(self)).habit_logs[k].date == date@)) && store_tables(
                *final(self),
            ) == store_tables(*old(self)).with_habit_logs(
                store_tables(*old(self)).habit_logs.insert(
                    id as int,
                    LogData { habit_id: habit_id as int, date: date@, created_at: created_at@ },
                ),
            ),
            r is Err ==> dml_err(*old(self), *final(self)),
    {
        self.conn.execute(
            "INSERT INTO habit_logs (id, habit_id, date, created_at) VALUES (?1, ?2, ?3, ?4) \
             ON CONFLICT(id) DO UPDATE SET habit_id = excluded.habit_id, \
             date = excluded.date, created_at = excluded.created_at",
            (id, habit_id, date, created_at),
        ).map(|_| ()).map_err(|_| StoreError::QueryFailed)
    }

    /// Relies on rusqlite's `Connection::execute` over `DELETE FROM
    /// habit_logs WHERE habit_id = ?1 AND date = ?2`.
    #[verifier::external_body]
    pub(crate) fn delete_log_by_habit_date(&mut self, habit_id: i64, date: &str) -> (r: Result<
        (),
        StoreError,
    >)
        ensures
            r matches Ok(_) ==> dml_ok(*old(self), *final(self)) && store_tables(*final(self))
                == store_tables(*old(self)).with_habit_logs(
                store_tables(*old(self)).habit_logs.remove_keys(
                    Set::new(
                        |k: int|
                            store_tables(*old(self)).habit_logs.dom().contains(k) && store_tables(
                                *old(self),
                            ).habit_logs[k].habit_id == habit_id as int && store_tables(
                                *old(self),
                            ).habit_logs[k].date == date@,
                    ),
                ),
            ),
            r is Err ==> dml_err(*old(self), *final(self)),
    {
        self.conn.execute(
            "DELETE FROM habit_logs WHERE habit_id = ?1 AND date = ?2",
            (habit_id, date),
        ).map(|_| ()).map_err(|_| StoreError::QueryFailed)
    }

    /// Relies on rusqlite's `Connection::execute` over `DELETE FROM
    /// habit_logs WHERE habit_id = ?1`.
    #[verifier::external_body]
    pub(crate) fn delete_logs_by_habit(&mut self, habit_id: i64) -> (r: Result<(), StoreError>)
        ensures
            r matches Ok(_) ==> dml_ok(*old(self), *final(self)) && store_tables(*final(self))
                == store_tables(*old(self)).with_habit_logs(
                store_tables(*old(self)).habit_logs.remove_keys(
                    Set::new(
                        |k: int|
                            store_tables(*old(self)).habit_logs.dom().contains(k) && store_tables(
                                *old(self),
                            ).habit_logs[k].habit_id == habit_id as int,
                    ),
                ),
            ),
            r is Err ==> dml_err(*old(self), *final(self)),
    {
        self.conn.execute("DELETE FROM habit_logs WHERE habit_id = ?1", (habit_id,)).map(
            |_| (),
        ).map_err(|_| StoreError::QueryFailed)
    }

    /// Relies on rusqlite's `Connection::execute` over `DELETE FROM
    /// habit_logs`.
    #[verifier::external_body]
    pub(crate) fn delete_all_logs(&mut self) -> (r: Result<(), StoreError>)
        ensures
            r matches Ok(_) ==> dml_ok(*old(self), *final(self)) && store_tables(*final(self))
                == store_tables(*old(self)).with_habit_logs(Map::empty()),
            r is Err ==> dml_err(*old(self), *final(self)),
    {
        self.conn.execute("DELETE FROM habit_logs", ()).map(|_| ()).map_err(
            |_| StoreError::QueryFailed,
        )
    }

    // ---- schema statements (used by the migration runner only) ----

    /// Relies on rusqlite's `Connection::execute` over `CREATE TABLE IF NOT
    /// EXISTS schema_migrations`: after it, the version-tracking table
    /// exists; a table it just created is empty, an existing one is
    /// untouched.
    #[verifier::external_body]
    pub(crate) fn create_migrations_table(&mut self) -> (r: Result<(), StoreError>)
        ensures
            r matches Ok(_) ==> {
                &&& store_versions(*final(self)) == store_versions(*old(self))
                &&& txn_kept(*old(self), *final(self))
                &&& store_tables(*final(self)) == store_tables(*old(self))
                &&& store_schema(*final(self)) == SchemaModel {
                    migrations: true,
                    ..store_schema(*old(self))
                }
                &&& store_versions(*final(self)) == if store_schema(*old(self)).migrations {
                    store_versions(*old(self))
                } else {
                    Set::<int>::empty()
                }
                &&& store_versions(*final(self)).finite()
            },
            r is Err ==> dml_err(*old(self), *final(self)),
    {
        self.conn.execute(
            "CREATE TABLE IF NOT EXISTS schema_migrations \
             (version INTEGER PRIMARY KEY, applied_at TEXT NOT NULL)",
            (),
        ).map(|_| ()).map_err(|_| StoreError::QueryFailed)
    }

    /// Relies on rusqlite's `Connection::execute` over `CREATE TABLE IF NOT
    /// EXISTS entries`: after it, the entries table exists; a table it just
    /// created is empty, an existing one is untouched.
    #[verifier::external_body]
    pub(crate) fn create_entries_table(&mut self) -> (r: Result<(), StoreError>)
        ensures
            r matches Ok(_) ==> {
                &&& store_versions(*final(self)) == store_versions(*old(self))
                &&& txn_kept(*old(self), *final(self))
                &&& store_schema(*final(self)) == SchemaModel {
                    entries: true,
                    ..store_schema(*old(self))
                }
                &&& store_tables(*final(self)) == store_tables(*old(self)).with_entries(
                    if store_schema(*old(self)).entries {
                        store_tables(*old(self)).entries
                    } else {
                        Map::empty()
                    },
                )
            },
            r is Err ==> dml_err(*old(self), *final(self)),
    {
        self.conn.execute(
            "CREATE TABLE IF NOT EXISTS entries (id INTEGER PRIMARY KEY, \
             date TEXT NOT NULL UNIQUE, yesterday TEXT NOT NULL, today TEXT NOT NULL, \
             created_at TEXT NOT NULL)",
            (),
        ).map(|_| ()).map_err(|_| StoreError::QueryFailed)
    }

    /// Relies on rusqlite's `Connection::execute` over `CREATE TABLE IF NOT
    /// EXISTS pages`: after it, the pages table exists; a table it just
    /// created is empty, an existing one is untouched.
    #[verifier::external_body]
    pub(crate) fn create_pages_table(&mut self) -> (r: Result<(), StoreError>)
        ensures
            r matches Ok(_) ==> {
                &&& store_versions(*final(self)) == store_versions(*old(self))
                &&& txn_kept(*old(self), *final(self))
                &&& store_schema(*final(self)) == SchemaModel {
                    pages: true,
                    ..store_schema(*old(self))
                }
                &&& store_tables(*final(self)) == store_tables(*old(self)).with_pages(
                    if store_schema(*old(self)).pages {
                        store_tables(*old(self)).pages
                    } else {
                        Map::empty()
                    },
                )
            },
            r is Err ==> dml_err(*old(self), *final(self)),
    {
        self.conn.execute(
            "CREATE TABLE IF NOT EXISTS pages (id INTEGER PRIMARY KEY, title TEXT NOT NULL, \
             content TEXT NOT NULL, created_at TEXT NOT NULL, updated_at TEXT NOT NULL)",
            (),
        ).map(|_| ()).map_err(|_| StoreError::QueryFailed)
    }

    /// Relies on rusqlite's `Connection::execute` over `CREATE TABLE IF NOT
    /// EXISTS tasks`: after it, the tasks table exists with the base
    /// columns; a table it just created is empty, an existing one keeps its
    /// rows and columns.
    #[verifier::external_body]
    pub(crate) fn create_tasks_table(&mut self) -> (r: Result<(), StoreError>)
        ensures
            r matches Ok(_) ==> {
                &&& store_versions(*final(self)) == store_versions(*old(self))
                &&& txn_kept(*old(self), *final(self))
                &&& store_schema(*final(self)) == SchemaModel {
                    tasks: true,
                    task_cols: if store_schema(*old(self)).tasks {
                        store_schema(*old(self)).task_cols
                    } else {
                        base_task_columns()
                    },
                    ..store_schema(*old(self))
                }
                &&& store_tables(*final(self)) == store_tables(*old(self)).with_tasks(
                    if store_schema(*old(self)).tasks {
                        store_tables(*old(self)).tasks
                    } else {
                        Map::empty()
                    },
                )
            },
            r is Err ==> dml_err(*old(self), *final(self)),
    {
        self.conn.execute(
            "CREATE TABLE IF NOT EXISTS tasks (id INTEGER PRIMARY KEY, title TEXT NOT NULL, \
             description TEXT NOT NULL, status TEXT NOT NULL, created_at TEXT NOT NULL, \
             updated_at TEXT NOT NULL)",
            (),
        ).map(|_| ()).map_err(|_| StoreError::QueryFailed)
    }

    /// Relies on rusqlite's `Connection::execute` over `CREATE TABLE IF NOT
    /// EXISTS goals`: after it, the goals table exists; a table it just
    /// created is empty, an existing one is untouched.
    #[verifier::external_body]
    pub(crate) fn create_goals_table(&mut self) -> (r: Result<(), StoreError>)
        ensures
            r matches Ok(_) ==> {
                &&& store_versions(*final(self)) == store_versions(*old(self))
                &&& txn_kept(*old(self), *final(self))
                &&& store_schema(*final(self)) == SchemaModel {
                    goals: true,
                    ..store_schema(*old(self))
                }
                &&& store_tables(*final(self)) == store_tables(*old(self)).with_goals(
                    if store_schema(*old(self)).goals {
                        store_tables(*old(self)).goals
                    } else {
                        Map::empty()
                    },
                )
            },
            r is Err ==> dml_err(*old(self), *final(self)),
    {
        self.conn.execute(
            "CREATE TABLE IF NOT EXISTS goals (id INTEGER PRIMARY KEY, title TEXT NOT NULL, \
             description TEXT NOT NULL DEFAULT '', status TEXT NOT NULL DEFAULT 'active', \
             progress INTEGER NOT NULL DEFAULT 0, target_date TEXT, created_at TEXT NOT NULL, \
             updated_at TEXT NOT NULL)",
            (),
        ).map(|_| ()).map_err(|_| StoreError::QueryFailed)
    }

    /// Relies on rusqlite's `Connection::execute` over `CREATE TABLE IF NOT
    /// EXISTS habits`: after it, the habits table exists; a table it just
    /// created is empty, an existing one is untouched.
    #[verifier::external_body]
    pub(crate) fn create_habits_table(&mut self) -> (r: Result<(), StoreError>)
        ensures
            r matches Ok(_) ==> {
                &&& store_versions(*final(self)) == store_versions(*old(self))
                &&& txn_kept(*old(self), *final(self))
                &&& store_schema(*final(self)) == SchemaModel {
                    habits: true,
                    ..store_schema(*old(self))
                }
                &&& store_tables(*final(self)) == store_tables(*old(self)).with_habits(
                    if store_schema(*old(self)).habits {
                        store_tables(*old(self)).habits
                    } else {
                        Map::empty()
                    },
                )
            },
            r is Err ==> dml_err(*old(self), *final(self)),
    {
        self.conn.execute(
            "CREATE TABLE IF NOT EXISTS habits (id INTEGER PRIMARY KEY, title TEXT NOT NULL, \
             description TEXT NOT NULL DEFAULT '', target_per_week INTEGER NOT NULL DEFAULT 5, \
             color TEXT NOT NULL DEFAULT '#60a5fa', created_at TEXT NOT NULL, \
             updated_at TEXT NOT NULL)",
            (),
        ).map(|_| ()).map_err(|_| StoreError::QueryFailed)
    }

    /// Relies on rusqlite's `Connection::execute` over `CREATE TABLE IF NOT
    /// EXISTS habit_logs` (with the unique habit-and-date pair and the
    /// cascade foreign key): after it, the table exists; a table it just
    /// created is empty, an existing one is untouched.
    #[verifier::external_body]
    pub(crate) fn create_logs_table(&mut self) -> (r: Result<(), StoreError>)
        ensures
            r matches Ok(_) ==> {
                &&& store_versions(*final(self)) == store_versions(*old(self))
                &&& txn_kept(*old(self), *final(self))
                &&& store_schema(*final(self)) == SchemaModel {
                    habit_logs: true,
                    ..store_schema(*old(self))
                }
                &&& store_tables(*final(self)) == store_tables(*old(self)).with_habit_logs(
                    if store_schema(*old(self)).habit_logs {
                        store_tables(*old(self)).habit_logs
                    } else {
                        Map::empty()
                    },
                )
            },
            r is Err ==> dml_err(*old(self), *final(self)),
    {
        self.conn.execute(
            "CREATE TABLE IF NOT EXISTS habit_logs (id INTEGER PRIMARY KEY, \
             habit_id INTEGER NOT NULL, date TEXT NOT NULL, created_at TEXT NOT NULL, \
             UNIQUE(habit_id, date), \
             FOREIGN KEY(habit_id) REFERENCES habits(id) ON DELETE CASCADE)",
            (),
        ).map(|_| ()).map_err(|_| StoreError::QueryFailed)
    }

    /// Relies on SQLite's `pragma_table_info` through rusqlite's
    /// `Connection::query_row`: whether the tasks table has a column of that
    /// name (live introspection of the schema).  A missing table has no
    /// columns.
    #[verifier::external_body]
    pub(crate) fn has_task_column(&self, col: &str) -> (r: Result<bool, StoreError>)
        ensures
            r matches Ok(b) ==> b == (store_schema(*self).tasks && store_schema(
                *self,
            ).task_cols.contains(col@)),
    {
        self.conn.query_row(
            "SELECT EXISTS(SELECT 1 FROM pragma_table_info('tasks') WHERE name = ?1)",
            (col,),
            |row| row.get::<_, i64>(0),
        ).map(|v| v == 1).map_err(|_| StoreError::QueryFailed)
    }

    /// Relies on rusqlite's `Connection::execute` over `ALTER TABLE tasks
    /// ADD COLUMN`: adds the column under its declaration; it succeeds only
    /// on an existing table and a fresh column name.  The column name is
    /// spliced into the statement, so it is admitted only as a plain
    /// identifier, which the single statement then adds verbatim (a second
    /// statement in the text would fail the call).  What the tasks rows then
    /// hold is left open here; the other tables are untouched.
    #[verifier::external_body]
    pub(crate) fn add_task_column(&mut self, col: &str, decl: &str) -> (r: Result<(), StoreError>)
        requires
            sql_identifier(col@),
        ensures
            r matches Ok(_) ==> {
                &&& store_versions(*final(self)) == store_versions(*old(self))
                &&& txn_kept(*old(self), *final(self))
                &&& store_schema(*old(self)).tasks
                &&& !store_schema(*old(self)).task_cols.contains(col@)
                &&& store_tables(*final(self)).tasks.dom() == store_tables(*old(self)).tasks.dom()
                &&& store_schema(*final(self)) == SchemaModel {
                    task_cols: store_schema(*old(self)).task_cols.insert(col@),
                    ..store_schema(*old(self))
                }
                &&& store_tables(*final(self)).entries == store_tables(*old(self)).entries
                &&& store_tables(*final(self)).pages == store_tables(*old(self)).pages
                &&& store_tables(*final(self)).goals == store_tables(*old(self)).goals
                &&& store_tables(*final(self)).habits == store_tables(*old(self)).habits
                &&& store_tables(*final(self)).habit_logs == store_tables(*old(self)).habit_logs
            },
            r is Err ==> dml_err(*old(self), *final(self)),
    {
        let sql = format!("ALTER TABLE tasks ADD COLUMN {} {}", col, decl);
        self.conn.execute(&sql, ()).map(|_| ()).map_err(|_| StoreError::QueryFailed)
    }

    /// Relies on rusqlite's `Connection::execute` over `CREATE INDEX IF NOT
    /// EXISTS`: after it, an index of that name over the given columns
    /// exists.  Name, table and column list are spliced into the statement,
    /// so they are admitted only as plain identifiers (and an identifier
    /// list), which the single statement then uses verbatim.  An index never
    /// changes table contents.
    #[verifier::external_body]
    pub(crate) fn create_index(&mut self, name: &str, table: &str, cols: &str) -> (r: Result<(), StoreError>)
        requires
            sql_identifier(name@),
            sql_identifier(table@),
            sql_identifier_list(cols@),
        ensures
            r matches Ok(_) ==> store_tables(*final(self)) == store_tables(*old(self))
                && store_versions(*final(self)) == store_versions(*old(self)) && txn_kept(
                *old(self),
                *final(self),
            ) && store_schema(*final(self)) == (SchemaModel {
                indexes: store_schema(*old(self)).indexes.insert(name@),
                ..store_schema(*old(self))
            }),
            r is Err ==> dml_err(*old(self), *final(self)),
    {
        let sql = format!("CREATE INDEX IF NOT EXISTS {} ON {}({})", name, table, cols);
        self.conn.execute(&sql, ()).map(|_| ()).map_err(|_| StoreError::QueryFailed)
    }

    /// Relies on rusqlite's `Connection::query_row` over `SELECT
    /// EXISTS(SELECT 1 FROM schema_migrations WHERE version = ?1)`: whether
    /// that version is recorded as applied.
    #[verifier::external_body]
    pub(crate) fn version_applied(&self, version: i64) -> (r: Result<bool, StoreError>)
        requires
            store_schema(*self).migrations,
        ensures
            r matches Ok(b) ==> b == store_versions(*self).contains(version as int),
    {
        self.conn.query_row(
            "SELECT EXISTS(SELECT 1 FROM schema_migrations WHERE version = ?1)",
            (version,),
            |row| row.get::<_, i64>(0),
        ).map(|v| v == 1).map_err(|_| StoreError::QueryFailed)
    }

    /// Relies on rusqlite's `Connection::execute` over `INSERT INTO
    /// schema_migrations`: records a version as applied, with its timestamp.
    #[verifier::external_body]
    pub(crate) fn record_version(&mut self, version: i64, applied_at: &str) -> (r: Result<
        (),
        StoreError,
    >)
        requires
            store_schema(*old(self)).migrations,
        ensures
            r matches Ok(_) ==> store_tables(*final(self)) == store_tables(*old(self))
                && store_schema(*final(self)) == store_schema(*old(self)) && txn_kept(
                *old(self),
                *final(self),
            ) && store_versions(*final(self)) == store_versions(*old(self)).insert(
                version as int,
            ),
            r is Err ==> dml_err(*old(self), *final(self)),
    {
        self.conn.execute(
            "INSERT INTO schema_migrations (version, applied_at) VALUES (?1, ?2)",
            (version, applied_at),
        ).map(|_| ()).map_err(|_| StoreError::QueryFailed)
    }
}

/// The columns the tasks table is first created with.
pub open spec fn base_task_columns() -> Set<Seq<char>> {
    set!["id"@, "title"@, "description"@, "status"@, "created_at"@, "updated_at"@]
}

} // verus!
