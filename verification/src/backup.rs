use vstd::prelude::*;
use crate::error::StoreError;
use crate::store::{
    Store, store_tables, store_in_txn, store_txn_base, store_txn_schema, store_txn_versions,
    store_schema, store_versions, entry_pairs, page_pairs, task_pairs, goal_pairs, habit_pairs,
    log_pairs,
};
use crate::model::{StoreModel, pairs_map_onto, keys_distinct, lemma_pairs_map_index, model_wf};
use crate::records::{
    EntryData, PageData, TaskData, GoalData, HabitData, LogData, task_data_wf, goal_data_wf,
    habit_data_wf, log_data_wf,
};
use crate::norm::{
    spec_normalize_status, spec_normalize_priority, spec_normalize_time_estimate,
    spec_normalize_accumulated, spec_normalize_goal_status, spec_normalize_progress,
    spec_normalize_target_per_week, spec_normalize_habit_color, spec_opt_view, spec_opt_i64,
    normalize_status, normalize_priority, normalize_time_estimate_minutes,
    normalize_accumulated_seconds, normalize_goal_status, normalize_progress,
    normalize_target_per_week, normalize_habit_color,
};
use crate::dates::{Date, valid_date, spec_normalize_habit_date, normalize_habit_date};
use crate::tasks::{fold_elapsed, timer_elapsed, spec_sat_add};
use crate::clock::{now_rfc3339, rfc3339_unix};
use crate::util::str_eq;

verus! {

// The backup importer and exporter: a full snapshot of the six entity
// tables, applied by upsert inside one all-or-nothing transaction.

/// A full data snapshot; any entity list may be empty.
#[derive(Debug, Clone, PartialEq, Eq)]
pub struct BackupPayload {
    pub entries: Vec<BackupEntryInput>,
    pub pages: Vec<BackupPageInput>,
    pub tasks: Vec<BackupTaskInput>,
    pub goals: Vec<BackupGoalInput>,
    pub habits: Vec<BackupHabitInput>,
    pub habit_logs: Vec<BackupHabitLogInput>,
}

#[derive(Debug, Clone, PartialEq, Eq)]
pub struct BackupEntryInput {
    pub date: String,
    pub yesterday: String,
    pub today: String,
    pub created_at: Option<String>,
}

#[derive(Debug, Clone, PartialEq, Eq)]
pub struct BackupPageInput {
    pub id: Option<i64>,
    pub title: String,
    pub content: String,
    pub created_at: Option<String>,
    pub updated_at: Option<String>,
}

#[derive(Debug, Clone, PartialEq, Eq)]
pub struct BackupTaskInput {
    pub id: Option<i64>,
    pub title: String,
    pub description: String,
    pub status: String,
    pub priority: Option<String>,
    pub due_date: Option<String>,
    pub completed_at: Option<String>,
    pub time_estimate_minutes: Option<i64>,
    pub timer_started_at: Option<String>,
    pub timer_accumulated_seconds: Option<i64>,
    pub created_at: Option<String>,
    pub updated_at: Option<String>,
}

#[derive(Debug, Clone, PartialEq, Eq)]
pub struct BackupGoalInput {
    pub id: Option<i64>,
    pub title: String,
    pub description: Option<String>,
    pub status: Option<String>,
    pub progress: Option<i64>,
    pub target_date: Option<String>,
    pub created_at: Option<String>,
    pub updated_at: Option<String>,
}

#[derive(Debug, Clone, PartialEq, Eq)]
pub struct BackupHabitInput {
    pub id: Option<i64>,
    pub title: String,
    pub description: Option<String>,
    pub target_per_week: Option<i64>,
    pub color: Option<String>,
    pub created_at: Option<String>,
    pub updated_at: Option<String>,
}

#[derive(Debug, Clone, PartialEq, Eq)]
pub struct BackupHabitLogInput {
    pub id: Option<i64>,
    pub habit_id: i64,
    pub date: String,
    pub created_at: Option<String>,
}

// ---- what importing a snapshot record means, over the ghost model ----

pub open spec fn entry_import_pair(e: BackupEntryInput) -> (Seq<char>, EntryData) {
    (
        e.date@,
        EntryData { yesterday: e.yesterday@, today: e.today@, created_at: (e.created_at->0)@ },
    )
}

pub open spec fn entry_import_pairs(s: Seq<BackupEntryInput>) -> Seq<(Seq<char>, EntryData)> {
    s.map_values(|e: BackupEntryInput| entry_import_pair(e))
}

pub open spec fn page_import_pair(p: BackupPageInput) -> (int, PageData) {
    (
        (p.id->0) as int,
        PageData {
            title: p.title@,
            content: p.content@,
            created_at: (p.created_at->0)@,
            updated_at: if p.updated_at is Some {
                (p.updated_at->0)@
            } else {
                (p.created_at->0)@
            },
        },
    )
}

pub open spec fn page_import_pairs(s: Seq<BackupPageInput>) -> Seq<(int, PageData)> {
    s.map_values(|p: BackupPageInput| page_import_pair(p))
}

pub open spec fn task_import_pair(t: BackupTaskInput) -> (int, TaskData) {
    let status = spec_normalize_status(t.status@);
    let updated = if t.updated_at is Some {
        (t.updated_at->0)@
    } else {
        (t.created_at->0)@
    };
    (
        (t.id->0) as int,
        TaskData {
            title: t.title@,
            description: t.description@,
            status: status,
            priority: spec_normalize_priority(spec_opt_view(t.priority)),
            due_date: spec_opt_view(t.due_date),
            completed_at: if status == "done"@ {
                Some(
                    if t.completed_at is Some {
                        (t.completed_at->0)@
                    } else {
                        updated
                    },
                )
            } else {
                None
            },
            time_estimate_minutes: spec_normalize_time_estimate(
                spec_opt_i64(t.time_estimate_minutes),
            ),
            timer_started_at: if status == "done"@ {
                None
            } else {
                spec_opt_view(t.timer_started_at)
            },
            timer_accumulated_seconds: spec_normalize_accumulated(
                spec_opt_i64(t.timer_accumulated_seconds),
            ),
            created_at: (t.created_at->0)@,
            updated_at: updated,
        },
    )
}

pub open spec fn task_import_pairs(s: Seq<BackupTaskInput>) -> Seq<(int, TaskData)> {
    s.map_values(|t: BackupTaskInput| task_import_pair(t))
}

pub open spec fn goal_import_pair(g: BackupGoalInput) -> (int, GoalData) {
    let status = spec_normalize_goal_status(spec_opt_view(g.status));
    (
        (g.id->0) as int,
        GoalData {
            title: g.title@,
            description: if g.description is Some {
                (g.description->0)@
            } else {
                Seq::empty()
            },
            status: status,
            progress: if status == "completed"@ {
                100int
            } else {
                spec_normalize_progress(spec_opt_i64(g.progress))
            },
            target_date: spec_opt_view(g.target_date),
            created_at: (g.created_at->0)@,
            updated_at: if g.updated_at is Some {
                (g.updated_at->0)@
            } else {
                (g.created_at->0)@
            },
        },
    )
}

pub open spec fn goal_import_pairs(s: Seq<BackupGoalInput>) -> Seq<(int, GoalData)> {
    s.map_values(|g: BackupGoalInput| goal_import_pair(g))
}

pub open spec fn habit_import_pair(h: BackupHabitInput) -> (int, HabitData) {
    (
        (h.id->0) as int,
        HabitData {
            title: h.title@,
            description: if h.description is Some {
                (h.description->0)@
            } else {
                Seq::empty()
            },
            target_per_week: spec_normalize_target_per_week(spec_opt_i64(h.target_per_week)),
            color: spec_normalize_habit_color(spec_opt_view(h.color)),
            created_at: (h.created_at->0)@,
            updated_at: if h.updated_at is Some {
                (h.updated_at->0)@
            } else {
                (h.created_at->0)@
            },
        },
    )
}

pub open spec fn habit_import_pairs(s: Seq<BackupHabitInput>) -> Seq<(int, HabitData)> {
    s.map_values(|h: BackupHabitInput| habit_import_pair(h))
}

pub open spec fn log_import_pair(l: BackupHabitLogInput, today: Date) -> (int, LogData) {
    (
        (l.id->0) as int,
        LogData {
            habit_id: l.habit_id as int,
            date: spec_normalize_habit_date(l.date@, today),
            created_at: (l.created_at->0)@,
        },
    )
}

pub open spec fn log_import_pairs(s: Seq<BackupHabitLogInput>, today: Date) -> Seq<(int, LogData)> {
    s.map_values(|l: BackupHabitLogInput| log_import_pair(l, today))
}

/// The model an import leaves behind: every record of the snapshot written
/// over the base, in order, under the repository normalization rules.
pub open spec fn apply_payload(base: StoreModel, p: BackupPayload, today: Date) -> StoreModel {
    StoreModel {
        entries: pairs_map_onto(base.entries, entry_import_pairs(p.entries@)),
        pages: pairs_map_onto(base.pages, page_import_pairs(p.pages@)),
        tasks: pairs_map_onto(base.tasks, task_import_pairs(p.tasks@)),
        goals: pairs_map_onto(base.goals, goal_import_pairs(p.goals@)),
        habits: pairs_map_onto(base.habits, habit_import_pairs(p.habits@)),
        habit_logs: pairs_map_onto(base.habit_logs, log_import_pairs(p.habit_logs@, today)),
    }
}

// ---- what one import pass leaves behind, for every snapshot: records are
// written in order; a missing creation stamp defaults to the processing
// timestamp, a missing update stamp to the resolved creation stamp; records
// without an identifier are written at fresh keys the engine assigns ----

pub open spec fn entry_applied_data(e: BackupEntryInput, now: Seq<char>) -> EntryData {
    EntryData {
        yesterday: e.yesterday@,
        today: e.today@,
        created_at: if e.created_at is Some {
            (e.created_at->0)@
        } else {
            now
        },
    }
}

pub open spec fn entries_applied(
    base: Map<Seq<char>, EntryData>,
    items: Seq<BackupEntryInput>,
    now: Seq<char>,
) -> Map<Seq<char>, EntryData>
    decreases items.len(),
{
    if items.len() == 0 {
        base
    } else {
        entries_applied(base, items.drop_last(), now).insert(
            items.last().date@,
            entry_applied_data(items.last(), now),
        )
    }
}

pub open spec fn page_applied_data(p: BackupPageInput, now: Seq<char>) -> PageData {
    let created = if p.created_at is Some {
        (p.created_at->0)@
    } else {
        now
    };
    PageData {
        title: p.title@,
        content: p.content@,
        created_at: created,
        updated_at: if p.updated_at is Some {
            (p.updated_at->0)@
        } else {
            created
        },
    }
}

pub open spec fn pages_applied(
    base: Map<int, PageData>,
    items: Seq<BackupPageInput>,
    ids: Seq<int>,
    now: Seq<char>,
) -> Map<int, PageData>
    decreases items.len(),
{
    if items.len() == 0 {
        base
    } else {
        let key = if items.last().id is Some {
            (items.last().id->0) as int
        } else {
            ids.last()
        };
        pages_applied(base, items.drop_last(), ids.drop_last(), now).insert(
            key,
            page_applied_data(items.last(), now),
        )
    }
}

/// The engine-assigned keys of the identifier-less records are fresh: each
/// is absent from the table as it stood when that record was written.
pub open spec fn page_ids_fresh(
    base: Map<int, PageData>,
    items: Seq<BackupPageInput>,
    ids: Seq<int>,
    now: Seq<char>,
) -> bool {
    forall|i: int|
        0 <= i < items.len() && (#[trigger] items[i]).id is None ==> !pages_applied(
            base,
            items.take(i),
            ids.take(i),
            now,
        ).dom().contains(ids[i])
}

pub open spec fn task_applied_data(t: BackupTaskInput, now: Seq<char>, e: int) -> TaskData {
    let status = spec_normalize_status(t.status@);
    let created = if t.created_at is Some {
        (t.created_at->0)@
    } else {
        now
    };
    let updated = if t.updated_at is Some {
        (t.updated_at->0)@
    } else {
        created
    };
    let acc = spec_normalize_accumulated(spec_opt_i64(t.timer_accumulated_seconds));
    TaskData {
        title: t.title@,
        description: t.description@,
        status: status,
        priority: spec_normalize_priority(spec_opt_view(t.priority)),
        due_date: spec_opt_view(t.due_date),
        completed_at: if status == "done"@ {
            Some(
                if t.completed_at is Some {
                    (t.completed_at->0)@
                } else {
                    updated
                },
            )
        } else {
            None
        },
        time_estimate_minutes: spec_normalize_time_estimate(spec_opt_i64(t.time_estimate_minutes)),
        timer_started_at: if status == "done"@ {
            None
        } else {
            spec_opt_view(t.timer_started_at)
        },
        timer_accumulated_seconds: if status == "done"@ {
            spec_sat_add(acc, e)
        } else {
            acc
        },
        created_at: created,
        updated_at: updated,
    }
}

pub open spec fn tasks_applied(
    base: Map<int, TaskData>,
    items: Seq<BackupTaskInput>,
    ids: Seq<int>,
    es: Seq<int>,
    now: Seq<char>,
) -> Map<int, TaskData>
    decreases items.len(),
{
    if items.len() == 0 {
        base
    } else {
        let key = if items.last().id is Some {
            (items.last().id->0) as int
        } else {
            ids.last()
        };
        tasks_applied(base, items.drop_last(), ids.drop_last(), es.drop_last(), now).insert(
            key,
            task_applied_data(items.last(), now, es.last()),
        )
    }
}

pub open spec fn task_ids_fresh(
    base: Map<int, TaskData>,
    items: Seq<BackupTaskInput>,
    ids: Seq<int>,
    es: Seq<int>,
    now: Seq<char>,
) -> bool {
    forall|i: int|
        0 <= i < items.len() && (#[trigger] items[i]).id is None ==> !tasks_applied(
            base,
            items.take(i),
            ids.take(i),
            es.take(i),
            now,
        ).dom().contains(ids[i])
}

/// The witnessed elapsed seconds of a task pass: non-negative, and zero
/// wherever no running timer is folded (the record is not imported done,
/// its timer is stopped, or its start stamp does not parse).
pub open spec fn task_es_ok(items: Seq<BackupTaskInput>, es: Seq<int>) -> bool {
    forall|i: int|
        0 <= i < items.len() ==> 0 <= #[trigger] es[i] && ((spec_normalize_status(
            items[i].status@,
        ) != "done"@ || items[i].timer_started_at is None || rfc3339_unix(
            (items[i].timer_started_at->0)@,
        ) is None) ==> es[i] == 0)
}

pub open spec fn goal_applied_data(g: BackupGoalInput, now: Seq<char>) -> GoalData {
    let status = spec_normalize_goal_status(spec_opt_view(g.status));
    let created = if g.created_at is Some {
        (g.created_at->0)@
    } else {
        now
    };
    GoalData {
        title: g.title@,
        description: if g.description is Some {
            (g.description->0)@
        } else {
            Seq::empty()
        },
        status: status,
        progress: if status == "completed"@ {
            100int
        } else {
            spec_normalize_progress(spec_opt_i64(g.progress))
        },
        target_date: spec_opt_view(g.target_date),
        created_at: created,
        updated_at: if g.updated_at is Some {
            (g.updated_at->0)@
        } else {
            created
        },
    }
}

pub open spec fn goals_applied(
    base: Map<int, GoalData>,
    items: Seq<BackupGoalInput>,
    ids: Seq<int>,
    now: Seq<char>,
) -> Map<int, GoalData>
    decreases items.len(),
{
    if items.len() == 0 {
        base
    } else {
        let key = if items.last().id is Some {
            (items.last().id->0) as int
        } else {
            ids.last()
        };
        goals_applied(base, items.drop_last(), ids.drop_last(), now).insert(
            key,
            goal_applied_data(items.last(), now),
        )
    }
}

pub open spec fn goal_ids_fresh(
    base: Map<int, GoalData>,
    items: Seq<BackupGoalInput>,
    ids: Seq<int>,
    now: Seq<char>,
) -> bool {
    forall|i: int|
        0 <= i < items.len() && (#[trigger] items[i]).id is None ==> !goals_applied(
            base,
            items.take(i),
            ids.take(i),
            now,
        ).dom().contains(ids[i])
}

pub open spec fn habit_applied_data(h: BackupHabitInput, now: Seq<char>) -> HabitData {
    let created = if h.created_at is Some {
        (h.created_at->0)@
    } else {
        now
    };
    HabitData {
        title: h.title@,
        description: if h.description is Some {
            (h.description->0)@
        } else {
            Seq::empty()
        },
        target_per_week: spec_normalize_target_per_week(spec_opt_i64(h.target_per_week)),
        color: spec_normalize_habit_color(spec_opt_view(h.color)),
        created_at: created,
        updated_at: if h.updated_at is Some {
            (h.updated_at->0)@
        } else {
            created
        },
    }
}

pub open spec fn habits_applied(
    base: Map<int, HabitData>,
    items: Seq<BackupHabitInput>,
    ids: Seq<int>,
    now: Seq<char>,
) -> Map<int, HabitData>
    decreases items.len(),
{
    if items.len() == 0 {
        base
    } else {
        let key = if items.last().id is Some {
            (items.last().id->0) as int
        } else {
            ids.last()
        };
        habits_applied(base, items.drop_last(), ids.drop_last(), now).insert(
            key,
            habit_applied_data(items.last(), now),
        )
    }
}

pub open spec fn habit_ids_fresh(
    base: Map<int, HabitData>,
    items: Seq<BackupHabitInput>,
    ids: Seq<int>,
    now: Seq<char>,
) -> bool {
    forall|i: int|
        0 <= i < items.len() && (#[trigger] items[i]).id is None ==> !habits_applied(
            base,
            items.take(i),
            ids.take(i),
            now,
        ).dom().contains(ids[i])
}

pub open spec fn log_applied_data(l: BackupHabitLogInput, now: Seq<char>, today: Date) -> LogData {
    LogData {
        habit_id: l.habit_id as int,
        date: spec_normalize_habit_date(l.date@, today),
        created_at: if l.created_at is Some {
            (l.created_at->0)@
        } else {
            now
        },
    }
}

pub open spec fn logs_applied(
    base: Map<int, LogData>,
    items: Seq<BackupHabitLogInput>,
    ids: Seq<int>,
    now: Seq<char>,
    today: Date,
) -> Map<int, LogData>
    decreases items.len(),
{
    if items.len() == 0 {
        base
    } else {
        let key = if items.last().id is Some {
            (items.last().id->0) as int
        } else {
            ids.last()
        };
        logs_applied(base, items.drop_last(), ids.drop_last(), now, today).insert(
            key,
            log_applied_data(items.last(), now, today),
        )
    }
}

/// The keys of the identifier-less log records: each is either the one
/// existing log of the same habit and normalized date (which the record then
/// overwrites) or a fresh key when no such log exists.
pub open spec fn log_ids_ok(
    base: Map<int, LogData>,
    items: Seq<BackupHabitLogInput>,
    ids: Seq<int>,
    now: Seq<char>,
    today: Date,
) -> bool {
    forall|i: int|
        0 <= i < items.len() && (#[trigger] items[i]).id is None ==> {
            let prev = logs_applied(base, items.take(i), ids.take(i), now, today);
            let nd = spec_normalize_habit_date(items[i].date@, today);
            let h = items[i].habit_id as int;
            ||| (prev.dom().contains(ids[i]) && prev[ids[i]].habit_id == h && prev[ids[i]].date
                == nd)
            ||| (!prev.dom().contains(ids[i]) && (forall|k: int|
                prev.dom().contains(k) ==> !((#[trigger] prev[k]).habit_id == h && prev[k].date
                    == nd)))
        }
}

// ---- the snapshots whose import outcome the contract pins down exactly:
// every record carries its identifier and its stamps, and no task claims to
// be done with its timer still running ----

pub open spec fn entries_ready(s: Seq<BackupEntryInput>) -> bool {
    forall|i: int| 0 <= i < s.len() ==> (#[trigger] s[i]).created_at is Some
}

pub open spec fn pages_ready(s: Seq<BackupPageInput>) -> bool {
    forall|i: int| 0 <= i < s.len() ==> (#[trigger] s[i]).id is Some && s[i].created_at is Some
}

pub open spec fn tasks_ready(s: Seq<BackupTaskInput>) -> bool {
    forall|i: int|
        0 <= i < s.len() ==> {
            &&& (#[trigger] s[i]).id is Some
            &&& s[i].created_at is Some
            &&& s[i].priority is Some
            &&& s[i].time_estimate_minutes is Some
            &&& s[i].timer_accumulated_seconds is Some
            &&& (spec_normalize_status(s[i].status@) == "done"@ ==> s[i].timer_started_at is None
                && s[i].completed_at is Some)
        }
}

pub open spec fn goals_ready(s: Seq<BackupGoalInput>) -> bool {
    forall|i: int|
        0 <= i < s.len() ==> (#[trigger] s[i]).id is Some && s[i].created_at is Some
            && s[i].description is Some && s[i].status is Some && s[i].progress is Some
}

pub open spec fn habits_ready(s: Seq<BackupHabitInput>) -> bool {
    forall|i: int|
        0 <= i < s.len() ==> (#[trigger] s[i]).id is Some && s[i].created_at is Some
            && s[i].description is Some && s[i].target_per_week is Some && s[i].color is Some
}

pub open spec fn logs_ready(s: Seq<BackupHabitLogInput>) -> bool {
    forall|i: int| 0 <= i < s.len() ==> (#[trigger] s[i]).id is Some && s[i].created_at is Some
}

pub open spec fn payload_ready(p: BackupPayload) -> bool {
    &&& entries_ready(p.entries@)
    &&& pages_ready(p.pages@)
    &&& tasks_ready(p.tasks@)
    &&& goals_ready(p.goals@)
    &&& habits_ready(p.habits@)
    &&& logs_ready(p.habit_logs@)
}

/// Every record of the snapshot carries its update stamp (journal entries
/// and habit logs have none to carry).
pub open spec fn payload_fully_stamped(p: BackupPayload) -> bool {
    &&& forall|i: int| 0 <= i < p.pages@.len() ==> (#[trigger] p.pages@[i]).updated_at is Some
    &&& forall|i: int| 0 <= i < p.tasks@.len() ==> (#[trigger] p.tasks@[i]).updated_at is Some
    &&& forall|i: int| 0 <= i < p.goals@.len() ==> (#[trigger] p.goals@[i]).updated_at is Some
    &&& forall|i: int| 0 <= i < p.habits@.len() ==> (#[trigger] p.habits@[i]).updated_at is Some
}

/// The snapshot lists exactly the store's contents, identifiers and stamps
/// included, with no repeated keys.
pub open spec fn payload_lists(p: BackupPayload, m: StoreModel) -> bool {
    &&& payload_ready(p)
    &&& payload_fully_stamped(p)
    &&& keys_distinct(entry_import_pairs(p.entries@))
    &&& pairs_map_onto(Map::<Seq<char>, EntryData>::empty(), entry_import_pairs(p.entries@))
        == m.entries
    &&& keys_distinct(page_import_pairs(p.pages@))
    &&& pairs_map_onto(Map::<int, PageData>::empty(), page_import_pairs(p.pages@)) == m.pages
    &&& keys_distinct(raw_task_pairs(p.tasks@))
    &&& pairs_map_onto(Map::<int, TaskData>::empty(), raw_task_pairs(p.tasks@)) == m.tasks
    &&& keys_distinct(raw_goal_pairs(p.goals@))
    &&& pairs_map_onto(Map::<int, GoalData>::empty(), raw_goal_pairs(p.goals@)) == m.goals
    &&& keys_distinct(raw_habit_pairs(p.habits@))
    &&& pairs_map_onto(Map::<int, HabitData>::empty(), raw_habit_pairs(p.habits@)) == m.habits
    &&& keys_distinct(raw_log_pairs(p.habit_logs@))
    &&& pairs_map_onto(Map::<int, LogData>::empty(), raw_log_pairs(p.habit_logs@)) == m.habit_logs
}

// What a snapshot record says verbatim, before any normalization: what the
// exporter writes.

pub open spec fn raw_task_pair(t: BackupTaskInput) -> (int, TaskData) {
    (
        (t.id->0) as int,
        TaskData {
            title: t.title@,
            description: t.description@,
            status: t.status@,
            priority: ((t.priority)->0)@,
            due_date: spec_opt_view(t.due_date),
            completed_at: spec_opt_view(t.completed_at),
            time_estimate_minutes: (t.time_estimate_minutes->0) as int,
            timer_started_at: spec_opt_view(t.timer_started_at),
            timer_accumulated_seconds: (t.timer_accumulated_seconds->0) as int,
            created_at: (t.created_at->0)@,
            updated_at: (t.updated_at->0)@,
        },
    )
}

pub open spec fn raw_task_pairs(s: Seq<BackupTaskInput>) -> Seq<(int, TaskData)> {
    s.map_values(|t: BackupTaskInput| raw_task_pair(t))
}

pub open spec fn raw_goal_pair(g: BackupGoalInput) -> (int, GoalData) {
    (
        (g.id->0) as int,
        GoalData {
            title: g.title@,
            description: (g.description->0)@,
            status: (g.status->0)@,
            progress: (g.progress->0) as int,
            target_date: spec_opt_view(g.target_date),
            created_at: (g.created_at->0)@,
            updated_at: if g.updated_at is Some {
                (g.updated_at->0)@
            } else {
                (g.created_at->0)@
            },
        },
    )
}

pub open spec fn raw_goal_pairs(s: Seq<BackupGoalInput>) -> Seq<(int, GoalData)> {
    s.map_values(|g: BackupGoalInput| raw_goal_pair(g))
}

pub open spec fn raw_habit_pair(h: BackupHabitInput) -> (int, HabitData) {
    (
        (h.id->0) as int,
        HabitData {
            title: h.title@,
            description: (h.description->0)@,
            target_per_week: (h.target_per_week->0) as int,
            color: (h.color->0)@,
            created_at: (h.created_at->0)@,
            updated_at: (h.updated_at->0)@,
        },
    )
}

pub open spec fn raw_habit_pairs(s: Seq<BackupHabitInput>) -> Seq<(int, HabitData)> {
    s.map_values(|h: BackupHabitInput| raw_habit_pair(h))
}

pub open spec fn raw_log_pair(l: BackupHabitLogInput) -> (int, LogData) {
    (
        (l.id->0) as int,
        LogData { habit_id: l.habit_id as int, date: l.date@, created_at: (l.created_at->0)@ },
    )
}

pub open spec fn raw_log_pairs(s: Seq<BackupHabitLogInput>) -> Seq<(int, LogData)> {
    s.map_values(|l: BackupHabitLogInput| raw_log_pair(l))
}

// ---- export: list-all across the six entities ----

fn export_entries(store: &Store) -> (r: Result<Vec<BackupEntryInput>, StoreError>)
    ensures
        r matches Ok(v) ==> {
            &&& entries_ready(v@)
            &&& keys_distinct(entry_import_pairs(v@))
            &&& pairs_map_onto(Map::<Seq<char>, EntryData>::empty(), entry_import_pairs(v@))
                == store_tables(*store).entries
        },
{
    let rows = match store.select_entries() {
        Ok(v) => v,
        Err(e) => {
            return Err(e);
        },
    };
    let mut out: Vec<BackupEntryInput> = Vec::new();
    let n = rows.len();
    let mut i: usize = 0;
    while i < n
        invariant
            n == rows@.len(),
            out@.len() == i,
            i <= n,
            forall|j: int|
                0 <= j < i ==> entry_import_pair(#[trigger] out@[j]) == entry_pairs(rows@)[j]
                    && out@[j].created_at is Some,
        decreases n - i,
    {
        let e = &rows[i];
        out.push(
            BackupEntryInput {
                date: e.date.clone(),
                yesterday: e.yesterday.clone(),
                today: e.today.clone(),
                created_at: Some(e.created_at.clone()),
            },
        );
        i = i + 1;
    }
    proof {
        assert(entry_import_pairs(out@) =~= entry_pairs(rows@));
    }
    Ok(out)
}

fn export_pages(store: &Store) -> (r: Result<Vec<BackupPageInput>, StoreError>)
    ensures
        r matches Ok(v) ==> {
            &&& pages_ready(v@)
            &&& forall|j: int| 0 <= j < v@.len() ==> (#[trigger] v@[j]).updated_at is Some
            &&& keys_distinct(page_import_pairs(v@))
            &&& pairs_map_onto(Map::<int, PageData>::empty(), page_import_pairs(v@))
                == store_tables(*store).pages
        },
{
    let rows = match store.select_pages() {
        Ok(v) => v,
        Err(e) => {
            return Err(e);
        },
    };
    let mut out: Vec<BackupPageInput> = Vec::new();
    let n = rows.len();
    let mut i: usize = 0;
    while i < n
        invariant
            n == rows@.len(),
            out@.len() == i,
            i <= n,
            forall|j: int|
                0 <= j < i ==> page_import_pair(#[trigger] out@[j]) == page_pairs(rows@)[j]
                    && out@[j].id is Some && out@[j].created_at is Some && out@[j].updated_at
                    is Some,
        decreases n - i,
    {
        let p = &rows[i];
        out.push(
            BackupPageInput {
                id: Some(p.id),
                title: p.title.clone(),
                content: p.content.clone(),
                created_at: Some(p.created_at.clone()),
                updated_at: Some(p.updated_at.clone()),
            },
        );
        i = i + 1;
    }
    proof {
        assert(page_import_pairs(out@) =~= page_pairs(rows@));
    }
    Ok(out)
}

fn export_tasks(store: &Store) -> (r: Result<Vec<BackupTaskInput>, StoreError>)
    ensures
        r matches Ok(v) ==> {
            &&& keys_distinct(raw_task_pairs(v@))
            &&& pairs_map_onto(Map::<int, TaskData>::empty(), raw_task_pairs(v@)) == store_tables(
                *store,
            ).tasks
            &&& forall|j: int|
                0 <= j < v@.len() ==> (#[trigger] v@[j]).id is Some && v@[j].created_at is Some
                    && v@[j].updated_at is Some && v@[j].priority is Some
                    && v@[j].time_estimate_minutes is Some && v@[j].timer_accumulated_seconds
                    is Some && v@[j].status@ == raw_task_pair(v@[j]).1.status && v@[j].completed_at
                    is Some == raw_task_pair(v@[j]).1.completed_at is Some && v@[j].timer_started_at
                    is Some == raw_task_pair(v@[j]).1.timer_started_at is Some
        },
{
    let rows = match store.select_tasks() {
        Ok(v) => v,
        Err(e) => {
            return Err(e);
        },
    };
    let mut out: Vec<BackupTaskInput> = Vec::new();
    let n = rows.len();
    let mut i: usize = 0;
    while i < n
        invariant
            n == rows@.len(),
            out@.len() == i,
            i <= n,
            forall|j: int|
                0 <= j < i ==> raw_task_pair(#[trigger] out@[j]) == task_pairs(rows@)[j]
                    && out@[j].id is Some && out@[j].created_at is Some && out@[j].updated_at
                    is Some && out@[j].priority is Some && out@[j].time_estimate_minutes is Some
                    && out@[j].timer_accumulated_seconds is Some && out@[j].status@ == raw_task_pair(
                    out@[j],
                ).1.status && out@[j].completed_at is Some == raw_task_pair(
                    out@[j],
                ).1.completed_at is Some && out@[j].timer_started_at is Some == raw_task_pair(
                    out@[j],
                ).1.timer_started_at is Some,
        decreases n - i,
    {
        let t = &rows[i];
        out.push(
            BackupTaskInput {
                id: Some(t.id),
                title: t.title.clone(),
                description: t.description.clone(),
                status: t.status.clone(),
                priority: Some(t.priority.clone()),
                due_date: t.due_date.clone(),
                completed_at: t.completed_at.clone(),
                time_estimate_minutes: Some(t.time_estimate_minutes),
                timer_started_at: t.timer_started_at.clone(),
                timer_accumulated_seconds: Some(t.timer_accumulated_seconds),
                created_at: Some(t.created_at.clone()),
                updated_at: Some(t.updated_at.clone()),
            },
        );
        i = i + 1;
    }
    proof {
        assert(raw_task_pairs(out@) =~= task_pairs(rows@));
    }
    Ok(out)
}

fn export_goals(store: &Store) -> (r: Result<Vec<BackupGoalInput>, StoreError>)
    ensures
        r matches Ok(v) ==> {
            &&& goals_ready(v@)
            &&& keys_distinct(raw_goal_pairs(v@))
            &&& pairs_map_onto(Map::<int, GoalData>::empty(), raw_goal_pairs(v@)) == store_tables(
                *store,
            ).goals
            &&& forall|j: int|
                0 <= j < v@.len() ==> (#[trigger] v@[j]).description is Some && v@[j].status
                    is Some && v@[j].progress is Some && v@[j].updated_at is Some
        },
{
    let rows = match store.select_goals() {
        Ok(v) => v,
        Err(e) => {
            return Err(e);
        },
    };
    let mut out: Vec<BackupGoalInput> = Vec::new();
    let n = rows.len();
    let mut i: usize = 0;
    while i < n
        invariant
            n == rows@.len(),
            out@.len() == i,
            i <= n,
            forall|j: int|
                0 <= j < i ==> raw_goal_pair(#[trigger] out@[j]) == goal_pairs(rows@)[j]
                    && out@[j].id is Some && out@[j].created_at is Some && out@[j].updated_at
                    is Some && out@[j].description is Some && out@[j].status is Some
                    && out@[j].progress is Some,
        decreases n - i,
    {
        let g = &rows[i];
        out.push(
            BackupGoalInput {
                id: Some(g.id),
                title: g.title.clone(),
                description: Some(g.description.clone()),
                status: Some(g.status.clone()),
                progress: Some(g.progress),
                target_date: g.target_date.clone(),
                created_at: Some(g.created_at.clone()),
                updated_at: Some(g.updated_at.clone()),
            },
        );
        i = i + 1;
    }
    proof {
        assert(raw_goal_pairs(out@) =~= goal_pairs(rows@));
    }
    Ok(out)
}

fn export_habits(store: &Store) -> (r: Result<Vec<BackupHabitInput>, StoreError>)
    ensures
        r matches Ok(v) ==> {
            &&& habits_ready(v@)
            &&& keys_distinct(raw_habit_pairs(v@))
            &&& pairs_map_onto(Map::<int, HabitData>::empty(), raw_habit_pairs(v@)) == store_tables(
                *store,
            ).habits
            &&& forall|j: int|
                0 <= j < v@.len() ==> (#[trigger] v@[j]).description is Some
                    && v@[j].target_per_week is Some && v@[j].color is Some && v@[j].updated_at
                    is Some
        },
{
    let rows = match store.select_habits() {
        Ok(v) => v,
        Err(e) => {
            return Err(e);
        },
    };
    let mut out: Vec<BackupHabitInput> = Vec::new();
    let n = rows.len();
    let mut i: usize = 0;
    while i < n
        invariant
            n == rows@.len(),
            out@.len() == i,
            i <= n,
            forall|j: int|
                0 <= j < i ==> raw_habit_pair(#[trigger] out@[j]) == habit_pairs(rows@)[j]
                    && out@[j].id is Some && out@[j].created_at is Some && out@[j].updated_at
                    is Some && out@[j].description is Some && out@[j].target_per_week is Some
                    && out@[j].color is Some,
        decreases n - i,
    {
        let h = &rows[i];
        out.push(
            BackupHabitInput {
                id: Some(h.id),
                title: h.title.clone(),
                description: Some(h.description.clone()),
                target_per_week: Some(h.target_per_week),
                color: Some(h.color.clone()),
                created_at: Some(h.created_at.clone()),
                updated_at: Some(h.updated_at.clone()),
            },
        );
        i = i + 1;
    }
    proof {
        assert(raw_habit_pairs(out@) =~= habit_pairs(rows@));
    }
    Ok(out)
}

fn export_logs(store: &Store) -> (r: Result<Vec<BackupHabitLogInput>, StoreError>)
    ensures
        r matches Ok(v) ==> {
            &&& logs_ready(v@)
            &&& keys_distinct(raw_log_pairs(v@))
            &&& pairs_map_onto(Map::<int, LogData>::empty(), raw_log_pairs(v@)) == store_tables(
                *store,
            ).habit_logs
        },
{
    let rows = match store.select_logs() {
        Ok(v) => v,
        Err(e) => {
            return Err(e);
        },
    };
    let mut out: Vec<BackupHabitLogInput> = Vec::new();
    let n = rows.len();
    let mut i: usize = 0;
    while i < n
        invariant
            n == rows@.len(),
            out@.len() == i,
            i <= n,
            forall|j: int|
                0 <= j < i ==> raw_log_pair(#[trigger] out@[j]) == log_pairs(rows@)[j] && out@[j].id
                    is Some && out@[j].created_at is Some,
        decreases n - i,
    {
        let l = &rows[i];
        out.push(
            BackupHabitLogInput {
                id: Some(l.id),
                habit_id: l.habit_id,
                date: l.date.clone(),
                created_at: Some(l.created_at.clone()),
            },
        );
        i = i + 1;
    }
    proof {
        assert(raw_log_pairs(out@) =~= log_pairs(rows@));
    }
    Ok(out)
}

/// Exports the whole store as a snapshot: list-all across the six entities,
/// identifiers and stamps included.  The snapshot lists the store's contents
/// verbatim.
pub fn export_backup(store: &Store) -> (r: Result<BackupPayload, StoreError>)
    ensures
        r matches Ok(p) ==> (tasks_normal(store_tables(*store)) ==> payload_lists(
            p,
            store_tables(*store),
        )),
{
    let entries = match export_entries(store) {
        Ok(v) => v,
        Err(e) => {
            return Err(e);
        },
    };
    let pages = match export_pages(store) {
        Ok(v) => v,
        Err(e) => {
            return Err(e);
        },
    };
    let tasks = match export_tasks(store) {
        Ok(v) => v,
        Err(e) => {
            return Err(e);
        },
    };
    let goals = match export_goals(store) {
        Ok(v) => v,
        Err(e) => {
            return Err(e);
        },
    };
    let habits = match export_habits(store) {
        Ok(v) => v,
        Err(e) => {
            return Err(e);
        },
    };
    let habit_logs = match export_logs(store) {
        Ok(v) => v,
        Err(e) => {
            return Err(e);
        },
    };
    let payload = BackupPayload { entries, pages, tasks, goals, habits, habit_logs };
    proof {
        if tasks_normal(store_tables(*store)) {
            assert forall|i: int| 0 <= i < payload.tasks@.len() implies {
                &&& (#[trigger] payload.tasks@[i]).id is Some
                &&& payload.tasks@[i].created_at is Some
                &&& payload.tasks@[i].updated_at is Some
                &&& (spec_normalize_status(payload.tasks@[i].status@) == "done"@
                    ==> payload.tasks@[i].timer_started_at is None && payload.tasks@[i].completed_at
                    is Some)
            } by {
                lemma_pairs_map_index(
                    Map::<int, TaskData>::empty(),
                    raw_task_pairs(payload.tasks@),
                    i,
                );
                let d = raw_task_pair(payload.tasks@[i]).1;
                assert(store_tables(*store).tasks.dom().contains(raw_task_pair(
                    payload.tasks@[i],
                ).0));
                assert(task_data_wf(d));
                reveal_strlit("todo");
                reveal_strlit("in_progress");
                reveal_strlit("done");
                assert("todo"@.len() == 4 && "in_progress"@.len() == 11 && "done"@.len() == 4);
                assert("todo"@[0] == 't' && "done"@[0] == 'd');
                if spec_normalize_status(payload.tasks@[i].status@) == "done"@ {
                    assert(payload.tasks@[i].status@ == "done"@);
                }
            }
        }
    }
    Ok(payload)
}

/// Every stored task satisfies the task invariant.
pub open spec fn tasks_normal(m: StoreModel) -> bool {
    forall|k: int| m.tasks.dom().contains(k) ==> task_data_wf(#[trigger] m.tasks[k])
}

// ---- import: every record applied by upsert inside one transaction ----

/// Every row of the later table is normalized, or was inherited unchanged
/// from the earlier table.
pub open spec fn rows_wf_or_inherited<V>(
    pre: Map<int, V>,
    post: Map<int, V>,
    wf: spec_fn(V) -> bool,
) -> bool {
    forall|k: int|
        post.dom().contains(k) ==> wf(#[trigger] post[k]) || (pre.dom().contains(k) && post[k]
            == pre[k])
}

/// Where a failed statement inside the import leaves the store: either the
/// transaction is still open (to be rolled back) or the engine already
/// rolled it back to the state recorded at the transaction's start.
pub open spec fn txn_err_state(pre: Store, post: Store) -> bool {
    ||| (store_in_txn(post) && store_schema(post) == store_schema(pre) && store_versions(post)
        == store_versions(pre) && crate::store::txn_kept(pre, post))
    ||| (!store_in_txn(post) && store_tables(post) == store_txn_base(pre) && store_schema(post)
        == store_txn_schema(pre) && store_versions(post) == store_txn_versions(pre))
}

/// What each import pass guarantees: the transaction stays open with its
/// base, only its own table changes, and when every record carries its
/// stamps (and identifier where the pass upserts by identifier) the table it
/// leaves behind is pinned exactly.
fn import_entries(store: &mut Store, items: &Vec<BackupEntryInput>, now: &String) -> (r: Result<
    (),
    StoreError,
>)
    requires
        store_in_txn(*old(store)),
    ensures
        r matches Ok(_) ==> {
            &&& crate::store::dml_ok(*old(store), *final(store))
            &&& store_tables(*final(store)) == store_tables(*old(store)).with_entries(
                store_tables(*final(store)).entries,
            )
            &&& (entries_ready(items@) ==> store_tables(*final(store)).entries == pairs_map_onto(
                store_tables(*old(store)).entries,
                entry_import_pairs(items@),
            ))
            &&& store_tables(*final(store)).entries == entries_applied(
                store_tables(*old(store)).entries,
                items@,
                now@,
            )
        },
        r is Err ==> txn_err_state(*old(store), *final(store)),
{
    let n = items.len();
    let mut i: usize = 0;
    while i < n
        invariant
            store_in_txn(*store),
            n == items@.len(),
            i <= n,
            crate::store::dml_ok(*old(store), *store),
            store_tables(*store) == store_tables(*old(store)).with_entries(
                store_tables(*store).entries,
            ),
            entries_ready(items@) ==> store_tables(*store).entries == pairs_map_onto(
                store_tables(*old(store)).entries,
                entry_import_pairs(items@).take(i as int),
            ),
            store_tables(*store).entries == entries_applied(
                store_tables(*old(store)).entries,
                items@.take(i as int),
                now@,
            ),
        decreases n - i,
    {
        let e = &items[i];
        let created: &String = match &e.created_at {
            Some(c) => c,
            None => now,
        };
        match store.upsert_entry(
            e.date.as_str(),
            e.yesterday.as_str(),
            e.today.as_str(),
            created.as_str(),
        ) {
            Ok(_) => {
                proof {
                    assert(items@.take(i + 1).drop_last() =~= items@.take(i as int));
                    assert(items@.take(i + 1).last() == items@[i as int]);
                    assert(store_tables(*store).entries =~= entries_applied(
                        store_tables(*old(store)).entries,
                        items@.take(i + 1),
                        now@,
                    ));
                    if entries_ready(items@) {
                        let ps = entry_import_pairs(items@);
                        assert(ps.take(i + 1).drop_last() =~= ps.take(i as int));
                        assert(ps.take(i + 1).last() == entry_import_pair(items@[i as int]));
                        assert(store_tables(*store).entries =~= pairs_map_onto(
                            store_tables(*old(store)).entries,
                            ps.take(i + 1),
                        ));
                    }
                }
            },
            Err(e) => {
                return Err(e);
            },
        }
        i = i + 1;
    }
    proof {
        assert(items@.take(n as int) =~= items@);
        if entries_ready(items@) {
            assert(entry_import_pairs(items@).take(n as int) =~= entry_import_pairs(items@));
        }
    }
    Ok(())
}

fn import_pages(store: &mut Store, items: &Vec<BackupPageInput>, now: &String) -> (r: Result<
    (),
    StoreError,
>)
    requires
        store_in_txn(*old(store)),
    ensures
        r matches Ok(_) ==> {
            &&& crate::store::dml_ok(*old(store), *final(store))
            &&& store_tables(*final(store)) == store_tables(*old(store)).with_pages(
                store_tables(*final(store)).pages,
            )
            &&& (pages_ready(items@) ==> store_tables(*final(store)).pages == pairs_map_onto(
                store_tables(*old(store)).pages,
                page_import_pairs(items@),
            ))
            &&& (exists|ids: Seq<int>|
                ids.len() == items@.len() && #[trigger] pages_applied(
                    store_tables(*old(store)).pages,
                    items@,
                    ids,
                    now@,
                ) == store_tables(*final(store)).pages && page_ids_fresh(
                    store_tables(*old(store)).pages,
                    items@,
                    ids,
                    now@,
                ))
        },
        r is Err ==> txn_err_state(*old(store), *final(store)),
{
    let n = items.len();
    let mut i: usize = 0;
    let ghost mut gids: Seq<int> = Seq::empty();
    while i < n
        invariant
            store_in_txn(*store),
            n == items@.len(),
            i <= n,
            gids.len() == i,
            crate::store::dml_ok(*old(store), *store),
            store_tables(*store) == store_tables(*old(store)).with_pages(
                store_tables(*store).pages,
            ),
            pages_ready(items@) ==> store_tables(*store).pages == pairs_map_onto(
                store_tables(*old(store)).pages,
                page_import_pairs(items@).take(i as int),
            ),
            store_tables(*store).pages == pages_applied(
                store_tables(*old(store)).pages,
                items@.take(i as int),
                gids,
                now@,
            ),
            forall|j: int|
                0 <= j < i && (#[trigger] items@[j]).id is None ==> !pages_applied(
                    store_tables(*old(store)).pages,
                    items@.take(j),
                    gids.take(j),
                    now@,
                ).dom().contains(gids[j]),
        decreases n - i,
    {
        let p = &items[i];
        let created: String = match &p.created_at {
            Some(c) => c.clone(),
            None => now.clone(),
        };
        let updated: String = match &p.updated_at {
            Some(u) => u.clone(),
            None => created.clone(),
        };
        let ghost pages_before = store_tables(*store).pages;
        let ghost gids_before = gids;
        let key: i64 = match p.id {
            Some(id) => {
                match store.upsert_page(
                    id,
                    p.title.as_str(),
                    p.content.as_str(),
                    created.as_str(),
                    updated.as_str(),
                ) {
                    Ok(_) => id,
                    Err(e) => {
                        return Err(e);
                    },
                }
            },
            None => {
                match store.insert_page(
                    p.title.as_str(),
                    p.content.as_str(),
                    created.as_str(),
                    updated.as_str(),
                ) {
                    Ok(new_id) => new_id,
                    Err(e) => {
                        return Err(e);
                    },
                }
            },
        };
        proof {
            gids = gids.push(key as int);
            assert(gids.drop_last() =~= gids_before);
            assert(items@.take(i + 1).drop_last() =~= items@.take(i as int));
            assert(items@.take(i + 1).last() == items@[i as int]);
            assert(page_applied_data(items@[i as int], now@) =~= PageData {
                title: p.title@,
                content: p.content@,
                created_at: created@,
                updated_at: updated@,
            });
            assert(store_tables(*store).pages =~= pages_applied(
                store_tables(*old(store)).pages,
                items@.take(i + 1),
                gids,
                now@,
            ));
            assert forall|j: int|
                0 <= j < i + 1 && (#[trigger] items@[j]).id is None implies !pages_applied(
                store_tables(*old(store)).pages,
                items@.take(j),
                gids.take(j),
                now@,
            ).dom().contains(gids[j]) by {
                assert(gids.take(j) =~= gids_before.take(j));
                if j < i {
                    assert(!pages_applied(
                        store_tables(*old(store)).pages,
                        items@.take(j),
                        gids_before.take(j),
                        now@,
                    ).dom().contains(gids_before[j]));
                } else {
                    assert(gids.take(j) =~= gids_before);
                    assert(!pages_before.dom().contains(key as int));
                }
            }
            if pages_ready(items@) {
                let ps = page_import_pairs(items@);
                assert(ps.take(i + 1).drop_last() =~= ps.take(i as int));
                assert(ps.take(i + 1).last() == page_import_pair(items@[i as int]));
                assert(store_tables(*store).pages =~= pairs_map_onto(
                    store_tables(*old(store)).pages,
                    ps.take(i + 1),
                ));
            }
        }
        i = i + 1;
    }
    proof {
        assert(items@.take(n as int) =~= items@);
        assert(pages_applied(store_tables(*old(store)).pages, items@, gids, now@)
            == store_tables(*store).pages);
        assert(page_ids_fresh(store_tables(*old(store)).pages, items@, gids, now@));
        if pages_ready(items@) {
            assert(page_import_pairs(items@).take(n as int) =~= page_import_pairs(items@));
        }
    }
    Ok(())
}

fn import_tasks(store: &mut Store, items: &Vec<BackupTaskInput>, now: &String) -> (r: Result<
    (),
    StoreError,
>)
    requires
        store_in_txn(*old(store)),
    ensures
        r matches Ok(_) ==> {
            &&& crate::store::dml_ok(*old(store), *final(store))
            &&& store_tables(*final(store)) == store_tables(*old(store)).with_tasks(
                store_tables(*final(store)).tasks,
            )
            &&& (tasks_ready(items@) ==> store_tables(*final(store)).tasks == pairs_map_onto(
                store_tables(*old(store)).tasks,
                task_import_pairs(items@),
            ))
            &&& rows_wf_or_inherited(
                store_tables(*old(store)).tasks,
                store_tables(*final(store)).tasks,
                |t: TaskData| task_data_wf(t),
            )
            &&& (exists|ids: Seq<int>, es: Seq<int>|
                ids.len() == items@.len() && es.len() == items@.len() && #[trigger] tasks_applied(
                    store_tables(*old(store)).tasks,
                    items@,
                    ids,
                    es,
                    now@,
                ) == store_tables(*final(store)).tasks && task_ids_fresh(
                    store_tables(*old(store)).tasks,
                    items@,
                    ids,
                    es,
                    now@,
                ) && task_es_ok(items@, es))
        },
        r is Err ==> txn_err_state(*old(store), *final(store)),
{
    let n = items.len();
    let mut i: usize = 0;
    let ghost mut gids: Seq<int> = Seq::empty();
    let ghost mut ges: Seq<int> = Seq::empty();
    while i < n
        invariant
            store_in_txn(*store),
            n == items@.len(),
            i <= n,
            gids.len() == i,
            ges.len() == i,
            crate::store::dml_ok(*old(store), *store),
            store_tables(*store) == store_tables(*old(store)).with_tasks(
                store_tables(*store).tasks,
            ),
            tasks_ready(items@) ==> store_tables(*store).tasks == pairs_map_onto(
                store_tables(*old(store)).tasks,
                task_import_pairs(items@).take(i as int),
            ),
            rows_wf_or_inherited(
                store_tables(*old(store)).tasks,
                store_tables(*store).tasks,
                |t: TaskData| task_data_wf(t),
            ),
            store_tables(*store).tasks == tasks_applied(
                store_tables(*old(store)).tasks,
                items@.take(i as int),
                gids,
                ges,
                now@,
            ),
            forall|j: int|
                0 <= j < i && (#[trigger] items@[j]).id is None ==> !tasks_applied(
                    store_tables(*old(store)).tasks,
                    items@.take(j),
                    gids.take(j),
                    ges.take(j),
                    now@,
                ).dom().contains(gids[j]),
            forall|j: int|
                0 <= j < i ==> 0 <= #[trigger] ges[j] && ((spec_normalize_status(
                    items@[j].status@,
                ) != "done"@ || items@[j].timer_started_at is None || rfc3339_unix(
                    (items@[j].timer_started_at->0)@,
                ) is None) ==> ges[j] == 0),
        decreases n - i,
    {
        let t = &items[i];
        let created: String = match &t.created_at {
            Some(c) => c.clone(),
            None => now.clone(),
        };
        let updated: String = match &t.updated_at {
            Some(u) => u.clone(),
            None => created.clone(),
        };
        let status = normalize_status(t.status.clone());
        let priority = normalize_priority(
            match &t.priority {
                Some(p) => Some(p.clone()),
                None => None,
            },
        );
        let due_date: Option<String> = match &t.due_date {
            Some(d) => Some(d.clone()),
            None => None,
        };
        let estimate = normalize_time_estimate_minutes(t.time_estimate_minutes);
        let acc0 = normalize_accumulated_seconds(t.timer_accumulated_seconds);
        let timer_orig: Option<String> = match &t.timer_started_at {
            Some(s) => Some(s.clone()),
            None => None,
        };
        let is_done = str_eq(status.as_str(), "done");
        let e: i64 = if is_done {
            timer_elapsed(&timer_orig)
        } else {
            0
        };
        let acc: i64 = if is_done {
            fold_elapsed(e, acc0)
        } else {
            acc0
        };
        let timer: Option<String> = if is_done {
            None
        } else {
            timer_orig
        };
        let completed: Option<String> = if is_done {
            match &t.completed_at {
                Some(c) => Some(c.clone()),
                None => Some(updated.clone()),
            }
        } else {
            None
        };
        let ghost tasks_before = store_tables(*store).tasks;
        let ghost gids_before = gids;
        let ghost ges_before = ges;
        let key: i64 = match t.id {
            Some(id) => {
                match store.upsert_task(
                    id,
                    t.title.as_str(),
                    t.description.as_str(),
                    status.as_str(),
                    priority.as_str(),
                    &due_date,
                    &completed,
                    estimate,
                    &timer,
                    acc,
                    created.as_str(),
                    updated.as_str(),
                ) {
                    Ok(_) => id,
                    Err(e) => {
                        return Err(e);
                    },
                }
            },
            None => {
                match store.insert_task(
                    t.title.as_str(),
                    t.description.as_str(),
                    status.as_str(),
                    priority.as_str(),
                    &due_date,
                    &completed,
                    estimate,
                    &timer,
                    acc,
                    created.as_str(),
                    updated.as_str(),
                ) {
                    Ok(new_id) => new_id,
                    Err(e) => {
                        return Err(e);
                    },
                }
            },
        };
        proof {
            gids = gids.push(key as int);
            ges = ges.push(e as int);
            assert(gids.drop_last() =~= gids_before);
            assert(ges.drop_last() =~= ges_before);
            assert(items@.take(i + 1).drop_last() =~= items@.take(i as int));
            assert(items@.take(i + 1).last() == items@[i as int]);
            assert(task_data_wf(TaskData {
                title: t.title@,
                description: t.description@,
                status: status@,
                priority: priority@,
                due_date: spec_opt_view(due_date),
                completed_at: spec_opt_view(completed),
                time_estimate_minutes: estimate as int,
                timer_started_at: spec_opt_view(timer),
                timer_accumulated_seconds: acc as int,
                created_at: created@,
                updated_at: updated@,
            }));
            assert(task_applied_data(items@[i as int], now@, e as int) =~= TaskData {
                title: t.title@,
                description: t.description@,
                status: status@,
                priority: priority@,
                due_date: spec_opt_view(due_date),
                completed_at: spec_opt_view(completed),
                time_estimate_minutes: estimate as int,
                timer_started_at: spec_opt_view(timer),
                timer_accumulated_seconds: acc as int,
                created_at: created@,
                updated_at: updated@,
            });
            assert(store_tables(*store).tasks =~= tasks_applied(
                store_tables(*old(store)).tasks,
                items@.take(i + 1),
                gids,
                ges,
                now@,
            ));
            assert forall|j: int|
                0 <= j < i + 1 && (#[trigger] items@[j]).id is None implies !tasks_applied(
                store_tables(*old(store)).tasks,
                items@.take(j),
                gids.take(j),
                ges.take(j),
                now@,
            ).dom().contains(gids[j]) by {
                assert(gids.take(j) =~= gids_before.take(j));
                assert(ges.take(j) =~= ges_before.take(j));
                if j < i {
                    assert(!tasks_applied(
                        store_tables(*old(store)).tasks,
                        items@.take(j),
                        gids_before.take(j),
                        ges_before.take(j),
                        now@,
                    ).dom().contains(gids_before[j]));
                } else {
                    assert(gids.take(j) =~= gids_before);
                    assert(ges.take(j) =~= ges_before);
                    assert(!tasks_before.dom().contains(key as int));
                }
            }
            if tasks_ready(items@) {
                let ps = task_import_pairs(items@);
                assert(ps.take(i + 1).drop_last() =~= ps.take(i as int));
                assert(ps.take(i + 1).last() == task_import_pair(items@[i as int]));
                assert(task_import_pair(items@[i as int]).1 =~= TaskData {
                    title: t.title@,
                    description: t.description@,
                    status: status@,
                    priority: priority@,
                    due_date: spec_opt_view(due_date),
                    completed_at: spec_opt_view(completed),
                    time_estimate_minutes: estimate as int,
                    timer_started_at: spec_opt_view(timer),
                    timer_accumulated_seconds: acc as int,
                    created_at: created@,
                    updated_at: updated@,
                });
                assert(store_tables(*store).tasks =~= pairs_map_onto(
                    store_tables(*old(store)).tasks,
                    ps.take(i + 1),
                ));
            }
        }
        i = i + 1;
    }
    proof {
        assert(items@.take(n as int) =~= items@);
        assert(tasks_applied(store_tables(*old(store)).tasks, items@, gids, ges, now@)
            == store_tables(*store).tasks);
        assert(task_ids_fresh(store_tables(*old(store)).tasks, items@, gids, ges, now@));
        assert(task_es_ok(items@, ges));
        if tasks_ready(items@) {
            assert(task_import_pairs(items@).take(n as int) =~= task_import_pairs(items@));
        }
    }
    Ok(())
}

fn import_goals(store: &mut Store, items: &Vec<BackupGoalInput>, now: &String) -> (r: Result<
    (),
    StoreError,
>)
    requires
        store_in_txn(*old(store)),
    ensures
        r matches Ok(_) ==> {
            &&& crate::store::dml_ok(*old(store), *final(store))
            &&& store_tables(*final(store)) == store_tables(*old(store)).with_goals(
                store_tables(*final(store)).goals,
            )
            &&& (goals_ready(items@) ==> store_tables(*final(store)).goals == pairs_map_onto(
                store_tables(*old(store)).goals,
                goal_import_pairs(items@),
            ))
            &&& rows_wf_or_inherited(
                store_tables(*old(store)).goals,
                store_tables(*final(store)).goals,
                |g: GoalData| goal_data_wf(g),
            )
            &&& (exists|ids: Seq<int>|
                ids.len() == items@.len() && #[trigger] goals_applied(
                    store_tables(*old(store)).goals,
                    items@,
                    ids,
                    now@,
                ) == store_tables(*final(store)).goals && goal_ids_fresh(
                    store_tables(*old(store)).goals,
                    items@,
                    ids,
                    now@,
                ))
        },
        r is Err ==> txn_err_state(*old(store), *final(store)),
{
    let n = items.len();
    let mut i: usize = 0;
    let ghost mut gids: Seq<int> = Seq::empty();
    while i < n
        invariant
            store_in_txn(*store),
            n == items@.len(),
            i <= n,
            gids.len() == i,
            crate::store::dml_ok(*old(store), *store),
            store_tables(*store) == store_tables(*old(store)).with_goals(
                store_tables(*store).goals,
            ),
            goals_ready(items@) ==> store_tables(*store).goals == pairs_map_onto(
                store_tables(*old(store)).goals,
                goal_import_pairs(items@).take(i as int),
            ),
            rows_wf_or_inherited(
                store_tables(*old(store)).goals,
                store_tables(*store).goals,
                |g: GoalData| goal_data_wf(g),
            ),
            store_tables(*store).goals == goals_applied(
                store_tables(*old(store)).goals,
                items@.take(i as int),
                gids,
                now@,
            ),
            forall|j: int|
                0 <= j < i && (#[trigger] items@[j]).id is None ==> !goals_applied(
                    store_tables(*old(store)).goals,
                    items@.take(j),
                    gids.take(j),
                    now@,
                ).dom().contains(gids[j]),
        decreases n - i,
    {
        let g = &items[i];
        let created: String = match &g.created_at {
            Some(c) => c.clone(),
            None => now.clone(),
        };
        let updated: String = match &g.updated_at {
            Some(u) => u.clone(),
            None => created.clone(),
        };
        let status = normalize_goal_status(
            match &g.status {
                Some(s) => Some(s.clone()),
                None => None,
            },
        );
        let mut progress = normalize_progress(g.progress);
        if str_eq(status.as_str(), "completed") {
            progress = 100;
        }
        let description: String = match &g.description {
            Some(d) => d.clone(),
            None => String::new(),
        };
        let target_date: Option<String> = match &g.target_date {
            Some(d) => Some(d.clone()),
            None => None,
        };
        let ghost goals_before = store_tables(*store).goals;
        let ghost gids_before = gids;
        let key: i64 = match g.id {
            Some(id) => {
                match store.upsert_goal(
                    id,
                    g.title.as_str(),
                    description.as_str(),
                    status.as_str(),
                    progress,
                    &target_date,
                    created.as_str(),
                    updated.as_str(),
                ) {
                    Ok(_) => id,
                    Err(e) => {
                        return Err(e);
                    },
                }
            },
            None => {
                match store.insert_goal(
                    g.title.as_str(),
                    description.as_str(),
                    status.as_str(),
                    progress,
                    &target_date,
                    created.as_str(),
                    updated.as_str(),
                ) {
                    Ok(new_id) => new_id,
                    Err(e) => {
                        return Err(e);
                    },
                }
            },
        };
        proof {
            gids = gids.push(key as int);
            assert(gids.drop_last() =~= gids_before);
            assert(items@.take(i + 1).drop_last() =~= items@.take(i as int));
            assert(items@.take(i + 1).last() == items@[i as int]);
            assert(goal_data_wf(GoalData {
                title: g.title@,
                description: description@,
                status: status@,
                progress: progress as int,
                target_date: spec_opt_view(target_date),
                created_at: created@,
                updated_at: updated@,
            }));
            assert(goal_applied_data(items@[i as int], now@) =~= GoalData {
                title: g.title@,
                description: description@,
                status: status@,
                progress: progress as int,
                target_date: spec_opt_view(target_date),
                created_at: created@,
                updated_at: updated@,
            });
            assert(store_tables(*store).goals =~= goals_applied(
                store_tables(*old(store)).goals,
                items@.take(i + 1),
                gids,
                now@,
            ));
            assert forall|j: int|
                0 <= j < i + 1 && (#[trigger] items@[j]).id is None implies !goals_applied(
                store_tables(*old(store)).goals,
                items@.take(j),
                gids.take(j),
                now@,
            ).dom().contains(gids[j]) by {
                assert(gids.take(j) =~= gids_before.take(j));
                if j < i {
                    assert(!goals_applied(
                        store_tables(*old(store)).goals,
                        items@.take(j),
                        gids_before.take(j),
                        now@,
                    ).dom().contains(gids_before[j]));
                } else {
                    assert(gids.take(j) =~= gids_before);
                    assert(!goals_before.dom().contains(key as int));
                }
            }
            if goals_ready(items@) {
                let ps = goal_import_pairs(items@);
                assert(ps.take(i + 1).drop_last() =~= ps.take(i as int));
                assert(ps.take(i + 1).last() == goal_import_pair(items@[i as int]));
                assert(goal_import_pair(items@[i as int]).1 =~= GoalData {
                    title: g.title@,
                    description: description@,
                    status: status@,
                    progress: progress as int,
                    target_date: spec_opt_view(target_date),
                    created_at: created@,
                    updated_at: updated@,
                });
                assert(store_tables(*store).goals =~= pairs_map_onto(
                    store_tables(*old(store)).goals,
                    ps.take(i + 1),
                ));
            }
        }
        i = i + 1;
    }
    proof {
        assert(items@.take(n as int) =~= items@);
        assert(goals_applied(store_tables(*old(store)).goals, items@, gids, now@)
            == store_tables(*store).goals);
        assert(goal_ids_fresh(store_tables(*old(store)).goals, items@, gids, now@));
        if goals_ready(items@) {
            assert(goal_import_pairs(items@).take(n as int) =~= goal_import_pairs(items@));
        }
    }
    Ok(())
}

fn import_habits(store: &mut Store, items: &Vec<BackupHabitInput>, now: &String) -> (r: Result<
    (),
    StoreError,
>)
    requires
        store_in_txn(*old(store)),
    ensures
        r matches Ok(_) ==> {
            &&& crate::store::dml_ok(*old(store), *final(store))
            &&& store_tables(*final(store)) == store_tables(*old(store)).with_habits(
                store_tables(*final(store)).habits,
            )
            &&& (habits_ready(items@) ==> store_tables(*final(store)).habits == pairs_map_onto(
                store_tables(*old(store)).habits,
                habit_import_pairs(items@),
            ))
            &&& rows_wf_or_inherited(
                store_tables(*old(store)).habits,
                store_tables(*final(store)).habits,
                |h: HabitData| habit_data_wf(h),
            )
            &&& (exists|ids: Seq<int>|
                ids.len() == items@.len() && #[trigger] habits_applied(
                    store_tables(*old(store)).habits,
                    items@,
                    ids,
                    now@,
                ) == store_tables(*final(store)).habits && habit_ids_fresh(
                    store_tables(*old(store)).habits,
                    items@,
                    ids,
                    now@,
                ))
        },
        r is Err ==> txn_err_state(*old(store), *final(store)),
{
    let n = items.len();
    let mut i: usize = 0;
    let ghost mut gids: Seq<int> = Seq::empty();
    while i < n
        invariant
            store_in_txn(*store),
            n == items@.len(),
            i <= n,
            gids.len() == i,
            crate::store::dml_ok(*old(store), *store),
            store_tables(*store) == store_tables(*old(store)).with_habits(
                store_tables(*store).habits,
            ),
            habits_ready(items@) ==> store_tables(*store).habits == pairs_map_onto(
                store_tables(*old(store)).habits,
                habit_import_pairs(items@).take(i as int),
            ),
            rows_wf_or_inherited(
                store_tables(*old(store)).habits,
                store_tables(*store).habits,
                |h: HabitData| habit_data_wf(h),
            ),
            store_tables(*store).habits == habits_applied(
                store_tables(*old(store)).habits,
                items@.take(i as int),
                gids,
                now@,
            ),
            forall|j: int|
                0 <= j < i && (#[trigger] items@[j]).id is None ==> !habits_applied(
                    store_tables(*old(store)).habits,
                    items@.take(j),
                    gids.take(j),
                    now@,
                ).dom().contains(gids[j]),
        decreases n - i,
    {
        let h = &items[i];
        let created: String = match &h.created_at {
            Some(c) => c.clone(),
            None => now.clone(),
        };
        let updated: String = match &h.updated_at {
            Some(u) => u.clone(),
            None => created.clone(),
        };
        let description: String = match &h.description {
            Some(d) => d.clone(),
            None => String::new(),
        };
        let target_per_week = normalize_target_per_week(h.target_per_week);
        let color = normalize_habit_color(
            match &h.color {
                Some(c) => Some(c.clone()),
                None => None,
            },
        );
        let ghost habits_before = store_tables(*store).habits;
        let ghost gids_before = gids;
        let key: i64 = match h.id {
            Some(id) => {
                match store.upsert_habit(
                    id,
                    h.title.as_str(),
                    description.as_str(),
                    target_per_week,
                    color.as_str(),
                    created.as_str(),
                    updated.as_str(),
                ) {
                    Ok(_) => id,
                    Err(e) => {
                        return Err(e);
                    },
                }
            },
            None => {
                match store.insert_habit(
                    h.title.as_str(),
                    description.as_str(),
                    target_per_week,
                    color.as_str(),
                    created.as_str(),
                    updated.as_str(),
                ) {
                    Ok(new_id) => new_id,
                    Err(e) => {
                        return Err(e);
                    },
                }
            },
        };
        proof {
            gids = gids.push(key as int);
            assert(gids.drop_last() =~= gids_before);
            assert(items@.take(i + 1).drop_last() =~= items@.take(i as int));
            assert(items@.take(i + 1).last() == items@[i as int]);
            crate::habits::lemma_color_not_blank(spec_opt_view(h.color));
            assert(habit_data_wf(HabitData {
                title: h.title@,
                description: description@,
                target_per_week: target_per_week as int,
                color: color@,
                created_at: created@,
                updated_at: updated@,
            }));
            assert(habit_applied_data(items@[i as int], now@) =~= HabitData {
                title: h.title@,
                description: description@,
                target_per_week: target_per_week as int,
                color: color@,
                created_at: created@,
                updated_at: updated@,
            });
            assert(store_tables(*store).habits =~= habits_applied(
                store_tables(*old(store)).habits,
                items@.take(i + 1),
                gids,
                now@,
            ));
            assert forall|j: int|
                0 <= j < i + 1 && (#[trigger] items@[j]).id is None implies !habits_applied(
                store_tables(*old(store)).habits,
                items@.take(j),
                gids.take(j),
                now@,
            ).dom().contains(gids[j]) by {
                assert(gids.take(j) =~= gids_before.take(j));
                if j < i {
                    assert(!habits_applied(
                        store_tables(*old(store)).habits,
                        items@.take(j),
                        gids_before.take(j),
                        now@,
                    ).dom().contains(gids_before[j]));
                } else {
                    assert(gids.take(j) =~= gids_before);
                    assert(!habits_before.dom().contains(key as int));
                }
            }
            if habits_ready(items@) {
                let ps = habit_import_pairs(items@);
                assert(ps.take(i + 1).drop_last() =~= ps.take(i as int));
                assert(ps.take(i + 1).last() == habit_import_pair(items@[i as int]));
                assert(habit_import_pair(items@[i as int]).1 =~= HabitData {
                    title: h.title@,
                    description: description@,
                    target_per_week: target_per_week as int,
                    color: color@,
                    created_at: created@,
                    updated_at: updated@,
                });
                assert(store_tables(*store).habits =~= pairs_map_onto(
                    store_tables(*old(store)).habits,
                    ps.take(i + 1),
                ));
            }
        }
        i = i + 1;
    }
    proof {
        assert(items@.take(n as int) =~= items@);
        assert(habits_applied(store_tables(*old(store)).habits, items@, gids, now@)
            == store_tables(*store).habits);
        assert(habit_ids_fresh(store_tables(*old(store)).habits, items@, gids, now@));
        if habits_ready(items@) {
            assert(habit_import_pairs(items@).take(n as int) =~= habit_import_pairs(items@));
        }
    }
    Ok(())
}

fn import_logs(
    store: &mut Store,
    items: &Vec<BackupHabitLogInput>,
    now: &String,
    today: &Date,
) -> (r: Result<(), StoreError>)
    requires
        store_in_txn(*old(store)),
        valid_date(*today),
    ensures
        r matches Ok(_) ==> {
            &&& crate::store::dml_ok(*old(store), *final(store))
            &&& store_tables(*final(store)) == store_tables(*old(store)).with_habit_logs(
                store_tables(*final(store)).habit_logs,
            )
            &&& (logs_ready(items@) ==> store_tables(*final(store)).habit_logs == pairs_map_onto(
                store_tables(*old(store)).habit_logs,
                log_import_pairs(items@, *today),
            ))
            &&& rows_wf_or_inherited(
                store_tables(*old(store)).habit_logs,
                store_tables(*final(store)).habit_logs,
                |l: LogData| log_data_wf(l),
            )
            &&& (crate::model::logs_unique(store_tables(*old(store)).habit_logs)
                ==> crate::model::logs_unique(store_tables(*final(store)).habit_logs))
            &&& (exists|ids: Seq<int>|
                ids.len() == items@.len() && #[trigger] logs_applied(
                    store_tables(*old(store)).habit_logs,
                    items@,
                    ids,
                    now@,
                    *today,
                ) == store_tables(*final(store)).habit_logs && log_ids_ok(
                    store_tables(*old(store)).habit_logs,
                    items@,
                    ids,
                    now@,
                    *today,
                ))
        },
        r is Err ==> txn_err_state(*old(store), *final(store)),
{
    let n = items.len();
    let mut i: usize = 0;
    let ghost mut gids: Seq<int> = Seq::empty();
    while i < n
        invariant
            store_in_txn(*store),
            valid_date(*today),
            n == items@.len(),
            i <= n,
            gids.len() == i,
            crate::store::dml_ok(*old(store), *store),
            store_tables(*store) == store_tables(*old(store)).with_habit_logs(
                store_tables(*store).habit_logs,
            ),
            logs_ready(items@) ==> store_tables(*store).habit_logs == pairs_map_onto(
                store_tables(*old(store)).habit_logs,
                log_import_pairs(items@, *today).take(i as int),
            ),
            rows_wf_or_inherited(
                store_tables(*old(store)).habit_logs,
                store_tables(*store).habit_logs,
                |l: LogData| log_data_wf(l),
            ),
            crate::model::logs_unique(store_tables(*old(store)).habit_logs)
                ==> crate::model::logs_unique(store_tables(*store).habit_logs),
            store_tables(*store).habit_logs == logs_applied(
                store_tables(*old(store)).habit_logs,
                items@.take(i as int),
                gids,
                now@,
                *today,
            ),
            forall|j: int|
                0 <= j < i && (#[trigger] items@[j]).id is None ==> {
                    let prev = logs_applied(
                        store_tables(*old(store)).habit_logs,
                        items@.take(j),
                        gids.take(j),
                        now@,
                        *today,
                    );
                    let nd = spec_normalize_habit_date(items@[j].date@, *today);
                    let h = items@[j].habit_id as int;
                    ||| (prev.dom().contains(gids[j]) && prev[gids[j]].habit_id == h
                        && prev[gids[j]].date == nd)
                    ||| (!prev.dom().contains(gids[j]) && (forall|k: int|
                        prev.dom().contains(k) ==> !((#[trigger] prev[k]).habit_id == h
                            && prev[k].date == nd)))
                },
        decreases n - i,
    {
        let l = &items[i];
        let created: String = match &l.created_at {
            Some(c) => c.clone(),
            None => now.clone(),
        };
        let date = normalize_habit_date(l.date.clone(), today);
        let ghost logs_before = store_tables(*store).habit_logs;
        let ghost gids_before = gids;
        let key: i64 = match l.id {
            Some(id) => {
                match store.upsert_log(id, l.habit_id, date.as_str(), created.as_str()) {
                    Ok(_) => id,
                    Err(e) => {
                        return Err(e);
                    },
                }
            },
            None => {
                let existing = match store.get_log_id(l.habit_id, date.as_str()) {
                    Ok(e) => e,
                    Err(e) => {
                        return Err(e);
                    },
                };
                match existing {
                    Some(log_id) => {
                        match store.upsert_log(log_id, l.habit_id, date.as_str(), created.as_str())
                        {
                            Ok(_) => log_id,
                            Err(e) => {
                                return Err(e);
                            },
                        }
                    },
                    None => {
                        match store.insert_log(l.habit_id, date.as_str(), created.as_str()) {
                            Ok(new_id) => new_id,
                            Err(e) => {
                                return Err(e);
                            },
                        }
                    },
                }
            },
        };
        proof {
            gids = gids.push(key as int);
            assert(gids.drop_last() =~= gids_before);
            assert(items@.take(i + 1).drop_last() =~= items@.take(i as int));
            assert(items@.take(i + 1).last() == items@[i as int]);
            assert(log_data_wf(LogData {
                habit_id: l.habit_id as int,
                date: date@,
                created_at: created@,
            }));
            assert(log_applied_data(items@[i as int], now@, *today) =~= LogData {
                habit_id: l.habit_id as int,
                date: date@,
                created_at: created@,
            });
            assert(store_tables(*store).habit_logs =~= logs_applied(
                store_tables(*old(store)).habit_logs,
                items@.take(i + 1),
                gids,
                now@,
                *today,
            ));
            assert forall|j: int|
                0 <= j < i + 1 && (#[trigger] items@[j]).id is None implies {
                let prev = logs_applied(
                    store_tables(*old(store)).habit_logs,
                    items@.take(j),
                    gids.take(j),
                    now@,
                    *today,
                );
                let nd = spec_normalize_habit_date(items@[j].date@, *today);
                let h = items@[j].habit_id as int;
                ||| (prev.dom().contains(gids[j]) && prev[gids[j]].habit_id == h
                    && prev[gids[j]].date == nd)
                ||| (!prev.dom().contains(gids[j]) && (forall|k: int|
                    prev.dom().contains(k) ==> !((#[trigger] prev[k]).habit_id == h && prev[k].date
                        == nd)))
            } by {
                assert(gids.take(j) =~= gids_before.take(j));
                if j == i {
                    assert(gids.take(j) =~= gids_before);
                    assert(logs_applied(
                        store_tables(*old(store)).habit_logs,
                        items@.take(j),
                        gids.take(j),
                        now@,
                        *today,
                    ) == logs_before);
                }
            }
            if logs_ready(items@) {
                let ps = log_import_pairs(items@, *today);
                assert(ps.take(i + 1).drop_last() =~= ps.take(i as int));
                assert(ps.take(i + 1).last() == log_import_pair(items@[i as int], *today));
                assert(store_tables(*store).habit_logs =~= pairs_map_onto(
                    store_tables(*old(store)).habit_logs,
                    ps.take(i + 1),
                ));
            }
        }
        i = i + 1;
    }
    proof {
        assert(items@.take(n as int) =~= items@);
        assert(logs_applied(store_tables(*old(store)).habit_logs, items@, gids, now@, *today)
            == store_tables(*store).habit_logs);
        assert(log_ids_ok(store_tables(*old(store)).habit_logs, items@, gids, now@, *today));
        if logs_ready(items@) {
            assert(log_import_pairs(items@, *today).take(n as int) =~= log_import_pairs(
                items@,
                *today,
            ));
        }
    }
    Ok(())
}

/// The table contents an import writes over: the store as found, or empty
/// tables when the replace flag is set.
pub open spec fn import_base(pre: StoreModel, replace: bool) -> StoreModel {
    if replace {
        StoreModel::empty()
    } else {
        pre
    }
}

/// What an import leaves behind for every snapshot, stated against the
/// processing timestamp it stamped onto records without one: each pass
/// writes its records in order under the normalization and defaulting rules,
/// identifier-carrying records at their identifiers, identifier-less records
/// at engine-assigned fresh keys (identifier-less habit logs first match the
/// existing log of the same habit and normalized date, if any).
pub open spec fn import_outcome(
    base: StoreModel,
    p: BackupPayload,
    post: StoreModel,
    now: Seq<char>,
    today: Date,
) -> bool {
    &&& post.entries == entries_applied(base.entries, p.entries@, now)
    &&& (exists|ids: Seq<int>|
        ids.len() == p.pages@.len() && #[trigger] pages_applied(base.pages, p.pages@, ids, now)
            == post.pages && page_ids_fresh(base.pages, p.pages@, ids, now))
    &&& (exists|ids: Seq<int>, es: Seq<int>|
        ids.len() == p.tasks@.len() && es.len() == p.tasks@.len() && #[trigger] tasks_applied(
            base.tasks,
            p.tasks@,
            ids,
            es,
            now,
        ) == post.tasks && task_ids_fresh(base.tasks, p.tasks@, ids, es, now) && task_es_ok(
            p.tasks@,
            es,
        ))
    &&& (exists|ids: Seq<int>|
        ids.len() == p.goals@.len() && #[trigger] goals_applied(base.goals, p.goals@, ids, now)
            == post.goals && goal_ids_fresh(base.goals, p.goals@, ids, now))
    &&& (exists|ids: Seq<int>|
        ids.len() == p.habits@.len() && #[trigger] habits_applied(base.habits, p.habits@, ids, now)
            == post.habits && habit_ids_fresh(base.habits, p.habits@, ids, now))
    &&& (exists|ids: Seq<int>|
        ids.len() == p.habit_logs@.len() && #[trigger] logs_applied(
            base.habit_logs,
            p.habit_logs@,
            ids,
            now,
            today,
        ) == post.habit_logs && log_ids_ok(base.habit_logs, p.habit_logs@, ids, now, today))
}

/// Imports a full snapshot inside one all-or-nothing transaction.  With the
/// replace flag set, all rows of all six tables are deleted first.  Every
/// record is applied as an upsert under the repository normalization rules;
/// records without an identifier insert as new rows.  On any failure the
/// whole import rolls back and the store is exactly as it was.
pub fn import_backup(
    store: &mut Store,
    payload: BackupPayload,
    replace_existing: bool,
    today: &Date,
) -> (r: Result<(), StoreError>)
    requires
        !store_in_txn(*old(store)),
        valid_date(*today),
    ensures
        !store_in_txn(*final(store)),
        r is Err ==> store_tables(*final(store)) == store_tables(*old(store)),
        r matches Ok(_) ==> (payload_ready(payload) ==> store_tables(*final(store))
            == apply_payload(
            if replace_existing {
                StoreModel::empty()
            } else {
                store_tables(*old(store))
            },
            payload,
            *today,
        )),
        r matches Ok(_) ==> (exists|now_s: Seq<char>|
            #[trigger] import_outcome(
                import_base(store_tables(*old(store)), replace_existing),
                payload,
                store_tables(*final(store)),
                now_s,
                *today,
            )),
        r matches Ok(_) ==> {
            let pre = store_tables(*old(store));
            let post = store_tables(*final(store));
            &&& rows_wf_or_inherited(pre.tasks, post.tasks, |t: TaskData| task_data_wf(t))
            &&& rows_wf_or_inherited(pre.goals, post.goals, |g: GoalData| goal_data_wf(g))
            &&& rows_wf_or_inherited(pre.habits, post.habits, |h: HabitData| habit_data_wf(h))
            &&& rows_wf_or_inherited(pre.habit_logs, post.habit_logs, |l: LogData| log_data_wf(l))
            &&& ((replace_existing || crate::model::logs_unique(pre.habit_logs))
                ==> crate::model::logs_unique(post.habit_logs))
        },
{
    let now = now_rfc3339();
    match store.begin() {
        Ok(_) => {},
        Err(e) => {
            return Err(e);
        },
    }
    let ghost base = if replace_existing {
        StoreModel::empty()
    } else {
        store_tables(*old(store))
    };
    if replace_existing {
        match store.delete_all_entries() {
            Ok(_) => {},
            Err(_) => {
                store.abort();
                return Err(StoreError::TransactionAborted);
            },
        }
        match store.delete_all_pages() {
            Ok(_) => {},
            Err(_) => {
                store.abort();
                return Err(StoreError::TransactionAborted);
            },
        }
        match store.delete_all_tasks() {
            Ok(_) => {},
            Err(_) => {
                store.abort();
                return Err(StoreError::TransactionAborted);
            },
        }
        match store.delete_all_goals() {
            Ok(_) => {},
            Err(_) => {
                store.abort();
                return Err(StoreError::TransactionAborted);
            },
        }
        match store.delete_all_logs() {
            Ok(_) => {},
            Err(_) => {
                store.abort();
                return Err(StoreError::TransactionAborted);
            },
        }
        match store.delete_all_habits() {
            Ok(_) => {},
            Err(_) => {
                store.abort();
                return Err(StoreError::TransactionAborted);
            },
        }
        proof {
            assert(store_tables(*store) =~= StoreModel::empty());
        }
    }
    match import_entries(store, &payload.entries, &now) {
        Ok(_) => {},
        Err(_) => {
            store.abort();
            return Err(StoreError::TransactionAborted);
        },
    }
    match import_pages(store, &payload.pages, &now) {
        Ok(_) => {},
        Err(_) => {
            store.abort();
            return Err(StoreError::TransactionAborted);
        },
    }
    match import_tasks(store, &payload.tasks, &now) {
        Ok(_) => {},
        Err(_) => {
            store.abort();
            return Err(StoreError::TransactionAborted);
        },
    }
    match import_goals(store, &payload.goals, &now) {
        Ok(_) => {},
        Err(_) => {
            store.abort();
            return Err(StoreError::TransactionAborted);
        },
    }
    match import_habits(store, &payload.habits, &now) {
        Ok(_) => {},
        Err(_) => {
            store.abort();
            return Err(StoreError::TransactionAborted);
        },
    }
    match import_logs(store, &payload.habit_logs, &now, today) {
        Ok(_) => {},
        Err(_) => {
            store.abort();
            return Err(StoreError::TransactionAborted);
        },
    }
    match store.commit() {
        Ok(_) => {
            proof {
                if payload_ready(payload) {
                    assert(store_tables(*final(store)) =~= apply_payload(base, payload, *today));
                }
                assert(base == import_base(store_tables(*old(store)), replace_existing));
                assert(import_outcome(
                    import_base(store_tables(*old(store)), replace_existing),
                    payload,
                    store_tables(*final(store)),
                    now@,
                    *today,
                ));
            }
            Ok(())
        },
        Err(_) => {
            store.abort();
            Err(StoreError::TransactionAborted)
        },
    }
}

/// The backup round trip: a snapshot that lists a normalized store exactly
/// (as `export_backup` produces), imported over an empty store, rebuilds
/// that store's contents exactly -- regardless of the day it is imported on.
pub proof fn lemma_backup_round_trip(p: BackupPayload, m: StoreModel, today: Date)
    requires
        payload_lists(p, m),
        model_wf(m),
        valid_date(today),
    ensures
        apply_payload(StoreModel::empty(), p, today) == m,
{
    assert forall|i: int| 0 <= i < p.tasks@.len() implies task_import_pairs(p.tasks@)[i]
        == raw_task_pairs(p.tasks@)[i] by {
        lemma_pairs_map_index(Map::<int, TaskData>::empty(), raw_task_pairs(p.tasks@), i);
        let t = p.tasks@[i];
        let d = raw_task_pair(t).1;
        assert(m.tasks.dom().contains(raw_task_pair(t).0));
        assert(task_data_wf(d));
        assert(task_import_pair(t).1 =~= d);
    }
    assert(task_import_pairs(p.tasks@) =~= raw_task_pairs(p.tasks@));
    assert forall|i: int| 0 <= i < p.goals@.len() implies goal_import_pairs(p.goals@)[i]
        == raw_goal_pairs(p.goals@)[i] by {
        lemma_pairs_map_index(Map::<int, GoalData>::empty(), raw_goal_pairs(p.goals@), i);
        let g = p.goals@[i];
        let d = raw_goal_pair(g).1;
        assert(m.goals.dom().contains(raw_goal_pair(g).0));
        assert(goal_data_wf(d));
        assert(goal_import_pair(g).1 =~= d);
    }
    assert(goal_import_pairs(p.goals@) =~= raw_goal_pairs(p.goals@));
    assert forall|i: int| 0 <= i < p.habits@.len() implies habit_import_pairs(p.habits@)[i]
        == raw_habit_pairs(p.habits@)[i] by {
        lemma_pairs_map_index(Map::<int, HabitData>::empty(), raw_habit_pairs(p.habits@), i);
        let h = p.habits@[i];
        let d = raw_habit_pair(h).1;
        assert(m.habits.dom().contains(raw_habit_pair(h).0));
        assert(habit_data_wf(d));
        assert(habit_import_pair(h).1 =~= d);
    }
    assert(habit_import_pairs(p.habits@) =~= raw_habit_pairs(p.habits@));
    assert forall|i: int| 0 <= i < p.habit_logs@.len() implies log_import_pairs(
        p.habit_logs@,
        today,
    )[i] == raw_log_pairs(p.habit_logs@)[i] by {
        lemma_pairs_map_index(Map::<int, LogData>::empty(), raw_log_pairs(p.habit_logs@), i);
        let l = p.habit_logs@[i];
        let d = raw_log_pair(l).1;
        assert(m.habit_logs.dom().contains(raw_log_pair(l).0));
        assert(log_data_wf(d));
        assert(log_import_pair(l, today).1 =~= d);
    }
    assert(log_import_pairs(p.habit_logs@, today) =~= raw_log_pairs(p.habit_logs@));
    let rebuilt = apply_payload(StoreModel::empty(), p, today);
    assert(rebuilt.entries == m.entries);
    assert(rebuilt.pages == m.pages);
    assert(rebuilt.tasks == m.tasks);
    assert(rebuilt.goals == m.goals);
    assert(rebuilt.habits == m.habits);
    assert(rebuilt.habit_logs == m.habit_logs);
    assert(rebuilt =~= m);
}

} // verus!
