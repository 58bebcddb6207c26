use vstd::prelude::*;
use crate::error::StoreError;
use crate::store::{Store, store_tables, store_in_txn, task_pairs, lists_table, dml_ok};
use crate::records::{Task, TaskData, task_data_wf};
use crate::norm::{
    normalize_status, normalize_priority, normalize_time_estimate_minutes, spec_normalize_status,
    spec_normalize_priority, spec_normalize_time_estimate, spec_opt_view, spec_opt_i64,
};
use crate::clock::{now_rfc3339, elapsed_since, rfc3339_unix};
use crate::util::{str_eq, lex_le};

verus! {

// The task repository, including the work-timer state machine.  A task's
// timer is stopped (no start stamp) or running; transitioning a task into
// done folds the running time into the accumulated total and stops the
// timer, so a done task is never observed with a running timer.

/// Every task of a table satisfies the task invariant.
pub open spec fn tasks_wf(m: Map<int, TaskData>) -> bool {
    forall|k: int| m.dom().contains(k) ==> task_data_wf(#[trigger] m[k])
}

/// All tasks, most recently updated first.
pub fn get_tasks(store: &Store) -> (r: Result<Vec<Task>, StoreError>)
    ensures
        r matches Ok(rows) ==> {
            &&& lists_table(task_pairs(rows@), store_tables(*store).tasks)
            &&& forall|i: int, j: int|
                0 <= i < j < rows@.len() ==> lex_le(
                    (#[trigger] rows@[j]).updated_at@,
                    (#[trigger] rows@[i]).updated_at@,
                )
        },
{
    store.select_tasks()
}

/// The saturating sum that folds elapsed seconds into an accumulated total.
pub open spec fn spec_sat_add(acc: int, e: int) -> int {
    if acc + e > i64::MAX as int {
        i64::MAX as int
    } else {
        acc + e
    }
}

/// Adds drawn elapsed seconds to the accumulated total, exactly as
/// `spec_sat_add`: saturating instead of overflowing.
pub(crate) fn fold_elapsed(e: i64, acc: i64) -> (r: i64)
    requires
        e >= 0,
    ensures
        r as int == spec_sat_add(acc as int, e as int),
        r >= acc,
{
    if acc <= i64::MAX - e {
        acc + e
    } else {
        i64::MAX
    }
}

/// The elapsed seconds of a possibly-running timer: zero for a stopped timer
/// and for a start stamp that does not parse; never negative.
pub(crate) fn timer_elapsed(timer_started_at: &Option<String>) -> (e: i64)
    ensures
        e >= 0,
        timer_started_at is None ==> e == 0,
        (timer_started_at matches Some(s) && rfc3339_unix(s@) is None) ==> e == 0,
{
    match timer_started_at {
        Some(s) => elapsed_since(s.as_str()),
        None => 0,
    }
}

/// Creates a task from user input: status, priority and estimate are
/// normalized, the timer starts stopped and empty, and the completion stamp
/// is present exactly when the task is created done.
pub fn create_task(
    store: &mut Store,
    title: String,
    description: String,
    status: String,
    priority: Option<String>,
    due_date: Option<String>,
    time_estimate_minutes: Option<i64>,
) -> (r: Result<Task, StoreError>)
    requires
        !store_in_txn(*old(store)),
    ensures
        !store_in_txn(*final(store)),
        r matches Ok(t) ==> {
            let pre = store_tables(*old(store));
            &&& dml_ok(*old(store), *final(store))
            &&& !pre.tasks.dom().contains(t.id as int)
            &&& store_tables(*final(store)) == pre.with_tasks(
                pre.tasks.insert(t.id as int, t.data()),
            )
            &&& t.title == title
            &&& t.description == description
            &&& t.status@ == spec_normalize_status(status@)
            &&& t.priority@ == spec_normalize_priority(spec_opt_view(priority))
            &&& t.due_date == due_date
            &&& t.time_estimate_minutes as int == spec_normalize_time_estimate(
                spec_opt_i64(time_estimate_minutes),
            )
            &&& t.timer_started_at is None
            &&& t.timer_accumulated_seconds == 0
            &&& t.created_at@ == t.updated_at@
            &&& task_data_wf(t.data())
            &&& tasks_wf(pre.tasks) ==> tasks_wf(store_tables(*final(store)).tasks)
        },
        r is Err ==> store_tables(*final(store)) == store_tables(*old(store)),
{
    let now = now_rfc3339();
    let status = normalize_status(status);
    let priority = normalize_priority(priority);
    let completed_at: Option<String> = if str_eq(status.as_str(), "done") {
        Some(now.clone())
    } else {
        None
    };
    let time_estimate_minutes = normalize_time_estimate_minutes(time_estimate_minutes);
    let timer_started_at: Option<String> = None;
    let timer_accumulated_seconds: i64 = 0;
    match store.insert_task(
        title.as_str(),
        description.as_str(),
        status.as_str(),
        priority.as_str(),
        &due_date,
        &completed_at,
        time_estimate_minutes,
        &timer_started_at,
        timer_accumulated_seconds,
        now.as_str(),
        now.as_str(),
    ) {
        Ok(id) => {
            let task = Task {
                id,
                title,
                description,
                status,
                priority,
                due_date,
                completed_at,
                time_estimate_minutes,
                timer_started_at,
                timer_accumulated_seconds,
                created_at: now.clone(),
                updated_at: now,
            };
            proof {
                let pre = store_tables(*old(store));
                let post = store_tables(*final(store));
                assert(task_data_wf(task.data()));
                if tasks_wf(pre.tasks) {
                    assert forall|k: int| post.tasks.dom().contains(k) implies task_data_wf(
                        post.tasks[k],
                    ) by {
                        if k != id as int {
                            assert(post.tasks[k] == pre.tasks[k]);
                        }
                    }
                }
            }
            Ok(task)
        },
        Err(e) => {
            proof {
                crate::store::lemma_dml_err_outside_txn(*old(store), *final(store));
            }
            Err(e)
        },
    }
}

/// What a full task edit leaves in the store for the edited row: the new
/// content and normalized fields, the preserved creation stamp, and the
/// timer folded and stopped exactly on a transition into done.
pub open spec fn task_edited(
    pre_t: TaskData,
    post_t: TaskData,
    title: Seq<char>,
    description: Seq<char>,
    status: Seq<char>,
    priority: Option<Seq<char>>,
    due_date: Option<Seq<char>>,
    time_estimate_minutes: Option<int>,
) -> bool {
    &&& post_t.title == title
    &&& post_t.description == description
    &&& post_t.status == spec_normalize_status(status)
    &&& post_t.priority == spec_normalize_priority(priority)
    &&& post_t.due_date == due_date
    &&& post_t.time_estimate_minutes == spec_normalize_time_estimate(time_estimate_minutes)
    &&& post_t.created_at == pre_t.created_at
    &&& post_t.timer_accumulated_seconds >= pre_t.timer_accumulated_seconds
    &&& post_t.status == "done"@ ==> post_t.timer_started_at is None && post_t.completed_at
        is Some
    &&& post_t.status != "done"@ ==> post_t.timer_started_at == pre_t.timer_started_at
        && post_t.completed_at is None && post_t.timer_accumulated_seconds
        == pre_t.timer_accumulated_seconds
    &&& (post_t.status == "done"@ && pre_t.timer_started_at is None) ==> post_t
        .timer_accumulated_seconds == pre_t.timer_accumulated_seconds
    &&& (post_t.status == "done"@ && pre_t.timer_started_at is Some) ==> (exists|e: int|
        0 <= e && #[trigger] spec_sat_add(pre_t.timer_accumulated_seconds, e) == post_t
            .timer_accumulated_seconds && (rfc3339_unix(pre_t.timer_started_at->0) is None ==> e
            == 0))
}

/// Edits a task in full.  An absent identifier is a no-op.  The edit keeps
/// the task invariant: transitioning into done folds a running timer into
/// the total and stops it; any status away from done clears the completion
/// stamp; an edit that does not touch done leaves a running timer running.
pub fn update_task(
    store: &mut Store,
    id: i64,
    title: String,
    description: String,
    status: String,
    priority: Option<String>,
    due_date: Option<String>,
    time_estimate_minutes: Option<i64>,
) -> (r: Result<(), StoreError>)
    requires
        !store_in_txn(*old(store)),
    ensures
        !store_in_txn(*final(store)),
        r matches Ok(_) ==> {
            let pre = store_tables(*old(store));
            let post = store_tables(*final(store));
            &&& dml_ok(*old(store), *final(store))
            &&& !pre.tasks.dom().contains(id as int) ==> post == pre
            &&& pre.tasks.dom().contains(id as int) ==> {
                &&& post == pre.with_tasks(post.tasks)
                &&& post.tasks.dom() =~= pre.tasks.dom()
                &&& task_edited(
                    pre.tasks[id as int],
                    post.tasks[id as int],
                    title@,
                    description@,
                    status@,
                    spec_opt_view(priority),
                    spec_opt_view(due_date),
                    spec_opt_i64(time_estimate_minutes),
                )
                &&& forall|k: int|
                    pre.tasks.dom().contains(k) && k != id as int ==> post.tasks[k]
                        == pre.tasks[k]
                &&& tasks_wf(pre.tasks) ==> tasks_wf(post.tasks)
            }
        },
        r is Err ==> store_tables(*final(store)) == store_tables(*old(store)),
{
    let existing = match store.get_task_row(id) {
        Ok(e) => e,
        Err(e) => {
            return Err(e);
        },
    };
    let row = match existing {
        None => {
            return Ok(());
        },
        Some(row) => row,
    };
    let now = now_rfc3339();
    let status = normalize_status(status);
    let priority = normalize_priority(priority);
    let time_estimate_minutes = normalize_time_estimate_minutes(time_estimate_minutes);
    let is_done = str_eq(status.as_str(), "done");
    let timer_accumulated_seconds: i64 = if is_done {
        let e = timer_elapsed(&row.timer_started_at);
        fold_elapsed(e, row.timer_accumulated_seconds)
    } else {
        row.timer_accumulated_seconds
    };
    let timer_started_at: Option<String> = if is_done {
        None
    } else {
        row.timer_started_at
    };
    let completed_at: Option<String> = if is_done {
        Some(now.clone())
    } else {
        None
    };
    match store.upsert_task(
        id,
        title.as_str(),
        description.as_str(),
        status.as_str(),
        priority.as_str(),
        &due_date,
        &completed_at,
        time_estimate_minutes,
        &timer_started_at,
        timer_accumulated_seconds,
        row.created_at.as_str(),
        now.as_str(),
    ) {
        Ok(_) => {
            proof {
                let pre = store_tables(*old(store));
                let post = store_tables(*final(store));
                assert(post.tasks.dom() =~= pre.tasks.dom());
                if tasks_wf(pre.tasks) {
                    assert(task_data_wf(pre.tasks[id as int]));
                    assert(task_data_wf(post.tasks[id as int]));
                    assert forall|k: int| post.tasks.dom().contains(k) implies task_data_wf(
                        post.tasks[k],
                    ) by {
                        if k != id as int {
                            assert(post.tasks[k] == pre.tasks[k]);
                        }
                    }
                }
            }
            Ok(())
        },
        Err(e) => {
            proof {
                crate::store::lemma_dml_err_outside_txn(*old(store), *final(store));
            }
            Err(e)
        },
    }
}

/// Changes only a task's status, under the same timer and completion rules
/// as a full edit; all other fields are preserved.  An absent identifier is
/// a no-op.
pub fn update_task_status(store: &mut Store, id: i64, status: String) -> (r: Result<
    (),
    StoreError,
>)
    requires
        !store_in_txn(*old(store)),
    ensures
        !store_in_txn(*final(store)),
        r matches Ok(_) ==> {
            let pre = store_tables(*old(store));
            let post = store_tables(*final(store));
            &&& dml_ok(*old(store), *final(store))
            &&& !pre.tasks.dom().contains(id as int) ==> post == pre
            &&& pre.tasks.dom().contains(id as int) ==> {
                &&& post == pre.with_tasks(post.tasks)
                &&& post.tasks.dom() =~= pre.tasks.dom()
                &&& task_status_changed(pre.tasks[id as int], post.tasks[id as int], status@)
                &&& forall|k: int|
                    pre.tasks.dom().contains(k) && k != id as int ==> post.tasks[k]
                        == pre.tasks[k]
                &&& tasks_wf(pre.tasks) ==> tasks_wf(post.tasks)
            }
        },
        r is Err ==> store_tables(*final(store)) == store_tables(*old(store)),
{
    let existing = match store.get_task_row(id) {
        Ok(e) => e,
        Err(e) => {
            return Err(e);
        },
    };
    let row = match existing {
        None => {
            return Ok(());
        },
        Some(row) => row,
    };
    let now = now_rfc3339();
    let status = normalize_status(status);
    let is_done = str_eq(status.as_str(), "done");
    let timer_accumulated_seconds: i64 = if is_done {
        let e = timer_elapsed(&row.timer_started_at);
        fold_elapsed(e, row.timer_accumulated_seconds)
    } else {
        row.timer_accumulated_seconds
    };
    let timer_started_at: Option<String> = if is_done {
        None
    } else {
        row.timer_started_at
    };
    let completed_at: Option<String> = if is_done {
        Some(now.clone())
    } else {
        None
    };
    match store.upsert_task(
        id,
        row.title.as_str(),
        row.description.as_str(),
        status.as_str(),
        row.priority.as_str(),
        &row.due_date,
        &completed_at,
        row.time_estimate_minutes,
        &timer_started_at,
        timer_accumulated_seconds,
        row.created_at.as_str(),
        now.as_str(),
    ) {
        Ok(_) => {
            proof {
                let pre = store_tables(*old(store));
                let post = store_tables(*final(store));
                assert(post.tasks.dom() =~= pre.tasks.dom());
                if tasks_wf(pre.tasks) {
                    assert(task_data_wf(post.tasks[id as int]));
                    assert forall|k: int| post.tasks.dom().contains(k) implies task_data_wf(
                        post.tasks[k],
                    ) by {
                        if k != id as int {
                            assert(post.tasks[k] == pre.tasks[k]);
                        }
                    }
                }
            }
            Ok(())
        },
        Err(e) => {
            proof {
                crate::store::lemma_dml_err_outside_txn(*old(store), *final(store));
            }
            Err(e)
        },
    }
}

/// Starts a task's work timer: a no-op when the task cannot be found or its
/// timer is already running; otherwise the timer starts now, and a done task
/// is demoted to in-progress with its completion stamp cleared (starting a
/// timer means the work resumed).
pub fn start_task_timer(store: &mut Store, id: i64) -> (r: Result<(), StoreError>)
    requires
        !store_in_txn(*old(store)),
    ensures
        !store_in_txn(*final(store)),
        r matches Ok(_) ==> {
            let pre = store_tables(*old(store));
            let post = store_tables(*final(store));
            &&& dml_ok(*old(store), *final(store))
            &&& !pre.tasks.dom().contains(id as int) ==> post == pre
            &&& (pre.tasks.dom().contains(id as int) && pre.tasks[id as int].timer_started_at
                is Some) ==> post == pre
            &&& (pre.tasks.dom().contains(id as int) && pre.tasks[id as int].timer_started_at
                is None) ==> {
                let pre_t = pre.tasks[id as int];
                let post_t = post.tasks[id as int];
                &&& post == pre.with_tasks(post.tasks)
                &&& post.tasks.dom() =~= pre.tasks.dom()
                &&& post_t.title == pre_t.title
                &&& post_t.description == pre_t.description
                &&& post_t.priority == pre_t.priority
                &&& post_t.due_date == pre_t.due_date
                &&& post_t.time_estimate_minutes == pre_t.time_estimate_minutes
                &&& post_t.created_at == pre_t.created_at
                &&& post_t.timer_accumulated_seconds == pre_t.timer_accumulated_seconds
                &&& post_t.status == if pre_t.status == "done"@ {
                    "in_progress"@
                } else {
                    pre_t.status
                }
                &&& post_t.completed_at is None
                &&& post_t.timer_started_at is Some
                &&& forall|k: int|
                    pre.tasks.dom().contains(k) && k != id as int ==> post.tasks[k]
                        == pre.tasks[k]
                &&& tasks_wf(pre.tasks) ==> tasks_wf(post.tasks)
            }
        },
        r is Err ==> store_tables(*final(store)) == store_tables(*old(store)),
{
    let existing = match store.get_task_row(id) {
        Ok(e) => e,
        Err(e) => {
            return Err(e);
        },
    };
    let row = match existing {
        None => {
            return Ok(());
        },
        Some(row) => row,
    };
    if row.timer_started_at.is_some() {
        return Ok(());
    }
    let now = now_rfc3339();
    let next_status: String = if str_eq(row.status.as_str(), "done") {
        "in_progress".to_owned()
    } else {
        row.status
    };
    let completed_at: Option<String> = None;
    let timer_started_at: Option<String> = Some(now.clone());
    match store.upsert_task(
        id,
        row.title.as_str(),
        row.description.as_str(),
        next_status.as_str(),
        row.priority.as_str(),
        &row.due_date,
        &completed_at,
        row.time_estimate_minutes,
        &timer_started_at,
        row.timer_accumulated_seconds,
        row.created_at.as_str(),
        now.as_str(),
    ) {
        Ok(_) => {
            proof {
                let pre = store_tables(*old(store));
                let post = store_tables(*final(store));
                assert(post.tasks.dom() =~= pre.tasks.dom());
                reveal_strlit("todo");
                reveal_strlit("in_progress");
                reveal_strlit("done");
                assert("in_progress"@.len() == 11);
                assert("todo"@.len() == 4);
                assert("done"@.len() == 4);
                assert("in_progress"@ != "done"@);
                assert("todo"@[0] == 't' && "done"@[0] == 'd');
                assert("todo"@ != "done"@);
                if tasks_wf(pre.tasks) {
                    assert(task_data_wf(post.tasks[id as int]));
                    assert forall|k: int| post.tasks.dom().contains(k) implies task_data_wf(
                        post.tasks[k],
                    ) by {
                        if k != id as int {
                            assert(post.tasks[k] == pre.tasks[k]);
                        }
                    }
                }
            }
            Ok(())
        },
        Err(e) => {
            proof {
                crate::store::lemma_dml_err_outside_txn(*old(store), *final(store));
            }
            Err(e)
        },
    }
}

/// Pauses a task's work timer: a no-op when the task cannot be found or the
/// timer is not running; otherwise the elapsed time since the start (floored
/// at zero; zero when the start stamp does not parse) is added to the
/// accumulated total and the timer stops.
pub fn pause_task_timer(store: &mut Store, id: i64) -> (r: Result<(), StoreError>)
    requires
        !store_in_txn(*old(store)),
    ensures
        !store_in_txn(*final(store)),
        r matches Ok(_) ==> {
            let pre = store_tables(*old(store));
            let post = store_tables(*final(store));
            &&& dml_ok(*old(store), *final(store))
            &&& !pre.tasks.dom().contains(id as int) ==> post == pre
            &&& (pre.tasks.dom().contains(id as int) && pre.tasks[id as int].timer_started_at
                is None) ==> post == pre
            &&& (pre.tasks.dom().contains(id as int) && pre.tasks[id as int].timer_started_at
                is Some) ==> {
                let pre_t = pre.tasks[id as int];
                let post_t = post.tasks[id as int];
                &&& post == pre.with_tasks(post.tasks)
                &&& post.tasks.dom() =~= pre.tasks.dom()
                &&& post_t.title == pre_t.title
                &&& post_t.description == pre_t.description
                &&& post_t.status == pre_t.status
                &&& post_t.priority == pre_t.priority
                &&& post_t.due_date == pre_t.due_date
                &&& post_t.completed_at == pre_t.completed_at
                &&& post_t.time_estimate_minutes == pre_t.time_estimate_minutes
                &&& post_t.created_at == pre_t.created_at
                &&& post_t.timer_started_at is None
                &&& post_t.timer_accumulated_seconds >= pre_t.timer_accumulated_seconds
                &&& (exists|e: int|
                    0 <= e && #[trigger] spec_sat_add(pre_t.timer_accumulated_seconds, e) == post_t
                        .timer_accumulated_seconds && (rfc3339_unix(pre_t.timer_started_at->0)
                        is None ==> e == 0))
                &&& forall|k: int|
                    pre.tasks.dom().contains(k) && k != id as int ==> post.tasks[k]
                        == pre.tasks[k]
                &&& tasks_wf(pre.tasks) ==> tasks_wf(post.tasks)
            }
        },
        r is Err ==> store_tables(*final(store)) == store_tables(*old(store)),
{
    let existing = match store.get_task_row(id) {
        Ok(e) => e,
        Err(e) => {
            return Err(e);
        },
    };
    let row = match existing {
        None => {
            return Ok(());
        },
        Some(row) => row,
    };
    if row.timer_started_at.is_none() {
        return Ok(());
    }
    let now = now_rfc3339();
    let elapsed = timer_elapsed(&row.timer_started_at);
    let timer_accumulated_seconds = fold_elapsed(elapsed, row.timer_accumulated_seconds);
    let timer_started_at: Option<String> = None;
    match store.upsert_task(
        id,
        row.title.as_str(),
        row.description.as_str(),
        row.status.as_str(),
        row.priority.as_str(),
        &row.due_date,
        &row.completed_at,
        row.time_estimate_minutes,
        &timer_started_at,
        timer_accumulated_seconds,
        row.created_at.as_str(),
        now.as_str(),
    ) {
        Ok(_) => {
            proof {
                let pre = store_tables(*old(store));
                let post = store_tables(*final(store));
                assert(post.tasks.dom() =~= pre.tasks.dom());
                assert(0 <= elapsed as int && spec_sat_add(
                    pre.tasks[id as int].timer_accumulated_seconds,
                    elapsed as int,
                ) == post.tasks[id as int].timer_accumulated_seconds);
                if tasks_wf(pre.tasks) {
                    assert(task_data_wf(post.tasks[id as int]));
                    assert forall|k: int| post.tasks.dom().contains(k) implies task_data_wf(
                        post.tasks[k],
                    ) by {
                        if k != id as int {
                            assert(post.tasks[k] == pre.tasks[k]);
                        }
                    }
                }
            }
            Ok(())
        },
        Err(e) => {
            proof {
                crate::store::lemma_dml_err_outside_txn(*old(store), *final(store));
            }
            Err(e)
        },
    }
}

/// Resets a task's work timer unconditionally: the timer stops and the
/// accumulated total returns to zero.  An absent identifier is a no-op.
pub fn reset_task_timer(store: &mut Store, id: i64) -> (r: Result<(), StoreError>)
    requires
        !store_in_txn(*old(store)),
    ensures
        !store_in_txn(*final(store)),
        r matches Ok(_) ==> {
            let pre = store_tables(*old(store));
            let post = store_tables(*final(store));
            &&& dml_ok(*old(store), *final(store))
            &&& !pre.tasks.dom().contains(id as int) ==> post == pre
            &&& pre.tasks.dom().contains(id as int) ==> {
                let pre_t = pre.tasks[id as int];
                let post_t = post.tasks[id as int];
                &&& post == pre.with_tasks(post.tasks)
                &&& post.tasks.dom() =~= pre.tasks.dom()
                &&& post_t.title == pre_t.title
                &&& post_t.description == pre_t.description
                &&& post_t.status == pre_t.status
                &&& post_t.priority == pre_t.priority
                &&& post_t.due_date == pre_t.due_date
                &&& post_t.completed_at == pre_t.completed_at
                &&& post_t.time_estimate_minutes == pre_t.time_estimate_minutes
                &&& post_t.created_at == pre_t.created_at
                &&& post_t.timer_started_at is None
                &&& post_t.timer_accumulated_seconds == 0
                &&& forall|k: int|
                    pre.tasks.dom().contains(k) && k != id as int ==> post.tasks[k]
                        == pre.tasks[k]
                &&& tasks_wf(pre.tasks) ==> tasks_wf(post.tasks)
            }
        },
        r is Err ==> store_tables(*final(store)) == store_tables(*old(store)),
{
    let existing = match store.get_task_row(id) {
        Ok(e) => e,
        Err(e) => {
            return Err(e);
        },
    };
    let row = match existing {
        None => {
            return Ok(());
        },
        Some(row) => row,
    };
    let now = now_rfc3339();
    let timer_started_at: Option<String> = None;
    match store.upsert_task(
        id,
        row.title.as_str(),
        row.description.as_str(),
        row.status.as_str(),
        row.priority.as_str(),
        &row.due_date,
        &row.completed_at,
        row.time_estimate_minutes,
        &timer_started_at,
        0,
        row.created_at.as_str(),
        now.as_str(),
    ) {
        Ok(_) => {
            proof {
                let pre = store_tables(*old(store));
                let post = store_tables(*final(store));
                assert(post.tasks.dom() =~= pre.tasks.dom());
                if tasks_wf(pre.tasks) {
                    assert(task_data_wf(post.tasks[id as int]));
                    assert forall|k: int| post.tasks.dom().contains(k) implies task_data_wf(
                        post.tasks[k],
                    ) by {
                        if k != id as int {
                            assert(post.tasks[k] == pre.tasks[k]);
                        }
                    }
                }
            }
            Ok(())
        },
        Err(e) => {
            proof {
                crate::store::lemma_dml_err_outside_txn(*old(store), *final(store));
            }
            Err(e)
        },
    }
}

/// Deletes a task; deleting an absent identifier is a no-op.
pub fn delete_task(store: &mut Store, id: i64) -> (r: Result<(), StoreError>)
    requires
        !store_in_txn(*old(store)),
    ensures
        !store_in_txn(*final(store)),
        r matches Ok(_) ==> dml_ok(*old(store), *final(store)) && store_tables(*final(store))
            == store_tables(*old(store)).with_tasks(
            store_tables(*old(store)).tasks.remove(id as int),
        ),
        r is Err ==> store_tables(*final(store)) == store_tables(*old(store)),
{
    match store.delete_task_row(id) {
        Ok(_) => Ok(()),
        Err(e) => {
            proof {
                crate::store::lemma_dml_err_outside_txn(*old(store), *final(store));
            }
            Err(e)
        },
    }
}

/// What a status-only change leaves of the edited row: everything but the
/// status, completion stamp, timer fields and update stamp is preserved.
pub open spec fn task_status_changed(pre_t: TaskData, post_t: TaskData, status: Seq<char>) -> bool {
    &&& post_t.title == pre_t.title
    &&& post_t.description == pre_t.description
    &&& post_t.priority == pre_t.priority
    &&& post_t.due_date == pre_t.due_date
    &&& post_t.time_estimate_minutes == pre_t.time_estimate_minutes
    &&& post_t.created_at == pre_t.created_at
    &&& post_t.status == spec_normalize_status(status)
    &&& post_t.timer_accumulated_seconds >= pre_t.timer_accumulated_seconds
    &&& post_t.status == "done"@ ==> post_t.timer_started_at is None && post_t.completed_at
        is Some
    &&& post_t.status != "done"@ ==> post_t.timer_started_at == pre_t.timer_started_at
        && post_t.completed_at is None && post_t.timer_accumulated_seconds
        == pre_t.timer_accumulated_seconds
    &&& (post_t.status == "done"@ && pre_t.timer_started_at is Some) ==> (exists|e: int|
        0 <= e && #[trigger] spec_sat_add(pre_t.timer_accumulated_seconds, e) == post_t
            .timer_accumulated_seconds && (rfc3339_unix(pre_t.timer_started_at->0) is None ==> e
            == 0))
}

} // verus!
