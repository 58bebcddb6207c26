use vstd::prelude::*;
use crate::error::StoreError;
use crate::store::{
    Store, store_tables, store_in_txn, habit_pairs, lists_table, dml_ok,
};
use crate::records::{Habit, HabitData, HabitWithLogs, LogData, habit_data_wf, log_data_wf};
use crate::norm::{
    normalize_target_per_week, normalize_habit_color, spec_normalize_target_per_week,
    spec_normalize_habit_color, spec_opt_view, spec_opt_i64, all_blank,
};
use crate::dates::{Date, valid_date, spec_day_number, spec_weekday_from_monday,
    normalize_habit_date, spec_normalize_habit_date};
use crate::metrics::{
    compute_current_streak, compute_this_week_count, day_num_set, str_views, is_streak_len,
    spec_count_in_window,
};
use crate::clock::now_rfc3339;
use crate::util::lex_le;

verus! {

// The habit repository: habits, their daily completion logs, and the joined
// read that computes the derived metrics from the logs on the fly.

/// Every habit of a table satisfies the habit invariant.
pub open spec fn habits_wf(m: Map<int, HabitData>) -> bool {
    forall|k: int| m.dom().contains(k) ==> habit_data_wf(#[trigger] m[k])
}

/// There is a log recording habit `h` on date `d`.
pub open spec fn has_log(m: Map<int, LogData>, h: int, d: Seq<char>) -> bool {
    exists|k: int|
        #[trigger] m.dom().contains(k) && m[k].habit_id == h && m[k].date == d
}

/// A normalized colour is never blank (and so never empty).
pub proof fn lemma_color_not_blank(c: Option<Seq<char>>)
    ensures
        !all_blank(spec_normalize_habit_color(c)),
        spec_normalize_habit_color(c).len() > 0,
{
    reveal_strlit("#60a5fa");
    assert("#60a5fa"@.len() == 7);
    assert("#60a5fa"@[0] == '#');
    assert(!crate::norm::is_blank_char('#'));
    match c {
        Some(s) => {
            if !all_blank(s) {
                if s.len() == 0 {
                    assert(all_blank(s));
                }
            }
        },
        None => {},
    }
}

/// Creates a habit from user input and returns it with its fresh identifier.
pub fn create_habit(
    store: &mut Store,
    title: String,
    description: String,
    target_per_week: Option<i64>,
    color: Option<String>,
) -> (r: Result<Habit, StoreError>)
    requires
        !store_in_txn(*old(store)),
    ensures
        !store_in_txn(*final(store)),
        r matches Ok(h) ==> {
            let pre = store_tables(*old(store));
            &&& dml_ok(*old(store), *final(store))
            &&& !pre.habits.dom().contains(h.id as int)
            &&& store_tables(*final(store)) == pre.with_habits(
                pre.habits.insert(h.id as int, h.data()),
            )
            &&& h.title == title
            &&& h.description == description
            &&& h.target_per_week as int == spec_normalize_target_per_week(
                spec_opt_i64(target_per_week),
            )
            &&& h.color@ == spec_normalize_habit_color(spec_opt_view(color))
            &&& h.created_at@ == h.updated_at@
            &&& habit_data_wf(h.data())
            &&& habits_wf(pre.habits) ==> habits_wf(store_tables(*final(store)).habits)
        },
        r is Err ==> store_tables(*final(store)) == store_tables(*old(store)),
{
    let now = now_rfc3339();
    let target_per_week = normalize_target_per_week(target_per_week);
    proof {
        lemma_color_not_blank(spec_opt_view(color));
    }
    let color = normalize_habit_color(color);
    match store.insert_habit(
        title.as_str(),
        description.as_str(),
        target_per_week,
        color.as_str(),
        now.as_str(),
        now.as_str(),
    ) {
        Ok(id) => {
            let habit = Habit {
                id,
                title,
                description,
                target_per_week,
                color,
                created_at: now.clone(),
                updated_at: now,
            };
            proof {
                let pre = store_tables(*old(store));
                let post = store_tables(*final(store));
                assert(habit_data_wf(habit.data()));
                if habits_wf(pre.habits) {
                    assert forall|k: int| post.habits.dom().contains(k) implies habit_data_wf(
                        post.habits[k],
                    ) by {
                        if k != id as int {
                            assert(post.habits[k] == pre.habits[k]);
                        }
                    }
                }
            }
            Ok(habit)
        },
        Err(e) => {
            proof {
                crate::store::lemma_dml_err_outside_txn(*old(store), *final(store));
            }
            Err(e)
        },
    }
}

/// Rewrites a habit under the same normalization as creation, preserving its
/// creation stamp.  An absent identifier is a no-op.
pub fn update_habit(
    store: &mut Store,
    id: i64,
    title: String,
    description: String,
    target_per_week: Option<i64>,
    color: Option<String>,
) -> (r: Result<(), StoreError>)
    requires
        !store_in_txn(*old(store)),
    ensures
        !store_in_txn(*final(store)),
        r matches Ok(_) ==> {
            let pre = store_tables(*old(store));
            let post = store_tables(*final(store));
            &&& dml_ok(*old(store), *final(store))
            &&& !pre.habits.dom().contains(id as int) ==> post == pre
            &&& pre.habits.dom().contains(id as int) ==> {
                &&& post == pre.with_habits(post.habits)
                &&& post.habits.dom() =~= pre.habits.dom()
                &&& post.habits[id as int].title == title@
                &&& post.habits[id as int].description == description@
                &&& post.habits[id as int].target_per_week == spec_normalize_target_per_week(
                    spec_opt_i64(target_per_week),
                )
                &&& post.habits[id as int].color == spec_normalize_habit_color(
                    spec_opt_view(color),
                )
                &&& post.habits[id as int].created_at == pre.habits[id as int].created_at
                &&& forall|k: int|
                    pre.habits.dom().contains(k) && k != id as int ==> post.habits[k]
                        == pre.habits[k]
                &&& habits_wf(pre.habits) ==> habits_wf(post.habits)
            }
        },
        r is Err ==> store_tables(*final(store)) == store_tables(*old(store)),
{
    let existing = match store.get_habit_row(id) {
        Ok(e) => e,
        Err(e) => {
            return Err(e);
        },
    };
    let row = match existing {
        None => {
            return Ok(());
        },
        Some(row) => row,
    };
    let now = now_rfc3339();
    let target_per_week = normalize_target_per_week(target_per_week);
    proof {
        lemma_color_not_blank(spec_opt_view(color));
    }
    let color = normalize_habit_color(color);
    match store.upsert_habit(
        id,
        title.as_str(),
        description.as_str(),
        target_per_week,
        color.as_str(),
        row.created_at.as_str(),
        now.as_str(),
    ) {
        Ok(_) => {
            proof {
                let pre = store_tables(*old(store));
                let post = store_tables(*final(store));
                assert(post.habits.dom() =~= pre.habits.dom());
                if habits_wf(pre.habits) {
                    assert(habit_data_wf(post.habits[id as int]));
                    assert forall|k: int| post.habits.dom().contains(k) implies habit_data_wf(
                        post.habits[k],
                    ) by {
                        if k != id as int {
                            assert(post.habits[k] == pre.habits[k]);
                        }
                    }
                }
            }
            Ok(())
        },
        Err(e) => {
            proof {
                crate::store::lemma_dml_err_outside_txn(*old(store), *final(store));
            }
            Err(e)
        },
    }
}

/// Deletes a habit and all its completion logs, atomically: either both are
/// gone, or the store is exactly as it was.
pub fn delete_habit(store: &mut Store, id: i64) -> (r: Result<(), StoreError>)
    requires
        !store_in_txn(*old(store)),
    ensures
        !store_in_txn(*final(store)),
        r matches Ok(_) ==> {
            let pre = store_tables(*old(store));
            let post = store_tables(*final(store));
            &&& post == pre.with_habits(pre.habits.remove(id as int)).with_habit_logs(
                pre.habit_logs.remove_keys(
                    Set::new(
                        |k: int|
                            pre.habit_logs.dom().contains(k) && pre.habit_logs[k].habit_id
                                == id as int,
                    ),
                ),
            )
        },
        r is Err ==> store_tables(*final(store)) == store_tables(*old(store)),
{
    match store.begin() {
        Ok(_) => {},
        Err(e) => {
            return Err(e);
        },
    }
    match store.delete_logs_by_habit(id) {
        Ok(_) => {},
        Err(_) => {
            store.abort();
            return Err(StoreError::TransactionAborted);
        },
    }
    match store.delete_habit_row(id) {
        Ok(_) => {},
        Err(_) => {
            store.abort();
            return Err(StoreError::TransactionAborted);
        },
    }
    match store.commit() {
        Ok(_) => Ok(()),
        Err(_) => {
            store.abort();
            Err(StoreError::TransactionAborted)
        },
    }
}

/// The dates carried by a joined habit record are exactly the dates of that
/// habit's logs, each once, newest first.
pub open spec fn habit_dates_ok(hw: HabitWithLogs, logs: Map<int, LogData>) -> bool {
    &&& forall|i: int|
        0 <= i < hw.completed_dates@.len() ==> has_log(
            logs,
            hw.id as int,
            (#[trigger] hw.completed_dates@[i])@,
        )
    &&& forall|k: int|
        logs.dom().contains(k) && (#[trigger] logs[k]).habit_id == hw.id as int ==> exists|i: int|
            0 <= i < hw.completed_dates@.len() && (#[trigger] hw.completed_dates@[i])@ == logs[k].date
    &&& forall|i: int, j: int|
        0 <= i < j < hw.completed_dates@.len() ==> (#[trigger] hw.completed_dates@[i])@ != (
        #[trigger] hw.completed_dates@[j])@
    &&& forall|i: int, j: int|
        0 <= i < j < hw.completed_dates@.len() ==> lex_le(
            (#[trigger] hw.completed_dates@[j])@,
            (#[trigger] hw.completed_dates@[i])@,
        )
}

/// The derived metrics of a joined habit record are the pure streak and
/// weekly-count functions of its dates and the given today.
pub open spec fn habit_metrics_ok(hw: HabitWithLogs, today: Date) -> bool {
    let s = day_num_set(str_views(hw.completed_dates@));
    let t = spec_day_number(today);
    &&& hw.current_streak >= 0
    &&& (!s.contains(t) && !s.contains(t - 1)) ==> hw.current_streak == 0
    &&& s.contains(t) ==> is_streak_len(s, t, hw.current_streak as int)
    &&& (!s.contains(t) && s.contains(t - 1)) ==> is_streak_len(s, t - 1, hw.current_streak as int)
    &&& hw.this_week_count as int == spec_count_in_window(
        s,
        t - spec_weekday_from_monday(t),
        7,
    )
    &&& 0 <= hw.this_week_count <= 7
}

pub open spec fn hwl_pairs(rows: Seq<HabitWithLogs>) -> Seq<(int, HabitData)> {
    rows.map_values(|h: HabitWithLogs| (h.id as int, h.habit_data()))
}

/// All habits joined with their completion dates (newest first) and the
/// derived metrics, computed against the given today; habits are listed most
/// recently updated first.
/// Joins one habit with its log dates and metrics.
fn join_habit(store: &Store, h: &Habit, today: &Date) -> (r: Result<HabitWithLogs, StoreError>)
    requires
        valid_date(*today),
    ensures
        r matches Ok(hw) ==> {
            &&& hw.id == h.id
            &&& hw.habit_data() == h.data()
            &&& hw.updated_at@ == h.updated_at@
            &&& habit_dates_ok(hw, store_tables(*store).habit_logs)
            &&& habit_metrics_ok(hw, *today)
        },
{
    let completed_dates = match store.select_log_dates(h.id) {
        Ok(v) => v,
        Err(e) => {
            return Err(e);
        },
    };
    let ghost dsv = completed_dates@;
    let current_streak = compute_current_streak(&completed_dates, today);
    let this_week_count = compute_this_week_count(&completed_dates, today);
    let joined = HabitWithLogs {
        id: h.id,
        title: h.title.clone(),
        description: h.description.clone(),
        target_per_week: h.target_per_week,
        color: h.color.clone(),
        completed_dates,
        current_streak,
        this_week_count,
        created_at: h.created_at.clone(),
        updated_at: h.updated_at.clone(),
    };
    proof {
        assert(joined.habit_data() =~= h.data());
        let logs = store_tables(*store).habit_logs;
        assert(joined.completed_dates@ == dsv);
        assert forall|k: int|
            logs.dom().contains(k) && (#[trigger] logs[k]).habit_id
                == joined.id as int implies exists|i: int|
            0 <= i < joined.completed_dates@.len() && (#[trigger] joined.completed_dates@[i])@
                == logs[k].date by {
            assert(store_tables(*store).habit_logs.dom().contains(k)
                && store_tables(*store).habit_logs[k].habit_id == h.id as int);
            assert(exists|i: int| 0 <= i < dsv.len() && dsv[i]@ == logs[k].date);
            let w = choose|i: int| 0 <= i < dsv.len() && dsv[i]@ == logs[k].date;
            assert(0 <= w < joined.completed_dates@.len() && joined.completed_dates@[w]@
                == logs[k].date);
        }
    }
    Ok(joined)
}

#[verifier::rlimit(50)]
pub fn get_habits(store: &Store, today: &Date) -> (r: Result<Vec<HabitWithLogs>, StoreError>)
    requires
        valid_date(*today),
    ensures
        r matches Ok(rows) ==> {
            &&& lists_table(hwl_pairs(rows@), store_tables(*store).habits)
            &&& forall|i: int, j: int|
                0 <= i < j < rows@.len() ==> lex_le(
                    (#[trigger] rows@[j]).updated_at@,
                    (#[trigger] rows@[i]).updated_at@,
                )
            &&& forall|i: int|
                0 <= i < rows@.len() ==> habit_dates_ok(
                    #[trigger] rows@[i],
                    store_tables(*store).habit_logs,
                )
            &&& forall|i: int| 0 <= i < rows@.len() ==> habit_metrics_ok(#[trigger] rows@[i], *today)
        },
{
    let hrows = match store.select_habits() {
        Ok(v) => v,
        Err(e) => {
            return Err(e);
        },
    };
    let ghost hseq = hrows@;
    let mut out: Vec<HabitWithLogs> = Vec::new();
    let n = hrows.len();
    let mut i: usize = 0;
    while i < n
        invariant
            n == hseq.len(),
            hseq == hrows@,
            valid_date(*today),
            out@.len() == i,
            i <= n,
            forall|j: int|
                0 <= j < i ==> (#[trigger] out@[j]).id == hseq[j].id && out@[j].habit_data()
                    == hseq[j].data() && out@[j].updated_at@ == hseq[j].updated_at@,
            forall|j: int|
                0 <= j < i ==> habit_dates_ok(#[trigger] out@[j], store_tables(*store).habit_logs),
            forall|j: int| 0 <= j < i ==> habit_metrics_ok(#[trigger] out@[j], *today),
        decreases n - i,
    {
        let h = &hrows[i];
        let joined = match join_habit(store, h, today) {
            Ok(v) => v,
            Err(e) => {
                return Err(e);
            },
        };
        out.push(joined);
        i = i + 1;
    }
    proof {
        let ghost_pairs = hwl_pairs(out@);
        let base_pairs = crate::store::habit_pairs(hseq);
        assert forall|j: int| 0 <= j < ghost_pairs.len() implies ghost_pairs[j] == base_pairs[j] by {
            assert(out@[j].habit_data() == hseq[j].data());
        }
        assert(ghost_pairs =~= base_pairs);
    }
    Ok(out)
}

/// Outside the slot of habit `h` on date `d`, the two log tables agree.
pub open spec fn logs_agree_outside(
    pre: Map<int, LogData>,
    post: Map<int, LogData>,
    h: int,
    d: Seq<char>,
) -> bool {
    &&& forall|k: int|
        post.dom().contains(k) && !((#[trigger] post[k]).habit_id == h && post[k].date == d)
            ==> pre.dom().contains(k) && pre[k] == post[k]
    &&& forall|k: int|
        pre.dom().contains(k) && !((#[trigger] pre[k]).habit_id == h && pre[k].date == d)
            ==> post.dom().contains(k) && post[k] == pre[k]
}

/// The habit row's update stamp was refreshed and nothing else of the habits
/// table changed; an unknown habit leaves the table as it was.
pub open spec fn habit_touched(pre: Map<int, HabitData>, post: Map<int, HabitData>, h: int) -> bool {
    if pre.dom().contains(h) {
        &&& post.dom() =~= pre.dom()
        &&& post[h].title == pre[h].title
        &&& post[h].description == pre[h].description
        &&& post[h].target_per_week == pre[h].target_per_week
        &&& post[h].color == pre[h].color
        &&& post[h].created_at == pre[h].created_at
        &&& forall|k: int| pre.dom().contains(k) && k != h ==> post[k] == pre[k]
    } else {
        post == pre
    }
}

/// Marks or unmarks a habit as completed on a date, atomically with the
/// habit's activity stamp.  The date is normalized: one that does not parse
/// as a calendar date is replaced with today.  Marking an already-marked
/// date refreshes that log; unmarking deletes it.  On failure the store is
/// exactly as it was.
pub fn toggle_habit_completion(
    store: &mut Store,
    habit_id: i64,
    date: String,
    completed: bool,
    today: &Date,
) -> (r: Result<(), StoreError>)
    requires
        !store_in_txn(*old(store)),
        valid_date(*today),
    ensures
        !store_in_txn(*final(store)),
        r matches Ok(_) ==> {
            let pre = store_tables(*old(store));
            let post = store_tables(*final(store));
            let nd = spec_normalize_habit_date(date@, *today);
            &&& post.entries == pre.entries
            &&& post.pages == pre.pages
            &&& post.tasks == pre.tasks
            &&& post.goals == pre.goals
            &&& habit_touched(pre.habits, post.habits, habit_id as int)
            &&& completed ==> {
                &&& has_log(post.habit_logs, habit_id as int, nd)
                &&& logs_agree_outside(pre.habit_logs, post.habit_logs, habit_id as int, nd)
                &&& forall|k: int|
                    post.habit_logs.dom().contains(k) && (#[trigger] post.habit_logs[k]).habit_id
                        == habit_id as int && post.habit_logs[k].date == nd ==> log_data_wf(
                        post.habit_logs[k],
                    )
            }
            &&& !completed ==> post.habit_logs == pre.habit_logs.remove_keys(
                Set::new(
                    |k: int|
                        pre.habit_logs.dom().contains(k) && pre.habit_logs[k].habit_id
                            == habit_id as int && pre.habit_logs[k].date == nd,
                ),
            )
            &&& crate::model::logs_unique(pre.habit_logs) ==> crate::model::logs_unique(
                post.habit_logs,
            )
        },
        r is Err ==> store_tables(*final(store)) == store_tables(*old(store)),
{
    let normalized_date = normalize_habit_date(date, today);
    let now = now_rfc3339();
    match store.begin() {
        Ok(_) => {},
        Err(e) => {
            return Err(e);
        },
    }
    if completed {
        let existing = match store.get_log_id(habit_id, normalized_date.as_str()) {
            Ok(e) => e,
            Err(_) => {
                store.abort();
                return Err(StoreError::TransactionAborted);
            },
        };
        match existing {
            Some(log_id) => {
                match store.upsert_log(log_id, habit_id, normalized_date.as_str(), now.as_str()) {
                    Ok(_) => {
                        proof {
                            assert(store_tables(*store).habit_logs.dom().contains(log_id as int));
                            assert(has_log(
                                store_tables(*store).habit_logs,
                                habit_id as int,
                                normalized_date@,
                            ));
                        }
                    },
                    Err(_) => {
                        store.abort();
                        return Err(StoreError::TransactionAborted);
                    },
                }
            },
            None => {
                match store.insert_log(habit_id, normalized_date.as_str(), now.as_str()) {
                    Ok(new_id) => {
                        proof {
                            assert(store_tables(*store).habit_logs.dom().contains(new_id as int));
                            assert(has_log(
                                store_tables(*store).habit_logs,
                                habit_id as int,
                                normalized_date@,
                            ));
                        }
                    },
                    Err(_) => {
                        store.abort();
                        return Err(StoreError::TransactionAborted);
                    },
                }
            },
        }
    } else {
        match store.delete_log_by_habit_date(habit_id, normalized_date.as_str()) {
            Ok(_) => {},
            Err(_) => {
                store.abort();
                return Err(StoreError::TransactionAborted);
            },
        }
    }
    let habit_row = match store.get_habit_row(habit_id) {
        Ok(h) => h,
        Err(_) => {
            store.abort();
            return Err(StoreError::TransactionAborted);
        },
    };
    if let Some(row) = habit_row {
        match store.upsert_habit(
            habit_id,
            row.title.as_str(),
            row.description.as_str(),
            row.target_per_week,
            row.color.as_str(),
            row.created_at.as_str(),
            now.as_str(),
        ) {
            Ok(_) => {},
            Err(_) => {
                store.abort();
                return Err(StoreError::TransactionAborted);
            },
        }
    }
    match store.commit() {
        Ok(_) => {
            proof {
                let pre = store_tables(*old(store));
                let post = store_tables(*final(store));
                if pre.habits.dom().contains(habit_id as int) {
                    assert(post.habits.dom() =~= pre.habits.dom());
                }
                if !completed {
                    assert(post.habit_logs =~= pre.habit_logs.remove_keys(
                        Set::new(
                            |k: int|
                                pre.habit_logs.dom().contains(k) && pre.habit_logs[k].habit_id
                                    == habit_id as int && pre.habit_logs[k].date
                                    == spec_normalize_habit_date(date@, *today),
                        ),
                    ));
                }
            }
            Ok(())
        },
        Err(_) => {
            store.abort();
            Err(StoreError::TransactionAborted)
        },
    }
}

} // verus!
