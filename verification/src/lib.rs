//! Persistence and data-integrity core of a personal productivity store:
//! journal entries, notes pages, tasks with a work timer, goals and habits,
//! kept in an embedded SQL database behind a verified repository layer.

mod error;
mod util;
mod norm;
mod dates;
mod metrics;
mod records;
mod model;
mod clock;
mod store;
mod entries;
mod pages;
mod tasks;
mod goals;
mod habits;
mod migrate;
mod backup;

pub use error::StoreError;
pub use norm::{
    normalize_status, normalize_priority, normalize_time_estimate_minutes,
    normalize_accumulated_seconds, normalize_goal_status, normalize_progress,
    normalize_target_per_week, normalize_habit_color, MAX_TIME_ESTIMATE_MINUTES,
};
pub use util::str_eq;
pub use dates::{Date, parse_date, format_date, normalize_habit_date};
pub use metrics::{compute_current_streak, compute_this_week_count};
pub use records::{Entry, Page, Task, Goal, Habit, HabitLog, HabitWithLogs};
pub use store::Store;
pub use entries::{get_entries, get_entry, save_entry, delete_entry, search_entries};
pub use pages::{get_pages, get_page, create_page, update_page, delete_page};
pub use tasks::{get_tasks, create_task, update_task, update_task_status, start_task_timer, pause_task_timer, reset_task_timer, delete_task};
pub use goals::{get_goals, create_goal, update_goal, delete_goal};
pub use habits::{get_habits, create_habit, update_habit, delete_habit, toggle_habit_completion};
pub use migrate::{init, run_migrations, migration_applied, LATEST_SCHEMA_VERSION};
pub use backup::{export_backup, import_backup, BackupPayload, BackupEntryInput, BackupPageInput, BackupTaskInput, BackupGoalInput, BackupHabitInput, BackupHabitLogInput};

// The ghost vocabulary the public contracts are stated over.
pub use store::{
    store_tables, store_in_txn, store_txn_base, store_txn_schema, store_txn_versions,
    store_schema, store_versions, lists_table, entry_pairs, page_pairs, task_pairs, goal_pairs,
    habit_pairs, log_pairs, goal_listed_le, goal_rank, dml_ok, dml_err, txn_kept, sql_identifier,
    sql_identifier_list, sql_ident_start, sql_ident_char,
};
pub use model::{
    StoreModel, SchemaModel, pairs_map_onto, keys_distinct, model_wf, logs_unique,
    lemma_pairs_map_index,
};
pub use records::{
    EntryData, PageData, TaskData, GoalData, HabitData, LogData, task_data_wf, goal_data_wf,
    habit_data_wf, log_data_wf,
};
pub use backup::{
    apply_payload, payload_ready, payload_fully_stamped, payload_lists, lemma_backup_round_trip,
    tasks_normal, rows_wf_or_inherited, entry_import_pairs, page_import_pairs, task_import_pairs,
    goal_import_pairs, habit_import_pairs, log_import_pairs, import_outcome, import_base,
    entry_applied_data, entries_applied, page_applied_data, pages_applied, page_ids_fresh,
    task_applied_data, tasks_applied, task_ids_fresh, task_es_ok, goal_applied_data, goals_applied,
    goal_ids_fresh, habit_applied_data, habits_applied, habit_ids_fresh, log_applied_data,
    logs_applied, log_ids_ok,
};
pub use metrics::{day_num_set, str_views, is_streak_len, spec_count_in_window};
pub use dates::{
    valid_date, spec_parse_date, spec_day_number, spec_format_date, spec_normalize_habit_date,
    spec_weekday_from_monday, lemma_parse_format_date, lemma_day_number_bounds, DAY_NUMBER_LIMIT,
};
pub use norm::{
    spec_normalize_status, spec_normalize_priority, spec_normalize_time_estimate,
    spec_normalize_accumulated, spec_normalize_goal_status, spec_normalize_progress,
    spec_normalize_target_per_week, spec_normalize_habit_color, spec_opt_view, spec_opt_i64,
    valid_task_status, valid_task_priority, valid_goal_status, all_blank,
};
pub use tasks::{tasks_wf, task_edited, task_status_changed, spec_sat_add};
pub use goals::{goals_wf, goal_written};
pub use habits::{habits_wf, has_log, habit_dates_ok, habit_metrics_ok, logs_agree_outside, habit_touched};
pub use migrate::{all_versions_applied, schema_grows};
pub use util::lex_le;
pub use clock::rfc3339_unix;
pub use clock::{now_rfc3339, today_utc, elapsed_since, elapsed_between, spec_elapsed};
