use dev_journal::{
    init, run_migrations, migration_applied, Store, StoreError, get_entries, get_entry, save_entry,
    delete_entry, search_entries, get_pages, get_page, create_page, update_page, delete_page,
    get_tasks, create_task, update_task, update_task_status, start_task_timer, pause_task_timer,
    reset_task_timer, delete_task, get_goals, create_goal, update_goal, delete_goal, get_habits,
    create_habit, update_habit, delete_habit, toggle_habit_completion, Date, Task,
};

fn fresh_store() -> Store {
    init(":memory:").expect("in-memory store")
}

fn today() -> Date {
    Date { year: 2024, month: 1, day: 17 }
}

#[test]
fn entry_upsert_preserves_created_at() {
    let mut store = fresh_store();
    save_entry(&mut store, "2024-01-01", "A", "B").unwrap();
    let first = get_entry(&store, "2024-01-01").unwrap().unwrap();
    save_entry(&mut store, "2024-01-01", "C", "D").unwrap();
    let rows = get_entries(&store).unwrap();
    assert_eq!(rows.len(), 1);
    assert_eq!(rows[0].yesterday, "C");
    assert_eq!(rows[0].today, "D");
    assert_eq!(rows[0].created_at, first.created_at);
}

#[test]
fn entries_list_newest_date_first() {
    let mut store = fresh_store();
    save_entry(&mut store, "2024-01-02", "a", "b").unwrap();
    save_entry(&mut store, "2024-01-10", "c", "d").unwrap();
    save_entry(&mut store, "2024-01-05", "e", "f").unwrap();
    let rows = get_entries(&store).unwrap();
    let dates: Vec<&str> = rows.iter().map(|e| e.date.as_str()).collect();
    assert_eq!(dates, vec!["2024-01-10", "2024-01-05", "2024-01-02"]);
}

#[test]
fn entry_delete_and_missing_lookup() {
    let mut store = fresh_store();
    save_entry(&mut store, "2024-01-01", "A", "B").unwrap();
    delete_entry(&mut store, "2024-01-01").unwrap();
    assert!(get_entry(&store, "2024-01-01").unwrap().is_none());
    delete_entry(&mut store, "2024-01-01").unwrap();
}

#[test]
fn search_is_case_insensitive_substring() {
    let mut store = fresh_store();
    save_entry(&mut store, "2024-01-01", "Wrote the Parser", "tests").unwrap();
    save_entry(&mut store, "2024-01-02", "nothing", "more PARSER work").unwrap();
    save_entry(&mut store, "2024-01-03", "cooking", "resting").unwrap();
    let hits = search_entries(&store, "parser").unwrap();
    assert_eq!(hits.len(), 2);
    assert_eq!(hits[0].date, "2024-01-02");
    assert_eq!(hits[1].date, "2024-01-01");
    let none = search_entries(&store, "absent").unwrap();
    assert!(none.is_empty());
}

#[test]
fn page_crud_updates_stamp_not_creation() {
    let mut store = fresh_store();
    let page = create_page(&mut store, "notes".to_string(), "first".to_string()).unwrap();
    assert_eq!(page.created_at, page.updated_at);
    update_page(&mut store, page.id, "notes", "second").unwrap();
    let read = get_page(&store, page.id).unwrap().unwrap();
    assert_eq!(read.content, "second");
    assert_eq!(read.created_at, page.created_at);
    update_page(&mut store, page.id + 99, "ghost", "ignored").unwrap();
    assert_eq!(get_pages(&store).unwrap().len(), 1);
    delete_page(&mut store, page.id).unwrap();
    assert!(get_page(&store, page.id).unwrap().is_none());
}

fn find_task(store: &Store, id: i64) -> Task {
    get_tasks(store)
        .unwrap()
        .into_iter()
        .find(|t| t.id == id)
        .expect("task present")
}

#[test]
fn create_task_normalizes_input() {
    let mut store = fresh_store();
    let task = create_task(
        &mut store,
        "t".to_string(),
        "d".to_string(),
        "bogus".to_string(),
        Some("severe".to_string()),
        None,
        Some(-5),
    )
    .unwrap();
    assert_eq!(task.status, "todo");
    assert_eq!(task.priority, "medium");
    assert_eq!(task.time_estimate_minutes, 0);
    assert!(task.completed_at.is_none());
    assert!(task.timer_started_at.is_none());
    assert_eq!(task.timer_accumulated_seconds, 0);
}

#[test]
fn task_created_done_has_completion_stamp() {
    let mut store = fresh_store();
    let task = create_task(
        &mut store,
        "t".to_string(),
        "d".to_string(),
        "done".to_string(),
        None,
        None,
        Some(999999),
    )
    .unwrap();
    assert_eq!(task.status, "done");
    assert_eq!(task.time_estimate_minutes, 10080);
    assert!(task.completed_at.is_some());
    assert!(task.timer_started_at.is_none());
}

#[test]
fn timer_never_runs_on_done_task() {
    let mut store = fresh_store();
    let task = create_task(
        &mut store,
        "t".to_string(),
        "d".to_string(),
        "in_progress".to_string(),
        None,
        None,
        None,
    )
    .unwrap();
    let id = task.id;
    start_task_timer(&mut store, id).unwrap();
    let running = find_task(&store, id);
    assert!(running.timer_started_at.is_some());
    // Transition into done stops the timer.
    update_task_status(&mut store, id, "done".to_string()).unwrap();
    let done = find_task(&store, id);
    assert_eq!(done.status, "done");
    assert!(done.timer_started_at.is_none());
    assert!(done.completed_at.is_some());
    // Starting the timer on a done task resumes the work.
    start_task_timer(&mut store, id).unwrap();
    let resumed = find_task(&store, id);
    assert_eq!(resumed.status, "in_progress");
    assert!(resumed.completed_at.is_none());
    assert!(resumed.timer_started_at.is_some());
    // A full edit into done also stops the timer.
    update_task(
        &mut store,
        id,
        "t".to_string(),
        "d".to_string(),
        "done".to_string(),
        None,
        None,
        None,
    )
    .unwrap();
    let done_again = find_task(&store, id);
    assert_eq!(done_again.status, "done");
    assert!(done_again.timer_started_at.is_none());
}

#[test]
fn timer_pause_and_reset() {
    let mut store = fresh_store();
    let task = create_task(
        &mut store,
        "t".to_string(),
        "d".to_string(),
        "todo".to_string(),
        None,
        None,
        None,
    )
    .unwrap();
    let id = task.id;
    // Pausing a stopped timer is a no-op.
    pause_task_timer(&mut store, id).unwrap();
    assert!(find_task(&store, id).timer_started_at.is_none());
    start_task_timer(&mut store, id).unwrap();
    // Starting an already-running timer is a no-op.
    let started = find_task(&store, id);
    start_task_timer(&mut store, id).unwrap();
    assert_eq!(
        find_task(&store, id).timer_started_at,
        started.timer_started_at
    );
    pause_task_timer(&mut store, id).unwrap();
    let paused = find_task(&store, id);
    assert!(paused.timer_started_at.is_none());
    assert!(paused.timer_accumulated_seconds >= 0);
    reset_task_timer(&mut store, id).unwrap();
    let reset = find_task(&store, id);
    assert!(reset.timer_started_at.is_none());
    assert_eq!(reset.timer_accumulated_seconds, 0);
    // An edit that stays away from done keeps a running timer running.
    start_task_timer(&mut store, id).unwrap();
    update_task(
        &mut store,
        id,
        "t2".to_string(),
        "d2".to_string(),
        "in_progress".to_string(),
        Some("high".to_string()),
        Some("2024-06-01".to_string()),
        Some(30),
    )
    .unwrap();
    let edited = find_task(&store, id);
    assert!(edited.timer_started_at.is_some());
    assert_eq!(edited.priority, "high");
    delete_task(&mut store, id).unwrap();
    assert!(get_tasks(&store).unwrap().is_empty());
}

#[test]
fn goal_progress_forced_on_completion() {
    let mut store = fresh_store();
    let goal = create_goal(
        &mut store,
        "g".to_string(),
        "d".to_string(),
        Some("completed".to_string()),
        Some(150),
        None,
    )
    .unwrap();
    assert_eq!(goal.status, "completed");
    assert_eq!(goal.progress, 100);
    update_goal(
        &mut store,
        goal.id,
        "g".to_string(),
        "d".to_string(),
        Some("active".to_string()),
        Some(-3),
        None,
    )
    .unwrap();
    let rows = get_goals(&store).unwrap();
    assert_eq!(rows.len(), 1);
    assert_eq!(rows[0].status, "active");
    assert_eq!(rows[0].progress, 0);
    delete_goal(&mut store, goal.id).unwrap();
    assert!(get_goals(&store).unwrap().is_empty());
}

#[test]
fn goals_listed_by_status_then_target_date() {
    let mut store = fresh_store();
    let mk = |store: &mut Store, title: &str, status: &str, target: Option<&str>| {
        create_goal(
            store,
            title.to_string(),
            String::new(),
            Some(status.to_string()),
            Some(10),
            target.map(|t| t.to_string()),
        )
        .unwrap();
    };
    mk(&mut store, "archived", "archived", None);
    mk(&mut store, "active-late", "active", Some("2024-09-01"));
    mk(&mut store, "paused", "paused", Some("2024-01-01"));
    mk(&mut store, "active-early", "active", Some("2024-02-01"));
    mk(&mut store, "active-undated", "active", None);
    let titles: Vec<String> = get_goals(&store)
        .unwrap()
        .into_iter()
        .map(|g| g.title)
        .collect();
    assert_eq!(
        titles,
        vec![
            "active-early".to_string(),
            "active-late".to_string(),
            "active-undated".to_string(),
            "paused".to_string(),
            "archived".to_string(),
        ]
    );
}

#[test]
fn habit_crud_and_metrics() {
    let mut store = fresh_store();
    let habit = create_habit(
        &mut store,
        "run".to_string(),
        String::new(),
        Some(0),
        Some("  ".to_string()),
    )
    .unwrap();
    assert_eq!(habit.target_per_week, 1);
    assert_eq!(habit.color, "#60a5fa");
    update_habit(
        &mut store,
        habit.id,
        "run".to_string(),
        String::new(),
        Some(99),
        Some("#123456".to_string()),
    )
    .unwrap();
    let t = today();
    toggle_habit_completion(&mut store, habit.id, "2024-01-17".to_string(), true, &t).unwrap();
    toggle_habit_completion(&mut store, habit.id, "2024-01-16".to_string(), true, &t).unwrap();
    toggle_habit_completion(&mut store, habit.id, "2024-01-15".to_string(), true, &t).unwrap();
    let rows = get_habits(&store, &t).unwrap();
    assert_eq!(rows.len(), 1);
    assert_eq!(rows[0].target_per_week, 14);
    assert_eq!(rows[0].color, "#123456");
    assert_eq!(rows[0].completed_dates.len(), 3);
    assert_eq!(rows[0].completed_dates[0], "2024-01-17");
    assert_eq!(rows[0].current_streak, 3);
    assert_eq!(rows[0].this_week_count, 3);
    // Unmarking a day breaks the streak down to the most recent run.
    toggle_habit_completion(&mut store, habit.id, "2024-01-16".to_string(), false, &t).unwrap();
    let rows = get_habits(&store, &t).unwrap();
    assert_eq!(rows[0].completed_dates.len(), 2);
    assert_eq!(rows[0].current_streak, 1);
    // Marking the same day twice keeps one log.
    toggle_habit_completion(&mut store, habit.id, "2024-01-17".to_string(), true, &t).unwrap();
    let rows = get_habits(&store, &t).unwrap();
    assert_eq!(rows[0].completed_dates.len(), 2);
}

#[test]
fn habit_delete_cascades_to_logs() {
    let mut store = fresh_store();
    let t = today();
    let keep = create_habit(&mut store, "keep".to_string(), String::new(), None, None).unwrap();
    let gone = create_habit(&mut store, "gone".to_string(), String::new(), None, None).unwrap();
    toggle_habit_completion(&mut store, keep.id, "2024-01-17".to_string(), true, &t).unwrap();
    toggle_habit_completion(&mut store, gone.id, "2024-01-17".to_string(), true, &t).unwrap();
    delete_habit(&mut store, gone.id).unwrap();
    let rows = get_habits(&store, &t).unwrap();
    assert_eq!(rows.len(), 1);
    assert_eq!(rows[0].id, keep.id);
    assert_eq!(rows[0].completed_dates.len(), 1);
}

#[test]
fn unparsable_toggle_date_is_replaced_with_today() {
    let mut store = fresh_store();
    let t = today();
    let habit = create_habit(&mut store, "h".to_string(), String::new(), None, None).unwrap();
    toggle_habit_completion(&mut store, habit.id, "garbage".to_string(), true, &t).unwrap();
    let rows = get_habits(&store, &t).unwrap();
    assert_eq!(rows[0].completed_dates, vec!["2024-01-17".to_string()]);
}

#[test]
fn migrations_are_idempotent() {
    let mut store = fresh_store();
    for v in 1..=5 {
        assert_eq!(migration_applied(&store, v).unwrap(), true);
    }
    assert_eq!(migration_applied(&store, 6).unwrap(), false);
    save_entry(&mut store, "2024-01-01", "A", "B").unwrap();
    // A second run re-executes no step and leaves the data untouched.
    run_migrations(&mut store).unwrap();
    let rows = get_entries(&store).unwrap();
    assert_eq!(rows.len(), 1);
    assert_eq!(rows[0].yesterday, "A");
    for v in 1..=5 {
        assert_eq!(migration_applied(&store, v).unwrap(), true);
    }
}

#[test]
fn storage_unavailable_when_path_cannot_open() {
    let r = init("/this/directory/does/not/exist/journal.db");
    assert!(matches!(r, Err(StoreError::StorageUnavailable)));
}

#[test]
fn query_failed_before_migration() {
    let store = Store::open(":memory:").unwrap();
    assert!(matches!(get_entries(&store), Err(StoreError::QueryFailed)));
}

#[test]
fn migration_failed_on_broken_version_table() {
    // A shared in-memory database whose version-tracking table has the wrong
    // shape: the first step cannot check itself and must fail.
    let uri = "file:broken_versions?mode=memory&cache=shared";
    let conn = rusqlite::Connection::open(uri).unwrap();
    conn.execute(
        "CREATE TABLE schema_migrations (note TEXT NOT NULL)",
        (),
    )
    .unwrap();
    let r = init(uri);
    assert!(matches!(
        r,
        Err(StoreError::MigrationFailed { version: 1 })
    ));
    drop(conn);
}
