use dev_journal::{
    init, save_entry, create_page, create_task, create_goal, create_habit,
    toggle_habit_completion, update_task_status, export_backup, import_backup, get_entries,
    get_pages, get_habits, BackupPayload, BackupHabitLogInput, BackupTaskInput, Date, Store,
    StoreError,
};

fn today() -> Date {
    Date { year: 2024, month: 1, day: 17 }
}

fn empty_payload() -> BackupPayload {
    BackupPayload {
        entries: Vec::new(),
        pages: Vec::new(),
        tasks: Vec::new(),
        goals: Vec::new(),
        habits: Vec::new(),
        habit_logs: Vec::new(),
    }
}

fn populated_store() -> Store {
    let mut store = init(":memory:").unwrap();
    let t = today();
    save_entry(&mut store, "2024-01-01", "A", "B").unwrap();
    save_entry(&mut store, "2024-01-02", "C", "D").unwrap();
    create_page(&mut store, "notes".to_string(), "content".to_string()).unwrap();
    let task = create_task(
        &mut store,
        "task".to_string(),
        "desc".to_string(),
        "in_progress".to_string(),
        Some("high".to_string()),
        Some("2024-06-01".to_string()),
        Some(45),
    )
    .unwrap();
    update_task_status(&mut store, task.id, "done".to_string()).unwrap();
    create_goal(
        &mut store,
        "goal".to_string(),
        "gd".to_string(),
        Some("paused".to_string()),
        Some(40),
        Some("2024-05-01".to_string()),
    )
    .unwrap();
    let habit = create_habit(
        &mut store,
        "habit".to_string(),
        "hd".to_string(),
        Some(3),
        Some("#abcdef".to_string()),
    )
    .unwrap();
    toggle_habit_completion(&mut store, habit.id, "2024-01-16".to_string(), true, &t).unwrap();
    toggle_habit_completion(&mut store, habit.id, "2024-01-17".to_string(), true, &t).unwrap();
    store
}

fn canonical(mut p: BackupPayload) -> BackupPayload {
    p.entries.sort_by(|a, b| a.date.cmp(&b.date));
    p.pages.sort_by_key(|x| x.id);
    p.tasks.sort_by_key(|x| x.id);
    p.goals.sort_by_key(|x| x.id);
    p.habits.sort_by_key(|x| x.id);
    p.habit_logs.sort_by_key(|x| x.id);
    p
}

#[test]
fn export_import_round_trip() {
    let store = populated_store();
    let snapshot = export_backup(&store).unwrap();
    // Wipe a fresh store and import the snapshot with replace_existing.
    let mut second = init(":memory:").unwrap();
    save_entry(&mut second, "1999-12-31", "old", "junk").unwrap();
    import_backup(&mut second, snapshot.clone(), true, &today()).unwrap();
    let again = export_backup(&second).unwrap();
    assert_eq!(canonical(snapshot), canonical(again));
}

#[test]
fn import_without_replace_upserts_over_existing() {
    let store = populated_store();
    let snapshot = export_backup(&store).unwrap();
    let mut second = init(":memory:").unwrap();
    save_entry(&mut second, "1999-12-31", "old", "junk").unwrap();
    import_backup(&mut second, snapshot, false, &today()).unwrap();
    let entries = get_entries(&second).unwrap();
    assert_eq!(entries.len(), 3);
}

#[test]
fn import_normalizes_task_records() {
    let mut store = init(":memory:").unwrap();
    let mut payload = empty_payload();
    payload.tasks.push(BackupTaskInput {
        id: Some(7),
        title: "t".to_string(),
        description: "d".to_string(),
        status: "weird".to_string(),
        priority: None,
        due_date: None,
        completed_at: None,
        time_estimate_minutes: Some(-9),
        timer_started_at: None,
        timer_accumulated_seconds: Some(-4),
        created_at: Some("2024-01-01T00:00:00+00:00".to_string()),
        updated_at: Some("2024-01-02T00:00:00+00:00".to_string()),
    });
    import_backup(&mut store, payload, false, &today()).unwrap();
    let tasks = dev_journal::get_tasks(&store).unwrap();
    assert_eq!(tasks.len(), 1);
    assert_eq!(tasks[0].id, 7);
    assert_eq!(tasks[0].status, "todo");
    assert_eq!(tasks[0].priority, "medium");
    assert_eq!(tasks[0].time_estimate_minutes, 0);
    assert_eq!(tasks[0].timer_accumulated_seconds, 0);
    assert_eq!(tasks[0].created_at, "2024-01-01T00:00:00+00:00");
}

#[test]
fn import_rolls_back_completely_on_constraint_violation() {
    let mut store = populated_store();
    let before = canonical(export_backup(&store).unwrap());
    let habit_id = get_habits(&store, &today()).unwrap()[0].id;
    let mut payload = empty_payload();
    // A new page that would be inserted before the violation is reached.
    payload.pages.push(dev_journal::BackupPageInput {
        id: None,
        title: "would be lost".to_string(),
        content: String::new(),
        created_at: None,
        updated_at: None,
    });
    // Two logs with distinct identifiers but the same habit and date: the
    // second violates the unique habit-and-date constraint.
    payload.habit_logs.push(BackupHabitLogInput {
        id: Some(101),
        habit_id,
        date: "2024-02-01".to_string(),
        created_at: None,
    });
    payload.habit_logs.push(BackupHabitLogInput {
        id: Some(102),
        habit_id,
        date: "2024-02-01".to_string(),
        created_at: None,
    });
    let r = import_backup(&mut store, payload, false, &today());
    assert!(matches!(r, Err(StoreError::TransactionAborted)));
    // The store matches its pre-import state exactly.
    let after = canonical(export_backup(&store).unwrap());
    assert_eq!(before, after);
    assert_eq!(get_pages(&store).unwrap().len(), 1);
}

#[test]
fn import_empty_snapshot_with_replace_wipes_the_store() {
    let mut store = populated_store();
    import_backup(&mut store, empty_payload(), true, &today()).unwrap();
    let snapshot = export_backup(&store).unwrap();
    assert!(snapshot.entries.is_empty());
    assert!(snapshot.pages.is_empty());
    assert!(snapshot.tasks.is_empty());
    assert!(snapshot.goals.is_empty());
    assert!(snapshot.habits.is_empty());
    assert!(snapshot.habit_logs.is_empty());
}

#[test]
fn import_inserts_idless_records_with_defaulted_stamps() {
    let mut store = init(":memory:").unwrap();
    let mut payload = empty_payload();
    payload.pages.push(dev_journal::BackupPageInput {
        id: None,
        title: "restored".to_string(),
        content: "body".to_string(),
        created_at: Some("2024-01-01T00:00:00+00:00".to_string()),
        updated_at: None,
    });
    payload.pages.push(dev_journal::BackupPageInput {
        id: None,
        title: "fresh".to_string(),
        content: String::new(),
        created_at: None,
        updated_at: None,
    });
    import_backup(&mut store, payload, false, &today()).unwrap();
    let pages = get_pages(&store).unwrap();
    assert_eq!(pages.len(), 2);
    let restored = pages.iter().find(|p| p.title == "restored").unwrap();
    // A missing update stamp defaults to the given creation stamp.
    assert_eq!(restored.created_at, "2024-01-01T00:00:00+00:00");
    assert_eq!(restored.updated_at, restored.created_at);
    // A record with no stamps at all gets the processing timestamp for both.
    let fresh = pages.iter().find(|p| p.title == "fresh").unwrap();
    assert_eq!(fresh.created_at, fresh.updated_at);
    assert_ne!(fresh.id, restored.id);
}

#[test]
fn import_idless_log_overwrites_matching_habit_and_date() {
    let mut store = init(":memory:").unwrap();
    let t = today();
    let habit = create_habit(&mut store, "h".to_string(), String::new(), None, None).unwrap();
    toggle_habit_completion(&mut store, habit.id, "2024-01-16".to_string(), true, &t).unwrap();
    let mut payload = empty_payload();
    payload.habit_logs.push(BackupHabitLogInput {
        id: None,
        habit_id: habit.id,
        date: "2024-01-16".to_string(),
        created_at: None,
    });
    import_backup(&mut store, payload, false, &t).unwrap();
    // The id-less log matched the existing (habit, date) pair: still one log.
    let rows = get_habits(&store, &t).unwrap();
    assert_eq!(rows[0].completed_dates, vec!["2024-01-16".to_string()]);
}
