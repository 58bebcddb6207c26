use dev_journal::{
    normalize_status, normalize_priority, normalize_time_estimate_minutes,
    normalize_accumulated_seconds, normalize_goal_status, normalize_progress,
    normalize_target_per_week, normalize_habit_color, normalize_habit_date, Date,
};

#[test]
fn status_keeps_known_values() {
    assert_eq!(normalize_status("todo".to_string()), "todo");
    assert_eq!(normalize_status("in_progress".to_string()), "in_progress");
    assert_eq!(normalize_status("done".to_string()), "done");
}

#[test]
fn status_coerces_unknown_to_todo() {
    assert_eq!(normalize_status("DONE".to_string()), "todo");
    assert_eq!(normalize_status("".to_string()), "todo");
    assert_eq!(normalize_status("cancelled".to_string()), "todo");
}

#[test]
fn priority_defaults_to_medium() {
    assert_eq!(normalize_priority(None), "medium");
    assert_eq!(normalize_priority(Some("critical".to_string())), "medium");
    assert_eq!(normalize_priority(Some("urgent".to_string())), "urgent");
    assert_eq!(normalize_priority(Some("low".to_string())), "low");
}

#[test]
fn time_estimate_clamps_to_one_week() {
    assert_eq!(normalize_time_estimate_minutes(Some(-5)), 0);
    assert_eq!(normalize_time_estimate_minutes(Some(999999)), 10080);
    assert_eq!(normalize_time_estimate_minutes(Some(10080)), 10080);
    assert_eq!(normalize_time_estimate_minutes(Some(90)), 90);
    assert_eq!(normalize_time_estimate_minutes(None), 0);
}

#[test]
fn accumulated_seconds_never_negative() {
    assert_eq!(normalize_accumulated_seconds(Some(-1)), 0);
    assert_eq!(normalize_accumulated_seconds(Some(42)), 42);
    assert_eq!(normalize_accumulated_seconds(None), 0);
}

#[test]
fn goal_status_defaults_to_active() {
    assert_eq!(normalize_goal_status(None), "active");
    assert_eq!(normalize_goal_status(Some("finished".to_string())), "active");
    assert_eq!(normalize_goal_status(Some("archived".to_string())), "archived");
    assert_eq!(normalize_goal_status(Some("paused".to_string())), "paused");
}

#[test]
fn progress_clamps_to_percentage() {
    assert_eq!(normalize_progress(Some(150)), 100);
    assert_eq!(normalize_progress(Some(-10)), 0);
    assert_eq!(normalize_progress(Some(55)), 55);
    assert_eq!(normalize_progress(None), 0);
}

#[test]
fn target_per_week_clamps_to_range() {
    assert_eq!(normalize_target_per_week(Some(0)), 1);
    assert_eq!(normalize_target_per_week(Some(99)), 14);
    assert_eq!(normalize_target_per_week(Some(7)), 7);
    assert_eq!(normalize_target_per_week(None), 5);
}

#[test]
fn habit_color_defaults_when_absent_or_blank() {
    assert_eq!(normalize_habit_color(None), "#60a5fa");
    assert_eq!(normalize_habit_color(Some("   ".to_string())), "#60a5fa");
    assert_eq!(normalize_habit_color(Some("".to_string())), "#60a5fa");
    assert_eq!(normalize_habit_color(Some("#ff0000".to_string())), "#ff0000");
    // The full white-space set counts as blank, as trimming would remove it.
    assert_eq!(
        normalize_habit_color(Some("\u{a0}\u{2003}\t".to_string())),
        "#60a5fa"
    );
    assert_eq!(
        normalize_habit_color(Some(" #aabbcc ".to_string())),
        " #aabbcc "
    );
}

#[test]
fn habit_date_falls_back_to_today() {
    let today = Date { year: 2024, month: 3, day: 9 };
    assert_eq!(
        normalize_habit_date("2023-11-30".to_string(), &today),
        "2023-11-30"
    );
    assert_eq!(
        normalize_habit_date("not a date".to_string(), &today),
        "2024-03-09"
    );
    assert_eq!(
        normalize_habit_date("2023-02-29".to_string(), &today),
        "2024-03-09"
    );
}
