use vstd::prelude::*;
use crate::norm::{
    spec_opt_view, valid_task_status, valid_task_priority, valid_goal_status,
    MAX_TIME_ESTIMATE_MINUTES,
};
use crate::dates::spec_parse_date;

verus! {

// The typed records the repositories traffic in, together with their ghost
// models: a record's `data()` is what the store remembers about it, keyed by
// its natural key (the date for journal entries, the row identifier for
// everything else).

/// One journal entry; at most one exists per calendar date.
#[derive(Debug, Clone)]
pub struct Entry {
    pub id: i64,
    pub date: String,
    pub yesterday: String,
    pub today: String,
    pub created_at: String,
}

/// The store's view of a journal entry, keyed by its date.
#[verifier::ext_equal]
pub ghost struct EntryData {
    pub yesterday: Seq<char>,
    pub today: Seq<char>,
    pub created_at: Seq<char>,
}

impl Entry {
    pub open spec fn data(self) -> EntryData {
        EntryData { yesterday: self.yesterday@, today: self.today@, created_at: self.created_at@ }
    }
}

/// A free-form notes page.
#[derive(Debug, Clone)]
pub struct Page {
    pub id: i64,
    pub title: String,
    pub content: String,
    pub created_at: String,
    pub updated_at: String,
}

#[verifier::ext_equal]
pub ghost struct PageData {
    pub title: Seq<char>,
    pub content: Seq<char>,
    pub created_at: Seq<char>,
    pub updated_at: Seq<char>,
}

impl Page {
    pub open spec fn data(self) -> PageData {
        PageData {
            title: self.title@,
            content: self.content@,
            created_at: self.created_at@,
            updated_at: self.updated_at@,
        }
    }
}

/// A task with a status, a priority and a work timer.
#[derive(Debug, Clone)]
pub struct Task {
    pub id: i64,
    pub title: String,
    pub description: String,
    pub status: String,
    pub priority: String,
    pub due_date: Option<String>,
    pub completed_at: Option<String>,
    pub time_estimate_minutes: i64,
    pub timer_started_at: Option<String>,
    pub timer_accumulated_seconds: i64,
    pub created_at: String,
    pub updated_at: String,
}

#[verifier::ext_equal]
pub ghost struct TaskData {
    pub title: Seq<char>,
    pub description: Seq<char>,
    pub status: Seq<char>,
    pub priority: Seq<char>,
    pub due_date: Option<Seq<char>>,
    pub completed_at: Option<Seq<char>>,
    pub time_estimate_minutes: int,
    pub timer_started_at: Option<Seq<char>>,
    pub timer_accumulated_seconds: int,
    pub created_at: Seq<char>,
    pub updated_at: Seq<char>,
}

impl Task {
    pub open spec fn data(self) -> TaskData {
        TaskData {
            title: self.title@,
            description: self.description@,
            status: self.status@,
            priority: self.priority@,
            due_date: spec_opt_view(self.due_date),
            completed_at: spec_opt_view(self.completed_at),
            time_estimate_minutes: self.time_estimate_minutes as int,
            timer_started_at: spec_opt_view(self.timer_started_at),
            timer_accumulated_seconds: self.timer_accumulated_seconds as int,
            created_at: self.created_at@,
            updated_at: self.updated_at@,
        }
    }
}

/// The task invariants every write maintains: normalized status and
/// priority, a clamped estimate, a non-negative accumulated total, a timer
/// that is never running on a done task, and a completion stamp exactly on
/// done tasks.
pub open spec fn task_data_wf(t: TaskData) -> bool {
    &&& valid_task_status(t.status)
    &&& valid_task_priority(t.priority)
    &&& 0 <= t.time_estimate_minutes <= MAX_TIME_ESTIMATE_MINUTES as int
    &&& 0 <= t.timer_accumulated_seconds
    &&& t.status == "done"@ ==> t.timer_started_at is None
    &&& (t.completed_at is Some <==> t.status == "done"@)
}

/// A longer-horizon goal with a progress percentage.
#[derive(Debug, Clone)]
pub struct Goal {
    pub id: i64,
    pub title: String,
    pub description: String,
    pub status: String,
    pub progress: i64,
    pub target_date: Option<String>,
    pub created_at: String,
    pub updated_at: String,
}

#[verifier::ext_equal]
pub ghost struct GoalData {
    pub title: Seq<char>,
    pub description: Seq<char>,
    pub status: Seq<char>,
    pub progress: int,
    pub target_date: Option<Seq<char>>,
    pub created_at: Seq<char>,
    pub updated_at: Seq<char>,
}

impl Goal {
    pub open spec fn data(self) -> GoalData {
        GoalData {
            title: self.title@,
            description: self.description@,
            status: self.status@,
            progress: self.progress as int,
            target_date: spec_opt_view(self.target_date),
            created_at: self.created_at@,
            updated_at: self.updated_at@,
        }
    }
}

/// A normalized goal: a recognised status, progress within [0, 100], and
/// progress pinned to 100 once completed.
pub open spec fn goal_data_wf(g: GoalData) -> bool {
    &&& valid_goal_status(g.status)
    &&& 0 <= g.progress <= 100
    &&& g.status == "completed"@ ==> g.progress == 100
}

/// A recurring habit with a weekly target and a display colour.
#[derive(Debug, Clone)]
pub struct Habit {
    pub id: i64,
    pub title: String,
    pub description: String,
    pub target_per_week: i64,
    pub color: String,
    pub created_at: String,
    pub updated_at: String,
}

#[verifier::ext_equal]
pub ghost struct HabitData {
    pub title: Seq<char>,
    pub description: Seq<char>,
    pub target_per_week: int,
    pub color: Seq<char>,
    pub created_at: Seq<char>,
    pub updated_at: Seq<char>,
}

impl Habit {
    pub open spec fn data(self) -> HabitData {
        HabitData {
            title: self.title@,
            description: self.description@,
            target_per_week: self.target_per_week as int,
            color: self.color@,
            created_at: self.created_at@,
            updated_at: self.updated_at@,
        }
    }
}

/// A normalized habit: weekly target within [1, 14] and a colour that is
/// not blank.
pub open spec fn habit_data_wf(h: HabitData) -> bool {
    &&& 1 <= h.target_per_week <= 14
    &&& !crate::norm::all_blank(h.color)
    &&& h.color.len() > 0
}

/// One habit completion: the habit did happen on that date.
#[derive(Debug, Clone)]
pub struct HabitLog {
    pub id: i64,
    pub habit_id: i64,
    pub date: String,
    pub created_at: String,
}

#[verifier::ext_equal]
pub ghost struct LogData {
    pub habit_id: int,
    pub date: Seq<char>,
    pub created_at: Seq<char>,
}

impl HabitLog {
    pub open spec fn data(self) -> LogData {
        LogData { habit_id: self.habit_id as int, date: self.date@, created_at: self.created_at@ }
    }
}

/// A normalized habit log carries a real calendar date.
pub open spec fn log_data_wf(l: LogData) -> bool {
    spec_parse_date(l.date) is Some
}

/// A habit joined with its completion history and the derived metrics.
#[derive(Debug, Clone)]
pub struct HabitWithLogs {
    pub id: i64,
    pub title: String,
    pub description: String,
    pub target_per_week: i64,
    pub color: String,
    pub completed_dates: Vec<String>,
    pub current_streak: i64,
    pub this_week_count: i64,
    pub created_at: String,
    pub updated_at: String,
}

impl HabitWithLogs {
    /// The habit part of the joined record.
    pub open spec fn habit_data(self) -> HabitData {
        HabitData {
            title: self.title@,
            description: self.description@,
            target_per_week: self.target_per_week as int,
            color: self.color@,
            created_at: self.created_at@,
            updated_at: self.updated_at@,
        }
    }
}

} // verus!
