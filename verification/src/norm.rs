use vstd::prelude::*;
use vstd::string::StrSliceExecFns;
use crate::util::str_eq;

verus! {

// Every write to the store first passes user input through these rules:
// invalid enumeration values coerce silently to a default, and numeric
// fields are clamped to their documented ranges.

/// Largest accepted time estimate for a task, in minutes (one week).
pub const MAX_TIME_ESTIMATE_MINUTES: i64 = 10080;

pub open spec fn spec_opt_view(o: Option<String>) -> Option<Seq<char>> {
    match o {
        Some(s) => Some(s@),
        None => None,
    }
}

pub open spec fn valid_task_status(s: Seq<char>) -> bool {
    s == "todo"@ || s == "in_progress"@ || s == "done"@
}

pub open spec fn spec_normalize_status(s: Seq<char>) -> Seq<char> {
    if valid_task_status(s) {
        s
    } else {
        "todo"@
    }
}

/// Task status must be one of todo / in_progress / done; anything else
/// coerces to todo.
pub fn normalize_status(status: String) -> (r: String)
    ensures
        r@ == spec_normalize_status(status@),
{
    if str_eq(status.as_str(), "todo") || str_eq(status.as_str(), "in_progress")
        || str_eq(status.as_str(), "done") {
        status
    } else {
        "todo".to_owned()
    }
}

pub open spec fn valid_task_priority(s: Seq<char>) -> bool {
    s == "low"@ || s == "medium"@ || s == "high"@ || s == "urgent"@
}

pub open spec fn spec_normalize_priority(p: Option<Seq<char>>) -> Seq<char> {
    match p {
        Some(s) => if valid_task_priority(s) {
            s
        } else {
            "medium"@
        },
        None => "medium"@,
    }
}

/// Task priority must be one of low / medium / high / urgent; an absent or
/// invalid value coerces to medium.
pub fn normalize_priority(priority: Option<String>) -> (r: String)
    ensures
        r@ == spec_normalize_priority(spec_opt_view(priority)),
{
    match priority {
        Some(p) => {
            if str_eq(p.as_str(), "low") || str_eq(p.as_str(), "medium")
                || str_eq(p.as_str(), "high") || str_eq(p.as_str(), "urgent") {
                p
            } else {
                "medium".to_owned()
            }
        },
        None => "medium".to_owned(),
    }
}

pub open spec fn spec_opt_i64(o: Option<i64>) -> Option<int> {
    match o {
        Some(v) => Some(v as int),
        None => None,
    }
}

pub open spec fn spec_normalize_time_estimate(v: Option<int>) -> int {
    match v {
        None => 0,
        Some(x) => if x < 0 {
            0
        } else if x > MAX_TIME_ESTIMATE_MINUTES as int {
            MAX_TIME_ESTIMATE_MINUTES as int
        } else {
            x
        },
    }
}

/// A task's time estimate is clamped to [0, 10080] minutes; an absent value
/// becomes 0.
pub fn normalize_time_estimate_minutes(value: Option<i64>) -> (r: i64)
    ensures
        r as int == spec_normalize_time_estimate(spec_opt_i64(value)),
{
    match value {
        None => 0,
        Some(x) => {
            if x < 0 {
                0
            } else if x > MAX_TIME_ESTIMATE_MINUTES {
                MAX_TIME_ESTIMATE_MINUTES
            } else {
                x
            }
        },
    }
}

pub open spec fn spec_normalize_accumulated(v: Option<int>) -> int {
    match v {
        None => 0,
        Some(x) => if x < 0 {
            0
        } else {
            x
        },
    }
}

/// A task's accumulated timer seconds never go below zero; an absent value
/// becomes 0.
pub fn normalize_accumulated_seconds(value: Option<i64>) -> (r: i64)
    ensures
        r as int == spec_normalize_accumulated(spec_opt_i64(value)),
{
    match value {
        None => 0,
        Some(x) => if x < 0 {
            0
        } else {
            x
        },
    }
}

pub open spec fn valid_goal_status(s: Seq<char>) -> bool {
    s == "active"@ || s == "paused"@ || s == "completed"@ || s == "archived"@
}

pub open spec fn spec_normalize_goal_status(p: Option<Seq<char>>) -> Seq<char> {
    match p {
        Some(s) => if valid_goal_status(s) {
            s
        } else {
            "active"@
        },
        None => "active"@,
    }
}

/// Goal status must be one of active / paused / completed / archived; an
/// absent or invalid value coerces to active.
pub fn normalize_goal_status(status: Option<String>) -> (r: String)
    ensures
        r@ == spec_normalize_goal_status(spec_opt_view(status)),
{
    match status {
        Some(s) => {
            if str_eq(s.as_str(), "active") || str_eq(s.as_str(), "paused")
                || str_eq(s.as_str(), "completed") || str_eq(s.as_str(), "archived") {
                s
            } else {
                "active".to_owned()
            }
        },
        None => "active".to_owned(),
    }
}

pub open spec fn spec_normalize_progress(v: Option<int>) -> int {
    match v {
        None => 0,
        Some(x) => if x < 0 {
            0
        } else if x > 100 {
            100
        } else {
            x
        },
    }
}

/// Goal progress is clamped to [0, 100]; an absent value becomes 0.
pub fn normalize_progress(progress: Option<i64>) -> (r: i64)
    ensures
        r as int == spec_normalize_progress(spec_opt_i64(progress)),
{
    match progress {
        None => 0,
        Some(x) => {
            if x < 0 {
                0
            } else if x > 100 {
                100
            } else {
                x
            }
        },
    }
}

pub open spec fn spec_normalize_target_per_week(v: Option<int>) -> int {
    match v {
        None => 5,
        Some(x) => if x < 1 {
            1
        } else if x > 14 {
            14
        } else {
            x
        },
    }
}

/// A habit's weekly target is clamped to [1, 14]; an absent value becomes
/// the default of 5.
pub fn normalize_target_per_week(target_per_week: Option<i64>) -> (r: i64)
    ensures
        r as int == spec_normalize_target_per_week(spec_opt_i64(target_per_week)),
{
    match target_per_week {
        None => 5,
        Some(x) => {
            if x < 1 {
                1
            } else if x > 14 {
                14
            } else {
                x
            }
        },
    }
}

/// The characters trimming removes: the Unicode white-space set.  A colour
/// is blank when it trims to empty.
pub open spec fn is_blank_char(c: char) -> bool {
    ||| 0x9 <= c as int <= 0xD
    ||| c as int == 0x20
    ||| c as int == 0x85
    ||| c as int == 0xA0
    ||| c as int == 0x1680
    ||| 0x2000 <= c as int <= 0x200A
    ||| c as int == 0x2028
    ||| c as int == 0x2029
    ||| c as int == 0x202F
    ||| c as int == 0x205F
    ||| c as int == 0x3000
}

pub open spec fn all_blank(s: Seq<char>) -> bool {
    forall|i: int| 0 <= i < s.len() ==> is_blank_char(s[i])
}

pub open spec fn spec_normalize_habit_color(c: Option<Seq<char>>) -> Seq<char> {
    match c {
        Some(s) => if all_blank(s) {
            "#60a5fa"@
        } else {
            s
        },
        None => "#60a5fa"@,
    }
}

/// A habit's colour defaults to "#60a5fa" when absent or blank after
/// trimming.
pub fn normalize_habit_color(color: Option<String>) -> (r: String)
    ensures
        r@ == spec_normalize_habit_color(spec_opt_view(color)),
{
    match color {
        Some(s) => {
            if is_blank(s.as_str()) {
                "#60a5fa".to_owned()
            } else {
                s
            }
        },
        None => "#60a5fa".to_owned(),
    }
}

/// True when every character of the string is whitespace (so the string
/// trims to empty).
fn is_blank(s: &str) -> (r: bool)
    ensures
        r == all_blank(s@),
{
    let len = s.unicode_len();
    let mut i: usize = 0;
    while i < len
        invariant
            len == s@.len(),
            i <= len,
            forall|j: int| 0 <= j < i ==> is_blank_char(s@[j]),
        decreases len - i,
    {
        let u = s.get_char(i) as u32;
        let blank = (0x9 <= u && u <= 0xD) || u == 0x20 || u == 0x85 || u == 0xA0 || u == 0x1680
            || (0x2000 <= u && u <= 0x200A) || u == 0x2028 || u == 0x2029 || u == 0x202F
            || u == 0x205F || u == 0x3000;
        if !blank {
            return false;
        }
        i = i + 1;
    }
    true
}

} // verus!
