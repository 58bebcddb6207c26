use vstd::prelude::*;
use crate::records::{
    EntryData, PageData, TaskData, GoalData, HabitData, LogData, task_data_wf, goal_data_wf,
    habit_data_wf, log_data_wf,
};

verus! {

// The mathematical model of the database: one map per table, keyed by the
// row's natural key.  Every storage contract is stated over this model.

/// The contents of the six data tables.
#[verifier::ext_equal]
pub ghost struct StoreModel {
    pub entries: Map<Seq<char>, EntryData>,
    pub pages: Map<int, PageData>,
    pub tasks: Map<int, TaskData>,
    pub goals: Map<int, GoalData>,
    pub habits: Map<int, HabitData>,
    pub habit_logs: Map<int, LogData>,
}

impl StoreModel {
    pub open spec fn empty() -> StoreModel {
        StoreModel {
            entries: Map::empty(),
            pages: Map::empty(),
            tasks: Map::empty(),
            goals: Map::empty(),
            habits: Map::empty(),
            habit_logs: Map::empty(),
        }
    }

    pub open spec fn with_entries(self, m: Map<Seq<char>, EntryData>) -> StoreModel {
        StoreModel { entries: m, ..self }
    }

    pub open spec fn with_pages(self, m: Map<int, PageData>) -> StoreModel {
        StoreModel { pages: m, ..self }
    }

    pub open spec fn with_tasks(self, m: Map<int, TaskData>) -> StoreModel {
        StoreModel { tasks: m, ..self }
    }

    pub open spec fn with_goals(self, m: Map<int, GoalData>) -> StoreModel {
        StoreModel { goals: m, ..self }
    }

    pub open spec fn with_habits(self, m: Map<int, HabitData>) -> StoreModel {
        StoreModel { habits: m, ..self }
    }

    pub open spec fn with_habit_logs(self, m: Map<int, LogData>) -> StoreModel {
        StoreModel { habit_logs: m, ..self }
    }

    pub open spec fn doms_finite(self) -> bool {
        &&& self.entries.dom().finite()
        &&& self.pages.dom().finite()
        &&& self.tasks.dom().finite()
        &&& self.goals.dom().finite()
        &&& self.habits.dom().finite()
        &&& self.habit_logs.dom().finite()
    }
}

/// No two habit logs record the same habit on the same date.
pub open spec fn logs_unique(logs: Map<int, LogData>) -> bool {
    forall|i: int, j: int|
        logs.dom().contains(i) && logs.dom().contains(j) && #[trigger] logs[i].habit_id
            == #[trigger] logs[j].habit_id && logs[i].date == logs[j].date ==> i == j
}

/// Every stored row satisfies its normalization invariant.
pub open spec fn model_wf(m: StoreModel) -> bool {
    &&& forall|k: int| m.tasks.dom().contains(k) ==> task_data_wf(#[trigger] m.tasks[k])
    &&& forall|k: int| m.goals.dom().contains(k) ==> goal_data_wf(#[trigger] m.goals[k])
    &&& forall|k: int| m.habits.dom().contains(k) ==> habit_data_wf(#[trigger] m.habits[k])
    &&& forall|k: int| m.habit_logs.dom().contains(k) ==> log_data_wf(#[trigger] m.habit_logs[k])
    &&& logs_unique(m.habit_logs)
}

/// The schema facts the migration runner cares about: which tables exist,
/// which columns the tasks table has, and which indexes exist.
#[verifier::ext_equal]
pub ghost struct SchemaModel {
    pub migrations: bool,
    pub entries: bool,
    pub pages: bool,
    pub tasks: bool,
    pub goals: bool,
    pub habits: bool,
    pub habit_logs: bool,
    pub task_cols: Set<Seq<char>>,
    pub indexes: Set<Seq<char>>,
}

/// The map that results from writing a sequence of keyed rows in order,
/// later rows overwriting earlier ones with the same key.
pub open spec fn pairs_map_onto<K, V>(base: Map<K, V>, ps: Seq<(K, V)>) -> Map<K, V>
    decreases ps.len(),
{
    if ps.len() == 0 {
        base
    } else {
        pairs_map_onto(base, ps.drop_last()).insert(ps.last().0, ps.last().1)
    }
}

pub open spec fn keys_distinct<K, V>(ps: Seq<(K, V)>) -> bool {
    forall|i: int, j: int| 0 <= i < j < ps.len() ==> (#[trigger] ps[i]).0 != (#[trigger] ps[j]).0
}

/// With pairwise-distinct keys, the map written from a sequence of rows
/// holds exactly those rows.
pub proof fn lemma_pairs_map_index<K, V>(base: Map<K, V>, ps: Seq<(K, V)>, i: int)
    requires
        keys_distinct(ps),
        0 <= i < ps.len(),
    ensures
        pairs_map_onto(base, ps).dom().contains(ps[i].0),
        pairs_map_onto(base, ps)[ps[i].0] == ps[i].1,
    decreases ps.len(),
{
    if i == ps.len() - 1 {
    } else {
        assert(ps.drop_last()[i] == ps[i]);
        lemma_pairs_map_index(base, ps.drop_last(), i);
        assert(ps[ps.len() - 1].0 != ps[i].0);
    }
}


} // verus!
