use vstd::prelude::*;
use crate::error::StoreError;
use crate::store::{
    Store, store_tables, store_in_txn, goal_pairs, lists_table, dml_ok, goal_listed_le,
};
use crate::records::{Goal, GoalData, goal_data_wf};
use crate::norm::{
    normalize_goal_status, normalize_progress, spec_normalize_goal_status, spec_normalize_progress,
    spec_opt_view, spec_opt_i64,
};
use crate::clock::now_rfc3339;
use crate::util::str_eq;

verus! {

// The goal repository.  Progress is clamped to a percentage and forced to
// 100 the moment a goal is completed.

/// Every goal of a table satisfies the goal invariant.
pub open spec fn goals_wf(m: Map<int, GoalData>) -> bool {
    forall|k: int| m.dom().contains(k) ==> goal_data_wf(#[trigger] m[k])
}

/// All goals, grouped by status (active, paused, completed, archived, other),
/// goals with a target date before those without, ascending by target date,
/// newest activity first as the tiebreak.
pub fn get_goals(store: &Store) -> (r: Result<Vec<Goal>, StoreError>)
    ensures
        r matches Ok(rows) ==> {
            &&& lists_table(goal_pairs(rows@), store_tables(*store).goals)
            &&& forall|i: int, j: int|
                0 <= i < j < rows@.len() ==> goal_listed_le(
                    #[trigger] rows@[i],
                    #[trigger] rows@[j],
                )
        },
{
    store.select_goals()
}

/// The normalized shape a goal write takes: status coerced to a known value,
/// progress clamped to [0, 100] and forced to 100 on a completed goal.
pub open spec fn goal_written(
    g: GoalData,
    title: Seq<char>,
    description: Seq<char>,
    status: Option<Seq<char>>,
    progress: Option<int>,
    target_date: Option<Seq<char>>,
) -> bool {
    &&& g.title == title
    &&& g.description == description
    &&& g.status == spec_normalize_goal_status(status)
    &&& g.progress == if spec_normalize_goal_status(status) == "completed"@ {
        100int
    } else {
        spec_normalize_progress(progress)
    }
    &&& g.target_date == target_date
}

/// Creates a goal from user input and returns it with its fresh identifier.
pub fn create_goal(
    store: &mut Store,
    title: String,
    description: String,
    status: Option<String>,
    progress: Option<i64>,
    target_date: Option<String>,
) -> (r: Result<Goal, StoreError>)
    requires
        !store_in_txn(*old(store)),
    ensures
        !store_in_txn(*final(store)),
        r matches Ok(g) ==> {
            let pre = store_tables(*old(store));
            &&& dml_ok(*old(store), *final(store))
            &&& !pre.goals.dom().contains(g.id as int)
            &&& store_tables(*final(store)) == pre.with_goals(
                pre.goals.insert(g.id as int, g.data()),
            )
            &&& goal_written(
                g.data(),
                title@,
                description@,
                spec_opt_view(status),
                spec_opt_i64(progress),
                spec_opt_view(target_date),
            )
            &&& g.created_at@ == g.updated_at@
            &&& goal_data_wf(g.data())
            &&& goals_wf(pre.goals) ==> goals_wf(store_tables(*final(store)).goals)
        },
        r is Err ==> store_tables(*final(store)) == store_tables(*old(store)),
{
    let now = now_rfc3339();
    let status = normalize_goal_status(status);
    let mut progress = normalize_progress(progress);
    if str_eq(status.as_str(), "completed") {
        progress = 100;
    }
    match store.insert_goal(
        title.as_str(),
        description.as_str(),
        status.as_str(),
        progress,
        &target_date,
        now.as_str(),
        now.as_str(),
    ) {
        Ok(id) => {
            let goal = Goal {
                id,
                title,
                description,
                status,
                progress,
                target_date,
                created_at: now.clone(),
                updated_at: now,
            };
            proof {
                let pre = store_tables(*old(store));
                let post = store_tables(*final(store));
                assert(goal_data_wf(goal.data()));
                if goals_wf(pre.goals) {
                    assert forall|k: int| post.goals.dom().contains(k) implies goal_data_wf(
                        post.goals[k],
                    ) by {
                        if k != id as int {
                            assert(post.goals[k] == pre.goals[k]);
                        }
                    }
                }
            }
            Ok(goal)
        },
        Err(e) => {
            proof {
                crate::store::lemma_dml_err_outside_txn(*old(store), *final(store));
            }
            Err(e)
        },
    }
}

/// Rewrites a goal under the same normalization as creation, preserving its
/// creation stamp.  An absent identifier is a no-op.
pub fn update_goal(
    store: &mut Store,
    id: i64,
    title: String,
    description: String,
    status: Option<String>,
    progress: Option<i64>,
    target_date: Option<String>,
) -> (r: Result<(), StoreError>)
    requires
        !store_in_txn(*old(store)),
    ensures
        !store_in_txn(*final(store)),
        r matches Ok(_) ==> {
            let pre = store_tables(*old(store));
            let post = store_tables(*final(store));
            &&& dml_ok(*old(store), *final(store))
            &&& !pre.goals.dom().contains(id as int) ==> post == pre
            &&& pre.goals.dom().contains(id as int) ==> {
                &&& post == pre.with_goals(post.goals)
                &&& post.goals.dom() =~= pre.goals.dom()
                &&& goal_written(
                    post.goals[id as int],
                    title@,
                    description@,
                    spec_opt_view(status),
                    spec_opt_i64(progress),
                    spec_opt_view(target_date),
                )
                &&& post.goals[id as int].created_at == pre.goals[id as int].created_at
                &&& forall|k: int|
                    pre.goals.dom().contains(k) && k != id as int ==> post.goals[k]
                        == pre.goals[k]
                &&& goals_wf(pre.goals) ==> goals_wf(post.goals)
            }
        },
        r is Err ==> store_tables(*final(store)) == store_tables(*old(store)),
{
    let existing = match store.get_goal_row(id) {
        Ok(e) => e,
        Err(e) => {
            return Err(e);
        },
    };
    let row = match existing {
        None => {
            return Ok(());
        },
        Some(row) => row,
    };
    let now = now_rfc3339();
    let status = normalize_goal_status(status);
    let mut progress = normalize_progress(progress);
    if str_eq(status.as_str(), "completed") {
        progress = 100;
    }
    match store.upsert_goal(
        id,
        title.as_str(),
        description.as_str(),
        status.as_str(),
        progress,
        &target_date,
        row.created_at.as_str(),
        now.as_str(),
    ) {
        Ok(_) => {
            proof {
                let pre = store_tables(*old(store));
                let post = store_tables(*final(store));
                assert(post.goals.dom() =~= pre.goals.dom());
                if goals_wf(pre.goals) {
                    assert(goal_data_wf(post.goals[id as int]));
                    assert forall|k: int| post.goals.dom().contains(k) implies goal_data_wf(
                        post.goals[k],
                    ) by {
                        if k != id as int {
                            assert(post.goals[k] == pre.goals[k]);
                        }
                    }
                }
            }
            Ok(())
        },
        Err(e) => {
            proof {
                crate::store::lemma_dml_err_outside_txn(*old(store), *final(store));
            }
            Err(e)
        },
    }
}

/// Deletes a goal; deleting an absent identifier is a no-op.
pub fn delete_goal(store: &mut Store, id: i64) -> (r: Result<(), StoreError>)
    requires
        !store_in_txn(*old(store)),
    ensures
        !store_in_txn(*final(store)),
        r matches Ok(_) ==> dml_ok(*old(store), *final(store)) && store_tables(*final(store))
            == store_tables(*old(store)).with_goals(
            store_tables(*old(store)).goals.remove(id as int),
        ),
        r is Err ==> store_tables(*final(store)) == store_tables(*old(store)),
{
    match store.delete_goal_row(id) {
        Ok(_) => Ok(()),
        Err(e) => {
            proof {
                crate::store::lemma_dml_err_outside_txn(*old(store), *final(store));
            }
            Err(e)
        },
    }
}

} // verus!
