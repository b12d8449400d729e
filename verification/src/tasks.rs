//! Which actor each running task belongs to.
use std::collections::HashMap;
use vstd::prelude::*;

verus! {

/// The actors of running tasks, by task id.
#[derive(Debug)]
pub struct TaskTable {
    names: HashMap<u64, String>,
}

impl View for TaskTable {
    type V = Map<u64, Seq<char>>;

    closed spec fn view(&self) -> Map<u64, Seq<char>> {
        self.names@.map_values(|name: String| name@)
    }
}

/// The actor of a task, or a stand-in where the task is not known.
pub open spec fn task_owner(tasks: Map<u64, Seq<char>>, task: u64) -> Seq<char> {
    if tasks.dom().contains(task) {
        tasks[task]
    } else {
        "<unknown>"@
    }
}

impl TaskTable {
    /// A table without tasks.
    pub fn new() -> (table: TaskTable)
        ensures
            table@ == Map::<u64, Seq<char>>::empty(),
    {
        let table = TaskTable { names: HashMap::new() };
        assert(table@ =~= Map::<u64, Seq<char>>::empty());
        table
    }

    /// Records that a task runs the given actor.
    pub fn insert(&mut self, task: u64, actor_id: &str)
        ensures
            final(self)@ == old(self)@.insert(task, actor_id@),
    {
        broadcast use vstd::std_specs::hash::group_hash_axioms;

        self.names.insert(task, actor_id.to_owned());
        assert(self@ =~= old(self)@.insert(task, actor_id@));
    }

    /// Forgets a task and returns its actor.
    pub fn take(&mut self, task: u64) -> (actor_id: String)
        ensures
            final(self)@ == old(self)@.remove(task),
            actor_id@ == task_owner(old(self)@, task),
    {
        broadcast use vstd::std_specs::hash::group_hash_axioms;

        let taken = self.names.remove(&task);
        assert(self@ =~= old(self)@.remove(task));
        match taken {
            Some(actor_id) => actor_id,
            None => "<unknown>".to_owned(),
        }
    }

    /// Returns the actor of a task.
    pub fn owner(&self, task: u64) -> (actor_id: String)
        ensures
            actor_id@ == task_owner(self@, task),
    {
        broadcast use vstd::std_specs::hash::group_hash_axioms;

        match self.names.get(&task) {
            Some(actor_id) => actor_id.clone(),
            None => "<unknown>".to_owned(),
        }
    }
}

/// A task that is on the table is its actor's, and any other one has no actor.
pub proof fn tasks_belong_to_their_actors(
    tasks: Map<u64, Seq<char>>,
    task: u64,
    other: u64,
    actor_id: Seq<char>,
)
    ensures
        task_owner(tasks.insert(task, actor_id), task) == actor_id,
        other != task ==> task_owner(tasks.insert(task, actor_id), other) == task_owner(
            tasks,
            other,
        ),
        task_owner(tasks.remove(task), task) == "<unknown>"@,
        other != task ==> task_owner(tasks.remove(task), other) == task_owner(tasks, other),
{
}

} // verus!
