//! The task container: an ordered, mutable sequence of commands owned by one
//! user and tagged with a numeric identifier.

use vstd::prelude::*;

verus! {

/// The error raised when a task is indexed out of range. (A payload type that
/// lacks the rendering capability is rejected by the type system instead, so
/// no runtime variant exists for it.)
#[derive(Clone, Copy, Debug, PartialEq, Eq, Structural)]
pub enum TaskError {
    IndexOutOfBounds,
}

/// The mathematical model of a task: its identifier, the user who submitted
/// it, and its commands in insertion order.
#[verifier::ext_equal]
pub struct TaskView<T> {
    pub id: u64,
    pub user: Seq<char>,
    pub cmds: Seq<T>,
}

/// An ordered collection of commands submitted by one user, identified by a
/// numeric id. Single-owner: mutation happens only through `&mut self`.
pub struct Task<T> {
    id: u64,
    user: String,
    cmds: Vec<T>,
}

impl<T> View for Task<T> {
    type V = TaskView<T>;

    closed spec fn view(&self) -> TaskView<T> {
        TaskView { id: self.id, user: self.user@, cmds: self.cmds@ }
    }
}

/// The model of a freshly created task: the given identity and no commands.
pub open spec fn fresh_task<T>(id: u64, user: Seq<char>) -> TaskView<T> {
    TaskView { id, user, cmds: Seq::empty() }
}

/// The model of appending one command to a task.
pub open spec fn task_push<T>(v: TaskView<T>, cmd: T) -> TaskView<T> {
    TaskView { cmds: v.cmds.push(cmd), ..v }
}

/// The model of clearing a task's commands.
pub open spec fn task_clear<T>(v: TaskView<T>) -> TaskView<T> {
    TaskView { cmds: Seq::empty(), ..v }
}

impl<T> Task<T> {
    /// Constructs a task with an empty command sequence. No failure mode.
    pub fn new(id: u64, user: &str) -> (t: Self)
        ensures
            t@ == fresh_task::<T>(id, user@),
    {
        let t = Task { id, user: user.to_owned(), cmds: Vec::new() };
        proof {
            assert(t@ =~= fresh_task::<T>(id, user@));
        }
        t
    }

    /// Appends a command at the end of the sequence. No failure mode.
    pub fn add_cmd(&mut self, cmd: T)
        ensures
            final(self)@ == task_push(old(self)@, cmd),
    {
        self.cmds.push(cmd);
        proof {
            assert(self@ =~= task_push(old(self)@, cmd));
        }
    }

    /// Empties the command sequence; the id and the user are unaffected.
    pub fn clear_cmd(&mut self)
        ensures
            final(self)@ == task_clear(old(self)@),
    {
        self.cmds.clear();
        proof {
            assert(self@ =~= task_clear(old(self)@));
        }
    }

    /// Returns the `i`-th command in insertion order, or
    /// `TaskError::IndexOutOfBounds` exactly when `i` is out of range; an
    /// out-of-range index never yields a default value.
    pub fn at(&self, i: usize) -> (r: Result<&T, TaskError>)
        ensures
            r is Ok <==> i < self@.cmds.len(),
            r matches Ok(c) ==> *c == self@.cmds[i as int],
            r matches Err(e) ==> e == TaskError::IndexOutOfBounds,
    {
        if i < self.cmds.len() {
            Ok(&self.cmds[i])
        } else {
            Err(TaskError::IndexOutOfBounds)
        }
    }

    /// The current command count.
    pub fn len(&self) -> (n: usize)
        ensures
            n == self@.cmds.len(),
    {
        self.cmds.len()
    }

    /// The task's identifier, assigned at construction and immutable.
    pub fn id(&self) -> (r: u64)
        ensures
            r == self@.id,
    {
        self.id
    }

    /// The user who submitted the task, immutable after construction.
    pub fn user(&self) -> (r: &str)
        ensures
            r@ == self@.user,
    {
        self.user.as_str()
    }
}

/// The model of appending a whole sequence of commands, one at a time.
pub open spec fn task_push_all<T>(v: TaskView<T>, cmds: Seq<T>) -> TaskView<T>
    decreases cmds.len(),
{
    if cmds.len() == 0 {
        v
    } else {
        task_push_all(task_push(v, cmds[0]), cmds.drop_first())
    }
}

/// Law: appending any sequence of commands leaves the id and the user
/// unchanged and concatenates the commands, in order, after the existing ones.
pub proof fn lemma_task_push_all<T>(v: TaskView<T>, cmds: Seq<T>)
    ensures
        task_push_all(v, cmds).id == v.id,
        task_push_all(v, cmds).user == v.user,
        task_push_all(v, cmds).cmds == v.cmds + cmds,
    decreases cmds.len(),
{
    if cmds.len() == 0 {
        assert(v.cmds + cmds =~= v.cmds);
    } else {
        lemma_task_push_all(task_push(v, cmds[0]), cmds.drop_first());
        assert(v.cmds.push(cmds[0]) + cmds.drop_first() =~= v.cmds + cmds);
    }
}

/// Law: appending `n` commands to a fresh task gives a task of length `n`.
pub proof fn lemma_fresh_task_len<T>(id: u64, user: Seq<char>, cmds: Seq<T>)
    ensures
        task_push_all(fresh_task::<T>(id, user), cmds).cmds.len() == cmds.len(),
{
    lemma_task_push_all(fresh_task::<T>(id, user), cmds);
    assert(Seq::<T>::empty() + cmds =~= cmds);
}

/// Law: on a fresh task, the command appended first stands at index 0, and in
/// general the `i`-th appended command stands at index `i`.
pub proof fn lemma_fresh_task_order<T>(id: u64, user: Seq<char>, cmds: Seq<T>, i: int)
    requires
        0 <= i < cmds.len(),
    ensures
        task_push_all(fresh_task::<T>(id, user), cmds).cmds[i] == cmds[i],
{
    lemma_task_push_all(fresh_task::<T>(id, user), cmds);
    assert(Seq::<T>::empty() + cmds =~= cmds);
}

/// Law: clearing a task empties its commands and leaves its id and user
/// unchanged, whatever state it was in.
pub proof fn lemma_task_clear<T>(v: TaskView<T>)
    ensures
        task_clear(v).cmds.len() == 0,
        task_clear(v).id == v.id,
        task_clear(v).user == v.user,
{
}

} // verus!
