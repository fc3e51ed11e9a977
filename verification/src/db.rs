//! Task Store Access: the two operations against the task store, scoped by
//! the authenticated owner, together with the store's semantic model.
//!
//! The store assigns each created task a fresh identifier and a creation
//! stamp that strictly increases with creation order. A listing returns
//! exactly the caller's tasks, newest first; the owner is taken only from the
//! authorization boundary's output, which is the isolation invariant.

use vstd::prelude::*;

use crate::models::{views_of, CreateTask, Task, TaskView};

verus! {

/// The task store: rows in creation order, and the counters the store
/// assigns identifiers and creation stamps from.
pub struct TaskStore {
    tasks: Vec<Task>,
    next_id: u64,
    clock: u64,
}

/// The tasks of one owner among `tasks`, newest first.
pub open spec fn owned_desc(tasks: Seq<TaskView>, owner: Seq<char>) -> Seq<TaskView>
    decreases tasks.len(),
{
    if tasks.len() == 0 {
        Seq::empty()
    } else {
        let rest = owned_desc(tasks.drop_last(), owner);
        if tasks.last().user_id == owner {
            seq![tasks.last()] + rest
        } else {
            rest
        }
    }
}

impl TaskStore {
    /// The stored task values, in creation order.
    pub closed spec fn tasks_seq(self) -> Seq<TaskView> {
        views_of(self.tasks@)
    }

    /// The next identifier the store will assign.
    pub closed spec fn next_id_spec(self) -> u64 {
        self.next_id
    }

    /// The next creation stamp the store will assign.
    pub closed spec fn clock_spec(self) -> u64 {
        self.clock
    }

    /// Well-formed: every stored identifier and creation stamp lies below the
    /// respective counter, and creation stamps strictly increase with
    /// creation order (so identifiers and stamps are unique).
    pub open spec fn wf(self) -> bool {
        &&& forall|i: int|
            0 <= i < self.tasks_seq().len() ==> (#[trigger] self.tasks_seq()[i]).id
                < self.next_id_spec()
        &&& forall|i: int|
            0 <= i < self.tasks_seq().len() ==> (#[trigger] self.tasks_seq()[i]).created_at
                < self.clock_spec()
        &&& forall|i: int, j: int|
            0 <= i < j < self.tasks_seq().len() ==> self.tasks_seq()[i].created_at
                < self.tasks_seq()[j].created_at
    }

    /// Whether the store can still assign a fresh identifier and stamp.
    pub open spec fn can_create(self) -> bool {
        &&& self.next_id_spec() < u64::MAX
        &&& self.clock_spec() < u64::MAX
    }

    /// An empty store.
    pub fn new() -> (s: Self)
        ensures
            s.wf(),
            s.can_create(),
            s.tasks_seq().len() == 0,
    {
        TaskStore { tasks: Vec::new(), next_id: 0, clock: 0 }
    }

    /// Whether a create may be performed (counter headroom).
    pub fn can_accept(&self) -> (b: bool)
        ensures
            b == self.can_create(),
    {
        self.next_id < u64::MAX && self.clock < u64::MAX
    }

    /// How many tasks the store holds.
    pub fn len(&self) -> (n: usize)
        ensures
            n == self.tasks_seq().len(),
    {
        self.tasks.len()
    }
}

/// Inserts a new task for this owner: the store assigns the identifier and
/// creation stamp, the completion flag starts false, and the new row is
/// appended after every existing one. The returned task equals the stored
/// row.
pub fn create_task(store: &mut TaskStore, user_id: String, new_task: CreateTask) -> (t: Task)
    requires
        old(store).wf(),
        old(store).can_create(),
    ensures
        final(store).wf(),
        t@.user_id == user_id@,
        t@.title == new_task.title@,
        !t@.is_completed,
        final(store).tasks_seq() == old(store).tasks_seq().push(t@),
        forall|i: int|
            0 <= i < old(store).tasks_seq().len() ==> t@.id != (#[trigger] old(
                store,
            ).tasks_seq()[i]).id && t@.created_at > old(store).tasks_seq()[i].created_at,
{
    let id = store.next_id;
    let stamp = store.clock;
    store.next_id = store.next_id + 1;
    store.clock = store.clock + 1;
    let t = Task {
        id,
        user_id,
        title: new_task.title,
        is_completed: false,
        created_at: stamp,
    };
    let returned = Task {
        id: t.id,
        user_id: t.user_id.clone(),
        title: t.title.clone(),
        is_completed: t.is_completed,
        created_at: t.created_at,
    };
    store.tasks.push(t);
    proof {
        assert(store.tasks_seq() =~= old(store).tasks_seq().push(returned@));
    }
    returned
}

/// Returns all tasks of this owner, newest first. Only rows whose owner
/// equals `user_id` appear, and every such row appears.
pub fn get_tasks_for_user(store: &TaskStore, user_id: String) -> (r: Vec<Task>)
    ensures
        views_of(r@) == owned_desc(store.tasks_seq(), user_id@),
{
    let ghost full = store.tasks_seq();
    let ghost uid = user_id@;
    let mut result: Vec<Task> = Vec::new();
    let n = store.tasks.len();
    proof {
        assert(full.subrange(0, n as int) =~= full);
        assert(views_of(result@) =~= Seq::<TaskView>::empty());
    }
    let mut j = n;
    while j > 0
        invariant
            j <= n,
            n == store.tasks@.len(),
            full == store.tasks_seq(),
            uid == user_id@,
            owned_desc(full, uid) == views_of(result@) + owned_desc(
                full.subrange(0, j as int),
                uid,
            ),
        decreases j,
    {
        j = j - 1;
        let ghost result_before = result@;
        let ghost pre = full.subrange(0, j + 1);
        proof {
            assert(pre.drop_last() =~= full.subrange(0, j as int));
            assert(pre.last() == full[j as int]);
        }
        let t = &store.tasks[j];
        if t.user_id == user_id {
            result.push(
                Task {
                    id: t.id,
                    user_id: t.user_id.clone(),
                    title: t.title.clone(),
                    is_completed: t.is_completed,
                    created_at: t.created_at,
                },
            );
            proof {
                assert(views_of(result@) =~= views_of(result_before) + seq![full[j as int]]);
                assert(views_of(result_before) + owned_desc(pre, uid) =~= (views_of(result_before)
                    + seq![full[j as int]]) + owned_desc(full.subrange(0, j as int), uid));
            }
        } else {
            proof {
                assert(owned_desc(pre, uid) == owned_desc(full.subrange(0, j as int), uid));
                assert(views_of(result@) == views_of(result_before));
            }
        }
    }
    proof {
        assert(full.subrange(0, 0) =~= Seq::<TaskView>::empty());
        assert(owned_desc(full, uid) =~= views_of(result@));
    }
    result
}

/// Every task listed for an owner belongs to that owner.
pub proof fn lemma_owned_desc_owner(tasks: Seq<TaskView>, owner: Seq<char>)
    ensures
        forall|i: int|
            0 <= i < owned_desc(tasks, owner).len() ==> (#[trigger] owned_desc(tasks, owner)[i]).user_id
                == owner,
    decreases tasks.len(),
{
    if tasks.len() > 0 {
        let rest = tasks.drop_last();
        lemma_owned_desc_owner(rest, owner);
        let listed = owned_desc(tasks, owner);
        let listed_rest = owned_desc(rest, owner);
        if tasks.last().user_id == owner {
            assert(listed == seq![tasks.last()] + listed_rest);
            assert forall|i: int| 0 <= i < listed.len() implies (#[trigger] listed[i]).user_id
                == owner by {
                if i > 0 {
                    assert(listed_rest[i - 1] == listed[i]);
                }
            };
        }
    }
}

/// Per-owner isolation: for two distinct identities, a task of one never
/// appears in the listing of the other.
pub proof fn lemma_owner_isolation(tasks: Seq<TaskView>, a: Seq<char>, b: Seq<char>)
    requires
        a != b,
    ensures
        forall|i: int|
            0 <= i < owned_desc(tasks, b).len() ==> (#[trigger] owned_desc(tasks, b)[i]).user_id
                != a,
{
    lemma_owned_desc_owner(tasks, b);
}

/// A listing is complete and sound: a task value appears in the listing for
/// an owner exactly when it is stored and belongs to that owner.
pub proof fn lemma_owned_desc_complete(tasks: Seq<TaskView>, owner: Seq<char>, t: TaskView)
    ensures
        owned_desc(tasks, owner).contains(t) <==> (tasks.contains(t) && t.user_id == owner),
    decreases tasks.len(),
{
    if tasks.len() == 0 {
    } else {
        let rest = tasks.drop_last();
        lemma_owned_desc_complete(rest, owner, t);
        let listed = owned_desc(tasks, owner);
        let listed_rest = owned_desc(rest, owner);
        if tasks.last().user_id == owner {
            assert(listed == seq![tasks.last()] + listed_rest);
            if listed.contains(t) {
                let i = choose|i: int| 0 <= i < listed.len() && listed[i] == t;
                if i == 0 {
                    assert(t == tasks.last());
                    assert(tasks[tasks.len() - 1] == t);
                } else {
                    assert(listed_rest[i - 1] == t);
                    assert(listed_rest.contains(t));
                    let k = choose|k: int| 0 <= k < rest.len() && rest[k] == t;
                    assert(tasks[k] == t);
                }
            }
            if tasks.contains(t) && t.user_id == owner {
                let k = choose|k: int| 0 <= k < tasks.len() && tasks[k] == t;
                if k == tasks.len() - 1 {
                    assert(listed[0] == t);
                } else {
                    assert(rest[k] == t);
                    assert(rest.contains(t));
                    let i = choose|i: int| 0 <= i < listed_rest.len() && listed_rest[i] == t;
                    assert(listed[i + 1] == t);
                }
            }
        } else {
            assert(listed == listed_rest);
            if listed.contains(t) {
                let i = choose|i: int| 0 <= i < listed_rest.len() && listed_rest[i] == t;
                let k = choose|k: int| 0 <= k < rest.len() && rest[k] == t;
                assert(tasks[k] == t);
            }
            if tasks.contains(t) && t.user_id == owner {
                let k = choose|k: int| 0 <= k < tasks.len() && tasks[k] == t;
                assert(k < rest.len());
                assert(rest[k] == t);
                assert(rest.contains(t));
            }
        }
    }
}

/// Listings come newest first: when creation stamps strictly increase with
/// creation order, the listing's stamps strictly decrease.
pub proof fn lemma_listing_newest_first(tasks: Seq<TaskView>, owner: Seq<char>)
    requires
        forall|i: int, j: int|
            0 <= i < j < tasks.len() ==> tasks[i].created_at < tasks[j].created_at,
    ensures
        forall|i: int, j: int|
            0 <= i < j < owned_desc(tasks, owner).len() ==> owned_desc(tasks, owner)[i].created_at
                > owned_desc(tasks, owner)[j].created_at,
    decreases tasks.len(),
{
    if tasks.len() > 0 {
        let rest = tasks.drop_last();
        lemma_listing_newest_first(rest, owner);
        let listed = owned_desc(tasks, owner);
        let listed_rest = owned_desc(rest, owner);
        if tasks.last().user_id == owner {
            assert(listed == seq![tasks.last()] + listed_rest);
            assert forall|i: int, j: int| 0 <= i < j < listed.len() implies listed[i].created_at
                > listed[j].created_at by {
                if i == 0 {
                    let t = listed[j];
                    assert(listed_rest[j - 1] == t);
                    assert(listed_rest.contains(t));
                    lemma_owned_desc_complete(rest, owner, t);
                    let k = choose|k: int| 0 <= k < rest.len() && rest[k] == t;
                    assert(tasks[k] == t);
                    assert(tasks[k].created_at < tasks.last().created_at);
                } else {
                    assert(listed_rest[i - 1] == listed[i]);
                    assert(listed_rest[j - 1] == listed[j]);
                }
            };
        }
    }
}

/// A newly appended task heads its owner's listing and leaves every other
/// owner's listing unchanged.
pub proof fn lemma_create_shapes_listings(tasks: Seq<TaskView>, t: TaskView, owner: Seq<char>)
    ensures
        t.user_id == owner ==> owned_desc(tasks.push(t), owner) == seq![t] + owned_desc(
            tasks,
            owner,
        ),
        t.user_id != owner ==> owned_desc(tasks.push(t), owner) == owned_desc(tasks, owner),
{
    assert(tasks.push(t).drop_last() =~= tasks);
    assert(tasks.push(t).last() == t);
}

/// For a well-formed store, a listing's creation stamps strictly decrease:
/// tasks created later — in particular two created in immediate succession —
/// come back first.
pub proof fn lemma_store_listing_newest_first(store: TaskStore, owner: Seq<char>)
    requires
        store.wf(),
    ensures
        forall|i: int, j: int|
            0 <= i < j < owned_desc(store.tasks_seq(), owner).len() ==> owned_desc(
                store.tasks_seq(),
                owner,
            )[i].created_at > owned_desc(store.tasks_seq(), owner)[j].created_at,
{
    lemma_listing_newest_first(store.tasks_seq(), owner);
}

/// An owner with no stored task gets the empty listing.
pub proof fn lemma_empty_listing(tasks: Seq<TaskView>, owner: Seq<char>)
    requires
        forall|i: int| 0 <= i < tasks.len() ==> (#[trigger] tasks[i]).user_id != owner,
    ensures
        owned_desc(tasks, owner).len() == 0,
    decreases tasks.len(),
{
    if tasks.len() > 0 {
        assert(tasks.last() == tasks[tasks.len() - 1]);
        lemma_empty_listing(tasks.drop_last(), owner);
    }
}

} // verus!
