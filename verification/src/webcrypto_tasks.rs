//! Pending WebCrypto tasks of one script context host.
//!
//! A WebCrypto operation runs off the script thread; its promise resolver
//! waits here, keyed by a task id, together with the Window execution context
//! that started it and the transport generation of the runtime.  A result is
//! only delivered to the exact owner and generation that registered it, and
//! retiring an owner or a V8 context drops its tasks.

use vstd::prelude::*;
use std::collections::HashMap;

verus! {

/// The owner of a Window execution context.
#[derive(Clone, Copy, Debug, PartialEq, Eq, Hash, Structural)]
pub struct WindowExecutionContextOwner(pub u64);

/// The token of one observable V8 context (realm).
#[derive(Clone, Copy, Debug, PartialEq, Eq, Hash, Structural)]
pub struct RuntimeObservableContextToken(pub u64);

/// The identity of one Window execution context: its owner, its dispatch
/// scope and its realm.
#[derive(Clone, Copy, Debug, PartialEq, Eq, Hash, Structural)]
pub struct WindowExecutionContextIdentity {
    pub owner: WindowExecutionContextOwner,
    pub dispatch_scope: u64,
    pub realm_token: RuntimeObservableContextToken,
}

/// The identity of one WebCrypto task on the Page task queue.
#[derive(Clone, Copy, Debug, PartialEq, Eq, Hash, Structural)]
pub struct RendererPageWebCryptoTaskId {
    task_id: u64,
    transport_generation: u64,
}

impl RendererPageWebCryptoTaskId {
    /// The id of task `task_id` of transport generation `transport_generation`.
    pub fn new(task_id: u64, transport_generation: u64) -> (id: Self)
        ensures
            id.spec_task_id() == task_id,
            id.spec_transport_generation() == transport_generation,
    {
        RendererPageWebCryptoTaskId { task_id, transport_generation }
    }

    /// The task id.
    pub closed spec fn spec_task_id(self) -> u64 {
        self.task_id
    }

    /// The transport generation.
    pub closed spec fn spec_transport_generation(self) -> u64 {
        self.transport_generation
    }

    /// The task id.
    pub fn task_id(self) -> (task_id: u64)
        ensures
            task_id == self.spec_task_id(),
    {
        self.task_id
    }

    /// The transport generation.
    pub fn transport_generation(self) -> (generation: u64)
        ensures
            generation == self.spec_transport_generation(),
    {
        self.transport_generation
    }
}

/// A WebCrypto task waiting for its result; `R` holds the promise resolver
/// and the relevant V8 context.
pub struct PendingWebCryptoTask<R> {
    pub execution_context: WindowExecutionContextIdentity,
    pub transport_generation: u64,
    pub resolver: R,
}

/// Whether a pending task belongs to the owner `owner`.
pub open spec fn pending_owned_by<R>(pending: PendingWebCryptoTask<R>, owner: WindowExecutionContextOwner) -> bool {
    pending.execution_context.owner == owner
}

/// Whether a pending task lives in the realm `token`.
pub open spec fn pending_in_realm<R>(pending: PendingWebCryptoTask<R>, token: RuntimeObservableContextToken) -> bool {
    pending.execution_context.realm_token == token
}

/// The task id after `id`: one past it, wrapping, and never zero.
pub open spec fn task_id_after(id: u64) -> u64 {
    if id < u64::MAX {
        (id + 1) as u64
    } else {
        1
    }
}

/// Whether a pending task stays when the owner `owner` retires (where one
/// is given), or else when the realm `token` is destroyed (where one is
/// given).
pub open spec fn pending_kept<R>(
    pending: PendingWebCryptoTask<R>,
    owner: Option<WindowExecutionContextOwner>,
    token: Option<RuntimeObservableContextToken>,
) -> bool {
    match owner {
        Some(o) => !pending_owned_by(pending, o),
        None => match token {
            Some(t) => !pending_in_realm(pending, t),
            None => true,
        },
    }
}

/// The pending tasks of `tasks` that stay.
pub open spec fn kept_tasks<R>(
    tasks: Map<u64, PendingWebCryptoTask<R>>,
    owner: Option<WindowExecutionContextOwner>,
    token: Option<RuntimeObservableContextToken>,
) -> Map<u64, PendingWebCryptoTask<R>> {
    Map::new(|id: u64| tasks.contains_key(id) && pending_kept(tasks[id], owner, token), |id: u64| tasks[id])
}

/// Whether some pending task of `tasks` has the owner and realm `context`.
pub open spec fn pending_context<R>(
    tasks: Map<u64, PendingWebCryptoTask<R>>,
    context: (WindowExecutionContextOwner, RuntimeObservableContextToken),
) -> bool {
    exists|id: u64| #[trigger] tasks.contains_key(id) && context == (
        tasks[id].execution_context.owner,
        tasks[id].execution_context.realm_token,
    )
}

/// Whether `pending` stays (see `pending_kept`).
fn pending_task_kept<R>(
    pending: &PendingWebCryptoTask<R>,
    owner: Option<WindowExecutionContextOwner>,
    token: Option<RuntimeObservableContextToken>,
) -> (kept: bool)
    ensures
        kept == pending_kept(*pending, owner, token),
{
    match owner {
        Some(o) => !(pending.execution_context.owner == o),
        None => match token {
            Some(t) => !(pending.execution_context.realm_token == t),
            None => true,
        },
    }
}

/// Keeps the pending tasks that `pending_task_kept` keeps.  Calls
/// `HashMap::retain`, which removes every entry for which the closure
/// answers false and keeps the others as they are.
#[verifier::external_body]
fn retain_pending_tasks<R>(
    tasks: &mut HashMap<u64, PendingWebCryptoTask<R>>,
    owner: Option<WindowExecutionContextOwner>,
    token: Option<RuntimeObservableContextToken>,
)
    ensures
        final(tasks)@ == kept_tasks(old(tasks)@, owner, token),
{
    tasks.retain(|_, pending| pending_task_kept(pending, owner, token));
}

/// The pending WebCrypto tasks of one context host, by task id.
pub struct WebCryptoTaskTable<R> {
    next_webcrypto_task_id: u64,
    pending_webcrypto_tasks: HashMap<u64, PendingWebCryptoTask<R>>,
}

impl<R> WebCryptoTaskTable<R> {
    /// The id the next registration takes.
    pub closed spec fn next_task_id(&self) -> u64 {
        self.next_webcrypto_task_id
    }

    /// The pending tasks by task id.
    pub closed spec fn tasks(&self) -> Map<u64, PendingWebCryptoTask<R>> {
        self.pending_webcrypto_tasks@
    }

    /// The table's invariant: task ids are never zero.
    pub open spec fn wf(&self) -> bool {
        self.next_task_id() != 0
    }

    /// An empty table whose first task id is one.
    pub fn new() -> (table: Self)
        ensures
            table.wf(),
            table.tasks() == Map::<u64, PendingWebCryptoTask<R>>::empty(),
            table.next_task_id() == 1,
    {
        WebCryptoTaskTable { next_webcrypto_task_id: 1, pending_webcrypto_tasks: HashMap::new() }
    }

    /// Registers the resolver of a new task started in `execution_context`
    /// under transport generation `transport_generation`.  The task id is
    /// taken whether or not there is a current Window execution context;
    /// without one nothing is registered.  A pending task with the same id
    /// (after the counter wrapped) is replaced.
    pub fn register_pending_webcrypto_task(
        &mut self,
        execution_context: Option<WindowExecutionContextIdentity>,
        transport_generation: u64,
        resolver: R,
    ) -> (task: Option<RendererPageWebCryptoTaskId>)
        requires
            old(self).wf(),
        ensures
            final(self).wf(),
            final(self).next_task_id() == task_id_after(old(self).next_task_id()),
            execution_context is None ==> task is None && final(self).tasks() == old(self).tasks(),
            execution_context matches Some(context) ==> {
                let id = old(self).next_task_id();
                let pending = PendingWebCryptoTask { execution_context: context, transport_generation, resolver };
                &&& task matches Some(t) && t.spec_task_id() == id && t.spec_transport_generation() == transport_generation
                &&& final(self).tasks() == old(self).tasks().insert(id, pending)
            },
    {
        broadcast use vstd::std_specs::hash::group_hash_axioms;
        let task_id = self.next_webcrypto_task_id;
        let advanced = self.next_webcrypto_task_id.wrapping_add(1);
        self.next_webcrypto_task_id = if advanced < 1 { 1 } else { advanced };
        let context = match execution_context {
            Some(c) => c,
            None => return None,
        };
        self.pending_webcrypto_tasks.insert(
            task_id,
            PendingWebCryptoTask { execution_context: context, transport_generation, resolver },
        );
        Some(RendererPageWebCryptoTaskId::new(task_id, transport_generation))
    }

    /// The execution context of `task` while it is pending with the same
    /// transport generation and its context is still current (as
    /// `is_current` decides).
    pub fn current_pending_webcrypto_task_execution_context<F: Fn(WindowExecutionContextIdentity) -> bool>(
        &self,
        task: RendererPageWebCryptoTaskId,
        is_current: F,
    ) -> (context: Option<WindowExecutionContextIdentity>)
        requires
            self.wf(),
            forall|c: WindowExecutionContextIdentity| is_current.requires((c,)),
        ensures
            ({
                let id = task.spec_task_id();
                let registered = self.tasks().contains_key(id) && self.tasks()[id].transport_generation
                    == task.spec_transport_generation();
                match context {
                    Some(c) => registered && self.tasks()[id].execution_context == c && is_current.ensures((c,), true),
                    None => registered ==> is_current.ensures((self.tasks()[id].execution_context,), false),
                }
            }),
    {
        broadcast use vstd::std_specs::hash::group_hash_axioms;
        let task_id = task.task_id();
        let pending = match self.pending_webcrypto_tasks.get(&task_id) {
            Some(p) => p,
            None => return None,
        };
        if pending.transport_generation != task.transport_generation() {
            return None;
        }
        let context = pending.execution_context;
        if !is_current(context) {
            return None;
        }
        Some(context)
    }

    /// Takes the pending task `task` if it was registered by exactly
    /// `execution_context` under the same transport generation; otherwise
    /// leaves the table as it is.
    pub fn take_pending_webcrypto_task_for_exact_owner(
        &mut self,
        execution_context: WindowExecutionContextIdentity,
        task: RendererPageWebCryptoTaskId,
    ) -> (taken: Option<PendingWebCryptoTask<R>>)
        requires
            old(self).wf(),
        ensures
            final(self).wf(),
            final(self).next_task_id() == old(self).next_task_id(),
            ({
                let id = task.spec_task_id();
                match taken {
                    Some(p) => old(self).tasks().contains_key(id) && old(self).tasks()[id] == p
                        && p.execution_context == execution_context && p.transport_generation
                        == task.spec_transport_generation() && final(self).tasks() == old(self).tasks().remove(id),
                    None => final(self).tasks() == old(self).tasks() && !(old(self).tasks().contains_key(id)
                        && old(self).tasks()[id].execution_context == execution_context
                        && old(self).tasks()[id].transport_generation == task.spec_transport_generation()),
                }
            }),
    {
        broadcast use vstd::std_specs::hash::group_hash_axioms;
        let task_id = task.task_id();
        let matches = match self.pending_webcrypto_tasks.get(&task_id) {
            Some(pending) => pending.execution_context == execution_context && pending.transport_generation
                == task.transport_generation(),
            None => false,
        };
        if !matches {
            return None;
        }
        self.pending_webcrypto_tasks.remove(&task_id)
    }

    /// Drops every pending task that `pending_kept` does not keep; returns
    /// how many were dropped.
    fn retire_pending(
        &mut self,
        owner: Option<WindowExecutionContextOwner>,
        token: Option<RuntimeObservableContextToken>,
    ) -> (dropped: usize)
        requires
            old(self).wf(),
        ensures
            final(self).wf(),
            final(self).next_task_id() == old(self).next_task_id(),
            final(self).tasks() == kept_tasks(old(self).tasks(), owner, token),
            dropped == old(self).tasks().len() - final(self).tasks().len(),
    {
        broadcast use vstd::std_specs::hash::group_hash_axioms;
        let count_before = self.pending_webcrypto_tasks.len();
        retain_pending_tasks(&mut self.pending_webcrypto_tasks, owner, token);
        proof {
            let before = old(self).pending_webcrypto_tasks@;
            let after = self.pending_webcrypto_tasks@;
            assert(after.dom().subset_of(before.dom()));
            vstd::set_lib::lemma_len_subset(after.dom(), before.dom());
        }
        count_before - self.pending_webcrypto_tasks.len()
    }

    /// Drops the pending tasks of the retired owner; returns how many.
    pub fn retire_webcrypto_execution_context_owner(&mut self, retired_owner: WindowExecutionContextOwner) -> (retired: usize)
        requires
            old(self).wf(),
        ensures
            final(self).wf(),
            final(self).next_task_id() == old(self).next_task_id(),
            final(self).tasks() == kept_tasks(old(self).tasks(), Some(retired_owner), None),
            retired == old(self).tasks().len() - final(self).tasks().len(),
    {
        self.retire_pending(Some(retired_owner), None)
    }

    /// Drops the pending tasks of a destroyed V8 context; returns how many.
    pub fn retire_webcrypto_context_token(&mut self, context_token: RuntimeObservableContextToken) -> (retired: usize)
        requires
            old(self).wf(),
        ensures
            final(self).wf(),
            final(self).next_task_id() == old(self).next_task_id(),
            final(self).tasks() == kept_tasks(old(self).tasks(), None, Some(context_token)),
            retired == old(self).tasks().len() - final(self).tasks().len(),
    {
        self.retire_pending(None, Some(context_token))
    }

    /// How many tasks are pending.
    pub fn pending_webcrypto_task_count(&self) -> (count: usize)
        ensures
            count == self.tasks().len(),
    {
        broadcast use vstd::std_specs::hash::group_hash_axioms;
        self.pending_webcrypto_tasks.len()
    }

    /// Whether any task is pending.
    pub fn has_pending_webcrypto_tasks(&self) -> (pending: bool)
        ensures
            pending == (self.tasks().len() > 0),
    {
        broadcast use vstd::std_specs::hash::group_hash_axioms;
        self.pending_webcrypto_tasks.len() > 0
    }

    /// The owner and realm of every pending task, one entry per task, in the
    /// table's own order.
    pub fn pending_webcrypto_execution_contexts_for_testing(&self) -> (contexts: Vec<(WindowExecutionContextOwner, RuntimeObservableContextToken)>)
        ensures
            contexts@.len() == self.tasks().len(),
            forall|i: int| 0 <= i < contexts@.len() ==> #[trigger] pending_context(self.tasks(), contexts@[i]),
    {
        broadcast use vstd::std_specs::hash::group_hash_axioms;
        let mut contexts: Vec<(WindowExecutionContextOwner, RuntimeObservableContextToken)> = Vec::new();
        for pending in it: self.pending_webcrypto_tasks.values()
            invariant
                contexts@.len() == it.index(),
                forall|i: int| 0 <= i < contexts@.len() ==> #[trigger] pending_context(self.tasks(), contexts@[i]),
        {
            proof {
                let m = self.pending_webcrypto_tasks@;
                let all = vstd::std_specs::iter::IteratorSpec::remaining(&vstd::std_specs::hash::spec_values_iter(&self.pending_webcrypto_tasks));
                assert(it.seq() == all);
                let k = it.index();
                assert(all[k] == pending);
                assert(all.unref()[k] == *pending);
                assert(all.unref().to_set().contains(*pending));
                assert(m.values().contains(*pending));
                let id = choose|id: u64| m.contains_key(id) && m[id] == *pending;
                assert(pending_context(m, (pending.execution_context.owner, pending.execution_context.realm_token)));
            }
            contexts.push((pending.execution_context.owner, pending.execution_context.realm_token));
        }
        proof {
            let all = vstd::std_specs::iter::IteratorSpec::remaining(&vstd::std_specs::hash::spec_values_iter(&self.pending_webcrypto_tasks));
            assert(all.len() == self.pending_webcrypto_tasks@.dom().len());
        }
        contexts
    }
}

/// A taken task is gone: once a task is taken, no pending task carries its
/// id, so its result cannot be delivered twice.
pub proof fn law_taken_task_is_gone<R>(tasks: Map<u64, PendingWebCryptoTask<R>>, id: u64)
    ensures
        !tasks.remove(id).contains_key(id),
        forall|other: u64| other != id ==> #[trigger] tasks.remove(id).contains_key(other) == tasks.contains_key(other),
{
}

} // verus!
