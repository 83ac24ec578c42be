//! DevTools access to the DedicatedWorkers of one browser context.
//!
//! Every DedicatedWorker lifetime gets a browser-context-unique instance id;
//! DevTools reaches the worker thread through the message sender registered
//! under that id.  A command to a worker whose sender is gone, or whose
//! thread no longer listens, reports the worker as unavailable.

use vstd::prelude::*;
use std::collections::HashMap;
use crate::protocol::{oneshot_channel, RendererRuntimeInspectorMessage, RendererRuntimeInspectorResponseSender};

verus! {

/// The sending half of an unbounded channel.
#[verifier::external_type_specification]
#[verifier::external_body]
#[verifier::reject_recursive_types(T)]
pub struct ExUnboundedSender<T>(tokio::sync::mpsc::UnboundedSender<T>);

/// Another sending half of the same channel; calls `UnboundedSender::clone`.
#[verifier::external_body]
fn clone_unbounded_sender<T>(sender: &tokio::sync::mpsc::UnboundedSender<T>) -> tokio::sync::mpsc::UnboundedSender<T> {
    sender.clone()
}

/// Hands `message` to the channel; calls `UnboundedSender::send`, which fails
/// once the receiving half is closed.  Whether it is closed is up to the
/// receiver, so nothing is claimed of the result.
#[verifier::external_body]
fn unbounded_send<T>(sender: &tokio::sync::mpsc::UnboundedSender<T>, message: T) -> bool {
    sender.send(message).is_ok()
}

/// The reply of a worker thread to one runtime protocol dispatch.
pub type WorkerRuntimeProtocolReply = Result<Vec<RendererRuntimeInspectorMessage>, String>;

/// A DevTools message to a DedicatedWorker thread.
pub enum WorkerMessage {
    /// Dispatch a runtime protocol message and reply with its output.
    DispatchRuntimeProtocolMessage {
        inspector_session_id: Option<String>,
        raw_json: String,
        deferred_response: Option<RendererRuntimeInspectorResponseSender>,
        response_tx: tokio::sync::oneshot::Sender<WorkerRuntimeProtocolReply>,
    },
    /// Attach an inspector session.
    AttachRuntimeInspectorSession { inspector_session_id: Option<String> },
    /// Detach an inspector session.
    DetachRuntimeInspectorSession { inspector_session_id: Option<String> },
    /// Resume a worker that waits for the debugger.
    RunIfWaitingForDebuggerForDevtools,
    /// Terminate the worker.
    Terminate,
}

/// The handle of a running DedicatedWorker thread.
pub struct WorkerHandle {
    pub tx: tokio::sync::mpsc::UnboundedSender<WorkerMessage>,
}

/// The error text of a command to a worker that is not there.
pub open spec fn worker_unavailable_text() -> Seq<char> {
    "DedicatedWorkerRuntimeUnavailable"@
}

/// The instance id allocated from counter value `counter`: one past it,
/// saturating.
pub open spec fn instance_id_after(counter: u64) -> u64 {
    if counter < u64::MAX {
        (counter + 1) as u64
    } else {
        u64::MAX
    }
}

/// The counter after one allocation: one past it, wrapping.
pub open spec fn counter_after(counter: u64) -> u64 {
    if counter < u64::MAX {
        (counter + 1) as u64
    } else {
        0u64
    }
}

/// A DevTools request to a DedicatedWorker that expects no reply.
#[derive(Clone, Copy, Debug, PartialEq, Eq, Structural)]
pub enum DedicatedWorkerDevtoolsRequest {
    /// Attach an inspector session.
    AttachSession,
    /// Detach an inspector session.
    DetachSession,
    /// Resume a worker that waits for the debugger.
    RunIfWaitingForDebugger,
    /// Terminate the worker.
    Close,
}

/// The message of `request`; the session requests carry
/// `inspector_session_id`, the others carry nothing.
pub open spec fn devtools_message_of(
    request: DedicatedWorkerDevtoolsRequest,
    inspector_session_id: Option<String>,
) -> WorkerMessage {
    match request {
        DedicatedWorkerDevtoolsRequest::AttachSession => WorkerMessage::AttachRuntimeInspectorSession {
            inspector_session_id,
        },
        DedicatedWorkerDevtoolsRequest::DetachSession => WorkerMessage::DetachRuntimeInspectorSession {
            inspector_session_id,
        },
        DedicatedWorkerDevtoolsRequest::RunIfWaitingForDebugger => WorkerMessage::RunIfWaitingForDebuggerForDevtools,
        DedicatedWorkerDevtoolsRequest::Close => WorkerMessage::Terminate,
    }
}

/// The message a DevTools `request` hands to the worker.
pub fn devtools_message(request: DedicatedWorkerDevtoolsRequest, inspector_session_id: Option<String>) -> (message:
    WorkerMessage)
    ensures
        message == devtools_message_of(request, inspector_session_id),
{
    match request {
        DedicatedWorkerDevtoolsRequest::AttachSession => WorkerMessage::AttachRuntimeInspectorSession {
            inspector_session_id,
        },
        DedicatedWorkerDevtoolsRequest::DetachSession => WorkerMessage::DetachRuntimeInspectorSession {
            inspector_session_id,
        },
        DedicatedWorkerDevtoolsRequest::RunIfWaitingForDebugger => WorkerMessage::RunIfWaitingForDebuggerForDevtools,
        DedicatedWorkerDevtoolsRequest::Close => WorkerMessage::Terminate,
    }
}

/// The message that asks a worker to dispatch `raw_json` for the session
/// `inspector_session_id` and to reply on `response_tx`.
pub fn dispatch_message(
    inspector_session_id: Option<String>,
    raw_json: String,
    deferred_response: Option<RendererRuntimeInspectorResponseSender>,
    response_tx: tokio::sync::oneshot::Sender<WorkerRuntimeProtocolReply>,
) -> (message: WorkerMessage)
    ensures
        message == (WorkerMessage::DispatchRuntimeProtocolMessage {
            inspector_session_id,
            raw_json,
            deferred_response,
            response_tx,
        }),
{
    WorkerMessage::DispatchRuntimeProtocolMessage { inspector_session_id, raw_json, deferred_response, response_tx }
}

/// Whether a DevTools request reached its worker, given the answer of the
/// registered sender's channel (`None` where no sender is registered): it
/// did exactly where the channel accepted the message.
pub fn devtools_request_reached(accepted: Option<bool>) -> (reached: bool)
    ensures
        reached <==> accepted == Some(true),
{
    match accepted {
        Some(a) => a,
        None => false,
    }
}

/// The start of a runtime protocol dispatch once the worker's channel
/// answered `accepted`: the reply receiver where it accepted the message,
/// the unavailable error otherwise.
pub fn dispatch_start_outcome<R>(accepted: bool, reply: R) -> (started: Result<R, String>)
    ensures
        accepted ==> started == Ok::<R, String>(reply),
        !accepted ==> (started matches Err(e) && e@ == worker_unavailable_text()),
{
    if accepted {
        Ok(reply)
    } else {
        Err("DedicatedWorkerRuntimeUnavailable".to_owned())
    }
}

/// The DevTools view of the DedicatedWorkers of one browser context.
pub struct RendererBrowserContextRuntime {
    next_dedicated_worker_instance_id: u64,
    dedicated_worker_devtools_senders: HashMap<u64, tokio::sync::mpsc::UnboundedSender<WorkerMessage>>,
    dedicated_worker_pause_on_start_for_devtools: bool,
}

impl RendererBrowserContextRuntime {
    /// The counter behind instance ids: the id handed out last.
    pub closed spec fn instance_counter(&self) -> u64 {
        self.next_dedicated_worker_instance_id
    }

    /// The instance ids with a registered DevTools sender.
    pub closed spec fn registered_instances(&self) -> Set<u64> {
        self.dedicated_worker_devtools_senders@.dom()
    }

    /// Whether new DedicatedWorkers pause on start for DevTools.
    pub closed spec fn pauses_on_start(&self) -> bool {
        self.dedicated_worker_pause_on_start_for_devtools
    }

    /// A browser context without workers, that does not pause them.
    pub fn new() -> (runtime: Self)
        ensures
            runtime.instance_counter() == 0,
            runtime.registered_instances() == Set::<u64>::empty(),
            !runtime.pauses_on_start(),
    {
        RendererBrowserContextRuntime {
            next_dedicated_worker_instance_id: 0,
            dedicated_worker_devtools_senders: HashMap::new(),
            dedicated_worker_pause_on_start_for_devtools: false,
        }
    }

    /// Allocates the identity of one DedicatedWorker lifetime: one past the
    /// counter (saturating), while the counter advances by one (wrapping).
    /// The JavaScript-facing worker id is Page-local, so it cannot key
    /// protocol targets after a Page is replaced.
    pub fn allocate_dedicated_worker_instance_id(&mut self) -> (instance_id: u64)
        ensures
            instance_id == instance_id_after(old(self).instance_counter()),
            final(self).instance_counter() == counter_after(old(self).instance_counter()),
            final(self).registered_instances() == old(self).registered_instances(),
            final(self).pauses_on_start() == old(self).pauses_on_start(),
    {
        let previous = self.next_dedicated_worker_instance_id;
        self.next_dedicated_worker_instance_id = previous.wrapping_add(1);
        previous.saturating_add(1)
    }

    /// Registers the DevTools sender of the worker `instance_id` (replacing
    /// an earlier one).
    pub fn attach_dedicated_worker_devtools_handle(&mut self, instance_id: u64, handle: &WorkerHandle)
        ensures
            final(self).registered_instances() == old(self).registered_instances().insert(instance_id),
            final(self).instance_counter() == old(self).instance_counter(),
            final(self).pauses_on_start() == old(self).pauses_on_start(),
    {
        self.attach_dedicated_worker_devtools_sender(instance_id, clone_unbounded_sender(&handle.tx));
    }

    /// Registers `sender` as the DevTools sender of the worker `instance_id`.
    fn attach_dedicated_worker_devtools_sender(
        &mut self,
        instance_id: u64,
        sender: tokio::sync::mpsc::UnboundedSender<WorkerMessage>,
    )
        ensures
            final(self).dedicated_worker_devtools_senders@ == old(self).dedicated_worker_devtools_senders@.insert(
                instance_id,
                sender,
            ),
            final(self).instance_counter() == old(self).instance_counter(),
            final(self).pauses_on_start() == old(self).pauses_on_start(),
    {
        broadcast use vstd::std_specs::hash::group_hash_axioms;
        self.dedicated_worker_devtools_senders.insert(instance_id, sender);
    }

    /// Forgets the DevTools sender of the worker `instance_id`.
    pub fn unregister_dedicated_worker_devtools_handle(&mut self, instance_id: u64)
        ensures
            final(self).registered_instances() == old(self).registered_instances().remove(instance_id),
            final(self).instance_counter() == old(self).instance_counter(),
            final(self).pauses_on_start() == old(self).pauses_on_start(),
    {
        broadcast use vstd::std_specs::hash::group_hash_axioms;
        self.dedicated_worker_devtools_senders.remove(&instance_id);
    }

    /// Sets whether new DedicatedWorkers pause on start for DevTools.
    pub fn set_dedicated_worker_pause_on_start_for_devtools(&mut self, pause: bool)
        ensures
            final(self).pauses_on_start() == pause,
            final(self).registered_instances() == old(self).registered_instances(),
            final(self).instance_counter() == old(self).instance_counter(),
    {
        self.dedicated_worker_pause_on_start_for_devtools = pause;
    }

    /// Whether new DedicatedWorkers pause on start for DevTools.
    pub fn dedicated_worker_pause_on_start_for_devtools(&self) -> (pause: bool)
        ensures
            pause == self.pauses_on_start(),
    {
        self.dedicated_worker_pause_on_start_for_devtools
    }

    /// The DevTools sender registered for the worker `instance_id`.
    pub closed spec fn registered_sender(&self, instance_id: u64) -> tokio::sync::mpsc::UnboundedSender<WorkerMessage> {
        self.dedicated_worker_devtools_senders@[instance_id]
    }

    /// The sender registered for the worker `instance_id`, if any.
    fn dedicated_worker_devtools_sender(&self, instance_id: u64) -> (sender: Option<
        &tokio::sync::mpsc::UnboundedSender<WorkerMessage>,
    >)
        ensures
            sender is Some <==> self.registered_instances().contains(instance_id),
            sender matches Some(s) ==> *s == self.registered_sender(instance_id),
    {
        broadcast use vstd::std_specs::hash::group_hash_axioms;
        self.dedicated_worker_devtools_senders.get(&instance_id)
    }

    /// Sends the message of `request` (see `devtools_message`) to the sender
    /// registered for the worker `instance_id`; false where none is
    /// registered or the worker no longer listens.
    fn send_to_dedicated_worker(
        &self,
        instance_id: u64,
        request: DedicatedWorkerDevtoolsRequest,
        inspector_session_id: Option<String>,
    ) -> (sent: bool)
        ensures
            sent ==> self.registered_instances().contains(instance_id),
    {
        let accepted = match self.dedicated_worker_devtools_sender(instance_id) {
            Some(sender) => Some(unbounded_send(sender, devtools_message(request, inspector_session_id))),
            None => None,
        };
        devtools_request_reached(accepted)
    }

    /// Starts a runtime protocol dispatch on the worker `instance_id`: the
    /// receiver of the worker's reply, or the unavailable error where no
    /// sender is registered or the worker no longer listens.
    pub fn start_dedicated_worker_runtime_protocol_dispatch(
        &self,
        instance_id: u64,
        inspector_session_id: Option<String>,
        raw_json: String,
        deferred_response: Option<RendererRuntimeInspectorResponseSender>,
    ) -> (started: Result<tokio::sync::oneshot::Receiver<WorkerRuntimeProtocolReply>, String>)
        ensures
            !self.registered_instances().contains(instance_id) ==> started is Err,
            started is Ok ==> self.registered_instances().contains(instance_id),
            started matches Err(e) ==> e@ == worker_unavailable_text(),
    {
        let sender = match self.dedicated_worker_devtools_sender(instance_id) {
            Some(sender) => sender,
            None => return Err("DedicatedWorkerRuntimeUnavailable".to_owned()),
        };
        let (response_tx, response_rx) = oneshot_channel();
        let accepted = unbounded_send(sender, dispatch_message(inspector_session_id, raw_json, deferred_response, response_tx));
        dispatch_start_outcome(accepted, response_rx)
    }

    /// Asks the worker `instance_id` to attach an inspector session; whether
    /// the request reached a registered worker.
    pub fn attach_dedicated_worker_runtime_inspector_session(
        &self,
        instance_id: u64,
        inspector_session_id: Option<String>,
    ) -> (sent: bool)
        ensures
            sent ==> self.registered_instances().contains(instance_id),
    {
        self.send_to_dedicated_worker(instance_id, DedicatedWorkerDevtoolsRequest::AttachSession, inspector_session_id)
    }

    /// Asks the worker `instance_id` to detach an inspector session; whether
    /// the request reached a registered worker.
    pub fn detach_dedicated_worker_runtime_inspector_session(
        &self,
        instance_id: u64,
        inspector_session_id: Option<String>,
    ) -> (sent: bool)
        ensures
            sent ==> self.registered_instances().contains(instance_id),
    {
        self.send_to_dedicated_worker(instance_id, DedicatedWorkerDevtoolsRequest::DetachSession, inspector_session_id)
    }

    /// Resumes the worker `instance_id` if it waits for the debugger; whether
    /// the request reached a registered worker.
    pub fn run_dedicated_worker_if_waiting_for_debugger_for_devtools(&self, instance_id: u64) -> (sent: bool)
        ensures
            sent ==> self.registered_instances().contains(instance_id),
    {
        self.send_to_dedicated_worker(instance_id, DedicatedWorkerDevtoolsRequest::RunIfWaitingForDebugger, None)
    }

    /// Terminates the worker `instance_id`; whether the request reached a
    /// registered worker.
    pub fn close_dedicated_worker_for_devtools(&self, instance_id: u64) -> (sent: bool)
        ensures
            sent ==> self.registered_instances().contains(instance_id),
    {
        self.send_to_dedicated_worker(instance_id, DedicatedWorkerDevtoolsRequest::Close, None)
    }
}

/// The outcome of a runtime protocol dispatch once the worker's reply
/// channel settled: the worker's own reply, or the unavailable error where
/// the worker dropped the channel without replying.
pub fn finish_dedicated_worker_runtime_protocol_dispatch(
    reply: Option<WorkerRuntimeProtocolReply>,
) -> (outcome: WorkerRuntimeProtocolReply)
    ensures
        match reply {
            Some(r) => outcome == r,
            None => outcome matches Err(e) && e@ == worker_unavailable_text(),
        },
{
    match reply {
        Some(r) => r,
        None => Err("DedicatedWorkerRuntimeUnavailable".to_owned()),
    }
}

/// Consecutive allocations hand out strictly increasing instance ids, as
/// long as the counter does not reach its limit.
pub proof fn law_consecutive_instance_ids_increase(counter: u64)
    requires
        counter < u64::MAX - 1,
    ensures
        instance_id_after(counter) < instance_id_after(counter_after(counter)),
        instance_id_after(counter) > 0,
{
}

/// The counter after `n` allocations from `counter`.
pub open spec fn counter_after_allocations(counter: u64, n: nat) -> u64
    decreases n,
{
    if n == 0 {
        counter
    } else {
        counter_after(counter_after_allocations(counter, (n - 1) as nat))
    }
}

proof fn lemma_counter_after_allocations(counter: u64, n: nat)
    requires
        counter + n <= u64::MAX,
    ensures
        counter_after_allocations(counter, n) == counter + n,
    decreases n,
{
    if n > 0 {
        lemma_counter_after_allocations(counter, (n - 1) as nat);
    }
}

/// Over `n` allocations from `counter`, as long as the counter stays below
/// its limit, the `i`-th allocation (from zero) hands out `counter + i + 1`,
/// so every allocation hands out a different id.
pub proof fn law_allocated_instance_ids_are_distinct(counter: u64, n: nat)
    requires
        counter + n <= u64::MAX,
    ensures
        forall|i: nat| i < n ==> #[trigger] instance_id_after(counter_after_allocations(counter, i)) == counter + i + 1,
        forall|i: nat, j: nat|
            i < j < n ==> #[trigger] instance_id_after(counter_after_allocations(counter, i)) != #[trigger] instance_id_after(
                counter_after_allocations(counter, j),
            ),
{
    assert forall|i: nat| i < n implies #[trigger] instance_id_after(counter_after_allocations(counter, i)) == counter + i
        + 1 by {
        lemma_counter_after_allocations(counter, i);
    }
    assert forall|i: nat, j: nat| i < j < n implies #[trigger] instance_id_after(counter_after_allocations(counter, i))
        != #[trigger] instance_id_after(counter_after_allocations(counter, j)) by {
        lemma_counter_after_allocations(counter, i);
        lemma_counter_after_allocations(counter, j);
    }
}

} // verus!
