//! Routing of a worker inspector's outbound protocol messages.
//!
//! Messages produced while a command is being dispatched for a session are
//! captured by that dispatch.  Other messages wait as pending notifications
//! tagged with their session.  A response whose command registered a
//! deferred callback goes to that callback; a response without a callback is
//! captured by a matching dispatch or dropped as stale.

use crate::protocol::{RendererRuntimeInspectorMessage, RendererRuntimeInspectorResponseSender};
use std::collections::VecDeque;
use vstd::prelude::*;

verus! {

/// The default session's key: the session of a frontend that sends no
/// session id.
pub open spec fn default_session_key() -> Seq<char> {
    Seq::empty()
}

/// The key of the session named by an optional wire session id: the id
/// itself unless it is missing or empty.
pub open spec fn session_key_of(inspector_session_id: Option<Seq<char>>) -> Seq<char> {
    match inspector_session_id {
        Some(id) => if id.len() > 0 {
            id
        } else {
            default_session_key()
        },
        None => default_session_key(),
    }
}

/// The wire session id of a session key: none for the default session.
pub open spec fn session_id_of(session_key: Seq<char>) -> Option<Seq<char>> {
    if session_key == default_session_key() {
        None
    } else {
        Some(session_key)
    }
}

/// An optional string, by view.
pub open spec fn opt_text(s: Option<String>) -> Option<Seq<char>> {
    match s {
        Some(t) => Some(t@),
        None => None,
    }
}

/// The session key for an optional wire session id.
pub fn worker_inspector_session_key(inspector_session_id: Option<&str>) -> (key: String)
    ensures
        key@ == session_key_of(
            match inspector_session_id {
                Some(id) => Some(id@),
                None => None,
            },
        ),
{
    match inspector_session_id {
        Some(id) => {
            if !id.is_empty() {
                id.to_owned()
            } else {
                String::new()
            }
        },
        None => String::new(),
    }
}

/// The wire session id of a session key.
pub fn worker_inspector_session_id_from_key(session_key: &str) -> (id: Option<String>)
    ensures
        opt_text(id) == session_id_of(session_key@),
{
    if session_key.is_empty() {
        proof {
            assert(session_key@ =~= default_session_key());
        }
        None
    } else {
        Some(session_key.to_owned())
    }
}

/// Whether a string and a string slice hold the same text.
fn same_text(a: &String, b: &str) -> (same: bool)
    ensures
        same == (a@ == b@),
{
    let owned = b.to_owned();
    *a == owned
}

/// Whether two optional strings hold the same text.
fn same_opt_text(a: &Option<String>, b: &Option<String>) -> (same: bool)
    ensures
        same == (opt_text(*a) == opt_text(*b)),
{
    match (a, b) {
        (Some(x), Some(y)) => *x == *y,
        (None, None) => true,
        _ => false,
    }
}

/// A notification waiting for delivery, tagged with its session key.
pub struct WorkerInspectorPendingMessage {
    pub session_key: String,
    pub message: RendererRuntimeInspectorMessage,
}

/// Consecutive pending notifications of one session.
#[derive(Debug, PartialEq)]
pub struct WorkerInspectorPendingMessageBatch {
    pub inspector_session_id: Option<String>,
    pub messages: Vec<RendererRuntimeInspectorMessage>,
}

/// A pending notification, by view.
pub open spec fn pending_view(p: WorkerInspectorPendingMessage) -> (Seq<char>, RendererRuntimeInspectorMessage) {
    (p.session_key@, p.message)
}

/// A batch, by view.
pub open spec fn batch_view(b: WorkerInspectorPendingMessageBatch) -> (Option<Seq<char>>, Seq<RendererRuntimeInspectorMessage>) {
    (opt_text(b.inspector_session_id), b.messages@)
}

/// Groups consecutive notifications of one session into one batch, keeping
/// their order.
pub open spec fn coalesce(pending: Seq<(Seq<char>, RendererRuntimeInspectorMessage)>) -> Seq<
    (Option<Seq<char>>, Seq<RendererRuntimeInspectorMessage>),
>
    decreases pending.len(),
{
    if pending.len() == 0 {
        Seq::empty()
    } else {
        let batches = coalesce(pending.drop_last());
        let (key, message) = pending.last();
        let id = session_id_of(key);
        if batches.len() > 0 && batches.last().0 == id {
            batches.update(batches.len() - 1, (id, batches.last().1.push(message)))
        } else {
            batches.push((id, seq![message]))
        }
    }
}

/// The messages of a sequence of batches, in order.
pub open spec fn batch_messages(batches: Seq<(Option<Seq<char>>, Seq<RendererRuntimeInspectorMessage>)>) -> Seq<
    RendererRuntimeInspectorMessage,
>
    decreases batches.len(),
{
    if batches.len() == 0 {
        Seq::empty()
    } else {
        batch_messages(batches.drop_last()) + batches.last().1
    }
}

/// Groups consecutive notifications of one session into batches.
pub fn coalesce_worker_inspector_messages(messages: Vec<WorkerInspectorPendingMessage>) -> (batches:
    Vec<WorkerInspectorPendingMessageBatch>)
    ensures
        batches@.map_values(|b: WorkerInspectorPendingMessageBatch| batch_view(b)) == coalesce(
            messages@.map_values(|p: WorkerInspectorPendingMessage| pending_view(p)),
        ),
{
    let ghost input = messages@.map_values(|p: WorkerInspectorPendingMessage| pending_view(p));
    let mut reversed: Vec<WorkerInspectorPendingMessage> = Vec::new();
    let mut messages = messages;
    while messages.len() > 0
        invariant
            messages@.len() + reversed@.len() == input.len(),
            forall|i: int|
                0 <= i < messages@.len() ==> pending_view(#[trigger] messages@[i]) == input[i],
            forall|i: int|
                0 <= i < reversed@.len() ==> pending_view(#[trigger] reversed@[i]) == input[input.len()
                    - 1 - i],
        decreases messages@.len(),
    {
        let m = messages.pop().unwrap();
        reversed.push(m);
    }
    let mut batches: Vec<WorkerInspectorPendingMessageBatch> = Vec::new();
    let n = reversed.len();
    while reversed.len() > 0
        invariant
            reversed@.len() <= n,
            n == input.len(),
            forall|i: int|
                0 <= i < reversed@.len() ==> pending_view(#[trigger] reversed@[i]) == input[n - 1
                    - i],
            batches@.map_values(|b: WorkerInspectorPendingMessageBatch| batch_view(b)) == coalesce(
                input.take(n - reversed@.len()),
            ),
        decreases reversed@.len(),
    {
        let ghost done = n - reversed@.len();
        let ghost before = batches@.map_values(|b: WorkerInspectorPendingMessageBatch| batch_view(b));
        let pending = reversed.pop().unwrap();
        proof {
            assert(pending_view(pending) == input[done]);
            assert(input.take(done + 1).drop_last() =~= input.take(done));
            assert(input.take(done + 1).last() == input[done]);
        }
        let WorkerInspectorPendingMessage { session_key, message } = pending;
        let inspector_session_id = worker_inspector_session_id_from_key(session_key.as_str());
        let len = batches.len();
        if len > 0 && same_opt_text(&batches[len - 1].inspector_session_id, &inspector_session_id) {
            let mut batch = batches.pop().unwrap();
            batch.messages.push(message);
            batches.push(batch);
            proof {
                let after = batches@.map_values(|b: WorkerInspectorPendingMessageBatch| batch_view(b));
                assert(after =~= before.update(
                    before.len() - 1,
                    (opt_text(inspector_session_id), before.last().1.push(message)),
                ));
            }
        } else {
            let mut messages_of_batch: Vec<RendererRuntimeInspectorMessage> = Vec::new();
            messages_of_batch.push(message);
            batches.push(
                WorkerInspectorPendingMessageBatch {
                    inspector_session_id,
                    messages: messages_of_batch,
                },
            );
            proof {
                let after = batches@.map_values(|b: WorkerInspectorPendingMessageBatch| batch_view(b));
                assert(messages_of_batch@ =~= seq![message]);
                assert(after =~= before.push((opt_text(inspector_session_id), seq![message])));
            }
        }
    }
    proof {
        assert(input.take(n as int) =~= input);
    }
    batches
}

/// The messages one dispatch has captured so far.
struct WorkerInspectorDispatchScope {
    session_key: String,
    messages: Vec<RendererRuntimeInspectorMessage>,
}

/// A deferred-response callback registered for one session's call id.
struct WorkerInspectorResponseCallback {
    session_key: String,
    call_id: i32,
    callback: RendererRuntimeInspectorResponseSender,
}

/// The abstract state of an outbound router.
pub struct WorkerInspectorOutboundView {
    /// Pending notifications in arrival order.
    pub pending: Seq<(Seq<char>, RendererRuntimeInspectorMessage)>,
    /// Registered callbacks by session key and call id.
    pub callbacks: Map<(Seq<char>, i32), RendererRuntimeInspectorResponseSender>,
    /// Active dispatch scopes, innermost last: session key and captured messages.
    pub scopes: Seq<(Seq<char>, Seq<RendererRuntimeInspectorMessage>)>,
}

/// Whether a message for `session_key` is captured by the innermost dispatch.
pub open spec fn captured_by_dispatch(
    scopes: Seq<(Seq<char>, Seq<RendererRuntimeInspectorMessage>)>,
    session_key: Seq<char>,
) -> bool {
    scopes.len() > 0 && scopes.last().0 == session_key
}

/// The scopes after the innermost dispatch captured `message`.
pub open spec fn capture(
    scopes: Seq<(Seq<char>, Seq<RendererRuntimeInspectorMessage>)>,
    message: RendererRuntimeInspectorMessage,
) -> Seq<(Seq<char>, Seq<RendererRuntimeInspectorMessage>)> {
    scopes.update(scopes.len() - 1, (scopes.last().0, scopes.last().1.push(message)))
}

/// Routes a worker inspector's outbound protocol messages.
pub struct WorkerInspectorOutbound {
    pending_notifications: VecDeque<WorkerInspectorPendingMessage>,
    pending_response_callbacks: Vec<WorkerInspectorResponseCallback>,
    active_dispatch_scopes: Vec<WorkerInspectorDispatchScope>,
    callbacks: Ghost<Map<(Seq<char>, i32), RendererRuntimeInspectorResponseSender>>,
}

impl View for WorkerInspectorOutbound {
    type V = WorkerInspectorOutboundView;

    closed spec fn view(&self) -> WorkerInspectorOutboundView {
        WorkerInspectorOutboundView {
            pending: self.pending_notifications@.map_values(
                |p: WorkerInspectorPendingMessage| pending_view(p),
            ),
            callbacks: self.callbacks@,
            scopes: self.active_dispatch_scopes@.map_values(
                |s: WorkerInspectorDispatchScope| (s.session_key@, s.messages@),
            ),
        }
    }
}

impl Default for WorkerInspectorOutbound {
    fn default() -> (outbound: Self)
        ensures
            outbound.wf(),
            outbound@.pending.len() == 0,
            outbound@.callbacks == Map::<(Seq<char>, i32), RendererRuntimeInspectorResponseSender>::empty(),
            outbound@.scopes.len() == 0,
    {
        Self::new()
    }
}

impl WorkerInspectorOutbound {
    /// The registered callbacks agree with the abstract callback map and
    /// have distinct keys.
    pub closed spec fn wf(&self) -> bool {
        let cbs = self.pending_response_callbacks@;
        &&& forall|i: int|
            0 <= i < cbs.len() ==> #[trigger] self.callbacks@.contains_key(
                (cbs[i].session_key@, cbs[i].call_id),
            ) && self.callbacks@[(cbs[i].session_key@, cbs[i].call_id)] == cbs[i].callback
        &&& forall|k: (Seq<char>, i32)| #[trigger]
            self.callbacks@.contains_key(k) ==> exists|i: int|
                0 <= i < cbs.len() && (#[trigger] cbs[i].session_key@, cbs[i].call_id) == k
        &&& forall|i: int, j: int|
            0 <= i < cbs.len() && 0 <= j < cbs.len() && i != j ==> (
            #[trigger] cbs[i].session_key@,
            cbs[i].call_id,
            ) != (#[trigger] cbs[j].session_key@, cbs[j].call_id)
    }

    /// Well-formedness depends on the registered callbacks alone.
    proof fn lemma_wf_frame(a: &Self, b: &Self)
        requires
            a.wf(),
            a.pending_response_callbacks@ == b.pending_response_callbacks@,
            a.callbacks@ == b.callbacks@,
        ensures
            b.wf(),
    {
        let cbs = b.pending_response_callbacks@;
        assert forall|k: (Seq<char>, i32)| #[trigger]
            b.callbacks@.contains_key(k) implies exists|i: int|
                0 <= i < cbs.len() && (#[trigger] cbs[i].session_key@, cbs[i].call_id) == k by {
            let i = choose|i: int|
                0 <= i < cbs.len() && (#[trigger] a.pending_response_callbacks@[i].session_key@,
                a.pending_response_callbacks@[i].call_id) == k;
            assert(cbs[i] == a.pending_response_callbacks@[i]);
        }
        assert forall|i: int, j: int|
            0 <= i < cbs.len() && 0 <= j < cbs.len() && i != j implies (
            #[trigger] cbs[i].session_key@,
            cbs[i].call_id,
            ) != (#[trigger] cbs[j].session_key@, cbs[j].call_id) by {
            assert(cbs[i] == a.pending_response_callbacks@[i]);
            assert(cbs[j] == a.pending_response_callbacks@[j]);
        }
        assert forall|i: int|
            0 <= i < cbs.len() implies #[trigger] b.callbacks@.contains_key(
                (cbs[i].session_key@, cbs[i].call_id),
            ) && b.callbacks@[(cbs[i].session_key@, cbs[i].call_id)] == cbs[i].callback by {
            assert(cbs[i] == a.pending_response_callbacks@[i]);
        }
    }

    /// An outbound router with nothing pending and no dispatch active.
    pub fn new() -> (outbound: Self)
        ensures
            outbound.wf(),
            outbound@.pending.len() == 0,
            outbound@.callbacks == Map::<(Seq<char>, i32), RendererRuntimeInspectorResponseSender>::empty(),
            outbound@.scopes.len() == 0,
    {
        WorkerInspectorOutbound {
            pending_notifications: VecDeque::new(),
            pending_response_callbacks: Vec::new(),
            active_dispatch_scopes: Vec::new(),
            callbacks: Ghost(Map::empty()),
        }
    }

    /// Whether the innermost dispatch belongs to `session_key`.
    fn innermost_dispatch_is(&self, session_key: &str) -> (is: bool)
        ensures
            is == captured_by_dispatch(self@.scopes, session_key@),
    {
        let n = self.active_dispatch_scopes.len();
        n > 0 && same_text(&self.active_dispatch_scopes[n - 1].session_key, session_key)
    }

    /// Appends a message to the innermost dispatch.
    fn capture_in_innermost(&mut self, message: RendererRuntimeInspectorMessage)
        requires
            old(self).wf(),
            old(self)@.scopes.len() > 0,
        ensures
            final(self).wf(),
            final(self)@ == (WorkerInspectorOutboundView {
                scopes: capture(old(self)@.scopes, message),
                ..old(self)@
            }),
            final(self).pending_response_callbacks@ == old(self).pending_response_callbacks@,
    {
        let ghost before = self.active_dispatch_scopes@;
        let mut scope = self.active_dispatch_scopes.pop().unwrap();
        scope.messages.push(message);
        self.active_dispatch_scopes.push(scope);
        proof {
            Self::lemma_wf_frame(old(self), self);
            assert(self.pending_response_callbacks@ == old(self).pending_response_callbacks@);
            assert(self.callbacks@ == old(self).callbacks@);
            assert(self.active_dispatch_scopes@.map_values(
                |s: WorkerInspectorDispatchScope| (s.session_key@, s.messages@),
            ) =~= capture(
                before.map_values(|s: WorkerInspectorDispatchScope| (s.session_key@, s.messages@)),
                message,
            ));
        }
    }

    /// Routes a notification: the innermost dispatch of the same session
    /// captures it, otherwise it waits as a pending notification.
    pub fn push_value(&mut self, session_key: &str, value: serde_json::Value)
        requires
            old(self).wf(),
        ensures
            final(self).wf(),
            ({
                let message = RendererRuntimeInspectorMessage::of_value(value);
                if captured_by_dispatch(old(self)@.scopes, session_key@) {
                    final(self)@ == (WorkerInspectorOutboundView {
                        scopes: capture(old(self)@.scopes, message),
                        ..old(self)@
                    })
                } else {
                    final(self)@ == (WorkerInspectorOutboundView {
                        pending: old(self)@.pending.push((session_key@, message)),
                        ..old(self)@
                    })
                }
            }),
    {
        let message = RendererRuntimeInspectorMessage::from_v8_inspector_message(value);
        if self.innermost_dispatch_is(session_key) {
            self.capture_in_innermost(message);
        } else {
            let ghost before = self.pending_notifications@;
            self.pending_notifications.push_back(
                WorkerInspectorPendingMessage { session_key: session_key.to_owned(), message },
            );
            proof {
                Self::lemma_wf_frame(old(self), self);
                assert(self.pending_notifications@.map_values(
                    |p: WorkerInspectorPendingMessage| pending_view(p),
                ) =~= before.map_values(|p: WorkerInspectorPendingMessage| pending_view(p)).push(
                    (session_key@, message),
                ));
            }
        }
    }

    /// The position of the callback registered for `(session_key, call_id)`.
    fn find_callback(&self, session_key: &str, call_id: i32) -> (found: Option<usize>)
        requires
            self.wf(),
        ensures
            match found {
                Some(i) => i < self.pending_response_callbacks@.len()
                    && self.pending_response_callbacks@[i as int].session_key@ == session_key@
                    && self.pending_response_callbacks@[i as int].call_id == call_id,
                None => !self@.callbacks.contains_key((session_key@, call_id)),
            },
    {
        let n = self.pending_response_callbacks.len();
        let mut i: usize = 0;
        while i < n
            invariant
                self.wf(),
                n == self.pending_response_callbacks@.len(),
                i <= n,
                forall|j: int|
                    0 <= j < i ==> (
                    #[trigger] self.pending_response_callbacks@[j].session_key@,
                    self.pending_response_callbacks@[j].call_id,
                    ) != (session_key@, call_id),
            decreases n - i,
        {
            let entry = &self.pending_response_callbacks[i];
            if entry.call_id == call_id && same_text(&entry.session_key, session_key) {
                return Some(i);
            }
            i += 1;
        }
        proof {
            if self.callbacks@.contains_key((session_key@, call_id)) {
                let j = choose|j: int|
                    0 <= j < n && (
                    #[trigger] self.pending_response_callbacks@[j].session_key@,
                    self.pending_response_callbacks@[j].call_id,
                    ) == (session_key@, call_id);
                assert(j < i);
            }
        }
        None
    }

    /// Unregisters the callback registered for `session_key` and `call_id`
    /// and hands it out, if there is one.
    pub fn take_response_callback(&mut self, session_key: &str, call_id: i32) -> (callback: Option<
        RendererRuntimeInspectorResponseSender,
    >)
        requires
            old(self).wf(),
        ensures
            final(self).wf(),
            ({
                let key = (session_key@, call_id);
                if old(self)@.callbacks.contains_key(key) {
                    &&& callback == Some(old(self)@.callbacks[key])
                    &&& final(self)@ == (WorkerInspectorOutboundView {
                        callbacks: old(self)@.callbacks.remove(key),
                        ..old(self)@
                    })
                } else {
                    callback is None && final(self)@ == old(self)@
                }
            }),
    {
        if let Some(i) = self.find_callback(session_key, call_id) {
            let ghost before = self.pending_response_callbacks@;
            let ghost key = (session_key@, call_id);
            let entry = self.pending_response_callbacks.swap_remove(i);
            self.callbacks = Ghost(self.callbacks@.remove(key));
            proof {
                let cbs = self.pending_response_callbacks@;
                let last = before.len() - 1;
                assert forall|j: int| 0 <= j < cbs.len() implies #[trigger] self.callbacks@.contains_key(
                    (cbs[j].session_key@, cbs[j].call_id),
                ) && self.callbacks@[(cbs[j].session_key@, cbs[j].call_id)] == cbs[j].callback by {
                    let src = if j == i { last } else { j };
                    assert(cbs[j] == before[src]);
                    assert(src != i);
                    let kj = (cbs[j].session_key@, cbs[j].call_id);
                    assert(kj == (before[src].session_key@, before[src].call_id));
                    assert(kj != key);
                    assert(old(self).callbacks@.contains_key(kj));
                    assert(self.callbacks@.contains_key(kj));
                    assert(self.callbacks@[kj] == old(self).callbacks@[kj]);
                }
                assert forall|k: (Seq<char>, i32)| #[trigger]
                    self.callbacks@.contains_key(k) implies exists|j: int|
                        0 <= j < cbs.len() && (#[trigger] cbs[j].session_key@, cbs[j].call_id) == k by {
                    let src = choose|s: int|
                        0 <= s < before.len() && (#[trigger] before[s].session_key@, before[s].call_id)
                            == k;
                    assert(src != i);
                    if src == last {
                        assert(cbs[i as int] == before[src]);
                    } else {
                        assert(cbs[src] == before[src]);
                    }
                }
                assert forall|a: int, b: int|
                    0 <= a < cbs.len() && 0 <= b < cbs.len() && a != b implies (
                    #[trigger] cbs[a].session_key@,
                    cbs[a].call_id,
                    ) != (#[trigger] cbs[b].session_key@, cbs[b].call_id) by {
                    let sa = if a == i { last } else { a };
                    let sb = if b == i { last } else { b };
                    assert(cbs[a] == before[sa]);
                    assert(cbs[b] == before[sb]);
                }
            }
            return Some(entry.callback);
        }
        None
    }

    /// Routes a command response: the callback registered for the session
    /// and call id (handed out by `take_response_callback`) receives it; otherwise the innermost
    /// dispatch of the same session captures it; otherwise it is stale and
    /// dropped.
    pub fn push_response_value(&mut self, session_key: &str, call_id: i32, value: serde_json::Value)
        requires
            old(self).wf(),
        ensures
            final(self).wf(),
            ({
                let key = (session_key@, call_id);
                let message = RendererRuntimeInspectorMessage::of_value(value);
                if old(self)@.callbacks.contains_key(key) {
                    final(self)@ == (WorkerInspectorOutboundView {
                        callbacks: old(self)@.callbacks.remove(key),
                        ..old(self)@
                    })
                } else if captured_by_dispatch(old(self)@.scopes, session_key@) {
                    final(self)@ == (WorkerInspectorOutboundView {
                        scopes: capture(old(self)@.scopes, message),
                        ..old(self)@
                    })
                } else {
                    final(self)@ == old(self)@
                }
            }),
    {
        if let Some(callback) = self.take_response_callback(session_key, call_id) {
            let _delivered = callback.send(value);
            return;
        }
        if self.innermost_dispatch_is(session_key) {
            let message = RendererRuntimeInspectorMessage::from_v8_inspector_message(value);
            self.capture_in_innermost(message);
        }
    }

    /// Registers the deferred-response callback of a command; a second
    /// registration for the same session and call id keeps the first.
    pub fn register_response_callback(
        &mut self,
        session_key: &str,
        callback: RendererRuntimeInspectorResponseSender,
    )
        requires
            old(self).wf(),
        ensures
            final(self).wf(),
            ({
                let key = (session_key@, callback.spec_call_id());
                if old(self)@.callbacks.contains_key(key) {
                    final(self)@ == old(self)@
                } else {
                    final(self)@ == (WorkerInspectorOutboundView {
                        callbacks: old(self)@.callbacks.insert(key, callback),
                        ..old(self)@
                    })
                }
            }),
    {
        let call_id = callback.call_id();
        if self.find_callback(session_key, call_id).is_some() {
            return;
        }
        let ghost before = self.pending_response_callbacks@;
        let ghost key = (session_key@, call_id);
        let ghost cb = callback;
        self.pending_response_callbacks.push(
            WorkerInspectorResponseCallback { session_key: session_key.to_owned(), call_id, callback },
        );
        self.callbacks = Ghost(self.callbacks@.insert(key, cb));
        proof {
            let cbs = self.pending_response_callbacks@;
            let n = before.len();
            assert forall|k: (Seq<char>, i32)| #[trigger]
                self.callbacks@.contains_key(k) implies exists|j: int|
                    0 <= j < cbs.len() && (#[trigger] cbs[j].session_key@, cbs[j].call_id) == k by {
                if k == key {
                    assert((cbs[n as int].session_key@, cbs[n as int].call_id) == k);
                } else {
                    let src = choose|s: int|
                        0 <= s < before.len() && (#[trigger] before[s].session_key@, before[s].call_id)
                            == k;
                    assert(cbs[src] == before[src]);
                }
            }
            assert forall|j: int| 0 <= j < cbs.len() implies #[trigger] self.callbacks@.contains_key(
                (cbs[j].session_key@, cbs[j].call_id),
            ) && self.callbacks@[(cbs[j].session_key@, cbs[j].call_id)] == cbs[j].callback by {
                if j < n {
                    assert(cbs[j] == before[j]);
                }
            }
            assert forall|a: int, b: int|
                0 <= a < cbs.len() && 0 <= b < cbs.len() && a != b implies (
                #[trigger] cbs[a].session_key@,
                cbs[a].call_id,
                ) != (#[trigger] cbs[b].session_key@, cbs[b].call_id) by {
                if a == n {
                    assert(cbs[b] == before[b]);
                } else if b == n {
                    assert(cbs[a] == before[a]);
                } else {
                    assert(cbs[a] == before[a]);
                    assert(cbs[b] == before[b]);
                }
            }
        }
    }

    /// Takes every pending notification, grouped into batches of consecutive
    /// notifications of one session.
    pub fn take_all(&mut self) -> (batches: Vec<WorkerInspectorPendingMessageBatch>)
        requires
            old(self).wf(),
        ensures
            final(self).wf(),
            final(self)@ == (WorkerInspectorOutboundView {
                pending: Seq::empty(),
                ..old(self)@
            }),
            batches@.map_values(|b: WorkerInspectorPendingMessageBatch| batch_view(b)) == coalesce(
                old(self)@.pending,
            ),
    {
        let ghost pending = self.pending_notifications@;
        let mut drained: Vec<WorkerInspectorPendingMessage> = Vec::new();
        while self.pending_notifications.len() > 0
            invariant
                self.wf(),
                self.pending_response_callbacks@ == old(self).pending_response_callbacks@,
                self.active_dispatch_scopes@ == old(self).active_dispatch_scopes@,
                self.callbacks@ == old(self).callbacks@,
                drained@ + self.pending_notifications@ == pending,
            decreases self.pending_notifications@.len(),
        {
            let ghost rest = self.pending_notifications@;
            let next = self.pending_notifications.pop_front().unwrap();
            drained.push(next);
            proof {
                Self::lemma_wf_frame(old(self), self);
                assert(self.pending_response_callbacks@ == old(self).pending_response_callbacks@);
                assert(self.callbacks@ == old(self).callbacks@);
                assert(drained@ + self.pending_notifications@ =~= pending);
            }
        }
        proof {
            assert(drained@ =~= pending);
            assert(self.pending_notifications@.map_values(
                |p: WorkerInspectorPendingMessage| pending_view(p),
            ) =~= Seq::empty());
        }
        coalesce_worker_inspector_messages(drained)
    }

    /// Opens a dispatch for `session_key`; messages of that session are
    /// captured by it until it is finished or abandoned.
    pub fn push_dispatch_scope(&mut self, session_key: &str)
        requires
            old(self).wf(),
        ensures
            final(self).wf(),
            final(self)@ == (WorkerInspectorOutboundView {
                scopes: old(self)@.scopes.push((session_key@, Seq::empty())),
                ..old(self)@
            }),
    {
        let ghost before = self.active_dispatch_scopes@;
        self.active_dispatch_scopes.push(
            WorkerInspectorDispatchScope { session_key: session_key.to_owned(), messages: Vec::new() },
        );
        proof {
            Self::lemma_wf_frame(old(self), self);
            assert(self.active_dispatch_scopes@.map_values(
                |s: WorkerInspectorDispatchScope| (s.session_key@, s.messages@),
            ) =~= before.map_values(|s: WorkerInspectorDispatchScope| (s.session_key@, s.messages@)).push(
                (session_key@, Seq::empty()),
            ));
        }
    }

    /// Closes the innermost dispatch and returns what it captured.
    pub fn finish_dispatch_scope(&mut self) -> (messages: Vec<RendererRuntimeInspectorMessage>)
        requires
            old(self).wf(),
            old(self)@.scopes.len() > 0,
        ensures
            final(self).wf(),
            messages@ == old(self)@.scopes.last().1,
            final(self)@ == (WorkerInspectorOutboundView {
                scopes: old(self)@.scopes.drop_last(),
                ..old(self)@
            }),
    {
        let ghost before = self.active_dispatch_scopes@;
        let scope = self.active_dispatch_scopes.pop().unwrap();
        proof {
            Self::lemma_wf_frame(old(self), self);
            assert(self.active_dispatch_scopes@.map_values(
                |s: WorkerInspectorDispatchScope| (s.session_key@, s.messages@),
            ) =~= before.map_values(|s: WorkerInspectorDispatchScope| (s.session_key@, s.messages@)).drop_last());
        }
        scope.messages
    }

    /// Closes the innermost dispatch without delivering what it captured, as
    /// when a dispatch is abandoned before completion.
    pub fn abandon_dispatch_scope(&mut self)
        requires
            old(self).wf(),
            old(self)@.scopes.len() > 0,
        ensures
            final(self).wf(),
            final(self)@ == (WorkerInspectorOutboundView {
                scopes: old(self)@.scopes.drop_last(),
                ..old(self)@
            }),
    {
        let _ = self.finish_dispatch_scope();
    }
}

/// A non-empty wire session id names its own session, and the default
/// session has no wire id.
pub proof fn law_session_id_round_trip(inspector_session_id: Option<Seq<char>>)
    ensures
        session_id_of(session_key_of(inspector_session_id)) == match inspector_session_id {
            Some(id) => if id.len() > 0 {
                Some(id)
            } else {
                None
            },
            None => None,
        },
{
    match inspector_session_id {
        Some(id) => {
            if id.len() == 0 {
                assert(id =~= default_session_key());
            }
        },
        None => {},
    }
}

/// Batching keeps every pending message, in order: the batches' messages,
/// concatenated, are the pending messages.
pub proof fn law_coalesce_keeps_every_message(pending: Seq<(Seq<char>, RendererRuntimeInspectorMessage)>)
    ensures
        batch_messages(coalesce(pending)) == pending.map_values(
            |p: (Seq<char>, RendererRuntimeInspectorMessage)| p.1,
        ),
    decreases pending.len(),
{
    if pending.len() > 0 {
        let rest = pending.drop_last();
        law_coalesce_keeps_every_message(rest);
        let batches = coalesce(rest);
        let (key, message) = pending.last();
        let id = session_id_of(key);
        assert(pending.map_values(|p: (Seq<char>, RendererRuntimeInspectorMessage)| p.1)
            =~= rest.map_values(|p: (Seq<char>, RendererRuntimeInspectorMessage)| p.1).push(message));
        if batches.len() > 0 && batches.last().0 == id {
            let updated = batches.update(batches.len() - 1, (id, batches.last().1.push(message)));
            assert(updated.drop_last() =~= batches.drop_last());
            assert(batch_messages(updated) =~= batch_messages(batches).push(message));
        } else {
            let pushed = batches.push((id, seq![message]));
            assert(pushed.drop_last() =~= batches);
            assert(batch_messages(pushed) =~= batch_messages(batches).push(message));
        }
    }
}

/// Batching never yields an empty batch, never leaves two adjacent batches of
/// one session, yields at most one batch per message, and tags the last batch
/// with the last message's session.
pub proof fn law_coalesce_separates_sessions(pending: Seq<(Seq<char>, RendererRuntimeInspectorMessage)>)
    ensures
        forall|i: int| 0 <= i < coalesce(pending).len() ==> #[trigger] coalesce(pending)[i].1.len() > 0,
        forall|i: int|
            0 <= i < coalesce(pending).len() - 1 ==> #[trigger] coalesce(pending)[i].0 != coalesce(
                pending,
            )[i + 1].0,
        coalesce(pending).len() > 0 ==> coalesce(pending).last().0 == session_id_of(pending.last().0),
        coalesce(pending).len() <= pending.len(),
        pending.len() > 0 ==> coalesce(pending).len() > 0,
    decreases pending.len(),
{
    if pending.len() > 0 {
        let rest = pending.drop_last();
        law_coalesce_separates_sessions(rest);
    }
}

} // verus!
