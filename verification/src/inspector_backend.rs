//! Bookkeeping of the page and worker inspector backends.
//!
//! - Pause sessions: while script is paused, protocol commands are routed to
//!   the session registered for their context group and session key; a
//!   registration only removes the entry it made.
//! - Unique ids: the inspector asks for process-unique ids; while a context
//!   is being announced, the ids handed out are captured to name it.
//! - Default contexts: each context group has at most one default context,
//!   owned by one registration.
//! - Worker execution context: the worker's default execution context id
//!   follows the runtime context events the inspector emits.

use vstd::prelude::*;

verus! {

/// The key of one DevTools session: its wire session id, or none for the
/// default session.
#[derive(Clone, Debug, PartialEq, Eq, Hash)]
pub struct DevToolsSessionKey {
    pub session_id: Option<String>,
}

/// The session key of a wire session id; an empty id is the default session.
pub open spec fn session_key_for_wire(session_id: Option<Seq<char>>) -> Option<Seq<char>> {
    match session_id {
        Some(id) => if id.len() > 0 { Some(id) } else { None },
        None => None,
    }
}

impl DevToolsSessionKey {
    /// The key's session id, as text.
    pub open spec fn spec_session_id(&self) -> Option<Seq<char>> {
        match self.session_id {
            Some(s) => Some(s@),
            None => None,
        }
    }

    /// The key of a wire session id (an empty id is the default session).
    pub fn from_wire_session_id(session_id: Option<&str>) -> (key: Self)
        ensures
            key.spec_session_id() == session_key_for_wire(
                match session_id {
                    Some(s) => Some(s@),
                    None => None,
                },
            ),
    {
        match session_id {
            Some(s) => {
                if s.is_empty() {
                    DevToolsSessionKey { session_id: None }
                } else {
                    DevToolsSessionKey { session_id: Some(s.to_owned()) }
                }
            },
            None => DevToolsSessionKey { session_id: None },
        }
    }

    /// Whether two keys name the same session.
    pub fn same_session(&self, other: &Self) -> (same: bool)
        ensures
            same == (self.spec_session_id() == other.spec_session_id()),
    {
        match (&self.session_id, &other.session_id) {
            (Some(a), Some(b)) => *a == *b,
            (None, None) => true,
            _ => false,
        }
    }
}

/// A session registered for dispatch while paused; `S` holds what dispatch
/// needs of it (the V8 session handle, its outbound queue, its agent).
pub struct RendererInspectorPauseSession<S> {
    pub context_group_id: i32,
    pub session_key: DevToolsSessionKey,
    /// The identity of the V8 session this entry was registered for.
    pub session_identity: u64,
    pub session: S,
}

/// The receipt of one pause-session registration.
#[derive(Clone, Debug, PartialEq, Eq)]
pub struct RendererInspectorPauseSessionRegistration {
    pub context_group_id: i32,
    pub session_key: DevToolsSessionKey,
    pub session_identity: u64,
}

/// Whether an entry is registered under `group` and `key`.
pub open spec fn entry_is_for<S>(entry: RendererInspectorPauseSession<S>, group: i32, key: Option<Seq<char>>) -> bool {
    entry.context_group_id == group && entry.session_key.spec_session_id() == key
}

/// Whether no two entries share a context group and session key.
pub open spec fn unique_pause_keys<S>(entries: Seq<RendererInspectorPauseSession<S>>) -> bool {
    forall|i: int, j: int|
        0 <= i < entries.len() && 0 <= j < entries.len() && i != j ==> !entry_is_for(
            #[trigger] entries[i],
            (#[trigger] entries[j]).context_group_id,
            entries[j].session_key.spec_session_id(),
        )
}

/// Why a command cannot be dispatched while paused.
#[derive(Clone, Copy, Debug, PartialEq, Eq, Structural)]
pub enum PauseDispatchFailure {
    /// No session is registered for the command's group and session.
    SessionUnavailable,
    /// The session is registered, but its V8 session is gone.
    SessionDetached,
}

impl PauseDispatchFailure {
    /// The protocol error message of the failure.
    pub open spec fn spec_message(self) -> Seq<char> {
        match self {
            PauseDispatchFailure::SessionUnavailable => "Inspector session is not available"@,
            PauseDispatchFailure::SessionDetached => "Inspector session has been detached"@,
        }
    }

    /// The protocol error message of the failure.
    pub fn message(self) -> (message: &'static str)
        ensures
            message@ == self.spec_message(),
    {
        match self {
            PauseDispatchFailure::SessionUnavailable => "Inspector session is not available",
            PauseDispatchFailure::SessionDetached => "Inspector session has been detached",
        }
    }
}

/// The protocol error answering a command: its call id, the server error
/// code and a message.
#[derive(Clone, Debug, PartialEq, Eq)]
pub struct InspectorErrorResponse {
    pub id: i32,
    pub code: i64,
    pub message: String,
}

/// The error response to the command `call_id` that could not be
/// dispatched while paused.
pub fn pause_dispatch_error(call_id: i32, failure: PauseDispatchFailure) -> (response: InspectorErrorResponse)
    ensures
        response.id == call_id,
        response.code == -32000,
        response.message@ == failure.spec_message(),
{
    InspectorErrorResponse { id: call_id, code: -32000, message: failure.message().to_owned() }
}

/// The sessions of one isolate that accept commands while paused.
pub struct RendererInspectorPauseSessions<S> {
    sessions: Vec<RendererInspectorPauseSession<S>>,
}

impl<S> RendererInspectorPauseSessions<S> {
    /// The registered sessions.
    pub closed spec fn entries(&self) -> Seq<RendererInspectorPauseSession<S>> {
        self.sessions@
    }

    /// No two entries share a context group and session key.
    pub open spec fn wf(&self) -> bool {
        unique_pause_keys(self.entries())
    }

    /// No session registered.
    pub fn new() -> (sessions: Self)
        ensures
            sessions.wf(),
            sessions.entries() == Seq::<RendererInspectorPauseSession<S>>::empty(),
    {
        RendererInspectorPauseSessions { sessions: Vec::new() }
    }

    /// The position of the entry for `group` and `key`, if any.
    fn position_of(&self, group: i32, key: &DevToolsSessionKey) -> (position: Option<usize>)
        ensures
            match position {
                Some(i) => i < self.entries().len() && entry_is_for(self.entries()[i as int], group, key.spec_session_id()),
                None => forall|i: int|
                    0 <= i < self.entries().len() ==> !entry_is_for(#[trigger] self.entries()[i], group, key.spec_session_id()),
            },
    {
        let mut i: usize = 0;
        while i < self.sessions.len()
            invariant
                i <= self.sessions@.len(),
                forall|j: int| 0 <= j < i ==> !entry_is_for(#[trigger] self.sessions@[j], group, key.spec_session_id()),
            decreases self.sessions@.len() - i,
        {
            let entry = &self.sessions[i];
            if entry.context_group_id == group && entry.session_key.same_session(key) {
                return Some(i);
            }
            i = i + 1;
        }
        None
    }

    /// Registers `session` (with V8 session identity `session_identity`)
    /// for `group` and `key`, replacing an earlier entry for them; returns
    /// the receipt that unregisters it.
    pub fn register_session(
        &mut self,
        context_group_id: i32,
        session_key: DevToolsSessionKey,
        session_identity: u64,
        session: S,
    ) -> (registration: RendererInspectorPauseSessionRegistration)
        requires
            old(self).wf(),
        ensures
            final(self).wf(),
            registration.context_group_id == context_group_id,
            registration.session_key.spec_session_id() == session_key.spec_session_id(),
            registration.session_identity == session_identity,
            exists|i: int|
                0 <= i < final(self).entries().len() && #[trigger] final(self).entries()[i].session_identity
                    == session_identity && entry_is_for(final(self).entries()[i], context_group_id, session_key.spec_session_id()),
            forall|i: int|
                0 <= i < old(self).entries().len() && !entry_is_for(
                    #[trigger] old(self).entries()[i],
                    context_group_id,
                    session_key.spec_session_id(),
                ) ==> final(self).entries().contains(old(self).entries()[i]),
            forall|i: int|
                0 <= i < final(self).entries().len() ==> #[trigger] old(self).entries().contains(final(self).entries()[i])
                    || entry_is_for(final(self).entries()[i], context_group_id, session_key.spec_session_id()),
    {
        let ghost before = self.sessions@;
        let registration = RendererInspectorPauseSessionRegistration {
            context_group_id,
            session_key: DevToolsSessionKey { session_id: match &session_key.session_id {
                Some(s) => Some(s.clone()),
                None => None,
            } },
            session_identity,
        };
        let entry = RendererInspectorPauseSession { context_group_id, session_key, session_identity, session };
        match self.position_of(context_group_id, &registration.session_key) {
            Some(i) => {
                self.sessions.set(i, entry);
                proof {
                    assert forall|a: int| 0 <= a < before.len() && !entry_is_for(
                        #[trigger] before[a],
                        context_group_id,
                        registration.session_key.spec_session_id(),
                    ) implies self.sessions@.contains(before[a]) by {
                        assert(a != i);
                        assert(self.sessions@[a] == before[a]);
                    }
                    assert forall|a: int| 0 <= a < self.sessions@.len() implies #[trigger] before.contains(self.sessions@[a])
                        || entry_is_for(self.sessions@[a], context_group_id, registration.session_key.spec_session_id()) by {
                        if a != i {
                            assert(before[a] == self.sessions@[a]);
                        }
                    }
                    assert forall|a: int, b: int|
                        0 <= a < self.sessions@.len() && 0 <= b < self.sessions@.len() && a != b implies !entry_is_for(
                        #[trigger] self.sessions@[a],
                        (#[trigger] self.sessions@[b]).context_group_id,
                        self.sessions@[b].session_key.spec_session_id(),
                    ) by {
                        if a == i {
                            assert(!entry_is_for(before[b], context_group_id, registration.session_key.spec_session_id()));
                        } else if b == i {
                            assert(!entry_is_for(before[a], context_group_id, registration.session_key.spec_session_id()));
                        } else {
                            assert(!entry_is_for(before[a], before[b].context_group_id, before[b].session_key.spec_session_id()));
                        }
                    }
                    assert(self.sessions@[i as int].session_identity == session_identity);
                }
            },
            None => {
                self.sessions.push(entry);
                proof {
                    let n = before.len() as int;
                    assert forall|a: int| 0 <= a < before.len() && !entry_is_for(
                        #[trigger] before[a],
                        context_group_id,
                        registration.session_key.spec_session_id(),
                    ) implies self.sessions@.contains(before[a]) by {
                        assert(self.sessions@[a] == before[a]);
                    }
                    assert forall|a: int| 0 <= a < self.sessions@.len() implies #[trigger] before.contains(self.sessions@[a])
                        || entry_is_for(self.sessions@[a], context_group_id, registration.session_key.spec_session_id()) by {
                        if a != n {
                            assert(before[a] == self.sessions@[a]);
                        }
                    }
                    assert forall|a: int, b: int|
                        0 <= a < self.sessions@.len() && 0 <= b < self.sessions@.len() && a != b implies !entry_is_for(
                        #[trigger] self.sessions@[a],
                        (#[trigger] self.sessions@[b]).context_group_id,
                        self.sessions@[b].session_key.spec_session_id(),
                    ) by {
                        if a == n {
                            assert(!entry_is_for(before[b], context_group_id, registration.session_key.spec_session_id()));
                        } else if b == n {
                            assert(!entry_is_for(before[a], context_group_id, registration.session_key.spec_session_id()));
                        } else {
                            assert(!entry_is_for(before[a], before[b].context_group_id, before[b].session_key.spec_session_id()));
                        }
                    }
                    assert(self.sessions@[n].session_identity == session_identity);
                }
            },
        }
        registration
    }

    /// Drops the registration's entry, if it is still the one it made (the
    /// same group, key and V8 session); returns whether it was removed.
    pub fn unregister_session(&mut self, registration: &RendererInspectorPauseSessionRegistration) -> (removed: bool)
        requires
            old(self).wf(),
        ensures
            final(self).wf(),
            removed ==> exists|i: int|
                0 <= i < old(self).entries().len() && entry_is_for(
                    #[trigger] old(self).entries()[i],
                    registration.context_group_id,
                    registration.session_key.spec_session_id(),
                ) && old(self).entries()[i].session_identity == registration.session_identity
                    && final(self).entries() == old(self).entries().remove(i),
            !removed ==> final(self).entries() == old(self).entries() && forall|i: int|
                0 <= i < old(self).entries().len() && entry_is_for(
                    #[trigger] old(self).entries()[i],
                    registration.context_group_id,
                    registration.session_key.spec_session_id(),
                ) ==> old(self).entries()[i].session_identity != registration.session_identity,
    {
        let ghost before = self.sessions@;
        match self.position_of(registration.context_group_id, &registration.session_key) {
            Some(i) => {
                proof {
                    assert forall|j: int|
                        0 <= j < before.len() && entry_is_for(
                            #[trigger] before[j],
                            registration.context_group_id,
                            registration.session_key.spec_session_id(),
                        ) implies j == i by {
                        if j != i {
                            assert(!entry_is_for(before[j], before[i as int].context_group_id, before[i as int].session_key.spec_session_id()));
                        }
                    }
                }
                if self.sessions[i].session_identity == registration.session_identity {
                    self.sessions.remove(i);
                    proof {
                        assert forall|a: int, b: int|
                            0 <= a < self.sessions@.len() && 0 <= b < self.sessions@.len() && a != b implies !entry_is_for(
                            #[trigger] self.sessions@[a],
                            (#[trigger] self.sessions@[b]).context_group_id,
                            self.sessions@[b].session_key.spec_session_id(),
                        ) by {
                            let a0 = if a < i { a } else { a + 1 };
                            let b0 = if b < i { b } else { b + 1 };
                            assert(!entry_is_for(before[a0], before[b0].context_group_id, before[b0].session_key.spec_session_id()));
                        }
                    }
                    true
                } else {
                    false
                }
            },
            None => false,
        }
    }

    /// The session a paused command for `group` and wire session id is
    /// dispatched to, or why there is none.
    pub fn session_for_command(&self, context_group_id: i32, inspector_session_id: Option<&str>) -> (session: Result<&RendererInspectorPauseSession<S>, PauseDispatchFailure>)
        ensures
            ({
                let key = session_key_for_wire(
                    match inspector_session_id {
                        Some(s) => Some(s@),
                        None => None,
                    },
                );
                &&& session matches Ok(entry) ==> self.entries().contains(*entry) && entry_is_for(*entry, context_group_id, key)
                &&& session is Err ==> session == Err::<&RendererInspectorPauseSession<S>, PauseDispatchFailure>(
                    PauseDispatchFailure::SessionUnavailable,
                ) && forall|i: int| 0 <= i < self.entries().len() ==> !entry_is_for(#[trigger] self.entries()[i], context_group_id, key)
            }),
    {
        let key = DevToolsSessionKey::from_wire_session_id(inspector_session_id);
        match self.position_of(context_group_id, &key) {
            Some(i) => Ok(&self.sessions[i]),
            None => Err(PauseDispatchFailure::SessionUnavailable),
        }
    }

    /// How many sessions are registered.
    pub fn len(&self) -> (count: usize)
        ensures
            count == self.entries().len(),
    {
        self.sessions.len()
    }
}

/// Decimal representation of a natural number, without leading zeros.
pub open spec fn natural_decimal(n: nat) -> Seq<char>
    decreases n,
{
    if n < 10 {
        seq![((48 + n) as u32) as char]
    } else {
        natural_decimal(n / 10) + seq![((48 + n % 10) as u32) as char]
    }
}

/// Signed decimal representation: a `-` before the digits of a negative
/// number.
pub open spec fn signed_decimal(n: int) -> Seq<char> {
    if n < 0 {
        seq!['-'] + natural_decimal((-n) as nat)
    } else {
        natural_decimal(n as nat)
    }
}

/// `n` in decimal; calls `ToString::to_string` on an `i64`, whose `Display`
/// writes a `-` for negative values followed by the decimal digits.
#[verifier::external_body]
fn i64_decimal_text(n: i64) -> (text: String)
    ensures
        text@ == signed_decimal(n as int),
{
    n.to_string()
}

/// The unique ids an inspector client hands out, and the ids captured while
/// a context is announced.
pub struct RendererInspectorClientUniqueIdState {
    next_unique_id: i64,
    capture_depth: usize,
    captured_ids: Vec<i64>,
}

impl RendererInspectorClientUniqueIdState {
    /// The id handed out next.
    pub closed spec fn next_id(&self) -> i64 {
        self.next_unique_id
    }

    /// How many captures are open.
    pub closed spec fn depth(&self) -> usize {
        self.capture_depth
    }

    /// The ids captured by the open capture.
    pub closed spec fn captured(&self) -> Seq<i64> {
        self.captured_ids@
    }

    /// Ids are positive: the next id and every captured id.
    pub open spec fn wf(&self) -> bool {
        self.next_id() >= 1 && forall|i: int| 0 <= i < self.captured().len() ==> #[trigger] self.captured()[i] >= 1
    }

    /// A state whose first id is one and that captures nothing.
    pub fn new() -> (state: Self)
        ensures
            state.wf(),
            state.next_id() == 1,
            state.depth() == 0,
            state.captured() == Seq::<i64>::empty(),
    {
        RendererInspectorClientUniqueIdState { next_unique_id: 1, capture_depth: 0, captured_ids: Vec::new() }
    }

    /// Hands out the next unique id; while a capture is open, the id is
    /// captured too.  Ids are never reused: running out of them is fatal, so
    /// the largest `i64` is never handed out.
    pub fn generate_unique_id(&mut self) -> (id: i64)
        requires
            old(self).wf(),
            old(self).next_id() < i64::MAX,
        ensures
            final(self).wf(),
            id == old(self).next_id(),
            id >= 1,
            final(self).next_id() == id + 1,
            final(self).depth() == old(self).depth(),
            final(self).captured() == (if old(self).depth() > 0 {
                old(self).captured().push(id)
            } else {
                old(self).captured()
            }),
    {
        let id = self.next_unique_id;
        assert(id >= 1);
        self.next_unique_id = id + 1;
        if self.capture_depth > 0 {
            self.captured_ids.push(id);
        }
        proof {
            assert forall|i: int| 0 <= i < self.captured().len() implies #[trigger] self.captured()[i] >= 1 by {
                if i < old(self).captured().len() {
                    assert(old(self).captured()[i] >= 1);
                    assert(self.captured()[i] == old(self).captured()[i]);
                } else {
                    assert(self.captured()[i] == id);
                }
            }
        }
        id
    }

    /// Opens a capture: forgets what was captured before.
    pub fn begin_context_unique_id_capture(&mut self)
        requires
            old(self).wf(),
            old(self).depth() < usize::MAX,
        ensures
            final(self).wf(),
            final(self).captured() == Seq::<i64>::empty(),
            final(self).depth() == old(self).depth() + 1,
            final(self).next_id() == old(self).next_id(),
    {
        self.captured_ids.clear();
        self.capture_depth = self.capture_depth + 1;
    }

    /// Closes the capture and names the announced context by its first two
    /// captured ids, `first.second`, if it took two.
    pub fn finish_context_unique_id_capture(&mut self) -> (unique_id: Option<String>)
        requires
            old(self).wf(),
        ensures
            final(self).wf(),
            final(self).depth() == (if old(self).depth() > 0 { old(self).depth() - 1 } else { 0 }),
            final(self).captured() == old(self).captured(),
            final(self).next_id() == old(self).next_id(),
            old(self).captured().len() >= 2 ==> (unique_id matches Some(u) && u@ == signed_decimal(
                old(self).captured()[0] as int,
            ) + "."@ + signed_decimal(old(self).captured()[1] as int)),
            old(self).captured().len() < 2 ==> unique_id is None,
    {
        self.capture_depth = if self.capture_depth > 0 { self.capture_depth - 1 } else { 0 };
        if self.captured_ids.len() >= 2 {
            let mut unique_id = i64_decimal_text(self.captured_ids[0]);
            unique_id.append(".");
            let second = i64_decimal_text(self.captured_ids[1]);
            unique_id.append(second.as_str());
            Some(unique_id)
        } else {
            None
        }
    }

    /// How many captures are open.
    pub fn capture_depth_for_testing(&self) -> (depth: usize)
        ensures
            depth == self.depth(),
    {
        self.capture_depth
    }
}

/// The default context of each context group, by the registration that owns
/// it.
pub struct DocumentInspectorDefaultContexts {
    defaults: Vec<(i32, u64)>,
}

/// Whether the groups of `entries` are pairwise distinct.
pub open spec fn distinct_groups(entries: Seq<(i32, u64)>) -> bool {
    forall|i: int, j: int| 0 <= i < entries.len() && 0 <= j < entries.len() && i != j ==> #[trigger] entries[i].0 != #[trigger] entries[j].0
}

/// The owner map of default-context entries.
pub open spec fn owners_of(entries: Seq<(i32, u64)>) -> Map<i32, u64> {
    Map::new(
        |g: i32| exists|i: int| 0 <= i < entries.len() && #[trigger] entries[i].0 == g,
        |g: i32| entries[choose|i: int| 0 <= i < entries.len() && #[trigger] entries[i].0 == g].1,
    )
}

impl DocumentInspectorDefaultContexts {
    /// The owning registration of each group's default context.
    pub closed spec fn owners(&self) -> Map<i32, u64> {
        owners_of(self.defaults@)
    }

    /// Each group appears once.
    pub closed spec fn wf(&self) -> bool {
        distinct_groups(self.defaults@)
    }

    /// No default context.
    pub fn new() -> (contexts: Self)
        ensures
            contexts.wf(),
            contexts.owners() == Map::<i32, u64>::empty(),
    {
        let contexts = DocumentInspectorDefaultContexts { defaults: Vec::new() };
        assert(contexts.owners() =~= Map::<i32, u64>::empty());
        contexts
    }

    /// The position of `group`'s entry, if any.
    fn position_of(&self, group: i32) -> (position: Option<usize>)
        requires
            self.wf(),
        ensures
            match position {
                Some(i) => i < self.defaults@.len() && self.defaults@[i as int].0 == group && self.owners().contains_key(group)
                    && self.owners()[group] == self.defaults@[i as int].1,
                None => !self.owners().contains_key(group),
            },
    {
        let mut i: usize = 0;
        while i < self.defaults.len()
            invariant
                self.wf(),
                i <= self.defaults@.len(),
                forall|j: int| 0 <= j < i ==> #[trigger] self.defaults@[j].0 != group,
            decreases self.defaults@.len() - i,
        {
            if self.defaults[i].0 == group {
                proof {
                    let k = choose|k: int| 0 <= k < self.defaults@.len() && #[trigger] self.defaults@[k].0 == group;
                    if k != i {
                        assert(self.defaults@[k].0 != self.defaults@[i as int].0);
                    }
                }
                return Some(i);
            }
            i = i + 1;
        }
        None
    }

    /// Makes `registration` the owner of `group`'s default context.
    pub fn set_default_context(&mut self, group: i32, registration: u64)
        requires
            old(self).wf(),
        ensures
            final(self).wf(),
            final(self).owners() == old(self).owners().insert(group, registration),
    {
        let ghost before = self.defaults@;
        match self.position_of(group) {
            Some(i) => {
                self.defaults.set(i, (group, registration));
                proof {
                    assert(distinct_groups(self.defaults@)) by {
                        assert forall|a: int, b: int|
                            0 <= a < self.defaults@.len() && 0 <= b < self.defaults@.len() && a != b implies #[trigger] self.defaults@[a].0
                            != #[trigger] self.defaults@[b].0 by {
                            assert(before[a].0 != before[b].0);
                        }
                    }
                    lemma_owners_update(before, i as int, group, registration);
                }
            },
            None => {
                self.defaults.push((group, registration));
                proof {
                    assert(distinct_groups(self.defaults@)) by {
                        assert forall|a: int, b: int|
                            0 <= a < self.defaults@.len() && 0 <= b < self.defaults@.len() && a != b implies #[trigger] self.defaults@[a].0
                            != #[trigger] self.defaults@[b].0 by {
                            let n = before.len() as int;
                            if a == n {
                                assert(!(exists|k: int| 0 <= k < before.len() && #[trigger] before[k].0 == group));
                                assert(before[b].0 != group);
                            } else if b == n {
                                assert(before[a].0 != group);
                            } else {
                                assert(before[a].0 != before[b].0);
                            }
                        }
                    }
                    lemma_owners_push(before, group, registration);
                }
            },
        }
    }

    /// Drops `group`'s default context if `registration` owns it; returns
    /// whether it did (and so whether the group is to be reset).
    pub fn detach_default_context_if_same(&mut self, group: i32, registration: u64) -> (reset: bool)
        requires
            old(self).wf(),
        ensures
            final(self).wf(),
            reset == (old(self).owners().contains_key(group) && old(self).owners()[group] == registration),
            reset ==> final(self).owners() == old(self).owners().remove(group),
            !reset ==> final(self).owners() == old(self).owners(),
    {
        match self.position_of(group) {
            Some(i) => {
                if self.defaults[i].1 == registration {
                    self.remove_at(i);
                    true
                } else {
                    false
                }
            },
            None => false,
        }
    }

    /// Drops `group`'s default context before it is replaced; returns
    /// whether there was one (and so whether the group is to be reset).
    pub fn reset_default_context_group_before_replacement(&mut self, group: i32) -> (reset: bool)
        requires
            old(self).wf(),
        ensures
            final(self).wf(),
            reset == old(self).owners().contains_key(group),
            final(self).owners() == old(self).owners().remove(group),
    {
        match self.position_of(group) {
            Some(i) => {
                self.remove_at(i);
                true
            },
            None => {
                assert(self.owners() =~= self.owners().remove(group));
                false
            },
        }
    }

    /// Removes the entry at `i`.
    fn remove_at(&mut self, i: usize)
        requires
            old(self).wf(),
            i < old(self).defaults@.len(),
        ensures
            final(self).wf(),
            final(self).owners() == old(self).owners().remove(old(self).defaults@[i as int].0),
    {
        let ghost before = self.defaults@;
        self.defaults.remove(i);
        proof {
            assert(distinct_groups(self.defaults@)) by {
                assert forall|a: int, b: int|
                    0 <= a < self.defaults@.len() && 0 <= b < self.defaults@.len() && a != b implies #[trigger] self.defaults@[a].0
                    != #[trigger] self.defaults@[b].0 by {
                    let a0 = if a < i { a } else { a + 1 };
                    let b0 = if b < i { b } else { b + 1 };
                    assert(before[a0].0 != before[b0].0);
                }
            }
            lemma_owners_remove(before, i as int);
        }
    }

    /// How many groups have a default context.
    pub fn len(&self) -> (count: usize)
        requires
            self.wf(),
        ensures
            count == self.owners().dom().len(),
    {
        proof {
            lemma_owners_len(self.defaults@);
        }
        self.defaults.len()
    }
}

/// Updating entry `i` in place updates its group's owner.
proof fn lemma_owners_update(entries: Seq<(i32, u64)>, i: int, group: i32, registration: u64)
    requires
        distinct_groups(entries),
        0 <= i < entries.len(),
        entries[i].0 == group,
    ensures
        owners_of(entries.update(i, (group, registration))) == owners_of(entries).insert(group, registration),
{
    let updated = entries.update(i, (group, registration));
    assert forall|g: i32| #[trigger] owners_of(updated).contains_key(g) == owners_of(entries).insert(group, registration).contains_key(g) by {
        if exists|k: int| 0 <= k < entries.len() && #[trigger] entries[k].0 == g {
            let k = choose|k: int| 0 <= k < entries.len() && #[trigger] entries[k].0 == g;
            assert(updated[k].0 == g);
        }
        if exists|k: int| 0 <= k < updated.len() && #[trigger] updated[k].0 == g {
            let k = choose|k: int| 0 <= k < updated.len() && #[trigger] updated[k].0 == g;
            assert(entries[k].0 == g);
        }
    }
    assert forall|g: i32| owners_of(updated).contains_key(g) implies #[trigger] owners_of(updated)[g] == owners_of(entries).insert(
        group,
        registration,
    )[g] by {
        let k = choose|k: int| 0 <= k < updated.len() && #[trigger] updated[k].0 == g;
        if g != group {
            let k2 = choose|k: int| 0 <= k < entries.len() && #[trigger] entries[k].0 == g;
            assert(entries[k].0 == g);
            if k != k2 {
                assert(entries[k].0 != entries[k2].0);
            }
        } else {
            if k != i {
                assert(entries[k].0 == g);
                assert(entries[k].0 != entries[i].0);
            }
        }
    }
    assert(owners_of(updated) =~= owners_of(entries).insert(group, registration));
}

/// Appending an entry for a new group adds its owner.
proof fn lemma_owners_push(entries: Seq<(i32, u64)>, group: i32, registration: u64)
    requires
        distinct_groups(entries.push((group, registration))),
    ensures
        owners_of(entries.push((group, registration))) == owners_of(entries).insert(group, registration),
{
    let pushed = entries.push((group, registration));
    let n = entries.len() as int;
    assert forall|g: i32| #[trigger] owners_of(pushed).contains_key(g) == owners_of(entries).insert(group, registration).contains_key(g) by {
        if exists|k: int| 0 <= k < entries.len() && #[trigger] entries[k].0 == g {
            let k = choose|k: int| 0 <= k < entries.len() && #[trigger] entries[k].0 == g;
            assert(pushed[k].0 == g);
        }
        if g == group {
            assert(pushed[n].0 == g);
        }
        if exists|k: int| 0 <= k < pushed.len() && #[trigger] pushed[k].0 == g {
            let k = choose|k: int| 0 <= k < pushed.len() && #[trigger] pushed[k].0 == g;
            if k < n {
                assert(entries[k].0 == g);
            }
        }
    }
    assert forall|g: i32| owners_of(pushed).contains_key(g) implies #[trigger] owners_of(pushed)[g] == owners_of(entries).insert(
        group,
        registration,
    )[g] by {
        let k = choose|k: int| 0 <= k < pushed.len() && #[trigger] pushed[k].0 == g;
        if g != group {
            let k2 = choose|k: int| 0 <= k < entries.len() && #[trigger] entries[k].0 == g;
            assert(pushed[k2].0 == g);
            if k != k2 {
                assert(pushed[k].0 != pushed[k2].0);
            }
        } else if k != n {
            assert(pushed[k].0 != pushed[n].0);
        }
    }
    assert(owners_of(pushed) =~= owners_of(entries).insert(group, registration));
}

/// Removing entry `i` removes its group's owner.
proof fn lemma_owners_remove(entries: Seq<(i32, u64)>, i: int)
    requires
        distinct_groups(entries),
        0 <= i < entries.len(),
    ensures
        owners_of(entries.remove(i)) == owners_of(entries).remove(entries[i].0),
{
    let removed = entries.remove(i);
    let group = entries[i].0;
    assert forall|g: i32| #[trigger] owners_of(removed).contains_key(g) == owners_of(entries).remove(group).contains_key(g) by {
        if exists|k: int| 0 <= k < removed.len() && #[trigger] removed[k].0 == g {
            let k = choose|k: int| 0 <= k < removed.len() && #[trigger] removed[k].0 == g;
            let k0 = if k < i { k } else { k + 1 };
            assert(entries[k0].0 == g);
            assert(entries[k0].0 != entries[i].0);
        }
        if g != group && exists|k: int| 0 <= k < entries.len() && #[trigger] entries[k].0 == g {
            let k = choose|k: int| 0 <= k < entries.len() && #[trigger] entries[k].0 == g;
            let k1 = if k < i { k } else { k - 1 };
            assert(removed[k1].0 == g);
        }
    }
    assert forall|g: i32| owners_of(removed).contains_key(g) implies #[trigger] owners_of(removed)[g] == owners_of(entries).remove(
        group,
    )[g] by {
        let k = choose|k: int| 0 <= k < removed.len() && #[trigger] removed[k].0 == g;
        let k0 = if k < i { k } else { k + 1 };
        assert(entries[k0].0 == g);
        let k2 = choose|k: int| 0 <= k < entries.len() && #[trigger] entries[k].0 == g;
        if k0 != k2 {
            assert(entries[k0].0 != entries[k2].0);
        }
    }
    assert(owners_of(removed) =~= owners_of(entries).remove(group));
}

/// The owner map has one group per entry.
proof fn lemma_owners_len(entries: Seq<(i32, u64)>)
    requires
        distinct_groups(entries),
    ensures
        owners_of(entries).dom().len() == entries.len(),
        owners_of(entries).dom().finite(),
    decreases entries.len(),
{
    if entries.len() == 0 {
        assert(owners_of(entries).dom() =~= Set::<i32>::empty());
    } else {
        let rest = entries.drop_last();
        let last = entries.last();
        assert(distinct_groups(rest)) by {
            assert forall|a: int, b: int| 0 <= a < rest.len() && 0 <= b < rest.len() && a != b implies #[trigger] rest[a].0
                != #[trigger] rest[b].0 by {
                assert(entries[a].0 != entries[b].0);
            }
        }
        lemma_owners_len(rest);
        assert(rest.push(last) =~= entries);
        lemma_owners_push(rest, last.0, last.1);
        assert(!owners_of(rest).contains_key(last.0)) by {
            if exists|k: int| 0 <= k < rest.len() && #[trigger] rest[k].0 == last.0 {
                let k = choose|k: int| 0 <= k < rest.len() && #[trigger] rest[k].0 == last.0;
                assert(entries[k].0 != entries[entries.len() - 1].0);
            }
        }
        assert(owners_of(entries).dom() =~= owners_of(rest).dom().insert(last.0));
    }
}


/// Lexicographic order of texts by code point (the order of their UTF-8
/// bytes).
pub open spec fn text_lt(a: Seq<char>, b: Seq<char>) -> bool
    decreases a.len(),
{
    if a.len() == 0 {
        b.len() > 0
    } else if b.len() == 0 {
        false
    } else if a[0] != b[0] {
        a[0] < b[0]
    } else {
        text_lt(a.drop_first(), b.drop_first())
    }
}

/// The order is irreflexive.
proof fn lemma_text_lt_irreflexive(a: Seq<char>)
    ensures
        !text_lt(a, a),
    decreases a.len(),
{
    if a.len() > 0 {
        lemma_text_lt_irreflexive(a.drop_first());
    }
}

/// The order is total on distinct texts.
proof fn lemma_text_lt_total(a: Seq<char>, b: Seq<char>)
    requires
        a != b,
    ensures
        text_lt(a, b) || text_lt(b, a),
    decreases a.len(),
{
    if a.len() > 0 && b.len() > 0 && a[0] == b[0] {
        if a.drop_first() == b.drop_first() {
            assert(a =~= seq![a[0]] + a.drop_first());
            assert(b =~= seq![b[0]] + b.drop_first());
        }
        lemma_text_lt_total(a.drop_first(), b.drop_first());
    } else if a.len() == 0 && b.len() == 0 {
        assert(a =~= b);
    } else if a.len() > 0 && b.len() > 0 {
        assert(a[0] != b[0]);
    }
}

/// The order is transitive.
proof fn lemma_text_lt_transitive(a: Seq<char>, b: Seq<char>, c: Seq<char>)
    requires
        text_lt(a, b),
        text_lt(b, c),
    ensures
        text_lt(a, c),
    decreases a.len(),
{
    if a.len() > 0 && b.len() > 0 && c.len() > 0 && a[0] == b[0] && b[0] == c[0] {
        lemma_text_lt_transitive(a.drop_first(), b.drop_first(), c.drop_first());
    }
}

/// The order is asymmetric.
proof fn lemma_text_lt_asymmetric(a: Seq<char>, b: Seq<char>)
    requires
        text_lt(a, b),
    ensures
        !text_lt(b, a),
    decreases a.len(),
{
    if a.len() > 0 && b.len() > 0 && a[0] == b[0] {
        lemma_text_lt_asymmetric(a.drop_first(), b.drop_first());
    }
}

/// Whether text `a` orders before text `b`.
pub fn text_less(a: &str, b: &str) -> (less: bool)
    ensures
        less == text_lt(a@, b@),
{
    let n = a.unicode_len();
    let m = b.unicode_len();
    let mut i: usize = 0;
    assert(a@.skip(0) =~= a@);
    assert(b@.skip(0) =~= b@);
    while i < n && i < m
        invariant
            n == a@.len(),
            m == b@.len(),
            i <= n,
            i <= m,
            text_lt(a@, b@) == text_lt(a@.skip(i as int), b@.skip(i as int)),
        decreases n - i,
    {
        let x = a.get_char(i);
        let y = b.get_char(i);
        proof {
            assert(a@.skip(i as int)[0] == x);
            assert(b@.skip(i as int)[0] == y);
        }
        if x != y {
            return x < y;
        }
        proof {
            assert(a@.skip(i as int).drop_first() =~= a@.skip(i + 1));
            assert(b@.skip(i as int).drop_first() =~= b@.skip(i + 1));
        }
        i = i + 1;
    }
    i == n && i < m
}

/// Whether a sequence of texts is strictly increasing.
pub open spec fn strictly_sorted(keys: Seq<Seq<char>>) -> bool {
    forall|i: int, j: int| 0 <= i < j < keys.len() ==> text_lt(#[trigger] keys[i], #[trigger] keys[j])
}

/// Strings as texts.
pub open spec fn texts_of(strings: Seq<String>) -> Seq<Seq<char>> {
    strings.map_values(|s: String| s@)
}

/// Whether the texts are pairwise distinct.
pub open spec fn distinct_texts(keys: Seq<Seq<char>>) -> bool {
    forall|i: int, j: int| 0 <= i < keys.len() && 0 <= j < keys.len() && i != j ==> #[trigger] keys[i] != #[trigger] keys[j]
}

/// The session keys in increasing order.
pub fn sorted_session_keys(keys: &Vec<String>) -> (sorted: Vec<String>)
    requires
        distinct_texts(texts_of(keys@)),
    ensures
        strictly_sorted(texts_of(sorted@)),
        sorted@.len() == keys@.len(),
        forall|k: Seq<char>| texts_of(sorted@).contains(k) <==> texts_of(keys@).contains(k),
{
    let ghost input = texts_of(keys@);
    let mut sorted: Vec<String> = Vec::new();
    let mut i: usize = 0;
    while i < keys.len()
        invariant
            i <= keys@.len(),
            input == texts_of(keys@),
            distinct_texts(input),
            sorted@.len() == i,
            strictly_sorted(texts_of(sorted@)),
            forall|k: Seq<char>| texts_of(sorted@).contains(k) <==> input.subrange(0, i as int).contains(k),
        decreases keys@.len() - i,
    {
        let key = keys[i].clone();
        let ghost k = key@;
        assert(k == input[i as int]);
        let ghost old_sorted = texts_of(sorted@);
        proof {
            if old_sorted.contains(k) {
                let a = choose|a: int| 0 <= a < i && #[trigger] input.subrange(0, i as int)[a] == k;
                assert(input[a] == input[i as int]);
            }
        }
        let mut j: usize = 0;
        while j < sorted.len() && text_less(sorted[j].as_str(), key.as_str())
            invariant
                j <= sorted@.len(),
                old_sorted == texts_of(sorted@),
                k == key@,
                forall|a: int| 0 <= a < j ==> text_lt(#[trigger] old_sorted[a], k),
            decreases sorted@.len() - j,
        {
            j = j + 1;
        }
        proof {
            if j < old_sorted.len() {
                assert(!text_lt(old_sorted[j as int], k));
                assert(old_sorted[j as int] != k);
                lemma_text_lt_total(old_sorted[j as int], k);
            }
        }
        sorted.insert(j, key);
        proof {
            let new_sorted = texts_of(sorted@);
            assert(new_sorted =~= old_sorted.insert(j as int, k));
            assert forall|a: int, b: int| 0 <= a < b < new_sorted.len() implies text_lt(
                #[trigger] new_sorted[a],
                #[trigger] new_sorted[b],
            ) by {
                if b < j {
                    assert(text_lt(old_sorted[a], old_sorted[b]));
                } else if b == j {
                    assert(text_lt(old_sorted[a], k));
                } else if a == j {
                    assert(text_lt(k, old_sorted[j as int]));
                    if b - 1 > j {
                        assert(text_lt(old_sorted[j as int], old_sorted[b - 1]));
                        lemma_text_lt_transitive(k, old_sorted[j as int], old_sorted[b - 1]);
                    }
                } else if a < j {
                    assert(text_lt(old_sorted[a], old_sorted[b - 1]));
                } else {
                    assert(text_lt(old_sorted[a - 1], old_sorted[b - 1]));
                }
            }
            assert forall|x: Seq<char>| new_sorted.contains(x) <==> input.subrange(0, i + 1).contains(x) by {
                if new_sorted.contains(x) {
                    let a = choose|a: int| 0 <= a < new_sorted.len() && #[trigger] new_sorted[a] == x;
                    if a == j {
                        assert(input.subrange(0, i + 1)[i as int] == x);
                    } else {
                        let a0 = if a < j { a } else { a - 1 };
                        assert(old_sorted[a0] == x);
                        assert(old_sorted.contains(x));
                        let c = choose|c: int| 0 <= c < i && #[trigger] input.subrange(0, i as int)[c] == x;
                        assert(input.subrange(0, i + 1)[c] == x);
                    }
                }
                if input.subrange(0, i + 1).contains(x) {
                    let c = choose|c: int| 0 <= c < i + 1 && #[trigger] input.subrange(0, i + 1)[c] == x;
                    if c == i {
                        assert(new_sorted[j as int] == x);
                    } else {
                        assert(input.subrange(0, i as int)[c] == x);
                        assert(old_sorted.contains(x));
                        let a = choose|a: int| 0 <= a < old_sorted.len() && #[trigger] old_sorted[a] == x;
                        if a < j {
                            assert(new_sorted[a] == x);
                        } else {
                            assert(new_sorted[a + 1] == x);
                        }
                    }
                }
            }
        }
        i = i + 1;
    }
    proof {
        assert(input.subrange(0, i as int) =~= input);
    }
    sorted
}

/// The session ids to announce a loaded worker script to, in increasing
/// order of their session keys (the default session has none).
pub fn worker_script_loaded_session_ids(session_keys: &Vec<String>) -> (ids: Vec<Option<String>>)
    requires
        distinct_texts(texts_of(session_keys@)),
    ensures
        ids@.len() == session_keys@.len(),
        exists|sorted: Seq<Seq<char>>| {
            &&& strictly_sorted(sorted)
            &&& sorted.len() == session_keys@.len()
            &&& (forall|k: Seq<char>| sorted.contains(k) <==> texts_of(session_keys@).contains(k))
            &&& forall|i: int| 0 <= i < ids@.len() ==> (#[trigger] ids@[i] matches Some(s) ==> s@ == sorted[i])
                && (ids@[i] is None <==> sorted[i].len() == 0)
        },
{
    let sorted = sorted_session_keys(session_keys);
    let mut ids: Vec<Option<String>> = Vec::new();
    let mut i: usize = 0;
    while i < sorted.len()
        invariant
            i <= sorted@.len(),
            ids@.len() == i,
            forall|a: int| 0 <= a < i ==> (#[trigger] ids@[a] matches Some(s) ==> s@ == sorted@[a]@) && (ids@[a] is None
                <==> sorted@[a]@.len() == 0),
        decreases sorted@.len() - i,
    {
        let key = sorted[i].as_str();
        if key.is_empty() {
            ids.push(None);
        } else {
            ids.push(Some(key.to_owned()));
        }
        i = i + 1;
    }
    proof {
        let texts = texts_of(sorted@);
        assert forall|a: int| 0 <= a < ids@.len() implies (#[trigger] ids@[a] matches Some(s) ==> s@ == texts[a])
            && (ids@[a] is None <==> texts[a].len() == 0) by {
            assert(texts[a] == sorted@[a]@);
        }
    }
    ids
}

/// A runtime context event the worker inspector emitted, as far as the
/// default execution context follows it.
#[derive(Clone, Debug, PartialEq, Eq)]
pub enum RuntimeContextEvent {
    Created { context_type: Option<String>, context_id: Option<i64> },
    Destroyed { context_id: Option<i64> },
    Cleared,
}

/// The default execution context id after one event: a created worker
/// context becomes the default, destroying the default forgets it, and
/// clearing forgets any.
pub open spec fn default_context_after(current: Option<i64>, event: RuntimeContextEvent) -> Option<i64> {
    match event {
        RuntimeContextEvent::Created { context_type, context_id } => {
            if (context_type matches Some(t) && t@ == "worker"@) && context_id is Some {
                context_id
            } else {
                current
            }
        },
        RuntimeContextEvent::Destroyed { context_id } => if context_id == current { None } else { current },
        RuntimeContextEvent::Cleared => None,
    }
}

/// The default execution context id after a run of events (messages that
/// are not runtime context events are `None`).
pub open spec fn default_context_after_all(current: Option<i64>, events: Seq<Option<RuntimeContextEvent>>) -> Option<i64>
    decreases events.len(),
{
    if events.len() == 0 {
        current
    } else {
        let before = default_context_after_all(current, events.drop_last());
        match events.last() {
            Some(e) => default_context_after(before, e),
            None => before,
        }
    }
}

/// Follows the worker's default execution context through the runtime
/// context events of a batch of inspector messages.
pub fn record_execution_context_state(current: Option<i64>, events: &Vec<Option<RuntimeContextEvent>>) -> (next: Option<i64>)
    ensures
        next == default_context_after_all(current, events@),
{
    let mut state = current;
    let mut i: usize = 0;
    while i < events.len()
        invariant
            i <= events@.len(),
            state == default_context_after_all(current, events@.subrange(0, i as int)),
        decreases events@.len() - i,
    {
        proof {
            assert(events@.subrange(0, i + 1).drop_last() =~= events@.subrange(0, i as int));
        }
        match &events[i] {
            Some(RuntimeContextEvent::Created { context_type, context_id }) => {
                let is_worker = match context_type {
                    Some(t) => *t == "worker".to_owned(),
                    None => false,
                };
                if is_worker && context_id.is_some() {
                    state = *context_id;
                }
            },
            Some(RuntimeContextEvent::Destroyed { context_id }) => {
                if *context_id == state {
                    state = None;
                }
            },
            Some(RuntimeContextEvent::Cleared) => {
                state = None;
            },
            None => {},
        }
        i = i + 1;
    }
    proof {
        assert(events@.subrange(0, events@.len() as int) =~= events@);
    }
    state
}

} // verus!
