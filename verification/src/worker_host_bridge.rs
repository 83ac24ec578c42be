//! Page-owned worker host/control bridge tasks.
//!
//! Host-facing worker records (network, fetch, WebSocket, console and relay
//! terminal markers) travel in one FIFO per Page.  Every record is stamped
//! with the root document of the producer, so that a late record of a retired
//! Page generation cannot act on a replacement whose worker ids collide.

use vstd::prelude::*;

verus! {

/// The sending half of a standard channel.
#[verifier::external_type_specification]
#[verifier::external_body]
#[verifier::reject_recursive_types(T)]
pub struct ExChannelSender<T>(std::sync::mpsc::Sender<T>);

/// The receiving half of a standard channel.
#[verifier::external_type_specification]
#[verifier::external_body]
#[verifier::reject_recursive_types(T)]
pub struct ExChannelReceiver<T>(std::sync::mpsc::Receiver<T>);

/// Creates a FIFO channel; calls `std::sync::mpsc::channel`.
#[verifier::external_body]
fn new_channel<T>() -> (std::sync::mpsc::Sender<T>, std::sync::mpsc::Receiver<T>) {
    std::sync::mpsc::channel()
}

/// Another sending half of the same channel; calls `Sender::clone`.
#[verifier::external_body]
fn clone_channel_sender<T>(tx: &std::sync::mpsc::Sender<T>) -> std::sync::mpsc::Sender<T> {
    tx.clone()
}

/// Hands `value` to the channel; calls `Sender::send`.  Whether the value is
/// accepted depends on whether the receiver still exists, so nothing is
/// claimed of the result.
#[verifier::external_body]
fn channel_send<T>(tx: &std::sync::mpsc::Sender<T>, value: T) -> bool {
    tx.send(value).is_ok()
}

/// Takes the oldest value waiting in the channel, if any; calls
/// `Receiver::try_recv`.  What is waiting depends on the senders, so nothing
/// is claimed of the result.
#[verifier::external_body]
fn channel_try_recv<T>(rx: &std::sync::mpsc::Receiver<T>) -> Option<T> {
    rx.try_recv().ok()
}

/// The identity of a Page.
#[derive(Clone, Copy, Debug, PartialEq, Eq, Hash, Structural)]
pub struct PageId(pub u64);

impl PageId {
    /// A Page id with the given raw value (test support).
    pub fn new_for_testing(raw: u64) -> (id: Self)
        ensures
            id.0 == raw,
    {
        PageId(raw)
    }
}

/// The root document of one PageVm generation.
#[derive(Clone, Copy, Debug, PartialEq, Eq, Hash, Structural)]
pub struct RendererDocumentToken {
    pub page_id: PageId,
    pub generation: u64,
}

/// The Page-local identity of a DedicatedWorker.
#[derive(Clone, Copy, Debug, PartialEq, Eq, Hash, Structural)]
pub struct DedicatedWorkerId(pub u64);

impl DedicatedWorkerId {
    /// The worker id with the given raw value.
    pub fn new(raw: u64) -> (id: Self)
        ensures
            id.0 == raw,
    {
        DedicatedWorkerId(raw)
    }
}

/// The identity of a SharedWorker instance.
#[derive(Clone, Copy, Debug, PartialEq, Eq, Hash, Structural)]
pub struct SharedWorkerInstanceId(pub u64);

impl SharedWorkerInstanceId {
    /// The instance id with the given raw value.
    pub fn from_u64(raw: u64) -> (id: Self)
        ensures
            id.0 == raw,
    {
        SharedWorkerInstanceId(raw)
    }
}

/// The kind of resource activity a Page owner turn reports.
#[derive(Clone, Copy, Debug, PartialEq, Eq, Hash, Structural)]
pub enum RendererOwnerResourceActivitySource {
    Worker,
    WorkerSubresource,
    WorkerFetchInterception,
    WorkerFetchCancellation,
    WorkerContinueEvent,
    WorkerWebSocket,
}

/// How a pending subresource continued.
#[derive(Clone, Copy, Debug, PartialEq, Eq, Structural)]
pub enum PendingSubresourceContinueEvent {
    Completed { internal_id: u64 },
    Failed { internal_id: u64 },
}

/// A record a worker sends to its parent.
#[derive(Debug, PartialEq, Eq)]
pub enum WorkerToParentMessage {
    SubresourceNetwork,
    PendingSubresourceFetch,
    PendingSubresourceFetchCanceled { fetch_id: u64, error_text: String },
    SubresourceContinue(PendingSubresourceContinueEvent),
    WebSocketSubresource,
    WebSocketLifecycle,
    WebSocketFrame,
    Console,
    Post,
    Error,
    RuntimeInspectorMessages,
    ServiceWorkerLifecycleCompleted,
    ServiceWorkerFetchCompleted,
    ServiceWorkerFetchStreamStarted,
    ServiceWorkerFetchStreamChunk,
    ServiceWorkerMessageCompleted,
    ServiceWorkerNotificationCompleted,
    ServiceWorkerPushCompleted,
    ServiceWorkerPushSubscribe,
    ServiceWorkerPushGetSubscription,
    ServiceWorkerPushUnsubscribe,
    ServiceWorkerSyncCompleted,
    ServiceWorkerPeriodicSyncCompleted,
    ServiceWorkerShowNotification,
    ServiceWorkerGetNotifications,
    ServiceWorkerSyncRegistration,
    ServiceWorkerSyncGetTags,
    ServiceWorkerPeriodicSyncRegistration,
    ServiceWorkerPeriodicSyncGetTags,
    ServiceWorkerPeriodicSyncUnregistration,
    ServiceWorkerCloseNotification,
    ServiceWorkerClientMessage,
    ServiceWorkerWorkerMessage,
    ServiceWorkerClientQuery,
    ServiceWorkerClientNavigate,
    ServiceWorkerClientFocus,
    ServiceWorkerClientsOpenWindow,
    ServiceWorkerSkipWaiting,
    ServiceWorkerClientsClaim,
    ServiceWorkerImportedScriptLoaded,
    SharedWorkerClosed,
    SharedWorkerRuntimeInspectorResponse,
}

/// An event of a worker runtime, as it reaches the Page.
#[derive(Debug, PartialEq, Eq)]
pub enum WorkerRuntimeEvent {
    Message { worker_id: DedicatedWorkerId, message: Box<WorkerToParentMessage> },
    HostBridgeDrained { worker_id: DedicatedWorkerId },
    SharedWorkerMessage { instance_id: SharedWorkerInstanceId, message: Box<WorkerToParentMessage> },
}

/// The worker a host bridge record belongs to.
#[derive(Clone, Copy, Debug, PartialEq, Eq, Structural)]
pub enum RendererWorkerHostBridgeTarget {
    Dedicated(DedicatedWorkerId),
    Shared(SharedWorkerInstanceId),
}

/// The root document and worker that produced a host bridge record.
#[derive(Clone, Copy, Debug, PartialEq, Eq, Structural)]
pub struct RendererPageWorkerHostBridgeOwner {
    root_document: RendererDocumentToken,
    target: RendererWorkerHostBridgeTarget,
}

impl RendererPageWorkerHostBridgeOwner {
    /// The owner's root document.
    pub closed spec fn spec_root_document(self) -> RendererDocumentToken {
        self.root_document
    }

    /// The owner's worker.
    pub closed spec fn spec_target(self) -> RendererWorkerHostBridgeTarget {
        self.target
    }

    /// The owner with the given root document and worker.
    pub fn new(root_document: RendererDocumentToken, target: RendererWorkerHostBridgeTarget) -> (owner:
        Self)
        ensures
            owner.spec_root_document() == root_document,
            owner.spec_target() == target,
    {
        RendererPageWorkerHostBridgeOwner { root_document, target }
    }

    /// The owner's root document.
    pub fn root_document(self) -> (root_document: RendererDocumentToken)
        ensures
            root_document == self.spec_root_document(),
    {
        self.root_document
    }

    /// The owner's worker.
    pub fn target(self) -> (target: RendererWorkerHostBridgeTarget)
        ensures
            target == self.spec_target(),
    {
        self.target
    }
}

/// The host-facing activity a worker record carries.
#[derive(Clone, Copy, Debug, PartialEq, Eq, Structural)]
pub enum WorkerHostBridgeActivity {
    Subresource,
    FetchInterception,
    FetchCancellation,
    ContinueEvent,
    WebSocket,
    Console,
}

/// The resource activity source an activity is reported as.
pub open spec fn activity_source_of(activity: WorkerHostBridgeActivity) -> RendererOwnerResourceActivitySource {
    match activity {
        WorkerHostBridgeActivity::Subresource => RendererOwnerResourceActivitySource::WorkerSubresource,
        WorkerHostBridgeActivity::FetchInterception => RendererOwnerResourceActivitySource::WorkerFetchInterception,
        WorkerHostBridgeActivity::FetchCancellation => RendererOwnerResourceActivitySource::WorkerFetchCancellation,
        WorkerHostBridgeActivity::ContinueEvent => RendererOwnerResourceActivitySource::WorkerContinueEvent,
        WorkerHostBridgeActivity::WebSocket => RendererOwnerResourceActivitySource::WorkerWebSocket,
        WorkerHostBridgeActivity::Console => RendererOwnerResourceActivitySource::Worker,
    }
}

impl WorkerHostBridgeActivity {
    /// The resource activity source this activity is reported as.
    pub fn activity_source(self) -> (source: RendererOwnerResourceActivitySource)
        ensures
            source == activity_source_of(self),
    {
        match self {
            WorkerHostBridgeActivity::Subresource => RendererOwnerResourceActivitySource::WorkerSubresource,
            WorkerHostBridgeActivity::FetchInterception => RendererOwnerResourceActivitySource::WorkerFetchInterception,
            WorkerHostBridgeActivity::FetchCancellation => RendererOwnerResourceActivitySource::WorkerFetchCancellation,
            WorkerHostBridgeActivity::ContinueEvent => RendererOwnerResourceActivitySource::WorkerContinueEvent,
            WorkerHostBridgeActivity::WebSocket => RendererOwnerResourceActivitySource::WorkerWebSocket,
            WorkerHostBridgeActivity::Console => RendererOwnerResourceActivitySource::Worker,
        }
    }
}

/// The host-facing activity of a worker record; records that are not
/// host-facing (messages, errors, inspector and service worker traffic,
/// shared worker control) carry none.
pub open spec fn host_bridge_activity_of(message: WorkerToParentMessage) -> Option<WorkerHostBridgeActivity> {
    match message {
        WorkerToParentMessage::SubresourceNetwork => Some(WorkerHostBridgeActivity::Subresource),
        WorkerToParentMessage::PendingSubresourceFetch => Some(WorkerHostBridgeActivity::FetchInterception),
        WorkerToParentMessage::PendingSubresourceFetchCanceled { .. } => Some(
            WorkerHostBridgeActivity::FetchCancellation,
        ),
        WorkerToParentMessage::SubresourceContinue(_) => Some(WorkerHostBridgeActivity::ContinueEvent),
        WorkerToParentMessage::WebSocketSubresource => Some(WorkerHostBridgeActivity::WebSocket),
        WorkerToParentMessage::WebSocketLifecycle => Some(WorkerHostBridgeActivity::WebSocket),
        WorkerToParentMessage::WebSocketFrame => Some(WorkerHostBridgeActivity::WebSocket),
        WorkerToParentMessage::Console => Some(WorkerHostBridgeActivity::Console),
        _ => None,
    }
}

/// The host-facing activity of a worker record.
pub fn worker_host_bridge_activity(message: &WorkerToParentMessage) -> (activity: Option<
    WorkerHostBridgeActivity,
>)
    ensures
        activity == host_bridge_activity_of(*message),
{
    match message {
        WorkerToParentMessage::SubresourceNetwork => Some(WorkerHostBridgeActivity::Subresource),
        WorkerToParentMessage::PendingSubresourceFetch => Some(WorkerHostBridgeActivity::FetchInterception),
        WorkerToParentMessage::PendingSubresourceFetchCanceled { .. } => Some(
            WorkerHostBridgeActivity::FetchCancellation,
        ),
        WorkerToParentMessage::SubresourceContinue(_) => Some(WorkerHostBridgeActivity::ContinueEvent),
        WorkerToParentMessage::WebSocketSubresource
        | WorkerToParentMessage::WebSocketLifecycle
        | WorkerToParentMessage::WebSocketFrame => Some(WorkerHostBridgeActivity::WebSocket),
        WorkerToParentMessage::Console => Some(WorkerHostBridgeActivity::Console),
        WorkerToParentMessage::Post
        | WorkerToParentMessage::Error
        | WorkerToParentMessage::RuntimeInspectorMessages
        | WorkerToParentMessage::ServiceWorkerLifecycleCompleted
        | WorkerToParentMessage::ServiceWorkerFetchCompleted
        | WorkerToParentMessage::ServiceWorkerFetchStreamStarted
        | WorkerToParentMessage::ServiceWorkerFetchStreamChunk
        | WorkerToParentMessage::ServiceWorkerMessageCompleted
        | WorkerToParentMessage::ServiceWorkerNotificationCompleted
        | WorkerToParentMessage::ServiceWorkerPushCompleted
        | WorkerToParentMessage::ServiceWorkerPushSubscribe
        | WorkerToParentMessage::ServiceWorkerPushGetSubscription
        | WorkerToParentMessage::ServiceWorkerPushUnsubscribe
        | WorkerToParentMessage::ServiceWorkerSyncCompleted
        | WorkerToParentMessage::ServiceWorkerPeriodicSyncCompleted
        | WorkerToParentMessage::ServiceWorkerShowNotification
        | WorkerToParentMessage::ServiceWorkerGetNotifications
        | WorkerToParentMessage::ServiceWorkerSyncRegistration
        | WorkerToParentMessage::ServiceWorkerSyncGetTags
        | WorkerToParentMessage::ServiceWorkerPeriodicSyncRegistration
        | WorkerToParentMessage::ServiceWorkerPeriodicSyncGetTags
        | WorkerToParentMessage::ServiceWorkerPeriodicSyncUnregistration
        | WorkerToParentMessage::ServiceWorkerCloseNotification
        | WorkerToParentMessage::ServiceWorkerClientMessage
        | WorkerToParentMessage::ServiceWorkerWorkerMessage
        | WorkerToParentMessage::ServiceWorkerClientQuery
        | WorkerToParentMessage::ServiceWorkerClientNavigate
        | WorkerToParentMessage::ServiceWorkerClientFocus
        | WorkerToParentMessage::ServiceWorkerClientsOpenWindow
        | WorkerToParentMessage::ServiceWorkerSkipWaiting
        | WorkerToParentMessage::ServiceWorkerClientsClaim
        | WorkerToParentMessage::ServiceWorkerImportedScriptLoaded
        | WorkerToParentMessage::SharedWorkerClosed
        | WorkerToParentMessage::SharedWorkerRuntimeInspectorResponse => None,
    }
}

/// The worker an event belongs to.
pub open spec fn host_bridge_target_of(event: WorkerRuntimeEvent) -> RendererWorkerHostBridgeTarget {
    match event {
        WorkerRuntimeEvent::Message { worker_id, .. } => RendererWorkerHostBridgeTarget::Dedicated(worker_id),
        WorkerRuntimeEvent::HostBridgeDrained { worker_id } => RendererWorkerHostBridgeTarget::Dedicated(
            worker_id,
        ),
        WorkerRuntimeEvent::SharedWorkerMessage { instance_id, .. } => RendererWorkerHostBridgeTarget::Shared(
            instance_id,
        ),
    }
}

/// The worker an event belongs to.
pub fn worker_host_bridge_target(event: &WorkerRuntimeEvent) -> (target: RendererWorkerHostBridgeTarget)
    ensures
        target == host_bridge_target_of(*event),
{
    match event {
        WorkerRuntimeEvent::Message { worker_id, .. } | WorkerRuntimeEvent::HostBridgeDrained {
            worker_id,
        } => RendererWorkerHostBridgeTarget::Dedicated(*worker_id),
        WorkerRuntimeEvent::SharedWorkerMessage { instance_id, .. } => {
            RendererWorkerHostBridgeTarget::Shared(*instance_id)
        },
    }
}

/// The resource activity source an event is reported as: that of its
/// record's host-facing activity, or plain worker activity.
pub open spec fn activity_source_for_event(event: WorkerRuntimeEvent) -> RendererOwnerResourceActivitySource {
    match event {
        WorkerRuntimeEvent::Message { message, .. } | WorkerRuntimeEvent::SharedWorkerMessage {
            message,
            ..
        } => match host_bridge_activity_of(*message) {
            Some(activity) => activity_source_of(activity),
            None => RendererOwnerResourceActivitySource::Worker,
        },
        WorkerRuntimeEvent::HostBridgeDrained { .. } => RendererOwnerResourceActivitySource::Worker,
    }
}

/// The resource activity source an event is reported as.
pub fn worker_host_bridge_activity_source_for_event(event: &WorkerRuntimeEvent) -> (source:
    RendererOwnerResourceActivitySource)
    ensures
        source == activity_source_for_event(*event),
{
    let message = match event {
        WorkerRuntimeEvent::Message { message, .. } | WorkerRuntimeEvent::SharedWorkerMessage {
            message,
            ..
        } => message,
        WorkerRuntimeEvent::HostBridgeDrained { .. } => {
            return RendererOwnerResourceActivitySource::Worker;
        },
    };
    match worker_host_bridge_activity(message) {
        Some(activity) => activity.activity_source(),
        None => RendererOwnerResourceActivitySource::Worker,
    }
}

/// A worker record stamped with the root document of its producer.
#[derive(Debug)]
pub struct RendererPageWorkerHostBridgeTask {
    owner: RendererPageWorkerHostBridgeOwner,
    activity_source: RendererOwnerResourceActivitySource,
    event: WorkerRuntimeEvent,
}

impl RendererPageWorkerHostBridgeTask {
    /// The owner of the record.
    pub closed spec fn spec_owner(&self) -> RendererPageWorkerHostBridgeOwner {
        self.owner
    }

    /// The activity source of the record.
    pub closed spec fn spec_activity_source(&self) -> RendererOwnerResourceActivitySource {
        self.activity_source
    }

    /// The event the record carries.
    pub closed spec fn spec_event(&self) -> WorkerRuntimeEvent {
        self.event
    }

    /// Stamps `event` with `root_document`, its worker and its activity.
    pub fn new(root_document: RendererDocumentToken, event: WorkerRuntimeEvent) -> (task: Self)
        ensures
            task.spec_owner().spec_root_document() == root_document,
            task.spec_owner().spec_target() == host_bridge_target_of(event),
            task.spec_activity_source() == activity_source_for_event(event),
            task.spec_event() == event,
    {
        let target = worker_host_bridge_target(&event);
        let activity_source = worker_host_bridge_activity_source_for_event(&event);
        RendererPageWorkerHostBridgeTask {
            owner: RendererPageWorkerHostBridgeOwner::new(root_document, target),
            activity_source,
            event,
        }
    }

    /// The owner of the record.
    pub fn owner(&self) -> (owner: RendererPageWorkerHostBridgeOwner)
        ensures
            owner == self.spec_owner(),
    {
        self.owner
    }

    /// The activity source of the record.
    pub fn activity_source(&self) -> (source: RendererOwnerResourceActivitySource)
        ensures
            source == self.spec_activity_source(),
    {
        self.activity_source
    }

    /// The event the record carries.
    pub fn into_event(self) -> (event: WorkerRuntimeEvent)
        ensures
            event == self.spec_event(),
    {
        self.event
    }
}

/// A task of the Page's networking FIFO.
#[derive(Debug)]
pub enum RendererPageNetworkingTask {
    WorkerHostBridge(RendererPageWorkerHostBridgeTask),
}

/// A producer's handle on the Page's networking FIFO.
#[derive(Debug)]
pub struct RendererPageNetworkingRoute {
    tx: std::sync::mpsc::Sender<RendererPageNetworkingTask>,
}

impl Clone for RendererPageNetworkingRoute {
    fn clone(&self) -> Self {
        RendererPageNetworkingRoute { tx: clone_channel_sender(&self.tx) }
    }
}

impl RendererPageNetworkingRoute {
    /// Appends `task` to the FIFO; fails once the Page's source is gone.
    pub fn send(&self, task: RendererPageNetworkingTask) -> (accepted: bool) {
        channel_send(&self.tx, task)
    }
}

/// The Page-owned networking FIFO.
#[derive(Debug)]
pub struct RendererPageNetworkingSource {
    rx: std::sync::mpsc::Receiver<RendererPageNetworkingTask>,
    tx: std::sync::mpsc::Sender<RendererPageNetworkingTask>,
    selected: u64,
}

impl RendererPageNetworkingSource {
    /// The number of tasks selected so far.
    pub closed spec fn spec_selected(&self) -> u64 {
        self.selected
    }

    /// An empty FIFO.
    pub fn new_for_test() -> (source: Self)
        ensures
            source.spec_selected() == 0,
    {
        let (tx, rx) = new_channel();
        RendererPageNetworkingSource { rx, tx, selected: 0 }
    }

    /// A producer handle on this FIFO.
    pub fn route(&self) -> RendererPageNetworkingRoute {
        RendererPageNetworkingRoute { tx: clone_channel_sender(&self.tx) }
    }

    /// Selects the oldest task, numbered by selection order from one.
    pub fn pop_front_task(&mut self) -> (selected: Option<(u64, RendererPageNetworkingTask)>)
        requires
            old(self).spec_selected() < u64::MAX,
        ensures
            match selected {
                Some((n, _)) => n == old(self).spec_selected() + 1 && final(self).spec_selected() == n,
                None => final(self).spec_selected() == old(self).spec_selected(),
            },
    {
        match channel_try_recv(&self.rx) {
            Some(task) => {
                self.selected = self.selected + 1;
                Some((self.selected, task))
            },
            None => None,
        }
    }
}

/// The Page's networking FIFO is gone.
#[derive(Clone, Copy, Debug, PartialEq, Eq, Structural)]
pub struct RendererWorkerHostBridgeRouteClosed;

/// The outcome of handing a record to the Page's route: success where the
/// route accepted it, the closed-route error otherwise.
pub fn route_send_outcome(accepted: bool) -> (outcome: Result<(), RendererWorkerHostBridgeRouteClosed>)
    ensures
        accepted <==> outcome is Ok,
        !accepted ==> outcome == Err::<(), RendererWorkerHostBridgeRouteClosed>(RendererWorkerHostBridgeRouteClosed),
{
    if accepted {
        Ok(())
    } else {
        Err(RendererWorkerHostBridgeRouteClosed)
    }
}

/// A producer stamped with one PageVm generation's root document.
#[derive(Clone, Debug)]
pub struct RendererWorkerHostBridgeEventSender {
    route: RendererPageNetworkingRoute,
    root_document: RendererDocumentToken,
}

impl RendererWorkerHostBridgeEventSender {
    /// The root document this producer stamps.
    pub closed spec fn spec_root_document(&self) -> RendererDocumentToken {
        self.root_document
    }

    /// A producer for `route` stamping `root_document`.
    pub fn new(route: RendererPageNetworkingRoute, root_document: RendererDocumentToken) -> (sender: Self)
        ensures
            sender.spec_root_document() == root_document,
    {
        RendererWorkerHostBridgeEventSender { route, root_document }
    }

    /// The networking task this producer hands on for `event`: the event,
    /// stamped with this producer's root document, the event's worker and
    /// its activity source.
    pub fn stamp(&self, event: WorkerRuntimeEvent) -> (task: RendererPageNetworkingTask)
        ensures
            task matches RendererPageNetworkingTask::WorkerHostBridge(t)
                && t.spec_owner().spec_root_document() == self.spec_root_document()
                && t.spec_owner().spec_target() == host_bridge_target_of(event)
                && t.spec_activity_source() == activity_source_for_event(event)
                && t.spec_event() == event,
    {
        RendererPageNetworkingTask::WorkerHostBridge(RendererPageWorkerHostBridgeTask::new(self.root_document, event))
    }

    /// Stamps `event` (the task of `stamp`) and sends it to the Page's
    /// networking FIFO; fails without any fallback once the FIFO is gone.
    pub fn send(&self, event: WorkerRuntimeEvent) -> Result<(), RendererWorkerHostBridgeRouteClosed> {
        let task = self.stamp(event);
        route_send_outcome(self.route.send(task))
    }
}

/// How applying a record to the current owner touched the Page.
#[derive(Clone, Copy, Debug, PartialEq, Eq, Structural)]
pub enum PageWorkerHostBridgeCurrentEffect {
    /// State changed without entering the Page's script context.
    StateAppliedWithoutPageContext,
    /// The body entered the current Page context.
    StateAppliedInPageContext,
}

/// What became of a selected record.
#[derive(Clone, Copy, Debug, PartialEq, Eq, Structural)]
pub enum PageWorkerHostBridgeTargetEffect {
    AppliedToCurrentOwner(PageWorkerHostBridgeCurrentEffect),
    IgnoredStaleRoot,
    IgnoredStaleTarget,
}

/// What the script runtime reports after applying a record's body.
#[derive(Clone, Copy, Debug, PartialEq, Eq, Structural)]
pub enum WorkerHostBridgeBodyEffect {
    StateAppliedWithoutPageContext,
    StateAppliedInPageContext,
    ExactTargetUnavailable,
}

/// The target effect a body effect amounts to.
pub open spec fn target_effect_of(effect: WorkerHostBridgeBodyEffect) -> PageWorkerHostBridgeTargetEffect {
    match effect {
        WorkerHostBridgeBodyEffect::StateAppliedWithoutPageContext => PageWorkerHostBridgeTargetEffect::AppliedToCurrentOwner(
            PageWorkerHostBridgeCurrentEffect::StateAppliedWithoutPageContext,
        ),
        WorkerHostBridgeBodyEffect::StateAppliedInPageContext => PageWorkerHostBridgeTargetEffect::AppliedToCurrentOwner(
            PageWorkerHostBridgeCurrentEffect::StateAppliedInPageContext,
        ),
        WorkerHostBridgeBodyEffect::ExactTargetUnavailable => PageWorkerHostBridgeTargetEffect::IgnoredStaleTarget,
    }
}

impl From<WorkerHostBridgeBodyEffect> for PageWorkerHostBridgeTargetEffect {
    fn from(effect: WorkerHostBridgeBodyEffect) -> (target_effect: Self) {
        match effect {
            WorkerHostBridgeBodyEffect::StateAppliedWithoutPageContext => {
                PageWorkerHostBridgeTargetEffect::AppliedToCurrentOwner(
                    PageWorkerHostBridgeCurrentEffect::StateAppliedWithoutPageContext,
                )
            },
            WorkerHostBridgeBodyEffect::StateAppliedInPageContext => {
                PageWorkerHostBridgeTargetEffect::AppliedToCurrentOwner(
                    PageWorkerHostBridgeCurrentEffect::StateAppliedInPageContext,
                )
            },
            WorkerHostBridgeBodyEffect::ExactTargetUnavailable => {
                PageWorkerHostBridgeTargetEffect::IgnoredStaleTarget
            },
        }
    }
}

impl vstd::std_specs::convert::FromSpecImpl<WorkerHostBridgeBodyEffect> for PageWorkerHostBridgeTargetEffect {
    open spec fn obeys_from_spec() -> bool {
        true
    }

    open spec fn from_spec(effect: WorkerHostBridgeBodyEffect) -> Self {
        target_effect_of(effect)
    }
}

/// The action a Page turn took on one selected record.
#[derive(Clone, Copy, Debug, PartialEq, Eq, Structural)]
pub struct PageWorkerHostBridgeTurnAction {
    owner: RendererPageWorkerHostBridgeOwner,
    activity_source: RendererOwnerResourceActivitySource,
    target_effect: PageWorkerHostBridgeTargetEffect,
}

/// Whether a target effect changed the current owner's state.
pub open spec fn effect_applied(effect: PageWorkerHostBridgeTargetEffect) -> bool {
    effect is AppliedToCurrentOwner
}

impl PageWorkerHostBridgeTurnAction {
    /// The owner of the record.
    pub closed spec fn spec_owner(self) -> RendererPageWorkerHostBridgeOwner {
        self.owner
    }

    /// The activity source of the record.
    pub closed spec fn spec_activity_source(self) -> RendererOwnerResourceActivitySource {
        self.activity_source
    }

    /// What became of the record.
    pub closed spec fn spec_target_effect(self) -> PageWorkerHostBridgeTargetEffect {
        self.target_effect
    }

    /// The action with the given parts.
    pub fn new(
        owner: RendererPageWorkerHostBridgeOwner,
        activity_source: RendererOwnerResourceActivitySource,
        target_effect: PageWorkerHostBridgeTargetEffect,
    ) -> (action: Self)
        ensures
            action.spec_owner() == owner,
            action.spec_activity_source() == activity_source,
            action.spec_target_effect() == target_effect,
    {
        PageWorkerHostBridgeTurnAction { owner, activity_source, target_effect }
    }

    /// The owner of the record.
    pub fn owner(self) -> (owner: RendererPageWorkerHostBridgeOwner)
        ensures
            owner == self.spec_owner(),
    {
        self.owner
    }

    /// The activity source of the record.
    pub fn activity_source(self) -> (source: RendererOwnerResourceActivitySource)
        ensures
            source == self.spec_activity_source(),
    {
        self.activity_source
    }

    /// What became of the record.
    pub fn target_effect(self) -> (effect: PageWorkerHostBridgeTargetEffect)
        ensures
            effect == self.spec_target_effect(),
    {
        self.target_effect
    }

    /// Whether the turn's output must be captured: exactly when the record
    /// was applied to the current owner.
    pub fn requires_output_capture(self) -> (capture: bool)
        ensures
            capture == effect_applied(self.spec_target_effect()),
    {
        match self.target_effect {
            PageWorkerHostBridgeTargetEffect::AppliedToCurrentOwner(_) => true,
            _ => false,
        }
    }
}

/// What a selected Page task owes when it completes.
#[derive(Clone, Copy, Debug, PartialEq, Eq, Structural)]
pub enum PageTaskCompletion {
    /// The task owes one ordinary end-of-task checkpoint.
    CheckpointOnly,
    /// The task completes without protocol-visible work.
    NoCompletion,
}

/// A record applied to the current owner owes a checkpoint; a stale record
/// owes nothing.
pub open spec fn completion_of(effect: PageWorkerHostBridgeTargetEffect) -> PageTaskCompletion {
    if effect_applied(effect) {
        PageTaskCompletion::CheckpointOnly
    } else {
        PageTaskCompletion::NoCompletion
    }
}

impl PageWorkerHostBridgeTurnAction {
    /// What the selected task owes when it completes.
    pub fn into_page_task_completion(self) -> (completion: PageTaskCompletion)
        ensures
            completion == completion_of(self.spec_target_effect()),
    {
        match self.target_effect() {
            PageWorkerHostBridgeTargetEffect::AppliedToCurrentOwner(
                PageWorkerHostBridgeCurrentEffect::StateAppliedInPageContext,
            )
            | PageWorkerHostBridgeTargetEffect::AppliedToCurrentOwner(
                PageWorkerHostBridgeCurrentEffect::StateAppliedWithoutPageContext,
            ) => PageTaskCompletion::CheckpointOnly,
            PageWorkerHostBridgeTargetEffect::IgnoredStaleRoot
            | PageWorkerHostBridgeTargetEffect::IgnoredStaleTarget => PageTaskCompletion::NoCompletion,
        }
    }
}

/// The protocol-visible output of one Page owner turn.
#[derive(Clone, Copy, Debug, PartialEq, Eq, Structural)]
pub struct PageOwnerTurnOutput {
    pub resource_activity: Option<RendererOwnerResourceActivitySource>,
}

impl PageOwnerTurnOutput {
    /// Resource activity from `source` when `condition` holds, no output
    /// otherwise.
    pub fn resource_if(condition: bool, source: RendererOwnerResourceActivitySource) -> (output: Self)
        ensures
            output.resource_activity == if condition {
                Some(source)
            } else {
                None
            },
    {
        PageOwnerTurnOutput { resource_activity: if condition {
            Some(source)
        } else {
            None
        } }
    }
}

/// The action and output of one Page owner turn over a host bridge record.
#[derive(Clone, Copy, Debug, PartialEq, Eq, Structural)]
pub struct PageWorkerHostBridgeTurnOutcome {
    pub action: PageWorkerHostBridgeTurnAction,
    pub output: PageOwnerTurnOutput,
}

/// What a Page turn does with a selected record, decided before the record
/// reaches the script runtime.
pub enum PageWorkerHostBridgeTurnSelection {
    /// The record belongs to a retired root document; it is consumed without
    /// protocol-visible activity.
    Finished(PageWorkerHostBridgeTurnOutcome),
    /// The record belongs to the current root document; its body must be
    /// applied, then the turn completed with the body's effect.
    ApplyBody {
        owner: RendererPageWorkerHostBridgeOwner,
        activity_source: RendererOwnerResourceActivitySource,
        event: WorkerRuntimeEvent,
    },
}

/// Completes a turn whose record had the given effect.
pub fn complete_page_worker_host_bridge_turn(
    owner: RendererPageWorkerHostBridgeOwner,
    activity_source: RendererOwnerResourceActivitySource,
    target_effect: PageWorkerHostBridgeTargetEffect,
) -> (outcome: PageWorkerHostBridgeTurnOutcome)
    ensures
        outcome.action.spec_owner() == owner,
        outcome.action.spec_activity_source() == activity_source,
        outcome.action.spec_target_effect() == target_effect,
        outcome.output.resource_activity == if effect_applied(target_effect) {
            Some(activity_source)
        } else {
            None
        },
{
    let action = PageWorkerHostBridgeTurnAction::new(owner, activity_source, target_effect);
    PageWorkerHostBridgeTurnOutcome {
        action,
        output: PageOwnerTurnOutput::resource_if(action.requires_output_capture(), activity_source),
    }
}

/// Authorizes a selected record against the current root document: a record
/// of another root document is ignored as stale; a current record goes on to
/// have its body applied.
pub fn select_page_worker_host_bridge_turn(
    task: RendererPageWorkerHostBridgeTask,
    current_root_document: RendererDocumentToken,
) -> (selection: PageWorkerHostBridgeTurnSelection)
    ensures
        match selection {
            PageWorkerHostBridgeTurnSelection::Finished(outcome) => task.spec_owner().spec_root_document()
                != current_root_document && outcome.action.spec_owner() == task.spec_owner()
                && outcome.action.spec_activity_source() == task.spec_activity_source()
                && outcome.action.spec_target_effect() == PageWorkerHostBridgeTargetEffect::IgnoredStaleRoot
                && outcome.output.resource_activity is None,
            PageWorkerHostBridgeTurnSelection::ApplyBody { owner, activity_source, event } =>
                task.spec_owner().spec_root_document() == current_root_document && owner
                == task.spec_owner() && activity_source == task.spec_activity_source() && event
                == task.spec_event(),
        },
{
    let owner = task.owner();
    let activity_source = task.activity_source();
    if owner.root_document() != current_root_document {
        PageWorkerHostBridgeTurnSelection::Finished(
            complete_page_worker_host_bridge_turn(
                owner,
                activity_source,
                PageWorkerHostBridgeTargetEffect::IgnoredStaleRoot,
            ),
        )
    } else {
        PageWorkerHostBridgeTurnSelection::ApplyBody { owner, activity_source, event: task.into_event() }
    }
}

/// A record of a retired root document never reaches the script runtime and
/// never produces output; a current record's turn reports its activity
/// exactly when the body applied it.
pub proof fn law_stale_root_records_stay_silent(
    task: RendererPageWorkerHostBridgeTask,
    current_root_document: RendererDocumentToken,
    body_effect: WorkerHostBridgeBodyEffect,
)
    ensures
        completion_of(PageWorkerHostBridgeTargetEffect::IgnoredStaleRoot)
            == PageTaskCompletion::NoCompletion,
        completion_of(target_effect_of(body_effect)) == PageTaskCompletion::CheckpointOnly
            <==> body_effect != WorkerHostBridgeBodyEffect::ExactTargetUnavailable,
{
}

/// Whether `message` is a WebSocket record of a worker.
pub open spec fn is_websocket_record(message: WorkerToParentMessage) -> bool {
    message is WebSocketSubresource || message is WebSocketLifecycle || message is WebSocketFrame
}

/// Whether `message` is a host-facing record of a worker.
pub open spec fn is_host_facing_record(message: WorkerToParentMessage) -> bool {
    message is SubresourceNetwork || message is PendingSubresourceFetch || message is PendingSubresourceFetchCanceled
        || message is SubresourceContinue || is_websocket_record(message) || message is Console
}

/// Each host-facing record of a worker is reported as its own activity:
/// every WebSocket record (subresource, lifecycle, frame) as WebSocket
/// activity, only console records as console activity, and records that are
/// not host-facing as no activity.
pub proof fn law_record_activity_follows_the_record(message: WorkerToParentMessage)
    ensures
        host_bridge_activity_of(message) == Some(WorkerHostBridgeActivity::WebSocket) <==> is_websocket_record(message),
        host_bridge_activity_of(message) == Some(WorkerHostBridgeActivity::Console) <==> message is Console,
        host_bridge_activity_of(message) == Some(WorkerHostBridgeActivity::Subresource) <==> message is SubresourceNetwork,
        host_bridge_activity_of(message) == Some(WorkerHostBridgeActivity::FetchInterception) <==> message is PendingSubresourceFetch,
        host_bridge_activity_of(message) == Some(WorkerHostBridgeActivity::FetchCancellation) <==> message is PendingSubresourceFetchCanceled,
        host_bridge_activity_of(message) == Some(WorkerHostBridgeActivity::ContinueEvent) <==> message is SubresourceContinue,
        host_bridge_activity_of(message) is None <==> !is_host_facing_record(message),
{
}

/// A worker record is reported with the activity source of its kind: every
/// WebSocket record with `WorkerWebSocket`, each other host-facing record
/// with its own source, and only console records, records that are not
/// host-facing and drained markers as plain `Worker` activity.
pub proof fn law_event_activity_source_follows_the_record(event: WorkerRuntimeEvent)
    ensures
        event is HostBridgeDrained ==> activity_source_for_event(event) == RendererOwnerResourceActivitySource::Worker,
        event matches WorkerRuntimeEvent::Message { message, .. } ==> {
            &&& activity_source_for_event(event) == RendererOwnerResourceActivitySource::WorkerWebSocket
                <==> is_websocket_record(*message)
            &&& activity_source_for_event(event) == RendererOwnerResourceActivitySource::Worker
                <==> (*message is Console || !is_host_facing_record(*message))
            &&& activity_source_for_event(event) == RendererOwnerResourceActivitySource::WorkerSubresource
                <==> *message is SubresourceNetwork
            &&& activity_source_for_event(event) == RendererOwnerResourceActivitySource::WorkerFetchInterception
                <==> *message is PendingSubresourceFetch
            &&& activity_source_for_event(event) == RendererOwnerResourceActivitySource::WorkerFetchCancellation
                <==> *message is PendingSubresourceFetchCanceled
            &&& activity_source_for_event(event) == RendererOwnerResourceActivitySource::WorkerContinueEvent
                <==> *message is SubresourceContinue
        },
        event matches WorkerRuntimeEvent::SharedWorkerMessage { message, .. } ==> (activity_source_for_event(event)
            == RendererOwnerResourceActivitySource::WorkerWebSocket <==> is_websocket_record(*message)),
{
}

} // verus!
