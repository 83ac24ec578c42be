//! Service-worker runtime completions and the service lane that carries them.
//!
//! Work that a service-worker thread finishes (a version start, an extendable
//! event, a client or notification request) comes back to the runtime service
//! as a completion on the service lane.  Each completion holds a weak handle
//! of the service: when the lane is drained, the completion is routed to the
//! finish step of its kind, and dropped if the service is gone.
//!
//! The payload records keep as plain values the identities that routing and
//! diagnostics read; the rest of each payload travels as an opaque body whose
//! type the embedder chooses through [`ServiceWorkerRuntimeTypes`].

use vstd::prelude::*;
use std::collections::VecDeque;
use crate::mcp::{decimal_digits, decimal_text};

verus! {

/// Identity of one service-worker version.
#[derive(Clone, Copy, Debug, PartialEq, Eq, Hash, Structural)]
pub struct ServiceWorkerVersionId(pub u64);

/// Identity of one service-worker registration.
#[derive(Clone, Copy, Debug, PartialEq, Eq, Hash, Structural)]
pub struct ServiceWorkerRegistrationId(pub u64);

/// The lifecycle event a lifecycle completion reports on.
#[derive(Clone, Copy, Debug, PartialEq, Eq, Hash, Structural)]
pub enum ServiceWorkerLifecycleEventKind {
    Install,
    Activate,
}

/// The types of the values a completion carries without reading them.
pub trait ServiceWorkerRuntimeTypes {
    /// A weak handle of the runtime service.
    type WeakService;
    /// The service-worker host that issued a request.
    type SourceHost;
    /// The fetched main script of a started version.
    type ScriptResource;
    /// A script loaded through `importScripts`.
    type WorkerScriptResource;
    /// How a started version handles fetch events.
    type FetchHandlerType;
    /// Why a version failed to start.
    type StartFailure;
    /// The outcome of a successful main-script update check.
    type UpdateCheckOutput;
    /// The error of a failed main-script update check.
    type UpdateCheckError;

    /// The rest of the completion of an install or activate event.
    type LifecycleCompletionBody;
    /// The rest of the completion of a fetch event.
    type FetchCompletionBody;
    /// The rest of the start of a streamed fetch response body.
    type FetchStreamStartedBody;
    /// The rest of one chunk of a streamed fetch response body.
    type FetchStreamChunkBody;
    /// The rest of the completion of a message event.
    type MessageCompletionBody;
    /// The rest of the completion of a notification event.
    type NotificationCompletionBody;
    /// The rest of the completion of a push event.
    type PushCompletionBody;
    /// The rest of the completion of a sync event.
    type SyncCompletionBody;
    /// The rest of the completion of a periodic sync event.
    type PeriodicSyncCompletionBody;
    /// The rest of a `showNotification` request.
    type ShowNotificationBody;
    /// The rest of a `getNotifications` request.
    type GetNotificationsBody;
    /// The rest of a sync registration request.
    type SyncRegistrationBody;
    /// The rest of a sync `getTags` request.
    type SyncGetTagsBody;
    /// The rest of a periodic sync registration request.
    type PeriodicSyncRegistrationBody;
    /// The rest of a periodic sync `getTags` request.
    type PeriodicSyncGetTagsBody;
    /// The rest of a periodic sync unregistration request.
    type PeriodicSyncUnregistrationBody;
    /// The rest of a push `subscribe` request.
    type PushSubscribeBody;
    /// The rest of a push `getSubscription` request.
    type PushGetSubscriptionBody;
    /// The rest of a push `unsubscribe` request.
    type PushUnsubscribeBody;
    /// The rest of a request to close a shown notification.
    type CloseNotificationBody;
    /// The rest of a message from a service worker to a client.
    type ClientMessageBody;
    /// The rest of a message from one service worker to another.
    type WorkerMessageBody;
    /// The rest of a `clients.matchAll` or `clients.get` query.
    type ClientQueryBody;
    /// The rest of a `client.navigate` request.
    type ClientNavigateBody;
    /// The rest of the completion of a `client.navigate` request.
    type ClientNavigateCompletionBody;
    /// The rest of a `client.focus` request.
    type ClientFocusBody;
    /// The rest of the completion of a `client.focus` request.
    type ClientFocusCompletionBody;
    /// The rest of a `clients.openWindow` request.
    type ClientsOpenWindowBody;
    /// The rest of the completion of a `clients.openWindow` request.
    type ClientsOpenWindowCompletionBody;
}

/// Identifying fields of the completion of an install or activate event.
pub struct ServiceWorkerLifecycleCompletion<P: ServiceWorkerRuntimeTypes> {
    pub event_id: u64,
    pub version_id: ServiceWorkerVersionId,
    pub generation: u64,
    pub kind: ServiceWorkerLifecycleEventKind,
    pub body: P::LifecycleCompletionBody,
}

/// Identifying fields of the completion of a fetch event.
pub struct ServiceWorkerFetchCompletion<P: ServiceWorkerRuntimeTypes> {
    pub event_id: u64,
    pub version_id: ServiceWorkerVersionId,
    pub generation: u64,
    pub body: P::FetchCompletionBody,
}

/// Identifying fields of the start of a streamed fetch response body.
pub struct ServiceWorkerFetchStreamStarted<P: ServiceWorkerRuntimeTypes> {
    pub event_id: u64,
    pub version_id: ServiceWorkerVersionId,
    pub generation: u64,
    pub body_source_id: u64,
    pub body: P::FetchStreamStartedBody,
}

/// Identifying fields of one chunk of a streamed fetch response body.
pub struct ServiceWorkerFetchStreamChunk<P: ServiceWorkerRuntimeTypes> {
    pub event_id: u64,
    pub body_source_id: u64,
    pub bytes: Vec<u8>,
    pub body: P::FetchStreamChunkBody,
}

/// Identifying fields of the completion of a message event.
pub struct ServiceWorkerMessageCompletion<P: ServiceWorkerRuntimeTypes> {
    pub event_id: u64,
    pub version_id: ServiceWorkerVersionId,
    pub generation: u64,
    pub body: P::MessageCompletionBody,
}

/// Identifying fields of the completion of a notification event.
pub struct ServiceWorkerNotificationCompletion<P: ServiceWorkerRuntimeTypes> {
    pub event_id: u64,
    pub version_id: ServiceWorkerVersionId,
    pub generation: u64,
    pub body: P::NotificationCompletionBody,
}

/// Identifying fields of the completion of a push event.
pub struct ServiceWorkerPushCompletion<P: ServiceWorkerRuntimeTypes> {
    pub event_id: u64,
    pub version_id: ServiceWorkerVersionId,
    pub generation: u64,
    pub body: P::PushCompletionBody,
}

/// Identifying fields of the completion of a sync event.
pub struct ServiceWorkerSyncCompletion<P: ServiceWorkerRuntimeTypes> {
    pub event_id: u64,
    pub version_id: ServiceWorkerVersionId,
    pub generation: u64,
    pub tag: String,
    pub body: P::SyncCompletionBody,
}

/// Identifying fields of the completion of a periodic sync event.
pub struct ServiceWorkerPeriodicSyncCompletion<P: ServiceWorkerRuntimeTypes> {
    pub event_id: u64,
    pub version_id: ServiceWorkerVersionId,
    pub generation: u64,
    pub tag: String,
    pub body: P::PeriodicSyncCompletionBody,
}

/// Identifying fields of a `showNotification` request.
pub struct ServiceWorkerShowNotification<P: ServiceWorkerRuntimeTypes> {
    pub request_id: u64,
    pub registration_id: ServiceWorkerRegistrationId,
    pub version_id: ServiceWorkerVersionId,
    pub body: P::ShowNotificationBody,
}

/// Identifying fields of a `getNotifications` request.
pub struct ServiceWorkerGetNotifications<P: ServiceWorkerRuntimeTypes> {
    pub request_id: u64,
    pub registration_id: ServiceWorkerRegistrationId,
    pub version_id: ServiceWorkerVersionId,
    pub body: P::GetNotificationsBody,
}

/// Identifying fields of a sync registration request.
pub struct ServiceWorkerSyncRegistration<P: ServiceWorkerRuntimeTypes> {
    pub request_id: u64,
    pub registration_id: ServiceWorkerRegistrationId,
    pub version_id: ServiceWorkerVersionId,
    pub tag: String,
    pub body: P::SyncRegistrationBody,
}

/// Identifying fields of a sync `getTags` request.
pub struct ServiceWorkerSyncGetTags<P: ServiceWorkerRuntimeTypes> {
    pub request_id: u64,
    pub registration_id: ServiceWorkerRegistrationId,
    pub version_id: ServiceWorkerVersionId,
    pub body: P::SyncGetTagsBody,
}

/// Identifying fields of a periodic sync registration request.
pub struct ServiceWorkerPeriodicSyncRegistration<P: ServiceWorkerRuntimeTypes> {
    pub request_id: u64,
    pub registration_id: ServiceWorkerRegistrationId,
    pub version_id: ServiceWorkerVersionId,
    pub tag: String,
    pub body: P::PeriodicSyncRegistrationBody,
}

/// Identifying fields of a periodic sync `getTags` request.
pub struct ServiceWorkerPeriodicSyncGetTags<P: ServiceWorkerRuntimeTypes> {
    pub request_id: u64,
    pub registration_id: ServiceWorkerRegistrationId,
    pub version_id: ServiceWorkerVersionId,
    pub body: P::PeriodicSyncGetTagsBody,
}

/// Identifying fields of a periodic sync unregistration request.
pub struct ServiceWorkerPeriodicSyncUnregistration<P: ServiceWorkerRuntimeTypes> {
    pub request_id: u64,
    pub registration_id: ServiceWorkerRegistrationId,
    pub version_id: ServiceWorkerVersionId,
    pub tag: String,
    pub body: P::PeriodicSyncUnregistrationBody,
}

/// Identifying fields of a push `subscribe` request.
pub struct ServiceWorkerPushSubscribe<P: ServiceWorkerRuntimeTypes> {
    pub request_id: u64,
    pub registration_id: ServiceWorkerRegistrationId,
    pub version_id: ServiceWorkerVersionId,
    pub body: P::PushSubscribeBody,
}

/// Identifying fields of a push `getSubscription` request.
pub struct ServiceWorkerPushGetSubscription<P: ServiceWorkerRuntimeTypes> {
    pub request_id: u64,
    pub registration_id: ServiceWorkerRegistrationId,
    pub version_id: ServiceWorkerVersionId,
    pub body: P::PushGetSubscriptionBody,
}

/// Identifying fields of a push `unsubscribe` request.
pub struct ServiceWorkerPushUnsubscribe<P: ServiceWorkerRuntimeTypes> {
    pub request_id: u64,
    pub registration_id: ServiceWorkerRegistrationId,
    pub version_id: ServiceWorkerVersionId,
    pub body: P::PushUnsubscribeBody,
}

/// Identifying fields of a request to close a shown notification.
pub struct ServiceWorkerCloseNotification<P: ServiceWorkerRuntimeTypes> {
    pub registration_id: ServiceWorkerRegistrationId,
    pub version_id: ServiceWorkerVersionId,
    pub notification_id: String,
    pub body: P::CloseNotificationBody,
}

/// Identifying fields of a message from a service worker to a client.
pub struct ServiceWorkerClientMessage<P: ServiceWorkerRuntimeTypes> {
    pub source_version_id: ServiceWorkerVersionId,
    pub target_client_id: String,
    pub body: P::ClientMessageBody,
}

/// Identifying fields of a message from one service worker to another.
pub struct ServiceWorkerWorkerMessage<P: ServiceWorkerRuntimeTypes> {
    pub source_version_id: ServiceWorkerVersionId,
    pub target_version_id: ServiceWorkerVersionId,
    pub body: P::WorkerMessageBody,
}

/// Identifying fields of a `clients.matchAll` or `clients.get` query.
pub struct ServiceWorkerClientQuery<P: ServiceWorkerRuntimeTypes> {
    pub request_id: u64,
    pub registration_id: ServiceWorkerRegistrationId,
    pub version_id: ServiceWorkerVersionId,
    pub body: P::ClientQueryBody,
}

/// Identifying fields of a `client.navigate` request.
pub struct ServiceWorkerClientNavigate<P: ServiceWorkerRuntimeTypes> {
    pub request_id: u64,
    pub source_version_id: ServiceWorkerVersionId,
    pub target_client_id: String,
    pub body: P::ClientNavigateBody,
}

/// Identifying fields of the completion of a `client.navigate` request.
pub struct ServiceWorkerClientNavigateCompletion<P: ServiceWorkerRuntimeTypes> {
    pub request_id: u64,
    pub source_version_id: ServiceWorkerVersionId,
    pub body: P::ClientNavigateCompletionBody,
}

/// Identifying fields of a `client.focus` request.
pub struct ServiceWorkerClientFocus<P: ServiceWorkerRuntimeTypes> {
    pub request_id: u64,
    pub source_version_id: ServiceWorkerVersionId,
    pub target_client_id: String,
    pub body: P::ClientFocusBody,
}

/// Identifying fields of the completion of a `client.focus` request.
pub struct ServiceWorkerClientFocusCompletion<P: ServiceWorkerRuntimeTypes> {
    pub request_id: u64,
    pub source_version_id: ServiceWorkerVersionId,
    pub body: P::ClientFocusCompletionBody,
}

/// Identifying fields of a `clients.openWindow` request.
pub struct ServiceWorkerClientsOpenWindow<P: ServiceWorkerRuntimeTypes> {
    pub request_id: u64,
    pub source_version_id: ServiceWorkerVersionId,
    pub body: P::ClientsOpenWindowBody,
}

/// Identifying fields of the completion of a `clients.openWindow` request.
pub struct ServiceWorkerClientsOpenWindowCompletion<P: ServiceWorkerRuntimeTypes> {
    pub request_id: u64,
    pub source_version_id: ServiceWorkerVersionId,
    pub body: P::ClientsOpenWindowCompletionBody,
}

/// What a completion reports.
#[allow(inconsistent_fields)]
pub enum ServiceWorkerRuntimeCompletionKind<P: ServiceWorkerRuntimeTypes> {
    VersionStartCompleted { version_id: ServiceWorkerVersionId, generation: u64, final_script_url: String, script_resource: P::ScriptResource, fetch_handler_type: P::FetchHandlerType },
    VersionStartFailed { version_id: ServiceWorkerVersionId, generation: u64, failure: P::StartFailure },
    ImportedScriptLoaded { registration_id: ServiceWorkerRegistrationId, version_id: ServiceWorkerVersionId, generation: u64, resource: P::WorkerScriptResource },
    MainScriptUpdateCheckCompleted { registration_id: ServiceWorkerRegistrationId, result: Result<P::UpdateCheckOutput, P::UpdateCheckError> },
    LifecycleEventCompleted { completion: ServiceWorkerLifecycleCompletion<P> },
    FetchEventCompleted { completion: ServiceWorkerFetchCompletion<P> },
    FetchStreamStarted { started: ServiceWorkerFetchStreamStarted<P> },
    FetchStreamChunk { chunk: ServiceWorkerFetchStreamChunk<P> },
    MessageEventCompleted { completion: ServiceWorkerMessageCompletion<P> },
    NotificationEventCompleted { completion: ServiceWorkerNotificationCompletion<P> },
    PushEventCompleted { completion: ServiceWorkerPushCompletion<P> },
    SyncEventCompleted { completion: ServiceWorkerSyncCompletion<P> },
    PeriodicSyncEventCompleted { completion: ServiceWorkerPeriodicSyncCompletion<P> },
    ShowNotificationRequested { request: ServiceWorkerShowNotification<P>, generation: u64, source_host: P::SourceHost },
    GetNotificationsRequested { request: ServiceWorkerGetNotifications<P>, generation: u64, source_host: P::SourceHost },
    SyncRegistrationRequested { request: ServiceWorkerSyncRegistration<P>, generation: u64, source_host: P::SourceHost },
    SyncGetTagsRequested { request: ServiceWorkerSyncGetTags<P>, generation: u64, source_host: P::SourceHost },
    PeriodicSyncRegistrationRequested { request: ServiceWorkerPeriodicSyncRegistration<P>, generation: u64, source_host: P::SourceHost },
    PeriodicSyncGetTagsRequested { request: ServiceWorkerPeriodicSyncGetTags<P>, generation: u64, source_host: P::SourceHost },
    PeriodicSyncUnregistrationRequested { request: ServiceWorkerPeriodicSyncUnregistration<P>, generation: u64, source_host: P::SourceHost },
    PushSubscribeRequested { request: ServiceWorkerPushSubscribe<P>, generation: u64, source_host: P::SourceHost },
    PushGetSubscriptionRequested { request: ServiceWorkerPushGetSubscription<P>, generation: u64, source_host: P::SourceHost },
    PushUnsubscribeRequested { request: ServiceWorkerPushUnsubscribe<P>, generation: u64, source_host: P::SourceHost },
    CloseNotificationRequested { request: ServiceWorkerCloseNotification<P>, generation: u64 },
    ClientMessage { message: ServiceWorkerClientMessage<P> },
    WorkerMessage { message: ServiceWorkerWorkerMessage<P> },
    ClientQuery { query: ServiceWorkerClientQuery<P>, generation: u64 },
    ClientNavigate { navigate: ServiceWorkerClientNavigate<P>, generation: u64 },
    ClientNavigateCompleted { completion: ServiceWorkerClientNavigateCompletion<P> },
    ClientFocus { focus: ServiceWorkerClientFocus<P>, generation: u64 },
    ClientFocusCompleted { completion: ServiceWorkerClientFocusCompletion<P> },
    ClientsOpenWindow { open_window: ServiceWorkerClientsOpenWindow<P>, generation: u64 },
    ClientsOpenWindowCompleted { completion: ServiceWorkerClientsOpenWindowCompletion<P> },
    IdleTimeout { version_id: ServiceWorkerVersionId, generation: u64, idle_generation: u64 },
    SkipWaitingRequested { registration_id: ServiceWorkerRegistrationId, version_id: ServiceWorkerVersionId },
    ClientsClaimRequested { registration_id: ServiceWorkerRegistrationId, version_id: ServiceWorkerVersionId },
}

/// The finish step of the runtime service that a completion is routed to.
#[allow(inconsistent_fields)]
pub enum ServiceWorkerFinishRequest<P: ServiceWorkerRuntimeTypes> {
    WorkerStartCompleted { version_id: ServiceWorkerVersionId, generation: u64, final_script_url: String, script_resource: Option<P::ScriptResource>, fetch_handler_type: P::FetchHandlerType },
    WorkerStartFailed { version_id: ServiceWorkerVersionId, generation: u64, failure: P::StartFailure },
    ImportedScriptLoaded { registration_id: ServiceWorkerRegistrationId, version_id: ServiceWorkerVersionId, generation: u64, resource: P::WorkerScriptResource },
    MainScriptUpdateCheckCompleted { registration_id: ServiceWorkerRegistrationId, result: Result<P::UpdateCheckOutput, P::UpdateCheckError> },
    LifecycleEventCompleted { completion: ServiceWorkerLifecycleCompletion<P> },
    FetchEventCompleted { completion: ServiceWorkerFetchCompletion<P> },
    FetchStreamStarted { started: ServiceWorkerFetchStreamStarted<P> },
    FetchStreamChunk { chunk: ServiceWorkerFetchStreamChunk<P> },
    MessageEventCompleted { completion: ServiceWorkerMessageCompletion<P> },
    NotificationEventCompleted { completion: ServiceWorkerNotificationCompletion<P> },
    PushEventCompleted { completion: ServiceWorkerPushCompletion<P> },
    SyncEventCompleted { completion: ServiceWorkerSyncCompletion<P> },
    PeriodicSyncEventCompleted { completion: ServiceWorkerPeriodicSyncCompletion<P> },
    ShowNotificationRequested { request: ServiceWorkerShowNotification<P>, generation: u64, source_host: P::SourceHost },
    GetNotificationsRequested { request: ServiceWorkerGetNotifications<P>, generation: u64, source_host: P::SourceHost },
    SyncRegistrationRequested { request: ServiceWorkerSyncRegistration<P>, generation: u64, source_host: P::SourceHost },
    SyncGetTagsRequested { request: ServiceWorkerSyncGetTags<P>, generation: u64, source_host: P::SourceHost },
    PeriodicSyncRegistrationRequested { request: ServiceWorkerPeriodicSyncRegistration<P>, generation: u64, source_host: P::SourceHost },
    PeriodicSyncGetTagsRequested { request: ServiceWorkerPeriodicSyncGetTags<P>, generation: u64, source_host: P::SourceHost },
    PeriodicSyncUnregistrationRequested { request: ServiceWorkerPeriodicSyncUnregistration<P>, generation: u64, source_host: P::SourceHost },
    PushSubscribeRequested { request: ServiceWorkerPushSubscribe<P>, generation: u64, source_host: P::SourceHost },
    PushGetSubscriptionRequested { request: ServiceWorkerPushGetSubscription<P>, generation: u64, source_host: P::SourceHost },
    PushUnsubscribeRequested { request: ServiceWorkerPushUnsubscribe<P>, generation: u64, source_host: P::SourceHost },
    CloseNotificationRequested { request: ServiceWorkerCloseNotification<P>, generation: u64 },
    ClientMessage { message: ServiceWorkerClientMessage<P> },
    WorkerMessage { message: ServiceWorkerWorkerMessage<P> },
    ClientQueryRequested { query: ServiceWorkerClientQuery<P>, generation: u64 },
    ClientNavigateRequested { navigate: ServiceWorkerClientNavigate<P>, generation: u64 },
    ClientNavigateCompleted { completion: ServiceWorkerClientNavigateCompletion<P> },
    ClientFocusRequested { focus: ServiceWorkerClientFocus<P>, generation: u64 },
    ClientFocusCompleted { completion: ServiceWorkerClientFocusCompletion<P> },
    ClientsOpenWindowRequested { open_window: ServiceWorkerClientsOpenWindow<P>, generation: u64 },
    ClientsOpenWindowCompleted { completion: ServiceWorkerClientsOpenWindowCompletion<P> },
    WorkerIdleTimeout { version_id: ServiceWorkerVersionId, generation: u64, idle_generation: u64 },
    WorkerSkipWaitingRequested { registration_id: ServiceWorkerRegistrationId, version_id: ServiceWorkerVersionId },
    WorkerClientsClaimRequested { registration_id: ServiceWorkerRegistrationId, version_id: ServiceWorkerVersionId },
}

/// The finish step a completion of `kind` is routed to.
pub open spec fn finish_request_for<P: ServiceWorkerRuntimeTypes>(kind: ServiceWorkerRuntimeCompletionKind<P>) -> ServiceWorkerFinishRequest<P> {
    match kind {
        ServiceWorkerRuntimeCompletionKind::<P>::VersionStartCompleted { version_id, generation, final_script_url, script_resource, fetch_handler_type } => ServiceWorkerFinishRequest::<P>::WorkerStartCompleted { version_id, generation, final_script_url, script_resource: Some(script_resource), fetch_handler_type },
        ServiceWorkerRuntimeCompletionKind::<P>::VersionStartFailed { version_id, generation, failure } => ServiceWorkerFinishRequest::<P>::WorkerStartFailed { version_id, generation, failure },
        ServiceWorkerRuntimeCompletionKind::<P>::ImportedScriptLoaded { registration_id, version_id, generation, resource } => ServiceWorkerFinishRequest::<P>::ImportedScriptLoaded { registration_id, version_id, generation, resource },
        ServiceWorkerRuntimeCompletionKind::<P>::MainScriptUpdateCheckCompleted { registration_id, result } => ServiceWorkerFinishRequest::<P>::MainScriptUpdateCheckCompleted { registration_id, result },
        ServiceWorkerRuntimeCompletionKind::<P>::LifecycleEventCompleted { completion } => ServiceWorkerFinishRequest::<P>::LifecycleEventCompleted { completion },
        ServiceWorkerRuntimeCompletionKind::<P>::FetchEventCompleted { completion } => ServiceWorkerFinishRequest::<P>::FetchEventCompleted { completion },
        ServiceWorkerRuntimeCompletionKind::<P>::FetchStreamStarted { started } => ServiceWorkerFinishRequest::<P>::FetchStreamStarted { started },
        ServiceWorkerRuntimeCompletionKind::<P>::FetchStreamChunk { chunk } => ServiceWorkerFinishRequest::<P>::FetchStreamChunk { chunk },
        ServiceWorkerRuntimeCompletionKind::<P>::MessageEventCompleted { completion } => ServiceWorkerFinishRequest::<P>::MessageEventCompleted { completion },
        ServiceWorkerRuntimeCompletionKind::<P>::NotificationEventCompleted { completion } => ServiceWorkerFinishRequest::<P>::NotificationEventCompleted { completion },
        ServiceWorkerRuntimeCompletionKind::<P>::PushEventCompleted { completion } => ServiceWorkerFinishRequest::<P>::PushEventCompleted { completion },
        ServiceWorkerRuntimeCompletionKind::<P>::SyncEventCompleted { completion } => ServiceWorkerFinishRequest::<P>::SyncEventCompleted { completion },
        ServiceWorkerRuntimeCompletionKind::<P>::PeriodicSyncEventCompleted { completion } => ServiceWorkerFinishRequest::<P>::PeriodicSyncEventCompleted { completion },
        ServiceWorkerRuntimeCompletionKind::<P>::ShowNotificationRequested { request, generation, source_host } => ServiceWorkerFinishRequest::<P>::ShowNotificationRequested { request, generation, source_host },
        ServiceWorkerRuntimeCompletionKind::<P>::GetNotificationsRequested { request, generation, source_host } => ServiceWorkerFinishRequest::<P>::GetNotificationsRequested { request, generation, source_host },
        ServiceWorkerRuntimeCompletionKind::<P>::SyncRegistrationRequested { request, generation, source_host } => ServiceWorkerFinishRequest::<P>::SyncRegistrationRequested { request, generation, source_host },
        ServiceWorkerRuntimeCompletionKind::<P>::SyncGetTagsRequested { request, generation, source_host } => ServiceWorkerFinishRequest::<P>::SyncGetTagsRequested { request, generation, source_host },
        ServiceWorkerRuntimeCompletionKind::<P>::PeriodicSyncRegistrationRequested { request, generation, source_host } => ServiceWorkerFinishRequest::<P>::PeriodicSyncRegistrationRequested { request, generation, source_host },
        ServiceWorkerRuntimeCompletionKind::<P>::PeriodicSyncGetTagsRequested { request, generation, source_host } => ServiceWorkerFinishRequest::<P>::PeriodicSyncGetTagsRequested { request, generation, source_host },
        ServiceWorkerRuntimeCompletionKind::<P>::PeriodicSyncUnregistrationRequested { request, generation, source_host } => ServiceWorkerFinishRequest::<P>::PeriodicSyncUnregistrationRequested { request, generation, source_host },
        ServiceWorkerRuntimeCompletionKind::<P>::PushSubscribeRequested { request, generation, source_host } => ServiceWorkerFinishRequest::<P>::PushSubscribeRequested { request, generation, source_host },
        ServiceWorkerRuntimeCompletionKind::<P>::PushGetSubscriptionRequested { request, generation, source_host } => ServiceWorkerFinishRequest::<P>::PushGetSubscriptionRequested { request, generation, source_host },
        ServiceWorkerRuntimeCompletionKind::<P>::PushUnsubscribeRequested { request, generation, source_host } => ServiceWorkerFinishRequest::<P>::PushUnsubscribeRequested { request, generation, source_host },
        ServiceWorkerRuntimeCompletionKind::<P>::CloseNotificationRequested { request, generation } => ServiceWorkerFinishRequest::<P>::CloseNotificationRequested { request, generation },
        ServiceWorkerRuntimeCompletionKind::<P>::ClientMessage { message } => ServiceWorkerFinishRequest::<P>::ClientMessage { message },
        ServiceWorkerRuntimeCompletionKind::<P>::WorkerMessage { message } => ServiceWorkerFinishRequest::<P>::WorkerMessage { message },
        ServiceWorkerRuntimeCompletionKind::<P>::ClientQuery { query, generation } => ServiceWorkerFinishRequest::<P>::ClientQueryRequested { query, generation },
        ServiceWorkerRuntimeCompletionKind::<P>::ClientNavigate { navigate, generation } => ServiceWorkerFinishRequest::<P>::ClientNavigateRequested { navigate, generation },
        ServiceWorkerRuntimeCompletionKind::<P>::ClientNavigateCompleted { completion } => ServiceWorkerFinishRequest::<P>::ClientNavigateCompleted { completion },
        ServiceWorkerRuntimeCompletionKind::<P>::ClientFocus { focus, generation } => ServiceWorkerFinishRequest::<P>::ClientFocusRequested { focus, generation },
        ServiceWorkerRuntimeCompletionKind::<P>::ClientFocusCompleted { completion } => ServiceWorkerFinishRequest::<P>::ClientFocusCompleted { completion },
        ServiceWorkerRuntimeCompletionKind::<P>::ClientsOpenWindow { open_window, generation } => ServiceWorkerFinishRequest::<P>::ClientsOpenWindowRequested { open_window, generation },
        ServiceWorkerRuntimeCompletionKind::<P>::ClientsOpenWindowCompleted { completion } => ServiceWorkerFinishRequest::<P>::ClientsOpenWindowCompleted { completion },
        ServiceWorkerRuntimeCompletionKind::<P>::IdleTimeout { version_id, generation, idle_generation } => ServiceWorkerFinishRequest::<P>::WorkerIdleTimeout { version_id, generation, idle_generation },
        ServiceWorkerRuntimeCompletionKind::<P>::SkipWaitingRequested { registration_id, version_id } => ServiceWorkerFinishRequest::<P>::WorkerSkipWaitingRequested { registration_id, version_id },
        ServiceWorkerRuntimeCompletionKind::<P>::ClientsClaimRequested { registration_id, version_id } => ServiceWorkerFinishRequest::<P>::WorkerClientsClaimRequested { registration_id, version_id },
    }
}

/// One field value of a completion's diagnostic summary.
pub enum ServiceWorkerDebugValue {
    Number(u64),
    Size(usize),
    Flag(bool),
    Text(String),
    VersionId(ServiceWorkerVersionId),
    RegistrationId(ServiceWorkerRegistrationId),
    LifecycleKind(ServiceWorkerLifecycleEventKind),
}

/// The mathematical value of a [`ServiceWorkerDebugValue`].
pub enum ServiceWorkerDebugValueView {
    Number(int),
    Size(int),
    Flag(bool),
    Text(Seq<char>),
    VersionId(ServiceWorkerVersionId),
    RegistrationId(ServiceWorkerRegistrationId),
    LifecycleKind(ServiceWorkerLifecycleEventKind),
}

impl View for ServiceWorkerDebugValue {
    type V = ServiceWorkerDebugValueView;

    open spec fn view(&self) -> ServiceWorkerDebugValueView {
        match self {
            ServiceWorkerDebugValue::Number(n) => ServiceWorkerDebugValueView::Number(*n as int),
            ServiceWorkerDebugValue::Size(n) => ServiceWorkerDebugValueView::Size(*n as int),
            ServiceWorkerDebugValue::Flag(b) => ServiceWorkerDebugValueView::Flag(*b),
            ServiceWorkerDebugValue::Text(s) => ServiceWorkerDebugValueView::Text(s@),
            ServiceWorkerDebugValue::VersionId(id) => ServiceWorkerDebugValueView::VersionId(*id),
            ServiceWorkerDebugValue::RegistrationId(id) => ServiceWorkerDebugValueView::RegistrationId(*id),
            ServiceWorkerDebugValue::LifecycleKind(k) => ServiceWorkerDebugValueView::LifecycleKind(*k),
        }
    }
}

/// The diagnostic summary of a completion: a name, the identifying fields,
/// and whether the fields are all the completion holds.
pub struct ServiceWorkerRuntimeCompletionSummary {
    pub name: String,
    pub fields: Vec<(String, ServiceWorkerDebugValue)>,
    pub exhaustive: bool,
}

/// The mathematical value of a summary's fields.
pub open spec fn summary_fields_view(fields: Seq<(String, ServiceWorkerDebugValue)>) -> Seq<(Seq<char>, ServiceWorkerDebugValueView)> {
    fields.map_values(|f: (String, ServiceWorkerDebugValue)| (f.0@, f.1@))
}

/// The `Debug` text of a string: quoted, with its characters escaped as
/// `str::escape_debug` escapes them.
pub uninterp spec fn debug_quoted_text(s: Seq<char>) -> Seq<char>;

/// The `Debug` text of `s`; calls `format!("{:?}", s)`, whose text depends
/// on `s` alone.
#[verifier::external_body]
fn debug_quoted(s: &str) -> (text: String)
    ensures
        text@ == debug_quoted_text(s@),
{
    format!("{:?}", s)
}

/// The `Debug` text of a diagnostic value.
pub open spec fn debug_value_text(value: ServiceWorkerDebugValueView) -> Seq<char> {
    match value {
        ServiceWorkerDebugValueView::Number(n) => decimal_digits(n as nat),
        ServiceWorkerDebugValueView::Size(n) => decimal_digits(n as nat),
        ServiceWorkerDebugValueView::Flag(b) => if b {
            "true"@
        } else {
            "false"@
        },
        ServiceWorkerDebugValueView::Text(t) => debug_quoted_text(t),
        ServiceWorkerDebugValueView::VersionId(id) => "ServiceWorkerVersionId("@ + decimal_digits(id.0 as nat) + ")"@,
        ServiceWorkerDebugValueView::RegistrationId(id) => "ServiceWorkerRegistrationId("@ + decimal_digits(
            id.0 as nat,
        ) + ")"@,
        ServiceWorkerDebugValueView::LifecycleKind(kind) => match kind {
            ServiceWorkerLifecycleEventKind::Install => "Install"@,
            ServiceWorkerLifecycleEventKind::Activate => "Activate"@,
        },
    }
}

/// The fields of a `Debug` struct text, `name: value` separated by `, `.
pub open spec fn debug_fields_text(fields: Seq<(Seq<char>, Seq<char>)>) -> Seq<char>
    decreases fields.len(),
{
    if fields.len() == 0 {
        Seq::empty()
    } else {
        let front = fields.drop_last();
        debug_fields_text(front) + (if front.len() == 0 {
            Seq::<char>::empty()
        } else {
            ", "@
        }) + fields.last().0 + ": "@ + fields.last().1
    }
}

/// The `Debug` text of a struct `name` with the rendered `fields`: `name {
/// a: 1, b: 2 }`, and `, .. }` in place of ` }` where it is not exhaustive;
/// without fields, `name` or `name { .. }`.
pub open spec fn debug_struct_text(name: Seq<char>, fields: Seq<(Seq<char>, Seq<char>)>, exhaustive: bool) -> Seq<char> {
    if fields.len() == 0 {
        if exhaustive {
            name
        } else {
            name + " { .. }"@
        }
    } else {
        name + " { "@ + debug_fields_text(fields) + if exhaustive {
            " }"@
        } else {
            ", .. }"@
        }
    }
}

/// The `Debug` text of a diagnostic value.
pub fn render_debug_value(value: &ServiceWorkerDebugValue) -> (text: String)
    ensures
        text@ == debug_value_text(value@),
{
    match value {
        ServiceWorkerDebugValue::Number(n) => decimal_text(*n),
        ServiceWorkerDebugValue::Size(n) => decimal_text(*n as u64),
        ServiceWorkerDebugValue::Flag(b) => if *b {
            "true".to_owned()
        } else {
            "false".to_owned()
        },
        ServiceWorkerDebugValue::Text(t) => debug_quoted(t.as_str()),
        ServiceWorkerDebugValue::VersionId(id) => {
            let mut text = "ServiceWorkerVersionId(".to_owned();
            let digits = decimal_text(id.0);
            text.append(digits.as_str());
            text.append(")");
            text
        },
        ServiceWorkerDebugValue::RegistrationId(id) => {
            let mut text = "ServiceWorkerRegistrationId(".to_owned();
            let digits = decimal_text(id.0);
            text.append(digits.as_str());
            text.append(")");
            text
        },
        ServiceWorkerDebugValue::LifecycleKind(kind) => match kind {
            ServiceWorkerLifecycleEventKind::Install => "Install".to_owned(),
            ServiceWorkerLifecycleEventKind::Activate => "Activate".to_owned(),
        },
    }
}

/// The `Debug` text of a struct `name` whose fields are already rendered.
pub fn render_debug_struct(name: &str, fields: &Vec<(String, String)>, exhaustive: bool) -> (text: String)
    ensures
        text@ == debug_struct_text(
            name@,
            fields@.map_values(|f: (String, String)| (f.0@, f.1@)),
            exhaustive,
        ),
{
    let ghost fv = fields@.map_values(|f: (String, String)| (f.0@, f.1@));
    let mut text = name.to_owned();
    if fields.len() == 0 {
        if !exhaustive {
            text.append(" { .. }");
        }
        return text;
    }
    text.append(" { ");
    let mut i: usize = 0;
    while i < fields.len()
        invariant
            i <= fields@.len(),
            fv == fields@.map_values(|f: (String, String)| (f.0@, f.1@)),
            text@ == name@ + " { "@ + debug_fields_text(fv.subrange(0, i as int)),
        decreases fields@.len() - i,
    {
        let ghost before = text@;
        if i > 0 {
            text.append(", ");
        }
        text.append(fields[i].0.as_str());
        text.append(": ");
        text.append(fields[i].1.as_str());
        proof {
            let next = fv.subrange(0, i + 1);
            assert(next.drop_last() =~= fv.subrange(0, i as int));
            assert(next.last() == (fields@[i as int].0@, fields@[i as int].1@));
            if i > 0 {
                assert(text@ =~= before + ", "@ + fields@[i as int].0@ + ": "@ + fields@[i as int].1@);
            } else {
                assert(text@ =~= before + fields@[i as int].0@ + ": "@ + fields@[i as int].1@);
            }
            assert(text@ =~= name@ + " { "@ + debug_fields_text(next));
        }
        i = i + 1;
    }
    assert(fv.subrange(0, i as int) =~= fv);
    if exhaustive {
        text.append(" }");
    } else {
        text.append(", .. }");
    }
    text
}

/// The `Debug` text of a summary: its name, and each field with its value's
/// `Debug` text.
pub fn render_summary(summary: &ServiceWorkerRuntimeCompletionSummary) -> (text: String)
    ensures
        text@ == debug_struct_text(
            summary.name@,
            summary_fields_view(summary.fields@).map_values(
                |f: (Seq<char>, ServiceWorkerDebugValueView)| (f.0, debug_value_text(f.1)),
            ),
            summary.exhaustive,
        ),
{
    let mut rendered: Vec<(String, String)> = Vec::new();
    let mut i: usize = 0;
    while i < summary.fields.len()
        invariant
            i <= summary.fields@.len(),
            rendered@.len() == i,
            forall|j: int| 0 <= j < i ==> (#[trigger] rendered@[j]).0@ == summary.fields@[j].0@ && rendered@[j].1@
                == debug_value_text(summary.fields@[j].1@),
        decreases summary.fields@.len() - i,
    {
        let name = summary.fields[i].0.clone();
        let value = render_debug_value(&summary.fields[i].1);
        rendered.push((name, value));
        i = i + 1;
    }
    let text = render_debug_struct(summary.name.as_str(), &rendered, summary.exhaustive);
    assert(rendered@.map_values(|f: (String, String)| (f.0@, f.1@)) =~= summary_fields_view(summary.fields@).map_values(
        |f: (Seq<char>, ServiceWorkerDebugValueView)| (f.0, debug_value_text(f.1)),
    ));
    text
}

/// The diagnostic summary of a completion of `kind`.
pub open spec fn summary_of<P: ServiceWorkerRuntimeTypes>(kind: ServiceWorkerRuntimeCompletionKind<P>) -> (Seq<char>, Seq<(Seq<char>, ServiceWorkerDebugValueView)>, bool) {
    match kind {
        ServiceWorkerRuntimeCompletionKind::<P>::VersionStartCompleted { version_id, generation, final_script_url, script_resource, fetch_handler_type } => ("ServiceWorkerRuntimeCompletion::VersionStartCompleted"@, seq![("version_id"@, ServiceWorkerDebugValueView::VersionId(version_id)), ("generation"@, ServiceWorkerDebugValueView::Number(generation as int))], false),
        ServiceWorkerRuntimeCompletionKind::<P>::VersionStartFailed { version_id, generation, failure } => ("ServiceWorkerRuntimeCompletion::VersionStartFailed"@, seq![("version_id"@, ServiceWorkerDebugValueView::VersionId(version_id)), ("generation"@, ServiceWorkerDebugValueView::Number(generation as int))], false),
        ServiceWorkerRuntimeCompletionKind::<P>::ImportedScriptLoaded { registration_id, version_id, generation, resource } => ("ServiceWorkerRuntimeCompletion::ImportedScriptLoaded"@, seq![("registration_id"@, ServiceWorkerDebugValueView::RegistrationId(registration_id)), ("version_id"@, ServiceWorkerDebugValueView::VersionId(version_id)), ("generation"@, ServiceWorkerDebugValueView::Number(generation as int))], false),
        ServiceWorkerRuntimeCompletionKind::<P>::MainScriptUpdateCheckCompleted { registration_id, result } => ("ServiceWorkerRuntimeCompletion::MainScriptUpdateCheckCompleted"@, seq![("registration_id"@, ServiceWorkerDebugValueView::RegistrationId(registration_id)), ("result_is_ok"@, ServiceWorkerDebugValueView::Flag(result is Ok))], false),
        ServiceWorkerRuntimeCompletionKind::<P>::LifecycleEventCompleted { completion } => ("ServiceWorkerRuntimeCompletion::LifecycleEventCompleted"@, seq![("event_id"@, ServiceWorkerDebugValueView::Number(completion.event_id as int)), ("version_id"@, ServiceWorkerDebugValueView::VersionId(completion.version_id)), ("generation"@, ServiceWorkerDebugValueView::Number(completion.generation as int)), ("kind"@, ServiceWorkerDebugValueView::LifecycleKind(completion.kind))], false),
        ServiceWorkerRuntimeCompletionKind::<P>::FetchEventCompleted { completion } => ("ServiceWorkerRuntimeCompletion::FetchEventCompleted"@, seq![("event_id"@, ServiceWorkerDebugValueView::Number(completion.event_id as int)), ("version_id"@, ServiceWorkerDebugValueView::VersionId(completion.version_id)), ("generation"@, ServiceWorkerDebugValueView::Number(completion.generation as int))], false),
        ServiceWorkerRuntimeCompletionKind::<P>::FetchStreamStarted { started } => ("ServiceWorkerRuntimeCompletion::FetchStreamStarted"@, seq![("event_id"@, ServiceWorkerDebugValueView::Number(started.event_id as int)), ("version_id"@, ServiceWorkerDebugValueView::VersionId(started.version_id)), ("generation"@, ServiceWorkerDebugValueView::Number(started.generation as int)), ("body_source_id"@, ServiceWorkerDebugValueView::Number(started.body_source_id as int))], false),
        ServiceWorkerRuntimeCompletionKind::<P>::FetchStreamChunk { chunk } => ("ServiceWorkerRuntimeCompletion::FetchStreamChunk"@, seq![("event_id"@, ServiceWorkerDebugValueView::Number(chunk.event_id as int)), ("body_source_id"@, ServiceWorkerDebugValueView::Number(chunk.body_source_id as int)), ("bytes_len"@, ServiceWorkerDebugValueView::Size(chunk.bytes@.len() as int))], false),
        ServiceWorkerRuntimeCompletionKind::<P>::MessageEventCompleted { completion } => ("ServiceWorkerRuntimeCompletion::MessageEventCompleted"@, seq![("event_id"@, ServiceWorkerDebugValueView::Number(completion.event_id as int)), ("version_id"@, ServiceWorkerDebugValueView::VersionId(completion.version_id)), ("generation"@, ServiceWorkerDebugValueView::Number(completion.generation as int))], false),
        ServiceWorkerRuntimeCompletionKind::<P>::NotificationEventCompleted { completion } => ("ServiceWorkerRuntimeCompletion::NotificationEventCompleted"@, seq![("event_id"@, ServiceWorkerDebugValueView::Number(completion.event_id as int)), ("version_id"@, ServiceWorkerDebugValueView::VersionId(completion.version_id)), ("generation"@, ServiceWorkerDebugValueView::Number(completion.generation as int))], false),
        ServiceWorkerRuntimeCompletionKind::<P>::PushEventCompleted { completion } => ("ServiceWorkerRuntimeCompletion::PushEventCompleted"@, seq![("event_id"@, ServiceWorkerDebugValueView::Number(completion.event_id as int)), ("version_id"@, ServiceWorkerDebugValueView::VersionId(completion.version_id)), ("generation"@, ServiceWorkerDebugValueView::Number(completion.generation as int))], false),
        ServiceWorkerRuntimeCompletionKind::<P>::SyncEventCompleted { completion } => ("ServiceWorkerRuntimeCompletion::SyncEventCompleted"@, seq![("event_id"@, ServiceWorkerDebugValueView::Number(completion.event_id as int)), ("version_id"@, ServiceWorkerDebugValueView::VersionId(completion.version_id)), ("generation"@, ServiceWorkerDebugValueView::Number(completion.generation as int)), ("tag"@, ServiceWorkerDebugValueView::Text(completion.tag@))], false),
        ServiceWorkerRuntimeCompletionKind::<P>::PeriodicSyncEventCompleted { completion } => ("ServiceWorkerRuntimeCompletion::PeriodicSyncEventCompleted"@, seq![("event_id"@, ServiceWorkerDebugValueView::Number(completion.event_id as int)), ("version_id"@, ServiceWorkerDebugValueView::VersionId(completion.version_id)), ("generation"@, ServiceWorkerDebugValueView::Number(completion.generation as int)), ("tag"@, ServiceWorkerDebugValueView::Text(completion.tag@))], false),
        ServiceWorkerRuntimeCompletionKind::<P>::ShowNotificationRequested { request, generation, source_host } => ("ServiceWorkerRuntimeCompletion::ShowNotificationRequested"@, seq![("request_id"@, ServiceWorkerDebugValueView::Number(request.request_id as int)), ("registration_id"@, ServiceWorkerDebugValueView::RegistrationId(request.registration_id)), ("version_id"@, ServiceWorkerDebugValueView::VersionId(request.version_id)), ("generation"@, ServiceWorkerDebugValueView::Number(generation as int))], false),
        ServiceWorkerRuntimeCompletionKind::<P>::GetNotificationsRequested { request, generation, source_host } => ("ServiceWorkerRuntimeCompletion::GetNotificationsRequested"@, seq![("request_id"@, ServiceWorkerDebugValueView::Number(request.request_id as int)), ("registration_id"@, ServiceWorkerDebugValueView::RegistrationId(request.registration_id)), ("version_id"@, ServiceWorkerDebugValueView::VersionId(request.version_id)), ("generation"@, ServiceWorkerDebugValueView::Number(generation as int))], false),
        ServiceWorkerRuntimeCompletionKind::<P>::SyncRegistrationRequested { request, generation, source_host } => ("ServiceWorkerRuntimeCompletion::SyncRegistrationRequested"@, seq![("request_id"@, ServiceWorkerDebugValueView::Number(request.request_id as int)), ("registration_id"@, ServiceWorkerDebugValueView::RegistrationId(request.registration_id)), ("version_id"@, ServiceWorkerDebugValueView::VersionId(request.version_id)), ("generation"@, ServiceWorkerDebugValueView::Number(generation as int)), ("tag"@, ServiceWorkerDebugValueView::Text(request.tag@))], false),
        ServiceWorkerRuntimeCompletionKind::<P>::SyncGetTagsRequested { request, generation, source_host } => ("ServiceWorkerRuntimeCompletion::SyncGetTagsRequested"@, seq![("request_id"@, ServiceWorkerDebugValueView::Number(request.request_id as int)), ("registration_id"@, ServiceWorkerDebugValueView::RegistrationId(request.registration_id)), ("version_id"@, ServiceWorkerDebugValueView::VersionId(request.version_id)), ("generation"@, ServiceWorkerDebugValueView::Number(generation as int))], false),
        ServiceWorkerRuntimeCompletionKind::<P>::PeriodicSyncRegistrationRequested { request, generation, source_host } => ("ServiceWorkerRuntimeCompletion::PeriodicSyncRegistrationRequested"@, seq![("request_id"@, ServiceWorkerDebugValueView::Number(request.request_id as int)), ("registration_id"@, ServiceWorkerDebugValueView::RegistrationId(request.registration_id)), ("version_id"@, ServiceWorkerDebugValueView::VersionId(request.version_id)), ("generation"@, ServiceWorkerDebugValueView::Number(generation as int)), ("tag"@, ServiceWorkerDebugValueView::Text(request.tag@))], false),
        ServiceWorkerRuntimeCompletionKind::<P>::PeriodicSyncGetTagsRequested { request, generation, source_host } => ("ServiceWorkerRuntimeCompletion::PeriodicSyncGetTagsRequested"@, seq![("request_id"@, ServiceWorkerDebugValueView::Number(request.request_id as int)), ("registration_id"@, ServiceWorkerDebugValueView::RegistrationId(request.registration_id)), ("version_id"@, ServiceWorkerDebugValueView::VersionId(request.version_id)), ("generation"@, ServiceWorkerDebugValueView::Number(generation as int))], false),
        ServiceWorkerRuntimeCompletionKind::<P>::PeriodicSyncUnregistrationRequested { request, generation, source_host } => ("ServiceWorkerRuntimeCompletion::PeriodicSyncUnregistrationRequested"@, seq![("request_id"@, ServiceWorkerDebugValueView::Number(request.request_id as int)), ("registration_id"@, ServiceWorkerDebugValueView::RegistrationId(request.registration_id)), ("version_id"@, ServiceWorkerDebugValueView::VersionId(request.version_id)), ("generation"@, ServiceWorkerDebugValueView::Number(generation as int)), ("tag"@, ServiceWorkerDebugValueView::Text(request.tag@))], false),
        ServiceWorkerRuntimeCompletionKind::<P>::PushSubscribeRequested { request, generation, source_host } => ("ServiceWorkerRuntimeCompletion::PushSubscribeRequested"@, seq![("request_id"@, ServiceWorkerDebugValueView::Number(request.request_id as int)), ("registration_id"@, ServiceWorkerDebugValueView::RegistrationId(request.registration_id)), ("version_id"@, ServiceWorkerDebugValueView::VersionId(request.version_id)), ("generation"@, ServiceWorkerDebugValueView::Number(generation as int))], false),
        ServiceWorkerRuntimeCompletionKind::<P>::PushGetSubscriptionRequested { request, generation, source_host } => ("ServiceWorkerRuntimeCompletion::PushGetSubscriptionRequested"@, seq![("request_id"@, ServiceWorkerDebugValueView::Number(request.request_id as int)), ("registration_id"@, ServiceWorkerDebugValueView::RegistrationId(request.registration_id)), ("version_id"@, ServiceWorkerDebugValueView::VersionId(request.version_id)), ("generation"@, ServiceWorkerDebugValueView::Number(generation as int))], false),
        ServiceWorkerRuntimeCompletionKind::<P>::PushUnsubscribeRequested { request, generation, source_host } => ("ServiceWorkerRuntimeCompletion::PushUnsubscribeRequested"@, seq![("request_id"@, ServiceWorkerDebugValueView::Number(request.request_id as int)), ("registration_id"@, ServiceWorkerDebugValueView::RegistrationId(request.registration_id)), ("version_id"@, ServiceWorkerDebugValueView::VersionId(request.version_id)), ("generation"@, ServiceWorkerDebugValueView::Number(generation as int))], false),
        ServiceWorkerRuntimeCompletionKind::<P>::CloseNotificationRequested { request, generation } => ("ServiceWorkerRuntimeCompletion::CloseNotificationRequested"@, seq![("registration_id"@, ServiceWorkerDebugValueView::RegistrationId(request.registration_id)), ("version_id"@, ServiceWorkerDebugValueView::VersionId(request.version_id)), ("notification_id"@, ServiceWorkerDebugValueView::Text(request.notification_id@)), ("generation"@, ServiceWorkerDebugValueView::Number(generation as int))], false),
        ServiceWorkerRuntimeCompletionKind::<P>::ClientMessage { message } => ("ServiceWorkerRuntimeCompletion::ClientMessage"@, seq![("source_version_id"@, ServiceWorkerDebugValueView::VersionId(message.source_version_id)), ("target_client_id"@, ServiceWorkerDebugValueView::Text(message.target_client_id@))], false),
        ServiceWorkerRuntimeCompletionKind::<P>::WorkerMessage { message } => ("ServiceWorkerRuntimeCompletion::WorkerMessage"@, seq![("source_version_id"@, ServiceWorkerDebugValueView::VersionId(message.source_version_id)), ("target_version_id"@, ServiceWorkerDebugValueView::VersionId(message.target_version_id))], false),
        ServiceWorkerRuntimeCompletionKind::<P>::ClientQuery { query, generation } => ("ServiceWorkerRuntimeCompletion::ClientQuery"@, seq![("request_id"@, ServiceWorkerDebugValueView::Number(query.request_id as int)), ("registration_id"@, ServiceWorkerDebugValueView::RegistrationId(query.registration_id)), ("version_id"@, ServiceWorkerDebugValueView::VersionId(query.version_id)), ("generation"@, ServiceWorkerDebugValueView::Number(generation as int))], false),
        ServiceWorkerRuntimeCompletionKind::<P>::ClientNavigate { navigate, generation } => ("ServiceWorkerRuntimeCompletion::ClientNavigate"@, seq![("request_id"@, ServiceWorkerDebugValueView::Number(navigate.request_id as int)), ("source_version_id"@, ServiceWorkerDebugValueView::VersionId(navigate.source_version_id)), ("generation"@, ServiceWorkerDebugValueView::Number(generation as int)), ("target_client_id"@, ServiceWorkerDebugValueView::Text(navigate.target_client_id@))], false),
        ServiceWorkerRuntimeCompletionKind::<P>::ClientNavigateCompleted { completion } => ("ServiceWorkerRuntimeCompletion::ClientNavigateCompleted"@, seq![("request_id"@, ServiceWorkerDebugValueView::Number(completion.request_id as int)), ("source_version_id"@, ServiceWorkerDebugValueView::VersionId(completion.source_version_id))], false),
        ServiceWorkerRuntimeCompletionKind::<P>::ClientFocus { focus, generation } => ("ServiceWorkerRuntimeCompletion::ClientFocus"@, seq![("request_id"@, ServiceWorkerDebugValueView::Number(focus.request_id as int)), ("source_version_id"@, ServiceWorkerDebugValueView::VersionId(focus.source_version_id)), ("generation"@, ServiceWorkerDebugValueView::Number(generation as int)), ("target_client_id"@, ServiceWorkerDebugValueView::Text(focus.target_client_id@))], false),
        ServiceWorkerRuntimeCompletionKind::<P>::ClientFocusCompleted { completion } => ("ServiceWorkerRuntimeCompletion::ClientFocusCompleted"@, seq![("request_id"@, ServiceWorkerDebugValueView::Number(completion.request_id as int)), ("source_version_id"@, ServiceWorkerDebugValueView::VersionId(completion.source_version_id))], false),
        ServiceWorkerRuntimeCompletionKind::<P>::ClientsOpenWindow { open_window, generation } => ("ServiceWorkerRuntimeCompletion::ClientsOpenWindow"@, seq![("request_id"@, ServiceWorkerDebugValueView::Number(open_window.request_id as int)), ("source_version_id"@, ServiceWorkerDebugValueView::VersionId(open_window.source_version_id)), ("generation"@, ServiceWorkerDebugValueView::Number(generation as int))], false),
        ServiceWorkerRuntimeCompletionKind::<P>::ClientsOpenWindowCompleted { completion } => ("ServiceWorkerRuntimeCompletion::ClientsOpenWindowCompleted"@, seq![("request_id"@, ServiceWorkerDebugValueView::Number(completion.request_id as int)), ("source_version_id"@, ServiceWorkerDebugValueView::VersionId(completion.source_version_id))], false),
        ServiceWorkerRuntimeCompletionKind::<P>::IdleTimeout { version_id, generation, idle_generation } => ("ServiceWorkerRuntimeCompletion::IdleTimeout"@, seq![("version_id"@, ServiceWorkerDebugValueView::VersionId(version_id)), ("generation"@, ServiceWorkerDebugValueView::Number(generation as int)), ("idle_generation"@, ServiceWorkerDebugValueView::Number(idle_generation as int))], true),
        ServiceWorkerRuntimeCompletionKind::<P>::SkipWaitingRequested { registration_id, version_id } => ("ServiceWorkerRuntimeCompletion::SkipWaitingRequested"@, seq![("registration_id"@, ServiceWorkerDebugValueView::RegistrationId(registration_id)), ("version_id"@, ServiceWorkerDebugValueView::VersionId(version_id))], true),
        ServiceWorkerRuntimeCompletionKind::<P>::ClientsClaimRequested { registration_id, version_id } => ("ServiceWorkerRuntimeCompletion::ClientsClaimRequested"@, seq![("registration_id"@, ServiceWorkerDebugValueView::RegistrationId(registration_id)), ("version_id"@, ServiceWorkerDebugValueView::VersionId(version_id))], true),
    }
}

/// A completion on the service lane: what it reports, and the weak handle
/// of the service it reports to.
pub struct ServiceWorkerRuntimeCompletion<P: ServiceWorkerRuntimeTypes> {
    pub runtime_service: P::WeakService,
    pub kind: ServiceWorkerRuntimeCompletionKind<P>,
}

impl<P: ServiceWorkerRuntimeTypes> ServiceWorkerRuntimeCompletion<P> {
    /// A completion reporting `VersionStartCompleted` to `runtime_service`.
    pub fn version_start_completed(runtime_service: P::WeakService, version_id: ServiceWorkerVersionId, generation: u64, final_script_url: String, script_resource: P::ScriptResource, fetch_handler_type: P::FetchHandlerType) -> (created: Self)
        ensures
            created.runtime_service == runtime_service,
            created.kind == (ServiceWorkerRuntimeCompletionKind::<P>::VersionStartCompleted { version_id, generation, final_script_url, script_resource, fetch_handler_type }),
    {
        ServiceWorkerRuntimeCompletion {
            runtime_service,
            kind: ServiceWorkerRuntimeCompletionKind::<P>::VersionStartCompleted { version_id, generation, final_script_url, script_resource, fetch_handler_type },
        }
    }

    /// A completion reporting `VersionStartFailed` to `runtime_service`.
    pub fn version_start_failed(runtime_service: P::WeakService, version_id: ServiceWorkerVersionId, generation: u64, failure: P::StartFailure) -> (created: Self)
        ensures
            created.runtime_service == runtime_service,
            created.kind == (ServiceWorkerRuntimeCompletionKind::<P>::VersionStartFailed { version_id, generation, failure }),
    {
        ServiceWorkerRuntimeCompletion {
            runtime_service,
            kind: ServiceWorkerRuntimeCompletionKind::<P>::VersionStartFailed { version_id, generation, failure },
        }
    }

    /// A completion reporting `ImportedScriptLoaded` to `runtime_service`.
    pub fn imported_script_loaded(runtime_service: P::WeakService, registration_id: ServiceWorkerRegistrationId, version_id: ServiceWorkerVersionId, generation: u64, resource: P::WorkerScriptResource) -> (created: Self)
        ensures
            created.runtime_service == runtime_service,
            created.kind == (ServiceWorkerRuntimeCompletionKind::<P>::ImportedScriptLoaded { registration_id, version_id, generation, resource }),
    {
        ServiceWorkerRuntimeCompletion {
            runtime_service,
            kind: ServiceWorkerRuntimeCompletionKind::<P>::ImportedScriptLoaded { registration_id, version_id, generation, resource },
        }
    }

    /// A completion reporting `MainScriptUpdateCheckCompleted` to `runtime_service`.
    pub fn main_script_update_check_completed(runtime_service: P::WeakService, registration_id: ServiceWorkerRegistrationId, result: Result<P::UpdateCheckOutput, P::UpdateCheckError>) -> (created: Self)
        ensures
            created.runtime_service == runtime_service,
            created.kind == (ServiceWorkerRuntimeCompletionKind::<P>::MainScriptUpdateCheckCompleted { registration_id, result }),
    {
        ServiceWorkerRuntimeCompletion {
            runtime_service,
            kind: ServiceWorkerRuntimeCompletionKind::<P>::MainScriptUpdateCheckCompleted { registration_id, result },
        }
    }

    /// A completion reporting `LifecycleEventCompleted` to `runtime_service`.
    pub fn lifecycle_event_completed(runtime_service: P::WeakService, completion: ServiceWorkerLifecycleCompletion<P>) -> (created: Self)
        ensures
            created.runtime_service == runtime_service,
            created.kind == (ServiceWorkerRuntimeCompletionKind::<P>::LifecycleEventCompleted { completion }),
    {
        ServiceWorkerRuntimeCompletion {
            runtime_service,
            kind: ServiceWorkerRuntimeCompletionKind::<P>::LifecycleEventCompleted { completion },
        }
    }

    /// A completion reporting `FetchEventCompleted` to `runtime_service`.
    pub fn fetch_event_completed(runtime_service: P::WeakService, completion: ServiceWorkerFetchCompletion<P>) -> (created: Self)
        ensures
            created.runtime_service == runtime_service,
            created.kind == (ServiceWorkerRuntimeCompletionKind::<P>::FetchEventCompleted { completion }),
    {
        ServiceWorkerRuntimeCompletion {
            runtime_service,
            kind: ServiceWorkerRuntimeCompletionKind::<P>::FetchEventCompleted { completion },
        }
    }

    /// A completion reporting `FetchStreamStarted` to `runtime_service`.
    pub fn fetch_stream_started(runtime_service: P::WeakService, started: ServiceWorkerFetchStreamStarted<P>) -> (created: Self)
        ensures
            created.runtime_service == runtime_service,
            created.kind == (ServiceWorkerRuntimeCompletionKind::<P>::FetchStreamStarted { started }),
    {
        ServiceWorkerRuntimeCompletion {
            runtime_service,
            kind: ServiceWorkerRuntimeCompletionKind::<P>::FetchStreamStarted { started },
        }
    }

    /// A completion reporting `FetchStreamChunk` to `runtime_service`.
    pub fn fetch_stream_chunk(runtime_service: P::WeakService, chunk: ServiceWorkerFetchStreamChunk<P>) -> (created: Self)
        ensures
            created.runtime_service == runtime_service,
            created.kind == (ServiceWorkerRuntimeCompletionKind::<P>::FetchStreamChunk { chunk }),
    {
        ServiceWorkerRuntimeCompletion {
            runtime_service,
            kind: ServiceWorkerRuntimeCompletionKind::<P>::FetchStreamChunk { chunk },
        }
    }

    /// A completion reporting `MessageEventCompleted` to `runtime_service`.
    pub fn message_event_completed(runtime_service: P::WeakService, completion: ServiceWorkerMessageCompletion<P>) -> (created: Self)
        ensures
            created.runtime_service == runtime_service,
            created.kind == (ServiceWorkerRuntimeCompletionKind::<P>::MessageEventCompleted { completion }),
    {
        ServiceWorkerRuntimeCompletion {
            runtime_service,
            kind: ServiceWorkerRuntimeCompletionKind::<P>::MessageEventCompleted { completion },
        }
    }

    /// A completion reporting `NotificationEventCompleted` to `runtime_service`.
    pub fn notification_event_completed(runtime_service: P::WeakService, completion: ServiceWorkerNotificationCompletion<P>) -> (created: Self)
        ensures
            created.runtime_service == runtime_service,
            created.kind == (ServiceWorkerRuntimeCompletionKind::<P>::NotificationEventCompleted { completion }),
    {
        ServiceWorkerRuntimeCompletion {
            runtime_service,
            kind: ServiceWorkerRuntimeCompletionKind::<P>::NotificationEventCompleted { completion },
        }
    }

    /// A completion reporting `PushEventCompleted` to `runtime_service`.
    pub fn push_event_completed(runtime_service: P::WeakService, completion: ServiceWorkerPushCompletion<P>) -> (created: Self)
        ensures
            created.runtime_service == runtime_service,
            created.kind == (ServiceWorkerRuntimeCompletionKind::<P>::PushEventCompleted { completion }),
    {
        ServiceWorkerRuntimeCompletion {
            runtime_service,
            kind: ServiceWorkerRuntimeCompletionKind::<P>::PushEventCompleted { completion },
        }
    }

    /// A completion reporting `SyncEventCompleted` to `runtime_service`.
    pub fn sync_event_completed(runtime_service: P::WeakService, completion: ServiceWorkerSyncCompletion<P>) -> (created: Self)
        ensures
            created.runtime_service == runtime_service,
            created.kind == (ServiceWorkerRuntimeCompletionKind::<P>::SyncEventCompleted { completion }),
    {
        ServiceWorkerRuntimeCompletion {
            runtime_service,
            kind: ServiceWorkerRuntimeCompletionKind::<P>::SyncEventCompleted { completion },
        }
    }

    /// A completion reporting `PeriodicSyncEventCompleted` to `runtime_service`.
    pub fn periodic_sync_event_completed(runtime_service: P::WeakService, completion: ServiceWorkerPeriodicSyncCompletion<P>) -> (created: Self)
        ensures
            created.runtime_service == runtime_service,
            created.kind == (ServiceWorkerRuntimeCompletionKind::<P>::PeriodicSyncEventCompleted { completion }),
    {
        ServiceWorkerRuntimeCompletion {
            runtime_service,
            kind: ServiceWorkerRuntimeCompletionKind::<P>::PeriodicSyncEventCompleted { completion },
        }
    }

    /// A completion reporting `ShowNotificationRequested` to `runtime_service`.
    pub fn show_notification_requested(runtime_service: P::WeakService, request: ServiceWorkerShowNotification<P>, generation: u64, source_host: P::SourceHost) -> (created: Self)
        ensures
            created.runtime_service == runtime_service,
            created.kind == (ServiceWorkerRuntimeCompletionKind::<P>::ShowNotificationRequested { request, generation, source_host }),
    {
        ServiceWorkerRuntimeCompletion {
            runtime_service,
            kind: ServiceWorkerRuntimeCompletionKind::<P>::ShowNotificationRequested { request, generation, source_host },
        }
    }

    /// A completion reporting `GetNotificationsRequested` to `runtime_service`.
    pub fn get_notifications_requested(runtime_service: P::WeakService, request: ServiceWorkerGetNotifications<P>, generation: u64, source_host: P::SourceHost) -> (created: Self)
        ensures
            created.runtime_service == runtime_service,
            created.kind == (ServiceWorkerRuntimeCompletionKind::<P>::GetNotificationsRequested { request, generation, source_host }),
    {
        ServiceWorkerRuntimeCompletion {
            runtime_service,
            kind: ServiceWorkerRuntimeCompletionKind::<P>::GetNotificationsRequested { request, generation, source_host },
        }
    }

    /// A completion reporting `SyncRegistrationRequested` to `runtime_service`.
    pub fn sync_registration_requested(runtime_service: P::WeakService, request: ServiceWorkerSyncRegistration<P>, generation: u64, source_host: P::SourceHost) -> (created: Self)
        ensures
            created.runtime_service == runtime_service,
            created.kind == (ServiceWorkerRuntimeCompletionKind::<P>::SyncRegistrationRequested { request, generation, source_host }),
    {
        ServiceWorkerRuntimeCompletion {
            runtime_service,
            kind: ServiceWorkerRuntimeCompletionKind::<P>::SyncRegistrationRequested { request, generation, source_host },
        }
    }

    /// A completion reporting `SyncGetTagsRequested` to `runtime_service`.
    pub fn sync_get_tags_requested(runtime_service: P::WeakService, request: ServiceWorkerSyncGetTags<P>, generation: u64, source_host: P::SourceHost) -> (created: Self)
        ensures
            created.runtime_service == runtime_service,
            created.kind == (ServiceWorkerRuntimeCompletionKind::<P>::SyncGetTagsRequested { request, generation, source_host }),
    {
        ServiceWorkerRuntimeCompletion {
            runtime_service,
            kind: ServiceWorkerRuntimeCompletionKind::<P>::SyncGetTagsRequested { request, generation, source_host },
        }
    }

    /// A completion reporting `PeriodicSyncRegistrationRequested` to `runtime_service`.
    pub fn periodic_sync_registration_requested(runtime_service: P::WeakService, request: ServiceWorkerPeriodicSyncRegistration<P>, generation: u64, source_host: P::SourceHost) -> (created: Self)
        ensures
            created.runtime_service == runtime_service,
            created.kind == (ServiceWorkerRuntimeCompletionKind::<P>::PeriodicSyncRegistrationRequested { request, generation, source_host }),
    {
        ServiceWorkerRuntimeCompletion {
            runtime_service,
            kind: ServiceWorkerRuntimeCompletionKind::<P>::PeriodicSyncRegistrationRequested { request, generation, source_host },
        }
    }

    /// A completion reporting `PeriodicSyncGetTagsRequested` to `runtime_service`.
    pub fn periodic_sync_get_tags_requested(runtime_service: P::WeakService, request: ServiceWorkerPeriodicSyncGetTags<P>, generation: u64, source_host: P::SourceHost) -> (created: Self)
        ensures
            created.runtime_service == runtime_service,
            created.kind == (ServiceWorkerRuntimeCompletionKind::<P>::PeriodicSyncGetTagsRequested { request, generation, source_host }),
    {
        ServiceWorkerRuntimeCompletion {
            runtime_service,
            kind: ServiceWorkerRuntimeCompletionKind::<P>::PeriodicSyncGetTagsRequested { request, generation, source_host },
        }
    }

    /// A completion reporting `PeriodicSyncUnregistrationRequested` to `runtime_service`.
    pub fn periodic_sync_unregistration_requested(runtime_service: P::WeakService, request: ServiceWorkerPeriodicSyncUnregistration<P>, generation: u64, source_host: P::SourceHost) -> (created: Self)
        ensures
            created.runtime_service == runtime_service,
            created.kind == (ServiceWorkerRuntimeCompletionKind::<P>::PeriodicSyncUnregistrationRequested { request, generation, source_host }),
    {
        ServiceWorkerRuntimeCompletion {
            runtime_service,
            kind: ServiceWorkerRuntimeCompletionKind::<P>::PeriodicSyncUnregistrationRequested { request, generation, source_host },
        }
    }

    /// A completion reporting `PushSubscribeRequested` to `runtime_service`.
    pub fn push_subscribe_requested(runtime_service: P::WeakService, request: ServiceWorkerPushSubscribe<P>, generation: u64, source_host: P::SourceHost) -> (created: Self)
        ensures
            created.runtime_service == runtime_service,
            created.kind == (ServiceWorkerRuntimeCompletionKind::<P>::PushSubscribeRequested { request, generation, source_host }),
    {
        ServiceWorkerRuntimeCompletion {
            runtime_service,
            kind: ServiceWorkerRuntimeCompletionKind::<P>::PushSubscribeRequested { request, generation, source_host },
        }
    }

    /// A completion reporting `PushGetSubscriptionRequested` to `runtime_service`.
    pub fn push_get_subscription_requested(runtime_service: P::WeakService, request: ServiceWorkerPushGetSubscription<P>, generation: u64, source_host: P::SourceHost) -> (created: Self)
        ensures
            created.runtime_service == runtime_service,
            created.kind == (ServiceWorkerRuntimeCompletionKind::<P>::PushGetSubscriptionRequested { request, generation, source_host }),
    {
        ServiceWorkerRuntimeCompletion {
            runtime_service,
            kind: ServiceWorkerRuntimeCompletionKind::<P>::PushGetSubscriptionRequested { request, generation, source_host },
        }
    }

    /// A completion reporting `PushUnsubscribeRequested` to `runtime_service`.
    pub fn push_unsubscribe_requested(runtime_service: P::WeakService, request: ServiceWorkerPushUnsubscribe<P>, generation: u64, source_host: P::SourceHost) -> (created: Self)
        ensures
            created.runtime_service == runtime_service,
            created.kind == (ServiceWorkerRuntimeCompletionKind::<P>::PushUnsubscribeRequested { request, generation, source_host }),
    {
        ServiceWorkerRuntimeCompletion {
            runtime_service,
            kind: ServiceWorkerRuntimeCompletionKind::<P>::PushUnsubscribeRequested { request, generation, source_host },
        }
    }

    /// A completion reporting `CloseNotificationRequested` to `runtime_service`.
    pub fn close_notification_requested(runtime_service: P::WeakService, request: ServiceWorkerCloseNotification<P>, generation: u64) -> (created: Self)
        ensures
            created.runtime_service == runtime_service,
            created.kind == (ServiceWorkerRuntimeCompletionKind::<P>::CloseNotificationRequested { request, generation }),
    {
        ServiceWorkerRuntimeCompletion {
            runtime_service,
            kind: ServiceWorkerRuntimeCompletionKind::<P>::CloseNotificationRequested { request, generation },
        }
    }

    /// A completion reporting `ClientMessage` to `runtime_service`.
    pub fn client_message(runtime_service: P::WeakService, message: ServiceWorkerClientMessage<P>) -> (created: Self)
        ensures
            created.runtime_service == runtime_service,
            created.kind == (ServiceWorkerRuntimeCompletionKind::<P>::ClientMessage { message }),
    {
        ServiceWorkerRuntimeCompletion {
            runtime_service,
            kind: ServiceWorkerRuntimeCompletionKind::<P>::ClientMessage { message },
        }
    }

    /// A completion reporting `WorkerMessage` to `runtime_service`.
    pub fn worker_message(runtime_service: P::WeakService, message: ServiceWorkerWorkerMessage<P>) -> (created: Self)
        ensures
            created.runtime_service == runtime_service,
            created.kind == (ServiceWorkerRuntimeCompletionKind::<P>::WorkerMessage { message }),
    {
        ServiceWorkerRuntimeCompletion {
            runtime_service,
            kind: ServiceWorkerRuntimeCompletionKind::<P>::WorkerMessage { message },
        }
    }

    /// A completion reporting `ClientQuery` to `runtime_service`.
    pub fn client_query(runtime_service: P::WeakService, query: ServiceWorkerClientQuery<P>, generation: u64) -> (created: Self)
        ensures
            created.runtime_service == runtime_service,
            created.kind == (ServiceWorkerRuntimeCompletionKind::<P>::ClientQuery { query, generation }),
    {
        ServiceWorkerRuntimeCompletion {
            runtime_service,
            kind: ServiceWorkerRuntimeCompletionKind::<P>::ClientQuery { query, generation },
        }
    }

    /// A completion reporting `ClientNavigate` to `runtime_service`.
    pub fn client_navigate(runtime_service: P::WeakService, navigate: ServiceWorkerClientNavigate<P>, generation: u64) -> (created: Self)
        ensures
            created.runtime_service == runtime_service,
            created.kind == (ServiceWorkerRuntimeCompletionKind::<P>::ClientNavigate { navigate, generation }),
    {
        ServiceWorkerRuntimeCompletion {
            runtime_service,
            kind: ServiceWorkerRuntimeCompletionKind::<P>::ClientNavigate { navigate, generation },
        }
    }

    /// A completion reporting `ClientNavigateCompleted` to `runtime_service`.
    pub fn client_navigate_completed(runtime_service: P::WeakService, completion: ServiceWorkerClientNavigateCompletion<P>) -> (created: Self)
        ensures
            created.runtime_service == runtime_service,
            created.kind == (ServiceWorkerRuntimeCompletionKind::<P>::ClientNavigateCompleted { completion }),
    {
        ServiceWorkerRuntimeCompletion {
            runtime_service,
            kind: ServiceWorkerRuntimeCompletionKind::<P>::ClientNavigateCompleted { completion },
        }
    }

    /// A completion reporting `ClientFocus` to `runtime_service`.
    pub fn client_focus(runtime_service: P::WeakService, focus: ServiceWorkerClientFocus<P>, generation: u64) -> (created: Self)
        ensures
            created.runtime_service == runtime_service,
            created.kind == (ServiceWorkerRuntimeCompletionKind::<P>::ClientFocus { focus, generation }),
    {
        ServiceWorkerRuntimeCompletion {
            runtime_service,
            kind: ServiceWorkerRuntimeCompletionKind::<P>::ClientFocus { focus, generation },
        }
    }

    /// A completion reporting `ClientFocusCompleted` to `runtime_service`.
    pub fn client_focus_completed(runtime_service: P::WeakService, completion: ServiceWorkerClientFocusCompletion<P>) -> (created: Self)
        ensures
            created.runtime_service == runtime_service,
            created.kind == (ServiceWorkerRuntimeCompletionKind::<P>::ClientFocusCompleted { completion }),
    {
        ServiceWorkerRuntimeCompletion {
            runtime_service,
            kind: ServiceWorkerRuntimeCompletionKind::<P>::ClientFocusCompleted { completion },
        }
    }

    /// A completion reporting `ClientsOpenWindow` to `runtime_service`.
    pub fn clients_open_window(runtime_service: P::WeakService, open_window: ServiceWorkerClientsOpenWindow<P>, generation: u64) -> (created: Self)
        ensures
            created.runtime_service == runtime_service,
            created.kind == (ServiceWorkerRuntimeCompletionKind::<P>::ClientsOpenWindow { open_window, generation }),
    {
        ServiceWorkerRuntimeCompletion {
            runtime_service,
            kind: ServiceWorkerRuntimeCompletionKind::<P>::ClientsOpenWindow { open_window, generation },
        }
    }

    /// A completion reporting `ClientsOpenWindowCompleted` to `runtime_service`.
    pub fn clients_open_window_completed(runtime_service: P::WeakService, completion: ServiceWorkerClientsOpenWindowCompletion<P>) -> (created: Self)
        ensures
            created.runtime_service == runtime_service,
            created.kind == (ServiceWorkerRuntimeCompletionKind::<P>::ClientsOpenWindowCompleted { completion }),
    {
        ServiceWorkerRuntimeCompletion {
            runtime_service,
            kind: ServiceWorkerRuntimeCompletionKind::<P>::ClientsOpenWindowCompleted { completion },
        }
    }

    /// A completion reporting `IdleTimeout` to `runtime_service`.
    pub fn idle_timeout(runtime_service: P::WeakService, version_id: ServiceWorkerVersionId, generation: u64, idle_generation: u64) -> (created: Self)
        ensures
            created.runtime_service == runtime_service,
            created.kind == (ServiceWorkerRuntimeCompletionKind::<P>::IdleTimeout { version_id, generation, idle_generation }),
    {
        ServiceWorkerRuntimeCompletion {
            runtime_service,
            kind: ServiceWorkerRuntimeCompletionKind::<P>::IdleTimeout { version_id, generation, idle_generation },
        }
    }

    /// A completion reporting `SkipWaitingRequested` to `runtime_service`.
    pub fn skip_waiting_requested(runtime_service: P::WeakService, registration_id: ServiceWorkerRegistrationId, version_id: ServiceWorkerVersionId) -> (created: Self)
        ensures
            created.runtime_service == runtime_service,
            created.kind == (ServiceWorkerRuntimeCompletionKind::<P>::SkipWaitingRequested { registration_id, version_id }),
    {
        ServiceWorkerRuntimeCompletion {
            runtime_service,
            kind: ServiceWorkerRuntimeCompletionKind::<P>::SkipWaitingRequested { registration_id, version_id },
        }
    }

    /// A completion reporting `ClientsClaimRequested` to `runtime_service`.
    pub fn clients_claim_requested(runtime_service: P::WeakService, registration_id: ServiceWorkerRegistrationId, version_id: ServiceWorkerVersionId) -> (created: Self)
        ensures
            created.runtime_service == runtime_service,
            created.kind == (ServiceWorkerRuntimeCompletionKind::<P>::ClientsClaimRequested { registration_id, version_id }),
    {
        ServiceWorkerRuntimeCompletion {
            runtime_service,
            kind: ServiceWorkerRuntimeCompletionKind::<P>::ClientsClaimRequested { registration_id, version_id },
        }
    }

    /// Routes this completion: the weak handle of its service, and the finish
    /// step of its kind.
    pub fn complete(self) -> (routed: (P::WeakService, ServiceWorkerFinishRequest<P>))
        ensures
            routed.0 == self.runtime_service,
            routed.1 == finish_request_for(self.kind),
    {
        let request = match self.kind {
            ServiceWorkerRuntimeCompletionKind::<P>::VersionStartCompleted { version_id, generation, final_script_url, script_resource, fetch_handler_type } => ServiceWorkerFinishRequest::<P>::WorkerStartCompleted { version_id, generation, final_script_url, script_resource: Some(script_resource), fetch_handler_type },
            ServiceWorkerRuntimeCompletionKind::<P>::VersionStartFailed { version_id, generation, failure } => ServiceWorkerFinishRequest::<P>::WorkerStartFailed { version_id, generation, failure },
            ServiceWorkerRuntimeCompletionKind::<P>::ImportedScriptLoaded { registration_id, version_id, generation, resource } => ServiceWorkerFinishRequest::<P>::ImportedScriptLoaded { registration_id, version_id, generation, resource },
            ServiceWorkerRuntimeCompletionKind::<P>::MainScriptUpdateCheckCompleted { registration_id, result } => ServiceWorkerFinishRequest::<P>::MainScriptUpdateCheckCompleted { registration_id, result },
            ServiceWorkerRuntimeCompletionKind::<P>::LifecycleEventCompleted { completion } => ServiceWorkerFinishRequest::<P>::LifecycleEventCompleted { completion },
            ServiceWorkerRuntimeCompletionKind::<P>::FetchEventCompleted { completion } => ServiceWorkerFinishRequest::<P>::FetchEventCompleted { completion },
            ServiceWorkerRuntimeCompletionKind::<P>::FetchStreamStarted { started } => ServiceWorkerFinishRequest::<P>::FetchStreamStarted { started },
            ServiceWorkerRuntimeCompletionKind::<P>::FetchStreamChunk { chunk } => ServiceWorkerFinishRequest::<P>::FetchStreamChunk { chunk },
            ServiceWorkerRuntimeCompletionKind::<P>::MessageEventCompleted { completion } => ServiceWorkerFinishRequest::<P>::MessageEventCompleted { completion },
            ServiceWorkerRuntimeCompletionKind::<P>::NotificationEventCompleted { completion } => ServiceWorkerFinishRequest::<P>::NotificationEventCompleted { completion },
            ServiceWorkerRuntimeCompletionKind::<P>::PushEventCompleted { completion } => ServiceWorkerFinishRequest::<P>::PushEventCompleted { completion },
            ServiceWorkerRuntimeCompletionKind::<P>::SyncEventCompleted { completion } => ServiceWorkerFinishRequest::<P>::SyncEventCompleted { completion },
            ServiceWorkerRuntimeCompletionKind::<P>::PeriodicSyncEventCompleted { completion } => ServiceWorkerFinishRequest::<P>::PeriodicSyncEventCompleted { completion },
            ServiceWorkerRuntimeCompletionKind::<P>::ShowNotificationRequested { request, generation, source_host } => ServiceWorkerFinishRequest::<P>::ShowNotificationRequested { request, generation, source_host },
            ServiceWorkerRuntimeCompletionKind::<P>::GetNotificationsRequested { request, generation, source_host } => ServiceWorkerFinishRequest::<P>::GetNotificationsRequested { request, generation, source_host },
            ServiceWorkerRuntimeCompletionKind::<P>::SyncRegistrationRequested { request, generation, source_host } => ServiceWorkerFinishRequest::<P>::SyncRegistrationRequested { request, generation, source_host },
            ServiceWorkerRuntimeCompletionKind::<P>::SyncGetTagsRequested { request, generation, source_host } => ServiceWorkerFinishRequest::<P>::SyncGetTagsRequested { request, generation, source_host },
            ServiceWorkerRuntimeCompletionKind::<P>::PeriodicSyncRegistrationRequested { request, generation, source_host } => ServiceWorkerFinishRequest::<P>::PeriodicSyncRegistrationRequested { request, generation, source_host },
            ServiceWorkerRuntimeCompletionKind::<P>::PeriodicSyncGetTagsRequested { request, generation, source_host } => ServiceWorkerFinishRequest::<P>::PeriodicSyncGetTagsRequested { request, generation, source_host },
            ServiceWorkerRuntimeCompletionKind::<P>::PeriodicSyncUnregistrationRequested { request, generation, source_host } => ServiceWorkerFinishRequest::<P>::PeriodicSyncUnregistrationRequested { request, generation, source_host },
            ServiceWorkerRuntimeCompletionKind::<P>::PushSubscribeRequested { request, generation, source_host } => ServiceWorkerFinishRequest::<P>::PushSubscribeRequested { request, generation, source_host },
            ServiceWorkerRuntimeCompletionKind::<P>::PushGetSubscriptionRequested { request, generation, source_host } => ServiceWorkerFinishRequest::<P>::PushGetSubscriptionRequested { request, generation, source_host },
            ServiceWorkerRuntimeCompletionKind::<P>::PushUnsubscribeRequested { request, generation, source_host } => ServiceWorkerFinishRequest::<P>::PushUnsubscribeRequested { request, generation, source_host },
            ServiceWorkerRuntimeCompletionKind::<P>::CloseNotificationRequested { request, generation } => ServiceWorkerFinishRequest::<P>::CloseNotificationRequested { request, generation },
            ServiceWorkerRuntimeCompletionKind::<P>::ClientMessage { message } => ServiceWorkerFinishRequest::<P>::ClientMessage { message },
            ServiceWorkerRuntimeCompletionKind::<P>::WorkerMessage { message } => ServiceWorkerFinishRequest::<P>::WorkerMessage { message },
            ServiceWorkerRuntimeCompletionKind::<P>::ClientQuery { query, generation } => ServiceWorkerFinishRequest::<P>::ClientQueryRequested { query, generation },
            ServiceWorkerRuntimeCompletionKind::<P>::ClientNavigate { navigate, generation } => ServiceWorkerFinishRequest::<P>::ClientNavigateRequested { navigate, generation },
            ServiceWorkerRuntimeCompletionKind::<P>::ClientNavigateCompleted { completion } => ServiceWorkerFinishRequest::<P>::ClientNavigateCompleted { completion },
            ServiceWorkerRuntimeCompletionKind::<P>::ClientFocus { focus, generation } => ServiceWorkerFinishRequest::<P>::ClientFocusRequested { focus, generation },
            ServiceWorkerRuntimeCompletionKind::<P>::ClientFocusCompleted { completion } => ServiceWorkerFinishRequest::<P>::ClientFocusCompleted { completion },
            ServiceWorkerRuntimeCompletionKind::<P>::ClientsOpenWindow { open_window, generation } => ServiceWorkerFinishRequest::<P>::ClientsOpenWindowRequested { open_window, generation },
            ServiceWorkerRuntimeCompletionKind::<P>::ClientsOpenWindowCompleted { completion } => ServiceWorkerFinishRequest::<P>::ClientsOpenWindowCompleted { completion },
            ServiceWorkerRuntimeCompletionKind::<P>::IdleTimeout { version_id, generation, idle_generation } => ServiceWorkerFinishRequest::<P>::WorkerIdleTimeout { version_id, generation, idle_generation },
            ServiceWorkerRuntimeCompletionKind::<P>::SkipWaitingRequested { registration_id, version_id } => ServiceWorkerFinishRequest::<P>::WorkerSkipWaitingRequested { registration_id, version_id },
            ServiceWorkerRuntimeCompletionKind::<P>::ClientsClaimRequested { registration_id, version_id } => ServiceWorkerFinishRequest::<P>::WorkerClientsClaimRequested { registration_id, version_id },
        };
        (self.runtime_service, request)
    }

    /// The `Debug` text of this completion: its summary, rendered as a
    /// `Debug` struct.
    pub fn debug_text(&self) -> (text: String)
        ensures
            text@ == debug_struct_text(
                summary_of(self.kind).0,
                summary_of(self.kind).1.map_values(
                    |f: (Seq<char>, ServiceWorkerDebugValueView)| (f.0, debug_value_text(f.1)),
                ),
                summary_of(self.kind).2,
            ),
    {
        let summary = self.debug_summary();
        render_summary(&summary)
    }

    /// The diagnostic summary of this completion.
    #[verifier::spinoff_prover]
    pub fn debug_summary(&self) -> (summary: ServiceWorkerRuntimeCompletionSummary)
        ensures
            summary.name@ == summary_of(self.kind).0,
            summary_fields_view(summary.fields@) == summary_of(self.kind).1,
            summary.exhaustive == summary_of(self.kind).2,
    {
        match &self.kind {
            ServiceWorkerRuntimeCompletionKind::<P>::VersionStartCompleted { version_id, generation, final_script_url: _, script_resource: _, fetch_handler_type: _ } => summary_with_fields2(
                "ServiceWorkerRuntimeCompletion::VersionStartCompleted",
                "version_id", ServiceWorkerDebugValue::VersionId(*version_id),
                "generation", ServiceWorkerDebugValue::Number(*generation),
                false,
            ),
            ServiceWorkerRuntimeCompletionKind::<P>::VersionStartFailed { version_id, generation, failure: _ } => summary_with_fields2(
                "ServiceWorkerRuntimeCompletion::VersionStartFailed",
                "version_id", ServiceWorkerDebugValue::VersionId(*version_id),
                "generation", ServiceWorkerDebugValue::Number(*generation),
                false,
            ),
            ServiceWorkerRuntimeCompletionKind::<P>::ImportedScriptLoaded { registration_id, version_id, generation, resource: _ } => summary_with_fields3(
                "ServiceWorkerRuntimeCompletion::ImportedScriptLoaded",
                "registration_id", ServiceWorkerDebugValue::RegistrationId(*registration_id),
                "version_id", ServiceWorkerDebugValue::VersionId(*version_id),
                "generation", ServiceWorkerDebugValue::Number(*generation),
                false,
            ),
            ServiceWorkerRuntimeCompletionKind::<P>::MainScriptUpdateCheckCompleted { registration_id, result } => summary_with_fields2(
                "ServiceWorkerRuntimeCompletion::MainScriptUpdateCheckCompleted",
                "registration_id", ServiceWorkerDebugValue::RegistrationId(*registration_id),
                "result_is_ok", ServiceWorkerDebugValue::Flag(result.is_ok()),
                false,
            ),
            ServiceWorkerRuntimeCompletionKind::<P>::LifecycleEventCompleted { completion } => summary_with_fields4(
                "ServiceWorkerRuntimeCompletion::LifecycleEventCompleted",
                "event_id", ServiceWorkerDebugValue::Number(completion.event_id),
                "version_id", ServiceWorkerDebugValue::VersionId(completion.version_id),
                "generation", ServiceWorkerDebugValue::Number(completion.generation),
                "kind", ServiceWorkerDebugValue::LifecycleKind(completion.kind),
                false,
            ),
            ServiceWorkerRuntimeCompletionKind::<P>::FetchEventCompleted { completion } => summary_with_fields3(
                "ServiceWorkerRuntimeCompletion::FetchEventCompleted",
                "event_id", ServiceWorkerDebugValue::Number(completion.event_id),
                "version_id", ServiceWorkerDebugValue::VersionId(completion.version_id),
                "generation", ServiceWorkerDebugValue::Number(completion.generation),
                false,
            ),
            ServiceWorkerRuntimeCompletionKind::<P>::FetchStreamStarted { started } => summary_with_fields4(
                "ServiceWorkerRuntimeCompletion::FetchStreamStarted",
                "event_id", ServiceWorkerDebugValue::Number(started.event_id),
                "version_id", ServiceWorkerDebugValue::VersionId(started.version_id),
                "generation", ServiceWorkerDebugValue::Number(started.generation),
                "body_source_id", ServiceWorkerDebugValue::Number(started.body_source_id),
                false,
            ),
            ServiceWorkerRuntimeCompletionKind::<P>::FetchStreamChunk { chunk } => summary_with_fields3(
                "ServiceWorkerRuntimeCompletion::FetchStreamChunk",
                "event_id", ServiceWorkerDebugValue::Number(chunk.event_id),
                "body_source_id", ServiceWorkerDebugValue::Number(chunk.body_source_id),
                "bytes_len", ServiceWorkerDebugValue::Size(chunk.bytes.len()),
                false,
            ),
            ServiceWorkerRuntimeCompletionKind::<P>::MessageEventCompleted { completion } => summary_with_fields3(
                "ServiceWorkerRuntimeCompletion::MessageEventCompleted",
                "event_id", ServiceWorkerDebugValue::Number(completion.event_id),
                "version_id", ServiceWorkerDebugValue::VersionId(completion.version_id),
                "generation", ServiceWorkerDebugValue::Number(completion.generation),
                false,
            ),
            ServiceWorkerRuntimeCompletionKind::<P>::NotificationEventCompleted { completion } => summary_with_fields3(
                "ServiceWorkerRuntimeCompletion::NotificationEventCompleted",
                "event_id", ServiceWorkerDebugValue::Number(completion.event_id),
                "version_id", ServiceWorkerDebugValue::VersionId(completion.version_id),
                "generation", ServiceWorkerDebugValue::Number(completion.generation),
                false,
            ),
            ServiceWorkerRuntimeCompletionKind::<P>::PushEventCompleted { completion } => summary_with_fields3(
                "ServiceWorkerRuntimeCompletion::PushEventCompleted",
                "event_id", ServiceWorkerDebugValue::Number(completion.event_id),
                "version_id", ServiceWorkerDebugValue::VersionId(completion.version_id),
                "generation", ServiceWorkerDebugValue::Number(completion.generation),
                false,
            ),
            ServiceWorkerRuntimeCompletionKind::<P>::SyncEventCompleted { completion } => summary_with_fields4(
                "ServiceWorkerRuntimeCompletion::SyncEventCompleted",
                "event_id", ServiceWorkerDebugValue::Number(completion.event_id),
                "version_id", ServiceWorkerDebugValue::VersionId(completion.version_id),
                "generation", ServiceWorkerDebugValue::Number(completion.generation),
                "tag", ServiceWorkerDebugValue::Text(completion.tag.clone()),
                false,
            ),
            ServiceWorkerRuntimeCompletionKind::<P>::PeriodicSyncEventCompleted { completion } => summary_with_fields4(
                "ServiceWorkerRuntimeCompletion::PeriodicSyncEventCompleted",
                "event_id", ServiceWorkerDebugValue::Number(completion.event_id),
                "version_id", ServiceWorkerDebugValue::VersionId(completion.version_id),
                "generation", ServiceWorkerDebugValue::Number(completion.generation),
                "tag", ServiceWorkerDebugValue::Text(completion.tag.clone()),
                false,
            ),
            ServiceWorkerRuntimeCompletionKind::<P>::ShowNotificationRequested { request, generation, source_host: _ } => summary_with_fields4(
                "ServiceWorkerRuntimeCompletion::ShowNotificationRequested",
                "request_id", ServiceWorkerDebugValue::Number(request.request_id),
                "registration_id", ServiceWorkerDebugValue::RegistrationId(request.registration_id),
                "version_id", ServiceWorkerDebugValue::VersionId(request.version_id),
                "generation", ServiceWorkerDebugValue::Number(*generation),
                false,
            ),
            ServiceWorkerRuntimeCompletionKind::<P>::GetNotificationsRequested { request, generation, source_host: _ } => summary_with_fields4(
                "ServiceWorkerRuntimeCompletion::GetNotificationsRequested",
                "request_id", ServiceWorkerDebugValue::Number(request.request_id),
                "registration_id", ServiceWorkerDebugValue::RegistrationId(request.registration_id),
                "version_id", ServiceWorkerDebugValue::VersionId(request.version_id),
                "generation", ServiceWorkerDebugValue::Number(*generation),
                false,
            ),
            ServiceWorkerRuntimeCompletionKind::<P>::SyncRegistrationRequested { request, generation, source_host: _ } => summary_with_fields5(
                "ServiceWorkerRuntimeCompletion::SyncRegistrationRequested",
                "request_id", ServiceWorkerDebugValue::Number(request.request_id),
                "registration_id", ServiceWorkerDebugValue::RegistrationId(request.registration_id),
                "version_id", ServiceWorkerDebugValue::VersionId(request.version_id),
                "generation", ServiceWorkerDebugValue::Number(*generation),
                "tag", ServiceWorkerDebugValue::Text(request.tag.clone()),
                false,
            ),
            ServiceWorkerRuntimeCompletionKind::<P>::SyncGetTagsRequested { request, generation, source_host: _ } => summary_with_fields4(
                "ServiceWorkerRuntimeCompletion::SyncGetTagsRequested",
                "request_id", ServiceWorkerDebugValue::Number(request.request_id),
                "registration_id", ServiceWorkerDebugValue::RegistrationId(request.registration_id),
                "version_id", ServiceWorkerDebugValue::VersionId(request.version_id),
                "generation", ServiceWorkerDebugValue::Number(*generation),
                false,
            ),
            ServiceWorkerRuntimeCompletionKind::<P>::PeriodicSyncRegistrationRequested { request, generation, source_host: _ } => summary_with_fields5(
                "ServiceWorkerRuntimeCompletion::PeriodicSyncRegistrationRequested",
                "request_id", ServiceWorkerDebugValue::Number(request.request_id),
                "registration_id", ServiceWorkerDebugValue::RegistrationId(request.registration_id),
                "version_id", ServiceWorkerDebugValue::VersionId(request.version_id),
                "generation", ServiceWorkerDebugValue::Number(*generation),
                "tag", ServiceWorkerDebugValue::Text(request.tag.clone()),
                false,
            ),
            ServiceWorkerRuntimeCompletionKind::<P>::PeriodicSyncGetTagsRequested { request, generation, source_host: _ } => summary_with_fields4(
                "ServiceWorkerRuntimeCompletion::PeriodicSyncGetTagsRequested",
                "request_id", ServiceWorkerDebugValue::Number(request.request_id),
                "registration_id", ServiceWorkerDebugValue::RegistrationId(request.registration_id),
                "version_id", ServiceWorkerDebugValue::VersionId(request.version_id),
                "generation", ServiceWorkerDebugValue::Number(*generation),
                false,
            ),
            ServiceWorkerRuntimeCompletionKind::<P>::PeriodicSyncUnregistrationRequested { request, generation, source_host: _ } => summary_with_fields5(
                "ServiceWorkerRuntimeCompletion::PeriodicSyncUnregistrationRequested",
                "request_id", ServiceWorkerDebugValue::Number(request.request_id),
                "registration_id", ServiceWorkerDebugValue::RegistrationId(request.registration_id),
                "version_id", ServiceWorkerDebugValue::VersionId(request.version_id),
                "generation", ServiceWorkerDebugValue::Number(*generation),
                "tag", ServiceWorkerDebugValue::Text(request.tag.clone()),
                false,
            ),
            ServiceWorkerRuntimeCompletionKind::<P>::PushSubscribeRequested { request, generation, source_host: _ } => summary_with_fields4(
                "ServiceWorkerRuntimeCompletion::PushSubscribeRequested",
                "request_id", ServiceWorkerDebugValue::Number(request.request_id),
                "registration_id", ServiceWorkerDebugValue::RegistrationId(request.registration_id),
                "version_id", ServiceWorkerDebugValue::VersionId(request.version_id),
                "generation", ServiceWorkerDebugValue::Number(*generation),
                false,
            ),
            ServiceWorkerRuntimeCompletionKind::<P>::PushGetSubscriptionRequested { request, generation, source_host: _ } => summary_with_fields4(
                "ServiceWorkerRuntimeCompletion::PushGetSubscriptionRequested",
                "request_id", ServiceWorkerDebugValue::Number(request.request_id),
                "registration_id", ServiceWorkerDebugValue::RegistrationId(request.registration_id),
                "version_id", ServiceWorkerDebugValue::VersionId(request.version_id),
                "generation", ServiceWorkerDebugValue::Number(*generation),
                false,
            ),
            ServiceWorkerRuntimeCompletionKind::<P>::PushUnsubscribeRequested { request, generation, source_host: _ } => summary_with_fields4(
                "ServiceWorkerRuntimeCompletion::PushUnsubscribeRequested",
                "request_id", ServiceWorkerDebugValue::Number(request.request_id),
                "registration_id", ServiceWorkerDebugValue::RegistrationId(request.registration_id),
                "version_id", ServiceWorkerDebugValue::VersionId(request.version_id),
                "generation", ServiceWorkerDebugValue::Number(*generation),
                false,
            ),
            ServiceWorkerRuntimeCompletionKind::<P>::CloseNotificationRequested { request, generation } => summary_with_fields4(
                "ServiceWorkerRuntimeCompletion::CloseNotificationRequested",
                "registration_id", ServiceWorkerDebugValue::RegistrationId(request.registration_id),
                "version_id", ServiceWorkerDebugValue::VersionId(request.version_id),
                "notification_id", ServiceWorkerDebugValue::Text(request.notification_id.clone()),
                "generation", ServiceWorkerDebugValue::Number(*generation),
                false,
            ),
            ServiceWorkerRuntimeCompletionKind::<P>::ClientMessage { message } => summary_with_fields2(
                "ServiceWorkerRuntimeCompletion::ClientMessage",
                "source_version_id", ServiceWorkerDebugValue::VersionId(message.source_version_id),
                "target_client_id", ServiceWorkerDebugValue::Text(message.target_client_id.clone()),
                false,
            ),
            ServiceWorkerRuntimeCompletionKind::<P>::WorkerMessage { message } => summary_with_fields2(
                "ServiceWorkerRuntimeCompletion::WorkerMessage",
                "source_version_id", ServiceWorkerDebugValue::VersionId(message.source_version_id),
                "target_version_id", ServiceWorkerDebugValue::VersionId(message.target_version_id),
                false,
            ),
            ServiceWorkerRuntimeCompletionKind::<P>::ClientQuery { query, generation } => summary_with_fields4(
                "ServiceWorkerRuntimeCompletion::ClientQuery",
                "request_id", ServiceWorkerDebugValue::Number(query.request_id),
                "registration_id", ServiceWorkerDebugValue::RegistrationId(query.registration_id),
                "version_id", ServiceWorkerDebugValue::VersionId(query.version_id),
                "generation", ServiceWorkerDebugValue::Number(*generation),
                false,
            ),
            ServiceWorkerRuntimeCompletionKind::<P>::ClientNavigate { navigate, generation } => summary_with_fields4(
                "ServiceWorkerRuntimeCompletion::ClientNavigate",
                "request_id", ServiceWorkerDebugValue::Number(navigate.request_id),
                "source_version_id", ServiceWorkerDebugValue::VersionId(navigate.source_version_id),
                "generation", ServiceWorkerDebugValue::Number(*generation),
                "target_client_id", ServiceWorkerDebugValue::Text(navigate.target_client_id.clone()),
                false,
            ),
            ServiceWorkerRuntimeCompletionKind::<P>::ClientNavigateCompleted { completion } => summary_with_fields2(
                "ServiceWorkerRuntimeCompletion::ClientNavigateCompleted",
                "request_id", ServiceWorkerDebugValue::Number(completion.request_id),
                "source_version_id", ServiceWorkerDebugValue::VersionId(completion.source_version_id),
                false,
            ),
            ServiceWorkerRuntimeCompletionKind::<P>::ClientFocus { focus, generation } => summary_with_fields4(
                "ServiceWorkerRuntimeCompletion::ClientFocus",
                "request_id", ServiceWorkerDebugValue::Number(focus.request_id),
                "source_version_id", ServiceWorkerDebugValue::VersionId(focus.source_version_id),
                "generation", ServiceWorkerDebugValue::Number(*generation),
                "target_client_id", ServiceWorkerDebugValue::Text(focus.target_client_id.clone()),
                false,
            ),
            ServiceWorkerRuntimeCompletionKind::<P>::ClientFocusCompleted { completion } => summary_with_fields2(
                "ServiceWorkerRuntimeCompletion::ClientFocusCompleted",
                "request_id", ServiceWorkerDebugValue::Number(completion.request_id),
                "source_version_id", ServiceWorkerDebugValue::VersionId(completion.source_version_id),
                false,
            ),
            ServiceWorkerRuntimeCompletionKind::<P>::ClientsOpenWindow { open_window, generation } => summary_with_fields3(
                "ServiceWorkerRuntimeCompletion::ClientsOpenWindow",
                "request_id", ServiceWorkerDebugValue::Number(open_window.request_id),
                "source_version_id", ServiceWorkerDebugValue::VersionId(open_window.source_version_id),
                "generation", ServiceWorkerDebugValue::Number(*generation),
                false,
            ),
            ServiceWorkerRuntimeCompletionKind::<P>::ClientsOpenWindowCompleted { completion } => summary_with_fields2(
                "ServiceWorkerRuntimeCompletion::ClientsOpenWindowCompleted",
                "request_id", ServiceWorkerDebugValue::Number(completion.request_id),
                "source_version_id", ServiceWorkerDebugValue::VersionId(completion.source_version_id),
                false,
            ),
            ServiceWorkerRuntimeCompletionKind::<P>::IdleTimeout { version_id, generation, idle_generation } => summary_with_fields3(
                "ServiceWorkerRuntimeCompletion::IdleTimeout",
                "version_id", ServiceWorkerDebugValue::VersionId(*version_id),
                "generation", ServiceWorkerDebugValue::Number(*generation),
                "idle_generation", ServiceWorkerDebugValue::Number(*idle_generation),
                true,
            ),
            ServiceWorkerRuntimeCompletionKind::<P>::SkipWaitingRequested { registration_id, version_id } => summary_with_fields2(
                "ServiceWorkerRuntimeCompletion::SkipWaitingRequested",
                "registration_id", ServiceWorkerDebugValue::RegistrationId(*registration_id),
                "version_id", ServiceWorkerDebugValue::VersionId(*version_id),
                true,
            ),
            ServiceWorkerRuntimeCompletionKind::<P>::ClientsClaimRequested { registration_id, version_id } => summary_with_fields2(
                "ServiceWorkerRuntimeCompletion::ClientsClaimRequested",
                "registration_id", ServiceWorkerDebugValue::RegistrationId(*registration_id),
                "version_id", ServiceWorkerDebugValue::VersionId(*version_id),
                true,
            ),
        }
    }
}

impl<P: ServiceWorkerRuntimeTypes> ServiceWorkerFinishRequest<P> {
    /// Delivers this finish step to the service if the weak handle could be
    /// upgraded to it; a completion whose service is gone is dropped.
    pub fn deliver_if_live<S>(self, service: Option<S>) -> (delivery: Option<(S, Self)>)
        ensures
            delivery == (match service {
                Some(s) => Some((s, self)),
                None => None,
            }),
    {
        match service {
            Some(s) => Some((s, self)),
            None => None,
        }
    }
}

/// The completions waiting on the service lane, oldest first, and how many
/// wake signals the lane has raised.
pub struct ServiceWorkerServiceLane<P: ServiceWorkerRuntimeTypes> {
    completions: VecDeque<ServiceWorkerRuntimeCompletion<P>>,
    wake_signals: u64,
}

impl<P: ServiceWorkerRuntimeTypes> ServiceWorkerServiceLane<P> {
    /// The completions waiting on the lane, oldest first.
    pub closed spec fn pending(&self) -> Seq<ServiceWorkerRuntimeCompletion<P>> {
        self.completions@
    }

    /// How many wake signals the lane has raised (saturating).
    pub closed spec fn spec_wake_signals(&self) -> u64 {
        self.wake_signals
    }

    /// An empty lane that has raised no wake signal.
    pub fn new() -> (lane: Self)
        ensures
            lane.pending() == Seq::<ServiceWorkerRuntimeCompletion<P>>::empty(),
            lane.spec_wake_signals() == 0,
    {
        ServiceWorkerServiceLane { completions: VecDeque::new(), wake_signals: 0 }
    }

    /// Appends `completion` and raises one wake signal.
    fn enqueue_service_lane_completion(&mut self, completion: ServiceWorkerRuntimeCompletion<P>)
        ensures
            final(self).pending() == old(self).pending().push(completion),
            final(self).spec_wake_signals() == saturating_increment(old(self).spec_wake_signals()),
    {
        self.completions.push_back(completion);
        self.wake_signals = self.wake_signals.saturating_add(1);
    }

    /// Takes the oldest waiting completion, if any.
    pub fn pop_front_completion(&mut self) -> (completion: Option<ServiceWorkerRuntimeCompletion<P>>)
        ensures
            old(self).pending().len() == 0 ==> completion is None && final(self).pending() == old(self).pending(),
            old(self).pending().len() > 0 ==> completion == Some(old(self).pending()[0])
                && final(self).pending() == old(self).pending().drop_first(),
            final(self).spec_wake_signals() == old(self).spec_wake_signals(),
    {
        self.completions.pop_front()
    }

    /// How many completions are waiting.
    pub fn pending_count(&self) -> (count: usize)
        ensures
            count == self.pending().len(),
    {
        self.completions.len()
    }

    /// How many wake signals the lane has raised.
    pub fn wake_signal_count(&self) -> (count: u64)
        ensures
            count == self.spec_wake_signals(),
    {
        self.wake_signals
    }

    /// Queues a `VersionStartCompleted` completion for `runtime_service` and wakes the lane.
    pub fn enqueue_worker_start_completed(&mut self, runtime_service: P::WeakService, version_id: ServiceWorkerVersionId, generation: u64, final_script_url: String, script_resource: P::ScriptResource, fetch_handler_type: P::FetchHandlerType)
        ensures
            final(self).pending() == old(self).pending().push(
                (ServiceWorkerRuntimeCompletion::<P> {
                    runtime_service,
                    kind: ServiceWorkerRuntimeCompletionKind::<P>::VersionStartCompleted { version_id, generation, final_script_url, script_resource, fetch_handler_type },
                }),
            ),
            final(self).spec_wake_signals() == saturating_increment(old(self).spec_wake_signals()),
    {
        self.enqueue_service_lane_completion(ServiceWorkerRuntimeCompletion::version_start_completed(runtime_service, version_id, generation, final_script_url, script_resource, fetch_handler_type));
    }

    /// Queues a `VersionStartFailed` completion for `runtime_service` and wakes the lane.
    pub fn enqueue_worker_start_failed(&mut self, runtime_service: P::WeakService, version_id: ServiceWorkerVersionId, generation: u64, failure: P::StartFailure)
        ensures
            final(self).pending() == old(self).pending().push(
                (ServiceWorkerRuntimeCompletion::<P> {
                    runtime_service,
                    kind: ServiceWorkerRuntimeCompletionKind::<P>::VersionStartFailed { version_id, generation, failure },
                }),
            ),
            final(self).spec_wake_signals() == saturating_increment(old(self).spec_wake_signals()),
    {
        self.enqueue_service_lane_completion(ServiceWorkerRuntimeCompletion::version_start_failed(runtime_service, version_id, generation, failure));
    }

    /// Queues a `ImportedScriptLoaded` completion for `runtime_service` and wakes the lane.
    pub fn enqueue_imported_script_loaded(&mut self, runtime_service: P::WeakService, registration_id: ServiceWorkerRegistrationId, version_id: ServiceWorkerVersionId, generation: u64, resource: P::WorkerScriptResource)
        ensures
            final(self).pending() == old(self).pending().push(
                (ServiceWorkerRuntimeCompletion::<P> {
                    runtime_service,
                    kind: ServiceWorkerRuntimeCompletionKind::<P>::ImportedScriptLoaded { registration_id, version_id, generation, resource },
                }),
            ),
            final(self).spec_wake_signals() == saturating_increment(old(self).spec_wake_signals()),
    {
        self.enqueue_service_lane_completion(ServiceWorkerRuntimeCompletion::imported_script_loaded(runtime_service, registration_id, version_id, generation, resource));
    }

    /// Queues a `MainScriptUpdateCheckCompleted` completion for `runtime_service` and wakes the lane.
    pub fn enqueue_main_script_update_check_completed(&mut self, runtime_service: P::WeakService, registration_id: ServiceWorkerRegistrationId, result: Result<P::UpdateCheckOutput, P::UpdateCheckError>)
        ensures
            final(self).pending() == old(self).pending().push(
                (ServiceWorkerRuntimeCompletion::<P> {
                    runtime_service,
                    kind: ServiceWorkerRuntimeCompletionKind::<P>::MainScriptUpdateCheckCompleted { registration_id, result },
                }),
            ),
            final(self).spec_wake_signals() == saturating_increment(old(self).spec_wake_signals()),
    {
        self.enqueue_service_lane_completion(ServiceWorkerRuntimeCompletion::main_script_update_check_completed(runtime_service, registration_id, result));
    }

    /// Queues a `LifecycleEventCompleted` completion for `runtime_service` and wakes the lane.
    pub fn enqueue_lifecycle_event_completed(&mut self, runtime_service: P::WeakService, completion: ServiceWorkerLifecycleCompletion<P>)
        ensures
            final(self).pending() == old(self).pending().push(
                (ServiceWorkerRuntimeCompletion::<P> {
                    runtime_service,
                    kind: ServiceWorkerRuntimeCompletionKind::<P>::LifecycleEventCompleted { completion },
                }),
            ),
            final(self).spec_wake_signals() == saturating_increment(old(self).spec_wake_signals()),
    {
        self.enqueue_service_lane_completion(ServiceWorkerRuntimeCompletion::lifecycle_event_completed(runtime_service, completion));
    }

    /// Queues a `FetchEventCompleted` completion for `runtime_service` and wakes the lane.
    pub fn enqueue_fetch_event_completed(&mut self, runtime_service: P::WeakService, completion: ServiceWorkerFetchCompletion<P>)
        ensures
            final(self).pending() == old(self).pending().push(
                (ServiceWorkerRuntimeCompletion::<P> {
                    runtime_service,
                    kind: ServiceWorkerRuntimeCompletionKind::<P>::FetchEventCompleted { completion },
                }),
            ),
            final(self).spec_wake_signals() == saturating_increment(old(self).spec_wake_signals()),
    {
        self.enqueue_service_lane_completion(ServiceWorkerRuntimeCompletion::fetch_event_completed(runtime_service, completion));
    }

    /// Queues a `FetchStreamStarted` completion for `runtime_service` and wakes the lane.
    pub fn enqueue_fetch_stream_started(&mut self, runtime_service: P::WeakService, started: ServiceWorkerFetchStreamStarted<P>)
        ensures
            final(self).pending() == old(self).pending().push(
                (ServiceWorkerRuntimeCompletion::<P> {
                    runtime_service,
                    kind: ServiceWorkerRuntimeCompletionKind::<P>::FetchStreamStarted { started },
                }),
            ),
            final(self).spec_wake_signals() == saturating_increment(old(self).spec_wake_signals()),
    {
        self.enqueue_service_lane_completion(ServiceWorkerRuntimeCompletion::fetch_stream_started(runtime_service, started));
    }

    /// Queues a `FetchStreamChunk` completion for `runtime_service` and wakes the lane.
    pub fn enqueue_fetch_stream_chunk(&mut self, runtime_service: P::WeakService, chunk: ServiceWorkerFetchStreamChunk<P>)
        ensures
            final(self).pending() == old(self).pending().push(
                (ServiceWorkerRuntimeCompletion::<P> {
                    runtime_service,
                    kind: ServiceWorkerRuntimeCompletionKind::<P>::FetchStreamChunk { chunk },
                }),
            ),
            final(self).spec_wake_signals() == saturating_increment(old(self).spec_wake_signals()),
    {
        self.enqueue_service_lane_completion(ServiceWorkerRuntimeCompletion::fetch_stream_chunk(runtime_service, chunk));
    }

    /// Queues a `MessageEventCompleted` completion for `runtime_service` and wakes the lane.
    pub fn enqueue_message_event_completed(&mut self, runtime_service: P::WeakService, completion: ServiceWorkerMessageCompletion<P>)
        ensures
            final(self).pending() == old(self).pending().push(
                (ServiceWorkerRuntimeCompletion::<P> {
                    runtime_service,
                    kind: ServiceWorkerRuntimeCompletionKind::<P>::MessageEventCompleted { completion },
                }),
            ),
            final(self).spec_wake_signals() == saturating_increment(old(self).spec_wake_signals()),
    {
        self.enqueue_service_lane_completion(ServiceWorkerRuntimeCompletion::message_event_completed(runtime_service, completion));
    }

    /// Queues a `NotificationEventCompleted` completion for `runtime_service` and wakes the lane.
    pub fn enqueue_notification_event_completed(&mut self, runtime_service: P::WeakService, completion: ServiceWorkerNotificationCompletion<P>)
        ensures
            final(self).pending() == old(self).pending().push(
                (ServiceWorkerRuntimeCompletion::<P> {
                    runtime_service,
                    kind: ServiceWorkerRuntimeCompletionKind::<P>::NotificationEventCompleted { completion },
                }),
            ),
            final(self).spec_wake_signals() == saturating_increment(old(self).spec_wake_signals()),
    {
        self.enqueue_service_lane_completion(ServiceWorkerRuntimeCompletion::notification_event_completed(runtime_service, completion));
    }

    /// Queues a `PushEventCompleted` completion for `runtime_service` and wakes the lane.
    pub fn enqueue_push_event_completed(&mut self, runtime_service: P::WeakService, completion: ServiceWorkerPushCompletion<P>)
        ensures
            final(self).pending() == old(self).pending().push(
                (ServiceWorkerRuntimeCompletion::<P> {
                    runtime_service,
                    kind: ServiceWorkerRuntimeCompletionKind::<P>::PushEventCompleted { completion },
                }),
            ),
            final(self).spec_wake_signals() == saturating_increment(old(self).spec_wake_signals()),
    {
        self.enqueue_service_lane_completion(ServiceWorkerRuntimeCompletion::push_event_completed(runtime_service, completion));
    }

    /// Queues a `SyncEventCompleted` completion for `runtime_service` and wakes the lane.
    pub fn enqueue_sync_event_completed(&mut self, runtime_service: P::WeakService, completion: ServiceWorkerSyncCompletion<P>)
        ensures
            final(self).pending() == old(self).pending().push(
                (ServiceWorkerRuntimeCompletion::<P> {
                    runtime_service,
                    kind: ServiceWorkerRuntimeCompletionKind::<P>::SyncEventCompleted { completion },
                }),
            ),
            final(self).spec_wake_signals() == saturating_increment(old(self).spec_wake_signals()),
    {
        self.enqueue_service_lane_completion(ServiceWorkerRuntimeCompletion::sync_event_completed(runtime_service, completion));
    }

    /// Queues a `PeriodicSyncEventCompleted` completion for `runtime_service` and wakes the lane.
    pub fn enqueue_periodic_sync_event_completed(&mut self, runtime_service: P::WeakService, completion: ServiceWorkerPeriodicSyncCompletion<P>)
        ensures
            final(self).pending() == old(self).pending().push(
                (ServiceWorkerRuntimeCompletion::<P> {
                    runtime_service,
                    kind: ServiceWorkerRuntimeCompletionKind::<P>::PeriodicSyncEventCompleted { completion },
                }),
            ),
            final(self).spec_wake_signals() == saturating_increment(old(self).spec_wake_signals()),
    {
        self.enqueue_service_lane_completion(ServiceWorkerRuntimeCompletion::periodic_sync_event_completed(runtime_service, completion));
    }

    /// Queues a `ShowNotificationRequested` completion for `runtime_service` and wakes the lane.
    pub fn enqueue_show_notification_requested(&mut self, runtime_service: P::WeakService, request: ServiceWorkerShowNotification<P>, generation: u64, source_host: P::SourceHost)
        ensures
            final(self).pending() == old(self).pending().push(
                (ServiceWorkerRuntimeCompletion::<P> {
                    runtime_service,
                    kind: ServiceWorkerRuntimeCompletionKind::<P>::ShowNotificationRequested { request, generation, source_host },
                }),
            ),
            final(self).spec_wake_signals() == saturating_increment(old(self).spec_wake_signals()),
    {
        self.enqueue_service_lane_completion(ServiceWorkerRuntimeCompletion::show_notification_requested(runtime_service, request, generation, source_host));
    }

    /// Queues a `GetNotificationsRequested` completion for `runtime_service` and wakes the lane.
    pub fn enqueue_get_notifications_requested(&mut self, runtime_service: P::WeakService, request: ServiceWorkerGetNotifications<P>, generation: u64, source_host: P::SourceHost)
        ensures
            final(self).pending() == old(self).pending().push(
                (ServiceWorkerRuntimeCompletion::<P> {
                    runtime_service,
                    kind: ServiceWorkerRuntimeCompletionKind::<P>::GetNotificationsRequested { request, generation, source_host },
                }),
            ),
            final(self).spec_wake_signals() == saturating_increment(old(self).spec_wake_signals()),
    {
        self.enqueue_service_lane_completion(ServiceWorkerRuntimeCompletion::get_notifications_requested(runtime_service, request, generation, source_host));
    }

    /// Queues a `SyncRegistrationRequested` completion for `runtime_service` and wakes the lane.
    pub fn enqueue_sync_registration_requested(&mut self, runtime_service: P::WeakService, request: ServiceWorkerSyncRegistration<P>, generation: u64, source_host: P::SourceHost)
        ensures
            final(self).pending() == old(self).pending().push(
                (ServiceWorkerRuntimeCompletion::<P> {
                    runtime_service,
                    kind: ServiceWorkerRuntimeCompletionKind::<P>::SyncRegistrationRequested { request, generation, source_host },
                }),
            ),
            final(self).spec_wake_signals() == saturating_increment(old(self).spec_wake_signals()),
    {
        self.enqueue_service_lane_completion(ServiceWorkerRuntimeCompletion::sync_registration_requested(runtime_service, request, generation, source_host));
    }

    /// Queues a `SyncGetTagsRequested` completion for `runtime_service` and wakes the lane.
    pub fn enqueue_sync_get_tags_requested(&mut self, runtime_service: P::WeakService, request: ServiceWorkerSyncGetTags<P>, generation: u64, source_host: P::SourceHost)
        ensures
            final(self).pending() == old(self).pending().push(
                (ServiceWorkerRuntimeCompletion::<P> {
                    runtime_service,
                    kind: ServiceWorkerRuntimeCompletionKind::<P>::SyncGetTagsRequested { request, generation, source_host },
                }),
            ),
            final(self).spec_wake_signals() == saturating_increment(old(self).spec_wake_signals()),
    {
        self.enqueue_service_lane_completion(ServiceWorkerRuntimeCompletion::sync_get_tags_requested(runtime_service, request, generation, source_host));
    }

    /// Queues a `PeriodicSyncRegistrationRequested` completion for `runtime_service` and wakes the lane.
    pub fn enqueue_periodic_sync_registration_requested(&mut self, runtime_service: P::WeakService, request: ServiceWorkerPeriodicSyncRegistration<P>, generation: u64, source_host: P::SourceHost)
        ensures
            final(self).pending() == old(self).pending().push(
                (ServiceWorkerRuntimeCompletion::<P> {
                    runtime_service,
                    kind: ServiceWorkerRuntimeCompletionKind::<P>::PeriodicSyncRegistrationRequested { request, generation, source_host },
                }),
            ),
            final(self).spec_wake_signals() == saturating_increment(old(self).spec_wake_signals()),
    {
        self.enqueue_service_lane_completion(ServiceWorkerRuntimeCompletion::periodic_sync_registration_requested(runtime_service, request, generation, source_host));
    }

    /// Queues a `PeriodicSyncGetTagsRequested` completion for `runtime_service` and wakes the lane.
    pub fn enqueue_periodic_sync_get_tags_requested(&mut self, runtime_service: P::WeakService, request: ServiceWorkerPeriodicSyncGetTags<P>, generation: u64, source_host: P::SourceHost)
        ensures
            final(self).pending() == old(self).pending().push(
                (ServiceWorkerRuntimeCompletion::<P> {
                    runtime_service,
                    kind: ServiceWorkerRuntimeCompletionKind::<P>::PeriodicSyncGetTagsRequested { request, generation, source_host },
                }),
            ),
            final(self).spec_wake_signals() == saturating_increment(old(self).spec_wake_signals()),
    {
        self.enqueue_service_lane_completion(ServiceWorkerRuntimeCompletion::periodic_sync_get_tags_requested(runtime_service, request, generation, source_host));
    }

    /// Queues a `PeriodicSyncUnregistrationRequested` completion for `runtime_service` and wakes the lane.
    pub fn enqueue_periodic_sync_unregistration_requested(&mut self, runtime_service: P::WeakService, request: ServiceWorkerPeriodicSyncUnregistration<P>, generation: u64, source_host: P::SourceHost)
        ensures
            final(self).pending() == old(self).pending().push(
                (ServiceWorkerRuntimeCompletion::<P> {
                    runtime_service,
                    kind: ServiceWorkerRuntimeCompletionKind::<P>::PeriodicSyncUnregistrationRequested { request, generation, source_host },
                }),
            ),
            final(self).spec_wake_signals() == saturating_increment(old(self).spec_wake_signals()),
    {
        self.enqueue_service_lane_completion(ServiceWorkerRuntimeCompletion::periodic_sync_unregistration_requested(runtime_service, request, generation, source_host));
    }

    /// Queues a `PushSubscribeRequested` completion for `runtime_service` and wakes the lane.
    pub fn enqueue_push_subscribe_requested(&mut self, runtime_service: P::WeakService, request: ServiceWorkerPushSubscribe<P>, generation: u64, source_host: P::SourceHost)
        ensures
            final(self).pending() == old(self).pending().push(
                (ServiceWorkerRuntimeCompletion::<P> {
                    runtime_service,
                    kind: ServiceWorkerRuntimeCompletionKind::<P>::PushSubscribeRequested { request, generation, source_host },
                }),
            ),
            final(self).spec_wake_signals() == saturating_increment(old(self).spec_wake_signals()),
    {
        self.enqueue_service_lane_completion(ServiceWorkerRuntimeCompletion::push_subscribe_requested(runtime_service, request, generation, source_host));
    }

    /// Queues a `PushGetSubscriptionRequested` completion for `runtime_service` and wakes the lane.
    pub fn enqueue_push_get_subscription_requested(&mut self, runtime_service: P::WeakService, request: ServiceWorkerPushGetSubscription<P>, generation: u64, source_host: P::SourceHost)
        ensures
            final(self).pending() == old(self).pending().push(
                (ServiceWorkerRuntimeCompletion::<P> {
                    runtime_service,
                    kind: ServiceWorkerRuntimeCompletionKind::<P>::PushGetSubscriptionRequested { request, generation, source_host },
                }),
            ),
            final(self).spec_wake_signals() == saturating_increment(old(self).spec_wake_signals()),
    {
        self.enqueue_service_lane_completion(ServiceWorkerRuntimeCompletion::push_get_subscription_requested(runtime_service, request, generation, source_host));
    }

    /// Queues a `PushUnsubscribeRequested` completion for `runtime_service` and wakes the lane.
    pub fn enqueue_push_unsubscribe_requested(&mut self, runtime_service: P::WeakService, request: ServiceWorkerPushUnsubscribe<P>, generation: u64, source_host: P::SourceHost)
        ensures
            final(self).pending() == old(self).pending().push(
                (ServiceWorkerRuntimeCompletion::<P> {
                    runtime_service,
                    kind: ServiceWorkerRuntimeCompletionKind::<P>::PushUnsubscribeRequested { request, generation, source_host },
                }),
            ),
            final(self).spec_wake_signals() == saturating_increment(old(self).spec_wake_signals()),
    {
        self.enqueue_service_lane_completion(ServiceWorkerRuntimeCompletion::push_unsubscribe_requested(runtime_service, request, generation, source_host));
    }

    /// Queues a `CloseNotificationRequested` completion for `runtime_service` and wakes the lane.
    pub fn enqueue_close_notification_requested(&mut self, runtime_service: P::WeakService, request: ServiceWorkerCloseNotification<P>, generation: u64)
        ensures
            final(self).pending() == old(self).pending().push(
                (ServiceWorkerRuntimeCompletion::<P> {
                    runtime_service,
                    kind: ServiceWorkerRuntimeCompletionKind::<P>::CloseNotificationRequested { request, generation },
                }),
            ),
            final(self).spec_wake_signals() == saturating_increment(old(self).spec_wake_signals()),
    {
        self.enqueue_service_lane_completion(ServiceWorkerRuntimeCompletion::close_notification_requested(runtime_service, request, generation));
    }

    /// Queues a `ClientMessage` completion for `runtime_service` and wakes the lane.
    pub fn enqueue_client_message(&mut self, runtime_service: P::WeakService, message: ServiceWorkerClientMessage<P>)
        ensures
            final(self).pending() == old(self).pending().push(
                (ServiceWorkerRuntimeCompletion::<P> {
                    runtime_service,
                    kind: ServiceWorkerRuntimeCompletionKind::<P>::ClientMessage { message },
                }),
            ),
            final(self).spec_wake_signals() == saturating_increment(old(self).spec_wake_signals()),
    {
        self.enqueue_service_lane_completion(ServiceWorkerRuntimeCompletion::client_message(runtime_service, message));
    }

    /// Queues a `WorkerMessage` completion for `runtime_service` and wakes the lane.
    pub fn enqueue_worker_message(&mut self, runtime_service: P::WeakService, message: ServiceWorkerWorkerMessage<P>)
        ensures
            final(self).pending() == old(self).pending().push(
                (ServiceWorkerRuntimeCompletion::<P> {
                    runtime_service,
                    kind: ServiceWorkerRuntimeCompletionKind::<P>::WorkerMessage { message },
                }),
            ),
            final(self).spec_wake_signals() == saturating_increment(old(self).spec_wake_signals()),
    {
        self.enqueue_service_lane_completion(ServiceWorkerRuntimeCompletion::worker_message(runtime_service, message));
    }

    /// Queues a `ClientQuery` completion for `runtime_service` and wakes the lane.
    pub fn enqueue_client_query(&mut self, runtime_service: P::WeakService, query: ServiceWorkerClientQuery<P>, generation: u64)
        ensures
            final(self).pending() == old(self).pending().push(
                (ServiceWorkerRuntimeCompletion::<P> {
                    runtime_service,
                    kind: ServiceWorkerRuntimeCompletionKind::<P>::ClientQuery { query, generation },
                }),
            ),
            final(self).spec_wake_signals() == saturating_increment(old(self).spec_wake_signals()),
    {
        self.enqueue_service_lane_completion(ServiceWorkerRuntimeCompletion::client_query(runtime_service, query, generation));
    }

    /// Queues a `ClientNavigate` completion for `runtime_service` and wakes the lane.
    pub fn enqueue_client_navigate(&mut self, runtime_service: P::WeakService, navigate: ServiceWorkerClientNavigate<P>, generation: u64)
        ensures
            final(self).pending() == old(self).pending().push(
                (ServiceWorkerRuntimeCompletion::<P> {
                    runtime_service,
                    kind: ServiceWorkerRuntimeCompletionKind::<P>::ClientNavigate { navigate, generation },
                }),
            ),
            final(self).spec_wake_signals() == saturating_increment(old(self).spec_wake_signals()),
    {
        self.enqueue_service_lane_completion(ServiceWorkerRuntimeCompletion::client_navigate(runtime_service, navigate, generation));
    }

    /// Queues a `ClientNavigateCompleted` completion for `runtime_service` and wakes the lane.
    pub fn enqueue_client_navigate_completed(&mut self, runtime_service: P::WeakService, completion: ServiceWorkerClientNavigateCompletion<P>)
        ensures
            final(self).pending() == old(self).pending().push(
                (ServiceWorkerRuntimeCompletion::<P> {
                    runtime_service,
                    kind: ServiceWorkerRuntimeCompletionKind::<P>::ClientNavigateCompleted { completion },
                }),
            ),
            final(self).spec_wake_signals() == saturating_increment(old(self).spec_wake_signals()),
    {
        self.enqueue_service_lane_completion(ServiceWorkerRuntimeCompletion::client_navigate_completed(runtime_service, completion));
    }

    /// Queues a `ClientFocus` completion for `runtime_service` and wakes the lane.
    pub fn enqueue_client_focus(&mut self, runtime_service: P::WeakService, focus: ServiceWorkerClientFocus<P>, generation: u64)
        ensures
            final(self).pending() == old(self).pending().push(
                (ServiceWorkerRuntimeCompletion::<P> {
                    runtime_service,
                    kind: ServiceWorkerRuntimeCompletionKind::<P>::ClientFocus { focus, generation },
                }),
            ),
            final(self).spec_wake_signals() == saturating_increment(old(self).spec_wake_signals()),
    {
        self.enqueue_service_lane_completion(ServiceWorkerRuntimeCompletion::client_focus(runtime_service, focus, generation));
    }

    /// Queues a `ClientFocusCompleted` completion for `runtime_service` and wakes the lane.
    pub fn enqueue_client_focus_completed(&mut self, runtime_service: P::WeakService, completion: ServiceWorkerClientFocusCompletion<P>)
        ensures
            final(self).pending() == old(self).pending().push(
                (ServiceWorkerRuntimeCompletion::<P> {
                    runtime_service,
                    kind: ServiceWorkerRuntimeCompletionKind::<P>::ClientFocusCompleted { completion },
                }),
            ),
            final(self).spec_wake_signals() == saturating_increment(old(self).spec_wake_signals()),
    {
        self.enqueue_service_lane_completion(ServiceWorkerRuntimeCompletion::client_focus_completed(runtime_service, completion));
    }

    /// Queues a `ClientsOpenWindow` completion for `runtime_service` and wakes the lane.
    pub fn enqueue_clients_open_window(&mut self, runtime_service: P::WeakService, open_window: ServiceWorkerClientsOpenWindow<P>, generation: u64)
        ensures
            final(self).pending() == old(self).pending().push(
                (ServiceWorkerRuntimeCompletion::<P> {
                    runtime_service,
                    kind: ServiceWorkerRuntimeCompletionKind::<P>::ClientsOpenWindow { open_window, generation },
                }),
            ),
            final(self).spec_wake_signals() == saturating_increment(old(self).spec_wake_signals()),
    {
        self.enqueue_service_lane_completion(ServiceWorkerRuntimeCompletion::clients_open_window(runtime_service, open_window, generation));
    }

    /// Queues a `ClientsOpenWindowCompleted` completion for `runtime_service` and wakes the lane.
    pub fn enqueue_clients_open_window_completed(&mut self, runtime_service: P::WeakService, completion: ServiceWorkerClientsOpenWindowCompletion<P>)
        ensures
            final(self).pending() == old(self).pending().push(
                (ServiceWorkerRuntimeCompletion::<P> {
                    runtime_service,
                    kind: ServiceWorkerRuntimeCompletionKind::<P>::ClientsOpenWindowCompleted { completion },
                }),
            ),
            final(self).spec_wake_signals() == saturating_increment(old(self).spec_wake_signals()),
    {
        self.enqueue_service_lane_completion(ServiceWorkerRuntimeCompletion::clients_open_window_completed(runtime_service, completion));
    }

    /// Queues a `IdleTimeout` completion for `runtime_service` and wakes the lane.
    pub fn enqueue_worker_idle_timeout(&mut self, runtime_service: P::WeakService, version_id: ServiceWorkerVersionId, generation: u64, idle_generation: u64)
        ensures
            final(self).pending() == old(self).pending().push(
                (ServiceWorkerRuntimeCompletion::<P> {
                    runtime_service,
                    kind: ServiceWorkerRuntimeCompletionKind::<P>::IdleTimeout { version_id, generation, idle_generation },
                }),
            ),
            final(self).spec_wake_signals() == saturating_increment(old(self).spec_wake_signals()),
    {
        self.enqueue_service_lane_completion(ServiceWorkerRuntimeCompletion::idle_timeout(runtime_service, version_id, generation, idle_generation));
    }

    /// Queues a `SkipWaitingRequested` completion for `runtime_service` and wakes the lane.
    pub fn enqueue_skip_waiting_requested(&mut self, runtime_service: P::WeakService, registration_id: ServiceWorkerRegistrationId, version_id: ServiceWorkerVersionId)
        ensures
            final(self).pending() == old(self).pending().push(
                (ServiceWorkerRuntimeCompletion::<P> {
                    runtime_service,
                    kind: ServiceWorkerRuntimeCompletionKind::<P>::SkipWaitingRequested { registration_id, version_id },
                }),
            ),
            final(self).spec_wake_signals() == saturating_increment(old(self).spec_wake_signals()),
    {
        self.enqueue_service_lane_completion(ServiceWorkerRuntimeCompletion::skip_waiting_requested(runtime_service, registration_id, version_id));
    }

    /// Queues a `ClientsClaimRequested` completion for `runtime_service` and wakes the lane.
    pub fn enqueue_clients_claim_requested(&mut self, runtime_service: P::WeakService, registration_id: ServiceWorkerRegistrationId, version_id: ServiceWorkerVersionId)
        ensures
            final(self).pending() == old(self).pending().push(
                (ServiceWorkerRuntimeCompletion::<P> {
                    runtime_service,
                    kind: ServiceWorkerRuntimeCompletionKind::<P>::ClientsClaimRequested { registration_id, version_id },
                }),
            ),
            final(self).spec_wake_signals() == saturating_increment(old(self).spec_wake_signals()),
    {
        self.enqueue_service_lane_completion(ServiceWorkerRuntimeCompletion::clients_claim_requested(runtime_service, registration_id, version_id));
    }

}

/// A summary named `name` with the given 2 fields.
fn summary_with_fields2(name: &str, n0: &str, v0: ServiceWorkerDebugValue, n1: &str, v1: ServiceWorkerDebugValue, exhaustive: bool) -> (summary: ServiceWorkerRuntimeCompletionSummary)
    ensures
        summary.name@ == name@,
        summary_fields_view(summary.fields@) == seq![(n0@, v0@), (n1@, v1@)],
        summary.exhaustive == exhaustive,
{
    let mut fields: Vec<(String, ServiceWorkerDebugValue)> = Vec::new();
    fields.push((n0.to_owned(), v0));
    fields.push((n1.to_owned(), v1));
    let summary = ServiceWorkerRuntimeCompletionSummary { name: name.to_owned(), fields, exhaustive };
    assert(summary_fields_view(summary.fields@) =~= seq![(n0@, v0@), (n1@, v1@)]);
    summary
}

/// A summary named `name` with the given 3 fields.
fn summary_with_fields3(name: &str, n0: &str, v0: ServiceWorkerDebugValue, n1: &str, v1: ServiceWorkerDebugValue, n2: &str, v2: ServiceWorkerDebugValue, exhaustive: bool) -> (summary: ServiceWorkerRuntimeCompletionSummary)
    ensures
        summary.name@ == name@,
        summary_fields_view(summary.fields@) == seq![(n0@, v0@), (n1@, v1@), (n2@, v2@)],
        summary.exhaustive == exhaustive,
{
    let mut fields: Vec<(String, ServiceWorkerDebugValue)> = Vec::new();
    fields.push((n0.to_owned(), v0));
    fields.push((n1.to_owned(), v1));
    fields.push((n2.to_owned(), v2));
    let summary = ServiceWorkerRuntimeCompletionSummary { name: name.to_owned(), fields, exhaustive };
    assert(summary_fields_view(summary.fields@) =~= seq![(n0@, v0@), (n1@, v1@), (n2@, v2@)]);
    summary
}

/// A summary named `name` with the given 4 fields.
fn summary_with_fields4(name: &str, n0: &str, v0: ServiceWorkerDebugValue, n1: &str, v1: ServiceWorkerDebugValue, n2: &str, v2: ServiceWorkerDebugValue, n3: &str, v3: ServiceWorkerDebugValue, exhaustive: bool) -> (summary: ServiceWorkerRuntimeCompletionSummary)
    ensures
        summary.name@ == name@,
        summary_fields_view(summary.fields@) == seq![(n0@, v0@), (n1@, v1@), (n2@, v2@), (n3@, v3@)],
        summary.exhaustive == exhaustive,
{
    let mut fields: Vec<(String, ServiceWorkerDebugValue)> = Vec::new();
    fields.push((n0.to_owned(), v0));
    fields.push((n1.to_owned(), v1));
    fields.push((n2.to_owned(), v2));
    fields.push((n3.to_owned(), v3));
    let summary = ServiceWorkerRuntimeCompletionSummary { name: name.to_owned(), fields, exhaustive };
    assert(summary_fields_view(summary.fields@) =~= seq![(n0@, v0@), (n1@, v1@), (n2@, v2@), (n3@, v3@)]);
    summary
}

/// A summary named `name` with the given 5 fields.
fn summary_with_fields5(name: &str, n0: &str, v0: ServiceWorkerDebugValue, n1: &str, v1: ServiceWorkerDebugValue, n2: &str, v2: ServiceWorkerDebugValue, n3: &str, v3: ServiceWorkerDebugValue, n4: &str, v4: ServiceWorkerDebugValue, exhaustive: bool) -> (summary: ServiceWorkerRuntimeCompletionSummary)
    ensures
        summary.name@ == name@,
        summary_fields_view(summary.fields@) == seq![(n0@, v0@), (n1@, v1@), (n2@, v2@), (n3@, v3@), (n4@, v4@)],
        summary.exhaustive == exhaustive,
{
    let mut fields: Vec<(String, ServiceWorkerDebugValue)> = Vec::new();
    fields.push((n0.to_owned(), v0));
    fields.push((n1.to_owned(), v1));
    fields.push((n2.to_owned(), v2));
    fields.push((n3.to_owned(), v3));
    fields.push((n4.to_owned(), v4));
    let summary = ServiceWorkerRuntimeCompletionSummary { name: name.to_owned(), fields, exhaustive };
    assert(summary_fields_view(summary.fields@) =~= seq![(n0@, v0@), (n1@, v1@), (n2@, v2@), (n3@, v3@), (n4@, v4@)]);
    summary
}


/// `n + 1`, or `n` where that does not fit in a `u64`.
pub open spec fn saturating_increment(n: u64) -> u64 {
    if n < u64::MAX { (n + 1) as u64 } else { n }
}

/// Routing keeps the kind of a completion: each completion kind is finished
/// by the finish step of the same name, and by no other.
pub proof fn law_completion_routing_keeps_the_kind<P: ServiceWorkerRuntimeTypes>(kind: ServiceWorkerRuntimeCompletionKind<P>)
    ensures
        (kind is VersionStartCompleted) <==> (finish_request_for(kind) is WorkerStartCompleted),
        (kind is VersionStartFailed) <==> (finish_request_for(kind) is WorkerStartFailed),
        (kind is ImportedScriptLoaded) <==> (finish_request_for(kind) is ImportedScriptLoaded),
        (kind is MainScriptUpdateCheckCompleted) <==> (finish_request_for(kind) is MainScriptUpdateCheckCompleted),
        (kind is LifecycleEventCompleted) <==> (finish_request_for(kind) is LifecycleEventCompleted),
        (kind is FetchEventCompleted) <==> (finish_request_for(kind) is FetchEventCompleted),
        (kind is FetchStreamStarted) <==> (finish_request_for(kind) is FetchStreamStarted),
        (kind is FetchStreamChunk) <==> (finish_request_for(kind) is FetchStreamChunk),
        (kind is MessageEventCompleted) <==> (finish_request_for(kind) is MessageEventCompleted),
        (kind is NotificationEventCompleted) <==> (finish_request_for(kind) is NotificationEventCompleted),
        (kind is PushEventCompleted) <==> (finish_request_for(kind) is PushEventCompleted),
        (kind is SyncEventCompleted) <==> (finish_request_for(kind) is SyncEventCompleted),
        (kind is PeriodicSyncEventCompleted) <==> (finish_request_for(kind) is PeriodicSyncEventCompleted),
        (kind is ShowNotificationRequested) <==> (finish_request_for(kind) is ShowNotificationRequested),
        (kind is GetNotificationsRequested) <==> (finish_request_for(kind) is GetNotificationsRequested),
        (kind is SyncRegistrationRequested) <==> (finish_request_for(kind) is SyncRegistrationRequested),
        (kind is SyncGetTagsRequested) <==> (finish_request_for(kind) is SyncGetTagsRequested),
        (kind is PeriodicSyncRegistrationRequested) <==> (finish_request_for(kind) is PeriodicSyncRegistrationRequested),
        (kind is PeriodicSyncGetTagsRequested) <==> (finish_request_for(kind) is PeriodicSyncGetTagsRequested),
        (kind is PeriodicSyncUnregistrationRequested) <==> (finish_request_for(kind) is PeriodicSyncUnregistrationRequested),
        (kind is PushSubscribeRequested) <==> (finish_request_for(kind) is PushSubscribeRequested),
        (kind is PushGetSubscriptionRequested) <==> (finish_request_for(kind) is PushGetSubscriptionRequested),
        (kind is PushUnsubscribeRequested) <==> (finish_request_for(kind) is PushUnsubscribeRequested),
        (kind is CloseNotificationRequested) <==> (finish_request_for(kind) is CloseNotificationRequested),
        (kind is ClientMessage) <==> (finish_request_for(kind) is ClientMessage),
        (kind is WorkerMessage) <==> (finish_request_for(kind) is WorkerMessage),
        (kind is ClientQuery) <==> (finish_request_for(kind) is ClientQueryRequested),
        (kind is ClientNavigate) <==> (finish_request_for(kind) is ClientNavigateRequested),
        (kind is ClientNavigateCompleted) <==> (finish_request_for(kind) is ClientNavigateCompleted),
        (kind is ClientFocus) <==> (finish_request_for(kind) is ClientFocusRequested),
        (kind is ClientFocusCompleted) <==> (finish_request_for(kind) is ClientFocusCompleted),
        (kind is ClientsOpenWindow) <==> (finish_request_for(kind) is ClientsOpenWindowRequested),
        (kind is ClientsOpenWindowCompleted) <==> (finish_request_for(kind) is ClientsOpenWindowCompleted),
        (kind is IdleTimeout) <==> (finish_request_for(kind) is WorkerIdleTimeout),
        (kind is SkipWaitingRequested) <==> (finish_request_for(kind) is WorkerSkipWaitingRequested),
        (kind is ClientsClaimRequested) <==> (finish_request_for(kind) is WorkerClientsClaimRequested),
{
}

/// Routing loses nothing: two completions that are finished by the same
/// finish request are the same completion.
pub proof fn law_completion_routing_is_injective<P: ServiceWorkerRuntimeTypes>(
    a: ServiceWorkerRuntimeCompletionKind<P>,
    b: ServiceWorkerRuntimeCompletionKind<P>,
)
    ensures
        finish_request_for(a) == finish_request_for(b) ==> a == b,
{
}

/// Routing carries a completion's identities over unchanged: the finish
/// step of an idle timeout, a skip-waiting or a clients-claim request, a
/// failed start or a loaded imported script names the same registration,
/// version and generations as the completion.
pub proof fn law_completion_routing_keeps_identities<P: ServiceWorkerRuntimeTypes>(
    kind: ServiceWorkerRuntimeCompletionKind<P>,
)
    ensures
        kind matches ServiceWorkerRuntimeCompletionKind::IdleTimeout { version_id, generation, idle_generation }
            ==> (finish_request_for(kind) matches ServiceWorkerFinishRequest::WorkerIdleTimeout {
            version_id: v,
            generation: g,
            idle_generation: i,
        } && v == version_id && g == generation && i == idle_generation),
        kind matches ServiceWorkerRuntimeCompletionKind::SkipWaitingRequested { registration_id, version_id }
            ==> (finish_request_for(kind) matches ServiceWorkerFinishRequest::WorkerSkipWaitingRequested {
            registration_id: r,
            version_id: v,
        } && r == registration_id && v == version_id),
        kind matches ServiceWorkerRuntimeCompletionKind::ClientsClaimRequested { registration_id, version_id }
            ==> (finish_request_for(kind) matches ServiceWorkerFinishRequest::WorkerClientsClaimRequested {
            registration_id: r,
            version_id: v,
        } && r == registration_id && v == version_id),
        kind matches ServiceWorkerRuntimeCompletionKind::VersionStartFailed { version_id, generation, .. }
            ==> (finish_request_for(kind) matches ServiceWorkerFinishRequest::WorkerStartFailed {
            version_id: v,
            generation: g,
            ..
        } && v == version_id && g == generation),
        kind matches ServiceWorkerRuntimeCompletionKind::ImportedScriptLoaded { registration_id, version_id, generation, .. }
            ==> (finish_request_for(kind) matches ServiceWorkerFinishRequest::ImportedScriptLoaded {
            registration_id: r,
            version_id: v,
            generation: g,
            ..
        } && r == registration_id && v == version_id && g == generation),
{
}

} // verus!
