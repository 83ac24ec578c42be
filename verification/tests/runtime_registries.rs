use moli_renderer::bridge_identity::{BridgeHandle, DomHandle, DomTokenListKind, NativeDomBridgeIdentity};
use moli_renderer::dedicated_workers::{
    finish_dedicated_worker_runtime_protocol_dispatch, RendererBrowserContextRuntime, WorkerHandle,
    WorkerMessage,
};
use moli_renderer::webcrypto_tasks::{
    RendererPageWebCryptoTaskId, RuntimeObservableContextToken, WebCryptoTaskTable,
    WindowExecutionContextIdentity, WindowExecutionContextOwner,
};

fn context(owner: u64, realm: u64) -> WindowExecutionContextIdentity {
    WindowExecutionContextIdentity {
        owner: WindowExecutionContextOwner(owner),
        dispatch_scope: 1,
        realm_token: RuntimeObservableContextToken(realm),
    }
}

#[test]
fn dedicated_worker_instance_ids_start_at_one_and_increase() {
    let mut runtime = RendererBrowserContextRuntime::new();
    assert_eq!(runtime.allocate_dedicated_worker_instance_id(), 1);
    assert_eq!(runtime.allocate_dedicated_worker_instance_id(), 2);
    assert_eq!(runtime.allocate_dedicated_worker_instance_id(), 3);
}

#[test]
fn dedicated_worker_commands_reach_only_registered_workers() {
    let mut runtime = RendererBrowserContextRuntime::new();
    assert!(!runtime.attach_dedicated_worker_runtime_inspector_session(5, None));
    assert!(!runtime.close_dedicated_worker_for_devtools(5));

    let (tx, mut rx) = tokio::sync::mpsc::unbounded_channel();
    runtime.attach_dedicated_worker_devtools_handle(5, &WorkerHandle { tx });
    assert!(runtime.attach_dedicated_worker_runtime_inspector_session(5, Some("SID".to_owned())));
    assert!(runtime.run_dedicated_worker_if_waiting_for_debugger_for_devtools(5));
    assert!(runtime.close_dedicated_worker_for_devtools(5));
    assert!(matches!(
        rx.try_recv(),
        Ok(WorkerMessage::AttachRuntimeInspectorSession { inspector_session_id: Some(id) }) if id == "SID"
    ));
    assert!(matches!(rx.try_recv(), Ok(WorkerMessage::RunIfWaitingForDebuggerForDevtools)));
    assert!(matches!(rx.try_recv(), Ok(WorkerMessage::Terminate)));

    runtime.unregister_dedicated_worker_devtools_handle(5);
    assert!(!runtime.detach_dedicated_worker_runtime_inspector_session(5, None));
}

#[test]
fn dedicated_worker_dispatch_reports_unavailable_workers() {
    let runtime = RendererBrowserContextRuntime::new();
    assert_eq!(
        runtime
            .start_dedicated_worker_runtime_protocol_dispatch(9, None, "{}".to_owned(), None)
            .err(),
        Some("DedicatedWorkerRuntimeUnavailable".to_owned())
    );
    let mut runtime = RendererBrowserContextRuntime::new();
    let (tx, rx) = tokio::sync::mpsc::unbounded_channel();
    runtime.attach_dedicated_worker_devtools_handle(9, &WorkerHandle { tx });
    drop(rx);
    assert!(runtime
        .start_dedicated_worker_runtime_protocol_dispatch(9, None, "{}".to_owned(), None)
        .is_err());
    assert_eq!(
        finish_dedicated_worker_runtime_protocol_dispatch(None),
        Err("DedicatedWorkerRuntimeUnavailable".to_owned())
    );
    assert_eq!(
        finish_dedicated_worker_runtime_protocol_dispatch(Some(Err("denied".to_owned()))),
        Err("denied".to_owned())
    );
}

#[test]
fn dedicated_worker_pause_flag_round_trips() {
    let mut runtime = RendererBrowserContextRuntime::new();
    assert!(!runtime.dedicated_worker_pause_on_start_for_devtools());
    runtime.set_dedicated_worker_pause_on_start_for_devtools(true);
    assert!(runtime.dedicated_worker_pause_on_start_for_devtools());
}

#[test]
fn webcrypto_tasks_are_delivered_only_to_their_exact_owner() {
    let mut table: WebCryptoTaskTable<&str> = WebCryptoTaskTable::new();
    let task = table
        .register_pending_webcrypto_task(Some(context(1, 10)), 4, "resolver")
        .expect("a task with a current context registers");
    assert_eq!(task.task_id(), 1);
    assert_eq!(task.transport_generation(), 4);
    assert!(table.has_pending_webcrypto_tasks());

    assert!(table
        .take_pending_webcrypto_task_for_exact_owner(context(2, 10), task)
        .is_none());
    assert!(table
        .take_pending_webcrypto_task_for_exact_owner(context(1, 10), RendererPageWebCryptoTaskId::new(1, 5))
        .is_none());
    assert_eq!(
        table.current_pending_webcrypto_task_execution_context(task, |c| c == context(1, 10)),
        Some(context(1, 10))
    );
    assert_eq!(table.current_pending_webcrypto_task_execution_context(task, |_| false), None);
    let taken = table
        .take_pending_webcrypto_task_for_exact_owner(context(1, 10), task)
        .expect("the exact owner takes its task");
    assert_eq!(taken.resolver, "resolver");
    assert_eq!(table.pending_webcrypto_task_count(), 0);
}

#[test]
fn webcrypto_registration_without_context_still_advances_the_id() {
    let mut table: WebCryptoTaskTable<u8> = WebCryptoTaskTable::new();
    assert!(table.register_pending_webcrypto_task(None, 1, 0).is_none());
    let task = table
        .register_pending_webcrypto_task(Some(context(1, 1)), 1, 0)
        .expect("registers");
    assert_eq!(task.task_id(), 2);
}

#[test]
fn webcrypto_retirement_drops_tasks_by_owner_and_by_realm() {
    let mut table: WebCryptoTaskTable<u8> = WebCryptoTaskTable::new();
    table.register_pending_webcrypto_task(Some(context(1, 10)), 0, 1);
    table.register_pending_webcrypto_task(Some(context(2, 20)), 0, 2);
    table.register_pending_webcrypto_task(Some(context(1, 30)), 0, 3);
    table.register_pending_webcrypto_task(Some(context(3, 20)), 0, 4);
    assert_eq!(table.retire_webcrypto_execution_context_owner(WindowExecutionContextOwner(1)), 2);
    assert_eq!(table.retire_webcrypto_context_token(RuntimeObservableContextToken(20)), 2);
    assert_eq!(table.retire_webcrypto_context_token(RuntimeObservableContextToken(20)), 0);
    assert!(!table.has_pending_webcrypto_tasks());
    table.register_pending_webcrypto_task(Some(context(5, 50)), 0, 5);
    assert_eq!(
        table.pending_webcrypto_execution_contexts_for_testing(),
        vec![(WindowExecutionContextOwner(5), RuntimeObservableContextToken(50))]
    );
}

#[test]
fn bridge_identity_reuses_and_rebinds_wrapper_identities() {
    let mut identity = NativeDomBridgeIdentity::new();
    let node = BridgeHandle::Node(DomHandle(4), 1);
    let list = BridgeHandle::ClassList(DomHandle(4), 1, DomTokenListKind::Class);
    let node_id = identity.reflector_id(node);
    let list_id = identity.reflector_id(list);
    let window_id = identity.reflector_id(BridgeHandle::Window);
    assert_eq!(identity.reflector_id(node), node_id);
    assert_eq!(node_id.raw(), 1);
    assert_eq!(identity.resolve_node_handle(node_id), Some(DomHandle(4)));
    assert_eq!(identity.resolve_node_handle(list_id), None);

    assert_eq!(identity.rebind_generation(1, 2), Some(2));
    assert_eq!(identity.existing_reflector_id(node), None);
    assert_eq!(identity.existing_reflector_id(BridgeHandle::Node(DomHandle(4), 2)), Some(node_id));
    assert_eq!(
        identity.bridge_handle(list_id),
        Some(BridgeHandle::ClassList(DomHandle(4), 2, DomTokenListKind::Class))
    );
    assert_eq!(identity.bridge_handle(window_id), Some(BridgeHandle::Window));
}

#[test]
fn bridge_identity_refuses_a_rebind_onto_registered_handles() {
    let mut identity = NativeDomBridgeIdentity::new();
    let old = identity.reflector_id(BridgeHandle::Dataset(DomHandle(1), 1));
    let newer = identity.reflector_id(BridgeHandle::Dataset(DomHandle(1), 2));
    assert_eq!(identity.rebind_generation(1, 2), None);
    assert_eq!(identity.existing_reflector_id(BridgeHandle::Dataset(DomHandle(1), 1)), Some(old));
    assert_eq!(identity.existing_reflector_id(BridgeHandle::Dataset(DomHandle(1), 2)), Some(newer));
}

#[test]
fn webcrypto_retirement_of_an_unknown_owner_drops_nothing() {
    let mut table: WebCryptoTaskTable<u8> = WebCryptoTaskTable::new();
    table.register_pending_webcrypto_task(Some(context(1, 10)), 0, 1);
    table.register_pending_webcrypto_task(Some(context(2, 20)), 0, 2);
    assert_eq!(table.retire_webcrypto_execution_context_owner(WindowExecutionContextOwner(9)), 0);
    assert_eq!(table.pending_webcrypto_task_count(), 2);
    let mut contexts = table.pending_webcrypto_execution_contexts_for_testing();
    contexts.sort_by_key(|(owner, realm)| (owner.0, realm.0));
    assert_eq!(
        contexts,
        vec![
            (WindowExecutionContextOwner(1), RuntimeObservableContextToken(10)),
            (WindowExecutionContextOwner(2), RuntimeObservableContextToken(20)),
        ]
    );
}
