use moli_renderer::inspector_backend::{sorted_session_keys, text_less, worker_script_loaded_session_ids};
use moli_renderer::document_scripts::{
    classic_execution_followup, enters_parser_script_nesting, finalized_post_parse_work,
    initial_acceptance_owner, initial_handoff_acceptance_steps, acceptance_step_outcome,
    FrameDocumentClassicScriptScheduling, FrameDocumentTaskOwner, InitialScriptAcceptanceStep,
    ParserHandoffKind, RendererPageMainDocumentTaskOwner,
};
use moli_renderer::inspector_backend::{
    pause_dispatch_error, record_execution_context_state, DevToolsSessionKey,
    DocumentInspectorDefaultContexts, PauseDispatchFailure, RendererInspectorClientUniqueIdState,
    RendererInspectorPauseSessions, RuntimeContextEvent,
};
use moli_renderer::layout_snapshot::LatestLayoutSnapshotCache;
use moli_renderer::bridge_identity::DomHandle;
use moli_renderer::worker_host_bridge::{PageId, RendererDocumentToken};

#[test]
fn pause_sessions_route_by_group_and_session_and_unregister_only_their_own_entry() {
    let mut sessions: RendererInspectorPauseSessions<&str> = RendererInspectorPauseSessions::new();
    let first = sessions.register_session(1, DevToolsSessionKey::from_wire_session_id(Some("SID")), 10, "first");
    assert_eq!(sessions.session_for_command(1, Some("SID")).map(|s| s.session), Ok("first"));
    assert_eq!(
        sessions.session_for_command(2, Some("SID")).map(|s| s.session),
        Err(PauseDispatchFailure::SessionUnavailable)
    );
    assert_eq!(
        sessions.session_for_command(1, Some("")).map(|s| s.session),
        Err(PauseDispatchFailure::SessionUnavailable)
    );

    let second = sessions.register_session(1, DevToolsSessionKey::from_wire_session_id(Some("SID")), 11, "second");
    assert_eq!(sessions.len(), 1);
    assert!(!sessions.unregister_session(&first));
    assert_eq!(sessions.session_for_command(1, Some("SID")).map(|s| s.session), Ok("second"));
    assert!(sessions.unregister_session(&second));
    assert_eq!(sessions.len(), 0);

    sessions.register_session(3, DevToolsSessionKey::from_wire_session_id(None), 12, "default");
    assert_eq!(sessions.session_for_command(3, Some("")).map(|s| s.session), Ok("default"));
}

#[test]
fn pause_dispatch_errors_use_the_server_error_code() {
    let response = pause_dispatch_error(4, PauseDispatchFailure::SessionDetached);
    assert_eq!(response.id, 4);
    assert_eq!(response.code, -32000);
    assert_eq!(response.message, "Inspector session has been detached");
    assert_eq!(
        PauseDispatchFailure::SessionUnavailable.message(),
        "Inspector session is not available"
    );
}

#[test]
fn unique_ids_increase_and_a_capture_names_the_context_by_two_ids() {
    let mut state = RendererInspectorClientUniqueIdState::new();
    assert_eq!(state.generate_unique_id(), 1);
    state.begin_context_unique_id_capture();
    assert_eq!(state.capture_depth_for_testing(), 1);
    assert_eq!(state.generate_unique_id(), 2);
    assert_eq!(state.generate_unique_id(), 3);
    assert_eq!(state.generate_unique_id(), 4);
    assert_eq!(state.finish_context_unique_id_capture(), Some("2.3".to_owned()));
    assert_eq!(state.capture_depth_for_testing(), 0);
    state.begin_context_unique_id_capture();
    state.generate_unique_id();
    assert_eq!(state.finish_context_unique_id_capture(), None);
}

#[test]
fn default_contexts_reset_only_for_their_owner() {
    let mut contexts = DocumentInspectorDefaultContexts::new();
    contexts.set_default_context(1, 100);
    contexts.set_default_context(2, 200);
    assert_eq!(contexts.len(), 2);
    assert!(!contexts.detach_default_context_if_same(1, 101));
    assert!(contexts.detach_default_context_if_same(1, 100));
    assert!(!contexts.detach_default_context_if_same(1, 100));
    assert!(contexts.reset_default_context_group_before_replacement(2));
    assert!(!contexts.reset_default_context_group_before_replacement(2));
    assert_eq!(contexts.len(), 0);
}

#[test]
fn worker_default_execution_context_follows_runtime_events() {
    let events = vec![
        Some(RuntimeContextEvent::Created { context_type: Some("page".to_owned()), context_id: Some(1) }),
        Some(RuntimeContextEvent::Created { context_type: Some("worker".to_owned()), context_id: Some(2) }),
        None,
        Some(RuntimeContextEvent::Destroyed { context_id: Some(1) }),
    ];
    assert_eq!(record_execution_context_state(None, &events), Some(2));
    let events = vec![Some(RuntimeContextEvent::Destroyed { context_id: Some(2) })];
    assert_eq!(record_execution_context_state(Some(2), &events), None);
    let events = vec![Some(RuntimeContextEvent::Cleared)];
    assert_eq!(record_execution_context_state(Some(5), &events), None);
}

#[test]
fn main_document_task_owner_keeps_its_three_layers() {
    let root = RendererDocumentToken { page_id: PageId::new_for_testing(3), generation: 2 };
    let owner = RendererPageMainDocumentTaskOwner::new_for_testing(root, FrameDocumentTaskOwner(8), 5);
    assert_eq!(owner.root_document(), root);
    assert_eq!(owner.document_owner(), FrameDocumentTaskOwner(8));
    assert_eq!(owner.runtime_generation(), 5);
    assert_ne!(owner, RendererPageMainDocumentTaskOwner::new(root, FrameDocumentTaskOwner(8), 6));
}

#[test]
fn initial_script_acceptance_plans_and_refusals() {
    assert_eq!(
        initial_handoff_acceptance_steps(ParserHandoffKind::BlockingClassic),
        vec![InitialScriptAcceptanceStep::BindParserScript, InitialScriptAcceptanceStep::PushPreparedScriptWork]
    );
    assert_eq!(
        initial_handoff_acceptance_steps(ParserHandoffKind::NoExecution { reports_run: true }),
        vec![InitialScriptAcceptanceStep::ApplyElementState, InitialScriptAcceptanceStep::RecordRun]
    );
    assert_eq!(
        acceptance_step_outcome(InitialScriptAcceptanceStep::AcceptAsyncModule, false),
        Err("initial parser async module could not bind its document owner".to_owned())
    );
    assert_eq!(
        acceptance_step_outcome(InitialScriptAcceptanceStep::AcceptAsyncClassic, false),
        Err("initial document async parser handoff could not establish discovery ownership".to_owned())
    );
    assert_eq!(acceptance_step_outcome(InitialScriptAcceptanceStep::ClaimDeferredScript, true), Ok(()));
    assert_eq!(acceptance_step_outcome(InitialScriptAcceptanceStep::RecordRun, false), Ok(()));
    assert_eq!(
        initial_acceptance_owner(None),
        Err("initial document script acceptance requires a main owner".to_owned())
    );
    assert_eq!(initial_acceptance_owner(Some(FrameDocumentTaskOwner(2))), Ok(FrameDocumentTaskOwner(2)));
}

#[test]
fn finalized_work_keeps_order_and_drops_everything_for_a_stale_owner() {
    assert_eq!(finalized_post_parse_work(true, vec![1, 2], vec![3], Some(4)), vec![1, 2, 3, 4]);
    assert_eq!(finalized_post_parse_work(true, vec![1], vec![], None), vec![1]);
    assert_eq!(finalized_post_parse_work(false, vec![1], vec![2], Some(3)), Vec::<u8>::new());
}

#[test]
fn child_classic_execution_followup() {
    assert!(enters_parser_script_nesting(FrameDocumentClassicScriptScheduling::ParserBlocking));
    assert!(!enters_parser_script_nesting(FrameDocumentClassicScriptScheduling::Other));
    let followup = classic_execution_followup(true, false);
    assert!(followup.script_job_attempted);
    assert!(followup.script_job_failed);
    assert!(!followup.completion_produced);
}

#[test]
fn layout_snapshot_is_read_only_for_its_document() {
    let mut cache = LatestLayoutSnapshotCache::new();
    assert_eq!(cache.get(DomHandle(1)), None);
    cache.publish(DomHandle(1), "layout one");
    assert_eq!(cache.get(DomHandle(1)), Some(&"layout one"));
    assert_eq!(cache.get(DomHandle(2)), None);
    cache.publish(DomHandle(2), "layout two");
    assert_eq!(cache.get(DomHandle(1)), None);
    assert_eq!(cache.published_document_for_testing(), Some(DomHandle(2)));
    cache.clear();
    assert_eq!(cache.get(DomHandle(2)), None);
}

#[test]
fn worker_script_loaded_announcements_follow_sorted_session_keys() {
    assert!(text_less("SID-1", "SID-2"));
    assert!(text_less("", "A"));
    assert!(text_less("A", "a"));
    assert!(!text_less("b", "a"));
    assert!(!text_less("same", "same"));
    let keys = vec!["SID-2".to_owned(), String::new(), "SID-10".to_owned(), "SID-1".to_owned()];
    assert_eq!(
        sorted_session_keys(&keys),
        vec![String::new(), "SID-1".to_owned(), "SID-10".to_owned(), "SID-2".to_owned()]
    );
    assert_eq!(
        worker_script_loaded_session_ids(&keys),
        vec![None, Some("SID-1".to_owned()), Some("SID-10".to_owned()), Some("SID-2".to_owned())]
    );
}
