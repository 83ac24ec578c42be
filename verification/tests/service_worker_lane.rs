use moli_renderer::service_worker_lane::{
    render_debug_struct, render_debug_value, ServiceWorkerDebugValue, ServiceWorkerFetchStreamChunk, ServiceWorkerFinishRequest,
    ServiceWorkerLifecycleCompletion, ServiceWorkerLifecycleEventKind, ServiceWorkerRegistrationId,
    ServiceWorkerRuntimeCompletion, ServiceWorkerRuntimeCompletionKind, ServiceWorkerRuntimeTypes,
    ServiceWorkerServiceLane, ServiceWorkerSyncRegistration, ServiceWorkerVersionId,
};

struct TestTypes;

impl ServiceWorkerRuntimeTypes for TestTypes {
    type WeakService = u64;
    type SourceHost = ();
    type ScriptResource = String;
    type WorkerScriptResource = ();
    type FetchHandlerType = ();
    type StartFailure = ();
    type UpdateCheckOutput = u32;
    type UpdateCheckError = String;
    type LifecycleCompletionBody = ();
    type FetchCompletionBody = ();
    type FetchStreamStartedBody = ();
    type FetchStreamChunkBody = ();
    type MessageCompletionBody = ();
    type NotificationCompletionBody = ();
    type PushCompletionBody = ();
    type SyncCompletionBody = ();
    type PeriodicSyncCompletionBody = ();
    type ShowNotificationBody = ();
    type GetNotificationsBody = ();
    type SyncRegistrationBody = ();
    type SyncGetTagsBody = ();
    type PeriodicSyncRegistrationBody = ();
    type PeriodicSyncGetTagsBody = ();
    type PeriodicSyncUnregistrationBody = ();
    type PushSubscribeBody = ();
    type PushGetSubscriptionBody = ();
    type PushUnsubscribeBody = ();
    type CloseNotificationBody = ();
    type ClientMessageBody = ();
    type WorkerMessageBody = ();
    type ClientQueryBody = ();
    type ClientNavigateBody = ();
    type ClientNavigateCompletionBody = ();
    type ClientFocusBody = ();
    type ClientFocusCompletionBody = ();
    type ClientsOpenWindowBody = ();
    type ClientsOpenWindowCompletionBody = ();
}

fn field_names(summary: &moli_renderer::service_worker_lane::ServiceWorkerRuntimeCompletionSummary) -> Vec<String> {
    summary.fields.iter().map(|(name, _)| name.clone()).collect()
}

#[test]
fn version_start_completion_routes_to_the_start_finish_step_with_its_script() {
    let completion = ServiceWorkerRuntimeCompletion::<TestTypes>::version_start_completed(
        41,
        ServiceWorkerVersionId(3),
        9,
        "https://sw.test/sw.js".to_owned(),
        "script body".to_owned(),
        (),
    );
    let (weak, request) = completion.complete();
    assert_eq!(weak, 41);
    match request {
        ServiceWorkerFinishRequest::WorkerStartCompleted {
            version_id,
            generation,
            final_script_url,
            script_resource,
            ..
        } => {
            assert_eq!(version_id, ServiceWorkerVersionId(3));
            assert_eq!(generation, 9);
            assert_eq!(final_script_url, "https://sw.test/sw.js");
            assert_eq!(script_resource, Some("script body".to_owned()));
        }
        _ => panic!("a version start completion must route to the start finish step"),
    }
}

#[test]
fn idle_timeout_routes_with_both_generations() {
    let completion =
        ServiceWorkerRuntimeCompletion::<TestTypes>::idle_timeout(5, ServiceWorkerVersionId(2), 4, 6);
    match completion.complete().1 {
        ServiceWorkerFinishRequest::WorkerIdleTimeout {
            version_id,
            generation,
            idle_generation,
        } => {
            assert_eq!(version_id, ServiceWorkerVersionId(2));
            assert_eq!(generation, 4);
            assert_eq!(idle_generation, 6);
        }
        _ => panic!("an idle timeout must route to the idle finish step"),
    }
}

#[test]
fn finish_step_is_dropped_when_the_service_is_gone() {
    let completion = ServiceWorkerRuntimeCompletion::<TestTypes>::skip_waiting_requested(
        1,
        ServiceWorkerRegistrationId(8),
        ServiceWorkerVersionId(9),
    );
    let (_, request) = completion.complete();
    assert!(request.deliver_if_live::<&str>(None).is_none());

    let completion = ServiceWorkerRuntimeCompletion::<TestTypes>::clients_claim_requested(
        1,
        ServiceWorkerRegistrationId(8),
        ServiceWorkerVersionId(9),
    );
    let (_, request) = completion.complete();
    let delivered = request.deliver_if_live(Some("service")).expect("a live service receives the step");
    assert_eq!(delivered.0, "service");
    assert!(matches!(
        delivered.1,
        ServiceWorkerFinishRequest::WorkerClientsClaimRequested {
            registration_id: ServiceWorkerRegistrationId(8),
            version_id: ServiceWorkerVersionId(9),
        }
    ));
}

#[test]
fn lane_keeps_completions_in_order_and_wakes_once_per_completion() {
    let mut lane = ServiceWorkerServiceLane::<TestTypes>::new();
    lane.enqueue_worker_idle_timeout(1, ServiceWorkerVersionId(1), 1, 1);
    lane.enqueue_skip_waiting_requested(2, ServiceWorkerRegistrationId(3), ServiceWorkerVersionId(4));
    assert_eq!(lane.pending_count(), 2);
    assert_eq!(lane.wake_signal_count(), 2);

    let first = lane.pop_front_completion().expect("first completion");
    assert_eq!(first.runtime_service, 1);
    assert!(matches!(first.kind, ServiceWorkerRuntimeCompletionKind::IdleTimeout { .. }));
    let second = lane.pop_front_completion().expect("second completion");
    assert_eq!(second.runtime_service, 2);
    assert!(matches!(
        second.kind,
        ServiceWorkerRuntimeCompletionKind::SkipWaitingRequested { .. }
    ));
    assert!(lane.pop_front_completion().is_none());
    assert_eq!(lane.wake_signal_count(), 2);
}

#[test]
fn debug_summary_names_the_kind_and_its_identifying_fields() {
    let completion = ServiceWorkerRuntimeCompletion::<TestTypes>::idle_timeout(5, ServiceWorkerVersionId(2), 4, 6);
    let summary = completion.debug_summary();
    assert_eq!(summary.name, "ServiceWorkerRuntimeCompletion::IdleTimeout");
    assert_eq!(field_names(&summary), vec!["version_id", "generation", "idle_generation"]);
    assert!(summary.exhaustive);

    let completion = ServiceWorkerRuntimeCompletion::<TestTypes>::lifecycle_event_completed(
        5,
        ServiceWorkerLifecycleCompletion {
            event_id: 11,
            version_id: ServiceWorkerVersionId(2),
            generation: 3,
            kind: ServiceWorkerLifecycleEventKind::Activate,
            body: (),
        },
    );
    let summary = completion.debug_summary();
    assert_eq!(summary.name, "ServiceWorkerRuntimeCompletion::LifecycleEventCompleted");
    assert_eq!(field_names(&summary), vec!["event_id", "version_id", "generation", "kind"]);
    assert!(!summary.exhaustive);
    assert!(matches!(summary.fields[0].1, ServiceWorkerDebugValue::Number(11)));
    assert!(matches!(
        summary.fields[3].1,
        ServiceWorkerDebugValue::LifecycleKind(ServiceWorkerLifecycleEventKind::Activate)
    ));
}

#[test]
fn debug_summary_reports_chunk_length_and_update_check_outcome() {
    let completion = ServiceWorkerRuntimeCompletion::<TestTypes>::fetch_stream_chunk(
        5,
        ServiceWorkerFetchStreamChunk {
            event_id: 1,
            body_source_id: 2,
            bytes: vec![1, 2, 3],
            body: (),
        },
    );
    let summary = completion.debug_summary();
    assert_eq!(field_names(&summary), vec!["event_id", "body_source_id", "bytes_len"]);
    assert!(matches!(summary.fields[2].1, ServiceWorkerDebugValue::Size(3)));

    let completion = ServiceWorkerRuntimeCompletion::<TestTypes>::main_script_update_check_completed(
        5,
        ServiceWorkerRegistrationId(1),
        Err("offline".to_owned()),
    );
    let summary = completion.debug_summary();
    assert_eq!(field_names(&summary), vec!["registration_id", "result_is_ok"]);
    assert!(matches!(summary.fields[1].1, ServiceWorkerDebugValue::Flag(false)));
}

#[test]
fn sync_registration_summary_carries_the_tag() {
    let completion = ServiceWorkerRuntimeCompletion::<TestTypes>::sync_registration_requested(
        5,
        ServiceWorkerSyncRegistration {
            request_id: 7,
            registration_id: ServiceWorkerRegistrationId(1),
            version_id: ServiceWorkerVersionId(2),
            tag: "inbox".to_owned(),
            body: (),
        },
        3,
        (),
    );
    let summary = completion.debug_summary();
    assert_eq!(
        field_names(&summary),
        vec!["request_id", "registration_id", "version_id", "generation", "tag"]
    );
    match &summary.fields[4].1 {
        ServiceWorkerDebugValue::Text(tag) => assert_eq!(tag, "inbox"),
        _ => panic!("the tag is reported as text"),
    }
}

#[test]
fn debug_text_renders_the_summary_as_a_debug_struct() {
    let completion = ServiceWorkerRuntimeCompletion::<TestTypes>::idle_timeout(5, ServiceWorkerVersionId(2), 4, 6);
    assert_eq!(
        completion.debug_text(),
        format!(
            "ServiceWorkerRuntimeCompletion::IdleTimeout {{ version_id: {:?}, generation: 4, idle_generation: 6 }}",
            ServiceWorkerVersionId(2)
        )
    );
    let completion = ServiceWorkerRuntimeCompletion::<TestTypes>::lifecycle_event_completed(
        5,
        ServiceWorkerLifecycleCompletion {
            event_id: 11,
            version_id: ServiceWorkerVersionId(2),
            generation: 3,
            kind: ServiceWorkerLifecycleEventKind::Activate,
            body: (),
        },
    );
    assert_eq!(
        completion.debug_text(),
        "ServiceWorkerRuntimeCompletion::LifecycleEventCompleted { event_id: 11, version_id: ServiceWorkerVersionId(2), generation: 3, kind: Activate, .. }"
    );
}

#[test]
fn debug_struct_text_follows_the_debug_struct_layout() {
    assert_eq!(render_debug_struct("A", &Vec::new(), true), "A");
    assert_eq!(render_debug_struct("A", &Vec::new(), false), "A { .. }");
    let fields = vec![("x".to_owned(), "1".to_owned()), ("y".to_owned(), "2".to_owned())];
    assert_eq!(render_debug_struct("A", &fields, true), "A { x: 1, y: 2 }");
    assert_eq!(render_debug_struct("A", &fields, false), "A { x: 1, y: 2, .. }");
    assert_eq!(render_debug_value(&ServiceWorkerDebugValue::Text("a\"b".to_owned())), format!("{:?}", "a\"b"));
    assert_eq!(render_debug_value(&ServiceWorkerDebugValue::Flag(false)), "false");
    assert_eq!(render_debug_value(&ServiceWorkerDebugValue::Size(0)), "0");
    assert_eq!(
        render_debug_value(&ServiceWorkerDebugValue::RegistrationId(ServiceWorkerRegistrationId(40))),
        format!("{:?}", ServiceWorkerRegistrationId(40))
    );
}
