use moli_renderer::inspector_outbound::{WorkerInspectorOutbound, WorkerInspectorPendingMessageBatch};
use moli_renderer::protocol::{RendererRuntimeInspectorMessage, RendererRuntimeInspectorResponseSender};
use serde_json::Value;

fn json(text: &str) -> Value {
    serde_json::from_str(text).expect("test JSON should parse")
}

fn inspector_message(value: Value) -> RendererRuntimeInspectorMessage {
    RendererRuntimeInspectorMessage::from_v8_inspector_message(value)
}

#[test]
fn worker_inspector_outbound_captures_dispatch_and_drops_stale_late_response() {
    let mut outbound = WorkerInspectorOutbound::default();

    outbound.push_dispatch_scope("SID-1");
    outbound.push_response_value("SID-1", 1, json(r#"{"id": 1, "result": "command-tail"}"#));
    let current = outbound.finish_dispatch_scope();
    outbound.push_response_value("SID-1", 2, json(r#"{"id": 2, "result": "late"}"#));

    assert_eq!(
        current,
        vec![inspector_message(json(r#"{"id": 1, "result": "command-tail"}"#))],
        "stale worker inspector responses without callbacks must not be forwarded as target lifecycle output"
    );
    assert!(
        outbound.take_all().is_empty(),
        "stale worker late response must not contaminate pending notifications"
    );
}

#[test]
fn worker_inspector_outbound_duplicate_response_callback_keeps_existing_callback() {
    let mut outbound = WorkerInspectorOutbound::default();
    let (first_tx, mut first_rx) = tokio::sync::oneshot::channel();
    let (second_tx, mut second_rx) = tokio::sync::oneshot::channel();

    outbound.register_response_callback("SID-1", RendererRuntimeInspectorResponseSender::new(7, first_tx));
    outbound.register_response_callback("SID-1", RendererRuntimeInspectorResponseSender::new(7, second_tx));
    outbound.push_response_value("SID-1", 7, json(r#"{"id": 7, "result": "first"}"#));

    let completion = first_rx.try_recv().expect("first deferred response");
    assert_eq!(completion.call_id, 7);
    assert_eq!(
        completion.output.protocol_response(7),
        Some(&json(r#"{"id": 7, "result": "first"}"#))
    );
    assert!(matches!(
        second_rx.try_recv(),
        Err(tokio::sync::oneshot::error::TryRecvError::Closed)
    ));
    assert!(
        outbound.take_all().is_empty(),
        "duplicate worker callback registration must not leave pending notification output"
    );
}

#[test]
fn worker_inspector_outbound_isolates_callbacks_by_session() {
    let mut outbound = WorkerInspectorOutbound::default();
    let (first_tx, mut first_rx) = tokio::sync::oneshot::channel();
    let (second_tx, mut second_rx) = tokio::sync::oneshot::channel();

    outbound.register_response_callback("SID-1", RendererRuntimeInspectorResponseSender::new(7, first_tx));
    outbound.register_response_callback("SID-2", RendererRuntimeInspectorResponseSender::new(7, second_tx));

    outbound.push_response_value("SID-2", 7, json(r#"{"id": 7, "result": "second"}"#));
    outbound.push_response_value("SID-1", 7, json(r#"{"id": 7, "result": "first"}"#));

    let first_completion = first_rx.try_recv().expect("first session response");
    assert_eq!(first_completion.call_id, 7);
    assert_eq!(
        first_completion.output.protocol_response(7),
        Some(&json(r#"{"id": 7, "result": "first"}"#))
    );
    let second_completion = second_rx.try_recv().expect("second session response");
    assert_eq!(second_completion.call_id, 7);
    assert_eq!(
        second_completion.output.protocol_response(7),
        Some(&json(r#"{"id": 7, "result": "second"}"#))
    );
}

#[test]
fn worker_inspector_outbound_tags_peer_session_pending_messages() {
    let mut outbound = WorkerInspectorOutbound::default();

    outbound.push_dispatch_scope("SID-1");
    outbound.push_value("SID-2", json(r#"{"method": "Runtime.executionContextCreated"}"#));
    outbound.push_value("SID-1", json(r#"{"id": 1, "result": {}}"#));
    let current = outbound.finish_dispatch_scope();

    assert_eq!(current, vec![inspector_message(json(r#"{"id": 1, "result": {}}"#))]);
    assert_eq!(
        outbound.take_all(),
        vec![WorkerInspectorPendingMessageBatch {
            inspector_session_id: Some("SID-2".to_owned()),
            messages: vec![inspector_message(json(r#"{"method": "Runtime.executionContextCreated"}"#))],
        }]
    );
}

#[test]
fn notifications_of_the_default_session_are_batched_without_a_session_id() {
    let mut outbound = WorkerInspectorOutbound::default();

    outbound.push_value("", json(r#"{"method": "A"}"#));
    outbound.push_value("", json(r#"{"method": "B"}"#));
    outbound.push_value("SID-1", json(r#"{"method": "C"}"#));
    outbound.push_value("", json(r#"{"method": "D"}"#));

    assert_eq!(
        outbound.take_all(),
        vec![
            WorkerInspectorPendingMessageBatch {
                inspector_session_id: None,
                messages: vec![
                    inspector_message(json(r#"{"method": "A"}"#)),
                    inspector_message(json(r#"{"method": "B"}"#)),
                ],
            },
            WorkerInspectorPendingMessageBatch {
                inspector_session_id: Some("SID-1".to_owned()),
                messages: vec![inspector_message(json(r#"{"method": "C"}"#))],
            },
            WorkerInspectorPendingMessageBatch {
                inspector_session_id: None,
                messages: vec![inspector_message(json(r#"{"method": "D"}"#))],
            },
        ]
    );
    assert!(outbound.take_all().is_empty());
}

#[test]
fn output_answers_only_its_own_call_id() {
    let mut outbound = WorkerInspectorOutbound::default();
    let (tx, mut rx) = tokio::sync::oneshot::channel();
    outbound.register_response_callback("SID-1", RendererRuntimeInspectorResponseSender::new(3, tx));
    outbound.push_response_value("SID-1", 3, json(r#"{"id": 3, "result": {}}"#));
    let completion = rx.try_recv().expect("deferred response");
    assert_eq!(completion.output.protocol_response(4), None);
    assert_eq!(
        completion.output.into_protocol_response(3),
        Some(json(r#"{"id": 3, "result": {}}"#))
    );
}
