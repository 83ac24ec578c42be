use moli_renderer::document_scripts::{
    FrameDocumentTaskOwner, InitialScriptAcceptanceRun, InitialScriptAcceptanceStep, ParserHandoffKind,
};
use moli_renderer::mcp::{invalid_arguments_error, loaded_page, page_access, tool_call_request, McpPageAccess, McpTool, RenderedDomWaitUntil};
use moli_renderer::mcp::{
    finish_resource_read, finish_tool_call, mcp_request_step, resource_contents, resource_read_request,
    McpReply, McpRequestStep, McpResource, McpResourceContents, McpResponse, McpResult,
    MCP_METHOD_NOT_FOUND, MCP_SERVER_ERROR,
};
use moli_renderer::dedicated_workers::{
    devtools_message, devtools_request_reached, dispatch_message, dispatch_start_outcome, DedicatedWorkerDevtoolsRequest, RendererBrowserContextRuntime, WorkerHandle,
    WorkerMessage,
};
use moli_renderer::inspector_outbound::WorkerInspectorOutbound;
use moli_renderer::mcp::{call_function_request, CallFunctionRequest, CALL_FUNCTION_CALL_ID};
use moli_renderer::protocol::RendererRuntimeInspectorResponseSender;
use moli_renderer::worker_host_bridge::{
    route_send_outcome, DedicatedWorkerId, PageId, RendererDocumentToken, RendererPageNetworkingSource,
    RendererPageNetworkingTask, RendererWorkerHostBridgeEventSender, RendererWorkerHostBridgeRouteClosed,
    RendererWorkerHostBridgeTarget, WorkerRuntimeEvent,
};

fn root(generation: u64) -> RendererDocumentToken {
    RendererDocumentToken { page_id: PageId::new_for_testing(71), generation }
}

#[test]
fn request_step_echoes_the_id_of_an_unknown_method() {
    let step = mcp_request_step::<u32, u8>(42, Some("tools/run"));
    assert_eq!(
        step,
        McpRequestStep::Respond(McpResponse {
            id: 42,
            reply: McpReply::Failure {
                code: MCP_METHOD_NOT_FOUND,
                message: "method `tools/run` not found".to_owned(),
            },
        })
    );
    assert_eq!(MCP_METHOD_NOT_FOUND, -32601);
}

#[test]
fn request_step_answers_or_defers_each_known_method() {
    assert_eq!(mcp_request_step::<u32, u8>(1, None), McpRequestStep::Silent);
    assert_eq!(mcp_request_step::<u32, u8>(1, Some("notifications/initialized")), McpRequestStep::Silent);
    assert_eq!(
        mcp_request_step::<u32, u8>(5, Some("initialize")),
        McpRequestStep::Respond(McpResponse { id: 5, reply: McpReply::Success(McpResult::Initialize) })
    );
    assert_eq!(
        mcp_request_step::<u32, u8>(6, Some("ping")),
        McpRequestStep::Respond(McpResponse { id: 6, reply: McpReply::Success(McpResult::Empty) })
    );
    assert_eq!(
        mcp_request_step::<u32, u8>(7, Some("tools/list")),
        McpRequestStep::Respond(McpResponse { id: 7, reply: McpReply::Success(McpResult::Tools) })
    );
    assert_eq!(
        mcp_request_step::<u32, u8>(8, Some("resources/list")),
        McpRequestStep::Respond(McpResponse { id: 8, reply: McpReply::Success(McpResult::Resources) })
    );
    assert_eq!(mcp_request_step::<u32, u8>(9, Some("resources/read")), McpRequestStep::ReadResource { id: 9 });
    assert_eq!(mcp_request_step::<u32, u8>(10, Some("tools/call")), McpRequestStep::CallTool { id: 10 });
}

#[test]
fn resource_read_checks_params_then_page_then_uri() {
    assert_eq!(resource_read_request(None, false), Err("invalid resources/read params".to_owned()));
    assert_eq!(
        resource_read_request(Some("mcp://page/pdf".to_owned()), false),
        Err("page not loaded".to_owned())
    );
    assert_eq!(
        resource_read_request(Some("mcp://page/pdf".to_owned()), true),
        Err("resource `mcp://page/pdf` not found".to_owned())
    );
    assert_eq!(
        resource_read_request(Some("mcp://page/markdown".to_owned()), true),
        Ok(("mcp://page/markdown".to_owned(), McpResource::PageMarkdown))
    );
}

#[test]
fn resource_read_answers_contents_or_server_error() {
    let contents = resource_contents("mcp://page/html".to_owned(), McpResource::PageHtml, "<p>x</p>".to_owned());
    assert_eq!(
        contents,
        McpResourceContents {
            uri: "mcp://page/html".to_owned(),
            mime_type: "text/html",
            text: "<p>x</p>".to_owned(),
        }
    );
    assert_eq!(
        finish_resource_read::<u32, u8>(3, Ok(contents.clone())),
        McpResponse { id: 3, reply: McpReply::Success(McpResult::ResourceContents(contents)) }
    );
    assert_eq!(
        finish_resource_read::<u32, u8>(4, Err("page not loaded".to_owned())),
        McpResponse {
            id: 4,
            reply: McpReply::Failure { code: MCP_SERVER_ERROR, message: "page not loaded".to_owned() },
        }
    );
}

#[test]
fn tool_call_answers_result_or_tool_failure() {
    assert_eq!(
        finish_tool_call::<u32, u8>(2, Ok(9)),
        McpResponse { id: 2, reply: McpReply::Success(McpResult::Tool(9)) }
    );
    assert_eq!(
        finish_tool_call::<u32, u8>(2, Err("boom".to_owned())),
        McpResponse { id: 2, reply: McpReply::ToolFailure("boom".to_owned()) }
    );
}

#[test]
fn bridge_sender_stamps_root_document_and_target() {
    let source = RendererPageNetworkingSource::new_for_test();
    let sender = RendererWorkerHostBridgeEventSender::new(source.route(), root(3));
    let RendererPageNetworkingTask::WorkerHostBridge(task) =
        sender.stamp(WorkerRuntimeEvent::HostBridgeDrained { worker_id: DedicatedWorkerId::new(8) });
    assert_eq!(task.owner().root_document(), root(3));
    assert_eq!(task.owner().target(), RendererWorkerHostBridgeTarget::Dedicated(DedicatedWorkerId::new(8)));
}

#[test]
fn refused_route_maps_to_route_closed() {
    assert_eq!(route_send_outcome(true), Ok(()));
    assert_eq!(route_send_outcome(false), Err(RendererWorkerHostBridgeRouteClosed));
}

#[test]
fn response_sender_builds_its_call_ids_response() {
    let (tx, _rx) = tokio::sync::oneshot::channel();
    let sender = RendererRuntimeInspectorResponseSender::new(7, tx);
    let value: serde_json::Value = serde_json::from_str(r#"{"id": 7, "result": "first"}"#).unwrap();
    let response = sender.response_for(value.clone());
    assert_eq!(response.call_id, 7);
    assert_eq!(response.output.protocol_response(7), Some(&value));
    assert_eq!(response.output.protocol_response(8), None);
}

#[test]
fn acceptance_runs_handoffs_in_order_and_stops_at_first_refusal() {
    let handoffs = vec![
        ParserHandoffKind::BlockingClassic,
        ParserHandoffKind::AsyncPostParseModule,
        ParserHandoffKind::ImportMap,
    ];
    let mut run = InitialScriptAcceptanceRun::new(FrameDocumentTaskOwner(3), &handoffs, vec!["sheet"]);
    assert_eq!(run.owner(), FrameDocumentTaskOwner(3));
    assert_eq!(run.blocking_stylesheet_inputs(), &vec!["sheet"]);
    assert_eq!(run.next_step(), Some((0, InitialScriptAcceptanceStep::BindParserScript)));
    run.complete_step(true);
    assert_eq!(run.next_step(), Some((0, InitialScriptAcceptanceStep::PushPreparedScriptWork)));
    run.complete_step(true);
    assert_eq!(run.next_step(), Some((1, InitialScriptAcceptanceStep::BindParserScript)));
    run.complete_step(true);
    assert_eq!(run.next_step(), Some((1, InitialScriptAcceptanceStep::AcceptAsyncModule)));
    assert_eq!(run.outcome(), None);
    run.complete_step(false);
    assert_eq!(run.page_owned_work(), &vec![0]);
    assert_eq!(run.next_step(), None);
    assert_eq!(
        run.outcome(),
        Some(Err("initial parser async module could not bind its document owner".to_owned()))
    );
}

#[test]
fn acceptance_completes_when_every_step_is_done() {
    let handoffs = vec![
        ParserHandoffKind::BlockingClassic,
        ParserHandoffKind::NoExecution { reports_run: false },
        ParserHandoffKind::BlockingClassic,
        ParserHandoffKind::PreparationFailure,
        ParserHandoffKind::ImportMap,
    ];
    let mut run = InitialScriptAcceptanceRun::new(FrameDocumentTaskOwner(1), &handoffs, Vec::<u8>::new());
    let mut pushes = 0;
    let mut seen = Vec::new();
    while let Some((handoff, step)) = run.next_step() {
        if step == InitialScriptAcceptanceStep::PushPreparedScriptWork {
            pushes += 1;
        }
        seen.push(handoff);
        run.complete_step(true);
    }
    assert_eq!(pushes, 2);
    assert_eq!(seen, vec![0, 0, 1, 2, 2, 3, 3, 4]);
    assert_eq!(run.outcome(), Some(Ok(())));
    assert_eq!(run.page_owned_work(), &vec![0, 2, 3]);
}

#[test]
fn acceptance_of_no_handoffs_succeeds_at_once() {
    let run = InitialScriptAcceptanceRun::new(FrameDocumentTaskOwner(1), &Vec::new(), Vec::<u8>::new());
    assert_eq!(run.next_step(), None);
    assert_eq!(run.outcome(), Some(Ok(())));
}

#[test]
fn tools_navigate_when_given_a_url_and_otherwise_need_a_loaded_page() {
    assert_eq!(
        page_access(Some("https://example.test/".to_owned()), None, None, false),
        Ok(McpPageAccess::Navigate {
            url: "https://example.test/".to_owned(),
            timeout_ms: 10_000,
            wait_until: RenderedDomWaitUntil::Done,
        })
    );
    assert_eq!(
        page_access(Some("https://example.test/".to_owned()), Some(300), Some("LOAD"), true),
        Ok(McpPageAccess::Navigate {
            url: "https://example.test/".to_owned(),
            timeout_ms: 300,
            wait_until: RenderedDomWaitUntil::Load,
        })
    );
    assert_eq!(
        page_access(Some("https://example.test/".to_owned()), None, Some("soon"), true),
        Err("unsupported waitUntil `soon`".to_owned())
    );
    assert_eq!(page_access(None, Some(5), None, true), Ok(McpPageAccess::Current));
    assert_eq!(page_access(None, None, None, false), Err("page not loaded".to_owned()));
}

#[test]
fn loaded_page_gate_and_tool_call_params() {
    assert_eq!(loaded_page(true), Ok(()));
    assert_eq!(loaded_page(false), Err("page not loaded".to_owned()));
    assert_eq!(tool_call_request(None), Err("invalid tools/call params".to_owned()));
    assert_eq!(tool_call_request(Some("navigate")), Ok(McpTool::Goto));
    assert_eq!(tool_call_request(Some("fly")), Err("tool `fly` not found".to_owned()));
}

#[test]
fn tool_argument_errors_name_the_tool() {
    assert_eq!(invalid_arguments_error(McpTool::Goto), "invalid goto arguments");
    assert_eq!(invalid_arguments_error(McpTool::SemanticTree), "invalid semantic_tree arguments");
    assert_eq!(invalid_arguments_error(McpTool::SetChecked), "invalid setChecked arguments");
}


#[test]
fn devtools_requests_build_their_messages() {
    assert!(matches!(
        devtools_message(DedicatedWorkerDevtoolsRequest::AttachSession, Some("SID".to_owned())),
        WorkerMessage::AttachRuntimeInspectorSession { inspector_session_id: Some(id) } if id == "SID"
    ));
    assert!(matches!(
        devtools_message(DedicatedWorkerDevtoolsRequest::DetachSession, None),
        WorkerMessage::DetachRuntimeInspectorSession { inspector_session_id: None }
    ));
    assert!(matches!(
        devtools_message(DedicatedWorkerDevtoolsRequest::RunIfWaitingForDebugger, None),
        WorkerMessage::RunIfWaitingForDebuggerForDevtools
    ));
    assert!(matches!(devtools_message(DedicatedWorkerDevtoolsRequest::Close, None), WorkerMessage::Terminate));
    let (tx, _rx) = tokio::sync::oneshot::channel();
    assert!(matches!(
        dispatch_message(Some("S".to_owned()), "{}".to_owned(), None, tx),
        WorkerMessage::DispatchRuntimeProtocolMessage { inspector_session_id: Some(s), raw_json, deferred_response: None, .. }
            if s == "S" && raw_json == "{}"
    ));
}

#[test]
fn detach_reaches_a_registered_worker_with_its_session() {
    let mut runtime = RendererBrowserContextRuntime::new();
    let (tx, mut rx) = tokio::sync::mpsc::unbounded_channel();
    runtime.attach_dedicated_worker_devtools_handle(4, &WorkerHandle { tx });
    assert!(runtime.detach_dedicated_worker_runtime_inspector_session(4, Some("SID-9".to_owned())));
    assert!(matches!(
        rx.try_recv(),
        Ok(WorkerMessage::DetachRuntimeInspectorSession { inspector_session_id: Some(id) }) if id == "SID-9"
    ));
    assert!(rx.try_recv().is_err());
}

#[test]
fn response_callbacks_are_handed_out_once_by_session_and_call_id() {
    let mut outbound = WorkerInspectorOutbound::default();
    let (tx, mut rx) = tokio::sync::oneshot::channel();
    outbound.register_response_callback("SID-1", RendererRuntimeInspectorResponseSender::new(7, tx));
    assert!(outbound.take_response_callback("SID-2", 7).is_none());
    assert!(outbound.take_response_callback("SID-1", 8).is_none());
    let callback = outbound.take_response_callback("SID-1", 7).expect("registered callback");
    assert_eq!(callback.call_id(), 7);
    assert!(outbound.take_response_callback("SID-1", 7).is_none());
    let value: serde_json::Value = serde_json::from_str(r#"{"id": 7, "result": "x"}"#).unwrap();
    assert!(callback.send(value.clone()));
    let response = rx.try_recv().expect("delivered response");
    assert_eq!(response.call_id, 7);
    assert_eq!(response.output.protocol_response(7), Some(&value));
}

#[test]
fn call_function_request_returns_by_value() {
    let request = call_function_request("obj-1".to_owned(), "function() { return 1; }".to_owned(), vec![3u8, 4]);
    assert_eq!(
        request,
        CallFunctionRequest {
            id: 1,
            method: "Runtime.callFunctionOn",
            object_id: "obj-1".to_owned(),
            function_declaration: "function() { return 1; }".to_owned(),
            arguments: vec![3, 4],
            return_by_value: true,
        }
    );
    assert_eq!(CALL_FUNCTION_CALL_ID, 1);
}

#[test]
fn producer_stamps_exact_root_and_publishes_only_a_networking_wake() {
    let mut source = RendererPageNetworkingSource::new_for_test();
    let expected_root = root(3);
    let sender = RendererWorkerHostBridgeEventSender::new(source.route(), expected_root);
    let worker_id = DedicatedWorkerId::new(8);
    sender
        .send(WorkerRuntimeEvent::HostBridgeDrained { worker_id })
        .expect("Worker host terminal should enter the networking FIFO");
    let (_, task) = source.pop_front_task().expect("the stamped task is queued");
    let RendererPageNetworkingTask::WorkerHostBridge(task) = task;
    assert_eq!(task.owner().root_document(), expected_root);
    assert_eq!(task.owner().target(), RendererWorkerHostBridgeTarget::Dedicated(worker_id));
    assert!(source.pop_front_task().is_none());
}

#[test]
fn listed_tool_names_are_distinct() {
    let names: Vec<&str> = moli_renderer::mcp::tool_list().iter().map(|tool| tool.name).collect();
    for (i, a) in names.iter().enumerate() {
        for b in names.iter().skip(i + 1) {
            assert_ne!(a, b);
        }
    }
    assert_eq!(names.len(), 18);
}

#[test]
fn devtools_outcomes_follow_the_channels_answer() {
    assert!(devtools_request_reached(Some(true)));
    assert!(!devtools_request_reached(Some(false)));
    assert!(!devtools_request_reached(None));
    assert_eq!(dispatch_start_outcome(true, 5u8), Ok(5));
    assert_eq!(dispatch_start_outcome(false, 5u8), Err("DedicatedWorkerRuntimeUnavailable".to_owned()));
}
