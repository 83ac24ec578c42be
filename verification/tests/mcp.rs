use moli_renderer::mcp::{navigation_timeout_ms, scroll_position, selector_timeout_ms};
use moli_renderer::mcp::press_key_events;
use moli_renderer::mcp::{link_entry, LinkEntry};
use moli_renderer::mcp::{
        call_function_protocol_response, call_function_result, call_function_target_object,
        RuntimeObjectResolution,
    };
use moli_renderer::mcp::{
    attribute_value_from_pairs, filter_interactive_elements, frame_header, interactive_element,
    is_interactive_role, key_spec, parse_error_reply, parse_wait_until, render_semantic_tree_text,
    resource_list, resource_mime_type, resource_read_reply, route_mcp_request, route_resource_read,
    route_tool_call, snapshot_attribute, snapshot_looks_interactive, tool_call_reply, tool_list,
    wait_until_choices, DocumentNodeAttribute, DocumentNodeSnapshot, InteractiveElement,
    InteractiveElementCollector, McpHeaderLine, McpHeaderReader, McpReply, McpRequestRoute,
    McpResource, McpSchemaKind, McpTool, RenderedDomWaitUntil, SemanticTreeNode,
    MCP_METHOD_NOT_FOUND, MCP_PARSE_ERROR, MCP_PROTOCOL_VERSION, MCP_SERVER_ERROR,
};

fn snapshot(local_name: &str, attributes: &[(&str, &str)]) -> DocumentNodeSnapshot {
    DocumentNodeSnapshot {
        local_name: local_name.to_owned(),
        attributes: attributes
            .iter()
            .map(|(name, value)| DocumentNodeAttribute {
                local_name: (*name).to_owned(),
                value: (*value).to_owned(),
            })
            .collect(),
    }
}

fn node(id: &str, role: &str, name: &str, backend: u64, children: &[&str]) -> SemanticTreeNode {
    SemanticTreeNode {
        node_id: Some(id.to_owned()),
        role: Some(role.to_owned()),
        name: Some(name.to_owned()),
        value: None,
        backend_dom_node_id: Some(backend),
        child_ids: children.iter().map(|c| (*c).to_owned()).collect(),
    }
}

#[test]
fn key_spec_maps_letters_digits_space_and_named_keys() {
    let a = key_spec("a");
    assert_eq!((a.key, a.code, a.text), ("a", "KeyA", "a"));
    let q = key_spec("Q");
    assert_eq!((q.key, q.code, q.text), ("Q", "KeyQ", "Q"));
    let seven = key_spec("7");
    assert_eq!((seven.key, seven.code, seven.text), ("7", "Digit7", "7"));
    let space = key_spec(" ");
    assert_eq!((space.key, space.code, space.text), (" ", "Space", " "));
    let bang = key_spec("!");
    assert_eq!((bang.key, bang.code, bang.text), ("!", "Unidentified", "!"));
    let enter = key_spec("Enter");
    assert_eq!((enter.key, enter.code, enter.text), ("Enter", "Enter", ""));
    let arrow = key_spec("ArrowLeft");
    assert_eq!((arrow.key, arrow.code, arrow.text), ("ArrowLeft", "ArrowLeft", ""));
    let accented = key_spec("é");
    assert_eq!((accented.key, accented.code, accented.text), ("é", "é", ""));
}

#[test]
fn wait_until_parses_case_insensitively_and_defaults_to_done() {
    assert_eq!(parse_wait_until(None), Ok(RenderedDomWaitUntil::Done));
    assert_eq!(parse_wait_until(Some("LOAD")), Ok(RenderedDomWaitUntil::Load));
    assert_eq!(
        parse_wait_until(Some("dom_content_loaded")),
        Ok(RenderedDomWaitUntil::DomContentLoaded)
    );
    assert_eq!(parse_wait_until(Some("NetworkIdle")), Ok(RenderedDomWaitUntil::NetworkIdle));
    assert_eq!(parse_wait_until(Some("dom_stable")), Ok(RenderedDomWaitUntil::DomStable));
    assert_eq!(
        parse_wait_until(Some("Soon")),
        Err("unsupported waitUntil `soon`".to_owned())
    );
    for choice in wait_until_choices() {
        assert!(parse_wait_until(Some(choice)).is_ok());
    }
}

#[test]
fn requests_route_by_method() {
    assert_eq!(route_mcp_request(None), McpRequestRoute::NoResponse);
    assert_eq!(route_mcp_request(Some("initialize")), McpRequestRoute::Initialize);
    assert_eq!(
        route_mcp_request(Some("notifications/initialized")),
        McpRequestRoute::NoResponse
    );
    assert_eq!(route_mcp_request(Some("ping")), McpRequestRoute::Ping);
    assert_eq!(route_mcp_request(Some("tools/list")), McpRequestRoute::ListTools);
    assert_eq!(route_mcp_request(Some("resources/list")), McpRequestRoute::ListResources);
    assert_eq!(route_mcp_request(Some("resources/read")), McpRequestRoute::ReadResource);
    assert_eq!(route_mcp_request(Some("tools/call")), McpRequestRoute::CallTool);
    assert_eq!(
        route_mcp_request(Some("tools/run")),
        McpRequestRoute::MethodNotFound {
            message: "method `tools/run` not found".to_owned()
        }
    );
    assert_eq!(MCP_PROTOCOL_VERSION, "2024-11-05");
}

#[test]
fn replies_use_the_protocol_error_codes() {
    assert_eq!(MCP_PARSE_ERROR, -32700);
    assert_eq!(MCP_METHOD_NOT_FOUND, -32601);
    assert_eq!(MCP_SERVER_ERROR, -32000);
    assert_eq!(
        parse_error_reply::<()>("EOF while parsing"),
        McpReply::Failure {
            code: -32700,
            message: "parse error: EOF while parsing".to_owned()
        }
    );
    assert_eq!(
        resource_read_reply::<u8>(Err("page not loaded".to_owned())),
        McpReply::Failure {
            code: -32000,
            message: "page not loaded".to_owned()
        }
    );
    assert_eq!(resource_read_reply::<u8>(Ok(3)), McpReply::Success(3));
    assert_eq!(
        tool_call_reply::<u8>(Err("page not loaded".to_owned())),
        McpReply::ToolFailure("page not loaded".to_owned())
    );
}

#[test]
fn tools_route_by_name_with_aliases() {
    assert_eq!(route_tool_call("goto"), Ok(McpTool::Goto));
    assert_eq!(route_tool_call("navigate"), Ok(McpTool::Goto));
    assert_eq!(route_tool_call("eval"), Ok(McpTool::Evaluate));
    assert_eq!(route_tool_call("setChecked"), Ok(McpTool::SetChecked));
    assert_eq!(
        route_tool_call("teleport"),
        Err("tool `teleport` not found".to_owned())
    );
}

#[test]
fn every_listed_tool_is_callable() {
    let tools = tool_list();
    assert_eq!(tools.len(), 18);
    for tool in &tools {
        assert!(route_tool_call(tool.name).is_ok(), "{} should be callable", tool.name);
    }
    let goto = &tools[0];
    assert_eq!(goto.name, "goto");
    assert_eq!(goto.input_schema.required, vec!["url"]);
    assert_eq!(goto.input_schema.properties[2].kind, McpSchemaKind::WaitUntil);
    assert_eq!(
        goto.input_schema.properties[1].description,
        Some("Timeout in milliseconds. Defaults to 10000.")
    );
    let markdown = &tools[2];
    assert_eq!(markdown.name, "markdown");
    assert!(markdown.input_schema.required.is_empty());
    let set_checked = &tools[17];
    assert_eq!(set_checked.input_schema.properties[1].kind, McpSchemaKind::Boolean);
}

#[test]
fn resources_route_by_uri() {
    for resource in resource_list() {
        let routed = route_resource_read(resource.uri).expect("listed resources are readable");
        assert_eq!(resource_mime_type(routed), resource.mime_type);
    }
    assert_eq!(route_resource_read("mcp://page/html"), Ok(McpResource::PageHtml));
    assert_eq!(
        route_resource_read("mcp://page/pdf"),
        Err("resource `mcp://page/pdf` not found".to_owned())
    );
}

#[test]
fn interactive_roles_and_markup() {
    assert!(is_interactive_role("button"));
    assert!(is_interactive_role("spinbutton"));
    assert!(!is_interactive_role("heading"));
    assert!(snapshot_looks_interactive(&snapshot("a", &[("href", "/go")])));
    assert!(!snapshot_looks_interactive(&snapshot("a", &[])));
    assert!(snapshot_looks_interactive(&snapshot("select", &[])));
    assert!(snapshot_looks_interactive(&snapshot("input", &[])));
    assert!(!snapshot_looks_interactive(&snapshot("input", &[("type", "hidden")])));
    assert!(!snapshot_looks_interactive(&snapshot("div", &[("href", "/x")])));
    let doubled = snapshot("input", &[("type", "text"), ("type", "hidden")]);
    assert_eq!(snapshot_attribute(&doubled, "type"), Some("text".to_owned()));
    let pairs = vec![("href".to_owned(), "/one".to_owned()), ("href".to_owned(), "/two".to_owned())];
    assert_eq!(attribute_value_from_pairs(&pairs, "href"), Some("/one".to_owned()));
    assert_eq!(attribute_value_from_pairs(&pairs, "id"), None);
}

#[test]
fn interactive_elements_take_tag_href_type_and_disabled_from_markup() {
    let link = snapshot("a", &[("href", "/go")]);
    let element = interactive_element(
        4,
        "link".to_owned(),
        "Go".to_owned(),
        String::new(),
        Some(&link),
    )
    .expect("a link is interactive");
    assert_eq!(element.tag, "a");
    assert_eq!(element.href, "/go");
    assert!(!element.disabled);
    let input = snapshot("input", &[("type", "checkbox"), ("disabled", "")]);
    let element = interactive_element(5, String::new(), String::new(), String::new(), Some(&input))
        .expect("a visible input is interactive");
    assert_eq!(element.input_type, "checkbox");
    assert!(element.disabled);
    assert!(interactive_element(6, "heading".to_owned(), String::new(), String::new(), None).is_none());
    let unknown = interactive_element(7, "button".to_owned(), "Save".to_owned(), String::new(), None)
        .expect("a button role is interactive");
    assert_eq!(unknown.tag, "");
}

#[test]
fn collector_skips_unknown_and_repeated_nodes() {
    let mut collector = InteractiveElementCollector::new();
    assert!(!collector.note_backend_node(0));
    assert!(collector.note_backend_node(3));
    assert!(!collector.note_backend_node(3));
    assert!(collector.note_backend_node(4));
}

fn element(role: &str, name: &str) -> InteractiveElement {
    InteractiveElement {
        backend_node_id: 1,
        role: role.to_owned(),
        name: name.to_owned(),
        value: String::new(),
        tag: String::new(),
        href: String::new(),
        input_type: String::new(),
        disabled: false,
    }
}

#[test]
fn find_element_filters_ignore_ascii_case() {
    let elements = vec![element("link", "Go Home"), element("button", "Save"), element("Button", "save draft")];
    let buttons = filter_interactive_elements(elements.clone(), Some("BUTTON"), None);
    assert_eq!(buttons, vec![element("button", "Save"), element("Button", "save draft")]);
    let saves = filter_interactive_elements(elements.clone(), None, Some("SAVE"));
    assert_eq!(saves.len(), 2);
    let drafts = filter_interactive_elements(elements.clone(), Some("button"), Some("Draft"));
    assert_eq!(drafts, vec![element("Button", "save draft")]);
    assert_eq!(filter_interactive_elements(elements.clone(), None, None), elements);
}

#[test]
fn semantic_tree_renders_indented_lines() {
    let mut root = node("1", "RootWebArea", "Page", 0, &["2", "3"]);
    root.value = None;
    let mut textbox = node("3", "textbox", "", 9, &[]);
    textbox.value = Some("hello".to_owned());
    let nodes = vec![root, node("2", "button", "Save", 7, &[]), textbox];
    assert_eq!(
        render_semantic_tree_text(&nodes),
        "- RootWebArea: Page\n  - button: Save [backendNodeId=7]\n  - textbox = hello [backendNodeId=9]"
    );
    assert_eq!(render_semantic_tree_text(&Vec::new()), "");
    let mut unnamed = node("1", "x", "", 0, &[]);
    unnamed.role = None;
    assert_eq!(render_semantic_tree_text(&vec![unnamed]), "- unknown");
}

#[test]
fn semantic_tree_uses_the_last_payload_of_an_id_and_stops_on_cycles() {
    let nodes = vec![node("1", "list", "", 0, &["2"]), node("2", "listitem", "old", 0, &[]), node("2", "listitem", "new", 0, &[])];
    assert_eq!(render_semantic_tree_text(&nodes), "- list\n  - listitem: new");
    let cyclic = vec![node("1", "group", "", 0, &["1"])];
    assert_eq!(render_semantic_tree_text(&cyclic), "- group");
}

#[test]
fn header_reader_reads_content_length_and_ends_on_blank_line() {
    let mut reader = McpHeaderReader::new();
    assert_eq!(reader.read_header_line(b"Content-Type: application/json\r\n"), Ok(McpHeaderLine::Header));
    assert_eq!(reader.read_header_line(b"Content-Length:  42 \r\n"), Ok(McpHeaderLine::Header));
    assert_eq!(reader.content_length, Some(42));
    assert_eq!(reader.read_header_line(b"\r\n"), Ok(McpHeaderLine::EndOfHeaders));
    assert_eq!(reader.body_length(), Ok(42));
    assert!(reader.read_header_line(b"Content-Length: many\r\n").is_err());
    assert!(reader.read_header_line(&[0xff, b'\n']).is_err());
    assert_eq!(
        reader.end_of_input(),
        Err("unexpected EOF while reading MCP headers".to_owned())
    );
    let fresh = McpHeaderReader::new();
    assert_eq!(fresh.end_of_input(), Ok(()));
    assert_eq!(fresh.body_length(), Err("missing Content-Length header".to_owned()));
}

#[test]
fn frame_header_is_read_back() {
    let header = frame_header(1234);
    assert_eq!(header, "Content-Length: 1234\r\n\r\n");
    let mut reader = McpHeaderReader::new();
    let line = &header.as_bytes()[..header.len() - 2];
    assert_eq!(reader.read_header_line(line), Ok(McpHeaderLine::Header));
    assert_eq!(reader.read_header_line(b"\r\n"), Ok(McpHeaderLine::EndOfHeaders));
    assert_eq!(reader.body_length(), Ok(1234));
}

#[test]
fn tool_argument_defaults() {
    assert_eq!(navigation_timeout_ms(None), 10_000);
    assert_eq!(navigation_timeout_ms(Some(250)), 250);
    assert_eq!(selector_timeout_ms(None), 5_000);
    assert_eq!(selector_timeout_ms(Some(500)), 500);
    assert_eq!(scroll_position(None, Some(40)), (0, 40));
}

#[test]
fn press_dispatches_a_typing_keydown_and_a_silent_keyup() {
    let (down, up) = press_key_events("a");
    assert_eq!((down.event_type, down.key, down.code, down.text), ("keydown", "a", "KeyA", "a"));
    assert!(down.is_keypad_or_text);
    assert_eq!((up.event_type, up.key, up.code, up.text), ("keyup", "a", "KeyA", ""));
    assert!(!up.is_keypad_or_text);
    let (down, _) = press_key_events("Enter");
    assert_eq!(down.text, "");
    assert!(!down.is_keypad_or_text);
}

#[test]
fn links_skip_non_elements_and_empty_hrefs() {
    let attributes = vec![("id".to_owned(), "one".to_owned()), ("href".to_owned(), "/one".to_owned())];
    assert_eq!(
        link_entry(3, Some(&attributes), Some("  One Link \n")),
        Some(LinkEntry { backend_node_id: 3, href: "/one".to_owned(), text: "One Link".to_owned() })
    );
    let empty = vec![("href".to_owned(), String::new())];
    assert_eq!(link_entry(4, Some(&empty), Some("x")), None);
    assert_eq!(link_entry(5, None, Some("x")), None);
    assert_eq!(
        link_entry(6, Some(&attributes), None),
        Some(LinkEntry { backend_node_id: 6, href: "/one".to_owned(), text: String::new() })
    );
}

#[test]
fn call_function_on_node_reports_each_failure() {
    assert_eq!(
        call_function_target_object(12, RuntimeObjectResolution::Found { object_id: Some("obj-1".to_owned()) }),
        Ok("obj-1".to_owned())
    );
    assert_eq!(
        call_function_target_object(12, RuntimeObjectResolution::Found { object_id: None }),
        Err("backendNodeId `12` runtime object did not include an objectId".to_owned())
    );
    assert_eq!(
        call_function_target_object(12, RuntimeObjectResolution::MissingContext),
        Err("backendNodeId `12` could not be resolved in the current runtime context".to_owned())
    );
    assert_eq!(
        call_function_target_object(7, RuntimeObjectResolution::MissingNode),
        Err("backendNodeId `7` not found".to_owned())
    );
    assert_eq!(call_function_protocol_response(Some(1), Some(Some(2))), Ok(1));
    assert_eq!(call_function_protocol_response(None, Some(Some(2))), Ok(2));
    assert_eq!(
        call_function_protocol_response::<u8>(None, Some(None)),
        Err("runtime callFunctionOn returned no protocol response".to_owned())
    );
    assert_eq!(
        call_function_protocol_response::<u8>(None, None),
        Err("runtime callFunctionOn response callback was canceled".to_owned())
    );
    assert_eq!(call_function_result(None, Some("object"), Some("value")), Ok("value"));
    assert_eq!(call_function_result(None, Some("object"), None), Ok("object"));
    assert_eq!(
        call_function_result::<&str>(None, None, None),
        Err("runtime callFunctionOn returned no result payload".to_owned())
    );
    assert_eq!(
        call_function_result::<&str>(Some(Some("Node is not a <select> element".to_owned())), None, None),
        Err("Node is not a <select> element".to_owned())
    );
    assert_eq!(
        call_function_result::<&str>(Some(None), Some("x"), None),
        Err("runtime callFunctionOn failed".to_owned())
    );
}
