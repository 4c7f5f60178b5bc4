use tome::dashboard::{
    apply_command, associated_functions, edit_header_selector_event, endpoint_saved,
    endpoints_selector_event, finish_confirmation, focus_targets, name_input_value, project_saved,
    save_endpoint, start_new_endpoint, start_new_project, submit_new_endpoint_name,
    EndpointsSelectorAction, EndpointsSelectorEvent,
    handle_confirmation, keyboard_events, on_event, select_project, submit_endpoint_rename,
    DashboardCommand, DashboardDisplay, DashboardKey, DashboardMessages, DashboardState,
    DashboardView, FileOperationKind, HeaderSelectorAction, HeaderSelectorEvent, MessageHandler,
    MessageOutcome, TextInputMessages, TextUpdate,
};
use tome::messages::confirm_actions::{
    confirm_delete_endpoint, confirm_delete_header, confirm_delete_project, ConfirmAction,
    ConfirmationAnswer,
};
use tome::messages::confirm_delete_project::{
    answer_confirmation, ConfirmAction as ProjectConfirmAction, DeleteProjectDetails,
};
use tome::messages::focus_messages::FocusChange;
use tome::options::{
    get_app_theme_name, get_button_caps, get_button_style, get_default_options,
    get_syntax_theme, get_syntax_themes, ButtonStyle, Options, BUTTON_STYLE_ANGLED,
    BUTTON_STYLE_ROUNDED, BUTTON_STYLE_SQUARED,
};
use tome::postman::{
    form_data_string, graphql_string, kv_string, postman_from_project, postman_from_project_at,
    try_postman_from_project,
    project_from_postman, GraphQL, PostmanBody, PostmanBodyMode, PostmanBodyOptions,
    PostmanFormData, PostmanInformation, PostmanItem, PostmanJson, PostmanKV, PostmanRequest,
    PostmanRequestUrl, PostmanVariable, PostmanVariableType, RawOptions, POSTMAN_JSON_SCHEMA,
};
use tome::projects::{
    add_header, change_url, remove_header_named, remove_variable, rename_endpoints,
    set_endpoint_headers, unique_name_error, upsert_endpoint, variables_equal, Header,
    PersistedEndpoint, PersistedProject, PersistedVariable, VariableType,
};
use tome::requests::{
    form_pairs, get_content_type, plan_request, response_extension, status_label, RequestBody,
};
use tome::selector::{ListWindow, SelectorAction, SelectorKey};
use tome::syntax::{
    get_constant_from_name, highlight_theme_key, line_from_spans, syntax_extension, Span,
};
use tome::templates::template;
use tome::textarea::TextAreaMessages;
use tome::widgets::{AppSection, RequestHeadersEditorState, Row, RowState};
use tome::windows::{
    edit_header_message, endpoint_names, header_names, rename_endpoint_message,
    AddHeaderWindowMessages, AddProjectVariableMessages, EditEndpointNameMessages, FloatingWindow,
    SpecificNameUpdate,
};

fn header(name: &str, value: &str) -> Header {
    Header { name: name.to_string(), value: value.to_string() }
}

fn endpoint(name: &str, body_mode: &str, raw_type: &str, headers: Vec<Header>, body: &str) -> PersistedEndpoint {
    PersistedEndpoint {
        name: name.to_string(),
        url: format!("https://example.org/{name}"),
        method: "GET".to_string(),
        headers,
        body: body.to_string(),
        body_mode: body_mode.to_string(),
        raw_type: raw_type.to_string(),
    }
}

fn variable(name: &str, value: &str) -> PersistedVariable {
    PersistedVariable {
        id: Some(format!("id-{name}")),
        key: Some(name.to_string()),
        value: Some(value.to_string()),
        variable_type: Some(VariableType::String),
        name: Some(name.to_string()),
        system: Some(false),
        disabled: None,
    }
}

fn project(endpoints: Vec<PersistedEndpoint>) -> PersistedProject {
    PersistedProject { name: "Demo".to_string(), endpoints, variable: vec![] }
}

fn names(p: &PersistedProject) -> Vec<String> {
    p.endpoints.iter().map(|e| e.name.clone()).collect()
}

// ---- options ----

#[test]
fn test_default_options() {
    let o = get_default_options();
    assert_eq!(o.syntax_theme, "monokai");
    assert_eq!(o.app_theme_name, "gruvbox");
    assert!(o.button_style.is_none());
    assert_eq!(get_syntax_theme(&o), "monokai");
    assert_eq!(get_app_theme_name(&o), "gruvbox");
}

#[test]
fn test_button_style_labels_and_caps() {
    let mut o = Options::default();
    assert_eq!(get_button_style(&o), BUTTON_STYLE_ANGLED);
    assert_eq!(get_button_caps(&o), ("\u{e0ba}\u{2588}", "\u{2588}\u{e0bc}"));
    o.button_style = Some(ButtonStyle::Squared);
    assert_eq!(get_button_style(&o), BUTTON_STYLE_SQUARED);
    assert_eq!(get_button_caps(&o), (" \u{2588}", "\u{2588} "));
    o.button_style = Some(ButtonStyle::Rounded);
    assert_eq!(get_button_style(&o), BUTTON_STYLE_ROUNDED);
    assert_eq!(get_button_caps(&o), (" \u{e0b6}\u{2588}", "\u{2588}\u{e0b4} "));
    assert_eq!(ButtonStyle::default(), ButtonStyle::Rounded);
}

#[test]
fn test_syntax_themes_one_per_line() {
    assert_eq!(
        get_syntax_themes("Monokai Dark\nBespin\r\nCobalt\n"),
        vec!["Monokai Dark".to_string(), "Bespin".to_string(), "Cobalt".to_string()]
    );
    assert!(get_syntax_themes("").is_empty());
}

// ---- syntax ----

#[test]
fn test_constant_from_name() {
    assert_eq!(get_constant_from_name("Monokai Dark"), "MONOKAI_DARK");
    assert_eq!(get_constant_from_name("Juicy (Light Theme)"), "JUICY_LIGHT_THEME");
    assert_eq!(get_constant_from_name(" Blackboard - Mod "), "BLACKBOARD_MOD");
    assert_eq!(get_constant_from_name("Solarized (dark)"), "SOLARIZED_DARK");
}

#[test]
fn test_highlight_theme_key() {
    assert_eq!(highlight_theme_key("[ Monokai Dark ]"), "MONOKAI_DARK");
    assert_eq!(highlight_theme_key("cobalt"), "COBALT");
}

#[test]
fn test_syntax_extension() {
    assert_eq!(syntax_extension("json; charset=utf-8"), "json");
    assert_eq!(syntax_extension("html"), "html");
}

#[test]
fn test_line_from_spans_splits_head() {
    let spans = vec![
        Span::from_style((1, 2, 3), (0, 0, 0), 1, "let"),
        Span::from_style((4, 5, 6), (0, 0, 0), 2, " x"),
    ];
    let line = line_from_spans(spans);
    assert_eq!(line.head.src, "let");
    assert!(line.head.bold);
    assert_eq!(line.tail.len(), 1);
    assert!(!line.tail[0].bold);
    assert_eq!(line.tail[0].fg, (4, 5, 6));
}

// ---- requests ----

#[test]
fn test_content_types() {
    let cases = [
        ("none", "Text", None),
        ("formdata", "Text", Some("multipart/form-data")),
        ("x-www-form-urlencoded", "", Some("application/x-www-form-urlencoded")),
        ("graphql", "", Some("application/json")),
        ("raw", "JSON", Some("application/json")),
        ("raw", "Text", Some("text/plain")),
        ("raw", "JavaScript", Some("application/javascript")),
        ("raw", "html", Some("text/html")),
        ("raw", "XML", Some("text/xml")),
        ("raw", "yaml", None),
        ("binary", "Text", None),
    ];
    for (mode, raw, expected) in cases {
        let e = endpoint("e", mode, raw, vec![], "");
        assert_eq!(get_content_type(&e).as_deref(), expected, "{mode} {raw}");
    }
}

#[test]
fn test_form_pairs_skip_entries_without_equals() {
    let fields = form_pairs("a=1\nnovalue\nb=x=y");
    let pairs: Vec<(String, String)> = fields.into_iter().map(|f| (f.key, f.value)).collect();
    assert_eq!(
        pairs,
        vec![("a".to_string(), "1".to_string()), ("b".to_string(), "x=y".to_string())]
    );
}

#[test]
fn test_plan_request_drops_content_type_header() {
    let e = endpoint(
        "e",
        "raw",
        "json",
        vec![
            header("content-type", "text/plain"),
            header("Accept", "*/*"),
            header("Content-Type", "text/html"),
        ],
        "{\"a\":1}",
    );
    let plan = plan_request(&e);
    assert_eq!(plan.method, "GET");
    assert_eq!(plan.url, "https://example.org/e");
    assert_eq!(plan.headers.len(), 1);
    assert_eq!(plan.headers[0].name, "Accept");
    match plan.body {
        RequestBody::Text(t) => assert_eq!(t, "{\"a\":1}"),
        other => panic!("unexpected body {other:?}"),
    }
}

#[test]
fn test_plan_request_multipart_and_none() {
    let e = endpoint("e", "formdata", "", vec![], "k=v\nbad");
    match plan_request(&e).body {
        RequestBody::Multipart(f) => {
            assert_eq!(f.len(), 1);
            assert_eq!((f[0].key.as_str(), f[0].value.as_str()), ("k", "v"));
        }
        other => panic!("unexpected body {other:?}"),
    }
    let e = endpoint("e", "x-www-form-urlencoded", "", vec![], "a=1\nb=2");
    match plan_request(&e).body {
        RequestBody::Form(f) => {
            let pairs: Vec<(&str, &str)> = f.iter().map(|x| (x.key.as_str(), x.value.as_str())).collect();
            assert_eq!(pairs, vec![("a", "1"), ("b", "2")]);
        }
        other => panic!("unexpected body {other:?}"),
    }
    let e = endpoint("e", "none", "", vec![], "ignored");
    match plan_request(&e).body {
        RequestBody::Text(t) => assert_eq!(t, ""),
        other => panic!("unexpected body {other:?}"),
    }
}

#[test]
fn test_status_label() {
    assert_eq!(status_label(200), "Response Body (Status Code: 200)");
    assert_eq!(status_label(0), "Response Body (Status Code: 0)");
    assert_eq!(status_label(65535), "Response Body (Status Code: 65535)");
}

#[test]
fn test_response_extension() {
    assert_eq!(response_extension(&vec![]), "txt");
    assert_eq!(
        response_extension(&vec![header("Content-Type", "application/json; charset=utf-8")]),
        "json; charset=utf-8"
    );
    assert_eq!(
        response_extension(&vec![header("content-type", "text/html"), header("x", "a/b")]),
        "html"
    );
    assert_eq!(response_extension(&vec![header("content-type", "plain")]), "txt");
}

// ---- selector ----

#[test]
fn test_selector_moves_and_window() {
    let mut w = ListWindow::new();
    assert_eq!((w.cursor, w.current_first_index, w.current_last_index, w.visible_rows), (0, 0, 4, 5));
    for _ in 0..6 {
        w.move_cursor_down(8);
    }
    assert_eq!((w.cursor, w.current_first_index, w.current_last_index), (6, 2, 6));
    w.move_cursor_down(8);
    w.move_cursor_down(8);
    assert_eq!(w.cursor, 7);
    w.update_list(8, true);
    let rows: Vec<(usize, bool)> = w.window.iter().map(|r| (r.index, r.selected)).collect();
    assert_eq!(rows, vec![(3, false), (4, false), (5, false), (6, false), (7, true)]);
    for _ in 0..7 {
        w.move_cursor_up();
    }
    assert_eq!((w.cursor, w.current_first_index, w.current_last_index), (0, 0, 4));
    w.move_cursor_up();
    assert_eq!(w.cursor, 0);
}

#[test]
fn test_selector_reset_short_list() {
    let mut w = ListWindow::new();
    w.move_cursor_down(10);
    w.reset(3);
    assert_eq!((w.cursor, w.current_first_index, w.current_last_index), (0, 0, 2));
    w.update_list(3, true);
    assert_eq!(w.window.len(), 3);
    assert!(w.window[0].selected);
    w.update_list(0, true);
    assert_eq!(w.window.len(), 0);
    w.update_list(0, false);
    assert_eq!(w.window.len(), 0);
}

// ---- projects ----

#[test]
fn test_upsert_endpoint_replaces_same_name_and_goes_last() {
    let mut p = project(vec![
        endpoint("a", "raw", "Text", vec![], "1"),
        endpoint("b", "raw", "Text", vec![], "2"),
    ]);
    upsert_endpoint(&mut p, endpoint("a", "raw", "Text", vec![], "3"));
    assert_eq!(names(&p), vec!["b", "a"]);
    assert_eq!(p.endpoints[1].body, "3");
    upsert_endpoint(&mut p, endpoint("c", "raw", "Text", vec![], "4"));
    assert_eq!(names(&p), vec!["b", "a", "c"]);
}

#[test]
fn test_rename_endpoints() {
    let mut p = project(vec![endpoint("a", "", "", vec![], ""), endpoint("b", "", "", vec![], "")]);
    rename_endpoints(&mut p, "a", "z");
    assert_eq!(names(&p), vec!["z", "b"]);
    rename_endpoints(&mut p, "missing", "y");
    assert_eq!(names(&p), vec!["z", "b"]);
}

#[test]
fn test_unique_name_error() {
    let current = vec!["one".to_string(), "two".to_string()];
    assert_eq!(unique_name_error(&current, "two").as_deref(), Some("The name 'two' is already in use"));
    assert_eq!(unique_name_error(&current, "three"), None);
}

#[test]
fn test_change_url_keeps_name_in_step() {
    let mut e = endpoint("x", "", "", vec![], "");
    e.url = "x".to_string();
    change_url(&mut e, "https://a");
    assert_eq!((e.url.as_str(), e.name.as_str()), ("https://a", "https://a"));
    let mut e = endpoint("named", "", "", vec![], "");
    change_url(&mut e, "https://b");
    assert_eq!((e.url.as_str(), e.name.as_str()), ("https://b", "named"));
}

#[test]
fn test_add_header_refuses_blank() {
    let mut e = endpoint("e", "", "", vec![], "");
    assert!(!add_header(&mut e, "  ".to_string(), "v".to_string()));
    assert!(!add_header(&mut e, "n".to_string(), "\t".to_string()));
    assert!(add_header(&mut e, "n".to_string(), "v".to_string()));
    assert_eq!(e.headers.len(), 1);
    assert_eq!((e.headers[0].name.as_str(), e.headers[0].value.as_str()), ("n", "v"));
}

#[test]
fn test_header_deletion_updates_project() {
    let mut current = endpoint("e", "", "", vec![header("a", "1"), header("b", "2"), header("a", "3")], "");
    let mut p = project(vec![endpoint("e", "", "", vec![header("a", "1")], ""), endpoint("f", "", "", vec![], "")]);
    remove_header_named(&mut current, "a");
    let hs: Vec<&str> = current.headers.iter().map(|h| h.value.as_str()).collect();
    assert_eq!(hs, vec!["2", "3"]);
    set_endpoint_headers(&mut p, &current);
    assert_eq!(p.endpoints[0].headers.len(), 2);
    assert_eq!(p.endpoints[0].headers[0].name, "b");
    assert!(p.endpoints[1].headers.is_empty());
}

#[test]
fn test_remove_variable_by_value() {
    let mut p = project(vec![]);
    p.variable = vec![variable("a", "1"), variable("b", "2")];
    assert!(variables_equal(&variable("b", "2"), &p.variable[1]));
    assert!(!variables_equal(&variable("b", "3"), &p.variable[1]));
    assert!(remove_variable(&mut p, &variable("b", "2")));
    assert_eq!(p.variable.len(), 1);
    assert!(!remove_variable(&mut p, &variable("b", "2")));
    assert_eq!(p.variable.len(), 1);
}

// ---- postman ----

#[test]
fn test_entry_strings() {
    assert_eq!(kv_string(&PostmanKV { key: "a".into(), value: "b".into() }), "a=b");
    assert_eq!(
        form_data_string(&PostmanFormData { key: "k".into(), value: "v".into(), form_type: "text".into() }),
        "k=\"v\""
    );
    assert_eq!(
        graphql_string(&GraphQL { query: "{ a }".into(), variables: "{}".into() }),
        "{\"query\":\"{ a }\",\"variables\":\"{}\"}"
    );
    assert_eq!(
        graphql_string(&GraphQL { query: "a\"b\\\n\t".into(), variables: "\u{1}\u{1f}é".into() }),
        "{\"query\":\"a\\\"b\\\\\\n\\t\",\"variables\":\"\\u0001\\u001fé\"}"
    );
}

fn postman_item(name: &str, body: Option<PostmanBody>) -> PostmanItem {
    PostmanItem {
        id: None,
        name: name.to_string(),
        request: PostmanRequest {
            description: None,
            url: PostmanRequestUrl { raw: "https://example.org".to_string() },
            method: "POST".to_string(),
            header: vec![PostmanKV { key: "Accept".into(), value: "*/*".into() }],
            body,
        },
    }
}

#[test]
fn test_project_from_postman() {
    let collection = PostmanJson {
        info: PostmanInformation {
            name: "Imported".into(),
            description: "".into(),
            schema: POSTMAN_JSON_SCHEMA.into(),
        },
        item: vec![
            postman_item(
                "raw",
                Some(PostmanBody {
                    options: Some(PostmanBodyOptions { raw: RawOptions { language: "json".into() } }),
                    mode: PostmanBodyMode::Raw,
                    urlencoded: None,
                    raw: Some("{}".into()),
                    graphql: None,
                    formdata: None,
                }),
            ),
            postman_item(
                "form",
                Some(PostmanBody {
                    options: None,
                    mode: PostmanBodyMode::UrlEncoded,
                    urlencoded: Some(vec![
                        PostmanKV { key: "a".into(), value: "1".into() },
                        PostmanKV { key: "b".into(), value: "2".into() },
                    ]),
                    raw: None,
                    graphql: None,
                    formdata: None,
                }),
            ),
            postman_item(
                "multi",
                Some(PostmanBody {
                    options: None,
                    mode: PostmanBodyMode::FormData,
                    urlencoded: None,
                    raw: None,
                    graphql: None,
                    formdata: Some(vec![
                        PostmanFormData { key: "a".into(), value: "1".into(), form_type: "text".into() },
                        PostmanFormData { key: "b".into(), value: "2".into(), form_type: "text".into() },
                    ]),
                }),
            ),
            postman_item("empty", None),
        ],
        variable: Some(vec![PostmanVariable {
            id: Some("1".into()),
            key: Some("token".into()),
            value: Some("abc".into()),
            variable_type: Some(PostmanVariableType::String),
            name: Some("token".into()),
            system: None,
            disabled: Some(false),
        }]),
    };
    let p = project_from_postman(&collection);
    assert_eq!(p.name, "Imported");
    assert_eq!(names(&p), vec!["raw", "form", "multi", "empty"]);
    let e = &p.endpoints[0];
    assert_eq!((e.body_mode.as_str(), e.body.as_str(), e.raw_type.as_str()), ("raw", "{}", "json"));
    assert_eq!(e.headers[0].name, "Accept");
    let e = &p.endpoints[1];
    assert_eq!((e.body_mode.as_str(), e.body.as_str(), e.raw_type.as_str()), ("urlencoded", "a=1b=2", ""));
    let e = &p.endpoints[2];
    assert_eq!((e.body_mode.as_str(), e.body.as_str()), ("formdata", "a=\"1\"\nb=\"2\""));
    let e = &p.endpoints[3];
    assert_eq!((e.body_mode.as_str(), e.body.as_str(), e.raw_type.as_str()), ("raw", "", "Text"));
    assert_eq!(p.variable.len(), 1);
    assert_eq!(p.variable[0].key.as_deref(), Some("token"));
    assert_eq!(p.variable[0].variable_type, Some(VariableType::String));
}

#[test]
fn test_export_then_import_round_trip() {
    let mut p = project(vec![
        endpoint("a", "formdata", "json", vec![header("Content-Type", "application/json")], "{}"),
        endpoint("b", "raw", "Text", vec![], "hello"),
    ]);
    p.variable = vec![variable("token", "abc")];
    let collection = postman_from_project_at(&p, "today");
    assert_eq!(collection.info.description, "Postman collection exported from Tome on: today");
    assert_eq!(collection.info.schema, POSTMAN_JSON_SCHEMA);
    let back = project_from_postman(&collection);
    assert_eq!(back.name, "Demo");
    assert_eq!(names(&back), vec!["a", "b"]);
    assert_eq!(back.endpoints[0].body, "{}");
    assert_eq!(back.endpoints[0].body_mode, "raw");
    assert_eq!(back.endpoints[0].raw_type, "Text");
    assert_eq!(back.endpoints[0].headers[0].value, "application/json");
    assert_eq!(back.endpoints[1].body, "hello");
    assert_eq!(back.variable[0].value.as_deref(), Some("abc"));
    assert!(variables_equal(&back.variable[0], &p.variable[0]));
    let now = postman_from_project(&p);
    assert!(now.info.description.starts_with("Postman collection exported from Tome on: "));
}

#[test]
fn test_export_item_id_is_name_based_uuid() {
    let p = project(vec![endpoint("example.org", "raw", "Text", vec![], "")]);
    let collection = postman_from_project_at(&p, "t");
    assert_eq!(
        collection.item[0].id.as_deref(),
        Some("54a35416-963c-5dd6-a1e2-5ab7bb5bafc7")
    );
}

// ---- dashboard ----

fn view(main: DashboardDisplay, floating: FloatingWindow) -> DashboardView {
    DashboardView { main_display: main, floating_window: floating }
}

#[test]
fn test_keyboard_commands() {
    let mut v = view(DashboardDisplay::RequestBody, FloatingWindow::Closed);
    assert_eq!(keyboard_events(&mut v, DashboardKey::Char('r'), false), DashboardCommand::SendRequest);
    assert_eq!(keyboard_events(&mut v, DashboardKey::Char('u'), false), DashboardCommand::FocusUrl);
    assert_eq!(keyboard_events(&mut v, DashboardKey::Char('u'), true), DashboardCommand::Nothing);
    assert_eq!(keyboard_events(&mut v, DashboardKey::Char('a'), false), DashboardCommand::Nothing);
    assert_eq!(keyboard_events(&mut v, DashboardKey::Char('z'), false), DashboardCommand::Nothing);
    assert_eq!(keyboard_events(&mut v, DashboardKey::Enter, false), DashboardCommand::Nothing);
    assert_eq!(v, view(DashboardDisplay::RequestBody, FloatingWindow::Closed));
    let mut v = view(DashboardDisplay::RequestHeadersEditor, FloatingWindow::Closed);
    assert_eq!(keyboard_events(&mut v, DashboardKey::Char('a'), false), DashboardCommand::OpenAddHeader);
    assert_eq!(keyboard_events(&mut v, DashboardKey::Char('q'), false), DashboardCommand::Quit);
}

#[test]
fn test_method_key_opens_selector() {
    let mut v = view(DashboardDisplay::ResponseBody, FloatingWindow::Closed);
    assert_eq!(keyboard_events(&mut v, DashboardKey::Char('m'), false), DashboardCommand::FocusMethodSelector);
    assert_eq!(v, view(DashboardDisplay::ResponseBody, FloatingWindow::Method));
}

#[test]
fn test_two_escapes_go_home() {
    let mut v = view(DashboardDisplay::ResponseHeaders, FloatingWindow::Commands);
    assert_eq!(keyboard_events(&mut v, DashboardKey::Esc, false), DashboardCommand::FocusApp);
    assert_eq!(v, view(DashboardDisplay::ResponseHeaders, FloatingWindow::Closed));
    keyboard_events(&mut v, DashboardKey::Esc, false);
    assert_eq!(v, view(DashboardDisplay::RequestBody, FloatingWindow::Closed));
}

#[test]
fn test_event_routing() {
    assert_eq!(
        associated_functions("send_request_click", DashboardDisplay::RequestBody),
        (DashboardCommand::SendRequest, MessageHandler::Nobody)
    );
    assert_eq!(
        associated_functions("send_request_click", DashboardDisplay::ResponseBody),
        (DashboardCommand::Nothing, MessageHandler::Nobody)
    );
    assert_eq!(
        associated_functions("back_to_request_click", DashboardDisplay::RequestHeadersEditor),
        (DashboardCommand::BackToRequest, MessageHandler::Nobody)
    );
    assert_eq!(
        associated_functions("project_window__selection", DashboardDisplay::RequestBody),
        (DashboardCommand::Nothing, MessageHandler::ProjectWindow)
    );
    assert_eq!(
        associated_functions("confirm_action__yes__now", DashboardDisplay::RequestBody),
        (DashboardCommand::Nothing, MessageHandler::ConfirmAction)
    );
    assert_eq!(
        associated_functions("unknown__x", DashboardDisplay::RequestBody),
        (DashboardCommand::Nothing, MessageHandler::Nobody)
    );
    assert_eq!(
        associated_functions("_a_b", DashboardDisplay::RequestBody),
        (DashboardCommand::Nothing, MessageHandler::Nobody)
    );
}

#[test]
fn test_focus_targets() {
    assert_eq!(
        focus_targets(&view(DashboardDisplay::RequestBody, FloatingWindow::Closed)),
        ("request", None)
    );
    assert_eq!(
        focus_targets(&view(DashboardDisplay::ResponseBody, FloatingWindow::EndpointsSelector)),
        ("response_renderer", Some("endpoints_selector_window"))
    );
    assert_eq!(
        focus_targets(&view(DashboardDisplay::ResponseHeaders, FloatingWindow::Error)),
        ("response_headers", None)
    );
}

#[test]
fn test_display_and_window_names() {
    assert_eq!(DashboardDisplay::RequestHeadersEditor.to_common(), "request_headers_editor");
    assert_eq!(FloatingWindow::Closed.as_str(), "None");
    assert_eq!(FloatingWindow::ViewProjectVariables.as_str(), "ViewProjectVariables");
}

fn dashboard_state() -> DashboardState {
    DashboardState {
        main_display: DashboardDisplay::ResponseBody,
        floating_window: FloatingWindow::Closed,
        endpoint: endpoint("e", "raw", "Text", vec![], ""),
        project: project(vec![]),
        endpoint_count: 0,
        response: String::new(),
        error_message: String::new(),
        message: String::new(),
        message_label: String::new(),
        button_cap_left: String::new(),
        button_cap_right: String::new(),
    }
}

#[test]
fn test_dashboard_messages() {
    let options = get_default_options();
    let mut s = dashboard_state();
    let r = s.on_message(DashboardMessages::ShowSucces(("Saved".into(), "All good".into())), &options);
    assert!(matches!(r, MessageOutcome::Handled));
    assert_eq!((s.message_label.as_str(), s.message.as_str()), ("Saved", "All good"));
    assert_eq!(s.floating_window, FloatingWindow::Message);
    s.on_message(DashboardMessages::ShowError("Boom".into()), &options);
    assert_eq!((s.error_message.as_str(), s.floating_window), ("Boom", FloatingWindow::Error));
    s.on_message(DashboardMessages::TextArea(TextAreaMessages::InputChange("body".into())), &options);
    assert_eq!(s.endpoint.body, "body");
    s.on_message(DashboardMessages::ButtonStyleUpdate, &options);
    assert_eq!(s.button_cap_left, "\u{e0ba}\u{2588}");
    assert!(matches!(s.on_message(DashboardMessages::BackToRequest, &options), MessageOutcome::FocusApp));
    assert_eq!(s.main_display, DashboardDisplay::RequestBody);
    let confirm = ConfirmAction::ConfirmDeleteHeader(tome::messages::confirm_actions::ConfirmDetails {
        data: header("a", "b"),
        title: "t".into(),
        message: "m".into(),
    });
    let before = s.main_display;
    match s.on_message(DashboardMessages::Confirmations(confirm), &options) {
        MessageOutcome::Confirmation(e) => {
            assert!(e.operation.is_none() && !e.focus_app && e.success.is_none());
        }
        _ => panic!("expected a confirmation effect"),
    }
    assert_eq!(s.main_display, before);
    s.endpoint.url = "e".into();
    s.endpoint.name = "e".into();
    s.on_message(DashboardMessages::TextInput(TextInputMessages::Change("https://x".into())), &options);
    assert_eq!((s.endpoint.url.as_str(), s.endpoint.name.as_str()), ("https://x", "https://x"));
    s.on_message(
        DashboardMessages::TextInput(TextInputMessages::Update(TextUpdate {
            id: "endpoint_url_input".into(),
            value: "https://y".into(),
        })),
        &options,
    );
    assert_eq!((s.endpoint.url.as_str(), s.endpoint.name.as_str()), ("https://y", "https://x"));
    s.on_message(
        DashboardMessages::TextInput(TextInputMessages::Update(TextUpdate { id: "other".into(), value: "z".into() })),
        &options,
    );
    assert_eq!(s.endpoint.url, "https://y");
    assert!(matches!(
        s.on_message(
            DashboardMessages::TextInput(TextInputMessages::Escape(TextUpdate {
                id: "endpoint_url_input".into(),
                value: String::new(),
            })),
            &options
        ),
        MessageOutcome::UnfocusUrl
    ));
}

// ---- messages, windows, widgets, templates ----

#[test]
fn test_delete_confirmations() {
    match confirm_delete_header(header("Accept", "*/*")) {
        ConfirmAction::ConfirmDeleteHeader(d) => {
            assert_eq!(d.title, "Delete Accept");
            assert_eq!(d.message, "Are you sure you want to delete?");
            assert_eq!(d.data.name, "Accept");
        }
        _ => panic!("wrong variant"),
    }
    match confirm_delete_endpoint(endpoint("users", "", "", vec![], "")) {
        ConfirmAction::ConfirmDeletePersistedEndpoint(d) => assert_eq!(d.title, "Delete users"),
        _ => panic!("wrong variant"),
    }
    match confirm_delete_project(project(vec![])) {
        ConfirmAction::ConfirmDeletePersistedProject(d) => assert_eq!(d.title, "Delete Demo"),
        _ => panic!("wrong variant"),
    }
}

fn delete_question() -> ProjectConfirmAction {
    ProjectConfirmAction::ConfirmDeletePersistedProject(DeleteProjectDetails {
        project: project(vec![]),
        title: "Delete Demo".into(),
        message: "Sure?".into(),
    })
}

#[test]
fn test_answer_confirmation() {
    match answer_confirmation('y', delete_question()) {
        Some(ProjectConfirmAction::ConfirmationDeletePersistedProject(a)) => {
            assert!(a.answer);
            assert_eq!(a.project.name, "Demo");
        }
        _ => panic!("expected an answer"),
    }
    match answer_confirmation('n', delete_question()) {
        Some(ProjectConfirmAction::ConfirmationDeletePersistedProject(a)) => assert!(!a.answer),
        _ => panic!("expected an answer"),
    }
    assert!(answer_confirmation('x', delete_question()).is_none());
}

#[test]
fn test_template_path() {
    assert_eq!(template("dashboard"), "src/components/dashboard.aml");
    assert_eq!(template("templates/button"), "src/components/templates/button.aml");
}

#[test]
fn test_stateless_widgets() {
    assert_eq!(RowState::new(), RowState {});
    assert_eq!(RequestHeadersEditorState::new(), RequestHeadersEditorState {});
    assert!(!Row.accept_focus());
    assert_eq!(FocusChange::Focused, FocusChange::Focused);
    let update = SpecificNameUpdate { old_name: "a".into(), new_name: "b".into() };
    assert_ne!(update.old_name, update.new_name);
    assert!(matches!(AddProjectVariableMessages::InitialFocus, AddProjectVariableMessages::InitialFocus));
}

#[test]
fn test_dashboard_renames() {
    let mut s = dashboard_state();
    s.project = project(vec![endpoint("e", "", "", vec![], ""), endpoint("f", "", "", vec![], "")]);
    s.floating_window = FloatingWindow::ChangeEndpointName;
    s.rename_endpoint_everywhere(&SpecificNameUpdate { old_name: "e".into(), new_name: "g".into() });
    assert_eq!(s.endpoint.name, "g");
    assert_eq!(names(&s.project), vec!["g", "f"]);
    assert_eq!(s.floating_window, FloatingWindow::Closed);
    s.rename_endpoint_everywhere(&SpecificNameUpdate { old_name: "f".into(), new_name: "h".into() });
    assert_eq!(s.endpoint.name, "g");
    assert_eq!(names(&s.project), vec!["g", "h"]);
    s.submit_endpoint_name("i".into());
    assert_eq!(s.endpoint.name, "i");
    s.rename_project_specifically(&SpecificNameUpdate { old_name: "Other".into(), new_name: "X".into() });
    assert_eq!(s.project.name, "Demo");
    s.rename_project_specifically(&SpecificNameUpdate { old_name: "Demo".into(), new_name: "X".into() });
    assert_eq!(s.project.name, "X");
    s.submit_project_name("Y".into());
    assert_eq!(s.project.name, "Y");
    s.floating_window = FloatingWindow::EndpointsSelector;
    s.select_endpoint(endpoint("z", "", "", vec![], "zz"));
    assert_eq!((s.endpoint.name.as_str(), s.floating_window), ("z", FloatingWindow::Closed));
    s.floating_window = FloatingWindow::Commands;
    s.close_window();
    assert_eq!(s.floating_window, FloatingWindow::Closed);
}

#[test]
fn test_dashboard_delete_header() {
    let mut s = dashboard_state();
    s.endpoint = endpoint("e", "", "", vec![header("a", "1"), header("b", "2")], "");
    s.project = project(vec![endpoint("e", "", "", vec![header("a", "1"), header("b", "2")], "")]);
    assert!(!s.delete_header("zzz"));
    assert_eq!(s.endpoint.headers.len(), 2);
    assert!(s.delete_header("a"));
    assert_eq!(s.endpoint.headers.len(), 1);
    assert_eq!(s.project.endpoints[0].headers.len(), 1);
    assert_eq!(s.project.endpoints[0].headers[0].name, "b");
}

#[test]
fn test_selector_keys() {
    let mut w = ListWindow::new();
    assert_eq!(w.on_key(SelectorKey::Char('j'), 3), SelectorAction::Nothing);
    assert_eq!(w.on_key(SelectorKey::Down, 3), SelectorAction::Nothing);
    assert_eq!(w.cursor, 2);
    assert_eq!(w.on_key(SelectorKey::Enter, 3), SelectorAction::Select(2));
    assert_eq!(w.on_key(SelectorKey::Char('k'), 3), SelectorAction::Nothing);
    assert_eq!(w.cursor, 1);
    assert_eq!(w.on_key(SelectorKey::Char('d'), 3), SelectorAction::Letter('d'));
    assert_eq!(w.on_key(SelectorKey::Esc, 3), SelectorAction::Cancel);
    assert_eq!(w.on_key(SelectorKey::Enter, 0), SelectorAction::Cancel);
    assert_eq!(w.on_key(SelectorKey::Up, 3), SelectorAction::Nothing);
    assert_eq!(w.cursor, 0);
}

#[test]
fn test_window_messages() {
    let e = endpoint("e", "", "", vec![header("a", "1"), header("b", "2")], "");
    assert_eq!(header_names(&e.headers), vec!["a".to_string(), "b".to_string()]);
    match edit_header_message(&e, header("b", "2")) {
        AddHeaderWindowMessages::Specifically((name, h, names)) => {
            assert_eq!(name, "b");
            assert_eq!(h.value, "2");
            assert_eq!(names, vec!["a".to_string(), "b".to_string()]);
        }
    }
    let p = project(vec![endpoint("x", "", "", vec![], ""), endpoint("y", "", "", vec![], "")]);
    assert_eq!(endpoint_names(&p), vec!["x".to_string(), "y".to_string()]);
    match rename_endpoint_message(&p, endpoint("y", "", "", vec![], "")) {
        EditEndpointNameMessages::Specifically((project_name, e, names)) => {
            assert_eq!(project_name, "Demo");
            assert_eq!(e.name, "y");
            assert_eq!(names.len(), 2);
        }
        _ => panic!("wrong variant"),
    }
}

#[test]
fn test_app_section_focus_colors() {
    let section = AppSection;
    assert!(!section.accept_focus());
    let on = section.on_focus_change(true);
    assert_eq!((on.foreground, on.focus_app), ("#ffff00", false));
    let off = section.on_focus_change(false);
    assert_eq!((off.foreground, off.focus_app), ("#ff0000", true));
}

#[test]
fn test_confirmation_no_closes_window() {
    let mut s = dashboard_state();
    s.floating_window = FloatingWindow::ConfirmAction;
    let e = handle_confirmation(
        &mut s,
        ConfirmAction::ConfirmationDeletePersistedProject(ConfirmationAnswer { data: project(vec![]), answer: false }),
    );
    assert_eq!(s.floating_window, FloatingWindow::Closed);
    assert!(e.focus_app && e.operation.is_none() && e.success.is_none() && e.failure.is_none());
    assert_eq!(s.project.name, "Demo");
}

#[test]
fn test_confirmation_deletes_project() {
    let mut s = dashboard_state();
    s.project = project(vec![endpoint("e", "", "", vec![], "")]);
    let e = handle_confirmation(
        &mut s,
        ConfirmAction::ConfirmationDeletePersistedProject(ConfirmationAnswer { data: project(vec![]), answer: true }),
    );
    assert_eq!(s.project.name, "");
    assert!(s.project.endpoints.is_empty());
    assert_eq!(s.endpoint.name, "");
    let op = e.operation.expect("an operation");
    assert_eq!(op.kind, FileOperationKind::DeleteProject);
    assert_eq!(op.project.name, "Demo");
    assert!(e.clear_inputs);
    assert_eq!(e.success, Some(("Delete Project Success".to_string(), "Project 'Demo' has been deleted".to_string())));
    assert_eq!(e.failure.as_deref(), Some("There was an error deleting 'Demo"));
}

#[test]
fn test_confirmation_deletes_endpoint_and_header() {
    let mut s = dashboard_state();
    s.endpoint = endpoint("e", "", "", vec![header("a", "1"), header("b", "2")], "");
    s.project = project(vec![
        endpoint("e", "", "", vec![header("a", "1"), header("b", "2")], ""),
        endpoint("f", "", "", vec![], ""),
    ]);
    let e = handle_confirmation(
        &mut s,
        ConfirmAction::ConfirmationDeleteHeader(ConfirmationAnswer { data: header("a", "1"), answer: true }),
    );
    assert_eq!(e.operation.as_ref().map(|o| o.kind), Some(FileOperationKind::ReplaceSavedProject));
    assert_eq!(e.operation.as_ref().map(|o| o.project.endpoints[0].headers.len()), Some(1));
    assert_eq!(s.project.endpoints[0].headers.len(), 2);
    assert_eq!(s.endpoint.headers.len(), 2);
    finish_confirmation(&mut s, e, true);
    assert_eq!(s.project.endpoints[0].headers.len(), 1);
    assert_eq!(s.endpoint.headers.len(), 1);
    assert_eq!(
        (s.message_label.as_str(), s.message.as_str(), s.floating_window),
        ("Delete Header", "Header was deleted successfully", FloatingWindow::Message)
    );

    let e = handle_confirmation(
        &mut s,
        ConfirmAction::ConfirmationDeletePersistedEndpoint(ConfirmationAnswer {
            data: endpoint("e", "", "", vec![header("b", "2")], ""),
            answer: true,
        }),
    );
    assert!(e.clear_inputs);
    assert_eq!(s.endpoint.name, "");
    assert_eq!(names(&s.project), vec!["e", "f"]);
    let op = e.operation.as_ref().expect("an operation");
    assert_eq!((op.kind, op.project.endpoints.len()), (FileOperationKind::SaveProject, 1));
    assert_eq!(e.failure.as_deref(), Some("There was an error deleting the e endpoint"));
    finish_confirmation(&mut s, e, false);
    assert_eq!(names(&s.project), vec!["e", "f"]);
    assert_eq!(
        (s.error_message.as_str(), s.floating_window),
        ("There was an error deleting the e endpoint", FloatingWindow::Error)
    );
    let e = handle_confirmation(
        &mut s,
        ConfirmAction::ConfirmationDeletePersistedEndpoint(ConfirmationAnswer {
            data: endpoint("f", "", "", vec![], ""),
            answer: true,
        }),
    );
    assert!(!e.clear_inputs);
    finish_confirmation(&mut s, e, true);
    assert_eq!(names(&s.project), vec!["e"]);
    assert_eq!(s.message, "The f endpoint has been deleted.");
}

#[test]
fn test_confirmation_deletes_variable() {
    let mut s = dashboard_state();
    s.project.variable = vec![variable("a", "1")];
    let e = handle_confirmation(
        &mut s,
        ConfirmAction::ConfirmationDeletePersistedVariable(ConfirmationAnswer { data: variable("b", "1"), answer: true }),
    );
    assert!(e.operation.is_none());
    assert_eq!(s.project.variable.len(), 1);
    let e = handle_confirmation(
        &mut s,
        ConfirmAction::ConfirmationDeletePersistedVariable(ConfirmationAnswer { data: variable("a", "1"), answer: true }),
    );
    assert!(s.project.variable.is_empty());
    assert_eq!(e.success, Some(("Delete 'a'".to_string(), "Variable deleted successfully".to_string())));
    assert_eq!(e.failure.as_deref(), Some("Error deleting 'a'"));
}

#[test]
fn test_commands_and_events() {
    let mut s = dashboard_state();
    s.main_display = DashboardDisplay::RequestHeadersEditor;
    let (effect, handler) = on_event(&mut s, "back_to_request_click");
    assert_eq!(s.main_display, DashboardDisplay::RequestBody);
    assert_eq!(s.floating_window, FloatingWindow::Closed);
    assert!(!effect.caller_work);
    assert_eq!(handler, MessageHandler::Nobody);
    let effect = apply_command(&mut s, DashboardCommand::OpenCommands);
    assert_eq!(s.floating_window, FloatingWindow::Commands);
    assert_eq!(effect.focus, Some("commands_window"));
    let effect = apply_command(&mut s, DashboardCommand::SaveProject);
    assert!(effect.caller_work);
    assert_eq!(effect.focus, None);
    assert_eq!(s.floating_window, FloatingWindow::Commands);
}

#[test]
fn test_select_project() {
    let mut s = dashboard_state();
    s.floating_window = FloatingWindow::Project;
    assert!(select_project(&mut s, project(vec![endpoint("x", "", "", vec![], "b"), endpoint("y", "", "", vec![], "")])));
    assert_eq!((s.endpoint.name.as_str(), s.endpoint_count, s.floating_window), ("x", 2, FloatingWindow::Closed));
    assert!(!select_project(&mut s, project(vec![])));
    assert_eq!((s.endpoint.name.as_str(), s.endpoint_count), ("", 0));
    assert!(s.project.endpoints.is_empty());
}

#[test]
fn test_header_selector_events() {
    let e = endpoint("e", "", "", vec![header("a", "1")], "");
    let (w, a) = edit_header_selector_event(HeaderSelectorEvent::Edit, header("a", "1"), &e);
    assert_eq!(w, FloatingWindow::AddHeader);
    assert!(matches!(a, HeaderSelectorAction::EditHeader(_)));
    let (w, a) = edit_header_selector_event(HeaderSelectorEvent::Delete, header("a", "1"), &e);
    assert_eq!(w, FloatingWindow::ConfirmAction);
    match a {
        HeaderSelectorAction::Confirm(ConfirmAction::ConfirmDeleteHeader(d)) => assert_eq!(d.title, "Delete a"),
        _ => panic!("expected a question"),
    }
    let (w, a) = edit_header_selector_event(HeaderSelectorEvent::Cancel, header("a", "1"), &e);
    assert_eq!(w, FloatingWindow::Closed);
    assert!(matches!(a, HeaderSelectorAction::FocusApp));
    let (w, a) = edit_header_selector_event(HeaderSelectorEvent::Add, header("a", "1"), &e);
    assert_eq!(w, FloatingWindow::AddHeader);
    assert!(matches!(a, HeaderSelectorAction::OpenAddHeader));
}

#[test]
fn test_rename_checks_unique_names() {
    let mut s = dashboard_state();
    s.project = project(vec![endpoint("a", "", "", vec![], ""), endpoint("b", "", "", vec![], "")]);
    let err = submit_endpoint_rename(&mut s, &SpecificNameUpdate { old_name: "a".into(), new_name: "b".into() });
    assert_eq!(err.as_deref(), Some("The name 'b' is already in use"));
    assert_eq!(names(&s.project), vec!["a", "b"]);
    assert!(submit_endpoint_rename(&mut s, &SpecificNameUpdate { old_name: "a".into(), new_name: "c".into() }).is_none());
    assert_eq!(names(&s.project), vec!["c", "b"]);
}

#[test]
fn test_new_project_and_endpoint() {
    let mut s = dashboard_state();
    s.floating_window = FloatingWindow::Commands;
    s.project = project(vec![endpoint("a", "", "", vec![], "")]);
    start_new_project(&mut s, None);
    assert_eq!((s.project.name.as_str(), s.project.endpoints.len(), s.endpoint.name.as_str()), ("", 0, ""));
    assert_eq!(s.floating_window, FloatingWindow::Closed);
    start_new_project(&mut s, Some("disk full".into()));
    assert_eq!((s.error_message.as_str(), s.floating_window), ("disk full", FloatingWindow::Closed));
    s.endpoint = endpoint("x", "", "", vec![], "");
    start_new_endpoint(&mut s);
    assert_eq!(s.endpoint.name, "");
}

#[test]
fn test_save_endpoint_guards() {
    let mut s = dashboard_state();
    s.endpoint = endpoint("New Endpoint", "", "", vec![], "");
    assert!(save_endpoint(&mut s, "New Project", "New Endpoint").is_none());
    assert_eq!((s.error_message.as_str(), s.floating_window), ("Please give your endpoint a name to save", FloatingWindow::Error));
    let mut s = dashboard_state();
    s.project.name = "New Project".into();
    assert!(save_endpoint(&mut s, "New Project", "New Endpoint").is_none());
    assert_eq!(s.error_message, "Please give your project a name to save");
    let mut s = dashboard_state();
    s.project = project(vec![endpoint("e", "", "", vec![], "old"), endpoint("f", "", "", vec![], "")]);
    s.endpoint.body = "new".into();
    let p = save_endpoint(&mut s, "New Project", "New Endpoint").expect("a project to save");
    assert_eq!(names(&p), vec!["f", "e"]);
    assert_eq!(s.project.endpoints[0].body, "old");
    endpoint_saved(&mut s, p, None, true);
    assert_eq!(names(&s.project), vec!["f", "e"]);
    assert_eq!(s.message, "Saved endpoint successfully");
    project_saved(&mut s, Some("no space".into()), true);
    assert_eq!(s.error_message, "no space");
    project_saved(&mut s, None, true);
    assert_eq!((s.message_label.as_str(), s.message.as_str()), ("Project Save", "Saved project successfully"));
}

#[test]
fn test_name_input_value() {
    assert_eq!(name_input_value("New Project", "New Project"), "");
    assert_eq!(name_input_value("Mine", "New Project"), "Mine");
}

#[test]
fn test_endpoints_selector_events() {
    let mut s = dashboard_state();
    s.floating_window = FloatingWindow::EndpointsSelector;
    match endpoints_selector_event(&mut s, EndpointsSelectorEvent::Delete, endpoint("x", "", "", vec![], "")) {
        EndpointsSelectorAction::Confirm(ConfirmAction::ConfirmDeletePersistedEndpoint(d)) => {
            assert_eq!(d.title, "Delete x")
        }
        _ => panic!("expected a question"),
    }
    assert_eq!(s.floating_window, FloatingWindow::ConfirmAction);
    assert!(matches!(
        endpoints_selector_event(&mut s, EndpointsSelectorEvent::Selection, endpoint("y", "", "", vec![], "")),
        EndpointsSelectorAction::FocusApp
    ));
    assert_eq!((s.endpoint.name.as_str(), s.floating_window), ("y", FloatingWindow::Closed));
    s.floating_window = FloatingWindow::EndpointsSelector;
    endpoints_selector_event(&mut s, EndpointsSelectorEvent::Cancel, endpoint("z", "", "", vec![], ""));
    assert_eq!((s.endpoint.name.as_str(), s.floating_window), ("y", FloatingWindow::Closed));
}

#[test]
fn test_new_endpoint_name_is_checked() {
    let mut s = dashboard_state();
    s.project = project(vec![endpoint("a", "", "", vec![], "")]);
    s.floating_window = FloatingWindow::ChangeEndpointName;
    assert_eq!(submit_new_endpoint_name(&mut s, "a".into()).as_deref(), Some("The name 'a' is already in use"));
    assert_eq!((s.endpoint.name.as_str(), s.floating_window), ("e", FloatingWindow::ChangeEndpointName));
    assert!(submit_new_endpoint_name(&mut s, "b".into()).is_none());
    assert_eq!((s.endpoint.name.as_str(), s.floating_window), ("b", FloatingWindow::Closed));
}

#[test]
fn test_try_postman_from_project() {
    let ok = project(vec![endpoint("a", "raw", "Text", vec![], "x")]);
    assert_eq!(try_postman_from_project(&ok).map(|j| j.item.len()), Some(1));
    let bad = project(vec![endpoint("b", "raw", "Text", vec![header("content-type", "urlencoded")], "")]);
    assert!(try_postman_from_project(&bad).is_none());
}
