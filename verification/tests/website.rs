use pro::website::{
    err_response, list_response, ok_response, operation_result_response, route_request,
    ServerAction,
};

fn names(v: &[&str]) -> Vec<String> {
    v.iter().map(|s| s.to_string()).collect()
}

#[test]
fn root_serves_the_landing_page() {
    assert!(matches!(route_request("/"), ServerAction::ServeIndex));
}

#[test]
fn list_route_lists_projects() {
    assert!(matches!(route_request("/list"), ServerAction::ListProjects));
}

#[test]
fn unknown_paths_get_not_found() {
    for endpoint in ["/nope", "/listing", "/lis"] {
        match route_request(endpoint) {
            ServerAction::Respond(r) => {
                assert_eq!(r.status, 404);
                assert!(!r.content_type_json);
                assert_eq!(r.body, "Not found");
            }
            _ => panic!("expected a direct reply"),
        }
    }
}

#[test]
fn open_without_project_param_is_a_client_error() {
    for endpoint in ["/open", "/open?", "/open?other=x", "/remove", "/remove?name=z"] {
        match route_request(endpoint) {
            ServerAction::Respond(r) => {
                assert_eq!(r.status, 400);
                assert!(r.content_type_json);
                assert_eq!(r.body, "{\"error\": \"You should provide 'project' query param\"}");
            }
            _ => panic!("expected a direct reply, no operation"),
        }
    }
}

#[test]
fn open_with_project_param_names_the_project() {
    match route_request("/open?project=foo") {
        ServerAction::OpenProject { name } => assert_eq!(name, "foo"),
        _ => panic!("expected an open action"),
    }
}

#[test]
fn remove_with_project_param_names_the_project() {
    match route_request("/remove?project=bar") {
        ServerAction::RemoveProject { name } => assert_eq!(name, "bar"),
        _ => panic!("expected a remove action"),
    }
}

#[test]
fn repeated_project_param_last_wins() {
    match route_request("/open?project=a&project=b") {
        ServerAction::OpenProject { name } => assert_eq!(name, "b"),
        _ => panic!("expected an open action"),
    }
}

#[test]
fn query_values_are_percent_decoded() {
    match route_request("/open?project=a%20b") {
        ServerAction::OpenProject { name } => assert_eq!(name, "a b"),
        _ => panic!("expected an open action"),
    }
}

#[test]
fn error_and_ok_payload_shapes() {
    let e = err_response("boom");
    assert_eq!(e.status, 500);
    assert!(e.content_type_json);
    assert_eq!(e.body, "{\"error\": \"boom\"}");

    let o = ok_response("ok");
    assert_eq!(o.status, 200);
    assert!(o.content_type_json);
    assert_eq!(o.body, "{\"message\": \"ok\"}");
}

#[test]
fn operation_outcome_replies() {
    let o = operation_result_response(true);
    assert_eq!(o.status, 200);
    assert_eq!(o.body, "{\"message\": \"ok\"}");

    let e = operation_result_response(false);
    assert_eq!(e.status, 500);
    assert_eq!(e.body, "{\"error\": \"Project With given name does not exists\"}");
}

#[test]
fn list_payload_names_and_count() {
    let projects = names(&["foo", "bar"]);
    let r = list_response(&projects);
    assert_eq!(r.status, 200);
    assert!(r.content_type_json);
    assert_eq!(r.body, "{\"projects\":[\"foo\",\"bar\"],\"count\":2}");
}

#[test]
fn list_payload_of_an_empty_workspace() {
    let projects: Vec<String> = Vec::new();
    let r = list_response(&projects);
    assert_eq!(r.body, "{\"projects\":[],\"count\":0}");
}

#[test]
fn list_payload_escapes_names_as_json_does() {
    let projects = names(&["plain", "qu\"ote", "back\\slash", "tab\there", "ctl\u{1}char"]);
    let r = list_response(&projects);
    let array = serde_json::to_string(&projects).unwrap();
    let expected = format!("{{\"projects\":{},\"count\":{}}}", array, projects.len());
    assert_eq!(r.body, expected);
}
