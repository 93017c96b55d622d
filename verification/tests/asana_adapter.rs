use pm_sdk::asana::{encode_search_text, AsanaAdapter};
use pm_sdk::http::{HttpMethod, HttpRequest, Plan};
use pm_sdk::json::{Json, JsonNumber};
use pm_sdk::{CreateCommentRequest, CreateIssueRequest, PageRequest, PmError, SearchRequest, UpdateIssueRequest};

fn s(x: &str) -> Json {
    Json::Str(x.to_string())
}

fn o(pairs: Vec<(&str, Json)>) -> Json {
    Json::Object(pairs.into_iter().map(|(k, v)| (k.to_string(), v)).collect())
}

fn a(items: Vec<Json>) -> Json {
    Json::Array(items)
}

/// Compact text of a value, keys in their order.
fn render(j: &Json) -> String {
    match j {
        Json::Null => "null".to_string(),
        Json::Bool(b) => b.to_string(),
        Json::Number(JsonNumber::UInt(u)) => u.to_string(),
        Json::Number(JsonNumber::NegInt(i)) => i.to_string(),
        Json::Number(JsonNumber::Float(t)) => t.clone(),
        Json::Str(t) => format!("\"{}\"", t),
        Json::Array(v) => format!("[{}]", v.iter().map(render).collect::<Vec<_>>().join(",")),
        Json::Object(e) => format!(
            "{{{}}}",
            e.iter().map(|(k, v)| format!("\"{}\":{}", k, render(v))).collect::<Vec<_>>().join(",")
        ),
    }
}

const BASE: &str = "http://127.0.0.1:4321";

fn path_of(req: &HttpRequest) -> &str {
    &req.url[BASE.len()..]
}

fn asana_response(data: Json) -> Json {
    o(vec![("data", data)])
}

/// The `data` of a successful answer.
fn data_of(status: u16, body: Json) -> Json {
    AsanaAdapter::response(status, Ok(body)).unwrap()
}

fn task(gid: &str, name: &str, notes: Json, completed: bool) -> Json {
    o(vec![
        ("gid", s(gid)),
        ("name", s(name)),
        ("notes", notes),
        ("completed", Json::Bool(completed)),
        ("assignee", Json::Null),
        ("memberships", a(vec![])),
        ("tags", a(vec![])),
        ("created_at", s("2026-01-01T00:00:00Z")),
        ("modified_at", s("2026-01-02T00:00:00Z")),
    ])
}

#[test]
fn platform_returns_asana() {
    let adapter = AsanaAdapter::new("token");
    assert_eq!(adapter.platform(), "asana");
}

#[test]
fn requests_carry_bearer_token() {
    let adapter = AsanaAdapter::new("token");
    let req = adapter.get_issue_request("t1");
    assert!(req.url.starts_with("https://app.asana.com/api/1.0/tasks/t1?opt_fields="));
    assert_eq!(
        req.headers,
        vec![
            ("Authorization".to_string(), "Bearer token".to_string()),
            ("Accept".to_string(), "application/json".to_string()),
        ]
    );
    assert!(req.body.is_none());
    let req = adapter.create_tag_request("x");
    assert_eq!(req.headers.len(), 3);
    assert_eq!(req.headers[2], ("Content-Type".to_string(), "application/json".to_string()));
}

#[test]
fn list_issues_returns_mapped_tasks() {
    let adapter = AsanaAdapter::new("token")
        .with_base_url(BASE.to_string())
        .with_workspace("ws_1".to_string());
    let req = adapter.list_issues_request(&PageRequest {
        limit: Some(10),
        ..Default::default()
    });
    assert_eq!(req.method, HttpMethod::Get);
    assert_eq!(
        path_of(&req),
        "/tasks?limit=10&opt_fields=gid,name,notes,completed,assignee.gid,assignee.name,memberships.project.gid,memberships.project.name,tags.name,created_at,modified_at&workspace=ws_1"
    );

    let body = asana_response(a(vec![o(vec![
        ("gid", s("task_1")),
        ("name", s("Fix login bug")),
        ("notes", s("Login fails on Safari")),
        ("completed", Json::Bool(false)),
        ("assignee", o(vec![("gid", s("u1")), ("name", s("Alice"))])),
        ("memberships", a(vec![o(vec![("project", o(vec![("gid", s("p1")), ("name", s("Core"))]))])])),
        ("tags", a(vec![o(vec![("name", s("bug"))])])),
        ("created_at", s("2026-01-01T00:00:00Z")),
        ("modified_at", s("2026-01-02T00:00:00Z")),
    ])]));
    let issues = AsanaAdapter::tasks_from(&data_of(200, body));

    assert_eq!(issues.len(), 1);
    assert_eq!(issues[0].id, "task_1");
    assert_eq!(issues[0].title, "Fix login bug");
    assert_eq!(issues[0].description.as_deref(), Some("Login fails on Safari"));
    assert_eq!(issues[0].status.as_deref(), Some("active"));
    assert_eq!(issues[0].assignee_name.as_deref(), Some("Alice"));
    assert_eq!(issues[0].project_name.as_deref(), Some("Core"));
    assert_eq!(issues[0].labels, vec!["bug"]);
    assert_eq!(issues[0].identifier, None);
    assert_eq!(issues[0].priority, None);
    assert_eq!(issues[0].updated_at.as_deref(), Some("2026-01-02T00:00:00Z"));
}

#[test]
fn list_issues_passes_cursor_as_offset() {
    let adapter = AsanaAdapter::new("token").with_base_url(BASE.to_string());
    let req = adapter.list_issues_request(&PageRequest {
        after: Some("cur".to_string()),
        ..Default::default()
    });
    assert!(path_of(&req).starts_with("/tasks?limit=50&opt_fields="));
    assert!(path_of(&req).ends_with("modified_at&offset=cur"));
}

#[test]
fn get_issue_returns_task() {
    let adapter = AsanaAdapter::new("token").with_base_url(BASE.to_string());
    let req = adapter.get_issue_request("task_42");
    assert!(path_of(&req).starts_with("/tasks/task_42"));

    let body = asana_response(task("task_42", "Design review", Json::Null, true));
    let issue = AsanaAdapter::task_from(&data_of(200, body));

    assert_eq!(issue.id, "task_42");
    assert_eq!(issue.title, "Design review");
    assert_eq!(issue.status.as_deref(), Some("completed"));
    assert_eq!(issue.description, None);
    assert_eq!(issue.project_id, None);
}

#[test]
fn create_issue_posts_task() {
    let adapter = AsanaAdapter::new("token")
        .with_base_url(BASE.to_string())
        .with_workspace("ws_1".to_string());
    let req = adapter.create_issue_request(&CreateIssueRequest {
        title: "New task".into(),
        ..Default::default()
    });
    assert_eq!(req.method, HttpMethod::Post);
    assert!(path_of(&req).starts_with("/tasks"));
    assert_eq!(
        render(req.body.as_ref().unwrap()),
        "{\"data\":{\"name\":\"New task\",\"workspace\":\"ws_1\"}}"
    );

    let body = asana_response(task("task_new", "New task", Json::Null, false));
    let issue = AsanaAdapter::task_from(&data_of(201, body));

    assert_eq!(issue.id, "task_new");
    assert_eq!(issue.title, "New task");
    assert_eq!(issue.status.as_deref(), Some("active"));
}

#[test]
fn create_issue_sends_project_list_and_assignee() {
    let adapter = AsanaAdapter::new("token");
    let req = adapter.create_issue_request(&CreateIssueRequest {
        title: "T".into(),
        description: Some("N".into()),
        project_id: Some("p1".into()),
        assignee_id: Some("u1".into()),
        ..Default::default()
    });
    assert_eq!(
        render(req.body.as_ref().unwrap()),
        "{\"data\":{\"name\":\"T\",\"notes\":\"N\",\"projects\":[\"p1\"],\"assignee\":\"u1\"}}"
    );
}

#[test]
fn update_issue_puts_task() {
    let adapter = AsanaAdapter::new("token").with_base_url(BASE.to_string());
    let req = adapter.update_issue_request(
        "task_1",
        &UpdateIssueRequest {
            title: Some("Updated task".into()),
            status: Some("completed".into()),
            ..Default::default()
        },
    );
    assert_eq!(req.method, HttpMethod::Put);
    assert!(path_of(&req).starts_with("/tasks/task_1"));
    assert_eq!(
        render(req.body.as_ref().unwrap()),
        "{\"data\":{\"name\":\"Updated task\",\"completed\":true}}"
    );

    let body = asana_response(task("task_1", "Updated task", Json::Null, true));
    let issue = AsanaAdapter::task_from(&data_of(200, body));

    assert_eq!(issue.title, "Updated task");
    assert_eq!(issue.status.as_deref(), Some("completed"));
}

#[test]
fn update_issue_reads_status_case_insensitively() {
    let adapter = AsanaAdapter::new("token");
    let done = adapter.update_issue_request(
        "t",
        &UpdateIssueRequest { status: Some("Completed".into()), ..Default::default() },
    );
    assert_eq!(render(done.body.as_ref().unwrap()), "{\"data\":{\"completed\":true}}");
    let open = adapter.update_issue_request(
        "t",
        &UpdateIssueRequest { status: Some("active".into()), ..Default::default() },
    );
    assert_eq!(render(open.body.as_ref().unwrap()), "{\"data\":{\"completed\":false}}");
}

#[test]
fn delete_issue_sends_delete() {
    let adapter = AsanaAdapter::new("token").with_base_url(BASE.to_string());
    let req = adapter.delete_issue_request("task_1");
    assert_eq!(req.method, HttpMethod::Delete);
    assert_eq!(path_of(&req), "/tasks/task_1");
    assert!(req.body.is_none());
    assert!(AsanaAdapter::response(200, Ok(asana_response(o(vec![])))).is_ok());
}

#[test]
fn adapter_list_projects_returns_mapped() {
    let adapter = AsanaAdapter::new("token").with_base_url(BASE.to_string());
    let req = adapter.list_projects_request(&PageRequest::default());
    assert_eq!(
        path_of(&req),
        "/projects?limit=50&opt_fields=gid,name,notes,current_status.text,created_at,modified_at"
    );

    let body = asana_response(a(vec![o(vec![
        ("gid", s("p1")),
        ("name", s("Platform")),
        ("notes", s("Platform team project")),
        ("current_status", Json::Null),
        ("created_at", s("2026-01-01T00:00:00Z")),
        ("modified_at", s("2026-01-15T00:00:00Z")),
    ])]));
    let projects = AsanaAdapter::projects_from(&data_of(200, body));

    assert_eq!(projects.len(), 1);
    assert_eq!(projects[0].id, "p1");
    assert_eq!(projects[0].name, "Platform");
    assert_eq!(projects[0].description.as_deref(), Some("Platform team project"));
    assert_eq!(projects[0].status, None);
}

#[test]
fn get_project_returns_project() {
    let adapter = AsanaAdapter::new("token").with_base_url(BASE.to_string());
    let req = adapter.get_project_request("p42");
    assert!(path_of(&req).starts_with("/projects/p42"));

    let body = asana_response(o(vec![
        ("gid", s("p42")),
        ("name", s("Auth Service")),
        ("notes", Json::Null),
        ("current_status", o(vec![("text", s("on_track"))])),
        ("created_at", s("2026-01-01T00:00:00Z")),
        ("modified_at", s("2026-02-01T00:00:00Z")),
    ]));
    let project = AsanaAdapter::project_from(&data_of(200, body));

    assert_eq!(project.id, "p42");
    assert_eq!(project.name, "Auth Service");
    assert_eq!(project.status.as_deref(), Some("on_track"));
}

#[test]
fn list_teams_returns_workspaces() {
    let adapter = AsanaAdapter::new("token").with_base_url(BASE.to_string());
    let req = adapter.list_teams_request(&PageRequest::default());
    assert_eq!(path_of(&req), "/workspaces?limit=50&opt_fields=gid,name");

    let body = asana_response(a(vec![o(vec![("gid", s("ws_1")), ("name", s("Quantum Box"))])]));
    let teams = AsanaAdapter::workspaces_from(&data_of(200, body));

    assert_eq!(teams.len(), 1);
    assert_eq!(teams[0].id, "ws_1");
    assert_eq!(teams[0].name, "Quantum Box");
    assert_eq!(teams[0].key, None);
}

#[test]
fn list_comments_filters_comment_stories() {
    let adapter = AsanaAdapter::new("token").with_base_url(BASE.to_string());
    let req = adapter.list_comments_request("task_1");
    assert_eq!(
        path_of(&req),
        "/tasks/task_1/stories?opt_fields=gid,text,resource_subtype,created_at,created_by.name"
    );

    let body = asana_response(a(vec![
        o(vec![
            ("gid", s("s1")),
            ("text", s("Nice work!")),
            ("resource_subtype", s("comment_added")),
            ("created_at", s("2026-01-05T00:00:00Z")),
            ("created_by", o(vec![("name", s("Bob"))])),
        ]),
        o(vec![
            ("gid", s("s2")),
            ("text", s("Alice assigned to Bob")),
            ("resource_subtype", s("assigned")),
            ("created_at", s("2026-01-04T00:00:00Z")),
            ("created_by", o(vec![("name", s("System"))])),
        ]),
        o(vec![("gid", s("s3")), ("text", s("old style")), ("resource_subtype", s("comment"))]),
    ]));
    let comments = AsanaAdapter::comments_from(&data_of(200, body));

    assert_eq!(comments.len(), 2);
    assert_eq!(comments[0].id, "s1");
    assert_eq!(comments[0].body, "Nice work!");
    assert_eq!(comments[0].user_name.as_deref(), Some("Bob"));
    assert_eq!(comments[0].issue_id, None);
    assert_eq!(comments[1].id, "s3");
}

#[test]
fn create_comment_posts_story() {
    let adapter = AsanaAdapter::new("token").with_base_url(BASE.to_string());
    let req = adapter.create_comment_request(
        "task_1",
        &CreateCommentRequest {
            body: "Looks good!".into(),
        },
    );
    assert_eq!(req.method, HttpMethod::Post);
    assert_eq!(path_of(&req), "/tasks/task_1/stories");
    assert_eq!(render(req.body.as_ref().unwrap()), "{\"data\":{\"text\":\"Looks good!\"}}");

    let body = asana_response(o(vec![
        ("gid", s("s_new")),
        ("text", s("Looks good!")),
        ("resource_subtype", s("comment_added")),
        ("created_at", s("2026-03-10T00:00:00Z")),
        ("created_by", o(vec![("name", s("Alice"))])),
    ]));
    let comment = AsanaAdapter::comment_from(&data_of(201, body));

    assert_eq!(comment.id, "s_new");
    assert_eq!(comment.body, "Looks good!");
    assert_eq!(comment.user_name.as_deref(), Some("Alice"));
}

#[test]
fn search_returns_tasks() {
    let adapter = AsanaAdapter::new("token")
        .with_base_url(BASE.to_string())
        .with_workspace("ws_1".to_string());
    let plan = adapter.search_request(&SearchRequest {
        query: "auth".into(),
        limit: Some(10),
    });
    let req = match plan {
        Plan::Send(req) => req,
        Plan::Finish(_) => panic!("expected a request"),
    };
    assert_eq!(
        path_of(&req),
        "/workspaces/ws_1/tasks/search?text=auth&limit=10&opt_fields=gid,name,completed"
    );

    let body = asana_response(a(vec![o(vec![
        ("gid", s("t99")),
        ("name", s("Auth refactor")),
        ("completed", Json::Bool(false)),
    ])]));
    let results = AsanaAdapter::search_results_from(&data_of(200, body));

    assert_eq!(results.len(), 1);
    assert_eq!(results[0].id, "t99");
    assert_eq!(results[0].title, "Auth refactor");
    assert_eq!(results[0].status.as_deref(), Some("active"));
}

#[test]
fn search_without_workspace_returns_error() {
    let adapter = AsanaAdapter::new("token");
    let plan = adapter.search_request(&SearchRequest {
        query: "test".into(),
        limit: None,
    });
    let err = match plan {
        Plan::Finish(Err(e)) => e,
        _ => panic!("expected an error"),
    };
    assert!(err.to_string().contains("workspace_gid"));
    assert_eq!(err.to_string(), "Unsupported operation: search requires workspace_gid");
}

#[test]
fn search_text_is_encoded() {
    assert_eq!(encode_search_text("auth bug"), "auth+bug");
    assert_eq!(encode_search_text("a-b_c.d~e"), "a-b_c.d~e");
    assert_eq!(encode_search_text("a&b=c"), "a%26b%3Dc");
    assert_eq!(encode_search_text("x+y"), "x%2By");
    assert_eq!(encode_search_text("\n"), "%0A");
    assert_eq!(encode_search_text("é"), "%E9");
    assert_eq!(encode_search_text("あ"), "%3042");
    assert_eq!(encode_search_text(""), "");
    let adapter = AsanaAdapter::new("t").with_workspace("w".to_string());
    match adapter.search_request(&SearchRequest { query: "a b".into(), limit: None }) {
        Plan::Send(req) => assert!(req.url.ends_with("/workspaces/w/tasks/search?text=a+b&limit=25&opt_fields=gid,name,completed")),
        Plan::Finish(_) => panic!("expected a request"),
    }
}

#[test]
fn list_tags_returns_mapped() {
    let adapter = AsanaAdapter::new("token")
        .with_base_url(BASE.to_string())
        .with_workspace("ws_1".to_string());
    let req = adapter.list_tags_request(&PageRequest::default());
    assert_eq!(path_of(&req), "/tags?limit=50&opt_fields=gid,name&workspace=ws_1");

    let body = asana_response(a(vec![
        o(vec![("gid", s("tag_1")), ("name", s("urgent"))]),
        o(vec![("gid", s("tag_2")), ("name", s("backend"))]),
    ]));
    let tags = AsanaAdapter::tags_from(&data_of(200, body));

    assert_eq!(tags.len(), 2);
    assert_eq!(tags[0].id, "tag_1");
    assert_eq!(tags[0].name, "urgent");
}

#[test]
fn create_tag_posts_tag() {
    let adapter = AsanaAdapter::new("token")
        .with_base_url(BASE.to_string())
        .with_workspace("ws_1".to_string());
    let req = adapter.create_tag_request("infra");
    assert_eq!(req.method, HttpMethod::Post);
    assert_eq!(path_of(&req), "/tags");
    assert_eq!(
        render(req.body.as_ref().unwrap()),
        "{\"data\":{\"name\":\"infra\",\"workspace\":\"ws_1\"}}"
    );

    let body = asana_response(o(vec![("gid", s("tag_new")), ("name", s("infra"))]));
    let tag = AsanaAdapter::tag_from(&data_of(201, body));

    assert_eq!(tag.id, "tag_new");
    assert_eq!(tag.name, "infra");
}

#[test]
fn create_tag_without_workspace_sends_empty_workspace() {
    let req = AsanaAdapter::new("token").create_tag_request("infra");
    assert_eq!(
        render(req.body.as_ref().unwrap()),
        "{\"data\":{\"name\":\"infra\",\"workspace\":\"\"}}"
    );
}

#[test]
fn get_tag_returns_tag() {
    let adapter = AsanaAdapter::new("token").with_base_url(BASE.to_string());
    let req = adapter.get_tag_request("tag_1");
    assert_eq!(path_of(&req), "/tags/tag_1?opt_fields=gid,name");

    let body = asana_response(o(vec![("gid", s("tag_1")), ("name", s("urgent"))]));
    let tag = AsanaAdapter::tag_from(&data_of(200, body));

    assert_eq!(tag.name, "urgent");
}

#[test]
fn delete_tag_sends_delete() {
    let adapter = AsanaAdapter::new("token").with_base_url(BASE.to_string());
    let req = adapter.delete_tag_request("tag_1");
    assert_eq!(req.method, HttpMethod::Delete);
    assert_eq!(path_of(&req), "/tags/tag_1");
    assert!(AsanaAdapter::response(200, Ok(asana_response(o(vec![])))).is_ok());
}

#[test]
fn adapter_api_error_is_propagated() {
    let body = o(vec![("errors", a(vec![o(vec![("message", s("Not Authorized"))])]))]);
    let err = AsanaAdapter::response(200, Ok(body)).unwrap_err();
    assert!(err.to_string().contains("Not Authorized"));
}

#[test]
fn error_status_without_errors_uses_message() {
    let err = AsanaAdapter::response(404, Ok(o(vec![("message", s("Missing"))]))).unwrap_err();
    assert_eq!(err.to_string(), "API error (404): Missing");
    let err = AsanaAdapter::response(500, Ok(o(vec![("data", o(vec![]))]))).unwrap_err();
    assert_eq!(err.to_string(), "API error (500): API error");
}

#[test]
fn no_content_is_null_and_not_read() {
    assert!(!AsanaAdapter::body_expected(204));
    assert!(AsanaAdapter::body_expected(200));
    let data = AsanaAdapter::response(204, Err("not read".to_string())).unwrap();
    assert!(matches!(data, Json::Null));
    let err = AsanaAdapter::response(200, Err("broken".to_string())).unwrap_err();
    assert!(matches!(err, PmError::Parse(_)));
    let err = AsanaAdapter::response(200, Ok(o(vec![]))).unwrap_err();
    assert_eq!(err.to_string(), "Parse error: No data field in response");
}

#[test]
fn create_project_posts_project() {
    let adapter = AsanaAdapter::new("token")
        .with_base_url(BASE.to_string())
        .with_workspace("ws_1".to_string());
    let req = adapter.create_project_request("New Project", Some("Description here"));
    assert_eq!(req.method, HttpMethod::Post);
    assert!(path_of(&req).starts_with("/projects"));
    assert_eq!(
        render(req.body.as_ref().unwrap()),
        "{\"data\":{\"name\":\"New Project\",\"workspace\":\"ws_1\",\"notes\":\"Description here\"}}"
    );

    let body = asana_response(o(vec![
        ("gid", s("p_new")),
        ("name", s("New Project")),
        ("notes", s("Description here")),
        ("current_status", Json::Null),
        ("created_at", s("2026-03-01T00:00:00Z")),
        ("modified_at", s("2026-03-01T00:00:00Z")),
    ]));
    let project = AsanaAdapter::project_from(&data_of(201, body));

    assert_eq!(project.id, "p_new");
    assert_eq!(project.name, "New Project");
}

#[test]
fn update_project_sends_given_fields() {
    let adapter = AsanaAdapter::new("token").with_base_url(BASE.to_string());
    let req = adapter.update_project_request("p1", Some("Renamed"), None);
    assert_eq!(req.method, HttpMethod::Put);
    assert!(path_of(&req).starts_with("/projects/p1?opt_fields="));
    assert_eq!(render(req.body.as_ref().unwrap()), "{\"data\":{\"name\":\"Renamed\"}}");
}

#[test]
fn delete_project_sends_delete() {
    let adapter = AsanaAdapter::new("token").with_base_url(BASE.to_string());
    let req = adapter.delete_project_request("p1");
    assert_eq!(req.method, HttpMethod::Delete);
    assert_eq!(path_of(&req), "/projects/p1");
}

#[test]
fn only_completed_marks_completion() {
    assert!(AsanaAdapter::marks_completed("completed"));
    assert!(!AsanaAdapter::marks_completed("Completed"));
    assert!(!AsanaAdapter::marks_completed("complete"));
    assert!(!AsanaAdapter::marks_completed(""));
}
