use pm_sdk::http::{HttpMethod, HttpRequest, Plan};
use pm_sdk::json::{Json, JsonNumber};
use pm_sdk::linear::{
    build_customer_filter, customer_issue_matches_filter, is_valid_customer_key,
    map_customer_issue, map_priority, priority_to_int, LinearAdapter, ISSUE_FIELDS,
};
use pm_sdk::{
    CreateCommentRequest, CreateIssueRequest, CustomerIssueFilter, IssuePriority, PageRequest,
    PmError, SearchRequest, UpdateIssueRequest,
};

fn ls(x: &str) -> Json {
    Json::Str(x.to_string())
}

fn lo(pairs: Vec<(&str, Json)>) -> Json {
    Json::Object(pairs.into_iter().map(|(k, v)| (k.to_string(), v)).collect())
}

fn la(items: Vec<Json>) -> Json {
    Json::Array(items)
}

fn lu(n: u64) -> Json {
    Json::Number(JsonNumber::UInt(n))
}

/// Compact text of a value, keys in their order.
fn lrender(j: &Json) -> String {
    match j {
        Json::Null => "null".to_string(),
        Json::Bool(b) => b.to_string(),
        Json::Number(JsonNumber::UInt(u)) => u.to_string(),
        Json::Number(JsonNumber::NegInt(i)) => i.to_string(),
        Json::Number(JsonNumber::Float(t)) => t.clone(),
        Json::Str(s) => format!("\"{}\"", s),
        Json::Array(a) => format!("[{}]", a.iter().map(lrender).collect::<Vec<_>>().join(",")),
        Json::Object(e) => format!(
            "{{{}}}",
            e.iter().map(|(k, v)| format!("\"{}\":{}", k, lrender(v))).collect::<Vec<_>>().join(",")
        ),
    }
}

fn lbody(req: &HttpRequest) -> &Json {
    req.body.as_ref().unwrap()
}

fn lquery(req: &HttpRequest) -> String {
    match lbody(req).get("query") {
        Some(Json::Str(q)) => q.clone(),
        _ => panic!("no query"),
    }
}

fn lvariables(req: &HttpRequest) -> String {
    lrender(lbody(req).get("variables").unwrap())
}

fn gql_response(data: Json) -> Json {
    lo(vec![("data", data)])
}

fn adapter() -> LinearAdapter {
    LinearAdapter::new("token").with_base_url("http://127.0.0.1:1234".to_string())
}

#[test]
fn platform_returns_linear() {
    let adapter = LinearAdapter::new("token");
    assert_eq!(adapter.platform(), "linear");
}

#[test]
fn graphql_request_posts_to_graphql_with_token() {
    let req = adapter().get_issue_request("iss_1");
    assert_eq!(req.method, HttpMethod::Post);
    assert_eq!(req.url, "http://127.0.0.1:1234/graphql");
    assert_eq!(
        req.headers,
        vec![
            ("Authorization".to_string(), "token".to_string()),
            ("Content-Type".to_string(), "application/json".to_string()),
        ]
    );
    assert_eq!(lvariables(&req), "{\"id\":\"iss_1\"}");
    assert_eq!(
        lquery(&req),
        format!("query($id: String!) {{ issue(id: $id) {{ {} }} }}", ISSUE_FIELDS)
    );
}

#[test]
fn default_address_is_linear_api() {
    let req = LinearAdapter::new("token").get_project_request("p1");
    assert_eq!(req.url, "https://api.linear.app/graphql");
}

#[test]
fn list_issues_returns_mapped_issues() {
    let req = adapter().list_issues_request(&PageRequest {
        limit: Some(10),
        ..Default::default()
    });
    assert!(lquery(&req).contains("issues"));
    assert_eq!(lvariables(&req), "{\"first\":10,\"after\":null}");

    let body = gql_response(lo(vec![(
        "issues",
        lo(vec![(
            "nodes",
            la(vec![lo(vec![
                ("id", ls("iss_1")),
                ("identifier", ls("PLT-1")),
                ("title", ls("Fix bug")),
                ("description", ls("desc")),
                ("priority", lu(2)),
                ("state", lo(vec![("name", ls("In Progress"))])),
                ("assignee", lo(vec![("id", ls("u1")), ("name", ls("Alice"))])),
                ("project", lo(vec![("id", ls("p1")), ("name", ls("Core"))])),
                ("labels", lo(vec![("nodes", la(vec![lo(vec![("name", ls("bug"))])]))])),
                ("createdAt", ls("2026-01-01T00:00:00Z")),
                ("updatedAt", ls("2026-01-02T00:00:00Z")),
            ])]),
        )]),
    )]));
    let data = LinearAdapter::graphql_response(200, Ok(body)).unwrap();
    let issues = LinearAdapter::issues_from(&data);

    assert_eq!(issues.len(), 1);
    assert_eq!(issues[0].identifier.as_deref(), Some("PLT-1"));
    assert_eq!(issues[0].title, "Fix bug");
    assert_eq!(issues[0].status.as_deref(), Some("In Progress"));
    assert_eq!(issues[0].priority, Some(IssuePriority::High));
    assert_eq!(issues[0].labels, vec!["bug"]);
    assert_eq!(issues[0].assignee_name.as_deref(), Some("Alice"));
    assert_eq!(issues[0].project_id.as_deref(), Some("p1"));
}

#[test]
fn list_issues_defaults_to_fifty_and_passes_cursor() {
    let req = adapter().list_issues_request(&PageRequest {
        after: Some("cursor_1".to_string()),
        ..Default::default()
    });
    assert_eq!(lvariables(&req), "{\"first\":50,\"after\":\"cursor_1\"}");
}

#[test]
fn create_issue_sends_mutation() {
    let req = adapter().create_issue_request(&CreateIssueRequest {
        title: "New feature".into(),
        ..Default::default()
    });
    assert!(lquery(&req).contains("issueCreate"));
    assert_eq!(lvariables(&req), "{\"input\":{\"title\":\"New feature\"}}");

    let body = gql_response(lo(vec![(
        "issueCreate",
        lo(vec![(
            "issue",
            lo(vec![
                ("id", ls("iss_new")),
                ("identifier", ls("PLT-99")),
                ("title", ls("New feature")),
                ("state", lo(vec![("name", ls("Backlog"))])),
                ("labels", lo(vec![("nodes", la(vec![]))])),
            ]),
        )]),
    )]));
    let data = LinearAdapter::graphql_response(200, Ok(body)).unwrap();
    let issue = LinearAdapter::created_issue_from(&data);

    assert_eq!(issue.id, "iss_new");
    assert_eq!(issue.title, "New feature");
}

#[test]
fn create_issue_sends_optional_fields_and_priority_number() {
    let req = adapter().create_issue_request(&CreateIssueRequest {
        title: "T".into(),
        description: Some("D".into()),
        project_id: Some("p1".into()),
        assignee_id: Some("u1".into()),
        priority: Some(IssuePriority::Urgent),
        labels: vec!["ignored".into()],
        ..Default::default()
    });
    assert_eq!(
        lvariables(&req),
        "{\"input\":{\"title\":\"T\",\"description\":\"D\",\"projectId\":\"p1\",\"assigneeId\":\"u1\",\"priority\":1}}"
    );
}

#[test]
fn update_issue_sends_mutation() {
    let req = adapter().update_issue_request(
        "iss_1",
        &UpdateIssueRequest {
            title: Some("Updated title".into()),
            ..Default::default()
        },
    );
    assert!(lquery(&req).contains("issueUpdate"));
    assert_eq!(lvariables(&req), "{\"id\":\"iss_1\",\"input\":{\"title\":\"Updated title\"}}");

    let body = gql_response(lo(vec![(
        "issueUpdate",
        lo(vec![(
            "issue",
            lo(vec![
                ("id", ls("iss_1")),
                ("title", ls("Updated title")),
                ("state", lo(vec![("name", ls("Done"))])),
                ("labels", lo(vec![("nodes", la(vec![]))])),
            ]),
        )]),
    )]));
    let data = LinearAdapter::graphql_response(200, Ok(body)).unwrap();
    let issue = LinearAdapter::updated_issue_from(&data);

    assert_eq!(issue.title, "Updated title");
    assert_eq!(issue.status.as_deref(), Some("Done"));
}

#[test]
fn update_issue_sends_status_as_state_id() {
    let req = adapter().update_issue_request(
        "iss_1",
        &UpdateIssueRequest {
            status: Some("state_9".into()),
            priority: Some(IssuePriority::NoPriority),
            ..Default::default()
        },
    );
    assert_eq!(
        lvariables(&req),
        "{\"id\":\"iss_1\",\"input\":{\"stateId\":\"state_9\",\"priority\":0}}"
    );
}

#[test]
fn search_returns_results() {
    let req = adapter().search_request(&SearchRequest {
        query: "auth".into(),
        limit: Some(5),
    });
    assert!(lquery(&req).contains("searchIssues"));
    assert_eq!(lvariables(&req), "{\"term\":\"auth\",\"first\":5}");

    let body = gql_response(lo(vec![(
        "searchIssues",
        lo(vec![(
            "nodes",
            la(vec![lo(vec![
                ("id", ls("iss_2")),
                ("identifier", ls("PLT-42")),
                ("title", ls("Auth issue")),
                ("state", lo(vec![("name", ls("Open"))])),
                ("labels", lo(vec![("nodes", la(vec![]))])),
            ])]),
        )]),
    )]));
    let data = LinearAdapter::graphql_response(200, Ok(body)).unwrap();
    let results = LinearAdapter::search_results_from(&data);

    assert_eq!(results.len(), 1);
    assert_eq!(results[0].title, "Auth issue");
    assert_eq!(results[0].identifier.as_deref(), Some("PLT-42"));
    assert_eq!(results[0].status.as_deref(), Some("Open"));
}

#[test]
fn search_defaults_to_twenty_five() {
    let req = adapter().search_request(&SearchRequest { query: "x".into(), limit: None });
    assert_eq!(lvariables(&req), "{\"term\":\"x\",\"first\":25}");
}

#[test]
fn list_projects_returns_mapped() {
    let req = adapter().list_projects_request(&PageRequest::default());
    assert!(lquery(&req).contains("projects"));

    let body = gql_response(lo(vec![(
        "projects",
        lo(vec![(
            "nodes",
            la(vec![lo(vec![
                ("id", ls("p1")),
                ("name", ls("Core")),
                ("description", ls("Core platform")),
            ])]),
        )]),
    )]));
    let data = LinearAdapter::graphql_response(200, Ok(body)).unwrap();
    let projects = LinearAdapter::projects_from(&data);

    assert_eq!(projects.len(), 1);
    assert_eq!(projects[0].name, "Core");
    assert_eq!(projects[0].description.as_deref(), Some("Core platform"));
}

#[test]
fn get_project_reads_state_as_status() {
    let data = lo(vec![(
        "project",
        lo(vec![("id", ls("p1")), ("name", ls("Core")), ("state", ls("started"))]),
    )]);
    let project = LinearAdapter::project_from(&data);
    assert_eq!(project.id, "p1");
    assert_eq!(project.status.as_deref(), Some("started"));
    assert_eq!(project.created_at, None);
}

#[test]
fn list_teams_returns_mapped() {
    let req = adapter().list_teams_request(&PageRequest::default());
    assert!(lquery(&req).contains("teams"));
    assert_eq!(lvariables(&req), "{\"first\":50}");

    let body = gql_response(lo(vec![(
        "teams",
        lo(vec![(
            "nodes",
            la(vec![lo(vec![("id", ls("t1")), ("name", ls("Engineering")), ("key", ls("ENG"))])]),
        )]),
    )]));
    let data = LinearAdapter::graphql_response(200, Ok(body)).unwrap();
    let teams = LinearAdapter::teams_from(&data);

    assert_eq!(teams.len(), 1);
    assert_eq!(teams[0].key.as_deref(), Some("ENG"));
}

#[test]
fn create_comment_sends_mutation() {
    let req = adapter().create_comment_request(
        "iss_1",
        &CreateCommentRequest {
            body: "Ship it".into(),
        },
    );
    assert!(lquery(&req).contains("commentCreate"));
    assert_eq!(lvariables(&req), "{\"input\":{\"issueId\":\"iss_1\",\"body\":\"Ship it\"}}");

    let body = gql_response(lo(vec![(
        "commentCreate",
        lo(vec![(
            "comment",
            lo(vec![
                ("id", ls("c1")),
                ("body", ls("Ship it")),
                ("issue", lo(vec![("id", ls("iss_1"))])),
                ("user", lo(vec![("name", ls("Alice"))])),
                ("createdAt", ls("2026-01-01T00:00:00Z")),
            ]),
        )]),
    )]));
    let data = LinearAdapter::graphql_response(200, Ok(body)).unwrap();
    let comment = LinearAdapter::created_comment_from(&data);

    assert_eq!(comment.body, "Ship it");
    assert_eq!(comment.issue_id.as_deref(), Some("iss_1"));
}

#[test]
fn list_comments_reads_nested_nodes() {
    let data = lo(vec![(
        "issue",
        lo(vec![(
            "comments",
            lo(vec![(
                "nodes",
                la(vec![
                    lo(vec![("id", ls("c1")), ("body", ls("one"))]),
                    lo(vec![("id", ls("c2")), ("body", ls("two"))]),
                ]),
            )]),
        )]),
    )]);
    let comments = LinearAdapter::comments_from(&data);
    assert_eq!(comments.len(), 2);
    assert_eq!(comments[1].body, "two");
    assert_eq!(comments[1].user_name, None);
}

#[test]
fn api_error_is_propagated() {
    let body = lo(vec![("errors", la(vec![lo(vec![("message", ls("Not authorized"))])]))]);
    let err = LinearAdapter::graphql_response(200, Ok(body)).unwrap_err();
    assert!(err.to_string().contains("Not authorized"));
    assert_eq!(err.to_string(), "API error (200): Not authorized");
}

#[test]
fn graphql_errors_without_message_are_unknown() {
    let body = lo(vec![("errors", la(vec![])), ("data", lo(vec![]))]);
    let err = LinearAdapter::graphql_response(200, Ok(body)).unwrap_err();
    assert_eq!(err.to_string(), "API error (200): Unknown error");
}

#[test]
fn graphql_without_data_is_parse_error() {
    let err = LinearAdapter::graphql_response(200, Ok(lo(vec![]))).unwrap_err();
    match err {
        PmError::Parse(m) => assert_eq!(m, "No data in response"),
        other => panic!("unexpected {:?}", other),
    }
    let err = LinearAdapter::graphql_response(500, Err("bad json".to_string())).unwrap_err();
    assert_eq!(err.to_string(), "Parse error: bad json");
}

#[test]
fn missing_fields_read_as_defaults() {
    let issue = LinearAdapter::issue_from(&lo(vec![]));
    assert_eq!(issue.id, "");
    assert_eq!(issue.title, "");
    assert_eq!(issue.priority, None);
    assert!(issue.labels.is_empty());
    let issue = LinearAdapter::issue_from(&lo(vec![("issue", lo(vec![("priority", ls("2"))]))]));
    assert_eq!(issue.priority, None);
}

#[test]
fn priority_numbers_round_trip() {
    for p in [
        IssuePriority::NoPriority,
        IssuePriority::Urgent,
        IssuePriority::High,
        IssuePriority::Medium,
        IssuePriority::Low,
    ] {
        assert_eq!(map_priority(priority_to_int(&p) as u64), p);
    }
    assert_eq!(map_priority(4), IssuePriority::Low);
    assert_eq!(map_priority(17), IssuePriority::Low);
    assert_eq!(priority_to_int(&IssuePriority::Medium), 3);
}

#[test]
fn customer_key_validation() {
    assert!(is_valid_customer_key("acme"));
    assert!(is_valid_customer_key("9lives_co-op"));
    assert!(!is_valid_customer_key(""));
    assert!(!is_valid_customer_key("-acme"));
    assert!(!is_valid_customer_key("_acme"));
    assert!(!is_valid_customer_key("Acme"));
    assert!(!is_valid_customer_key("ac me"));
    assert!(!is_valid_customer_key("acmé"));
    assert!(is_valid_customer_key(&"a".repeat(64)));
    assert!(!is_valid_customer_key(&"a".repeat(65)));
}

#[test]
fn invalid_customer_key_needs_no_request() {
    match adapter().customer_issues_request(&CustomerIssueFilter::new("Bad Key")) {
        Plan::Finish(Ok(v)) => assert!(v.is_empty()),
        _ => panic!("expected an empty answer"),
    }
}

#[test]
fn customer_issues_request_filters_by_customer_label() {
    let filter = CustomerIssueFilter::new("acme").with_page(PageRequest {
        limit: Some(5),
        ..Default::default()
    });
    match adapter().customer_issues_request(&filter) {
        Plan::Send(req) => {
            assert!(lquery(&req).contains("orderBy: updatedAt"));
            assert_eq!(
                lvariables(&req),
                "{\"first\":5,\"after\":null,\"filter\":{\"labels\":{\"some\":{\"name\":{\"eq\":\"customer:acme\"}}}}}"
            );
        }
        Plan::Finish(_) => panic!("expected a request"),
    }
    assert_eq!(
        lrender(&build_customer_filter("x")),
        "{\"labels\":{\"some\":{\"name\":{\"eq\":\"customer:x\"}}}}"
    );
}

fn customer_node(identifier: &str, project: &str, labels: &[&str]) -> Json {
    lo(vec![
        ("identifier", ls(identifier)),
        ("title", ls("Title")),
        ("description", ls("Secret details")),
        ("updatedAt", ls("2026-01-03T00:00:00Z")),
        ("state", lo(vec![("name", ls("Todo")), ("type", ls("unstarted"))])),
        ("assignee", lo(vec![("name", ls("Alice")), ("avatarUrl", ls("https://a/x.png"))])),
        ("project", lo(vec![("id", ls(project))])),
        (
            "labels",
            lo(vec![("nodes", la(labels.iter().map(|l| lo(vec![("name", ls(l))])).collect()))]),
        ),
    ])
}

#[test]
fn customer_view_hides_internal_labels_and_private_description() {
    let node = customer_node("PLT-1", "p1", &["internal:triage", "customer:acme", "bug"]);
    let view = map_customer_issue(Some(&node));
    assert_eq!(view.platform, "linear");
    assert_eq!(view.identifier, "PLT-1");
    assert_eq!(view.state_name, "Todo");
    assert_eq!(view.state_type, "unstarted");
    assert_eq!(view.assignee_avatar_url.as_deref(), Some("https://a/x.png"));
    assert_eq!(view.labels, vec!["bug"]);
    assert_eq!(view.description, None);

    let node = customer_node("PLT-2", "p1", &["public", "customer:acme"]);
    let view = map_customer_issue(Some(&node));
    assert_eq!(view.labels, vec!["public"]);
    assert_eq!(view.description.as_deref(), Some("Secret details"));
}

#[test]
fn customer_filter_restricts_projects_labels_and_identifiers() {
    let node = customer_node("PLT-1", "p1", &["bug"]);
    let open = CustomerIssueFilter::new("acme");
    assert!(customer_issue_matches_filter(Some(&node), &open));

    let by_project = CustomerIssueFilter::new("acme").with_project_ids(vec!["p2".to_string()]);
    assert!(!customer_issue_matches_filter(Some(&node), &by_project));
    let by_project = by_project.with_project_ids(vec!["p2".to_string(), "p1".to_string()]);
    assert!(customer_issue_matches_filter(Some(&node), &by_project));

    let by_label = CustomerIssueFilter::new("acme").with_label_names(vec!["feature".to_string()]);
    assert!(!customer_issue_matches_filter(Some(&node), &by_label));
    let by_label = by_label.with_label_names(vec!["bug".to_string()]);
    assert!(customer_issue_matches_filter(Some(&node), &by_label));

    let by_id = CustomerIssueFilter::new("acme").with_issue_identifiers(vec!["PLT-1".to_string()]);
    assert!(customer_issue_matches_filter(Some(&node), &by_id));
    let by_id = by_id.with_issue_identifiers(vec!["PLT-7".to_string()]);
    assert!(!customer_issue_matches_filter(Some(&node), &by_id));
}

#[test]
fn customer_issues_from_keeps_matching_nodes_in_order() {
    let data = lo(vec![(
        "issues",
        lo(vec![(
            "nodes",
            la(vec![
                customer_node("PLT-1", "p1", &[]),
                customer_node("PLT-2", "p2", &[]),
                customer_node("PLT-3", "p1", &[]),
            ]),
        )]),
    )]);
    let filter = CustomerIssueFilter::new("acme").with_project_ids(vec!["p1".to_string()]);
    let views = LinearAdapter::customer_issues_from(&data, &filter);
    let ids: Vec<&str> = views.iter().map(|v| v.identifier.as_str()).collect();
    assert_eq!(ids, vec!["PLT-1", "PLT-3"]);
}

#[test]
fn data_is_moved_out_whole() {
    let body = lo(vec![("data", lo(vec![("n", la(vec![lu(1), Json::Bool(true), Json::Null]))]))]);
    let data = LinearAdapter::graphql_response(200, Ok(body)).unwrap();
    assert_eq!(lrender(&data), "{\"n\":[1,true,null]}");
}
