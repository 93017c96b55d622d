use pm_sdk::json::{field, str_field, text, Json};
use pm_sdk::text::{decimal_string, is_blank_str, starts_with};
use pm_sdk::{CustomerIssueFilter, IssuePriority, PageRequest, PmError};

#[test]
fn filter_new_starts_unrestricted() {
    let f = CustomerIssueFilter::new("acme");
    assert_eq!(f.customer_key, "acme");
    assert!(f.project_ids.is_empty());
    assert!(f.label_names.is_empty());
    assert!(f.issue_identifiers.is_empty());
    assert_eq!(f.page.limit, None);
    assert_eq!(f.page.after, None);
}

#[test]
fn filter_builders_drop_blank_entries() {
    let f = CustomerIssueFilter::new("acme")
        .with_project_ids(vec!["p1".to_string(), "  ".to_string(), "".to_string(), "p2".to_string()])
        .with_label_names(vec!["\t\n".to_string(), "bug".to_string()])
        .with_issue_identifiers(vec!["\u{3000}".to_string(), " PLT-1 ".to_string()]);
    assert_eq!(f.project_ids, vec!["p1", "p2"]);
    assert_eq!(f.label_names, vec!["bug"]);
    assert_eq!(f.issue_identifiers, vec![" PLT-1 "]);
}

#[test]
fn filter_with_page_replaces_page() {
    let f = CustomerIssueFilter::new("acme").with_page(PageRequest {
        limit: Some(7),
        offset: Some(3),
        after: Some("c".to_string()),
    });
    assert_eq!(f.page.limit, Some(7));
    assert_eq!(f.page.offset, Some(3));
    assert_eq!(f.page.after.as_deref(), Some("c"));
    assert_eq!(f.customer_key, "acme");
}

#[test]
fn default_filter_and_page_are_empty() {
    let f = CustomerIssueFilter::default();
    assert_eq!(f.customer_key, "");
    let p = PageRequest::default();
    assert_eq!(p.limit, None);
    assert_eq!(p.offset, None);
    assert_eq!(p.after, None);
}

#[test]
fn priority_names() {
    assert_eq!(IssuePriority::NoPriority.to_string(), "None");
    assert_eq!(IssuePriority::Urgent.to_string(), "Urgent");
    assert_eq!(IssuePriority::High.to_string(), "High");
    assert_eq!(IssuePriority::Medium.to_string(), "Medium");
    assert_eq!(IssuePriority::Low.to_string(), "Low");
}

#[test]
fn error_texts() {
    assert_eq!(PmError::Http("timeout".into()).to_string(), "HTTP error: timeout");
    assert_eq!(
        PmError::Api { status: 404, message: "gone".into() }.to_string(),
        "API error (404): gone"
    );
    assert_eq!(PmError::Api { status: 0, message: "".into() }.to_string(), "API error (0): ");
    assert_eq!(PmError::Parse("eof".into()).to_string(), "Parse error: eof");
    assert_eq!(
        PmError::unsupported("delete_issue").to_string(),
        "Unsupported operation: delete_issue"
    );
}

#[test]
fn decimal_text() {
    assert_eq!(decimal_string(0), "0");
    assert_eq!(decimal_string(9), "9");
    assert_eq!(decimal_string(10), "10");
    assert_eq!(decimal_string(65535), "65535");
    assert_eq!(decimal_string(u64::MAX), "18446744073709551615");
}

#[test]
fn blank_and_prefix() {
    assert!(is_blank_str(""));
    assert!(is_blank_str(" \t\r\n\u{85}\u{a0}\u{2009}\u{3000}"));
    assert!(!is_blank_str(" x "));
    assert!(!is_blank_str("\u{200b}"));
    assert!(starts_with("internal:x", "internal:"));
    assert!(starts_with("abc", ""));
    assert!(!starts_with("in", "internal:"));
    assert!(!starts_with("Internal:x", "internal:"));
}

#[test]
fn json_lookup_reads_missing_as_null() {
    let v = Json::Object(vec![
        ("a".to_string(), Json::Str("x".to_string())),
        ("b".to_string(), Json::Object(vec![("c".to_string(), Json::Str("y".to_string()))])),
        ("a".to_string(), Json::Str("second".to_string())),
    ]);
    assert_eq!(text(field(Some(&v), "a")).as_deref(), Some("x"));
    assert_eq!(text(field(field(Some(&v), "b"), "c")).as_deref(), Some("y"));
    assert_eq!(text(field(field(Some(&v), "z"), "c")), None);
    assert_eq!(str_field(Some(&v), "missing"), "");
    assert_eq!(str_field(Some(&Json::Null), "a"), "");
    assert!(v.get("b").is_some());
    assert!(Json::Str("s".to_string()).get("a").is_none());
}

#[test]
fn json_take_moves_the_field() {
    let v = Json::Object(vec![
        ("data".to_string(), Json::Array(vec![Json::Bool(true)])),
        ("x".to_string(), Json::Null),
    ]);
    match v.take("data") {
        Some(Json::Array(items)) => assert_eq!(items.len(), 1),
        _ => panic!("expected the array"),
    }
}

#[test]
fn filter_builders_are_idempotent() {
    let once = CustomerIssueFilter::new("acme")
        .with_label_names(vec![" ".to_string(), "a".to_string(), "".to_string(), "b".to_string()]);
    let twice = once.clone().with_label_names(once.label_names.clone());
    assert_eq!(once.label_names, twice.label_names);
    assert_eq!(twice.label_names, vec!["a", "b"]);
}
