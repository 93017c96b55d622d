//! The Linear adapter: every operation is one GraphQL request to
//! `{base_url}/graphql`; this module builds those requests and reads the
//! answers into the domain model.

use vstd::prelude::*;
use crate::error::{PmError, PmErrorView, PmResult};
use crate::http::{
    body_view, outcome_view, new_request, parse_error, push_header, HttpMethod, HttpRequest,
    HttpRequestModel, Plan,
};
use crate::json::{
    array, element, field, field_texts, object1, object2, or_null, str_field, string,
    string_or_null, text, texts_in, uint, uint_value, views, Json, JsonView, NumberView,
    ObjectBuilder, entry_views, str_or_null, string_field, string_field_or_empty,
    lemma_field_texts_all_named, entry_value, lemma_entry_value_concat, lemma_opt_entry_value,
    lemma_single_entry_value, string_json, opt_entry,
};
use crate::model::{
    Comment, CommentModel, CreateCommentRequest, CreateIssueRequest, CustomerIssueFilter,
    CustomerIssueFilterModel, CustomerIssueModel, CustomerIssueView, Issue, IssueModel,
    IssuePriority, PageRequest, Project, ProjectModel, SearchRequest, SearchResult,
    SearchResultModel, Team, TeamModel, UpdateIssueRequest, page_size, page_limit, search_size, search_limit,
};
use vstd::string::StringSliceAdditionalSpecFns;
use crate::text::{concat, concat3, contains_text, shares_text, has_prefix, owned, starts_with};

verus! {

/// The address of the Linear API.
pub const LINEAR_API_URL: &'static str = "https://api.linear.app";

/// The fields read of an issue.
pub const ISSUE_FIELDS: &'static str = "id identifier title description priority createdAt updatedAt state { name } assignee { id name } project { id name } labels { nodes { name } }";

/// The fields read of an issue shown to a customer.
pub const CUSTOMER_ISSUE_FIELDS: &'static str = "identifier title description updatedAt state { name type } assignee { name avatarUrl } project { id } labels { nodes { name } }";

/// The fields read of a project.
pub const PROJECT_FIELDS: &'static str = "id name description state createdAt updatedAt";

/// The fields read of a team.
pub const TEAM_FIELDS: &'static str = "id name key";

/// The fields read of a comment.
pub const COMMENT_FIELDS: &'static str = "id body createdAt issue { id } user { name }";

/// Linear API adapter; authenticates with a Linear API token.
pub struct LinearAdapter {
    token: String,
    base_url: String,
}

/// The settings of a [`LinearAdapter`].
pub struct LinearConfig {
    pub token: Seq<char>,
    pub base_url: Seq<char>,
}

impl View for LinearAdapter {
    type V = LinearConfig;

    closed spec fn view(&self) -> LinearConfig {
        LinearConfig { token: self.token@, base_url: self.base_url@ }
    }
}

/// The GraphQL request that sends `query` with `variables`.
pub open spec fn graphql_model(
    config: LinearConfig,
    query: Seq<char>,
    variables: JsonView,
) -> HttpRequestModel {
    HttpRequestModel {
        method: HttpMethod::Post,
        url: config.base_url + "/graphql"@,
        headers: seq![("Authorization"@, config.token), ("Content-Type"@, "application/json"@)],
        body: Some(
            JsonView::Object(seq![("query"@, JsonView::Str(query)), ("variables"@, variables)]),
        ),
    }
}

/// What a GraphQL answer yields: the `data` of the document, or the error
/// it reports.
pub open spec fn graphql_outcome(status: u16, body: Result<JsonView, Seq<char>>) -> Result<
    JsonView,
    PmErrorView,
> {
    match body {
        Err(m) => Err(PmErrorView::Parse(m)),
        Ok(b) => match b.get("errors"@) {
            Some(errors) => Err(
                PmErrorView::Api {
                    status: status,
                    message: match errors.at_index(0).at("message"@).as_str() {
                        Some(m) => m,
                        None => "Unknown error"@,
                    },
                },
            ),
            None => match b.get("data"@) {
                Some(d) => Ok(d),
                None => Err(PmErrorView::Parse("No data in response"@)),
            },
        },
    }
}

/// The priority that Linear's number `p` stands for.
pub open spec fn priority_from_code(p: u64) -> IssuePriority {
    if p == 0 {
        IssuePriority::NoPriority
    } else if p == 1 {
        IssuePriority::Urgent
    } else if p == 2 {
        IssuePriority::High
    } else if p == 3 {
        IssuePriority::Medium
    } else {
        IssuePriority::Low
    }
}

/// Linear's number for the priority `p`.
pub open spec fn priority_code(p: IssuePriority) -> u32 {
    match p {
        IssuePriority::NoPriority => 0,
        IssuePriority::Urgent => 1,
        IssuePriority::High => 2,
        IssuePriority::Medium => 3,
        IssuePriority::Low => 4,
    }
}

/// A byte that a customer key may hold: a lower-case ASCII letter, a
/// digit, `-` or `_`.
pub open spec fn is_key_byte(b: u8) -> bool {
    (97 <= b <= 122) || (48 <= b <= 57) || b == 45 || b == 95
}

/// A customer key is 1 to 64 bytes of lower-case ASCII letters, digits,
/// `-` and `_`, and starts with a letter or a digit.
pub open spec fn valid_customer_key(bytes: Seq<u8>) -> bool {
    &&& 1 <= bytes.len() <= 64
    &&& (97 <= bytes[0] <= 122) || (48 <= bytes[0] <= 57)
    &&& forall|i: int| 0 <= i < bytes.len() ==> is_key_byte(#[trigger] bytes[i])
}

/// The issue that a node of an answer describes.
pub open spec fn issue_model(v: JsonView) -> IssueModel {
    IssueModel {
        id: v.text_at("id"@),
        identifier: v.at("identifier"@).as_str(),
        title: v.text_at("title"@),
        description: v.at("description"@).as_str(),
        status: v.at("state"@).at("name"@).as_str(),
        priority: match v.at("priority"@).as_u64() {
            Some(p) => Some(priority_from_code(p)),
            None => None,
        },
        assignee_id: v.at("assignee"@).at("id"@).as_str(),
        assignee_name: v.at("assignee"@).at("name"@).as_str(),
        project_id: v.at("project"@).at("id"@).as_str(),
        project_name: v.at("project"@).at("name"@).as_str(),
        labels: field_texts(v.at("labels"@).at("nodes"@).elements(), "name"@),
        created_at: v.at("createdAt"@).as_str(),
        updated_at: v.at("updatedAt"@).as_str(),
    }
}

/// The labels a customer may see: those not prefixed `internal:` or
/// `customer:`, in order.
pub open spec fn customer_labels(names: Seq<Seq<char>>) -> Seq<Seq<char>>
    decreases names.len(),
{
    if names.len() == 0 {
        Seq::empty()
    } else {
        let rest = customer_labels(names.drop_last());
        let n = names.last();
        if has_prefix(n, "internal:"@) || has_prefix(n, "customer:"@) {
            rest
        } else {
            rest.push(n)
        }
    }
}

/// No label that a customer sees is internal or names a customer.
pub proof fn lemma_customer_labels_hide_internal(names: Seq<Seq<char>>)
    ensures
        forall|i: int|
            0 <= i < customer_labels(names).len() ==> !has_prefix(
                #[trigger] customer_labels(names)[i],
                "internal:"@,
            ) && !has_prefix(customer_labels(names)[i], "customer:"@),
    decreases names.len(),
{
    if names.len() > 0 {
        lemma_customer_labels_hide_internal(names.drop_last());
        let rest = customer_labels(names.drop_last());
        let all = customer_labels(names);
        assert forall|i: int| 0 <= i < all.len() implies !has_prefix(
            #[trigger] all[i],
            "internal:"@,
        ) && !has_prefix(all[i], "customer:"@) by {
            if i < rest.len() {
                assert(all[i] == rest[i]);
            }
        }
    }
}

/// The label names of an issue node.
pub open spec fn label_names(v: JsonView) -> Seq<Seq<char>> {
    field_texts(v.at("labels"@).at("nodes"@).elements(), "name"@)
}

/// The customer's view of an issue node: internal labels are hidden, and
/// the description is shown only for issues labelled `public`.
pub open spec fn customer_issue_model(v: JsonView) -> CustomerIssueModel {
    CustomerIssueModel {
        platform: "linear"@,
        identifier: v.text_at("identifier"@),
        title: v.text_at("title"@),
        state_name: v.at("state"@).text_at("name"@),
        state_type: v.at("state"@).text_at("type"@),
        assignee_name: v.at("assignee"@).at("name"@).as_str(),
        assignee_avatar_url: v.at("assignee"@).at("avatarUrl"@).as_str(),
        labels: customer_labels(label_names(v)),
        description: if label_names(v).contains("public"@) {
            v.at("description"@).as_str()
        } else {
            None
        },
        updated_at: v.text_at("updatedAt"@),
    }
}

/// An issue node passes the filter: each restriction that is set (not
/// empty) holds of it.
pub open spec fn matches_customer_filter(v: JsonView, f: CustomerIssueFilterModel) -> bool {
    &&& f.project_ids.len() == 0 || f.project_ids.contains(v.at("project"@).text_at("id"@))
    &&& f.label_names.len() == 0 || exists|i: int|
        0 <= i < label_names(v).len() && f.label_names.contains(#[trigger] label_names(v)[i])
    &&& f.issue_identifiers.len() == 0 || f.issue_identifiers.contains(
        v.text_at("identifier"@),
    )
}

/// What a customer sees of an issue never shows an internal or customer
/// label, and shows a description only for an issue labelled `public`.
pub proof fn lemma_customer_view_is_redacted(v: JsonView)
    ensures
        forall|i: int|
            0 <= i < customer_issue_model(v).labels.len() ==> !has_prefix(
                #[trigger] customer_issue_model(v).labels[i],
                "internal:"@,
            ) && !has_prefix(customer_issue_model(v).labels[i], "customer:"@),
        customer_issue_model(v).description is Some ==> label_names(v).contains("public"@),
        customer_issue_model(v).platform == "linear"@,
{
    lemma_customer_labels_hide_internal(label_names(v));
}

/// The labels a customer sees are exactly the node's label names that
/// start with neither `internal:` nor `customer:`, in their order: each
/// such name is kept, and nothing else is.
pub proof fn lemma_customer_labels_keep_visible(names: Seq<Seq<char>>)
    ensures
        customer_labels(names) == names.filter(
            |n: Seq<char>| !has_prefix(n, "internal:"@) && !has_prefix(n, "customer:"@),
        ),
        forall|i: int|
            0 <= i < names.len() && !has_prefix(#[trigger] names[i], "internal:"@) && !has_prefix(
                names[i],
                "customer:"@,
            ) ==> customer_labels(names).contains(names[i]),
        forall|n: Seq<char>| #[trigger] customer_labels(names).contains(n) ==> names.contains(n),
        customer_labels(names).len() <= names.len(),
    decreases names.len(),
{
    let pred = |n: Seq<char>| !has_prefix(n, "internal:"@) && !has_prefix(n, "customer:"@);
    reveal(Seq::filter);
    if names.len() > 0 {
        lemma_customer_labels_keep_visible(names.drop_last());
    }
    assert(customer_labels(names) == names.filter(pred));
    broadcast use vstd::seq_lib::group_filter_ensures;
    assert forall|n: Seq<char>| #[trigger] customer_labels(names).contains(n) implies names.contains(n) by {
        names.lemma_filter_contains_rev(pred, n);
    }
}

/// What a customer sees of an issue lists every label name of the node
/// that is neither internal nor a customer's, in order, and only those.
pub proof fn lemma_customer_view_keeps_visible_labels(v: JsonView)
    ensures
        customer_issue_model(v).labels == label_names(v).filter(
            |n: Seq<char>| !has_prefix(n, "internal:"@) && !has_prefix(n, "customer:"@),
        ),
{
    lemma_customer_labels_keep_visible(label_names(v));
}

/// A filter that restricts nothing lets every issue through.
pub proof fn lemma_open_filter_matches_all(v: JsonView, f: CustomerIssueFilterModel)
    requires
        f.project_ids.len() == 0,
        f.label_names.len() == 0,
        f.issue_identifiers.len() == 0,
    ensures
        matches_customer_filter(v, f),
{
}

/// The project that a node describes.
pub open spec fn project_model(v: JsonView) -> ProjectModel {
    ProjectModel {
        id: v.text_at("id"@),
        name: v.text_at("name"@),
        description: v.at("description"@).as_str(),
        status: v.at("state"@).as_str(),
        created_at: v.at("createdAt"@).as_str(),
        updated_at: v.at("updatedAt"@).as_str(),
    }
}

/// The team that a node describes.
pub open spec fn team_model(v: JsonView) -> TeamModel {
    TeamModel { id: v.text_at("id"@), name: v.text_at("name"@), key: v.at("key"@).as_str() }
}

/// The comment that a node describes.
pub open spec fn comment_model(v: JsonView) -> CommentModel {
    CommentModel {
        id: v.text_at("id"@),
        body: v.text_at("body"@),
        issue_id: v.at("issue"@).at("id"@).as_str(),
        user_name: v.at("user"@).at("name"@).as_str(),
        created_at: v.at("createdAt"@).as_str(),
    }
}

/// The search result that an issue node describes.
pub open spec fn search_result_model(v: JsonView) -> SearchResultModel {
    SearchResultModel {
        id: v.text_at("id"@),
        identifier: v.at("identifier"@).as_str(),
        title: v.text_at("title"@),
        status: v.at("state"@).at("name"@).as_str(),
    }
}

/// An issue is read field by field from the node: each text of the issue
/// is the string the node holds under the matching GraphQL field (`id`,
/// `identifier`, `title`, `description`, `state.name`, `assignee.id`,
/// `assignee.name`, `project.id`, `project.name`, `createdAt`,
/// `updatedAt`), absent (or empty, for `id` and `title`) where the node
/// holds no string there; the priority is read from the number
/// `priority`.
pub proof fn lemma_issue_reads_fields(v: JsonView)
    ensures
        issue_model(v).id == string_field_or_empty(v, "id"@),
        issue_model(v).identifier == string_field(v, "identifier"@),
        issue_model(v).title == string_field_or_empty(v, "title"@),
        issue_model(v).description == string_field(v, "description"@),
        issue_model(v).status == string_field(v.at("state"@), "name"@),
        issue_model(v).assignee_id == string_field(v.at("assignee"@), "id"@),
        issue_model(v).assignee_name == string_field(v.at("assignee"@), "name"@),
        issue_model(v).project_id == string_field(v.at("project"@), "id"@),
        issue_model(v).project_name == string_field(v.at("project"@), "name"@),
        issue_model(v).created_at == string_field(v, "createdAt"@),
        issue_model(v).updated_at == string_field(v, "updatedAt"@),
        issue_model(v).priority == match v.get("priority"@) {
            Some(JsonView::Number(NumberView::UInt(p))) => Some(priority_from_code(p)),
            _ => None,
        },
{
}

/// When every label node of an issue has a string `name`, the issue's
/// labels are those names, one per node, in order.
pub proof fn lemma_issue_reads_labels(v: JsonView)
    requires
        forall|i: int|
            0 <= i < v.at("labels"@).at("nodes"@).elements().len() ==> (#[trigger] string_field(
                v.at("labels"@).at("nodes"@).elements()[i],
                "name"@,
            )) is Some,
    ensures
        issue_model(v).labels.len() == v.at("labels"@).at("nodes"@).elements().len(),
        forall|i: int|
            0 <= i < issue_model(v).labels.len() ==> Some(#[trigger] issue_model(v).labels[i])
                == string_field(v.at("labels"@).at("nodes"@).elements()[i], "name"@),
{
    lemma_field_texts_all_named(v.at("labels"@).at("nodes"@).elements(), "name"@);
}

/// A customer's view reads the node's `identifier`, `title`, `state.name`,
/// `state.type`, `assignee.name`, `assignee.avatarUrl` and `updatedAt`,
/// and is marked as coming from Linear.
pub proof fn lemma_customer_view_reads_fields(v: JsonView)
    ensures
        customer_issue_model(v).platform == "linear"@,
        customer_issue_model(v).identifier == string_field_or_empty(v, "identifier"@),
        customer_issue_model(v).title == string_field_or_empty(v, "title"@),
        customer_issue_model(v).state_name == string_field_or_empty(v.at("state"@), "name"@),
        customer_issue_model(v).state_type == string_field_or_empty(v.at("state"@), "type"@),
        customer_issue_model(v).assignee_name == string_field(v.at("assignee"@), "name"@),
        customer_issue_model(v).assignee_avatar_url == string_field(
            v.at("assignee"@),
            "avatarUrl"@,
        ),
        customer_issue_model(v).updated_at == string_field_or_empty(v, "updatedAt"@),
        label_names(v).contains("public"@) ==> customer_issue_model(v).description
            == string_field(v, "description"@),
{
}

/// A team is read from the node's `id`, `name` and `key`.
pub proof fn lemma_team_reads_fields(v: JsonView)
    ensures
        team_model(v).id == string_field_or_empty(v, "id"@),
        team_model(v).name == string_field_or_empty(v, "name"@),
        team_model(v).key == string_field(v, "key"@),
{
}

/// A project is read from the node's `id`, `name`, `description`, `state`,
/// `createdAt` and `updatedAt`.
pub proof fn lemma_project_reads_fields(v: JsonView)
    ensures
        project_model(v).id == string_field_or_empty(v, "id"@),
        project_model(v).name == string_field_or_empty(v, "name"@),
        project_model(v).description == string_field(v, "description"@),
        project_model(v).status == string_field(v, "state"@),
        project_model(v).created_at == string_field(v, "createdAt"@),
        project_model(v).updated_at == string_field(v, "updatedAt"@),
{
}

/// A comment is read from the node's `id`, `body`, `issue.id`,
/// `user.name` and `createdAt`.
pub proof fn lemma_comment_reads_fields(v: JsonView)
    ensures
        comment_model(v).id == string_field_or_empty(v, "id"@),
        comment_model(v).body == string_field_or_empty(v, "body"@),
        comment_model(v).issue_id == string_field(v.at("issue"@), "id"@),
        comment_model(v).user_name == string_field(v.at("user"@), "name"@),
        comment_model(v).created_at == string_field(v, "createdAt"@),
{
}

/// A search result is read from the node's `id`, `identifier`, `title`
/// and `state.name`.
pub proof fn lemma_search_result_reads_fields(v: JsonView)
    ensures
        search_result_model(v).id == string_field_or_empty(v, "id"@),
        search_result_model(v).identifier == string_field(v, "identifier"@),
        search_result_model(v).title == string_field_or_empty(v, "title"@),
        search_result_model(v).status == string_field(v.at("state"@), "name"@),
{
}

/// Linear's number `p` read as a priority.
pub fn map_priority(p: u64) -> (r: IssuePriority)
    ensures
        r == priority_from_code(p),
{
    if p == 0 {
        IssuePriority::NoPriority
    } else if p == 1 {
        IssuePriority::Urgent
    } else if p == 2 {
        IssuePriority::High
    } else if p == 3 {
        IssuePriority::Medium
    } else {
        IssuePriority::Low
    }
}

/// Linear's number for the priority `p`.
pub fn priority_to_int(p: &IssuePriority) -> (r: u32)
    ensures
        r == priority_code(*p),
{
    match p {
        IssuePriority::NoPriority => 0,
        IssuePriority::Urgent => 1,
        IssuePriority::High => 2,
        IssuePriority::Medium => 3,
        IssuePriority::Low => 4,
    }
}

/// Reading a priority back from its number gives the priority again.
pub proof fn lemma_priority_round_trip(p: IssuePriority)
    ensures
        priority_from_code(priority_code(p) as u64) == p,
        priority_code(p) <= 4,
{
}

/// A number read as a priority and written back is the number itself,
/// except that every number from 4 on stands for `Low`, written 4.
pub proof fn lemma_priority_code_round_trip(n: u64)
    ensures
        priority_code(priority_from_code(n)) == if n < 4 {
            n
        } else {
            4
        },
{
}

/// Whether `key` is a valid customer key.
pub fn is_valid_customer_key(key: &str) -> (r: bool)
    ensures
        r == valid_customer_key(key.spec_bytes()),
{
    let bytes = key.as_bytes();
    let n = bytes.len();
    if n == 0 || n > 64 {
        return false;
    }
    let first = bytes[0];
    if !((97 <= first && first <= 122) || (48 <= first && first <= 57)) {
        return false;
    }
    let mut i: usize = 0;
    while i < n
        invariant
            bytes@ == key.spec_bytes(),
            n == bytes@.len(),
            i <= n,
            forall|j: int| 0 <= j < i ==> is_key_byte(#[trigger] bytes@[j]),
        decreases n - i,
    {
        let b = bytes[i];
        if !((97 <= b && b <= 122) || (48 <= b && b <= 57) || b == 45 || b == 95) {
            assert(!is_key_byte(bytes@[i as int]));
            return false;
        }
        i = i + 1;
    }
    true
}

/// The labels a customer may see, of the label names `names`.
fn visible_labels(names: &Vec<String>) -> (r: Vec<String>)
    ensures
        r.deep_view() == customer_labels(names.deep_view()),
{
    let ghost all = names.deep_view();
    let mut out: Vec<String> = Vec::new();
    let mut i: usize = 0;
    assert(out.deep_view() =~= customer_labels(all.take(0)));
    while i < names.len()
        invariant
            all == names.deep_view(),
            i <= names.len(),
            out.deep_view() == customer_labels(all.take(i as int)),
        decreases names.len() - i,
    {
        let ghost before = out.deep_view();
        assert(all.take(i + 1).drop_last() =~= all.take(i as int));
        assert(all.take(i + 1).last() == names[i as int]@);
        let n = names[i].as_str();
        if !starts_with(n, "internal:") && !starts_with(n, "customer:") {
            out.push(names[i].clone());
            assert(out.deep_view() =~= before.push(names[i as int]@));
        }
        i = i + 1;
    }
    assert(all.take(names.len() as int) =~= all);
    out
}

/// Reads an issue node.
pub fn map_issue(v: Option<&Json>) -> (r: Issue)
    ensures
        r@ == issue_model(or_null(v)),
{
    let priority = match uint(field(v, "priority")) {
        Some(p) => Some(map_priority(p)),
        None => None,
    };
    Issue {
        id: str_field(v, "id"),
        identifier: text(field(v, "identifier")),
        title: str_field(v, "title"),
        description: text(field(v, "description")),
        status: text(field(field(v, "state"), "name")),
        priority,
        assignee_id: text(field(field(v, "assignee"), "id")),
        assignee_name: text(field(field(v, "assignee"), "name")),
        project_id: text(field(field(v, "project"), "id")),
        project_name: text(field(field(v, "project"), "name")),
        labels: texts_in(field(field(v, "labels"), "nodes"), "name"),
        created_at: text(field(v, "createdAt")),
        updated_at: text(field(v, "updatedAt")),
    }
}

/// Reads an issue node as a customer may see it.
pub fn map_customer_issue(v: Option<&Json>) -> (r: CustomerIssueView)
    ensures
        r@ == customer_issue_model(or_null(v)),
{
    let names = texts_in(field(field(v, "labels"), "nodes"), "name");
    let has_public_label = contains_text(&names, "public");
    let labels = visible_labels(&names);
    CustomerIssueView {
        platform: owned("linear"),
        identifier: str_field(v, "identifier"),
        title: str_field(v, "title"),
        state_name: str_field(field(v, "state"), "name"),
        state_type: str_field(field(v, "state"), "type"),
        assignee_name: text(field(field(v, "assignee"), "name")),
        assignee_avatar_url: text(field(field(v, "assignee"), "avatarUrl")),
        labels,
        description: if has_public_label {
            text(field(v, "description"))
        } else {
            None
        },
        updated_at: str_field(v, "updatedAt"),
    }
}

/// Whether an issue node passes the customer filter.
pub fn customer_issue_matches_filter(v: Option<&Json>, filter: &CustomerIssueFilter) -> (r: bool)
    ensures
        r == matches_customer_filter(or_null(v), filter@),
{
    if filter.project_ids.len() != 0 {
        let project_id = str_field(field(v, "project"), "id");
        if !contains_text(&filter.project_ids, project_id.as_str()) {
            return false;
        }
    }
    if filter.label_names.len() != 0 {
        let names = texts_in(field(field(v, "labels"), "nodes"), "name");
        let found = shares_text(&names, &filter.label_names);
        proof {
            if found {
                let i = choose|i: int|
                    0 <= i < names@.len() && filter.label_names.deep_view().contains(
                        #[trigger] names.deep_view()[i],
                    );
                assert(filter@.label_names.contains(label_names(or_null(v))[i]));
            }
        }
        if !found {
            return false;
        }
    }
    if filter.issue_identifiers.len() != 0 {
        let identifier = str_field(v, "identifier");
        if !contains_text(&filter.issue_identifiers, identifier.as_str()) {
            return false;
        }
    }
    true
}

/// Reads a project node.
pub fn map_project(v: Option<&Json>) -> (r: Project)
    ensures
        r@ == project_model(or_null(v)),
{
    Project {
        id: str_field(v, "id"),
        name: str_field(v, "name"),
        description: text(field(v, "description")),
        status: text(field(v, "state")),
        created_at: text(field(v, "createdAt")),
        updated_at: text(field(v, "updatedAt")),
    }
}

/// Reads a team node.
pub fn map_team(v: Option<&Json>) -> (r: Team)
    ensures
        r@ == team_model(or_null(v)),
{
    Team { id: str_field(v, "id"), name: str_field(v, "name"), key: text(field(v, "key")) }
}

/// Reads a comment node.
pub fn map_comment(v: Option<&Json>) -> (r: Comment)
    ensures
        r@ == comment_model(or_null(v)),
{
    Comment {
        id: str_field(v, "id"),
        body: str_field(v, "body"),
        issue_id: text(field(field(v, "issue"), "id")),
        user_name: text(field(field(v, "user"), "name")),
        created_at: text(field(v, "createdAt")),
    }
}

/// Reads an issue node as a search result.
pub fn map_search_result(v: Option<&Json>) -> (r: SearchResult)
    ensures
        r@ == search_result_model(or_null(v)),
{
    SearchResult {
        id: str_field(v, "id"),
        identifier: text(field(v, "identifier")),
        title: str_field(v, "title"),
        status: text(field(field(v, "state"), "name")),
    }
}

/// The filter that selects the issues labelled `customer:{customer_key}`.
pub open spec fn customer_filter_model(customer_key: Seq<char>) -> JsonView {
    JsonView::Object(
        seq![
            ("labels"@, JsonView::Object(
                seq![
                    ("some"@, JsonView::Object(
                        seq![
                            ("name"@, JsonView::Object(
                                seq![("eq"@, JsonView::Str("customer:"@ + customer_key))],
                            )),
                        ],
                    )),
                ],
            )),
        ],
    )
}

/// The filter that selects the issues labelled `customer:{customer_key}`.
pub fn build_customer_filter(customer_key: &str) -> (r: Json)
    ensures
        r@ == customer_filter_model(customer_key@),
{
    let label = concat("customer:", customer_key);
    let eq = object1("eq", Json::Str(label));
    let name = object1("name", eq);
    let some = object1("some", name);
    object1("labels", some)
}

// ── Queries ──────────────────────────────────────────

pub open spec fn list_issues_query() -> Seq<char> {
    "query($first: Int, $after: String) { issues(first: $first, after: $after) { nodes { "@
        + ISSUE_FIELDS@ + " } } }"@
}

pub open spec fn customer_issues_query() -> Seq<char> {
    "query($first: Int, $after: String, $filter: IssueFilter!) { issues(first: $first, after: $after, filter: $filter, orderBy: updatedAt) { nodes { "@
        + CUSTOMER_ISSUE_FIELDS@ + " } } }"@
}

pub open spec fn get_issue_query() -> Seq<char> {
    "query($id: String!) { issue(id: $id) { "@ + ISSUE_FIELDS@ + " } }"@
}

pub open spec fn create_issue_query() -> Seq<char> {
    "mutation($input: IssueCreateInput!) { issueCreate(input: $input) { issue { "@
        + ISSUE_FIELDS@ + " } } }"@
}

pub open spec fn update_issue_query() -> Seq<char> {
    "mutation($id: String!, $input: IssueUpdateInput!) { issueUpdate(id: $id, input: $input) { issue { "@
        + ISSUE_FIELDS@ + " } } }"@
}

pub open spec fn list_projects_query() -> Seq<char> {
    "query($first: Int, $after: String) { projects(first: $first, after: $after) { nodes { "@
        + PROJECT_FIELDS@ + " } } }"@
}

pub open spec fn get_project_query() -> Seq<char> {
    "query($id: String!) { project(id: $id) { "@ + PROJECT_FIELDS@ + " } }"@
}

pub open spec fn list_teams_query() -> Seq<char> {
    "query($first: Int) { teams(first: $first) { nodes { "@ + TEAM_FIELDS@ + " } } }"@
}

pub open spec fn list_comments_query() -> Seq<char> {
    "query($id: String!) { issue(id: $id) { comments { nodes { "@ + COMMENT_FIELDS@
        + " } } } }"@
}

pub open spec fn create_comment_query() -> Seq<char> {
    "mutation($input: CommentCreateInput!) { commentCreate(input: $input) { comment { "@
        + COMMENT_FIELDS@ + " } } }"@
}

pub open spec fn search_query() -> Seq<char> {
    "query($term: String!, $first: Int) { searchIssues(term: $term, first: $first) { nodes { "@
        + ISSUE_FIELDS@ + " } } }"@
}

// ── Variables ────────────────────────────────────────

/// The `first`/`after` variables of a paged list.
pub open spec fn page_variables(limit: Option<u32>, after: Option<Seq<char>>) -> JsonView {
    JsonView::Object(
        seq![
            ("first"@, JsonView::Number(NumberView::UInt(page_size(limit)))),
            ("after"@, str_or_null(after)),
        ],
    )
}

/// The entry `priority: code` when a priority is set.
pub open spec fn priority_entry(p: Option<IssuePriority>) -> Seq<(Seq<char>, JsonView)> {
    match p {
        Some(q) => seq![("priority"@, JsonView::Number(NumberView::UInt(priority_code(q) as u64)))],
        None => Seq::empty(),
    }
}

/// The `IssueCreateInput` of a creation: the title, then each optional
/// field that is set; labels and extra properties are not sent.
pub open spec fn create_input(
    title: Seq<char>,
    description: Option<Seq<char>>,
    project_id: Option<Seq<char>>,
    assignee_id: Option<Seq<char>>,
    priority: Option<IssuePriority>,
) -> JsonView {
    JsonView::Object(
        seq![("title"@, JsonView::Str(title))] + crate::json::opt_entry("description"@, description)
            + crate::json::opt_entry("projectId"@, project_id) + crate::json::opt_entry(
            "assigneeId"@,
            assignee_id,
        ) + priority_entry(priority),
    )
}

/// The `IssueUpdateInput` of an update: each field that is set; the status
/// is sent as `stateId`; labels and extra properties are not sent.
pub open spec fn update_input(
    title: Option<Seq<char>>,
    description: Option<Seq<char>>,
    status: Option<Seq<char>>,
    assignee_id: Option<Seq<char>>,
    priority: Option<IssuePriority>,
) -> JsonView {
    JsonView::Object(
        crate::json::opt_entry("title"@, title) + crate::json::opt_entry(
            "description"@,
            description,
        ) + crate::json::opt_entry("stateId"@, status) + crate::json::opt_entry(
            "assigneeId"@,
            assignee_id,
        ) + priority_entry(priority),
    )
}

/// The priority entry holds the priority's number under `priority` when
/// a priority is set, and nothing else.
proof fn lemma_priority_entry_value(p: Option<IssuePriority>, key: Seq<char>)
    ensures
        entry_value(priority_entry(p), key) == if key == "priority"@ {
            priority_json(p)
        } else {
            None
        },
{
    if let Some(q) = p {
        lemma_single_entry_value(
            "priority"@,
            JsonView::Number(NumberView::UInt(priority_code(q) as u64)),
            key,
        );
    } else {
        assert(entry_value(Seq::<(Seq<char>, JsonView)>::empty(), key) is None);
    }
}

/// The priority as the number Linear stores, when one is set.
pub open spec fn priority_json(p: Option<IssuePriority>) -> Option<JsonView> {
    match p {
        Some(q) => Some(JsonView::Number(NumberView::UInt(priority_code(q) as u64))),
        None => None,
    }
}

/// A creation sends the title as `title` and each other field that is
/// set under its GraphQL name: `description`, `projectId`, `assigneeId`,
/// and the priority's number as `priority`; no field that is not set.
pub proof fn lemma_create_input_sends_set_fields(
    title: Seq<char>,
    description: Option<Seq<char>>,
    project_id: Option<Seq<char>>,
    assignee_id: Option<Seq<char>>,
    priority: Option<IssuePriority>,
)
    ensures
        create_input(title, description, project_id, assignee_id, priority).get("title"@)
            == Some(JsonView::Str(title)),
        create_input(title, description, project_id, assignee_id, priority).get("description"@)
            == string_json(description),
        create_input(title, description, project_id, assignee_id, priority).get("projectId"@)
            == string_json(project_id),
        create_input(title, description, project_id, assignee_id, priority).get("assigneeId"@)
            == string_json(assignee_id),
        create_input(title, description, project_id, assignee_id, priority).get("priority"@)
            == priority_json(priority),
{
    reveal_strlit("title");
    reveal_strlit("description");
    reveal_strlit("projectId");
    reveal_strlit("assigneeId");
    reveal_strlit("priority");
    let a = seq![("title"@, JsonView::Str(title))];
    let b = opt_entry("description"@, description);
    let c = opt_entry("projectId"@, project_id);
    let d = opt_entry("assigneeId"@, assignee_id);
    let e = priority_entry(priority);
    assert(create_input(title, description, project_id, assignee_id, priority) == JsonView::Object(
        a + b + c + d + e,
    ));
    assert("title"@.len() == 5 && "description"@.len() == 11 && "projectId"@.len() == 9
        && "assigneeId"@.len() == 10 && "priority"@.len() == 8);
    let keys = seq!["title"@, "description"@, "projectId"@, "assigneeId"@, "priority"@];
    assert forall|i: int| 0 <= i < 5 implies {
        &&& entry_value(a + b + c + d + e, #[trigger] keys[i]) == match entry_value(a, keys[i]) {
            Some(x) => Some(x),
            None => match entry_value(b, keys[i]) {
                Some(x) => Some(x),
                None => match entry_value(c, keys[i]) {
                    Some(x) => Some(x),
                    None => match entry_value(d, keys[i]) {
                        Some(x) => Some(x),
                        None => entry_value(e, keys[i]),
                    },
                },
            },
        }
        &&& entry_value(a, keys[i]) == if "title"@ == keys[i] {
            Some(JsonView::Str(title))
        } else {
            None
        }
        &&& entry_value(b, keys[i]) == if "description"@ == keys[i] {
            string_json(description)
        } else {
            None
        }
        &&& entry_value(c, keys[i]) == if "projectId"@ == keys[i] {
            string_json(project_id)
        } else {
            None
        }
        &&& entry_value(d, keys[i]) == if "assigneeId"@ == keys[i] {
            string_json(assignee_id)
        } else {
            None
        }
        &&& entry_value(e, keys[i]) == if keys[i] == "priority"@ {
            priority_json(priority)
        } else {
            None
        }
    } by {
        lemma_entry_value_concat(a + b + c + d, e, keys[i]);
        lemma_entry_value_concat(a + b + c, d, keys[i]);
        lemma_entry_value_concat(a + b, c, keys[i]);
        lemma_entry_value_concat(a, b, keys[i]);
        lemma_single_entry_value("title"@, JsonView::Str(title), keys[i]);
        lemma_opt_entry_value("description"@, description, keys[i]);
        lemma_opt_entry_value("projectId"@, project_id, keys[i]);
        lemma_opt_entry_value("assigneeId"@, assignee_id, keys[i]);
        lemma_priority_entry_value(priority, keys[i]);
    }
    assert(keys[0] == "title"@);
    assert(keys[1] == "description"@);
    assert(keys[2] == "projectId"@);
    assert(keys[3] == "assigneeId"@);
    assert(keys[4] == "priority"@);
}

/// An update sends each field that is set under its GraphQL name:
/// `title`, `description`, the status as `stateId`, `assigneeId`, and the
/// priority's number as `priority`; no field that is not set.
pub proof fn lemma_update_input_sends_set_fields(
    title: Option<Seq<char>>,
    description: Option<Seq<char>>,
    status: Option<Seq<char>>,
    assignee_id: Option<Seq<char>>,
    priority: Option<IssuePriority>,
)
    ensures
        update_input(title, description, status, assignee_id, priority).get("title"@)
            == string_json(title),
        update_input(title, description, status, assignee_id, priority).get("description"@)
            == string_json(description),
        update_input(title, description, status, assignee_id, priority).get("stateId"@)
            == string_json(status),
        update_input(title, description, status, assignee_id, priority).get("assigneeId"@)
            == string_json(assignee_id),
        update_input(title, description, status, assignee_id, priority).get("priority"@)
            == priority_json(priority),
{
    reveal_strlit("title");
    reveal_strlit("description");
    reveal_strlit("stateId");
    reveal_strlit("assigneeId");
    reveal_strlit("priority");
    let a = opt_entry("title"@, title);
    let b = opt_entry("description"@, description);
    let c = opt_entry("stateId"@, status);
    let d = opt_entry("assigneeId"@, assignee_id);
    let e = priority_entry(priority);
    assert(update_input(title, description, status, assignee_id, priority) == JsonView::Object(
        a + b + c + d + e,
    ));
    assert("title"@.len() == 5 && "description"@.len() == 11 && "stateId"@.len() == 7
        && "assigneeId"@.len() == 10 && "priority"@.len() == 8);
    let keys = seq!["title"@, "description"@, "stateId"@, "assigneeId"@, "priority"@];
    assert forall|i: int| 0 <= i < 5 implies {
        &&& entry_value(a + b + c + d + e, #[trigger] keys[i]) == match entry_value(a, keys[i]) {
            Some(x) => Some(x),
            None => match entry_value(b, keys[i]) {
                Some(x) => Some(x),
                None => match entry_value(c, keys[i]) {
                    Some(x) => Some(x),
                    None => match entry_value(d, keys[i]) {
                        Some(x) => Some(x),
                        None => entry_value(e, keys[i]),
                    },
                },
            },
        }
        &&& entry_value(a, keys[i]) == if "title"@ == keys[i] {
            string_json(title)
        } else {
            None
        }
        &&& entry_value(b, keys[i]) == if "description"@ == keys[i] {
            string_json(description)
        } else {
            None
        }
        &&& entry_value(c, keys[i]) == if "stateId"@ == keys[i] {
            string_json(status)
        } else {
            None
        }
        &&& entry_value(d, keys[i]) == if "assigneeId"@ == keys[i] {
            string_json(assignee_id)
        } else {
            None
        }
        &&& entry_value(e, keys[i]) == if keys[i] == "priority"@ {
            priority_json(priority)
        } else {
            None
        }
    } by {
        lemma_entry_value_concat(a + b + c + d, e, keys[i]);
        lemma_entry_value_concat(a + b + c, d, keys[i]);
        lemma_entry_value_concat(a + b, c, keys[i]);
        lemma_entry_value_concat(a, b, keys[i]);
        lemma_opt_entry_value("title"@, title, keys[i]);
        lemma_opt_entry_value("description"@, description, keys[i]);
        lemma_opt_entry_value("stateId"@, status, keys[i]);
        lemma_opt_entry_value("assigneeId"@, assignee_id, keys[i]);
        lemma_priority_entry_value(priority, keys[i]);
    }
    assert(keys[0] == "title"@);
    assert(keys[1] == "description"@);
    assert(keys[2] == "stateId"@);
    assert(keys[3] == "assigneeId"@);
    assert(keys[4] == "priority"@);
}

/// The issue models of a list of nodes.
pub open spec fn issue_models(nodes: Seq<JsonView>) -> Seq<IssueModel> {
    nodes.map_values(|n: JsonView| issue_model(n))
}

/// The customer views of the nodes that pass the filter, in order.
pub open spec fn customer_issue_models(nodes: Seq<JsonView>, f: CustomerIssueFilterModel) -> Seq<
    CustomerIssueModel,
>
    decreases nodes.len(),
{
    if nodes.len() == 0 {
        Seq::empty()
    } else {
        let rest = customer_issue_models(nodes.drop_last(), f);
        if matches_customer_filter(nodes.last(), f) {
            rest.push(customer_issue_model(nodes.last()))
        } else {
            rest
        }
    }
}

/// The customer issues listed are at most the issues answered, and with a
/// filter that restricts nothing they are all of them, in order.
pub proof fn lemma_customer_issue_models_filtered(
    nodes: Seq<JsonView>,
    f: CustomerIssueFilterModel,
)
    ensures
        customer_issue_models(nodes, f).len() <= nodes.len(),
        f.project_ids.len() == 0 && f.label_names.len() == 0 && f.issue_identifiers.len() == 0
            ==> customer_issue_models(nodes, f) == nodes.map_values(
            |n: JsonView| customer_issue_model(n),
        ),
    decreases nodes.len(),
{
    if nodes.len() > 0 {
        lemma_customer_issue_models_filtered(nodes.drop_last(), f);
        if f.project_ids.len() == 0 && f.label_names.len() == 0 && f.issue_identifiers.len() == 0 {
            assert(nodes.map_values(|n: JsonView| customer_issue_model(n)) =~= nodes.drop_last().map_values(
                |n: JsonView| customer_issue_model(n),
            ).push(customer_issue_model(nodes.last())));
        }
    }
}

/// An answer that reports errors is an API error with the status and the
/// first error's message (`Unknown error` when it has none), whatever data
/// it also holds; the error's text ends with that message.
pub proof fn lemma_graphql_errors_reported(status: u16, b: JsonView)
    requires
        b.get("errors"@) is Some,
    ensures
        graphql_outcome(status, Ok(b)) matches Err(PmErrorView::Api { status: s, message: m })
            && s == status && m == match b.get("errors"@)->0.at_index(0).at("message"@).as_str() {
            Some(t) => t,
            None => "Unknown error"@,
        } && crate::error::error_text(PmErrorView::Api { status: s, message: m }).subrange(
            crate::error::error_text(PmErrorView::Api { status: s, message: m }).len() - m.len(),
            crate::error::error_text(PmErrorView::Api { status: s, message: m }).len() as int,
        ) == m,
{
    let m = match b.get("errors"@)->0.at_index(0).at("message"@).as_str() {
        Some(t) => t,
        None => "Unknown error"@,
    };
    let t = crate::error::error_text(PmErrorView::Api { status, message: m });
    assert(t.subrange(t.len() - m.len(), t.len() as int) =~= m);
}

/// Adds the entry `priority: code` when a priority is set.
fn insert_priority(b: &mut ObjectBuilder, p: &Option<IssuePriority>)
    ensures
        entry_views(final(b).entries@) == entry_views(old(b).entries@) + priority_entry(*p),
{
    let ghost before = entry_views(b.entries@);
    match p {
        Some(q) => {
            let code = priority_to_int(q);
            b.insert("priority", uint_value(code as u64));
            assert(entry_views(b.entries@) =~= before + priority_entry(*p));
        },
        None => {
            assert(entry_views(b.entries@) =~= before + priority_entry(*p));
        },
    }
}

/// Reads a list of issue nodes.
pub fn map_issues(nodes: Option<&Json>) -> (r: Vec<Issue>)
    ensures
        r@.map_values(|i: Issue| i@) == issue_models(or_null(nodes).elements()),
{
    let mut out: Vec<Issue> = Vec::new();
    match array(nodes) {
        Some(a) => {
            let ghost all = views(a@);
            let mut i: usize = 0;
            while i < a.len()
                invariant
                    all == views(a@),
                    i <= a.len(),
                    out@.len() == i,
                    forall|j: int| 0 <= j < i ==> #[trigger] out@[j]@ == issue_model(all[j]),
                decreases a.len() - i,
            {
                out.push(map_issue(Some(&a[i])));
                i = i + 1;
            }
        },
        None => {},
    }
    assert(out@.map_values(|x: Issue| x@) =~= issue_models(or_null(nodes).elements()));
    out
}

/// Reads the nodes that pass the customer filter.
pub fn map_customer_issues(nodes: Option<&Json>, filter: &CustomerIssueFilter) -> (r: Vec<
    CustomerIssueView,
>)
    ensures
        r@.map_values(|c: CustomerIssueView| c@) == customer_issue_models(
            or_null(nodes).elements(),
            filter@,
        ),
{
    let mut out: Vec<CustomerIssueView> = Vec::new();
    match array(nodes) {
        Some(a) => {
            let ghost all = views(a@);
            let mut i: usize = 0;
            assert(out@.map_values(|x: CustomerIssueView| x@) =~= customer_issue_models(
                all.take(0),
                filter@,
            ));
            while i < a.len()
                invariant
                    all == views(a@),
                    i <= a.len(),
                    out@.map_values(|x: CustomerIssueView| x@) == customer_issue_models(
                        all.take(i as int),
                        filter@,
                    ),
                decreases a.len() - i,
            {
                let ghost before = out@.map_values(|x: CustomerIssueView| x@);
                assert(all.take(i + 1).drop_last() =~= all.take(i as int));
                assert(all.take(i + 1).last() == a@[i as int]@);
                if customer_issue_matches_filter(Some(&a[i]), filter) {
                    out.push(map_customer_issue(Some(&a[i])));
                    assert(out@.map_values(|x: CustomerIssueView| x@) =~= before.push(
                        customer_issue_model(a@[i as int]@),
                    ));
                }
                i = i + 1;
            }
            assert(all.take(a.len() as int) =~= all);
        },
        None => {
            assert(out@.map_values(|x: CustomerIssueView| x@) =~= customer_issue_models(
                or_null(nodes).elements(),
                filter@,
            ));
        },
    }
    out
}

/// Reads a list of project nodes.
pub fn map_projects(nodes: Option<&Json>) -> (r: Vec<Project>)
    ensures
        r@.map_values(|p: Project| p@) == or_null(nodes).elements().map_values(
            |n: JsonView| project_model(n),
        ),
{
    let mut out: Vec<Project> = Vec::new();
    match array(nodes) {
        Some(a) => {
            let ghost all = views(a@);
            let mut i: usize = 0;
            while i < a.len()
                invariant
                    all == views(a@),
                    i <= a.len(),
                    out@.len() == i,
                    forall|j: int| 0 <= j < i ==> #[trigger] out@[j]@ == project_model(all[j]),
                decreases a.len() - i,
            {
                out.push(map_project(Some(&a[i])));
                i = i + 1;
            }
        },
        None => {},
    }
    assert(out@.map_values(|x: Project| x@) =~= or_null(nodes).elements().map_values(
        |n: JsonView| project_model(n),
    ));
    out
}

/// Reads a list of team nodes.
pub fn map_teams(nodes: Option<&Json>) -> (r: Vec<Team>)
    ensures
        r@.map_values(|t: Team| t@) == or_null(nodes).elements().map_values(
            |n: JsonView| team_model(n),
        ),
{
    let mut out: Vec<Team> = Vec::new();
    match array(nodes) {
        Some(a) => {
            let ghost all = views(a@);
            let mut i: usize = 0;
            while i < a.len()
                invariant
                    all == views(a@),
                    i <= a.len(),
                    out@.len() == i,
                    forall|j: int| 0 <= j < i ==> #[trigger] out@[j]@ == team_model(all[j]),
                decreases a.len() - i,
            {
                out.push(map_team(Some(&a[i])));
                i = i + 1;
            }
        },
        None => {},
    }
    assert(out@.map_values(|x: Team| x@) =~= or_null(nodes).elements().map_values(
        |n: JsonView| team_model(n),
    ));
    out
}

/// Reads a list of comment nodes.
pub fn map_comments(nodes: Option<&Json>) -> (r: Vec<Comment>)
    ensures
        r@.map_values(|c: Comment| c@) == or_null(nodes).elements().map_values(
            |n: JsonView| comment_model(n),
        ),
{
    let mut out: Vec<Comment> = Vec::new();
    match array(nodes) {
        Some(a) => {
            let ghost all = views(a@);
            let mut i: usize = 0;
            while i < a.len()
                invariant
                    all == views(a@),
                    i <= a.len(),
                    out@.len() == i,
                    forall|j: int| 0 <= j < i ==> #[trigger] out@[j]@ == comment_model(all[j]),
                decreases a.len() - i,
            {
                out.push(map_comment(Some(&a[i])));
                i = i + 1;
            }
        },
        None => {},
    }
    assert(out@.map_values(|x: Comment| x@) =~= or_null(nodes).elements().map_values(
        |n: JsonView| comment_model(n),
    ));
    out
}

/// Reads a list of issue nodes as search results.
pub fn map_search_results(nodes: Option<&Json>) -> (r: Vec<SearchResult>)
    ensures
        r@.map_values(|s: SearchResult| s@) == or_null(nodes).elements().map_values(
            |n: JsonView| search_result_model(n),
        ),
{
    let mut out: Vec<SearchResult> = Vec::new();
    match array(nodes) {
        Some(a) => {
            let ghost all = views(a@);
            let mut i: usize = 0;
            while i < a.len()
                invariant
                    all == views(a@),
                    i <= a.len(),
                    out@.len() == i,
                    forall|j: int| 0 <= j < i ==> #[trigger] out@[j]@ == search_result_model(all[j]),
                decreases a.len() - i,
            {
                out.push(map_search_result(Some(&a[i])));
                i = i + 1;
            }
        },
        None => {},
    }
    assert(out@.map_values(|x: SearchResult| x@) =~= or_null(nodes).elements().map_values(
        |n: JsonView| search_result_model(n),
    ));
    out
}

// ── The adapter ──────────────────────────────────────

/// The `first`/`after` variables of a paged list.
fn page_vars(page: &PageRequest) -> (r: Json)
    ensures
        r@ == page_variables(page@.limit, page@.after),
{
    let limit = page_limit(page);
    object2("first", uint_value(limit as u64), "after", string_or_null(&page.after))
}

/// The query `prefix + fields + suffix`.
fn query(prefix: &str, fields: &str, suffix: &str) -> (r: String)
    ensures
        r@ == prefix@ + fields@ + suffix@,
{
    concat3(prefix, fields, suffix)
}

impl LinearAdapter {
    /// An adapter for the Linear API at its public address.
    pub fn new(token: &str) -> (r: Self)
        ensures
            r@ == (LinearConfig { token: token@, base_url: LINEAR_API_URL@ }),
    {
        LinearAdapter { token: owned(token), base_url: owned(LINEAR_API_URL) }
    }

    /// The same adapter, talking to the API at `url`.
    pub fn with_base_url(self, url: String) -> (r: Self)
        ensures
            r@ == (LinearConfig { token: self@.token, base_url: url@ }),
    {
        LinearAdapter { token: self.token, base_url: url }
    }

    /// The platform identifier.
    pub fn platform(&self) -> (r: &'static str)
        ensures
            r@ == "linear"@,
    {
        "linear"
    }

    /// The GraphQL request that sends `query` with `variables`.
    pub fn graphql_request(&self, query: &str, variables: Json) -> (r: HttpRequest)
        ensures
            r@ == graphql_model(self@, query@, variables@),
    {
        let url = concat(self.base_url.as_str(), "/graphql");
        let body = object2("query", string(query), "variables", variables);
        let mut r = new_request(HttpMethod::Post, url, Some(body));
        push_header(&mut r.headers, "Authorization", self.token.as_str());
        push_header(&mut r.headers, "Content-Type", "application/json");
        assert(r@.headers =~= seq![("Authorization"@, self@.token), ("Content-Type"@, "application/json"@)]);
        r
    }

    /// What a GraphQL answer yields: `body` is the document as read, or
    /// the reason it could not be read.
    pub fn graphql_response(status: u16, body: Result<Json, String>) -> (r: PmResult<Json>)
        ensures
            outcome_view(r) == graphql_outcome(status, body_view(body)),
    {
        match body {
            Err(m) => Err(PmError::Parse(m)),
            Ok(b) => {
                let message = match b.get("errors") {
                    Some(errors) => Some(
                        match text(field(element(Some(errors), 0), "message")) {
                            Some(m) => m,
                            None => owned("Unknown error"),
                        },
                    ),
                    None => None,
                };
                match message {
                    Some(m) => Err(PmError::Api { status, message: m }),
                    None => match b.take("data") {
                        Some(d) => Ok(d),
                        None => Err(parse_error("No data in response")),
                    },
                }
            },
        }
    }

    /// The request of `list_issues`.
    pub fn list_issues_request(&self, page: &PageRequest) -> (r: HttpRequest)
        ensures
            r@ == graphql_model(self@, list_issues_query(), page_variables(page@.limit, page@.after)),
    {
        let q = query(
            "query($first: Int, $after: String) { issues(first: $first, after: $after) { nodes { ",
            ISSUE_FIELDS,
            " } } }",
        );
        self.graphql_request(q.as_str(), page_vars(page))
    }

    /// The issues of a `list_issues` answer.
    pub fn issues_from(data: &Json) -> (r: Vec<Issue>)
        ensures
            r@.map_values(|i: Issue| i@) == issue_models(
                data@.at("issues"@).at("nodes"@).elements(),
            ),
    {
        map_issues(field(field(Some(data), "issues"), "nodes"))
    }

    /// The next step of `list_customer_issues`: with an invalid customer
    /// key the answer is an empty list, without a request.
    pub fn customer_issues_request(&self, filter: &CustomerIssueFilter) -> (r: Plan<
        Vec<CustomerIssueView>,
    >)
        ensures
            match r {
                Plan::Send(req) => valid_customer_key(vstd::utf8::encode_utf8(filter@.customer_key))
                    && req@ == graphql_model(
                    self@,
                    customer_issues_query(),
                    JsonView::Object(
                        seq![
                            ("first"@, JsonView::Number(NumberView::UInt(page_size(filter@.page.limit)))),
                            ("after"@, str_or_null(filter@.page.after)),
                            ("filter"@, customer_filter_model(filter@.customer_key)),
                        ],
                    ),
                ),
                Plan::Finish(res) => !valid_customer_key(
                    vstd::utf8::encode_utf8(filter@.customer_key),
                ) && (res matches Ok(v) && v@.len() == 0),
            },
    {
        if !is_valid_customer_key(filter.customer_key.as_str()) {
            return Plan::Finish(Ok(Vec::new()));
        }
        let limit: u32 = match filter.page.limit {
            Some(n) => n,
            None => 50,
        };
        let mut vars = ObjectBuilder::new();
        vars.insert("first", uint_value(limit as u64));
        vars.insert("after", string_or_null(&filter.page.after));
        vars.insert("filter", build_customer_filter(filter.customer_key.as_str()));
        let vars = vars.build();
        let q = query(
            "query($first: Int, $after: String, $filter: IssueFilter!) { issues(first: $first, after: $after, filter: $filter, orderBy: updatedAt) { nodes { ",
            CUSTOMER_ISSUE_FIELDS,
            " } } }",
        );
        proof {
            assert(vars@->Object_0 =~= seq![
                ("first"@, JsonView::Number(NumberView::UInt(page_size(filter@.page.limit)))),
                ("after"@, str_or_null(filter@.page.after)),
                ("filter"@, customer_filter_model(filter@.customer_key)),
            ]);
        }
        Plan::Send(self.graphql_request(q.as_str(), vars))
    }

    /// The customer issues of a `list_customer_issues` answer: the nodes
    /// that pass the filter.
    pub fn customer_issues_from(data: &Json, filter: &CustomerIssueFilter) -> (r: Vec<
        CustomerIssueView,
    >)
        ensures
            r@.map_values(|c: CustomerIssueView| c@) == customer_issue_models(
                data@.at("issues"@).at("nodes"@).elements(),
                filter@,
            ),
    {
        map_customer_issues(field(field(Some(data), "issues"), "nodes"), filter)
    }

    /// The request of `get_issue`.
    pub fn get_issue_request(&self, id: &str) -> (r: HttpRequest)
        ensures
            r@ == graphql_model(
                self@,
                get_issue_query(),
                JsonView::Object(seq![("id"@, JsonView::Str(id@))]),
            ),
    {
        let q = query("query($id: String!) { issue(id: $id) { ", ISSUE_FIELDS, " } }");
        self.graphql_request(q.as_str(), object1("id", string(id)))
    }

    /// The issue of a `get_issue` answer.
    pub fn issue_from(data: &Json) -> (r: Issue)
        ensures
            r@ == issue_model(data@.at("issue"@)),
    {
        map_issue(field(Some(data), "issue"))
    }

    /// The request of `create_issue`.
    pub fn create_issue_request(&self, input: &CreateIssueRequest) -> (r: HttpRequest)
        ensures
            r@ == graphql_model(
                self@,
                create_issue_query(),
                JsonView::Object(
                    seq![
                        ("input"@, create_input(
                            input.title@,
                            input.description.deep_view(),
                            input.project_id.deep_view(),
                            input.assignee_id.deep_view(),
                            input.priority,
                        )),
                    ],
                ),
            ),
    {
        let mut vars = ObjectBuilder::new();
        vars.insert("title", Json::Str(input.title.clone()));
        vars.insert_opt("description", &input.description);
        vars.insert_opt("projectId", &input.project_id);
        vars.insert_opt("assigneeId", &input.assignee_id);
        insert_priority(&mut vars, &input.priority);
        let vars = vars.build();
        proof {
            assert(vars@->Object_0 =~= create_input(
                input.title@,
                input.description.deep_view(),
                input.project_id.deep_view(),
                input.assignee_id.deep_view(),
                input.priority,
            )->Object_0);
        }
        let q = query(
            "mutation($input: IssueCreateInput!) { issueCreate(input: $input) { issue { ",
            ISSUE_FIELDS,
            " } } }",
        );
        self.graphql_request(q.as_str(), object1("input", vars))
    }

    /// The issue of a `create_issue` answer.
    pub fn created_issue_from(data: &Json) -> (r: Issue)
        ensures
            r@ == issue_model(data@.at("issueCreate"@).at("issue"@)),
    {
        map_issue(field(field(Some(data), "issueCreate"), "issue"))
    }

    /// The request of `update_issue`.
    pub fn update_issue_request(&self, id: &str, input: &UpdateIssueRequest) -> (r: HttpRequest)
        ensures
            r@ == graphql_model(
                self@,
                update_issue_query(),
                JsonView::Object(
                    seq![
                        ("id"@, JsonView::Str(id@)),
                        ("input"@, update_input(
                            input.title.deep_view(),
                            input.description.deep_view(),
                            input.status.deep_view(),
                            input.assignee_id.deep_view(),
                            input.priority,
                        )),
                    ],
                ),
            ),
    {
        let mut vars = ObjectBuilder::new();
        vars.insert_opt("title", &input.title);
        vars.insert_opt("description", &input.description);
        vars.insert_opt("stateId", &input.status);
        vars.insert_opt("assigneeId", &input.assignee_id);
        insert_priority(&mut vars, &input.priority);
        let vars = vars.build();
        proof {
            assert(vars@->Object_0 =~= update_input(
                input.title.deep_view(),
                input.description.deep_view(),
                input.status.deep_view(),
                input.assignee_id.deep_view(),
                input.priority,
            )->Object_0);
        }
        let q = query(
            "mutation($id: String!, $input: IssueUpdateInput!) { issueUpdate(id: $id, input: $input) { issue { ",
            ISSUE_FIELDS,
            " } } }",
        );
        self.graphql_request(q.as_str(), object2("id", string(id), "input", vars))
    }

    /// The issue of an `update_issue` answer.
    pub fn updated_issue_from(data: &Json) -> (r: Issue)
        ensures
            r@ == issue_model(data@.at("issueUpdate"@).at("issue"@)),
    {
        map_issue(field(field(Some(data), "issueUpdate"), "issue"))
    }

    /// The request of `list_projects`.
    pub fn list_projects_request(&self, page: &PageRequest) -> (r: HttpRequest)
        ensures
            r@ == graphql_model(
                self@,
                list_projects_query(),
                page_variables(page@.limit, page@.after),
            ),
    {
        let q = query(
            "query($first: Int, $after: String) { projects(first: $first, after: $after) { nodes { ",
            PROJECT_FIELDS,
            " } } }",
        );
        self.graphql_request(q.as_str(), page_vars(page))
    }

    /// The projects of a `list_projects` answer.
    pub fn projects_from(data: &Json) -> (r: Vec<Project>)
        ensures
            r@.map_values(|p: Project| p@) == data@.at("projects"@).at(
                "nodes"@,
            ).elements().map_values(|n: JsonView| project_model(n)),
    {
        map_projects(field(field(Some(data), "projects"), "nodes"))
    }

    /// The request of `get_project`.
    pub fn get_project_request(&self, id: &str) -> (r: HttpRequest)
        ensures
            r@ == graphql_model(
                self@,
                get_project_query(),
                JsonView::Object(seq![("id"@, JsonView::Str(id@))]),
            ),
    {
        let q = query("query($id: String!) { project(id: $id) { ", PROJECT_FIELDS, " } }");
        self.graphql_request(q.as_str(), object1("id", string(id)))
    }

    /// The project of a `get_project` answer.
    pub fn project_from(data: &Json) -> (r: Project)
        ensures
            r@ == project_model(data@.at("project"@)),
    {
        map_project(field(Some(data), "project"))
    }

    /// The request of `list_teams`; only the page size is sent.
    pub fn list_teams_request(&self, page: &PageRequest) -> (r: HttpRequest)
        ensures
            r@ == graphql_model(
                self@,
                list_teams_query(),
                JsonView::Object(
                    seq![("first"@, JsonView::Number(NumberView::UInt(page_size(page@.limit))))],
                ),
            ),
    {
        let limit = page_limit(page);
        let q = query("query($first: Int) { teams(first: $first) { nodes { ", TEAM_FIELDS, " } } }");
        self.graphql_request(q.as_str(), object1("first", uint_value(limit as u64)))
    }

    /// The teams of a `list_teams` answer.
    pub fn teams_from(data: &Json) -> (r: Vec<Team>)
        ensures
            r@.map_values(|t: Team| t@) == data@.at("teams"@).at("nodes"@).elements().map_values(
                |n: JsonView| team_model(n),
            ),
    {
        map_teams(field(field(Some(data), "teams"), "nodes"))
    }

    /// The request of `list_comments`.
    pub fn list_comments_request(&self, issue_id: &str) -> (r: HttpRequest)
        ensures
            r@ == graphql_model(
                self@,
                list_comments_query(),
                JsonView::Object(seq![("id"@, JsonView::Str(issue_id@))]),
            ),
    {
        let q = query(
            "query($id: String!) { issue(id: $id) { comments { nodes { ",
            COMMENT_FIELDS,
            " } } } }",
        );
        self.graphql_request(q.as_str(), object1("id", string(issue_id)))
    }

    /// The comments of a `list_comments` answer.
    pub fn comments_from(data: &Json) -> (r: Vec<Comment>)
        ensures
            r@.map_values(|c: Comment| c@) == data@.at("issue"@).at("comments"@).at(
                "nodes"@,
            ).elements().map_values(|n: JsonView| comment_model(n)),
    {
        map_comments(field(field(field(Some(data), "issue"), "comments"), "nodes"))
    }

    /// The request of `create_comment`.
    pub fn create_comment_request(&self, issue_id: &str, input: &CreateCommentRequest) -> (r:
        HttpRequest)
        ensures
            r@ == graphql_model(
                self@,
                create_comment_query(),
                JsonView::Object(
                    seq![
                        ("input"@, JsonView::Object(
                            seq![
                                ("issueId"@, JsonView::Str(issue_id@)),
                                ("body"@, JsonView::Str(input.body@)),
                            ],
                        )),
                    ],
                ),
            ),
    {
        let q = query(
            "mutation($input: CommentCreateInput!) { commentCreate(input: $input) { comment { ",
            COMMENT_FIELDS,
            " } } }",
        );
        let inner = object2("issueId", string(issue_id), "body", Json::Str(input.body.clone()));
        self.graphql_request(q.as_str(), object1("input", inner))
    }

    /// The comment of a `create_comment` answer.
    pub fn created_comment_from(data: &Json) -> (r: Comment)
        ensures
            r@ == comment_model(data@.at("commentCreate"@).at("comment"@)),
    {
        map_comment(field(field(Some(data), "commentCreate"), "comment"))
    }

    /// The request of `search`; the page size is the request's limit, 25
    /// when it has none.
    pub fn search_request(&self, input: &SearchRequest) -> (r: HttpRequest)
        ensures
            r@ == graphql_model(
                self@,
                search_query(),
                JsonView::Object(
                    seq![
                        ("term"@, JsonView::Str(input.query@)),
                        ("first"@, JsonView::Number(NumberView::UInt(search_size(input.limit)))),
                    ],
                ),
            ),
    {
        let limit = search_limit(input);
        let q = query(
            "query($term: String!, $first: Int) { searchIssues(term: $term, first: $first) { nodes { ",
            ISSUE_FIELDS,
            " } } }",
        );
        let vars = object2("term", Json::Str(input.query.clone()), "first", uint_value(limit as u64));
        self.graphql_request(q.as_str(), vars)
    }

    /// The results of a `search` answer.
    pub fn search_results_from(data: &Json) -> (r: Vec<SearchResult>)
        ensures
            r@.map_values(|s: SearchResult| s@) == data@.at("searchIssues"@).at(
                "nodes"@,
            ).elements().map_values(|n: JsonView| search_result_model(n)),
    {
        map_search_results(field(field(Some(data), "searchIssues"), "nodes"))
    }
}

} // verus!
