//! The platform-independent domain model: issues, projects, teams,
//! comments, search results, pagination and the customer issue filter.

use vstd::prelude::*;
use crate::json::Json;
use crate::text::{is_blank, is_blank_str, owned};

verus! {

// ── Issues ───────────────────────────────────────────

#[derive(Debug, Clone)]
pub struct Issue {
    pub id: String,
    pub identifier: Option<String>,
    pub title: String,
    pub description: Option<String>,
    pub status: Option<String>,
    pub priority: Option<IssuePriority>,
    pub assignee_id: Option<String>,
    pub assignee_name: Option<String>,
    pub project_id: Option<String>,
    pub project_name: Option<String>,
    pub labels: Vec<String>,
    pub created_at: Option<String>,
    pub updated_at: Option<String>,
}

/// The mathematical form of an [`Issue`].
pub struct IssueModel {
    pub id: Seq<char>,
    pub identifier: Option<Seq<char>>,
    pub title: Seq<char>,
    pub description: Option<Seq<char>>,
    pub status: Option<Seq<char>>,
    pub priority: Option<IssuePriority>,
    pub assignee_id: Option<Seq<char>>,
    pub assignee_name: Option<Seq<char>>,
    pub project_id: Option<Seq<char>>,
    pub project_name: Option<Seq<char>>,
    pub labels: Seq<Seq<char>>,
    pub created_at: Option<Seq<char>>,
    pub updated_at: Option<Seq<char>>,
}

impl View for Issue {
    type V = IssueModel;

    open spec fn view(&self) -> IssueModel {
        IssueModel {
            id: self.id@,
            identifier: self.identifier.deep_view(),
            title: self.title@,
            description: self.description.deep_view(),
            status: self.status.deep_view(),
            priority: self.priority,
            assignee_id: self.assignee_id.deep_view(),
            assignee_name: self.assignee_name.deep_view(),
            project_id: self.project_id.deep_view(),
            project_name: self.project_name.deep_view(),
            labels: self.labels.deep_view(),
            created_at: self.created_at.deep_view(),
            updated_at: self.updated_at.deep_view(),
        }
    }
}

/// An issue as a customer may see it.
#[derive(Debug, Clone)]
pub struct CustomerIssueView {
    pub platform: String,
    pub identifier: String,
    pub title: String,
    pub state_name: String,
    pub state_type: String,
    pub assignee_name: Option<String>,
    pub assignee_avatar_url: Option<String>,
    pub labels: Vec<String>,
    pub description: Option<String>,
    pub updated_at: String,
}

/// The mathematical form of a [`CustomerIssueView`].
pub struct CustomerIssueModel {
    pub platform: Seq<char>,
    pub identifier: Seq<char>,
    pub title: Seq<char>,
    pub state_name: Seq<char>,
    pub state_type: Seq<char>,
    pub assignee_name: Option<Seq<char>>,
    pub assignee_avatar_url: Option<Seq<char>>,
    pub labels: Seq<Seq<char>>,
    pub description: Option<Seq<char>>,
    pub updated_at: Seq<char>,
}

impl View for CustomerIssueView {
    type V = CustomerIssueModel;

    open spec fn view(&self) -> CustomerIssueModel {
        CustomerIssueModel {
            platform: self.platform@,
            identifier: self.identifier@,
            title: self.title@,
            state_name: self.state_name@,
            state_type: self.state_type@,
            assignee_name: self.assignee_name.deep_view(),
            assignee_avatar_url: self.assignee_avatar_url.deep_view(),
            labels: self.labels.deep_view(),
            description: self.description.deep_view(),
            updated_at: self.updated_at@,
        }
    }
}

/// Which issues of a customer to list.
#[derive(Debug, Clone)]
pub struct CustomerIssueFilter {
    pub customer_key: String,
    pub project_ids: Vec<String>,
    pub label_names: Vec<String>,
    pub issue_identifiers: Vec<String>,
    pub page: PageRequest,
}

/// The mathematical form of a [`CustomerIssueFilter`].
pub struct CustomerIssueFilterModel {
    pub customer_key: Seq<char>,
    pub project_ids: Seq<Seq<char>>,
    pub label_names: Seq<Seq<char>>,
    pub issue_identifiers: Seq<Seq<char>>,
    pub page: PageRequestModel,
}

impl View for CustomerIssueFilter {
    type V = CustomerIssueFilterModel;

    open spec fn view(&self) -> CustomerIssueFilterModel {
        CustomerIssueFilterModel {
            customer_key: self.customer_key@,
            project_ids: self.project_ids.deep_view(),
            label_names: self.label_names.deep_view(),
            issue_identifiers: self.issue_identifiers.deep_view(),
            page: self.page@,
        }
    }
}

/// The entries of `s` that are not blank, in their order.
pub open spec fn non_blank(s: Seq<Seq<char>>) -> Seq<Seq<char>>
    decreases s.len(),
{
    if s.len() == 0 {
        Seq::empty()
    } else if is_blank(s.last()) {
        non_blank(s.drop_last())
    } else {
        non_blank(s.drop_last()).push(s.last())
    }
}

/// What is kept of a list holds no blank entry.
pub proof fn lemma_non_blank_has_no_blank(s: Seq<Seq<char>>)
    ensures
        forall|i: int| 0 <= i < non_blank(s).len() ==> !is_blank(#[trigger] non_blank(s)[i]),
    decreases s.len(),
{
    if s.len() > 0 {
        lemma_non_blank_has_no_blank(s.drop_last());
        let rest = non_blank(s.drop_last());
        assert forall|i: int| 0 <= i < non_blank(s).len() implies !is_blank(
            #[trigger] non_blank(s)[i],
        ) by {
            if i < rest.len() {
                assert(non_blank(s)[i] == rest[i]);
            }
        }
    }
}

/// A list without blank entries is kept whole.
pub proof fn lemma_non_blank_keeps_clean_list(s: Seq<Seq<char>>)
    requires
        forall|i: int| 0 <= i < s.len() ==> !is_blank(#[trigger] s[i]),
    ensures
        non_blank(s) == s,
    decreases s.len(),
{
    if s.len() > 0 {
        lemma_non_blank_keeps_clean_list(s.drop_last());
        assert(s.drop_last().push(s.last()) =~= s);
    }
}

/// Dropping blank entries twice drops no more than once.
pub proof fn lemma_non_blank_idempotent(s: Seq<Seq<char>>)
    ensures
        non_blank(non_blank(s)) == non_blank(s),
{
    lemma_non_blank_has_no_blank(s);
    lemma_non_blank_keeps_clean_list(non_blank(s));
}

/// The entries of `items` that are not blank, in their order.
pub fn without_blank(items: Vec<String>) -> (r: Vec<String>)
    ensures
        r.deep_view() == non_blank(items.deep_view()),
{
    let ghost all = items.deep_view();
    let mut out: Vec<String> = Vec::new();
    let mut i: usize = 0;
    assert(out.deep_view() =~= non_blank(all.take(0)));
    while i < items.len()
        invariant
            all == items.deep_view(),
            i <= items.len(),
            out.deep_view() == non_blank(all.take(i as int)),
        decreases items.len() - i,
    {
        let ghost before = out.deep_view();
        assert(all.take(i + 1).drop_last() =~= all.take(i as int));
        assert(all.take(i + 1).last() == items[i as int]@);
        if !is_blank_str(items[i].as_str()) {
            out.push(items[i].clone());
            assert(out.deep_view() =~= before.push(items[i as int]@));
        }
        i = i + 1;
    }
    assert(all.take(items.len() as int) =~= all);
    out
}

impl CustomerIssueFilter {
    /// A filter for the customer `customer_key`, with no further
    /// restriction and the default page.
    pub fn new(customer_key: &str) -> (r: Self)
        ensures
            r@.customer_key == customer_key@,
            r@.project_ids.len() == 0,
            r@.label_names.len() == 0,
            r@.issue_identifiers.len() == 0,
            r@.page == default_page(),
    {
        let r = CustomerIssueFilter {
            customer_key: owned(customer_key),
            project_ids: Vec::new(),
            label_names: Vec::new(),
            issue_identifiers: Vec::new(),
            page: PageRequest::default(),
        };
        assert(r@.project_ids.len() == 0);
        r
    }

    /// Restricts the filter to the given projects; blank ids are dropped.
    pub fn with_project_ids(self, project_ids: Vec<String>) -> (r: Self)
        ensures
            r@ == (CustomerIssueFilterModel {
                project_ids: non_blank(project_ids.deep_view()),
                ..self@
            }),
    {
        let mut s = self;
        s.project_ids = without_blank(project_ids);
        s
    }

    /// Restricts the filter to issues with one of the given labels; blank
    /// names are dropped.
    pub fn with_label_names(self, label_names: Vec<String>) -> (r: Self)
        ensures
            r@ == (CustomerIssueFilterModel { label_names: non_blank(label_names.deep_view()), ..self@ }),
    {
        let mut s = self;
        s.label_names = without_blank(label_names);
        s
    }

    /// Restricts the filter to the given issue identifiers; blank ones are
    /// dropped.
    pub fn with_issue_identifiers(self, issue_identifiers: Vec<String>) -> (r: Self)
        ensures
            r@ == (CustomerIssueFilterModel {
                issue_identifiers: non_blank(issue_identifiers.deep_view()),
                ..self@
            }),
    {
        let mut s = self;
        s.issue_identifiers = without_blank(issue_identifiers);
        s
    }

    /// Sets the page to fetch.
    pub fn with_page(self, page: PageRequest) -> (r: Self)
        ensures
            r@ == (CustomerIssueFilterModel { page: page@, ..self@ }),
    {
        let mut s = self;
        s.page = page;
        s
    }
}

impl Default for CustomerIssueFilter {
    fn default() -> (r: Self)
        ensures
            r@.customer_key.len() == 0,
            r@.project_ids.len() == 0,
            r@.label_names.len() == 0,
            r@.issue_identifiers.len() == 0,
            r@.page == default_page(),
    {
        CustomerIssueFilter {
            customer_key: String::new(),
            project_ids: Vec::new(),
            label_names: Vec::new(),
            issue_identifiers: Vec::new(),
            page: PageRequest::default(),
        }
    }
}

/// The priority of an issue.
#[derive(Debug, Clone, Copy, PartialEq, Eq, Structural)]
pub enum IssuePriority {
    NoPriority,
    Urgent,
    High,
    Medium,
    Low,
}

/// The name of a priority.
pub open spec fn priority_name(p: IssuePriority) -> Seq<char> {
    match p {
        IssuePriority::NoPriority => "None"@,
        IssuePriority::Urgent => "Urgent"@,
        IssuePriority::High => "High"@,
        IssuePriority::Medium => "Medium"@,
        IssuePriority::Low => "Low"@,
    }
}

impl IssuePriority {
    /// The name of the priority.
    pub fn to_string(&self) -> (r: String)
        ensures
            r@ == priority_name(*self),
    {
        match self {
            IssuePriority::NoPriority => owned("None"),
            IssuePriority::Urgent => owned("Urgent"),
            IssuePriority::High => owned("High"),
            IssuePriority::Medium => owned("Medium"),
            IssuePriority::Low => owned("Low"),
        }
    }
}

/// The input of an issue creation. `properties` holds extra fields by
/// name.
#[derive(Debug, Clone)]
pub struct CreateIssueRequest {
    pub title: String,
    pub description: Option<String>,
    pub project_id: Option<String>,
    pub assignee_id: Option<String>,
    pub priority: Option<IssuePriority>,
    pub labels: Vec<String>,
    pub properties: Vec<(String, Json)>,
}

impl Default for CreateIssueRequest {
    fn default() -> (r: Self)
        ensures
            r.title@.len() == 0,
            r.description is None,
            r.project_id is None,
            r.assignee_id is None,
            r.priority is None,
            r.labels@.len() == 0,
            r.properties@.len() == 0,
    {
        CreateIssueRequest {
            title: String::new(),
            description: None,
            project_id: None,
            assignee_id: None,
            priority: None,
            labels: Vec::new(),
            properties: Vec::new(),
        }
    }
}

/// The input of an issue update: only the fields that are set change.
/// `properties` holds extra fields by name.
#[derive(Debug, Clone)]
pub struct UpdateIssueRequest {
    pub title: Option<String>,
    pub description: Option<String>,
    pub status: Option<String>,
    pub assignee_id: Option<String>,
    pub priority: Option<IssuePriority>,
    pub labels: Option<Vec<String>>,
    pub properties: Vec<(String, Json)>,
}

impl Default for UpdateIssueRequest {
    fn default() -> (r: Self)
        ensures
            r.title is None,
            r.description is None,
            r.status is None,
            r.assignee_id is None,
            r.priority is None,
            r.labels is None,
            r.properties@.len() == 0,
    {
        UpdateIssueRequest {
            title: None,
            description: None,
            status: None,
            assignee_id: None,
            priority: None,
            labels: None,
            properties: Vec::new(),
        }
    }
}

// ── Projects ─────────────────────────────────────────

#[derive(Debug, Clone)]
pub struct Project {
    pub id: String,
    pub name: String,
    pub description: Option<String>,
    pub status: Option<String>,
    pub created_at: Option<String>,
    pub updated_at: Option<String>,
}

/// The mathematical form of a [`Project`].
pub struct ProjectModel {
    pub id: Seq<char>,
    pub name: Seq<char>,
    pub description: Option<Seq<char>>,
    pub status: Option<Seq<char>>,
    pub created_at: Option<Seq<char>>,
    pub updated_at: Option<Seq<char>>,
}

impl View for Project {
    type V = ProjectModel;

    open spec fn view(&self) -> ProjectModel {
        ProjectModel {
            id: self.id@,
            name: self.name@,
            description: self.description.deep_view(),
            status: self.status.deep_view(),
            created_at: self.created_at.deep_view(),
            updated_at: self.updated_at.deep_view(),
        }
    }
}

// ── Teams ────────────────────────────────────────────

#[derive(Debug, Clone)]
pub struct Team {
    pub id: String,
    pub name: String,
    pub key: Option<String>,
}

/// The mathematical form of a [`Team`].
pub struct TeamModel {
    pub id: Seq<char>,
    pub name: Seq<char>,
    pub key: Option<Seq<char>>,
}

impl View for Team {
    type V = TeamModel;

    open spec fn view(&self) -> TeamModel {
        TeamModel { id: self.id@, name: self.name@, key: self.key.deep_view() }
    }
}

// ── Comments ─────────────────────────────────────────

#[derive(Debug, Clone)]
pub struct Comment {
    pub id: String,
    pub body: String,
    pub issue_id: Option<String>,
    pub user_name: Option<String>,
    pub created_at: Option<String>,
}

/// The mathematical form of a [`Comment`].
pub struct CommentModel {
    pub id: Seq<char>,
    pub body: Seq<char>,
    pub issue_id: Option<Seq<char>>,
    pub user_name: Option<Seq<char>>,
    pub created_at: Option<Seq<char>>,
}

impl View for Comment {
    type V = CommentModel;

    open spec fn view(&self) -> CommentModel {
        CommentModel {
            id: self.id@,
            body: self.body@,
            issue_id: self.issue_id.deep_view(),
            user_name: self.user_name.deep_view(),
            created_at: self.created_at.deep_view(),
        }
    }
}

#[derive(Debug, Clone)]
pub struct CreateCommentRequest {
    pub body: String,
}

// ── Search ───────────────────────────────────────────

#[derive(Debug, Clone)]
pub struct SearchRequest {
    pub query: String,
    pub limit: Option<u32>,
}

#[derive(Debug, Clone)]
pub struct SearchResult {
    pub id: String,
    pub identifier: Option<String>,
    pub title: String,
    pub status: Option<String>,
}

/// The mathematical form of a [`SearchResult`].
pub struct SearchResultModel {
    pub id: Seq<char>,
    pub identifier: Option<Seq<char>>,
    pub title: Seq<char>,
    pub status: Option<Seq<char>>,
}

impl View for SearchResult {
    type V = SearchResultModel;

    open spec fn view(&self) -> SearchResultModel {
        SearchResultModel {
            id: self.id@,
            identifier: self.identifier.deep_view(),
            title: self.title@,
            status: self.status.deep_view(),
        }
    }
}

// ── Pagination ───────────────────────────────────────

#[derive(Debug, Clone)]
pub struct PageRequest {
    pub limit: Option<u32>,
    pub offset: Option<u32>,
    pub after: Option<String>,
}

/// The mathematical form of a [`PageRequest`].
pub struct PageRequestModel {
    pub limit: Option<u32>,
    pub offset: Option<u32>,
    pub after: Option<Seq<char>>,
}

impl View for PageRequest {
    type V = PageRequestModel;

    open spec fn view(&self) -> PageRequestModel {
        PageRequestModel { limit: self.limit, offset: self.offset, after: self.after.deep_view() }
    }
}

/// The default page: no limit, no offset, no cursor.
pub open spec fn default_page() -> PageRequestModel {
    PageRequestModel { limit: None, offset: None, after: None }
}

impl Default for PageRequest {
    fn default() -> (r: Self)
        ensures
            r@ == default_page(),
    {
        PageRequest { limit: None, offset: None, after: None }
    }
}

/// The page size asked for: the page's limit, 50 when it has none.
pub open spec fn page_size(limit: Option<u32>) -> u64 {
    match limit {
        Some(n) => n as u64,
        None => 50,
    }
}

/// The page size asked for: the page's limit, 50 when it has none.
pub fn page_limit(page: &PageRequest) -> (r: u32)
    ensures
        r as u64 == page_size(page@.limit),
{
    match page.limit {
        Some(n) => n,
        None => 50,
    }
}

/// The number of search results asked for: the request's limit, 25 when
/// it has none.
pub open spec fn search_size(limit: Option<u32>) -> u64 {
    match limit {
        Some(n) => n as u64,
        None => 25,
    }
}

/// The number of search results asked for: the request's limit, 25 when
/// it has none.
pub fn search_limit(input: &SearchRequest) -> (r: u32)
    ensures
        r as u64 == search_size(input.limit),
{
    match input.limit {
        Some(n) => n,
        None => 25,
    }
}

} // verus!
