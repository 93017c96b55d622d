//! The Asana adapter: REST requests under `{base_url}`, answered with a
//! `data` envelope; this module builds the requests and reads the answers
//! into the domain model (a task is an issue, a workspace or a tag a team,
//! a comment story a comment).

use vstd::prelude::*;
use crate::error::{PmError, PmErrorView, PmResult};
use crate::http::{
    body_view, outcome_view, new_request, parse_error, push_header, HttpMethod, HttpRequest,
    HttpRequestModel, Plan,
};
use crate::json::{
    array, boolean, element, field, field_texts, object1, object2, opt_entry, or_null, str_field, string,
    text, texts_in, views, Json, JsonView, ObjectBuilder, entry_views, opt_json_view,
    entry_value, lemma_entry_value_concat, lemma_opt_entry_value, lemma_single_entry_value,
    string_json, string_field, string_field_or_empty, lemma_field_texts_all_named,
};
use crate::model::{
    Comment, CommentModel, CreateCommentRequest, CreateIssueRequest, IssueModel, Issue,
    PageRequest, Project, ProjectModel, SearchRequest, SearchResult, SearchResultModel, Team,
    TeamModel, UpdateIssueRequest, page_size, page_limit, search_size, search_limit,
};
use crate::text::{
    decimal, digit_char, hex, hex2, owned, push_char, push_decimal, push_hex2, push_str,
    str_equal, to_lowercase, unicode_lowercase,
};

verus! {

/// The address of the Asana API.
pub const ASANA_API_URL: &'static str = "https://app.asana.com/api/1.0";

/// The fields read of a task.
pub const TASK_FIELDS: &'static str = "gid,name,notes,completed,assignee.gid,assignee.name,memberships.project.gid,memberships.project.name,tags.name,created_at,modified_at";

/// The fields read of a project.
pub const PROJECT_FIELDS: &'static str = "gid,name,notes,current_status.text,created_at,modified_at";

/// The fields read of a story.
pub const STORY_FIELDS: &'static str = "gid,text,resource_subtype,created_at,created_by.name";

/// Asana API adapter; authenticates with a personal access token, and
/// works in a workspace when one is set.
pub struct AsanaAdapter {
    token: String,
    base_url: String,
    workspace_gid: Option<String>,
}

/// The settings of an [`AsanaAdapter`].
pub struct AsanaConfig {
    pub token: Seq<char>,
    pub base_url: Seq<char>,
    pub workspace_gid: Option<Seq<char>>,
}

impl View for AsanaAdapter {
    type V = AsanaConfig;

    closed spec fn view(&self) -> AsanaConfig {
        AsanaConfig {
            token: self.token@,
            base_url: self.base_url@,
            workspace_gid: self.workspace_gid.deep_view(),
        }
    }
}

/// The request with `method` to `path`: authorised by the token, asking
/// for JSON, and declaring a JSON body when there is one.
pub open spec fn request_model(
    c: AsanaConfig,
    method: HttpMethod,
    path: Seq<char>,
    body: Option<JsonView>,
) -> HttpRequestModel {
    HttpRequestModel {
        method: method,
        url: c.base_url + path,
        headers: seq![("Authorization"@, "Bearer "@ + c.token), ("Accept"@, "application/json"@)]
            + if body is Some {
            seq![("Content-Type"@, "application/json"@)]
        } else {
            Seq::empty()
        },
        body: body,
    }
}

/// An answer has a body to read unless it is `204 No Content`.
pub open spec fn has_body(status: u16) -> bool {
    status != 204
}

/// What an answer yields: `null` for `204`; otherwise the `data` of the
/// document, or the error it reports (`errors` first, then an error
/// status from 400 on).
pub open spec fn rest_outcome(status: u16, body: Result<JsonView, Seq<char>>) -> Result<
    JsonView,
    PmErrorView,
> {
    if status == 204 {
        Ok(JsonView::Null)
    } else {
        match body {
            Err(m) => Err(PmErrorView::Parse(m)),
            Ok(b) => match b.get("errors"@) {
                Some(errors) => Err(
                    PmErrorView::Api {
                        status: status,
                        message: match errors.at_index(0).at("message"@).as_str() {
                            Some(m) => m,
                            None => "Unknown error"@,
                        },
                    },
                ),
                None => if status >= 400 {
                    Err(
                        PmErrorView::Api {
                            status: status,
                            message: match b.at("message"@).as_str() {
                                Some(m) => m,
                                None => "API error"@,
                            },
                        },
                    )
                } else {
                    match b.get("data"@) {
                        Some(d) => Ok(d),
                        None => Err(PmErrorView::Parse("No data field in response"@)),
                    }
                },
            },
        }
    }
}

/// A `204 No Content` answer yields `null`, whatever was read.
pub proof fn lemma_no_content_is_null(body: Result<JsonView, Seq<char>>)
    ensures
        rest_outcome(204, body) == Ok::<JsonView, PmErrorView>(JsonView::Null),
{
}

/// Reported errors win over the status: an answer with `errors` is an API
/// error with the first error's message, even with a success status.
pub proof fn lemma_rest_errors_reported(status: u16, b: JsonView)
    requires
        status != 204,
        b.get("errors"@) is Some,
    ensures
        rest_outcome(status, Ok(b)) == Err::<JsonView, PmErrorView>(
            PmErrorView::Api {
                status: status,
                message: match b.get("errors"@)->0.at_index(0).at("message"@).as_str() {
                    Some(m) => m,
                    None => "Unknown error"@,
                },
            },
        ),
{
}

/// An error status without `errors` is an API error with the document's
/// `message` (`API error` when it has none), even when it holds `data`.
pub proof fn lemma_rest_error_status(status: u16, b: JsonView)
    requires
        status >= 400,
        b.get("errors"@) is None,
    ensures
        rest_outcome(status, Ok(b)) == Err::<JsonView, PmErrorView>(
            PmErrorView::Api {
                status: status,
                message: match b.at("message"@).as_str() {
                    Some(m) => m,
                    None => "API error"@,
                },
            },
        ),
{
}

/// A success answer yields its `data`, and is a parse error without it.
pub proof fn lemma_rest_success(status: u16, b: JsonView)
    requires
        status != 204,
        status < 400,
        b.get("errors"@) is None,
    ensures
        rest_outcome(status, Ok(b)) == match b.get("data"@) {
            Some(d) => Ok::<JsonView, PmErrorView>(d),
            None => Err(PmErrorView::Parse("No data field in response"@)),
        },
{
}

/// The status of a task: `completed` when its `completed` flag is set,
/// `active` otherwise.
pub open spec fn task_status(v: JsonView) -> Seq<char> {
    if v.at("completed"@).as_bool() == Some(true) {
        "completed"@
    } else {
        "active"@
    }
}

/// The issue that a task describes; a task is in the project of its
/// first membership, and its tags are its labels.
pub open spec fn task_model(v: JsonView) -> IssueModel {
    IssueModel {
        id: v.text_at("gid"@),
        identifier: None,
        title: v.text_at("name"@),
        description: v.at("notes"@).as_str(),
        status: Some(task_status(v)),
        priority: None,
        assignee_id: v.at("assignee"@).at("gid"@).as_str(),
        assignee_name: v.at("assignee"@).at("name"@).as_str(),
        project_id: v.at("memberships"@).at_index(0).at("project"@).at("gid"@).as_str(),
        project_name: v.at("memberships"@).at_index(0).at("project"@).at("name"@).as_str(),
        labels: field_texts(v.at("tags"@).elements(), "name"@),
        created_at: v.at("created_at"@).as_str(),
        updated_at: v.at("modified_at"@).as_str(),
    }
}

/// The project that a node describes.
pub open spec fn project_model(v: JsonView) -> ProjectModel {
    ProjectModel {
        id: v.text_at("gid"@),
        name: v.text_at("name"@),
        description: v.at("notes"@).as_str(),
        status: v.at("current_status"@).at("text"@).as_str(),
        created_at: v.at("created_at"@).as_str(),
        updated_at: v.at("modified_at"@).as_str(),
    }
}

/// The team that a workspace or a tag describes.
pub open spec fn team_model(v: JsonView) -> TeamModel {
    TeamModel { id: v.text_at("gid"@), name: v.text_at("name"@), key: None }
}

/// The comment that a story describes.
pub open spec fn story_model(v: JsonView) -> CommentModel {
    CommentModel {
        id: v.text_at("gid"@),
        body: v.text_at("text"@),
        issue_id: None,
        user_name: v.at("created_by"@).at("name"@).as_str(),
        created_at: v.at("created_at"@).as_str(),
    }
}

/// A story is a comment when its subtype is `comment_added` or `comment`.
pub open spec fn is_comment_story(v: JsonView) -> bool {
    v.at("resource_subtype"@).as_str() == Some("comment_added"@) || v.at(
        "resource_subtype"@,
    ).as_str() == Some("comment"@)
}

/// The comments among the stories, in order.
pub open spec fn comment_models(stories: Seq<JsonView>) -> Seq<CommentModel>
    decreases stories.len(),
{
    if stories.len() == 0 {
        Seq::empty()
    } else {
        let rest = comment_models(stories.drop_last());
        if is_comment_story(stories.last()) {
            rest.push(story_model(stories.last()))
        } else {
            rest
        }
    }
}

/// The search result that a task describes.
pub open spec fn search_result_model(v: JsonView) -> SearchResultModel {
    SearchResultModel {
        id: v.text_at("gid"@),
        identifier: None,
        title: v.text_at("name"@),
        status: Some(task_status(v)),
    }
}

/// A task is read field by field: `gid`, `name`, `notes`, `assignee.gid`,
/// `assignee.name`, the project `gid` and `name` of its first membership,
/// `created_at` and `modified_at`; its status is `completed` exactly when
/// its `completed` flag is `true`, `active` otherwise; it has no
/// identifier and no priority.
pub proof fn lemma_task_reads_fields(v: JsonView)
    ensures
        task_model(v).id == string_field_or_empty(v, "gid"@),
        task_model(v).identifier is None,
        task_model(v).title == string_field_or_empty(v, "name"@),
        task_model(v).description == string_field(v, "notes"@),
        task_model(v).status == Some(
            if v.get("completed"@) == Some(JsonView::Bool(true)) {
                "completed"@
            } else {
                "active"@
            },
        ),
        task_model(v).priority is None,
        task_model(v).assignee_id == string_field(v.at("assignee"@), "gid"@),
        task_model(v).assignee_name == string_field(v.at("assignee"@), "name"@),
        task_model(v).project_id == string_field(
            v.at("memberships"@).at_index(0).at("project"@),
            "gid"@,
        ),
        task_model(v).project_name == string_field(
            v.at("memberships"@).at_index(0).at("project"@),
            "name"@,
        ),
        task_model(v).created_at == string_field(v, "created_at"@),
        task_model(v).updated_at == string_field(v, "modified_at"@),
{
}

/// When every tag of a task has a string `name`, the task's labels are
/// those names, one per tag, in order.
pub proof fn lemma_task_reads_tags(v: JsonView)
    requires
        forall|i: int|
            0 <= i < v.at("tags"@).elements().len() ==> (#[trigger] string_field(
                v.at("tags"@).elements()[i],
                "name"@,
            )) is Some,
    ensures
        task_model(v).labels.len() == v.at("tags"@).elements().len(),
        forall|i: int|
            0 <= i < task_model(v).labels.len() ==> Some(#[trigger] task_model(v).labels[i])
                == string_field(v.at("tags"@).elements()[i], "name"@),
{
    lemma_field_texts_all_named(v.at("tags"@).elements(), "name"@);
}

/// A project is read from `gid`, `name`, `notes`, `current_status.text`,
/// `created_at` and `modified_at`.
pub proof fn lemma_project_reads_fields(v: JsonView)
    ensures
        project_model(v).id == string_field_or_empty(v, "gid"@),
        project_model(v).name == string_field_or_empty(v, "name"@),
        project_model(v).description == string_field(v, "notes"@),
        project_model(v).status == string_field(v.at("current_status"@), "text"@),
        project_model(v).created_at == string_field(v, "created_at"@),
        project_model(v).updated_at == string_field(v, "modified_at"@),
{
}

/// A workspace or tag is read as a team from `gid` and `name`; it has no
/// key.
pub proof fn lemma_team_reads_fields(v: JsonView)
    ensures
        team_model(v).id == string_field_or_empty(v, "gid"@),
        team_model(v).name == string_field_or_empty(v, "name"@),
        team_model(v).key is None,
{
}

/// A story is read as a comment from `gid`, `text`, `created_by.name` and
/// `created_at`; it names no issue.
pub proof fn lemma_story_reads_fields(v: JsonView)
    ensures
        story_model(v).id == string_field_or_empty(v, "gid"@),
        story_model(v).body == string_field_or_empty(v, "text"@),
        story_model(v).issue_id is None,
        story_model(v).user_name == string_field(v.at("created_by"@), "name"@),
        story_model(v).created_at == string_field(v, "created_at"@),
{
}

/// A search result is read from the task's `gid` and `name`, with the
/// task's status.
pub proof fn lemma_search_result_reads_fields(v: JsonView)
    ensures
        search_result_model(v).id == string_field_or_empty(v, "gid"@),
        search_result_model(v).identifier is None,
        search_result_model(v).title == string_field_or_empty(v, "name"@),
        search_result_model(v).status == Some(
            if v.get("completed"@) == Some(JsonView::Bool(true)) {
                "completed"@
            } else {
                "active"@
            },
        ),
{
}

/// A character that stands for itself in a search text: an ASCII letter or
/// digit, `-`, `_`, `.` or `~`.
pub open spec fn is_unreserved(c: char) -> bool {
    ('a' <= c <= 'z') || ('A' <= c <= 'Z') || ('0' <= c <= '9') || c == '-' || c == '_' || c
        == '.' || c == '~'
}

/// How a character is written in a search text: a space as `+`, an
/// unreserved character as itself, any other as `%` and its code point in
/// upper-case hexadecimal, at least two digits.
pub open spec fn encode_char(c: char) -> Seq<char> {
    if c == ' ' {
        seq!['+']
    } else if is_unreserved(c) {
        seq![c]
    } else {
        seq!['%'] + hex2(c as u32 as nat)
    }
}

/// A search text as it is written in the URL.
pub open spec fn encode_query(s: Seq<char>) -> Seq<char>
    decreases s.len(),
{
    if s.len() == 0 {
        Seq::empty()
    } else {
        encode_query(s.drop_last()) + encode_char(s.last())
    }
}

/// A character that may appear in an encoded search text.
pub open spec fn is_url_safe(c: char) -> bool {
    is_unreserved(c) || c == '+' || c == '%'
}

/// A hexadecimal digit is a URL-safe character.
proof fn lemma_digit_safe(d: nat)
    requires
        d < 16,
    ensures
        is_url_safe(digit_char(d)),
{
    let c = digit_char(d);
    if d < 10 {
        assert(c as u32 == d + 48);
        assert('0' <= c <= '9');
    } else {
        assert(c as u32 == d + 55);
        assert('A' <= c <= 'Z');
    }
}

/// Every hexadecimal digit is a URL-safe character.
proof fn lemma_hex_safe(n: nat)
    ensures
        forall|i: int| 0 <= i < hex(n).len() ==> is_url_safe(#[trigger] hex(n)[i]),
    decreases n,
{
    lemma_digit_safe(n % 16);
    if n >= 16 {
        lemma_hex_safe(n / 16);
        let h = hex(n);
        assert(h == hex(n / 16).push(digit_char(n % 16)));
        assert forall|i: int| 0 <= i < h.len() implies is_url_safe(#[trigger] h[i]) by {
            if i < h.len() - 1 {
                assert(h[i] == hex(n / 16)[i]);
            }
        }
    } else {
        assert(n % 16 == n);
        assert(hex(n) == seq![digit_char(n)]);
    }
}

/// The encoding of a search text holds only URL-safe characters: no space,
/// `&`, `=`, `#` or `?` can escape into the URL.
pub proof fn lemma_encoded_query_is_url_safe(s: Seq<char>)
    ensures
        forall|i: int|
            0 <= i < encode_query(s).len() ==> is_url_safe(#[trigger] encode_query(s)[i]),
    decreases s.len(),
{
    if s.len() > 0 {
        lemma_encoded_query_is_url_safe(s.drop_last());
        let c = s.last();
        if c != ' ' && !is_unreserved(c) {
            lemma_hex_safe(c as u32 as nat);
            lemma_digit_safe(0);
            lemma_digit_safe((c as u32 as nat) % 16);
            if (c as u32 as nat) < 16 {
                assert((c as u32 as nat) % 16 == c as u32 as nat);
            }
        }
        let e = encode_query(s);
        assert forall|i: int| 0 <= i < e.len() implies is_url_safe(#[trigger] e[i]) by {
            let pre = encode_query(s.drop_last());
            if i >= pre.len() {
                let k = i - pre.len();
                if c != ' ' && !is_unreserved(c) && k > 0 {
                    let h = hex2(c as u32 as nat);
                    assert(encode_char(c)[k] == h[k - 1]);
                }
            }
        }
    }
}

/// The encoding of two texts one after the other is the encoding of the
/// first followed by that of the second.
pub proof fn lemma_encode_concat(a: Seq<char>, b: Seq<char>)
    ensures
        encode_query(a + b) == encode_query(a) + encode_query(b),
    decreases b.len(),
{
    if b.len() == 0 {
        assert(a + b =~= a);
        assert(encode_query(a) + encode_query(b) =~= encode_query(a));
    } else {
        lemma_encode_concat(a, b.drop_last());
        assert((a + b).drop_last() =~= a + b.drop_last());
        assert((a + b).last() == b.last());
        assert(encode_query(a + b) =~= encode_query(a) + encode_query(b));
    }
}

/// A text of one character is written as that character's encoding.
proof fn lemma_encode_single(c: char)
    ensures
        encode_query(seq![c]) == encode_char(c),
{
    let s = seq![c];
    assert(s.drop_last() =~= Seq::<char>::empty());
    assert(s.last() == c);
    assert(encode_query(s.drop_last()) == Seq::<char>::empty());
    assert(encode_query(s) =~= encode_char(c));
}

/// The character of a character's own code is that character.
proof fn lemma_code_char(c: char, n: nat)
    requires
        n == c as u32,
    ensures
        n as char == c,
{
}

/// An ASCII letter or digit, `-`, `_`, `.` or `~` of a search text is
/// written as itself, and a space as `+`, wherever it stands.
pub proof fn lemma_encode_keeps_plain_chars(a: Seq<char>, c: char, b: Seq<char>)
    ensures
        ('a' <= c <= 'z') || ('A' <= c <= 'Z') || ('0' <= c <= '9') || c == '-' || c == '_'
            || c == '.' || c == '~' ==> encode_query(a + seq![c] + b) == encode_query(a) + seq![c]
            + encode_query(b),
        c == ' ' ==> encode_query(a + seq![c] + b) == encode_query(a) + seq!['+']
            + encode_query(b),
{
    lemma_encode_concat(a + seq![c], b);
    lemma_encode_concat(a, seq![c]);
    lemma_encode_single(c);
}

/// An encoded search text is never shorter than the text.
pub proof fn lemma_encode_not_shorter(s: Seq<char>)
    ensures
        encode_query(s).len() >= s.len(),
    decreases s.len(),
{
    if s.len() > 0 {
        lemma_encode_not_shorter(s.drop_last());
    }
}

/// The value of an upper-case hexadecimal digit.
pub open spec fn hex_digit_value(c: char) -> Option<nat> {
    if '0' <= c <= '9' {
        Some((c as u32 - 48) as nat)
    } else if 'A' <= c <= 'F' {
        Some((c as u32 - 55) as nat)
    } else {
        None
    }
}

/// Decodes a search text as a server reads it: `+` is a space, `%` and
/// two hexadecimal digits is the character of that code, any other
/// character is itself.
pub open spec fn decode_query(e: Seq<char>) -> Seq<char>
    decreases e.len(),
{
    if e.len() == 0 {
        Seq::empty()
    } else if e[0] == '+' {
        seq![' '] + decode_query(e.skip(1))
    } else if e[0] == '%' && e.len() >= 3 && hex_digit_value(e[1]) is Some && hex_digit_value(
        e[2],
    ) is Some {
        seq![(16 * hex_digit_value(e[1])->0 + hex_digit_value(e[2])->0) as char] + decode_query(
            e.skip(3),
        )
    } else {
        seq![e[0]] + decode_query(e.skip(1))
    }
}

proof fn lemma_hex_digit_value(d: nat)
    requires
        d < 16,
    ensures
        hex_digit_value(digit_char(d)) == Some(d),
{
    let c = digit_char(d);
    if d < 10 {
        assert(c as u32 == d + 48);
    } else {
        assert(c as u32 == d + 55);
    }
}

/// Decoding the encoding of a text whose characters all have code points
/// below 256 gives the text back: the encoding loses and changes nothing.
pub proof fn lemma_decode_encode(s: Seq<char>)
    requires
        forall|i: int| 0 <= i < s.len() ==> (#[trigger] s[i] as u32) < 256,
    ensures
        decode_query(encode_query(s)) == s,
    decreases s.len(),
{
    if s.len() > 0 {
        let c = s[0];
        let t = s.skip(1);
        assert(s =~= seq![c] + t);
        lemma_encode_concat(seq![c], t);
        lemma_encode_single(c);
        assert forall|i: int| 0 <= i < t.len() implies (#[trigger] t[i] as u32) < 256 by {
            assert(t[i] == s[i + 1]);
        }
        lemma_decode_encode(t);
        let rest = encode_query(t);
        let e = encode_char(c) + rest;
        assert(encode_query(s) == e);
        if c == ' ' {
            assert(e.skip(1) =~= rest);
        } else if is_unreserved(c) {
            assert(e[0] == c);
            assert(e.skip(1) =~= rest);
        } else {
            let n = c as u32 as nat;
            assert(n < 256);
            let hi = n / 16;
            let lo = n % 16;
            assert(hex2(n) =~= seq![digit_char(hi), digit_char(lo)]) by {
                if n >= 16 {
                    assert(hi < 16);
                    assert(hex(hi) == seq![digit_char(hi)]);
                } else {
                    assert(hi == 0);
                    assert(digit_char(0) == '0');
                }
            }
            lemma_hex_digit_value(hi);
            lemma_hex_digit_value(lo);
            assert(e[0] == '%');
            assert(e[1] == digit_char(hi));
            assert(e[2] == digit_char(lo));
            assert(e.skip(3) =~= rest);
            assert(16 * hi + lo == n);
            lemma_code_char(c, 16 * hi + lo);
        }
        assert(decode_query(e) =~= s);
    }
}

/// Writes a search text for the URL.
pub fn encode_search_text(query: &str) -> (r: String)
    ensures
        r@ == encode_query(query@),
{
    let cs = crate::text::chars_of(query);
    let mut out = String::new();
    let mut i: usize = 0;
    assert(out@ =~= encode_query(cs@.take(0)));
    while i < cs.len()
        invariant
            cs@ == query@,
            i <= cs.len(),
            out@ == encode_query(cs@.take(i as int)),
        decreases cs.len() - i,
    {
        let c = cs[i];
        let ghost before = out@;
        assert(cs@.take(i + 1).drop_last() =~= cs@.take(i as int));
        assert(cs@.take(i + 1).last() == c);
        if c == ' ' {
            push_char(&mut out, '+');
        } else if ('a' <= c && c <= 'z') || ('A' <= c && c <= 'Z') || ('0' <= c && c <= '9') || c
            == '-' || c == '_' || c == '.' || c == '~' {
            push_char(&mut out, c);
        } else {
            push_char(&mut out, '%');
            push_hex2(&mut out, c as u32);
        }
        assert(out@ =~= before + encode_char(c));
        i = i + 1;
    }
    assert(cs@.take(cs.len() as int) =~= cs@);
    out
}

/// Reads a task.
pub fn map_task(v: Option<&Json>) -> (r: Issue)
    ensures
        r@ == task_model(or_null(v)),
{
    let project = field(element(field(v, "memberships"), 0), "project");
    let completed = match boolean(field(v, "completed")) {
        Some(b) => b,
        None => false,
    };
    let status = if completed {
        owned("completed")
    } else {
        owned("active")
    };
    Issue {
        id: str_field(v, "gid"),
        identifier: None,
        title: str_field(v, "name"),
        description: text(field(v, "notes")),
        status: Some(status),
        priority: None,
        assignee_id: text(field(field(v, "assignee"), "gid")),
        assignee_name: text(field(field(v, "assignee"), "name")),
        project_id: text(field(project, "gid")),
        project_name: text(field(project, "name")),
        labels: texts_in(field(v, "tags"), "name"),
        created_at: text(field(v, "created_at")),
        updated_at: text(field(v, "modified_at")),
    }
}

/// Reads a project.
pub fn map_project(v: Option<&Json>) -> (r: Project)
    ensures
        r@ == project_model(or_null(v)),
{
    Project {
        id: str_field(v, "gid"),
        name: str_field(v, "name"),
        description: text(field(v, "notes")),
        status: text(field(field(v, "current_status"), "text")),
        created_at: text(field(v, "created_at")),
        updated_at: text(field(v, "modified_at")),
    }
}

/// Reads a workspace as a team.
pub fn map_workspace(v: Option<&Json>) -> (r: Team)
    ensures
        r@ == team_model(or_null(v)),
{
    Team { id: str_field(v, "gid"), name: str_field(v, "name"), key: None }
}

/// Reads a tag as a team.
pub fn map_tag(v: Option<&Json>) -> (r: Team)
    ensures
        r@ == team_model(or_null(v)),
{
    Team { id: str_field(v, "gid"), name: str_field(v, "name"), key: None }
}

/// Reads a story as a comment.
pub fn map_story(v: Option<&Json>) -> (r: Comment)
    ensures
        r@ == story_model(or_null(v)),
{
    Comment {
        id: str_field(v, "gid"),
        body: str_field(v, "text"),
        issue_id: None,
        user_name: text(field(field(v, "created_by"), "name")),
        created_at: text(field(v, "created_at")),
    }
}

/// Reads a task as a search result.
pub fn map_search_result(v: Option<&Json>) -> (r: SearchResult)
    ensures
        r@ == search_result_model(or_null(v)),
{
    let completed = match boolean(field(v, "completed")) {
        Some(b) => b,
        None => false,
    };
    SearchResult {
        id: str_field(v, "gid"),
        identifier: None,
        title: str_field(v, "name"),
        status: Some(
            if completed {
                owned("completed")
            } else {
                owned("active")
            },
        ),
    }
}

/// Whether a story is a comment.
pub fn is_comment(v: Option<&Json>) -> (r: bool)
    ensures
        r == is_comment_story(or_null(v)),
{
    match text(field(v, "resource_subtype")) {
        Some(s) => str_equal(s.as_str(), "comment_added") || str_equal(s.as_str(), "comment"),
        None => false,
    }
}

/// The text `&{name}={value}` when the value is present; nothing otherwise.
pub open spec fn opt_param(name: Seq<char>, value: Option<Seq<char>>) -> Seq<char> {
    match value {
        Some(v) => "&"@ + name + "="@ + v,
        None => Seq::empty(),
    }
}

/// Appends `&{name}={value}` when the value is present.
fn push_opt_param(s: &mut String, name: &str, value: &Option<String>)
    ensures
        final(s)@ == old(s)@ + opt_param(name@, value.deep_view()),
{
    let ghost start = s@;
    match value {
        Some(v) => {
            push_str(s, "&");
            push_str(s, name);
            push_str(s, "=");
            push_str(s, v.as_str());
            assert(s@ =~= start + opt_param(name@, value.deep_view()));
        },
        None => {
            assert(s@ =~= start + opt_param(name@, value.deep_view()));
        },
    }
}

/// The text `{a}{b}{c}{d}`.
fn concat4(a: &str, b: &str, c: &str, d: &str) -> (r: String)
    ensures
        r@ == a@ + b@ + c@ + d@,
{
    let mut s = owned(a);
    push_str(&mut s, b);
    push_str(&mut s, c);
    push_str(&mut s, d);
    s
}

/// The `{"data": ...}` envelope of a request body.
pub open spec fn envelope(fields: Seq<(Seq<char>, JsonView)>) -> JsonView {
    JsonView::Object(seq![("data"@, JsonView::Object(fields))])
}

/// The workspace of the adapter, or an empty text.
pub open spec fn workspace_or_empty(c: AsanaConfig) -> Seq<char> {
    match c.workspace_gid {
        Some(w) => w,
        None => Seq::empty(),
    }
}

/// The view of an optional borrowed text.
pub open spec fn opt_str_view(s: Option<&str>) -> Option<Seq<char>> {
    match s {
        Some(t) => Some(t@),
        None => None,
    }
}

/// The fields of a task creation: the name, then the notes, the adapter's
/// workspace, the project (as a one-element list) and the assignee, each
/// when present.
pub open spec fn task_create_fields(
    c: AsanaConfig,
    title: Seq<char>,
    description: Option<Seq<char>>,
    project_id: Option<Seq<char>>,
    assignee_id: Option<Seq<char>>,
) -> Seq<(Seq<char>, JsonView)> {
    seq![("name"@, JsonView::Str(title))] + opt_entry("notes"@, description) + opt_entry(
        "workspace"@,
        c.workspace_gid,
    ) + match project_id {
        Some(p) => seq![("projects"@, JsonView::Array(seq![JsonView::Str(p)]))],
        None => Seq::empty(),
    } + opt_entry("assignee"@, assignee_id)
}

/// The fields of a task update: the name, the notes, the completion (set
/// when the status lower-cases to `completed`, cleared for any other
/// status) and the assignee, each when present.
pub open spec fn task_update_fields(
    title: Option<Seq<char>>,
    description: Option<Seq<char>>,
    status: Option<Seq<char>>,
    assignee_id: Option<Seq<char>>,
) -> Seq<(Seq<char>, JsonView)> {
    opt_entry("name"@, title) + opt_entry("notes"@, description) + match status {
        Some(st) => seq![("completed"@, JsonView::Bool(unicode_lowercase(st) == "completed"@))],
        None => Seq::empty(),
    } + opt_entry("assignee"@, assignee_id)
}

/// The completion entry of an update: present exactly when a status is
/// given.
proof fn lemma_completed_entry_value(status: Option<Seq<char>>, key: Seq<char>)
    ensures
        entry_value(
            match status {
                Some(st) => seq![("completed"@, JsonView::Bool(unicode_lowercase(st) == "completed"@))],
                None => Seq::empty(),
            },
            key,
        ) == if key == "completed"@ {
            match status {
                Some(st) => Some(JsonView::Bool(unicode_lowercase(st) == "completed"@)),
                None => None,
            }
        } else {
            None
        },
{
    if let Some(st) = status {
        let e = seq![("completed"@, JsonView::Bool(unicode_lowercase(st) == "completed"@))];
        assert(e.drop_first() =~= Seq::<(Seq<char>, JsonView)>::empty());
        assert(entry_value(e.drop_first(), key) is None);
    } else {
        assert(entry_value(Seq::<(Seq<char>, JsonView)>::empty(), key) is None);
    }
}

/// An update sends each field that is set, under its Asana name, and no
/// field that is not: the title as `name`, the description as `notes`,
/// the assignee as `assignee`, and for a status the flag `completed`,
/// set exactly when the status in lower case is `completed`.
pub proof fn lemma_task_update_sends_set_fields(
    title: Option<Seq<char>>,
    description: Option<Seq<char>>,
    status: Option<Seq<char>>,
    assignee_id: Option<Seq<char>>,
)
    ensures
        envelope(task_update_fields(title, description, status, assignee_id)).at("data"@).get(
            "name"@,
        ) == string_json(title),
        envelope(task_update_fields(title, description, status, assignee_id)).at("data"@).get(
            "notes"@,
        ) == string_json(description),
        envelope(task_update_fields(title, description, status, assignee_id)).at("data"@).get(
            "assignee"@,
        ) == string_json(assignee_id),
        envelope(task_update_fields(title, description, status, assignee_id)).at("data"@).get(
            "completed"@,
        ) == match status {
            Some(st) => Some(JsonView::Bool(unicode_lowercase(st) == "completed"@)),
            None => None,
        },
{
    reveal_strlit("name");
    reveal_strlit("notes");
    reveal_strlit("completed");
    reveal_strlit("assignee");
    reveal_strlit("data");
    let a = opt_entry("name"@, title);
    let b = opt_entry("notes"@, description);
    let c = match status {
        Some(st) => seq![("completed"@, JsonView::Bool(unicode_lowercase(st) == "completed"@))],
        None => Seq::empty(),
    };
    let d = opt_entry("assignee"@, assignee_id);
    let f = task_update_fields(title, description, status, assignee_id);
    assert(f == a + b + c + d);
    assert(envelope(f).at("data"@) == JsonView::Object(f));
    let keys = seq!["name"@, "notes"@, "completed"@, "assignee"@];
    assert forall|i: int| 0 <= i < 4 implies entry_value(f, #[trigger] keys[i]) == match entry_value(
        a,
        keys[i],
    ) {
        Some(x) => Some(x),
        None => match entry_value(b, keys[i]) {
            Some(x) => Some(x),
            None => match entry_value(c, keys[i]) {
                Some(x) => Some(x),
                None => entry_value(d, keys[i]),
            },
        },
    } by {
        lemma_entry_value_concat(a + b + c, d, keys[i]);
        lemma_entry_value_concat(a + b, c, keys[i]);
        lemma_entry_value_concat(a, b, keys[i]);
    }
    assert("name"@.len() == 4 && "notes"@.len() == 5 && "completed"@.len() == 9
        && "assignee"@.len() == 8);
    assert("name"@ != "notes"@ && "name"@ != "completed"@ && "name"@ != "assignee"@);
    assert("notes"@ != "completed"@ && "notes"@ != "assignee"@ && "completed"@ != "assignee"@);
    assert(keys[0] == "name"@);
    assert(keys[1] == "notes"@);
    assert(keys[2] == "completed"@);
    assert(keys[3] == "assignee"@);
    lemma_opt_entry_value("name"@, title, "name"@);
    lemma_opt_entry_value("notes"@, description, "name"@);
    lemma_completed_entry_value(status, "name"@);
    lemma_opt_entry_value("assignee"@, assignee_id, "name"@);
    lemma_opt_entry_value("name"@, title, "notes"@);
    lemma_opt_entry_value("notes"@, description, "notes"@);
    lemma_completed_entry_value(status, "notes"@);
    lemma_opt_entry_value("assignee"@, assignee_id, "notes"@);
    lemma_opt_entry_value("name"@, title, "completed"@);
    lemma_opt_entry_value("notes"@, description, "completed"@);
    lemma_completed_entry_value(status, "completed"@);
    lemma_opt_entry_value("assignee"@, assignee_id, "completed"@);
    lemma_opt_entry_value("name"@, title, "assignee"@);
    lemma_opt_entry_value("notes"@, description, "assignee"@);
    lemma_completed_entry_value(status, "assignee"@);
    lemma_opt_entry_value("assignee"@, assignee_id, "assignee"@);
}

/// A task creation sends the title as `name`, and each other field that is
/// set under its Asana name: the description as `notes`, the adapter's
/// workspace as `workspace`, the project as the one-element list
/// `projects`, the assignee as `assignee`; no field that is not set.
pub proof fn lemma_task_create_sends_set_fields(
    c: AsanaConfig,
    title: Seq<char>,
    description: Option<Seq<char>>,
    project_id: Option<Seq<char>>,
    assignee_id: Option<Seq<char>>,
)
    ensures
        envelope(task_create_fields(c, title, description, project_id, assignee_id)).at(
            "data"@,
        ).get("name"@) == Some(JsonView::Str(title)),
        envelope(task_create_fields(c, title, description, project_id, assignee_id)).at(
            "data"@,
        ).get("notes"@) == string_json(description),
        envelope(task_create_fields(c, title, description, project_id, assignee_id)).at(
            "data"@,
        ).get("workspace"@) == string_json(c.workspace_gid),
        envelope(task_create_fields(c, title, description, project_id, assignee_id)).at(
            "data"@,
        ).get("projects"@) == match project_id {
            Some(p) => Some(JsonView::Array(seq![JsonView::Str(p)])),
            None => None,
        },
        envelope(task_create_fields(c, title, description, project_id, assignee_id)).at(
            "data"@,
        ).get("assignee"@) == string_json(assignee_id),
{
    reveal_strlit("name");
    reveal_strlit("notes");
    reveal_strlit("workspace");
    reveal_strlit("projects");
    reveal_strlit("assignee");
    let a = seq![("name"@, JsonView::Str(title))];
    let b = opt_entry("notes"@, description);
    let w = opt_entry("workspace"@, c.workspace_gid);
    let p = match project_id {
        Some(pid) => seq![("projects"@, JsonView::Array(seq![JsonView::Str(pid)]))],
        None => Seq::empty(),
    };
    let d = opt_entry("assignee"@, assignee_id);
    let f = task_create_fields(c, title, description, project_id, assignee_id);
    assert(f == a + b + w + p + d);
    assert(envelope(f).at("data"@) == JsonView::Object(f));
    assert("projects"@[0] != "assignee"@[0]);
    assert("name"@.len() == 4 && "notes"@.len() == 5 && "workspace"@.len() == 9
        && "projects"@.len() == 8 && "assignee"@.len() == 8);
    let keys = seq!["name"@, "notes"@, "workspace"@, "projects"@, "assignee"@];
    assert forall|i: int| 0 <= i < 5 implies entry_value(f, #[trigger] keys[i]) == match entry_value(
        a,
        keys[i],
    ) {
        Some(x) => Some(x),
        None => match entry_value(b, keys[i]) {
            Some(x) => Some(x),
            None => match entry_value(w, keys[i]) {
                Some(x) => Some(x),
                None => match entry_value(p, keys[i]) {
                    Some(x) => Some(x),
                    None => entry_value(d, keys[i]),
                },
            },
        },
    } by {
        lemma_entry_value_concat(a + b + w + p, d, keys[i]);
        lemma_entry_value_concat(a + b + w, p, keys[i]);
        lemma_entry_value_concat(a + b, w, keys[i]);
        lemma_entry_value_concat(a, b, keys[i]);
        lemma_single_entry_value("name"@, JsonView::Str(title), keys[i]);
        lemma_opt_entry_value("notes"@, description, keys[i]);
        lemma_opt_entry_value("workspace"@, c.workspace_gid, keys[i]);
        lemma_opt_entry_value("assignee"@, assignee_id, keys[i]);
        if let Some(pid) = project_id {
            lemma_single_entry_value(
                "projects"@,
                JsonView::Array(seq![JsonView::Str(pid)]),
                keys[i],
            );
        } else {
            assert(entry_value(p, keys[i]) is None);
        }
    }
    assert(keys[0] == "name"@);
    assert(keys[1] == "notes"@);
    assert(keys[2] == "workspace"@);
    assert(keys[3] == "projects"@);
    assert(keys[4] == "assignee"@);
    assert forall|i: int| 0 <= i < 5 implies {
        &&& entry_value(a, #[trigger] keys[i]) == if "name"@ == keys[i] {
            Some(JsonView::Str(title))
        } else {
            None
        }
        &&& entry_value(b, keys[i]) == if "notes"@ == keys[i] {
            string_json(description)
        } else {
            None
        }
        &&& entry_value(w, keys[i]) == if "workspace"@ == keys[i] {
            string_json(c.workspace_gid)
        } else {
            None
        }
        &&& entry_value(p, keys[i]) == if "projects"@ == keys[i] {
            match project_id {
                Some(pid) => Some(JsonView::Array(seq![JsonView::Str(pid)])),
                None => None,
            }
        } else {
            None
        }
        &&& entry_value(d, keys[i]) == if "assignee"@ == keys[i] {
            string_json(assignee_id)
        } else {
            None
        }
    } by {
        lemma_single_entry_value("name"@, JsonView::Str(title), keys[i]);
        lemma_opt_entry_value("notes"@, description, keys[i]);
        lemma_opt_entry_value("workspace"@, c.workspace_gid, keys[i]);
        lemma_opt_entry_value("assignee"@, assignee_id, keys[i]);
        if let Some(pid) = project_id {
            lemma_single_entry_value(
                "projects"@,
                JsonView::Array(seq![JsonView::Str(pid)]),
                keys[i],
            );
        } else {
            assert(entry_value(p, keys[i]) is None);
        }
    }
    assert("name"@ != "notes"@ && "name"@ != "workspace"@ && "name"@ != "projects"@
        && "name"@ != "assignee"@);
    assert("notes"@ != "workspace"@ && "notes"@ != "projects"@ && "notes"@ != "assignee"@);
    assert("workspace"@ != "projects"@ && "workspace"@ != "assignee"@);
    assert("projects"@ != "assignee"@);
}

/// A project creation sends the name as `name`, the adapter's workspace
/// (an empty text when it has none) as `workspace`, and the notes as
/// `notes` when they are given.
pub proof fn lemma_project_create_sends_fields(
    c: AsanaConfig,
    name: Seq<char>,
    notes: Option<Seq<char>>,
)
    ensures
        envelope(project_create_fields(c, name, notes)).at("data"@).get("name"@) == Some(
            JsonView::Str(name),
        ),
        envelope(project_create_fields(c, name, notes)).at("data"@).get("workspace"@) == Some(
            JsonView::Str(
                match c.workspace_gid {
                    Some(w) => w,
                    None => Seq::empty(),
                },
            ),
        ),
        envelope(project_create_fields(c, name, notes)).at("data"@).get("notes"@)
            == string_json(notes),
{
    reveal_strlit("name");
    reveal_strlit("notes");
    reveal_strlit("workspace");
    let ws = JsonView::Str(workspace_or_empty(c));
    let a = seq![("name"@, JsonView::Str(name))];
    let w = seq![("workspace"@, ws)];
    let n = opt_entry("notes"@, notes);
    let f = project_create_fields(c, name, notes);
    assert(f =~= a + w + n);
    assert(envelope(f).at("data"@) == JsonView::Object(f));
    assert("name"@.len() == 4 && "notes"@.len() == 5 && "workspace"@.len() == 9);
    let keys = seq!["name"@, "workspace"@, "notes"@];
    assert forall|i: int| 0 <= i < 3 implies entry_value(f, #[trigger] keys[i]) == match entry_value(
        a,
        keys[i],
    ) {
        Some(x) => Some(x),
        None => match entry_value(w, keys[i]) {
            Some(x) => Some(x),
            None => entry_value(n, keys[i]),
        },
    } by {
        lemma_entry_value_concat(a + w, n, keys[i]);
        lemma_entry_value_concat(a, w, keys[i]);
        lemma_single_entry_value("name"@, JsonView::Str(name), keys[i]);
        lemma_single_entry_value("workspace"@, ws, keys[i]);
        lemma_opt_entry_value("notes"@, notes, keys[i]);
    }
    assert(keys[0] == "name"@);
    assert(keys[1] == "workspace"@);
    assert(keys[2] == "notes"@);
    assert forall|i: int| 0 <= i < 3 implies {
        &&& entry_value(a, #[trigger] keys[i]) == if "name"@ == keys[i] {
            Some(JsonView::Str(name))
        } else {
            None
        }
        &&& entry_value(w, keys[i]) == if "workspace"@ == keys[i] {
            Some(ws)
        } else {
            None
        }
        &&& entry_value(n, keys[i]) == if "notes"@ == keys[i] {
            string_json(notes)
        } else {
            None
        }
    } by {
        lemma_single_entry_value("name"@, JsonView::Str(name), keys[i]);
        lemma_single_entry_value("workspace"@, ws, keys[i]);
        lemma_opt_entry_value("notes"@, notes, keys[i]);
    }
    assert("name"@ != "notes"@ && "name"@ != "workspace"@ && "notes"@ != "workspace"@);
}

/// The fields of a project creation: name, workspace (empty when the
/// adapter has none), and the notes when present.
pub open spec fn project_create_fields(
    c: AsanaConfig,
    name: Seq<char>,
    notes: Option<Seq<char>>,
) -> Seq<(Seq<char>, JsonView)> {
    seq![("name"@, JsonView::Str(name)), ("workspace"@, JsonView::Str(workspace_or_empty(c)))]
        + opt_entry("notes"@, notes)
}

/// The models of the teams that a list of workspaces or tags describes.
pub open spec fn team_models(items: Seq<JsonView>) -> Seq<TeamModel> {
    items.map_values(|n: JsonView| team_model(n))
}

/// Adds `key: value` for an optional borrowed text.
fn insert_opt_str(b: &mut ObjectBuilder, key: &str, value: Option<&str>)
    ensures
        entry_views(final(b).entries@) == entry_views(old(b).entries@) + opt_entry(
            key@,
            opt_str_view(value),
        ),
{
    let ghost before = entry_views(b.entries@);
    match value {
        Some(v) => {
            b.insert(key, string(v));
            assert(entry_views(b.entries@) =~= before + opt_entry(key@, opt_str_view(value)));
        },
        None => {
            assert(entry_views(b.entries@) =~= before + opt_entry(key@, opt_str_view(value)));
        },
    }
}

/// Reads a list of teams (workspaces or tags).
fn map_teams(data: &Json) -> (r: Vec<Team>)
    ensures
        r@.map_values(|t: Team| t@) == team_models(data@.elements()),
{
    let mut out: Vec<Team> = Vec::new();
    match array(Some(data)) {
        Some(a) => {
            let ghost all = views(a@);
            let mut i: usize = 0;
            while i < a.len()
                invariant
                    all == views(a@),
                    i <= a.len(),
                    out@.len() == i,
                    forall|j: int| 0 <= j < i ==> #[trigger] out@[j]@ == team_model(all[j]),
                decreases a.len() - i,
            {
                out.push(map_tag(Some(&a[i])));
                i = i + 1;
            }
        },
        None => {},
    }
    assert(out@.map_values(|t: Team| t@) =~= team_models(data@.elements()));
    out
}

impl AsanaAdapter {
    /// An adapter for the Asana API at its public address, with no
    /// workspace.
    pub fn new(token: &str) -> (r: Self)
        ensures
            r@ == (AsanaConfig { token: token@, base_url: ASANA_API_URL@, workspace_gid: None }),
    {
        AsanaAdapter { token: owned(token), base_url: owned(ASANA_API_URL), workspace_gid: None }
    }

    /// The same adapter, talking to the API at `url`.
    pub fn with_base_url(self, url: String) -> (r: Self)
        ensures
            r@ == (AsanaConfig { base_url: url@, ..self@ }),
    {
        AsanaAdapter { token: self.token, base_url: url, workspace_gid: self.workspace_gid }
    }

    /// The same adapter, working in the workspace `workspace_gid`.
    pub fn with_workspace(self, workspace_gid: String) -> (r: Self)
        ensures
            r@ == (AsanaConfig { workspace_gid: Some(workspace_gid@), ..self@ }),
    {
        AsanaAdapter { token: self.token, base_url: self.base_url, workspace_gid: Some(workspace_gid) }
    }

    /// The platform identifier.
    pub fn platform(&self) -> (r: &'static str)
        ensures
            r@ == "asana"@,
    {
        "asana"
    }

    /// The request with `method` to `path`, with an optional JSON body.
    pub fn request(&self, method: HttpMethod, path: String, body: Option<Json>) -> (r: HttpRequest)
        ensures
            r@ == request_model(self@, method, path@, opt_json_view(body)),
    {
        let url = crate::text::concat(self.base_url.as_str(), path.as_str());
        let has = body.is_some();
        let mut r = new_request(method, url, body);
        let auth = crate::text::concat("Bearer ", self.token.as_str());
        push_header(&mut r.headers, "Authorization", auth.as_str());
        push_header(&mut r.headers, "Accept", "application/json");
        if has {
            push_header(&mut r.headers, "Content-Type", "application/json");
        }
        assert(r@.headers =~= request_model(self@, method, path@, opt_json_view(body)).headers);
        r
    }

    /// Whether an answer with `status` has a body to read.
    pub fn body_expected(status: u16) -> (r: bool)
        ensures
            r == has_body(status),
    {
        status != 204
    }

    /// What an answer yields: `body` is the document as read, or the
    /// reason it could not be read (it is not looked at for `204`).
    pub fn response(status: u16, body: Result<Json, String>) -> (r: PmResult<Json>)
        ensures
            outcome_view(r) == rest_outcome(status, body_view(body)),
    {
        if status == 204 {
            return Ok(Json::Null);
        }
        match body {
            Err(m) => Err(PmError::Parse(m)),
            Ok(b) => {
                let error = match b.get("errors") {
                    Some(errors) => Some(
                        match text(field(element(Some(errors), 0), "message")) {
                            Some(m) => m,
                            None => owned("Unknown error"),
                        },
                    ),
                    None => if status >= 400 {
                        Some(
                            match text(field(Some(&b), "message")) {
                                Some(m) => m,
                                None => owned("API error"),
                            },
                        )
                    } else {
                        None
                    },
                };
                match error {
                    Some(m) => Err(PmError::Api { status, message: m }),
                    None => match b.take("data") {
                        Some(d) => Ok(d),
                        None => Err(parse_error("No data field in response")),
                    },
                }
            },
        }
    }

    /// The request of `list_tags`.
    pub fn list_tags_request(&self, page: &PageRequest) -> (r: HttpRequest)
        ensures
            r@ == request_model(
                self@,
                HttpMethod::Get,
                "/tags?limit="@ + decimal(page_size(page@.limit) as nat) + "&opt_fields=gid,name"@
                    + opt_param("workspace"@, self@.workspace_gid),
                None,
            ),
    {
        let mut path = owned("/tags?limit=");
        push_decimal(&mut path, page_limit(page) as u64);
        push_str(&mut path, "&opt_fields=gid,name");
        push_opt_param(&mut path, "workspace", &self.workspace_gid);
        self.request(HttpMethod::Get, path, None)
    }

    /// The tags of a `list_tags` answer.
    pub fn tags_from(data: &Json) -> (r: Vec<Team>)
        ensures
            r@.map_values(|t: Team| t@) == team_models(data@.elements()),
    {
        map_teams(data)
    }

    /// The request of `get_tag`.
    pub fn get_tag_request(&self, tag_gid: &str) -> (r: HttpRequest)
        ensures
            r@ == request_model(
                self@,
                HttpMethod::Get,
                "/tags/"@ + tag_gid@ + "?opt_fields=gid,name"@,
                None,
            ),
    {
        let path = crate::text::concat3("/tags/", tag_gid, "?opt_fields=gid,name");
        self.request(HttpMethod::Get, path, None)
    }

    /// The tag of a `get_tag` or `create_tag` answer.
    pub fn tag_from(data: &Json) -> (r: Team)
        ensures
            r@ == team_model(data@),
    {
        map_tag(Some(data))
    }

    /// The request of `create_tag`: the tag is created in the adapter's
    /// workspace (an empty one when none is set).
    pub fn create_tag_request(&self, name: &str) -> (r: HttpRequest)
        ensures
            r@ == request_model(
                self@,
                HttpMethod::Post,
                "/tags"@,
                Some(
                    envelope(
                        seq![
                            ("name"@, JsonView::Str(name@)),
                            ("workspace"@, JsonView::Str(workspace_or_empty(self@))),
                        ],
                    ),
                ),
            ),
    {
        let workspace = match &self.workspace_gid {
            Some(w) => w.clone(),
            None => String::new(),
        };
        let body = object1("data", object2("name", string(name), "workspace", Json::Str(workspace)));
        self.request(HttpMethod::Post, owned("/tags"), Some(body))
    }

    /// The request of `delete_tag`.
    pub fn delete_tag_request(&self, tag_gid: &str) -> (r: HttpRequest)
        ensures
            r@ == request_model(self@, HttpMethod::Delete, "/tags/"@ + tag_gid@, None),
    {
        self.request(HttpMethod::Delete, crate::text::concat("/tags/", tag_gid), None)
    }

    /// The request of `create_project`.
    pub fn create_project_request(&self, name: &str, notes: Option<&str>) -> (r: HttpRequest)
        ensures
            r@ == request_model(
                self@,
                HttpMethod::Post,
                "/projects?opt_fields="@ + PROJECT_FIELDS@,
                Some(envelope(project_create_fields(self@, name@, opt_str_view(notes)))),
            ),
    {
        let workspace = match &self.workspace_gid {
            Some(w) => w.clone(),
            None => String::new(),
        };
        let mut obj = ObjectBuilder::new();
        obj.insert("name", string(name));
        obj.insert("workspace", Json::Str(workspace));
        insert_opt_str(&mut obj, "notes", notes);
        let obj = obj.build();
        assert(obj@->Object_0 =~= project_create_fields(self@, name@, opt_str_view(notes)));
        let path = crate::text::concat("/projects?opt_fields=", PROJECT_FIELDS);
        self.request(HttpMethod::Post, path, Some(object1("data", obj)))
    }

    /// The request of `update_project`: only the given fields are sent.
    pub fn update_project_request(
        &self,
        project_gid: &str,
        name: Option<&str>,
        notes: Option<&str>,
    ) -> (r: HttpRequest)
        ensures
            r@ == request_model(
                self@,
                HttpMethod::Put,
                "/projects/"@ + project_gid@ + "?opt_fields="@ + PROJECT_FIELDS@,
                Some(
                    envelope(
                        opt_entry("name"@, opt_str_view(name)) + opt_entry(
                            "notes"@,
                            opt_str_view(notes),
                        ),
                    ),
                ),
            ),
    {
        let mut obj = ObjectBuilder::new();
        insert_opt_str(&mut obj, "name", name);
        insert_opt_str(&mut obj, "notes", notes);
        let obj = obj.build();
        assert(obj@->Object_0 =~= opt_entry("name"@, opt_str_view(name)) + opt_entry(
            "notes"@,
            opt_str_view(notes),
        ));
        let path = concat4("/projects/", project_gid, "?opt_fields=", PROJECT_FIELDS);
        self.request(HttpMethod::Put, path, Some(object1("data", obj)))
    }

    /// The request of `delete_project`.
    pub fn delete_project_request(&self, project_gid: &str) -> (r: HttpRequest)
        ensures
            r@ == request_model(self@, HttpMethod::Delete, "/projects/"@ + project_gid@, None),
    {
        self.request(HttpMethod::Delete, crate::text::concat("/projects/", project_gid), None)
    }

    /// The request of `list_issues`: tasks of the workspace when one is
    /// set, continuing after the page's cursor when it has one.
    pub fn list_issues_request(&self, page: &PageRequest) -> (r: HttpRequest)
        ensures
            r@ == request_model(
                self@,
                HttpMethod::Get,
                "/tasks?limit="@ + decimal(page_size(page@.limit) as nat) + "&opt_fields="@
                    + TASK_FIELDS@ + opt_param("workspace"@, self@.workspace_gid) + opt_param(
                    "offset"@,
                    page@.after,
                ),
                None,
            ),
    {
        let mut path = owned("/tasks?limit=");
        push_decimal(&mut path, page_limit(page) as u64);
        push_str(&mut path, "&opt_fields=");
        push_str(&mut path, TASK_FIELDS);
        push_opt_param(&mut path, "workspace", &self.workspace_gid);
        push_opt_param(&mut path, "offset", &page.after);
        self.request(HttpMethod::Get, path, None)
    }

    /// The issues of a `list_issues` answer.
    pub fn tasks_from(data: &Json) -> (r: Vec<Issue>)
        ensures
            r@.map_values(|i: Issue| i@) == data@.elements().map_values(
                |n: JsonView| task_model(n),
            ),
    {
        let mut out: Vec<Issue> = Vec::new();
        match array(Some(data)) {
            Some(a) => {
                let ghost all = views(a@);
                let mut i: usize = 0;
                while i < a.len()
                    invariant
                        all == views(a@),
                        i <= a.len(),
                        out@.len() == i,
                        forall|j: int| 0 <= j < i ==> #[trigger] out@[j]@ == task_model(all[j]),
                    decreases a.len() - i,
                {
                    out.push(map_task(Some(&a[i])));
                    i = i + 1;
                }
            },
            None => {},
        }
        assert(out@.map_values(|i: Issue| i@) =~= data@.elements().map_values(
            |n: JsonView| task_model(n),
        ));
        out
    }

    /// The request of `get_issue`.
    pub fn get_issue_request(&self, id: &str) -> (r: HttpRequest)
        ensures
            r@ == request_model(
                self@,
                HttpMethod::Get,
                "/tasks/"@ + id@ + "?opt_fields="@ + TASK_FIELDS@,
                None,
            ),
    {
        self.request(HttpMethod::Get, concat4("/tasks/", id, "?opt_fields=", TASK_FIELDS), None)
    }

    /// The issue of a `get_issue`, `create_issue` or `update_issue` answer.
    pub fn task_from(data: &Json) -> (r: Issue)
        ensures
            r@ == task_model(data@),
    {
        map_task(Some(data))
    }

    /// The request of `create_issue`; priority, labels and extra properties
    /// are not sent.
    pub fn create_issue_request(&self, input: &CreateIssueRequest) -> (r: HttpRequest)
        ensures
            r@ == request_model(
                self@,
                HttpMethod::Post,
                "/tasks?opt_fields="@ + TASK_FIELDS@,
                Some(
                    envelope(
                        task_create_fields(
                            self@,
                            input.title@,
                            input.description.deep_view(),
                            input.project_id.deep_view(),
                            input.assignee_id.deep_view(),
                        ),
                    ),
                ),
            ),
    {
        let mut obj = ObjectBuilder::new();
        obj.insert("name", Json::Str(input.title.clone()));
        obj.insert_opt("notes", &input.description);
        obj.insert_opt("workspace", &self.workspace_gid);
        let ghost before = entry_views(obj.entries@);
        match &input.project_id {
            Some(pid) => {
                let mut list: Vec<Json> = Vec::new();
                list.push(Json::Str(pid.clone()));
                proof {
                    crate::json::lemma_array_view(list);
                }
                let projects = Json::Array(list);
                assert(projects@ == JsonView::Array(seq![JsonView::Str(pid@)])) by {
                    assert(views(list@) =~= seq![JsonView::Str(pid@)]);
                }
                obj.insert("projects", projects);
            },
            None => {},
        }
        obj.insert_opt("assignee", &input.assignee_id);
        let obj = obj.build();
        assert(obj@->Object_0 =~= task_create_fields(
            self@,
            input.title@,
            input.description.deep_view(),
            input.project_id.deep_view(),
            input.assignee_id.deep_view(),
        ));
        let path = crate::text::concat("/tasks?opt_fields=", TASK_FIELDS);
        self.request(HttpMethod::Post, path, Some(object1("data", obj)))
    }

    /// Whether a status, in lower case, marks a task completed.
    pub fn marks_completed(lowercase_status: &str) -> (r: bool)
        ensures
            r == (lowercase_status@ == "completed"@),
    {
        str_equal(lowercase_status, "completed")
    }

    /// The request of `update_issue`; priority, labels and extra properties
    /// are not sent.
    pub fn update_issue_request(&self, id: &str, input: &UpdateIssueRequest) -> (r: HttpRequest)
        ensures
            r@ == request_model(
                self@,
                HttpMethod::Put,
                "/tasks/"@ + id@ + "?opt_fields="@ + TASK_FIELDS@,
                Some(
                    envelope(
                        task_update_fields(
                            input.title.deep_view(),
                            input.description.deep_view(),
                            input.status.deep_view(),
                            input.assignee_id.deep_view(),
                        ),
                    ),
                ),
            ),
    {
        let mut obj = ObjectBuilder::new();
        obj.insert_opt("name", &input.title);
        obj.insert_opt("notes", &input.description);
        match &input.status {
            Some(st) => {
                let lower = to_lowercase(st.as_str());
                obj.insert("completed", Json::Bool(Self::marks_completed(lower.as_str())));
            },
            None => {},
        }
        obj.insert_opt("assignee", &input.assignee_id);
        let obj = obj.build();
        assert(obj@->Object_0 =~= task_update_fields(
            input.title.deep_view(),
            input.description.deep_view(),
            input.status.deep_view(),
            input.assignee_id.deep_view(),
        ));
        let path = concat4("/tasks/", id, "?opt_fields=", TASK_FIELDS);
        self.request(HttpMethod::Put, path, Some(object1("data", obj)))
    }

    /// The request of `delete_issue`.
    pub fn delete_issue_request(&self, id: &str) -> (r: HttpRequest)
        ensures
            r@ == request_model(self@, HttpMethod::Delete, "/tasks/"@ + id@, None),
    {
        self.request(HttpMethod::Delete, crate::text::concat("/tasks/", id), None)
    }

    /// The request of `list_projects`.
    pub fn list_projects_request(&self, page: &PageRequest) -> (r: HttpRequest)
        ensures
            r@ == request_model(
                self@,
                HttpMethod::Get,
                "/projects?limit="@ + decimal(page_size(page@.limit) as nat) + "&opt_fields="@
                    + PROJECT_FIELDS@ + opt_param("workspace"@, self@.workspace_gid),
                None,
            ),
    {
        let mut path = owned("/projects?limit=");
        push_decimal(&mut path, page_limit(page) as u64);
        push_str(&mut path, "&opt_fields=");
        push_str(&mut path, PROJECT_FIELDS);
        push_opt_param(&mut path, "workspace", &self.workspace_gid);
        self.request(HttpMethod::Get, path, None)
    }

    /// The projects of a `list_projects` answer.
    pub fn projects_from(data: &Json) -> (r: Vec<Project>)
        ensures
            r@.map_values(|p: Project| p@) == data@.elements().map_values(
                |n: JsonView| project_model(n),
            ),
    {
        let mut out: Vec<Project> = Vec::new();
        match array(Some(data)) {
            Some(a) => {
                let ghost all = views(a@);
                let mut i: usize = 0;
                while i < a.len()
                    invariant
                        all == views(a@),
                        i <= a.len(),
                        out@.len() == i,
                        forall|j: int| 0 <= j < i ==> #[trigger] out@[j]@ == project_model(all[j]),
                    decreases a.len() - i,
                {
                    out.push(map_project(Some(&a[i])));
                    i = i + 1;
                }
            },
            None => {},
        }
        assert(out@.map_values(|p: Project| p@) =~= data@.elements().map_values(
            |n: JsonView| project_model(n),
        ));
        out
    }

    /// The request of `get_project`.
    pub fn get_project_request(&self, id: &str) -> (r: HttpRequest)
        ensures
            r@ == request_model(
                self@,
                HttpMethod::Get,
                "/projects/"@ + id@ + "?opt_fields="@ + PROJECT_FIELDS@,
                None,
            ),
    {
        self.request(
            HttpMethod::Get,
            concat4("/projects/", id, "?opt_fields=", PROJECT_FIELDS),
            None,
        )
    }

    /// The project of a `get_project`, `create_project` or
    /// `update_project` answer.
    pub fn project_from(data: &Json) -> (r: Project)
        ensures
            r@ == project_model(data@),
    {
        map_project(Some(data))
    }

    /// The request of `list_teams`: the workspaces.
    pub fn list_teams_request(&self, page: &PageRequest) -> (r: HttpRequest)
        ensures
            r@ == request_model(
                self@,
                HttpMethod::Get,
                "/workspaces?limit="@ + decimal(page_size(page@.limit) as nat)
                    + "&opt_fields=gid,name"@,
                None,
            ),
    {
        let mut path = owned("/workspaces?limit=");
        push_decimal(&mut path, page_limit(page) as u64);
        push_str(&mut path, "&opt_fields=gid,name");
        self.request(HttpMethod::Get, path, None)
    }

    /// The teams (workspaces) of a `list_teams` answer.
    pub fn workspaces_from(data: &Json) -> (r: Vec<Team>)
        ensures
            r@.map_values(|t: Team| t@) == team_models(data@.elements()),
    {
        map_teams(data)
    }

    /// The request of `list_comments`: the stories of the task.
    pub fn list_comments_request(&self, issue_id: &str) -> (r: HttpRequest)
        ensures
            r@ == request_model(
                self@,
                HttpMethod::Get,
                "/tasks/"@ + issue_id@ + "/stories?opt_fields="@ + STORY_FIELDS@,
                None,
            ),
    {
        self.request(
            HttpMethod::Get,
            concat4("/tasks/", issue_id, "/stories?opt_fields=", STORY_FIELDS),
            None,
        )
    }

    /// The comments of a `list_comments` answer: the stories that are
    /// comments, in order.
    pub fn comments_from(data: &Json) -> (r: Vec<Comment>)
        ensures
            r@.map_values(|c: Comment| c@) == comment_models(data@.elements()),
    {
        let mut out: Vec<Comment> = Vec::new();
        match array(Some(data)) {
            Some(a) => {
                let ghost all = views(a@);
                let mut i: usize = 0;
                assert(out@.map_values(|c: Comment| c@) =~= comment_models(all.take(0)));
                while i < a.len()
                    invariant
                        all == views(a@),
                        i <= a.len(),
                        out@.map_values(|c: Comment| c@) == comment_models(all.take(i as int)),
                    decreases a.len() - i,
                {
                    let ghost before = out@.map_values(|c: Comment| c@);
                    assert(all.take(i + 1).drop_last() =~= all.take(i as int));
                    assert(all.take(i + 1).last() == a@[i as int]@);
                    if is_comment(Some(&a[i])) {
                        out.push(map_story(Some(&a[i])));
                        assert(out@.map_values(|c: Comment| c@) =~= before.push(
                            story_model(a@[i as int]@),
                        ));
                    }
                    i = i + 1;
                }
                assert(all.take(a.len() as int) =~= all);
            },
            None => {
                assert(out@.map_values(|c: Comment| c@) =~= comment_models(data@.elements()));
            },
        }
        out
    }

    /// The request of `create_comment`.
    pub fn create_comment_request(&self, issue_id: &str, input: &CreateCommentRequest) -> (r:
        HttpRequest)
        ensures
            r@ == request_model(
                self@,
                HttpMethod::Post,
                "/tasks/"@ + issue_id@ + "/stories"@,
                Some(envelope(seq![("text"@, JsonView::Str(input.body@))])),
            ),
    {
        let body = object1("data", object1("text", Json::Str(input.body.clone())));
        self.request(
            HttpMethod::Post,
            crate::text::concat3("/tasks/", issue_id, "/stories"),
            Some(body),
        )
    }

    /// The comment of a `create_comment` answer.
    pub fn comment_from(data: &Json) -> (r: Comment)
        ensures
            r@ == story_model(data@),
    {
        map_story(Some(data))
    }

    /// The next step of `search`: without a workspace the search is
    /// refused at once; otherwise the tasks of the workspace are searched
    /// for the encoded text.
    pub fn search_request(&self, input: &SearchRequest) -> (r: Plan<Vec<SearchResult>>)
        ensures
            match r {
                Plan::Send(req) => self@.workspace_gid is Some && req@ == request_model(
                    self@,
                    HttpMethod::Get,
                    "/workspaces/"@ + self@.workspace_gid->0 + "/tasks/search?text="@
                        + encode_query(input.query@) + "&limit="@ + decimal(
                        search_size(input.limit) as nat,
                    ) + "&opt_fields=gid,name,completed"@,
                    None,
                ),
                Plan::Finish(res) => self@.workspace_gid is None && (res matches Err(e) && e@
                    == PmErrorView::UnsupportedOperation("search requires workspace_gid"@)),
            },
    {
        match &self.workspace_gid {
            None => Plan::Finish(
                Err(PmError::UnsupportedOperation(owned("search requires workspace_gid"))),
            ),
            Some(workspace) => {
                let mut path = owned("/workspaces/");
                push_str(&mut path, workspace.as_str());
                push_str(&mut path, "/tasks/search?text=");
                let encoded = encode_search_text(input.query.as_str());
                push_str(&mut path, encoded.as_str());
                push_str(&mut path, "&limit=");
                push_decimal(&mut path, search_limit(input) as u64);
                push_str(&mut path, "&opt_fields=gid,name,completed");
                Plan::Send(self.request(HttpMethod::Get, path, None))
            },
        }
    }

    /// The results of a `search` answer.
    pub fn search_results_from(data: &Json) -> (r: Vec<SearchResult>)
        ensures
            r@.map_values(|s: SearchResult| s@) == data@.elements().map_values(
                |n: JsonView| search_result_model(n),
            ),
    {
        let mut out: Vec<SearchResult> = Vec::new();
        match array(Some(data)) {
            Some(a) => {
                let ghost all = views(a@);
                let mut i: usize = 0;
                while i < a.len()
                    invariant
                        all == views(a@),
                        i <= a.len(),
                        out@.len() == i,
                        forall|j: int|
                            0 <= j < i ==> #[trigger] out@[j]@ == search_result_model(all[j]),
                    decreases a.len() - i,
                {
                    out.push(map_search_result(Some(&a[i])));
                    i = i + 1;
                }
            },
            None => {},
        }
        assert(out@.map_values(|s: SearchResult| s@) =~= data@.elements().map_values(
            |n: JsonView| search_result_model(n),
        ));
        out
    }
}

} // verus!
