//! The JIRA REST API as the client uses it: the replies it reads, their
//! conversion into the issue model, and the requests it sends.

use vstd::prelude::*;
use base64::Engine;
use crate::adf::{AdfBlock, AdfDoc, description_text, document_text, description_from_blocks, document_text_of};
use crate::issue::{
    ChangelogEntry, ChangelogEntryView, ChangelogItem, ChangelogItemView, Comment, CommentView,
    JiraIssue, JiraIssueView, comment_views, entry_views, issue_views, item_views, opt_text, clone_opt_text,
};

verus! {

// ---------------------------------------------------------------------------
// Replies of the API, holding what the client reads of them.

/// A user as the API names one.
pub struct JiraUser {
    pub display_name: String,
}

/// The description field of an issue: a list of document blocks.
pub struct JiraDescription {
    pub content: Vec<AdfBlock>,
}

pub struct JiraStatus {
    pub name: String,
}

pub struct JiraPriority {
    pub name: String,
}

/// The fields of an issue that the client asks for.
pub struct JiraFields {
    pub summary: String,
    pub description: Option<JiraDescription>,
    pub status: JiraStatus,
    pub priority: JiraPriority,
    pub assignee: Option<JiraUser>,
    pub reporter: JiraUser,
    pub created: String,
    pub updated: String,
}

/// An issue of a search reply.
pub struct JiraApiIssue {
    pub id: String,
    pub key: String,
    pub fields: JiraFields,
}

/// A reply of the issue search.
pub struct JiraApiResponse {
    pub issues: Vec<JiraApiIssue>,
    pub is_last: bool,
    pub next_page_token: Option<String>,
}

/// A reply about the watchers of an issue.
pub struct WatchersResponse {
    pub is_watching: bool,
    pub watch_count: u32,
}

/// One field change as the API reports it.
pub struct ChangelogItemApi {
    pub field: String,
    pub field_type: String,
    pub from_string: Option<String>,
    pub to_string: Option<String>,
}

/// One entry of the change history as the API reports it.
pub struct ChangelogHistory {
    pub id: String,
    pub author: JiraUser,
    pub created: String,
    pub items: Vec<ChangelogItemApi>,
}

pub struct Changelog {
    pub histories: Vec<ChangelogHistory>,
}

/// A reply about one issue, with its change history expanded.
pub struct IssueWithChangelog {
    pub id: String,
    pub key: String,
    pub fields: JiraFields,
    pub changelog: Option<Changelog>,
}

/// A comment as the API reports it; its body is a document.
pub struct CommentApi {
    pub id: String,
    pub author: JiraUser,
    pub created: String,
    pub updated: String,
    pub body: AdfDoc,
}

/// A reply listing the comments of an issue.
pub struct CommentsResponse {
    pub comments: Vec<CommentApi>,
    pub total: u32,
}

// ---------------------------------------------------------------------------
// From replies to the issue model.

/// The issue that a search reply's issue becomes; its watch state, history
/// and comments are left to be loaded later.
pub open spec fn issue_from_api_view(api: JiraApiIssue) -> JiraIssueView {
    JiraIssueView {
        id: api.id@,
        key: api.key@,
        summary: api.fields.summary@,
        description: match api.fields.description {
            Some(d) => description_text(d.content@),
            None => None,
        },
        status: api.fields.status.name@,
        priority: api.fields.priority.name@,
        assignee: match api.fields.assignee {
            Some(u) => Some(u.display_name@),
            None => None,
        },
        reporter: api.fields.reporter.display_name@,
        created: api.fields.created@,
        updated: api.fields.updated@,
        is_watching: None,
        changelog: None,
        comments: None,
    }
}

/// Turns an issue of a search reply into the issue model.
pub fn issue_from_api(api: &JiraApiIssue) -> (res: JiraIssue)
    ensures
        res@ == issue_from_api_view(*api),
{
    let description = match &api.fields.description {
        Some(d) => description_from_blocks(&d.content),
        None => None,
    };
    let assignee = match &api.fields.assignee {
        Some(u) => Some(u.display_name.clone()),
        None => None,
    };
    JiraIssue {
        id: api.id.clone(),
        key: api.key.clone(),
        summary: api.fields.summary.clone(),
        description,
        status: api.fields.status.name.clone(),
        priority: api.fields.priority.name.clone(),
        assignee,
        reporter: api.fields.reporter.display_name.clone(),
        created: api.fields.created.clone(),
        updated: api.fields.updated.clone(),
        is_watching: None,
        changelog: None,
        comments: None,
    }
}

/// The issues of a search reply, in the reply's order.
pub open spec fn search_issues_view(reply: JiraApiResponse) -> Seq<JiraIssueView> {
    reply.issues@.map_values(|i: JiraApiIssue| issue_from_api_view(i))
}

/// Turns a search reply into the list of issues it holds, in order.
pub fn issues_from_search(reply: &JiraApiResponse) -> (res: Vec<JiraIssue>)
    ensures
        issue_views(res@) == search_issues_view(*reply),
{
    let mut res: Vec<JiraIssue> = Vec::new();
    let mut i: usize = 0;
    while i < reply.issues.len()
        invariant
            i <= reply.issues.len(),
            issue_views(res@) == search_issues_view(*reply).take(i as int),
        decreases reply.issues.len() - i,
    {
        let issue = issue_from_api(&reply.issues[i]);
        let ghost prev = res@;
        res.push(issue);
        assert(res@ == prev.push(issue));
        assert(issue_views(res@) =~= issue_views(prev).push(issue@));
        assert(issue_views(res@) =~= search_issues_view(*reply).take(i + 1));
        i = i + 1;
    }
    assert(search_issues_view(*reply).take(i as int) =~= search_issues_view(*reply));
    res
}

/// The change item that an API change item becomes.
pub open spec fn item_from_api_view(api: ChangelogItemApi) -> ChangelogItemView {
    ChangelogItemView {
        field: api.field@,
        field_type: api.field_type@,
        from_string: opt_text(api.from_string),
        to_string: opt_text(api.to_string),
    }
}

/// The history entry that an API history entry becomes.
pub open spec fn entry_from_api_view(api: ChangelogHistory) -> ChangelogEntryView {
    ChangelogEntryView {
        id: api.id@,
        author: api.author.display_name@,
        created: api.created@,
        items: api.items@.map_values(|i: ChangelogItemApi| item_from_api_view(i)),
    }
}

/// Turns an API history entry into the issue model.
pub fn entry_from_api(api: &ChangelogHistory) -> (res: ChangelogEntry)
    ensures
        res@ == entry_from_api_view(*api),
{
    let ghost target = entry_from_api_view(*api);
    let mut items: Vec<ChangelogItem> = Vec::new();
    let mut i: usize = 0;
    while i < api.items.len()
        invariant
            i <= api.items.len(),
            target == entry_from_api_view(*api),
            item_views(items@) == target.items.take(i as int),
        decreases api.items.len() - i,
    {
        let a = &api.items[i];
        let item = ChangelogItem {
            field: a.field.clone(),
            field_type: a.field_type.clone(),
            from_string: clone_opt_text(&a.from_string),
            to_string: clone_opt_text(&a.to_string),
        };
        let ghost prev = items@;
        items.push(item);
        assert(item_views(items@) =~= item_views(prev).push(item@));
        assert(item_views(items@) =~= target.items.take(i + 1));
        i = i + 1;
    }
    assert(target.items.take(i as int) =~= target.items);
    ChangelogEntry {
        id: api.id.clone(),
        author: api.author.display_name.clone(),
        created: api.created.clone(),
        items,
    }
}

/// The change history of an issue reply; empty where the reply carries none.
pub open spec fn changelog_view(reply: IssueWithChangelog) -> Seq<ChangelogEntryView> {
    match reply.changelog {
        Some(c) => c.histories@.map_values(|h: ChangelogHistory| entry_from_api_view(h)),
        None => Seq::empty(),
    }
}

/// Turns the change history of an issue reply into the issue model.
pub fn changelog_from_reply(reply: &IssueWithChangelog) -> (res: Vec<ChangelogEntry>)
    ensures
        entry_views(res@) == changelog_view(*reply),
{
    let mut res: Vec<ChangelogEntry> = Vec::new();
    match &reply.changelog {
        Some(c) => {
            let mut i: usize = 0;
            while i < c.histories.len()
                invariant
                    i <= c.histories.len(),
                    reply.changelog == Some(*c),
                    entry_views(res@) == changelog_view(*reply).take(i as int),
                decreases c.histories.len() - i,
            {
                let e = entry_from_api(&c.histories[i]);
                let ghost prev = res@;
                res.push(e);
                assert(entry_views(res@) =~= entry_views(prev).push(e@));
                assert(entry_views(res@) =~= changelog_view(*reply).take(i + 1));
                i = i + 1;
            }
            assert(changelog_view(*reply).take(i as int) =~= changelog_view(*reply));
        },
        None => {
            assert(entry_views(res@) =~= changelog_view(*reply));
        },
    }
    res
}

/// The comment that an API comment becomes: its body as plain text.
pub open spec fn comment_from_api_view(api: CommentApi) -> CommentView {
    CommentView {
        id: api.id@,
        author: api.author.display_name@,
        created: api.created@,
        updated: api.updated@,
        body: document_text(api.body),
    }
}

/// The comments of a comments reply, in order.
pub open spec fn comments_view(reply: CommentsResponse) -> Seq<CommentView> {
    reply.comments@.map_values(|c: CommentApi| comment_from_api_view(c))
}

/// Turns a comments reply into the issue model.
pub fn comments_from_reply(reply: &CommentsResponse) -> (res: Vec<Comment>)
    ensures
        comment_views(res@) == comments_view(*reply),
{
    let mut res: Vec<Comment> = Vec::new();
    let mut i: usize = 0;
    while i < reply.comments.len()
        invariant
            i <= reply.comments.len(),
            comment_views(res@) == comments_view(*reply).take(i as int),
        decreases reply.comments.len() - i,
    {
        let c = &reply.comments[i];
        let comment = Comment {
            id: c.id.clone(),
            author: c.author.display_name.clone(),
            created: c.created.clone(),
            updated: c.updated.clone(),
            body: JiraClient::extract_text_from_adf(&c.body),
        };
        let ghost prev = res@;
        res.push(comment);
        assert(comment_views(res@) =~= comment_views(prev).push(comment@));
        assert(comment_views(res@) =~= comments_view(*reply).take(i + 1));
        i = i + 1;
    }
    assert(comments_view(*reply).take(i as int) =~= comments_view(*reply));
    res
}

/// The history and comments of an issue from the two replies; a reply that
/// is missing (the server answered it with a failure status) counts as empty.
pub fn updates_from_replies(
    changelog_reply: &Option<IssueWithChangelog>,
    comments_reply: &Option<CommentsResponse>,
) -> (res: (Vec<ChangelogEntry>, Vec<Comment>))
    ensures
        entry_views(res.0@) == (match changelog_reply {
            Some(r) => changelog_view(*r),
            None => Seq::empty(),
        }),
        comment_views(res.1@) == (match comments_reply {
            Some(r) => comments_view(*r),
            None => Seq::empty(),
        }),
{
    let entries = match changelog_reply {
        Some(r) => changelog_from_reply(r),
        None => {
            let v: Vec<ChangelogEntry> = Vec::new();
            assert(entry_views(v@) =~= Seq::empty());
            v
        },
    };
    let comments = match comments_reply {
        Some(r) => comments_from_reply(r),
        None => {
            let v: Vec<Comment> = Vec::new();
            assert(comment_views(v@) =~= Seq::empty());
            v
        },
    };
    (entries, comments)
}

// ---------------------------------------------------------------------------
// Requests.

/// The HTTP methods that the client uses.
#[derive(PartialEq, Eq, Structural, Clone, Copy, Debug)]
pub enum HttpMethod {
    Get,
    Post,
    Delete,
}

/// A request to send: method, address, headers and query parameters, in the
/// order in which they are to be sent.
pub struct ApiRequest {
    pub method: HttpMethod,
    pub url: String,
    pub headers: Vec<(String, String)>,
    pub query: Vec<(String, String)>,
}

pub struct ApiRequestView {
    pub method: HttpMethod,
    pub url: Seq<char>,
    pub headers: Seq<(Seq<char>, Seq<char>)>,
    pub query: Seq<(Seq<char>, Seq<char>)>,
}

/// The text of each name and value of a list of pairs.
pub open spec fn pair_views(pairs: Seq<(String, String)>) -> Seq<(Seq<char>, Seq<char>)> {
    pairs.map_values(|p: (String, String)| (p.0@, p.1@))
}

impl View for ApiRequest {
    type V = ApiRequestView;

    open spec fn view(&self) -> ApiRequestView {
        ApiRequestView {
            method: self.method,
            url: self.url@,
            headers: pair_views(self.headers@),
            query: pair_views(self.query@),
        }
    }
}

/// Names what the base64 crate's standard engine (standard alphabet, `=`
/// padding) encodes `bytes` to.
pub uninterp spec fn base64_standard(bytes: Seq<u8>) -> Seq<char>;

/// Encodes with `Engine::encode` of `base64::engine::general_purpose::STANDARD`.
/// The contract claims that the result is `base64_standard` of the bytes.
/// The engine sizes its output buffer with a checked computation of
/// 4 * ceil(len / 3) and panics where that overflows or exceeds what a
/// vector can hold, so `requires` keeps that size within `isize::MAX`.
#[verifier::external_body]
fn encode_base64_standard(bytes: &[u8]) -> (res: String)
    requires
        (bytes@.len() + 2) / 3 * 4 <= isize::MAX,
    ensures
        res@ == base64_standard(bytes@),
{
    base64::engine::general_purpose::STANDARD.encode(bytes)
}

/// The credentials text of basic authentication.
pub open spec fn credentials_text(email: Seq<char>, api_token: Seq<char>) -> Seq<char> {
    email + ":"@ + api_token
}

/// The value of the Authorization header for basic authentication.
pub open spec fn basic_auth_header(email: Seq<char>, api_token: Seq<char>) -> Seq<char> {
    "Basic "@ + base64_standard(vstd::utf8::encode_utf8(credentials_text(email, api_token)))
}

/// Whether the base64 form of the credentials fits in memory.
pub open spec fn credentials_fit(email: Seq<char>, api_token: Seq<char>) -> bool {
    (vstd::utf8::encode_utf8(credentials_text(email, api_token)).len() + 2) / 3 * 4 <= isize::MAX
}

/// The query that selects the unresolved issues assigned to the user.
pub open spec fn assigned_jql() -> Seq<char> {
    "assignee = currentUser() AND resolution = Unresolved ORDER BY updated DESC"@
}

/// The query that selects the issues updated in the last seven days.
pub open spec fn recent_jql() -> Seq<char> {
    "updated >= -7d ORDER BY updated DESC"@
}

/// The issue fields that a search asks for.
pub open spec fn search_fields() -> Seq<char> {
    "summary,description,status,priority,assignee,reporter,created,updated"@
}

/// The headers that every request carries.
pub open spec fn common_headers(auth_header: Seq<char>) -> Seq<(Seq<char>, Seq<char>)> {
    seq![("Authorization"@, auth_header), ("Accept"@, "application/json"@)]
}

/// The issue search with query `jql`.
pub open spec fn search_request_view(base_url: Seq<char>, auth_header: Seq<char>, jql: Seq<char>) -> ApiRequestView {
    ApiRequestView {
        method: HttpMethod::Get,
        url: base_url + "/rest/api/3/search/jql"@,
        headers: common_headers(auth_header),
        query: seq![("jql"@, jql), ("maxResults"@, "50"@), ("fields"@, search_fields())],
    }
}

/// The issue search with query `jql` for the page that `page_token` names;
/// the first page where there is no token.
pub open spec fn search_page_request_view(
    base_url: Seq<char>,
    auth_header: Seq<char>,
    jql: Seq<char>,
    page_token: Option<Seq<char>>,
) -> ApiRequestView {
    let first = search_request_view(base_url, auth_header, jql);
    match page_token {
        Some(t) => ApiRequestView { query: first.query.push(("nextPageToken"@, t)), ..first },
        None => first,
    }
}

/// The issues of a run of search pages, page after page.
pub open spec fn joined_pages(pages: Seq<Seq<JiraIssueView>>) -> Seq<JiraIssueView>
    decreases pages.len(),
{
    if pages.len() == 0 {
        Seq::empty()
    } else {
        joined_pages(pages.drop_last()) + pages.last()
    }
}

/// An issue search that runs over every page that the server hands out:
/// `issues` holds the issues of the pages read so far, `pages` the issues of
/// each of them, `page_token` the token of the next page, and `finished`
/// says that the last page has been read.
pub struct SearchPages {
    pub jql: String,
    pub issues: Vec<JiraIssue>,
    pub pages: Ghost<Seq<Seq<JiraIssueView>>>,
    pub page_token: Option<String>,
    pub finished: bool,
}

impl SearchPages {
    /// Whether `issues` holds the issues of the pages read, in order.
    pub open spec fn wf(&self) -> bool {
        issue_views(self.issues@) == joined_pages(self.pages@)
    }

    /// A search with query `jql` that has read no page yet.
    pub fn new(jql: &str) -> (res: SearchPages)
        ensures
            res.wf(),
            res.jql@ == jql@,
            res.pages@ == Seq::<Seq<JiraIssueView>>::empty(),
            res.page_token is None,
            !res.finished,
    {
        let res = SearchPages {
            jql: jql.to_owned(),
            issues: Vec::new(),
            pages: Ghost(Seq::empty()),
            page_token: None,
            finished: false,
        };
        assert(issue_views(res.issues@) =~= Seq::empty());
        res
    }

    /// The search for the unresolved issues assigned to the user.
    pub fn assigned() -> (res: SearchPages)
        ensures
            res.wf(),
            res.jql@ == assigned_jql(),
            res.pages@ == Seq::<Seq<JiraIssueView>>::empty(),
            res.page_token is None,
            !res.finished,
    {
        SearchPages::new("assignee = currentUser() AND resolution = Unresolved ORDER BY updated DESC")
    }

    /// The search for the issues updated in the last seven days.
    pub fn recent() -> (res: SearchPages)
        ensures
            res.wf(),
            res.jql@ == recent_jql(),
            res.pages@ == Seq::<Seq<JiraIssueView>>::empty(),
            res.page_token is None,
            !res.finished,
    {
        SearchPages::new("updated >= -7d ORDER BY updated DESC")
    }

    /// The request for the next page; nothing once the last page is read.
    pub fn next_request(&self, client: &JiraClient) -> (res: Option<ApiRequest>)
        ensures
            res is None <==> self.finished,
            res matches Some(r) ==> r@ == search_page_request_view(
                client.base_url@,
                client.auth_header@,
                self.jql@,
                crate::issue::opt_text(self.page_token),
            ),
    {
        if self.finished {
            None
        } else {
            Some(client.search_page_request(self.jql.as_str(), &self.page_token))
        }
    }

    /// Adds the issues of a page that the server sent. The search is over
    /// where the page says it is the last one, or names no next page.
    pub fn absorb(&mut self, reply: &JiraApiResponse)
        requires
            old(self).wf(),
        ensures
            final(self).wf(),
            final(self).pages@ == old(self).pages@.push(search_issues_view(*reply)),
            issue_views(final(self).issues@) == issue_views(old(self).issues@) + search_issues_view(*reply),
            final(self).jql == old(self).jql,
            crate::issue::opt_text(final(self).page_token) == crate::issue::opt_text(reply.next_page_token),
            final(self).finished == (reply.is_last || reply.next_page_token is None),
    {
        let mut page = issues_from_search(reply);
        let ghost old_issues = self.issues@;
        self.issues.append(&mut page);
        proof {
            let new_pages = self.pages@.push(search_issues_view(*reply));
            assert(new_pages.drop_last() =~= self.pages@);
            assert(issue_views(self.issues@) =~= issue_views(old_issues) + search_issues_view(*reply));
            self.pages@ = new_pages;
        }
        self.page_token = crate::issue::clone_opt_text(&reply.next_page_token);
        self.finished = reply.is_last || reply.next_page_token.is_none();
    }
}

/// The address of the watcher list of an issue.
pub open spec fn watchers_url(base_url: Seq<char>, key: Seq<char>) -> Seq<char> {
    base_url + "/rest/api/3/issue/"@ + key + "/watchers"@
}

/// The kinds of request whose failure status is an error.
#[derive(PartialEq, Eq, Structural, Clone, Copy, Debug)]
pub enum RequestKind {
    Search,
    WatchStatus,
    Watch,
    Unwatch,
}

/// The text that starts the error of a request of kind `kind`.
pub open spec fn failure_prefix(kind: RequestKind) -> Seq<char> {
    match kind {
        RequestKind::Search => "API request failed: "@,
        RequestKind::WatchStatus => "Failed to get watch status: "@,
        RequestKind::Watch => "Failed to watch issue: "@,
        RequestKind::Unwatch => "Failed to unwatch issue: "@,
    }
}

/// Whether an HTTP status is a success (2xx).
pub open spec fn success_status(status: u16) -> bool {
    200 <= status < 300
}

/// Whether an HTTP status is a success (2xx).
pub fn is_success(status: u16) -> (res: bool)
    ensures
        res == success_status(status),
{
    200 <= status && status < 300
}

/// Accepts a reply whose status is a success; otherwise the error message
/// names the kind of request and the status as `status_text` writes it.
pub fn check_status(kind: RequestKind, status: u16, status_text: &str) -> (res: Result<(), String>)
    ensures
        res is Ok <==> success_status(status),
        res matches Err(msg) ==> msg@ == failure_prefix(kind) + status_text@,
{
    if is_success(status) {
        Ok(())
    } else {
        let mut msg = match kind {
            RequestKind::Search => "API request failed: ".to_owned(),
            RequestKind::WatchStatus => "Failed to get watch status: ".to_owned(),
            RequestKind::Watch => "Failed to watch issue: ".to_owned(),
            RequestKind::Unwatch => "Failed to unwatch issue: ".to_owned(),
        };
        msg.append(status_text);
        Err(msg)
    }
}

fn text_pair(name: &str, value: &str) -> (res: (String, String))
    ensures
        res.0@ == name@,
        res.1@ == value@,
{
    (name.to_owned(), value.to_owned())
}

fn concat3(a: &str, b: &str, c: &str) -> (res: String)
    ensures
        res@ == a@ + b@ + c@,
{
    let mut s = a.to_owned();
    s.append(b);
    s.append(c);
    s
}

/// The connection settings of the client: where the server is and how it
/// is told who the user is.
pub struct JiraClient {
    pub base_url: String,
    pub auth_header: String,
}

impl JiraClient {
    /// A client for the server at `base_url` that authenticates with the
    /// user's e-mail and API token.
    pub fn new(base_url: String, email: String, api_token: String) -> (res: JiraClient)
        requires
            credentials_fit(email@, api_token@),
        ensures
            res.base_url@ == base_url@,
            res.auth_header@ == basic_auth_header(email@, api_token@),
    {
        let credentials = concat3(email.as_str(), ":", api_token.as_str());
        let encoded = encode_base64_standard(credentials.as_str().as_bytes());
        let auth_header = "Basic ".to_owned().concat(encoded.as_str());
        JiraClient { base_url, auth_header }
    }

    fn common_headers(&self) -> (res: Vec<(String, String)>)
        ensures
            pair_views(res@) == common_headers(self.auth_header@),
    {
        let mut headers: Vec<(String, String)> = Vec::new();
        headers.push(text_pair("Authorization", self.auth_header.as_str()));
        headers.push(text_pair("Accept", "application/json"));
        assert(pair_views(headers@) =~= common_headers(self.auth_header@));
        headers
    }

    /// The issue search with query `jql`.
    pub fn search_request(&self, jql: &str) -> (res: ApiRequest)
        ensures
            res@ == search_request_view(self.base_url@, self.auth_header@, jql@),
    {
        let url = self.base_url.clone().concat("/rest/api/3/search/jql");
        let mut query: Vec<(String, String)> = Vec::new();
        query.push(text_pair("jql", jql));
        query.push(text_pair("maxResults", "50"));
        query.push(text_pair(
            "fields",
            "summary,description,status,priority,assignee,reporter,created,updated",
        ));
        let req = ApiRequest { method: HttpMethod::Get, url, headers: self.common_headers(), query };
        assert(pair_views(req.query@) =~= search_request_view(self.base_url@, self.auth_header@, jql@).query);
        req
    }

    /// The issue search with query `jql` for the page that `page_token`
    /// names.
    pub fn search_page_request(&self, jql: &str, page_token: &Option<String>) -> (res: ApiRequest)
        ensures
            res@ == search_page_request_view(
                self.base_url@,
                self.auth_header@,
                jql@,
                crate::issue::opt_text(*page_token),
            ),
    {
        let mut req = self.search_request(jql);
        match page_token {
            Some(t) => {
                let ghost prev = req.query@;
                req.query.push(text_pair("nextPageToken", t.as_str()));
                assert(pair_views(req.query@) =~= pair_views(prev).push(("nextPageToken"@, t@)));
            },
            None => {},
        }
        req
    }

    /// The search for the unresolved issues assigned to the user.
    pub fn assigned_issues_request(&self) -> (res: ApiRequest)
        ensures
            res@ == search_request_view(self.base_url@, self.auth_header@, assigned_jql()),
    {
        self.search_request("assignee = currentUser() AND resolution = Unresolved ORDER BY updated DESC")
    }

    /// The search for the issues updated in the last seven days.
    pub fn recent_issues_request(&self) -> (res: ApiRequest)
        ensures
            res@ == search_request_view(self.base_url@, self.auth_header@, recent_jql()),
    {
        self.search_request("updated >= -7d ORDER BY updated DESC")
    }

    fn watchers_url(&self, issue_key: &str) -> (res: String)
        ensures
            res@ == watchers_url(self.base_url@, issue_key@),
    {
        let mut url = concat3(self.base_url.as_str(), "/rest/api/3/issue/", issue_key);
        url.append("/watchers");
        url
    }

    /// The request for whether the user watches the issue.
    pub fn watch_status_request(&self, issue_key: &str) -> (res: ApiRequest)
        ensures
            res@ == (ApiRequestView {
                method: HttpMethod::Get,
                url: watchers_url(self.base_url@, issue_key@),
                headers: common_headers(self.auth_header@),
                query: Seq::empty(),
            }),
    {
        let req = ApiRequest {
            method: HttpMethod::Get,
            url: self.watchers_url(issue_key),
            headers: self.common_headers(),
            query: Vec::new(),
        };
        assert(pair_views(req.query@) =~= Seq::empty());
        req
    }

    /// The request that makes the user watch the issue.
    pub fn watch_request(&self, issue_key: &str) -> (res: ApiRequest)
        ensures
            res@ == (ApiRequestView {
                method: HttpMethod::Post,
                url: watchers_url(self.base_url@, issue_key@),
                headers: common_headers(self.auth_header@).push(("Content-Type"@, "application/json"@)),
                query: Seq::empty(),
            }),
    {
        let mut headers = self.common_headers();
        headers.push(text_pair("Content-Type", "application/json"));
        let req = ApiRequest {
            method: HttpMethod::Post,
            url: self.watchers_url(issue_key),
            headers,
            query: Vec::new(),
        };
        assert(pair_views(req.headers@) =~= common_headers(self.auth_header@).push(("Content-Type"@, "application/json"@)));
        assert(pair_views(req.query@) =~= Seq::empty());
        req
    }

    /// The request that stops the user watching the issue.
    pub fn unwatch_request(&self, issue_key: &str) -> (res: ApiRequest)
        ensures
            res@ == (ApiRequestView {
                method: HttpMethod::Delete,
                url: watchers_url(self.base_url@, issue_key@),
                headers: common_headers(self.auth_header@),
                query: seq![("username"@, ""@)],
            }),
    {
        let mut query: Vec<(String, String)> = Vec::new();
        query.push(text_pair("username", ""));
        let req = ApiRequest {
            method: HttpMethod::Delete,
            url: self.watchers_url(issue_key),
            headers: self.common_headers(),
            query,
        };
        assert(pair_views(req.query@) =~= seq![("username"@, ""@)]);
        req
    }

    /// The request for the issue with its change history.
    pub fn changelog_request(&self, issue_key: &str) -> (res: ApiRequest)
        ensures
            res@ == (ApiRequestView {
                method: HttpMethod::Get,
                url: self.base_url@ + "/rest/api/3/issue/"@ + issue_key@ + "?expand=changelog"@,
                headers: common_headers(self.auth_header@),
                query: Seq::empty(),
            }),
    {
        let mut url = concat3(self.base_url.as_str(), "/rest/api/3/issue/", issue_key);
        url.append("?expand=changelog");
        let req = ApiRequest { method: HttpMethod::Get, url, headers: self.common_headers(), query: Vec::new() };
        assert(pair_views(req.query@) =~= Seq::empty());
        req
    }

    /// The request for the comments of the issue.
    pub fn comments_request(&self, issue_key: &str) -> (res: ApiRequest)
        ensures
            res@ == (ApiRequestView {
                method: HttpMethod::Get,
                url: self.base_url@ + "/rest/api/3/issue/"@ + issue_key@ + "/comment"@,
                headers: common_headers(self.auth_header@),
                query: Seq::empty(),
            }),
    {
        let mut url = concat3(self.base_url.as_str(), "/rest/api/3/issue/", issue_key);
        url.append("/comment");
        let req = ApiRequest { method: HttpMethod::Get, url, headers: self.common_headers(), query: Vec::new() };
        assert(pair_views(req.query@) =~= Seq::empty());
        req
    }

    /// The plain text of a comment body.
    pub fn extract_text_from_adf(adf_content: &AdfDoc) -> (res: String)
        ensures
            res@ == document_text(*adf_content),
    {
        document_text_of(adf_content)
    }
}

} // verus!
