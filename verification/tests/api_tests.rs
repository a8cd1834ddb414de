use jira_tui::adf::{AdfBlock, AdfDoc, AdfInline, description_from_blocks};
use jira_tui::jira::{
    ChangelogHistory, ChangelogItemApi, Changelog, CommentApi, CommentsResponse, HttpMethod,
    IssueWithChangelog, JiraApiIssue, JiraApiResponse, JiraClient, JiraDescription, JiraFields,
    JiraPriority, JiraStatus, JiraUser, RequestKind, SearchPages, check_status, changelog_from_reply,
    comments_from_reply, is_success, issue_from_api, issues_from_search, updates_from_replies,
};

fn text(t: &str) -> AdfInline {
    AdfInline { text: Some(t.to_string()) }
}

fn no_text() -> AdfInline {
    AdfInline { text: None }
}

fn block(inlines: Vec<AdfInline>) -> AdfBlock {
    AdfBlock { content: Some(inlines) }
}

fn user(name: &str) -> JiraUser {
    JiraUser { display_name: name.to_string() }
}

fn fields(description: Option<JiraDescription>, assignee: Option<JiraUser>) -> JiraFields {
    JiraFields {
        summary: "Fix login".to_string(),
        description,
        status: JiraStatus { name: "In Progress".to_string() },
        priority: JiraPriority { name: "High".to_string() },
        assignee,
        reporter: user("Rita Reporter"),
        created: "2025-10-01T10:00:00.000+0000".to_string(),
        updated: "2025-10-02T11:00:00.000+0000".to_string(),
    }
}

fn pairs(v: &[(String, String)]) -> Vec<(&str, &str)> {
    v.iter().map(|(a, b)| (a.as_str(), b.as_str())).collect()
}

#[test]
fn description_joins_inline_texts_with_spaces_and_blocks_with_newlines() {
    let blocks = vec![
        block(vec![text("Hello"), no_text(), text("world")]),
        AdfBlock { content: None },
        block(vec![text("Second")]),
    ];
    assert_eq!(description_from_blocks(&blocks), Some("Hello world\nSecond".to_string()));
}

#[test]
fn empty_description_is_absent() {
    assert_eq!(description_from_blocks(&vec![]), None);
    assert_eq!(description_from_blocks(&vec![AdfBlock { content: None }]), None);
    assert_eq!(description_from_blocks(&vec![block(vec![])]), None);
    assert_eq!(description_from_blocks(&vec![block(vec![no_text()])]), None);
}

#[test]
fn comment_text_runs_inline_texts_together() {
    let doc = AdfDoc {
        content: Some(vec![block(vec![text("Looks "), text("good")]), block(vec![text("Ship it")]), AdfBlock { content: None }]),
    };
    assert_eq!(JiraClient::extract_text_from_adf(&doc), "Looks good\nShip it");
}

#[test]
fn comment_without_content_is_reported_unparsable() {
    let doc = AdfDoc { content: None };
    assert_eq!(JiraClient::extract_text_from_adf(&doc), "Unable to parse comment content");
    assert_eq!(JiraClient::extract_text_from_adf(&AdfDoc { content: Some(vec![]) }), "");
}

#[test]
fn api_issue_becomes_model_issue() {
    let api = JiraApiIssue {
        id: "10001".to_string(),
        key: "PROJ-123".to_string(),
        fields: fields(
            Some(JiraDescription { content: vec![block(vec![text("Broken"), text("login")])] }),
            Some(user("John Doe")),
        ),
    };
    let issue = issue_from_api(&api);
    assert_eq!(issue.id, "10001");
    assert_eq!(issue.key, "PROJ-123");
    assert_eq!(issue.summary, "Fix login");
    assert_eq!(issue.description, Some("Broken login".to_string()));
    assert_eq!(issue.status, "In Progress");
    assert_eq!(issue.priority, "High");
    assert_eq!(issue.assignee, Some("John Doe".to_string()));
    assert_eq!(issue.reporter, "Rita Reporter");
    assert_eq!(issue.created, "2025-10-01T10:00:00.000+0000");
    assert_eq!(issue.updated, "2025-10-02T11:00:00.000+0000");
    assert_eq!(issue.is_watching, None);
    assert!(issue.changelog.is_none());
    assert!(issue.comments.is_none());
}

#[test]
fn search_reply_keeps_issue_order() {
    let reply = JiraApiResponse {
        issues: vec![
            JiraApiIssue { id: "1".to_string(), key: "A-1".to_string(), fields: fields(None, None) },
            JiraApiIssue { id: "2".to_string(), key: "A-2".to_string(), fields: fields(None, Some(user("X"))) },
        ],
        is_last: true,
        next_page_token: None,
    };
    let issues = issues_from_search(&reply);
    assert_eq!(issues.len(), 2);
    assert_eq!(issues[0].key, "A-1");
    assert_eq!(issues[0].assignee, None);
    assert_eq!(issues[0].description, None);
    assert_eq!(issues[1].key, "A-2");
    assert_eq!(issues[1].assignee, Some("X".to_string()));
}

fn history(id: &str, created: &str) -> ChangelogHistory {
    ChangelogHistory {
        id: id.to_string(),
        author: user("Ann"),
        created: created.to_string(),
        items: vec![ChangelogItemApi {
            field: "status".to_string(),
            field_type: "jira".to_string(),
            from_string: Some("To Do".to_string()),
            to_string: Some("Done".to_string()),
        }],
    }
}

fn issue_reply(changelog: Option<Changelog>) -> IssueWithChangelog {
    IssueWithChangelog { id: "1".to_string(), key: "A-1".to_string(), fields: fields(None, None), changelog }
}

#[test]
fn changelog_reply_becomes_entries() {
    let reply = issue_reply(Some(Changelog { histories: vec![history("h1", "2025-10-01T00:00:00.000+0000"), history("h2", "x")] }));
    let entries = changelog_from_reply(&reply);
    assert_eq!(entries.len(), 2);
    assert_eq!(entries[0].id, "h1");
    assert_eq!(entries[0].author, "Ann");
    assert_eq!(entries[0].items[0].field, "status");
    assert_eq!(entries[0].items[0].field_type, "jira");
    assert_eq!(entries[0].items[0].from_string, Some("To Do".to_string()));
    assert_eq!(entries[0].items[0].to_string, Some("Done".to_string()));
    assert_eq!(entries[1].created, "x");
    assert!(changelog_from_reply(&issue_reply(None)).is_empty());
}

#[test]
fn comments_reply_becomes_plain_comments() {
    let reply = CommentsResponse {
        comments: vec![CommentApi {
            id: "c1".to_string(),
            author: user("Bo"),
            created: "2025-10-03T09:00:00.000+0000".to_string(),
            updated: "2025-10-03T09:30:00.000+0000".to_string(),
            body: AdfDoc { content: Some(vec![block(vec![text("Hi")])]) },
        }],
        total: 1,
    };
    let comments = comments_from_reply(&reply);
    assert_eq!(comments.len(), 1);
    assert_eq!(comments[0].id, "c1");
    assert_eq!(comments[0].author, "Bo");
    assert_eq!(comments[0].updated, "2025-10-03T09:30:00.000+0000");
    assert_eq!(comments[0].body, "Hi");
}

#[test]
fn failed_update_replies_count_as_empty() {
    let (entries, comments) = updates_from_replies(&None, &None);
    assert!(entries.is_empty());
    assert!(comments.is_empty());
    let reply = issue_reply(Some(Changelog { histories: vec![history("h1", "t")] }));
    let (entries, comments) = updates_from_replies(&Some(reply), &None);
    assert_eq!(entries.len(), 1);
    assert!(comments.is_empty());
}

#[test]
fn success_statuses_are_the_2xx_ones() {
    assert!(!is_success(199));
    assert!(is_success(200));
    assert!(is_success(204));
    assert!(is_success(299));
    assert!(!is_success(300));
    assert!(!is_success(401));
}

#[test]
fn failed_status_names_request_and_status() {
    assert_eq!(check_status(RequestKind::Search, 200, "200 OK"), Ok(()));
    assert_eq!(
        check_status(RequestKind::Search, 401, "401 Unauthorized").unwrap_err(),
        "API request failed: 401 Unauthorized"
    );
    assert_eq!(
        check_status(RequestKind::Search, 403, "403 Forbidden").unwrap_err(),
        "API request failed: 403 Forbidden"
    );
    assert_eq!(
        check_status(RequestKind::WatchStatus, 404, "404 Not Found").unwrap_err(),
        "Failed to get watch status: 404 Not Found"
    );
    assert_eq!(
        check_status(RequestKind::Watch, 500, "500 Internal Server Error").unwrap_err(),
        "Failed to watch issue: 500 Internal Server Error"
    );
    assert_eq!(
        check_status(RequestKind::Unwatch, 400, "400 Bad Request").unwrap_err(),
        "Failed to unwatch issue: 400 Bad Request"
    );
}

#[test]
fn client_uses_basic_authentication() {
    let client = JiraClient::new(
        "https://jira.example".to_string(),
        "user@example.com".to_string(),
        "s3cr3t".to_string(),
    );
    assert_eq!(client.base_url, "https://jira.example");
    assert_eq!(client.auth_header, "Basic dXNlckBleGFtcGxlLmNvbTpzM2NyM3Q=");
    let client = JiraClient::new("u".to_string(), "jürgen".to_string(), "tök".to_string());
    assert_eq!(client.auth_header, "Basic asO8cmdlbjp0w7Zr");
}

fn client() -> JiraClient {
    JiraClient::new("https://jira.example".to_string(), "u".to_string(), "t".to_string())
}

#[test]
fn search_requests_ask_for_fifty_issues() {
    let c = client();
    let req = c.assigned_issues_request();
    assert_eq!(req.method, HttpMethod::Get);
    assert_eq!(req.url, "https://jira.example/rest/api/3/search/jql");
    assert_eq!(pairs(&req.headers), vec![("Authorization", c.auth_header.as_str()), ("Accept", "application/json")]);
    assert_eq!(
        pairs(&req.query),
        vec![
            ("jql", "assignee = currentUser() AND resolution = Unresolved ORDER BY updated DESC"),
            ("maxResults", "50"),
            ("fields", "summary,description,status,priority,assignee,reporter,created,updated"),
        ]
    );
    let req = c.recent_issues_request();
    assert_eq!(req.query[0].1, "updated >= -7d ORDER BY updated DESC");
}

#[test]
fn watcher_requests() {
    let c = client();
    let req = c.watch_status_request("PROJ-1");
    assert_eq!(req.method, HttpMethod::Get);
    assert_eq!(req.url, "https://jira.example/rest/api/3/issue/PROJ-1/watchers");
    assert!(req.query.is_empty());
    let req = c.watch_request("PROJ-1");
    assert_eq!(req.method, HttpMethod::Post);
    assert_eq!(req.url, "https://jira.example/rest/api/3/issue/PROJ-1/watchers");
    assert_eq!(req.headers[2], ("Content-Type".to_string(), "application/json".to_string()));
    let req = c.unwatch_request("PROJ-1");
    assert_eq!(req.method, HttpMethod::Delete);
    assert_eq!(pairs(&req.query), vec![("username", "")]);
    assert_eq!(req.headers.len(), 2);
}

#[test]
fn update_requests() {
    let c = client();
    assert_eq!(c.changelog_request("K-9").url, "https://jira.example/rest/api/3/issue/K-9?expand=changelog");
    assert_eq!(c.comments_request("K-9").url, "https://jira.example/rest/api/3/issue/K-9/comment");
    assert_eq!(c.comments_request("K-9").method, HttpMethod::Get);
}

fn page(keys: &[&str], is_last: bool, next: Option<&str>) -> JiraApiResponse {
    JiraApiResponse {
        issues: keys
            .iter()
            .map(|k| JiraApiIssue { id: k.to_string(), key: k.to_string(), fields: fields(None, None) })
            .collect(),
        is_last,
        next_page_token: next.map(|t| t.to_string()),
    }
}

#[test]
fn search_follows_pages_until_last() {
    let c = client();
    let mut pages = SearchPages::recent();
    let first = pages.next_request(&c).unwrap();
    assert_eq!(first.query.len(), 3);
    assert_eq!(first.query[0].1, "updated >= -7d ORDER BY updated DESC");
    pages.absorb(&page(&["R-1", "R-2"], false, Some("tok2")));
    let second = pages.next_request(&c).unwrap();
    assert_eq!(second.url, "https://jira.example/rest/api/3/search/jql");
    assert_eq!(second.query[3], ("nextPageToken".to_string(), "tok2".to_string()));
    pages.absorb(&page(&["R-3"], true, None));
    assert!(pages.next_request(&c).is_none());
    let keys: Vec<&str> = pages.issues.iter().map(|i| i.key.as_str()).collect();
    assert_eq!(keys, vec!["R-1", "R-2", "R-3"]);
}

#[test]
fn search_stops_without_next_token() {
    let c = client();
    let mut pages = SearchPages::assigned();
    assert_eq!(
        pages.next_request(&c).unwrap().query[0].1,
        "assignee = currentUser() AND resolution = Unresolved ORDER BY updated DESC"
    );
    pages.absorb(&page(&["A-1"], false, None));
    assert!(pages.finished);
    assert!(pages.next_request(&c).is_none());
    assert_eq!(pages.issues.len(), 1);
}

#[test]
fn page_request_names_the_token() {
    let c = client();
    let req = c.search_page_request("q", &Some("abc".to_string()));
    assert_eq!(pairs(&req.query)[3], ("nextPageToken", "abc"));
    assert_eq!(c.search_page_request("q", &None).query.len(), 3);
}

#[test]
fn assigned_and_recent_searches_agree_on_same_replies() {
    let c = client();
    let mut a = SearchPages::assigned();
    let mut r = SearchPages::recent();
    for reply in [page(&["X-1"], false, Some("n")), page(&["X-2", "X-3"], true, None)] {
        let (ra, rr) = (a.next_request(&c).unwrap(), r.next_request(&c).unwrap());
        assert_eq!(ra.url, rr.url);
        assert_eq!(ra.headers, rr.headers);
        assert_eq!(ra.query[1..], rr.query[1..]);
        a.absorb(&reply);
        let copy = JiraApiResponse {
            issues: reply.issues.iter().map(|i| JiraApiIssue { id: i.id.clone(), key: i.key.clone(), fields: fields(None, None) }).collect(),
            is_last: reply.is_last,
            next_page_token: reply.next_page_token.clone(),
        };
        r.absorb(&copy);
    }
    let ka: Vec<&str> = a.issues.iter().map(|i| i.key.as_str()).collect();
    let kr: Vec<&str> = r.issues.iter().map(|i| i.key.as_str()).collect();
    assert_eq!(ka, kr);
    assert!(a.next_request(&c).is_none() && r.next_request(&c).is_none());
}
