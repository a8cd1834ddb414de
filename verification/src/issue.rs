//! The issue model that the interface shows: issues, their change history
//! and their comments.

use vstd::prelude::*;

verus! {

/// The text of an optional string.
pub open spec fn opt_text(o: Option<String>) -> Option<Seq<char>> {
    match o {
        Some(s) => Some(s@),
        None => None,
    }
}

/// Copies an optional string.
pub fn clone_opt_text(o: &Option<String>) -> (res: Option<String>)
    ensures
        opt_text(res) == opt_text(*o),
{
    match o {
        Some(s) => Some(s.clone()),
        None => None,
    }
}

/// One field change inside a change-history entry.
pub struct ChangelogItem {
    pub field: String,
    pub field_type: String,
    pub from_string: Option<String>,
    pub to_string: Option<String>,
}

pub struct ChangelogItemView {
    pub field: Seq<char>,
    pub field_type: Seq<char>,
    pub from_string: Option<Seq<char>>,
    pub to_string: Option<Seq<char>>,
}

impl View for ChangelogItem {
    type V = ChangelogItemView;

    open spec fn view(&self) -> ChangelogItemView {
        ChangelogItemView {
            field: self.field@,
            field_type: self.field_type@,
            from_string: opt_text(self.from_string),
            to_string: opt_text(self.to_string),
        }
    }
}

impl Clone for ChangelogItem {
    fn clone(&self) -> (res: Self)
        ensures
            res@ == self@,
    {
        ChangelogItem {
            field: self.field.clone(),
            field_type: self.field_type.clone(),
            from_string: clone_opt_text(&self.from_string),
            to_string: clone_opt_text(&self.to_string),
        }
    }
}

/// One entry of an issue's change history.
pub struct ChangelogEntry {
    pub id: String,
    pub author: String,
    pub created: String,
    pub items: Vec<ChangelogItem>,
}

pub struct ChangelogEntryView {
    pub id: Seq<char>,
    pub author: Seq<char>,
    pub created: Seq<char>,
    pub items: Seq<ChangelogItemView>,
}

/// The views of a sequence of change items.
pub open spec fn item_views(items: Seq<ChangelogItem>) -> Seq<ChangelogItemView> {
    items.map_values(|i: ChangelogItem| i@)
}

impl View for ChangelogEntry {
    type V = ChangelogEntryView;

    open spec fn view(&self) -> ChangelogEntryView {
        ChangelogEntryView {
            id: self.id@,
            author: self.author@,
            created: self.created@,
            items: item_views(self.items@),
        }
    }
}

impl Clone for ChangelogEntry {
    fn clone(&self) -> (res: Self)
        ensures
            res@ == self@,
    {
        let items = self.items.clone();
        assert(item_views(items@) =~= item_views(self.items@));
        ChangelogEntry {
            id: self.id.clone(),
            author: self.author.clone(),
            created: self.created.clone(),
            items,
        }
    }
}

/// A comment on an issue, with its body as plain text.
pub struct Comment {
    pub id: String,
    pub author: String,
    pub created: String,
    pub updated: String,
    pub body: String,
}

pub struct CommentView {
    pub id: Seq<char>,
    pub author: Seq<char>,
    pub created: Seq<char>,
    pub updated: Seq<char>,
    pub body: Seq<char>,
}

impl View for Comment {
    type V = CommentView;

    open spec fn view(&self) -> CommentView {
        CommentView {
            id: self.id@,
            author: self.author@,
            created: self.created@,
            updated: self.updated@,
            body: self.body@,
        }
    }
}

impl Clone for Comment {
    fn clone(&self) -> (res: Self)
        ensures
            res@ == self@,
    {
        Comment {
            id: self.id.clone(),
            author: self.author.clone(),
            created: self.created.clone(),
            updated: self.updated.clone(),
            body: self.body.clone(),
        }
    }
}

/// An issue as the interface shows it.
pub struct JiraIssue {
    pub id: String,
    pub key: String,
    pub summary: String,
    pub description: Option<String>,
    pub status: String,
    pub priority: String,
    pub assignee: Option<String>,
    pub reporter: String,
    pub created: String,
    pub updated: String,
    pub is_watching: Option<bool>,
    pub changelog: Option<Vec<ChangelogEntry>>,
    pub comments: Option<Vec<Comment>>,
}

pub struct JiraIssueView {
    pub id: Seq<char>,
    pub key: Seq<char>,
    pub summary: Seq<char>,
    pub description: Option<Seq<char>>,
    pub status: Seq<char>,
    pub priority: Seq<char>,
    pub assignee: Option<Seq<char>>,
    pub reporter: Seq<char>,
    pub created: Seq<char>,
    pub updated: Seq<char>,
    pub is_watching: Option<bool>,
    pub changelog: Option<Seq<ChangelogEntryView>>,
    pub comments: Option<Seq<CommentView>>,
}

/// The views of a sequence of change-history entries.
pub open spec fn entry_views(entries: Seq<ChangelogEntry>) -> Seq<ChangelogEntryView> {
    entries.map_values(|e: ChangelogEntry| e@)
}

/// The views of a sequence of comments.
pub open spec fn comment_views(comments: Seq<Comment>) -> Seq<CommentView> {
    comments.map_values(|c: Comment| c@)
}

/// The views of a sequence of issues.
pub open spec fn issue_views(issues: Seq<JiraIssue>) -> Seq<JiraIssueView> {
    issues.map_values(|i: JiraIssue| i@)
}

/// The view of an optional change history.
pub open spec fn opt_entry_views(o: Option<Vec<ChangelogEntry>>) -> Option<Seq<ChangelogEntryView>> {
    match o {
        Some(v) => Some(entry_views(v@)),
        None => None,
    }
}

/// The view of an optional comment list.
pub open spec fn opt_comment_views(o: Option<Vec<Comment>>) -> Option<Seq<CommentView>> {
    match o {
        Some(v) => Some(comment_views(v@)),
        None => None,
    }
}

impl View for JiraIssue {
    type V = JiraIssueView;

    open spec fn view(&self) -> JiraIssueView {
        JiraIssueView {
            id: self.id@,
            key: self.key@,
            summary: self.summary@,
            description: opt_text(self.description),
            status: self.status@,
            priority: self.priority@,
            assignee: opt_text(self.assignee),
            reporter: self.reporter@,
            created: self.created@,
            updated: self.updated@,
            is_watching: self.is_watching,
            changelog: opt_entry_views(self.changelog),
            comments: opt_comment_views(self.comments),
        }
    }
}

fn clone_entries(o: &Option<Vec<ChangelogEntry>>) -> (res: Option<Vec<ChangelogEntry>>)
    ensures
        opt_entry_views(res) == opt_entry_views(*o),
{
    match o {
        Some(v) => {
            let c = v.clone();
            assert(entry_views(c@) =~= entry_views(v@));
            Some(c)
        },
        None => None,
    }
}

fn clone_comments(o: &Option<Vec<Comment>>) -> (res: Option<Vec<Comment>>)
    ensures
        opt_comment_views(res) == opt_comment_views(*o),
{
    match o {
        Some(v) => {
            let c = v.clone();
            assert(comment_views(c@) =~= comment_views(v@));
            Some(c)
        },
        None => None,
    }
}

impl Clone for JiraIssue {
    fn clone(&self) -> (res: Self)
        ensures
            res@ == self@,
    {
        JiraIssue {
            id: self.id.clone(),
            key: self.key.clone(),
            summary: self.summary.clone(),
            description: clone_opt_text(&self.description),
            status: self.status.clone(),
            priority: self.priority.clone(),
            assignee: clone_opt_text(&self.assignee),
            reporter: self.reporter.clone(),
            created: self.created.clone(),
            updated: self.updated.clone(),
            is_watching: self.is_watching,
            changelog: clone_entries(&self.changelog),
            comments: clone_comments(&self.comments),
        }
    }
}

/// The browser address of the issue with key `key` on the server at `base_url`.
pub open spec fn issue_url(base_url: Seq<char>, key: Seq<char>) -> Seq<char> {
    base_url + "/browse/"@ + key
}

impl JiraIssue {
    /// The address at which a browser shows this issue.
    pub fn get_url(&self, base_url: &str) -> (res: String)
        ensures
            res@ == issue_url(base_url@, self.key@),
    {
        let mut res = base_url.to_owned();
        res.append("/browse/");
        res.append(self.key.as_str());
        res
    }
}

} // verus!
