//! The text that the interface shows: tab bar, help line, list titles,
//! colours and the issue details.

use vstd::prelude::*;
use crate::app::{StatusColumn, Tab};
use crate::issue::{
    ChangelogEntry, ChangelogEntryView, ChangelogItem, ChangelogItemView, Comment, CommentView,
    JiraIssue, JiraIssueView, entry_views, comment_views, issue_url,
};
use crate::recency::{text_recent_at, is_text_recent_at};
use crate::text::{decimal, decimal_text, first_chars, first_chars_text, join, join_strings, string_views, text_equals};

verus! {

broadcast use vstd::utf8::group_utf8_lib;

/// The colours that statuses and priorities are drawn in.
#[derive(PartialEq, Eq, Structural, Clone, Copy, Debug)]
pub enum IssueColor {
    Red,
    Yellow,
    Green,
    Blue,
    White,
}

/// The colour of a priority: red for the high ones, yellow for medium,
/// green for the low ones, white otherwise.
pub open spec fn priority_color_of(priority: Seq<char>) -> IssueColor {
    if priority == "Highest"@ || priority == "High"@ {
        IssueColor::Red
    } else if priority == "Medium"@ {
        IssueColor::Yellow
    } else if priority == "Low"@ || priority == "Lowest"@ {
        IssueColor::Green
    } else {
        IssueColor::White
    }
}

/// The colour of a priority.
pub fn priority_color(priority: &str) -> (res: IssueColor)
    ensures
        res == priority_color_of(priority@),
{
    if text_equals(priority, "Highest") || text_equals(priority, "High") {
        IssueColor::Red
    } else if text_equals(priority, "Medium") {
        IssueColor::Yellow
    } else if text_equals(priority, "Low") || text_equals(priority, "Lowest") {
        IssueColor::Green
    } else {
        IssueColor::White
    }
}

/// The colour of a status: green for finished work, yellow for work under
/// way, blue for work not started, white otherwise.
pub open spec fn status_color_of(status: Seq<char>) -> IssueColor {
    if status == "Done"@ || status == "Closed"@ || status == "Resolved"@ || status == "해결됨"@
        || status == "완료"@ {
        IssueColor::Green
    } else if status == "In Progress"@ || status == "In Review"@ || status == "진행 중"@ {
        IssueColor::Yellow
    } else if status == "To Do"@ || status == "Open"@ || status == "해야 할 일"@ || status
        == "PENDING"@ {
        IssueColor::Blue
    } else {
        IssueColor::White
    }
}

/// The colour of a status.
pub fn status_color(status: &str) -> (res: IssueColor)
    ensures
        res == status_color_of(status@),
{
    if text_equals(status, "Done") || text_equals(status, "Closed") || text_equals(status, "Resolved")
        || text_equals(status, "해결됨") || text_equals(status, "완료") {
        IssueColor::Green
    } else if text_equals(status, "In Progress") || text_equals(status, "In Review") || text_equals(
        status,
        "진행 중",
    ) {
        IssueColor::Yellow
    } else if text_equals(status, "To Do") || text_equals(status, "Open") || text_equals(
        status,
        "해야 할 일",
    ) || text_equals(status, "PENDING") {
        IssueColor::Blue
    } else {
        IssueColor::White
    }
}

/// The tab bar: the current tab in brackets.
pub open spec fn tab_text_of(tab: Tab) -> Seq<char> {
    (if tab == Tab::Assigned { "[Assigned]"@ } else { " Assigned "@ }) + " | "@ + (if tab == Tab::Recent {
        "[Recent]"@
    } else {
        " Recent "@
    })
}

/// The tab bar.
pub fn tab_text(tab: Tab) -> (res: String)
    ensures
        res@ == tab_text_of(tab),
{
    let mut res = if tab == Tab::Assigned { "[Assigned]".to_owned() } else { " Assigned ".to_owned() };
    res.append(" | ");
    res.append(if tab == Tab::Recent { "[Recent]" } else { " Recent " });
    res
}

/// The help line.
pub open spec fn help_text_of(show_details: bool, tab: Tab) -> Seq<char> {
    if show_details {
        "Press 'Esc' or 'q' to close details | 'w' to toggle watch | Copy the URL to open in your browser"@
    } else if tab == Tab::Assigned {
        "↑/k: Up | ↓/j: Down | ←/h: Left | →/l: Right | Enter/Space: Details | Tab: Switch tabs | r: Refresh | q: Quit"@
    } else {
        "↑/k: Up | ↓/j: Down | Enter/Space: Details | Tab: Switch tabs | r: Refresh | q: Quit"@
    }
}

/// The help line.
pub fn help_text(show_details: bool, tab: Tab) -> (res: String)
    ensures
        res@ == help_text_of(show_details, tab),
{
    if show_details {
        "Press 'Esc' or 'q' to close details | 'w' to toggle watch | Copy the URL to open in your browser".to_owned()
    } else if tab == Tab::Assigned {
        "↑/k: Up | ↓/j: Down | ←/h: Left | →/l: Right | Enter/Space: Details | Tab: Switch tabs | r: Refresh | q: Quit".to_owned()
    } else {
        "↑/k: Up | ↓/j: Down | Enter/Space: Details | Tab: Switch tabs | r: Refresh | q: Quit".to_owned()
    }
}

/// The heading of a board column.
pub open spec fn column_heading_of(column: StatusColumn) -> Seq<char> {
    match column {
        StatusColumn::Todo => "To Do"@,
        StatusColumn::InProgress => "In Progress"@,
        StatusColumn::Done => "Done"@,
    }
}

/// The heading of a board column.
pub fn column_heading(column: StatusColumn) -> (res: String)
    ensures
        res@ == column_heading_of(column),
{
    match column {
        StatusColumn::Todo => "To Do".to_owned(),
        StatusColumn::InProgress => "In Progress".to_owned(),
        StatusColumn::Done => "Done".to_owned(),
    }
}

/// The 1-based position of a selection; 0 where nothing is selected.
pub open spec fn position_of(selection: Option<usize>) -> nat {
    match selection {
        Some(i) => (i + 1) as nat,
        None => 0,
    }
}

/// `title (total)`, followed by ` - position/total` where `counted` holds.
pub open spec fn counted_title(title: Seq<char>, total: nat, position: nat, counted: bool) -> Seq<char> {
    if counted {
        title + " ("@ + decimal(total) + ") - "@ + decimal(position) + "/"@ + decimal(total)
    } else {
        title + " ("@ + decimal(total) + ")"@
    }
}

fn counted_title_text(title: &str, total: usize, position: usize, counted: bool) -> (res: String)
    ensures
        res@ == counted_title(title@, total as nat, position as nat, counted),
{
    let mut res = title.to_owned();
    res.append(" (");
    res.append(decimal_text(total).as_str());
    if counted {
        res.append(") - ");
        res.append(decimal_text(position).as_str());
        res.append("/");
        res.append(decimal_text(total).as_str());
    } else {
        res.append(")");
    }
    res
}

/// The title of a board column with `total` issues; the position of the
/// selection is shown in the column that has the focus.
pub fn status_column_title(title: &str, total: usize, selection: Option<usize>, is_selected: bool) -> (res: String)
    requires
        selection != Some(usize::MAX),
    ensures
        res@ == counted_title(
            title@,
            total as nat,
            position_of(selection),
            total > 0 && position_of(selection) > 0 && is_selected,
        ),
{
    let position: usize = match selection {
        Some(i) => i + 1,
        None => 0,
    };
    counted_title_text(title, total, position, total > 0 && position > 0 && is_selected)
}

/// The title of the list of recent issues.
pub fn recent_issues_title(total: usize, selection: Option<usize>) -> (res: String)
    requires
        selection != Some(usize::MAX),
    ensures
        res@ == counted_title(
            "Recent Issues"@,
            total as nat,
            position_of(selection),
            total > 0 && position_of(selection) > 0,
        ),
{
    let position: usize = match selection {
        Some(i) => i + 1,
        None => 0,
    };
    counted_title_text("Recent Issues", total, position, total > 0 && position > 0)
}

/// The assignee's name, or "Unassigned".
pub open spec fn assignee_text_of(issue: JiraIssueView) -> Seq<char> {
    match issue.assignee {
        Some(a) => a,
        None => "Unassigned"@,
    }
}

/// The assignee's name, or "Unassigned".
pub fn assignee_text(issue: &JiraIssue) -> (res: String)
    ensures
        res@ == assignee_text_of(issue@),
{
    match &issue.assignee {
        Some(a) => a.clone(),
        None => "Unassigned".to_owned(),
    }
}

// ---------------------------------------------------------------------------
// Issue details.

/// At most the first `n` elements of `s`.
pub open spec fn at_most<T>(s: Seq<T>, n: nat) -> Seq<T> {
    if s.len() <= n {
        s
    } else {
        s.take(n as int)
    }
}

/// The history entries created in the seven days before `now`, in order.
pub open spec fn recent_entries(entries: Seq<ChangelogEntryView>, now: Option<u128>) -> Seq<ChangelogEntryView>
    decreases entries.len(),
{
    if entries.len() == 0 {
        Seq::empty()
    } else {
        let rest = recent_entries(entries.drop_last(), now);
        if text_recent_at(entries.last().created, now) {
            rest.push(entries.last())
        } else {
            rest
        }
    }
}

/// The comments created in the seven days before `now`, in order.
pub open spec fn recent_comments(comments: Seq<CommentView>, now: Option<u128>) -> Seq<CommentView>
    decreases comments.len(),
{
    if comments.len() == 0 {
        Seq::empty()
    } else {
        let rest = recent_comments(comments.drop_last(), now);
        if text_recent_at(comments.last().created, now) {
            rest.push(comments.last())
        } else {
            rest
        }
    }
}

/// The history entries that the details show: the first five recent ones.
pub open spec fn shown_entries(entries: Seq<ChangelogEntryView>, now: Option<u128>) -> Seq<ChangelogEntryView> {
    at_most(recent_entries(entries, now), 5)
}

/// The comments that the details show: the first three recent ones.
pub open spec fn shown_comments(comments: Seq<CommentView>, now: Option<u128>) -> Seq<CommentView> {
    at_most(recent_comments(comments, now), 3)
}

/// Whether the first 19 bytes of a timestamp end on a character boundary,
/// which cutting them off needs.
pub open spec fn stamp_cuttable(stamp: Seq<char>) -> bool {
    vstd::utf8::is_char_boundary(vstd::utf8::encode_utf8(stamp), 19)
}

/// The first 19 bytes of a timestamp, as characters.
pub open spec fn stamp_head(stamp: Seq<char>) -> Seq<char> {
    vstd::utf8::decode_utf8(vstd::utf8::encode_utf8(stamp).subrange(0, 19))
}

/// `s` with each `T` replaced by a space.
pub open spec fn t_to_space(s: Seq<char>) -> Seq<char> {
    s.map_values(|c: char| if c == 'T' { ' ' } else { c })
}

/// How a timestamp is shown: its first 19 bytes with `T` replaced by a space.
pub open spec fn short_stamp(stamp: Seq<char>) -> Seq<char> {
    t_to_space(stamp_head(stamp))
}

/// How one field change is shown.
pub open spec fn change_text(item: ChangelogItemView) -> Seq<char> {
    match (item.from_string, item.to_string) {
        (Some(from), Some(to)) => item.field + ": "@ + from + " → "@ + to,
        (_, Some(to)) => item.field + ": "@ + to,
        _ => item.field + ": updated"@,
    }
}

/// How one history entry is shown.
pub open spec fn entry_line(entry: ChangelogEntryView) -> Seq<char> {
    short_stamp(entry.created) + " by "@ + entry.author + " - "@ + join(
        entry.items.map_values(|i: ChangelogItemView| change_text(i)),
        ", "@,
    )
}

/// How one comment is shown: at most the first 100 characters of its body.
pub open spec fn comment_line(comment: CommentView) -> Seq<char> {
    short_stamp(comment.created) + " by "@ + comment.author + " - "@ + first_chars(comment.body, 100)
}

/// The updates section of the details.
pub open spec fn updates_text_of(changelog: Option<Seq<ChangelogEntryView>>, now: Option<u128>) -> Seq<char> {
    match changelog {
        Some(entries) => {
            let shown = shown_entries(entries, now);
            if shown.len() == 0 {
                "No recent changes (last 7 days)"@
            } else {
                join(shown.map_values(|e: ChangelogEntryView| entry_line(e)), "\n"@)
            }
        },
        None => "Loading updates..."@,
    }
}

/// The comments section of the details.
pub open spec fn comments_text_of(comments: Option<Seq<CommentView>>, now: Option<u128>) -> Seq<char> {
    match comments {
        Some(cs) => {
            let shown = shown_comments(cs, now);
            if shown.len() == 0 {
                "No recent comments (last 7 days)"@
            } else {
                join(shown.map_values(|c: CommentView| comment_line(c)), "\n"@)
            }
        },
        None => "Loading comments..."@,
    }
}

/// The watch line of the details.
pub open spec fn watch_text_of(is_watching: Option<bool>) -> Seq<char> {
    match is_watching {
        Some(true) => "Watching ✓"@,
        Some(false) => "Not watching"@,
        None => "Loading watch status..."@,
    }
}

/// Whether every history timestamp that the details cut short can be cut.
pub open spec fn entries_cuttable(changelog: Option<Seq<ChangelogEntryView>>, now: Option<u128>) -> bool {
    match changelog {
        Some(entries) => all_entries_cuttable(shown_entries(entries, now)),
        None => true,
    }
}

/// Whether the timestamps of all the entries can be cut.
pub open spec fn all_entries_cuttable(entries: Seq<ChangelogEntryView>) -> bool {
    forall|i: int| 0 <= i < entries.len() ==> stamp_cuttable(#[trigger] entries[i].created)
}

/// Whether every comment timestamp that the details cut short can be cut.
pub open spec fn comments_cuttable(comments: Option<Seq<CommentView>>, now: Option<u128>) -> bool {
    match comments {
        Some(cs) => all_comments_cuttable(shown_comments(cs, now)),
        None => true,
    }
}

/// Whether the timestamps of all the comments can be cut.
pub open spec fn all_comments_cuttable(comments: Seq<CommentView>) -> bool {
    forall|i: int| 0 <= i < comments.len() ==> stamp_cuttable(#[trigger] comments[i].created)
}

/// Whether every timestamp that the details cut short can be cut.
pub open spec fn details_cuttable(issue: JiraIssueView, now: Option<u128>) -> bool {
    entries_cuttable(issue.changelog, now) && comments_cuttable(issue.comments, now)
}

/// The details of an issue as shown at time `now`.
pub open spec fn details_text_of(issue: JiraIssueView, base_url: Seq<char>, now: Option<u128>) -> Seq<char> {
    "Key: "@ + issue.key + "\n\nSummary: "@ + issue.summary + "\n\nURL: "@ + issue_url(base_url, issue.key)
        + "\n\nStatus: "@ + issue.status + "\nPriority: "@ + issue.priority + "\nAssignee: "@
        + assignee_text_of(issue) + "\nReporter: "@ + issue.reporter + "\nWatching: "@
        + watch_text_of(issue.is_watching) + "\nCreated: "@ + issue.created + "\nUpdated: "@
        + issue.updated + "\n\nDescription:\n"@ + (match issue.description {
        Some(d) => d,
        None => "No description available"@,
    }) + "\n\nRecent Updates (Last 7 Days):\n"@ + updates_text_of(issue.changelog, now)
        + "\n\nRecent Comments (Last 7 Days):\n"@ + comments_text_of(issue.comments, now)
}

/// `s` with each `T` replaced by a space.
pub fn t_to_space_text(s: &str) -> (res: String)
    ensures
        res@ == t_to_space(s@),
{
    let n = s.unicode_len();
    let mut res = String::new();
    let mut i: usize = 0;
    while i < n
        invariant
            i <= n,
            n == s@.len(),
            res@ == t_to_space(s@.take(i as int)),
        decreases n - i,
    {
        let c = s.get_char(i);
        if c == 'T' {
            res.append(" ");
            proof {
                reveal_strlit(" ");
            }
        } else {
            res.append(s.substring_char(i, i + 1));
        }
        assert(t_to_space(s@.take(i + 1)) =~= t_to_space(s@.take(i as int)).push(
            if c == 'T' { ' ' } else { c },
        ));
        i = i + 1;
    }
    assert(s@.take(n as int) =~= s@);
    res
}

/// How a timestamp is shown: its first 19 bytes with `T` replaced by a space.
pub fn short_stamp_text(stamp: &str) -> (res: String)
    requires
        stamp_cuttable(stamp@),
    ensures
        res@ == short_stamp(stamp@),
{
    let (head, _rest) = stamp.split_at(19);
    proof {
        vstd::utf8::encode_utf8_decode_utf8(head@);
    }
    t_to_space_text(head)
}

fn concat4(a: &str, b: &str, c: &str, d: &str) -> (res: String)
    ensures
        res@ == a@ + b@ + c@ + d@,
{
    let mut s = a.to_owned();
    s.append(b);
    s.append(c);
    s.append(d);
    s
}

/// How one field change is shown.
pub fn change_text_of(item: &ChangelogItem) -> (res: String)
    ensures
        res@ == change_text(item@),
{
    match (&item.from_string, &item.to_string) {
        (Some(from), Some(to)) => {
            let mut s = concat4(item.field.as_str(), ": ", from.as_str(), " → ");
            s.append(to.as_str());
            s
        },
        (_, Some(to)) => {
            let mut s = item.field.clone();
            s.append(": ");
            s.append(to.as_str());
            s
        },
        _ => {
            let mut s = item.field.clone();
            s.append(": updated");
            s
        },
    }
}

/// How one history entry is shown.
pub fn entry_line_text(entry: &ChangelogEntry) -> (res: String)
    requires
        stamp_cuttable(entry.created@),
    ensures
        res@ == entry_line(entry@),
{
    let ghost changes = entry@.items.map_values(|i: ChangelogItemView| change_text(i));
    let mut parts: Vec<String> = Vec::new();
    let mut i: usize = 0;
    while i < entry.items.len()
        invariant
            i <= entry.items.len(),
            changes == entry@.items.map_values(|i: ChangelogItemView| change_text(i)),
            string_views(parts@) == changes.take(i as int),
        decreases entry.items.len() - i,
    {
        let t = change_text_of(&entry.items[i]);
        let ghost prev = parts@;
        parts.push(t);
        assert(string_views(parts@) =~= string_views(prev).push(t@));
        assert(string_views(parts@) =~= changes.take(i + 1));
        i = i + 1;
    }
    assert(changes.take(i as int) =~= changes);
    let mut line = short_stamp_text(entry.created.as_str());
    line.append(" by ");
    line.append(entry.author.as_str());
    line.append(" - ");
    line.append(join_strings(&parts, ", ").as_str());
    line
}

/// How one comment is shown.
pub fn comment_line_text(comment: &Comment) -> (res: String)
    requires
        stamp_cuttable(comment.created@),
    ensures
        res@ == comment_line(comment@),
{
    let mut line = short_stamp_text(comment.created.as_str());
    line.append(" by ");
    line.append(comment.author.as_str());
    line.append(" - ");
    line.append(first_chars_text(comment.body.as_str(), 100).as_str());
    line
}

/// The views of a list of history-entry references.
pub open spec fn entry_ref_views(s: Seq<&ChangelogEntry>) -> Seq<ChangelogEntryView> {
    s.map_values(|e: &ChangelogEntry| e@)
}

/// The views of a list of comment references.
pub open spec fn comment_ref_views(s: Seq<&Comment>) -> Seq<CommentView> {
    s.map_values(|c: &Comment| c@)
}

/// The history entries that the details show at `now`.
pub fn shown_entry_refs(entries: &Vec<ChangelogEntry>, now: Option<u128>) -> (res: Vec<&ChangelogEntry>)
    ensures
        entry_ref_views(res@) == shown_entries(entry_views(entries@), now),
{
    let ghost all = entry_views(entries@);
    let mut res: Vec<&ChangelogEntry> = Vec::new();
    let mut i: usize = 0;
    while i < entries.len()
        invariant
            i <= entries.len(),
            all == entry_views(entries@),
            entry_ref_views(res@) == at_most(recent_entries(all.take(i as int), now), 5),
        decreases entries.len() - i,
    {
        let e = &entries[i];
        let ghost before = recent_entries(all.take(i as int), now);
        proof {
            assert(all.take(i + 1).drop_last() =~= all.take(i as int));
            assert(all.take(i + 1).last() == e@);
        }
        if res.len() < 5 && is_text_recent_at(e.created.as_str(), now) {
            let ghost prev = res@;
            res.push(e);
            assert(entry_ref_views(res@) =~= entry_ref_views(prev).push(e@));
        } else if res.len() >= 5 {
            let ghost after = recent_entries(all.take(i + 1), now);
            assert(at_most(after, 5) =~= at_most(before, 5));
        }
        i = i + 1;
    }
    assert(all.take(entries.len() as int) =~= all);
    res
}

/// The comments that the details show at `now`.
pub fn shown_comment_refs(comments: &Vec<Comment>, now: Option<u128>) -> (res: Vec<&Comment>)
    ensures
        comment_ref_views(res@) == shown_comments(comment_views(comments@), now),
{
    let ghost all = comment_views(comments@);
    let mut res: Vec<&Comment> = Vec::new();
    let mut i: usize = 0;
    while i < comments.len()
        invariant
            i <= comments.len(),
            all == comment_views(comments@),
            comment_ref_views(res@) == at_most(recent_comments(all.take(i as int), now), 3),
        decreases comments.len() - i,
    {
        let c = &comments[i];
        let ghost before = recent_comments(all.take(i as int), now);
        proof {
            assert(all.take(i + 1).drop_last() =~= all.take(i as int));
            assert(all.take(i + 1).last() == c@);
        }
        if res.len() < 3 && is_text_recent_at(c.created.as_str(), now) {
            let ghost prev = res@;
            res.push(c);
            assert(comment_ref_views(res@) =~= comment_ref_views(prev).push(c@));
        } else if res.len() >= 3 {
            let ghost after = recent_comments(all.take(i + 1), now);
            assert(at_most(after, 3) =~= at_most(before, 3));
        }
        i = i + 1;
    }
    assert(all.take(comments.len() as int) =~= all);
    res
}

/// The updates section of the details.
pub fn updates_text(changelog: &Option<Vec<ChangelogEntry>>, now: Option<u128>) -> (res: String)
    requires
        entries_cuttable(crate::issue::opt_entry_views(*changelog), now),
    ensures
        res@ == updates_text_of(crate::issue::opt_entry_views(*changelog), now),
{
    match changelog {
        Some(entries) => {
            let shown = shown_entry_refs(entries, now);
            if shown.len() == 0 {
                return "No recent changes (last 7 days)".to_owned();
            }
            let ghost sv = shown_entries(entry_views(entries@), now);
            assert(crate::issue::opt_entry_views(*changelog) == Some(entry_views(entries@)));
            assert(all_entries_cuttable(sv));
            let ghost lines_view = sv.map_values(|e: ChangelogEntryView| entry_line(e));
            let mut lines: Vec<String> = Vec::new();
            let mut j: usize = 0;
            while j < shown.len()
                invariant
                    j <= shown.len(),
                    entry_ref_views(shown@) == sv,
                    lines_view == sv.map_values(|e: ChangelogEntryView| entry_line(e)),
                    forall|i: int| 0 <= i < sv.len() ==> stamp_cuttable(#[trigger] sv[i].created),
                    string_views(lines@) == lines_view.take(j as int),
                decreases shown.len() - j,
            {
                assert(sv[j as int] == shown@[j as int]@);
                assert(stamp_cuttable(sv[j as int].created));
                let line = entry_line_text(shown[j]);
                let ghost prev = lines@;
                lines.push(line);
                assert(string_views(lines@) =~= string_views(prev).push(line@));
                assert(string_views(lines@) =~= lines_view.take(j + 1));
                j = j + 1;
            }
            assert(lines_view.take(j as int) =~= lines_view);
            join_strings(&lines, "\n")
        },
        None => "Loading updates...".to_owned(),
    }
}

/// The comments section of the details.
pub fn comments_text(comments: &Option<Vec<Comment>>, now: Option<u128>) -> (res: String)
    requires
        comments_cuttable(crate::issue::opt_comment_views(*comments), now),
    ensures
        res@ == comments_text_of(crate::issue::opt_comment_views(*comments), now),
{
    match comments {
        Some(cs) => {
            let shown = shown_comment_refs(cs, now);
            if shown.len() == 0 {
                return "No recent comments (last 7 days)".to_owned();
            }
            let ghost sv = shown_comments(comment_views(cs@), now);
            assert(crate::issue::opt_comment_views(*comments) == Some(comment_views(cs@)));
            assert(all_comments_cuttable(sv));
            let ghost lines_view = sv.map_values(|c: CommentView| comment_line(c));
            let mut lines: Vec<String> = Vec::new();
            let mut j: usize = 0;
            while j < shown.len()
                invariant
                    j <= shown.len(),
                    comment_ref_views(shown@) == sv,
                    lines_view == sv.map_values(|c: CommentView| comment_line(c)),
                    forall|i: int| 0 <= i < sv.len() ==> stamp_cuttable(#[trigger] sv[i].created),
                    string_views(lines@) == lines_view.take(j as int),
                decreases shown.len() - j,
            {
                assert(sv[j as int] == shown@[j as int]@);
                assert(stamp_cuttable(sv[j as int].created));
                let line = comment_line_text(shown[j]);
                let ghost prev = lines@;
                lines.push(line);
                assert(string_views(lines@) =~= string_views(prev).push(line@));
                assert(string_views(lines@) =~= lines_view.take(j + 1));
                j = j + 1;
            }
            assert(lines_view.take(j as int) =~= lines_view);
            join_strings(&lines, "\n")
        },
        None => "Loading comments...".to_owned(),
    }
}

/// Whether every history timestamp that the details shown at `now` cut
/// short can be cut.
pub fn entries_cuttable_at(changelog: &Option<Vec<ChangelogEntry>>, now: Option<u128>) -> (res: bool)
    ensures
        res == entries_cuttable(crate::issue::opt_entry_views(*changelog), now),
{
    match changelog {
        Some(entries) => {
            let shown = shown_entry_refs(entries, now);
            let ghost sv = shown_entries(entry_views(entries@), now);
            assert(crate::issue::opt_entry_views(*changelog) == Some(entry_views(entries@)));
            let mut j: usize = 0;
            while j < shown.len()
                invariant
                    j <= shown.len(),
                    entry_ref_views(shown@) == sv,
                    forall|i: int| 0 <= i < j ==> stamp_cuttable(#[trigger] sv[i].created),
                    sv == shown_entries(entry_views(entries@), now),
                    crate::issue::opt_entry_views(*changelog) == Some(entry_views(entries@)),
                decreases shown.len() - j,
            {
                assert(sv[j as int] == shown@[j as int]@);
                if !shown[j].created.as_str().is_char_boundary(19) {
                    assert(!stamp_cuttable(sv[j as int].created));
                    assert(!all_entries_cuttable(sv));
                    return false;
                }
                j = j + 1;
            }
            true
        },
        None => true,
    }
}

/// Whether every comment timestamp that the details shown at `now` cut
/// short can be cut.
pub fn comments_cuttable_at(comments: &Option<Vec<Comment>>, now: Option<u128>) -> (res: bool)
    ensures
        res == comments_cuttable(crate::issue::opt_comment_views(*comments), now),
{
    match comments {
        Some(cs) => {
            let shown = shown_comment_refs(cs, now);
            let ghost sv = shown_comments(comment_views(cs@), now);
            assert(crate::issue::opt_comment_views(*comments) == Some(comment_views(cs@)));
            let mut j: usize = 0;
            while j < shown.len()
                invariant
                    j <= shown.len(),
                    comment_ref_views(shown@) == sv,
                    forall|i: int| 0 <= i < j ==> stamp_cuttable(#[trigger] sv[i].created),
                    sv == shown_comments(comment_views(cs@), now),
                    crate::issue::opt_comment_views(*comments) == Some(comment_views(cs@)),
                decreases shown.len() - j,
            {
                assert(sv[j as int] == shown@[j as int]@);
                if !shown[j].created.as_str().is_char_boundary(19) {
                    assert(!stamp_cuttable(sv[j as int].created));
                    assert(!all_comments_cuttable(sv));
                    return false;
                }
                j = j + 1;
            }
            true
        },
        None => true,
    }
}

/// Whether every timestamp that the details shown at `now` cut short can be
/// cut.
pub fn details_cuttable_at(issue: &JiraIssue, now: Option<u128>) -> (res: bool)
    ensures
        res == details_cuttable(issue@, now),
{
    entries_cuttable_at(&issue.changelog, now) && comments_cuttable_at(&issue.comments, now)
}

/// The watch line of the details.
pub fn watch_text(is_watching: Option<bool>) -> (res: String)
    ensures
        res@ == watch_text_of(is_watching),
{
    match is_watching {
        Some(true) => "Watching ✓".to_owned(),
        Some(false) => "Not watching".to_owned(),
        None => "Loading watch status...".to_owned(),
    }
}

/// The details of an issue as shown at time `now`.
pub fn details_text_at(issue: &JiraIssue, base_url: &str, now: Option<u128>) -> (res: String)
    requires
        details_cuttable(issue@, now),
    ensures
        res@ == details_text_of(issue@, base_url@, now),
{
    let mut t = "Key: ".to_owned();
    t.append(issue.key.as_str());
    t.append("\n\nSummary: ");
    t.append(issue.summary.as_str());
    t.append("\n\nURL: ");
    t.append(issue.get_url(base_url).as_str());
    t.append("\n\nStatus: ");
    t.append(issue.status.as_str());
    t.append("\nPriority: ");
    t.append(issue.priority.as_str());
    t.append("\nAssignee: ");
    t.append(assignee_text(issue).as_str());
    t.append("\nReporter: ");
    t.append(issue.reporter.as_str());
    t.append("\nWatching: ");
    t.append(watch_text(issue.is_watching).as_str());
    t.append("\nCreated: ");
    t.append(issue.created.as_str());
    t.append("\nUpdated: ");
    t.append(issue.updated.as_str());
    t.append("\n\nDescription:\n");
    match &issue.description {
        Some(d) => t.append(d.as_str()),
        None => t.append("No description available"),
    }
    t.append("\n\nRecent Updates (Last 7 Days):\n");
    t.append(updates_text(&issue.changelog, now).as_str());
    t.append("\n\nRecent Comments (Last 7 Days):\n");
    t.append(comments_text(&issue.comments, now).as_str());
    t
}

/// The details of an issue as shown now; `None` where a timestamp that the
/// details cut short to 19 bytes is shorter or does not allow the cut.
pub fn details_text(issue: &JiraIssue, base_url: &str) -> (res: Option<String>)
    ensures
        exists|now: Option<u128>|
            if #[trigger] details_cuttable(issue@, now) {
                res matches Some(t) && t@ == details_text_of(issue@, base_url@, now)
            } else {
                res is None
            },
{
    let now = crate::recency::unix_now_nanos();
    if details_cuttable_at(issue, now) {
        Some(details_text_at(issue, base_url, now))
    } else {
        assert(!details_cuttable(issue@, now));
        None
    }
}

} // verus!
