//! Properties that span the operations of the library.

use vstd::prelude::*;
use crate::adf::{AdfBlock, description_text};
use crate::app::{AppView, Key, StatusColumn, Tab, WatchAction, column_issues, in_column};
use crate::display::{IssueColor, recent_comments, recent_entries, shown_comments, shown_entries, status_color_of};
use crate::issue::{ChangelogEntryView, CommentView, issue_views};
use crate::jira::{
    JiraApiResponse, SearchPages, joined_pages, search_issues_view, search_page_request_view,
};
use crate::recency::text_recent_at;
use crate::issue::JiraIssueView;

verus! {

/// Moving one column right and then one left, or the other way round,
/// returns to the same state.
pub proof fn column_moves_are_inverse(a: AppView)
    ensures
        a.next_column().previous_column() == a,
        a.previous_column().next_column() == a,
{
}

/// Three moves to the next column return to the same state: the board has
/// three columns and wraps around.
pub proof fn three_column_moves_return(a: AppView)
    ensures
        a.next_column().next_column().next_column() == a,
        a.previous_column().previous_column().previous_column() == a,
{
}

/// Switching tabs twice returns to the same tab, with the details closed
/// and the first column chosen.
pub proof fn switching_tabs_twice_returns(a: AppView)
    ensures
        a.switch_tab().switch_tab() == (AppView {
            show_details: false,
            selected_issue: None,
            column: StatusColumn::Todo,
            ..a
        }),
        a.switch_tab().tab != a.tab,
{
}

/// Where the selection points into the list in view, moving down and then
/// up (or up and then down) returns to the same state.
pub proof fn issue_moves_are_inverse(a: AppView)
    requires
        a.visible().len() <= usize::MAX,
        a.current_selection() matches Some(i) && i < a.visible().len(),
    ensures
        a.next_issue().previous_issue() == a,
        a.previous_issue().next_issue() == a,
{
    let b = a.next_issue();
    assert(b.visible() == a.visible());
    let c = a.previous_issue();
    assert(c.visible() == a.visible());
}

/// Moving down in a non-empty list always leaves a selection inside the
/// list; the list itself stays as it was.
pub proof fn moving_down_stays_in_list(a: AppView)
    requires
        0 < a.visible().len() <= usize::MAX,
    ensures
        a.next_issue().current_selection() matches Some(j) && j < a.visible().len(),
        a.next_issue().visible() == a.visible(),
{
}

/// Moving up in a non-empty list leaves a selection inside the list where
/// the selection was not already beyond the end of the list (a list can
/// shrink on reload while its selection stays); the list itself stays as
/// it was.
pub proof fn moving_up_stays_in_list(a: AppView)
    requires
        0 < a.visible().len() <= usize::MAX,
        a.current_selection() matches Some(i) ==> i <= a.visible().len(),
    ensures
        a.previous_issue().current_selection() matches Some(j) && j < a.visible().len(),
        a.previous_issue().visible() == a.visible(),
{
}

/// The length and first character of each status name that a column
/// lists; no two of them agree in both.
proof fn status_name_shapes(status: Seq<char>)
    ensures
        status == "해야 할 일"@ ==> status.len() == 6 && status[0] == '해',
        status == "To Do"@ ==> status.len() == 5 && status[0] == 'T',
        status == "Open"@ ==> status.len() == 4 && status[0] == 'O',
        status == "PENDING"@ ==> status.len() == 7 && status[0] == 'P',
        status == "진행 중"@ ==> status.len() == 4 && status[0] == '진',
        status == "In Progress"@ ==> status.len() == 11 && status[0] == 'I',
        status == "In Review"@ ==> status.len() == 9 && status[0] == 'I',
        status == "해결됨"@ ==> status.len() == 3 && status[0] == '해',
        status == "완료"@ ==> status.len() == 2 && status[0] == '완',
        status == "Done"@ ==> status.len() == 4 && status[0] == 'D',
        status == "Closed"@ ==> status.len() == 6 && status[0] == 'C',
        status == "Resolved"@ ==> status.len() == 8 && status[0] == 'R',
{
    reveal_strlit("해야 할 일");
    reveal_strlit("To Do");
    reveal_strlit("Open");
    reveal_strlit("PENDING");
    reveal_strlit("진행 중");
    reveal_strlit("In Progress");
    reveal_strlit("In Review");
    reveal_strlit("해결됨");
    reveal_strlit("완료");
    reveal_strlit("Done");
    reveal_strlit("Closed");
    reveal_strlit("Resolved");
}

/// No status belongs to two board columns.
pub proof fn columns_are_disjoint(status: Seq<char>, c1: StatusColumn, c2: StatusColumn)
    requires
        in_column(status, c1),
        in_column(status, c2),
    ensures
        c1 == c2,
{
    status_name_shapes(status);
}

/// The board shows each assigned issue in at most one column: together the
/// three columns hold no more issues than there are.
pub proof fn board_columns_fit_issues(issues: Seq<JiraIssueView>)
    ensures
        column_issues(issues, StatusColumn::Todo).len() + column_issues(issues, StatusColumn::InProgress).len()
            + column_issues(issues, StatusColumn::Done).len() <= issues.len(),
    decreases issues.len(),
{
    if issues.len() > 0 {
        board_columns_fit_issues(issues.drop_last());
        let s = issues.last().status;
        if in_column(s, StatusColumn::Todo) && in_column(s, StatusColumn::InProgress) {
            columns_are_disjoint(s, StatusColumn::Todo, StatusColumn::InProgress);
        }
        if in_column(s, StatusColumn::Todo) && in_column(s, StatusColumn::Done) {
            columns_are_disjoint(s, StatusColumn::Todo, StatusColumn::Done);
        }
        if in_column(s, StatusColumn::InProgress) && in_column(s, StatusColumn::Done) {
            columns_are_disjoint(s, StatusColumn::InProgress, StatusColumn::Done);
        }
    }
}

/// The colour of a status tells its board column: green for finished,
/// yellow for under way, blue for not started, white for statuses that no
/// column shows.
pub proof fn status_color_matches_column(status: Seq<char>)
    ensures
        status_color_of(status) == IssueColor::Green <==> in_column(status, StatusColumn::Done),
        status_color_of(status) == IssueColor::Yellow <==> in_column(status, StatusColumn::InProgress),
        status_color_of(status) == IssueColor::Blue <==> in_column(status, StatusColumn::Todo),
        status_color_of(status) == IssueColor::White <==> !in_column(status, StatusColumn::Todo)
            && !in_column(status, StatusColumn::InProgress) && !in_column(status, StatusColumn::Done),
{
    if in_column(status, StatusColumn::Done) && in_column(status, StatusColumn::InProgress) {
        columns_are_disjoint(status, StatusColumn::Done, StatusColumn::InProgress);
    }
    if in_column(status, StatusColumn::Done) && in_column(status, StatusColumn::Todo) {
        columns_are_disjoint(status, StatusColumn::Done, StatusColumn::Todo);
    }
    if in_column(status, StatusColumn::InProgress) && in_column(status, StatusColumn::Todo) {
        columns_are_disjoint(status, StatusColumn::InProgress, StatusColumn::Todo);
    }
}

/// While the details are open no key ends the program, and Esc or `q`
/// closes them.
pub proof fn details_keys_never_quit(a: AppView, key: Key)
    requires
        a.show_details,
    ensures
        !a.quits_on(key),
        (key == Key::Esc || key == Key::Char('q')) ==> !a.after_key(key).show_details
            && a.after_key(key).selected_issue is None,
        !(key == Key::Esc || key == Key::Char('q')) ==> a.after_key(key) == a,
{
}

/// A successful watch toggle turns a known watch into no watch and anything
/// else into a watch.
pub proof fn watch_toggle_flips(a: AppView, action: WatchAction)
    requires
        a.selected_issue is Some,
        action == (if a.selected_issue.unwrap().is_watching == Some(true) {
            WatchAction::Unwatch
        } else {
            WatchAction::Watch
        }),
    ensures
        a.after_watch_toggle(action).selected_issue.unwrap().is_watching == Some(
            a.selected_issue.unwrap().is_watching != Some(true),
        ),
{
}

/// When both lists fail to load, the error shown is the one of the
/// assigned issues.
pub proof fn first_load_error_is_kept(
    a: AppView,
    assigned_error: Seq<char>,
    recent: Result<Seq<JiraIssueView>, Seq<char>>,
)
    ensures
        a.after_assigned_load(Err(assigned_error)).after_recent_load(recent).error_message == Some(
            "Failed to load assigned issues: "@ + assigned_error,
        ),
{
}

/// A description is either absent or non-empty.
pub proof fn descriptions_are_never_empty(blocks: Seq<AdfBlock>)
    ensures
        description_text(blocks) matches Some(t) ==> t.len() > 0,
{
}

/// Every issue that a board column shows has a status of that column.
pub proof fn column_issues_have_column_status(issues: Seq<JiraIssueView>, column: StatusColumn)
    ensures
        forall|i: int|
            0 <= i < column_issues(issues, column).len() ==> in_column(
                #[trigger] column_issues(issues, column)[i].status,
                column,
            ),
    decreases issues.len(),
{
    if issues.len() > 0 {
        column_issues_have_column_status(issues.drop_last(), column);
    }
}

proof fn recent_entries_are_recent(entries: Seq<ChangelogEntryView>, now: Option<u128>)
    ensures
        forall|i: int|
            0 <= i < recent_entries(entries, now).len() ==> text_recent_at(
                #[trigger] recent_entries(entries, now)[i].created,
                now,
            ),
    decreases entries.len(),
{
    if entries.len() > 0 {
        let rest = recent_entries(entries.drop_last(), now);
        recent_entries_are_recent(entries.drop_last(), now);
        assert forall|i: int| 0 <= i < recent_entries(entries, now).len() implies text_recent_at(
            #[trigger] recent_entries(entries, now)[i].created,
            now,
        ) by {
            if i < rest.len() {
                assert(recent_entries(entries, now)[i] == rest[i]);
            }
        }
    }
}

proof fn recent_comments_are_recent(comments: Seq<CommentView>, now: Option<u128>)
    ensures
        forall|i: int|
            0 <= i < recent_comments(comments, now).len() ==> text_recent_at(
                #[trigger] recent_comments(comments, now)[i].created,
                now,
            ),
    decreases comments.len(),
{
    if comments.len() > 0 {
        let rest = recent_comments(comments.drop_last(), now);
        recent_comments_are_recent(comments.drop_last(), now);
        assert forall|i: int| 0 <= i < recent_comments(comments, now).len() implies text_recent_at(
            #[trigger] recent_comments(comments, now)[i].created,
            now,
        ) by {
            if i < rest.len() {
                assert(recent_comments(comments, now)[i] == rest[i]);
            }
        }
    }
}

/// The details show at most five changes and three comments, each created
/// within the seven days before the time of showing.
pub proof fn details_show_few_recent_items(
    entries: Seq<ChangelogEntryView>,
    comments: Seq<CommentView>,
    now: Option<u128>,
)
    ensures
        shown_entries(entries, now).len() <= 5,
        shown_comments(comments, now).len() <= 3,
        forall|i: int|
            0 <= i < shown_entries(entries, now).len() ==> text_recent_at(
                #[trigger] shown_entries(entries, now)[i].created,
                now,
            ),
        forall|i: int|
            0 <= i < shown_comments(comments, now).len() ==> text_recent_at(
                #[trigger] shown_comments(comments, now)[i].created,
                now,
            ),
{
    recent_entries_are_recent(entries, now);
    recent_comments_are_recent(comments, now);
    assert forall|i: int| 0 <= i < shown_entries(entries, now).len() implies text_recent_at(
        #[trigger] shown_entries(entries, now)[i].created,
        now,
    ) by {
        assert(shown_entries(entries, now)[i] == recent_entries(entries, now)[i]);
    }
    assert forall|i: int| 0 <= i < shown_comments(comments, now).len() implies text_recent_at(
        #[trigger] shown_comments(comments, now)[i].created,
        now,
    ) by {
        assert(shown_comments(comments, now)[i] == recent_comments(comments, now)[i]);
    }
}

/// Whether a status belongs in some board column.
pub open spec fn on_board(status: Seq<char>) -> bool {
    in_column(status, StatusColumn::Todo) || in_column(status, StatusColumn::InProgress) || in_column(
        status,
        StatusColumn::Done,
    )
}

/// The issues whose status belongs in some board column, in order.
pub open spec fn board_issues(issues: Seq<JiraIssueView>) -> Seq<JiraIssueView>
    decreases issues.len(),
{
    if issues.len() == 0 {
        Seq::empty()
    } else {
        let rest = board_issues(issues.drop_last());
        if on_board(issues.last().status) {
            rest.push(issues.last())
        } else {
            rest
        }
    }
}

/// A board column holds exactly the issues whose status belongs in it.
pub proof fn column_holds_its_issues(issues: Seq<JiraIssueView>, column: StatusColumn)
    ensures
        forall|x: JiraIssueView|
            #[trigger] column_issues(issues, column).contains(x) <==> (issues.contains(x) && in_column(
                x.status,
                column,
            )),
    decreases issues.len(),
{
    if issues.len() > 0 {
        let init = issues.drop_last();
        let last = issues.last();
        column_holds_its_issues(init, column);
        let rest = column_issues(init, column);
        assert forall|x: JiraIssueView|
            #[trigger] column_issues(issues, column).contains(x) <==> (issues.contains(x) && in_column(
                x.status,
                column,
            )) by {
            if column_issues(issues, column).contains(x) {
                let k = choose|k: int| 0 <= k < column_issues(issues, column).len() && column_issues(issues, column)[k] == x;
                if k < rest.len() {
                    assert(rest[k] == x);
                    assert(rest.contains(x));
                    let j = choose|j: int| 0 <= j < init.len() && init[j] == x;
                    assert(issues[j] == x);
                } else {
                    assert(x == last);
                    assert(issues[issues.len() - 1] == x);
                }
            }
            if issues.contains(x) && in_column(x.status, column) {
                let j = choose|j: int| 0 <= j < issues.len() && issues[j] == x;
                if j < init.len() {
                    assert(init[j] == x);
                    assert(init.contains(x));
                    assert(column_issues(init, column).contains(x));
                    let k = choose|k: int| 0 <= k < rest.len() && rest[k] == x;
                    assert(column_issues(issues, column)[k] == x);
                } else {
                    let c = column_issues(issues, column);
                    assert(c[c.len() - 1] == x);
                }
            }
        }
    } else {
        assert forall|x: JiraIssueView|
            #[trigger] column_issues(issues, column).contains(x) <==> (issues.contains(x) && in_column(
                x.status,
                column,
            )) by {}
    }
}

/// The three board columns together hold exactly the issues whose status
/// is one of the column statuses: each such issue stands in the column of
/// its status, no issue stands in two columns, and the column sizes add up
/// to the number of such issues.
pub proof fn board_partitions_issues(issues: Seq<JiraIssueView>)
    ensures
        column_issues(issues, StatusColumn::Todo).len() + column_issues(issues, StatusColumn::InProgress).len()
            + column_issues(issues, StatusColumn::Done).len() == board_issues(issues).len(),
        forall|x: JiraIssueView, c: StatusColumn|
            #[trigger] column_issues(issues, c).contains(x) <==> (issues.contains(x) && in_column(x.status, c)),
        forall|s: Seq<char>, c1: StatusColumn, c2: StatusColumn|
            in_column(s, c1) && in_column(s, c2) ==> c1 == c2,
    decreases issues.len(),
{
    if issues.len() > 0 {
        board_partitions_issues(issues.drop_last());
        let s = issues.last().status;
        if in_column(s, StatusColumn::Todo) && in_column(s, StatusColumn::InProgress) {
            columns_are_disjoint(s, StatusColumn::Todo, StatusColumn::InProgress);
        }
        if in_column(s, StatusColumn::Todo) && in_column(s, StatusColumn::Done) {
            columns_are_disjoint(s, StatusColumn::Todo, StatusColumn::Done);
        }
        if in_column(s, StatusColumn::InProgress) && in_column(s, StatusColumn::Done) {
            columns_are_disjoint(s, StatusColumn::InProgress, StatusColumn::Done);
        }
    }
    column_holds_its_issues(issues, StatusColumn::Todo);
    column_holds_its_issues(issues, StatusColumn::InProgress);
    column_holds_its_issues(issues, StatusColumn::Done);
    assert forall|x: JiraIssueView, c: StatusColumn|
        #[trigger] column_issues(issues, c).contains(x) <==> (issues.contains(x) && in_column(x.status, c)) by {
        column_holds_its_issues(issues, c);
    }
    assert forall|s: Seq<char>, c1: StatusColumn, c2: StatusColumn|
        in_column(s, c1) && in_column(s, c2) implies c1 == c2 by {
        columns_are_disjoint(s, c1, c2);
    }
}

/// The issues that a search collects from a run of replies: their issues,
/// reply after reply.
pub open spec fn search_result(replies: Seq<JiraApiResponse>) -> Seq<JiraIssueView> {
    joined_pages(replies.map_values(|r: JiraApiResponse| search_issues_view(r)))
}

/// A search holds the issues of the replies it has read, whatever its query:
/// two searches fed the same replies (such as the search for assigned
/// issues and the one for recent issues) hold equal issues. Their requests
/// for the next page differ in the query alone.
pub proof fn search_result_ignores_query(
    p: SearchPages,
    q: SearchPages,
    replies: Seq<JiraApiResponse>,
    base_url: Seq<char>,
    auth_header: Seq<char>,
    page_token: Option<Seq<char>>,
)
    requires
        p.wf(),
        q.wf(),
        p.pages@ == replies.map_values(|r: JiraApiResponse| search_issues_view(r)),
        q.pages@ == replies.map_values(|r: JiraApiResponse| search_issues_view(r)),
    ensures
        issue_views(p.issues@) == search_result(replies),
        issue_views(p.issues@) == issue_views(q.issues@),
        search_page_request_view(base_url, auth_header, p.jql@, page_token) == (crate::jira::ApiRequestView {
            query: search_page_request_view(base_url, auth_header, q.jql@, page_token).query.update(
                0,
                ("jql"@, p.jql@),
            ),
            ..search_page_request_view(base_url, auth_header, q.jql@, page_token)
        }),
{
    let a = search_page_request_view(base_url, auth_header, p.jql@, page_token);
    let b = search_page_request_view(base_url, auth_header, q.jql@, page_token);
    assert(a.query =~= b.query.update(0, ("jql"@, p.jql@)));
}

/// The details list recent history entries in order and stop after five:
/// nothing for no entries; an added entry created within the last seven
/// days is shown when fewer than five are shown before it, whatever older
/// entries came before; an older entry, or one after five shown, changes
/// nothing.
pub proof fn shown_entries_grow_by_recent_entries(
    entries: Seq<ChangelogEntryView>,
    x: ChangelogEntryView,
    now: Option<u128>,
)
    ensures
        shown_entries(Seq::empty(), now) == Seq::<ChangelogEntryView>::empty(),
        text_recent_at(x.created, now) && shown_entries(entries, now).len() < 5 ==> shown_entries(
            entries.push(x),
            now,
        ) == shown_entries(entries, now).push(x),
        text_recent_at(x.created, now) && shown_entries(entries, now).len() >= 5 ==> shown_entries(
            entries.push(x),
            now,
        ) == shown_entries(entries, now),
        !text_recent_at(x.created, now) ==> shown_entries(entries.push(x), now) == shown_entries(
            entries,
            now,
        ),
{
    let r = recent_entries(entries, now);
    assert(entries.push(x).drop_last() =~= entries);
    assert(entries.push(x).last() == x);
    let r2 = recent_entries(entries.push(x), now);
    if text_recent_at(x.created, now) {
        assert(r2 == r.push(x));
        if r.len() >= 5 {
            assert(r2.take(5) =~= r.take(5));
        }
    } else {
        assert(r2 == r);
    }
}

/// The details list recent comments in order and stop after three: nothing
/// for no comments; an added comment created within the last seven days is
/// shown when fewer than three are shown before it, whatever older comments
/// came before; an older comment, or one after three shown, changes nothing.
pub proof fn shown_comments_grow_by_recent_comments(
    comments: Seq<CommentView>,
    x: CommentView,
    now: Option<u128>,
)
    ensures
        shown_comments(Seq::empty(), now) == Seq::<CommentView>::empty(),
        text_recent_at(x.created, now) && shown_comments(comments, now).len() < 3 ==> shown_comments(
            comments.push(x),
            now,
        ) == shown_comments(comments, now).push(x),
        text_recent_at(x.created, now) && shown_comments(comments, now).len() >= 3 ==> shown_comments(
            comments.push(x),
            now,
        ) == shown_comments(comments, now),
        !text_recent_at(x.created, now) ==> shown_comments(comments.push(x), now) == shown_comments(
            comments,
            now,
        ),
{
    let r = recent_comments(comments, now);
    assert(comments.push(x).drop_last() =~= comments);
    assert(comments.push(x).last() == x);
    let r2 = recent_comments(comments.push(x), now);
    if text_recent_at(x.created, now) {
        assert(r2 == r.push(x));
        if r.len() >= 3 {
            assert(r2.take(3) =~= r.take(3));
        }
    } else {
        assert(r2 == r);
    }
}

/// Each list keeps its own selection: the selection that the keys move is
/// the recent list's on the recent tab and the focused column's on the
/// assigned tab, and replacing it leaves every other selection as it was.
pub proof fn each_list_keeps_its_selection(a: AppView, s: Option<usize>)
    ensures
        a.tab == Tab::Recent ==> a.current_selection() == a.recent_selection
            && a.with_current_selection(s) == (AppView { recent_selection: s, ..a }),
        a.tab == Tab::Assigned && a.column == StatusColumn::Todo ==> a.current_selection()
            == a.todo_selection && a.with_current_selection(s) == (AppView { todo_selection: s, ..a }),
        a.tab == Tab::Assigned && a.column == StatusColumn::InProgress ==> a.current_selection()
            == a.in_progress_selection && a.with_current_selection(s) == (AppView {
                in_progress_selection: s,
                ..a
            }),
        a.tab == Tab::Assigned && a.column == StatusColumn::Done ==> a.current_selection()
            == a.done_selection && a.with_current_selection(s) == (AppView { done_selection: s, ..a }),
{
}

/// Moving down from item `i` of a list with a further item selects item
/// `i + 1` of the list in view and changes nothing else; in the Done column
/// that is the Done column's selection, with the other columns' selections
/// and the recent list's left alone.
pub proof fn moving_down_moves_the_focused_selection(a: AppView)
    requires
        a.current_selection() matches Some(i) && i + 1 < a.visible().len(),
    ensures
        a.next_issue().current_selection() == Some((a.current_selection().unwrap() + 1) as usize),
        a.next_issue() == a.with_current_selection(Some((a.current_selection().unwrap() + 1) as usize)),
        a.tab == Tab::Assigned && a.column == StatusColumn::Done ==> a.next_issue().done_selection
            == Some((a.done_selection.unwrap() + 1) as usize) && a.next_issue().todo_selection
            == a.todo_selection && a.next_issue().in_progress_selection == a.in_progress_selection
            && a.next_issue().recent_selection == a.recent_selection,
        a.tab == Tab::Recent ==> a.next_issue().recent_selection == Some(
            (a.recent_selection.unwrap() + 1) as usize,
        ) && a.next_issue().todo_selection == a.todo_selection && a.next_issue().in_progress_selection
            == a.in_progress_selection && a.next_issue().done_selection == a.done_selection,
{
}

/// Opening the details opens the issue that the selection of the list in
/// view points at, on either tab: on the recent tab that is the recent
/// issue at the recent selection, in a board column the issue of that
/// column at the column's selection.
pub proof fn details_open_the_selected_issue(a: AppView)
    requires
        a.current_selection() matches Some(i) && i < a.visible().len(),
    ensures
        a.show_issue_details().show_details,
        a.show_issue_details().selected_issue == Some(a.visible()[a.current_selection().unwrap() as int]),
        a.tab == Tab::Recent ==> a.show_issue_details().selected_issue == Some(
            a.recent[a.recent_selection.unwrap() as int],
        ),
        a.tab == Tab::Assigned ==> a.show_issue_details().selected_issue == Some(
            column_issues(a.assigned, a.column)[a.current_selection().unwrap() as int],
        ),
        a.show_issue_details().assigned == a.assigned && a.show_issue_details().recent == a.recent
            && a.show_issue_details().tab == a.tab,
{
}

/// A successful load replaces a list with what was loaded, whatever it held
/// before, and leaves the other list alone.
pub proof fn loads_replace_lists(
    a: AppView,
    issues: Seq<JiraIssueView>,
)
    ensures
        a.after_assigned_load(Ok(issues)).assigned == issues,
        a.after_assigned_load(Ok(issues)).recent == a.recent,
        a.after_recent_load(Ok(issues)).recent == issues,
        a.after_recent_load(Ok(issues)).assigned == a.assigned,
        a.after_assigned_load(Ok(issues)).after_assigned_load(Ok(issues)).assigned == issues,
{
}

/// With no details open, each arrow key does what its letter does: Down and
/// `j` move down, Up and `k` move up, Left and `h` move to the previous
/// column, Right and `l` to the next; Enter and Space open the details, and
/// Tab switches tabs.
pub proof fn arrows_and_letters_agree(a: AppView)
    requires
        !a.show_details,
    ensures
        a.after_key(Key::Down) == a.next_issue(),
        a.after_key(Key::Char('j')) == a.next_issue(),
        a.after_key(Key::Up) == a.previous_issue(),
        a.after_key(Key::Char('k')) == a.previous_issue(),
        a.after_key(Key::Left) == a.previous_column(),
        a.after_key(Key::Char('h')) == a.previous_column(),
        a.after_key(Key::Right) == a.next_column(),
        a.after_key(Key::Char('l')) == a.next_column(),
        a.after_key(Key::Enter) == a.show_issue_details(),
        a.after_key(Key::Char(' ')) == a.show_issue_details(),
        a.after_key(Key::Tab) == a.switch_tab(),
        a.after_key(Key::Char('q')) == a && a.quits_on(Key::Char('q')),
{
}

} // verus!
