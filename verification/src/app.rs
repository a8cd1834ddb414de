//! The state of the interface and how keys and loaded data change it.

use vstd::prelude::*;
use crate::issue::{ChangelogEntry, Comment, JiraIssue, JiraIssueView, issue_views, entry_views, comment_views};
use crate::jira::JiraClient;
use crate::text::text_equals;

verus! {

/// The two tabs of the interface.
#[derive(PartialEq, Eq, Structural, Clone, Copy, Debug)]
pub enum Tab {
    Assigned,
    Recent,
}

/// The three columns of the board of assigned issues.
#[derive(PartialEq, Eq, Structural, Clone, Copy, Debug)]
pub enum StatusColumn {
    Todo,
    InProgress,
    Done,
}

/// A key press, as far as the interface tells keys apart.
#[derive(PartialEq, Eq, Structural, Clone, Copy, Debug)]
pub enum Key {
    Char(char),
    Esc,
    Enter,
    Tab,
    Up,
    Down,
    Left,
    Right,
    Other,
}

/// Whether an issue status belongs in a board column.
pub open spec fn in_column(status: Seq<char>, column: StatusColumn) -> bool {
    match column {
        StatusColumn::Todo => status == "해야 할 일"@ || status == "To Do"@ || status == "Open"@
            || status == "PENDING"@,
        StatusColumn::InProgress => status == "진행 중"@ || status == "In Progress"@ || status
            == "In Review"@,
        StatusColumn::Done => status == "해결됨"@ || status == "완료"@ || status == "Done"@ || status
            == "Closed"@ || status == "Resolved"@,
    }
}

/// Whether an issue status belongs in a board column.
pub fn status_in_column(status: &str, column: StatusColumn) -> (res: bool)
    ensures
        res == in_column(status@, column),
{
    match column {
        StatusColumn::Todo => text_equals(status, "해야 할 일") || text_equals(status, "To Do")
            || text_equals(status, "Open") || text_equals(status, "PENDING"),
        StatusColumn::InProgress => text_equals(status, "진행 중") || text_equals(status, "In Progress")
            || text_equals(status, "In Review"),
        StatusColumn::Done => text_equals(status, "해결됨") || text_equals(status, "완료")
            || text_equals(status, "Done") || text_equals(status, "Closed")
            || text_equals(status, "Resolved"),
    }
}

/// The issues whose status belongs in `column`, in order.
pub open spec fn column_issues(issues: Seq<JiraIssueView>, column: StatusColumn) -> Seq<JiraIssueView>
    decreases issues.len(),
{
    if issues.len() == 0 {
        Seq::empty()
    } else {
        let rest = column_issues(issues.drop_last(), column);
        if in_column(issues.last().status, column) {
            rest.push(issues.last())
        } else {
            rest
        }
    }
}

/// The views of a list of issue references.
pub open spec fn ref_views(refs: Seq<&JiraIssue>) -> Seq<JiraIssueView> {
    refs.map_values(|r: &JiraIssue| r@)
}

/// The issues of `issues` whose status belongs in `column`, in order.
pub fn issues_in_column(issues: &Vec<JiraIssue>, column: StatusColumn) -> (res: Vec<&JiraIssue>)
    ensures
        ref_views(res@) == column_issues(issue_views(issues@), column),
{
    let ghost all = issue_views(issues@);
    let mut res: Vec<&JiraIssue> = Vec::new();
    let mut i: usize = 0;
    while i < issues.len()
        invariant
            i <= issues.len(),
            all == issue_views(issues@),
            ref_views(res@) == column_issues(all.take(i as int), column),
        decreases issues.len() - i,
    {
        let issue = &issues[i];
        proof {
            assert(all.take(i + 1).drop_last() =~= all.take(i as int));
            assert(all.take(i + 1).last() == issue@);
        }
        if status_in_column(issue.status.as_str(), column) {
            let ghost prev = res@;
            res.push(issue);
            assert(ref_views(res@) =~= ref_views(prev).push(issue@));
        }
        i = i + 1;
    }
    assert(all.take(issues.len() as int) =~= all);
    res
}

/// References to all the issues of `issues`, in order.
pub fn all_issues(issues: &Vec<JiraIssue>) -> (res: Vec<&JiraIssue>)
    ensures
        ref_views(res@) == issue_views(issues@),
{
    let mut res: Vec<&JiraIssue> = Vec::new();
    let mut i: usize = 0;
    while i < issues.len()
        invariant
            i <= issues.len(),
            ref_views(res@) == issue_views(issues@).take(i as int),
        decreases issues.len() - i,
    {
        let ghost prev = res@;
        res.push(&issues[i]);
        assert(ref_views(res@) =~= ref_views(prev).push(issues@[i as int]@));
        assert(ref_views(res@) =~= issue_views(issues@).take(i + 1));
        i = i + 1;
    }
    assert(issue_views(issues@).take(issues.len() as int) =~= issue_views(issues@));
    res
}

/// The selection that moving down gives in a list of `n > 0` items: the next
/// item, wrapping from the last (or beyond) to the first.
pub open spec fn next_index(selected: Option<usize>, n: nat) -> usize {
    match selected {
        Some(i) => if i >= n - 1 {
            0
        } else {
            (i + 1) as usize
        },
        None => 0,
    }
}

/// The selection that moving up gives in a list of `n > 0` items: the
/// previous item, wrapping from the first to the last.
pub open spec fn previous_index(selected: Option<usize>, n: nat) -> usize {
    match selected {
        Some(i) => if i == 0 {
            (n - 1) as usize
        } else {
            (i - 1) as usize
        },
        None => 0,
    }
}

/// What toggling the watch of the selected issue does.
#[derive(PartialEq, Eq, Structural, Clone, Copy, Debug)]
pub enum WatchAction {
    Watch,
    Unwatch,
}

/// The model of the interface state.
pub struct AppView {
    pub client_base_url: Seq<char>,
    pub client_auth_header: Seq<char>,
    pub base_url: Seq<char>,
    pub tab: Tab,
    pub column: StatusColumn,
    pub assigned: Seq<JiraIssueView>,
    pub recent: Seq<JiraIssueView>,
    pub assigned_selection: Option<usize>,
    pub recent_selection: Option<usize>,
    pub todo_selection: Option<usize>,
    pub in_progress_selection: Option<usize>,
    pub done_selection: Option<usize>,
    pub selected_issue: Option<JiraIssueView>,
    pub show_details: bool,
    pub loading: bool,
    pub error_message: Option<Seq<char>>,
}

impl AppView {
    /// The issues of the list in view: all recent issues, or the assigned
    /// issues of the current column.
    pub open spec fn visible(self) -> Seq<JiraIssueView> {
        match self.tab {
            Tab::Recent => self.recent,
            Tab::Assigned => column_issues(self.assigned, self.column),
        }
    }

    /// The selection of the list in view.
    pub open spec fn current_selection(self) -> Option<usize> {
        match self.tab {
            Tab::Recent => self.recent_selection,
            Tab::Assigned => match self.column {
                StatusColumn::Todo => self.todo_selection,
                StatusColumn::InProgress => self.in_progress_selection,
                StatusColumn::Done => self.done_selection,
            },
        }
    }

    /// The state with the selection of the list in view replaced.
    pub open spec fn with_current_selection(self, selection: Option<usize>) -> AppView {
        match self.tab {
            Tab::Recent => AppView { recent_selection: selection, ..self },
            Tab::Assigned => match self.column {
                StatusColumn::Todo => AppView { todo_selection: selection, ..self },
                StatusColumn::InProgress => AppView { in_progress_selection: selection, ..self },
                StatusColumn::Done => AppView { done_selection: selection, ..self },
            },
        }
    }

    pub open spec fn next_issue(self) -> AppView {
        let n = self.visible().len();
        if n == 0 {
            self
        } else {
            self.with_current_selection(Some(next_index(self.current_selection(), n)))
        }
    }

    pub open spec fn previous_issue(self) -> AppView {
        let n = self.visible().len();
        if n == 0 {
            self
        } else {
            self.with_current_selection(Some(previous_index(self.current_selection(), n)))
        }
    }

    pub open spec fn next_column(self) -> AppView {
        match self.tab {
            Tab::Assigned => AppView {
                column: match self.column {
                    StatusColumn::Todo => StatusColumn::InProgress,
                    StatusColumn::InProgress => StatusColumn::Done,
                    StatusColumn::Done => StatusColumn::Todo,
                },
                ..self
            },
            Tab::Recent => self,
        }
    }

    pub open spec fn previous_column(self) -> AppView {
        match self.tab {
            Tab::Assigned => AppView {
                column: match self.column {
                    StatusColumn::Todo => StatusColumn::Done,
                    StatusColumn::InProgress => StatusColumn::Todo,
                    StatusColumn::Done => StatusColumn::InProgress,
                },
                ..self
            },
            Tab::Recent => self,
        }
    }

    /// Opens the details of the selected issue where the selection points
    /// into the list in view.
    pub open spec fn show_issue_details(self) -> AppView {
        match self.current_selection() {
            Some(i) => if i < self.visible().len() {
                AppView { selected_issue: Some(self.visible()[i as int]), show_details: true, ..self }
            } else {
                self
            },
            None => self,
        }
    }

    pub open spec fn switch_tab(self) -> AppView {
        AppView {
            tab: match self.tab {
                Tab::Assigned => Tab::Recent,
                Tab::Recent => Tab::Assigned,
            },
            show_details: false,
            selected_issue: None,
            column: StatusColumn::Todo,
            ..self
        }
    }

    pub open spec fn close_details(self) -> AppView {
        AppView { show_details: false, selected_issue: None, ..self }
    }

    /// The state after a key press.
    pub open spec fn after_key(self, key: Key) -> AppView {
        if self.show_details {
            if key == Key::Esc || key == Key::Char('q') {
                self.close_details()
            } else {
                self
            }
        } else if key == Key::Down || key == Key::Char('j') {
            self.next_issue()
        } else if key == Key::Up || key == Key::Char('k') {
            self.previous_issue()
        } else if key == Key::Left || key == Key::Char('h') {
            self.previous_column()
        } else if key == Key::Right || key == Key::Char('l') {
            self.next_column()
        } else if key == Key::Enter || key == Key::Char(' ') {
            self.show_issue_details()
        } else if key == Key::Tab {
            self.switch_tab()
        } else {
            self
        }
    }

    /// Whether a key press ends the program.
    pub open spec fn quits_on(self, key: Key) -> bool {
        !self.show_details && key == Key::Char('q')
    }

    /// The state after the selected issue's watch state became `watching`,
    /// where the selected issue has key `key`.
    pub open spec fn with_watch_status(self, key: Seq<char>, watching: bool) -> AppView {
        match self.selected_issue {
            Some(issue) => if issue.key == key {
                AppView { selected_issue: Some(JiraIssueView { is_watching: Some(watching), ..issue }), ..self }
            } else {
                self
            },
            None => self,
        }
    }
    /// The state after the assigned issues were loaded (`Ok`) or failed to
    /// load with the error text (`Err`).
    pub open spec fn after_assigned_load(self, result: Result<Seq<JiraIssueView>, Seq<char>>) -> AppView {
        match result {
            Ok(issues) => if issues.len() > 0 && self.tab == Tab::Assigned {
                AppView {
                    assigned: issues,
                    todo_selection: Some(0),
                    in_progress_selection: Some(0),
                    done_selection: Some(0),
                    ..self
                }
            } else {
                AppView { assigned: issues, ..self }
            },
            Err(e) => AppView { error_message: Some("Failed to load assigned issues: "@ + e), ..self },
        }
    }

    /// The state after the recent issues were loaded (`Ok`) or failed to load
    /// with the error text (`Err`); an earlier error is kept.
    pub open spec fn after_recent_load(self, result: Result<Seq<JiraIssueView>, Seq<char>>) -> AppView {
        match result {
            Ok(issues) => if issues.len() > 0 && self.tab == Tab::Recent {
                AppView { recent: issues, recent_selection: Some(0), ..self }
            } else {
                AppView { recent: issues, ..self }
            },
            Err(e) => if self.error_message is None {
                AppView { error_message: Some("Failed to load recent issues: "@ + e), ..self }
            } else {
                self
            },
        }
    }

    /// The state after a watch toggle of kind `action` succeeded: the
    /// selected issue, if any, records the new watch state.
    pub open spec fn after_watch_toggle(self, action: WatchAction) -> AppView {
        match self.selected_issue {
            Some(issue) => AppView {
                selected_issue: Some(JiraIssueView { is_watching: Some(action == WatchAction::Watch), ..issue }),
                ..self
            },
            None => self,
        }
    }

    /// Whether the selected issue has key `key` and its updates are not
    /// loaded yet.
    pub open spec fn needs_updates(self, key: Seq<char>) -> bool {
        self.selected_issue matches Some(issue) && issue.key == key && issue.changelog is None
    }

    /// The state after the updates of the issue with key `key` arrived
    /// (`Some`) or failed (`None`, which records empty lists).
    pub open spec fn with_issue_updates(
        self,
        key: Seq<char>,
        updates: Option<(Seq<crate::issue::ChangelogEntryView>, Seq<crate::issue::CommentView>)>,
    ) -> AppView {
        if self.needs_updates(key) {
            let issue = self.selected_issue.unwrap();
            let (changelog, comments) = match updates {
                Some(u) => u,
                None => (Seq::empty(), Seq::empty()),
            };
            AppView {
                selected_issue: Some(JiraIssueView { changelog: Some(changelog), comments: Some(comments), ..issue }),
                ..self
            }
        } else {
            self
        }
    }
}

/// The view of the outcome of loading a list of issues.
pub open spec fn load_result_view(result: Result<Vec<JiraIssue>, String>) -> Result<Seq<JiraIssueView>, Seq<char>> {
    match result {
        Ok(v) => Ok(issue_views(v@)),
        Err(e) => Err(e@),
    }
}

/// The view of the outcome of loading the updates of an issue.
pub open spec fn updates_view(updates: Option<(Vec<ChangelogEntry>, Vec<Comment>)>) -> Option<(Seq<crate::issue::ChangelogEntryView>, Seq<crate::issue::CommentView>)> {
    match updates {
        Some(u) => Some((entry_views(u.0@), comment_views(u.1@))),
        None => None,
    }
}

/// The message after toggling the watch of the issue `key`.
pub open spec fn watch_toggle_message(key: Seq<char>, action: WatchAction, outcome: Result<(), Seq<char>>) -> Seq<char> {
    match (action, outcome) {
        (WatchAction::Unwatch, Ok(_)) => "Stopped watching "@ + key,
        (WatchAction::Unwatch, Err(e)) => "Failed to unwatch "@ + key + ": "@ + e,
        (WatchAction::Watch, Ok(_)) => "Now watching "@ + key,
        (WatchAction::Watch, Err(e)) => "Failed to watch "@ + key + ": "@ + e,
    }
}

/// The start of a watch toggle: the issue to toggle and whether its watch
/// state must be loaded first.
pub struct WatchToggle {
    pub issue_key: String,
    pub needs_watch_status: bool,
}

/// The loads that the open details still wait for.
pub struct DetailLoads {
    pub issue_key: String,
    pub watch_status: bool,
    pub updates: bool,
}

/// The state of the interface.
pub struct App {
    pub jira_client: JiraClient,
    pub jira_base_url: String,
    pub current_tab: Tab,
    pub current_column: StatusColumn,
    pub assigned_issues: Vec<JiraIssue>,
    pub recent_issues: Vec<JiraIssue>,
    pub assigned_selection: Option<usize>,
    pub recent_selection: Option<usize>,
    pub todo_selection: Option<usize>,
    pub in_progress_selection: Option<usize>,
    pub done_selection: Option<usize>,
    pub selected_issue: Option<JiraIssue>,
    pub show_details: bool,
    pub loading: bool,
    pub error_message: Option<String>,
}

/// The view of an optional issue.
pub open spec fn opt_issue_view(o: Option<JiraIssue>) -> Option<JiraIssueView> {
    match o {
        Some(i) => Some(i@),
        None => None,
    }
}

impl View for App {
    type V = AppView;

    open spec fn view(&self) -> AppView {
        AppView {
            client_base_url: self.jira_client.base_url@,
            client_auth_header: self.jira_client.auth_header@,
            base_url: self.jira_base_url@,
            tab: self.current_tab,
            column: self.current_column,
            assigned: issue_views(self.assigned_issues@),
            recent: issue_views(self.recent_issues@),
            assigned_selection: self.assigned_selection,
            recent_selection: self.recent_selection,
            todo_selection: self.todo_selection,
            in_progress_selection: self.in_progress_selection,
            done_selection: self.done_selection,
            selected_issue: opt_issue_view(self.selected_issue),
            show_details: self.show_details,
            loading: self.loading,
            error_message: crate::issue::opt_text(self.error_message),
        }
    }
}

impl App {
    /// A fresh interface on the assigned tab, every list selecting its first
    /// item, nothing loaded.
    pub fn new(jira_client: JiraClient, jira_base_url: String) -> (res: App)
        ensures
            res@ == (AppView {
                client_base_url: jira_client.base_url@,
                client_auth_header: jira_client.auth_header@,
                base_url: jira_base_url@,
                tab: Tab::Assigned,
                column: StatusColumn::Todo,
                assigned: Seq::empty(),
                recent: Seq::empty(),
                assigned_selection: Some(0),
                recent_selection: Some(0),
                todo_selection: Some(0),
                in_progress_selection: Some(0),
                done_selection: Some(0),
                selected_issue: None,
                show_details: false,
                loading: false,
                error_message: None,
            }),
    {
        let res = App {
            jira_client,
            jira_base_url,
            current_tab: Tab::Assigned,
            current_column: StatusColumn::Todo,
            assigned_issues: Vec::new(),
            recent_issues: Vec::new(),
            assigned_selection: Some(0),
            recent_selection: Some(0),
            todo_selection: Some(0),
            in_progress_selection: Some(0),
            done_selection: Some(0),
            selected_issue: None,
            show_details: false,
            loading: false,
            error_message: None,
        };
        assert(res@.assigned =~= Seq::empty());
        assert(res@.recent =~= Seq::empty());
        res
    }

    /// The selection of the list in view.
    pub fn current_list_state(&self) -> (res: Option<usize>)
        ensures
            res == self@.current_selection(),
    {
        match self.current_tab {
            Tab::Assigned => match self.current_column {
                StatusColumn::Todo => self.todo_selection,
                StatusColumn::InProgress => self.in_progress_selection,
                StatusColumn::Done => self.done_selection,
            },
            Tab::Recent => self.recent_selection,
        }
    }

    /// Replaces the selection of the list in view.
    pub fn set_current_list_state(&mut self, selection: Option<usize>)
        ensures
            final(self)@ == old(self)@.with_current_selection(selection),
    {
        match self.current_tab {
            Tab::Assigned => match self.current_column {
                StatusColumn::Todo => self.todo_selection = selection,
                StatusColumn::InProgress => self.in_progress_selection = selection,
                StatusColumn::Done => self.done_selection = selection,
            },
            Tab::Recent => self.recent_selection = selection,
        }
    }

    /// The issues of the list in view.
    pub fn current_issues(&self) -> (res: Vec<&JiraIssue>)
        ensures
            ref_views(res@) == self@.visible(),
    {
        match self.current_tab {
            Tab::Recent => all_issues(&self.recent_issues),
            Tab::Assigned => issues_in_column(&self.assigned_issues, self.current_column),
        }
    }

    /// Moves the selection down, wrapping at the end.
    pub fn next_issue(&mut self)
        ensures
            final(self)@ == old(self)@.next_issue(),
    {
        let issues_len = self.current_issues().len();
        if issues_len == 0 {
            return;
        }
        let i = match self.current_list_state() {
            Some(i) => if i >= issues_len - 1 {
                0
            } else {
                i + 1
            },
            None => 0,
        };
        self.set_current_list_state(Some(i));
    }

    /// Moves the selection up, wrapping at the start.
    pub fn previous_issue(&mut self)
        ensures
            final(self)@ == old(self)@.previous_issue(),
    {
        let issues_len = self.current_issues().len();
        if issues_len == 0 {
            return;
        }
        let i = match self.current_list_state() {
            Some(i) => if i == 0 {
                issues_len - 1
            } else {
                i - 1
            },
            None => 0,
        };
        self.set_current_list_state(Some(i));
    }

    /// Moves to the next board column, on the assigned tab.
    pub fn next_column(&mut self)
        ensures
            final(self)@ == old(self)@.next_column(),
    {
        if self.current_tab == Tab::Assigned {
            self.current_column = match self.current_column {
                StatusColumn::Todo => StatusColumn::InProgress,
                StatusColumn::InProgress => StatusColumn::Done,
                StatusColumn::Done => StatusColumn::Todo,
            };
        }
    }

    /// Moves to the previous board column, on the assigned tab.
    pub fn previous_column(&mut self)
        ensures
            final(self)@ == old(self)@.previous_column(),
    {
        if self.current_tab == Tab::Assigned {
            self.current_column = match self.current_column {
                StatusColumn::Todo => StatusColumn::Done,
                StatusColumn::InProgress => StatusColumn::Todo,
                StatusColumn::Done => StatusColumn::InProgress,
            };
        }
    }

    /// Opens the details of the selected issue.
    pub fn show_issue_details(&mut self)
        ensures
            final(self)@ == old(self)@.show_issue_details(),
    {
        let selected_index = self.current_list_state();
        if let Some(i) = selected_index {
            let chosen = {
                let issues = self.current_issues();
                if i < issues.len() {
                    Some(issues[i].clone())
                } else {
                    None
                }
            };
            if let Some(issue) = chosen {
                self.selected_issue = Some(issue);
                self.show_details = true;
            }
        }
    }

    /// Switches between the tabs, closing the details and returning to the
    /// first column.
    pub fn switch_tab(&mut self)
        ensures
            final(self)@ == old(self)@.switch_tab(),
    {
        self.current_tab = match self.current_tab {
            Tab::Assigned => Tab::Recent,
            Tab::Recent => Tab::Assigned,
        };
        self.show_details = false;
        self.selected_issue = None;
        self.current_column = StatusColumn::Todo;
    }

    /// Applies a key press; the result says whether the program ends.
    pub fn handle_key_event(&mut self, key: Key) -> (quit: bool)
        ensures
            final(self)@ == old(self)@.after_key(key),
            quit == old(self)@.quits_on(key),
    {
        if self.show_details {
            if key == Key::Esc || key == Key::Char('q') {
                self.show_details = false;
                self.selected_issue = None;
            }
            return false;
        }
        if key == Key::Char('q') {
            return true;
        } else if key == Key::Down || key == Key::Char('j') {
            self.next_issue();
        } else if key == Key::Up || key == Key::Char('k') {
            self.previous_issue();
        } else if key == Key::Left || key == Key::Char('h') {
            self.previous_column();
        } else if key == Key::Right || key == Key::Char('l') {
            self.next_column();
        } else if key == Key::Enter || key == Key::Char(' ') {
            self.show_issue_details();
        } else if key == Key::Tab {
            self.switch_tab();
        }
        false
    }
    /// Starts loading: the busy flag is set and any error is cleared.
    pub fn begin_loading(&mut self)
        ensures
            final(self)@ == (AppView { loading: true, error_message: None, ..old(self)@ }),
    {
        self.loading = true;
        self.error_message = None;
    }

    /// Records the outcome of loading the assigned issues.
    pub fn finish_assigned_load(&mut self, result: Result<Vec<JiraIssue>, String>)
        ensures
            final(self)@ == old(self)@.after_assigned_load(load_result_view(result)),
    {
        match result {
            Ok(issues) => {
                self.assigned_issues = issues;
                if self.assigned_issues.len() > 0 && self.current_tab == Tab::Assigned {
                    self.todo_selection = Some(0);
                    self.in_progress_selection = Some(0);
                    self.done_selection = Some(0);
                }
            },
            Err(e) => {
                self.error_message = Some("Failed to load assigned issues: ".to_owned().concat(e.as_str()));
            },
        }
    }

    /// Records the outcome of loading the recent issues.
    pub fn finish_recent_load(&mut self, result: Result<Vec<JiraIssue>, String>)
        ensures
            final(self)@ == old(self)@.after_recent_load(load_result_view(result)),
    {
        match result {
            Ok(issues) => {
                self.recent_issues = issues;
                if self.recent_issues.len() > 0 && self.current_tab == Tab::Recent {
                    self.recent_selection = Some(0);
                }
            },
            Err(e) => {
                if self.error_message.is_none() {
                    self.error_message = Some("Failed to load recent issues: ".to_owned().concat(e.as_str()));
                }
            },
        }
    }

    /// Ends loading: the busy flag is cleared.
    pub fn end_loading(&mut self)
        ensures
            final(self)@ == (AppView { loading: false, ..old(self)@ }),
    {
        self.loading = false;
    }

    /// Whether the selected issue has key `issue_key`.
    pub fn selected_issue_has_key(&self, issue_key: &str) -> (res: bool)
        ensures
            res == (self@.selected_issue matches Some(issue) && issue.key == issue_key@),
    {
        match &self.selected_issue {
            Some(issue) => text_equals(issue.key.as_str(), issue_key),
            None => false,
        }
    }

    /// Records the watch state of the issue `issue_key` where it is the
    /// selected one; a failed query (`None`) counts as not watching.
    pub fn apply_watch_status(&mut self, issue_key: &str, outcome: Option<bool>)
        ensures
            final(self)@ == old(self)@.with_watch_status(
                issue_key@,
                match outcome {
                    Some(b) => b,
                    None => false,
                },
            ),
    {
        let watching = match outcome {
            Some(b) => b,
            None => false,
        };
        if self.selected_issue_has_key(issue_key) {
            let mut issue = self.selected_issue.take().unwrap();
            issue.is_watching = Some(watching);
            self.selected_issue = Some(issue);
        }
    }

    /// The start of a watch toggle; an error where no issue is selected.
    pub fn toggle_watch_start(&self) -> (res: Result<WatchToggle, String>)
        ensures
            res is Err <==> self@.selected_issue is None,
            res matches Err(msg) ==> msg@ == "No issue selected"@,
            res matches Ok(t) ==> t.issue_key@ == self@.selected_issue.unwrap().key
                && t.needs_watch_status == (self@.selected_issue.unwrap().is_watching is None),
    {
        match &self.selected_issue {
            Some(issue) => Ok(WatchToggle { issue_key: issue.key.clone(), needs_watch_status: issue.is_watching.is_none() }),
            None => Err("No issue selected".to_owned()),
        }
    }

    /// What a watch toggle does: stop watching where the selected issue is
    /// known to be watched, start watching otherwise.
    pub fn watch_action(&self) -> (res: WatchAction)
        ensures
            res == (if self@.selected_issue matches Some(issue) && issue.is_watching == Some(true) {
                WatchAction::Unwatch
            } else {
                WatchAction::Watch
            }),
    {
        let watching = match &self.selected_issue {
            Some(issue) => match issue.is_watching {
                Some(b) => b,
                None => false,
            },
            None => false,
        };
        if watching {
            WatchAction::Unwatch
        } else {
            WatchAction::Watch
        }
    }

    /// Records the outcome of a watch toggle of the issue `issue_key` and
    /// returns the message for the user.
    pub fn finish_watch_toggle(&mut self, issue_key: &str, action: WatchAction, outcome: Result<(), String>) -> (msg: String)
        ensures
            final(self)@ == (if outcome is Ok { old(self)@.after_watch_toggle(action) } else { old(self)@ }),
            msg@ == watch_toggle_message(issue_key@, action, match outcome {
                Ok(u) => Ok(u),
                Err(e) => Err(e@),
            }),
    {
        match outcome {
            Ok(_) => {
                if self.selected_issue.is_some() {
                    let mut issue = self.selected_issue.take().unwrap();
                    issue.is_watching = Some(action == WatchAction::Watch);
                    self.selected_issue = Some(issue);
                }
                match action {
                    WatchAction::Unwatch => "Stopped watching ".to_owned().concat(issue_key),
                    WatchAction::Watch => "Now watching ".to_owned().concat(issue_key),
                }
            },
            Err(e) => {
                let mut msg = match action {
                    WatchAction::Unwatch => "Failed to unwatch ".to_owned(),
                    WatchAction::Watch => "Failed to watch ".to_owned(),
                };
                msg.append(issue_key);
                msg.append(": ");
                msg.append(e.as_str());
                msg
            },
        }
    }

    /// Whether the selected issue is `issue_key` and its updates are not
    /// loaded yet.
    pub fn needs_issue_updates(&self, issue_key: &str) -> (res: bool)
        ensures
            res == self@.needs_updates(issue_key@),
    {
        match &self.selected_issue {
            Some(issue) => text_equals(issue.key.as_str(), issue_key) && issue.changelog.is_none(),
            None => false,
        }
    }

    /// Records the updates of the issue `issue_key` where it is still waited
    /// for; a failed load (`None`) records empty lists.
    pub fn apply_issue_updates(&mut self, issue_key: &str, outcome: Option<(Vec<ChangelogEntry>, Vec<Comment>)>)
        ensures
            final(self)@ == old(self)@.with_issue_updates(issue_key@, updates_view(outcome)),
    {
        if self.needs_issue_updates(issue_key) {
            let (changelog, comments) = match outcome {
                Some(u) => u,
                None => (Vec::new(), Vec::new()),
            };
            proof {
                assert(entry_views(changelog@) =~= (match updates_view(outcome) {
                    Some(u) => u.0,
                    None => Seq::empty(),
                }));
                assert(comment_views(comments@) =~= (match updates_view(outcome) {
                    Some(u) => u.1,
                    None => Seq::empty(),
                }));
            }
            let mut issue = self.selected_issue.take().unwrap();
            issue.changelog = Some(changelog);
            issue.comments = Some(comments);
            self.selected_issue = Some(issue);
        }
    }

    /// Whether a key press asks for the issues to be loaded again.
    pub fn refresh_requested(&self, key: Key) -> (res: bool)
        ensures
            res == (key == Key::Char('r') && !self@.show_details),
    {
        key == Key::Char('r') && !self.show_details
    }

    /// Whether a key press asks for the watch of the open issue to toggle.
    pub fn watch_toggle_requested(&self, key: Key) -> (res: bool)
        ensures
            res == (key == Key::Char('w') && self@.show_details),
    {
        key == Key::Char('w') && self.show_details
    }

    /// What the open details still wait for: nothing where no details are
    /// open.
    pub fn pending_detail_loads(&self) -> (res: Option<DetailLoads>)
        ensures
            res is None <==> !(self@.show_details && self@.selected_issue is Some),
            res matches Some(d) ==> d.issue_key@ == self@.selected_issue.unwrap().key
                && d.watch_status == (self@.selected_issue.unwrap().is_watching is None)
                && d.updates == (self@.selected_issue.unwrap().changelog is None),
    {
        if !self.show_details {
            return None;
        }
        match &self.selected_issue {
            Some(issue) => Some(DetailLoads {
                issue_key: issue.key.clone(),
                watch_status: issue.is_watching.is_none(),
                updates: issue.changelog.is_none(),
            }),
            None => None,
        }
    }
}

} // verus!
