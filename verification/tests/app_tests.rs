use jira_tui::app::{App, Key, StatusColumn, Tab, WatchAction, issues_in_column};
use jira_tui::issue::{ChangelogEntry, Comment, JiraIssue};
use jira_tui::jira::JiraClient;

fn issue(key: &str, status: &str) -> JiraIssue {
    JiraIssue {
        id: key.to_string(),
        key: key.to_string(),
        summary: format!("Summary of {}", key),
        description: None,
        status: status.to_string(),
        priority: "Medium".to_string(),
        assignee: None,
        reporter: "R".to_string(),
        created: "2025-10-01T00:00:00.000+0000".to_string(),
        updated: "2025-10-01T00:00:00.000+0000".to_string(),
        is_watching: None,
        changelog: None,
        comments: None,
    }
}

fn new_app() -> App {
    let client = JiraClient::new("https://jira.example".to_string(), "u".to_string(), "t".to_string());
    App::new(client, "https://jira.example".to_string())
}

fn loaded_app() -> App {
    let mut app = new_app();
    app.begin_loading();
    app.finish_assigned_load(Ok(vec![
        issue("A-1", "To Do"),
        issue("A-2", "In Progress"),
        issue("A-3", "Open"),
        issue("A-4", "완료"),
        issue("A-5", "해야 할 일"),
        issue("A-6", "Blocked"),
    ]));
    app.finish_recent_load(Ok(vec![issue("R-1", "Done"), issue("R-2", "Weird")]));
    app.end_loading();
    app
}

#[test]
fn new_app_starts_on_assigned_todo() {
    let app = new_app();
    assert_eq!(app.current_tab, Tab::Assigned);
    assert_eq!(app.current_column, StatusColumn::Todo);
    assert_eq!(app.todo_selection, Some(0));
    assert_eq!(app.recent_selection, Some(0));
    assert!(!app.show_details && !app.loading);
    assert!(app.error_message.is_none() && app.selected_issue.is_none());
    assert_eq!(app.jira_base_url, "https://jira.example");
}

#[test]
fn columns_filter_by_status() {
    let app = loaded_app();
    let keys = |c| issues_in_column(&app.assigned_issues, c).iter().map(|i| i.key.clone()).collect::<Vec<_>>();
    assert_eq!(keys(StatusColumn::Todo), vec!["A-1", "A-3", "A-5"]);
    assert_eq!(keys(StatusColumn::InProgress), vec!["A-2"]);
    assert_eq!(keys(StatusColumn::Done), vec!["A-4"]);
    let current: Vec<String> = app.current_issues().iter().map(|i| i.key.clone()).collect();
    assert_eq!(current, vec!["A-1", "A-3", "A-5"]);
}

#[test]
fn recent_tab_shows_all_recent_issues() {
    let mut app = loaded_app();
    app.switch_tab();
    assert_eq!(app.current_issues().len(), 2);
}

#[test]
fn down_and_up_wrap_around() {
    let mut app = loaded_app();
    assert_eq!(app.current_list_state(), Some(0));
    app.next_issue();
    assert_eq!(app.todo_selection, Some(1));
    app.next_issue();
    app.next_issue();
    assert_eq!(app.todo_selection, Some(0));
    app.previous_issue();
    assert_eq!(app.todo_selection, Some(2));
    app.next_issue();
    app.previous_issue();
    assert_eq!(app.todo_selection, Some(2));
}

#[test]
fn moving_in_an_empty_list_changes_nothing() {
    let mut app = new_app();
    app.next_issue();
    app.previous_issue();
    assert_eq!(app.todo_selection, Some(0));
}

#[test]
fn moving_without_selection_selects_first() {
    let mut app = loaded_app();
    app.todo_selection = None;
    app.previous_issue();
    assert_eq!(app.todo_selection, Some(0));
    app.todo_selection = None;
    app.next_issue();
    assert_eq!(app.todo_selection, Some(0));
}

#[test]
fn stale_selection_wraps_to_first_on_down() {
    let mut app = loaded_app();
    app.todo_selection = Some(10);
    app.next_issue();
    assert_eq!(app.todo_selection, Some(0));
}

#[test]
fn columns_cycle_on_assigned_tab_only() {
    let mut app = loaded_app();
    app.next_column();
    assert_eq!(app.current_column, StatusColumn::InProgress);
    app.next_column();
    assert_eq!(app.current_column, StatusColumn::Done);
    app.next_column();
    assert_eq!(app.current_column, StatusColumn::Todo);
    app.previous_column();
    assert_eq!(app.current_column, StatusColumn::Done);
    app.switch_tab();
    app.next_column();
    assert_eq!(app.current_column, StatusColumn::Todo);
    app.previous_column();
    assert_eq!(app.current_column, StatusColumn::Todo);
}

#[test]
fn selection_is_kept_per_column() {
    let mut app = loaded_app();
    app.next_issue();
    app.next_column();
    assert_eq!(app.current_list_state(), Some(0));
    app.previous_column();
    assert_eq!(app.current_list_state(), Some(1));
}

#[test]
fn enter_opens_selected_issue() {
    let mut app = loaded_app();
    app.next_issue();
    app.show_issue_details();
    assert!(app.show_details);
    assert_eq!(app.selected_issue.as_ref().unwrap().key, "A-3");
}

#[test]
fn selection_beyond_list_opens_nothing() {
    let mut app = loaded_app();
    app.todo_selection = Some(7);
    app.show_issue_details();
    assert!(!app.show_details);
    assert!(app.selected_issue.is_none());
}

#[test]
fn switching_tabs_twice_resets_view() {
    let mut app = loaded_app();
    app.next_column();
    app.show_issue_details();
    assert!(app.show_details);
    app.switch_tab();
    assert_eq!(app.current_tab, Tab::Recent);
    assert!(!app.show_details && app.selected_issue.is_none());
    app.switch_tab();
    assert_eq!(app.current_tab, Tab::Assigned);
    assert_eq!(app.current_column, StatusColumn::Todo);
}

#[test]
fn keys_drive_the_interface() {
    let mut app = loaded_app();
    assert!(!app.handle_key_event(Key::Char('j')));
    assert_eq!(app.todo_selection, Some(1));
    assert!(!app.handle_key_event(Key::Up));
    assert_eq!(app.todo_selection, Some(0));
    assert!(!app.handle_key_event(Key::Char('l')));
    assert_eq!(app.current_column, StatusColumn::InProgress);
    assert!(!app.handle_key_event(Key::Left));
    assert_eq!(app.current_column, StatusColumn::Todo);
    assert!(!app.handle_key_event(Key::Enter));
    assert!(app.show_details);
    assert!(!app.handle_key_event(Key::Char('q')));
    assert!(!app.show_details);
    assert!(!app.handle_key_event(Key::Char(' ')));
    assert!(app.show_details);
    assert!(!app.handle_key_event(Key::Char('w')));
    assert!(app.show_details);
    assert!(!app.handle_key_event(Key::Esc));
    assert!(!app.show_details && app.selected_issue.is_none());
    assert!(!app.handle_key_event(Key::Tab));
    assert_eq!(app.current_tab, Tab::Recent);
    assert!(!app.handle_key_event(Key::Char('r')));
    assert!(app.handle_key_event(Key::Char('q')));
}

#[test]
fn load_errors_keep_first_message() {
    let mut app = new_app();
    app.begin_loading();
    assert!(app.loading);
    app.finish_assigned_load(Err("timeout".to_string()));
    app.finish_recent_load(Err("refused".to_string()));
    app.end_loading();
    assert!(!app.loading);
    assert_eq!(app.error_message.as_deref(), Some("Failed to load assigned issues: timeout"));
    app.begin_loading();
    assert!(app.error_message.is_none());
    app.finish_assigned_load(Ok(vec![]));
    app.finish_recent_load(Err("refused".to_string()));
    assert_eq!(app.error_message.as_deref(), Some("Failed to load recent issues: refused"));
}

#[test]
fn reload_resets_selection_of_current_tab() {
    let mut app = loaded_app();
    app.next_issue();
    app.finish_assigned_load(Ok(vec![issue("B-1", "To Do")]));
    assert_eq!(app.todo_selection, Some(0));
    app.recent_selection = Some(1);
    app.finish_recent_load(Ok(vec![issue("C-1", "Done")]));
    assert_eq!(app.recent_selection, Some(1));
}

#[test]
fn watch_status_goes_to_selected_issue() {
    let mut app = loaded_app();
    app.show_issue_details();
    assert!(app.selected_issue_has_key("A-1"));
    app.apply_watch_status("A-2", Some(true));
    assert_eq!(app.selected_issue.as_ref().unwrap().is_watching, None);
    app.apply_watch_status("A-1", None);
    assert_eq!(app.selected_issue.as_ref().unwrap().is_watching, Some(false));
    app.apply_watch_status("A-1", Some(true));
    assert_eq!(app.selected_issue.as_ref().unwrap().is_watching, Some(true));
}

#[test]
fn toggle_watch_needs_a_selected_issue() {
    let app = loaded_app();
    assert_eq!(app.toggle_watch_start().err(), Some("No issue selected".to_string()));
}

#[test]
fn toggle_watch_flow() {
    let mut app = loaded_app();
    app.show_issue_details();
    let start = app.toggle_watch_start().unwrap();
    assert_eq!(start.issue_key, "A-1");
    assert!(start.needs_watch_status);
    app.apply_watch_status("A-1", Some(false));
    assert_eq!(app.watch_action(), WatchAction::Watch);
    let msg = app.finish_watch_toggle("A-1", WatchAction::Watch, Ok(()));
    assert_eq!(msg, "Now watching A-1");
    assert_eq!(app.selected_issue.as_ref().unwrap().is_watching, Some(true));
    assert_eq!(app.watch_action(), WatchAction::Unwatch);
    let msg = app.finish_watch_toggle("A-1", WatchAction::Unwatch, Err("403 Forbidden".to_string()));
    assert_eq!(msg, "Failed to unwatch A-1: 403 Forbidden");
    assert_eq!(app.selected_issue.as_ref().unwrap().is_watching, Some(true));
    let msg = app.finish_watch_toggle("A-1", WatchAction::Unwatch, Ok(()));
    assert_eq!(msg, "Stopped watching A-1");
    assert_eq!(app.selected_issue.as_ref().unwrap().is_watching, Some(false));
    let msg = app.finish_watch_toggle("A-1", WatchAction::Watch, Err("boom".to_string()));
    assert_eq!(msg, "Failed to watch A-1: boom");
}

#[test]
fn updates_are_recorded_once() {
    let mut app = loaded_app();
    app.show_issue_details();
    assert!(app.needs_issue_updates("A-1"));
    assert!(!app.needs_issue_updates("A-2"));
    app.apply_issue_updates("A-1", None);
    let sel = app.selected_issue.as_ref().unwrap();
    assert_eq!(sel.changelog.as_ref().map(|c| c.len()), Some(0));
    assert_eq!(sel.comments.as_ref().map(|c| c.len()), Some(0));
    assert!(!app.needs_issue_updates("A-1"));
    let entry = ChangelogEntry { id: "1".to_string(), author: "a".to_string(), created: "c".to_string(), items: vec![] };
    app.apply_issue_updates("A-1", Some((vec![entry], vec![])));
    assert_eq!(app.selected_issue.as_ref().unwrap().changelog.as_ref().unwrap().len(), 0);
}

#[test]
fn updates_fill_in_lists() {
    let mut app = loaded_app();
    app.show_issue_details();
    let entry = ChangelogEntry { id: "1".to_string(), author: "a".to_string(), created: "c".to_string(), items: vec![] };
    let comment = Comment {
        id: "c".to_string(),
        author: "b".to_string(),
        created: "d".to_string(),
        updated: "d".to_string(),
        body: "hi".to_string(),
    };
    app.apply_issue_updates("A-1", Some((vec![entry], vec![comment])));
    let sel = app.selected_issue.as_ref().unwrap();
    assert_eq!(sel.changelog.as_ref().unwrap()[0].id, "1");
    assert_eq!(sel.comments.as_ref().unwrap()[0].body, "hi");
}

#[test]
fn loop_decisions_follow_details_state() {
    let mut app = loaded_app();
    assert!(app.refresh_requested(Key::Char('r')));
    assert!(!app.watch_toggle_requested(Key::Char('w')));
    assert!(app.pending_detail_loads().is_none());
    app.show_issue_details();
    assert!(!app.refresh_requested(Key::Char('r')));
    assert!(app.watch_toggle_requested(Key::Char('w')));
    let loads = app.pending_detail_loads().unwrap();
    assert_eq!(loads.issue_key, "A-1");
    assert!(loads.watch_status && loads.updates);
    app.apply_watch_status("A-1", Some(true));
    app.apply_issue_updates("A-1", None);
    let loads = app.pending_detail_loads().unwrap();
    assert!(!loads.watch_status && !loads.updates);
}

#[test]
fn issue_url_points_at_browse_page() {
    let i = issue("PROJ-123", "Open");
    assert_eq!(i.get_url("https://newracom.atlassian.net"), "https://newracom.atlassian.net/browse/PROJ-123");
}

#[test]
fn cloned_issue_keeps_every_field() {
    let mut i = issue("K-1", "Open");
    i.description = Some("d".to_string());
    i.is_watching = Some(true);
    i.comments = Some(vec![]);
    let c = i.clone();
    assert_eq!(c.key, i.key);
    assert_eq!(c.description, i.description);
    assert_eq!(c.is_watching, Some(true));
    assert!(c.changelog.is_none());
    assert_eq!(c.comments.map(|v| v.len()), Some(0));
}

#[test]
fn board_columns_partition_column_statuses() {
    let mut app = new_app();
    app.finish_assigned_load(Ok(vec![
        issue("S-0", "To Do"),
        issue("S-1", "Done"),
        issue("S-2", "In Review"),
        issue("S-3", "Blocked"),
        issue("S-4", "Open"),
    ]));
    let keys = |c| issues_in_column(&app.assigned_issues, c).iter().map(|i| i.key.clone()).collect::<Vec<_>>();
    assert_eq!(keys(StatusColumn::Todo), vec!["S-0", "S-4"]);
    assert_eq!(keys(StatusColumn::InProgress), vec!["S-2"]);
    assert_eq!(keys(StatusColumn::Done), vec!["S-1"]);
}
