use jira_tui::app::{StatusColumn, Tab};
use jira_tui::display::{
    IssueColor, assignee_text, column_heading, details_text, details_text_at, help_text,
    priority_color, recent_issues_title, short_stamp_text, status_color, status_column_title,
    tab_text, t_to_space_text,
};
use jira_tui::issue::{ChangelogEntry, ChangelogItem, Comment, JiraIssue};

#[test]
fn status_colors_follow_readme() {
    for s in ["Done", "Closed", "Resolved", "해결됨", "완료"] {
        assert_eq!(status_color(s), IssueColor::Green);
    }
    for s in ["In Progress", "In Review", "진행 중"] {
        assert_eq!(status_color(s), IssueColor::Yellow);
    }
    for s in ["To Do", "Open", "해야 할 일", "PENDING"] {
        assert_eq!(status_color(s), IssueColor::Blue);
    }
    assert_eq!(status_color("Blocked"), IssueColor::White);
}

#[test]
fn priority_colors_follow_readme() {
    assert_eq!(priority_color("Highest"), IssueColor::Red);
    assert_eq!(priority_color("High"), IssueColor::Red);
    assert_eq!(priority_color("Medium"), IssueColor::Yellow);
    assert_eq!(priority_color("Low"), IssueColor::Green);
    assert_eq!(priority_color("Lowest"), IssueColor::Green);
    assert_eq!(priority_color("Urgent"), IssueColor::White);
}

#[test]
fn tab_bar_marks_current_tab() {
    assert_eq!(tab_text(Tab::Assigned), "[Assigned] |  Recent ");
    assert_eq!(tab_text(Tab::Recent), " Assigned  | [Recent]");
}

#[test]
fn help_line_depends_on_view() {
    assert_eq!(
        help_text(true, Tab::Assigned),
        "Press 'Esc' or 'q' to close details | 'w' to toggle watch | Copy the URL to open in your browser"
    );
    assert!(help_text(false, Tab::Assigned).contains("←/h: Left"));
    assert!(!help_text(false, Tab::Recent).contains("←/h: Left"));
}

#[test]
fn column_titles_show_position_when_focused() {
    assert_eq!(column_heading(StatusColumn::InProgress), "In Progress");
    assert_eq!(status_column_title("To Do", 5, Some(1), true), "To Do (5) - 2/5");
    assert_eq!(status_column_title("To Do", 5, Some(1), false), "To Do (5)");
    assert_eq!(status_column_title("Done", 0, Some(0), true), "Done (0)");
    assert_eq!(status_column_title("Done", 3, None, true), "Done (3)");
    assert_eq!(recent_issues_title(12, Some(11)), "Recent Issues (12) - 12/12");
    assert_eq!(recent_issues_title(0, Some(0)), "Recent Issues (0)");
}

#[test]
fn timestamps_are_shortened() {
    assert_eq!(short_stamp_text("2025-10-12T17:25:10.216-0700"), "2025-10-12 17:25:10");
    assert_eq!(t_to_space_text("TaTT"), " a  ");
}

fn base_issue() -> JiraIssue {
    JiraIssue {
        id: "1".to_string(),
        key: "PROJ-7".to_string(),
        summary: "Crash on start".to_string(),
        description: None,
        status: "Open".to_string(),
        priority: "High".to_string(),
        assignee: None,
        reporter: "Rae".to_string(),
        created: "2025-10-01T00:00:00.000+0000".to_string(),
        updated: "2025-10-02T00:00:00.000+0000".to_string(),
        is_watching: None,
        changelog: None,
        comments: None,
    }
}

#[test]
fn assignee_defaults_to_unassigned() {
    let mut i = base_issue();
    assert_eq!(assignee_text(&i), "Unassigned");
    i.assignee = Some("Kim".to_string());
    assert_eq!(assignee_text(&i), "Kim");
}

#[test]
fn details_while_loading() {
    let text = details_text_at(&base_issue(), "https://j.example", None);
    assert_eq!(
        text,
        "Key: PROJ-7\n\nSummary: Crash on start\n\nURL: https://j.example/browse/PROJ-7\n\nStatus: Open\nPriority: High\nAssignee: Unassigned\nReporter: Rae\nWatching: Loading watch status...\nCreated: 2025-10-01T00:00:00.000+0000\nUpdated: 2025-10-02T00:00:00.000+0000\n\nDescription:\nNo description available\n\nRecent Updates (Last 7 Days):\nLoading updates...\n\nRecent Comments (Last 7 Days):\nLoading comments..."
    );
}

fn entry(created: &str, items: Vec<ChangelogItem>) -> ChangelogEntry {
    ChangelogEntry { id: "e".to_string(), author: "Ann".to_string(), created: created.to_string(), items }
}

fn item(field: &str, from: Option<&str>, to: Option<&str>) -> ChangelogItem {
    ChangelogItem {
        field: field.to_string(),
        field_type: "jira".to_string(),
        from_string: from.map(|s| s.to_string()),
        to_string: to.map(|s| s.to_string()),
    }
}

// 2025-10-10T00:00:00Z in nanoseconds since the epoch.
const OCT_10_2025: u128 = 1_760_054_400_000_000_000;

#[test]
fn details_list_recent_changes_and_comments() {
    let mut issue = base_issue();
    issue.is_watching = Some(true);
    issue.description = Some("Steps".to_string());
    issue.changelog = Some(vec![
        entry("2025-09-01T10:00:00+00:00", vec![item("status", Some("Open"), Some("Done"))]),
        entry(
            "2025-10-09T08:30:00+00:00",
            vec![item("status", Some("Open"), Some("In Progress")), item("assignee", None, Some("Kim")), item("labels", Some("x"), None)],
        ),
        entry("not a time at all, kept", vec![]),
    ]);
    issue.comments = Some(vec![Comment {
        id: "c".to_string(),
        author: "Bo".to_string(),
        created: "2025-10-08T12:00:00+00:00".to_string(),
        updated: "2025-10-08T12:00:00+00:00".to_string(),
        body: "x".repeat(150),
    }]);
    let text = details_text_at(&issue, "https://j.example", Some(OCT_10_2025));
    let expected_updates = "2025-10-09 08:30:00 by Ann - status: Open → In Progress, assignee: Kim, labels: updated\nnot a time at all,  by Ann - ";
    let expected_comments = format!("2025-10-08 12:00:00 by Bo - {}", "x".repeat(100));
    assert!(text.contains("Watching: Watching ✓"));
    assert!(text.contains("Description:\nSteps\n"));
    assert!(text.contains(&format!("Recent Updates (Last 7 Days):\n{}\n\n", expected_updates)));
    assert!(text.ends_with(&format!("Recent Comments (Last 7 Days):\n{}", expected_comments)));
}

#[test]
fn details_without_recent_items() {
    let mut issue = base_issue();
    issue.is_watching = Some(false);
    issue.changelog = Some(vec![entry("2025-09-01T10:00:00+00:00", vec![])]);
    issue.comments = Some(vec![]);
    let text = details_text_at(&issue, "u", Some(OCT_10_2025));
    assert!(text.contains("Watching: Not watching"));
    assert!(text.contains("Recent Updates (Last 7 Days):\nNo recent changes (last 7 days)"));
    assert!(text.ends_with("Recent Comments (Last 7 Days):\nNo recent comments (last 7 days)"));
}

#[test]
fn details_show_at_most_five_changes() {
    let mut issue = base_issue();
    let entries: Vec<ChangelogEntry> =
        (0..7).map(|i| entry(&format!("2025-10-09T0{}:00:00+00:00", i), vec![])).collect();
    issue.changelog = Some(entries);
    let text = details_text_at(&issue, "u", Some(OCT_10_2025));
    assert!(text.contains("2025-10-09 04:00:00"));
    assert!(!text.contains("2025-10-09 05:00:00"));
}

#[test]
fn details_refuse_timestamps_too_short_to_cut() {
    let mut issue = base_issue();
    issue.changelog = Some(vec![entry("short", vec![])]);
    assert!(details_text(&issue, "u").is_none());
    issue.changelog = Some(vec![]);
    assert!(details_text(&issue, "u").unwrap().starts_with("Key: PROJ-7"));
}
