use jira_tui::recency::{is_recent_at, is_text_recent_at, is_within_last_week, timestamp_seconds_of};

const DAY_NANOS: u128 = 86_400_000_000_000;

#[test]
fn recent_means_within_seven_days() {
    let now: u128 = 1_000 * DAY_NANOS;
    let t_secs: i64 = 993 * 86_400;
    assert!(is_recent_at(Some(t_secs), Some(now)));
    assert!(!is_recent_at(Some(t_secs - 1), Some(now)));
    assert!(is_recent_at(Some(1_000 * 86_400 + 5), Some(now)));
}

#[test]
fn unknown_or_early_instants_count_as_recent() {
    assert!(is_recent_at(None, Some(5)));
    assert!(is_recent_at(Some(0), Some(u128::MAX)));
    assert!(is_recent_at(Some(-100), Some(u128::MAX)));
    assert!(is_recent_at(Some(1), None));
}

#[test]
fn text_timestamps_parse_as_rfc3339() {
    let oct_10_2025: u128 = 1_760_054_400_000_000_000;
    assert!(is_text_recent_at("2025-10-09T00:00:00Z", Some(oct_10_2025)));
    assert!(is_text_recent_at("2025-10-09T00:00:00+02:00", Some(oct_10_2025)));
    assert!(!is_text_recent_at("2025-09-01T00:00:00Z", Some(oct_10_2025)));
    assert!(is_text_recent_at("yesterday", Some(oct_10_2025)));
}

#[test]
fn within_last_week_uses_the_clock() {
    let now = chrono::Utc::now();
    assert!(is_within_last_week(&now.to_rfc3339()));
    assert!(is_within_last_week(&(now - chrono::Duration::days(6)).to_rfc3339()));
    assert!(!is_within_last_week(&(now - chrono::Duration::days(8)).to_rfc3339()));
    assert!(!is_within_last_week("2000-01-01T00:00:00+00:00"));
    assert!(is_within_last_week("not a date"));
}

#[test]
fn jira_offsets_without_colon_parse() {
    assert_eq!(timestamp_seconds_of("2025-10-12T17:25:10.216-0700"), Some(1_760_315_110));
    assert_eq!(timestamp_seconds_of("2025-10-12T17:25:10-0700"), Some(1_760_315_110));
    assert_eq!(timestamp_seconds_of("2025-10-13T00:25:10Z"), Some(1_760_315_110));
    assert_eq!(timestamp_seconds_of("2025-10-13T00:25:10+00:00"), Some(1_760_315_110));
    assert_eq!(timestamp_seconds_of("soon"), None);
    let oct_20_2025: u128 = 1_760_918_400_000_000_000;
    assert!(is_text_recent_at("2025-10-14T09:00:00.000+0900", Some(oct_20_2025)));
    assert!(!is_text_recent_at("2025-10-01T09:00:00.000+0900", Some(oct_20_2025)));
}

#[test]
fn old_jira_timestamps_are_not_recent() {
    assert!(!is_within_last_week("2024-01-05T10:00:00.000+0000"));
    let now = chrono::Utc::now();
    assert!(is_within_last_week(&now.format("%Y-%m-%dT%H:%M:%S%.3f%z").to_string()));
}
