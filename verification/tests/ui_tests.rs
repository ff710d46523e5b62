use nanowave::ui::{format_duration, format_millis, NavigationHistory};
use std::time::Duration;

#[test]
fn format_duration_pads_each_part() {
    assert_eq!(format_duration(Duration::from_millis(3_723_000)), "01:02:03");
}

#[test]
fn format_duration_zero() {
    assert_eq!(format_duration(Duration::from_secs(0)), "00:00:00");
}

#[test]
fn format_duration_truncates_millis() {
    assert_eq!(format_duration(Duration::from_millis(59_999)), "00:00:59");
}

#[test]
fn format_millis_long_hours() {
    assert_eq!(format_millis(100 * 3600 * 1000 + 61_000), "100:01:01");
}

#[test]
fn navigation_back_and_forward() {
    let mut nav = NavigationHistory::new();
    nav.navigate_to(vec!["home".to_string()]);
    nav.navigate_to(vec!["details".to_string(), "42".to_string()]);
    assert_eq!(nav.history_index(), 1);
    nav.go_offset(-1);
    assert_eq!(nav.current_route(), &vec!["home".to_string()]);
    nav.go_offset(1);
    assert_eq!(nav.current_route(), &vec!["details".to_string(), "42".to_string()]);
    nav.go_offset(5);
    assert_eq!(nav.history_index(), 1);
}

#[test]
fn navigation_history_stays_bounded() {
    let mut nav = NavigationHistory::new();
    for i in 0..1005 {
        nav.navigate_to(vec![format!("page{}", i)]);
        assert!(nav.history_len() <= 1001);
    }
    assert_eq!(nav.history_index(), 1000);
    assert_eq!(nav.current_route(), &vec!["page1004".to_string()]);
    // once past the limit the index sits one past the last page: going back
    // one page shows the page just opened
    assert_eq!(nav.history_len(), 1000);
    nav.go_offset(-1);
    assert_eq!(nav.current_route(), &vec!["page1004".to_string()]);
}

#[test]
fn navigation_after_going_back_drops_forward_pages() {
    let mut nav = NavigationHistory::new();
    nav.navigate_to(vec!["a".to_string()]);
    nav.navigate_to(vec!["b".to_string()]);
    nav.navigate_to(vec!["c".to_string()]);
    nav.go_offset(-2);
    nav.navigate_to(vec!["d".to_string()]);
    assert_eq!(nav.history_len(), 2);
    assert_eq!(nav.history_index(), 1);
    nav.go_offset(-1);
    assert_eq!(nav.current_route(), &vec!["a".to_string()]);
}
