use hydra_nexus::monitor::{
    classify_stderr_line, group_details, select_down_index, select_up_index, tab_at, Dashboard, Key, KeyOutcome, LineLevel, MAX_LOGS,
};

fn levels(d: &Dashboard) -> Vec<LineLevel> {
    d.logs.iter().map(|l| l.level).collect()
}

#[test]
fn new_dashboard_is_empty() {
    let d = Dashboard::new();
    assert!(d.logs.is_empty());
    assert_eq!(d.max_logs, MAX_LOGS);
    assert_eq!(d.history.len(), 60);
    assert!(d.history.iter().all(|&h| h == 0));
    assert_eq!(d.selected_tab, 0);
    assert_eq!(d.log_selected, Some(0));
    assert_eq!(d.error_selected, Some(0));
    assert_eq!(d.errors_count, 0);
    assert_eq!(d.total_requests, 0);
    assert!(d.last_error.is_none());
}

#[test]
fn lines_are_classified() {
    let mut d = Dashboard::new();
    d.add_log_at("Backend", "server started", "10:00:00");
    d.add_log_at("Backend", "WARN slow query", "10:00:01");
    d.add_log_at("Backend", "Warning: deprecated", "10:00:02");
    d.add_log_at("Backend", "DEBUG cache hit", "10:00:03");
    d.add_log_at("Backend", "TypeError: x is undefined", "10:00:04");
    d.add_log_at("Backend", "    at main (index.js:10)", "10:00:05");
    d.add_log_at("Backend", "uncaught exception", "10:00:06");
    d.add_log_at("Backend", "job fail", "10:00:07");
    assert_eq!(
        levels(&d),
        vec![
            LineLevel::Info,
            LineLevel::Warn,
            LineLevel::Warn,
            LineLevel::Debug,
            LineLevel::Error,
            LineLevel::Error,
            LineLevel::Error,
            LineLevel::Error,
        ]
    );
    assert_eq!(d.errors_count, 4);
    assert_eq!(d.grouped_errors.len(), 4);
    assert_eq!(d.logs[0].timestamp, "10:00:00");
    assert_eq!(d.logs[0].service, "Backend");
}

#[test]
fn errors_are_grouped_by_message() {
    let mut d = Dashboard::new();
    d.add_log_at("Backend", "ERROR db down", "10:00:00");
    d.add_log_at("Frontend", "ERROR db down", "10:00:05");
    d.add_log_at("Backend", "ERROR disk full", "10:00:06");
    assert_eq!(d.errors_count, 3);
    assert_eq!(d.grouped_errors.len(), 2);
    assert_eq!(d.grouped_errors[0].message, "ERROR db down");
    assert_eq!(d.grouped_errors[0].count, 2);
    assert_eq!(d.grouped_errors[0].service, "Backend");
    assert_eq!(d.grouped_errors[0].last_seen, "10:00:05");
    assert_eq!(d.grouped_errors[1].count, 1);
    let sum: u64 = d.grouped_errors.iter().map(|g| g.count as u64).sum();
    assert_eq!(sum, d.errors_count);
    assert_eq!(d.last_error.as_deref(), Some("Backend: ERROR disk full"));
}

#[test]
fn error_key_is_first_500_chars_without_newlines() {
    let mut d = Dashboard::new();
    let long = format!("ERROR {}", "x".repeat(600));
    d.add_log_at("S", &long, "t");
    assert_eq!(d.grouped_errors[0].message.chars().count(), 500);
    let mut d2 = Dashboard::new();
    d2.add_log_at("S", "ERROR a\nb", "t");
    assert_eq!(d2.grouped_errors[0].message, "ERROR a b");
    assert_eq!(d2.logs[0].message, "ERROR a\nb");
}

#[test]
fn requests_are_counted() {
    let mut d = Dashboard::new();
    d.add_log_at("S", "GET /api 200", "t");
    d.add_log_at("S", "POST /x", "t");
    d.add_log_at("S", "HTTP/1.1", "t");
    d.add_log_at("S", "PATCH /y", "t");
    d.add_log_at("S", "DELETE /z", "t");
    d.add_log_at("S", "nothing", "t");
    assert_eq!(d.total_requests, 5);
    assert_eq!(d.tick_requests, 5);
    assert_eq!(d.close_tick(), 5);
    assert_eq!(d.tick_requests, 0);
    assert_eq!(d.history.len(), 60);
    assert_eq!(*d.history.back().unwrap(), 5);
}

#[test]
fn stream_is_bounded_and_drops_oldest() {
    let mut d = Dashboard::new();
    for i in 0..(MAX_LOGS + 5) {
        d.add_log_at("S", &format!("line {}", i), "t");
    }
    assert_eq!(d.logs.len(), MAX_LOGS);
    assert_eq!(d.logs[0].message, "line 5");
    assert_eq!(d.logs[MAX_LOGS - 1].message, format!("line {}", MAX_LOGS + 4));
}

#[test]
fn window_rules_differ() {
    let mut d = Dashboard::new();
    d.process_log_at("S", "TypeError boom", "t");
    d.process_log_at("S", "Warning: x", "t");
    d.process_log_at("S", "WARN y", "t");
    d.process_log_at("S", "ERROR z", "t");
    d.process_log_at("S", "PATCH /x", "t");
    d.process_log_at("S", "GET /x", "t");
    assert_eq!(
        levels(&d),
        vec![LineLevel::Info, LineLevel::Info, LineLevel::Warn, LineLevel::Error, LineLevel::Info, LineLevel::Info]
    );
    assert_eq!(d.errors_count, 1);
    assert!(d.last_error.is_none());
    assert_eq!(d.total_requests, 1);
}

#[test]
fn overflow_guard() {
    let mut d = Dashboard::new();
    assert!(d.can_add_log("ERROR x"));
    d.total_requests = u64::MAX;
    assert!(!d.can_add_log("GET /"));
    assert!(d.can_add_log("plain"));
    assert!(!d.can_process_log("GET /"));
}

#[test]
fn keys_move_between_tabs() {
    let mut d = Dashboard::new();
    assert!(matches!(d.handle_key(Key::Tab), KeyOutcome::Continue));
    assert_eq!(d.selected_tab, 1);
    d.handle_key(Key::Tab);
    d.handle_key(Key::Tab);
    assert_eq!(d.selected_tab, 0);
    d.handle_key(Key::Char('3'));
    assert_eq!(d.selected_tab, 2);
    d.handle_key(Key::Char('2'));
    assert_eq!(d.selected_tab, 1);
    d.handle_key(Key::Char('1'));
    assert_eq!(d.selected_tab, 0);
    assert!(matches!(d.handle_key(Key::Char('q')), KeyOutcome::Quit));
    assert!(matches!(d.handle_key(Key::Char('o')), KeyOutcome::OpenUi));
}

#[test]
fn selection_and_copy() {
    let mut d = Dashboard::new();
    d.add_log_at("S", "first", "t");
    d.add_log_at("S", "second", "t");
    d.add_log_at("S", "third", "t");
    // The selection counts from the newest line.
    match d.handle_key(Key::Char('y')) {
        KeyOutcome::Copy(t) => assert_eq!(t, "third"),
        _ => panic!("expected a copy"),
    }
    d.handle_key(Key::Down);
    assert_eq!(d.log_selected, Some(1));
    match d.handle_key(Key::Char('y')) {
        KeyOutcome::Copy(t) => assert_eq!(t, "second"),
        _ => panic!("expected a copy"),
    }
    d.handle_key(Key::Down);
    d.handle_key(Key::Down);
    assert_eq!(d.log_selected, Some(2));
    d.handle_key(Key::Up);
    assert_eq!(d.log_selected, Some(1));
    d.handle_key(Key::Up);
    d.handle_key(Key::Up);
    assert_eq!(d.log_selected, Some(0));
    d.handle_key(Key::Char('2'));
    assert!(matches!(d.handle_key(Key::Char('y')), KeyOutcome::Continue));
}

#[test]
fn error_details_and_clear() {
    let mut d = Dashboard::new();
    d.add_log_at("S", "ERROR a", "t");
    d.add_log_at("S", "GET /", "t");
    d.handle_key(Key::Char('3'));
    d.handle_key(Key::Enter);
    assert!(d.show_details);
    d.handle_key(Key::Enter);
    assert!(!d.show_details);
    d.handle_key(Key::Enter);
    d.handle_key(Key::Esc);
    assert!(!d.show_details);
    match d.handle_key(Key::Char('y')) {
        KeyOutcome::Copy(t) => assert_eq!(t, "ERROR a"),
        _ => panic!("expected a copy"),
    }
    d.handle_key(Key::Char('c'));
    assert!(d.logs.is_empty());
    assert!(d.grouped_errors.is_empty());
    assert_eq!(d.errors_count, 0);
    assert_eq!(d.total_requests, 0);
    assert_eq!(d.tick_requests, 1);
}

#[test]
fn copy_guard_on_empty_stream() {
    let d = Dashboard::new();
    assert!(d.copy_would_underflow());
}

#[test]
fn clicks_select_tabs() {
    let mut d = Dashboard::new();
    d.handle_click(50, 1, 90);
    assert_eq!(d.selected_tab, 1);
    d.handle_click(80, 2, 90);
    assert_eq!(d.selected_tab, 2);
    d.handle_click(5, 10, 90);
    assert_eq!(d.selected_tab, 2);
    d.handle_click(5, 0, 90);
    assert_eq!(d.selected_tab, 0);
    assert_eq!(tab_at(29, 90), 0);
    assert_eq!(tab_at(30, 90), 1);
    assert_eq!(tab_at(60, 90), 2);
}

#[test]
fn selection_steps() {
    assert_eq!(select_down_index(None, 5), 0);
    assert_eq!(select_down_index(Some(3), 5), 4);
    assert_eq!(select_down_index(Some(4), 5), 4);
    assert_eq!(select_down_index(Some(0), 0), 0);
    assert_eq!(select_up_index(Some(0)), 0);
    assert_eq!(select_up_index(Some(4)), 3);
    assert_eq!(select_up_index(None), 0);
    assert_eq!(select_up_index(Some(select_down_index(Some(2), 5))), 2);
}

#[test]
fn stderr_levels() {
    assert_eq!(classify_stderr_line("ERROR boom"), LineLevel::Error);
    assert_eq!(classify_stderr_line("TypeError: x"), LineLevel::Error);
    assert_eq!(classify_stderr_line("WARN careful"), LineLevel::Warn);
    assert_eq!(classify_stderr_line("compiling..."), LineLevel::Debug);
}

#[test]
fn add_log_with_clock() {
    let mut d = Dashboard::new();
    d.add_log("S", "hello");
    d.process_log("S", "ERROR x");
    assert_eq!(d.logs.len(), 2);
    assert_eq!(d.logs[0].timestamp.len(), 8);
    assert_eq!(&d.logs[0].timestamp[2..3], ":");
}

#[test]
fn alert_line_and_details() {
    let mut d = Dashboard::new();
    assert_eq!(d.alert_line(), " LAST ALERT: No errors detected");
    assert!(d.selected_details().is_none());
    d.add_log_at("Backend", "TypeError: x is undefined", "10:00:00");
    d.add_log_at("Backend", "TypeError: x is undefined", "10:00:05");
    let alert = d.alert_line();
    assert!(alert.starts_with(" LAST ALERT: Backend: "));
    let g = &d.grouped_errors[0];
    assert_eq!(
        group_details(g),
        format!("SERVICE: Backend\nCOUNT: 2\nLAST SEEN: 10:00:05\n\nFULL MESSAGE:\n{}", g.message)
    );
    d.show_details = true;
    d.error_selected = Some(0);
    assert_eq!(d.selected_details(), Some(group_details(&d.grouped_errors[0])));
    d.error_selected = Some(5);
    assert!(d.selected_details().is_none());
}

#[test]
fn error_groups_keep_their_place() {
    let mut d = Dashboard::new();
    d.add_log_at("Backend", "TypeError: a is undefined", "10:00:00");
    d.add_log_at("Frontend", "ReferenceError: b is not defined", "10:00:01");
    let first = (d.grouped_errors[0].message.clone(), d.grouped_errors[0].service.clone());
    let second = (d.grouped_errors[1].message.clone(), d.grouped_errors[1].service.clone());
    d.add_log_at("Frontend", "TypeError: a is undefined", "10:00:02");
    d.add_log_at("Worker", "SyntaxError: unexpected token", "10:00:03");
    assert_eq!(d.grouped_errors.len(), 3);
    assert_eq!((d.grouped_errors[0].message.clone(), d.grouped_errors[0].service.clone()), first);
    assert_eq!((d.grouped_errors[1].message.clone(), d.grouped_errors[1].service.clone()), second);
    assert_eq!(d.grouped_errors[0].count, 2);
    assert_eq!(d.errors_count, 4);
}
