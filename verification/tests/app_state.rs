use log_explorer::app::Action;
use log_explorer::app::App;
use log_explorer::app::Key;
use log_explorer::app::Pane;
use log_explorer::query::AvailableFilters;
use log_explorer::query::LogEntry;

fn strings(items: &[&str]) -> Vec<String> {
    items.iter().map(|s| s.to_string()).collect()
}

fn loaded_app() -> App {
    let mut app = App::new();
    app.apply_available_filters(AvailableFilters {
        environments: strings(&["production", "staging", "ACTIVE_PROFILE_IS_UNDEFINED"]),
        applications: strings(&["billing", "frontend", "APPLICATION_NAME_IS_UNDEFINED"]),
        severities: strings(&["ERROR", "WARN", "INFO"]),
    });
    app
}

fn entry(message: &str, stacktrace: &str) -> LogEntry {
    LogEntry {
        timestamp: "2024-01-01T00:00:00Z".to_string(),
        message: message.to_string(),
        severity: "ERROR".to_string(),
        application: "billing".to_string(),
        logger: "com.example.Main".to_string(),
        thread: "main".to_string(),
        profiles: "production".to_string(),
        method: "run".to_string(),
        stacktrace: stacktrace.to_string(),
        trace_id: None,
    }
}

#[test]
fn new_app_starts_on_the_logs_pane() {
    let app = App::new();
    assert_eq!(app.focused, Pane::Logs);
    assert_eq!(app.page, 1);
    assert_eq!(app.total_hits, 0);
    assert_eq!(app.status, "Loading filters...");
    assert!(!app.search_exact());
}

#[test]
fn facet_lists_get_sentinels_and_defaults() {
    let app = loaded_app();
    // the placeholder environment is dropped and production committed
    assert_eq!(app.selected_env(), Some("production"));
    // the ALL sentinel heads the application and severity lists and is
    // committed, which omits those dimensions from queries
    assert_eq!(app.selected_app(), None);
    assert_eq!(app.selected_severity(), None);
    assert_eq!(app.selected_time_range(), "now-5m");
    assert_eq!(app.selected_limit(), 50);
    assert_eq!(
        app.status,
        "3 environments, 3 applications - select filters and press Enter"
    );
}

#[test]
fn committing_a_concrete_application_keeps_it() {
    let mut app = loaded_app();
    app.handle_key(Key::Char('A'));
    assert_eq!(app.focused, Pane::Application);
    // candidates are ALL, billing, frontend; move to billing and commit
    app.handle_key(Key::Down);
    let act = app.handle_key(Key::Enter);
    assert!(matches!(act, Action::Fetch(1)));
    assert_eq!(app.selected_app(), Some("billing"));
}

#[test]
fn hotkeys_open_panes_and_win_over_typing() {
    let mut app = loaded_app();
    app.handle_key(Key::Char('P'));
    assert_eq!(app.focused, Pane::Profile);
    // a hotkey pressed while a filter pane is focused switches panes and
    // is never typed into the filter text
    app.handle_key(Key::Char('T'));
    assert_eq!(app.focused, Pane::TimeRange);
    app.handle_key(Key::Char('3'));
    app.handle_key(Key::Char('h'));
    app.handle_key(Key::Char('L'));
    assert_eq!(app.focused, Pane::Logs);
    // the hotkeys never reached the time filter's search text
    assert_eq!(app.time_filter.filter_text(), "3h");
}

#[test]
fn typing_in_a_filter_pane_narrows_its_candidates() {
    let mut app = loaded_app();
    app.handle_key(Key::Char('T'));
    app.handle_key(Key::Char('3'));
    app.handle_key(Key::Char('h'));
    let act = app.handle_key(Key::Enter);
    assert!(matches!(act, Action::Fetch(1)));
    assert_eq!(app.selected_time_range(), "now-3h");
}

#[test]
fn search_mode_commit_returns_to_logs_without_a_fetch() {
    let mut app = loaded_app();
    app.handle_key(Key::Char('M'));
    assert_eq!(app.focused, Pane::SearchMode);
    app.handle_key(Key::Down);
    let act = app.handle_key(Key::Enter);
    assert!(matches!(act, Action::Nothing));
    assert_eq!(app.focused, Pane::Logs);
    assert!(app.search_exact());
}

#[test]
fn escape_discards_uncommitted_typing() {
    let mut app = loaded_app();
    app.handle_key(Key::Char('S'));
    app.handle_key(Key::Char('E'));
    app.handle_key(Key::Char('R'));
    let act = app.handle_key(Key::Esc);
    assert!(matches!(act, Action::Nothing));
    assert_eq!(app.focused, Pane::Logs);
    assert_eq!(app.selected_severity(), None);
}

#[test]
fn search_pane_collects_text_and_submits_page_one() {
    let mut app = loaded_app();
    app.handle_key(Key::Char('/'));
    assert_eq!(app.focused, Pane::Search);
    // hotkey characters are typed into the free search text here
    app.handle_key(Key::Char('P'));
    app.handle_key(Key::Char('a'));
    app.handle_key(Key::Char('y'));
    app.handle_key(Key::Backspace);
    assert_eq!(app.search_text, "Pa");
    let act = app.handle_key(Key::Enter);
    assert!(matches!(act, Action::Fetch(1)));
}

#[test]
fn refresh_fetches_the_current_page() {
    let mut app = loaded_app();
    app.page = 4;
    let act = app.handle_key(Key::Char('R'));
    assert!(matches!(act, Action::Fetch(4)));
}

#[test]
fn page_navigation_saturates_at_both_ends() {
    let mut app = loaded_app();
    app.total_hits = 101;  // three pages at the committed size of 50
    assert_eq!(app.total_pages(), 3);
    assert_eq!(app.prev_page(), None);
    let act = app.handle_key(Key::Left);
    assert!(matches!(act, Action::Nothing));
    let act = app.handle_key(Key::Right);
    assert!(matches!(act, Action::Fetch(2)));
    app.page = 3;
    assert_eq!(app.next_page(), None);
    let act = app.handle_key(Key::Right);
    assert!(matches!(act, Action::Nothing));
    let act = app.handle_key(Key::Left);
    assert!(matches!(act, Action::Fetch(2)));
}

#[test]
fn scrolling_clamps_to_the_log_buffer() {
    let mut app = loaded_app();
    app.apply_fetch_success(1, vec![entry("a", ""), entry("b", ""), entry("c", "")], 3);
    assert_eq!(app.log_index, 0);
    app.handle_key(Key::Down);
    app.handle_key(Key::Down);
    app.handle_key(Key::Down);
    assert_eq!(app.log_index, 2);
    app.handle_key(Key::Up);
    app.handle_key(Key::Up);
    app.handle_key(Key::Up);
    assert_eq!(app.log_index, 0);
}

#[test]
fn context_menu_copies_the_highlighted_record() {
    let mut app = loaded_app();
    app.apply_fetch_success(1, vec![entry("boom", "trace line")], 1);
    app.handle_key(Key::Enter);
    assert_eq!(app.focused, Pane::LogContext);
    let act = app.handle_key(Key::Enter);
    match act {
        Action::CopyText(text) => assert_eq!(text, "boom\ntrace line"),
        other => panic!("unexpected action: {:?}", other),
    }
    assert_eq!(app.focused, Pane::Logs);
}

#[test]
fn context_menu_second_entry_opens_the_editor() {
    let mut app = loaded_app();
    app.apply_fetch_success(1, vec![entry("boom", "")], 1);
    app.handle_key(Key::Enter);
    app.handle_key(Key::Down);
    let act = app.handle_key(Key::Enter);
    match act {
        Action::EditText(text) => assert_eq!(text, "boom"),
        other => panic!("unexpected action: {:?}", other),
    }
}

#[test]
fn quit_key_works_only_from_the_logs_pane() {
    let mut app = loaded_app();
    let act = app.handle_key(Key::Char('q'));
    assert!(matches!(act, Action::Quit));
    app.handle_key(Key::Char('P'));
    let act = app.handle_key(Key::Char('q'));
    assert!(matches!(act, Action::Nothing));
    assert_eq!(app.profile_filter.filter_text(), "q");
}

#[test]
fn context_menu_cursor_saturates() {
    let mut app = loaded_app();
    app.apply_fetch_success(1, vec![entry("boom", "")], 1);
    app.handle_key(Key::Enter);
    assert_eq!(app.context_cursor, 0);
    app.handle_key(Key::Up);
    assert_eq!(app.context_cursor, 0);
    app.handle_key(Key::Down);
    app.handle_key(Key::Down);
    assert_eq!(app.context_cursor, 1);
    let act = app.handle_key(Key::Esc);
    assert!(matches!(act, Action::Nothing));
    assert_eq!(app.focused, Pane::Logs);
}

#[test]
fn context_menu_needs_a_record() {
    let mut app = loaded_app();
    let act = app.handle_key(Key::Enter);
    assert!(matches!(act, Action::Nothing));
    assert_eq!(app.focused, Pane::Logs);
}

#[test]
fn begin_fetch_computes_offsets_from_the_page() {
    let mut app = loaded_app();
    let q = app.begin_fetch(2).expect("environment is committed");
    assert_eq!(q.from, 50);
    assert_eq!(q.size, 50);
    assert_eq!(q.environment, "production");
    assert_eq!(q.application, None);
    assert_eq!(q.severity, None);
    assert_eq!(q.time_range, "now-5m");
    assert_eq!(q.search, None);
    assert!(!q.search_exact);
    assert_eq!(app.status, "Fetching page 2 from ALL (production)...");
}

#[test]
fn begin_fetch_without_an_environment_aborts_locally() {
    let mut app = App::new();
    let q = app.begin_fetch(1);
    assert!(q.is_none());
    assert_eq!(app.status, "No environment selected");
}

#[test]
fn successful_fetch_replaces_the_page_wholesale() {
    let mut app = loaded_app();
    app.handle_key(Key::Char('/'));
    app.apply_fetch_success(2, vec![entry("a", ""), entry("b", "")], 120);
    assert_eq!(app.focused, Pane::Logs);
    assert_eq!(app.page, 2);
    assert_eq!(app.total_hits, 120);
    assert_eq!(app.logs.len(), 2);
    assert_eq!(app.log_index, 0);
    assert_eq!(app.status, "Loaded 2 logs from ALL (production)");
}

#[test]
fn failed_fetch_changes_only_the_status() {
    let mut app = loaded_app();
    app.apply_fetch_success(2, vec![entry("a", "")], 120);
    let logs_before = app.logs.len();
    let page_before = app.page;
    let hits_before = app.total_hits;
    let focused_before = app.focused;
    let index_before = app.log_index;
    app.apply_fetch_error("connection refused");
    assert_eq!(app.logs.len(), logs_before);
    assert_eq!(app.page, page_before);
    assert_eq!(app.total_hits, hits_before);
    assert_eq!(app.focused, focused_before);
    assert_eq!(app.log_index, index_before);
    assert_eq!(app.status, "Error: connection refused");
}

#[test]
fn failed_facet_load_changes_only_the_status() {
    let mut app = App::new();
    app.apply_filters_error("timeout");
    assert_eq!(app.status, "Error loading filters: timeout");
    assert_eq!(app.selected_env(), None);
}

#[test]
fn page_size_zero_still_means_one_page() {
    let mut app = loaded_app();
    app.limit_filter.set_items(strings(&["0"]));
    assert_eq!(app.selected_limit(), 0);
    app.total_hits = 500;
    assert_eq!(app.total_pages(), 1);
}

#[test]
fn unparseable_page_size_falls_back_to_one_hundred() {
    let mut app = loaded_app();
    app.limit_filter.set_items(strings(&["everything"]));
    assert_eq!(app.selected_limit(), 100);
}

#[test]
fn severity_label_appears_in_fetch_status() {
    let mut app = loaded_app();
    app.handle_key(Key::Char('S'));
    app.handle_key(Key::Down);  // ALL -> ERROR
    app.handle_key(Key::Enter);
    assert_eq!(app.selected_severity(), Some("ERROR"));
    let q = app.begin_fetch(1).expect("environment is committed");
    assert_eq!(q.severity.as_deref(), Some("ERROR"));
    assert_eq!(app.status, "Fetching page 1 from ALL (production) [ERROR]...");
}
