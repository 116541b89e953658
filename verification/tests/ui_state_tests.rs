use smw_patcher::catalog::{build_records, RawRow};
use smw_patcher::ui_state::{
    handle_key_event, App, AppAction, ConfigState, KeyInput, SearchDirective, SearchState,
};

fn some_records(n: usize) -> Vec<smw_patcher::catalog::RomHackDetails> {
    let row = RawRow {
        name: Some("hack".to_string()),
        added: Some("2024-01-05 12:00".to_string()),
        demo: Some("No".to_string()),
        featured: Some("No".to_string()),
        length: Some("1 exit(s)".to_string()),
        game_type: Some("Standard".to_string()),
        authors: Some("someone".to_string()),
        rating: Some("4.0".to_string()),
        size: Some("1 MiB".to_string()),
        download_href: Some("//dl.example/1/a.zip".to_string()),
        downloads: Some("1".to_string()),
    };
    let rows: Vec<RawRow> = (0..n).map(|_| row.clone()).collect();
    build_records(&rows).unwrap()
}

#[test]
fn config_state_edits_its_input() {
    let mut cfg = ConfigState::new("Config");
    assert_eq!(cfg.title(), "Config");
    assert!(cfg.handle_key_event(KeyInput::Char('h')).is_none());
    assert!(cfg.handle_key_event(KeyInput::Char('i')).is_none());
    assert_eq!(cfg.input_text(), "hi");
    assert!(cfg.handle_key_event(KeyInput::Backspace).is_none());
    assert_eq!(cfg.input_text(), "h");
    assert_eq!(cfg.handle_key_event(KeyInput::Esc), Some(AppAction::Exit));
    assert_eq!(cfg.handle_key_event(KeyInput::Tab), Some(AppAction::SwitchState));
}

#[test]
fn search_state_selection_wraps_both_ways() {
    let mut s = SearchState::new("Search");
    s.set_results(some_records(3));
    assert_eq!(s.selected, Some(0));
    s.next();
    assert_eq!(s.selected, Some(1));
    s.next();
    assert_eq!(s.selected, Some(2));
    s.next();
    assert_eq!(s.selected, Some(0));
    s.previous();
    assert_eq!(s.selected, Some(2));
    s.previous();
    assert_eq!(s.selected, Some(1));
}

#[test]
fn search_state_empty_results_keep_no_selection() {
    let mut s = SearchState::new("Search");
    s.set_results(Vec::new());
    assert_eq!(s.selected, None);
    s.next();
    assert_eq!(s.selected, None);
    s.previous();
    assert_eq!(s.selected, None);
}

#[test]
fn search_state_keys_edit_and_navigate() {
    let mut s = SearchState::new("Search");
    s.set_results(some_records(2));
    assert!(s.handle_key_event(KeyInput::Char('a')).is_none());
    assert_eq!(s.input_text(), "a");
    assert!(s.handle_key_event(KeyInput::Down).is_none());
    assert_eq!(s.selected, Some(1));
    assert!(s.handle_key_event(KeyInput::Up).is_none());
    assert_eq!(s.selected, Some(0));
    assert_eq!(
        s.handle_key_event(KeyInput::Tab),
        Some(SearchDirective::Action(AppAction::SwitchState))
    );
    assert_eq!(
        s.handle_key_event(KeyInput::Esc),
        Some(SearchDirective::Action(AppAction::Exit))
    );
}

#[test]
fn search_state_enter_requests_a_search_and_changes_nothing() {
    let mut s = SearchState::new("Search");
    s.set_results(some_records(2));
    s.next();
    assert_eq!(s.selected, Some(1));
    assert_eq!(s.handle_key_event(KeyInput::Enter), Some(SearchDirective::RunSearch));
    // The handler itself changes nothing; the caller runs the search and
    // installs the results, which selects row 0 when they are non-empty.
    assert_eq!(s.selected, Some(1));
    s.set_results(some_records(3));
    assert_eq!(s.selected, Some(0));
}

#[test]
fn app_cycles_pages_on_tab() {
    let mut app = App::new(2);
    assert_eq!(app.index, 0);
    assert!(handle_key_event(&mut app, KeyInput::Tab).is_none());
    assert_eq!(app.index, 1);
    assert!(handle_key_event(&mut app, KeyInput::Tab).is_none());
    assert_eq!(app.index, 0);
    assert_eq!(handle_key_event(&mut app, KeyInput::Esc), Some(AppAction::Exit));
    assert_eq!(app.index, 0);
}
