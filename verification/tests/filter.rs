use cotp::app::App;
use cotp::enums::{Focus, InputEvent};
use cotp::otp_element::{OTPDatabase, OTPElement};
use cotp::search::{contains_sub, to_lower};
use cotp::table::rebuild_rows;

fn rec(issuer: &str, label: &str, code: &str) -> OTPElement {
    OTPElement::new(
        issuer.to_string(),
        label.to_string(),
        String::from("seed"),
        0,
        Some(code.to_string()),
    )
}

fn db3() -> OTPDatabase {
    OTPDatabase::new(vec![
        rec("GitHub", "alice", "111111"),
        rec("gitlab", "bob", "222222"),
        rec("Amazon", "carol", "333333"),
    ])
}

fn chars(s: &str) -> Vec<char> {
    s.chars().collect()
}

#[test]
fn empty_query_shows_all_in_store_order() {
    let app = App::new(db3());
    assert_eq!(app.table.items.len(), 3);
    assert_eq!(app.table.items[0].index, 0);
    assert_eq!(app.table.items[0].issuer, "GitHub");
    assert_eq!(app.table.items[1].index, 1);
    assert_eq!(app.table.items[1].issuer, "gitlab");
    assert_eq!(app.table.items[2].index, 2);
    assert_eq!(app.table.items[2].issuer, "Amazon");
    assert_eq!(app.table.items[0].code, "111111");
}

#[test]
fn typing_git_filters_and_clearing_restores() {
    let mut app = App::new(db3());
    assert_eq!(app.table.items.len(), 3);
    app.handle_event(InputEvent::FocusSearch);
    assert_eq!(app.focus, Focus::SearchBar);
    app.handle_event(InputEvent::SearchChar('g'));
    app.handle_event(InputEvent::SearchChar('i'));
    app.handle_event(InputEvent::SearchChar('t'));
    assert_eq!(app.search_query, vec!['g', 'i', 't']);
    assert_eq!(app.table.items.len(), 2);
    assert_eq!(app.table.items[0].issuer, "GitHub");
    assert_eq!(app.table.items[0].index, 0);
    assert_eq!(app.table.items[1].issuer, "gitlab");
    assert_eq!(app.table.items[1].index, 1);
    app.handle_event(InputEvent::ClearSearch);
    assert!(app.search_query.is_empty());
    assert_eq!(app.table.items.len(), 3);
}

#[test]
fn search_matches_label_case_insensitively() {
    let mut app = App::new(db3());
    app.handle_event(InputEvent::FocusSearch);
    app.handle_event(InputEvent::SearchChar('B'));
    app.handle_event(InputEvent::SearchChar('O'));
    app.handle_event(InputEvent::SearchChar('B'));
    assert_eq!(app.table.items.len(), 1);
    assert_eq!(app.table.items[0].label, "bob");
}

#[test]
fn backspace_widens_the_filter_again() {
    let mut app = App::new(db3());
    app.handle_event(InputEvent::FocusSearch);
    app.handle_event(InputEvent::SearchChar('g'));
    app.handle_event(InputEvent::SearchChar('z'));
    assert_eq!(app.table.items.len(), 0);
    app.handle_event(InputEvent::SearchBackspace);
    assert_eq!(app.search_query, vec!['g']);
    assert_eq!(app.table.items.len(), 2);
}

#[test]
fn no_match_clears_selection() {
    let mut app = App::new(db3());
    app.handle_event(InputEvent::MoveDown);
    assert_eq!(app.table.selected, Some(0));
    app.handle_event(InputEvent::FocusSearch);
    app.handle_event(InputEvent::SearchChar('z'));
    app.handle_event(InputEvent::SearchChar('z'));
    assert_eq!(app.table.items.len(), 0);
    assert_eq!(app.table.selected, None);
}

#[test]
fn selection_clamps_when_filter_shrinks_table() {
    let mut app = App::new(db3());
    app.handle_event(InputEvent::MoveDown);
    app.handle_event(InputEvent::MoveDown);
    app.handle_event(InputEvent::MoveDown);
    assert_eq!(app.table.selected, Some(2));
    app.handle_event(InputEvent::FocusSearch);
    app.handle_event(InputEvent::SearchChar('g'));
    app.handle_event(InputEvent::SearchChar('i'));
    app.handle_event(InputEvent::SearchChar('t'));
    assert_eq!(app.table.items.len(), 2);
    assert_eq!(app.table.selected, Some(1));
}

#[test]
fn rebuild_rows_uses_placeholder_for_missing_code() {
    let elements = vec![OTPElement::new(
        "Broken".to_string(),
        "dave".to_string(),
        String::from("seed"),
        0,
        None,
    )];
    let rows = rebuild_rows(&elements, &Vec::new());
    assert_eq!(rows.len(), 1);
    assert_eq!(rows[0].code, "Error");
}

#[test]
fn rebuild_rows_keeps_store_indices() {
    let elements = vec![
        rec("GitHub", "alice", "111111"),
        rec("Amazon", "carol", "333333"),
        rec("gitlab", "bob", "222222"),
    ];
    let rows = rebuild_rows(&elements, &chars("git"));
    assert_eq!(rows.len(), 2);
    assert_eq!(rows[0].index, 0);
    assert_eq!(rows[1].index, 2);
}

#[test]
fn to_lower_and_contains_sub_basics() {
    assert_eq!(to_lower("AbC"), vec!['a', 'b', 'c']);
    assert_eq!(to_lower("a-Z9"), vec!['a', '-', 'z', '9']);
    assert!(contains_sub(&chars("hello world"), &chars("o w")));
    assert!(!contains_sub(&chars("hello"), &chars("world")));
    assert!(contains_sub(&chars("abc"), &chars("")));
    assert!(!contains_sub(&chars("ab"), &chars("abc")));
}
