use cotp::app::App;
use cotp::enums::{Focus, InputEvent, Page, PopupAction};
use cotp::otp_element::{OTPDatabase, OTPElement, OtpError};

fn rec(issuer: &str, label: &str, code: &str) -> OTPElement {
    OTPElement::new(
        issuer.to_string(),
        label.to_string(),
        String::from("seed"),
        0,
        Some(code.to_string()),
    )
}

fn db3() -> OTPDatabase {
    OTPDatabase::new(vec![
        rec("GitHub", "alice", "111111"),
        rec("gitlab", "bob", "222222"),
        rec("Amazon", "carol", "333333"),
    ])
}

fn select_row(app: &mut App, row: usize) {
    for _ in 0..=row {
        app.handle_event(InputEvent::MoveDown);
    }
    assert_eq!(app.table.selected, Some(row));
}

#[test]
fn delete_requested_then_confirmed() {
    let mut app = App::new(db3());
    select_row(&mut app, 2);
    app.handle_event(InputEvent::RequestDelete);
    assert_eq!(app.focus, Focus::Popup);
    assert!(matches!(app.popup_action, Some(PopupAction::Delete(2))));
    assert_eq!(app.popup_text, "Do you want to delete the selected code?");
    app.handle_event(InputEvent::ConfirmPopup);
    assert_eq!(app.database.len(), 2);
    assert!(app.data_modified);
    assert_eq!(app.focus, Focus::MainPage);
    assert!(app.popup_action.is_none());
    assert_eq!(app.table.items.len(), 2);
    assert_eq!(app.database.elements()[0].issuer, "GitHub");
    assert_eq!(app.database.elements()[1].issuer, "gitlab");
}

#[test]
fn delete_requested_then_cancelled() {
    let mut app = App::new(db3());
    select_row(&mut app, 2);
    app.handle_event(InputEvent::RequestDelete);
    assert_eq!(app.focus, Focus::Popup);
    app.handle_event(InputEvent::CancelPopup);
    assert_eq!(app.database.len(), 3);
    assert!(!app.data_modified);
    assert_eq!(app.focus, Focus::MainPage);
    assert!(app.popup_action.is_none());
}

#[test]
fn deleting_last_row_reclamps_selection() {
    let mut app = App::new(db3());
    select_row(&mut app, 2);
    app.handle_event(InputEvent::RequestDelete);
    app.handle_event(InputEvent::ConfirmPopup);
    assert_eq!(app.table.items.len(), 2);
    assert_eq!(app.table.selected, Some(1));
}

#[test]
fn stale_delete_surfaces_error_without_dirty_flag() {
    let mut app = App::new(db3());
    select_row(&mut app, 2);
    app.handle_event(InputEvent::RequestDelete);
    // The pending action now targets store index 2; make it stale.
    assert!(app.database.delete(2).is_ok());
    app.tick(0, true);
    app.handle_event(InputEvent::ConfirmPopup);
    assert_eq!(app.popup_text, "Error: the selected code no longer exists");
    assert_eq!(app.focus, Focus::MainPage);
    assert!(!app.data_modified);
    assert_eq!(app.database.len(), 2);
}

#[test]
fn edit_requested_then_confirmed_replaces_record() {
    let mut app = App::new(db3());
    select_row(&mut app, 0);
    app.handle_event(InputEvent::RequestEdit(rec("Codeberg", "erin", "444444")));
    assert_eq!(app.focus, Focus::Popup);
    assert!(matches!(app.popup_action, Some(PopupAction::Edit(0, _))));
    assert_eq!(app.popup_text, "Do you want to overwrite the selected code?");
    app.handle_event(InputEvent::ConfirmPopup);
    assert_eq!(app.database.len(), 3);
    assert_eq!(app.database.elements()[0].issuer, "Codeberg");
    assert!(app.data_modified);
    assert_eq!(app.focus, Focus::MainPage);
    assert_eq!(app.table.items[0].issuer, "Codeberg");
}

#[test]
fn popup_focus_always_has_a_pending_action() {
    let mut app = App::new(db3());
    let events = [
        InputEvent::MoveDown,
        InputEvent::RequestDelete,
        InputEvent::CancelPopup,
        InputEvent::FocusSearch,
        InputEvent::SearchChar('g'),
        InputEvent::LeaveSearch,
        InputEvent::RequestDelete,
        InputEvent::ConfirmPopup,
        InputEvent::ShowInfo,
        InputEvent::MoveUp,
        InputEvent::MoveDown,
        InputEvent::ShowQrcode,
        InputEvent::MoveUp,
        InputEvent::IncrementCounter,
        InputEvent::ClearSearch,
    ];
    for e in events {
        app.handle_event(e);
        assert!(!(app.focus == Focus::Popup && app.popup_action.is_none()));
    }
}

#[test]
fn counter_increments_and_decrements_on_selected_record() {
    let mut app = App::new(OTPDatabase::new(vec![OTPElement::new(
        "GitHub".to_string(),
        "alice".to_string(),
        String::from("seed"),
        5,
        Some("111111".to_string()),
    )]));
    select_row(&mut app, 0);
    app.handle_event(InputEvent::IncrementCounter);
    assert_eq!(app.database.elements()[0].counter, 6);
    assert!(app.data_modified);
    app.handle_event(InputEvent::DecrementCounter);
    assert_eq!(app.database.elements()[0].counter, 5);
}

#[test]
fn counter_decrement_saturates_at_zero() {
    let mut app = App::new(OTPDatabase::new(vec![rec("GitHub", "alice", "111111")]));
    select_row(&mut app, 0);
    app.handle_event(InputEvent::DecrementCounter);
    assert_eq!(app.database.elements()[0].counter, 0);
}

#[test]
fn counter_op_without_selection_changes_nothing() {
    let mut app = App::new(db3());
    app.handle_event(InputEvent::IncrementCounter);
    assert_eq!(app.database.elements()[0].counter, 0);
    assert!(!app.data_modified);
}

#[test]
fn info_page_leaves_on_any_navigation_input() {
    let mut app = App::new(db3());
    app.handle_event(InputEvent::ShowInfo);
    assert_eq!(app.current_page, Page::Info);
    app.handle_event(InputEvent::MoveDown);
    assert_eq!(app.current_page, Page::Main);
    assert_eq!(app.focus, Focus::MainPage);
}

#[test]
fn qrcode_page_needs_a_selection() {
    let mut app = App::new(db3());
    app.handle_event(InputEvent::ShowQrcode);
    assert_eq!(app.current_page, Page::Main);
    app.handle_event(InputEvent::MoveDown);
    app.handle_event(InputEvent::ShowQrcode);
    assert_eq!(app.current_page, Page::Qrcode);
    app.handle_event(InputEvent::MoveUp);
    assert_eq!(app.current_page, Page::Main);
}

#[test]
fn quit_is_accepted_from_every_state() {
    let mut app = App::new(db3());
    select_row(&mut app, 0);
    app.handle_event(InputEvent::RequestDelete);
    assert_eq!(app.focus, Focus::Popup);
    app.handle_event(InputEvent::Quit);
    assert!(!app.running);

    let mut app2 = App::new(db3());
    app2.handle_event(InputEvent::FocusSearch);
    app2.handle_event(InputEvent::Quit);
    assert!(!app2.running);
}

#[test]
fn selection_wraps_both_ways() {
    let mut app = App::new(db3());
    app.handle_event(InputEvent::MoveUp);
    assert_eq!(app.table.selected, Some(2));
    app.handle_event(InputEvent::MoveDown);
    assert_eq!(app.table.selected, Some(0));
    app.handle_event(InputEvent::MoveDown);
    app.handle_event(InputEvent::MoveDown);
    app.handle_event(InputEvent::MoveDown);
    assert_eq!(app.table.selected, Some(0));
    app.handle_event(InputEvent::MoveUp);
    assert_eq!(app.table.selected, Some(2));
}

#[test]
fn current_code_reports_each_error() {
    let mut elements = vec![rec("GitHub", "alice", "111111")];
    elements.push(OTPElement::new(
        "Broken".to_string(),
        "dave".to_string(),
        String::from("seed"),
        0,
        None,
    ));
    let db = OTPDatabase::new(elements);
    assert_eq!(db.current_code(0), Ok("111111".to_string()));
    assert_eq!(db.current_code(1), Err(OtpError::ComputationError));
    assert_eq!(db.current_code(9), Err(OtpError::IndexOutOfRange));
}

#[test]
fn store_mutations_fail_on_stale_indices() {
    let mut db = db3();
    assert_eq!(db.delete(7), Err(OtpError::IndexOutOfRange));
    assert_eq!(db.edit(7, rec("x", "y", "z")), Err(OtpError::IndexOutOfRange));
    assert_eq!(db.increment_counter(7), Err(OtpError::IndexOutOfRange));
    assert_eq!(db.len(), 3);
    db.add(rec("Codeberg", "erin", "444444"));
    assert_eq!(db.len(), 4);
    assert_eq!(db.elements()[3].issuer, "Codeberg");
}
