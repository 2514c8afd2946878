use cotp::app::App;
use cotp::otp_element::{OTPDatabase, OTPElement};

fn rec(issuer: &str, label: &str, code: &str) -> OTPElement {
    OTPElement::new(
        issuer.to_string(),
        label.to_string(),
        String::from("seed"),
        0,
        Some(code.to_string()),
    )
}

#[test]
fn rotation_wrap_triggers_exactly_one_rebuild() {
    let mut app = App::new(OTPDatabase::new(vec![rec("GitHub", "alice", "111111")]));
    let samples = [40u16, 70, 95, 10];
    let triggered: Vec<bool> = samples.iter().map(|&s| app.tick(s, false)).collect();
    assert_eq!(triggered, vec![false, false, false, true]);
    assert_eq!(triggered.iter().filter(|&&t| t).count(), 1);
    assert_eq!(app.progress, 10);
}

#[test]
fn force_flag_triggers_a_rebuild() {
    let mut app = App::new(OTPDatabase::new(vec![rec("GitHub", "alice", "111111")]));
    assert!(app.tick(0, true));
}

#[test]
fn equal_sample_does_not_trigger() {
    let mut app = App::new(OTPDatabase::new(vec![rec("GitHub", "alice", "111111")]));
    app.tick(50, false);
    assert!(!app.tick(50, false));
    assert_eq!(app.progress, 50);
}

#[test]
fn wrap_rebuild_picks_up_regenerated_codes() {
    let mut app = App::new(OTPDatabase::new(vec![rec("GitHub", "alice", "111111")]));
    app.tick(95, false);
    assert_eq!(app.table.items[0].code, "111111");
    // The collaborator regenerates the code for the new rotation window.
    assert!(app.database.edit(0, rec("GitHub", "alice", "999999")).is_ok());
    assert_eq!(app.table.items[0].code, "111111");
    assert!(app.tick(5, false));
    assert_eq!(app.table.items[0].code, "999999");
}
