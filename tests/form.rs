use toast_form::form::{ToastForm, DEFAULT_EXPIRY};
use toast_form::level::Level;
use toast_form::position::Position;

fn assert_default(f: &ToastForm) {
    assert_eq!(f.message, "Toast message");
    assert_eq!(f.expiry, 2500);
    assert!(f.dismissable);
    assert!(f.expiry_enabled);
    assert!(f.progress_enabled);
    assert_eq!(f.level, Level::Success);
    assert_eq!(f.position, Position::BottomLeft);
    assert!(!f.stacked);
}

#[test]
fn new_form_holds_defaults() {
    assert_default(&ToastForm::new());
    assert_eq!(DEFAULT_EXPIRY, 2500);
}

#[test]
fn reset_restores_every_field() {
    let mut f = ToastForm::new();
    f.set_message(String::from("hello"));
    f.set_expiry_input("10");
    f.set_dismissable(false);
    f.set_expiry_enabled(false);
    f.set_progress_enabled(false);
    f.select_level("error");
    f.select_position("top_right");
    f.set_stacked(true);
    assert_eq!(f.expiry, 10);
    assert_eq!(f.level, Level::Error);
    f.reset();
    assert_default(&f);
}

#[test]
fn non_numeric_expiry_keeps_value() {
    let mut f = ToastForm::new();
    f.set_expiry_input("1500");
    assert_eq!(f.expiry, 1500);
    f.set_expiry_input("abc");
    assert_eq!(f.expiry, 1500);
    f.set_expiry_input("");
    assert_eq!(f.expiry, 1500);
    f.set_expiry_input("-3");
    assert_eq!(f.expiry, 1500);
    f.set_expiry_input("5000000000");
    assert_eq!(f.expiry, 1500);
    assert_eq!(f.message, "Toast message");
}

#[test]
fn selecting_level_sets_and_marks_it() {
    let mut f = ToastForm::new();
    for token in ["info", "success", "warn", "error"] {
        f.select_level(token);
        assert_eq!(Some(f.level), Level::from_token(token));
        assert!(f.level.is_selected(token));
    }
    f.select_level("warn");
    assert_eq!(f.level, Level::Warn);
    assert!(!f.level.is_selected("info"));
}

#[test]
fn selecting_position_sets_and_marks_it() {
    let mut f = ToastForm::new();
    for token in ["top_left", "top_right", "bottom_right", "bottom_left"] {
        f.select_position(token);
        assert_eq!(Some(f.position), Position::from_token(token));
        assert!(f.position.is_selected(token));
    }
    f.select_position("top_left");
    assert_eq!(f.position, Position::TopLeft);
    assert!(!f.position.is_selected("bottom_left"));
}

#[test]
fn empty_message_submits_default_text() {
    let mut f = ToastForm::new();
    f.set_message(String::new());
    assert_eq!(f.request().message, "Toast message");
}

#[test]
fn message_submitted_as_typed() {
    let mut f = ToastForm::new();
    f.set_message(String::from("Saved"));
    assert_eq!(f.request().message, "Saved");
}

#[test]
fn disabled_expiry_is_absent() {
    let mut f = ToastForm::new();
    f.set_expiry_input("900");
    f.set_expiry_enabled(false);
    assert_eq!(f.request().expiry, None);
    f.set_expiry_input("0");
    assert_eq!(f.request().expiry, None);
    f.set_expiry_enabled(true);
    assert_eq!(f.request().expiry, Some(0));
}

#[test]
fn request_passes_fields_through() {
    let mut f = ToastForm::new();
    f.set_dismissable(false);
    f.set_progress_enabled(false);
    f.select_level("info");
    f.select_position("bottom_right");
    let r = f.request();
    assert_eq!(r.message, "Toast message");
    assert_eq!(r.level, Level::Info);
    assert!(!r.dismissable);
    assert_eq!(r.expiry, Some(2500));
    assert!(!r.progress);
    assert_eq!(r.position, Position::BottomRight);
}

#[test]
fn actions_need_a_message() {
    let mut f = ToastForm::new();
    assert!(f.actions_enabled());
    f.set_message(String::new());
    assert!(!f.actions_enabled());
}

#[test]
fn expiry_controls_follow_expiry_flag() {
    let mut f = ToastForm::new();
    assert!(f.expiry_controls_enabled());
    f.set_expiry_enabled(false);
    assert!(!f.expiry_controls_enabled());
}
