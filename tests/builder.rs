use leptoaster::{ToastLevel, ToastPosition};
use toast_form::form::ToastForm;

#[test]
fn built_toast_carries_the_form() {
    let mut f = ToastForm::new();
    f.set_message(String::from("Hello"));
    f.set_expiry_input("1200");
    f.set_dismissable(false);
    f.set_progress_enabled(false);
    f.select_level("warn");
    f.select_position("top_right");
    let data = f.build_toast().build(7);
    assert_eq!(data.id, 7);
    assert_eq!(data.message, "Hello");
    assert_eq!(data.level, ToastLevel::Warn);
    assert!(!data.dismissable);
    assert_eq!(data.expiry, Some(1200));
    assert!(!data.progress);
    assert_eq!(data.position, ToastPosition::TopRight);
}

#[test]
fn built_toast_uses_default_message_and_no_expiry() {
    let mut f = ToastForm::new();
    f.set_message(String::new());
    f.set_expiry_enabled(false);
    f.select_level("error");
    f.select_position("top_left");
    let data = f.build_toast().build(1);
    assert_eq!(data.message, "Toast message");
    assert_eq!(data.expiry, None);
    assert_eq!(data.level, ToastLevel::Error);
    assert_eq!(data.position, ToastPosition::TopLeft);
    assert!(data.dismissable);
    assert!(data.progress);
}

#[test]
fn built_toast_maps_every_level_and_position() {
    let levels = [
        ("info", ToastLevel::Info),
        ("success", ToastLevel::Success),
        ("warn", ToastLevel::Warn),
        ("error", ToastLevel::Error),
    ];
    for (token, expected) in levels {
        let mut f = ToastForm::new();
        f.select_level(token);
        assert_eq!(f.build_toast().build(1).level, expected);
    }
    let positions = [
        ("top_left", ToastPosition::TopLeft),
        ("top_right", ToastPosition::TopRight),
        ("bottom_right", ToastPosition::BottomRight),
        ("bottom_left", ToastPosition::BottomLeft),
    ];
    for (token, expected) in positions {
        let mut f = ToastForm::new();
        f.select_position(token);
        assert_eq!(f.build_toast().build(1).position, expected);
    }
}
