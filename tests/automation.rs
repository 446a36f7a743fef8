use whispr::automation::{
    clipboard_failure, clipboard_tries_wl_copy, plan_paste, resolve_wayland_type_helper, unavailable_detail,
    PasteAction, WaylandPasteHelper,
};
use whispr::runtime::{HelperAvailability, SessionType};

#[test]
fn wayland_helper_prefers_wtype() {
    let helpers = HelperAvailability {
        wl_copy: true,
        wl_paste: true,
        wtype: true,
        ydotool: true,
        xdotool: false,
    };
    let helper = resolve_wayland_type_helper("auto", &helpers).expect("helper");
    assert!(matches!(helper, WaylandPasteHelper::Wtype));
}

#[test]
fn wayland_helper_falls_back_to_ydotool() {
    let helpers = HelperAvailability {
        wl_copy: true,
        wl_paste: true,
        wtype: false,
        ydotool: true,
        xdotool: false,
    };
    let helper = resolve_wayland_type_helper("auto", &helpers).expect("helper");
    assert!(matches!(helper, WaylandPasteHelper::Ydotool));
}

#[test]
fn wayland_helper_errors_when_missing() {
    let helpers = HelperAvailability {
        wl_copy: true,
        wl_paste: true,
        wtype: false,
        ydotool: false,
        xdotool: false,
    };
    let err = resolve_wayland_type_helper("auto", &helpers).unwrap_err();
    assert!(err.contains("wtype"));
}

#[test]
fn wayland_helper_respects_specific_request() {
    let helpers = HelperAvailability {
        wl_copy: true,
        wl_paste: true,
        wtype: true,
        ydotool: true,
        xdotool: false,
    };
    let helper = resolve_wayland_type_helper("wayland_ydotool", &helpers).expect("helper");
    assert!(matches!(helper, WaylandPasteHelper::Ydotool));
}

fn all_helpers() -> HelperAvailability {
    HelperAvailability { wl_copy: true, wl_paste: true, wtype: true, ydotool: true, xdotool: true }
}

fn no_helpers() -> HelperAvailability {
    HelperAvailability { wl_copy: false, wl_paste: false, wtype: false, ydotool: false, xdotool: false }
}

#[test]
fn wayland_helper_clipboard_only_is_refused() {
    let err = resolve_wayland_type_helper("clipboard_only", &all_helpers()).unwrap_err();
    assert_eq!(err, "Clipboard-only paste is disabled when copy-to-clipboard is off");
    let err = resolve_wayland_type_helper("wayland_ydotool", &no_helpers()).unwrap_err();
    assert_eq!(err, "Missing helpers: ydotool");
    let err = resolve_wayland_type_helper(" AUTO ", &no_helpers()).unwrap_err();
    assert_eq!(err, "Missing helpers: wtype, ydotool");
}

#[test]
fn plan_types_on_x11_and_focuses_window() {
    let plan = plan_paste(false, "auto", true, SessionType::X11, &all_helpers());
    assert!(plan.focus_window);
    assert!(matches!(plan.action, PasteAction::TypeKeys));
    let plan = plan_paste(false, "auto", false, SessionType::X11, &all_helpers());
    assert!(!plan.focus_window);
}

#[test]
fn plan_typing_on_wayland_uses_helper_or_fails() {
    let plan = plan_paste(false, "auto", true, SessionType::Wayland, &all_helpers());
    assert!(!plan.focus_window);
    assert!(matches!(plan.action, PasteAction::TypeWayland(WaylandPasteHelper::Wtype)));
    let plan = plan_paste(false, "auto", false, SessionType::Wayland, &no_helpers());
    match plan.action {
        PasteAction::Fail(msg) => assert_eq!(msg, "Missing helpers: wtype, ydotool"),
        other => panic!("unexpected {:?}", other),
    }
    let plan = plan_paste(false, "auto", false, SessionType::Unknown, &all_helpers());
    match plan.action {
        PasteAction::Fail(msg) => assert_eq!(msg, "No display session detected"),
        other => panic!("unexpected {:?}", other),
    }
}

#[test]
fn plan_with_clipboard_follows_resolution() {
    let plan = plan_paste(true, "auto", true, SessionType::X11, &all_helpers());
    assert!(plan.focus_window);
    assert!(matches!(plan.action, PasteAction::PasteKeys));
    let plan = plan_paste(true, "clipboard_only", true, SessionType::X11, &all_helpers());
    assert!(!plan.focus_window);
    assert!(matches!(plan.action, PasteAction::ClipboardOnly));
    let plan = plan_paste(true, "auto", false, SessionType::Wayland, &all_helpers());
    assert!(matches!(plan.action, PasteAction::PasteWayland(WaylandPasteHelper::Wtype)));
    let plan = plan_paste(true, "wayland_wtype", false, SessionType::Wayland, &no_helpers());
    match plan.action {
        PasteAction::ClipboardOrFail(msg) => assert_eq!(msg, "Missing helpers: wl-copy, wtype"),
        other => panic!("unexpected {:?}", other),
    }
}

#[test]
fn unavailable_detail_text() {
    assert_eq!(unavailable_detail(&Vec::new()), "Paste method unavailable");
    assert_eq!(unavailable_detail(&vec!["display".to_string()]), "Missing helpers: display");
    assert_eq!(
        unavailable_detail(&vec!["a".to_string(), "b".to_string(), "c".to_string()]),
        "Missing helpers: a, b, c"
    );
}

#[test]
fn clipboard_only_fallback_errors() {
    let wl = HelperAvailability { wl_copy: true, ..no_helpers() };
    assert!(clipboard_tries_wl_copy(SessionType::Wayland, &wl));
    assert!(!clipboard_tries_wl_copy(SessionType::X11, &wl));
    assert_eq!(
        clipboard_failure(SessionType::Wayland, &wl, Some("wl-copy failed".to_string()), "lib".to_string()),
        "wl-copy failed"
    );
    assert_eq!(
        clipboard_failure(SessionType::Wayland, &no_helpers(), None, "lib".to_string()),
        "wl-copy is required for Wayland clipboard support"
    );
    assert_eq!(
        clipboard_failure(SessionType::Unknown, &no_helpers(), None, "lib".to_string()),
        "No display session detected"
    );
    assert_eq!(clipboard_failure(SessionType::X11, &no_helpers(), None, "lib".to_string()), "lib");
}
