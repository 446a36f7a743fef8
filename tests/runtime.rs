use whispr::runtime::{
    resolve_no_clipboard, resolve_paste_method, runtime_info, session_type_from, HelperAvailability,
    PasteMethod, SessionType,
};

fn helpers(wl_copy: bool, wl_paste: bool, wtype: bool, ydotool: bool, xdotool: bool) -> HelperAvailability {
    HelperAvailability { wl_copy, wl_paste, wtype, ydotool, xdotool }
}

#[test]
fn auto_wayland_prefers_wtype() {
    let helpers = HelperAvailability {
        wl_copy: true,
        wl_paste: true,
        wtype: true,
        ydotool: true,
        xdotool: false,
    };
    let resolution = resolve_paste_method("auto", SessionType::Wayland, &helpers);
    assert_eq!(resolution.method, PasteMethod::WaylandWtype);
}

#[test]
fn auto_wayland_falls_back_to_clipboard_only() {
    let helpers = HelperAvailability {
        wl_copy: true,
        wl_paste: true,
        wtype: false,
        ydotool: false,
        xdotool: false,
    };
    let resolution = resolve_paste_method("auto", SessionType::Wayland, &helpers);
    assert_eq!(resolution.method, PasteMethod::ClipboardOnly);
    assert!(resolution.missing_helpers.contains(&"wtype".to_string()));
}

#[test]
fn wayland_wtype_requires_helpers() {
    let helpers = HelperAvailability {
        wl_copy: true,
        wl_paste: true,
        wtype: false,
        ydotool: false,
        xdotool: false,
    };
    let resolution = resolve_paste_method("wayland_wtype", SessionType::Wayland, &helpers);
    assert_eq!(resolution.method, PasteMethod::Unavailable);
    assert!(resolution.missing_helpers.contains(&"wtype".to_string()));
}

#[test]
fn x11_ctrl_v_on_wayland_uses_auto() {
    let helpers = HelperAvailability {
        wl_copy: true,
        wl_paste: true,
        wtype: true,
        ydotool: false,
        xdotool: false,
    };
    let resolution = resolve_paste_method("x11_ctrl_v", SessionType::Wayland, &helpers);
    assert_eq!(resolution.method, PasteMethod::WaylandWtype);
}

#[test]
fn windows_auto_uses_ctrl_v() {
    let helpers = HelperAvailability {
        wl_copy: false,
        wl_paste: false,
        wtype: false,
        ydotool: false,
        xdotool: false,
    };
    let resolution = resolve_paste_method("auto", SessionType::Windows, &helpers);
    assert_eq!(resolution.method, PasteMethod::X11CtrlV);
}

#[test]
fn windows_clipboard_only_allowed() {
    let helpers = HelperAvailability {
        wl_copy: false,
        wl_paste: false,
        wtype: false,
        ydotool: false,
        xdotool: false,
    };
    let resolution = resolve_paste_method("clipboard_only", SessionType::Windows, &helpers);
    assert_eq!(resolution.method, PasteMethod::ClipboardOnly);
}

#[test]
fn request_is_trimmed_and_lowercased() {
    let h = helpers(true, true, true, true, false);
    let resolution = resolve_paste_method("  Wayland_YDOTOOL \n", SessionType::Wayland, &h);
    assert_eq!(resolution.method, PasteMethod::WaylandYdotool);
    assert!(resolution.missing_helpers.is_empty());
}

#[test]
fn empty_or_unknown_request_means_auto() {
    let h = helpers(true, true, false, true, false);
    assert_eq!(resolve_paste_method("", SessionType::Wayland, &h).method, PasteMethod::WaylandYdotool);
    assert_eq!(resolve_paste_method("bogus", SessionType::Wayland, &h).method, PasteMethod::WaylandYdotool);
}

#[test]
fn wayland_auto_without_wl_copy_is_unavailable() {
    let h = helpers(false, false, true, true, false);
    let resolution = resolve_paste_method("auto", SessionType::Wayland, &h);
    assert_eq!(resolution.method, PasteMethod::Unavailable);
    assert_eq!(resolution.missing_helpers, vec!["wl-copy".to_string()]);
}

#[test]
fn wayland_specific_lists_every_missing_helper() {
    let h = helpers(false, false, false, false, false);
    let resolution = resolve_paste_method("wayland_ydotool", SessionType::Wayland, &h);
    assert_eq!(resolution.method, PasteMethod::Unavailable);
    assert_eq!(resolution.missing_helpers, vec!["wl-copy".to_string(), "ydotool".to_string()]);
}

#[test]
fn wayland_specific_outside_wayland_is_unavailable() {
    let h = helpers(true, true, true, true, true);
    let resolution = resolve_paste_method("wayland_wtype", SessionType::X11, &h);
    assert_eq!(resolution.method, PasteMethod::Unavailable);
    assert_eq!(resolution.missing_helpers, vec!["wayland-session".to_string()]);
}

#[test]
fn unknown_session_needs_a_display() {
    let h = helpers(true, true, true, true, true);
    let resolution = resolve_paste_method("auto", SessionType::Unknown, &h);
    assert_eq!(resolution.method, PasteMethod::Unavailable);
    assert_eq!(resolution.missing_helpers, vec!["display".to_string()]);
}

#[test]
fn no_clipboard_wayland_clipboard_only_is_unavailable() {
    let h = helpers(true, true, true, true, false);
    let resolution = resolve_no_clipboard("clipboard_only", SessionType::Wayland, &h);
    assert_eq!(resolution.method, PasteMethod::Unavailable);
    assert_eq!(resolution.missing_helpers, vec!["wtype".to_string(), "ydotool".to_string()]);
}

#[test]
fn no_clipboard_x11_types() {
    let h = helpers(false, false, false, false, false);
    assert_eq!(resolve_no_clipboard("clipboard_only", SessionType::X11, &h).method, PasteMethod::X11CtrlV);
}

#[test]
fn runtime_info_reports_session_and_method() {
    let h = helpers(true, true, false, false, false);
    let info = runtime_info("auto", true, SessionType::Wayland, &h);
    assert_eq!(info.session_type, "wayland");
    assert!(!info.hotkeys_supported);
    assert_eq!(info.paste_method, "clipboard_only");
    assert_eq!(info.missing_helpers, vec!["wtype".to_string(), "ydotool".to_string()]);
    let info = runtime_info("auto", false, SessionType::Macos, &h);
    assert_eq!(info.session_type, "macos");
    assert!(info.hotkeys_supported);
    assert_eq!(info.paste_method, "x11_ctrl_v");
}

#[test]
fn method_and_session_names() {
    assert_eq!(PasteMethod::WaylandYdotool.as_str(), "wayland_ydotool");
    assert_eq!(PasteMethod::Unavailable.as_str(), "unavailable");
    assert_eq!(SessionType::X11.as_str(), "x11");
    assert_eq!(SessionType::Unknown.as_str(), "unknown");
}

#[test]
fn session_classification() {
    assert_eq!(session_type_from(true, false, Some("wayland"), true, true), SessionType::Macos);
    assert_eq!(session_type_from(false, true, None, false, false), SessionType::Windows);
    assert_eq!(session_type_from(false, false, Some("Wayland"), false, true), SessionType::Wayland);
    assert_eq!(session_type_from(false, false, Some("X11"), true, false), SessionType::X11);
    assert_eq!(session_type_from(false, false, Some("tty"), true, true), SessionType::Wayland);
    assert_eq!(session_type_from(false, false, None, false, true), SessionType::X11);
    assert_eq!(session_type_from(false, false, None, false, false), SessionType::Unknown);
}
