//! Display-session kinds, paste helpers and the rules that pick a paste
//! method from them.
use vstd::prelude::*;
use vstd::string::*;
use crate::text::{lower_of, lowercase, names1, names2, names_view, same_text, trim_of, trim_str};

verus! {

#[derive(Debug, Clone, Copy, PartialEq, Eq, Structural)]
pub enum SessionType {
    Wayland,
    X11,
    Macos,
    Windows,
    Unknown,
}

pub open spec fn session_name(s: SessionType) -> Seq<char> {
    match s {
        SessionType::Wayland => "wayland"@,
        SessionType::X11 => "x11"@,
        SessionType::Macos => "macos"@,
        SessionType::Windows => "windows"@,
        SessionType::Unknown => "unknown"@,
    }
}

impl SessionType {
    pub fn as_str(&self) -> (r: &'static str)
        ensures
            r@ == session_name(*self),
    {
        match self {
            SessionType::Wayland => "wayland",
            SessionType::X11 => "x11",
            SessionType::Macos => "macos",
            SessionType::Windows => "windows",
            SessionType::Unknown => "unknown",
        }
    }
}

/// The session kind from what the platform and environment say: macOS and
/// Windows by platform; elsewhere `XDG_SESSION_TYPE` (compared lowercased)
/// when it names wayland or x11, else the presence of `WAYLAND_DISPLAY`, then
/// of `DISPLAY`.
pub open spec fn session_from_spec(
    is_macos: bool,
    is_windows: bool,
    xdg_session_type: Option<Seq<char>>,
    has_wayland_display: bool,
    has_display: bool,
) -> SessionType {
    if is_macos {
        SessionType::Macos
    } else if is_windows {
        SessionType::Windows
    } else if xdg_session_type is Some && lower_of(xdg_session_type->Some_0) == "wayland"@ {
        SessionType::Wayland
    } else if xdg_session_type is Some && lower_of(xdg_session_type->Some_0) == "x11"@ {
        SessionType::X11
    } else if has_wayland_display {
        SessionType::Wayland
    } else if has_display {
        SessionType::X11
    } else {
        SessionType::Unknown
    }
}

/// Classifies the display session.
pub fn session_type_from(
    is_macos: bool,
    is_windows: bool,
    xdg_session_type: Option<&str>,
    has_wayland_display: bool,
    has_display: bool,
) -> (r: SessionType)
    ensures
        r == session_from_spec(
            is_macos,
            is_windows,
            match xdg_session_type {
                Some(v) => Some(v@),
                None => None,
            },
            has_wayland_display,
            has_display,
        ),
{
    if is_macos {
        return SessionType::Macos;
    }
    if is_windows {
        return SessionType::Windows;
    }
    if let Some(value) = xdg_session_type {
        let lower = lowercase(value);
        if same_text(lower.as_str(), "wayland") {
            return SessionType::Wayland;
        }
        if same_text(lower.as_str(), "x11") {
            return SessionType::X11;
        }
    }
    if has_wayland_display {
        return SessionType::Wayland;
    }
    if has_display {
        return SessionType::X11;
    }
    SessionType::Unknown
}

/// Which helper programs were found on the search path.
#[derive(Debug, Clone, Copy, PartialEq, Eq, Structural)]
pub struct HelperAvailability {
    pub wl_copy: bool,
    pub wl_paste: bool,
    pub wtype: bool,
    pub ydotool: bool,
    pub xdotool: bool,
}

#[derive(Debug, Clone, Copy, PartialEq, Eq, Structural)]
pub enum PasteMethod {
    X11CtrlV,
    WaylandWtype,
    WaylandYdotool,
    ClipboardOnly,
    Unavailable,
}

pub open spec fn method_name(m: PasteMethod) -> Seq<char> {
    match m {
        PasteMethod::X11CtrlV => "x11_ctrl_v"@,
        PasteMethod::WaylandWtype => "wayland_wtype"@,
        PasteMethod::WaylandYdotool => "wayland_ydotool"@,
        PasteMethod::ClipboardOnly => "clipboard_only"@,
        PasteMethod::Unavailable => "unavailable"@,
    }
}

impl PasteMethod {
    pub fn as_str(&self) -> (r: &'static str)
        ensures
            r@ == method_name(*self),
    {
        match self {
            PasteMethod::X11CtrlV => "x11_ctrl_v",
            PasteMethod::WaylandWtype => "wayland_wtype",
            PasteMethod::WaylandYdotool => "wayland_ydotool",
            PasteMethod::ClipboardOnly => "clipboard_only",
            PasteMethod::Unavailable => "unavailable",
        }
    }
}

/// The paste method settled on, and the helpers whose absence decided it.
#[derive(Debug, Clone)]
pub struct PasteResolution {
    pub method: PasteMethod,
    pub missing_helpers: Vec<String>,
}

/// A resolution as a method and a list of helper names.
pub type ResolutionView = (PasteMethod, Seq<Seq<char>>);

impl PasteResolution {
    pub open spec fn view(&self) -> ResolutionView {
        (self.method, names_view(self.missing_helpers@))
    }
}

/// What the user asked for, once trimmed and lowercased; anything
/// unrecognised (and the empty text) asks for `Auto`.
#[derive(Debug, Clone, Copy, PartialEq, Eq, Structural)]
pub enum PasteRequest {
    Auto,
    X11CtrlV,
    WaylandWtype,
    WaylandYdotool,
    ClipboardOnly,
}

pub open spec fn request_of(normalized: Seq<char>) -> PasteRequest {
    if normalized == "x11_ctrl_v"@ {
        PasteRequest::X11CtrlV
    } else if normalized == "wayland_wtype"@ {
        PasteRequest::WaylandWtype
    } else if normalized == "wayland_ydotool"@ {
        PasteRequest::WaylandYdotool
    } else if normalized == "clipboard_only"@ {
        PasteRequest::ClipboardOnly
    } else {
        PasteRequest::Auto
    }
}

/// The form a request is compared in: trimmed, then lowercased.
pub open spec fn normalized_request(requested: Seq<char>) -> Seq<char> {
    lower_of(trim_of(requested))
}

/// Reads an already normalized request.
pub fn parse_paste_request(normalized: &str) -> (r: PasteRequest)
    ensures
        r == request_of(normalized@),
{
    if same_text(normalized, "x11_ctrl_v") {
        PasteRequest::X11CtrlV
    } else if same_text(normalized, "wayland_wtype") {
        PasteRequest::WaylandWtype
    } else if same_text(normalized, "wayland_ydotool") {
        PasteRequest::WaylandYdotool
    } else if same_text(normalized, "clipboard_only") {
        PasteRequest::ClipboardOnly
    } else {
        PasteRequest::Auto
    }
}

/// Trims and lowercases a request, then reads it.
pub fn normalize_request(requested: &str) -> (r: PasteRequest)
    ensures
        r == request_of(normalized_request(requested@)),
{
    let normalized = lowercase(trim_str(requested));
    parse_paste_request(normalized.as_str())
}

pub open spec fn display_missing() -> ResolutionView {
    (PasteMethod::Unavailable, seq!["display"@])
}

pub open spec fn wayland_auto_spec(h: HelperAvailability) -> ResolutionView {
    if !h.wl_copy {
        (PasteMethod::Unavailable, seq!["wl-copy"@])
    } else if h.wtype {
        (PasteMethod::WaylandWtype, seq![])
    } else if h.ydotool {
        (PasteMethod::WaylandYdotool, seq![])
    } else {
        (PasteMethod::ClipboardOnly, seq!["wtype"@, "ydotool"@])
    }
}

pub open spec fn auto_spec(session: SessionType, h: HelperAvailability) -> ResolutionView {
    match session {
        SessionType::Wayland => wayland_auto_spec(h),
        SessionType::Unknown => display_missing(),
        _ => (PasteMethod::X11CtrlV, seq![]),
    }
}

/// Helpers that a specific Wayland method lacks: `wl-copy` first, then the
/// method's own typing helper.
pub open spec fn wayland_missing(h: HelperAvailability, method: PasteMethod) -> Seq<Seq<char>> {
    let clip: Seq<Seq<char>> = if h.wl_copy { seq![] } else { seq!["wl-copy"@] };
    let typing: Seq<Seq<char>> = if method == PasteMethod::WaylandWtype && !h.wtype {
        seq!["wtype"@]
    } else if method == PasteMethod::WaylandYdotool && !h.ydotool {
        seq!["ydotool"@]
    } else {
        seq![]
    };
    clip + typing
}

pub open spec fn wayland_specific_spec(
    session: SessionType,
    h: HelperAvailability,
    method: PasteMethod,
) -> ResolutionView {
    if session != SessionType::Wayland {
        (PasteMethod::Unavailable, seq!["wayland-session"@])
    } else if wayland_missing(h, method).len() == 0 {
        (method, seq![])
    } else {
        (PasteMethod::Unavailable, wayland_missing(h, method))
    }
}

pub open spec fn clipboard_only_spec(session: SessionType, h: HelperAvailability) -> ResolutionView {
    match session {
        SessionType::Wayland => if h.wl_copy {
            (PasteMethod::ClipboardOnly, seq![])
        } else {
            (PasteMethod::Unavailable, seq!["wl-copy"@])
        },
        SessionType::Unknown => display_missing(),
        _ => (PasteMethod::ClipboardOnly, seq![]),
    }
}

/// The resolution when the clipboard may be used. A request for Ctrl+V on
/// Wayland is treated as `Auto`.
pub open spec fn resolution_spec(
    req: PasteRequest,
    session: SessionType,
    h: HelperAvailability,
) -> ResolutionView {
    let req = if req == PasteRequest::X11CtrlV && session == SessionType::Wayland {
        PasteRequest::Auto
    } else {
        req
    };
    match req {
        PasteRequest::Auto => auto_spec(session, h),
        PasteRequest::X11CtrlV => (PasteMethod::X11CtrlV, seq![]),
        PasteRequest::WaylandWtype => wayland_specific_spec(session, h, PasteMethod::WaylandWtype),
        PasteRequest::WaylandYdotool => wayland_specific_spec(session, h, PasteMethod::WaylandYdotool),
        PasteRequest::ClipboardOnly => clipboard_only_spec(session, h),
    }
}

pub open spec fn wayland_no_clipboard_spec(req: PasteRequest, h: HelperAvailability) -> ResolutionView {
    match req {
        PasteRequest::WaylandWtype => if h.wtype {
            (PasteMethod::WaylandWtype, seq![])
        } else {
            (PasteMethod::Unavailable, seq!["wtype"@])
        },
        PasteRequest::WaylandYdotool => if h.ydotool {
            (PasteMethod::WaylandYdotool, seq![])
        } else {
            (PasteMethod::Unavailable, seq!["ydotool"@])
        },
        PasteRequest::ClipboardOnly => (PasteMethod::Unavailable, seq!["wtype"@, "ydotool"@]),
        _ => if h.wtype {
            (PasteMethod::WaylandWtype, seq![])
        } else if h.ydotool {
            (PasteMethod::WaylandYdotool, seq![])
        } else {
            (PasteMethod::Unavailable, seq!["wtype"@, "ydotool"@])
        },
    }
}

/// The resolution when the text is typed rather than pasted through the
/// clipboard.
pub open spec fn no_clipboard_spec(
    req: PasteRequest,
    session: SessionType,
    h: HelperAvailability,
) -> ResolutionView {
    match session {
        SessionType::Wayland => wayland_no_clipboard_spec(req, h),
        SessionType::Unknown => display_missing(),
        _ => (PasteMethod::X11CtrlV, seq![]),
    }
}

fn resolved(method: PasteMethod) -> (r: PasteResolution)
    ensures
        r@ == (method, Seq::<Seq<char>>::empty()),
{
    let r = PasteResolution { method, missing_helpers: Vec::new() };
    assert(names_view(r.missing_helpers@) =~= Seq::<Seq<char>>::empty());
    r
}

fn unavailable1(a: &str) -> (r: PasteResolution)
    ensures
        r@ == (PasteMethod::Unavailable, seq![a@]),
{
    PasteResolution { method: PasteMethod::Unavailable, missing_helpers: names1(a) }
}

fn unavailable2(a: &str, b: &str) -> (r: PasteResolution)
    ensures
        r@ == (PasteMethod::Unavailable, seq![a@, b@]),
{
    PasteResolution { method: PasteMethod::Unavailable, missing_helpers: names2(a, b) }
}

fn resolve_wayland_auto(helpers: &HelperAvailability) -> (r: PasteResolution)
    ensures
        r@ == wayland_auto_spec(*helpers),
{
    if !helpers.wl_copy {
        return unavailable1("wl-copy");
    }
    if helpers.wtype {
        return resolved(PasteMethod::WaylandWtype);
    }
    if helpers.ydotool {
        return resolved(PasteMethod::WaylandYdotool);
    }
    PasteResolution { method: PasteMethod::ClipboardOnly, missing_helpers: names2("wtype", "ydotool") }
}

fn resolve_auto(session: SessionType, helpers: &HelperAvailability) -> (r: PasteResolution)
    ensures
        r@ == auto_spec(session, *helpers),
{
    match session {
        SessionType::Wayland => resolve_wayland_auto(helpers),
        SessionType::X11 => resolved(PasteMethod::X11CtrlV),
        SessionType::Macos => resolved(PasteMethod::X11CtrlV),
        SessionType::Windows => resolved(PasteMethod::X11CtrlV),
        SessionType::Unknown => unavailable1("display"),
    }
}

fn resolve_wayland_specific(
    session: SessionType,
    helpers: &HelperAvailability,
    method: PasteMethod,
) -> (r: PasteResolution)
    ensures
        r@ == wayland_specific_spec(session, *helpers, method),
{
    if session != SessionType::Wayland {
        return unavailable1("wayland-session");
    }
    let mut missing: Vec<String> = Vec::new();
    if !helpers.wl_copy {
        missing.push(String::from_str("wl-copy"));
    }
    match method {
        PasteMethod::WaylandWtype => {
            if !helpers.wtype {
                missing.push(String::from_str("wtype"));
            }
        },
        PasteMethod::WaylandYdotool => {
            if !helpers.ydotool {
                missing.push(String::from_str("ydotool"));
            }
        },
        _ => {},
    }
    assert(names_view(missing@) =~= wayland_missing(*helpers, method));
    if missing.len() == 0 {
        resolved(method)
    } else {
        PasteResolution { method: PasteMethod::Unavailable, missing_helpers: missing }
    }
}

fn resolve_clipboard_only(session: SessionType, helpers: &HelperAvailability) -> (r: PasteResolution)
    ensures
        r@ == clipboard_only_spec(session, *helpers),
{
    match session {
        SessionType::Wayland => {
            if helpers.wl_copy {
                resolved(PasteMethod::ClipboardOnly)
            } else {
                unavailable1("wl-copy")
            }
        },
        SessionType::X11 => resolved(PasteMethod::ClipboardOnly),
        SessionType::Macos => resolved(PasteMethod::ClipboardOnly),
        SessionType::Windows => resolved(PasteMethod::ClipboardOnly),
        SessionType::Unknown => unavailable1("display"),
    }
}

/// Resolves an already read request when the clipboard may be used.
pub fn resolve_request(
    req: PasteRequest,
    session: SessionType,
    helpers: &HelperAvailability,
) -> (r: PasteResolution)
    ensures
        r@ == resolution_spec(req, session, *helpers),
{
    let req = if req == PasteRequest::X11CtrlV && session == SessionType::Wayland {
        PasteRequest::Auto
    } else {
        req
    };
    match req {
        PasteRequest::Auto => resolve_auto(session, helpers),
        PasteRequest::X11CtrlV => resolved(PasteMethod::X11CtrlV),
        PasteRequest::WaylandWtype => resolve_wayland_specific(session, helpers, PasteMethod::WaylandWtype),
        PasteRequest::WaylandYdotool => resolve_wayland_specific(
            session,
            helpers,
            PasteMethod::WaylandYdotool,
        ),
        PasteRequest::ClipboardOnly => resolve_clipboard_only(session, helpers),
    }
}

/// Resolves the paste method named by the user (trimmed, lowercased; empty
/// or unknown means automatic) for a session and the helpers found.
pub fn resolve_paste_method(
    requested: &str,
    session: SessionType,
    helpers: &HelperAvailability,
) -> (r: PasteResolution)
    ensures
        r@ == resolution_spec(request_of(normalized_request(requested@)), session, *helpers),
{
    resolve_request(normalize_request(requested), session, helpers)
}

fn resolve_wayland_no_clipboard(req: PasteRequest, helpers: &HelperAvailability) -> (r: PasteResolution)
    ensures
        r@ == wayland_no_clipboard_spec(req, *helpers),
{
    match req {
        PasteRequest::WaylandWtype => {
            if helpers.wtype {
                resolved(PasteMethod::WaylandWtype)
            } else {
                unavailable1("wtype")
            }
        },
        PasteRequest::WaylandYdotool => {
            if helpers.ydotool {
                resolved(PasteMethod::WaylandYdotool)
            } else {
                unavailable1("ydotool")
            }
        },
        PasteRequest::ClipboardOnly => unavailable2("wtype", "ydotool"),
        _ => {
            if helpers.wtype {
                resolved(PasteMethod::WaylandWtype)
            } else if helpers.ydotool {
                resolved(PasteMethod::WaylandYdotool)
            } else {
                unavailable2("wtype", "ydotool")
            }
        },
    }
}

/// Resolves an already read request when the text is typed, not pasted.
pub fn resolve_no_clipboard_request(
    req: PasteRequest,
    session: SessionType,
    helpers: &HelperAvailability,
) -> (r: PasteResolution)
    ensures
        r@ == no_clipboard_spec(req, session, *helpers),
{
    match session {
        SessionType::Wayland => resolve_wayland_no_clipboard(req, helpers),
        SessionType::X11 => resolved(PasteMethod::X11CtrlV),
        SessionType::Macos => resolved(PasteMethod::X11CtrlV),
        SessionType::Windows => resolved(PasteMethod::X11CtrlV),
        SessionType::Unknown => unavailable1("display"),
    }
}

/// Resolves the method named by the user when the text is typed, not pasted.
pub fn resolve_no_clipboard(
    requested: &str,
    session: SessionType,
    helpers: &HelperAvailability,
) -> (r: PasteResolution)
    ensures
        r@ == no_clipboard_spec(request_of(normalized_request(requested@)), session, *helpers),
{
    resolve_no_clipboard_request(normalize_request(requested), session, helpers)
}

/// Session and paste capabilities as reported to the user interface.
#[derive(Debug, Clone)]
pub struct RuntimeInfo {
    pub session_type: String,
    pub hotkeys_supported: bool,
    pub paste_method: String,
    pub missing_helpers: Vec<String>,
}

/// Global hotkeys work everywhere but on Wayland and unknown sessions.
pub open spec fn hotkeys_supported_in(session: SessionType) -> bool {
    session == SessionType::X11 || session == SessionType::Windows || session == SessionType::Macos
}

/// The capability report for a detected session and helper set.
pub fn runtime_info(
    paste_method: &str,
    keep_clipboard: bool,
    session: SessionType,
    helpers: &HelperAvailability,
) -> (r: RuntimeInfo)
    ensures
        ({
            let req = request_of(normalized_request(paste_method@));
            let res = if keep_clipboard {
                resolution_spec(req, session, *helpers)
            } else {
                no_clipboard_spec(req, session, *helpers)
            };
            &&& r.session_type@ == session_name(session)
            &&& r.hotkeys_supported == hotkeys_supported_in(session)
            &&& r.paste_method@ == method_name(res.0)
            &&& names_view(r.missing_helpers@) == res.1
        }),
{
    let resolution = if keep_clipboard {
        resolve_paste_method(paste_method, session, helpers)
    } else {
        resolve_no_clipboard(paste_method, session, helpers)
    };
    let hotkeys_supported = match session {
        SessionType::X11 | SessionType::Windows | SessionType::Macos => true,
        _ => false,
    };
    RuntimeInfo {
        session_type: String::from_str(session.as_str()),
        hotkeys_supported,
        paste_method: String::from_str(resolution.method.as_str()),
        missing_helpers: resolution.missing_helpers,
    }
}

} // verus!
