//! Decisions behind pasting or typing text into the focused window. The
//! keystrokes and clipboard writes themselves are made by the caller, which
//! follows the plan returned here.
use vstd::prelude::*;
use vstd::string::*;
use crate::runtime::{
    normalize_request, request_of, normalized_request, resolution_spec, resolve_request,
    HelperAvailability, PasteMethod, PasteRequest, SessionType,
};
use crate::text::names_view;

verus! {

/// Wayland helper program used to send keystrokes.
#[derive(Debug, Clone, Copy, PartialEq, Eq, Structural)]
pub enum WaylandPasteHelper {
    Wtype,
    Ydotool,
}

/// A `Result` with its error text viewed as characters.
pub open spec fn text_result<T>(r: Result<T, String>) -> Result<T, Seq<char>> {
    match r {
        Ok(v) => Ok(v),
        Err(e) => Err(e@),
    }
}

/// The helper that types text on Wayland when the clipboard is not used.
pub open spec fn type_helper_spec(req: PasteRequest, h: HelperAvailability) -> Result<
    WaylandPasteHelper,
    Seq<char>,
> {
    match req {
        PasteRequest::WaylandWtype => if h.wtype {
            Ok(WaylandPasteHelper::Wtype)
        } else {
            Err("Missing helpers: wtype"@)
        },
        PasteRequest::WaylandYdotool => if h.ydotool {
            Ok(WaylandPasteHelper::Ydotool)
        } else {
            Err("Missing helpers: ydotool"@)
        },
        PasteRequest::ClipboardOnly => Err(
            "Clipboard-only paste is disabled when copy-to-clipboard is off"@,
        ),
        _ => if h.wtype {
            Ok(WaylandPasteHelper::Wtype)
        } else if h.ydotool {
            Ok(WaylandPasteHelper::Ydotool)
        } else {
            Err("Missing helpers: wtype, ydotool"@)
        },
    }
}

/// Picks the Wayland typing helper for an already read request.
pub fn wayland_type_helper_for(req: PasteRequest, helpers: &HelperAvailability) -> (r: Result<
    WaylandPasteHelper,
    String,
>)
    ensures
        text_result(r) == type_helper_spec(req, *helpers),
{
    match req {
        PasteRequest::WaylandWtype => if helpers.wtype {
            Ok(WaylandPasteHelper::Wtype)
        } else {
            Err(String::from_str("Missing helpers: wtype"))
        },
        PasteRequest::WaylandYdotool => if helpers.ydotool {
            Ok(WaylandPasteHelper::Ydotool)
        } else {
            Err(String::from_str("Missing helpers: ydotool"))
        },
        PasteRequest::ClipboardOnly => Err(
            String::from_str("Clipboard-only paste is disabled when copy-to-clipboard is off"),
        ),
        _ => if helpers.wtype {
            Ok(WaylandPasteHelper::Wtype)
        } else if helpers.ydotool {
            Ok(WaylandPasteHelper::Ydotool)
        } else {
            Err(String::from_str("Missing helpers: wtype, ydotool"))
        },
    }
}

/// Picks the Wayland typing helper for the method named by the user.
pub fn resolve_wayland_type_helper(paste_method: &str, helpers: &HelperAvailability) -> (r: Result<
    WaylandPasteHelper,
    String,
>)
    ensures
        text_result(r) == type_helper_spec(
            request_of(normalized_request(paste_method@)),
            *helpers,
        ),
{
    wayland_type_helper_for(normalize_request(paste_method), helpers)
}

/// `names` joined with `sep` between consecutive names.
pub open spec fn join_names(names: Seq<Seq<char>>, sep: Seq<char>) -> Seq<char>
    decreases names.len(),
{
    if names.len() == 0 {
        Seq::empty()
    } else if names.len() == 1 {
        names[0]
    } else {
        join_names(names.drop_last(), sep) + sep + names.last()
    }
}

/// Joins names with a separator.
pub fn join_with(names: &Vec<String>, sep: &str) -> (r: String)
    ensures
        r@ == join_names(names_view(names@), sep@),
{
    let mut out = String::new();
    let mut i: usize = 0;
    while i < names.len()
        invariant
            0 <= i <= names@.len(),
            out@ == join_names(names_view(names@.take(i as int)), sep@),
        decreases names@.len() - i,
    {
        let ghost before = names_view(names@.take(i as int));
        let ghost after = names_view(names@.take(i + 1));
        assert(after.drop_last() =~= before);
        assert(after.last() == names@[i as int]@);
        if i > 0 {
            out.append(sep);
        }
        out.append(names[i].as_str());
        i = i + 1;
    }
    assert(names@.take(names@.len() as int) =~= names@);
    out
}

/// Why a resolution left no paste method: the missing helpers, if any.
pub open spec fn unavailable_detail_spec(missing: Seq<Seq<char>>) -> Seq<char> {
    if missing.len() == 0 {
        "Paste method unavailable"@
    } else {
        "Missing helpers: "@ + join_names(missing, ", "@)
    }
}

pub fn unavailable_detail(missing: &Vec<String>) -> (r: String)
    ensures
        r@ == unavailable_detail_spec(names_view(missing@)),
{
    if missing.len() == 0 {
        String::from_str("Paste method unavailable")
    } else {
        let joined = join_with(missing, ", ");
        String::from_str("Missing helpers: ").concat(joined.as_str())
    }
}

/// What the caller does to deliver the text.
#[derive(Debug, Clone)]
pub enum PasteAction {
    /// Type the text with the keyboard emulator.
    TypeKeys,
    /// Type the text through a Wayland helper.
    TypeWayland(WaylandPasteHelper),
    /// Put the text on the clipboard and send the paste shortcut.
    PasteKeys,
    /// Put the text on the clipboard with wl-copy and send the paste
    /// shortcut through a Wayland helper.
    PasteWayland(WaylandPasteHelper),
    /// Only put the text on the clipboard.
    ClipboardOnly,
    /// Only put the text on the clipboard; if that fails, report the text.
    ClipboardOrFail(String),
    /// Report the text as the failure.
    Fail(String),
}

/// A `PasteAction` with its texts viewed as characters.
pub enum PasteActionView {
    TypeKeys,
    TypeWayland(WaylandPasteHelper),
    PasteKeys,
    PasteWayland(WaylandPasteHelper),
    ClipboardOnly,
    ClipboardOrFail(Seq<char>),
    Fail(Seq<char>),
}

impl PasteAction {
    pub open spec fn view(&self) -> PasteActionView {
        match self {
            PasteAction::TypeKeys => PasteActionView::TypeKeys,
            PasteAction::TypeWayland(h) => PasteActionView::TypeWayland(*h),
            PasteAction::PasteKeys => PasteActionView::PasteKeys,
            PasteAction::PasteWayland(h) => PasteActionView::PasteWayland(*h),
            PasteAction::ClipboardOnly => PasteActionView::ClipboardOnly,
            PasteAction::ClipboardOrFail(m) => PasteActionView::ClipboardOrFail(m@),
            PasteAction::Fail(m) => PasteActionView::Fail(m@),
        }
    }
}

/// The plan for one paste: whether to focus the remembered window first, and
/// how to deliver the text.
#[derive(Debug, Clone)]
pub struct PastePlan {
    pub focus_window: bool,
    pub action: PasteAction,
}

/// Focusing a remembered window is possible on X11 with xdotool only.
pub open spec fn can_focus(session: SessionType, h: HelperAvailability, has_window: bool) -> bool {
    session == SessionType::X11 && h.xdotool && has_window
}

/// How the text is delivered when the clipboard is left alone.
pub open spec fn typing_action_spec(
    req: PasteRequest,
    session: SessionType,
    h: HelperAvailability,
) -> PasteActionView {
    match session {
        SessionType::Wayland => match type_helper_spec(req, h) {
            Ok(helper) => PasteActionView::TypeWayland(helper),
            Err(e) => PasteActionView::Fail(e),
        },
        SessionType::Unknown => PasteActionView::Fail("No display session detected"@),
        _ => PasteActionView::TypeKeys,
    }
}

/// How the text is delivered through the clipboard.
pub open spec fn clipboard_action_spec(
    req: PasteRequest,
    session: SessionType,
    h: HelperAvailability,
) -> PasteActionView {
    let res = resolution_spec(req, session, h);
    match res.0 {
        PasteMethod::X11CtrlV => PasteActionView::PasteKeys,
        PasteMethod::WaylandWtype => if h.wl_copy {
            PasteActionView::PasteWayland(WaylandPasteHelper::Wtype)
        } else {
            PasteActionView::Fail("wl-copy is required for Wayland clipboard support"@)
        },
        PasteMethod::WaylandYdotool => if h.wl_copy {
            PasteActionView::PasteWayland(WaylandPasteHelper::Ydotool)
        } else {
            PasteActionView::Fail("wl-copy is required for Wayland clipboard support"@)
        },
        PasteMethod::ClipboardOnly => PasteActionView::ClipboardOnly,
        PasteMethod::Unavailable => PasteActionView::ClipboardOrFail(
            unavailable_detail_spec(res.1),
        ),
    }
}

/// Whether the remembered window is focused first: always where possible
/// when typing; when pasting, only for a method that sends keystrokes.
pub open spec fn plan_focus_spec(
    keep_clipboard: bool,
    req: PasteRequest,
    session: SessionType,
    h: HelperAvailability,
    has_window: bool,
) -> bool {
    let method = resolution_spec(req, session, h).0;
    can_focus(session, h, has_window) && (!keep_clipboard || (method != PasteMethod::ClipboardOnly
        && method != PasteMethod::Unavailable))
}

/// Plans a paste for an already read request.
pub fn plan_paste_request(
    keep_clipboard: bool,
    req: PasteRequest,
    has_focus_window: bool,
    session: SessionType,
    helpers: &HelperAvailability,
) -> (r: PastePlan)
    ensures
        r.focus_window == plan_focus_spec(keep_clipboard, req, session, *helpers, has_focus_window),
        r.action@ == if keep_clipboard {
            clipboard_action_spec(req, session, *helpers)
        } else {
            typing_action_spec(req, session, *helpers)
        },
{
    let focusable = session == SessionType::X11 && helpers.xdotool && has_focus_window;
    let resolution = resolve_request(req, session, helpers);
    if !keep_clipboard {
        let action = match session {
            SessionType::Wayland => match wayland_type_helper_for(req, helpers) {
                Ok(helper) => PasteAction::TypeWayland(helper),
                Err(e) => PasteAction::Fail(e),
            },
            SessionType::Unknown => PasteAction::Fail(String::from_str("No display session detected")),
            _ => PasteAction::TypeKeys,
        };
        return PastePlan { focus_window: focusable, action };
    }
    let sends_keys = match resolution.method {
        PasteMethod::ClipboardOnly | PasteMethod::Unavailable => false,
        _ => true,
    };
    let action = match resolution.method {
        PasteMethod::X11CtrlV => PasteAction::PasteKeys,
        PasteMethod::WaylandWtype => if helpers.wl_copy {
            PasteAction::PasteWayland(WaylandPasteHelper::Wtype)
        } else {
            PasteAction::Fail(String::from_str("wl-copy is required for Wayland clipboard support"))
        },
        PasteMethod::WaylandYdotool => if helpers.wl_copy {
            PasteAction::PasteWayland(WaylandPasteHelper::Ydotool)
        } else {
            PasteAction::Fail(String::from_str("wl-copy is required for Wayland clipboard support"))
        },
        PasteMethod::ClipboardOnly => PasteAction::ClipboardOnly,
        PasteMethod::Unavailable => PasteAction::ClipboardOrFail(
            unavailable_detail(&resolution.missing_helpers),
        ),
    };
    PastePlan { focus_window: focusable && sends_keys, action }
}

/// Plans a paste of text for the method named by the user.
pub fn plan_paste(
    keep_clipboard: bool,
    paste_method: &str,
    has_focus_window: bool,
    session: SessionType,
    helpers: &HelperAvailability,
) -> (r: PastePlan)
    ensures
        ({
            let req = request_of(normalized_request(paste_method@));
            &&& r.focus_window == plan_focus_spec(
                keep_clipboard,
                req,
                session,
                *helpers,
                has_focus_window,
            )
            &&& r.action@ == if keep_clipboard {
                clipboard_action_spec(req, session, *helpers)
            } else {
                typing_action_spec(req, session, *helpers)
            }
        }),
{
    plan_paste_request(
        keep_clipboard,
        normalize_request(paste_method),
        has_focus_window,
        session,
        helpers,
    )
}

/// Whether a clipboard-only copy first tries wl-copy.
pub fn clipboard_tries_wl_copy(session: SessionType, helpers: &HelperAvailability) -> (r: bool)
    ensures
        r == (session == SessionType::Wayland && helpers.wl_copy),
{
    session == SessionType::Wayland && helpers.wl_copy
}

/// The error a clipboard-only copy reports once every way has failed: the
/// wl-copy failure if it was tried, else a missing wl-copy on Wayland, else
/// a missing display session, else the clipboard library's own error.
pub open spec fn clipboard_failure_spec(
    session: SessionType,
    h: HelperAvailability,
    wl_copy_error: Option<Seq<char>>,
    clipboard_error: Seq<char>,
) -> Seq<char> {
    match wl_copy_error {
        Some(e) => e,
        None => if session == SessionType::Wayland && !h.wl_copy {
            "wl-copy is required for Wayland clipboard support"@
        } else if session == SessionType::Unknown {
            "No display session detected"@
        } else {
            clipboard_error
        },
    }
}

pub fn clipboard_failure(
    session: SessionType,
    helpers: &HelperAvailability,
    wl_copy_error: Option<String>,
    clipboard_error: String,
) -> (r: String)
    ensures
        r@ == clipboard_failure_spec(
            session,
            *helpers,
            match wl_copy_error {
                Some(e) => Some(e@),
                None => None,
            },
            clipboard_error@,
        ),
{
    match wl_copy_error {
        Some(e) => e,
        None => if session == SessionType::Wayland && !helpers.wl_copy {
            String::from_str("wl-copy is required for Wayland clipboard support")
        } else if session == SessionType::Unknown {
            String::from_str("No display session detected")
        } else {
            clipboard_error
        },
    }
}

} // verus!
