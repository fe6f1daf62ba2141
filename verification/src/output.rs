//! The decisions of the output system: what egui's platform output asks of the window
//! system, the clipboard, the browser and the scheduler.
use vstd::prelude::*;

verus! {

/// The mouse cursor that egui asks for.
#[derive(Clone, Copy, Debug, PartialEq, Eq, Hash)]
pub enum EguiCursorIcon {
    Default,
    /// No cursor is shown.
    NoCursor,
    ContextMenu,
    Help,
    PointingHand,
    Progress,
    Wait,
    Cell,
    Crosshair,
    Text,
    VerticalText,
    Alias,
    Copy,
    Move,
    NoDrop,
    NotAllowed,
    Grab,
    Grabbing,
    AllScroll,
    ResizeHorizontal,
    ResizeNeSw,
    ResizeNwSe,
    ResizeVertical,
    ResizeEast,
    ResizeSouthEast,
    ResizeSouth,
    ResizeSouthWest,
    ResizeWest,
    ResizeNorthWest,
    ResizeNorth,
    ResizeNorthEast,
    ResizeColumn,
    ResizeRow,
    ZoomIn,
    ZoomOut,
}

/// A cursor icon of the window system.
#[derive(Clone, Copy, Debug, PartialEq, Eq, Hash)]
pub enum SystemCursorIcon {
    Default,
    ContextMenu,
    Help,
    Pointer,
    Progress,
    Wait,
    Cell,
    Crosshair,
    Text,
    VerticalText,
    Alias,
    Copy,
    Move,
    NoDrop,
    NotAllowed,
    Grab,
    Grabbing,
    EResize,
    NResize,
    NeResize,
    NwResize,
    SResize,
    SeResize,
    SwResize,
    WResize,
    EwResize,
    NsResize,
    NeswResize,
    NwseResize,
    ColResize,
    RowResize,
    AllScroll,
    ZoomIn,
    ZoomOut,
}

/// The window cursor for egui's cursor; egui's request to hide the cursor has none.
pub open spec fn cursor_icon_of(icon: EguiCursorIcon) -> Option<SystemCursorIcon> {
    match icon {
        EguiCursorIcon::Default => Some(SystemCursorIcon::Default),
        EguiCursorIcon::PointingHand => Some(SystemCursorIcon::Pointer),
        EguiCursorIcon::ResizeHorizontal => Some(SystemCursorIcon::EwResize),
        EguiCursorIcon::ResizeNeSw => Some(SystemCursorIcon::NeswResize),
        EguiCursorIcon::ResizeNwSe => Some(SystemCursorIcon::NwseResize),
        EguiCursorIcon::ResizeVertical => Some(SystemCursorIcon::NsResize),
        EguiCursorIcon::Text => Some(SystemCursorIcon::Text),
        EguiCursorIcon::Grab => Some(SystemCursorIcon::Grab),
        EguiCursorIcon::Grabbing => Some(SystemCursorIcon::Grabbing),
        EguiCursorIcon::ContextMenu => Some(SystemCursorIcon::ContextMenu),
        EguiCursorIcon::Help => Some(SystemCursorIcon::Help),
        EguiCursorIcon::Progress => Some(SystemCursorIcon::Progress),
        EguiCursorIcon::Wait => Some(SystemCursorIcon::Wait),
        EguiCursorIcon::Cell => Some(SystemCursorIcon::Cell),
        EguiCursorIcon::Crosshair => Some(SystemCursorIcon::Crosshair),
        EguiCursorIcon::VerticalText => Some(SystemCursorIcon::VerticalText),
        EguiCursorIcon::Alias => Some(SystemCursorIcon::Alias),
        EguiCursorIcon::Copy => Some(SystemCursorIcon::Copy),
        EguiCursorIcon::Move => Some(SystemCursorIcon::Move),
        EguiCursorIcon::NoDrop => Some(SystemCursorIcon::NoDrop),
        EguiCursorIcon::NotAllowed => Some(SystemCursorIcon::NotAllowed),
        EguiCursorIcon::AllScroll => Some(SystemCursorIcon::AllScroll),
        EguiCursorIcon::ZoomIn => Some(SystemCursorIcon::ZoomIn),
        EguiCursorIcon::ZoomOut => Some(SystemCursorIcon::ZoomOut),
        EguiCursorIcon::ResizeEast => Some(SystemCursorIcon::EResize),
        EguiCursorIcon::ResizeSouthEast => Some(SystemCursorIcon::SeResize),
        EguiCursorIcon::ResizeSouth => Some(SystemCursorIcon::SResize),
        EguiCursorIcon::ResizeSouthWest => Some(SystemCursorIcon::SwResize),
        EguiCursorIcon::ResizeWest => Some(SystemCursorIcon::WResize),
        EguiCursorIcon::ResizeNorthWest => Some(SystemCursorIcon::NwResize),
        EguiCursorIcon::ResizeNorth => Some(SystemCursorIcon::NResize),
        EguiCursorIcon::ResizeNorthEast => Some(SystemCursorIcon::NeResize),
        EguiCursorIcon::ResizeColumn => Some(SystemCursorIcon::ColResize),
        EguiCursorIcon::ResizeRow => Some(SystemCursorIcon::RowResize),
        EguiCursorIcon::NoCursor => None,
    }
}

/// Maps egui's cursor icon to the window system's (see `cursor_icon_of`).
pub fn egui_to_winit_cursor_icon(cursor_icon: EguiCursorIcon) -> (r: Option<SystemCursorIcon>)
    ensures
        r == cursor_icon_of(cursor_icon),
{
    match cursor_icon {
        EguiCursorIcon::Default => Some(SystemCursorIcon::Default),
        EguiCursorIcon::PointingHand => Some(SystemCursorIcon::Pointer),
        EguiCursorIcon::ResizeHorizontal => Some(SystemCursorIcon::EwResize),
        EguiCursorIcon::ResizeNeSw => Some(SystemCursorIcon::NeswResize),
        EguiCursorIcon::ResizeNwSe => Some(SystemCursorIcon::NwseResize),
        EguiCursorIcon::ResizeVertical => Some(SystemCursorIcon::NsResize),
        EguiCursorIcon::Text => Some(SystemCursorIcon::Text),
        EguiCursorIcon::Grab => Some(SystemCursorIcon::Grab),
        EguiCursorIcon::Grabbing => Some(SystemCursorIcon::Grabbing),
        EguiCursorIcon::ContextMenu => Some(SystemCursorIcon::ContextMenu),
        EguiCursorIcon::Help => Some(SystemCursorIcon::Help),
        EguiCursorIcon::Progress => Some(SystemCursorIcon::Progress),
        EguiCursorIcon::Wait => Some(SystemCursorIcon::Wait),
        EguiCursorIcon::Cell => Some(SystemCursorIcon::Cell),
        EguiCursorIcon::Crosshair => Some(SystemCursorIcon::Crosshair),
        EguiCursorIcon::VerticalText => Some(SystemCursorIcon::VerticalText),
        EguiCursorIcon::Alias => Some(SystemCursorIcon::Alias),
        EguiCursorIcon::Copy => Some(SystemCursorIcon::Copy),
        EguiCursorIcon::Move => Some(SystemCursorIcon::Move),
        EguiCursorIcon::NoDrop => Some(SystemCursorIcon::NoDrop),
        EguiCursorIcon::NotAllowed => Some(SystemCursorIcon::NotAllowed),
        EguiCursorIcon::AllScroll => Some(SystemCursorIcon::AllScroll),
        EguiCursorIcon::ZoomIn => Some(SystemCursorIcon::ZoomIn),
        EguiCursorIcon::ZoomOut => Some(SystemCursorIcon::ZoomOut),
        EguiCursorIcon::ResizeEast => Some(SystemCursorIcon::EResize),
        EguiCursorIcon::ResizeSouthEast => Some(SystemCursorIcon::SeResize),
        EguiCursorIcon::ResizeSouth => Some(SystemCursorIcon::SResize),
        EguiCursorIcon::ResizeSouthWest => Some(SystemCursorIcon::SwResize),
        EguiCursorIcon::ResizeWest => Some(SystemCursorIcon::WResize),
        EguiCursorIcon::ResizeNorthWest => Some(SystemCursorIcon::NwResize),
        EguiCursorIcon::ResizeNorth => Some(SystemCursorIcon::NResize),
        EguiCursorIcon::ResizeNorthEast => Some(SystemCursorIcon::NeResize),
        EguiCursorIcon::ResizeColumn => Some(SystemCursorIcon::ColResize),
        EguiCursorIcon::ResizeRow => Some(SystemCursorIcon::RowResize),
        EguiCursorIcon::NoCursor => None,
    }
}

/// The cursor that a window shows for egui's cursor: the mapped one, or the default cursor
/// where egui hides it.
pub fn window_cursor_icon(cursor_icon: EguiCursorIcon) -> (r: SystemCursorIcon)
    ensures
        r == (match cursor_icon_of(cursor_icon) {
            Some(c) => c,
            None => SystemCursorIcon::Default,
        }),
{
    match egui_to_winit_cursor_icon(cursor_icon) {
        Some(c) => c,
        None => SystemCursorIcon::Default,
    }
}

/// The browser target for a link that egui opens: a new tab (`_blank`) if egui asks for
/// one, else the configured default target, else the same tab (`_self`).
pub open spec fn open_url_target_spec(new_tab: bool, default_target: Option<Seq<char>>) -> Seq<char> {
    if new_tab {
        "_blank"@
    } else {
        match default_target {
            Some(t) => t,
            None => "_self"@,
        }
    }
}

/// The browser target for a link that egui opens (see `open_url_target_spec`).
pub fn open_url_target(new_tab: bool, default_open_url_target: &Option<String>) -> (r: String)
    ensures
        r@ == open_url_target_spec(new_tab, match default_open_url_target {
            Some(t) => Some(t@),
            None => None,
        }),
{
    if new_tab {
        let t = "_blank".to_string();
        proof {
            vstd::string::to_string_from_display_ensures_for_str("_blank", t);
        }
        t
    } else {
        match default_open_url_target {
            Some(t) => t.clone(),
            None => {
                let t = "_self".to_string();
                proof {
                    vstd::string::to_string_from_display_ensures_for_str("_self", t);
                }
                t
            },
        }
    }
}

/// Whether egui's copied text goes to the clipboard: only text that is not empty does.
pub fn should_copy_to_clipboard(copied_text: &str) -> (r: bool)
    ensures
        r == (copied_text@.len() > 0),
{
    !copied_text.is_empty()
}

/// Whether the frame asks for a redraw after a context's output: it does once any context
/// has requested a repaint while it has something to paint.
pub fn redraw_requested(requested_so_far: bool, has_requested_repaint: bool, needs_repaint: bool) -> (r: bool)
    ensures
        r == (requested_so_far || (has_requested_repaint && needs_repaint)),
{
    requested_so_far || (has_requested_repaint && needs_repaint)
}

/// Law: only egui's request to hide the cursor has no window cursor, and no two egui
/// cursors share a window cursor.
pub proof fn law_cursor_icons_distinct(a: EguiCursorIcon, b: EguiCursorIcon)
    ensures
        cursor_icon_of(a) is None <==> a == EguiCursorIcon::NoCursor,
        cursor_icon_of(a) is Some && cursor_icon_of(a) == cursor_icon_of(b) ==> a == b,
{
}

/// A link that egui asks to open.
#[derive(Clone, Debug, PartialEq, Eq)]
pub struct OpenUrl {
    /// The address.
    pub url: String,
    /// Whether egui asks for a new tab.
    pub new_tab: bool,
}

/// What one context's platform output asks for.
#[derive(Clone, Debug, PartialEq, Eq)]
pub struct ContextOutputActions {
    /// Put egui's copied text on the clipboard.
    pub copy_to_clipboard: bool,
    /// Set the window's cursor to this icon (only for a context with a window).
    pub cursor: Option<SystemCursorIcon>,
    /// Whether the frame asks for a redraw, counting the contexts handled before.
    pub redraw: bool,
    /// Open this address with the browser, in this target.
    pub open_url: Option<(String, String)>,
}

/// Decides what a context's platform output asks of the window system, the clipboard and
/// the browser: copied text that is not empty goes to the clipboard; a context with a
/// window sets its cursor to egui's cursor (the default cursor where egui hides it); the
/// frame asks for a redraw once a context requested a repaint while it has something to
/// paint; a link egui opens goes to the browser in the target of `open_url_target_spec`.
pub fn context_output_actions(
    copied_text: &str,
    cursor_icon: EguiCursorIcon,
    has_window: bool,
    redraw_so_far: bool,
    has_requested_repaint: bool,
    needs_repaint: bool,
    open_url: Option<OpenUrl>,
    default_open_url_target: &Option<String>,
) -> (r: ContextOutputActions)
    ensures
        r.copy_to_clipboard == (copied_text@.len() > 0),
        r.cursor == (if has_window {
            Some(match cursor_icon_of(cursor_icon) {
                Some(c) => c,
                None => SystemCursorIcon::Default,
            })
        } else {
            None
        }),
        r.redraw == (redraw_so_far || (has_requested_repaint && needs_repaint)),
        r.open_url is Some <==> open_url is Some,
        r.open_url matches Some((url, target)) ==> url == open_url.unwrap().url && target@ == open_url_target_spec(
            open_url.unwrap().new_tab,
            match default_open_url_target {
                Some(t) => Some(t@),
                None => None,
            },
        ),
{
    let cursor = if has_window { Some(window_cursor_icon(cursor_icon)) } else { None };
    let open = match open_url {
        Some(o) => {
            let target = open_url_target(o.new_tab, default_open_url_target);
            Some((o.url, target))
        },
        None => None,
    };
    ContextOutputActions {
        copy_to_clipboard: should_copy_to_clipboard(copied_text),
        cursor,
        redraw: redraw_requested(redraw_so_far, has_requested_repaint, needs_repaint),
        open_url: open,
    }
}

/// Law: every egui cursor is shown as the window cursor of the same meaning: the pointing
/// hand as the pointer, each resize cursor as the resize cursor of its direction (vertical as
/// north-south, horizontal as east-west, a column as the column cursor, a row as the row
/// cursor, each edge and corner as its own), every other cursor as the cursor of its name;
/// a hidden cursor has none.
pub proof fn law_cursor_icons_keep_their_meaning()
    ensures
        cursor_icon_of(EguiCursorIcon::Default) == Some(SystemCursorIcon::Default),
        cursor_icon_of(EguiCursorIcon::PointingHand) == Some(SystemCursorIcon::Pointer),
        cursor_icon_of(EguiCursorIcon::ResizeHorizontal) == Some(SystemCursorIcon::EwResize),
        cursor_icon_of(EguiCursorIcon::ResizeNeSw) == Some(SystemCursorIcon::NeswResize),
        cursor_icon_of(EguiCursorIcon::ResizeNwSe) == Some(SystemCursorIcon::NwseResize),
        cursor_icon_of(EguiCursorIcon::ResizeVertical) == Some(SystemCursorIcon::NsResize),
        cursor_icon_of(EguiCursorIcon::Text) == Some(SystemCursorIcon::Text),
        cursor_icon_of(EguiCursorIcon::Grab) == Some(SystemCursorIcon::Grab),
        cursor_icon_of(EguiCursorIcon::Grabbing) == Some(SystemCursorIcon::Grabbing),
        cursor_icon_of(EguiCursorIcon::ContextMenu) == Some(SystemCursorIcon::ContextMenu),
        cursor_icon_of(EguiCursorIcon::Help) == Some(SystemCursorIcon::Help),
        cursor_icon_of(EguiCursorIcon::Progress) == Some(SystemCursorIcon::Progress),
        cursor_icon_of(EguiCursorIcon::Wait) == Some(SystemCursorIcon::Wait),
        cursor_icon_of(EguiCursorIcon::Cell) == Some(SystemCursorIcon::Cell),
        cursor_icon_of(EguiCursorIcon::Crosshair) == Some(SystemCursorIcon::Crosshair),
        cursor_icon_of(EguiCursorIcon::VerticalText) == Some(SystemCursorIcon::VerticalText),
        cursor_icon_of(EguiCursorIcon::Alias) == Some(SystemCursorIcon::Alias),
        cursor_icon_of(EguiCursorIcon::Copy) == Some(SystemCursorIcon::Copy),
        cursor_icon_of(EguiCursorIcon::Move) == Some(SystemCursorIcon::Move),
        cursor_icon_of(EguiCursorIcon::NoDrop) == Some(SystemCursorIcon::NoDrop),
        cursor_icon_of(EguiCursorIcon::NotAllowed) == Some(SystemCursorIcon::NotAllowed),
        cursor_icon_of(EguiCursorIcon::AllScroll) == Some(SystemCursorIcon::AllScroll),
        cursor_icon_of(EguiCursorIcon::ZoomIn) == Some(SystemCursorIcon::ZoomIn),
        cursor_icon_of(EguiCursorIcon::ZoomOut) == Some(SystemCursorIcon::ZoomOut),
        cursor_icon_of(EguiCursorIcon::ResizeEast) == Some(SystemCursorIcon::EResize),
        cursor_icon_of(EguiCursorIcon::ResizeSouthEast) == Some(SystemCursorIcon::SeResize),
        cursor_icon_of(EguiCursorIcon::ResizeSouth) == Some(SystemCursorIcon::SResize),
        cursor_icon_of(EguiCursorIcon::ResizeSouthWest) == Some(SystemCursorIcon::SwResize),
        cursor_icon_of(EguiCursorIcon::ResizeWest) == Some(SystemCursorIcon::WResize),
        cursor_icon_of(EguiCursorIcon::ResizeNorthWest) == Some(SystemCursorIcon::NwResize),
        cursor_icon_of(EguiCursorIcon::ResizeNorth) == Some(SystemCursorIcon::NResize),
        cursor_icon_of(EguiCursorIcon::ResizeNorthEast) == Some(SystemCursorIcon::NeResize),
        cursor_icon_of(EguiCursorIcon::ResizeColumn) == Some(SystemCursorIcon::ColResize),
        cursor_icon_of(EguiCursorIcon::ResizeRow) == Some(SystemCursorIcon::RowResize),
        cursor_icon_of(EguiCursorIcon::NoCursor) is None,
{
}

} // verus!
