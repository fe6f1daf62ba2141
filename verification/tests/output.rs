use bevy_egui::output::{
    context_output_actions, egui_to_winit_cursor_icon, open_url_target, redraw_requested,
    should_copy_to_clipboard, window_cursor_icon, EguiCursorIcon, OpenUrl, SystemCursorIcon,
};

#[test]
fn cursor_icons_map_to_window_cursors() {
    assert_eq!(egui_to_winit_cursor_icon(EguiCursorIcon::PointingHand), Some(SystemCursorIcon::Pointer));
    assert_eq!(egui_to_winit_cursor_icon(EguiCursorIcon::ResizeHorizontal), Some(SystemCursorIcon::EwResize));
    assert_eq!(egui_to_winit_cursor_icon(EguiCursorIcon::ResizeNwSe), Some(SystemCursorIcon::NwseResize));
    assert_eq!(egui_to_winit_cursor_icon(EguiCursorIcon::Text), Some(SystemCursorIcon::Text));
    assert_eq!(egui_to_winit_cursor_icon(EguiCursorIcon::NoCursor), None);
    assert_eq!(window_cursor_icon(EguiCursorIcon::NoCursor), SystemCursorIcon::Default);
    assert_eq!(window_cursor_icon(EguiCursorIcon::Grab), SystemCursorIcon::Grab);
}

#[test]
fn open_url_targets() {
    assert_eq!(open_url_target(true, &Some("_parent".to_string())), "_blank");
    assert_eq!(open_url_target(false, &Some("_parent".to_string())), "_parent");
    assert_eq!(open_url_target(false, &None), "_self");
}

#[test]
fn clipboard_and_redraw_decisions() {
    assert!(should_copy_to_clipboard("x"));
    assert!(!should_copy_to_clipboard(""));
    assert!(redraw_requested(true, false, false));
    assert!(redraw_requested(false, true, true));
    assert!(!redraw_requested(false, true, false));
    assert!(!redraw_requested(false, false, true));
}

#[test]
fn context_output_is_decided_together() {
    let a = context_output_actions(
        "copied",
        EguiCursorIcon::Wait,
        true,
        false,
        true,
        true,
        Some(OpenUrl { url: "https://example.org".to_string(), new_tab: false }),
        &None,
    );
    assert!(a.copy_to_clipboard);
    assert_eq!(a.cursor, Some(SystemCursorIcon::Wait));
    assert!(a.redraw);
    assert_eq!(a.open_url, Some(("https://example.org".to_string(), "_self".to_string())));
    let b = context_output_actions("", EguiCursorIcon::Wait, false, false, false, true, None, &None);
    assert!(!b.copy_to_clipboard);
    assert_eq!(b.cursor, None);
    assert!(!b.redraw);
    assert_eq!(b.open_url, None);
}
