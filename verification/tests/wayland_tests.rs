use leftwm_display_servers::models::FocusBehaviour;
use leftwm_display_servers::registry::{ManagedWindow, Rect, WindowRegisty};
use leftwm_display_servers::wayland::{
    border_color, border_geometry, config_color, filter_key, next_output_x, preferred_mode, render_layers,
    screencopy_buffer_matches, window_border_state, BorderConfig, InternalAction, KeyAction, KeyModifiers, KeyState,
    LayerKind, LeftwmConfig, SmithayState, SmithayWindowHandle, WaylandEffect, WindowState, WindowUpdate,
    KEY_Q, KEY_RETURN, KEY_SWITCH_VT_1,
};

fn borders() -> BorderConfig {
    BorderConfig {
        border_width: 2,
        default_border_color: [1, 2, 3],
        floating_border_color: [4, 5, 6],
        focused_border_color: [7, 8, 9],
    }
}

fn config(focus: FocusBehaviour) -> LeftwmConfig {
    LeftwmConfig { focus_behavior: focus, sloppy_mouse_follows_focus: false, borders: borders() }
}

fn window_at(x: i32, y: i32, w: i32, h: i32) -> ManagedWindow {
    let mut win = ManagedWindow::from_window();
    win.set_geometry(Rect { x, y, w, h });
    win
}

fn state_with(windows: Vec<ManagedWindow>, focus: FocusBehaviour) -> SmithayState {
    let mut registry = WindowRegisty::new();
    for w in windows {
        registry.insert(w);
    }
    SmithayState { window_registry: registry, focused_window: None, config: config(focus) }
}

#[test]
fn window_handle_defaults_to_zero() {
    assert_eq!(SmithayWindowHandle::default(), SmithayWindowHandle(0));
}

#[test]
fn border_colour_follows_state() {
    let b = borders();
    assert_eq!(border_color(&b, WindowState::Focused), [7, 8, 9]);
    assert_eq!(border_color(&b, WindowState::Floating), [4, 5, 6]);
    assert_eq!(border_color(&b, WindowState::Default), [1, 2, 3]);
}

#[test]
fn border_box_grows_by_width() {
    let r = border_geometry(Rect { x: 10, y: 20, w: 100, h: 50 }, 3);
    assert_eq!(r, Rect { x: 7, y: 17, w: 106, h: 56 });
}

#[test]
fn border_wraps_placement_on_values() {
    // The window manager gives (5, 6, 40, 30); the content box is inside a
    // border of 2; the border box is the given box again.
    let mut s = state_with(vec![ManagedWindow::from_window()], FocusBehaviour::Sloppy);
    let mut effects = Vec::new();
    let u = WindowUpdate {
        handle: 0,
        is_surface: false,
        x: 5,
        y: 6,
        width: 40,
        height: 30,
        floating: false,
        visible: true,
    };
    s.handle_action(InternalAction::UpdateWindows(vec![u]), &mut effects);
    let g = s.window_registry.get(0).unwrap().geometry.unwrap();
    assert_eq!(g, Rect { x: 7, y: 8, w: 36, h: 26 });
    assert_eq!(border_geometry(g, 2), Rect { x: 5, y: 6, w: 40, h: 30 });
}

#[test]
fn config_colours_read_hex_and_fall_back() {
    assert_eq!(config_color("ff8000", [0, 0, 0]), [255, 128, 0]);
    assert_eq!(config_color("A0b1C2", [0, 0, 0]), [0xa0, 0xb1, 0xc2]);
    // A leading '#' is not skipped.
    assert_eq!(config_color("#ff8000", [9, 9, 9]), [9, 9, 9]);
    assert_eq!(config_color("ff80", [1, 1, 1]), [1, 1, 1]);
    let c = LeftwmConfig::from_settings(FocusBehaviour::ClickTo, true, 4, "010203", "zz", "");
    assert_eq!(c.borders.default_border_color, [1, 2, 3]);
    assert_eq!(c.borders.floating_border_color, [0, 0, 0]);
    assert_eq!(c.borders.focused_border_color, [255, 0, 0]);
    assert_eq!(c.borders.border_width, 4);
    assert!(c.sloppy_mouse_follows_focus);
    assert_eq!(c.focus_behavior, FocusBehaviour::ClickTo);
}

#[test]
fn update_windows_places_and_configures() {
    let mut s = state_with(
        vec![ManagedWindow::from_window(), ManagedWindow::from_window()],
        FocusBehaviour::Sloppy,
    );
    let mut effects = Vec::new();
    let ups = vec![
        WindowUpdate { handle: 1, is_surface: true, x: 0, y: 0, width: 1, height: 1, floating: true, visible: true },
        WindowUpdate { handle: 1, is_surface: false, x: 0, y: 0, width: 100, height: 80, floating: true, visible: false },
    ];
    s.handle_action(InternalAction::UpdateWindows(ups), &mut effects);
    assert_eq!(
        effects,
        vec![
            WaylandEffect::Configure { handle: 1, width: 96, height: 76 },
            WaylandEffect::Configure { handle: 1, width: 100, height: 80 },
        ]
    );
    let w = s.window_registry.get(1).unwrap();
    assert_eq!(w.geometry, Some(Rect { x: 2, y: 2, w: 96, h: 76 }));
    assert!(w.floating);
    assert!(!w.visible);
    assert_eq!(s.window_registry.get(0).unwrap().geometry, None);
}

#[test]
fn update_windows_stops_at_unknown_handle() {
    let mut s = state_with(vec![ManagedWindow::from_window()], FocusBehaviour::Sloppy);
    let mut effects = Vec::new();
    let ups = vec![
        WindowUpdate { handle: 7, is_surface: false, x: 0, y: 0, width: 10, height: 10, floating: false, visible: true },
        WindowUpdate { handle: 0, is_surface: false, x: 0, y: 0, width: 10, height: 10, floating: false, visible: true },
    ];
    s.handle_action(InternalAction::UpdateWindows(ups), &mut effects);
    assert!(effects.is_empty());
    assert_eq!(s.window_registry.get(0).unwrap().geometry, None);
}

#[test]
fn simple_actions() {
    let mut s = state_with(vec![window_at(10, 10, 100, 51)], FocusBehaviour::ClickTo);
    let mut effects = Vec::new();
    s.handle_action(InternalAction::Flush, &mut effects);
    s.handle_action(InternalAction::GenerateVerifyFocusEvent, &mut effects);
    s.handle_action(InternalAction::KillWindow(0), &mut effects);
    s.handle_action(InternalAction::KillWindow(5), &mut effects);
    s.handle_action(InternalAction::MoveMouseOverPoint(3, -4), &mut effects);
    s.handle_action(InternalAction::MoveMouseOver(0, false), &mut effects);
    s.handle_action(InternalAction::Ignored, &mut effects);
    assert_eq!(
        effects,
        vec![
            WaylandEffect::FlushClients,
            WaylandEffect::SendClose(0),
            WaylandEffect::PointerTo(3, -4),
            WaylandEffect::PointerTo(60, 35),
        ]
    );
}

#[test]
fn added_window_is_managed_and_focused() {
    let mut s = state_with(vec![ManagedWindow::from_window()], FocusBehaviour::ClickTo);
    let mut effects = Vec::new();
    s.handle_action(InternalAction::AddedWindow(0, true, true), &mut effects);
    let w = s.window_registry.get(0).unwrap();
    assert!(w.managed);
    assert!(w.floating);
    assert_eq!(s.focused_window, Some(0));
    assert_eq!(effects, vec![WaylandEffect::FocusKeyboard(0), WaylandEffect::PointerToWindowCenter(0)]);
    effects.clear();
    s.handle_action(InternalAction::GenerateVerifyFocusEvent, &mut effects);
    assert_eq!(effects, vec![WaylandEffect::VerifyFocusedAt(0)]);
    effects.clear();
    // The focused window gets the pointer only when forced.
    s.handle_action(InternalAction::MoveMouseOver(0, false), &mut effects);
    assert!(effects.is_empty());
}

#[test]
fn take_focus_ignores_unknown_window() {
    let mut s = state_with(vec![ManagedWindow::from_window()], FocusBehaviour::ClickTo);
    let mut effects = Vec::new();
    s.handle_action(InternalAction::WindowTakeFocus(9), &mut effects);
    assert_eq!(s.focused_window, None);
    assert!(effects.is_empty());
    s.handle_action(InternalAction::WindowTakeFocus(0), &mut effects);
    assert_eq!(s.focused_window, Some(0));
    assert_eq!(effects, vec![WaylandEffect::FocusKeyboard(0)]);
}

#[test]
fn sloppy_focus_follows_window_under_pointer() {
    let mut s = state_with(vec![ManagedWindow::from_window(), ManagedWindow::from_window()], FocusBehaviour::Sloppy);
    let under = *s.window_registry.get(1).unwrap();
    let mut effects = Vec::new();
    s.handle_action(InternalAction::FocusWindowUnderCursor(Some(under)), &mut effects);
    assert_eq!(s.focused_window, Some(1));
    assert_eq!(effects, vec![WaylandEffect::FocusKeyboard(1)]);
    // Already focused: nothing more.
    s.handle_action(InternalAction::FocusWindowUnderCursor(Some(under)), &mut effects);
    assert_eq!(effects.len(), 1);
    // Click-to-focus ignores the pointer.
    let mut c = state_with(vec![ManagedWindow::from_window()], FocusBehaviour::ClickTo);
    let under = *c.window_registry.get(0).unwrap();
    let mut e2 = Vec::new();
    c.focus_window_under(Some(under), &mut e2);
    assert_eq!(c.focused_window, None);
    assert!(e2.is_empty());
}

#[test]
fn update_config_replaces_config() {
    let mut s = state_with(vec![], FocusBehaviour::ClickTo);
    let mut effects = Vec::new();
    s.handle_action(InternalAction::UpdateConfig(config(FocusBehaviour::Sloppy)), &mut effects);
    assert_eq!(s.config.focus_behavior, FocusBehaviour::Sloppy);
    assert!(effects.is_empty());
}

#[test]
fn registry_insert_get_remove() {
    let mut r = WindowRegisty::new();
    let a = r.insert(ManagedWindow::from_window());
    let b = r.insert(ManagedWindow::from_surface());
    assert_eq!((a, b), (0, 1));
    assert_eq!(r.get(a).unwrap().get_handle(), Some(0));
    assert!(r.get(b).unwrap().is_wlr_surface());
    let removed = r.remove(a).unwrap();
    assert_eq!(removed.handle, Some(0));
    assert!(r.get(a).is_none());
    assert!(r.remove(a).is_none());
    // Handles are not reused.
    let c = r.insert(ManagedWindow::from_window());
    assert_eq!(c, 2);
    let mut hs = r.handles();
    hs.sort();
    assert_eq!(hs, vec![1, 2]);
}

#[test]
fn registry_keeps_an_existing_handle() {
    let mut r = WindowRegisty::new();
    let mut w = ManagedWindow::from_window();
    w.set_handle(42);
    w.set_handle(7);
    assert_eq!(w.get_handle(), Some(42));
    let k = r.insert(w);
    assert_eq!(k, 0);
    assert_eq!(r.get(0).unwrap().handle, Some(42));
}

#[test]
fn registry_get_mut_changes_in_place() {
    let mut r = WindowRegisty::new();
    let k = r.insert(ManagedWindow::from_window());
    r.get_mut(k).unwrap().visible = true;
    assert!(r.get(k).unwrap().visible);
    assert!(r.get_mut(99).is_none());
}

#[test]
fn registry_window_under_and_in_rect() {
    let mut r = WindowRegisty::new();
    r.insert(window_at(0, 0, 10, 10));
    r.insert(window_at(100, 100, 10, 10));
    r.insert(ManagedWindow::from_window());
    let (w, corner) = r.window_under(105, 109).unwrap();
    assert_eq!(w.handle, Some(1));
    assert_eq!(corner, (100, 100));
    assert!(r.window_under(10, 5).is_none());
    let inside = r.windows_in_rect(&Rect { x: 5, y: 5, w: 20, h: 20 });
    assert_eq!(inside.len(), 1);
    assert_eq!(inside[0].handle, Some(0));
    // Touching edges overlap.
    let touching = r.windows_in_rect(&Rect { x: 110, y: 110, w: 5, h: 5 });
    assert_eq!(touching.len(), 1);
}

#[test]
fn registry_clean_drops_dead_windows() {
    let mut r = WindowRegisty::new();
    let mut dead = ManagedWindow::from_window();
    dead.alive = false;
    r.insert(dead);
    r.insert(ManagedWindow::from_window());
    r.clean();
    assert!(r.get(0).is_none());
    assert!(r.get(1).is_some());
}

#[test]
fn rect_contains_and_overlaps() {
    let a = Rect { x: 0, y: 0, w: 10, h: 10 };
    assert!(a.contains(0, 0));
    assert!(a.contains(9, 9));
    assert!(!a.contains(10, 9));
    assert!(a.overlaps(&Rect { x: 10, y: 10, w: 1, h: 1 }));
    assert!(!a.overlaps(&Rect { x: 11, y: 0, w: 1, h: 1 }));
    // Sums saturate rather than wrap.
    let big = Rect { x: i32::MAX - 1, y: 0, w: 10, h: 10 };
    assert!(big.contains(i32::MAX - 1, 0));
}

#[test]
fn windows_compare_by_handle() {
    let a = ManagedWindow::from_window();
    let b = a;
    // Without a handle a window equals no window, not even itself.
    assert!(a != b);
    let mut c = ManagedWindow::from_window();
    c.set_handle(3);
    let mut d = ManagedWindow::from_surface();
    d.set_handle(3);
    assert!(c == d);
    d.visible = true;
    assert!(c == d);
    let mut e = ManagedWindow::from_window();
    e.set_handle(4);
    assert!(c != e);
}

#[test]
fn border_state_of_windows() {
    let mut w = ManagedWindow::from_window();
    // No handle and nothing focused: drawn as focused.
    assert_eq!(window_border_state(&w, None), WindowState::Focused);
    w.set_handle(2);
    assert_eq!(window_border_state(&w, Some(2)), WindowState::Focused);
    assert_eq!(window_border_state(&w, None), WindowState::Default);
    w.floating = true;
    assert_eq!(window_border_state(&w, Some(3)), WindowState::Floating);
}

#[test]
fn layers_split_around_windows() {
    let layers = [LayerKind::Background, LayerKind::Top, LayerKind::Bottom, LayerKind::Overlay];
    let (upper, lower) = render_layers(&layers);
    assert_eq!(upper, vec![3, 1]);
    assert_eq!(lower, vec![2, 0]);
    let (upper, lower) = render_layers(&[]);
    assert!(upper.is_empty() && lower.is_empty());
}

#[test]
fn screencopy_buffers() {
    assert!(screencopy_buffer_matches(true, 400, 50, 100, 50, 20000));
    assert!(!screencopy_buffer_matches(false, 400, 50, 100, 50, 20000));
    assert!(!screencopy_buffer_matches(true, 404, 50, 100, 50, 20200));
    assert!(!screencopy_buffer_matches(true, 400, 49, 100, 50, 19600));
    assert!(!screencopy_buffer_matches(true, 400, 50, 100, 50, 20001));
}

#[test]
fn keys_are_filtered() {
    let none = KeyModifiers { caps_lock: false, num_lock: true, logo: false, shift: false };
    let super_shift = KeyModifiers { caps_lock: true, num_lock: false, logo: true, shift: true };
    let d = filter_key(KeyState::Pressed, super_shift, KEY_RETURN);
    assert_eq!(d.action, KeyAction::SpawnTerminal);
    assert!(d.caps_led && !d.num_led);
    assert_eq!(filter_key(KeyState::Pressed, super_shift, KEY_Q).action, KeyAction::Exit);
    assert_eq!(filter_key(KeyState::Pressed, none, KEY_Q).action, KeyAction::Forward);
    assert_eq!(filter_key(KeyState::Pressed, none, KEY_SWITCH_VT_1 + 2).action, KeyAction::SwitchVt(3));
    assert_eq!(filter_key(KeyState::Pressed, none, KEY_SWITCH_VT_1 + 12).action, KeyAction::Forward);
    let up = filter_key(KeyState::Released, super_shift, KEY_Q);
    assert_eq!(up.action, KeyAction::Forward);
    assert!(up.caps_led);
}

#[test]
fn outputs_modes_and_positions() {
    assert_eq!(preferred_mode(&[false, true, true]), 1);
    assert_eq!(preferred_mode(&[false, false]), 0);
    assert_eq!(preferred_mode(&[]), 0);
    assert_eq!(next_output_x(&[1920, 1280]), 3200);
    assert_eq!(next_output_x(&[]), 0);
}

#[test]
fn focus_window_moves_pointer_on_request() {
    let mut s = state_with(vec![ManagedWindow::from_window()], FocusBehaviour::ClickTo);
    let mut effects = Vec::new();
    s.focus_window(0, true, &mut effects);
    assert_eq!(s.focused_window, Some(0));
    assert_eq!(effects, vec![WaylandEffect::FocusKeyboard(0), WaylandEffect::PointerToWindowCenter(0)]);
    s.focus_window(8, true, &mut effects);
    assert_eq!(s.focused_window, Some(0));
    assert_eq!(effects.len(), 2);
}

#[test]
fn windows_in_rect_lists_each_once() {
    let mut r = WindowRegisty::new();
    r.insert(window_at(0, 0, 10, 10));
    r.insert(window_at(5, 5, 10, 10));
    r.insert(window_at(500, 500, 10, 10));
    let mut hs: Vec<usize> = r.windows_in_rect(&Rect { x: 0, y: 0, w: 20, h: 20 }).iter().map(|w| w.handle.unwrap()).collect();
    hs.sort();
    assert_eq!(hs, vec![0, 1]);
}

#[test]
fn handles_follow_the_number_of_inserts() {
    let mut r = WindowRegisty::new();
    let mut handles = Vec::new();
    for i in 0..6 {
        handles.push(r.insert(ManagedWindow::from_window()));
        if i % 2 == 0 {
            let last = *handles.last().unwrap();
            assert!(r.remove(last).is_some());
        }
        r.clean();
    }
    assert_eq!(handles, vec![0, 1, 2, 3, 4, 5]);
    let mut hs = r.handles();
    hs.sort();
    assert_eq!(hs, vec![1, 3, 5]);
}
