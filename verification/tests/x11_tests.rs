use leftwm_display_servers::actions::{
    can_send_xevent_atom, focus_window_under_cursor, grab_mouse_clicks, move_cursor_to_point, pad_event, restack,
    set_window_order, should_manage_existing, should_move_mouse_over, state_atom, window_center, BUTTON_1, BUTTON_3,
    MOD_2, MOD_ANY, MOD_LOCK, MOD_SHIFT,
};
use leftwm_display_servers::dock::get_screens_area_dimensions;
use leftwm_display_servers::error::ErrorKind;
use leftwm_display_servers::events::{
    from_button_press, ButtonPress, ClientMessage, ClientMessageAction, ConfigureRequest, EnterNotify, MotionNotify,
    PropertyNotify, XEvent, XState,
};
use leftwm_display_servers::hints::{
    get_hint_sizing_as_xyhw, get_hint_sizing_as_xyhw_xlib, never_focus, urgency_flags, wm_hints_from_xlib, SizeHints,
    WmHints, XSizeHints, XWmHints, P_MAX_SIZE, P_MIN_SIZE, P_SIZE, URGENCY_HINT, INPUT_HINT,
};
use leftwm_display_servers::mode::{set_mode, CursorKind};
use leftwm_display_servers::models::{
    BBox, Command, DisplayEvent, DockArea, FocusBehaviour, Mode, Screen, WindowChange, WindowHandle, WindowState,
    WindowType, Xyhw, XyhwChange, NO_MAX, NO_MIN,
};
use leftwm_display_servers::notify::{configure_request_event, dock_geometry, PropertyKind};
use leftwm_display_servers::props::{
    dock_area_from_longs, dock_area_from_values, get_window_states, get_window_states_xlib, get_window_type,
    get_wm_state, strut_values,
};
use leftwm_display_servers::screens::{initial_screens, screen_from_crtc, WorkspaceConfig};
use leftwm_display_servers::setters::{
    desktop_names, opaque_color, set_current_desktop, set_state, set_window_desktop, set_window_desktop_xlib,
};
use leftwm_display_servers::states::{fullscreen_states, insert_sorted, sorted_dedup, FullscreenRequest};
use leftwm_display_servers::xatom::{AtomCollection, InvalidWindowState, WMStateWindowState};

fn atoms() -> AtomCollection {
    AtomCollection {
        WMProtocols: 101,
        WMDelete: 102,
        WMState: 103,
        WMClass: 104,
        WMTakeFocus: 105,
        NetActiveWindow: 106,
        NetSupported: 107,
        NetWMName: 108,
        NetWMPid: 109,
        NetWMState: 110,
        NetWMStateModal: 111,
        NetWMStateSticky: 112,
        NetWMStateMaximizedVert: 113,
        NetWMStateMaximizedHorz: 114,
        NetWMStateShaded: 115,
        NetWMStateSkipTaskbar: 116,
        NetWMStateSkipPager: 117,
        NetWMStateHidden: 118,
        NetWMStateFullscreen: 119,
        NetWMStateAbove: 120,
        NetWMStateBelow: 121,
        NetWMStateDemandsAttention: 122,
        NetWMAction: 123,
        NetWMActionMove: 124,
        NetWMActionResize: 125,
        NetWMActionMinimize: 126,
        NetWMActionShade: 127,
        NetWMActionStick: 128,
        NetWMActionMaximizeHorz: 129,
        NetWMActionMaximizeVert: 130,
        NetWMActionFullscreen: 131,
        NetWMActionChangeDesktop: 132,
        NetWMActionClose: 133,
        NetWMWindowType: 134,
        NetWMWindowTypeDesktop: 135,
        NetWMWindowTypeDock: 136,
        NetWMWindowTypeToolbar: 137,
        NetWMWindowTypeMenu: 138,
        NetWMWindowTypeUtility: 139,
        NetWMWindowTypeSplash: 140,
        NetWMWindowTypeDialog: 141,
        NetSupportingWmCheck: 142,
        NetClientList: 143,
        NetDesktopViewport: 144,
        NetNumberOfDesktops: 145,
        NetCurrentDesktop: 146,
        NetDesktopNames: 147,
        NetWMDesktop: 148,
        NetWMStrutPartial: 149,
        NetWMStrut: 150,
        UTF8String: 151,
        WMNormalHints: 152,
        WMSizeHints: 153,
    }
}

fn xstate(managed: Vec<u32>, mode: Mode, focus: FocusBehaviour) -> XState {
    XState {
        root: 1,
        atoms: atoms(),
        managed_windows: managed,
        focused_window: 0,
        mode,
        focus_behaviour: focus,
        mouse_key_mask: 8,
        mode_origin: (100, 100),
        motion_event_limiter: 0,
        refresh_rate: 60,
    }
}

#[test]
fn atom_names_and_supported_list() {
    let a = atoms();
    assert_eq!(a.get_name(119), "_NET_WM_STATE_FULLSCREEN");
    assert_eq!(a.get_name(101), "WM_PROTOCOLS");
    assert_eq!(a.get_name(9999), "(UNKNOWN)");
    let supported = a.net_supported();
    assert!(supported.contains(&a.NetActiveWindow));
    assert!(!supported.contains(&a.WMProtocols));
}

#[test]
fn wm_state_values_round_trip() {
    for s in [WMStateWindowState::Withdrawn, WMStateWindowState::Normal, WMStateWindowState::Iconic] {
        let code: u32 = s.into();
        assert_eq!(WMStateWindowState::try_from(&code), Ok(s));
    }
    assert_eq!(u32::from(WMStateWindowState::Iconic), 2);
    assert_eq!(WMStateWindowState::try_from(&3u32), Err(InvalidWindowState));
    assert_eq!(get_wm_state(Some(&[2, 55][..])), (WMStateWindowState::Iconic, Some(55)));
    assert_eq!(get_wm_state(Some(&[7][..])), (WMStateWindowState::Normal, None));
    assert_eq!(get_wm_state(None), (WMStateWindowState::Normal, None));
}

#[test]
fn window_states_from_atoms() {
    let a = atoms();
    assert_eq!(
        get_window_states(&a, &[119, 111, 5]),
        vec![WindowState::Fullscreen, WindowState::Modal, WindowState::Modal]
    );
    assert_eq!(
        get_window_states_xlib(&a, &[113, 114, 112]),
        vec![WindowState::Sticky, WindowState::Maximized]
    );
    assert_eq!(get_window_states_xlib(&a, &[113, 120]), vec![WindowState::MaximizedVert, WindowState::Above]);
    // Maximized both ways: the two atoms give way to one `Maximized` at the end.
    assert_eq!(
        get_window_states_xlib(&a, &[120, 113, 119, 114, 5]),
        vec![WindowState::Above, WindowState::Fullscreen, WindowState::Modal, WindowState::Maximized]
    );
}

#[test]
fn state_atoms_round_trip() {
    let a = atoms();
    assert_eq!(state_atom(&a, WindowState::Fullscreen), Some(119));
    assert_eq!(state_atom(&a, WindowState::Maximized), None);
    let back = get_window_states(&a, &[state_atom(&a, WindowState::Hidden).unwrap()]);
    assert_eq!(back, vec![WindowState::Hidden]);
}

#[test]
fn window_types() {
    let a = atoms();
    assert_eq!(get_window_type(&a, Some(136)), WindowType::Dock);
    assert_eq!(get_window_type(&a, Some(141)), WindowType::Dialog);
    assert_eq!(get_window_type(&a, Some(1)), WindowType::Normal);
    assert_eq!(get_window_type(&a, None), WindowType::Normal);
}

#[test]
fn struts() {
    let v: Vec<i32> = (1..=12).collect();
    let d = dock_area_from_values(&v);
    assert_eq!((d.left, d.top, d.bottom_end_x), (1, 3, 12));
    assert_eq!(strut_values(&[u32::MAX, 5]), vec![-1, 5]);
    let longs: Vec<i64> = (1..=12).map(|x| x + (1 << 32)).collect();
    assert_eq!(dock_area_from_longs(&longs), Some(d));
    assert_eq!(dock_area_from_longs(&longs[..4]), None);
}

#[test]
fn size_hints() {
    let h = SizeHints {
        position: Some((3, 4)),
        size: Some((0, 50)),
        min_size: Some((10, 60)),
        max_size: Some((200, 300)),
        size_increment: None,
        base_size: None,
    };
    let c = get_hint_sizing_as_xyhw(Some(h)).unwrap();
    assert_eq!(c.x, Some(3));
    assert_eq!(c.y, Some(4));
    assert_eq!(c.w, Some(10));
    assert_eq!(c.h, Some(60));
    assert_eq!((c.minw, c.maxw, c.minh, c.maxh), (Some(10), Some(200), Some(60), Some(300)));
    assert_eq!(get_hint_sizing_as_xyhw(None), None);
    let zero = SizeHints { position: None, size: Some((0, 0)), min_size: None, max_size: None, size_increment: None, base_size: None };
    let c = get_hint_sizing_as_xyhw(Some(zero)).unwrap();
    assert_eq!((c.w, c.h), (None, None));
    let x = XSizeHints {
        flags: P_SIZE | P_MIN_SIZE | P_MAX_SIZE,
        x: 9,
        y: 9,
        width: 100,
        height: 20,
        min_width: 50,
        min_height: 30,
        max_width: 400,
        max_height: 500,
        width_inc: 0,
        height_inc: 0,
        base_width: 0,
        base_height: 0,
    };
    let c = get_hint_sizing_as_xyhw_xlib(Some(x)).unwrap();
    assert_eq!((c.x, c.w, c.h), (None, Some(100), Some(30)));
    assert_eq!((c.minw, c.maxh), (Some(50), Some(500)));
}

#[test]
fn wm_hints() {
    assert!(never_focus(Some(WmHints { input: Some(false), urgent: false })));
    assert!(!never_focus(Some(WmHints { input: None, urgent: true })));
    assert!(!never_focus(None));
    let h = wm_hints_from_xlib(XWmHints { flags: INPUT_HINT | URGENCY_HINT, input: 0 });
    assert_eq!(h, WmHints { input: Some(false), urgent: true });
    let h = wm_hints_from_xlib(XWmHints { flags: 0, input: 1 });
    assert_eq!(h, WmHints { input: None, urgent: false });
    assert_eq!(urgency_flags(1, true), Some(257));
    assert_eq!(urgency_flags(257, true), None);
    assert_eq!(urgency_flags(257, false), Some(1));
}

#[test]
fn mode_changes() {
    let root = WindowHandle(1);
    let w = WindowHandle(5);
    let s = set_mode(Mode::Normal, Mode::ReadyToMove(w), root);
    assert_eq!(s.mode, Mode::ReadyToMove(w));
    assert!(s.record_origin && !s.ungrab_pointer);
    assert_eq!(s.grab_pointer, Some(CursorKind::Move));
    let s = set_mode(Mode::ReadyToMove(w), Mode::MovingWindow(w), root);
    assert_eq!(s.mode, Mode::MovingWindow(w));
    assert!(s.ungrab_pointer);
    // The root is never moved.
    let s = set_mode(Mode::Normal, Mode::ReadyToResize(root), root);
    assert_eq!(s.mode, Mode::Normal);
    assert_eq!(s.grab_pointer, None);
    // A move proceeds only on the window made ready.
    let s = set_mode(Mode::ReadyToMove(w), Mode::MovingWindow(WindowHandle(6)), root);
    assert_eq!(s.mode, Mode::ReadyToMove(w));
    let s = set_mode(Mode::ResizingWindow(w), Mode::Normal, root);
    assert_eq!(s.mode, Mode::Normal);
    assert!(s.ungrab_pointer);
}

#[test]
fn event_filtering_by_mode() {
    let normal = xstate(vec![], Mode::Normal, FocusBehaviour::ClickTo);
    let enter = XEvent::EnterNotify(EnterNotify { event: 5, mode: 0, detail: 0 });
    assert!(!normal.handles(&enter));
    assert!(normal.handles(&XEvent::ConfigureRequest(ConfigureRequest {
        window: 5, x: 0, y: 0, width: 1, height: 1, border_width: 0, sibling: 0, stack_mode: 0,
    })));
    assert!(!normal.handles(&XEvent::ButtonRelease));
    assert!(!normal.handles(&XEvent::Other));
    let moving = xstate(vec![], Mode::MovingWindow(WindowHandle(5)), FocusBehaviour::Sloppy);
    assert!(moving.handles(&XEvent::ButtonRelease));
    assert!(!moving.handles(&enter));
    assert!(moving.handles(&XEvent::MapRequest { window: 9 }));
}

#[test]
fn unmap_and_destroy_release_managed_windows() {
    let mut s = xstate(vec![5, 6, 5], Mode::Normal, FocusBehaviour::Sloppy);
    let (ev, t) = s.from_unmap_event(5).unwrap();
    assert!(matches!(ev, DisplayEvent::WindowDestroy(WindowHandle(5))));
    assert!(t.release_window);
    assert_eq!(t.client_list, vec![6]);
    assert_eq!(s.managed_windows, vec![6]);
    assert!(s.from_unmap_event(5).is_none());
    let (_, t) = s.from_destroy_notify(6).unwrap();
    assert!(!t.release_window);
    assert!(s.managed_windows.is_empty());
}

#[test]
fn focus_and_enter_events() {
    let mut s = xstate(vec![5], Mode::Normal, FocusBehaviour::Sloppy);
    s.focused_window = 5;
    assert_eq!(s.from_focus_in(5), None);
    assert_eq!(s.from_focus_in(6), Some(5));
    assert!(matches!(
        s.from_enter_notify(EnterNotify { event: 5, mode: 0, detail: 0 }),
        Some(DisplayEvent::WindowTakeFocus(WindowHandle(5)))
    ));
    assert!(s.from_enter_notify(EnterNotify { event: 5, mode: 0, detail: 2 }).is_none());
    assert!(s.from_enter_notify(EnterNotify { event: 1, mode: 0, detail: 0 }).is_none());
    assert!(s.from_enter_notify(EnterNotify { event: 5, mode: 1, detail: 0 }).is_none());
}

#[test]
fn buttons_and_motion() {
    let ev = from_button_press(ButtonPress { event: 7, state: 0x48, detail: 1, root_x: -3, root_y: 4 });
    assert!(matches!(ev, DisplayEvent::MouseCombo(0x48, 1, WindowHandle(7), -3, 4)));
    let mut s = xstate(vec![], Mode::ReadyToMove(WindowHandle(7)), FocusBehaviour::ClickTo);
    // 1000 / 60 = 16 ms must pass.
    let early = s.from_motion_notify(MotionNotify { event: 7, root_x: 110, root_y: 90, time: 16 });
    assert!(early.event.is_none() && early.step.is_none());
    let out = s.from_motion_notify(MotionNotify { event: 7, root_x: 110, root_y: 90, time: 17 });
    assert!(matches!(out.event, Some(DisplayEvent::MoveWindow(WindowHandle(7), 10, -10))));
    assert_eq!(out.step.unwrap().mode, Mode::MovingWindow(WindowHandle(7)));
    assert_eq!(s.mode, Mode::MovingWindow(WindowHandle(7)));
    assert_eq!(s.motion_event_limiter, 17);
    let (step, ev) = s.from_button_release();
    assert_eq!(step.mode, Mode::Normal);
    assert!(matches!(ev, DisplayEvent::ChangeToNormalMode));
    assert_eq!(s.mode, Mode::Normal);
    let mut sloppy = xstate(vec![], Mode::Normal, FocusBehaviour::Sloppy);
    let out = sloppy.from_motion_notify(MotionNotify { event: 8, root_x: 1, root_y: 2, time: 100 });
    assert!(matches!(out.event, Some(DisplayEvent::Movement(WindowHandle(8), 1, 2))));
    let mut off = xstate(vec![], Mode::Normal, FocusBehaviour::Sloppy);
    off.refresh_rate = 0;
    assert!(off.from_motion_notify(MotionNotify { event: 8, root_x: 1, root_y: 2, time: 100 }).event.is_none());
}

#[test]
fn client_messages() {
    let a = atoms();
    let s = xstate(vec![5], Mode::Normal, FocusBehaviour::ClickTo);
    let desk = s.from_client_message(ClientMessage { window: 1, type_: a.NetCurrentDesktop, data: [2, 0, 0, 0, 0] });
    assert!(matches!(desk, ClientMessageAction::Report(DisplayEvent::SendCommand(Command::GoToTag { tag: 3, swap: false }))));
    let send = s.from_client_message(ClientMessage { window: 5, type_: a.NetWMDesktop, data: [0, 0, 0, 0, 0] });
    assert!(matches!(
        send,
        ClientMessageAction::Report(DisplayEvent::SendCommand(Command::SendWindowToTag { tag: 1, window: Some(WindowHandle(5)) }))
    ));
    assert!(matches!(
        s.from_client_message(ClientMessage { window: 5, type_: a.NetActiveWindow, data: [0; 5] }),
        ClientMessageAction::SetUrgent(5)
    ));
    let st = s.from_client_message(ClientMessage { window: 5, type_: a.NetWMState, data: [2, a.NetWMStateFullscreen, 0, 0, 0] });
    assert!(matches!(st, ClientMessageAction::UpdateStates { window: 5, fullscreen: Some(FullscreenRequest::Toggle) }));
    let st = s.from_client_message(ClientMessage { window: 5, type_: a.NetWMState, data: [1, 0, a.NetWMStateFullscreen, 0, 0] });
    assert!(matches!(st, ClientMessageAction::UpdateStates { window: 5, fullscreen: Some(FullscreenRequest::Fixed(true)) }));
    let st = s.from_client_message(ClientMessage { window: 5, type_: a.NetWMState, data: [1, 7, 8, 0, 0] });
    assert!(matches!(st, ClientMessageAction::UpdateStates { window: 5, fullscreen: None }));
    assert!(matches!(
        s.from_client_message(ClientMessage { window: 9, type_: a.NetActiveWindow, data: [0; 5] }),
        ClientMessageAction::Ignore
    ));
}

#[test]
fn property_changes() {
    let a = atoms();
    let s = xstate(vec![5], Mode::Normal, FocusBehaviour::ClickTo);
    let kind = |atom: u32, deleted: bool, known: bool| s.property_kind(PropertyNotify { window: 5, atom, deleted }, known);
    assert_eq!(kind(68, false, true), PropertyKind::TransientFor);
    assert_eq!(kind(40, false, true), PropertyKind::NormalHints);
    assert_eq!(kind(35, false, true), PropertyKind::Hints);
    assert_eq!(kind(39, false, true), PropertyKind::Title);
    // Only the low byte of the atom is compared: 256 + 39 reads as WM_NAME.
    assert_eq!(kind(256 + 39, false, true), PropertyKind::Title);
    assert_eq!(kind(a.NetWMName, false, true), PropertyKind::Title);
    assert_eq!(kind(a.NetWMStrut, false, true), PropertyKind::Strut { dock_only: false, then_states: false });
    assert_eq!(kind(a.NetWMStrutPartial, false, true), PropertyKind::Strut { dock_only: true, then_states: false });
    assert_eq!(kind(a.NetWMState, false, true), PropertyKind::States);
    assert_eq!(kind(a.NetWMState, true, true), PropertyKind::Ignore);
    assert_eq!(kind(a.NetWMState, false, false), PropertyKind::Ignore);
    assert_eq!(s.property_kind(PropertyNotify { window: 6, atom: 39, deleted: false }, true), PropertyKind::Ignore);
}

#[test]
fn configure_requests() {
    let s = xstate(vec![5], Mode::Normal, FocusBehaviour::ClickTo);
    let req = ConfigureRequest { window: 6, x: -1, y: 2, width: 30, height: 40, border_width: 1, sibling: 0, stack_mode: 0 };
    let c = s.configure_request_changes(req).unwrap();
    assert_eq!((c.x, c.y, c.width, c.height, c.border_width), (-1, 2, 30, 40, 1));
    assert!(s.configure_request_changes(ConfigureRequest { window: 5, ..req }).is_none());
    assert!(matches!(configure_request_event(req, WindowType::Normal, None), DisplayEvent::ConfigureXlibWindow(WindowHandle(6))));
    match configure_request_event(req, WindowType::Dialog, None) {
        DisplayEvent::WindowChange(WindowChange { floating: Some(f), .. }) => {
            assert_eq!((f.x, f.y, f.w, f.h), (None, None, Some(30), Some(40)));
        },
        _ => panic!("a dialog gets a floating change"),
    }
    match configure_request_event(req, WindowType::Utility, None) {
        DisplayEvent::WindowChange(WindowChange { floating: Some(f), .. }) => {
            assert_eq!((f.x, f.y), (Some(-1), Some(2)));
        },
        _ => panic!("a utility window gets a floating change"),
    }
}

#[test]
fn xyhw_changes_apply_in_place() {
    let mut g = Xyhw::default();
    assert_eq!((g.minw, g.maxw, g.minh, g.maxh), (NO_MIN, NO_MAX, NO_MIN, NO_MAX));
    let change = XyhwChange { x: Some(4), w: Some(9), ..XyhwChange::none() };
    assert!(change.update(&mut g));
    assert_eq!((g.x, g.y, g.w, g.h), (4, 0, 9, 0));
    assert!(!change.update(&mut g));
    assert!(!XyhwChange::none().update(&mut g));
}

#[test]
fn dock_space_on_screens() {
    let screen = Screen { root: WindowHandle(1), output: String::from("A"), id: None, bbox: BBox { x: 0, y: 0, width: 1920, height: 1080 } };
    let d = DockArea {
        left: 0, right: 0, top: 30, bottom: 0, left_start_y: 0, left_end_y: 0, right_start_y: 0, right_end_y: 0,
        top_start_x: 0, top_end_x: 1919, bottom_start_x: 0, bottom_end_x: 0,
    };
    let dims = get_screens_area_dimensions(&[screen.clone()]);
    assert_eq!(dims, (1080, 1920));
    assert!(screen.contains_dock_area(d, dims));
    let g = d.as_xyhw(dims.0, dims.1, &screen).unwrap();
    assert_eq!((g.x, g.y, g.h, g.w), (0, 0, 30, 1919));
    assert_eq!(dock_geometry(Some(d), None, &[screen.clone()], dims), Some(g));
    let geo = XyhwChange { x: Some(5), h: Some(20), ..XyhwChange::none() };
    let from_geo = dock_geometry(None, Some(geo), &[screen.clone()], dims).unwrap();
    assert_eq!((from_geo.x, from_geo.h, from_geo.w), (5, 20, 0));
    assert_eq!(dock_geometry(None, None, &[screen], dims), None);
}

#[test]
fn startup_screens_follow_workspaces() {
    let a = screen_from_crtc(0, 0, 1920, 1080, 1, String::from("HDMI-1"));
    let b = screen_from_crtc(1920, 0, 1280, 1024, 1, String::from("DP-1"));
    let ws = vec![WorkspaceConfig { output: String::from("DP-1"), relative: Some(true), x: 10, y: 20, width: 100, height: 200 }];
    let events = initial_screens(Some(&ws), &[a.clone(), b.clone()], 1, false);
    assert_eq!(events.len(), 1);
    match &events[0] {
        DisplayEvent::ScreenCreate(s) => {
            assert_eq!(s.id, Some(1));
            assert_eq!(s.bbox, BBox { x: 1930, y: 20, width: 100, height: 200 });
            assert_eq!(s.output, "DP-1");
        },
        _ => panic!("a screen is created"),
    }
    let events = initial_screens(Some(&ws), &[a.clone(), b.clone()], 1, true);
    assert_eq!(events.len(), 2);
    match &events[1] {
        DisplayEvent::ScreenCreate(s) => {
            assert_eq!(s.id, Some(2));
            assert_eq!(s.output, "HDMI-1");
        },
        _ => panic!("a screen is created"),
    }
    // No configured workspace is connected: every screen is derived.
    let none = vec![WorkspaceConfig { output: String::from("VGA"), relative: None, x: 0, y: 0, width: 1, height: 1 }];
    let events = initial_screens(Some(&none), &[a.clone(), b], 1, false);
    assert_eq!(events.len(), 2);
    assert!(initial_screens(None, &[a], 1, true).is_empty());
}

#[test]
fn desktop_properties() {
    assert_eq!(set_current_desktop(Some(3)), vec![2]);
    assert_eq!(set_current_desktop(None), vec![0]);
    assert_eq!(set_window_desktop(1), vec![0]);
    assert_eq!(set_window_desktop_xlib(4), vec![3]);
    let names = vec![String::from("1"), String::from("web")];
    assert_eq!(desktop_names(&names), b"1\0web".to_vec());
    assert_eq!(opaque_color(0x123456), 0xff123456);
}

#[test]
fn window_state_atoms() {
    assert_eq!(set_state(vec![1, 2], true, 3), Some(vec![1, 2, 3]));
    assert_eq!(set_state(vec![1, 2], true, 2), None);
    assert_eq!(set_state(vec![1, 2, 1], false, 1), Some(vec![2, 1]));
    assert_eq!(set_state(vec![1, 2], false, 5), None);
    let mut v = vec![1, 5];
    insert_sorted(&mut v, 3);
    insert_sorted(&mut v, 5);
    assert_eq!(v, vec![1, 3, 5]);
    assert_eq!(sorted_dedup(&[3, 1, 3, 2]), vec![1, 2, 3]);
    assert_eq!(fullscreen_states(&[4, 9, 4], FullscreenRequest::Toggle, 7), vec![4, 7, 9]);
    assert_eq!(fullscreen_states(&[7, 4], FullscreenRequest::Toggle, 7), vec![4]);
    assert_eq!(fullscreen_states(&[7, 4], FullscreenRequest::Fixed(true), 7), vec![4, 7]);
    assert_eq!(fullscreen_states(&[7, 4], FullscreenRequest::Fixed(false), 7), vec![4]);
}

#[test]
fn display_action_decisions() {
    assert!(should_move_mouse_over(5, 6, false));
    assert!(!should_move_mouse_over(5, 5, false));
    assert!(should_move_mouse_over(5, 5, true));
    assert!(matches!(focus_window_under_cursor(0, 1), Some(DisplayEvent::WindowTakeFocus(WindowHandle(1)))));
    assert!(focus_window_under_cursor(9, 1).is_none());
    assert_eq!(set_window_order(&[1, 2, 3, 4, 5], 1, &[4], &[2, 4]), vec![4, 2, 3, 5, 2, 4]);
    assert_eq!(restack(&[7, 8, 9]), vec![(8, 7), (9, 8)]);
    assert!(restack(&[]).is_empty());
    assert_eq!(window_center(10, 20, 101, 50), (60, 45));
    assert_eq!(move_cursor_to_point((5, 6)).unwrap(), Some((5, 6)));
    assert_eq!(move_cursor_to_point((-5, 6)).unwrap(), None);
    assert_eq!(move_cursor_to_point((40000, 6)).unwrap_err().kind, ErrorKind::IntConversion);
    assert!(should_manage_existing(false, WMStateWindowState::Iconic));
    assert!(!should_manage_existing(false, WMStateWindowState::Normal));
    assert!(can_send_xevent_atom(Some(&[3, 4]), 4));
    assert!(!can_send_xevent_atom(None, 4));
    let padded = pad_event(&[1, 2]);
    assert_eq!(&padded[..3], &[1, 2, 0]);
    assert_eq!(padded.len(), 32);
}

#[test]
fn mouse_grabs() {
    let focused = grab_mouse_clicks(8, true);
    assert_eq!(focused.len(), 12);
    assert_eq!(focused[0], (BUTTON_1, 8));
    assert_eq!(focused[1], (BUTTON_1, 8 | MOD_2));
    assert_eq!(focused[2], (BUTTON_1, 8 | MOD_LOCK));
    assert_eq!(focused[3], (BUTTON_1, 8 | MOD_SHIFT));
    assert_eq!(focused[6], (BUTTON_3, 8));
    let unfocused = grab_mouse_clicks(8, false);
    assert_eq!(unfocused.len(), 18);
    assert_eq!(unfocused[0], (BUTTON_1, MOD_ANY));
    assert_eq!(unfocused[3], (BUTTON_3, MOD_ANY));
}

#[test]
fn every_field_gets_its_own_name() {
    let a = atoms();
    assert_eq!(a.get_name(a.NetWMAction), "_NET_WM_ALLOWED_ACTIONS");
    assert_eq!(a.get_name(a.WMDelete), "WM_DELETE_WINDOW");
    assert_eq!(a.get_name(a.UTF8String), "UTF8_STRING");
    assert_eq!(a.get_name(a.WMSizeHints), "WM_SIZE_HINTS");
    assert_eq!(a.get_name(a.NetWMStrut), "_NET_WM_STRUT");
    assert_eq!(a.get_name(0), "(UNKNOWN)");
}
