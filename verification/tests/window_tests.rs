use leftwm_display_servers::actions::{PointerReply, ReplayedClick};
use leftwm_display_servers::dock::get_screens_area_dimensions;
use leftwm_display_servers::events::{contains_u32, states_change, without, ClientMessage, ClientMessageAction, XState};
use leftwm_display_servers::hints::{get_hint_sizing_as_xyhw, SizeHints, WmHints};
use leftwm_display_servers::models::{
    BBox, Command, DisplayEvent, DockArea, FocusBehaviour, Mode, Screen, WindowChange, WindowHandle, WindowState,
    WindowType, Xyhw, XyhwChange,
};
use leftwm_display_servers::notify::{
    hints_change, managed_strut_change, normal_hints_change, strut_change, title_change, transient_change,
};
use leftwm_display_servers::props::{contains_u64, dock_area_from_values, state_of_atom_exec};
use leftwm_display_servers::screens::{
    copy_screen, screen_from_hints, screen_from_window_attrs, screen_from_xinerama, screen_from_xrandr_crtc,
};
use leftwm_display_servers::setters::{position_of, set_current_desktop, set_state};
use leftwm_display_servers::windows::{setup_window_xlib, WindowInfo};
use leftwm_display_servers::xatom::AtomCollection;

fn atoms() -> AtomCollection {
    let mut n = 200u32;
    let mut next = || {
        n += 1;
        n
    };
    AtomCollection {
        WMProtocols: next(),
        WMDelete: next(),
        WMState: next(),
        WMClass: next(),
        WMTakeFocus: next(),
        NetActiveWindow: next(),
        NetSupported: next(),
        NetWMName: next(),
        NetWMPid: next(),
        NetWMState: next(),
        NetWMStateModal: next(),
        NetWMStateSticky: next(),
        NetWMStateMaximizedVert: next(),
        NetWMStateMaximizedHorz: next(),
        NetWMStateShaded: next(),
        NetWMStateSkipTaskbar: next(),
        NetWMStateSkipPager: next(),
        NetWMStateHidden: next(),
        NetWMStateFullscreen: next(),
        NetWMStateAbove: next(),
        NetWMStateBelow: next(),
        NetWMStateDemandsAttention: next(),
        NetWMAction: next(),
        NetWMActionMove: next(),
        NetWMActionResize: next(),
        NetWMActionMinimize: next(),
        NetWMActionShade: next(),
        NetWMActionStick: next(),
        NetWMActionMaximizeHorz: next(),
        NetWMActionMaximizeVert: next(),
        NetWMActionFullscreen: next(),
        NetWMActionChangeDesktop: next(),
        NetWMActionClose: next(),
        NetWMWindowType: next(),
        NetWMWindowTypeDesktop: next(),
        NetWMWindowTypeDock: next(),
        NetWMWindowTypeToolbar: next(),
        NetWMWindowTypeMenu: next(),
        NetWMWindowTypeUtility: next(),
        NetWMWindowTypeSplash: next(),
        NetWMWindowTypeDialog: next(),
        NetSupportingWmCheck: next(),
        NetClientList: next(),
        NetDesktopViewport: next(),
        NetNumberOfDesktops: next(),
        NetCurrentDesktop: next(),
        NetDesktopNames: next(),
        NetWMDesktop: next(),
        NetWMStrutPartial: next(),
        NetWMStrut: next(),
        UTF8String: next(),
        WMNormalHints: next(),
        WMSizeHints: next(),
    }
}

fn xstate(managed: Vec<u32>) -> XState {
    XState {
        root: 1,
        atoms: atoms(),
        managed_windows: managed,
        focused_window: 0,
        mode: Mode::Normal,
        focus_behaviour: FocusBehaviour::ClickTo,
        mouse_key_mask: 8,
        mode_origin: (0, 0),
        motion_event_limiter: 0,
        refresh_rate: 60,
    }
}

fn info(window_type: WindowType, actions: Vec<u32>, size_hint: Option<XyhwChange>) -> WindowInfo {
    WindowInfo {
        name: Some(String::from("term")),
        legacy_name: None,
        res_name: Some(String::from("xterm")),
        res_class: Some(String::from("XTerm")),
        pid: Some(42),
        window_type,
        states: vec![WindowState::Above],
        actions,
        transient: Some(9),
        size_hint,
        wm_hints: Some(WmHints { input: Some(false), urgent: true }),
    }
}

#[test]
fn new_window_is_reported_with_what_was_read() {
    let s = xstate(vec![3]);
    let resize = s.atoms.NetWMActionResize;
    let ev = s.setup_window(5, false, info(WindowType::Normal, vec![resize], None), None, (7, 8)).unwrap();
    match ev {
        DisplayEvent::WindowCreate(w) => {
            assert_eq!(w.handle, WindowHandle(5));
            assert_eq!(w.name.as_deref(), Some("term"));
            assert_eq!(w.pid, Some(42));
            assert_eq!(w.transient, Some(WindowHandle(9)));
            assert!(w.can_resize);
            assert!(w.never_focus);
            assert!(w.urgent);
            assert_eq!((w.x, w.y), (7, 8));
            assert_eq!(w.requested, Xyhw::default());
            assert_eq!(w.floating, XyhwChange::none());
            assert_eq!(w.states, vec![WindowState::Above]);
        },
        _ => panic!("a new window is reported"),
    }
    // Managed or override-redirect windows are left alone.
    assert!(s.setup_window(3, false, info(WindowType::Normal, vec![], None), None, (0, 0)).is_none());
    assert!(s.setup_window(5, true, info(WindowType::Normal, vec![], None), None, (0, 0)).is_none());
    assert!(s.accepts_window(5, false));
    assert!(!s.accepts_window(3, false));
}

#[test]
fn splash_with_fixed_size_is_not_resizable() {
    let s = xstate(vec![]);
    let fixed = XyhwChange { minw: Some(10), maxw: Some(10), minh: Some(5), maxh: Some(5), ..XyhwChange::none() };
    match s.setup_window(5, false, info(WindowType::Splash, vec![], Some(fixed)), None, (0, 0)).unwrap() {
        DisplayEvent::WindowCreate(w) => assert!(!w.can_resize),
        _ => panic!("a new window is reported"),
    }
    let loose = XyhwChange { minw: Some(10), maxw: Some(20), minh: Some(5), maxh: Some(5), ..XyhwChange::none() };
    match s.setup_window(5, false, info(WindowType::Splash, vec![], Some(loose)), None, (0, 0)).unwrap() {
        DisplayEvent::WindowCreate(w) => assert!(w.can_resize),
        _ => panic!("a new window is reported"),
    }
    // Without hints, only the allowed actions count.
    match s.setup_window(5, false, info(WindowType::Normal, vec![], None), None, (0, 0)).unwrap() {
        DisplayEvent::WindowCreate(w) => assert!(!w.can_resize),
        _ => panic!("a new window is reported"),
    }
}

#[test]
fn xlib_windows_keep_their_mapped_size() {
    let s = xstate(vec![]);
    let hint = XyhwChange { w: Some(50), h: Some(500), ..XyhwChange::none() };
    let ev = setup_window_xlib(&s, 5, false, (1, 2, 100, 200), info(WindowType::Normal, vec![], Some(hint)), None, None)
        .unwrap();
    match ev {
        DisplayEvent::WindowCreate(w) => {
            assert_eq!((w.floating.x, w.floating.y, w.floating.w, w.floating.h), (Some(1), Some(2), Some(100), Some(500)));
            assert_eq!((w.requested.x, w.requested.y, w.requested.w, w.requested.h), (1, 2, 100, 500));
            assert_eq!((w.x, w.y), (0, 0));
        },
        _ => panic!("a new window is reported"),
    }
    let geo = XyhwChange { x: Some(30), ..XyhwChange::none() };
    match setup_window_xlib(&s, 5, false, (1, 2, 3, 4), info(WindowType::Normal, vec![], None), Some(geo), Some((6, 7)))
        .unwrap()
    {
        DisplayEvent::WindowCreate(w) => {
            assert_eq!((w.floating.x, w.floating.w), (Some(30), Some(3)));
            assert_eq!((w.requested.x, w.requested.w), (1, 3));
            assert_eq!((w.x, w.y), (6, 7));
        },
        _ => panic!("a new window is reported"),
    }
}

#[test]
fn property_change_events() {
    match transient_change(5, WindowType::Dialog, Some(9)) {
        DisplayEvent::WindowChange(c) => assert_eq!(c.transient, Some(Some(WindowHandle(9)))),
        _ => panic!(),
    }
    match transient_change(5, WindowType::Normal, Some(9)) {
        DisplayEvent::WindowChange(c) => assert_eq!(c.transient, None),
        _ => panic!(),
    }
    let hint = XyhwChange { w: Some(10), ..XyhwChange::none() };
    match normal_hints_change(5, Some(hint)).unwrap() {
        DisplayEvent::WindowChange(c) => assert_eq!(c.requested.unwrap().w, 10),
        _ => panic!(),
    }
    let only_limits = XyhwChange { minw: Some(10), ..XyhwChange::none() };
    assert!(normal_hints_change(5, Some(only_limits)).is_none());
    assert!(normal_hints_change(5, None).is_none());
    match hints_change(5, Some(WmHints { input: Some(true), urgent: false })).unwrap() {
        DisplayEvent::WindowChange(c) => {
            assert_eq!(c.never_focus, Some(false));
            assert_eq!(c.urgent, Some(false));
        },
        _ => panic!(),
    }
    assert!(hints_change(5, None).is_none());
    match title_change(5, Some(String::from("vim"))) {
        DisplayEvent::WindowChange(c) => assert_eq!(c.name, Some(Some(String::from("vim")))),
        _ => panic!(),
    }
    match states_change(5, vec![WindowState::Fullscreen]) {
        DisplayEvent::WindowChange(c) => {
            assert_eq!(c.handle, WindowHandle(5));
            assert_eq!(c.states, Some(vec![WindowState::Fullscreen]));
            assert_eq!(c.floating, None);
        },
        _ => panic!(),
    }
}

#[test]
fn strut_events() {
    let g = Xyhw { x: 1, y: 2, h: 3, w: 4, ..Xyhw::default() };
    match strut_change(5, WindowType::Dock, Some(g)).unwrap() {
        DisplayEvent::WindowChange(WindowChange { floating: Some(f), window_type, strut, .. }) => {
            assert_eq!((f.x, f.y, f.h, f.w), (Some(1), Some(2), Some(3), Some(4)));
            assert_eq!(window_type, Some(WindowType::Dock));
            assert_eq!(strut, None);
        },
        _ => panic!(),
    }
    match managed_strut_change(5, WindowType::Desktop, Some(g)).unwrap() {
        DisplayEvent::WindowChange(WindowChange { strut: Some(s), floating, .. }) => {
            assert_eq!(s, XyhwChange::from_xyhw(g));
            assert_eq!(floating, None);
        },
        _ => panic!(),
    }
    assert!(strut_change(5, WindowType::Dock, None).is_none());
}

#[test]
fn dock_area_values_round_trip() {
    let d = DockArea {
        left: 1, right: 2, top: 3, bottom: 4, left_start_y: 5, left_end_y: 6, right_start_y: 7, right_end_y: 8,
        top_start_x: 9, top_end_x: 10, bottom_start_x: 11, bottom_end_x: 12,
    };
    let values = vec![
        d.left, d.right, d.top, d.bottom, d.left_start_y, d.left_end_y, d.right_start_y, d.right_end_y,
        d.top_start_x, d.top_end_x, d.bottom_start_x, d.bottom_end_x,
    ];
    assert_eq!(dock_area_from_values(&values), d);
}

#[test]
fn desktop_switch_round_trip() {
    // A client asks for desktop index 4; the window manager goes to tag 5 and
    // then announces index 4.
    let s = xstate(vec![]);
    let msg = ClientMessage { window: 1, type_: s.atoms.NetCurrentDesktop, data: [4, 0, 0, 0, 0] };
    let tag = match s.from_client_message(msg) {
        ClientMessageAction::Report(DisplayEvent::SendCommand(Command::GoToTag { tag, .. })) => tag,
        _ => panic!(),
    };
    assert_eq!(tag, 5);
    assert_eq!(set_current_desktop(Some(tag)), vec![4]);
}

#[test]
fn set_then_clear_state_restores_atoms() {
    let set = set_state(vec![1, 2], true, 3).unwrap();
    let cleared = set_state(set, false, 3).unwrap();
    assert_eq!(cleared, vec![1, 2]);
    assert_eq!(position_of(&[5, 6, 5], 5), Some(0));
    assert_eq!(position_of(&[5, 6, 5], 7), None);
}

#[test]
fn hint_sizes_respect_minimum() {
    let h = SizeHints {
        position: None,
        size: Some((5, 500)),
        min_size: Some((20, 30)),
        max_size: None,
        size_increment: None,
        base_size: None,
    };
    let c = get_hint_sizing_as_xyhw(Some(h)).unwrap();
    assert_eq!((c.w, c.h), (Some(20), Some(500)));
    let inc = SizeHints { size_increment: Some((7, 8)), ..h };
    let c = get_hint_sizing_as_xyhw(Some(inc)).unwrap();
    assert_eq!((c.w, c.h), (Some(20), Some(30)));
    let base = SizeHints { size: None, base_size: Some((40, 50)), ..h };
    let c = get_hint_sizing_as_xyhw(Some(base)).unwrap();
    assert_eq!((c.w, c.h), (Some(40), Some(50)));
}

#[test]
fn screens_from_sources() {
    let s = screen_from_xinerama(-5, 6, 100, 200, 1);
    assert_eq!(s.bbox, BBox { x: -5, y: 6, width: 100, height: 200 });
    assert_eq!(s.root, WindowHandle(1));
    let h = screen_from_hints(XyhwChange { x: Some(3), w: Some(30), ..XyhwChange::none() });
    assert_eq!(h.bbox, BBox { x: 3, y: 0, width: 30, height: 0 });
    let c = copy_screen(&s);
    assert_eq!((c.bbox, c.id, c.output), (s.bbox, s.id, s.output.clone()));
    let screens = vec![
        Screen { root: WindowHandle(1), output: String::new(), id: None, bbox: BBox { x: 0, y: 0, width: 100, height: 50 } },
        Screen { root: WindowHandle(1), output: String::new(), id: None, bbox: BBox { x: 100, y: 10, width: 20, height: 20 } },
    ];
    assert_eq!(get_screens_area_dimensions(&screens), (50, 120));
    assert!(screens[0].contains_point(100, 50));
    assert!(!screens[0].contains_point(101, 0));
}

#[test]
fn list_helpers() {
    assert!(contains_u32(&[1, 2], 2));
    assert!(!contains_u32(&[], 2));
    assert_eq!(without(&vec![1, 2, 1, 3], 1), vec![2, 3]);
    assert!(contains_u64(&[1, 2], 1));
    let a = atoms();
    assert_eq!(state_of_atom_exec(&a, a.NetWMStateSkipPager as u64), WindowState::SkipPager);
    assert_eq!(state_of_atom_exec(&a, 1), WindowState::Modal);
    let c = XyhwChange { x: Some(1), w: Some(2), ..XyhwChange::none() };
    let later = XyhwChange { x: Some(5), h: Some(6), ..XyhwChange::none() };
    let both = c.and_then_change(later);
    assert_eq!((both.x, both.y, both.w, both.h), (Some(5), None, Some(2), Some(6)));
}

#[test]
fn forced_unmap_forgets_managed_windows() {
    let mut s = xstate(vec![4, 5, 4]);
    assert_eq!(s.force_unmapped(4), Some(vec![5]));
    assert_eq!(s.managed_windows, vec![5]);
    assert_eq!(s.force_unmapped(4), None);
    assert_eq!(s.managed_windows, vec![5]);
}

#[test]
fn teardown_lists_remaining_clients() {
    let mut s = xstate(vec![4, 5]);
    let t = s.teardown_managed_window(4, false);
    assert!(t.release_window);
    assert_eq!(t.client_list, vec![5]);
    let t = s.teardown_managed_window(9, true);
    assert!(!t.release_window);
    assert_eq!(t.client_list, vec![5]);
    assert!(FocusBehaviour::Sloppy.is_sloppy());
    assert!(!FocusBehaviour::Driven.is_sloppy());
    assert!(FocusBehaviour::ClickTo.is_clickto());
    assert!(!FocusBehaviour::Sloppy.is_clickto());
}

#[test]
fn xlib_screens() {
    let s = screen_from_xrandr_crtc(-1, 2, 3_000_000_000, 10, 7, String::from("DP-2"));
    assert_eq!(s.bbox, BBox { x: -1, y: 2, width: -1_294_967_296, height: 10 });
    assert_eq!(s.output, "DP-2");
    assert_eq!(s.root, WindowHandle(7));
    let a = screen_from_window_attrs(7, 0, 0, 800, 600);
    assert_eq!(a.bbox, BBox { x: 0, y: 0, width: 800, height: 600 });
    assert!(a.output.is_empty());
}

#[test]
fn window_without_hints_floats_at_its_geometry() {
    let s = xstate(vec![]);
    let geo = XyhwChange { x: Some(1), y: Some(2), w: Some(30), h: Some(40), ..XyhwChange::none() };
    match s.setup_window(5, false, info(WindowType::Normal, vec![], None), Some(geo), (0, 0)).unwrap() {
        DisplayEvent::WindowCreate(w) => {
            assert_eq!(w.floating, geo);
            assert_eq!(w.requested, Xyhw::default());
        },
        _ => panic!("a new window is reported"),
    }
    // Size hints win over the geometry.
    let hint = XyhwChange { w: Some(9), ..XyhwChange::none() };
    match s.setup_window(5, false, info(WindowType::Normal, vec![], Some(hint)), Some(geo), (0, 0)).unwrap() {
        DisplayEvent::WindowCreate(w) => assert_eq!(w.floating, hint),
        _ => panic!("a new window is reported"),
    }
}

#[test]
fn managing_a_window_lists_it() {
    let mut s = xstate(vec![4]);
    assert_eq!(s.manage_window(6), vec![6]);
    assert_eq!(s.managed_windows, vec![4, 6]);
}

#[test]
fn click_replay_walk() {
    let mut click = ReplayedClick::start(1);
    assert_eq!(click.child, 1);
    let over_child = PointerReply { child: 8, root: 1, root_x: 5, root_y: 6, win_x: 5, win_y: 6 };
    assert!(!click.step(over_child));
    assert_eq!(click, ReplayedClick { child: 8, root: 1, root_x: 5, root_y: 6, event_x: 5, event_y: 6 });
    let no_child = PointerReply { child: 0, root: 1, root_x: 5, root_y: 6, win_x: 2, win_y: 3 };
    assert!(click.step(no_child));
    assert_eq!(click, ReplayedClick { child: 8, root: 1, root_x: 5, root_y: 6, event_x: 2, event_y: 3 });
    assert!(click.replays_on(8));
    assert!(!click.replays_on(1));
}

#[test]
fn click_replay_on_the_root_background() {
    let mut click = ReplayedClick::start(1);
    let no_child = PointerReply { child: 0, root: 1, root_x: 9, root_y: 4, win_x: 9, win_y: 4 };
    assert!(click.step(no_child));
    assert_eq!(click.child, 1);
    assert!(!click.replays_on(8));
}
