use leftwm_display_servers::color::parse_color_string;
use leftwm_display_servers::error::{BackendError, ErrorKind, ErrorSource};
use leftwm_display_servers::focus::{manage_plan, take_focus_plan, theme_border_color, unfocus_border, Colors, PreviousWindow};
use leftwm_display_servers::models::{FocusBehaviour, WindowHidingStrategy};
use leftwm_display_servers::refresh::{refresh_rate, ModeInfo};
use leftwm_display_servers::screens::output_name;
use leftwm_display_servers::visibility::{
    configure_notify_values, hidden_position, needs_screen_area, visibility_plan, visibility_toggle,
    visibility_toggle_xlib, window_config_values,
};
use leftwm_display_servers::xatom::WMStateWindowState;
use leftwm_display_servers::xlib::{on_error_from_xlib, XlibError};

#[test]
fn parses_hex_colour_into_16_bit_channels() {
    let (r, g, b) = parse_color_string("#ff8001".to_string()).unwrap();
    assert_eq!((r, g, b), (0xff00, 0x8000, 0x0100));
    let (r, g, b) = parse_color_string("#A0b1C2".to_string()).unwrap();
    assert_eq!((r, g, b), (0xa000, 0xb100, 0xc200));
    // The first byte is not looked at, and what follows the seventh is ignored.
    assert_eq!(parse_color_string("x000000zz".to_string()).unwrap(), (0, 0, 0));
    // A pair may be a '+' and one digit.
    assert_eq!(parse_color_string("#+f0000".to_string()).unwrap(), (0x0f00, 0, 0));
}

#[test]
fn bad_colour_digits_give_a_parse_error() {
    let e = parse_color_string("#gg0000".to_string()).unwrap_err();
    assert_eq!(e.kind, ErrorKind::StringConversion);
    assert_eq!(e.msg, "Unable to parse int with given base");
    let e = parse_color_string("#00-100".to_string()).unwrap_err();
    assert_eq!(e.kind, ErrorKind::StringConversion);
}

#[test]
fn error_kinds_and_sources() {
    assert_eq!(ErrorKind::RootWindowNotFound.name(), "RootWindowNotFound");
    assert_eq!(ErrorKind::XReply.name(), "XReply");
    let e = BackendError::from_source(ErrorSource::Nul);
    assert_eq!(e.kind, ErrorKind::StringConversion);
    assert_eq!(e.msg, "Unable to parse nul terminated string");
    assert_eq!(BackendError::int_conversion().kind, ErrorKind::IntConversion);
    assert_eq!(BackendError::from_source(ErrorSource::XConnection).kind, ErrorKind::XConnection);
    let r = BackendError::root_window_not_found();
    assert_eq!(r.kind, ErrorKind::RootWindowNotFound);
    assert_eq!(r.msg, "No root window");
}

#[test]
fn refresh_rate_is_highest_active_mode() {
    let modes = vec![
        ModeInfo { id: 1, dot_clock: 148_500_000, htotal: 2200, vtotal: 1125 },
        ModeInfo { id: 2, dot_clock: 297_000_000, htotal: 2200, vtotal: 1125 },
        ModeInfo { id: 3, dot_clock: 1, htotal: 0, vtotal: 0 },
    ];
    assert_eq!(refresh_rate(&modes, &vec![1]), 60);
    assert_eq!(refresh_rate(&modes, &vec![1, 2]), 120);
    assert_eq!(refresh_rate(&modes, &vec![9]), 60);
    assert_eq!(refresh_rate(&modes, &vec![]), 60);
    let slow = vec![ModeInfo { id: 5, dot_clock: 30_000, htotal: 100, vtotal: 10 }];
    assert_eq!(refresh_rate(&slow, &vec![5]), 30);
}

#[test]
fn xlib_tolerates_expected_errors() {
    assert_eq!(on_error_from_xlib(3, 1), 0);
    assert_eq!(on_error_from_xlib(8, 12), 0);
    assert_eq!(on_error_from_xlib(10, 28), 0);
    assert_eq!(on_error_from_xlib(10, 33), 0);
    assert_eq!(on_error_from_xlib(8, 42), 0);
    assert_eq!(on_error_from_xlib(9, 62), 0);
    assert_eq!(on_error_from_xlib(9, 74), 0);
    assert_eq!(on_error_from_xlib(8, 28), 1);
    assert_eq!(on_error_from_xlib(2, 12), 1);
    assert_eq!(XlibError::InvalidXAtom, XlibError::InvalidXAtom);
    assert_ne!(XlibError::FailedStatus, XlibError::RootWindowNotFound);
}

fn colors() -> Colors {
    Colors { normal: 1, floating: 2, active: 3, background: 4 }
}

#[test]
fn border_colours() {
    let c = colors();
    assert_eq!(c.inactive_border(true), 2);
    assert_eq!(c.inactive_border(false), 1);
    assert_eq!(theme_border_color(&c, Some(10), 10, true), 3);
    assert_eq!(theme_border_color(&c, Some(10), 11, true), 2);
    assert_eq!(theme_border_color(&c, None, 11, false), 1);
    assert_eq!(unfocus_border(&c, Some(5), true), Some((5, 2)));
    assert_eq!(unfocus_border(&c, None, true), None);
}

#[test]
fn managing_and_focusing_plans() {
    let c = colors();
    let p = manage_plan(&c, true, false, FocusBehaviour::ClickTo);
    assert_eq!((p.border_color, p.move_cursor, p.grab_clicks), (2, false, true));
    let p = manage_plan(&c, false, true, FocusBehaviour::Sloppy);
    assert_eq!((p.border_color, p.move_cursor, p.grab_clicks), (1, true, false));
    let t = take_focus_plan(&c, FocusBehaviour::ClickTo, 7, true, Some((6, false)));
    assert_eq!(t.focused, 7);
    assert_eq!(t.border_color, 3);
    assert!(t.never_focus);
    assert_eq!(t.previous, Some(PreviousWindow { window: 6, border_color: 1, grab_clicks: true }));
    let t = take_focus_plan(&c, FocusBehaviour::Driven, 7, false, None);
    assert_eq!(t.previous, None);
}

#[test]
fn showing_and_hiding_plans() {
    let show = visibility_plan(true, None, WindowHidingStrategy::Unmap, FocusBehaviour::ClickTo);
    assert!(show.mute_root && show.map && show.grab_clicks_unless_dock);
    assert_eq!(show.wm_state, Some(WMStateWindowState::Normal));
    let hide = visibility_plan(false, Some(WindowHidingStrategy::MoveMinimize), WindowHidingStrategy::Unmap, FocusBehaviour::Sloppy);
    assert_eq!(hide.strategy, WindowHidingStrategy::MoveMinimize);
    assert!(!hide.mute_root && !hide.unmap && hide.move_out && hide.ungrab_clicks);
    assert_eq!(hide.wm_state, Some(WMStateWindowState::Iconic));
    let hide = visibility_plan(false, Some(WindowHidingStrategy::MoveOnly), WindowHidingStrategy::Unmap, FocusBehaviour::Sloppy);
    assert_eq!(hide.wm_state, None);
    let hide = visibility_plan(false, None, WindowHidingStrategy::Unmap, FocusBehaviour::Sloppy);
    assert!(hide.unmap && !hide.move_out && hide.mute_root);
    assert_eq!(hide.wm_state, Some(WMStateWindowState::Iconic));
}

#[test]
fn hidden_windows_move_twice_their_size_away() {
    assert!(!needs_screen_area(Some(1), Some(2)));
    assert!(needs_screen_area(Some(1), None));
    assert_eq!(hidden_position(Some(100), Some(50), (0, 0)), (-200, -100));
    assert_eq!(hidden_position(None, Some(50), (1920, 1080)), (-3840, -100));
    assert_eq!(hidden_position(None, None, (1920, 1080)), (-3840, -2160));
}

#[test]
fn update_toggles_only_when_state_differs() {
    assert_eq!(visibility_toggle(true, WMStateWindowState::Iconic), Some(true));
    assert_eq!(visibility_toggle(true, WMStateWindowState::Normal), None);
    assert_eq!(visibility_toggle(false, WMStateWindowState::Normal), Some(false));
    assert_eq!(visibility_toggle(false, WMStateWindowState::Iconic), None);
    assert_eq!(visibility_toggle(false, WMStateWindowState::Withdrawn), Some(false));
}

#[test]
fn geometry_conversions() {
    assert_eq!(window_config_values(-5, 6, 7, 8, 1).unwrap(), (-5, 6, 7, 8, 1));
    let e = window_config_values(0, 0, -1, 8, 1).unwrap_err();
    assert_eq!(e.kind, ErrorKind::IntConversion);
    assert_eq!(configure_notify_values(-5, 6, 7, 8, 0).unwrap(), (-5, 6, 7, 8, 0));
    assert_eq!(configure_notify_values(40000, 0, 1, 1, 0).unwrap_err().kind, ErrorKind::IntConversion);
    assert_eq!(configure_notify_values(0, 0, 70000, 1, 0).unwrap_err().kind, ErrorKind::IntConversion);
    assert_eq!(configure_notify_values(0, 0, 1, 1, -1).unwrap_err().msg, "Unable to parse int from a value");
}

#[test]
fn output_names() {
    assert_eq!(output_name(b"HDMI-1\0"), "HDMI-1");
    assert_eq!(output_name(b"HDMI-1"), "output_name");
    assert_eq!(output_name(b"a\0b\0"), "output_name");
    assert_eq!(output_name(b""), "output_name");
    assert_eq!(output_name("é\0".as_bytes()), "é");
}

#[test]
fn xlib_update_toggles_on_raw_state() {
    assert_eq!(visibility_toggle_xlib(true, 2), Some(true));
    assert_eq!(visibility_toggle_xlib(true, 1), None);
    assert_eq!(visibility_toggle_xlib(false, 1), Some(false));
    assert_eq!(visibility_toggle_xlib(false, 2), None);
}
