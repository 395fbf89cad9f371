//! Setting up a window that a client maps: what the window manager is told of it.
use vstd::prelude::*;

use crate::events::{contains_u32, XState};
use crate::hints::{opt_max, WmHints};
use crate::models::{DisplayEvent, WindowCreate, WindowHandle, WindowState, WindowType, Xyhw, XyhwChange};

verus! {

/// What was read of a window before it is managed.
#[derive(Debug)]
pub struct WindowInfo {
    pub name: Option<String>,
    pub legacy_name: Option<String>,
    pub res_name: Option<String>,
    pub res_class: Option<String>,
    pub pid: Option<u32>,
    pub window_type: WindowType,
    pub states: Vec<WindowState>,
    pub actions: Vec<u32>,
    pub transient: Option<u32>,
    pub size_hint: Option<XyhwChange>,
    pub wm_hints: Option<WmHints>,
}

/// Whether a window may be resized: a splash screen with fixed minimum and
/// maximum sizes only where it says so or the sizes differ; any other window
/// with size hints always; a window without them where it says so.
pub open spec fn resizable(allowed: bool, window_type: WindowType, hint: Option<XyhwChange>) -> bool {
    match hint {
        None => allowed,
        Some(h) => if window_type == WindowType::Splash && h.minw is Some && h.minh is Some
            && h.maxw is Some && h.maxh is Some {
            allowed || h.minw != h.maxw || h.minh != h.maxh
        } else {
            true
        },
    }
}

fn resizable_exec(allowed: bool, window_type: WindowType, hint: Option<XyhwChange>) -> (r: bool)
    ensures
        r == resizable(allowed, window_type, hint),
{
    match hint {
        None => allowed,
        Some(h) => match (window_type, h.minw, h.minh, h.maxw, h.maxh) {
            (WindowType::Splash, Some(min_width), Some(min_height), Some(max_width), Some(max_height)) => {
                allowed || min_width != max_width || min_height != max_height
            },
            _ => true,
        },
    }
}

/// The window that the window manager is told of (for the X11 backend). Its
/// floating geometry comes from its size hints; a window without them takes
/// the geometry read from the server, where there is one.
pub open spec fn created_window(
    window: u32,
    info: WindowInfo,
    atoms_resize: u32,
    geometry: Option<XyhwChange>,
    cursor: (i32, i32),
) -> WindowCreate {
    WindowCreate {
        handle: WindowHandle(window),
        name: info.name,
        legacy_name: info.legacy_name,
        res_name: info.res_name,
        res_class: info.res_class,
        pid: info.pid,
        window_type: info.window_type,
        states: info.states,
        transient: match info.transient {
            Some(t) => Some(WindowHandle(t)),
            None => None,
        },
        floating: match info.size_hint {
            Some(h) => h,
            None => match geometry {
                Some(g) => g,
                None => XyhwChange {
                    x: None,
                    y: None,
                    w: None,
                    h: None,
                    minw: None,
                    maxw: None,
                    minh: None,
                    maxh: None,
                },
            },
        },
        requested: match info.size_hint {
            Some(h) => h.applied_to(Xyhw::spec_default()),
            None => Xyhw::spec_default(),
        },
        can_resize: resizable(info.actions@.contains(atoms_resize), info.window_type, info.size_hint),
        never_focus: info.wm_hints matches Some(h) && h.input == Some(false),
        urgent: info.wm_hints matches Some(h) && h.urgent,
        x: cursor.0,
        y: cursor.1,
    }
}

impl XState {
    /// Whether a mapped window is to be managed: it does not ask to be left alone
    /// (override-redirect) and is not managed already.
    pub fn accepts_window(&self, window: u32, override_redirect: bool) -> (r: bool)
        ensures
            r == (!override_redirect && !self.managed_windows@.contains(window)),
    {
        !override_redirect && !contains_u32(&self.managed_windows, window)
    }

    /// Sets up a window before it is managed (`setup_window`): given what was read
    /// of it (its geometry is read only for a window without size hints) and the
    /// pointer position, the event that reports it, or none for a window that is
    /// not to be managed.
    pub fn setup_window(
        &self,
        window: u32,
        override_redirect: bool,
        info: WindowInfo,
        geometry: Option<XyhwChange>,
        cursor: (i32, i32),
    ) -> (r: Option<DisplayEvent>)
        ensures
            !(!override_redirect && !self.managed_windows@.contains(window)) ==> r is None,
            (!override_redirect && !self.managed_windows@.contains(window)) ==> r == Some(
                DisplayEvent::WindowCreate(created_window(window, info, self.atoms.NetWMActionResize, geometry, cursor)),
            ),
    {
        if !self.accepts_window(window, override_redirect) {
            return None;
        }
        let can_resize = contains_u32(&info.actions, self.atoms.NetWMActionResize);
        let can_resize = resizable_exec(can_resize, info.window_type, info.size_hint);
        let floating = match info.size_hint {
            Some(h) => h,
            None => match geometry {
                Some(g) => g,
                None => XyhwChange::none(),
            },
        };
        let mut requested = Xyhw::default();
        if let Some(h) = info.size_hint {
            h.update(&mut requested);
        }
        let (never_focus, urgent) = match info.wm_hints {
            Some(h) => (
                match h.input {
                    Some(i) => !i,
                    None => false,
                },
                h.urgent,
            ),
            None => (false, false),
        };
        let transient = match info.transient {
            Some(t) => Some(WindowHandle(t)),
            None => None,
        };
        let w = WindowCreate {
            handle: WindowHandle(window),
            name: info.name,
            legacy_name: info.legacy_name,
            res_name: info.res_name,
            res_class: info.res_class,
            pid: info.pid,
            window_type: info.window_type,
            states: info.states,
            transient,
            floating,
            requested,
            can_resize,
            never_focus,
            urgent,
            x: cursor.0,
            y: cursor.1,
        };
        Some(DisplayEvent::WindowCreate(w))
    }
}

/// The geometry that a window has when Xlib maps it.
pub open spec fn attrs_change(x: i32, y: i32, width: i32, height: i32) -> XyhwChange {
    XyhwChange {
        x: Some(x),
        y: Some(y),
        w: Some(width),
        h: Some(height),
        minw: None,
        maxw: None,
        minh: None,
        maxh: None,
    }
}

/// The size hints of a window, with the mapped size where it is larger.
pub open spec fn enlarged_hint(h: XyhwChange, mapped: XyhwChange) -> XyhwChange {
    XyhwChange { w: opt_max(mapped.w, h.w), h: opt_max(mapped.h, h.h), ..h }
}

/// The floating geometry of a window that Xlib maps: the mapped geometry, then
/// the (enlarged) size hints; without hints, the window's geometry where it was read.
pub open spec fn xlib_floating(mapped: XyhwChange, hint: Option<XyhwChange>, geometry: Option<XyhwChange>) -> XyhwChange {
    match hint {
        Some(h) => mapped.followed_by(enlarged_hint(h, mapped)),
        None => match geometry {
            Some(g) => mapped.followed_by(g),
            None => mapped,
        },
    }
}

/// The geometry that a window that Xlib maps asks for.
pub open spec fn xlib_requested(mapped: XyhwChange, hint: Option<XyhwChange>) -> Xyhw {
    match hint {
        Some(h) => enlarged_hint(h, mapped).applied_to(mapped.applied_to(Xyhw::spec_default())),
        None => mapped.applied_to(Xyhw::spec_default()),
    }
}

/// Sets up a window that Xlib maps (`setup_window` of the Xlib backend): as for
/// X11, but the window starts from its mapped geometry (`x`, `y`, `width`,
/// `height`), its size hints never shrink it, and without hints the geometry
/// read from the server (if any) is used. The pointer position is (0, 0) where
/// it could not be read.
pub fn setup_window_xlib(
    state: &XState,
    window: u32,
    override_redirect: bool,
    mapped: (i32, i32, i32, i32),
    info: WindowInfo,
    geometry: Option<XyhwChange>,
    cursor: Option<(i32, i32)>,
) -> (r: Option<DisplayEvent>)
    ensures
        !(!override_redirect && !state.managed_windows@.contains(window)) ==> r is None,
        (!override_redirect && !state.managed_windows@.contains(window)) ==> (r matches Some(
            DisplayEvent::WindowCreate(w),
        ) && {
            let m = attrs_change(mapped.0, mapped.1, mapped.2, mapped.3);
            &&& w == (WindowCreate {
                floating: xlib_floating(m, info.size_hint, geometry),
                requested: xlib_requested(m, info.size_hint),
                x: match cursor { Some(c) => c.0, None => 0 },
                y: match cursor { Some(c) => c.1, None => 0 },
                ..created_window(window, info, state.atoms.NetWMActionResize, None, (0, 0))
            })
        }),
{
    let xyhw = XyhwChange {
        x: Some(mapped.0),
        y: Some(mapped.1),
        w: Some(mapped.2),
        h: Some(mapped.3),
        minw: None,
        maxw: None,
        minh: None,
        maxh: None,
    };
    let hint = match info.size_hint {
        Some(h) => {
            let mut h = h;
            h.w = if xyhw.w.is_some() && h.w.is_some() {
                let a = xyhw.w.unwrap();
                let b = h.w.unwrap();
                Some(if a >= b { a } else { b })
            } else if xyhw.w.is_some() {
                xyhw.w
            } else {
                h.w
            };
            h.h = if xyhw.h.is_some() && h.h.is_some() {
                let a = xyhw.h.unwrap();
                let b = h.h.unwrap();
                Some(if a >= b { a } else { b })
            } else if xyhw.h.is_some() {
                xyhw.h
            } else {
                h.h
            };
            Some(h)
        },
        None => None,
    };
    let mut requested = Xyhw::default();
    xyhw.update(&mut requested);
    let floating = match hint {
        Some(h) => {
            h.update(&mut requested);
            xyhw.and_then_change(h)
        },
        None => match geometry {
            Some(g) => xyhw.and_then_change(g),
            None => xyhw,
        },
    };
    let c = match cursor {
        Some(c) => c,
        None => (0, 0),
    };
    match state.setup_window(window, override_redirect, info, None, c) {
        Some(DisplayEvent::WindowCreate(w)) => {
            Some(DisplayEvent::WindowCreate(WindowCreate { floating, requested, ..w }))
        },
        other => other,
    }
}

/// Whether a window the window manager is told of may be resized: any window
/// with size hints that is not a splash screen may; a splash screen with size
/// hints may where its minimum and maximum sizes are not all given, where it
/// says so in `_NET_WM_ALLOWED_ACTIONS`, or where the sizes differ (and not
/// where they are all given, equal, and it does not say so); a window without
/// size hints may exactly where it says so.
pub proof fn lemma_created_can_resize(
    window: u32,
    info: WindowInfo,
    atoms_resize: u32,
    geometry: Option<XyhwChange>,
    cursor: (i32, i32),
)
    ensures
        ({
            let can = created_window(window, info, atoms_resize, geometry, cursor).can_resize;
            let says = info.actions@.contains(atoms_resize);
            &&& info.size_hint is Some && info.window_type != WindowType::Splash ==> can
            &&& info.size_hint is None ==> can == says
            &&& says ==> can
            &&& (info.size_hint matches Some(h) && (h.minw is None || h.minh is None || h.maxw is None || h.maxh is None))
                ==> can
            &&& (info.size_hint matches Some(h) && h.minw != h.maxw) ==> can
            &&& (info.size_hint matches Some(h) && h.minh != h.maxh) ==> can
            &&& (info.size_hint matches Some(h) && info.window_type == WindowType::Splash && h.minw is Some && h.minh is Some
                && h.minw == h.maxw && h.minh == h.maxh) ==> can == says
        }),
{
}

/// What else the window manager is told of a new window: its handle, type,
/// states and pointer position as read; it is never focused exactly where its
/// `WM_HINTS` say it takes no input, and urgent exactly where they say so; it
/// floats where its size hints put it, or (without hints) where the server
/// put it, else nowhere in particular; it is transient for the window it
/// names.
pub proof fn lemma_created_window_fields(
    window: u32,
    info: WindowInfo,
    atoms_resize: u32,
    geometry: Option<XyhwChange>,
    cursor: (i32, i32),
)
    ensures
        ({
            let w = created_window(window, info, atoms_resize, geometry, cursor);
            &&& w.handle == WindowHandle(window)
            &&& w.window_type == info.window_type
            &&& w.states == info.states
            &&& w.x == cursor.0 && w.y == cursor.1
            &&& w.never_focus <==> (info.wm_hints matches Some(h) && h.input == Some(false))
            &&& w.urgent <==> (info.wm_hints matches Some(h) && h.urgent)
            &&& (info.size_hint matches Some(h) ==> w.floating == h)
            &&& (info.size_hint is None && geometry is Some ==> w.floating == geometry->Some_0)
            &&& info.size_hint is None && geometry is None ==> w.floating.x is None && w.floating.y is None
                && w.floating.w is None && w.floating.h is None
            &&& (info.transient matches Some(t) ==> w.transient == Some(WindowHandle(t)))
            &&& (info.transient is None ==> w.transient is None)
        }),
{
}

} // verus!
