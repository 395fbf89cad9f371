//! Property changes and configure requests of managed windows.
use vstd::prelude::*;

use crate::dock::{bbox_fits, dock_anchor, dock_space, dock_space_fits, fits_i32, geometry, bbox_contains_point};
use crate::events::{contains_u32, ConfigureRequest, PropertyNotify, XState};
use crate::hints::WmHints;
use crate::models::{
    DisplayEvent, DockArea, Screen, WindowChange, WindowHandle, WindowType, Xyhw, XyhwChange,
};

verus! {

/// The predefined atoms of X11 that property changes are told apart by.
pub const ATOM_WM_HINTS: u8 = 35;
pub const ATOM_WM_NAME: u8 = 39;
pub const ATOM_WM_NORMAL_HINTS: u8 = 40;
pub const ATOM_WM_TRANSIENT_FOR: u8 = 68;

/// Which property of a managed window changed, as far as the window manager cares.
#[derive(Clone, Copy, Debug, PartialEq, Eq, Structural)]
pub enum PropertyKind {
    Ignore,
    TransientFor,
    NormalHints,
    Hints,
    Title,
    /// A strut: for `_NET_WM_STRUT_PARTIAL` only of a dock; where nothing comes of
    /// it, the property may still be `_NET_WM_STATE`.
    Strut { dock_only: bool, then_states: bool },
    States,
}

/// The kind of a property change. Only changes (not deletions) of managed
/// windows other than the root count, and only of atoms that have a name; the
/// predefined atoms are told apart by the low byte of the atom.
pub open spec fn property_kind(s: XState, e: PropertyNotify, atom_known: bool) -> PropertyKind {
    if e.window == s.root || e.deleted || !s.managed_windows@.contains(e.window) || !atom_known {
        PropertyKind::Ignore
    } else if e.atom as u8 == ATOM_WM_TRANSIENT_FOR {
        PropertyKind::TransientFor
    } else if e.atom as u8 == ATOM_WM_NORMAL_HINTS {
        PropertyKind::NormalHints
    } else if e.atom as u8 == ATOM_WM_HINTS {
        PropertyKind::Hints
    } else if e.atom as u8 == ATOM_WM_NAME || e.atom == s.atoms.NetWMName {
        PropertyKind::Title
    } else if e.atom == s.atoms.NetWMStrut {
        PropertyKind::Strut { dock_only: false, then_states: e.atom == s.atoms.NetWMState }
    } else if e.atom == s.atoms.NetWMStrutPartial {
        PropertyKind::Strut { dock_only: true, then_states: e.atom == s.atoms.NetWMState }
    } else if e.atom == s.atoms.NetWMState {
        PropertyKind::States
    } else {
        PropertyKind::Ignore
    }
}

impl XState {
    /// Classifies a property change (`atom_known`: the atom's name could be read).
    pub fn property_kind(&self, event: PropertyNotify, atom_known: bool) -> (r: PropertyKind)
        ensures
            r == property_kind(*self, event, atom_known),
    {
        if event.window == self.root || event.deleted || !contains_u32(&self.managed_windows, event.window)
            || !atom_known {
            return PropertyKind::Ignore;
        }
        let low = event.atom as u8;
        if low == ATOM_WM_TRANSIENT_FOR {
            PropertyKind::TransientFor
        } else if low == ATOM_WM_NORMAL_HINTS {
            PropertyKind::NormalHints
        } else if low == ATOM_WM_HINTS {
            PropertyKind::Hints
        } else if low == ATOM_WM_NAME || event.atom == self.atoms.NetWMName {
            PropertyKind::Title
        } else if event.atom == self.atoms.NetWMStrut {
            PropertyKind::Strut { dock_only: false, then_states: event.atom == self.atoms.NetWMState }
        } else if event.atom == self.atoms.NetWMStrutPartial {
            PropertyKind::Strut { dock_only: true, then_states: event.atom == self.atoms.NetWMState }
        } else if event.atom == self.atoms.NetWMState {
            PropertyKind::States
        } else {
            PropertyKind::Ignore
        }
    }
}

/// A changed `WM_TRANSIENT_FOR`: the window's parent, reported for windows that
/// are not normal ones (their parent is read only then).
pub fn transient_change(window: u32, window_type: WindowType, transient: Option<u32>) -> (r: DisplayEvent)
    ensures
        r == DisplayEvent::WindowChange(
            WindowChange {
                transient: if window_type != WindowType::Normal {
                    Some(match transient { Some(t) => Some(WindowHandle(t)), None => None })
                } else {
                    None
                },
                ..WindowChange::spec_new(WindowHandle(window))
            },
        ),
{
    let mut change = WindowChange::new(WindowHandle(window));
    if window_type != WindowType::Normal {
        change.transient = match transient {
            Some(t) => Some(Some(WindowHandle(t))),
            None => Some(None),
        };
    }
    DisplayEvent::WindowChange(change)
}

/// Changed size hints: the geometry that the window asks for, where the hints
/// give a position or size.
pub fn normal_hints_change(window: u32, hint: Option<XyhwChange>) -> (r: Option<DisplayEvent>)
    ensures
        match hint {
            None => r is None,
            Some(h) => if h.x is None && h.y is None && h.w is None && h.h is None {
                r is None
            } else {
                r == Some(
                    DisplayEvent::WindowChange(
                        WindowChange {
                            requested: Some(h.applied_to(Xyhw::spec_default())),
                            ..WindowChange::spec_new(WindowHandle(window))
                        },
                    ),
                )
            },
        },
{
    let hint = match hint {
        Some(h) => h,
        None => return None,
    };
    if hint.x.is_none() && hint.y.is_none() && hint.w.is_none() && hint.h.is_none() {
        return None;
    }
    let mut xyhw = Xyhw::default();
    hint.update(&mut xyhw);
    let mut change = WindowChange::new(WindowHandle(window));
    change.requested = Some(xyhw);
    Some(DisplayEvent::WindowChange(change))
}

/// Changed `WM_HINTS`: whether the window refuses the focus (where it says) and
/// whether it is urgent; nothing for a window without hints.
pub fn hints_change(window: u32, hints: Option<WmHints>) -> (r: Option<DisplayEvent>)
    ensures
        match hints {
            None => r is None,
            Some(h) => r == Some(
                DisplayEvent::WindowChange(
                    WindowChange {
                        never_focus: match h.input { Some(i) => Some(!i), None => None },
                        urgent: Some(h.urgent),
                        ..WindowChange::spec_new(WindowHandle(window))
                    },
                ),
            ),
        },
{
    let h = match hints {
        Some(h) => h,
        None => return None,
    };
    let mut change = WindowChange::new(WindowHandle(window));
    change.never_focus = match h.input {
        Some(i) => Some(!i),
        None => None,
    };
    change.urgent = Some(h.urgent);
    Some(DisplayEvent::WindowChange(change))
}

/// A changed title: the window's name as read.
pub fn title_change(window: u32, name: Option<String>) -> (r: DisplayEvent)
    ensures
        r == DisplayEvent::WindowChange(
            WindowChange { name: Some(name), ..WindowChange::spec_new(WindowHandle(window)) },
        ),
{
    let mut change = WindowChange::new(WindowHandle(window));
    change.name = Some(name);
    DisplayEvent::WindowChange(change)
}

/// The first screen that a dock area belongs to.
pub open spec fn dock_screen(screens: Seq<Screen>, d: DockArea, dims: (i32, i32)) -> Option<Screen>
    decreases screens.len(),
{
    if screens.len() == 0 {
        None
    } else if dock_anchor(d, screens[0].bbox, dims) matches Some(p) && bbox_contains_point(screens[0].bbox, p.0, p.1) {
        Some(screens[0])
    } else {
        dock_screen(screens.drop_first(), d, dims)
    }
}

/// Whether the geometry of a dock can be computed in 32 bits on every screen.
pub open spec fn dock_fits(screens: Seq<Screen>, d: DockArea, dims: (i32, i32)) -> bool {
    &&& fits_i32(dims.0 - d.bottom)
    &&& fits_i32(dims.1 - d.right)
    &&& forall|i: int| 0 <= i < screens.len() ==> dock_space_fits(d, dims.0 as int, dims.1 as int, #[trigger] screens[i].bbox)
}

/// The space of a dock: from its strut on the screen that the strut belongs to
/// (nothing where there is no such screen, or the strut reserves nothing), or
/// without a strut its geometry (if read).
pub open spec fn dock_geometry_spec(dock: Option<DockArea>, geo: Option<XyhwChange>, screens: Seq<Screen>, dims: (i32, i32)) -> Option<Xyhw> {
    match dock {
        Some(d) => match dock_screen(screens, d, dims) {
            None => None,
            Some(s) => match dock_space(d, dims.0 as int, dims.1 as int, s.bbox) {
                None => None,
                Some(sp) => Some(geometry(sp.0, sp.1, sp.2, sp.3)),
            },
        },
        None => match geo {
            Some(g) => Some(g.applied_to(Xyhw::spec_default())),
            None => None,
        },
    }
}

/// Computes the space of a dock (see `dock_geometry_spec`).
pub fn dock_geometry(dock: Option<DockArea>, geo: Option<XyhwChange>, screens: &[Screen], dims: (i32, i32)) -> (r: Option<Xyhw>)
    requires
        dock matches Some(d) ==> dock_fits(screens@, d, dims),
    ensures
        r == dock_geometry_spec(dock, geo, screens@, dims),
{
    match dock {
        Some(d) => {
            let mut i: usize = 0;
            assert(screens@.skip(0) =~= screens@);
            while i < screens.len()
                invariant
                    i <= screens@.len(),
                    dock == Some(d),
                    dock_fits(screens@, d, dims),
                    dock_screen(screens@, d, dims) == dock_screen(screens@.skip(i as int), d, dims),
                decreases screens@.len() - i,
            {
                assert(screens@.skip(i as int).drop_first() =~= screens@.skip(i + 1));
                assert(dock_space_fits(d, dims.0 as int, dims.1 as int, screens@[i as int].bbox));
                assert(screens@.skip(i as int)[0] == screens@[i as int]);
                if screens[i].contains_dock_area(d, dims) {
                    assert(dock_screen(screens@, d, dims) == Some(screens@[i as int]));
                    return d.as_xyhw(dims.0, dims.1, &screens[i]);
                }
                i = i + 1;
            }
            None
        },
        None => match geo {
            Some(g) => {
                let mut xyhw = Xyhw::default();
                g.update(&mut xyhw);
                Some(xyhw)
            },
            None => None,
        },
    }
}

/// A changed strut of a dock: its space,
/// reported as its floating geometry with its type.
pub fn strut_change(window: u32, window_type: WindowType, space: Option<Xyhw>) -> (r: Option<DisplayEvent>)
    ensures
        match space {
            None => r is None,
            Some(g) => r == Some(
                DisplayEvent::WindowChange(
                    WindowChange {
                        floating: Some(XyhwChange::spec_from_xyhw(g)),
                        window_type: Some(window_type),
                        ..WindowChange::spec_new(WindowHandle(window))
                    },
                ),
            ),
        },
{
    let g = match space {
        Some(g) => g,
        None => return None,
    };
    let mut change = WindowChange::new(WindowHandle(window));
    change.floating = Some(XyhwChange::from_xyhw(g));
    change.window_type = Some(window_type);
    Some(DisplayEvent::WindowChange(change))
}

/// The space that a newly managed dock or desktop window reserves, reported as its strut with its type.
pub fn managed_strut_change(window: u32, window_type: WindowType, space: Option<Xyhw>) -> (r: Option<DisplayEvent>)
    ensures
        match space {
            None => r is None,
            Some(g) => r == Some(
                DisplayEvent::WindowChange(
                    WindowChange {
                        strut: Some(XyhwChange::spec_from_xyhw(g)),
                        window_type: Some(window_type),
                        ..WindowChange::spec_new(WindowHandle(window))
                    },
                ),
            ),
        },
{
    let g = match space {
        Some(g) => g,
        None => return None,
    };
    let mut change = WindowChange::new(WindowHandle(window));
    change.strut = Some(XyhwChange::from_xyhw(g));
    change.window_type = Some(window_type);
    Some(DisplayEvent::WindowChange(change))
}

/// The geometry to give a window that is not managed, as its configure request asks.
#[derive(Clone, Copy, Debug, PartialEq, Eq, Structural)]
pub struct ConfigureChanges {
    pub x: i32,
    pub y: i32,
    pub width: u32,
    pub height: u32,
    pub border_width: u32,
    pub sibling: u32,
    pub stack_mode: u32,
}

impl XState {
    /// A configure request of a window that is not managed is granted as asked
    /// (then the window is moved and resized to it); that of a managed one is not.
    pub fn configure_request_changes(&self, event: ConfigureRequest) -> (r: Option<ConfigureChanges>)
        ensures
            self.managed_windows@.contains(event.window) ==> r is None,
            !self.managed_windows@.contains(event.window) ==> r == Some(
                ConfigureChanges {
                    x: event.x as i32,
                    y: event.y as i32,
                    width: event.width as u32,
                    height: event.height as u32,
                    border_width: event.border_width as u32,
                    sibling: event.sibling,
                    stack_mode: event.stack_mode,
                },
            ),
    {
        if contains_u32(&self.managed_windows, event.window) {
            return None;
        }
        Some(
            ConfigureChanges {
                x: event.x as i32,
                y: event.y as i32,
                width: event.width as u32,
                height: event.height as u32,
                border_width: event.border_width as u32,
                sibling: event.sibling,
                stack_mode: event.stack_mode,
            },
        )
    }
}

/// The answer to a configure request of a managed window: a normal window
/// without a parent is configured by the window manager; a dialog or a normal
/// window with a parent gets the size it asks for as its floating geometry, any
/// other window also the position.
pub fn configure_request_event(event: ConfigureRequest, window_type: WindowType, transient: Option<u32>) -> (r: DisplayEvent)
    ensures
        window_type == WindowType::Normal && transient is None ==> r == DisplayEvent::ConfigureXlibWindow(
            WindowHandle(event.window),
        ),
        !(window_type == WindowType::Normal && transient is None) ==> r == DisplayEvent::WindowChange(
            WindowChange {
                floating: Some(
                    XyhwChange {
                        w: Some(event.width as i32),
                        h: Some(event.height as i32),
                        x: if window_type == WindowType::Dialog || window_type == WindowType::Normal {
                            None
                        } else {
                            Some(event.x as i32)
                        },
                        y: if window_type == WindowType::Dialog || window_type == WindowType::Normal {
                            None
                        } else {
                            Some(event.y as i32)
                        },
                        minw: None,
                        maxw: None,
                        minh: None,
                        maxh: None,
                    },
                ),
                ..WindowChange::spec_new(WindowHandle(event.window))
            },
        ),
{
    let handle = WindowHandle(event.window);
    if window_type == WindowType::Normal && transient.is_none() {
        return DisplayEvent::ConfigureXlibWindow(handle);
    }
    let mut change = WindowChange::new(handle);
    let xyhw = match window_type {
        WindowType::Dialog | WindowType::Normal => XyhwChange {
            w: Some(event.width as i32),
            h: Some(event.height as i32),
            ..XyhwChange::none()
        },
        _ => XyhwChange {
            w: Some(event.width as i32),
            h: Some(event.height as i32),
            x: Some(event.x as i32),
            y: Some(event.y as i32),
            ..XyhwChange::none()
        },
    };
    change.floating = Some(xyhw);
    DisplayEvent::WindowChange(change)
}

} // verus!
