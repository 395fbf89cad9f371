//! The values that a display server exchanges with the window manager.
use vstd::prelude::*;

verus! {

/// A bounding box on the screen.
#[derive(Clone, Copy, Debug, PartialEq, Eq, Structural, Default)]
pub struct BBox {
    pub x: i32,
    pub y: i32,
    pub width: i32,
    pub height: i32,
}

/// A position and size, with the size limits of a window.
#[derive(Clone, Copy, Debug, PartialEq, Eq, Structural)]
pub struct Xyhw {
    pub x: i32,
    pub y: i32,
    pub h: i32,
    pub w: i32,
    pub minw: i32,
    pub maxw: i32,
    pub minh: i32,
    pub maxh: i32,
}

/// The size limits of a geometry that nothing limits.
pub const NO_MIN: i32 = -999_999_999;
pub const NO_MAX: i32 = 999_999_999;

impl Xyhw {
    /// The geometry at the origin, of size zero, without size limits.
    pub open spec fn spec_default() -> Xyhw {
        Xyhw { x: 0, y: 0, h: 0, w: 0, minw: NO_MIN, maxw: NO_MAX, minh: NO_MIN, maxh: NO_MAX }
    }
}

impl Default for Xyhw {
    fn default() -> (r: Xyhw)
        ensures
            r == Xyhw::spec_default(),
    {
        Xyhw { x: 0, y: 0, h: 0, w: 0, minw: NO_MIN, maxw: NO_MAX, minh: NO_MIN, maxh: NO_MAX }
    }
}

/// A partial change of a geometry: each field that is set replaces the old one.
#[derive(Clone, Copy, Debug, PartialEq, Eq, Structural)]
pub struct XyhwChange {
    pub x: Option<i32>,
    pub y: Option<i32>,
    pub w: Option<i32>,
    pub h: Option<i32>,
    pub minw: Option<i32>,
    pub maxw: Option<i32>,
    pub minh: Option<i32>,
    pub maxh: Option<i32>,
}

/// The value of an optional field after a change: the new value if there is one.
pub open spec fn take_or(new: Option<i32>, old: i32) -> i32 {
    match new {
        Some(v) => v,
        None => old,
    }
}

/// The field of a later change where it has one, else that of the earlier.
pub open spec fn later_or(later: Option<i32>, earlier: Option<i32>) -> Option<i32> {
    match later {
        Some(v) => Some(v),
        None => earlier,
    }
}

impl XyhwChange {
    /// The change that makes one change and then another.
    pub open spec fn followed_by(self, later: XyhwChange) -> XyhwChange {
        XyhwChange {
            x: later_or(later.x, self.x),
            y: later_or(later.y, self.y),
            w: later_or(later.w, self.w),
            h: later_or(later.h, self.h),
            minw: later_or(later.minw, self.minw),
            maxw: later_or(later.maxw, self.maxw),
            minh: later_or(later.minh, self.minh),
            maxh: later_or(later.maxh, self.maxh),
        }
    }

    /// The change that sets every field to that of a geometry.
    pub open spec fn spec_from_xyhw(g: Xyhw) -> XyhwChange {
        XyhwChange {
            x: Some(g.x),
            y: Some(g.y),
            w: Some(g.w),
            h: Some(g.h),
            minw: Some(g.minw),
            maxw: Some(g.maxw),
            minh: Some(g.minh),
            maxh: Some(g.maxh),
        }
    }

    /// The change that sets every field to that of a geometry.
    pub fn from_xyhw(g: Xyhw) -> (r: XyhwChange)
        ensures
            r == Self::spec_from_xyhw(g),
    {
        XyhwChange {
            x: Some(g.x),
            y: Some(g.y),
            w: Some(g.w),
            h: Some(g.h),
            minw: Some(g.minw),
            maxw: Some(g.maxw),
            minh: Some(g.minh),
            maxh: Some(g.maxh),
        }
    }

    /// Makes this change and then `later`.
    pub fn and_then_change(self, later: XyhwChange) -> (r: XyhwChange)
        ensures
            r == self.followed_by(later),
    {
        XyhwChange {
            x: if later.x.is_some() { later.x } else { self.x },
            y: if later.y.is_some() { later.y } else { self.y },
            w: if later.w.is_some() { later.w } else { self.w },
            h: if later.h.is_some() { later.h } else { self.h },
            minw: if later.minw.is_some() { later.minw } else { self.minw },
            maxw: if later.maxw.is_some() { later.maxw } else { self.maxw },
            minh: if later.minh.is_some() { later.minh } else { self.minh },
            maxh: if later.maxh.is_some() { later.maxh } else { self.maxh },
        }
    }

    /// The change that changes nothing.
    pub fn none() -> (r: XyhwChange)
        ensures
            r.is_empty(),
    {
        XyhwChange {
            x: None,
            y: None,
            w: None,
            h: None,
            minw: None,
            maxw: None,
            minh: None,
            maxh: None,
        }
    }

    pub open spec fn is_empty(self) -> bool {
        &&& self.x is None
        &&& self.y is None
        &&& self.w is None
        &&& self.h is None
        &&& self.minw is None
        &&& self.maxw is None
        &&& self.minh is None
        &&& self.maxh is None
    }

    /// The geometry `old` after this change.
    pub open spec fn applied_to(self, old: Xyhw) -> Xyhw {
        Xyhw {
            x: take_or(self.x, old.x),
            y: take_or(self.y, old.y),
            h: take_or(self.h, old.h),
            w: take_or(self.w, old.w),
            minw: take_or(self.minw, old.minw),
            maxw: take_or(self.maxw, old.maxw),
            minh: take_or(self.minh, old.minh),
            maxh: take_or(self.maxh, old.maxh),
        }
    }

    /// Applies this change to `xyhw`; returns whether a field changed value.
    pub fn update(&self, xyhw: &mut Xyhw) -> (changed: bool)
        ensures
            *final(xyhw) == self.applied_to(*old(xyhw)),
            changed == (*final(xyhw) != *old(xyhw)),
    {
        let before = *xyhw;
        if let Some(v) = self.x {
            xyhw.x = v;
        }
        if let Some(v) = self.y {
            xyhw.y = v;
        }
        if let Some(v) = self.h {
            xyhw.h = v;
        }
        if let Some(v) = self.w {
            xyhw.w = v;
        }
        if let Some(v) = self.minw {
            xyhw.minw = v;
        }
        if let Some(v) = self.maxw {
            xyhw.maxw = v;
        }
        if let Some(v) = self.minh {
            xyhw.minh = v;
        }
        if let Some(v) = self.maxh {
            xyhw.maxh = v;
        }
        let after = *xyhw;
        after.x != before.x || after.y != before.y || after.h != before.h || after.w != before.w
            || after.minw != before.minw || after.maxw != before.maxw || after.minh
            != before.minh || after.maxh != before.maxh
    }
}


/// The reserved screen edges of a dock (`_NET_WM_STRUT_PARTIAL` / `_NET_WM_STRUT`).
#[derive(Clone, Copy, Debug, PartialEq, Eq, Structural)]
pub struct DockArea {
    pub left: i32,
    pub right: i32,
    pub top: i32,
    pub bottom: i32,
    pub left_start_y: i32,
    pub left_end_y: i32,
    pub right_start_y: i32,
    pub right_end_y: i32,
    pub top_start_x: i32,
    pub top_end_x: i32,
    pub bottom_start_x: i32,
    pub bottom_end_x: i32,
}

/// A handle of an X11 window as the window manager knows it.
#[derive(Clone, Copy, Debug, PartialEq, Eq, Structural)]
pub struct WindowHandle(pub u32);

/// A physical screen (an output) with the area that it shows.
#[derive(Clone, Debug)]
pub struct Screen {
    pub root: WindowHandle,
    pub output: String,
    pub id: Option<usize>,
    pub bbox: BBox,
}

/// The type of a window (`_NET_WM_WINDOW_TYPE`).
#[derive(Clone, Copy, Debug, PartialEq, Eq, Structural)]
pub enum WindowType {
    Desktop,
    Dock,
    Toolbar,
    Menu,
    Utility,
    Splash,
    Dialog,
    WlrSurface,
    Normal,
}

/// A state of a window (`_NET_WM_STATE`).
#[derive(Clone, Copy, Debug, PartialEq, Eq, Structural)]
pub enum WindowState {
    Modal,
    Sticky,
    MaximizedVert,
    MaximizedHorz,
    Maximized,
    Shaded,
    SkipTaskbar,
    SkipPager,
    Hidden,
    Fullscreen,
    Above,
    Below,
}

/// How the pointer is being used: normally, or to move or resize a window.
#[derive(Clone, Copy, Debug, PartialEq, Eq, Structural)]
pub enum Mode {
    ReadyToResize(WindowHandle),
    ReadyToMove(WindowHandle),
    ResizingWindow(WindowHandle),
    MovingWindow(WindowHandle),
    Normal,
}

/// How focus follows the pointer.
#[derive(Clone, Copy, Debug, PartialEq, Eq, Structural)]
pub enum FocusBehaviour {
    Sloppy,
    ClickTo,
    Driven,
}

impl FocusBehaviour {
    pub open spec fn spec_is_sloppy(self) -> bool {
        self is Sloppy
    }

    /// Whether focus follows the pointer.
    #[verifier::when_used_as_spec(spec_is_sloppy)]
    pub fn is_sloppy(self) -> (r: bool)
        ensures
            r == (self is Sloppy),
    {
        match self {
            FocusBehaviour::Sloppy => true,
            _ => false,
        }
    }

    pub open spec fn spec_is_clickto(self) -> bool {
        self is ClickTo
    }

    /// Whether a click is needed to focus a window.
    #[verifier::when_used_as_spec(spec_is_clickto)]
    pub fn is_clickto(self) -> (r: bool)
        ensures
            r == (self is ClickTo),
    {
        match self {
            FocusBehaviour::ClickTo => true,
            _ => false,
        }
    }
}

/// How a window that leaves the screen is hidden.
#[derive(Clone, Copy, Debug, PartialEq, Eq, Structural)]
pub enum WindowHidingStrategy {
    Unmap,
    MoveMinimize,
    MoveOnly,
}

/// A change of a window's properties, sent to the window manager.
#[derive(Clone, Debug)]
pub struct WindowChange {
    pub handle: WindowHandle,
    pub transient: Option<Option<WindowHandle>>,
    pub never_focus: Option<bool>,
    pub urgent: Option<bool>,
    pub name: Option<Option<String>>,
    pub window_type: Option<WindowType>,
    pub floating: Option<XyhwChange>,
    pub strut: Option<XyhwChange>,
    pub requested: Option<Xyhw>,
    pub states: Option<Vec<WindowState>>,
}

impl WindowChange {
    pub open spec fn spec_new(handle: WindowHandle) -> WindowChange {
        WindowChange {
            handle,
            transient: None,
            never_focus: None,
            urgent: None,
            name: None,
            window_type: None,
            floating: None,
            strut: None,
            requested: None,
            states: None,
        }
    }

    /// A change of `handle` that changes nothing yet.
    pub fn new(handle: WindowHandle) -> (r: WindowChange)
        ensures
            r == Self::spec_new(handle),
    {
        WindowChange {
            handle,
            transient: None,
            never_focus: None,
            urgent: None,
            name: None,
            window_type: None,
            floating: None,
            strut: None,
            requested: None,
            states: None,
        }
    }
}

/// A command that the window manager runs on request of a client.
#[derive(Clone, Copy, Debug, PartialEq, Eq, Structural)]
pub enum Command {
    GoToTag { tag: usize, swap: bool },
    SendWindowToTag { tag: usize, window: Option<WindowHandle> },
}

/// An event that the display server reports to the window manager.
#[derive(Clone, Debug)]
pub enum DisplayEvent {
    ScreenCreate(Screen),
    WindowCreate(WindowCreate),
    WindowChange(WindowChange),
    WindowDestroy(WindowHandle),
    WindowTakeFocus(WindowHandle),
    VerifyFocusedAt(WindowHandle),
    MoveFocusTo(i32, i32),
    ConfigureXlibWindow(WindowHandle),
    MoveWindow(WindowHandle, i32, i32),
    ResizeWindow(WindowHandle, i32, i32),
    Movement(WindowHandle, i32, i32),
    MouseCombo(u16, u8, WindowHandle, i32, i32),
    ChangeToNormalMode,
    SendCommand(Command),
}

/// A newly seen window, with what the display server learnt of it.
#[derive(Clone, Debug)]
pub struct WindowCreate {
    pub handle: WindowHandle,
    pub name: Option<String>,
    pub legacy_name: Option<String>,
    pub res_name: Option<String>,
    pub res_class: Option<String>,
    pub pid: Option<u32>,
    pub window_type: WindowType,
    pub states: Vec<WindowState>,
    pub transient: Option<WindowHandle>,
    pub floating: XyhwChange,
    pub requested: Xyhw,
    pub can_resize: bool,
    pub never_focus: bool,
    pub urgent: bool,
    pub x: i32,
    pub y: i32,
}

} // verus!
