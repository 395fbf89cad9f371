//! Showing and hiding windows, and the geometry sent to the X server.
use vstd::prelude::*;

use crate::error::BackendError;
use crate::error::{source_error, ErrorSource};
use crate::models::{FocusBehaviour, WindowHidingStrategy};
use crate::xatom::WMStateWindowState;

verus! {

/// The steps of showing or hiding a window, in
/// the order they are taken.
#[derive(Clone, Copy, Debug, PartialEq, Eq, Structural)]
pub struct VisibilityPlan {
    /// The strategy in force.
    pub strategy: WindowHidingStrategy,
    /// Whether the root stops listening for substructure changes meanwhile (so
    /// that the map or unmap is not reported back).
    pub mute_root: bool,
    /// Map the window.
    pub map: bool,
    /// Grab its clicks again, unless it is a dock.
    pub grab_clicks_unless_dock: bool,
    /// Release its clicks.
    pub ungrab_clicks: bool,
    /// Unmap it.
    pub unmap: bool,
    /// Move it out of view.
    pub move_out: bool,
    /// The `WM_STATE` it is given, if any.
    pub wm_state: Option<WMStateWindowState>,
}

/// How a window is shown (`visible`) or hidden with a strategy, the window's
/// own or else the default one.
pub open spec fn visibility_plan_spec(
    visible: bool,
    preferred: Option<WindowHidingStrategy>,
    default: WindowHidingStrategy,
    focus: FocusBehaviour,
) -> VisibilityPlan {
    let s = match preferred {
        Some(p) => p,
        None => default,
    };
    if visible {
        VisibilityPlan {
            strategy: s,
            mute_root: s == WindowHidingStrategy::Unmap,
            map: s == WindowHidingStrategy::Unmap,
            grab_clicks_unless_dock: focus is ClickTo,
            ungrab_clicks: false,
            unmap: false,
            move_out: false,
            wm_state: Some(WMStateWindowState::Normal),
        }
    } else {
        VisibilityPlan {
            strategy: s,
            mute_root: s == WindowHidingStrategy::Unmap,
            map: false,
            grab_clicks_unless_dock: false,
            ungrab_clicks: true,
            unmap: s == WindowHidingStrategy::Unmap,
            move_out: s != WindowHidingStrategy::Unmap,
            wm_state: if s == WindowHidingStrategy::Unmap || s == WindowHidingStrategy::MoveMinimize {
                Some(WMStateWindowState::Iconic)
            } else {
                None
            },
        }
    }
}

/// Plans showing or hiding a window (see `visibility_plan_spec`).
pub fn visibility_plan(
    visible: bool,
    preferred: Option<WindowHidingStrategy>,
    default: WindowHidingStrategy,
    focus: FocusBehaviour,
) -> (r: VisibilityPlan)
    ensures
        r == visibility_plan_spec(visible, preferred, default, focus),
{
    let s = match preferred {
        Some(p) => p,
        None => default,
    };
    let unmap_strategy = s == WindowHidingStrategy::Unmap;
    if visible {
        VisibilityPlan {
            strategy: s,
            mute_root: unmap_strategy,
            map: unmap_strategy,
            grab_clicks_unless_dock: focus.is_clickto(),
            ungrab_clicks: false,
            unmap: false,
            move_out: false,
            wm_state: Some(WMStateWindowState::Normal),
        }
    } else {
        VisibilityPlan {
            strategy: s,
            mute_root: unmap_strategy,
            map: false,
            grab_clicks_unless_dock: false,
            ungrab_clicks: true,
            unmap: unmap_strategy,
            move_out: !unmap_strategy,
            wm_state: if unmap_strategy || s == WindowHidingStrategy::MoveMinimize {
                Some(WMStateWindowState::Iconic)
            } else {
                None
            },
        }
    }
}

/// The size by which a window is moved out of view: its own width and height,
/// each replaced by the screen area's where it is not known.
pub open spec fn hidden_size(w: Option<i32>, h: Option<i32>, screen: (i32, i32)) -> (i32, i32) {
    (
        match w {
            Some(v) => v,
            None => screen.0,
        },
        match h {
            Some(v) => v,
            None => screen.1,
        },
    )
}

/// Whether the screen area is needed to move a window out of view.
pub fn needs_screen_area(w: Option<i32>, h: Option<i32>) -> (r: bool)
    ensures
        r == !(w is Some && h is Some),
{
    !(w.is_some() && h.is_some())
}

/// Where a hidden window is moved: twice its size up and to the left, so that
/// it is out of view but can still be captured.
pub fn hidden_position(w: Option<i32>, h: Option<i32>, screen: (i32, i32)) -> (r: (i32, i32))
    requires
        i32::MIN <= hidden_size(w, h, screen).0 * -2 <= i32::MAX,
        i32::MIN <= hidden_size(w, h, screen).1 * -2 <= i32::MAX,
    ensures
        r.0 == hidden_size(w, h, screen).0 * -2,
        r.1 == hidden_size(w, h, screen).1 * -2,
{
    let x = match w {
        Some(v) => v,
        None => screen.0,
    };
    let y = match h {
        Some(v) => v,
        None => screen.1,
    };
    (x * -2, y * -2)
}

/// Whether updating a window shows it (`Some(true)`), hides it
/// (`Some(false)`) or leaves it: it is shown when it should be visible and is
/// not in the normal state, hidden when it should not be and is not iconic.
pub fn visibility_toggle(visible: bool, state: WMStateWindowState) -> (r: Option<bool>)
    ensures
        r == (if visible && state != WMStateWindowState::Normal {
            Some(true)
        } else if !visible && state != WMStateWindowState::Iconic {
            Some(false)
        } else {
            None
        }),
{
    if visible && state != WMStateWindowState::Normal {
        Some(true)
    } else if !visible && state != WMStateWindowState::Iconic {
        Some(false)
    } else {
        None
    }
}

/// The Xlib form of `visibility_toggle`, on the raw `WM_STATE` value that Xlib
/// reads (1 is normal, 2 iconic).
pub fn visibility_toggle_xlib(visible: bool, state: i64) -> (r: Option<bool>)
    ensures
        r == (if visible && state != 1 {
            Some(true)
        } else if !visible && state != 2 {
            Some(false)
        } else {
            None
        }),
{
    if visible && state != 1 {
        Some(true)
    } else if !visible && state != 2 {
        Some(false)
    } else {
        None
    }
}

/// Whether an `i32` fits in a `u32`.
pub open spec fn fits_u32(v: i32) -> bool {
    v >= 0
}

/// The geometry sent to configure a window: its corner, and its width, height
/// and border as unsigned numbers; a negative one is an error of conversion.
pub fn window_config_values(x: i32, y: i32, width: i32, height: i32, border: i32) -> (r: Result<(i32, i32, u32, u32, u32), BackendError>)
    ensures
        (fits_u32(width) && fits_u32(height) && fits_u32(border)) ==> r == Ok::<(i32, i32, u32, u32, u32), BackendError>(
            (x, y, width as u32, height as u32, border as u32),
        ),
        !(fits_u32(width) && fits_u32(height) && fits_u32(border)) ==> r == Err::<(i32, i32, u32, u32, u32), BackendError>(
            source_error(ErrorSource::TryFromInt),
        ),
{
    if width < 0 || height < 0 || border < 0 {
        return Err(BackendError::int_conversion());
    }
    Ok((x, y, width as u32, height as u32, border as u32))
}

/// Whether a value fits in an `i16`.
pub open spec fn fits_i16(v: i32) -> bool {
    i16::MIN <= v <= i16::MAX
}

/// Whether a value fits in a `u16`.
pub open spec fn fits_u16(v: i32) -> bool {
    0 <= v <= u16::MAX
}

/// The geometry in a synthetic `ConfigureNotify`: the
/// corner as `i16` and the size and border as `u16`; a value out of range is an
/// error of conversion.
pub fn configure_notify_values(x: i32, y: i32, width: i32, height: i32, border: i32) -> (r: Result<(i16, i16, u16, u16, u16), BackendError>)
    ensures
        (fits_i16(x) && fits_i16(y) && fits_u16(width) && fits_u16(height) && fits_u16(border)) ==> r
            == Ok::<(i16, i16, u16, u16, u16), BackendError>(
            (x as i16, y as i16, width as u16, height as u16, border as u16),
        ),
        !(fits_i16(x) && fits_i16(y) && fits_u16(width) && fits_u16(height) && fits_u16(border)) ==> r
            == Err::<(i16, i16, u16, u16, u16), BackendError>(source_error(ErrorSource::TryFromInt)),
{
    if x < -32768 || x > 32767 || y < -32768 || y > 32767 {
        return Err(BackendError::int_conversion());
    }
    if width < 0 || width > 65535 || height < 0 || height > 65535 || border < 0 || border > 65535 {
        return Err(BackendError::int_conversion());
    }
    Ok((x as i16, y as i16, width as u16, height as u16, border as u16))
}

/// What showing or hiding does under each strategy (the window's own, else
/// the default): hiding always takes the window out of view, by unmapping it
/// under `Unmap` and by moving it away under any other strategy, and never
/// maps it; `Unmap` and `MoveMinimize` mark it iconic, `MoveOnly` leaves its
/// `WM_STATE` alone; showing never unmaps or moves it away, maps it again
/// under `Unmap` only, and marks it normal.
pub proof fn lemma_visibility_plan_hides_and_shows(
    visible: bool,
    preferred: Option<WindowHidingStrategy>,
    default: WindowHidingStrategy,
    focus: FocusBehaviour,
)
    ensures
        ({
            let r = visibility_plan_spec(visible, preferred, default, focus);
            let s = match preferred { Some(p) => p, None => default };
            &&& r.strategy == s
            &&& !visible ==> r.unmap || r.move_out
            &&& !visible ==> !r.map && r.ungrab_clicks
            &&& !visible && s != WindowHidingStrategy::Unmap ==> r.move_out && !r.unmap
            &&& !visible && s == WindowHidingStrategy::Unmap ==> r.unmap && !r.move_out
            &&& !visible && (s == WindowHidingStrategy::Unmap || s == WindowHidingStrategy::MoveMinimize) ==> r.wm_state
                == Some(WMStateWindowState::Iconic)
            &&& !visible && s == WindowHidingStrategy::MoveOnly ==> r.wm_state is None
            &&& visible ==> !r.unmap && !r.move_out && !r.ungrab_clicks
            &&& visible ==> (r.map <==> s == WindowHidingStrategy::Unmap)
            &&& visible ==> r.wm_state == Some(WMStateWindowState::Normal)
            &&& r.mute_root <==> s == WindowHidingStrategy::Unmap
        }),
{
}

} // verus!
