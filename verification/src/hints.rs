//! Size hints (`WM_NORMAL_HINTS`) and window-manager hints (`WM_HINTS`).
use vstd::prelude::*;

use crate::models::XyhwChange;

verus! {

/// The `WM_SIZE_HINTS` of a window, each field present where its flag is set.
#[derive(Clone, Copy, Debug)]
pub struct SizeHints {
    pub position: Option<(i32, i32)>,
    pub size: Option<(i32, i32)>,
    pub min_size: Option<(i32, i32)>,
    pub max_size: Option<(i32, i32)>,
    pub size_increment: Option<(i32, i32)>,
    pub base_size: Option<(i32, i32)>,
}

/// The larger of two optional values, where no value is smaller than any value.
pub open spec fn opt_max(a: Option<i32>, b: Option<i32>) -> Option<i32> {
    match (a, b) {
        (Some(x), Some(y)) => Some(if x >= y { x } else { y }),
        (Some(x), None) => Some(x),
        (None, Some(y)) => Some(y),
        (None, None) => None,
    }
}

/// An optional size where a size of zero counts as none.
pub open spec fn nonzero(a: Option<i32>) -> Option<i32> {
    match a {
        Some(0) => None,
        _ => a,
    }
}

fn opt_max_exec(a: Option<i32>, b: Option<i32>) -> (r: Option<i32>)
    ensures
        r == opt_max(a, b),
{
    match (a, b) {
        (Some(x), Some(y)) => Some(if x >= y { x } else { y }),
        (Some(x), None) => Some(x),
        (None, Some(y)) => Some(y),
        (None, None) => None,
    }
}

fn nonzero_exec(a: Option<i32>) -> (r: Option<i32>)
    ensures
        r == nonzero(a),
{
    match a {
        Some(0) => None,
        _ => a,
    }
}

/// The width and height that the hints ask for before the minimum applies: the
/// increment if set, else the size, else the base size.
pub open spec fn requested_size(h: SizeHints) -> Option<(i32, i32)> {
    if h.size_increment is Some {
        h.size_increment
    } else if h.size is Some {
        h.size
    } else {
        h.base_size
    }
}

pub open spec fn fst(p: Option<(i32, i32)>) -> Option<i32> {
    match p {
        Some(v) => Some(v.0),
        None => None,
    }
}

pub open spec fn snd(p: Option<(i32, i32)>) -> Option<i32> {
    match p {
        Some(v) => Some(v.1),
        None => None,
    }
}

/// The geometry change that size hints stand for.
pub open spec fn hint_change(h: SizeHints) -> XyhwChange {
    XyhwChange {
        x: fst(h.position),
        y: snd(h.position),
        w: nonzero(opt_max(fst(requested_size(h)), fst(h.min_size))),
        h: nonzero(opt_max(snd(requested_size(h)), snd(h.min_size))),
        minw: fst(h.min_size),
        maxw: fst(h.max_size),
        minh: snd(h.min_size),
        maxh: snd(h.max_size),
    }
}

/// Returns the size hints of a window (if it has them) as a geometry change.
pub fn get_hint_sizing_as_xyhw(hints: Option<SizeHints>) -> (r: Option<XyhwChange>)
    ensures
        match hints {
            None => r is None,
            Some(h) => r == Some(hint_change(h)),
        },
{
    match hints {
        None => None,
        Some(size) => {
            let mut xyhw = XyhwChange::none();
            if let Some((width, height)) = size.size {
                xyhw.w = Some(width);
                xyhw.h = Some(height);
            } else if let Some((width, height)) = size.base_size {
                xyhw.w = Some(width);
                xyhw.h = Some(height);
            }
            if let Some((width, height)) = size.size_increment {
                xyhw.w = Some(width);
                xyhw.h = Some(height);
            }
            if let Some((max_width, max_height)) = size.max_size {
                xyhw.maxw = Some(max_width);
                xyhw.maxh = Some(max_height);
            }
            if let Some((min_width, min_height)) = size.min_size {
                xyhw.minw = Some(min_width);
                xyhw.minh = Some(min_height);
            }
            // Width and height are not smaller than the minimum.
            xyhw.w = opt_max_exec(xyhw.w, xyhw.minw);
            xyhw.h = opt_max_exec(xyhw.h, xyhw.minh);
            // A size of 0 is no size.
            xyhw.w = nonzero_exec(xyhw.w);
            xyhw.h = nonzero_exec(xyhw.h);
            if let Some((x, y)) = size.position {
                xyhw.x = Some(x);
                xyhw.y = Some(y);
            }
            Some(xyhw)
        },
    }
}

/// Size hints never ask for a width or height of zero, nor for one below the
/// minimum that they set.
pub proof fn lemma_hint_sizes_respect_minimum(h: SizeHints)
    ensures
        hint_change(h).w != Some(0i32),
        hint_change(h).h != Some(0i32),
        hint_change(h).w matches Some(w) ==> (hint_change(h).minw matches Some(m) ==> w >= m),
        hint_change(h).h matches Some(v) ==> (hint_change(h).minh matches Some(m) ==> v >= m),
        h.min_size matches Some(m) ==> (m.0 > 0 ==> hint_change(h).w is Some),
{
}

/// Xlib's `XSizeHints` flags.
pub const US_POSITION: i64 = 1;
pub const US_SIZE: i64 = 2;
pub const P_POSITION: i64 = 4;
pub const P_SIZE: i64 = 8;
pub const P_MIN_SIZE: i64 = 16;
pub const P_MAX_SIZE: i64 = 32;
pub const P_RESIZE_INC: i64 = 64;
pub const P_BASE_SIZE: i64 = 256;

/// Xlib's `XSizeHints`: the fields are meaningful where `flags` says so.
#[derive(Clone, Copy, Debug, PartialEq, Eq, Structural)]
pub struct XSizeHints {
    pub flags: i64,
    pub x: i32,
    pub y: i32,
    pub width: i32,
    pub height: i32,
    pub min_width: i32,
    pub min_height: i32,
    pub max_width: i32,
    pub max_height: i32,
    pub width_inc: i32,
    pub height_inc: i32,
    pub base_width: i32,
    pub base_height: i32,
}

pub open spec fn has_flag(flags: i64, flag: i64) -> bool {
    flags & flag != 0
}

/// The size hints that Xlib's flags and fields stand for.
pub open spec fn xsize_hints_model(s: XSizeHints) -> SizeHints {
    SizeHints {
        position: if has_flag(s.flags, P_POSITION) || has_flag(s.flags, US_POSITION) {
            Some((s.x, s.y))
        } else {
            None
        },
        size: if has_flag(s.flags, P_SIZE) || has_flag(s.flags, US_SIZE) {
            Some((s.width, s.height))
        } else {
            None
        },
        min_size: if has_flag(s.flags, P_MIN_SIZE) {
            Some((s.min_width, s.min_height))
        } else {
            None
        },
        max_size: if has_flag(s.flags, P_MAX_SIZE) {
            Some((s.max_width, s.max_height))
        } else {
            None
        },
        size_increment: if has_flag(s.flags, P_RESIZE_INC) {
            Some((s.width_inc, s.height_inc))
        } else {
            None
        },
        base_size: if has_flag(s.flags, P_BASE_SIZE) {
            Some((s.base_width, s.base_height))
        } else {
            None
        },
    }
}

/// Returns Xlib's size hints of a window (if it has them) as a geometry change.
pub fn get_hint_sizing_as_xyhw_xlib(hints: Option<XSizeHints>) -> (r: Option<XyhwChange>)
    ensures
        match hints {
            None => r is None,
            Some(s) => r == Some(hint_change(xsize_hints_model(s))),
        },
{
    match hints {
        None => None,
        Some(s) => {
            let position = if (s.flags & P_POSITION) != 0 || (s.flags & US_POSITION) != 0 {
                Some((s.x, s.y))
            } else {
                None
            };
            let size = if (s.flags & P_SIZE) != 0 || (s.flags & US_SIZE) != 0 {
                Some((s.width, s.height))
            } else {
                None
            };
            let min_size = if (s.flags & P_MIN_SIZE) != 0 {
                Some((s.min_width, s.min_height))
            } else {
                None
            };
            let max_size = if (s.flags & P_MAX_SIZE) != 0 {
                Some((s.max_width, s.max_height))
            } else {
                None
            };
            let size_increment = if (s.flags & P_RESIZE_INC) != 0 {
                Some((s.width_inc, s.height_inc))
            } else {
                None
            };
            let base_size = if (s.flags & P_BASE_SIZE) != 0 {
                Some((s.base_width, s.base_height))
            } else {
                None
            };
            get_hint_sizing_as_xyhw(
                Some(SizeHints { position, size, min_size, max_size, size_increment, base_size }),
            )
        },
    }
}

/// The `WM_HINTS` that the window manager reads.
#[derive(Clone, Copy, Debug, PartialEq, Eq, Structural)]
pub struct WmHints {
    pub input: Option<bool>,
    pub urgent: bool,
}

/// Whether a window asks never to get the input focus: it says so in `WM_HINTS`
/// (no hints, or no input field, means that it may get it).
pub fn never_focus(hints: Option<WmHints>) -> (r: bool)
    ensures
        r == (hints matches Some(h) && h.input == Some(false)),
{
    match hints {
        Some(hint) => match hint.input {
            Some(i) => !i,
            None => false,
        },
        None => false,
    }
}

/// Xlib's `WM_HINTS` flags for the input field and urgency.
pub const INPUT_HINT: i64 = 1;
pub const URGENCY_HINT: i64 = 256;

/// Xlib's `XWMHints`: `input` is meaningful where `flags` says so.
#[derive(Clone, Copy, Debug, PartialEq, Eq, Structural)]
pub struct XWmHints {
    pub flags: i64,
    pub input: i32,
}

/// The hints that Xlib's flags and fields stand for.
pub open spec fn xwm_hints_model(h: XWmHints) -> WmHints {
    WmHints {
        input: if has_flag(h.flags, INPUT_HINT) {
            Some(h.input != 0)
        } else {
            None
        },
        urgent: has_flag(h.flags, URGENCY_HINT),
    }
}

/// Xlib's hints in the form the window manager reads them.
pub fn wm_hints_from_xlib(h: XWmHints) -> (r: WmHints)
    ensures
        r == xwm_hints_model(h),
{
    WmHints {
        input: if (h.flags & INPUT_HINT) != 0 {
            Some(h.input != 0)
        } else {
            None
        },
        urgent: (h.flags & URGENCY_HINT) != 0,
    }
}

/// The flags to write so that a window's urgency becomes `is_urgent`, or none
/// where it already is.
pub fn urgency_flags(flags: i64, is_urgent: bool) -> (r: Option<i64>)
    ensures
        has_flag(flags, URGENCY_HINT) == is_urgent ==> r is None,
        has_flag(flags, URGENCY_HINT) != is_urgent ==> r == Some(
            if is_urgent {
                flags | URGENCY_HINT
            } else {
                flags & !URGENCY_HINT
            },
        ),
        r matches Some(f) ==> has_flag(f, URGENCY_HINT) == is_urgent,
{
    if ((flags & URGENCY_HINT) != 0) == is_urgent {
        return None;
    }
    let new_flags = if is_urgent {
        flags | URGENCY_HINT
    } else {
        flags & !URGENCY_HINT
    };
    assert((flags | 256i64) & 256i64 != 0) by (bit_vector);
    assert((flags & !256i64) & 256i64 == 0) by (bit_vector);
    Some(new_flags)
}

} // verus!
