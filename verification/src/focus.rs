//! Border colours and focus: which colour a window's border takes, and what
//! giving or taking the focus does to the windows involved.
use vstd::prelude::*;

use crate::models::FocusBehaviour;

verus! {

/// The pixel values of the border colours.
#[derive(Clone, Copy, Debug, PartialEq, Eq, Structural)]
pub struct Colors {
    pub normal: u32,
    pub floating: u32,
    pub active: u32,
    pub background: u32,
}

/// The border colour of a window without the focus.
pub open spec fn inactive_color(colors: Colors, floating: bool) -> u32 {
    if floating {
        colors.floating
    } else {
        colors.normal
    }
}

impl Colors {
    /// The border colour of a window without the focus: the floating colour
    /// for a floating window, the normal one otherwise.
    pub fn inactive_border(&self, floating: bool) -> (r: u32)
        ensures
            r == inactive_color(*self, floating),
    {
        if floating {
            self.floating
        } else {
            self.normal
        }
    }
}

/// The border colour of a window when the theme is applied: the active colour for the focused window, else the
/// colour of a window without the focus.
pub fn theme_border_color(colors: &Colors, focused: Option<u32>, window: u32, floating: bool) -> (r: u32)
    ensures
        r == (if focused == Some(window) { colors.active } else { inactive_color(*colors, floating) }),
{
    if focused == Some(window) {
        colors.active
    } else {
        colors.inactive_border(floating)
    }
}

/// What is done to a window that is newly managed (and is not a dock or a
/// desktop): its border colour, whether the pointer moves onto it, whether its
/// clicks are grabbed.
#[derive(Clone, Copy, Debug, PartialEq, Eq, Structural)]
pub struct ManagePlan {
    pub border_color: u32,
    pub move_cursor: bool,
    pub grab_clicks: bool,
}

/// How a newly managed window is set up: the border of
/// a window without the focus, the pointer onto it when the pointer follows,
/// and its clicks grabbed under click-to-focus.
pub fn manage_plan(colors: &Colors, floating: bool, follow_mouse: bool, focus: FocusBehaviour) -> (r: ManagePlan)
    ensures
        r == (ManagePlan {
            border_color: inactive_color(*colors, floating),
            move_cursor: follow_mouse,
            grab_clicks: focus is ClickTo,
        }),
{
    ManagePlan {
        border_color: colors.inactive_border(floating),
        move_cursor: follow_mouse,
        grab_clicks: focus.is_clickto(),
    }
}

/// What giving a window the focus does to the window that had it: its new
/// border colour, and whether its clicks are grabbed again.
#[derive(Clone, Copy, Debug, PartialEq, Eq, Structural)]
pub struct PreviousWindow {
    pub window: u32,
    pub border_color: u32,
    pub grab_clicks: bool,
}

/// What giving a window the focus does.
#[derive(Clone, Copy, Debug, PartialEq, Eq, Structural)]
pub struct TakeFocusPlan {
    pub previous: Option<PreviousWindow>,
    /// The window that is now focused; its clicks are grabbed as focused.
    pub focused: u32,
    /// Its border colour.
    pub border_color: u32,
    /// Whether input focus is left alone (the window never takes it).
    pub never_focus: bool,
}

/// Plans giving `window` the focus, where `previous` is the window that had it
/// and whether that one floats.
pub fn take_focus_plan(
    colors: &Colors,
    focus: FocusBehaviour,
    window: u32,
    never_focus: bool,
    previous: Option<(u32, bool)>,
) -> (r: TakeFocusPlan)
    ensures
        r.focused == window,
        r.border_color == colors.active,
        r.never_focus == never_focus,
        match previous {
            None => r.previous is None,
            Some((p, floating)) => r.previous == Some(
                PreviousWindow {
                    window: p,
                    border_color: inactive_color(*colors, floating),
                    grab_clicks: focus is ClickTo,
                },
            ),
        },
{
    let prev = match previous {
        None => None,
        Some((p, floating)) => Some(
            PreviousWindow {
                window: p,
                border_color: colors.inactive_border(floating),
                grab_clicks: focus.is_clickto(),
            },
        ),
    };
    TakeFocusPlan { previous: prev, focused: window, border_color: colors.active, never_focus }
}

/// What taking the focus away does to the window that had it:
/// its border colour; its clicks are grabbed again, and the root gets the
/// input focus.
pub fn unfocus_border(colors: &Colors, window: Option<u32>, floating: bool) -> (r: Option<(u32, u32)>)
    ensures
        match window {
            None => r is None,
            Some(w) => r == Some((w, inactive_color(*colors, floating))),
        },
{
    match window {
        None => None,
        Some(w) => Some((w, colors.inactive_border(floating))),
    }
}

} // verus!
