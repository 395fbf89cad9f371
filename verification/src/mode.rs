//! The pointer mode: moving and resizing windows with the mouse.
use vstd::prelude::*;

use crate::models::{Mode, WindowHandle};

verus! {

/// The cursor shape that the pointer takes while it is grabbed.
#[derive(Clone, Copy, Debug, PartialEq, Eq, Structural)]
pub enum CursorKind {
    Normal,
    Resize,
    Move,
}

/// What a change of mode asks of the display: release the pointer grab, take the
/// new mode, remember where the pointer is, grab the pointer with a cursor, in
/// this order.
#[derive(Clone, Copy, Debug, PartialEq, Eq, Structural)]
pub struct ModeStep {
    pub ungrab_pointer: bool,
    pub mode: Mode,
    pub record_origin: bool,
    pub grab_pointer: Option<CursorKind>,
}

/// The window that a mode is about, if any.
pub open spec fn mode_window(mode: Mode) -> Option<WindowHandle> {
    match mode {
        Mode::ReadyToResize(h) => Some(h),
        Mode::ReadyToMove(h) => Some(h),
        Mode::ResizingWindow(h) => Some(h),
        Mode::MovingWindow(h) => Some(h),
        Mode::Normal => None,
    }
}

/// The cursor that goes with a mode.
pub open spec fn cursor_for(mode: Mode) -> CursorKind {
    match mode {
        Mode::ReadyToResize(_) | Mode::ResizingWindow(_) => CursorKind::Resize,
        Mode::ReadyToMove(_) | Mode::MovingWindow(_) => CursorKind::Move,
        Mode::Normal => CursorKind::Normal,
    }
}

/// The step that leaves everything as it is.
pub open spec fn no_step(current: Mode) -> ModeStep {
    ModeStep { ungrab_pointer: false, mode: current, record_origin: false, grab_pointer: None }
}

/// What asking for mode `requested` in mode `current` does. The root window is
/// never moved or resized; a move or resize starts only from the normal mode and
/// proceeds only on the window that it was made ready for; the normal mode can
/// always be had.
pub open spec fn mode_step(current: Mode, requested: Mode, root: WindowHandle) -> ModeStep {
    if mode_window(requested) == Some(root) {
        no_step(current)
    } else {
        match requested {
            Mode::ReadyToMove(_) | Mode::ReadyToResize(_) => if current == Mode::Normal {
                ModeStep {
                    ungrab_pointer: false,
                    mode: requested,
                    record_origin: true,
                    grab_pointer: Some(cursor_for(requested)),
                }
            } else {
                no_step(current)
            },
            Mode::MovingWindow(h) | Mode::ResizingWindow(h) => if current == Mode::ReadyToMove(h)
                || current == Mode::ReadyToResize(h) {
                ModeStep {
                    ungrab_pointer: true,
                    mode: requested,
                    record_origin: false,
                    grab_pointer: Some(cursor_for(requested)),
                }
            } else {
                no_step(current)
            },
            Mode::Normal => ModeStep {
                ungrab_pointer: true,
                mode: Mode::Normal,
                record_origin: false,
                grab_pointer: None,
            },
        }
    }
}

fn cursor_for_exec(mode: Mode) -> (r: CursorKind)
    ensures
        r == cursor_for(mode),
{
    match mode {
        Mode::ReadyToResize(_) | Mode::ResizingWindow(_) => CursorKind::Resize,
        Mode::ReadyToMove(_) | Mode::MovingWindow(_) => CursorKind::Move,
        Mode::Normal => CursorKind::Normal,
    }
}

/// Plans the change of the pointer mode to `requested`.
pub fn set_mode(current: Mode, requested: Mode, root: WindowHandle) -> (r: ModeStep)
    ensures
        r == mode_step(current, requested, root),
{
    let nothing = ModeStep {
        ungrab_pointer: false,
        mode: current,
        record_origin: false,
        grab_pointer: None,
    };
    let target = match requested {
        Mode::MovingWindow(h) | Mode::ResizingWindow(h) | Mode::ReadyToMove(h)
        | Mode::ReadyToResize(h) => Some(h),
        Mode::Normal => None,
    };
    if target == Some(root) {
        return nothing;
    }
    match requested {
        Mode::ReadyToMove(_) | Mode::ReadyToResize(_) => {
            if current == Mode::Normal {
                ModeStep {
                    ungrab_pointer: false,
                    mode: requested,
                    record_origin: true,
                    grab_pointer: Some(cursor_for_exec(requested)),
                }
            } else {
                nothing
            }
        },
        Mode::MovingWindow(h) | Mode::ResizingWindow(h) => {
            if current == Mode::ReadyToMove(h) || current == Mode::ReadyToResize(h) {
                ModeStep {
                    ungrab_pointer: true,
                    mode: requested,
                    record_origin: false,
                    grab_pointer: Some(cursor_for_exec(requested)),
                }
            } else {
                nothing
            }
        },
        Mode::Normal => ModeStep {
            ungrab_pointer: true,
            mode: Mode::Normal,
            record_origin: false,
            grab_pointer: None,
        },
    }
}

/// The root window never gets into a moving or resizing mode: from any mode that
/// is not about the root, no request leads to one that is.
pub proof fn lemma_root_never_moved(current: Mode, requested: Mode, root: WindowHandle)
    requires
        mode_window(current) != Some(root),
    ensures
        mode_window(mode_step(current, requested, root).mode) != Some(root),
{
}

/// Asking for the normal mode always gives it, and releases the pointer.
pub proof fn lemma_normal_always_reachable(current: Mode, root: WindowHandle)
    ensures
        mode_step(current, Mode::Normal, root).mode == Mode::Normal,
        mode_step(current, Mode::Normal, root).ungrab_pointer,
{
}

/// A window is moved or resized only after it was made ready to be: the new
/// mode is a moving or resizing one only where it already was, or where the
/// current mode readied that same window.
pub proof fn lemma_moving_needs_ready(current: Mode, requested: Mode, root: WindowHandle, h: WindowHandle)
    requires
        mode_step(current, requested, root).mode == Mode::MovingWindow(h)
            || mode_step(current, requested, root).mode == Mode::ResizingWindow(h),
    ensures
        current == Mode::MovingWindow(h) || current == Mode::ResizingWindow(h) || current
            == Mode::ReadyToMove(h) || current == Mode::ReadyToResize(h),
{
}

/// Whenever the step grabs the pointer, the cursor is the one of the new mode.
pub proof fn lemma_grab_matches_mode(current: Mode, requested: Mode, root: WindowHandle)
    ensures
        mode_step(current, requested, root).grab_pointer matches Some(c) ==> c == cursor_for(
            mode_step(current, requested, root).mode,
        ),
{
}

} // verus!
