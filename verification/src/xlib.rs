//! Decisions of the Xlib backend: which X errors it tolerates, and its errors.
use vstd::prelude::*;

verus! {

/// The errors of the Xlib backend.
#[derive(Debug, Clone, Copy, PartialEq, Eq, Structural)]
pub enum XlibError {
    FailedStatus,
    RootWindowNotFound,
    InvalidXAtom,
}

/// X error code: a window that does not exist.
pub const BAD_WINDOW: u8 = 3;
/// X error code: arguments that do not match.
pub const BAD_MATCH: u8 = 8;
/// X error code: a drawable that does not exist.
pub const BAD_DRAWABLE: u8 = 9;
/// X error code: an access that is not allowed.
pub const BAD_ACCESS: u8 = 10;

/// X request code of `ConfigureWindow`.
pub const X_CONFIGUREWINDOW: u8 = 12;
/// X request code of `GrabButton`.
pub const X_GRABBUTTON: u8 = 28;
/// X request code of `GrabKey`.
pub const X_GRABKEY: u8 = 33;
/// X request code of `SetInputFocus`.
pub const X_SETINPUTFOCUS: u8 = 42;
/// X request code of `CopyArea`.
pub const X_COPYAREA: u8 = 62;
/// X request code of `PolySegment`.
pub const X_POLYSEGMENT: u8 = 66;
/// X request code of `PolyFillRectangle`.
pub const X_POLYFILLRECTANGLE: u8 = 70;
/// X request code of `PolyText8`.
pub const X_POLYTEXT8: u8 = 74;

/// The X errors that a window manager meets in normal work (a window that went
/// away, a grab that another client holds, drawing on a window that is gone).
pub open spec fn error_is_expected(error_code: u8, request_code: u8) -> bool {
    ||| error_code == BAD_WINDOW
    ||| request_code == X_CONFIGUREWINDOW && error_code == BAD_MATCH
    ||| request_code == X_GRABBUTTON && error_code == BAD_ACCESS
    ||| request_code == X_GRABKEY && error_code == BAD_ACCESS
    ||| request_code == X_SETINPUTFOCUS && error_code == BAD_MATCH
    ||| request_code == X_COPYAREA && error_code == BAD_DRAWABLE
    ||| request_code == X_POLYSEGMENT && error_code == BAD_DRAWABLE
    ||| request_code == X_POLYFILLRECTANGLE && error_code == BAD_DRAWABLE
    ||| request_code == X_POLYTEXT8 && error_code == BAD_DRAWABLE
}

/// What the Xlib error handler answers for an error: 0 for an expected error,
/// 1 for any other.
pub fn on_error_from_xlib(error_code: u8, request_code: u8) -> (r: i32)
    ensures
        r == (if error_is_expected(error_code, request_code) { 0i32 } else { 1i32 }),
{
    let ba = error_code == BAD_ACCESS;
    let bd = error_code == BAD_DRAWABLE;
    let bm = error_code == BAD_MATCH;
    if error_code == BAD_WINDOW || (request_code == X_CONFIGUREWINDOW && bm) || (request_code
        == X_GRABBUTTON && ba) || (request_code == X_GRABKEY && ba) || (request_code
        == X_SETINPUTFOCUS && bm) || (request_code == X_COPYAREA && bd) || (request_code
        == X_POLYSEGMENT && bd) || (request_code == X_POLYFILLRECTANGLE && bd) || (request_code
        == X_POLYTEXT8 && bd) {
        return 0;
    }
    1
}

} // verus!
