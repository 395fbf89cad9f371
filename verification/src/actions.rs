//! The decisions behind the display actions that the window manager asks for.
use vstd::prelude::*;

use crate::error::{source_error, BackendError, ErrorSource};
use crate::events::contains_u32;
use crate::models::{DisplayEvent, WindowHandle, WindowState};
use crate::props::state_of_atom;
use crate::xatom::AtomCollection;

verus! {

/// Whether to move the pointer over a window: where asked to (`force`), or where
/// the pointer is over another window.
pub fn should_move_mouse_over(window: u32, cursor_window: u32, force: bool) -> (r: bool)
    ensures
        r == (force || cursor_window != window),
{
    force || cursor_window != window
}

/// Focusing the window under the pointer: where the pointer is over no window,
/// the root takes the focus; otherwise the focus goes to the pointer's position,
/// which the caller then reads (`None`).
pub fn focus_window_under_cursor(cursor_window: u32, root: u32) -> (r: Option<DisplayEvent>)
    ensures
        cursor_window == 0 ==> r == Some(DisplayEvent::WindowTakeFocus(WindowHandle(root))),
        cursor_window != 0 ==> r is None,
{
    if cursor_window == 0 {
        return Some(DisplayEvent::WindowTakeFocus(WindowHandle(root)));
    }
    None
}

/// The `_NET_WM_STATE` atom of a state; `Maximized` has no single atom.
pub open spec fn atom_of_state(atoms: AtomCollection, state: WindowState) -> Option<u32> {
    match state {
        WindowState::Modal => Some(atoms.NetWMStateModal),
        WindowState::Sticky => Some(atoms.NetWMStateSticky),
        WindowState::MaximizedVert => Some(atoms.NetWMStateMaximizedVert),
        WindowState::MaximizedHorz => Some(atoms.NetWMStateMaximizedHorz),
        WindowState::Maximized => None,
        WindowState::Shaded => Some(atoms.NetWMStateShaded),
        WindowState::SkipTaskbar => Some(atoms.NetWMStateSkipTaskbar),
        WindowState::SkipPager => Some(atoms.NetWMStateSkipPager),
        WindowState::Hidden => Some(atoms.NetWMStateHidden),
        WindowState::Fullscreen => Some(atoms.NetWMStateFullscreen),
        WindowState::Above => Some(atoms.NetWMStateAbove),
        WindowState::Below => Some(atoms.NetWMStateBelow),
    }
}

/// The atom to set or clear for a state.
pub fn state_atom(atoms: &AtomCollection, state: WindowState) -> (r: Option<u32>)
    ensures
        r == atom_of_state(*atoms, state),
{
    match state {
        WindowState::Modal => Some(atoms.NetWMStateModal),
        WindowState::Sticky => Some(atoms.NetWMStateSticky),
        WindowState::MaximizedVert => Some(atoms.NetWMStateMaximizedVert),
        WindowState::MaximizedHorz => Some(atoms.NetWMStateMaximizedHorz),
        WindowState::Maximized => None,
        WindowState::Shaded => Some(atoms.NetWMStateShaded),
        WindowState::SkipTaskbar => Some(atoms.NetWMStateSkipTaskbar),
        WindowState::SkipPager => Some(atoms.NetWMStateSkipPager),
        WindowState::Hidden => Some(atoms.NetWMStateHidden),
        WindowState::Fullscreen => Some(atoms.NetWMStateFullscreen),
        WindowState::Above => Some(atoms.NetWMStateAbove),
        WindowState::Below => Some(atoms.NetWMStateBelow),
    }
}

/// Whether the eleven state atoms are pairwise distinct (as interned atoms are).
pub open spec fn state_atoms_distinct(a: AtomCollection) -> bool {
    let s = seq![
        a.NetWMStateModal,
        a.NetWMStateSticky,
        a.NetWMStateMaximizedVert,
        a.NetWMStateMaximizedHorz,
        a.NetWMStateShaded,
        a.NetWMStateSkipTaskbar,
        a.NetWMStateSkipPager,
        a.NetWMStateHidden,
        a.NetWMStateFullscreen,
        a.NetWMStateAbove,
        a.NetWMStateBelow,
    ];
    forall|i: int, j: int| 0 <= i < j < s.len() ==> s[i] != s[j]
}

/// The state that the window manager sets is the state that it reads back: with
/// distinct state atoms, decoding the atom of a state gives that state.
pub proof fn lemma_state_atom_roundtrip(atoms: AtomCollection, state: WindowState)
    requires
        state_atoms_distinct(atoms),
        state != WindowState::Maximized,
    ensures
        atom_of_state(atoms, state) matches Some(a) && state_of_atom(atoms, a as int) == state,
{
    let s = seq![
        atoms.NetWMStateModal,
        atoms.NetWMStateSticky,
        atoms.NetWMStateMaximizedVert,
        atoms.NetWMStateMaximizedHorz,
        atoms.NetWMStateShaded,
        atoms.NetWMStateSkipTaskbar,
        atoms.NetWMStateSkipPager,
        atoms.NetWMStateHidden,
        atoms.NetWMStateFullscreen,
        atoms.NetWMStateAbove,
        atoms.NetWMStateBelow,
    ];
    assert(s[0] == atoms.NetWMStateModal);
    assert(s[1] == atoms.NetWMStateSticky);
    assert(s[2] == atoms.NetWMStateMaximizedVert);
    assert(s[3] == atoms.NetWMStateMaximizedHorz);
    assert(s[4] == atoms.NetWMStateShaded);
    assert(s[5] == atoms.NetWMStateSkipTaskbar);
    assert(s[6] == atoms.NetWMStateSkipPager);
    assert(s[7] == atoms.NetWMStateHidden);
    assert(s[8] == atoms.NetWMStateFullscreen);
    assert(s[9] == atoms.NetWMStateAbove);
    assert(s[10] == atoms.NetWMStateBelow);
}

/// The order in which windows are stacked: the
/// fullscreen windows, then every other window of the display except the root
/// that is missing from the fullscreen or the managed list, then the managed ones.
pub open spec fn window_order(all: Seq<u32>, root: u32, fullscreen: Seq<u32>, windows: Seq<u32>) -> Seq<u32> {
    fullscreen + all.filter(restacked_unmanaged(root, fullscreen, windows)) + windows
}

/// Which windows of the display go between the fullscreen and the managed ones.
pub open spec fn restacked_unmanaged(root: u32, fullscreen: Seq<u32>, windows: Seq<u32>) -> spec_fn(u32) -> bool {
    |w: u32| w != root && (!windows.contains(w) || !fullscreen.contains(w))
}

/// Computes the stacking order of the windows, from top to bottom.
pub fn set_window_order(all: &[u32], root: u32, fullscreen: &[u32], windows: &[u32]) -> (r: Vec<u32>)
    ensures
        r@ == window_order(all@, root, fullscreen@, windows@),
{
    let mut r: Vec<u32> = Vec::new();
    r.extend_from_slice(fullscreen);
    assert(r@ =~= fullscreen@);
    let ghost f = restacked_unmanaged(root, fullscreen@, windows@);
    let mut unmanaged: Vec<u32> = Vec::new();
    let mut i: usize = 0;
    while i < all.len()
        invariant
            i <= all@.len(),
            f == restacked_unmanaged(root, fullscreen@, windows@),
            unmanaged@ == all@.subrange(0, i as int).filter(f),
        decreases all@.len() - i,
    {
        assert(all@.subrange(0, i + 1).drop_last() =~= all@.subrange(0, i as int));
        reveal_with_fuel(Seq::filter, 1);
        let w = all[i];
        if w != root && (!contains_u32(windows, w) || !contains_u32(fullscreen, w)) {
            unmanaged.push(w);
        }
        i = i + 1;
    }
    assert(all@.subrange(0, i as int) =~= all@);
    let ghost before = r@;
    r.extend_from_slice(unmanaged.as_slice());
    assert(r@ =~= before + unmanaged@);
    let ghost before2 = r@;
    r.extend_from_slice(windows);
    assert(r@ =~= before2 + windows@);
    r
}

/// The restacking requests for an order of windows: each window after the
/// first goes below the one before it.
pub fn restack(handles: &[u32]) -> (r: Vec<(u32, u32)>)
    ensures
        r@.len() == if handles@.len() == 0 { 0 } else { handles@.len() - 1 },
        forall|i: int| 0 <= i < r@.len() ==> #[trigger] r@[i] == (handles@[i + 1], handles@[i]),
{
    let mut r: Vec<(u32, u32)> = Vec::new();
    let mut i: usize = 1;
    while i < handles.len()
        invariant
            1 <= i,
            handles@.len() == 0 ==> r@.len() == 0,
            handles@.len() > 0 ==> i <= handles@.len() && r@.len() == i - 1,
            forall|j: int| 0 <= j < r@.len() ==> #[trigger] r@[j] == (handles@[j + 1], handles@[j]),
        decreases handles@.len() - i,
    {
        r.push((handles[i], handles[i - 1]));
        i = i + 1;
    }
    r
}

/// The modifier masks of X11.
pub const MOD_SHIFT: u16 = 1;
pub const MOD_LOCK: u16 = 2;
pub const MOD_2: u16 = 16;
pub const MOD_ANY: u16 = 32768;
/// The mouse buttons that the window manager grabs.
pub const BUTTON_1: u8 = 1;
pub const BUTTON_3: u8 = 3;

/// The button grabs for one button and modifier: with and without num lock
/// (`Mod2`) and caps lock.
pub open spec fn button_grabs(button: u8, modifiers: u16) -> Seq<(u8, u16)> {
    seq![(button, modifiers), (button, modifiers | MOD_2), (button, modifiers | MOD_LOCK)]
}

/// The button grabs of a window: an unfocused window has
/// its first and third buttons grabbed under any modifier; every window has them
/// grabbed under the mouse key, with and without shift.
pub open spec fn mouse_click_grabs(mouse_key_mask: u16, is_focused: bool) -> Seq<(u8, u16)> {
    (if is_focused {
        seq![]
    } else {
        button_grabs(BUTTON_1, MOD_ANY) + button_grabs(BUTTON_3, MOD_ANY)
    }) + button_grabs(BUTTON_1, mouse_key_mask) + button_grabs(BUTTON_1, mouse_key_mask | MOD_SHIFT)
        + button_grabs(BUTTON_3, mouse_key_mask) + button_grabs(BUTTON_3, mouse_key_mask | MOD_SHIFT)
}

fn push_button_grabs(v: &mut Vec<(u8, u16)>, button: u8, modifiers: u16)
    ensures
        final(v)@ == old(v)@ + button_grabs(button, modifiers),
{
    v.push((button, modifiers));
    v.push((button, modifiers | MOD_2));
    v.push((button, modifiers | MOD_LOCK));
    assert(final(v)@ =~= old(v)@ + button_grabs(button, modifiers));
}

/// The buttons and modifiers to grab on a window, after all its grabs are released.
pub fn grab_mouse_clicks(mouse_key_mask: u16, is_focused: bool) -> (r: Vec<(u8, u16)>)
    ensures
        r@ == mouse_click_grabs(mouse_key_mask, is_focused),
{
    let mut r: Vec<(u8, u16)> = Vec::new();
    if !is_focused {
        push_button_grabs(&mut r, BUTTON_1, MOD_ANY);
        push_button_grabs(&mut r, BUTTON_3, MOD_ANY);
    }
    push_button_grabs(&mut r, BUTTON_1, mouse_key_mask);
    push_button_grabs(&mut r, BUTTON_1, mouse_key_mask | MOD_SHIFT);
    push_button_grabs(&mut r, BUTTON_3, mouse_key_mask);
    push_button_grabs(&mut r, BUTTON_3, mouse_key_mask | MOD_SHIFT);
    assert(r@ =~= mouse_click_grabs(mouse_key_mask, is_focused));
    r
}

/// Where to put the pointer to move it over a window: its center.
pub fn window_center(x: i16, y: i16, width: u16, height: u16) -> (r: (i32, i32))
    ensures
        r.0 == x + width as int / 2,
        r.1 == y + height as int / 2,
{
    (x as i32 + (width as i32 / 2), y as i32 + (height as i32 / 2))
}

/// Where to warp the pointer for a point: nowhere for a point with a negative
/// coordinate, an error for one out of the 16-bit range of X11.
pub fn move_cursor_to_point(point: (i32, i32)) -> (r: Result<Option<(i16, i16)>, BackendError>)
    ensures
        point.0 < 0 || point.1 < 0 ==> r == Ok::<Option<(i16, i16)>, BackendError>(None),
        point.0 >= 0 && point.1 >= 0 ==> {
            if point.0 <= i16::MAX && point.1 <= i16::MAX {
                r == Ok::<Option<(i16, i16)>, BackendError>(Some((point.0 as i16, point.1 as i16)))
            } else {
                r == Err::<Option<(i16, i16)>, BackendError>(source_error(ErrorSource::TryFromInt))
            }
        },
{
    if point.0 >= 0 && point.1 >= 0 {
        if point.0 > 32767 || point.1 > 32767 {
            return Err(BackendError::int_conversion());
        }
        return Ok(Some((point.0 as i16, point.1 as i16)));
    }
    Ok(None)
}

/// The click that is replayed on a window, built while
/// walking down from the root to the window under the pointer.
#[derive(Clone, Copy, Debug, PartialEq, Eq, Structural)]
pub struct ReplayedClick {
    pub child: u32,
    pub root: u32,
    pub root_x: i16,
    pub root_y: i16,
    pub event_x: i16,
    pub event_y: i16,
}

/// What asking the server where the pointer is gives, asked of a window.
#[derive(Clone, Copy, Debug, PartialEq, Eq, Structural)]
pub struct PointerReply {
    pub child: u32,
    pub root: u32,
    pub root_x: i16,
    pub root_y: i16,
    pub win_x: i16,
    pub win_y: i16,
}

impl ReplayedClick {
    /// The walk starts at the root.
    pub fn start(root: u32) -> (r: ReplayedClick)
        ensures
            r == (ReplayedClick { child: root, root: 0, root_x: 0, root_y: 0, event_x: 0, event_y: 0 }),
    {
        ReplayedClick { child: root, root: 0, root_x: 0, root_y: 0, event_x: 0, event_y: 0 }
    }

    /// One step of the walk, given what the query of `self.child` answered.
    /// The click takes the reply's root and the pointer's positions (relative
    /// to the root and to `self.child`). While the pointer is over a child
    /// window the walk goes down to it (`false`); it stops (`true`) at the
    /// window with no child under the pointer, which `self.child` then names.
    pub fn step(&mut self, reply: PointerReply) -> (done: bool)
        ensures
            done == (reply.child == 0),
            final(self).child == if done { old(self).child } else { reply.child },
            final(self).root == reply.root,
            final(self).root_x == reply.root_x,
            final(self).root_y == reply.root_y,
            final(self).event_x == reply.win_x,
            final(self).event_y == reply.win_y,
    {
        self.root = reply.root;
        self.root_x = reply.root_x;
        self.root_y = reply.root_y;
        self.event_x = reply.win_x;
        self.event_y = reply.win_y;
        if reply.child == 0 {
            return true;
        }
        self.child = reply.child;
        false
    }

    /// Whether the click is replayed: only on the focused window.
    pub fn replays_on(&self, focused_window: u32) -> (r: bool)
        ensures
            r == (self.child == focused_window),
    {
        self.child == focused_window
    }
}

/// Whether an existing window is managed on startup: it is viewable or iconic.
pub fn should_manage_existing(viewable: bool, state: crate::xatom::WMStateWindowState) -> (r: bool)
    ensures
        r == (viewable || state == crate::xatom::WMStateWindowState::Iconic),
{
    viewable || state == crate::xatom::WMStateWindowState::Iconic
}

/// Whether a client takes part in the `WM_PROTOCOLS` protocol of `atom`.
pub fn can_send_xevent_atom(protocols: Option<&[u32]>, atom: u32) -> (r: bool)
    ensures
        r == (protocols matches Some(p) && p@.contains(atom)),
{
    match protocols {
        Some(p) => contains_u32(p, atom),
        None => false,
    }
}

/// An event padded to the 32 bytes of an X11 event.
pub fn pad_event(event: &[u8]) -> (r: [u8; 32])
    requires
        event@.len() <= 32,
    ensures
        forall|i: int| 0 <= i < 32 ==> #[trigger] r@[i] == if i < event@.len() { event@[i] } else { 0u8 },
{
    let mut data = [0u8; 32];
    let mut i: usize = 0;
    while i < event.len()
        invariant
            event@.len() <= 32,
            i <= event@.len(),
            forall|k: int| 0 <= k < 32 ==> #[trigger] data@[k] == if k < i { event@[k] } else { 0u8 },
        decreases event@.len() - i,
    {
        data.set(i, event[i]);
        i = i + 1;
    }
    data
}

} // verus!
