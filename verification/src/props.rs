//! Decoding of window properties: states, type, `WM_STATE`, struts and size hints.
use vstd::prelude::*;

use crate::models::{DockArea, WindowState, WindowType, XyhwChange};
use crate::xatom::{wm_state_of, AtomCollection, WMStateWindowState};

verus! {

/// The state that a `_NET_WM_STATE` atom stands for; an unknown atom counts as `Modal`.
pub open spec fn state_of_atom(atoms: AtomCollection, a: int) -> WindowState {
    if a == atoms.NetWMStateModal as int {
        WindowState::Modal
    } else if a == atoms.NetWMStateSticky as int {
        WindowState::Sticky
    } else if a == atoms.NetWMStateMaximizedVert as int {
        WindowState::MaximizedVert
    } else if a == atoms.NetWMStateMaximizedHorz as int {
        WindowState::MaximizedHorz
    } else {
        state_of_other_atom(atoms, a)
    }
}

/// The state of an atom that is none of the first four state atoms.
pub open spec fn state_of_other_atom(atoms: AtomCollection, a: int) -> WindowState {
    if a == atoms.NetWMStateShaded as int {
        WindowState::Shaded
    } else if a == atoms.NetWMStateSkipTaskbar as int {
        WindowState::SkipTaskbar
    } else if a == atoms.NetWMStateSkipPager as int {
        WindowState::SkipPager
    } else if a == atoms.NetWMStateHidden as int {
        WindowState::Hidden
    } else if a == atoms.NetWMStateFullscreen as int {
        WindowState::Fullscreen
    } else if a == atoms.NetWMStateAbove as int {
        WindowState::Above
    } else if a == atoms.NetWMStateBelow as int {
        WindowState::Below
    } else {
        WindowState::Modal
    }
}

pub fn state_of_atom_exec(atoms: &AtomCollection, a: u64) -> (r: WindowState)
    ensures
        r == state_of_atom(*atoms, a as int),
{
    if a == atoms.NetWMStateModal as u64 {
        WindowState::Modal
    } else if a == atoms.NetWMStateSticky as u64 {
        WindowState::Sticky
    } else if a == atoms.NetWMStateMaximizedVert as u64 {
        WindowState::MaximizedVert
    } else if a == atoms.NetWMStateMaximizedHorz as u64 {
        WindowState::MaximizedHorz
    } else {
        state_of_other_atom_exec(atoms, a)
    }
}

fn state_of_other_atom_exec(atoms: &AtomCollection, a: u64) -> (r: WindowState)
    ensures
        r == state_of_other_atom(*atoms, a as int),
{
    if a == atoms.NetWMStateShaded as u64 {
        WindowState::Shaded
    } else if a == atoms.NetWMStateSkipTaskbar as u64 {
        WindowState::SkipTaskbar
    } else if a == atoms.NetWMStateSkipPager as u64 {
        WindowState::SkipPager
    } else if a == atoms.NetWMStateHidden as u64 {
        WindowState::Hidden
    } else if a == atoms.NetWMStateFullscreen as u64 {
        WindowState::Fullscreen
    } else if a == atoms.NetWMStateAbove as u64 {
        WindowState::Above
    } else if a == atoms.NetWMStateBelow as u64 {
        WindowState::Below
    } else {
        WindowState::Modal
    }
}

/// The states of a window from its `_NET_WM_STATE` atoms, one state per atom.
pub fn get_window_states(atoms: &AtomCollection, state_atoms: &[u32]) -> (r: Vec<WindowState>)
    ensures
        r@.len() == state_atoms@.len(),
        forall|i: int|
            0 <= i < r@.len() ==> r@[i] == state_of_atom(*atoms, #[trigger] state_atoms@[i] as int),
{
    let mut r: Vec<WindowState> = Vec::new();
    let mut i: usize = 0;
    while i < state_atoms.len()
        invariant
            i <= state_atoms@.len(),
            r@.len() == i,
            forall|j: int| 0 <= j < i ==> r@[j] == state_of_atom(*atoms, #[trigger] state_atoms@[j] as int),
        decreases state_atoms@.len() - i,
    {
        r.push(state_of_atom_exec(atoms, state_atoms[i] as u64));
        i = i + 1;
    }
    r
}

/// Whether a list holds a value.
pub fn contains_u64(list: &[u64], value: u64) -> (r: bool)
    ensures
        r == list@.contains(value),
{
    let mut i: usize = 0;
    while i < list.len()
        invariant
            i <= list@.len(),
            forall|j: int| 0 <= j < i ==> list@[j] != value,
        decreases list@.len() - i,
    {
        if list[i] == value {
            assert(list@[i as int] == value);
            return true;
        }
        i = i + 1;
    }
    false
}

/// Whether a window counts as maximized both ways: both maximized atoms are set.
pub open spec fn is_maximized(atoms: AtomCollection, state_atoms: Seq<u64>) -> bool {
    state_atoms.contains(atoms.NetWMStateMaximizedVert as u64) && state_atoms.contains(
        atoms.NetWMStateMaximizedHorz as u64,
    )
}

/// Whether an atom is one of the two maximized atoms.
pub open spec fn is_maximized_atom(atoms: AtomCollection, a: u64) -> bool {
    a == atoms.NetWMStateMaximizedVert as u64 || a == atoms.NetWMStateMaximizedHorz as u64
}

/// The states of a window from its `_NET_WM_STATE` atoms as Xlib reads them,
/// in order; where both maximized atoms are set, `Maximized` is used instead of
/// them: they are left out and it comes last.
pub open spec fn xlib_window_states(atoms: AtomCollection, state_atoms: Seq<u64>) -> Seq<WindowState> {
    if is_maximized(atoms, state_atoms) {
        state_atoms.filter(|a: u64| !is_maximized_atom(atoms, a)).map_values(
            |a: u64| state_of_atom(atoms, a as int),
        ).push(WindowState::Maximized)
    } else {
        state_atoms.map_values(|a: u64| state_of_atom(atoms, a as int))
    }
}

/// The states of a window from its `_NET_WM_STATE` atoms as Xlib reads them
/// (see `xlib_window_states`).
pub fn get_window_states_xlib(atoms: &AtomCollection, state_atoms: &[u64]) -> (r: Vec<WindowState>)
    ensures
        r@ == xlib_window_states(*atoms, state_atoms@),
{
    let maximized = contains_u64(state_atoms, atoms.NetWMStateMaximizedVert as u64)
        && contains_u64(state_atoms, atoms.NetWMStateMaximizedHorz as u64);
    let ghost keep = |a: u64| !is_maximized_atom(*atoms, a);
    let ghost st = |a: u64| state_of_atom(*atoms, a as int);
    let mut r: Vec<WindowState> = Vec::new();
    let mut i: usize = 0;
    while i < state_atoms.len()
        invariant
            i <= state_atoms@.len(),
            maximized == is_maximized(*atoms, state_atoms@),
            keep == (|a: u64| !is_maximized_atom(*atoms, a)),
            st == (|a: u64| state_of_atom(*atoms, a as int)),
            maximized ==> r@ == state_atoms@.subrange(0, i as int).filter(keep).map_values(st),
            !maximized ==> r@ == state_atoms@.subrange(0, i as int).map_values(st),
        decreases state_atoms@.len() - i,
    {
        let a = state_atoms[i];
        let ghost pre = state_atoms@.subrange(0, i as int);
        proof {
            reveal_with_fuel(Seq::filter, 1);
            assert(state_atoms@.subrange(0, i + 1).drop_last() =~= pre);
            assert(state_atoms@.subrange(0, i + 1).last() == a);
            assert(pre.push(a).map_values(st) =~= pre.map_values(st).push(st(a)));
            assert(pre.filter(keep).push(a).map_values(st) =~= pre.filter(keep).map_values(st).push(st(a)));
            assert(state_atoms@.subrange(0, i + 1) =~= pre.push(a));
        }
        let dropped = maximized && (a == atoms.NetWMStateMaximizedVert as u64 || a
            == atoms.NetWMStateMaximizedHorz as u64);
        if !dropped {
            r.push(state_of_atom_exec(atoms, a));
        }
        i = i + 1;
    }
    proof {
        assert(state_atoms@.subrange(0, i as int) =~= state_atoms@);
    }
    if maximized {
        r.push(WindowState::Maximized);
    }
    r
}

/// The type that the first `_NET_WM_WINDOW_TYPE` atom stands for.
pub open spec fn type_of_atom(atoms: AtomCollection, first: Option<int>) -> WindowType {
    match first {
        None => WindowType::Normal,
        Some(a) => if a == atoms.NetWMWindowTypeDesktop as int {
            WindowType::Desktop
        } else if a == atoms.NetWMWindowTypeDock as int {
            WindowType::Dock
        } else if a == atoms.NetWMWindowTypeToolbar as int {
            WindowType::Toolbar
        } else if a == atoms.NetWMWindowTypeMenu as int {
            WindowType::Menu
        } else if a == atoms.NetWMWindowTypeUtility as int {
            WindowType::Utility
        } else if a == atoms.NetWMWindowTypeSplash as int {
            WindowType::Splash
        } else if a == atoms.NetWMWindowTypeDialog as int {
            WindowType::Dialog
        } else {
            WindowType::Normal
        },
    }
}

/// The type of a window from the first value of its `_NET_WM_WINDOW_TYPE`, if any.
pub fn get_window_type(atoms: &AtomCollection, first: Option<u64>) -> (r: WindowType)
    ensures
        r == type_of_atom(*atoms, match first { Some(a) => Some(a as int), None => None }),
{
    match first {
        None => WindowType::Normal,
        Some(a) => {
            if a == atoms.NetWMWindowTypeDesktop as u64 {
                WindowType::Desktop
            } else if a == atoms.NetWMWindowTypeDock as u64 {
                WindowType::Dock
            } else if a == atoms.NetWMWindowTypeToolbar as u64 {
                WindowType::Toolbar
            } else if a == atoms.NetWMWindowTypeMenu as u64 {
                WindowType::Menu
            } else if a == atoms.NetWMWindowTypeUtility as u64 {
                WindowType::Utility
            } else if a == atoms.NetWMWindowTypeSplash as u64 {
                WindowType::Splash
            } else if a == atoms.NetWMWindowTypeDialog as u64 {
                WindowType::Dialog
            } else {
                WindowType::Normal
            }
        },
    }
}

/// The `WM_STATE` of a window from the values of the property, if it has one: the
/// state (`Normal` where it is missing or unknown) and the icon window.
pub fn get_wm_state(values: Option<&[u32]>) -> (r: (WMStateWindowState, Option<u32>))
    ensures
        match values {
            None => r == (WMStateWindowState::Normal, None::<u32>),
            Some(v) => {
                &&& r.0 == (if v@.len() > 0 && wm_state_of(v@[0]) is Ok {
                    wm_state_of(v@[0])->Ok_0
                } else {
                    WMStateWindowState::Normal
                })
                &&& r.1 == (if v@.len() > 1 { Some(v@[1]) } else { None })
            },
        },
{
    match values {
        None => (WMStateWindowState::Normal, None),
        Some(v) => {
            let state = if v.len() > 0 {
                match WMStateWindowState::try_from(&v[0]) {
                    Ok(s) => s,
                    Err(_) => WMStateWindowState::Normal,
                }
            } else {
                WMStateWindowState::Normal
            };
            let icon = if v.len() > 1 {
                Some(v[1])
            } else {
                None
            };
            (state, icon)
        },
    }
}

/// The dock area that twelve strut values describe, in the order of `_NET_WM_STRUT_PARTIAL`.
pub open spec fn dock_area_of(v: Seq<i32>) -> DockArea
    recommends
        v.len() >= 12,
{
    DockArea {
        left: v[0],
        right: v[1],
        top: v[2],
        bottom: v[3],
        left_start_y: v[4],
        left_end_y: v[5],
        right_start_y: v[6],
        right_end_y: v[7],
        top_start_x: v[8],
        top_end_x: v[9],
        bottom_start_x: v[10],
        bottom_end_x: v[11],
    }
}

/// The values of a dock area in the order of `_NET_WM_STRUT_PARTIAL`.
pub open spec fn dock_area_values(d: DockArea) -> Seq<i32> {
    seq![
        d.left,
        d.right,
        d.top,
        d.bottom,
        d.left_start_y,
        d.left_end_y,
        d.right_start_y,
        d.right_end_y,
        d.top_start_x,
        d.top_end_x,
        d.bottom_start_x,
        d.bottom_end_x,
    ]
}

/// The dock area from strut values (the first twelve of them).
pub fn dock_area_from_values(values: &[i32]) -> (r: DockArea)
    requires
        values@.len() >= 12,
    ensures
        r == dock_area_of(values@),
{
    DockArea {
        left: values[0],
        right: values[1],
        top: values[2],
        bottom: values[3],
        left_start_y: values[4],
        left_end_y: values[5],
        right_start_y: values[6],
        right_end_y: values[7],
        top_start_x: values[8],
        top_end_x: values[9],
        bottom_start_x: values[10],
        bottom_end_x: values[11],
    }
}

/// The strut values of a property as `i32` (each 32-bit value reinterpreted).
pub fn strut_values(raw: &[u32]) -> (r: Vec<i32>)
    ensures
        r@.len() == raw@.len(),
        forall|i: int| 0 <= i < raw@.len() ==> r@[i] == #[trigger] raw@[i] as i32,
{
    let mut r: Vec<i32> = Vec::new();
    let mut i: usize = 0;
    while i < raw.len()
        invariant
            i <= raw@.len(),
            r@.len() == i,
            forall|j: int| 0 <= j < i ==> r@[j] == #[trigger] raw@[j] as i32,
        decreases raw@.len() - i,
    {
        r.push(raw[i] as i32);
        i = i + 1;
    }
    r
}

/// The dock area of a strut property as Xlib reads it (C longs): only a property
/// of exactly twelve values gives one, each value truncated to 32 bits.
pub fn dock_area_from_longs(values: &[i64]) -> (r: Option<DockArea>)
    ensures
        r is Some <==> values@.len() == 12,
        r is Some ==> r->Some_0 == dock_area_of(values@.map_values(|v: i64| v as i32)),
{
    if values.len() == 12 {
        let mut truncated: Vec<i32> = Vec::new();
        let mut i: usize = 0;
        while i < 12
            invariant
                values@.len() == 12,
                i <= 12,
                truncated@.len() == i,
                forall|j: int| 0 <= j < i ==> truncated@[j] == #[trigger] values@[j] as i32,
            decreases 12 - i,
        {
            truncated.push(values[i] as i32);
            i = i + 1;
        }
        assert(truncated@ =~= values@.map_values(|v: i64| v as i32));
        Some(dock_area_from_values(truncated.as_slice()))
    } else {
        None
    }
}

/// Reading the values back out of a dock area gives the dock area again.
pub proof fn lemma_dock_area_roundtrip(d: DockArea)
    ensures
        dock_area_of(dock_area_values(d)) == d,
        dock_area_values(dock_area_of(dock_area_values(d))) == dock_area_values(d),
{
}

} // verus!
