//! The display's refresh rate, from the RandR modes that are in use.
use vstd::prelude::*;

verus! {

/// What the logic reads of a RandR mode.
#[derive(Clone, Copy, Debug, PartialEq, Eq, Structural)]
pub struct ModeInfo {
    pub id: u32,
    pub dot_clock: u32,
    pub htotal: u16,
    pub vtotal: u16,
}

/// The rate that a mode refreshes at, in whole hertz.
pub open spec fn mode_rate(m: ModeInfo) -> int {
    m.dot_clock as int / (m.htotal as int * m.vtotal as int)
}

/// A mode is in use when a CRTC shows it.
pub open spec fn mode_active(m: ModeInfo, active: Seq<u32>) -> bool {
    active.contains(m.id)
}

/// The rate assumed when no mode in use is known.
pub const DEFAULT_REFRESH_RATE: u32 = 60;

fn contains_id(active: &Vec<u32>, id: u32) -> (r: bool)
    ensures
        r == active@.contains(id),
{
    let mut i: usize = 0;
    while i < active.len()
        invariant
            i <= active.len(),
            forall|j: int| 0 <= j < i ==> active@[j] != id,
        decreases active.len() - i,
    {
        if active[i] == id {
            return true;
        }
        i += 1;
    }
    false
}

/// The highest rate among the modes in use, or 60 when none of `modes` is in
/// use. A mode in use must have a nonzero total size, else its rate would be a
/// division by zero.
pub fn refresh_rate(modes: &Vec<ModeInfo>, active: &Vec<u32>) -> (r: u32)
    requires
        forall|i: int|
            0 <= i < modes.len() && mode_active(#[trigger] modes@[i], active@) ==> modes@[i].htotal
                * modes@[i].vtotal != 0,
    ensures
        (exists|i: int| 0 <= i < modes.len() && mode_active(#[trigger] modes@[i], active@))
            ==> ((exists|i: int|
            0 <= i < modes.len() && mode_active(#[trigger] modes@[i], active@) && r == mode_rate(
                modes@[i],
            )) && (forall|i: int|
            0 <= i < modes.len() && mode_active(#[trigger] modes@[i], active@) ==> mode_rate(
                modes@[i],
            ) <= r)),
        !(exists|i: int| 0 <= i < modes.len() && mode_active(#[trigger] modes@[i], active@)) ==> r
            == DEFAULT_REFRESH_RATE,
{
    let mut best: Option<u32> = None;
    let mut i: usize = 0;
    while i < modes.len()
        invariant
            i <= modes.len(),
            forall|k: int|
                0 <= k < modes.len() && mode_active(#[trigger] modes@[k], active@) ==> modes@[k].htotal
                    * modes@[k].vtotal != 0,
            match best {
                None => forall|k: int| 0 <= k < i ==> !mode_active(#[trigger] modes@[k], active@),
                Some(b) => (exists|k: int|
                    0 <= k < i && mode_active(#[trigger] modes@[k], active@) && b == mode_rate(
                        modes@[k],
                    )) && (forall|k: int|
                    0 <= k < i && mode_active(#[trigger] modes@[k], active@) ==> mode_rate(
                        modes@[k],
                    ) <= b),
            },
        decreases modes.len() - i,
    {
        let m = modes[i];
        if contains_id(active, m.id) {
            assert(mode_active(modes@[i as int], active@));
            let (h, v) = (m.htotal as u32, m.vtotal as u32);
            assert(h * v <= 0xffff * 0xffff) by (nonlinear_arith)
                requires
                    h <= 0xffff,
                    v <= 0xffff,
            ;
            let size: u32 = h * v;
            let rate = m.dot_clock / size;
            assert(rate == mode_rate(modes@[i as int]));
            best = match best {
                None => Some(rate),
                Some(b) => if rate > b { Some(rate) } else { Some(b) },
            };
        }
        i += 1;
    }
    match best {
        Some(b) => b,
        None => DEFAULT_REFRESH_RATE,
    }
}

} // verus!
