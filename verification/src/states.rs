//! The `_NET_WM_STATE` atom list of a window: requests to change it.
use vstd::prelude::*;

verus! {

/// A list in strictly increasing order (so without duplicates).
pub open spec fn sorted_strict(s: Seq<u32>) -> bool {
    forall|i: int, j: int| 0 <= i < j < s.len() ==> s[i] < s[j]
}

/// Adds a value to a strictly increasing list, keeping it so.
pub fn insert_sorted(v: &mut Vec<u32>, x: u32)
    requires
        sorted_strict(old(v)@),
    ensures
        sorted_strict(final(v)@),
        final(v)@.to_set() == old(v)@.to_set().insert(x),
{
    let mut i: usize = 0;
    while i < v.len() && v[i] < x
        invariant
            i <= v@.len(),
            forall|j: int| 0 <= j < i ==> v@[j] < x,
        decreases v@.len() - i,
    {
        i = i + 1;
    }
    if i < v.len() && v[i] == x {
        assert(v@.to_set().insert(x) =~= v@.to_set()) by {
            assert(v@.contains(x)) by {
                assert(v@[i as int] == x);
            }
        }
        return;
    }
    let ghost old_v = v@;
    v.insert(i, x);
    assert(v@ == old_v.insert(i as int, x));
    assert forall|a: int, b: int| 0 <= a < b < v@.len() implies v@[a] < v@[b] by {
        if b < i {
        } else if b == i {
        } else if a < i {
        } else if a == i {
            assert(old_v[b - 1] >= old_v[i as int] || b - 1 == i);
        } else {
        }
    }
    assert(v@.to_set() =~= old_v.to_set().insert(x)) by {
        assert forall|y: u32| v@.contains(y) implies #[trigger] old_v.to_set().insert(x).contains(y) by {
            let k = choose|k: int| 0 <= k < v@.len() && v@[k] == y;
            if k < i {
                assert(old_v[k] == y);
            } else if k > i {
                assert(old_v[k - 1] == y);
            }
        }
        assert forall|y: u32| old_v.to_set().insert(x).contains(y) implies #[trigger] v@.contains(y) by {
            if y == x {
                assert(v@[i as int] == x);
            } else {
                let k = choose|k: int| 0 <= k < old_v.len() && old_v[k] == y;
                if k < i {
                    assert(v@[k] == y);
                } else {
                    assert(v@[k + 1] == y);
                }
            }
        }
    }
}

/// The strictly increasing list of the values of a list (it sorted, duplicates dropped).
pub fn sorted_dedup(list: &[u32]) -> (r: Vec<u32>)
    ensures
        sorted_strict(r@),
        r@.to_set() == list@.to_set(),
{
    let mut r: Vec<u32> = Vec::new();
    let mut i: usize = 0;
    while i < list.len()
        invariant
            i <= list@.len(),
            sorted_strict(r@),
            r@.to_set() == list@.subrange(0, i as int).to_set(),
        decreases list@.len() - i,
    {
        insert_sorted(&mut r, list[i]);
        assert(list@.subrange(0, i + 1).to_set() =~= list@.subrange(0, i as int).to_set().insert(list@[i as int])) by {
            let s1 = list@.subrange(0, i + 1);
            let s0 = list@.subrange(0, i as int);
            assert forall|y: u32| s1.contains(y) implies #[trigger] s0.to_set().insert(list@[i as int]).contains(y) by {
                let k = choose|k: int| 0 <= k < s1.len() && s1[k] == y;
                if k < i {
                    assert(s0[k] == y);
                }
            }
            assert forall|y: u32| s0.to_set().insert(list@[i as int]).contains(y) implies #[trigger] s1.contains(y) by {
                if y == list@[i as int] {
                    assert(s1[i as int] == y);
                } else {
                    let k = choose|k: int| 0 <= k < s0.len() && s0[k] == y;
                    assert(s1[k] == y);
                }
            }
        }
        i = i + 1;
    }
    assert(list@.subrange(0, i as int) =~= list@);
    r
}

/// Two strictly increasing lists with the same values are the same list.
pub proof fn lemma_sorted_strict_unique(a: Seq<u32>, b: Seq<u32>)
    requires
        sorted_strict(a),
        sorted_strict(b),
        a.to_set() == b.to_set(),
    ensures
        a == b,
    decreases a.len() + b.len(),
{
    if a.len() == 0 {
        if b.len() > 0 {
            assert(b.to_set().contains(b[0]));
            assert(a.to_set().contains(b[0]));
        }
        assert(a =~= b);
    } else if b.len() == 0 {
        assert(a.to_set().contains(a[0]));
        assert(b.to_set().contains(a[0]));
    } else {
        // The smallest values agree.
        assert(a.to_set().contains(a[0]));
        assert(b.to_set().contains(a[0]));
        assert(b.to_set().contains(b[0]));
        assert(a.to_set().contains(b[0]));
        let ka = choose|k: int| 0 <= k < b.len() && b[k] == a[0];
        let kb = choose|k: int| 0 <= k < a.len() && a[k] == b[0];
        assert(a[0] == b[0]) by {
            if a[0] < b[0] {
                assert(ka > 0 ==> b[0] < b[ka]);
            } else if a[0] > b[0] {
                assert(kb > 0 ==> a[0] < a[kb]);
            }
        }
        let ta = a.drop_first();
        let tb = b.drop_first();
        assert(ta.to_set() =~= tb.to_set()) by {
            assert forall|y: u32| ta.contains(y) implies #[trigger] tb.contains(y) by {
                let k = choose|k: int| 0 <= k < ta.len() && ta[k] == y;
                assert(a[k + 1] == y);
                assert(y > a[0]);
                assert(b.to_set().contains(y));
                let m = choose|m: int| 0 <= m < b.len() && b[m] == y;
                assert(m != 0);
                assert(tb[m - 1] == y);
            }
            assert forall|y: u32| tb.contains(y) implies #[trigger] ta.contains(y) by {
                let k = choose|k: int| 0 <= k < tb.len() && tb[k] == y;
                assert(b[k + 1] == y);
                assert(y > b[0]);
                assert(a.to_set().contains(y));
                let m = choose|m: int| 0 <= m < a.len() && a[m] == y;
                assert(m != 0);
                assert(ta[m - 1] == y);
            }
        }
        lemma_sorted_strict_unique(ta, tb);
        assert(a =~= b) by {
            assert forall|k: int| 0 <= k < a.len() implies a[k] == b[k] by {
                if k > 0 {
                    assert(a[k] == ta[k - 1]);
                    assert(b[k] == tb[k - 1]);
                }
            }
        }
    }
}

/// A request about the fullscreen state: set it on or off, or toggle it.
#[derive(Clone, Copy, Debug, PartialEq, Eq, Structural)]
pub enum FullscreenRequest {
    Fixed(bool),
    Toggle,
}

/// Whether the window is to be fullscreen after a request.
pub open spec fn fullscreen_target(states: Seq<u32>, request: FullscreenRequest, fullscreen: u32) -> bool {
    match request {
        FullscreenRequest::Fixed(b) => b,
        FullscreenRequest::Toggle => !states.contains(fullscreen),
    }
}

/// The state atoms after a fullscreen request: the fullscreen atom added or
/// removed, in increasing order without duplicates.
pub open spec fn fullscreen_states_spec(states: Seq<u32>, request: FullscreenRequest, fullscreen: u32) -> Set<u32> {
    if fullscreen_target(states, request, fullscreen) {
        states.to_set().insert(fullscreen)
    } else {
        states.to_set().remove(fullscreen)
    }
}

/// The `_NET_WM_STATE` atoms of a window after a fullscreen request.
pub fn fullscreen_states(states: &[u32], request: FullscreenRequest, fullscreen: u32) -> (r: Vec<u32>)
    ensures
        sorted_strict(r@),
        r@.to_set() == fullscreen_states_spec(states@, request, fullscreen),
{
    let on = match request {
        FullscreenRequest::Fixed(b) => b,
        FullscreenRequest::Toggle => !crate::events::contains_u32(states, fullscreen),
    };
    let mut list: Vec<u32> = Vec::new();
    let mut i: usize = 0;
    while i < states.len()
        invariant
            i <= states@.len(),
            list@.to_set() == (if on {
                states@.subrange(0, i as int).to_set()
            } else {
                states@.subrange(0, i as int).to_set().remove(fullscreen)
            }),
        decreases states@.len() - i,
    {
        let ghost s0 = states@.subrange(0, i as int);
        let ghost s1 = states@.subrange(0, i + 1);
        let ghost l0 = list@;
        assert(s1.to_set() =~= s0.to_set().insert(states@[i as int])) by {
            assert forall|y: u32| s1.contains(y) implies #[trigger] s0.to_set().insert(states@[i as int]).contains(y) by {
                let k = choose|k: int| 0 <= k < s1.len() && s1[k] == y;
                if k < i {
                    assert(s0[k] == y);
                }
            }
            assert forall|y: u32| s0.to_set().insert(states@[i as int]).contains(y) implies #[trigger] s1.contains(y) by {
                if y == states@[i as int] {
                    assert(s1[i as int] == y);
                } else {
                    let k = choose|k: int| 0 <= k < s0.len() && s0[k] == y;
                    assert(s1[k] == y);
                }
            }
        }
        if on || states[i] != fullscreen {
            list.push(states[i]);
            assert(list@.to_set() =~= l0.to_set().insert(states@[i as int])) by {
                assert forall|y: u32| list@.contains(y) implies #[trigger] l0.to_set().insert(states@[i as int]).contains(y) by {
                    let k = choose|k: int| 0 <= k < list@.len() && list@[k] == y;
                    if k < l0.len() {
                        assert(l0[k] == y);
                    }
                }
                assert forall|y: u32| l0.to_set().insert(states@[i as int]).contains(y) implies #[trigger] list@.contains(y) by {
                    if y == states@[i as int] {
                        assert(list@[l0.len() as int] == y);
                    } else {
                        let k = choose|k: int| 0 <= k < l0.len() && l0[k] == y;
                        assert(list@[k] == y);
                    }
                }
            }
        }
        i = i + 1;
    }
    assert(states@.subrange(0, i as int) =~= states@);
    if on {
        let ghost l0 = list@;
        list.push(fullscreen);
        assert(list@.to_set() =~= l0.to_set().insert(fullscreen)) by {
            assert forall|y: u32| list@.contains(y) implies #[trigger] l0.to_set().insert(fullscreen).contains(y) by {
                let k = choose|k: int| 0 <= k < list@.len() && list@[k] == y;
                if k < l0.len() {
                    assert(l0[k] == y);
                }
            }
            assert forall|y: u32| l0.to_set().insert(fullscreen).contains(y) implies #[trigger] list@.contains(y) by {
                if y == fullscreen {
                    assert(list@[l0.len() as int] == y);
                } else {
                    let k = choose|k: int| 0 <= k < l0.len() && l0[k] == y;
                    assert(list@[k] == y);
                }
            }
        }
    }
    let r = sorted_dedup(list.as_slice());
    r
}

} // verus!
