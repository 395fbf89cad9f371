//! The values that the window manager writes into window and root properties.
use vstd::prelude::*;

use crate::events::contains_u32;

verus! {

/// The `_NET_CURRENT_DESKTOP` index of a tag (tags count from 1, indexes from 0).
pub open spec fn desktop_index(tag: usize) -> u32 {
    ((tag as u32) - 1) as u32
}

/// The value of `_NET_CURRENT_DESKTOP` for the current tag (0 where there is none).
pub fn set_current_desktop(current_tag: Option<usize>) -> (r: Vec<u32>)
    requires
        current_tag matches Some(t) ==> (t as u32) >= 1,
    ensures
        r@ == seq![match current_tag { Some(t) => desktop_index(t), None => 0u32 }],
{
    let index = match current_tag {
        Some(tag) => tag as u32 - 1,
        None => 0,
    };
    let r = vec![index];
    assert(r@ =~= seq![index]);
    r
}

/// The value of a window's `_NET_WM_DESKTOP` for its tag.
pub fn set_window_desktop(current_tag: usize) -> (r: Vec<u32>)
    requires
        (current_tag as u32) >= 1,
    ensures
        r@ == seq![desktop_index(current_tag)],
{
    let r = vec![current_tag as u32 - 1];
    assert(r@ =~= seq![desktop_index(current_tag)]);
    r
}

/// The value of a window's `_NET_WM_DESKTOP` for its tag, as Xlib writes it (a C long).
pub fn set_window_desktop_xlib(current_tag: usize) -> (r: Vec<i64>)
    requires
        current_tag as i64 > i64::MIN,
    ensures
        r@ == seq![(current_tag as i64 - 1) as i64],
{
    let r = vec![current_tag as i64 - 1];
    assert(r@ =~= seq![(current_tag as i64 - 1) as i64]);
    r
}

/// A desktop switch that a client asks for and the desktop that the window
/// manager then announces agree: tag `index + 1` is announced as `index`.
pub proof fn lemma_desktop_roundtrip(index: u32)
    requires
        index < u32::MAX,
    ensures
        desktop_index((index + 1) as usize) == index,
{
}

/// The state atoms to write so that a state is set (`toggle_to`) or cleared, or
/// none where nothing changes: setting appends the atom where it is missing;
/// clearing removes its first occurrence.
pub open spec fn toggled_states(states: Seq<u32>, toggle_to: bool, atom: u32) -> Option<Seq<u32>> {
    if toggle_to {
        if states.contains(atom) {
            None
        } else {
            Some(states.push(atom))
        }
    } else if states.contains(atom) {
        Some(states.remove(first_position(states, atom)))
    } else {
        None
    }
}

/// Whether `i` is the first position of `v` in `s`.
pub open spec fn is_first_position(s: Seq<u32>, v: u32, i: int) -> bool {
    0 <= i < s.len() && s[i] == v && forall|j: int| 0 <= j < i ==> s[j] != v
}

/// The first position of a value in a list that holds it.
pub open spec fn first_position(s: Seq<u32>, v: u32) -> int {
    choose|i: int| is_first_position(s, v, i)
}

/// Finds the first position of a value in a list.
pub fn position_of(list: &[u32], value: u32) -> (r: Option<usize>)
    ensures
        r is None <==> !list@.contains(value),
        r matches Some(i) ==> i < list@.len() && i == first_position(list@, value),
{
    let mut i: usize = 0;
    while i < list.len()
        invariant
            i <= list@.len(),
            forall|j: int| 0 <= j < i ==> list@[j] != value,
        decreases list@.len() - i,
    {
        if list[i] == value {
            assert(list@.contains(value));
            assert(is_first_position(list@, value, i as int));
            assert(first_position(list@, value) == i) by {
                let k = first_position(list@, value);
                assert(is_first_position(list@, value, k));
                if k < i {
                } else if k > i {
                    assert(list@[i as int] != value);
                }
            }
            return Some(i);
        }
        i = i + 1;
    }
    None
}

/// Sets or clears a window's state atom (`set_state`): the atoms to write, if any.
pub fn set_state(states: Vec<u32>, toggle_to: bool, atom: u32) -> (r: Option<Vec<u32>>)
    ensures
        match toggled_states(states@, toggle_to, atom) {
            None => r is None,
            Some(s) => r matches Some(v) && v@ == s,
        },
{
    let mut states = states;
    if toggle_to {
        if contains_u32(&states, atom) {
            return None;
        }
        states.push(atom);
    } else {
        let index = match position_of(&states, atom) {
            Some(i) => i,
            None => return None,
        };
        states.remove(index);
    }
    Some(states)
}

/// After setting a state, the window has it; after clearing a state that it had
/// once, it has it no more.
pub proof fn lemma_set_state_effect(states: Seq<u32>, atom: u32)
    ensures
        toggled_states(states, true, atom) matches Some(s) ==> s.contains(atom),
        states.no_duplicates() ==> (toggled_states(states, false, atom) matches Some(s) ==> !s.contains(atom)),
{
    if toggled_states(states, true, atom) is Some {
        assert(states.push(atom)[states.len() as int] == atom);
    }
    if states.no_duplicates() && states.contains(atom) {
        let w = choose|w: int| 0 <= w < states.len() && states[w] == atom;
        assert(exists|i: int| is_first_position(states, atom, i)) by {
            assert(is_first_position(states, atom, w)) by {
                assert forall|j: int| 0 <= j < w implies states[j] != atom by {
                    if states[j] == atom {
                        assert(states[j] == states[w]);
                    }
                }
            }
        }
        let k = first_position(states, atom);
        let s = states.remove(k);
        assert forall|j: int| 0 <= j < s.len() implies s[j] != atom by {
            if j < k {
                assert(s[j] == states[j]);
            } else {
                assert(s[j] == states[j + 1]);
            }
        }
    }
}

/// The bytes of a list of names, each followed by a nul byte.
pub open spec fn nul_terminated(names: Seq<Seq<u8>>) -> Seq<u8>
    decreases names.len(),
{
    if names.len() == 0 {
        seq![]
    } else {
        nul_terminated(names.drop_last()) + names.last() + seq![0u8]
    }
}

/// The bytes of a label (its UTF-8 encoding).
pub open spec fn label_bytes(l: String) -> Seq<u8> {
    vstd::utf8::encode_utf8(l@)
}

/// The value of `_NET_DESKTOP_NAMES`: the tag labels, separated by nul bytes (the
/// nul after the last one dropped).
pub fn desktop_names(tag_labels: &[String]) -> (r: Vec<u8>)
    requires
        tag_labels@.len() > 0,
    ensures
        r@ == nul_terminated(tag_labels@.map_values(|l: String| label_bytes(l))).drop_last(),
{
    let ghost names = tag_labels@.map_values(|l: String| label_bytes(l));
    let mut r: Vec<u8> = Vec::new();
    let mut i: usize = 0;
    while i < tag_labels.len()
        invariant
            i <= tag_labels@.len(),
            names == tag_labels@.map_values(|l: String| label_bytes(l)),
            r@ == nul_terminated(names.take(i as int)),
        decreases tag_labels@.len() - i,
    {
        let bytes = tag_labels[i].as_str().as_bytes();
        let ghost before = r@;
        r.extend_from_slice(bytes);
        r.push(0u8);
        assert(names.take(i + 1).drop_last() =~= names.take(i as int));
        assert(r@ =~= before + names[i as int] + seq![0u8]);
        i = i + 1;
    }
    assert(names.take(i as int) =~= names);
    r.pop();
    r
}

/// A pixel value with its opacity byte (bits 24 to 31) set to fully opaque.
pub open spec fn opaque(color: u64) -> u64 {
    color | 0xff00_0000u64
}

/// Forces a border or background color to be fully opaque, as the Xlib
/// backend does before setting one.
pub fn opaque_color(color: u64) -> (r: u64)
    ensures
        r == opaque(color),
        r & 0xffu64 == color & 0xffu64,
        (r >> 24u64) & 0xffu64 == 0xffu64,
{
    let r = color | 0xff00_0000u64;
    assert(r & 0xffu64 == color & 0xffu64) by (bit_vector)
        requires
            r == color | 0xff00_0000u64,
    ;
    assert((r >> 24u64) & 0xffu64 == 0xffu64) by (bit_vector)
        requires
            r == color | 0xff00_0000u64,
    ;
    r
}

} // verus!
