//! The windows of the Wayland backend, by handle.
use vstd::prelude::*;

use nohash_hasher::{IntMap, NoHashHasher};
use std::hash::BuildHasherDefault;

verus! {

#[verifier::external_type_specification]
#[verifier::external_body]
#[verifier::reject_recursive_types(H)]
pub struct ExBuildHasherDefault<H>(BuildHasherDefault<H>);

#[verifier::external_type_specification]
#[verifier::external_body]
#[verifier::reject_recursive_types(T)]
pub struct ExNoHashHasher<T>(NoHashHasher<T>);

/// A rectangle in logical coordinates: its corner and its size.
#[derive(Clone, Copy, Debug, PartialEq, Eq, Structural)]
pub struct Rect {
    pub x: i32,
    pub y: i32,
    pub w: i32,
    pub h: i32,
}

/// A sum clamped to the range of `i32`.
pub open spec fn sat_add(a: i32, b: i32) -> int {
    let s = a + b;
    if s > i32::MAX {
        i32::MAX as int
    } else if s < i32::MIN {
        i32::MIN as int
    } else {
        s
    }
}

fn sat_add_exec(a: i32, b: i32) -> (r: i32)
    ensures
        r == sat_add(a, b),
{
    let s = a as i64 + b as i64;
    if s > i32::MAX as i64 {
        i32::MAX
    } else if s < i32::MIN as i64 {
        i32::MIN
    } else {
        s as i32
    }
}

/// Whether a rectangle holds a point: its left and top edges belong to it, its
/// right and bottom edges do not.
pub open spec fn rect_contains(r: Rect, px: i32, py: i32) -> bool {
    px >= r.x && px < sat_add(r.x, r.w) && py >= r.y && py < sat_add(r.y, r.h)
}

/// Whether two rectangles overlap: neither lies wholly beside or above the
/// other (touching edges overlap).
pub open spec fn rect_overlaps(a: Rect, b: Rect) -> bool {
    !(sat_add(a.x, a.w) < b.x || a.x > sat_add(b.x, b.w) || sat_add(a.y, a.h) < b.y || a.y > sat_add(b.y, b.h))
}

impl Rect {
    /// Whether this rectangle holds a point.
    pub fn contains(&self, px: i32, py: i32) -> (r: bool)
        ensures
            r == rect_contains(*self, px, py),
    {
        px >= self.x && px < sat_add_exec(self.x, self.w) && py >= self.y && py < sat_add_exec(self.y, self.h)
    }

    /// Whether this rectangle overlaps another.
    pub fn overlaps(&self, other: &Rect) -> (r: bool)
        ensures
            r == rect_overlaps(*self, *other),
    {
        !(sat_add_exec(self.x, self.w) < other.x || self.x > sat_add_exec(other.x, other.w)
            || sat_add_exec(self.y, self.h) < other.y || self.y > sat_add_exec(other.y, other.h))
    }
}

/// A window of the Wayland backend, in the registry's terms.
#[derive(Clone, Copy, Debug)]
pub struct ManagedWindow {
    pub handle: Option<usize>,
    /// A layer surface (a bar, a background) rather than an application window.
    pub is_surface: bool,
    pub geometry: Option<Rect>,
    pub alive: bool,
    pub floating: bool,
    pub visible: bool,
    pub managed: bool,
}

/// Two windows are taken to be the same when both have a handle and the
/// handles agree; a window without a handle equals no window, not even itself.
pub open spec fn same_window(a: ManagedWindow, b: ManagedWindow) -> bool {
    a.handle is Some && b.handle == a.handle
}

impl PartialEq for ManagedWindow {
    fn eq(&self, other: &Self) -> (r: bool) {
        match (self.handle, other.handle) {
            (Some(h1), Some(h2)) => h1 == h2,
            _ => false,
        }
    }
}

impl vstd::std_specs::cmp::PartialEqSpecImpl for ManagedWindow {
    open spec fn obeys_eq_spec() -> bool {
        true
    }

    open spec fn eq_spec(&self, other: &ManagedWindow) -> bool {
        same_window(*self, *other)
    }
}

impl ManagedWindow {
    /// An application window that has no handle yet, with no geometry.
    pub fn from_window() -> (r: ManagedWindow)
        ensures
            r == (ManagedWindow {
                handle: None,
                is_surface: false,
                geometry: None,
                alive: true,
                floating: false,
                visible: false,
                managed: false,
            }),
    {
        ManagedWindow {
            handle: None,
            is_surface: false,
            geometry: None,
            alive: true,
            floating: false,
            visible: false,
            managed: false,
        }
    }

    /// A layer surface that has no handle yet, with no geometry.
    pub fn from_surface() -> (r: ManagedWindow)
        ensures
            r == (ManagedWindow {
                handle: None,
                is_surface: true,
                geometry: None,
                alive: true,
                floating: false,
                visible: false,
                managed: false,
            }),
    {
        ManagedWindow {
            handle: None,
            is_surface: true,
            geometry: None,
            alive: true,
            floating: false,
            visible: false,
            managed: false,
        }
    }

    /// Whether this is a layer surface.
    pub fn is_wlr_surface(&self) -> (r: bool)
        ensures
            r == self.is_surface,
    {
        self.is_surface
    }

    /// Gives the window a handle, unless it has one already.
    pub fn set_handle(&mut self, handle: usize)
        ensures
            *final(self) == (ManagedWindow {
                handle: if old(self).handle is None { Some(handle) } else { old(self).handle },
                ..*old(self)
            }),
    {
        if self.handle.is_none() {
            self.handle = Some(handle);
        }
    }

    /// Records where the window stands (the backend then asks an application
    /// window for that size).
    pub fn set_geometry(&mut self, geometry: Rect)
        ensures
            *final(self) == (ManagedWindow { geometry: Some(geometry), ..*old(self) }),
    {
        self.geometry = Some(geometry);
    }

    /// The handle of the window, once it has one.
    pub fn get_handle(&self) -> (r: Option<usize>)
        ensures
            r == self.handle,
    {
        self.handle
    }
}

/// `IntMap::with_hasher(BuildNoHashHasher::default())`: an empty map.
#[verifier::external_body]
fn int_map_new() -> (r: IntMap<usize, ManagedWindow>)
    ensures
        r@ =~= Map::empty(),
{
    IntMap::with_hasher(BuildHasherDefault::default())
}

/// `HashMap::get` on an `IntMap`: the value of a key, if the map has it.
#[verifier::external_body]
fn int_map_get(m: &IntMap<usize, ManagedWindow>, key: usize) -> (r: Option<&ManagedWindow>)
    ensures
        m@.contains_key(key) ==> r == Some(&m@[key]),
        !m@.contains_key(key) ==> r is None,
{
    m.get(&key)
}

/// `HashMap::insert` on an `IntMap`: the key now has the value; the old value is
/// returned.
#[verifier::external_body]
fn int_map_insert(m: &mut IntMap<usize, ManagedWindow>, key: usize, value: ManagedWindow) -> (r: Option<ManagedWindow>)
    ensures
        final(m)@ == old(m)@.insert(key, value),
        old(m)@.contains_key(key) ==> r == Some(old(m)@[key]),
        !old(m)@.contains_key(key) ==> r is None,
{
    m.insert(key, value)
}

/// `HashMap::get_mut` on an `IntMap`: a reference into the value of a key, if
/// the map has it; what is left behind that reference is the key's new value.
#[verifier::external_body]
fn int_map_get_mut(m: &mut IntMap<usize, ManagedWindow>, key: usize) -> (r: Option<&mut ManagedWindow>)
    ensures
        old(m)@.contains_key(key) ==> (r is Some && *r->0 == old(m)@[key] && final(m)@ == old(m)@.insert(key, *final(r->0))),
        !old(m)@.contains_key(key) ==> (r is None && final(m)@ == old(m)@),
{
    m.get_mut(&key)
}

/// `HashMap::remove` on an `IntMap`: the key is gone; its value is returned.
#[verifier::external_body]
fn int_map_remove(m: &mut IntMap<usize, ManagedWindow>, key: usize) -> (r: Option<ManagedWindow>)
    ensures
        final(m)@ == old(m)@.remove(key),
        old(m)@.contains_key(key) ==> r == Some(old(m)@[key]),
        !old(m)@.contains_key(key) ==> r is None,
{
    m.remove(&key)
}

/// The keys of an `IntMap` (`HashMap::keys`), each once, in the map's order,
/// which is left open here.
#[verifier::external_body]
fn int_map_keys(m: &IntMap<usize, ManagedWindow>) -> (r: Vec<usize>)
    ensures
        r@.no_duplicates(),
        r@.to_set() == m@.dom(),
{
    m.keys().copied().collect()
}

/// Whether the window under a handle has a geometry that overlaps a rectangle.
pub open spec fn rect_window(m: Map<usize, ManagedWindow>, rect: Rect, k: usize) -> bool {
    m.contains_key(k) && (m[k].geometry matches Some(g) && rect_overlaps(rect, g))
}

/// The windows `r` are those under the handles `ks`, in that order, and `ks`
/// holds each handle whose window overlaps the rectangle exactly once.
pub open spec fn lists_windows_in_rect(m: Map<usize, ManagedWindow>, rect: Rect, ks: Seq<usize>, r: Seq<ManagedWindow>) -> bool {
    &&& ks.no_duplicates()
    &&& forall|k: usize| ks.contains(k) <==> rect_window(m, rect, k)
    &&& r == ks.map_values(|k: usize| m[k])
}

/// The window that the registry keeps under a handle: it takes the handle,
/// unless it has one already.
pub open spec fn with_handle(w: ManagedWindow, key: usize) -> ManagedWindow {
    ManagedWindow { handle: if w.handle is None { Some(key) } else { w.handle }, ..w }
}

/// A change of a registry by one of its operations, with what the operation
/// was given and, for `insert`, the handle it returned.
pub enum RegistryStep {
    Insert(ManagedWindow, usize),
    Remove(usize),
    GetMut(usize),
    Clean,
}

/// Whether `b` is what an operation makes of `a`: `insert` puts the window
/// under the next handle, which it returns, and moves the next handle on by
/// one; the other operations keep the next handle; every operation leaves
/// each handle in use below the next one.
pub open spec fn registry_step(a: WindowRegisty, step: RegistryStep, b: WindowRegisty) -> bool {
    &&& b.wf()
    &&& match step {
        RegistryStep::Insert(w, key) => {
            &&& key == a.next_handle()
            &&& b.next_handle() == key + 1
            &&& b.windows_map() == a.windows_map().insert(key, with_handle(w, key))
        },
        RegistryStep::Remove(key) => {
            &&& b.next_handle() == a.next_handle()
            &&& b.windows_map() == a.windows_map().remove(key)
        },
        RegistryStep::GetMut(_) => {
            &&& b.next_handle() == a.next_handle()
            &&& b.windows_map().dom() == a.windows_map().dom()
        },
        RegistryStep::Clean => {
            &&& b.next_handle() == a.next_handle()
            &&& b.windows_map().dom().subset_of(a.windows_map().dom())
        },
    }
}

/// How many of the steps are inserts.
pub open spec fn inserts_in(steps: Seq<RegistryStep>) -> nat
    decreases steps.len(),
{
    if steps.len() == 0 {
        0
    } else {
        inserts_in(steps.drop_last()) + if steps.last() is Insert { 1nat } else { 0nat }
    }
}

/// The windows of the Wayland backend, by handle; handles are never reused.
pub struct WindowRegisty {
    map: IntMap<usize, ManagedWindow>,
    next_key: usize,
}

impl WindowRegisty {
    /// The windows, by handle.
    pub closed spec fn windows_map(&self) -> Map<usize, ManagedWindow> {
        self.map@
    }

    /// The handle that the next window gets.
    pub closed spec fn next_handle(&self) -> usize {
        self.next_key
    }

    /// Whether a window is one of the registry's.
    pub open spec fn holds(&self, w: ManagedWindow) -> bool {
        exists|k: usize| #![trigger self.windows_map()[k]] self.windows_map().contains_key(k) && w == self.windows_map()[k]
    }

    /// Every handle in use is below the next one.
    pub open spec fn wf(&self) -> bool {
        forall|k: usize| #[trigger] self.windows_map().contains_key(k) ==> k < self.next_handle()
    }

    /// An empty registry.
    pub fn new() -> (r: WindowRegisty)
        ensures
            r.wf(),
            r.windows_map() == Map::<usize, ManagedWindow>::empty(),
            r.next_handle() == 0,
    {
        WindowRegisty { map: int_map_new(), next_key: 0 }
    }

    /// The window with a handle, if any.
    pub fn get(&self, key: usize) -> (r: Option<&ManagedWindow>)
        ensures
            self.windows_map().contains_key(key) ==> r == Some(&self.windows_map()[key]),
            !self.windows_map().contains_key(key) ==> r is None,
    {
        int_map_get(&self.map, key)
    }

    /// The window with a handle, to change in place, if any.
    pub fn get_mut(&mut self, key: usize) -> (r: Option<&mut ManagedWindow>)
        requires
            old(self).wf(),
        ensures
            old(self).windows_map().contains_key(key) ==> (r is Some && *r->0 == old(self).windows_map()[key]
                && final(self).windows_map() == old(self).windows_map().insert(key, *final(r->0))),
            !old(self).windows_map().contains_key(key) ==> (r is None && final(self).windows_map() == old(self).windows_map()),
            final(self).windows_map().dom() == old(self).windows_map().dom(),
            final(self).next_handle() == old(self).next_handle(),
            final(self).wf(),
            registry_step(*old(self), RegistryStep::GetMut(key), *final(self)),
    {
        let r = int_map_get_mut(&mut self.map, key);
        proof {
            if old(self).windows_map().contains_key(key) {
                assert(old(self).windows_map().dom().insert(key) =~= old(self).windows_map().dom());
            }
        }
        r
    }

    /// Adds a window under a new handle, which is returned; the window takes the
    /// handle unless it has one already.
    pub fn insert(&mut self, window: ManagedWindow) -> (key: usize)
        requires
            old(self).wf(),
            old(self).next_handle() < usize::MAX,
        ensures
            final(self).wf(),
            key == old(self).next_handle(),
            !old(self).windows_map().contains_key(key),
            final(self).windows_map() == old(self).windows_map().insert(
                key,
                with_handle(window, key),
            ),
            final(self).next_handle() == key + 1,
            registry_step(*old(self), RegistryStep::Insert(window, key), *final(self)),
    {
        let key = self.next_key;
        self.next_key = self.next_key + 1;
        let mut window = window;
        window.set_handle(key);
        let _ = int_map_insert(&mut self.map, key, window);
        assert forall|k: usize| #[trigger] self.windows_map().contains_key(k) implies k
            < self.next_handle() by {
            if k != key {
                assert(old(self).windows_map().contains_key(k));
            }
        }
        key
    }

    /// Removes the window with a handle, returning it.
    pub fn remove(&mut self, key: usize) -> (r: Option<ManagedWindow>)
        requires
            old(self).wf(),
        ensures
            final(self).wf(),
            final(self).windows_map() == old(self).windows_map().remove(key),
            final(self).next_handle() == old(self).next_handle(),
            old(self).windows_map().contains_key(key) ==> r == Some(old(self).windows_map()[key]),
            !old(self).windows_map().contains_key(key) ==> r is None,
            registry_step(*old(self), RegistryStep::Remove(key), *final(self)),
    {
        let r = int_map_remove(&mut self.map, key);
        assert forall|k: usize| #[trigger] self.windows_map().contains_key(k) implies k
            < self.next_handle() by {
            assert(old(self).windows_map().contains_key(k));
        }
        r
    }

    /// The handles of all windows, each once, in an order that is left open.
    pub fn handles(&self) -> (r: Vec<usize>)
        ensures
            r@.no_duplicates(),
            r@.to_set() == self.windows_map().dom(),
    {
        int_map_keys(&self.map)
    }

    /// A window whose geometry holds a point, with the corner of that geometry;
    /// none where no window's does. Which window, where several do, is left open.
    pub fn window_under(&self, px: i32, py: i32) -> (r: Option<(ManagedWindow, (i32, i32))>)
        requires
            self.wf(),
        ensures
            r is None <==> !exists|k: usize|
                #![trigger self.windows_map()[k]]
                self.windows_map().contains_key(k) && (self.windows_map()[k].geometry matches Some(g)
                    && rect_contains(g, px, py)),
            r matches Some(p) ==> exists|k: usize|
                #![trigger self.windows_map()[k]]
                self.windows_map().contains_key(k) && p.0 == self.windows_map()[k] && (
                p.0.geometry matches Some(g) && rect_contains(g, px, py) && p.1 == (g.x, g.y)),
    {
        let keys = self.handles();
        let mut i: usize = 0;
        while i < keys.len()
            invariant
                i <= keys@.len(),
                keys@.to_set() == self.windows_map().dom(),
                forall|j: int|
                    0 <= j < i ==> !(self.windows_map()[#[trigger] keys@[j]].geometry matches Some(g)
                        && rect_contains(g, px, py)),
            decreases keys@.len() - i,
        {
            let k = keys[i];
            assert(keys@.to_set().contains(k));
            match int_map_get(&self.map, k) {
                Some(w) => {
                    match w.geometry {
                        Some(g) => {
                            if g.contains(px, py) {
                                return Some((*w, (g.x, g.y)));
                            }
                        },
                        None => {},
                    }
                },
                None => {},
            }
            i = i + 1;
        }
        assert forall|k: usize| #[trigger] self.windows_map().contains_key(k) implies !(
        self.windows_map()[k].geometry matches Some(g) && rect_contains(g, px, py)) by {
            assert(keys@.to_set().contains(k));
            let j = choose|j: int| 0 <= j < keys@.len() && keys@[j] == k;
            assert(keys@[j] == k);
        }
        None
    }

    /// Drops the windows that are no longer alive.
    pub fn clean(&mut self)
        requires
            old(self).wf(),
        ensures
            final(self).wf(),
            final(self).next_handle() == old(self).next_handle(),
            forall|k: usize| #[trigger] final(self).windows_map().contains_key(k) <==> (
                old(self).windows_map().contains_key(k) && old(self).windows_map()[k].alive),
            forall|k: usize| #[trigger] final(self).windows_map().contains_key(k) ==> final(self).windows_map()[k]
                == old(self).windows_map()[k],
            registry_step(*old(self), RegistryStep::Clean, *final(self)),
    {
        let keys = self.handles();
        let ghost old_map = self.windows_map();
        let mut i: usize = 0;
        while i < keys.len()
            invariant
                i <= keys@.len(),
                keys@.no_duplicates(),
                keys@.to_set() == old_map.dom(),
                self.wf(),
                self.next_handle() == old(self).next_handle(),
                old_map == old(self).windows_map(),
                forall|k: usize| #[trigger] self.windows_map().contains_key(k) ==> old_map.contains_key(k)
                    && self.windows_map()[k] == old_map[k],
                forall|k: usize|
                    #[trigger] old_map.contains_key(k) ==> (self.windows_map().contains_key(k) <==> (old_map[k].alive
                        || !keys@.subrange(0, i as int).contains(k))),
            decreases keys@.len() - i,
        {
            let k = keys[i];
            assert(keys@.to_set().contains(k));
            let alive = match int_map_get(&self.map, k) {
                Some(w) => w.alive,
                None => true,
            };
            if !alive {
                let _ = int_map_remove(&mut self.map, k);
            }
            let ghost pre = keys@.subrange(0, i as int);
            let ghost post = keys@.subrange(0, i + 1);
            assert(post =~= pre.push(k));
            assert forall|m: usize| #[trigger] old_map.contains_key(m) implies (self.windows_map().contains_key(m) <==> (
            old_map[m].alive || !post.contains(m))) by {
                if m == k {
                    assert(post[i as int] == k);
                } else {
                    assert(post.contains(m) <==> pre.contains(m)) by {
                        if post.contains(m) {
                            let j = choose|j: int| 0 <= j < post.len() && #[trigger] post[j] == m;
                            assert(pre[j] == m);
                        }
                        if pre.contains(m) {
                            let j = choose|j: int| 0 <= j < pre.len() && #[trigger] pre[j] == m;
                            assert(post[j] == m);
                        }
                    }
                }
            }
            i = i + 1;
        }
        assert forall|k: usize| #[trigger] old_map.contains_key(k) implies keys@.subrange(0, i as int).contains(k) by {
            assert(keys@.to_set().contains(k));
            let j = choose|j: int| 0 <= j < keys@.len() && keys@[j] == k;
            assert(keys@.subrange(0, i as int)[j] == k);
        }
    }

    /// The windows whose geometry overlaps a rectangle, each once, in an order
    /// that is left open.
    pub fn windows_in_rect(&self, output_geometry: &Rect) -> (r: Vec<ManagedWindow>)
        requires
            self.wf(),
        ensures
            exists|ks: Seq<usize>| lists_windows_in_rect(self.windows_map(), *output_geometry, ks, r@),
            forall|i: int| 0 <= i < r@.len() ==> self.holds(#[trigger] r@[i]),
            forall|i: int| 0 <= i < r@.len() ==> ((#[trigger] r@[i]).geometry matches Some(g) && rect_overlaps(*output_geometry, g)),
            forall|k: usize|
                #[trigger] self.windows_map().contains_key(k) && (self.windows_map()[k].geometry matches Some(g)
                    && rect_overlaps(*output_geometry, g)) ==> r@.contains(self.windows_map()[k]),
    {
        let keys = self.handles();
        let ghost m = self.windows_map();
        let ghost rect = *output_geometry;
        let ghost f = |k: usize| m[k];
        let ghost mut ks: Seq<usize> = Seq::empty();
        let mut r: Vec<ManagedWindow> = Vec::new();
        let mut i: usize = 0;
        while i < keys.len()
            invariant
                i <= keys@.len(),
                m == self.windows_map(),
                rect == *output_geometry,
                f == (|k: usize| m[k]),
                keys@.no_duplicates(),
                keys@.to_set() == m.dom(),
                ks.no_duplicates(),
                forall|x: usize| ks.contains(x) <==> (keys@.subrange(0, i as int).contains(x) && rect_window(m, rect, x)),
                r@ == ks.map_values(f),
            decreases keys@.len() - i,
        {
            let k = keys[i];
            assert(keys@.to_set().contains(k));
            let ghost pre = keys@.subrange(0, i as int);
            let ghost post = keys@.subrange(0, i + 1);
            assert(post =~= pre.push(k));
            assert forall|x: usize| post.contains(x) <==> (pre.contains(x) || x == k) by {
                if post.contains(x) {
                    let j = choose|j: int| 0 <= j < post.len() && post[j] == x;
                    if j < i {
                        assert(pre[j] == x);
                    }
                }
                if pre.contains(x) {
                    let j = choose|j: int| 0 <= j < pre.len() && pre[j] == x;
                    assert(post[j] == x);
                }
                if x == k {
                    assert(post[i as int] == x);
                }
            }
            assert(!pre.contains(k)) by {
                if pre.contains(k) {
                    let j = choose|j: int| 0 <= j < pre.len() && pre[j] == k;
                    assert(keys@[j] == keys@[i as int]);
                }
            }
            let mut take = false;
            match int_map_get(&self.map, k) {
                Some(w) => {
                    match w.geometry {
                        Some(g) => {
                            if output_geometry.overlaps(&g) {
                                take = true;
                            }
                        },
                        None => {},
                    }
                },
                None => {},
            }
            assert(take == rect_window(m, rect, k));
            let ghost ks0 = ks;
            if take {
                let w = *int_map_get(&self.map, k).unwrap();
                proof {
                    assert(ks.push(k).map_values(f) =~= ks.map_values(f).push(f(k)));
                    assert forall|a: int, b: int| 0 <= a < b < ks.push(k).len() implies ks.push(k)[a] != ks.push(k)[b] by {
                        if b == ks.len() {
                            assert(ks.contains(ks[a]));
                        }
                    }
                    ks = ks.push(k);
                }
                r.push(w);
            }
            assert forall|x: usize| ks.contains(x) <==> (post.contains(x) && rect_window(m, rect, x)) by {
                if take {
                    assert(ks == ks0.push(k));
                    if ks.contains(x) {
                        let a = choose|a: int| 0 <= a < ks.len() && ks[a] == x;
                        if a < ks0.len() {
                            assert(ks0[a] == x);
                        }
                    }
                    if ks0.contains(x) {
                        let a = choose|a: int| 0 <= a < ks0.len() && ks0[a] == x;
                        assert(ks[a] == x);
                    }
                    if x == k {
                        assert(ks[ks0.len() as int] == k);
                    }
                }
            }
            i = i + 1;
        }
        proof {
            assert(keys@.subrange(0, i as int) =~= keys@);
            assert(lists_windows_in_rect(m, rect, ks, r@));
            assert forall|a: int| 0 <= a < r@.len() implies self.holds(#[trigger] r@[a]) && ((r@[a]).geometry matches Some(g)
                && rect_overlaps(*output_geometry, g)) by {
                assert(ks.contains(ks[a]));
                assert(r@[a] == m[ks[a]]);
            }
            assert forall|k: usize|
                #[trigger] self.windows_map().contains_key(k) && (self.windows_map()[k].geometry matches Some(g)
                    && rect_overlaps(*output_geometry, g)) implies r@.contains(self.windows_map()[k]) by {
                assert(keys@.to_set().contains(k));
                assert(ks.contains(k));
                let a = choose|a: int| 0 <= a < ks.len() && ks[a] == k;
                assert(r@[a] == m[k]);
            }
        }
        r
    }
}

/// A window put in the registry is what `get` gives back under the handle that
/// `insert` returned (a handle no window had), and the other windows are
/// unchanged; after `remove` the handle gives nothing.
pub proof fn lemma_insert_get_remove(r: WindowRegisty, w: ManagedWindow, other: usize)
    requires
        r.wf(),
    ensures
        !r.windows_map().contains_key(r.next_handle()),
        r.windows_map().insert(r.next_handle(), with_handle(w, r.next_handle())).contains_key(r.next_handle()),
        r.windows_map().insert(r.next_handle(), with_handle(w, r.next_handle()))[r.next_handle()] == with_handle(
            w,
            r.next_handle(),
        ),
        w.handle is None ==> with_handle(w, r.next_handle()).handle == Some(r.next_handle()),
        other != r.next_handle() ==> (r.windows_map().insert(r.next_handle(), with_handle(w, r.next_handle())).contains_key(
            other,
        ) == r.windows_map().contains_key(other)),
        other != r.next_handle() && r.windows_map().contains_key(other) ==> r.windows_map().insert(
            r.next_handle(),
            with_handle(w, r.next_handle()),
        )[other] == r.windows_map()[other],
        !r.windows_map().insert(r.next_handle(), with_handle(w, r.next_handle())).remove(r.next_handle()).contains_key(
            r.next_handle(),
        ),
{
}

proof fn lemma_inserts_in_prefix(steps: Seq<RegistryStep>, i: int)
    requires
        0 <= i < steps.len(),
    ensures
        inserts_in(steps.take(i + 1)) == inserts_in(steps.take(i)) + if steps[i] is Insert { 1nat } else { 0nat },
{
    assert(steps.take(i + 1).drop_last() =~= steps.take(i));
}

proof fn lemma_inserts_in_monotone(steps: Seq<RegistryStep>, i: int, j: int)
    requires
        0 <= i <= j <= steps.len(),
    ensures
        inserts_in(steps.take(i)) <= inserts_in(steps.take(j)),
    decreases j - i,
{
    if i < j {
        lemma_inserts_in_monotone(steps, i, j - 1);
        lemma_inserts_in_prefix(steps, j - 1);
    }
}

proof fn lemma_history_prefix(states: Seq<WindowRegisty>, steps: Seq<RegistryStep>, n: int)
    requires
        states.len() == steps.len() + 1,
        states[0].windows_map() == Map::<usize, ManagedWindow>::empty(),
        states[0].next_handle() == 0,
        forall|i: int| #![trigger steps[i]] 0 <= i < steps.len() ==> registry_step(states[i], steps[i], states[i + 1]),
        0 <= n <= steps.len(),
    ensures
        states[n].next_handle() == inserts_in(steps.take(n)),
        states[n].wf(),
    decreases n,
{
    if n == 0 {
        assert(steps.take(0) =~= Seq::<RegistryStep>::empty());
    } else {
        lemma_history_prefix(states, steps, n - 1);
        lemma_inserts_in_prefix(steps, n - 1);
        assert(registry_step(states[n - 1], steps[n - 1], states[n]));
    }
}

/// Handles are handed out in order and never reused: over any history of a
/// registry that starts empty (as `new` makes it), the next handle is the
/// number of windows inserted so far, every handle in use is below it, each
/// insert returns the number of inserts before it, and so two inserts never
/// return the same handle, whatever was removed in between.
pub proof fn lemma_handles_in_order(states: Seq<WindowRegisty>, steps: Seq<RegistryStep>)
    requires
        states.len() == steps.len() + 1,
        states[0].windows_map() == Map::<usize, ManagedWindow>::empty(),
        states[0].next_handle() == 0,
        forall|i: int| #![trigger steps[i]] 0 <= i < steps.len() ==> registry_step(states[i], steps[i], states[i + 1]),
    ensures
        forall|i: int| #![trigger states[i]] 0 <= i <= steps.len() ==> states[i].next_handle() == inserts_in(steps.take(i)),
        forall|i: int, k: usize|
            #![trigger states[i].windows_map().contains_key(k)]
            0 <= i <= steps.len() && states[i].windows_map().contains_key(k) ==> k < inserts_in(steps.take(i)),
        forall|i: int| #![trigger steps[i]] 0 <= i < steps.len() ==> (steps[i] matches RegistryStep::Insert(_, key)
            ==> key == inserts_in(steps.take(i))),
        forall|i: int, j: int|
            #![trigger steps[i], steps[j]]
            0 <= i < j < steps.len() ==> (steps[i] matches RegistryStep::Insert(_, a) ==> (steps[j] matches RegistryStep::Insert(_, b)
                ==> a < b)),
{
    assert forall|i: int| #![trigger states[i]] 0 <= i <= steps.len() implies states[i].next_handle() == inserts_in(
        steps.take(i),
    ) by {
        lemma_history_prefix(states, steps, i);
    }
    assert forall|i: int, k: usize|
        #![trigger states[i].windows_map().contains_key(k)]
        0 <= i <= steps.len() && states[i].windows_map().contains_key(k) implies k < inserts_in(steps.take(i)) by {
        lemma_history_prefix(states, steps, i);
    }
    assert forall|i: int| #![trigger steps[i]] 0 <= i < steps.len() implies (steps[i] matches RegistryStep::Insert(_, key)
        ==> key == inserts_in(steps.take(i))) by {
        lemma_history_prefix(states, steps, i);
        assert(registry_step(states[i], steps[i], states[i + 1]));
    }
    assert forall|i: int, j: int|
        #![trigger steps[i], steps[j]]
        0 <= i < j < steps.len() implies (steps[i] matches RegistryStep::Insert(_, a) ==> (steps[j] matches RegistryStep::Insert(_, b)
            ==> a < b)) by {
        lemma_history_prefix(states, steps, i);
        lemma_history_prefix(states, steps, j);
        assert(registry_step(states[i], steps[i], states[i + 1]));
        assert(registry_step(states[j], steps[j], states[j + 1]));
        lemma_inserts_in_prefix(steps, i);
        lemma_inserts_in_monotone(steps, i + 1, j);
    }
}

} // verus!
