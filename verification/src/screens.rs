//! The screens of the display: where they come from, and the screens that the
//! window manager is told about on startup.
use vstd::prelude::*;

use vstd::string::StringSliceAdditionalSpecFns;
use vstd::utf8::{decode_utf8, encode_utf8_decode_utf8, valid_utf8};

use crate::dock::fits_i32;
use crate::models::{BBox, DisplayEvent, Screen, WindowHandle, XyhwChange};

verus! {

#[verifier::external_type_specification]
#[verifier::external_body]
pub struct ExUtf8Error(core::str::Utf8Error);

/// `std::str::from_utf8`: the bytes read as a string, when they are UTF-8
/// (and an error exactly when they are not).
#[verifier::external_body]
fn str_from_utf8(bytes: &[u8]) -> (r: Result<&str, core::str::Utf8Error>)
    ensures
        r is Ok <==> valid_utf8(bytes@),
        r matches Ok(s) ==> s.spec_bytes() == bytes@,
{
    core::str::from_utf8(bytes)
}

/// Whether bytes are a C string with its nul: nonempty, ending in the only nul.
pub open spec fn is_c_string_with_nul(b: Seq<u8>) -> bool {
    &&& b.len() > 0
    &&& b.last() == 0
    &&& forall|i: int| 0 <= i < b.len() - 1 ==> b[i] != 0
}

/// The name of a RandR output from the bytes the server gives: the string
/// before the nul when the bytes are a C string with its nul, and
/// `output_name` otherwise. Such a C string must be UTF-8.
pub fn output_name(name: &[u8]) -> (r: String)
    requires
        is_c_string_with_nul(name@) ==> valid_utf8(name@.drop_last()),
    ensures
        is_c_string_with_nul(name@) ==> r@ == decode_utf8(name@.drop_last()),
        !is_c_string_with_nul(name@) ==> r@ == "output_name"@,
{
    let n = name.len();
    let mut is_c = n > 0 && name[n - 1] == 0;
    let mut i: usize = 0;
    while is_c && i + 1 < n
        invariant
            n == name@.len(),
            i <= n,
            is_c ==> n > 0 && name@[n - 1] == 0 && forall|j: int| 0 <= j < i ==> name@[j] != 0,
            !is_c ==> !is_c_string_with_nul(name@),
        decreases n - i,
    {
        if name[i] == 0 {
            is_c = false;
        }
        i += 1;
    }
    if is_c {
        let body = vstd::slice::slice_subrange(name, 0, n - 1);
        assert(body@ == name@.drop_last());
        match str_from_utf8(body) {
            Ok(s) => {
                proof {
                    encode_utf8_decode_utf8(s@);
                }
                s.to_owned()
            },
            Err(_) => {
                proof {
                    assert(false);
                }
                "output_name".to_owned()
            },
        }
    } else {
        "output_name".to_owned()
    }
}

/// A copy of a screen.
pub fn copy_screen(s: &Screen) -> (r: Screen)
    ensures
        r == *s,
{
    Screen { root: s.root, output: s.output.clone(), id: s.id, bbox: s.bbox }
}

/// A workspace of the configuration: the output that it shows on, and its area
/// (relative to that output's where `relative` is set).
#[derive(Clone, Debug)]
pub struct WorkspaceConfig {
    pub output: String,
    pub relative: Option<bool>,
    pub x: i32,
    pub y: i32,
    pub width: i32,
    pub height: i32,
}

/// The screen that a workspace configuration describes, on a root window.
pub open spec fn screen_of_config(w: WorkspaceConfig, root: u32) -> Screen {
    Screen {
        root: WindowHandle(root),
        output: w.output,
        id: None,
        bbox: BBox { x: w.x, y: w.y, width: w.width, height: w.height },
    }
}

/// The first screen on an output, if any.
pub open spec fn screen_on_output(screens: Seq<Screen>, output: Seq<char>) -> Option<Screen>
    decreases screens.len(),
{
    if screens.len() == 0 {
        None
    } else if screens[0].output@ == output {
        Some(screens[0])
    } else {
        screen_on_output(screens.drop_first(), output)
    }
}

/// A box moved by the position of another.
pub open spec fn moved_by(b: BBox, by: BBox) -> BBox {
    BBox { x: (b.x + by.x) as i32, y: (b.y + by.y) as i32, ..b }
}

/// The screen of the workspace at index `i`, where its output is connected: it
/// gets id `i + 1`, and a relative workspace is placed on its output.
pub open spec fn configured_screen(w: WorkspaceConfig, i: int, screens: Seq<Screen>, root: u32) -> Option<Screen> {
    match screen_on_output(screens, w.output@) {
        None => None,
        Some(m) => Some(
            Screen {
                id: Some((i + 1) as usize),
                bbox: if w.relative == Some(true) {
                    moved_by(screen_of_config(w, root).bbox, m.bbox)
                } else {
                    screen_of_config(w, root).bbox
                },
                ..screen_of_config(w, root)
            },
        ),
    }
}

/// The screens of the configured workspaces whose outputs are connected, in order.
pub open spec fn configured_screens(ws: Seq<WorkspaceConfig>, screens: Seq<Screen>, root: u32) -> Seq<Screen>
    decreases ws.len(),
{
    if ws.len() == 0 {
        seq![]
    } else {
        let prev = configured_screens(ws.drop_last(), screens, root);
        match configured_screen(ws.last(), ws.len() - 1, screens, root) {
            None => prev,
            Some(s) => prev.push(s),
        }
    }
}

/// Whether a workspace is configured on an output.
pub open spec fn has_workspace_on(ws: Seq<WorkspaceConfig>, output: Seq<char>) -> bool {
    exists|i: int| 0 <= i < ws.len() && #[trigger] ws[i].output@ == output
}

/// The screens on which no workspace is configured.
pub open spec fn unconfigured_screens(screens: Seq<Screen>, ws: Seq<WorkspaceConfig>) -> Seq<Screen>
    decreases screens.len(),
{
    if screens.len() == 0 {
        seq![]
    } else {
        let prev = unconfigured_screens(screens.drop_last(), ws);
        if has_workspace_on(ws, screens.last().output@) {
            prev
        } else {
            prev.push(screens.last())
        }
    }
}

/// Screens numbered from `first_id` on.
pub open spec fn numbered(screens: Seq<Screen>, first_id: int) -> Seq<Screen> {
    Seq::new(screens.len(), |k: int| Screen { id: Some((first_id + k) as usize), ..screens[k] })
}

/// The screens that the window manager is told about on startup: those of the
/// configured workspaces, then, where workspaces are derived automatically or no
/// configured one is connected, every other screen, numbered after them.
pub open spec fn startup_screens(ws: Seq<WorkspaceConfig>, screens: Seq<Screen>, root: u32, auto_derive: bool) -> Seq<Screen> {
    let configured = configured_screens(ws, screens, root);
    if auto_derive || configured.len() == 0 {
        configured + numbered(unconfigured_screens(screens, ws), ws.len() + 1int)
    } else {
        configured
    }
}

/// Whether all the sums of positions that relative workspaces need fit in 32 bits.
pub open spec fn relative_positions_fit(ws: Seq<WorkspaceConfig>, screens: Seq<Screen>) -> bool {
    forall|i: int, j: int|
        0 <= i < ws.len() && 0 <= j < screens.len() ==> fits_i32(#[trigger] ws[i].x + #[trigger] screens[j].bbox.x)
            && fits_i32(ws[i].y + screens[j].bbox.y)
}

fn find_screen_on_output(screens: &[Screen], output: &String) -> (r: Option<usize>)
    ensures
        match screen_on_output(screens@, output@) {
            None => r is None,
            Some(s) => r matches Some(k) && k < screens@.len() && screens@[k as int] == s,
        },
{
    let mut k: usize = 0;
    assert(screens@.skip(0) =~= screens@);
    while k < screens.len()
        invariant
            k <= screens@.len(),
            screen_on_output(screens@, output@) == screen_on_output(screens@.skip(k as int), output@),
        decreases screens@.len() - k,
    {
        assert(screens@.skip(k as int).drop_first() =~= screens@.skip(k + 1));
        if screens[k].output == *output {
            return Some(k);
        }
        k = k + 1;
    }
    None
}

fn workspace_on(ws: &[WorkspaceConfig], output: &String) -> (r: bool)
    ensures
        r == has_workspace_on(ws@, output@),
{
    let mut i: usize = 0;
    while i < ws.len()
        invariant
            i <= ws@.len(),
            forall|j: int| 0 <= j < i ==> ws@[j].output@ != output@,
        decreases ws@.len() - i,
    {
        if ws[i].output == *output {
            assert(ws@[i as int].output@ == output@);
            return true;
        }
        i = i + 1;
    }
    false
}

/// The screens to report on startup (without the windows),
/// each as a `ScreenCreate` event; none where no workspaces are configured.
pub fn initial_screens(
    workspaces: Option<&[WorkspaceConfig]>,
    screens: &[Screen],
    root: u32,
    auto_derive: bool,
) -> (r: Vec<DisplayEvent>)
    requires
        workspaces matches Some(ws) ==> {
            &&& ws@.len() + screens@.len() + 1 < usize::MAX
            &&& relative_positions_fit(ws@, screens@)
        },
    ensures
        match workspaces {
            None => r@.len() == 0,
            Some(ws) => r@ == startup_screens(ws@, screens@, root, auto_derive).map_values(
                |s: Screen| DisplayEvent::ScreenCreate(s),
            ),
        },
{
    let ws = match workspaces {
        None => return Vec::new(),
        Some(ws) => ws,
    };
    let mut configured: Vec<Screen> = Vec::new();
    let mut i: usize = 0;
    while i < ws.len()
        invariant
            i <= ws@.len(),
            ws@.len() + screens@.len() + 1 < usize::MAX,
            relative_positions_fit(ws@, screens@),
            configured@ == configured_screens(ws@.subrange(0, i as int), screens@, root),
        decreases ws@.len() - i,
    {
        assert(ws@.subrange(0, i + 1).drop_last() =~= ws@.subrange(0, i as int));
        let wsc = &ws[i];
        match find_screen_on_output(screens, &wsc.output) {
            Some(k) => {
                let m = &screens[k];
                let mut bbox = BBox { x: wsc.x, y: wsc.y, width: wsc.width, height: wsc.height };
                if wsc.relative == Some(true) {
                    bbox.x = bbox.x + m.bbox.x;
                    bbox.y = bbox.y + m.bbox.y;
                }
                configured.push(
                    Screen {
                        root: WindowHandle(root),
                        output: wsc.output.clone(),
                        id: Some(i + 1),
                        bbox,
                    },
                );
            },
            None => {},
        }
        i = i + 1;
    }
    assert(ws@.subrange(0, i as int) =~= ws@);
    let derive = auto_derive || configured.len() == 0;
    if derive {
        let mut next_id = ws.len() + 1;
        let ghost start = configured@;
        let ghost first_id: int = ws@.len() + 1int;
        let mut j: usize = 0;
        let mut extra: Vec<Screen> = Vec::new();
        while j < screens.len()
            invariant
                j <= screens@.len(),
                ws@.len() + screens@.len() + 1 < usize::MAX,
                first_id == ws@.len() + 1,
                extra@ == numbered(unconfigured_screens(screens@.subrange(0, j as int), ws@), first_id),
                next_id == first_id + extra@.len(),
                extra@.len() <= j,
            decreases screens@.len() - j,
        {
            let ghost before = extra@;
            assert(screens@.subrange(0, j + 1).drop_last() =~= screens@.subrange(0, j as int));
            if !workspace_on(ws, &screens[j].output) {
                let mut s = copy_screen(&screens[j]);
                s.id = Some(next_id);
                next_id = next_id + 1;
                extra.push(s);
                assert(extra@ =~= numbered(unconfigured_screens(screens@.subrange(0, j + 1), ws@), first_id));
            }
            j = j + 1;
        }
        assert(screens@.subrange(0, j as int) =~= screens@);
        configured.append(&mut extra);
    }
    let mut events: Vec<DisplayEvent> = Vec::new();
    let mut k: usize = 0;
    let ghost all = configured@;
    while k < configured.len()
        invariant
            k <= configured@.len(),
            configured@ == all,
            events@ == all.subrange(0, k as int).map_values(|s: Screen| DisplayEvent::ScreenCreate(s)),
        decreases configured@.len() - k,
    {
        events.push(DisplayEvent::ScreenCreate(copy_screen(&configured[k])));
        assert(events@ =~= all.subrange(0, k + 1).map_values(|s: Screen| DisplayEvent::ScreenCreate(s)));
        k = k + 1;
    }
    assert(all.subrange(0, k as int) =~= all);
    events
}

/// A screen of a RandR CRTC: its area, on the root, named after its output.
pub fn screen_from_crtc(x: i16, y: i16, width: u16, height: u16, root: u32, output: String) -> (r: Screen)
    ensures
        r == (Screen {
            root: WindowHandle(root),
            output: output,
            id: None,
            bbox: BBox { x: x as i32, y: y as i32, width: width as i32, height: height as i32 },
        }),
{
    Screen {
        root: WindowHandle(root),
        output,
        id: None,
        bbox: BBox { x: x as i32, y: y as i32, width: width as i32, height: height as i32 },
    }
}

/// A screen of Xinerama: its area, on the root, with no output name.
pub fn screen_from_xinerama(x_org: i16, y_org: i16, width: u16, height: u16, root: u32) -> (r: Screen)
    ensures
        r.root == WindowHandle(root),
        r.output@ == Seq::<char>::empty(),
        r.id is None,
        r.bbox == (BBox { x: x_org as i32, y: y_org as i32, width: width as i32, height: height as i32 }),
{
    Screen {
        root: WindowHandle(root),
        output: String::new(),
        id: None,
        bbox: BBox { x: x_org as i32, y: y_org as i32, width: width as i32, height: height as i32 },
    }
}

/// A screen of an Xlib RandR CRTC: its area (the unsigned size read as
/// `i32`, wrapping as a cast does), on the root, with its output's name.
pub fn screen_from_xrandr_crtc(x: i32, y: i32, width: u32, height: u32, root: u32, output: String) -> (r: Screen)
    ensures
        r == (Screen {
            root: WindowHandle(root),
            output: output,
            id: None,
            bbox: BBox { x: x, y: y, width: width as i32, height: height as i32 },
        }),
{
    Screen { root: WindowHandle(root), output, id: None, bbox: BBox { x, y, width: width as i32, height: height as i32 } }
}

/// The screen of a root window from its attributes (Xlib without Xinerama).
pub fn screen_from_window_attrs(root: u32, x: i32, y: i32, width: i32, height: i32) -> (r: Screen)
    ensures
        r.root == WindowHandle(root),
        r.output@ == Seq::<char>::empty(),
        r.id is None,
        r.bbox == (BBox { x: x, y: y, width: width, height: height }),
{
    Screen { root: WindowHandle(root), output: String::new(), id: None, bbox: BBox { x, y, width, height } }
}

/// A screen of a root window without Xinerama, from its size hints: the missing
/// fields count as 0.
pub fn screen_from_hints(hints: XyhwChange) -> (r: Screen)
    ensures
        r.root == WindowHandle(0),
        r.output@ == Seq::<char>::empty(),
        r.id is None,
        r.bbox == (BBox {
            x: match hints.x { Some(v) => v, None => 0 },
            y: match hints.y { Some(v) => v, None => 0 },
            width: match hints.w { Some(v) => v, None => 0 },
            height: match hints.h { Some(v) => v, None => 0 },
        }),
{
    Screen {
        root: WindowHandle(0),
        output: String::new(),
        id: None,
        bbox: BBox {
            x: match hints.x { Some(v) => v, None => 0 },
            y: match hints.y { Some(v) => v, None => 0 },
            width: match hints.w { Some(v) => v, None => 0 },
            height: match hints.h { Some(v) => v, None => 0 },
        },
    }
}

proof fn lemma_screen_on_output_first(screens: Seq<Screen>, output: Seq<char>)
    ensures
        screen_on_output(screens, output) is Some ==> exists|j: int|
            0 <= j < screens.len() && #[trigger] screens[j] == screen_on_output(screens, output)->Some_0
                && screens[j].output@ == output && forall|l: int| 0 <= l < j ==> (#[trigger] screens[l]).output@ != output,
        screen_on_output(screens, output) is None <==> forall|j: int|
            0 <= j < screens.len() ==> (#[trigger] screens[j]).output@ != output,
    decreases screens.len(),
{
    if screens.len() > 0 {
        let rest = screens.drop_first();
        lemma_screen_on_output_first(rest, output);
        if screens[0].output@ != output {
            if let Some(m) = screen_on_output(rest, output) {
                let j = choose|j: int|
                    0 <= j < rest.len() && #[trigger] rest[j] == m && m.output@ == output && forall|l: int|
                        0 <= l < j ==> (#[trigger] rest[l]).output@ != output;
                assert(screens[j + 1] == m);
                assert forall|l: int| 0 <= l < j + 1 implies (#[trigger] screens[l]).output@ != output by {
                    if l > 0 {
                        assert(screens[l] == rest[l - 1]);
                    }
                }
            }
            if forall|j: int| 0 <= j < rest.len() ==> (#[trigger] rest[j]).output@ != output {
                assert forall|j: int| 0 <= j < screens.len() implies (#[trigger] screens[j]).output@ != output by {
                    if j > 0 {
                        assert(screens[j] == rest[j - 1]);
                    }
                }
            } else {
                let j = choose|j: int| 0 <= j < rest.len() && (#[trigger] rest[j]).output@ == output;
                assert(screens[j + 1] == rest[j]);
            }
        } else {
            assert(screens[0] == screens[0]);
        }
    }
}

proof fn lemma_configured_members(ws: Seq<WorkspaceConfig>, screens: Seq<Screen>, root: u32)
    ensures
        forall|k: int| #![trigger configured_screens(ws, screens, root)[k]]
            0 <= k < configured_screens(ws, screens, root).len() ==> exists|i: int|
                0 <= i < ws.len() && #[trigger] configured_screen(ws[i], i, screens, root) == Some(
                    configured_screens(ws, screens, root)[k],
                ),
        forall|i: int| #![trigger ws[i]]
            0 <= i < ws.len() && configured_screen(ws[i], i, screens, root) is Some ==> exists|k: int|
                0 <= k < configured_screens(ws, screens, root).len() && Some(
                    #[trigger] configured_screens(ws, screens, root)[k],
                ) == configured_screen(ws[i], i, screens, root),
    decreases ws.len(),
{
    if ws.len() > 0 {
        let prev_ws = ws.drop_last();
        lemma_configured_members(prev_ws, screens, root);
        let prev = configured_screens(prev_ws, screens, root);
        let cs = configured_screens(ws, screens, root);
        assert forall|k: int| #![trigger cs[k]] 0 <= k < cs.len() implies exists|i: int|
            0 <= i < ws.len() && #[trigger] configured_screen(ws[i], i, screens, root) == Some(cs[k]) by {
            if k < prev.len() {
                assert(cs[k] == prev[k]);
                let i = choose|i: int| 0 <= i < prev_ws.len() && #[trigger] configured_screen(prev_ws[i], i, screens, root) == Some(prev[k]);
                assert(ws[i] == prev_ws[i]);
            } else {
                assert(ws[ws.len() - 1] == ws.last());
            }
        }
        assert forall|i: int| #![trigger ws[i]]
            0 <= i < ws.len() && configured_screen(ws[i], i, screens, root) is Some implies exists|k: int|
                0 <= k < cs.len() && Some(#[trigger] cs[k]) == configured_screen(ws[i], i, screens, root) by {
            if i < ws.len() - 1 {
                assert(ws[i] == prev_ws[i]);
                let k = choose|k: int| 0 <= k < prev.len() && Some(#[trigger] prev[k]) == configured_screen(prev_ws[i], i, screens, root);
                assert(cs[k] == prev[k]);
            } else {
                assert(cs[prev.len() as int] == configured_screen(ws[i], i, screens, root)->Some_0);
            }
        }
    }
}

proof fn lemma_unconfigured_len(screens: Seq<Screen>, ws: Seq<WorkspaceConfig>)
    ensures
        unconfigured_screens(screens, ws).len() <= screens.len(),
    decreases screens.len(),
{
    if screens.len() > 0 {
        lemma_unconfigured_len(screens.drop_last(), ws);
    }
}

proof fn lemma_startup_entry(ws: Seq<WorkspaceConfig>, screens: Seq<Screen>, root: u32, auto_derive: bool, k: int, i: int)
    requires
        ws.len() + screens.len() + 1 < usize::MAX,
        0 <= k < startup_screens(ws, screens, root, auto_derive).len(),
        0 <= i < ws.len(),
        startup_screens(ws, screens, root, auto_derive)[k].id == Some((i + 1) as usize),
    ensures
        configured_screen(ws[i], i, screens, root) == Some(startup_screens(ws, screens, root, auto_derive)[k]),
{
    let r = startup_screens(ws, screens, root, auto_derive);
    let cs = configured_screens(ws, screens, root);
    lemma_configured_members(ws, screens, root);
    lemma_unconfigured_len(screens, ws);
    if k < cs.len() {
        assert(r[k] == cs[k]);
        let i2 = choose|i2: int| 0 <= i2 < ws.len() && #[trigger] configured_screen(ws[i2], i2, screens, root) == Some(cs[k]);
        assert(i2 == i);
    } else {
        let u = unconfigured_screens(screens, ws);
        assert(r[k] == numbered(u, ws.len() + 1int)[k - cs.len()]);
    }
}

proof fn lemma_startup_box(ws: Seq<WorkspaceConfig>, screens: Seq<Screen>, root: u32, s: Screen, i: int)
    requires
        0 <= i < ws.len(),
        configured_screen(ws[i], i, screens, root) == Some(s),
    ensures
        s.output@ == ws[i].output@,
        s.root == WindowHandle(root),
        ws[i].relative != Some(true) ==> s.bbox == (BBox { x: ws[i].x, y: ws[i].y, width: ws[i].width, height: ws[i].height }),
        ws[i].relative == Some(true) ==> exists|j: int|
            #![trigger screens[j]]
            0 <= j < screens.len() && screens[j].output@ == ws[i].output@ && (forall|l: int|
                0 <= l < j ==> (#[trigger] screens[l]).output@ != ws[i].output@) && s.bbox == (BBox {
                x: (ws[i].x + screens[j].bbox.x) as i32,
                y: (ws[i].y + screens[j].bbox.y) as i32,
                width: ws[i].width,
                height: ws[i].height,
            }),
{
    lemma_screen_on_output_first(screens, ws[i].output@);
}

/// What the window manager is told on startup of each configured workspace:
/// the screen reported with id `i + 1` is workspace `i`'s, on its output; a
/// workspace that is not marked relative keeps exactly its configured box,
/// and a relative one is moved by the position of the first screen on its
/// output. Every workspace whose output is connected is reported.
pub proof fn lemma_startup_workspaces(ws: Seq<WorkspaceConfig>, screens: Seq<Screen>, root: u32, auto_derive: bool)
    requires
        ws.len() + screens.len() + 1 < usize::MAX,
    ensures
        forall|k: int, i: int|
            #![trigger startup_screens(ws, screens, root, auto_derive)[k], ws[i]]
            0 <= k < startup_screens(ws, screens, root, auto_derive).len() && 0 <= i < ws.len()
                && startup_screens(ws, screens, root, auto_derive)[k].id == Some((i + 1) as usize) ==> {
                let s = startup_screens(ws, screens, root, auto_derive)[k];
                &&& s.output@ == ws[i].output@
                &&& s.root == WindowHandle(root)
                &&& ws[i].relative != Some(true) ==> s.bbox == (BBox {
                    x: ws[i].x,
                    y: ws[i].y,
                    width: ws[i].width,
                    height: ws[i].height,
                })
                &&& ws[i].relative == Some(true) ==> exists|j: int|
                    #![trigger screens[j]]
                    0 <= j < screens.len() && screens[j].output@ == ws[i].output@ && (forall|l: int|
                        0 <= l < j ==> (#[trigger] screens[l]).output@ != ws[i].output@) && s.bbox == (BBox {
                        x: (ws[i].x + screens[j].bbox.x) as i32,
                        y: (ws[i].y + screens[j].bbox.y) as i32,
                        width: ws[i].width,
                        height: ws[i].height,
                    })
            },
        forall|i: int, j: int|
            #![trigger ws[i], screens[j]]
            0 <= i < ws.len() && 0 <= j < screens.len() && screens[j].output@ == ws[i].output@ ==> exists|k: int|
                0 <= k < startup_screens(ws, screens, root, auto_derive).len() && (#[trigger] startup_screens(
                    ws,
                    screens,
                    root,
                    auto_derive,
                )[k]).id == Some((i + 1) as usize),
{
    let r = startup_screens(ws, screens, root, auto_derive);
    assert forall|k: int, i: int|
        #![trigger r[k], ws[i]]
        0 <= k < r.len() && 0 <= i < ws.len() && r[k].id == Some((i + 1) as usize) implies {
            let s = r[k];
            &&& s.output@ == ws[i].output@
            &&& s.root == WindowHandle(root)
            &&& ws[i].relative != Some(true) ==> s.bbox == (BBox {
                x: ws[i].x,
                y: ws[i].y,
                width: ws[i].width,
                height: ws[i].height,
            })
            &&& ws[i].relative == Some(true) ==> exists|j: int|
                #![trigger screens[j]]
                0 <= j < screens.len() && screens[j].output@ == ws[i].output@ && (forall|l: int|
                    0 <= l < j ==> (#[trigger] screens[l]).output@ != ws[i].output@) && s.bbox == (BBox {
                    x: (ws[i].x + screens[j].bbox.x) as i32,
                    y: (ws[i].y + screens[j].bbox.y) as i32,
                    width: ws[i].width,
                    height: ws[i].height,
                })
        } by {
        lemma_startup_entry(ws, screens, root, auto_derive, k, i);
        lemma_startup_box(ws, screens, root, r[k], i);
    }
    assert forall|i: int, j: int|
        #![trigger ws[i], screens[j]]
        0 <= i < ws.len() && 0 <= j < screens.len() && screens[j].output@ == ws[i].output@ implies exists|k: int|
            0 <= k < r.len() && (#[trigger] r[k]).id == Some((i + 1) as usize) by {
        lemma_startup_member(ws, screens, root, auto_derive, i, j);
    }
}

proof fn lemma_startup_member(ws: Seq<WorkspaceConfig>, screens: Seq<Screen>, root: u32, auto_derive: bool, i: int, j: int)
    requires
        0 <= i < ws.len(),
        0 <= j < screens.len(),
        screens[j].output@ == ws[i].output@,
    ensures
        exists|k: int|
            0 <= k < startup_screens(ws, screens, root, auto_derive).len() && (#[trigger] startup_screens(
                ws,
                screens,
                root,
                auto_derive,
            )[k]).id == Some((i + 1) as usize),
{
    let r = startup_screens(ws, screens, root, auto_derive);
    let cs = configured_screens(ws, screens, root);
    lemma_configured_members(ws, screens, root);
    lemma_screen_on_output_first(screens, ws[i].output@);
    assert(configured_screen(ws[i], i, screens, root) is Some);
    let k = choose|k: int| 0 <= k < cs.len() && Some(#[trigger] cs[k]) == configured_screen(ws[i], i, screens, root);
    assert(r[k] == cs[k]);
}

proof fn lemma_unconfigured_members(screens: Seq<Screen>, ws: Seq<WorkspaceConfig>)
    ensures
        forall|j: int| #![trigger screens[j]]
            0 <= j < screens.len() && !has_workspace_on(ws, screens[j].output@) ==> exists|m: int|
                0 <= m < unconfigured_screens(screens, ws).len() && #[trigger] unconfigured_screens(screens, ws)[m]
                    == screens[j],
        forall|m: int| #![trigger unconfigured_screens(screens, ws)[m]]
            0 <= m < unconfigured_screens(screens, ws).len() ==> !has_workspace_on(
                ws,
                unconfigured_screens(screens, ws)[m].output@,
            ),
    decreases screens.len(),
{
    if screens.len() > 0 {
        let prev_s = screens.drop_last();
        lemma_unconfigured_members(prev_s, ws);
        let prev = unconfigured_screens(prev_s, ws);
        let u = unconfigured_screens(screens, ws);
        assert forall|j: int| #![trigger screens[j]]
            0 <= j < screens.len() && !has_workspace_on(ws, screens[j].output@) implies exists|m: int|
                0 <= m < u.len() && #[trigger] u[m] == screens[j] by {
            if j < screens.len() - 1 {
                assert(screens[j] == prev_s[j]);
                let m = choose|m: int| 0 <= m < prev.len() && #[trigger] prev[m] == prev_s[j];
                assert(u[m] == prev[m]);
            } else {
                assert(u[prev.len() as int] == screens.last());
            }
        }
        assert forall|m: int| #![trigger u[m]] 0 <= m < u.len() implies !has_workspace_on(ws, u[m].output@) by {
            if m < prev.len() {
                assert(u[m] == prev[m]);
            }
        }
    }
}

proof fn lemma_configured_ids(ws: Seq<WorkspaceConfig>, screens: Seq<Screen>, root: u32)
    requires
        ws.len() + 1 < usize::MAX,
    ensures
        forall|k: int| #![trigger configured_screens(ws, screens, root)[k]]
            0 <= k < configured_screens(ws, screens, root).len() ==> (configured_screens(ws, screens, root)[k].id matches Some(n)
                && 1 <= n <= ws.len()),
        forall|a: int, b: int|
            0 <= a < b < configured_screens(ws, screens, root).len() ==> (#[trigger] configured_screens(ws, screens, root)[a]).id->0
                < (#[trigger] configured_screens(ws, screens, root)[b]).id->0,
    decreases ws.len(),
{
    if ws.len() > 0 {
        let prev_ws = ws.drop_last();
        lemma_configured_ids(prev_ws, screens, root);
        let prev = configured_screens(prev_ws, screens, root);
        let cs = configured_screens(ws, screens, root);
        assert forall|k: int| #![trigger cs[k]] 0 <= k < cs.len() implies (cs[k].id matches Some(n) && 1 <= n <= ws.len()) by {
            if k < prev.len() {
                assert(cs[k] == prev[k]);
            }
        }
        assert forall|a: int, b: int| 0 <= a < b < cs.len() implies (#[trigger] cs[a]).id->0 < (#[trigger] cs[b]).id->0 by {
            assert(cs[a] == prev[a]);
            if b < prev.len() {
                assert(cs[b] == prev[b]);
            }
        }
    }
}

proof fn lemma_startup_id(ws: Seq<WorkspaceConfig>, screens: Seq<Screen>, root: u32, auto_derive: bool, k: int)
    requires
        ws.len() + screens.len() + 1 < usize::MAX,
        0 <= k < startup_screens(ws, screens, root, auto_derive).len(),
    ensures
        ({
            let cs = configured_screens(ws, screens, root);
            let n = startup_screens(ws, screens, root, auto_derive)[k].id;
            &&& n is Some
            &&& k < cs.len() ==> 1 <= n->0 <= ws.len()
            &&& k >= cs.len() ==> n->0 == ws.len() + 1 + (k - cs.len())
        }),
{
    let r = startup_screens(ws, screens, root, auto_derive);
    let cs = configured_screens(ws, screens, root);
    let u = unconfigured_screens(screens, ws);
    lemma_configured_ids(ws, screens, root);
    lemma_unconfigured_len(screens, ws);
    if k < cs.len() {
        assert(r[k] == cs[k]);
    } else {
        assert(r[k] == numbered(u, ws.len() + 1int)[k - cs.len()]);
    }
}

proof fn lemma_startup_distinct(ws: Seq<WorkspaceConfig>, screens: Seq<Screen>, root: u32, auto_derive: bool, a: int, b: int)
    requires
        ws.len() + screens.len() + 1 < usize::MAX,
        0 <= a < b < startup_screens(ws, screens, root, auto_derive).len(),
    ensures
        startup_screens(ws, screens, root, auto_derive)[a].id != startup_screens(ws, screens, root, auto_derive)[b].id,
{
    let r = startup_screens(ws, screens, root, auto_derive);
    let cs = configured_screens(ws, screens, root);
    lemma_startup_id(ws, screens, root, auto_derive, a);
    lemma_startup_id(ws, screens, root, auto_derive, b);
    if b < cs.len() {
        lemma_configured_ids(ws, screens, root);
        assert(r[a] == cs[a] && r[b] == cs[b]);
    }
}

/// Whether some configured workspace's output is connected.
pub open spec fn some_workspace_connected(ws: Seq<WorkspaceConfig>, screens: Seq<Screen>) -> bool {
    exists|i: int, j: int|
        0 <= i < ws.len() && 0 <= j < screens.len() && (#[trigger] screens[j]).output@ == (#[trigger] ws[i]).output@
}

proof fn lemma_configured_empty(ws: Seq<WorkspaceConfig>, screens: Seq<Screen>, root: u32)
    ensures
        configured_screens(ws, screens, root).len() == 0 <==> !some_workspace_connected(ws, screens),
{
    let cs = configured_screens(ws, screens, root);
    lemma_configured_members(ws, screens, root);
    if some_workspace_connected(ws, screens) {
        let (i, j) = choose|i: int, j: int|
            0 <= i < ws.len() && 0 <= j < screens.len() && (#[trigger] screens[j]).output@ == (#[trigger] ws[i]).output@;
        lemma_screen_on_output_first(screens, ws[i].output@);
        assert(configured_screen(ws[i], i, screens, root) is Some);
        assert(ws[i] == ws[i]);
    }
    if cs.len() > 0 {
        assert(cs[0] == cs[0]);
        let i = choose|i: int| 0 <= i < ws.len() && #[trigger] configured_screen(ws[i], i, screens, root) == Some(cs[0]);
        lemma_screen_on_output_first(screens, ws[i].output@);
        let j = choose|j: int|
            0 <= j < screens.len() && #[trigger] screens[j] == screen_on_output(screens, ws[i].output@)->Some_0
                && screens[j].output@ == ws[i].output@ && forall|l: int| 0 <= l < j ==> (#[trigger] screens[l]).output@ != ws[i].output@;
        assert(screens[j].output@ == ws[i].output@);
    }
}

proof fn lemma_startup_unconfigured(ws: Seq<WorkspaceConfig>, screens: Seq<Screen>, root: u32, auto_derive: bool, j: int)
    requires
        ws.len() + screens.len() + 1 < usize::MAX,
        auto_derive || !some_workspace_connected(ws, screens),
        0 <= j < screens.len(),
        forall|i: int| 0 <= i < ws.len() ==> (#[trigger] ws[i]).output@ != screens[j].output@,
    ensures
        exists|k: int|
            0 <= k < startup_screens(ws, screens, root, auto_derive).len() && {
                let r = #[trigger] startup_screens(ws, screens, root, auto_derive)[k];
                &&& r.output == screens[j].output
                &&& r.root == screens[j].root
                &&& r.bbox == screens[j].bbox
                &&& r.id matches Some(n) && n > ws.len()
            },
{
    let r = startup_screens(ws, screens, root, auto_derive);
    let cs = configured_screens(ws, screens, root);
    let u = unconfigured_screens(screens, ws);
    lemma_configured_empty(ws, screens, root);
    lemma_unconfigured_members(screens, ws);
    lemma_unconfigured_len(screens, ws);
    assert(!has_workspace_on(ws, screens[j].output@));
    let m = choose|m: int| 0 <= m < u.len() && #[trigger] u[m] == screens[j];
    let k = cs.len() + m;
    assert(r[k] == numbered(u, ws.len() + 1int)[m]);
}

/// The other screens on startup, and the ids: every screen reported has an
/// id, no two the same. Where workspaces are derived automatically, or no
/// configured workspace's output is connected, every screen on which no
/// workspace is configured is reported as it is, with an id above those of
/// the workspaces; otherwise only configured workspaces are reported.
pub proof fn lemma_startup_other_screens(ws: Seq<WorkspaceConfig>, screens: Seq<Screen>, root: u32, auto_derive: bool)
    requires
        ws.len() + screens.len() + 1 < usize::MAX,
    ensures
        forall|k: int| #![trigger startup_screens(ws, screens, root, auto_derive)[k]]
            0 <= k < startup_screens(ws, screens, root, auto_derive).len() ==> startup_screens(
                ws,
                screens,
                root,
                auto_derive,
            )[k].id is Some,
        forall|a: int, b: int|
            0 <= a < b < startup_screens(ws, screens, root, auto_derive).len() ==> (#[trigger] startup_screens(
                ws,
                screens,
                root,
                auto_derive,
            )[a]).id != (#[trigger] startup_screens(ws, screens, root, auto_derive)[b]).id,
        (auto_derive || !some_workspace_connected(ws, screens)) ==> forall|j: int| #![trigger screens[j]]
            0 <= j < screens.len() && (forall|i: int| 0 <= i < ws.len() ==> (#[trigger] ws[i]).output@ != screens[j].output@)
                ==> exists|k: int|
                0 <= k < startup_screens(ws, screens, root, auto_derive).len() && {
                    let r = #[trigger] startup_screens(ws, screens, root, auto_derive)[k];
                    &&& r.output == screens[j].output
                    &&& r.root == screens[j].root
                    &&& r.bbox == screens[j].bbox
                    &&& r.id matches Some(n) && n > ws.len()
                },
        (!auto_derive && some_workspace_connected(ws, screens)) ==> forall|k: int|
            #![trigger startup_screens(ws, screens, root, auto_derive)[k]]
            0 <= k < startup_screens(ws, screens, root, auto_derive).len() ==> (startup_screens(
                ws,
                screens,
                root,
                auto_derive,
            )[k].id matches Some(n) && 1 <= n <= ws.len()),
{
    let r = startup_screens(ws, screens, root, auto_derive);
    assert forall|k: int| #![trigger r[k]] 0 <= k < r.len() implies r[k].id is Some by {
        lemma_startup_id(ws, screens, root, auto_derive, k);
    }
    assert forall|a: int, b: int| 0 <= a < b < r.len() implies (#[trigger] r[a]).id != (#[trigger] r[b]).id by {
        lemma_startup_distinct(ws, screens, root, auto_derive, a, b);
    }
    if auto_derive || !some_workspace_connected(ws, screens) {
        assert forall|j: int| #![trigger screens[j]]
            0 <= j < screens.len() && (forall|i: int| 0 <= i < ws.len() ==> (#[trigger] ws[i]).output@ != screens[j].output@)
                implies exists|k: int|
                0 <= k < r.len() && {
                    let x = #[trigger] r[k];
                    &&& x.output == screens[j].output
                    &&& x.root == screens[j].root
                    &&& x.bbox == screens[j].bbox
                    &&& x.id matches Some(n) && n > ws.len()
                } by {
            lemma_startup_unconfigured(ws, screens, root, auto_derive, j);
        }
    }
    if !auto_derive && some_workspace_connected(ws, screens) {
        lemma_configured_empty(ws, screens, root);
        assert forall|k: int| #![trigger r[k]] 0 <= k < r.len() implies (r[k].id matches Some(n) && 1 <= n <= ws.len()) by {
            lemma_startup_id(ws, screens, root, auto_derive, k);
        }
    }
}

} // verus!
