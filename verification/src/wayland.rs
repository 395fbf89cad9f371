//! The decisions of the Wayland compositor backend: what it does with the
//! actions that the window manager sends, and how it draws borders. The
//! compositor's own work (configuring clients, moving the keyboard focus and
//! the pointer) is handed back as a list of effects.
use vstd::prelude::*;

use crate::models::FocusBehaviour;
use crate::registry::{ManagedWindow, Rect, WindowRegisty};

verus! {

/// The handle by which the window manager knows a Wayland window.
#[derive(Clone, Copy, Debug, PartialEq, Eq, Structural)]
pub struct SmithayWindowHandle(pub usize);

impl Default for SmithayWindowHandle {
    fn default() -> (r: SmithayWindowHandle)
        ensures
            r == SmithayWindowHandle(0),
    {
        SmithayWindowHandle(0)
    }
}

/// The state of the `xdg-output` protocol global.
pub struct XdgOutputManagerState;

/// Which of the three border colours a window is drawn with.
#[derive(Clone, Copy, Debug, PartialEq, Eq, Structural)]
pub enum WindowState {
    Focused,
    Floating,
    Default,
}

/// The borders drawn round windows: their width, and a colour (red, green,
/// blue) for each state.
#[derive(Clone, Copy, Debug)]
pub struct BorderConfig {
    pub border_width: i32,
    pub default_border_color: [u8; 3],
    pub floating_border_color: [u8; 3],
    pub focused_border_color: [u8; 3],
}

/// What the compositor takes from the window manager's configuration.
#[derive(Clone, Copy, Debug)]
pub struct LeftwmConfig {
    pub focus_behavior: FocusBehaviour,
    pub sloppy_mouse_follows_focus: bool,
    pub borders: BorderConfig,
}

/// The value of a hexadecimal digit.
pub open spec fn hex_char(c: char) -> Option<u8> {
    if '0' <= c <= '9' {
        Some((c as u32 - '0' as u32) as u8)
    } else if 'a' <= c <= 'f' {
        Some((c as u32 - 'a' as u32 + 10) as u8)
    } else if 'A' <= c <= 'F' {
        Some((c as u32 - 'A' as u32 + 10) as u8)
    } else {
        None
    }
}

/// The byte that two hexadecimal digits spell.
pub open spec fn hex_byte(hi: char, lo: char) -> Option<u8> {
    match (hex_char(hi), hex_char(lo)) {
        (Some(h), Some(l)) => Some((h * 16 + l) as u8),
        _ => None,
    }
}

/// The colour that the first six characters of a string spell as three
/// hexadecimal pairs (red, green, blue); none when they do not.
pub open spec fn rgb_of(s: Seq<char>) -> Option<Seq<u8>> {
    if s.len() < 6 {
        None
    } else {
        match (hex_byte(s[0], s[1]), hex_byte(s[2], s[3]), hex_byte(s[4], s[5])) {
            (Some(r), Some(g), Some(b)) => Some(seq![r, g, b]),
            _ => None,
        }
    }
}

/// `read_color::rgb` on the characters of a string: it reads three pairs of
/// hexadecimal digits from the start (digits `0-9`, `a-f`, `A-F`; each pair
/// `hi << 4 | lo`) and gives none as soon as a character is missing or is no
/// such digit. Nothing is skipped, so a leading `#` gives none.
#[verifier::external_body]
fn read_rgb(s: &str) -> (r: Option<[u8; 3]>)
    ensures
        match r {
            Some(c) => rgb_of(s@) == Some(c@),
            None => rgb_of(s@) is None,
        },
{
    read_color::rgb(&mut s.chars())
}

/// A border colour from the configuration: its colour when it reads as one,
/// else the fallback.
pub fn config_color(s: &str, fallback: [u8; 3]) -> (r: [u8; 3])
    ensures
        match rgb_of(s@) {
            Some(c) => r@ == c,
            None => r == fallback,
        },
{
    match read_rgb(s) {
        Some(c) => c,
        None => fallback,
    }
}

impl LeftwmConfig {
    /// The compositor's configuration from the window manager's settings: the
    /// default and floating borders fall back to black, the focused one to red.
    pub fn from_settings(
        focus_behavior: FocusBehaviour,
        sloppy_mouse_follows_focus: bool,
        border_width: i32,
        default_border_color: &str,
        floating_border_color: &str,
        focused_border_color: &str,
    ) -> (r: LeftwmConfig)
        ensures
            r.focus_behavior == focus_behavior,
            r.sloppy_mouse_follows_focus == sloppy_mouse_follows_focus,
            r.borders.border_width == border_width,
            match rgb_of(default_border_color@) {
                Some(c) => r.borders.default_border_color@ == c,
                None => r.borders.default_border_color == [0u8, 0u8, 0u8],
            },
            match rgb_of(floating_border_color@) {
                Some(c) => r.borders.floating_border_color@ == c,
                None => r.borders.floating_border_color == [0u8, 0u8, 0u8],
            },
            match rgb_of(focused_border_color@) {
                Some(c) => r.borders.focused_border_color@ == c,
                None => r.borders.focused_border_color == [255u8, 0u8, 0u8],
            },
    {
        LeftwmConfig {
            focus_behavior,
            sloppy_mouse_follows_focus,
            borders: BorderConfig {
                border_width,
                default_border_color: config_color(default_border_color, [0, 0, 0]),
                floating_border_color: config_color(floating_border_color, [0, 0, 0]),
                focused_border_color: config_color(focused_border_color, [255, 0, 0]),
            },
        }
    }
}

/// The colour of a border for a window state.
pub open spec fn border_color_spec(borders: BorderConfig, state: WindowState) -> [u8; 3] {
    match state {
        WindowState::Focused => borders.focused_border_color,
        WindowState::Floating => borders.floating_border_color,
        WindowState::Default => borders.default_border_color,
    }
}

/// The colour that a window's border is drawn in.
pub fn border_color(borders: &BorderConfig, window_state: WindowState) -> (r: [u8; 3])
    ensures
        r == border_color_spec(*borders, window_state),
{
    match window_state {
        WindowState::Focused => borders.focused_border_color,
        WindowState::Floating => borders.floating_border_color,
        WindowState::Default => borders.default_border_color,
    }
}

/// The state that a window's border is drawn in: focused when its handle is the
/// focused one (a window without a handle counts as focused while nothing is),
/// else floating or default.
pub open spec fn border_state_spec(w: ManagedWindow, focused: Option<usize>) -> WindowState {
    if w.handle == focused {
        WindowState::Focused
    } else if w.floating {
        WindowState::Floating
    } else {
        WindowState::Default
    }
}

/// The state that a window's border is drawn in (see `border_state_spec`).
pub fn window_border_state(w: &ManagedWindow, focused: Option<usize>) -> (r: WindowState)
    ensures
        r == border_state_spec(*w, focused),
{
    if w.handle == focused {
        WindowState::Focused
    } else if w.floating {
        WindowState::Floating
    } else {
        WindowState::Default
    }
}

/// The layer of a layer surface.
#[derive(Clone, Copy, Debug, PartialEq, Eq, Structural)]
pub enum LayerKind {
    Background,
    Bottom,
    Top,
    Overlay,
}

/// Whether a layer is drawn below the windows.
pub open spec fn below_windows(l: LayerKind) -> bool {
    l is Background || l is Bottom
}

/// The positions of a list of layer surfaces from last to first.
pub open spec fn reversed_positions(n: int) -> Seq<usize> {
    Seq::new(n as nat, |i: int| (n - 1 - i) as usize)
}

/// The layer surfaces above the windows, from the last mapped to the first.
pub open spec fn upper_layers(layers: Seq<LayerKind>) -> Seq<usize> {
    reversed_positions(layers.len() as int).filter(|i: usize| !below_windows(layers[i as int]))
}

/// The layer surfaces below the windows, from the last mapped to the first.
pub open spec fn lower_layers(layers: Seq<LayerKind>) -> Seq<usize> {
    reversed_positions(layers.len() as int).filter(|i: usize| below_windows(layers[i as int]))
}

/// Splits the layer surfaces of an output for drawing: those above the windows
/// and those below them (background and bottom layers), each from the last
/// mapped to the first. An output is drawn front to back: pointer, upper
/// layers, windows, lower layers.
pub fn render_layers(layers: &[LayerKind]) -> (r: (Vec<usize>, Vec<usize>))
    ensures
        r.0@ == upper_layers(layers@),
        r.1@ == lower_layers(layers@),
{
    let n = layers.len();
    let ghost all = reversed_positions(n as int);
    let ghost up = |i: usize| !below_windows(layers@[i as int]);
    let ghost low = |i: usize| below_windows(layers@[i as int]);
    let mut upper: Vec<usize> = Vec::new();
    let mut lower: Vec<usize> = Vec::new();
    let mut k: usize = 0;
    while k < n
        invariant
            n == layers@.len(),
            k <= n,
            all == reversed_positions(n as int),
            up == (|i: usize| !below_windows(layers@[i as int])),
            low == (|i: usize| below_windows(layers@[i as int])),
            upper@ == all.subrange(0, k as int).filter(up),
            lower@ == all.subrange(0, k as int).filter(low),
        decreases n - k,
    {
        let i = n - 1 - k;
        proof {
            reveal_with_fuel(Seq::filter, 1);
            assert(all.subrange(0, k + 1).drop_last() =~= all.subrange(0, k as int));
            assert(all.subrange(0, k + 1).last() == i);
        }
        match layers[i] {
            LayerKind::Background | LayerKind::Bottom => lower.push(i),
            _ => upper.push(i),
        }
        k = k + 1;
    }
    proof {
        assert(all.subrange(0, n as int) =~= all);
    }
    (upper, lower)
}

/// Whether a client's shared-memory buffer can take a screen copy of a region:
/// it is ARGB8888, four bytes a pixel across the region's width, as high as
/// the region, and exactly that long (its length read as an `i32`).
pub open spec fn screencopy_buffer_matches_spec(
    format_argb8888: bool,
    stride: i32,
    height: i32,
    region_w: i32,
    region_h: i32,
    shm_len: usize,
) -> bool {
    format_argb8888 && stride == region_w * 4 && height == region_h && (shm_len as i32) == stride * height
}

/// Checks a screen-copy buffer (see `screencopy_buffer_matches_spec`); the
/// products are taken only as far as the earlier tests pass.
pub fn screencopy_buffer_matches(
    format_argb8888: bool,
    stride: i32,
    height: i32,
    region_w: i32,
    region_h: i32,
    shm_len: usize,
) -> (r: bool)
    requires
        format_argb8888 ==> i32::MIN <= region_w * 4 <= i32::MAX,
        format_argb8888 && stride == region_w * 4 && height == region_h ==> i32::MIN <= stride * height
            <= i32::MAX,
    ensures
        r == screencopy_buffer_matches_spec(format_argb8888, stride, height, region_w, region_h, shm_len),
{
    format_argb8888 && stride == region_w * 4 && height == region_h && (shm_len as i32) == stride * height
}

/// Whether a key went down or up.
#[derive(Clone, Copy, Debug, PartialEq, Eq, Structural)]
pub enum KeyState {
    Released,
    Pressed,
}

/// The modifiers in force when a key changes.
#[derive(Clone, Copy, Debug, PartialEq, Eq, Structural)]
pub struct KeyModifiers {
    pub caps_lock: bool,
    pub num_lock: bool,
    pub logo: bool,
    pub shift: bool,
}

/// The keysym of Return.
pub const KEY_RETURN: u32 = 0xff0d;
/// The keysym of Q.
pub const KEY_Q: u32 = 0x0051;
/// The keysym that switches to the first virtual terminal.
pub const KEY_SWITCH_VT_1: u32 = 0x1008fe01;
/// The keysym that switches to the twelfth virtual terminal.
pub const KEY_SWITCH_VT_12: u32 = 0x1008fe0c;

/// What the compositor does with a key.
#[derive(Clone, Copy, Debug, PartialEq, Eq, Structural)]
pub enum KeyAction {
    /// Hand the key to the focused client.
    Forward,
    /// Start a terminal (logo + shift + Return).
    SpawnTerminal,
    /// Stop the compositor (logo + shift + Q).
    Exit,
    /// Switch to a virtual terminal (its number, from 1).
    SwitchVt(i32),
}

/// What a key does: the keyboard lights that follow the lock modifiers, and
/// the action.
#[derive(Clone, Copy, Debug, PartialEq, Eq, Structural)]
pub struct KeyDecision {
    pub caps_led: bool,
    pub num_led: bool,
    pub action: KeyAction,
}

/// The action of a key (see `filter_key`).
pub open spec fn key_action(state: KeyState, mods: KeyModifiers, sym: u32) -> KeyAction {
    if state is Released {
        KeyAction::Forward
    } else if mods.logo && mods.shift && sym == KEY_RETURN {
        KeyAction::SpawnTerminal
    } else if mods.logo && mods.shift && sym == KEY_Q {
        KeyAction::Exit
    } else if KEY_SWITCH_VT_1 <= sym <= KEY_SWITCH_VT_12 {
        KeyAction::SwitchVt((sym - KEY_SWITCH_VT_1 + 1) as i32)
    } else {
        KeyAction::Forward
    }
}

/// Filters a key before it reaches a client: on a press, logo + shift +
/// Return starts a terminal, logo + shift + Q stops the compositor, and the
/// virtual-terminal keys switch terminals; every other key, and every release,
/// goes to the client. The lights follow caps lock and num lock either way.
pub fn filter_key(state: KeyState, mods: KeyModifiers, sym: u32) -> (r: KeyDecision)
    ensures
        r == (KeyDecision { caps_led: mods.caps_lock, num_led: mods.num_lock, action: key_action(state, mods, sym) }),
{
    let action = match state {
        KeyState::Released => KeyAction::Forward,
        KeyState::Pressed => {
            if mods.logo && mods.shift && sym == KEY_RETURN {
                KeyAction::SpawnTerminal
            } else if mods.logo && mods.shift && sym == KEY_Q {
                KeyAction::Exit
            } else if KEY_SWITCH_VT_1 <= sym && sym <= KEY_SWITCH_VT_12 {
                KeyAction::SwitchVt((sym - KEY_SWITCH_VT_1 + 1) as i32)
            } else {
                KeyAction::Forward
            }
        },
    };
    KeyDecision { caps_led: mods.caps_lock, num_led: mods.num_lock, action }
}

/// The mode a new output takes: the first preferred one, else the first.
pub open spec fn preferred_mode_spec(preferred: Seq<bool>) -> int {
    if exists|i: int| 0 <= i < preferred.len() && preferred[i] {
        choose|i: int| 0 <= i < preferred.len() && preferred[i] && forall|j: int| 0 <= j < i ==> !preferred[j]
    } else {
        0
    }
}

/// The index of the mode that a new output takes, from whether each of its
/// modes is marked preferred.
pub fn preferred_mode(preferred: &[bool]) -> (r: usize)
    ensures
        r == preferred_mode_spec(preferred@),
{
    let mut i: usize = 0;
    while i < preferred.len()
        invariant
            i <= preferred@.len(),
            forall|j: int| 0 <= j < i ==> !preferred@[j],
        decreases preferred@.len() - i,
    {
        if preferred[i] {
            proof {
                let k = choose|k: int| 0 <= k < preferred@.len() && preferred@[k] && forall|j: int|
                    0 <= j < k ==> !preferred@[j];
                assert(0 <= i < preferred@.len() && preferred@[i as int] && forall|j: int|
                    0 <= j < i ==> !preferred@[j]);
                if k < i {
                } else if k > i {
                }
            }
            return i;
        }
        i = i + 1;
    }
    0
}

/// The sum of some widths.
pub open spec fn width_sum(widths: Seq<i32>) -> int
    decreases widths.len(),
{
    if widths.len() == 0 {
        0
    } else {
        width_sum(widths.drop_last()) + widths.last()
    }
}

/// Where a new output goes: right of the outputs there are, at the sum of
/// their widths (outputs are laid out in a row).
pub fn next_output_x(widths: &[i32]) -> (r: i32)
    requires
        forall|k: int| 0 <= k <= widths.len() ==> i32::MIN <= #[trigger] width_sum(widths@.take(k)) <= i32::MAX,
    ensures
        r == width_sum(widths@),
{
    let mut x: i32 = 0;
    let mut i: usize = 0;
    while i < widths.len()
        invariant
            i <= widths@.len(),
            forall|k: int| 0 <= k <= widths.len() ==> i32::MIN <= #[trigger] width_sum(widths@.take(k)) <= i32::MAX,
            x == width_sum(widths@.take(i as int)),
        decreases widths@.len() - i,
    {
        proof {
            assert(widths@.take(i + 1).drop_last() =~= widths@.take(i as int));
            assert(width_sum(widths@.take(i + 1)) == x + widths@[i as int]);
        }
        x = x + widths[i];
        i = i + 1;
    }
    proof {
        assert(widths@.take(widths@.len() as int) =~= widths@);
    }
    x
}

/// The box a border is drawn in: the window's box grown by the border width on
/// every side.
pub open spec fn border_box(window: Rect, border_width: i32) -> Rect {
    Rect {
        x: (window.x - border_width) as i32,
        y: (window.y - border_width) as i32,
        w: (window.w + 2 * border_width) as i32,
        h: (window.h + 2 * border_width) as i32,
    }
}

/// Whether the border box of a window can be written in `i32`.
pub open spec fn border_box_fits(window: Rect, border_width: i32) -> bool {
    &&& i32::MIN <= 2 * border_width <= i32::MAX
    &&& i32::MIN <= window.x - border_width <= i32::MAX
    &&& i32::MIN <= window.y - border_width <= i32::MAX
    &&& i32::MIN <= window.w + 2 * border_width <= i32::MAX
    &&& i32::MIN <= window.h + 2 * border_width <= i32::MAX
}

/// The box that a window's border is drawn in, from the window's corner and
/// size.
pub fn border_geometry(window: Rect, border_width: i32) -> (r: Rect)
    requires
        border_box_fits(window, border_width),
    ensures
        r == border_box(window, border_width),
{
    Rect {
        x: window.x - border_width,
        y: window.y - border_width,
        w: window.w + 2 * border_width,
        h: window.h + 2 * border_width,
    }
}

/// Where the window manager wants a window: what the backend reads of it.
#[derive(Clone, Copy, Debug, PartialEq, Eq, Structural)]
pub struct WindowUpdate {
    pub handle: usize,
    /// The window manager sees a layer surface, which it does not place.
    pub is_surface: bool,
    pub x: i32,
    pub y: i32,
    pub width: i32,
    pub height: i32,
    pub floating: bool,
    pub visible: bool,
}

/// The box a window's content gets: the box that the window manager gives
/// it, less its border on every side.
pub open spec fn content_box(u: WindowUpdate, border_width: i32) -> Rect {
    Rect {
        x: (u.x + border_width) as i32,
        y: (u.y + border_width) as i32,
        w: (u.width - 2 * border_width) as i32,
        h: (u.height - 2 * border_width) as i32,
    }
}

/// Whether the content box of an update can be written in `i32`.
pub open spec fn content_box_fits(u: WindowUpdate, border_width: i32) -> bool {
    &&& i32::MIN <= 2 * border_width <= i32::MAX
    &&& i32::MIN <= u.x + border_width <= i32::MAX
    &&& i32::MIN <= u.y + border_width <= i32::MAX
    &&& i32::MIN <= u.width - 2 * border_width <= i32::MAX
    &&& i32::MIN <= u.height - 2 * border_width <= i32::MAX
}

/// What the backend asks of the compositor after an action.
#[derive(Clone, Copy, Debug, PartialEq, Eq, Structural)]
pub enum WaylandEffect {
    /// Send what is queued to the clients.
    FlushClients,
    /// Tell the window manager which window has the focus.
    VerifyFocusedAt(usize),
    /// Ask a window to take a size.
    Configure { handle: usize, width: i32, height: i32 },
    /// Ask a window to close.
    SendClose(usize),
    /// Give a window the keyboard.
    FocusKeyboard(usize),
    /// Move the pointer to the middle of a window's bounding box.
    PointerToWindowCenter(usize),
    /// Move the pointer to a point.
    PointerTo(i64, i64),
}

/// The actions that the backend carries out. The ones that change nothing
/// here (window order, tags) are one `Ignored`.
#[derive(Clone, Debug)]
pub enum InternalAction {
    Flush,
    GenerateVerifyFocusEvent,
    UpdateConfig(LeftwmConfig),
    UpdateWindows(Vec<WindowUpdate>),
    KillWindow(usize),
    /// A window was added: its handle, whether it floats, whether to focus it.
    AddedWindow(usize, bool, bool),
    /// Move the pointer over a window: its handle, and whether to do so even
    /// when it has the focus.
    MoveMouseOver(usize, bool),
    MoveMouseOverPoint(i32, i32),
    WindowTakeFocus(usize),
    /// Focus the window under the pointer; the compositor says which window
    /// that is.
    FocusWindowUnderCursor(Option<ManagedWindow>),
    Ignored,
}

/// What the Wayland backend keeps that its decisions read.
pub struct SmithayState {
    pub window_registry: WindowRegisty,
    pub focused_window: Option<usize>,
    pub config: LeftwmConfig,
}

/// The effects of focusing a window, if the registry has it.
pub open spec fn focus_effects(m: Map<usize, ManagedWindow>, handle: usize, move_cursor: bool) -> Seq<WaylandEffect> {
    if !m.contains_key(handle) {
        seq![]
    } else if move_cursor {
        seq![WaylandEffect::FocusKeyboard(handle), WaylandEffect::PointerToWindowCenter(handle)]
    } else {
        seq![WaylandEffect::FocusKeyboard(handle)]
    }
}

/// The focused window after focusing a window: it, if the registry has it.
pub open spec fn focus_after(m: Map<usize, ManagedWindow>, focused: Option<usize>, handle: usize) -> Option<usize> {
    if m.contains_key(handle) {
        Some(handle)
    } else {
        focused
    }
}

/// The window that sloppy focus moves to, given the window under the pointer.
pub open spec fn sloppy_target(config: LeftwmConfig, focused: Option<usize>, under: Option<ManagedWindow>) -> Option<usize> {
    match under {
        Some(w) => if config.focus_behavior is Sloppy && w.handle != focused { w.handle } else { None },
        None => None,
    }
}

/// A window after the window manager placed it.
pub open spec fn placed(w: ManagedWindow, u: WindowUpdate, border_width: i32) -> ManagedWindow {
    ManagedWindow { geometry: Some(content_box(u, border_width)), floating: u.floating, visible: u.visible, ..w }
}

/// Whether a list of placements can be carried out: the backend goes through
/// them in turn, skips the layer surfaces, and stops at the first handle it
/// does not know; each window it places is an application window whose content
/// box fits in `i32`.
pub open spec fn updates_ok(m: Map<usize, ManagedWindow>, ups: Seq<WindowUpdate>, bw: i32) -> bool
    decreases ups.len(),
{
    if ups.len() == 0 {
        true
    } else if ups[0].is_surface {
        updates_ok(m, ups.drop_first(), bw)
    } else if !m.contains_key(ups[0].handle) {
        true
    } else {
        &&& content_box_fits(ups[0], bw)
        &&& !m[ups[0].handle].is_surface
        &&& updates_ok(m.insert(ups[0].handle, placed(m[ups[0].handle], ups[0], bw)), ups.drop_first(), bw)
    }
}

/// The windows after a list of placements.
pub open spec fn updates_windows(m: Map<usize, ManagedWindow>, ups: Seq<WindowUpdate>, bw: i32) -> Map<usize, ManagedWindow>
    decreases ups.len(),
{
    if ups.len() == 0 {
        m
    } else if ups[0].is_surface {
        updates_windows(m, ups.drop_first(), bw)
    } else if !m.contains_key(ups[0].handle) {
        m
    } else {
        updates_windows(m.insert(ups[0].handle, placed(m[ups[0].handle], ups[0], bw)), ups.drop_first(), bw)
    }
}

/// The effects of a list of placements: each window placed is asked to take
/// the size of its content box and then the size that the window manager gave.
pub open spec fn updates_effects(m: Map<usize, ManagedWindow>, ups: Seq<WindowUpdate>, bw: i32) -> Seq<WaylandEffect>
    decreases ups.len(),
{
    if ups.len() == 0 {
        seq![]
    } else if ups[0].is_surface {
        updates_effects(m, ups.drop_first(), bw)
    } else if !m.contains_key(ups[0].handle) {
        seq![]
    } else {
        let u = ups[0];
        let c = content_box(u, bw);
        seq![
            WaylandEffect::Configure { handle: u.handle, width: c.w, height: c.h },
            WaylandEffect::Configure { handle: u.handle, width: u.width, height: u.height },
        ] + updates_effects(m.insert(u.handle, placed(m[u.handle], u, bw)), ups.drop_first(), bw)
    }
}

/// Half of a length, rounded toward zero.
pub open spec fn half(v: i32) -> int {
    if v >= 0 {
        v / 2
    } else {
        -((-v) / 2)
    }
}

/// Whether an action can be carried out from a state: the windows it names
/// exist where it needs them, and the windows it places fit.
pub open spec fn action_ok(s: SmithayState, action: InternalAction) -> bool {
    match action {
        InternalAction::UpdateWindows(ups) => updates_ok(
            s.window_registry.windows_map(),
            ups@,
            s.config.borders.border_width,
        ),
        InternalAction::AddedWindow(h, _, _) => s.window_registry.windows_map().contains_key(h),
        InternalAction::MoveMouseOver(h, force) => (Some(h) != s.focused_window || force) ==> (
        s.window_registry.windows_map().contains_key(h) && s.window_registry.windows_map()[h].geometry
            is Some),
        _ => true,
    }
}

impl SmithayState {
    /// Gives a window the keyboard focus, and the pointer too when
    /// `move_cursor` is set; nothing happens to a window that is not known.
    pub fn focus_window(&mut self, handle: usize, move_cursor: bool, effects: &mut Vec<WaylandEffect>)
        requires
            old(self).window_registry.wf(),
        ensures
            final(self).window_registry == old(self).window_registry,
            final(self).config == old(self).config,
            final(self).focused_window == focus_after(
                old(self).window_registry.windows_map(),
                old(self).focused_window,
                handle,
            ),
            final(effects)@ == old(effects)@ + focus_effects(
                old(self).window_registry.windows_map(),
                handle,
                move_cursor,
            ),
    {
        if self.window_registry.get(handle).is_none() {
            return;
        }
        effects.push(WaylandEffect::FocusKeyboard(handle));
        if move_cursor {
            effects.push(WaylandEffect::PointerToWindowCenter(handle));
        }
        self.focused_window = Some(handle);
    }

    /// With sloppy focus, focuses the window under the pointer, when it has a
    /// handle and is not the focused one.
    pub fn focus_window_under(&mut self, under: Option<ManagedWindow>, effects: &mut Vec<WaylandEffect>)
        requires
            old(self).window_registry.wf(),
        ensures
            final(self).window_registry == old(self).window_registry,
            final(self).config == old(self).config,
            match sloppy_target(old(self).config, old(self).focused_window, under) {
                Some(h) => final(self).focused_window == focus_after(
                    old(self).window_registry.windows_map(),
                    old(self).focused_window,
                    h,
                ) && final(effects)@ == old(effects)@ + focus_effects(
                    old(self).window_registry.windows_map(),
                    h,
                    false,
                ),
                None => final(self).focused_window == old(self).focused_window && final(effects)@
                    == old(effects)@,
            },
    {
        let sloppy = match self.config.focus_behavior {
            FocusBehaviour::Sloppy => true,
            _ => false,
        };
        if sloppy {
            if let Some(window) = under {
                if window.get_handle() != self.focused_window {
                    if let Some(h) = window.get_handle() {
                        self.focus_window(h, false, effects);
                    }
                }
            }
        }
    }

    /// Places the windows that the window manager laid out, in turn; stops at
    /// the first handle it does not know.
    fn update_windows(&mut self, updates: &Vec<WindowUpdate>, effects: &mut Vec<WaylandEffect>)
        requires
            old(self).window_registry.wf(),
            updates_ok(old(self).window_registry.windows_map(), updates@, old(self).config.borders.border_width),
        ensures
            final(self).window_registry.wf(),
            final(self).window_registry.next_handle() == old(self).window_registry.next_handle(),
            final(self).window_registry.windows_map() == updates_windows(
                old(self).window_registry.windows_map(),
                updates@,
                old(self).config.borders.border_width,
            ),
            final(self).focused_window == old(self).focused_window,
            final(self).config == old(self).config,
            final(effects)@ == old(effects)@ + updates_effects(
                old(self).window_registry.windows_map(),
                updates@,
                old(self).config.borders.border_width,
            ),
    {
        let bw = self.config.borders.border_width;
        let ghost m0 = self.window_registry.windows_map();
        let ghost e0 = effects@;
        let mut i: usize = 0;
        assert(updates@.subrange(0, updates@.len() as int) =~= updates@);
        while i < updates.len()
            invariant
                i <= updates.len(),
                bw == self.config.borders.border_width,
                self.config == old(self).config,
                self.focused_window == old(self).focused_window,
                self.window_registry.wf(),
                self.window_registry.next_handle() == old(self).window_registry.next_handle(),
                m0 == old(self).window_registry.windows_map(),
                e0 == old(effects)@,
                updates_ok(self.window_registry.windows_map(), updates@.subrange(i as int, updates@.len() as int), bw),
                updates_windows(self.window_registry.windows_map(), updates@.subrange(i as int, updates@.len() as int), bw)
                    == updates_windows(m0, updates@, bw),
                effects@ + updates_effects(self.window_registry.windows_map(), updates@.subrange(i as int, updates@.len() as int), bw)
                    == e0 + updates_effects(m0, updates@, bw),
            decreases updates.len() - i,
        {
            let ghost rest = updates@.subrange(i as int, updates@.len() as int);
            let ghost m = self.window_registry.windows_map();
            assert(rest[0] == updates@[i as int]);
            assert(rest.drop_first() =~= updates@.subrange(i + 1, updates@.len() as int));
            let u = updates[i];
            if u.is_surface {
                i += 1;
            } else {
                let ghost before = effects@;
                match self.window_registry.get_mut(u.handle) {
                    None => {
                        assert(updates_windows(m, rest, bw) == m);
                        assert(updates_effects(m, rest, bw) =~= seq![]);
                        assert(effects@ =~= effects@ + updates_effects(m, rest, bw));
                        return;
                    },
                    Some(w) => {
                        let c = Rect {
                            x: u.x + bw,
                            y: u.y + bw,
                            w: u.width - 2 * bw,
                            h: u.height - 2 * bw,
                        };
                        w.set_geometry(c);
                        w.floating = u.floating;
                        w.visible = u.visible;
                        effects.push(WaylandEffect::Configure { handle: u.handle, width: c.w, height: c.h });
                        effects.push(WaylandEffect::Configure { handle: u.handle, width: u.width, height: u.height });
                    },
                }
                let ghost step = seq![
                    WaylandEffect::Configure { handle: u.handle, width: (u.width - 2 * bw) as i32, height: (u.height - 2 * bw) as i32 },
                    WaylandEffect::Configure { handle: u.handle, width: u.width, height: u.height },
                ];
                assert(effects@ =~= before + step);
                assert(self.window_registry.windows_map() == m.insert(u.handle, placed(m[u.handle], u, bw)));
                assert(updates_effects(m, rest, bw) == step + updates_effects(
                    self.window_registry.windows_map(),
                    rest.drop_first(),
                    bw,
                ));
                assert(before + (step + updates_effects(self.window_registry.windows_map(), rest.drop_first(), bw))
                    =~= effects@ + updates_effects(self.window_registry.windows_map(), rest.drop_first(), bw));
                i += 1;
            }
        }
        assert(updates@.subrange(i as int, updates@.len() as int) =~= Seq::<WindowUpdate>::empty());
        assert(effects@ =~= effects@ + Seq::<WaylandEffect>::empty());
    }

    /// Carries out an action of the window manager.
    pub fn handle_action(&mut self, action: InternalAction, effects: &mut Vec<WaylandEffect>)
        requires
            old(self).window_registry.wf(),
            action_ok(*old(self), action),
        ensures
            final(self).window_registry.wf(),
            final(self).window_registry.next_handle() == old(self).window_registry.next_handle(),
            match action {
                InternalAction::Flush => final(self).window_registry == old(self).window_registry
                    && final(self).focused_window == old(self).focused_window
                    && final(self).config == old(self).config
                    && final(effects)@ == old(effects)@.push(WaylandEffect::FlushClients),
                InternalAction::GenerateVerifyFocusEvent => final(self).window_registry == old(self).window_registry
                    && final(self).focused_window == old(self).focused_window
                    && final(self).config == old(self).config
                    && final(effects)@ == match old(self).focused_window {
                        Some(h) => old(effects)@.push(WaylandEffect::VerifyFocusedAt(h)),
                        None => old(effects)@,
                    },
                InternalAction::UpdateConfig(c) => final(self).window_registry == old(self).window_registry
                    && final(self).focused_window == old(self).focused_window
                    && final(self).config == c
                    && final(effects)@ == old(effects)@,
                InternalAction::UpdateWindows(ups) => final(self).window_registry.windows_map() == updates_windows(
                    old(self).window_registry.windows_map(),
                    ups@,
                    old(self).config.borders.border_width,
                ) && final(self).focused_window == old(self).focused_window
                    && final(self).config == old(self).config
                    && final(effects)@ == old(effects)@ + updates_effects(
                    old(self).window_registry.windows_map(),
                    ups@,
                    old(self).config.borders.border_width,
                ),
                InternalAction::KillWindow(h) => final(self).window_registry.windows_map() == old(self).window_registry.windows_map()
                    && final(self).focused_window == old(self).focused_window
                    && final(self).config == old(self).config
                    && final(effects)@ == if old(self).window_registry.windows_map().contains_key(h) {
                        old(effects)@.push(WaylandEffect::SendClose(h))
                    } else {
                        old(effects)@
                    },
                InternalAction::AddedWindow(h, floating, focus) => final(self).window_registry.windows_map()
                    == old(self).window_registry.windows_map().insert(
                    h,
                    ManagedWindow { floating: floating, managed: true, ..old(self).window_registry.windows_map()[h] },
                ) && final(self).config == old(self).config
                    && (focus ==> final(self).focused_window == Some(h) && final(effects)@ == old(effects)@
                    + focus_effects(old(self).window_registry.windows_map(), h, true))
                    && (!focus ==> final(self).focused_window == old(self).focused_window && final(effects)@
                    == old(effects)@),
                InternalAction::MoveMouseOver(h, force) => final(self).window_registry == old(self).window_registry
                    && final(self).focused_window == old(self).focused_window
                    && final(self).config == old(self).config
                    && final(effects)@ == if Some(h) != old(self).focused_window || force {
                        let g = old(self).window_registry.windows_map()[h].geometry->0;
                        old(effects)@.push(WaylandEffect::PointerTo((g.x + half(g.w)) as i64, (g.y + half(g.h)) as i64))
                    } else {
                        old(effects)@
                    },
                InternalAction::MoveMouseOverPoint(x, y) => final(self).window_registry == old(self).window_registry
                    && final(self).focused_window == old(self).focused_window
                    && final(self).config == old(self).config
                    && final(effects)@ == old(effects)@.push(WaylandEffect::PointerTo(x as i64, y as i64)),
                InternalAction::WindowTakeFocus(h) => final(self).window_registry == old(self).window_registry
                    && final(self).config == old(self).config
                    && final(self).focused_window == focus_after(
                    old(self).window_registry.windows_map(),
                    old(self).focused_window,
                    h,
                ) && final(effects)@ == old(effects)@ + focus_effects(
                    old(self).window_registry.windows_map(),
                    h,
                    false,
                ),
                InternalAction::FocusWindowUnderCursor(under) => final(self).window_registry == old(self).window_registry
                    && final(self).config == old(self).config
                    && match sloppy_target(old(self).config, old(self).focused_window, under) {
                    Some(h) => final(self).focused_window == focus_after(
                        old(self).window_registry.windows_map(),
                        old(self).focused_window,
                        h,
                    ) && final(effects)@ == old(effects)@ + focus_effects(
                        old(self).window_registry.windows_map(),
                        h,
                        false,
                    ),
                    None => final(self).focused_window == old(self).focused_window && final(effects)@
                        == old(effects)@,
                },
                InternalAction::Ignored => final(self).window_registry == old(self).window_registry
                    && final(self).focused_window == old(self).focused_window
                    && final(self).config == old(self).config
                    && final(effects)@ == old(effects)@,
            },
    {
        match action {
            InternalAction::Flush => {
                effects.push(WaylandEffect::FlushClients);
            },
            InternalAction::GenerateVerifyFocusEvent => {
                if let Some(handle) = self.focused_window {
                    effects.push(WaylandEffect::VerifyFocusedAt(handle));
                }
            },
            InternalAction::UpdateConfig(config) => {
                self.config = config;
            },
            InternalAction::UpdateWindows(windows) => {
                self.update_windows(&windows, effects);
            },
            InternalAction::KillWindow(handle) => {
                if self.window_registry.get(handle).is_some() {
                    effects.push(WaylandEffect::SendClose(handle));
                }
            },
            InternalAction::AddedWindow(handle, floating, focus) => {
                match self.window_registry.get_mut(handle) {
                    Some(window) => {
                        window.floating = floating;
                        window.managed = true;
                    },
                    None => {},
                }
                if focus {
                    self.focus_window(handle, true, effects);
                }
            },
            InternalAction::MoveMouseOver(handle, force) => {
                if Some(handle) != self.focused_window || force {
                    if let Some(window) = self.window_registry.get(handle) {
                        if let Some(g) = window.geometry {
                            let hw: i64 = if g.w >= 0 { (g.w / 2) as i64 } else { -((-(g.w as i64)) / 2) };
                            let hh: i64 = if g.h >= 0 { (g.h / 2) as i64 } else { -((-(g.h as i64)) / 2) };
                            effects.push(WaylandEffect::PointerTo(g.x as i64 + hw, g.y as i64 + hh));
                        }
                    }
                }
            },
            InternalAction::MoveMouseOverPoint(x, y) => {
                effects.push(WaylandEffect::PointerTo(x as i64, y as i64));
            },
            InternalAction::WindowTakeFocus(handle) => {
                self.focus_window(handle, false, effects);
            },
            InternalAction::FocusWindowUnderCursor(under) => {
                self.focus_window_under(under, effects);
            },
            InternalAction::Ignored => {},
        }
    }
}

/// The border of a placed window is drawn exactly round the box that the
/// window manager gave it: growing the content box by the border width on every
/// side gives back that box.
pub proof fn lemma_border_wraps_placement(u: WindowUpdate, border_width: i32)
    requires
        content_box_fits(u, border_width),
    ensures
        border_box(content_box(u, border_width), border_width) == (Rect { x: u.x, y: u.y, w: u.width, h: u.height }),
{
}

/// Placing windows keeps the set of windows: only the windows named change.
pub proof fn lemma_updates_keep_windows(m: Map<usize, ManagedWindow>, ups: Seq<WindowUpdate>, bw: i32)
    ensures
        updates_windows(m, ups, bw).dom() == m.dom(),
    decreases ups.len(),
{
    if ups.len() > 0 && !ups[0].is_surface && m.contains_key(ups[0].handle) {
        let m2 = m.insert(ups[0].handle, placed(m[ups[0].handle], ups[0], bw));
        lemma_updates_keep_windows(m2, ups.drop_first(), bw);
        assert(m2.dom() =~= m.dom());
    } else if ups.len() > 0 && ups[0].is_surface {
        lemma_updates_keep_windows(m, ups.drop_first(), bw);
    }
}

/// Which keys the compositor keeps for itself: a pressed key stops it exactly
/// when logo and shift are held and the key is Q, starts a terminal exactly
/// when logo and shift are held and the key is Return, and switches to
/// virtual terminal `n` exactly when it is the `n`-th terminal key; every
/// other key, and every released key, goes to the client.
pub proof fn lemma_key_actions(state: KeyState, mods: KeyModifiers, sym: u32)
    ensures
        (key_action(state, mods, sym) == KeyAction::Exit) <==> (state is Pressed && mods.logo && mods.shift && sym
            == KEY_Q),
        (key_action(state, mods, sym) == KeyAction::SpawnTerminal) <==> (state is Pressed && mods.logo && mods.shift
            && sym == KEY_RETURN),
        (key_action(state, mods, sym) is SwitchVt) <==> (state is Pressed && KEY_SWITCH_VT_1 <= sym <= KEY_SWITCH_VT_12),
        key_action(state, mods, sym) matches KeyAction::SwitchVt(n) ==> n == sym - KEY_SWITCH_VT_1 + 1 && 1 <= n <= 12,
        state is Released ==> key_action(state, mods, sym) == KeyAction::Forward,
        !mods.logo || !mods.shift ==> key_action(state, mods, sym) != KeyAction::Exit && key_action(state, mods, sym)
            != KeyAction::SpawnTerminal,
{
}

} // verus!
