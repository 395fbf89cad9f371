//! Translation of X11 events into display events for the window manager.
//!
//! The X server is read and written by the caller: each handler here takes what
//! was read as plain values and says what to report and what to write.
use vstd::prelude::*;

use crate::models::{
    Command, DisplayEvent, FocusBehaviour, Mode, WindowChange, WindowHandle, WindowState,
    WindowType, XyhwChange,
};
use crate::mode::{mode_step, set_mode, ModeStep};
use crate::states::FullscreenRequest;
use crate::xatom::AtomCollection;

verus! {

/// The part of the X connection's state that event translation reads and keeps.
#[derive(Debug)]
pub struct XState {
    pub root: u32,
    pub atoms: AtomCollection,
    pub managed_windows: Vec<u32>,
    pub focused_window: u32,
    pub mode: Mode,
    pub focus_behaviour: FocusBehaviour,
    pub mouse_key_mask: u16,
    pub mode_origin: (i32, i32),
    pub motion_event_limiter: u32,
    pub refresh_rate: u32,
}

/// A `ClientMessage` event: a request of a client to the window manager.
#[derive(Clone, Copy, Debug)]
pub struct ClientMessage {
    pub window: u32,
    pub type_: u32,
    pub data: [u32; 5],
}

/// A `PropertyNotify` event: a property of a window changed or was deleted.
#[derive(Clone, Copy, Debug, PartialEq, Eq, Structural)]
pub struct PropertyNotify {
    pub window: u32,
    pub atom: u32,
    pub deleted: bool,
}

/// A `ConfigureRequest` event: a client asks for a new geometry.
#[derive(Clone, Copy, Debug, PartialEq, Eq, Structural)]
pub struct ConfigureRequest {
    pub window: u32,
    pub x: i16,
    pub y: i16,
    pub width: u16,
    pub height: u16,
    pub border_width: u16,
    pub sibling: u32,
    pub stack_mode: u32,
}

/// The `mode` of a crossing event that is an ordinary crossing.
pub const NOTIFY_MODE_NORMAL: u8 = 0;
/// The `detail` of a crossing event into a child window.
pub const NOTIFY_DETAIL_INFERIOR: u8 = 2;

/// An `EnterNotify` event: the pointer entered a window.
#[derive(Clone, Copy, Debug, PartialEq, Eq, Structural)]
pub struct EnterNotify {
    pub event: u32,
    pub mode: u8,
    pub detail: u8,
}

/// A `MotionNotify` event: the pointer moved.
#[derive(Clone, Copy, Debug, PartialEq, Eq, Structural)]
pub struct MotionNotify {
    pub event: u32,
    pub root_x: i16,
    pub root_y: i16,
    pub time: u32,
}

/// A `ButtonPress` event.
#[derive(Clone, Copy, Debug, PartialEq, Eq, Structural)]
pub struct ButtonPress {
    pub event: u32,
    pub state: u16,
    pub detail: u8,
    pub root_x: i16,
    pub root_y: i16,
}

/// The X11 events that the window manager reacts to.
#[derive(Clone, Copy, Debug)]
pub enum XEvent {
    MapRequest { window: u32 },
    UnmapNotify { window: u32 },
    DestroyNotify { window: u32 },
    FocusIn { event: u32 },
    ClientMessage(ClientMessage),
    PropertyNotify(PropertyNotify),
    ConfigureRequest(ConfigureRequest),
    EnterNotify(EnterNotify),
    MotionNotify(MotionNotify),
    ButtonPress(ButtonPress),
    ButtonRelease,
    Other,
}

/// Whether an event is translated at all: client messages, property changes and
/// configure requests only in the normal mode, pointer entries only there and
/// with sloppy focus, button releases only outside it.
pub open spec fn is_handled(event: XEvent, mode: Mode, focus: FocusBehaviour) -> bool {
    match event {
        XEvent::ClientMessage(_) | XEvent::PropertyNotify(_) | XEvent::ConfigureRequest(_) => mode
            == Mode::Normal,
        XEvent::EnterNotify(_) => mode == Mode::Normal && focus is Sloppy,
        XEvent::ButtonRelease => mode != Mode::Normal,
        XEvent::Other => false,
        _ => true,
    }
}

/// Whether two lists hold the same values.
pub open spec fn contains(list: Seq<u32>, v: u32) -> bool {
    list.contains(v)
}

/// Whether a list holds a value.
pub fn contains_u32(list: &[u32], value: u32) -> (r: bool)
    ensures
        r == list@.contains(value),
{
    let mut i: usize = 0;
    while i < list.len()
        invariant
            i <= list@.len(),
            forall|j: int| 0 <= j < i ==> list@[j] != value,
        decreases list@.len() - i,
    {
        if list[i] == value {
            assert(list@[i as int] == value);
            return true;
        }
        i = i + 1;
    }
    false
}

/// The list without any occurrence of a value, the order of the rest kept.
pub fn without(list: &Vec<u32>, value: u32) -> (r: Vec<u32>)
    ensures
        r@ == list@.filter(|x: u32| x != value),
{
    let mut r: Vec<u32> = Vec::new();
    let mut i: usize = 0;
    while i < list.len()
        invariant
            i <= list@.len(),
            r@ == list@.subrange(0, i as int).filter(|x: u32| x != value),
        decreases list@.len() - i,
    {
        let ghost before = list@.subrange(0, i as int);
        assert(list@.subrange(0, i + 1).drop_last() =~= before);
        reveal_with_fuel(Seq::filter, 1);
        if list[i] != value {
            r.push(list[i]);
        }
        i = i + 1;
    }
    assert(list@.subrange(0, i as int) =~= list@);
    r
}

/// What to write to the X server when the window manager lets go of a window:
/// whether to release the window (it still exists), and the new client list.
#[derive(Clone, Debug)]
pub struct Teardown {
    pub release_window: bool,
    pub client_list: Vec<u32>,
}

impl XState {
    /// Whether translation handles an event in the current mode.
    pub fn handles(&self, event: &XEvent) -> (r: bool)
        ensures
            r == is_handled(*event, self.mode, self.focus_behaviour),
    {
        let is_normal = self.mode == Mode::Normal;
        let is_sloppy = self.focus_behaviour.is_sloppy();
        match event {
            XEvent::ClientMessage(_) | XEvent::PropertyNotify(_) | XEvent::ConfigureRequest(_) => is_normal,
            XEvent::EnterNotify(_) => is_normal && is_sloppy,
            XEvent::ButtonRelease => !is_normal,
            XEvent::Other => false,
            _ => true,
        }
    }

    /// Stops managing a window: it leaves the managed
    /// list, which is also the new client list.
    pub fn teardown_managed_window(&mut self, window: u32, destroyed: bool) -> (r: Teardown)
        ensures
            final(self).managed_windows@ == old(self).managed_windows@.filter(|x: u32| x != window),
            r.client_list@ == final(self).managed_windows@,
            r.release_window == !destroyed,
            final(self).mode == old(self).mode,
            final(self).focused_window == old(self).focused_window,
            final(self).root == old(self).root,
    {
        let kept = without(&self.managed_windows, window);
        self.managed_windows = kept;
        Teardown { release_window: !destroyed, client_list: self.managed_windows.clone() }
    }

    /// Starts managing a window: it joins the managed
    /// list, and the value to append to `_NET_CLIENT_LIST` is returned (the
    /// window alone).
    pub fn manage_window(&mut self, window: u32) -> (r: Vec<u32>)
        ensures
            final(self).managed_windows@ == old(self).managed_windows@.push(window),
            r@ == seq![window],
            final(self).root == old(self).root,
            final(self).mode == old(self).mode,
            final(self).focused_window == old(self).focused_window,
            final(self).focus_behaviour == old(self).focus_behaviour,
    {
        self.managed_windows.push(window);
        vec![window]
    }

    /// Forgets a window that is gone (`force_unmapped`): where it was managed, it
    /// leaves the managed list and the new client list is returned.
    pub fn force_unmapped(&mut self, window: u32) -> (r: Option<Vec<u32>>)
        ensures
            old(self).managed_windows@.contains(window) ==> {
                &&& final(self).managed_windows@ == old(self).managed_windows@.filter(|x: u32| x != window)
                &&& r matches Some(list) && list@ == final(self).managed_windows@
                &&& final(self).mode == old(self).mode
                &&& final(self).focused_window == old(self).focused_window
                &&& final(self).root == old(self).root
            },
            !old(self).managed_windows@.contains(window) ==> r is None && *final(self) == *old(self),
    {
        if contains_u32(&self.managed_windows, window) {
            let t = self.teardown_managed_window(window, true);
            return Some(t.client_list);
        }
        None
    }

    /// A window is unmapped: a managed one is let go and reported destroyed.
    pub fn from_unmap_event(&mut self, window: u32) -> (r: Option<(DisplayEvent, Teardown)>)
        ensures
            old(self).managed_windows@.contains(window) <==> r is Some,
            r matches Some(p) ==> {
                &&& p.0 == DisplayEvent::WindowDestroy(WindowHandle(window))
                &&& p.1.release_window
                &&& p.1.client_list@ == final(self).managed_windows@
                &&& final(self).managed_windows@ == old(self).managed_windows@.filter(|x: u32| x != window)
            },
            r is None ==> *final(self) == *old(self),
    {
        if contains_u32(&self.managed_windows, window) {
            let t = self.teardown_managed_window(window, false);
            return Some((DisplayEvent::WindowDestroy(WindowHandle(window)), t));
        }
        None
    }

    /// A window is destroyed: a managed one is let go and reported destroyed.
    pub fn from_destroy_notify(&mut self, window: u32) -> (r: Option<(DisplayEvent, Teardown)>)
        ensures
            old(self).managed_windows@.contains(window) <==> r is Some,
            r matches Some(p) ==> {
                &&& p.0 == DisplayEvent::WindowDestroy(WindowHandle(window))
                &&& !p.1.release_window
                &&& p.1.client_list@ == final(self).managed_windows@
                &&& final(self).managed_windows@ == old(self).managed_windows@.filter(|x: u32| x != window)
            },
            r is None ==> *final(self) == *old(self),
    {
        if contains_u32(&self.managed_windows, window) {
            let t = self.teardown_managed_window(window, true);
            return Some((DisplayEvent::WindowDestroy(WindowHandle(window)), t));
        }
        None
    }

    /// A window got the input focus: where it is not the focused window, the
    /// focused window is given the focus back (it is returned).
    pub fn from_focus_in(&self, event_window: u32) -> (r: Option<u32>)
        ensures
            r == (if self.focused_window != event_window {
                Some(self.focused_window)
            } else {
                None
            }),
    {
        if self.focused_window != event_window {
            Some(self.focused_window)
        } else {
            None
        }
    }

    /// The pointer entered a window: with an ordinary crossing into a window other
    /// than the root (not from one of its children), that window takes the focus.
    pub fn from_enter_notify(&self, event: EnterNotify) -> (r: Option<DisplayEvent>)
        ensures
            r == (if event.mode != NOTIFY_MODE_NORMAL || event.detail == NOTIFY_DETAIL_INFERIOR
                || event.event == self.root {
                None
            } else {
                Some(DisplayEvent::WindowTakeFocus(WindowHandle(event.event)))
            }),
    {
        if event.mode != NOTIFY_MODE_NORMAL || event.detail == NOTIFY_DETAIL_INFERIOR
            || event.event == self.root {
            return None;
        }
        Some(DisplayEvent::WindowTakeFocus(WindowHandle(event.event)))
    }

    /// A mouse button is released (outside the normal mode): back to the normal mode.
    pub fn from_button_release(&mut self) -> (r: (ModeStep, DisplayEvent))
        ensures
            r.0 == mode_step(old(self).mode, Mode::Normal, WindowHandle(old(self).root)),
            final(self).mode == Mode::Normal,
            r.1 == DisplayEvent::ChangeToNormalMode,
            final(self).managed_windows == old(self).managed_windows,
            final(self).root == old(self).root,
    {
        let step = set_mode(self.mode, Mode::Normal, WindowHandle(self.root));
        self.mode = step.mode;
        (step, DisplayEvent::ChangeToNormalMode)
    }
}

/// A mouse button is pressed: the window manager gets the button with the state
/// of the modifiers (as sent), the window and the pointer position.
pub fn from_button_press(event: ButtonPress) -> (r: DisplayEvent)
    ensures
        r == DisplayEvent::MouseCombo(
            event.state,
            event.detail,
            WindowHandle(event.event),
            event.root_x as i32,
            event.root_y as i32,
        ),
{
    DisplayEvent::MouseCombo(
        event.state,
        event.detail,
        WindowHandle(event.event),
        event.root_x as i32,
        event.root_y as i32,
    )
}

/// Whether a pointer motion is reported: the refresh rate is known and more than
/// one frame has passed since the last reported motion.
pub open spec fn motion_due(s: XState, event: MotionNotify) -> bool {
    s.refresh_rate > 0 && event.time - s.motion_event_limiter > 1000int / (s.refresh_rate as int)
}

/// What a pointer motion gives: the event to report, and the change of mode.
#[derive(Clone, Debug)]
pub struct MotionOutcome {
    pub event: Option<DisplayEvent>,
    pub step: Option<ModeStep>,
}

/// The event that a reported motion gives in a mode, with the offsets from where
/// the move or resize started.
pub open spec fn motion_event(mode: Mode, sloppy: bool, event: MotionNotify, dx: i32, dy: i32) -> Option<DisplayEvent> {
    match mode {
        Mode::ReadyToMove(h) | Mode::MovingWindow(h) => Some(DisplayEvent::MoveWindow(h, dx, dy)),
        Mode::ReadyToResize(h) | Mode::ResizingWindow(h) => Some(DisplayEvent::ResizeWindow(h, dx, dy)),
        Mode::Normal => if sloppy {
            Some(DisplayEvent::Movement(WindowHandle(event.event), event.root_x as i32, event.root_y as i32))
        } else {
            None
        },
    }
}

impl XState {
    /// The pointer moved. Motions are reported at most once per frame; a window
    /// that was made ready to move or resize starts moving or resizing.
    pub fn from_motion_notify(&mut self, event: MotionNotify) -> (r: MotionOutcome)
        requires
            old(self).refresh_rate > 0 ==> event.time >= old(self).motion_event_limiter,
            motion_due(*old(self), event) ==> {
                &&& i32::MIN <= event.root_x - old(self).mode_origin.0 <= i32::MAX
                &&& i32::MIN <= event.root_y - old(self).mode_origin.1 <= i32::MAX
            },
        ensures
            !motion_due(*old(self), event) ==> r.event is None && r.step is None && *final(self) == *old(self),
            motion_due(*old(self), event) ==> {
                &&& final(self).motion_event_limiter == event.time
                &&& r.event == motion_event(
                    old(self).mode,
                    old(self).focus_behaviour is Sloppy,
                    event,
                    (event.root_x - old(self).mode_origin.0) as i32,
                    (event.root_y - old(self).mode_origin.1) as i32,
                )
                &&& match old(self).mode {
                    Mode::ReadyToMove(h) => r.step == Some(
                        mode_step(old(self).mode, Mode::MovingWindow(h), WindowHandle(old(self).root)),
                    ) && final(self).mode == r.step->Some_0.mode,
                    Mode::ReadyToResize(h) => r.step == Some(
                        mode_step(old(self).mode, Mode::ResizingWindow(h), WindowHandle(old(self).root)),
                    ) && final(self).mode == r.step->Some_0.mode,
                    _ => r.step is None && final(self).mode == old(self).mode,
                }
            },
            final(self).managed_windows == old(self).managed_windows,
            final(self).root == old(self).root,
            final(self).focused_window == old(self).focused_window,
            final(self).refresh_rate == old(self).refresh_rate,
            final(self).mode_origin == old(self).mode_origin,
    {
        if self.refresh_rate > 0 && event.time - self.motion_event_limiter > 1000 / self.refresh_rate {
            self.motion_event_limiter = event.time;
            let event_h = WindowHandle(event.event);
            let offset_x = event.root_x as i32 - self.mode_origin.0;
            let offset_y = event.root_y as i32 - self.mode_origin.1;
            let root = WindowHandle(self.root);
            match self.mode {
                Mode::ReadyToMove(h) => {
                    let step = set_mode(self.mode, Mode::MovingWindow(h), root);
                    self.mode = step.mode;
                    MotionOutcome {
                        event: Some(DisplayEvent::MoveWindow(h, offset_x, offset_y)),
                        step: Some(step),
                    }
                },
                Mode::MovingWindow(h) => MotionOutcome {
                    event: Some(DisplayEvent::MoveWindow(h, offset_x, offset_y)),
                    step: None,
                },
                Mode::ReadyToResize(h) => {
                    let step = set_mode(self.mode, Mode::ResizingWindow(h), root);
                    self.mode = step.mode;
                    MotionOutcome {
                        event: Some(DisplayEvent::ResizeWindow(h, offset_x, offset_y)),
                        step: Some(step),
                    }
                },
                Mode::ResizingWindow(h) => MotionOutcome {
                    event: Some(DisplayEvent::ResizeWindow(h, offset_x, offset_y)),
                    step: None,
                },
                Mode::Normal => {
                    if self.focus_behaviour.is_sloppy() {
                        MotionOutcome {
                            event: Some(
                                DisplayEvent::Movement(event_h, event.root_x as i32, event.root_y as i32),
                            ),
                            step: None,
                        }
                    } else {
                        MotionOutcome { event: None, step: None }
                    }
                },
            }
        } else {
            MotionOutcome { event: None, step: None }
        }
    }
}


/// What the window manager does with a client message.
#[derive(Clone, Debug)]
pub enum ClientMessageAction {
    /// Nothing.
    Ignore,
    /// Report an event.
    Report(DisplayEvent),
    /// Mark the window as urgent.
    SetUrgent(u32),
    /// Apply the fullscreen request (if any) to the window's `_NET_WM_STATE`,
    /// then report the window's states.
    UpdateStates { window: u32, fullscreen: Option<FullscreenRequest> },
}

/// The fullscreen request in the data of a `_NET_WM_STATE` message: where one of
/// the two properties is the fullscreen state, action 1 sets it, 2 toggles it and
/// any other clears it.
pub open spec fn fullscreen_request_of(data: Seq<u32>, fullscreen: u32) -> Option<FullscreenRequest> {
    if data[1] == fullscreen || data[2] == fullscreen {
        if data[0] == 2 {
            Some(FullscreenRequest::Toggle)
        } else {
            Some(FullscreenRequest::Fixed(data[0] == 1))
        }
    } else {
        None
    }
}

/// What a client message asks for.
pub open spec fn client_message_spec(s: XState, e: ClientMessage) -> ClientMessageAction {
    if !s.managed_windows@.contains(e.window) && e.window != s.root {
        ClientMessageAction::Ignore
    } else if e.type_ == s.atoms.NetCurrentDesktop {
        ClientMessageAction::Report(
            DisplayEvent::SendCommand(Command::GoToTag { tag: (e.data@[0] + 1) as usize, swap: false }),
        )
    } else if e.type_ == s.atoms.NetWMDesktop {
        ClientMessageAction::Report(
            DisplayEvent::SendCommand(
                Command::SendWindowToTag {
                    tag: (e.data@[0] + 1) as usize,
                    window: Some(WindowHandle(e.window)),
                },
            ),
        )
    } else if e.type_ == s.atoms.NetActiveWindow {
        ClientMessageAction::SetUrgent(e.window)
    } else if e.type_ == s.atoms.NetWMState {
        ClientMessageAction::UpdateStates {
            window: e.window,
            fullscreen: fullscreen_request_of(e.data@, s.atoms.NetWMStateFullscreen),
        }
    } else {
        ClientMessageAction::Ignore
    }
}

impl XState {
    /// A client message, to a managed window or the root: desktop switches and
    /// moves, activation requests and state changes.
    pub fn from_client_message(&self, event: ClientMessage) -> (r: ClientMessageAction)
        requires
            (self.managed_windows@.contains(event.window) || event.window == self.root) && (event.type_
                == self.atoms.NetCurrentDesktop || event.type_ == self.atoms.NetWMDesktop) ==> event.data@[0]
                < usize::MAX,
        ensures
            r == client_message_spec(*self, event),
    {
        if !contains_u32(&self.managed_windows, event.window) && event.window != self.root {
            return ClientMessageAction::Ignore;
        }
        if event.type_ == self.atoms.NetCurrentDesktop {
            let index = event.data[0] as usize;
            return ClientMessageAction::Report(
                DisplayEvent::SendCommand(Command::GoToTag { tag: index + 1, swap: false }),
            );
        }
        if event.type_ == self.atoms.NetWMDesktop {
            let index = event.data[0] as usize;
            return ClientMessageAction::Report(
                DisplayEvent::SendCommand(
                    Command::SendWindowToTag { tag: index + 1, window: Some(WindowHandle(event.window)) },
                ),
            );
        }
        if event.type_ == self.atoms.NetActiveWindow {
            return ClientMessageAction::SetUrgent(event.window);
        }
        if event.type_ == self.atoms.NetWMState {
            let data = event.data;
            let fullscreen_atom = self.atoms.NetWMStateFullscreen;
            let fullscreen = if data[1] == fullscreen_atom || data[2] == fullscreen_atom {
                if data[0] == 2 {
                    Some(FullscreenRequest::Toggle)
                } else {
                    Some(FullscreenRequest::Fixed(data[0] == 1))
                }
            } else {
                None
            };
            return ClientMessageAction::UpdateStates { window: event.window, fullscreen };
        }
        ClientMessageAction::Ignore
    }
}

/// The event that reports a window's states.
pub fn states_change(window: u32, states: Vec<WindowState>) -> (r: DisplayEvent)
    ensures
        r == DisplayEvent::WindowChange(
            WindowChange { states: Some(states), ..WindowChange::spec_new(WindowHandle(window)) },
        ),
{
    let mut change = WindowChange::new(WindowHandle(window));
    change.states = Some(states);
    DisplayEvent::WindowChange(change)
}

/// What a client message asks for, by its type, for a message to a managed
/// window or the root: a desktop switch goes to desktop `data[0] + 1`, a
/// desktop move sends the window there, an activation marks it urgent, and a
/// `_NET_WM_STATE` message that names the fullscreen state in `data[1]` or
/// `data[2]` asks to clear it (action 0), set it (action 1) or toggle it
/// (action 2), any other action clearing it; one that does not name it asks
/// for no fullscreen change. A message to any other window is ignored.
pub proof fn lemma_client_message_requests(s: XState, e: ClientMessage)
    ensures
        !s.managed_windows@.contains(e.window) && e.window != s.root ==> client_message_spec(s, e)
            == ClientMessageAction::Ignore,
        ({
            let addressed = s.managed_windows@.contains(e.window) || e.window == s.root;
            let a = s.atoms;
            let r = client_message_spec(s, e);
            &&& addressed && e.type_ == a.NetCurrentDesktop && e.data@[0] < usize::MAX ==> (r matches ClientMessageAction::Report(
                DisplayEvent::SendCommand(Command::GoToTag { tag, swap }),
            ) && tag == e.data@[0] + 1 && !swap)
            &&& addressed && e.type_ != a.NetCurrentDesktop && e.type_ == a.NetWMDesktop && e.data@[0] < usize::MAX ==> (r matches ClientMessageAction::Report(
                DisplayEvent::SendCommand(Command::SendWindowToTag { tag, window }),
            ) && tag == e.data@[0] + 1 && window == Some(WindowHandle(e.window)))
            &&& addressed && e.type_ != a.NetCurrentDesktop && e.type_ != a.NetWMDesktop && e.type_ == a.NetActiveWindow
                ==> r == ClientMessageAction::SetUrgent(e.window)
            &&& addressed && e.type_ != a.NetCurrentDesktop && e.type_ != a.NetWMDesktop && e.type_ != a.NetActiveWindow
                && e.type_ == a.NetWMState ==> {
                let names_fullscreen = e.data@[1] == a.NetWMStateFullscreen || e.data@[2] == a.NetWMStateFullscreen;
                &&& r matches ClientMessageAction::UpdateStates { window, fullscreen } && window == e.window
                &&& !names_fullscreen ==> (r matches ClientMessageAction::UpdateStates { fullscreen, .. } && fullscreen is None)
                &&& names_fullscreen && e.data@[0] == 0 ==> (r matches ClientMessageAction::UpdateStates { fullscreen, .. }
                    && fullscreen == Some(FullscreenRequest::Fixed(false)))
                &&& names_fullscreen && e.data@[0] == 1 ==> (r matches ClientMessageAction::UpdateStates { fullscreen, .. }
                    && fullscreen == Some(FullscreenRequest::Fixed(true)))
                &&& names_fullscreen && e.data@[0] == 2 ==> (r matches ClientMessageAction::UpdateStates { fullscreen, .. }
                    && fullscreen == Some(FullscreenRequest::Toggle))
                &&& names_fullscreen && e.data@[0] > 2 ==> (r matches ClientMessageAction::UpdateStates { fullscreen, .. }
                    && fullscreen == Some(FullscreenRequest::Fixed(false)))
            }
            &&& addressed && e.type_ != a.NetCurrentDesktop && e.type_ != a.NetWMDesktop && e.type_ != a.NetActiveWindow
                && e.type_ != a.NetWMState ==> r == ClientMessageAction::Ignore
        }),
{
}

} // verus!
