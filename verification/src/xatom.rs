//! The X11 atoms that the window manager interns, and the `WM_STATE` values.
use vstd::prelude::*;

verus! {

/// The atoms that the window manager uses, as interned by the X server.
#[allow(non_snake_case)]
#[derive(Clone, Copy, Debug)]
pub struct AtomCollection {
    pub WMProtocols: u32,
    pub WMDelete: u32,
    pub WMState: u32,
    pub WMClass: u32,
    pub WMTakeFocus: u32,
    pub NetActiveWindow: u32,
    pub NetSupported: u32,
    pub NetWMName: u32,
    pub NetWMPid: u32,
    pub NetWMState: u32,
    pub NetWMStateModal: u32,
    pub NetWMStateSticky: u32,
    pub NetWMStateMaximizedVert: u32,
    pub NetWMStateMaximizedHorz: u32,
    pub NetWMStateShaded: u32,
    pub NetWMStateSkipTaskbar: u32,
    pub NetWMStateSkipPager: u32,
    pub NetWMStateHidden: u32,
    pub NetWMStateFullscreen: u32,
    pub NetWMStateAbove: u32,
    pub NetWMStateBelow: u32,
    pub NetWMStateDemandsAttention: u32,
    pub NetWMAction: u32,
    pub NetWMActionMove: u32,
    pub NetWMActionResize: u32,
    pub NetWMActionMinimize: u32,
    pub NetWMActionShade: u32,
    pub NetWMActionStick: u32,
    pub NetWMActionMaximizeHorz: u32,
    pub NetWMActionMaximizeVert: u32,
    pub NetWMActionFullscreen: u32,
    pub NetWMActionChangeDesktop: u32,
    pub NetWMActionClose: u32,
    pub NetWMWindowType: u32,
    pub NetWMWindowTypeDesktop: u32,
    pub NetWMWindowTypeDock: u32,
    pub NetWMWindowTypeToolbar: u32,
    pub NetWMWindowTypeMenu: u32,
    pub NetWMWindowTypeUtility: u32,
    pub NetWMWindowTypeSplash: u32,
    pub NetWMWindowTypeDialog: u32,
    pub NetSupportingWmCheck: u32,
    pub NetClientList: u32,
    pub NetDesktopViewport: u32,
    pub NetNumberOfDesktops: u32,
    pub NetCurrentDesktop: u32,
    pub NetDesktopNames: u32,
    pub NetWMDesktop: u32,
    pub NetWMStrutPartial: u32,
    pub NetWMStrut: u32,
    pub UTF8String: u32,
    pub WMNormalHints: u32,
    pub WMSizeHints: u32,
}

/// The name that `get_name` gives an atom: the name of the first entry of the
/// table that holds it, or `(UNKNOWN)`.
pub open spec fn first_name(table: Seq<(u32, &'static str)>, atom: u32) -> &'static str
    decreases table.len(),
{
    if table.len() == 0 {
        "(UNKNOWN)"
    } else if table[0].0 == atom {
        table[0].1
    } else {
        first_name(table.drop_first(), atom)
    }
}

impl AtomCollection {
    /// The atoms in the order in which `get_name` tests them, each with its name.
    pub open spec fn name_table(self) -> Seq<(u32, &'static str)> {
        seq![
            (self.WMProtocols, "WM_PROTOCOLS"),
            (self.WMDelete, "WM_DELETE_WINDOW"),
            (self.WMState, "WM_STATE"),
            (self.WMClass, "WM_CLASS"),
            (self.WMTakeFocus, "WM_TAKE_FOCUS"),
            (self.NetActiveWindow, "_NET_ACTIVE_WINDOW"),
            (self.NetSupported, "_NET_SUPPORTED"),
            (self.NetWMName, "_NET_WM_NAME"),
            (self.NetWMPid, "_NET_WM_PID"),
            (self.NetWMState, "_NET_WM_STATE"),
            (self.NetWMStateModal, "_NET_WM_STATE_MODAL"),
            (self.NetWMStateSticky, "_NET_WM_STATE_STICKY"),
            (self.NetWMStateMaximizedVert, "_NET_WM_STATE_MAXIMIZED_VERT"),
            (self.NetWMStateMaximizedHorz, "_NET_WM_STATE_MAXIMIZED_HORZ"),
            (self.NetWMStateShaded, "_NET_WM_STATE_SHADED"),
            (self.NetWMStateSkipTaskbar, "_NET_WM_STATE_SKIP_TASKBAR"),
            (self.NetWMStateSkipPager, "_NET_WM_STATE_SKIP_PAGER"),
            (self.NetWMStateHidden, "_NET_WM_STATE_HIDDEN"),
            (self.NetWMStateFullscreen, "_NET_WM_STATE_FULLSCREEN"),
            (self.NetWMStateAbove, "_NET_WM_STATE_ABOVE"),
            (self.NetWMStateBelow, "_NET_WM_STATE_BELOW"),
            (self.NetWMStateDemandsAttention, "_NET_WM_STATE_DEMANDS_ATTENTION"),
            (self.NetWMAction, "_NET_WM_ALLOWED_ACTIONS"),
            (self.NetWMActionMove, "_NET_WM_ACTION_MOVE"),
            (self.NetWMActionResize, "_NET_WM_ACTION_RESIZE"),
            (self.NetWMActionMinimize, "_NET_WM_ACTION_MINIMIZE"),
            (self.NetWMActionShade, "_NET_WM_ACTION_SHADE"),
            (self.NetWMActionStick, "_NET_WM_ACTION_STICK"),
            (self.NetWMActionMaximizeHorz, "_NET_WM_ACTION_MAXIMIZE_HORZ"),
            (self.NetWMActionMaximizeVert, "_NET_WM_ACTION_MAXIMIZE_VERT"),
            (self.NetWMActionFullscreen, "_NET_WM_ACTION_FULLSCREEN"),
            (self.NetWMActionChangeDesktop, "_NET_WM_ACTION_CHANGE_DESKTOP"),
            (self.NetWMActionClose, "_NET_WM_ACTION_CLOSE"),
            (self.NetWMWindowType, "_NET_WM_WINDOW_TYPE"),
            (self.NetWMWindowTypeDesktop, "_NET_WM_WINDOW_TYPE_DESKTOP"),
            (self.NetWMWindowTypeDock, "_NET_WM_WINDOW_TYPE_DOCK"),
            (self.NetWMWindowTypeToolbar, "_NET_WM_WINDOW_TYPE_TOOLBAR"),
            (self.NetWMWindowTypeMenu, "_NET_WM_WINDOW_TYPE_MENU"),
            (self.NetWMWindowTypeUtility, "_NET_WM_WINDOW_TYPE_UTILITY"),
            (self.NetWMWindowTypeSplash, "_NET_WM_WINDOW_TYPE_SPLASH"),
            (self.NetWMWindowTypeDialog, "_NET_WM_WINDOW_TYPE_DIALOG"),
            (self.NetSupportingWmCheck, "_NET_SUPPORTING_WM_CHECK"),
            (self.NetClientList, "_NET_CLIENT_LIST"),
            (self.NetDesktopViewport, "_NET_DESKTOP_VIEWPORT"),
            (self.NetNumberOfDesktops, "_NET_NUMBER_OF_DESKTOPS"),
            (self.NetCurrentDesktop, "_NET_CURRENT_DESKTOP"),
            (self.NetDesktopNames, "_NET_DESKTOP_NAMES"),
            (self.NetWMDesktop, "_NET_WM_DESKTOP"),
            (self.NetWMStrutPartial, "_NET_WM_STRUT_PARTIAL"),
            (self.NetWMStrut, "_NET_WM_STRUT"),
            (self.WMNormalHints, "WM_NORMAL_HINTS"),
            (self.WMSizeHints, "WM_SIZE_HINTS"),
            (self.UTF8String, "UTF8_STRING"),
        ]
    }

    /// The atoms announced in `_NET_SUPPORTED`.
    pub open spec fn supported(self) -> Seq<u32> {
        seq![
            self.NetActiveWindow,
            self.NetSupported,
            self.NetWMName,
            self.NetWMState,
            self.NetWMAction,
            self.NetWMPid,
            self.NetWMStateModal,
            self.NetWMStateSticky,
            self.NetWMStateMaximizedVert,
            self.NetWMStateMaximizedHorz,
            self.NetWMStateShaded,
            self.NetWMStateSkipTaskbar,
            self.NetWMStateSkipPager,
            self.NetWMStateHidden,
            self.NetWMStateFullscreen,
            self.NetWMStateAbove,
            self.NetWMStateBelow,
            self.NetWMStateDemandsAttention,
            self.NetWMActionMove,
            self.NetWMActionResize,
            self.NetWMActionMinimize,
            self.NetWMActionShade,
            self.NetWMActionStick,
            self.NetWMActionMaximizeHorz,
            self.NetWMActionMaximizeVert,
            self.NetWMActionFullscreen,
            self.NetWMActionChangeDesktop,
            self.NetWMActionClose,
            self.NetWMWindowType,
            self.NetWMWindowTypeDesktop,
            self.NetWMWindowTypeDock,
            self.NetWMWindowTypeToolbar,
            self.NetWMWindowTypeMenu,
            self.NetWMWindowTypeUtility,
            self.NetWMWindowTypeSplash,
            self.NetWMWindowTypeDialog,
            self.NetSupportingWmCheck,
            self.NetClientList,
            self.NetDesktopViewport,
            self.NetNumberOfDesktops,
            self.NetCurrentDesktop,
            self.NetDesktopNames,
            self.NetWMDesktop,
            self.NetWMStrutPartial,
            self.NetWMStrut,
        ]
    }

    /// The atoms that the window manager supports (`_NET_SUPPORTED`).
    pub fn net_supported(&self) -> (r: Vec<u32>)
        ensures
            r@ == self.supported(),
    {
        let r = vec![
            self.NetActiveWindow,
            self.NetSupported,
            self.NetWMName,
            self.NetWMState,
            self.NetWMAction,
            self.NetWMPid,
            self.NetWMStateModal,
            self.NetWMStateSticky,
            self.NetWMStateMaximizedVert,
            self.NetWMStateMaximizedHorz,
            self.NetWMStateShaded,
            self.NetWMStateSkipTaskbar,
            self.NetWMStateSkipPager,
            self.NetWMStateHidden,
            self.NetWMStateFullscreen,
            self.NetWMStateAbove,
            self.NetWMStateBelow,
            self.NetWMStateDemandsAttention,
            self.NetWMActionMove,
            self.NetWMActionResize,
            self.NetWMActionMinimize,
            self.NetWMActionShade,
            self.NetWMActionStick,
            self.NetWMActionMaximizeHorz,
            self.NetWMActionMaximizeVert,
            self.NetWMActionFullscreen,
            self.NetWMActionChangeDesktop,
            self.NetWMActionClose,
            self.NetWMWindowType,
            self.NetWMWindowTypeDesktop,
            self.NetWMWindowTypeDock,
            self.NetWMWindowTypeToolbar,
            self.NetWMWindowTypeMenu,
            self.NetWMWindowTypeUtility,
            self.NetWMWindowTypeSplash,
            self.NetWMWindowTypeDialog,
            self.NetSupportingWmCheck,
            self.NetClientList,
            self.NetDesktopViewport,
            self.NetNumberOfDesktops,
            self.NetCurrentDesktop,
            self.NetDesktopNames,
            self.NetWMDesktop,
            self.NetWMStrutPartial,
            self.NetWMStrut,
        ];
        assert(r@ =~= self.supported());
        r
    }

    fn table(&self) -> (r: Vec<(u32, &'static str)>)
        ensures
            r@ == self.name_table(),
    {
        let r = vec![
            (self.WMProtocols, "WM_PROTOCOLS"),
            (self.WMDelete, "WM_DELETE_WINDOW"),
            (self.WMState, "WM_STATE"),
            (self.WMClass, "WM_CLASS"),
            (self.WMTakeFocus, "WM_TAKE_FOCUS"),
            (self.NetActiveWindow, "_NET_ACTIVE_WINDOW"),
            (self.NetSupported, "_NET_SUPPORTED"),
            (self.NetWMName, "_NET_WM_NAME"),
            (self.NetWMPid, "_NET_WM_PID"),
            (self.NetWMState, "_NET_WM_STATE"),
            (self.NetWMStateModal, "_NET_WM_STATE_MODAL"),
            (self.NetWMStateSticky, "_NET_WM_STATE_STICKY"),
            (self.NetWMStateMaximizedVert, "_NET_WM_STATE_MAXIMIZED_VERT"),
            (self.NetWMStateMaximizedHorz, "_NET_WM_STATE_MAXIMIZED_HORZ"),
            (self.NetWMStateShaded, "_NET_WM_STATE_SHADED"),
            (self.NetWMStateSkipTaskbar, "_NET_WM_STATE_SKIP_TASKBAR"),
            (self.NetWMStateSkipPager, "_NET_WM_STATE_SKIP_PAGER"),
            (self.NetWMStateHidden, "_NET_WM_STATE_HIDDEN"),
            (self.NetWMStateFullscreen, "_NET_WM_STATE_FULLSCREEN"),
            (self.NetWMStateAbove, "_NET_WM_STATE_ABOVE"),
            (self.NetWMStateBelow, "_NET_WM_STATE_BELOW"),
            (self.NetWMStateDemandsAttention, "_NET_WM_STATE_DEMANDS_ATTENTION"),
            (self.NetWMAction, "_NET_WM_ALLOWED_ACTIONS"),
            (self.NetWMActionMove, "_NET_WM_ACTION_MOVE"),
            (self.NetWMActionResize, "_NET_WM_ACTION_RESIZE"),
            (self.NetWMActionMinimize, "_NET_WM_ACTION_MINIMIZE"),
            (self.NetWMActionShade, "_NET_WM_ACTION_SHADE"),
            (self.NetWMActionStick, "_NET_WM_ACTION_STICK"),
            (self.NetWMActionMaximizeHorz, "_NET_WM_ACTION_MAXIMIZE_HORZ"),
            (self.NetWMActionMaximizeVert, "_NET_WM_ACTION_MAXIMIZE_VERT"),
            (self.NetWMActionFullscreen, "_NET_WM_ACTION_FULLSCREEN"),
            (self.NetWMActionChangeDesktop, "_NET_WM_ACTION_CHANGE_DESKTOP"),
            (self.NetWMActionClose, "_NET_WM_ACTION_CLOSE"),
            (self.NetWMWindowType, "_NET_WM_WINDOW_TYPE"),
            (self.NetWMWindowTypeDesktop, "_NET_WM_WINDOW_TYPE_DESKTOP"),
            (self.NetWMWindowTypeDock, "_NET_WM_WINDOW_TYPE_DOCK"),
            (self.NetWMWindowTypeToolbar, "_NET_WM_WINDOW_TYPE_TOOLBAR"),
            (self.NetWMWindowTypeMenu, "_NET_WM_WINDOW_TYPE_MENU"),
            (self.NetWMWindowTypeUtility, "_NET_WM_WINDOW_TYPE_UTILITY"),
            (self.NetWMWindowTypeSplash, "_NET_WM_WINDOW_TYPE_SPLASH"),
            (self.NetWMWindowTypeDialog, "_NET_WM_WINDOW_TYPE_DIALOG"),
            (self.NetSupportingWmCheck, "_NET_SUPPORTING_WM_CHECK"),
            (self.NetClientList, "_NET_CLIENT_LIST"),
            (self.NetDesktopViewport, "_NET_DESKTOP_VIEWPORT"),
            (self.NetNumberOfDesktops, "_NET_NUMBER_OF_DESKTOPS"),
            (self.NetCurrentDesktop, "_NET_CURRENT_DESKTOP"),
            (self.NetDesktopNames, "_NET_DESKTOP_NAMES"),
            (self.NetWMDesktop, "_NET_WM_DESKTOP"),
            (self.NetWMStrutPartial, "_NET_WM_STRUT_PARTIAL"),
            (self.NetWMStrut, "_NET_WM_STRUT"),
            (self.WMNormalHints, "WM_NORMAL_HINTS"),
            (self.WMSizeHints, "WM_SIZE_HINTS"),
            (self.UTF8String, "UTF8_STRING"),
        ];
        assert(r@ =~= self.name_table());
        r
    }

    /// The name of an atom of this collection, or `(UNKNOWN)`.
    pub fn get_name(&self, atom: u32) -> (r: &'static str)
        ensures
            r == first_name(self.name_table(), atom),
    {
        let table = self.table();
        let mut i: usize = 0;
        assert(table@.skip(0) =~= table@);
        while i < table.len()
            invariant
                i <= table@.len(),
                table@ == self.name_table(),
                first_name(table@, atom) == first_name(table@.skip(i as int), atom),
            decreases table@.len() - i,
        {
            let ghost rest = table@.skip(i as int);
            assert(rest.drop_first() =~= table@.skip(i + 1));
            if table[i].0 == atom {
                return table[i].1;
            }
            i = i + 1;
        }
        assert(table@.skip(i as int).len() == 0);
        "(UNKNOWN)"
    }
}


/// Whether no atom stands twice in a table.
pub open spec fn atoms_distinct(table: Seq<(u32, &'static str)>) -> bool {
    forall|i: int, j: int| 0 <= i < j < table.len() ==> #[trigger] table[i].0 != #[trigger] table[j].0
}

proof fn lemma_first_name_of_entry(table: Seq<(u32, &'static str)>, i: int)
    requires
        atoms_distinct(table),
        0 <= i < table.len(),
    ensures
        first_name(table, table[i].0) == table[i].1,
    decreases i,
{
    if i > 0 {
        assert(table[0].0 != table[i].0);
        let rest = table.drop_first();
        assert(rest[i - 1] == table[i]);
        assert forall|a: int, b: int| 0 <= a < b < rest.len() implies #[trigger] rest[a].0 != #[trigger] rest[b].0 by {
            assert(rest[a] == table[a + 1]);
            assert(rest[b] == table[b + 1]);
        }
        lemma_first_name_of_entry(rest, i - 1);
    }
}

proof fn lemma_first_name_unknown(table: Seq<(u32, &'static str)>, atom: u32)
    requires
        forall|i: int| 0 <= i < table.len() ==> #[trigger] table[i].0 != atom,
    ensures
        first_name(table, atom) == "(UNKNOWN)",
    decreases table.len(),
{
    if table.len() > 0 {
        assert(table[0].0 != atom);
        let rest = table.drop_first();
        assert forall|i: int| 0 <= i < rest.len() implies #[trigger] rest[i].0 != atom by {
            assert(rest[i] == table[i + 1]);
        }
        lemma_first_name_unknown(rest, atom);
    }
}

/// Where the interned atoms are all different, `get_name` gives each field's
/// atom the name it was interned under (`NetWMAction` gives
/// `_NET_WM_ALLOWED_ACTIONS`, `UTF8String` gives `UTF8_STRING`, and so on
/// through the table), and an atom that is no field's gives `(UNKNOWN)`.
pub proof fn lemma_get_name_of_fields(atoms: AtomCollection, atom: u32)
    requires
        atoms_distinct(atoms.name_table()),
    ensures
        forall|i: int| #![trigger atoms.name_table()[i]]
            0 <= i < atoms.name_table().len() ==> first_name(atoms.name_table(), atoms.name_table()[i].0)
                == atoms.name_table()[i].1,
        (forall|i: int| 0 <= i < atoms.name_table().len() ==> #[trigger] atoms.name_table()[i].0 != atom)
            ==> first_name(atoms.name_table(), atom) == "(UNKNOWN)",
{
    let table = atoms.name_table();
    assert forall|i: int| #![trigger atoms.name_table()[i]]
        0 <= i < table.len() implies first_name(table, table[i].0) == table[i].1 by {
        lemma_first_name_of_entry(table, i);
    }
    if forall|i: int| 0 <= i < table.len() ==> #[trigger] table[i].0 != atom {
        lemma_first_name_unknown(table, atom);
    }
}

/// Possible values of the `state` field of `WM_STATE`.
#[derive(Clone, Copy, Debug, PartialEq, Eq, Structural)]
pub enum WMStateWindowState {
    Withdrawn,
    Normal,
    Iconic,
}

/// The value of a `WM_STATE` state field is none of the known ones.
#[derive(Clone, Copy, Debug, PartialEq, Eq, Structural)]
pub struct InvalidWindowState;

/// The `WM_STATE` state that a number stands for, if any.
pub open spec fn wm_state_of(value: u32) -> Result<WMStateWindowState, InvalidWindowState> {
    if value == 0 {
        Ok(WMStateWindowState::Withdrawn)
    } else if value == 1 {
        Ok(WMStateWindowState::Normal)
    } else if value == 2 {
        Ok(WMStateWindowState::Iconic)
    } else {
        Err(InvalidWindowState)
    }
}

/// The number that stands for a `WM_STATE` state.
pub open spec fn wm_state_code(state: WMStateWindowState) -> u32 {
    match state {
        WMStateWindowState::Withdrawn => 0,
        WMStateWindowState::Normal => 1,
        WMStateWindowState::Iconic => 2,
    }
}

impl<'a> TryFrom<&'a u32> for WMStateWindowState {
    type Error = InvalidWindowState;

    fn try_from(value: &'a u32) -> (r: Result<Self, Self::Error>) {
        match *value {
            0 => Ok(Self::Withdrawn),
            1 => Ok(Self::Normal),
            2 => Ok(Self::Iconic),
            _ => Err(InvalidWindowState),
        }
    }
}

impl<'a> vstd::std_specs::convert::TryFromSpecImpl<&'a u32> for WMStateWindowState {
    open spec fn obeys_try_from_spec() -> bool {
        true
    }

    open spec fn try_from_spec(value: &'a u32) -> Result<Self, Self::Error> {
        wm_state_of(*value)
    }
}

impl From<WMStateWindowState> for u32 {
    fn from(value: WMStateWindowState) -> (r: u32) {
        match value {
            WMStateWindowState::Withdrawn => 0,
            WMStateWindowState::Normal => 1,
            WMStateWindowState::Iconic => 2,
        }
    }
}

impl vstd::std_specs::convert::FromSpecImpl<WMStateWindowState> for u32 {
    open spec fn obeys_from_spec() -> bool {
        true
    }

    open spec fn from_spec(value: WMStateWindowState) -> u32 {
        wm_state_code(value)
    }
}

/// Reading back the number that stands for a state gives that state.
pub proof fn lemma_wm_state_code_roundtrip(state: WMStateWindowState)
    ensures
        wm_state_of(wm_state_code(state)) == Ok::<WMStateWindowState, InvalidWindowState>(state),
{
}

/// A number that stands for a state is the number of that state; no other number
/// stands for one.
pub proof fn lemma_wm_state_value_roundtrip(value: u32)
    ensures
        wm_state_of(value) is Ok <==> value < 3,
        wm_state_of(value) is Ok ==> wm_state_code(wm_state_of(value)->Ok_0) == value,
{
}

} // verus!
