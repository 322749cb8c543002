use vstd::prelude::*;
use crate::tiling::Placement;
use crate::tiling::new_window_placement;
use crate::tiling::new_window_placement_spec;

verus! {

/// The window is being destroyed.
pub const WM_DESTROY: u32 = 0x0002;
/// Shell hook event: a top-level window was created.
pub const HSHELL_WINDOWCREATED: i32 = 1;
/// Shell hook event: a top-level window was destroyed.
pub const HSHELL_WINDOWDESTROYED: i32 = 2;
/// A registered hot key was pressed.
pub const WM_HOTKEY: u32 = 0x0312;
/// Identifier of the manager's hot key.
pub const HOTKEY_GO: usize = 1;
/// Hot key modifiers `MOD_CONTROL | MOD_ALT | MOD_WIN`.
pub const HOTKEY_GO_MODIFIERS: u32 = 0x000B;
/// Virtual key `VK_RIGHT`.
pub const HOTKEY_GO_KEY: u32 = 0x0027;

/// What the manager's window procedure does before handing a message on to
/// `DefWindowProcW`.
#[derive(Clone, Copy, Debug, PartialEq, Eq, Structural)]
pub enum ShellAction {
    /// Post the quit message.
    Quit,
    /// Move the created window `window` to `placement`.
    PlaceCreated { window: usize, placement: Placement },
    /// Report that `window` was destroyed.
    ReportDestroyed { window: usize },
    /// Nothing.
    Nothing,
}

/// The action for message `msg` with parameters `w_param` and `l_param`. A
/// shell hook message carries the event in `w_param` (read as a C `int`) and
/// the window in `l_param`.
pub open spec fn shell_action_spec(msg: u32, w_param: usize, l_param: isize) -> ShellAction {
    if msg == WM_DESTROY {
        ShellAction::Quit
    } else if w_param as i32 == HSHELL_WINDOWCREATED {
        ShellAction::PlaceCreated { window: l_param as usize, placement: new_window_placement_spec() }
    } else if w_param as i32 == HSHELL_WINDOWDESTROYED {
        ShellAction::ReportDestroyed { window: l_param as usize }
    } else {
        ShellAction::Nothing
    }
}

/// The window procedure quits on `WM_DESTROY` (2) whatever the parameters;
/// for any other message, shell event 1 in `w_param` moves the window in
/// `l_param` to (200, 200), 400 by 400, event 2 reports that window, and
/// anything else does nothing.
pub proof fn lemma_shell_actions(msg: u32, w_param: usize, l_param: isize)
    ensures
        msg == 2 ==> shell_action_spec(msg, w_param, l_param) == ShellAction::Quit,
        msg != 2 && w_param as i32 == 1 ==> shell_action_spec(msg, w_param, l_param) == (
        ShellAction::PlaceCreated {
            window: l_param as usize,
            placement: Placement { x: 200, y: 200, width: 400, height: 400 },
        }),
        msg != 2 && w_param as i32 == 2 ==> shell_action_spec(msg, w_param, l_param) == (
        ShellAction::ReportDestroyed { window: l_param as usize }),
        msg != 2 && w_param as i32 != 1 && w_param as i32 != 2 ==> shell_action_spec(
            msg,
            w_param,
            l_param,
        ) == ShellAction::Nothing,
        (shell_action_spec(msg, w_param, l_param) == ShellAction::Quit) <==> msg == 2,
{
}

/// Decides what the window procedure does with a message.
pub fn shell_action(msg: u32, w_param: usize, l_param: isize) -> (a: ShellAction)
    ensures
        a == shell_action_spec(msg, w_param, l_param),
        msg == WM_DESTROY ==> a == ShellAction::Quit,
        (a == ShellAction::Quit) <==> msg == WM_DESTROY,
{
    let event_type: i32 = w_param as i32;
    let window: usize = l_param as usize;
    if msg == WM_DESTROY {
        ShellAction::Quit
    } else if event_type == HSHELL_WINDOWCREATED {
        ShellAction::PlaceCreated { window, placement: new_window_placement() }
    } else if event_type == HSHELL_WINDOWDESTROYED {
        ShellAction::ReportDestroyed { window }
    } else {
        ShellAction::Nothing
    }
}

/// What a message of the hot key loop is.
#[derive(Clone, Copy, Debug, PartialEq, Eq, Structural)]
pub enum HotkeyEvent {
    /// The manager's hot key was pressed.
    Go,
    /// Another hot key was pressed.
    UnknownHotkey,
    /// Not a hot key message.
    Other,
}

/// Sorts a message of the hot key loop.
pub fn hotkey_event(message: u32, w_param: usize) -> (e: HotkeyEvent)
    ensures
        message != WM_HOTKEY ==> e == HotkeyEvent::Other,
        message == WM_HOTKEY && w_param == HOTKEY_GO ==> e == HotkeyEvent::Go,
        message == WM_HOTKEY && w_param != HOTKEY_GO ==> e == HotkeyEvent::UnknownHotkey,
{
    if message == WM_HOTKEY {
        if w_param == HOTKEY_GO {
            HotkeyEvent::Go
        } else {
            HotkeyEvent::UnknownHotkey
        }
    } else {
        HotkeyEvent::Other
    }
}

/// A message loop goes on while `GetMessageW` answers a positive value
/// (0 is `WM_QUIT`, -1 an error).
pub fn keep_pumping(get_message_result: i32) -> (b: bool)
    ensures
        b == (get_message_result > 0),
{
    get_message_result > 0
}

} // verus!
