use vstd::prelude::*;
use crate::text::create_tooltip;
use crate::text::tooltip_of;

verus! {

/// The icon's callback message is set.
pub const NIF_MESSAGE: u32 = 0x0001;
/// The icon handle is set.
pub const NIF_ICON: u32 = 0x0002;
/// The tooltip is set.
pub const NIF_TIP: u32 = 0x0004;
/// First message number free for a program's own use.
pub const WM_USER: u32 = 0x0400;
/// Identifier of the manager's notification-area icon.
pub const TRAY_ICON_ID: u32 = 1;

/// What the manager puts in its notification-area icon's `NOTIFYICONDATAW`:
/// the owning window, the icon's identifier, which members are set, the
/// callback message and the tooltip. The other members are zero, but for the
/// structure's size and the icon handle.
#[derive(Clone, Copy, Debug)]
pub struct NotifyIcon {
    pub hwnd: usize,
    pub id: u32,
    pub flags: u32,
    pub callback_message: u32,
    pub tip: [u16; 128],
}

/// The notification-area icon of window `hwnd`, with the tooltip "Winoleum".
pub fn get_nid_struct(hwnd: usize) -> (n: NotifyIcon)
    ensures
        n.hwnd == hwnd,
        n.id == TRAY_ICON_ID,
        n.flags == NIF_MESSAGE | NIF_ICON | NIF_TIP,
        n.flags == 7,
        n.callback_message == WM_USER + 1,
        n.tip@ == tooltip_of("Winoleum"@),
{
    let name = "Winoleum";
    proof {
        reveal_strlit("Winoleum");
    }
    assert(crate::text::wide_string(name@).len() == 9) by {
        reveal_with_fuel(crate::text::utf16_encode, 9);
    }
    let flags: u32 = NIF_MESSAGE | NIF_ICON | NIF_TIP;
    assert(flags == 7) by (bit_vector)
        requires
            flags == 0x0001u32 | 0x0002u32 | 0x0004u32,
    ;
    NotifyIcon {
        hwnd,
        id: TRAY_ICON_ID,
        flags,
        callback_message: WM_USER + 1,
        tip: create_tooltip(name),
    }
}

} // verus!
