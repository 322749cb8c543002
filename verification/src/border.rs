use vstd::prelude::*;
use vstd::multiset::Multiset;
use crate::geometry::Rect;
use crate::geometry::BORDER_THICKNESS;

verus! {

broadcast use vstd::multiset::group_multiset_axioms;

/// Hook code under which a `WH_CALLWNDPROC` hook must act on the message.
pub const HC_ACTION: i32 = 0;
/// The window is asked for the size of its client area.
pub const WM_NCCALCSIZE: u32 = 0x0083;
/// The non-client area of the window is to be painted.
pub const WM_NCPAINT: u32 = 0x0085;
/// The non-client area changes between active and inactive.
pub const WM_NCACTIVATE: u32 = 0x0086;
/// The window background is to be erased.
pub const WM_ERASEBKGND: u32 = 0x0014;
/// `wParam` value of `WM_NCPAINT` that stands for the whole window.
pub const NULLREGION: i32 = 1;
/// `GetDCEx` flags of the border painter: `DCX_WINDOW | DCX_CACHE |
/// DCX_INTERSECTRGN | DCX_LOCKWINDOWUPDATE`.
pub const BORDER_DC_FLAGS: u32 = 0x0483;
/// Pen style `PS_INSIDEFRAME`.
pub const PS_INSIDEFRAME: i32 = 6;

/// The `COLORREF` of a red, green and blue intensity: `r | g << 8 | b << 16`.
pub open spec fn rgb_spec(r: u8, g: u8, b: u8) -> u32 {
    (r + 256 * g + 65536 * b) as u32
}

/// Builds a `COLORREF` from its three intensities.
pub fn rgb(r: u8, g: u8, b: u8) -> (c: u32)
    ensures
        c == rgb_spec(r, g, b),
        c == r + 256 * g + 65536 * b,
{
    r as u32 + 256 * (g as u32) + 65536 * (b as u32)
}

/// What the border hook does with a message it sees.
#[derive(Clone, Copy, Debug, PartialEq, Eq, Structural)]
pub enum HookBranch {
    /// Shrink the proposed client area by the border thickness, then answer 0.
    ReserveBorder,
    /// Turn off the system's non-client rendering, redraw, then answer 0.
    DisableNcRendering,
    /// Paint the border (see `PaintState`), then answer 0.
    PaintBorder,
    /// Hand the message on to the next hook.
    PassOn,
}

/// The hook acts only on messages that come with `HC_ACTION`.
pub fn is_hook_action(code: i32) -> (b: bool)
    ensures
        b == (code == HC_ACTION),
{
    code == HC_ACTION
}

/// What the hook does with a message, by its identifier.
pub open spec fn hook_branch_spec(message: u32) -> HookBranch {
    if message == WM_NCCALCSIZE {
        HookBranch::ReserveBorder
    } else if message == WM_NCACTIVATE {
        HookBranch::DisableNcRendering
    } else if message == WM_NCPAINT || message == WM_ERASEBKGND {
        HookBranch::PaintBorder
    } else {
        HookBranch::PassOn
    }
}

/// The four messages that the border hook handles itself.
pub open spec fn handled_message(message: u32) -> bool {
    message == 0x0083u32 || message == 0x0086u32 || message == 0x0085u32 || message == 0x0014u32
}

/// The hook handles exactly `WM_NCCALCSIZE` (by reserving the border),
/// `WM_NCACTIVATE` (by turning off non-client rendering), and `WM_NCPAINT` and
/// `WM_ERASEBKGND` (by painting the border); every other message is handed on
/// to the next hook, and the hook answers 0 exactly for the four it handles.
pub proof fn lemma_hook_handles_four_messages(message: u32)
    ensures
        (hook_branch_spec(message) == HookBranch::ReserveBorder) <==> message == 0x0083u32,
        (hook_branch_spec(message) == HookBranch::DisableNcRendering) <==> message == 0x0086u32,
        (hook_branch_spec(message) == HookBranch::PaintBorder) <==> (message == 0x0085u32
            || message == 0x0014u32),
        (hook_branch_spec(message) == HookBranch::PassOn) <==> !handled_message(message),
        hook_answer_spec(hook_branch_spec(message)) == (if handled_message(message) {
            Some(0isize)
        } else {
            None
        }),
{
}

/// Chooses what the hook does with a message of an `HC_ACTION` call.
pub fn classify_message(message: u32) -> (b: HookBranch)
    ensures
        b == hook_branch_spec(message),
        (b == HookBranch::ReserveBorder) <==> message == WM_NCCALCSIZE,
        (b == HookBranch::DisableNcRendering) <==> message == WM_NCACTIVATE,
        (b == HookBranch::PaintBorder) <==> (message == WM_NCPAINT || message == WM_ERASEBKGND),
        (b == HookBranch::PassOn) <==> !handled_message(message),
{
    if message == WM_NCCALCSIZE {
        HookBranch::ReserveBorder
    } else if message == WM_NCACTIVATE {
        HookBranch::DisableNcRendering
    } else if message == WM_NCPAINT || message == WM_ERASEBKGND {
        HookBranch::PaintBorder
    } else {
        HookBranch::PassOn
    }
}

/// What the hook answers for a message of each branch: 0 for the messages
/// it handles itself, nothing for one it hands on (the next hook answers).
pub open spec fn hook_answer_spec(branch: HookBranch) -> Option<isize> {
    match branch {
        HookBranch::PassOn => None,
        _ => Some(0),
    }
}

/// The hook's own answer to a message of `branch`.
pub fn hook_answer(branch: HookBranch) -> (r: Option<isize>)
    ensures
        r == hook_answer_spec(branch),
        branch is PassOn ==> r is None,
        !(branch is PassOn) ==> r == Some(0isize),
{
    match branch {
        HookBranch::PassOn => None,
        _ => Some(0),
    }
}

/// Window attribute `DWMWA_NCRENDERING_POLICY`.
pub const DWMWA_NCRENDERING_POLICY: u32 = 2;
/// Non-client rendering policy `DWMNCRP_DISABLED`.
pub const DWMNCRP_DISABLED: u32 = 1;
/// Size in bytes of a `DWMNCRENDERINGPOLICY`.
pub const NC_RENDERING_POLICY_SIZE: u32 = 4;
/// `RedrawWindow` flag `RDW_UPDATENOW`.
pub const RDW_UPDATENOW: u32 = 0x0100;

/// A call that the hook makes for `WM_NCACTIVATE`.
#[derive(Clone, Copy, Debug, PartialEq, Eq, Structural)]
pub enum NcActivateCall {
    /// `DwmSetWindowAttribute(hwnd, attribute, value as pointer, size)`: the
    /// value itself, not its address, is passed as the pointer argument.
    SetWindowAttribute { hwnd: usize, attribute: u32, value: u32, size: u32 },
    /// `RedrawWindow(hwnd, null, null, flags)`.
    RedrawWindow { hwnd: usize, flags: u32 },
}

/// The calls of the `WM_NCACTIVATE` branch, in order: turn off the system's
/// non-client rendering of the window, then redraw it at once.
pub open spec fn disable_nc_rendering_spec(hwnd: usize) -> Seq<NcActivateCall> {
    seq![
        NcActivateCall::SetWindowAttribute {
            hwnd,
            attribute: DWMWA_NCRENDERING_POLICY,
            value: DWMNCRP_DISABLED,
            size: NC_RENDERING_POLICY_SIZE,
        },
        NcActivateCall::RedrawWindow { hwnd, flags: RDW_UPDATENOW },
    ]
}

/// Both `WM_NCACTIVATE` calls go to the window that received the message: the
/// first sets its attribute 2 (`DWMWA_NCRENDERING_POLICY`) to 1
/// (`DWMNCRP_DISABLED`, 4 bytes), the second redraws it with flag 0x100
/// (`RDW_UPDATENOW`); windows that differ get calls that differ.
pub proof fn lemma_nc_activate_targets_the_window(hwnd: usize, other: usize)
    ensures
        disable_nc_rendering_spec(hwnd).len() == 2,
        disable_nc_rendering_spec(hwnd)[0] is SetWindowAttribute,
        disable_nc_rendering_spec(hwnd)[0]->SetWindowAttribute_hwnd == hwnd,
        disable_nc_rendering_spec(hwnd)[0]->SetWindowAttribute_attribute == 2,
        disable_nc_rendering_spec(hwnd)[0]->SetWindowAttribute_value == 1,
        disable_nc_rendering_spec(hwnd)[0]->SetWindowAttribute_size == 4,
        disable_nc_rendering_spec(hwnd)[1] is RedrawWindow,
        disable_nc_rendering_spec(hwnd)[1]->RedrawWindow_hwnd == hwnd,
        disable_nc_rendering_spec(hwnd)[1]->RedrawWindow_flags == 0x0100,
        hwnd != other ==> disable_nc_rendering_spec(hwnd)[0] != disable_nc_rendering_spec(other)[0]
            && disable_nc_rendering_spec(hwnd)[1] != disable_nc_rendering_spec(other)[1],
{
}

/// The calls that the hook makes, in order, when window `hwnd` receives
/// `WM_NCACTIVATE`; the hook then answers `hook_answer(DisableNcRendering)`,
/// that is 0, without handing the message on.
pub fn disable_nc_rendering(hwnd: usize) -> (calls: Vec<NcActivateCall>)
    ensures
        calls@ == disable_nc_rendering_spec(hwnd),
        calls@.len() == 2,
        calls@[0] == (NcActivateCall::SetWindowAttribute { hwnd, attribute: 2, value: 1, size: 4 }),
        calls@[1] == (NcActivateCall::RedrawWindow { hwnd, flags: 0x0100 }),
{
    let mut calls: Vec<NcActivateCall> = Vec::new();
    calls.push(
        NcActivateCall::SetWindowAttribute {
            hwnd,
            attribute: DWMWA_NCRENDERING_POLICY,
            value: DWMNCRP_DISABLED,
            size: NC_RENDERING_POLICY_SIZE,
        },
    );
    calls.push(NcActivateCall::RedrawWindow { hwnd, flags: RDW_UPDATENOW });
    assert(calls@ =~= disable_nc_rendering_spec(hwnd));
    calls
}

/// Where the border painter stands: which call it waits on, and what it
/// holds. Handles are the raw values of Windows handles; 0 is the null handle.
#[derive(Clone, Copy, Debug, PartialEq, Eq, Structural)]
pub enum PaintState {
    /// Waits for the window's rectangle.
    AwaitWindowRect { hwnd: usize, wparam: usize },
    /// Waits for a region covering the window rectangle.
    AwaitRectRegion { hwnd: usize, rect: Rect },
    /// Waits for an empty region to copy the update region into.
    AwaitEmptyRegion { hwnd: usize, rect: Rect },
    /// Waits for the update region read from the message.
    AwaitUpdateRegion { hwnd: usize, rect: Rect, copy: usize },
    /// Waits for the outcome of copying the update region.
    AwaitCombine { hwnd: usize, rect: Rect, copy: usize },
    /// Waits while the failed copy is deleted.
    AwaitCopyDeleted { hwnd: usize, rect: Rect },
    /// Waits for a device context of the window, clipped to `region`.
    AwaitDc { hwnd: usize, rect: Rect, region: usize },
    /// Waits while a region that no device context took is deleted.
    AwaitRegionDeleted { hwnd: usize, rect: Rect, dc: usize },
    /// Waits for the border pen.
    AwaitPen { hwnd: usize, rect: Rect, dc: usize },
    /// Waits for the object that selecting the pen replaced.
    AwaitSelectPen { hwnd: usize, rect: Rect, dc: usize, pen: usize },
    /// Waits while the border rectangle is drawn.
    AwaitDraw { hwnd: usize, dc: usize, pen: usize, old: usize },
    /// Waits while the replaced object is selected back.
    AwaitRestore { hwnd: usize, dc: usize, pen: usize },
    /// Waits while the device context is released.
    AwaitRelease { pen: usize },
    /// Waits while the pen is deleted.
    AwaitPenDeleted,
    /// The painting is over.
    Done,
}

/// The answer of the call that the painter asked for.
#[derive(Clone, Copy, Debug, PartialEq, Eq, Structural)]
pub enum PaintEvent {
    /// A rectangle (from `GetWindowRect`).
    WindowRect(Rect),
    /// A handle (from a call that creates or selects an object).
    Handle(usize),
    /// A status (from `CombineRgn`).
    Status(i32),
    /// A call whose answer the painter does not use has returned.
    Completed,
}

/// A call that the painter asks for.
#[derive(Clone, Copy, Debug, PartialEq, Eq, Structural)]
pub enum PaintAction {
    /// `GetWindowRect(hwnd)`.
    GetWindowRect { hwnd: usize },
    /// `CreateRectRgn(rect.left, rect.top, rect.right, rect.bottom)`.
    CreateRectRegion { rect: Rect },
    /// Read the region handle that the message's `lParam` points at.
    ReadUpdateRegion,
    /// `CombineRgn(dest, source, null, RGN_COPY)`.
    CopyRegion { dest: usize, source: usize },
    /// `DeleteObject(object)`.
    DeleteObject { object: usize },
    /// `GetDCEx(hwnd, region, flags)`.
    GetDcEx { hwnd: usize, region: usize, flags: u32 },
    /// `CreatePen(style, width, color)`.
    CreatePen { style: i32, width: i32, color: u32 },
    /// `SelectObject(dc, object)`.
    SelectObject { dc: usize, object: usize },
    /// `Rectangle(dc, rect.left, rect.top, rect.right, rect.bottom)`.
    DrawRectangle { dc: usize, rect: Rect },
    /// `ReleaseDC(hwnd, dc)`.
    ReleaseDc { hwnd: usize, dc: usize },
    /// Return `result` from the hook.
    Return { result: isize },
}

/// The first call of the painter, for a `WM_NCPAINT` or `WM_ERASEBKGND`
/// message to window `hwnd` with the given `wParam`.
pub open spec fn paint_start_spec(hwnd: usize, wparam: usize) -> (PaintState, PaintAction) {
    (PaintState::AwaitWindowRect { hwnd, wparam }, PaintAction::GetWindowRect { hwnd })
}

/// Starts painting the border of a window.
pub fn start_paint(hwnd: usize, wparam: usize) -> (out: (PaintState, PaintAction))
    ensures
        out == paint_start_spec(hwnd, wparam),
        out.0 == (PaintState::AwaitWindowRect { hwnd, wparam }),
        out.1 == (PaintAction::GetWindowRect { hwnd }),
{
    (PaintState::AwaitWindowRect { hwnd, wparam }, PaintAction::GetWindowRect { hwnd })
}

/// The rectangle that the border is drawn on: the window's extent, placed at
/// the origin of the window's device context.
pub open spec fn frame_of(rect: Rect) -> Rect {
    Rect { left: 0, top: 0, right: rect.spec_width() as i32, bottom: rect.spec_height() as i32 }
}

/// The pen the border is drawn with: an inside-frame red pen as thick as the
/// border.
pub open spec fn border_pen_action() -> PaintAction {
    PaintAction::CreatePen {
        style: PS_INSIDEFRAME,
        width: BORDER_THICKNESS,
        color: rgb_spec(255, 0, 0),
    }
}

/// Whether `event` is the kind of answer that `state` waits for (any answer
/// does where the painter does not use it), and the window rectangle's extent
/// fits where the painter computes it.
pub open spec fn accepts_spec(state: PaintState, event: PaintEvent) -> bool {
    match state {
        PaintState::AwaitWindowRect { .. } => event is WindowRect,
        PaintState::AwaitRectRegion { .. } => event is Handle,
        PaintState::AwaitEmptyRegion { .. } => event is Handle,
        PaintState::AwaitUpdateRegion { .. } => event is Handle,
        PaintState::AwaitCombine { .. } => event is Status,
        PaintState::AwaitDc { .. } => event is Handle,
        PaintState::AwaitPen { .. } => event is Handle,
        PaintState::AwaitSelectPen { rect, .. } => event is Handle && rect.extent_fits(),
        PaintState::Done => false,
        _ => true,
    }
}

/// The next state of the painter and the call it asks for next.
pub open spec fn paint_next(state: PaintState, event: PaintEvent) -> (PaintState, PaintAction) {
    match state {
        PaintState::AwaitWindowRect { hwnd, wparam } => {
            let rect = event->WindowRect_0;
            if wparam as i32 == NULLREGION {
                (PaintState::AwaitRectRegion { hwnd, rect }, PaintAction::CreateRectRegion { rect })
            } else {
                (
                    PaintState::AwaitEmptyRegion { hwnd, rect },
                    PaintAction::CreateRectRegion { rect: Rect { left: 0, top: 0, right: 0, bottom: 0 } },
                )
            }
        },
        PaintState::AwaitRectRegion { hwnd, rect } => {
            let region = event->Handle_0;
            (
                PaintState::AwaitDc { hwnd, rect, region },
                PaintAction::GetDcEx { hwnd, region, flags: BORDER_DC_FLAGS },
            )
        },
        PaintState::AwaitEmptyRegion { hwnd, rect } => {
            let copy = event->Handle_0;
            (PaintState::AwaitUpdateRegion { hwnd, rect, copy }, PaintAction::ReadUpdateRegion)
        },
        PaintState::AwaitUpdateRegion { hwnd, rect, copy } => {
            let source = event->Handle_0;
            (PaintState::AwaitCombine { hwnd, rect, copy }, PaintAction::CopyRegion { dest: copy, source })
        },
        PaintState::AwaitCombine { hwnd, rect, copy } => {
            if event->Status_0 == 0 {
                (PaintState::AwaitCopyDeleted { hwnd, rect }, PaintAction::DeleteObject { object: copy })
            } else {
                (
                    PaintState::AwaitDc { hwnd, rect, region: copy },
                    PaintAction::GetDcEx { hwnd, region: copy, flags: BORDER_DC_FLAGS },
                )
            }
        },
        PaintState::AwaitCopyDeleted { hwnd, rect } => (
            PaintState::AwaitDc { hwnd, rect, region: 0 },
            PaintAction::GetDcEx { hwnd, region: 0, flags: BORDER_DC_FLAGS },
        ),
        PaintState::AwaitDc { hwnd, rect, region } => {
            let dc = event->Handle_0;
            if dc == 0 && region != 0 {
                (PaintState::AwaitRegionDeleted { hwnd, rect, dc }, PaintAction::DeleteObject { object: region })
            } else {
                (PaintState::AwaitPen { hwnd, rect, dc }, border_pen_action())
            }
        },
        PaintState::AwaitRegionDeleted { hwnd, rect, dc } => (
            PaintState::AwaitPen { hwnd, rect, dc },
            border_pen_action(),
        ),
        PaintState::AwaitPen { hwnd, rect, dc } => {
            let pen = event->Handle_0;
            (PaintState::AwaitSelectPen { hwnd, rect, dc, pen }, PaintAction::SelectObject { dc, object: pen })
        },
        PaintState::AwaitSelectPen { hwnd, rect, dc, pen } => {
            let old = event->Handle_0;
            (PaintState::AwaitDraw { hwnd, dc, pen, old }, PaintAction::DrawRectangle { dc, rect: frame_of(rect) })
        },
        PaintState::AwaitDraw { hwnd, dc, pen, old } => (
            PaintState::AwaitRestore { hwnd, dc, pen },
            PaintAction::SelectObject { dc, object: old },
        ),
        PaintState::AwaitRestore { hwnd, dc, pen } => (
            PaintState::AwaitRelease { pen },
            PaintAction::ReleaseDc { hwnd, dc },
        ),
        PaintState::AwaitRelease { pen } => (
            PaintState::AwaitPenDeleted,
            PaintAction::DeleteObject { object: pen },
        ),
        PaintState::AwaitPenDeleted => (PaintState::Done, PaintAction::Return { result: 0 }),
        PaintState::Done => (PaintState::Done, PaintAction::Return { result: 0 }),
    }
}

/// Tells whether `paint_step` takes `event` in `state`.
pub fn accepts(state: &PaintState, event: &PaintEvent) -> (b: bool)
    ensures
        b == accepts_spec(*state, *event),
{
    match state {
        PaintState::AwaitWindowRect { .. } => matches!(event, PaintEvent::WindowRect(_)),
        PaintState::AwaitRectRegion { .. } => matches!(event, PaintEvent::Handle(_)),
        PaintState::AwaitEmptyRegion { .. } => matches!(event, PaintEvent::Handle(_)),
        PaintState::AwaitUpdateRegion { .. } => matches!(event, PaintEvent::Handle(_)),
        PaintState::AwaitCombine { .. } => matches!(event, PaintEvent::Status(_)),
        PaintState::AwaitDc { .. } => matches!(event, PaintEvent::Handle(_)),
        PaintState::AwaitPen { .. } => matches!(event, PaintEvent::Handle(_)),
        PaintState::AwaitSelectPen { rect, .. } => matches!(event, PaintEvent::Handle(_))
            && rect.extent_is_representable(),
        PaintState::Done => false,
        _ => true,
    }
}

/// One step of the border painter: given the answer to the call it asked
/// for, its next state and the next call.
pub fn paint_step(state: PaintState, event: PaintEvent) -> (out: (PaintState, PaintAction))
    requires
        accepts_spec(state, event),
    ensures
        out == paint_next(state, event),
{
    match state {
        PaintState::AwaitWindowRect { hwnd, wparam } => {
            let rect = match event {
                PaintEvent::WindowRect(r) => r,
                _ => Rect { left: 0, top: 0, right: 0, bottom: 0 },
            };
            if wparam as i32 == NULLREGION {
                (PaintState::AwaitRectRegion { hwnd, rect }, PaintAction::CreateRectRegion { rect })
            } else {
                (
                    PaintState::AwaitEmptyRegion { hwnd, rect },
                    PaintAction::CreateRectRegion { rect: Rect { left: 0, top: 0, right: 0, bottom: 0 } },
                )
            }
        },
        PaintState::AwaitRectRegion { hwnd, rect } => {
            let region = handle_of(event);
            (
                PaintState::AwaitDc { hwnd, rect, region },
                PaintAction::GetDcEx { hwnd, region, flags: BORDER_DC_FLAGS },
            )
        },
        PaintState::AwaitEmptyRegion { hwnd, rect } => {
            let copy = handle_of(event);
            (PaintState::AwaitUpdateRegion { hwnd, rect, copy }, PaintAction::ReadUpdateRegion)
        },
        PaintState::AwaitUpdateRegion { hwnd, rect, copy } => {
            let source = handle_of(event);
            (PaintState::AwaitCombine { hwnd, rect, copy }, PaintAction::CopyRegion { dest: copy, source })
        },
        PaintState::AwaitCombine { hwnd, rect, copy } => {
            let status: i32 = match event {
                PaintEvent::Status(s) => s,
                _ => 0,
            };
            if status == 0 {
                (PaintState::AwaitCopyDeleted { hwnd, rect }, PaintAction::DeleteObject { object: copy })
            } else {
                (
                    PaintState::AwaitDc { hwnd, rect, region: copy },
                    PaintAction::GetDcEx { hwnd, region: copy, flags: BORDER_DC_FLAGS },
                )
            }
        },
        PaintState::AwaitCopyDeleted { hwnd, rect } => (
            PaintState::AwaitDc { hwnd, rect, region: 0 },
            PaintAction::GetDcEx { hwnd, region: 0, flags: BORDER_DC_FLAGS },
        ),
        PaintState::AwaitDc { hwnd, rect, region } => {
            let dc = handle_of(event);
            if dc == 0 && region != 0 {
                (PaintState::AwaitRegionDeleted { hwnd, rect, dc }, PaintAction::DeleteObject { object: region })
            } else {
                (PaintState::AwaitPen { hwnd, rect, dc }, border_pen())
            }
        },
        PaintState::AwaitRegionDeleted { hwnd, rect, dc } => (
            PaintState::AwaitPen { hwnd, rect, dc },
            border_pen(),
        ),
        PaintState::AwaitPen { hwnd, rect, dc } => {
            let pen = handle_of(event);
            (PaintState::AwaitSelectPen { hwnd, rect, dc, pen }, PaintAction::SelectObject { dc, object: pen })
        },
        PaintState::AwaitSelectPen { hwnd, rect, dc, pen } => {
            let old = handle_of(event);
            let frame = Rect { left: 0, top: 0, right: rect.width(), bottom: rect.height() };
            (PaintState::AwaitDraw { hwnd, dc, pen, old }, PaintAction::DrawRectangle { dc, rect: frame })
        },
        PaintState::AwaitDraw { hwnd, dc, pen, old } => (
            PaintState::AwaitRestore { hwnd, dc, pen },
            PaintAction::SelectObject { dc, object: old },
        ),
        PaintState::AwaitRestore { hwnd, dc, pen } => (
            PaintState::AwaitRelease { pen },
            PaintAction::ReleaseDc { hwnd, dc },
        ),
        PaintState::AwaitRelease { pen } => (
            PaintState::AwaitPenDeleted,
            PaintAction::DeleteObject { object: pen },
        ),
        PaintState::AwaitPenDeleted => (PaintState::Done, PaintAction::Return { result: 0 }),
        PaintState::Done => (PaintState::Done, PaintAction::Return { result: 0 }),
    }
}

/// How many calls the painter may still ask for from a state: every step
/// lowers it, so the painter is done after at most 13 steps.
pub open spec fn paint_rank(state: PaintState) -> nat {
    match state {
        PaintState::AwaitWindowRect { .. } => 13,
        PaintState::AwaitEmptyRegion { .. } => 12,
        PaintState::AwaitUpdateRegion { .. } => 11,
        PaintState::AwaitCombine { .. } => 10,
        PaintState::AwaitCopyDeleted { .. } => 9,
        PaintState::AwaitRectRegion { .. } => 9,
        PaintState::AwaitDc { .. } => 8,
        PaintState::AwaitRegionDeleted { .. } => 7,
        PaintState::AwaitPen { .. } => 6,
        PaintState::AwaitSelectPen { .. } => 5,
        PaintState::AwaitDraw { .. } => 4,
        PaintState::AwaitRestore { .. } => 3,
        PaintState::AwaitRelease { .. } => 2,
        PaintState::AwaitPenDeleted => 1,
        PaintState::Done => 0,
    }
}

/// Every step of the border painter brings it closer to the end: painting a
/// border always finishes, after a bounded number of calls.
pub proof fn lemma_paint_progress(state: PaintState, event: PaintEvent)
    requires
        accepts_spec(state, event),
    ensures
        paint_rank(paint_next(state, event).0) < paint_rank(state),
        paint_rank(state) <= 13,
        paint_next(state, event).0 == PaintState::Done ==> paint_next(state, event).1
            == (PaintAction::Return { result: 0 }),
{
}

/// A handle as an object to be freed: none for the null handle.
pub open spec fn live(h: usize) -> Multiset<usize> {
    if h == 0 {
        Multiset::empty()
    } else {
        Multiset::singleton(h)
    }
}

/// The objects that the painter has created or obtained and must still free
/// (regions, the device context, the pen) in a state.
pub open spec fn held(state: PaintState) -> Multiset<usize> {
    match state {
        PaintState::AwaitUpdateRegion { copy, .. } => live(copy),
        PaintState::AwaitCombine { copy, .. } => live(copy),
        PaintState::AwaitDc { region, .. } => live(region),
        PaintState::AwaitRegionDeleted { dc, .. } => live(dc),
        PaintState::AwaitPen { dc, .. } => live(dc),
        PaintState::AwaitSelectPen { dc, pen, .. } => live(dc).add(live(pen)),
        PaintState::AwaitDraw { dc, pen, .. } => live(dc).add(live(pen)),
        PaintState::AwaitRestore { dc, pen, .. } => live(dc).add(live(pen)),
        PaintState::AwaitRelease { pen } => live(pen),
        _ => Multiset::empty(),
    }
}

/// The object that the answer `event` hands to the painter in `state`: the
/// region, device context or pen that the call created.
pub open spec fn acquired(state: PaintState, event: PaintEvent) -> Multiset<usize> {
    match state {
        PaintState::AwaitRectRegion { .. } => live(event->Handle_0),
        PaintState::AwaitEmptyRegion { .. } => live(event->Handle_0),
        PaintState::AwaitDc { .. } => live(event->Handle_0),
        PaintState::AwaitPen { .. } => live(event->Handle_0),
        _ => Multiset::empty(),
    }
}

/// The region that passes to the system when `GetDCEx` returns a device
/// context for it (`DCX_INTERSECTRGN`).
pub open spec fn taken_by_dc(state: PaintState, event: PaintEvent) -> Multiset<usize> {
    match state {
        PaintState::AwaitDc { region, .. } => if event->Handle_0 != 0 {
            live(region)
        } else {
            Multiset::empty()
        },
        _ => Multiset::empty(),
    }
}

/// The object that a call frees.
pub open spec fn freed(action: PaintAction) -> Multiset<usize> {
    match action {
        PaintAction::DeleteObject { object } => live(object),
        PaintAction::ReleaseDc { dc, .. } => live(dc),
        _ => Multiset::empty(),
    }
}

/// The border painter neither leaks nor frees twice: it starts and ends
/// holding nothing, and at every step what it held plus what the answer gave
/// it is exactly what it holds next, plus what the next call frees, plus the
/// region the system took over.
pub proof fn lemma_paint_resources(hwnd: usize, wparam: usize, state: PaintState, event: PaintEvent)
    requires
        accepts_spec(state, event),
    ensures
        held(paint_start_spec(hwnd, wparam).0) =~= Multiset::empty(),
        held(PaintState::Done) =~= Multiset::empty(),
        held(state).add(acquired(state, event)) =~= held(paint_next(state, event).0).add(
            freed(paint_next(state, event).1),
        ).add(taken_by_dc(state, event)),
{
    let next = paint_next(state, event);
    assert(held(state).add(acquired(state, event)) =~= held(next.0).add(freed(next.1)).add(
        taken_by_dc(state, event),
    ));
}

/// Whether the painter, from `state`, takes each of `events` in turn.
pub open spec fn run_accepts(state: PaintState, events: Seq<PaintEvent>) -> bool
    decreases events.len(),
{
    events.len() == 0 || (accepts_spec(state, events[0]) && run_accepts(
        paint_next(state, events[0]).0,
        events.drop_first(),
    ))
}

/// The painter's state after it has taken `events` from `state`.
pub open spec fn run_state(state: PaintState, events: Seq<PaintEvent>) -> PaintState
    decreases events.len(),
{
    if events.len() == 0 {
        state
    } else {
        run_state(paint_next(state, events[0]).0, events.drop_first())
    }
}

/// The objects that `events` hand to the painter on its way from `state`.
pub open spec fn run_acquired(state: PaintState, events: Seq<PaintEvent>) -> Multiset<usize>
    decreases events.len(),
{
    if events.len() == 0 {
        Multiset::empty()
    } else {
        acquired(state, events[0]).add(
            run_acquired(paint_next(state, events[0]).0, events.drop_first()),
        )
    }
}

/// The objects that the calls asked for on the way from `state` free.
pub open spec fn run_freed(state: PaintState, events: Seq<PaintEvent>) -> Multiset<usize>
    decreases events.len(),
{
    if events.len() == 0 {
        Multiset::empty()
    } else {
        freed(paint_next(state, events[0]).1).add(
            run_freed(paint_next(state, events[0]).0, events.drop_first()),
        )
    }
}

/// The regions that the system takes over on the way from `state`.
pub open spec fn run_taken(state: PaintState, events: Seq<PaintEvent>) -> Multiset<usize>
    decreases events.len(),
{
    if events.len() == 0 {
        Multiset::empty()
    } else {
        taken_by_dc(state, events[0]).add(
            run_taken(paint_next(state, events[0]).0, events.drop_first()),
        )
    }
}

/// Over any run of the painter, what it held at the start and was given on
/// the way is what it holds at the end, plus what it freed, plus what the
/// system took over. A whole painting, from `start_paint` to `Done`, frees or
/// hands over every object it was given, each exactly once.
pub proof fn lemma_paint_run_resources(state: PaintState, events: Seq<PaintEvent>)
    requires
        run_accepts(state, events),
    ensures
        held(state).add(run_acquired(state, events)) =~= held(run_state(state, events)).add(
            run_freed(state, events),
        ).add(run_taken(state, events)),
        ((state is AwaitWindowRect) && run_state(state, events) == PaintState::Done) ==> (
        run_acquired(state, events) =~= run_freed(state, events).add(run_taken(state, events))),
    decreases events.len(),
{
    if events.len() > 0 {
        let e = events[0];
        let next = paint_next(state, e);
        let rest = events.drop_first();
        lemma_paint_resources(0, 0, state, e);
        lemma_paint_run_resources(next.0, rest);
        assert(run_acquired(state, events) == acquired(state, e).add(run_acquired(next.0, rest)));
        assert(run_freed(state, events) == freed(next.1).add(run_freed(next.0, rest)));
        assert(run_taken(state, events) == taken_by_dc(state, e).add(run_taken(next.0, rest)));
        assert(run_state(state, events) == run_state(next.0, rest));
        let before = held(state).add(acquired(state, e));
        let after = held(next.0).add(freed(next.1)).add(taken_by_dc(state, e));
        let inner_before = held(next.0).add(run_acquired(next.0, rest));
        let inner_after = held(run_state(next.0, rest)).add(run_freed(next.0, rest)).add(
            run_taken(next.0, rest),
        );
        assert forall|h: usize|
            #[trigger] held(state).add(run_acquired(state, events)).count(h) == held(
                run_state(state, events),
            ).add(run_freed(state, events)).add(run_taken(state, events)).count(h) by {
            assert(before.count(h) == after.count(h));
            assert(inner_before.count(h) == inner_after.count(h));
        }
    }
}

/// The painter takes at most as many answers as its rank: a whole painting
/// asks for at most 13 calls before it returns.
pub proof fn lemma_paint_run_length(state: PaintState, events: Seq<PaintEvent>)
    requires
        run_accepts(state, events),
    ensures
        events.len() <= paint_rank(state),
        events.len() <= 13,
    decreases events.len(),
{
    if events.len() > 0 {
        lemma_paint_progress(state, events[0]);
        lemma_paint_run_length(paint_next(state, events[0]).0, events.drop_first());
    }
}

/// The calls that the painter asks for as it takes `events` from `state`,
/// one per event.
pub open spec fn run_actions(state: PaintState, events: Seq<PaintEvent>) -> Seq<PaintAction>
    decreases events.len(),
{
    if events.len() == 0 {
        seq![]
    } else {
        seq![paint_next(state, events[0]).1] + run_actions(
            paint_next(state, events[0]).0,
            events.drop_first(),
        )
    }
}

/// The window rectangle that a state of the painter holds, between the answer
/// of `GetWindowRect` and the drawing.
pub open spec fn held_rect(state: PaintState) -> Option<Rect> {
    match state {
        PaintState::AwaitRectRegion { rect, .. } => Some(rect),
        PaintState::AwaitEmptyRegion { rect, .. } => Some(rect),
        PaintState::AwaitUpdateRegion { rect, .. } => Some(rect),
        PaintState::AwaitCombine { rect, .. } => Some(rect),
        PaintState::AwaitCopyDeleted { rect, .. } => Some(rect),
        PaintState::AwaitDc { rect, .. } => Some(rect),
        PaintState::AwaitRegionDeleted { rect, .. } => Some(rect),
        PaintState::AwaitPen { rect, .. } => Some(rect),
        PaintState::AwaitSelectPen { rect, .. } => Some(rect),
        _ => None,
    }
}

/// The states after the border has been drawn.
pub open spec fn past_drawing(state: PaintState) -> bool {
    ||| state is AwaitDraw
    ||| state is AwaitRestore
    ||| state is AwaitRelease
    ||| state is AwaitPenDeleted
    ||| state is Done
}

/// The rectangle drawn for a window rectangle `r`: `(0, 0)` to
/// `(r.right - r.left, r.bottom - r.top)`.
pub open spec fn drawn_frame(r: Rect) -> Rect {
    Rect { left: 0, top: 0, right: (r.right - r.left) as i32, bottom: (r.bottom - r.top) as i32 }
}

proof fn lemma_runs_draw_frame(state: PaintState, events: Seq<PaintEvent>, r: Rect)
    requires
        run_accepts(state, events),
        held_rect(state) == Some(r) || past_drawing(state),
    ensures
        forall|k: int|
            0 <= k < run_actions(state, events).len() && (#[trigger] run_actions(state, events)[k]) is DrawRectangle
                ==> run_actions(state, events)[k]->DrawRectangle_rect == drawn_frame(r),
    decreases events.len(),
{
    if events.len() > 0 {
        let next = paint_next(state, events[0]);
        let rest = events.drop_first();
        assert(held_rect(next.0) == Some(r) || past_drawing(next.0));
        assert(next.1 is DrawRectangle ==> next.1->DrawRectangle_rect == drawn_frame(r));
        lemma_runs_draw_frame(next.0, rest, r);
        let all = run_actions(state, events);
        assert(all == seq![next.1] + run_actions(next.0, rest));
        assert forall|k: int|
            0 <= k < all.len() && (#[trigger] all[k]) is DrawRectangle implies all[k]->DrawRectangle_rect
                == drawn_frame(r) by {
            if k > 0 {
                assert(all[k] == run_actions(next.0, rest)[k - 1]);
            }
        }
    }
}

/// Whichever way the region is found (the whole window, or a copy of the
/// update region, copied or not), the border is drawn on the window's whole
/// extent: every rectangle that a painting draws runs from `(0, 0)` to the
/// width and height of the rectangle that `GetWindowRect` answered.
pub proof fn lemma_border_frames_window(hwnd: usize, wparam: usize, r: Rect, events: Seq<PaintEvent>)
    requires
        run_accepts(
            PaintState::AwaitWindowRect { hwnd, wparam },
            seq![PaintEvent::WindowRect(r)] + events,
        ),
    ensures
        forall|k: int|
            0 <= k < run_actions(
                PaintState::AwaitWindowRect { hwnd, wparam },
                seq![PaintEvent::WindowRect(r)] + events,
            ).len() && (#[trigger] run_actions(
                PaintState::AwaitWindowRect { hwnd, wparam },
                seq![PaintEvent::WindowRect(r)] + events,
            )[k]) is DrawRectangle ==> run_actions(
                PaintState::AwaitWindowRect { hwnd, wparam },
                seq![PaintEvent::WindowRect(r)] + events,
            )[k]->DrawRectangle_rect == (Rect {
                left: 0,
                top: 0,
                right: (r.right - r.left) as i32,
                bottom: (r.bottom - r.top) as i32,
            }),
{
    let start = PaintState::AwaitWindowRect { hwnd, wparam };
    let all_events = seq![PaintEvent::WindowRect(r)] + events;
    assert(all_events[0] == PaintEvent::WindowRect(r));
    assert(all_events.drop_first() =~= events);
    let next = paint_next(start, all_events[0]);
    assert(held_rect(next.0) == Some(r));
    lemma_runs_draw_frame(next.0, events, r);
    let all = run_actions(start, all_events);
    assert(all == seq![next.1] + run_actions(next.0, events));
    assert forall|k: int|
        0 <= k < all.len() && (#[trigger] all[k]) is DrawRectangle implies all[k]->DrawRectangle_rect
            == drawn_frame(r) by {
        if k > 0 {
            assert(all[k] == run_actions(next.0, events)[k - 1]);
        }
    }
}

/// The window that a state of the painter paints, up to the release of the
/// device context.
pub open spec fn held_hwnd(state: PaintState) -> Option<usize> {
    match state {
        PaintState::AwaitWindowRect { hwnd, .. } => Some(hwnd),
        PaintState::AwaitRectRegion { hwnd, .. } => Some(hwnd),
        PaintState::AwaitEmptyRegion { hwnd, .. } => Some(hwnd),
        PaintState::AwaitUpdateRegion { hwnd, .. } => Some(hwnd),
        PaintState::AwaitCombine { hwnd, .. } => Some(hwnd),
        PaintState::AwaitCopyDeleted { hwnd, .. } => Some(hwnd),
        PaintState::AwaitDc { hwnd, .. } => Some(hwnd),
        PaintState::AwaitRegionDeleted { hwnd, .. } => Some(hwnd),
        PaintState::AwaitPen { hwnd, .. } => Some(hwnd),
        PaintState::AwaitSelectPen { hwnd, .. } => Some(hwnd),
        PaintState::AwaitDraw { hwnd, .. } => Some(hwnd),
        PaintState::AwaitRestore { hwnd, .. } => Some(hwnd),
        _ => None,
    }
}

/// The window that a call names, if it names one.
pub open spec fn named_window(action: PaintAction) -> Option<usize> {
    match action {
        PaintAction::GetWindowRect { hwnd } => Some(hwnd),
        PaintAction::GetDcEx { hwnd, .. } => Some(hwnd),
        PaintAction::ReleaseDc { hwnd, .. } => Some(hwnd),
        _ => None,
    }
}

/// The device context that a call works on, if it works on one.
pub open spec fn named_dc(action: PaintAction) -> Option<usize> {
    match action {
        PaintAction::SelectObject { dc, .. } => Some(dc),
        PaintAction::DrawRectangle { dc, .. } => Some(dc),
        PaintAction::ReleaseDc { dc, .. } => Some(dc),
        _ => None,
    }
}

/// The device context that a state of the painter holds, from the answer of
/// `GetDCEx` to its release.
pub open spec fn held_dc(state: PaintState) -> Option<usize> {
    match state {
        PaintState::AwaitRegionDeleted { dc, .. } => Some(dc),
        PaintState::AwaitPen { dc, .. } => Some(dc),
        PaintState::AwaitSelectPen { dc, .. } => Some(dc),
        PaintState::AwaitDraw { dc, .. } => Some(dc),
        PaintState::AwaitRestore { dc, .. } => Some(dc),
        _ => None,
    }
}

/// One step of the painter keeps its window and its device context, and
/// uses them in every call: a call that names a window names the painted
/// one; the device context that `GetDCEx` answers is the one that every later
/// call draws on and that is released; the pen selected is the one
/// `CreatePen` answered, and the object selected back is the one that
/// selecting the pen replaced.
pub proof fn lemma_paint_step_handles(state: PaintState, event: PaintEvent)
    requires
        accepts_spec(state, event),
    ensures
        held_hwnd(paint_next(state, event).0) is Some ==> held_hwnd(paint_next(state, event).0)
            == held_hwnd(state),
        named_window(paint_next(state, event).1) is Some ==> named_window(
            paint_next(state, event).1,
        ) == held_hwnd(state),
        state is AwaitDc ==> held_dc(paint_next(state, event).0) == Some(event->Handle_0),
        !(state is AwaitDc) && held_dc(paint_next(state, event).0) is Some ==> held_dc(
            paint_next(state, event).0,
        ) == held_dc(state),
        named_dc(paint_next(state, event).1) is Some ==> named_dc(paint_next(state, event).1)
            == held_dc(state),
        state is AwaitPen ==> paint_next(state, event).1->SelectObject_object == event->Handle_0,
        state is AwaitSelectPen ==> paint_next(state, event).0->AwaitDraw_old == event->Handle_0,
        state is AwaitDraw ==> paint_next(state, event).1 == (PaintAction::SelectObject {
            dc: state->AwaitDraw_dc,
            object: state->AwaitDraw_old,
        }),
        state is AwaitRelease ==> paint_next(state, event).1 == (PaintAction::DeleteObject {
            object: state->AwaitRelease_pen,
        }),
{
}

proof fn lemma_runs_name_window(state: PaintState, events: Seq<PaintEvent>, hwnd: usize)
    requires
        run_accepts(state, events),
        held_hwnd(state) == Some(hwnd) || held_hwnd(state) is None,
        held_hwnd(state) is None ==> (state is AwaitRelease || state is AwaitPenDeleted
            || state is Done),
    ensures
        forall|k: int|
            0 <= k < run_actions(state, events).len() && (#[trigger] named_window(
                run_actions(state, events)[k],
            )) is Some ==> named_window(run_actions(state, events)[k]) == Some(hwnd),
    decreases events.len(),
{
    if events.len() > 0 {
        let next = paint_next(state, events[0]);
        let rest = events.drop_first();
        lemma_paint_step_handles(state, events[0]);
        lemma_runs_name_window(next.0, rest, hwnd);
        let all = run_actions(state, events);
        assert(all == seq![next.1] + run_actions(next.0, rest));
        assert forall|k: int|
            0 <= k < all.len() && (#[trigger] named_window(all[k])) is Some implies named_window(
                all[k],
            ) == Some(hwnd) by {
            if k > 0 {
                assert(all[k] == run_actions(next.0, rest)[k - 1]);
            }
        }
    }
}

/// Every call of a painting that names a window names the window being
/// painted: `GetWindowRect`, `GetDCEx` and `ReleaseDC` all go to `hwnd`.
pub proof fn lemma_paint_names_its_window(hwnd: usize, wparam: usize, events: Seq<PaintEvent>)
    requires
        run_accepts(PaintState::AwaitWindowRect { hwnd, wparam }, events),
    ensures
        paint_start_spec(hwnd, wparam).1 == (PaintAction::GetWindowRect { hwnd }),
        forall|k: int|
            0 <= k < run_actions(PaintState::AwaitWindowRect { hwnd, wparam }, events).len()
                && (#[trigger] named_window(
                run_actions(PaintState::AwaitWindowRect { hwnd, wparam }, events)[k],
            )) is Some ==> named_window(
                run_actions(PaintState::AwaitWindowRect { hwnd, wparam }, events)[k],
            ) == Some(hwnd),
{
    lemma_runs_name_window(PaintState::AwaitWindowRect { hwnd, wparam }, events, hwnd);
}

/// The handle an event carries, 0 for another event.
fn handle_of(event: PaintEvent) -> (h: usize)
    ensures
        event is Handle ==> h == event->Handle_0,
{
    match event {
        PaintEvent::Handle(h) => h,
        _ => 0,
    }
}

/// The call that creates the border pen.
fn border_pen() -> (a: PaintAction)
    ensures
        a == border_pen_action(),
{
    PaintAction::CreatePen { style: PS_INSIDEFRAME, width: BORDER_THICKNESS, color: rgb(255, 0, 0) }
}

} // verus!
