use winoleum::border::{
    disable_nc_rendering, hook_answer, NcActivateCall, DWMNCRP_DISABLED,
    DWMWA_NCRENDERING_POLICY, NC_RENDERING_POLICY_SIZE, RDW_UPDATENOW,
};
use winoleum::border::{
    accepts, classify_message, is_hook_action, paint_step, rgb, start_paint, HookBranch,
    PaintAction, PaintEvent, PaintState, BORDER_DC_FLAGS, HC_ACTION, PS_INSIDEFRAME,
    WM_ERASEBKGND, WM_NCACTIVATE, WM_NCCALCSIZE, WM_NCPAINT,
};
use winoleum::geometry::{can_reserve_border, reserve_border, Rect, BORDER_THICKNESS};
use winoleum::messages::{
    hotkey_event, keep_pumping, shell_action, HotkeyEvent, ShellAction, HOTKEY_GO, WM_DESTROY,
    WM_HOTKEY,
};
use winoleum::text::{create_tooltip, to_wstring, window_title, TOOLTIP_LEN};
use winoleum::tiling::{
    can_place_box, defer_count, foreground_placement, needs_restore, new_window_placement,
    place_in_work_area, view_size, LayoutBox, Placement,
};
use winoleum::tray::{get_nid_struct, NIF_ICON, NIF_MESSAGE, NIF_TIP, TRAY_ICON_ID, WM_USER};
use winoleum::windows::{
    probe_answers, probe_step, start_probe, CallbackState, ProbeAnswer, ProbeState, TRUE,
};

fn rect(left: i32, top: i32, right: i32, bottom: i32) -> Rect {
    Rect { left, top, right, bottom }
}

#[test]
fn reserve_border_moves_each_side_inwards() {
    let mut r = rect(10, 20, 110, 220);
    assert!(can_reserve_border(&r));
    reserve_border(&mut r);
    assert_eq!(r, rect(14, 24, 106, 216));
    assert_eq!(r.width(), 100 - 2 * BORDER_THICKNESS);
    assert_eq!(r.height(), 200 - 2 * BORDER_THICKNESS);
}

#[test]
fn reserve_border_refuses_overflowing_sides() {
    assert!(!can_reserve_border(&rect(i32::MAX, 0, 0, 0)));
    assert!(!can_reserve_border(&rect(0, 0, i32::MIN + 3, 0)));
    assert!(can_reserve_border(&rect(i32::MAX - 4, 0, i32::MIN + 4, 0)));
}

#[test]
fn rect_extent() {
    let r = rect(-5, 3, 15, 13);
    assert!(r.extent_is_representable());
    assert_eq!(r.width(), 20);
    assert_eq!(r.height(), 10);
    assert!(!rect(i32::MIN, 0, i32::MAX, 0).extent_is_representable());
}

#[test]
fn wide_string_of_ascii_is_nul_terminated() {
    assert_eq!(to_wstring("winoleum"), vec![119, 105, 110, 111, 108, 101, 117, 109, 0]);
    assert_eq!(to_wstring(""), vec![0]);
}

#[test]
fn wide_string_matches_utf16() {
    for s in ["SHELLHOOK", "é€", "a😀b", "\u{FFFF}\u{10000}\u{10FFFF}"] {
        let mut expected: Vec<u16> = s.encode_utf16().collect();
        expected.push(0);
        assert_eq!(to_wstring(s), expected);
    }
    assert_eq!(to_wstring("😀"), vec![0xD83D, 0xDE00, 0]);
}

#[test]
fn wide_string_decodes_back() {
    for s in ["", "winoleum", "a\u{0}b", "é€😀", "\u{D7FF}\u{E000}\u{10FFFF}"] {
        let w = to_wstring(s);
        assert_eq!(w[w.len() - 1], 0);
        assert_eq!(String::from_utf16(&w[..w.len() - 1]).unwrap(), s);
    }
}

#[test]
fn tooltip_is_padded_with_zeros() {
    let tip = create_tooltip("Winoleum");
    assert_eq!(tip.len(), TOOLTIP_LEN);
    assert_eq!(&tip[..9], &[87, 105, 110, 111, 108, 101, 117, 109, 0]);
    assert!(tip[9..].iter().all(|u| *u == 0));
    let long: String = std::iter::repeat('x').take(127).collect();
    let full = create_tooltip(&long);
    assert!(full[..127].iter().all(|u| *u == 'x' as u16));
    assert_eq!(full[127], 0);
}

#[test]
fn window_title_takes_the_copied_bytes() {
    let mut buffer = vec![0u8; 256];
    buffer[..5].copy_from_slice(b"Notes");
    buffer[5] = b'!';
    assert_eq!(window_title(&buffer, 5), "Notes");
    assert_eq!(window_title(&buffer, 0), "");
}

#[test]
fn window_title_replaces_invalid_utf8() {
    let buffer = [b'a', 0xFF, b'b', 0xC3, 0xA9];
    assert_eq!(window_title(&buffer, 5), "a\u{FFFD}bé");
    assert_eq!(window_title(&buffer, 4), "a\u{FFFD}b\u{FFFD}");
}

#[test]
fn hook_acts_only_on_hc_action() {
    assert!(is_hook_action(HC_ACTION));
    assert!(!is_hook_action(1));
    assert!(!is_hook_action(-1));
}

#[test]
fn hook_branches() {
    assert_eq!(classify_message(WM_NCCALCSIZE), HookBranch::ReserveBorder);
    assert_eq!(classify_message(WM_NCACTIVATE), HookBranch::DisableNcRendering);
    assert_eq!(classify_message(WM_NCPAINT), HookBranch::PaintBorder);
    assert_eq!(classify_message(WM_ERASEBKGND), HookBranch::PaintBorder);
    assert_eq!(classify_message(0x000F), HookBranch::PassOn);
    assert_eq!(classify_message(0), HookBranch::PassOn);
}

#[test]
fn hook_answers_zero_for_what_it_handles() {
    assert_eq!(hook_answer(HookBranch::ReserveBorder), Some(0));
    assert_eq!(hook_answer(HookBranch::DisableNcRendering), Some(0));
    assert_eq!(hook_answer(HookBranch::PaintBorder), Some(0));
    assert_eq!(hook_answer(HookBranch::PassOn), None);
}

#[test]
fn nc_activate_turns_off_nc_rendering_then_redraws() {
    assert_eq!(
        disable_nc_rendering(0x1234),
        vec![
            NcActivateCall::SetWindowAttribute { hwnd: 0x1234, attribute: 2, value: 1, size: 4 },
            NcActivateCall::RedrawWindow { hwnd: 0x1234, flags: 0x0100 },
        ]
    );
    assert_eq!((DWMWA_NCRENDERING_POLICY, DWMNCRP_DISABLED, NC_RENDERING_POLICY_SIZE, RDW_UPDATENOW), (2, 1, 4, 0x100));
}

#[test]
fn rgb_packs_red_lowest() {
    assert_eq!(rgb(255, 0, 0), 0x0000FF);
    assert_eq!(rgb(1, 2, 3), 0x030201);
    assert_eq!(rgb(255, 255, 255), 0xFFFFFF);
}

/// Drives the painter with answers from `answer`, recording the calls and
/// checking that no object is leaked or freed twice.
fn run_painter(
    hwnd: usize,
    wparam: usize,
    mut answer: impl FnMut(&PaintAction) -> PaintEvent,
) -> (Vec<PaintAction>, isize) {
    let (mut state, mut action) = start_paint(hwnd, wparam);
    let mut calls = vec![action];
    let mut held: Vec<usize> = vec![];
    for _ in 0..13 {
        if let PaintAction::Return { result } = action {
            assert!(held.is_empty(), "objects leaked: {:?}", held);
            assert_eq!(state, PaintState::Done);
            return (calls, result);
        }
        let event = answer(&action);
        match (action, event) {
            (PaintAction::CreateRectRegion { .. }, PaintEvent::Handle(h))
            | (PaintAction::CreatePen { .. }, PaintEvent::Handle(h)) => {
                if h != 0 {
                    held.push(h)
                }
            }
            (PaintAction::GetDcEx { region, .. }, PaintEvent::Handle(dc)) => {
                if dc != 0 {
                    held.push(dc);
                    held.retain(|x| *x != region);
                }
            }
            _ => {}
        }
        assert!(accepts(&state, &event));
        let (s, a) = paint_step(state, event);
        if let PaintAction::DeleteObject { object } | PaintAction::ReleaseDc { dc: object, .. } = a {
            if object != 0 {
                let at = held.iter().position(|x| *x == object).expect("freed twice");
                held.remove(at);
            }
        }
        state = s;
        action = a;
        calls.push(action);
    }
    panic!("the painter did not finish in 13 steps");
}

fn window() -> Rect {
    rect(100, 50, 500, 350)
}

#[test]
fn paint_whole_window() {
    let (calls, result) = run_painter(7, 1, |a| match a {
        PaintAction::GetWindowRect { .. } => PaintEvent::WindowRect(window()),
        PaintAction::CreateRectRegion { .. } => PaintEvent::Handle(11),
        PaintAction::GetDcEx { .. } => PaintEvent::Handle(12),
        PaintAction::CreatePen { .. } => PaintEvent::Handle(13),
        PaintAction::SelectObject { .. } => PaintEvent::Handle(14),
        _ => PaintEvent::Completed,
    });
    assert_eq!(result, 0);
    let frame = rect(0, 0, 400, 300);
    assert_eq!(
        calls,
        vec![
            PaintAction::GetWindowRect { hwnd: 7 },
            PaintAction::CreateRectRegion { rect: window() },
            PaintAction::GetDcEx { hwnd: 7, region: 11, flags: BORDER_DC_FLAGS },
            PaintAction::CreatePen { style: PS_INSIDEFRAME, width: 4, color: 0xFF },
            PaintAction::SelectObject { dc: 12, object: 13 },
            PaintAction::DrawRectangle { dc: 12, rect: frame },
            PaintAction::SelectObject { dc: 12, object: 14 },
            PaintAction::ReleaseDc { hwnd: 7, dc: 12 },
            PaintAction::DeleteObject { object: 13 },
            PaintAction::Return { result: 0 },
        ]
    );
}

#[test]
fn paint_copies_the_update_region() {
    let (calls, _) = run_painter(7, 0x55, |a| match a {
        PaintAction::GetWindowRect { .. } => PaintEvent::WindowRect(window()),
        PaintAction::CreateRectRegion { .. } => PaintEvent::Handle(21),
        PaintAction::ReadUpdateRegion => PaintEvent::Handle(99),
        PaintAction::CopyRegion { .. } => PaintEvent::Status(2),
        PaintAction::GetDcEx { .. } => PaintEvent::Handle(22),
        PaintAction::CreatePen { .. } => PaintEvent::Handle(23),
        PaintAction::SelectObject { .. } => PaintEvent::Handle(24),
        _ => PaintEvent::Completed,
    });
    assert_eq!(calls[1], PaintAction::CreateRectRegion { rect: rect(0, 0, 0, 0) });
    assert_eq!(calls[2], PaintAction::ReadUpdateRegion);
    assert_eq!(calls[3], PaintAction::CopyRegion { dest: 21, source: 99 });
    assert_eq!(calls[4], PaintAction::GetDcEx { hwnd: 7, region: 21, flags: BORDER_DC_FLAGS });
    assert_eq!(calls.len(), 12);
}

#[test]
fn paint_deletes_a_failed_copy() {
    let (calls, _) = run_painter(7, 3, |a| match a {
        PaintAction::GetWindowRect { .. } => PaintEvent::WindowRect(window()),
        PaintAction::CreateRectRegion { .. } => PaintEvent::Handle(31),
        PaintAction::ReadUpdateRegion => PaintEvent::Handle(98),
        PaintAction::CopyRegion { .. } => PaintEvent::Status(0),
        PaintAction::GetDcEx { .. } => PaintEvent::Handle(32),
        PaintAction::CreatePen { .. } => PaintEvent::Handle(33),
        PaintAction::SelectObject { .. } => PaintEvent::Handle(34),
        _ => PaintEvent::Completed,
    });
    assert_eq!(calls[4], PaintAction::DeleteObject { object: 31 });
    assert_eq!(calls[5], PaintAction::GetDcEx { hwnd: 7, region: 0, flags: BORDER_DC_FLAGS });
}

#[test]
fn paint_deletes_a_region_no_dc_took() {
    let (calls, _) = run_painter(7, 1, |a| match a {
        PaintAction::GetWindowRect { .. } => PaintEvent::WindowRect(window()),
        PaintAction::CreateRectRegion { .. } => PaintEvent::Handle(41),
        PaintAction::GetDcEx { .. } => PaintEvent::Handle(0),
        PaintAction::CreatePen { .. } => PaintEvent::Handle(43),
        PaintAction::SelectObject { .. } => PaintEvent::Handle(0),
        _ => PaintEvent::Completed,
    });
    assert_eq!(calls[3], PaintAction::DeleteObject { object: 41 });
    assert_eq!(calls[4], PaintAction::CreatePen { style: PS_INSIDEFRAME, width: 4, color: 0xFF });
    assert_eq!(calls[8], PaintAction::ReleaseDc { hwnd: 7, dc: 0 });
    assert_eq!(calls[9], PaintAction::DeleteObject { object: 43 });
}

#[test]
fn painter_reads_wparam_as_c_int() {
    let (state, _) = start_paint(1, (1usize << 32) + 1);
    let (next, action) = paint_step(state, PaintEvent::WindowRect(window()));
    if usize::BITS == 64 {
        assert_eq!(action, PaintAction::CreateRectRegion { rect: window() });
        assert!(matches!(next, PaintState::AwaitRectRegion { .. }));
    }
}

#[test]
fn painter_refuses_the_wrong_answer() {
    let (state, _) = start_paint(1, 1);
    assert!(!accepts(&state, &PaintEvent::Handle(3)));
    assert!(!accepts(&PaintState::Done, &PaintEvent::Completed));
    let wide = PaintState::AwaitSelectPen { hwnd: 1, rect: rect(i32::MIN, 0, i32::MAX, 0), dc: 1, pen: 2 };
    assert!(!accepts(&wide, &PaintEvent::Handle(3)));
}

fn probe(hwnd: usize, visible: i32, title: &str, cloaked: i32, ex_style: i32) -> (ProbeState, usize) {
    let mut state = start_probe(hwnd);
    let mut asked = 0;
    loop {
        let answer = match state {
            ProbeState::AwaitVisible { .. } => ProbeAnswer::Visible(visible),
            ProbeState::AwaitTitle { .. } => ProbeAnswer::Title(title.to_string()),
            ProbeState::AwaitCloaked { .. } => ProbeAnswer::Cloaked(cloaked),
            ProbeState::AwaitExStyle { .. } => ProbeAnswer::ExStyle(ex_style),
            _ => return (state, asked),
        };
        assert!(probe_answers(&state, &answer));
        asked += 1;
        state = probe_step(state, answer);
    }
}

#[test]
fn probe_accepts_a_plain_window() {
    let (state, asked) = probe(5, 1, "Editor", 0, 0x0100);
    assert_eq!(asked, 4);
    match state {
        ProbeState::Accepted { hwnd, title } => {
            assert_eq!(hwnd, 5);
            assert_eq!(title, "Editor");
        }
        other => panic!("unexpected {:?}", other),
    }
}

#[test]
fn probe_skips_at_the_first_failed_query() {
    assert!(matches!(probe(5, 0, "Editor", 0, 0), (ProbeState::Skipped, 1)));
    assert!(matches!(probe(5, 1, "", 0, 0), (ProbeState::Skipped, 2)));
    assert!(matches!(probe(5, 1, "Editor", 2, 0), (ProbeState::Skipped, 3)));
    assert!(matches!(probe(5, 1, "Editor", 0, 0x0080), (ProbeState::Skipped, 4)));
    assert!(matches!(probe(5, 1, "Editor", 0, 0x0180), (ProbeState::Skipped, 4)));
    assert!(!probe_answers(&start_probe(5), &ProbeAnswer::Cloaked(0)));
}

#[test]
fn store_window_keeps_accepted_windows_in_order() {
    let mut cbs = CallbackState::new();
    assert_eq!(cbs.len(), 0);
    assert_eq!(cbs.store_window(probe(1, 1, "One", 0, 0).0), TRUE);
    assert_eq!(cbs.store_window(probe(2, 0, "Two", 0, 0).0), TRUE);
    assert_eq!(cbs.store_window(probe(3, 1, "Three", 0, 0).0), TRUE);
    assert_eq!(cbs.len(), 2);
    let got: Vec<(usize, String)> = cbs.windows().iter().map(|w| (w.hwnd, w.title.clone())).collect();
    assert_eq!(got, vec![(1, "One".to_string()), (3, "Three".to_string())]);
}

#[test]
fn view_size_of_work_area() {
    assert_eq!(view_size(&rect(0, 0, 1920, 1040)), (1920, 1040));
    assert_eq!(view_size(&rect(-1920, 10, 0, 1090)), (1920, 1080));
}

#[test]
fn layout_boxes_move_into_the_work_area() {
    let area = rect(100, 40, 1380, 1000);
    let b = LayoutBox { x: 640, y: 0, width: 640, height: 960 };
    assert!(can_place_box(&area, &b));
    assert_eq!(place_in_work_area(&area, &b), Placement { x: 740, y: 40, width: 640, height: 960 });
    assert!(!can_place_box(&rect(i32::MAX, 0, 0, 0), &b));
}

#[test]
fn zoomed_windows_are_restored() {
    assert!(needs_restore(1));
    assert!(!needs_restore(0));
    assert!(!needs_restore(-1));
}

#[test]
fn defer_count_is_a_c_int() {
    assert_eq!(defer_count(3), 3);
    assert_eq!(defer_count(0), 0);
}

#[test]
fn fixed_placements() {
    assert_eq!(new_window_placement(), Placement { x: 200, y: 200, width: 400, height: 400 });
    assert_eq!(foreground_placement(), Placement { x: 200, y: 200, width: 200, height: 200 });
}

#[test]
fn shell_messages() {
    assert_eq!(shell_action(WM_DESTROY, 1, 77), ShellAction::Quit);
    assert_eq!(
        shell_action(0xC123, 1, 77),
        ShellAction::PlaceCreated { window: 77, placement: new_window_placement() }
    );
    assert_eq!(shell_action(0xC123, 2, 78), ShellAction::ReportDestroyed { window: 78 });
    assert_eq!(shell_action(0xC123, 6, 78), ShellAction::Nothing);
    if usize::BITS == 64 {
        assert_eq!(shell_action(0xC123, (1usize << 32) + 2, 9), ShellAction::ReportDestroyed { window: 9 });
    }
}

#[test]
fn hotkey_messages() {
    assert_eq!(hotkey_event(WM_HOTKEY, HOTKEY_GO), HotkeyEvent::Go);
    assert_eq!(hotkey_event(WM_HOTKEY, 2), HotkeyEvent::UnknownHotkey);
    assert_eq!(hotkey_event(0x0100, HOTKEY_GO), HotkeyEvent::Other);
}

#[test]
fn message_loop_stops_on_quit_or_error() {
    assert!(keep_pumping(1));
    assert!(!keep_pumping(0));
    assert!(!keep_pumping(-1));
}

#[test]
fn tray_icon_data() {
    let n = get_nid_struct(42);
    assert_eq!(n.hwnd, 42);
    assert_eq!(n.id, TRAY_ICON_ID);
    assert_eq!(n.flags, NIF_MESSAGE | NIF_ICON | NIF_TIP);
    assert_eq!(n.callback_message, WM_USER + 1);
    assert_eq!(n.tip, create_tooltip("Winoleum"));
}
