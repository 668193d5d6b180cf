use warmup_companion::controller_center::{
    apply, buttons, check, current_tick, item_visible, items, layout, live_place, rail_place,
    range_lparam, refresh_live, show, slider, slider_text, tab_view, tabs, text_color,
    tick_frequency, wndproc, CenterCommand, CenterSettings, CenterShow, CenterUi, CenterWndAction,
    Edit, Kind, LiveState, Staged, TabView, CLIENT_H, TEXT_DARK, TEXT_GREY, WM_CLOSE, WM_COMMAND,
    WM_CTLCOLORSTATIC, WM_HSCROLL,
};
use warmup_companion::debug_overlay::{
    panel_lines, poll_debug_shortcut, take_vk_toggle_request, DebugOverlayController,
    DebugShortcuts, DebugStep, DebugVisibility, HOLD_LOOKS,
};
use warmup_companion::desktop;
use warmup_companion::desktop::{
    apply_guard, attach_error, input_desktop_name, name_len, AttachStep, DesktopGuard,
};
use warmup_companion::desktop_window::{
    post_error, route, spawn, DesktopWindowThread, Post, PumpAction, WM_APP_HIDE, WM_APP_QUIT,
    WM_APP_REPAINT, WM_APP_SHOW, WM_DESTROY, WM_LBUTTONDOWN, WM_TIMER, WM_WINDOWPOSCHANGING,
};
use warmup_companion::keys::{KeyAction, KeyCell, VkStyle, VK_BACK, VK_RETURN, VK_SPACE};
use warmup_companion::logon_focus::{
    control_type_label, dump_length, dump_line, find_password_element, focus_password_field,
    focused_is_password_field, is_active, may_focus, request_dump, set_active, status_text,
    take_dump_request, ElementFacts, FocusStatus, LogonAction, LogonFocus, CT_EDIT,
};
use warmup_companion::monitor::ScreenRect;
use warmup_companion::native_keyboard::{
    ensure_search_service_running, service_registry_subkey, stop_search_service, window_is_logonui,
};
use warmup_companion::prompt_overlay::{OverlayUi, PromptVisual, PromptWndAction};
use warmup_companion::toast::{file_uri, screenshot_toast, xml_escape};
use warmup_companion::vk_renderer::style_palette;
use warmup_companion::vk_ui::{
    attach_from_lparam, attach_lparam, docked_rect, floating_rect, is_dark_theme, key_glyph,
    key_hint, mouse_point, reserve_app_space, restore_app_space, themed_style,
    try_attach_for_window, vk_palette, vk_wndproc,
    wait_until_visible, KeyboardTheme, Placement, Reserved, ShowNext, TimerAction, VkAttach, VkUi,
    VkUiThread, WndAction,
};
use warmup_companion::win_stub;
use warmup_companion::xbox_vk::VkSession;

#[test]
fn slider_positions_round_trip_through_settings_scale() {
    // 0.15 dead zone at two decimals -> pos 15 -> "0.15"; 2.0 accel at one -> pos 20 -> "2.0".
    let dz = slider(1, "", "cursor_deadzone", 0, 90, 2);
    let Kind::Slider { decimals, .. } = dz.kind else {
        unreachable!()
    };
    let pos = (0.15f32 * 100.0).round() as u32;
    assert_eq!(pos, 15);
    assert_eq!(slider_text(pos, decimals), "0.15");
    let ac = slider(1, "", "cursor_accel", 10, 50, 1);
    let Kind::Slider { decimals, .. } = ac.kind else {
        unreachable!()
    };
    assert_eq!(slider_text(20, decimals), "2.0");
}

#[test]
fn every_item_sits_on_a_rail_tab() {
    assert!(items().iter().all(|i| i.tab < tabs().len()));
}

#[test]
fn slider_texts_are_those_of_the_divided_position() {
    for (decimals, div) in [(0usize, 1.0f32), (1, 10.0), (2, 100.0)] {
        for pos in 0..=100u32 {
            assert_eq!(
                slider_text(pos, decimals as u32),
                format!("{:.*}", decimals, pos as f32 / div)
            );
        }
    }
    assert_eq!(slider_text(12, 3), "0.012");
    assert_eq!(slider_text(u32::MAX, 4), "429496.7295");
}

#[test]
fn applying_writes_only_what_changed() {
    let items = items();
    let same = Staged {
        checked: false,
        pos: 15,
    };
    let current = vec![same; items.len()];
    let mut staged = current.clone();
    assert!(apply(&items, &staged, &current).is_empty());
    staged[0].checked = true;
    staged[3].checked = true;
    staged[6].pos = 20;
    staged[11].checked = true;
    // A slider's box and a box's position say nothing.
    staged[4].checked = true;
    staged[12].pos = 99;
    let edits = apply(&items, &staged, &current);
    assert_eq!(edits.len(), 4);
    assert!(matches!(&edits[0], Edit::Setting { key: "cursor_enabled", value } if value == "true"));
    assert!(matches!(edits[1], Edit::Pause(true)));
    assert!(matches!(&edits[2], Edit::Setting { key: "cursor_deadzone", value } if value == "0.20"));
    assert!(matches!(&edits[3], Edit::Setting { key: "vk_mode", value } if value == "floating"));
    let off = vec![
        Staged {
            checked: true,
            pos: 15
        };
        items.len()
    ];
    let edits = apply(&items, &current, &off);
    assert!(matches!(edits.last(), Some(Edit::Setting { key: "vk_bar_scale", value }) if value == "1.0"));
}

#[test]
fn dialog_is_laid_out_tab_by_tab() {
    let items = items();
    let l = layout(&items);
    assert_eq!(l.items.len(), 13);
    assert_eq!((l.items[0].control.y, l.items[1].control.y), (50, 90));
    assert_eq!(l.items[4].title.map(|t| t.y), Some(50));
    assert_eq!((l.items[4].control.x, l.items[4].control.y), (38, 72));
    assert_eq!(l.items[4].value.map(|v| (v.x, v.y)), Some((448, 77)));
    assert_eq!(l.items[5].title.map(|t| t.y), Some(116));
    assert_eq!(l.items[11].control.y, 50);
    assert_eq!(l.items[12].id, 212);
    assert_eq!(l.edit.y, 220);
    assert!(l.items.iter().all(|i| i.control.y + i.control.h <= CLIENT_H));
    assert_eq!(rail_place(2).0.y, 182);
    assert_eq!(rail_place(2).1.y, 184);
    assert_eq!(live_place().h, 140);
    assert_eq!(buttons().map(|b| b.place.y), [540, 576, 619]);
    assert_eq!(range_lparam(10, 50), 10 | (50 << 16));
    assert_eq!((tick_frequency(1, 40), tick_frequency(0, 5)), (3, 1));
}

#[test]
fn dialog_shows_settings_and_tabs() {
    let s = CenterSettings {
        cursor_enabled: true,
        sleep_on_game: false,
        auto_stop_on_game: false,
        natural_scroll: false,
        floating: true,
        compact: false,
        paused: true,
    };
    let items = items();
    let ticks: Vec<bool> = items.iter().map(|i| current_tick(i, &s)).collect();
    assert!(ticks[0] && !ticks[1] && ticks[3] && ticks[11] && !ticks[12]);
    assert!(!current_tick(&check(0, "", "unknown"), &s));
    assert!(item_visible(&items[4], 1) && !item_visible(&items[4], 0));
    assert_eq!(
        tab_view(3),
        TabView {
            edit: false,
            live: true
        }
    );
    assert_eq!(text_color(Some(1), 1), TEXT_DARK);
    assert_eq!(text_color(Some(1), 2), TEXT_GREY);
    assert_eq!(text_color(None, 2), 0);
    let live = LiveState {
        connected: true,
        name: String::new(),
        input: "A".to_string(),
        detail: "d".to_string(),
    };
    assert_eq!(refresh_live(0, &live), None);
    assert_eq!(
        refresh_live(3, &live).unwrap(),
        "Connected: controller\r\n\r\nLive input: A\r\n\r\nd"
    );
    let none = LiveState {
        connected: false,
        ..live
    };
    assert!(refresh_live(3, &none)
        .unwrap()
        .starts_with("No controller connected."));
}

#[test]
fn dialog_answers_messages() {
    let cmd = |id: u64| wndproc(WM_COMMAND, id | (7 << 16));
    assert_eq!(cmd(1), CenterWndAction::Command(CenterCommand::ApplyAndClose));
    assert_eq!(cmd(2), CenterWndAction::Command(CenterCommand::Close));
    assert_eq!(cmd(3), CenterWndAction::Command(CenterCommand::Apply));
    assert_eq!(cmd(4), CenterWndAction::Command(CenterCommand::EditFile));
    assert_eq!(cmd(103), CenterWndAction::Command(CenterCommand::SelectTab(3)));
    assert_eq!(cmd(104), CenterWndAction::Command(CenterCommand::Nothing));
    assert_eq!(wndproc(WM_CTLCOLORSTATIC, 0), CenterWndAction::Color);
    assert_eq!(wndproc(WM_HSCROLL, 0), CenterWndAction::Scrolled);
    assert_eq!(wndproc(WM_TIMER, 31), CenterWndAction::RefreshLive);
    assert_eq!(wndproc(WM_TIMER, 30), CenterWndAction::Default);
    assert_eq!(wndproc(WM_CLOSE, 0), CenterWndAction::Close);
    assert_eq!(wndproc(WM_DESTROY, 0), CenterWndAction::Destroyed);
    let mut ui = CenterUi::new();
    assert_eq!(
        ui.ui_show(),
        CenterShow::Create {
            init_controls: true
        }
    );
    ui.created(9);
    ui.select_tab(2);
    assert_eq!(ui.ui_show(), CenterShow::Raise(9));
    assert_eq!(ui.ui_hide(), Some(9));
    assert_eq!(
        ui.ui_show(),
        CenterShow::Create {
            init_controls: false
        }
    );
    assert_eq!(show(false, true), (true, true));
    assert_eq!(show(false, false), (true, false));
    assert_eq!(show(true, false), (false, true));
}

#[test]
fn window_threads_route_their_messages() {
    assert_eq!(route(WM_APP_SHOW), PumpAction::Show);
    assert_eq!(route(WM_APP_HIDE), PumpAction::Hide);
    assert_eq!(route(WM_APP_QUIT), PumpAction::Quit);
    assert_eq!(route(WM_APP_REPAINT), PumpAction::Repaint);
    assert_eq!(route(WM_TIMER), PumpAction::Dispatch);
    assert_eq!(
        spawn("t", Ok(()), Some(Ok(5))),
        Ok(DesktopWindowThread { thread_id: 5 })
    );
    assert_eq!(
        spawn("t", Ok(()), Some(Err("bad".to_string()))),
        Err("bad".to_string())
    );
    assert_eq!(
        spawn("t", Ok(()), None),
        Err("t exited before ready".to_string())
    );
    assert_eq!(
        spawn("t", Err("no".to_string()), None),
        Err("t: no".to_string())
    );
    assert_eq!(post_error(1024, "no"), "PostThreadMessageW(1024): no");
    let t = DesktopWindowThread { thread_id: 5 };
    assert_eq!(
        t.quit(),
        Post {
            thread_id: 5,
            message: WM_APP_QUIT,
            lparam: 0
        }
    );
}

#[test]
fn desktops_are_attached_by_known_names_only() {
    assert_eq!(desktop::attach_named("winlogon"), Ok(()));
    assert_eq!(desktop::attach_named("default"), Ok(()));
    assert_eq!(
        desktop::attach_named("Default"),
        Err("unknown desktop: Default".to_string())
    );
    assert_eq!(name_len(0), 0);
    assert_eq!(name_len(18), 8);
    assert_eq!(name_len(4000), 255);
    assert_eq!(
        attach_error(AttachStep::OpenNamed, "winlogon", "no"),
        "OpenDesktopW(winlogon): no"
    );
    assert_eq!(attach_error(AttachStep::SetStation, "", "no"), "SetProcessWindowStation: no");
    assert_eq!(attach_error(AttachStep::SetDesktop, "", "no"), "SetThreadDesktop: no");
    assert_eq!(
        input_desktop_name(Err("x".to_string()), Ok(None)),
        Err("OpenWindowStationW: x".to_string())
    );
    assert_eq!(
        input_desktop_name(Ok(()), Err("x".to_string())),
        Err("OpenInputDesktop: x".to_string())
    );
    assert_eq!(input_desktop_name(Ok(()), Ok(None)), Ok("?".to_string()));
    let mut active = None;
    let a = DesktopGuard {
        station: 1,
        desktop: 2,
    };
    let b = DesktopGuard {
        station: 3,
        desktop: 4,
    };
    assert_eq!(apply_guard(&mut active, a), None);
    assert_eq!(apply_guard(&mut active, b), Some(a));
    assert_eq!(active, Some(b));
}

#[test]
fn other_systems_have_no_keyboard() {
    let missing = "real desktop attach requires Windows".to_string();
    assert_eq!(win_stub::attach_named("default"), Err(missing.clone()));
    assert_eq!(win_stub::attach_input(), Err(missing));
    assert_eq!(win_stub::current_desktop_name(), None);
    assert_eq!(
        win_stub::VkSession::open(win_stub::VkAttach::Input).unwrap_err(),
        "real on-screen keyboard requires Windows"
    );
    assert_eq!(win_stub::VkSession.describe(), "n/a");
    win_stub::VkSession.close();
}

fn cell(action: KeyAction, label: &str) -> KeyCell {
    KeyCell {
        action,
        label: label.to_string(),
        sublabel: None,
    }
}

#[test]
fn keys_carry_their_text_and_their_button() {
    assert_eq!(key_glyph(&cell(KeyAction::Char('a'), "a")), ("a".to_string(), false));
    assert_eq!(key_glyph(&cell(KeyAction::Vk(VK_SPACE), "x")), (String::new(), false));
    assert_eq!(key_glyph(&cell(KeyAction::VoiceInput, "x")), (String::new(), false));
    assert_eq!(
        key_glyph(&cell(KeyAction::CloseVk, "x")),
        ("\u{2325}".to_string(), true)
    );
    assert_eq!(key_hint(&cell(KeyAction::Vk(VK_BACK), "")), Some("B"));
    assert_eq!(key_hint(&cell(KeyAction::Vk(VK_RETURN), "")), Some("START"));
    assert_eq!(key_hint(&cell(KeyAction::Vk(VK_SPACE), "")), Some("Y"));
    assert_eq!(key_hint(&cell(KeyAction::Shift, "")), Some("RT"));
    assert_eq!(key_hint(&cell(KeyAction::Symbols, "")), Some("LT"));
    assert_eq!(key_hint(&cell(KeyAction::CapsLock, "")), None);
    assert_eq!(key_hint(&cell(KeyAction::VoiceInput, "")), Some("R3"));
    assert_eq!(key_hint(&cell(KeyAction::CloseVk, "")), Some("L3"));
    assert_eq!(key_hint(&cell(KeyAction::Paste, "")), None);
    let mut theme = KeyboardTheme {
        bg: None,
        key: None,
        accent: None,
        text: None,
        sel_text: None,
        border: None,
    };
    assert_eq!(vk_palette(true, &theme).accent, 0x997b4c);
    theme.accent = Some(7);
    assert_eq!(vk_palette(true, &theme).accent, 7);
    assert_eq!(vk_palette(false, &theme).bg, 0xf3f3f3);
    assert!(is_dark_theme(None) && is_dark_theme(Some(0)) && !is_dark_theme(Some(1)));
    let look = style_palette(VkStyle::Refined, true);
    let themed = themed_style(look, &theme);
    assert_eq!((themed.accent, themed.bg, themed.sel_ring), (7, look.bg, look.sel_ring));
    assert_ne!(look.accent, 7);
}

#[test]
fn keyboard_window_is_shown_and_hidden() {
    let mut u = VkUi::new();
    assert_eq!(u.request_repaint(), None);
    u.on_ready(3);
    let start = u.ui_show(VkAttach::Input);
    assert_eq!((start.suppress_ms, start.destroy), (Some(10_000), None));
    assert_eq!(u.window_created(Some(50)), ShowNext::CreateRenderer(50));
    assert_eq!(u.renderer_created(50, true), ShowNext::Place(50));
    let rect = ScreenRect {
        left: 0,
        top: 0,
        right: 800,
        bottom: 1080,
    };
    let saved = Some(Reserved { app: 4, rect });
    u.placed(saved, true);
    assert!(u.is_vk_visible());
    assert_eq!(u.on_desktop_switch().map(|p| (p.message, p.lparam)), Some((WM_APP_SHOW, 1)));
    assert_eq!(u.on_foreground().map(|p| p.message), Some(WM_APP_REPAINT));
    assert_eq!(u.tick_dpad_hold(true).1, u.request_repaint());
    assert_eq!(u.tick_dpad_hold(false), (false, None));
    assert_eq!(u.render_target(), Some(50));
    let step = u.ui_hide().unwrap();
    assert_eq!((step.window, step.restore), (50, saved));
    assert_eq!(u.ui_hide(), None);
    assert_eq!(u.on_desktop_switch(), None);
    // Without a renderer the window goes again.
    let _ = u.ui_show(VkAttach::Current);
    let _ = u.window_created(Some(51));
    assert_eq!(u.renderer_created(51, false), ShowNext::Destroy(51));
    assert_eq!(u.window_created(None), ShowNext::GiveUp);
    assert!(!u.is_vk_visible());
}

#[test]
fn windows_make_room_and_get_it_back() {
    let rect = ScreenRect {
        left: 10,
        top: 20,
        right: 810,
        bottom: 1080,
    };
    let (saved, place) = reserve_app_space(4, "Notepad", Some(rect), 700).unwrap();
    assert_eq!(
        place,
        Placement {
            x: 10,
            y: 20,
            width: 800,
            height: 680
        }
    );
    assert_eq!(restore_app_space(Some(saved)).unwrap().1.height, 1060);
    assert_eq!(reserve_app_space(4, "Notepad", Some(rect), 50).unwrap().1.height, 120);
    assert!(reserve_app_space(0, "Notepad", Some(rect), 700).is_none());
    assert!(reserve_app_space(4, "Progman", Some(rect), 700).is_none());
    assert!(reserve_app_space(4, "LogonUI Logon Window", Some(rect), 700).is_none());
    assert!(reserve_app_space(4, "Notepad", Some(rect), 1080).is_none());
    assert!(reserve_app_space(4, "Notepad", None, 700).is_none());
    assert_eq!(restore_app_space(None), None);
}

#[test]
fn docked_keyboard_lies_along_the_bottom() {
    for (h, expected) in [(1080, 384), (1440, 512), (768, 273), (300, 160), (160, 160)] {
        let p = docked_rect(ScreenRect {
            left: -5,
            top: 0,
            right: 1915,
            bottom: h,
        });
        assert_eq!(p.height, expected);
        assert_eq!(
            p.height,
            ((h as f32 * 384.0 / 1080.0).round() as i64).clamp(160, h as i64)
        );
        assert_eq!((p.x, p.y as i64, p.width), (-5, h as i64 - expected, 1920));
    }
}

#[test]
fn floating_card_sits_above_the_bottom_edge() {
    let m = ScreenRect {
        left: 100,
        top: 0,
        right: 2020,
        bottom: 1080,
    };
    let p = floating_rect(m, 1401, 400);
    assert_eq!((p.x, p.y, p.width, p.height), (359, 664, 1401, 400));
    // Too large a card is cut to the monitor, too low a one is raised.
    let p = floating_rect(m, 5000, 5000);
    assert_eq!((p.x, p.y, p.width, p.height), (100, -16, 1920, 1080));
    let p = floating_rect(m, 0, 0);
    assert_eq!((p.x, p.y, p.width, p.height), (1060, 904, 0, 160));
    for h in 160..5000 {
        let p = floating_rect(ScreenRect { bottom: h, ..m }, 100, 160);
        let margin = ((h as f32 * 0.015).round() as i32).clamp(10, 48);
        assert_eq!(p.y, h - 160 - margin, "{h}");
    }
}

#[test]
fn keyboard_window_answers_messages() {
    assert_eq!(mouse_point(0x0003_0002), (2, 3));
    assert_eq!(
        vk_wndproc(WM_LBUTTONDOWN, 0, 0x0003_0002, None),
        WndAction::Click { x: 2, y: 3 }
    );
    assert_eq!(vk_wndproc(WM_TIMER, 1, 0, None), WndAction::Timer(TimerAction::Raise));
    assert_eq!(vk_wndproc(WM_TIMER, 2, 0, None), WndAction::Timer(TimerAction::Render));
    assert_eq!(
        vk_wndproc(WM_WINDOWPOSCHANGING, 0, 0, Some(0x10)),
        WndAction::Moving { topmost: true }
    );
    assert_eq!(
        vk_wndproc(WM_WINDOWPOSCHANGING, 0, 0, Some(0x14)),
        WndAction::Moving { topmost: false }
    );
    for a in [VkAttach::Current, VkAttach::Input] {
        assert_eq!(attach_from_lparam(attach_lparam(a)), a);
    }
    assert_eq!(try_attach_for_window(VkAttach::Current, Err("x".to_string())), Ok(()));
    assert_eq!(
        try_attach_for_window(VkAttach::Input, Err("x".to_string())),
        Err("x".to_string())
    );
    assert_eq!(wait_until_visible(1, 5, false), None);
    assert_eq!(wait_until_visible(5, 5, false), Some(false));
    assert_eq!(wait_until_visible(9, 5, true), Some(true));
}

#[test]
fn sessions_open_only_when_the_window_appears() {
    let ui = VkUiThread {
        handle: DesktopWindowThread { thread_id: 6 },
    };
    assert_eq!(ui.show_window(VkAttach::Input).lparam, 1);
    assert_eq!(ui.hide_window().message, WM_APP_HIDE);
    assert_eq!(VkSession::suppress_ms(VkAttach::Input), Some(2000));
    let (r, hide) = VkSession::open(Ok(ui), Ok(()), true);
    let mut session = r.unwrap();
    assert!(!hide);
    assert_eq!(session.describe(), "WarmupXboxVkWindow (native UI)");
    assert_eq!(session.close(), Some(ui));
    assert_eq!(session.close(), None);
    let (r, hide) = VkSession::open(Ok(ui), Ok(()), false);
    assert_eq!(
        r.unwrap_err(),
        "VK window did not become visible (desktop attach or Session 0 UI)"
    );
    assert!(hide);
    assert_eq!(VkSession::open(Err("x".to_string()), Ok(()), true).0.unwrap_err(), "x");
    assert_eq!(VkSession::open(Ok(ui), Err("y".to_string()), true).0.unwrap_err(), "y");
}

#[test]
fn sign_in_screen_is_taken_over_and_given_back() {
    let mut s = LogonFocus::new();
    assert_eq!(
        set_active(&mut s, true, 7),
        vec![LogonAction::DisableAutoInvoke, LogonAction::StopSearchService]
    );
    assert!(is_active(&s));
    assert!(may_focus(&s, 7) && !may_focus(&s, 8));
    assert!(set_active(&mut s, true, 7).is_empty());
    assert_eq!(focused_is_password_field(&s, 7, Some(Some(true))), Some(false));
    let (focused, news) = focus_password_field(&mut s, None, Some(true));
    assert!(focused && news);
    let (focused, news) = focus_password_field(&mut s, None, Some(true));
    assert!(focused && !news);
    assert_eq!(
        set_active(&mut s, false, 7),
        vec![
            LogonAction::StartSearchService,
            LogonAction::ClearCache,
            LogonAction::RestoreAutoInvoke
        ]
    );
    assert!(set_active(&mut s, false, 7).is_empty());
    assert_eq!(focused_is_password_field(&s, 7, Some(Some(true))), Some(true));
    assert_eq!(focused_is_password_field(&s, 7, Some(Some(false))), Some(false));
    // Nobody could tell: nothing is learned.
    assert_eq!(focused_is_password_field(&s, 7, Some(None)), None);
    assert_eq!(focused_is_password_field(&s, 7, None), None);
    request_dump(&mut s);
    assert!(take_dump_request(&mut s));
    assert!(!take_dump_request(&mut s));
}

#[test]
fn password_field_is_found_first() {
    let edit = ElementFacts {
        is_password: false,
        control_type: CT_EDIT,
        focusable: true,
    };
    let password = ElementFacts {
        is_password: true,
        control_type: 0,
        focusable: false,
    };
    assert_eq!(find_password_element(&vec![None, Some(edit), Some(password)]), Some(2));
    assert_eq!(find_password_element(&vec![None, Some(edit), Some(edit)]), Some(1));
    assert_eq!(find_password_element(&vec![None]), None);
    assert_eq!(status_text(FocusStatus::Focused), "focused");
    assert_eq!(control_type_label(50033), "Pane");
    assert_eq!(dump_length(500), 200);
    assert_eq!(
        dump_line(3, edit, "n", "a", "c"),
        "  [3] ct=50004(Edit) pwd=false focusable=true name='n' autoid='a' class='c'"
    );
}

#[test]
fn diagnostic_panel_ignores_short_interruptions() {
    let mut c = DebugOverlayController::new();
    let on = Ok("Winlogon".to_string());
    let off: Result<String, String> = Err("x".to_string());
    assert_eq!(c.tick(true, 0, &on), DebugStep::Settle { on_winlogon: true });
    assert_eq!(c.settle(true, true), DebugVisibility::Show);
    let mut now = 0;
    for _ in 0..HOLD_LOOKS - 1 {
        now += 250;
        assert_eq!(c.tick(true, now, &off), DebugStep::Idle);
    }
    now += 250;
    assert_eq!(c.tick(true, now, &off), DebugStep::Settle { on_winlogon: false });
    assert_eq!(c.settle(false, false), DebugVisibility::Hide);
    let mut keys = DebugShortcuts {
        f10_down: false,
        f9_down: false,
        vk_toggle_requested: false,
    };
    assert!(poll_debug_shortcut(&mut keys, true, true));
    assert!(!poll_debug_shortcut(&mut keys, true, true));
    assert!(take_vk_toggle_request(&mut keys));
    assert!(!take_vk_toggle_request(&mut keys));
    assert_eq!(
        panel_lines(true, ""),
        ("gamepad: connected".to_string(), "input: \u{2014}".to_string())
    );
}

#[test]
fn notification_is_escaped() {
    assert_eq!(xml_escape("<a & 'b'>\""), "&lt;a &amp; &apos;b&apos;&gt;&quot;");
    assert_eq!(file_uri("C:\\a b\\c.png"), "file:///C:/a%20b/c.png");
    assert_eq!(
        screenshot_toast("C:\\a&b.png", "a&b.png", true),
        "<toast activationType=\"protocol\" launch=\"file:///C:/a&amp;b.png\"><visual>\
         <binding template=\"ToastGeneric\"><text>Screenshot taken</text>\
         <text>a&amp;b.png \u{b7} copied to clipboard</text></binding></visual></toast>"
    );
}

#[test]
fn prompt_window_lets_clicks_through_only_as_a_frame() {
    let mut u = OverlayUi::new();
    let _ = u.ui_show(PromptVisual::Listening, 0);
    assert_eq!(u.prompt_wndproc(0x84, 0), PromptWndAction::LetThrough);
    assert_eq!(u.prompt_wndproc(WM_TIMER, 12), PromptWndAction::Timer { repaint: true });
    assert_eq!(u.prompt_wndproc(WM_TIMER, 13), PromptWndAction::Timer { repaint: false });
    assert_eq!(u.prompt_wndproc(WM_DESTROY, 0), PromptWndAction::Destroyed);
    let _ = u.ui_show(PromptVisual::Ready, 0);
    assert_eq!(u.prompt_wndproc(0x84, 0), PromptWndAction::Default);
}

#[test]
fn services_are_named_as_the_system_knows_them() {
    assert_eq!(
        service_registry_subkey("TabletInputService"),
        "SYSTEM\\CurrentControlSet\\Services\\TabletInputService"
    );
    let (stop, start) = (stop_search_service(), ensure_search_service_running());
    assert_eq!((stop.action, start.action), ("stop", "start"));
    assert_eq!(stop.service, start.service);
    assert!(window_is_logonui(Some("C:\\Windows\\System32\\logonui.EXE")));
    assert!(!window_is_logonui(Some("C:\\LogonUI.exe\\other.exe")));
    assert!(!window_is_logonui(None));
}
