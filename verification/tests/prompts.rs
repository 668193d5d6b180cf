use warmup_companion::prompt_overlay::{
    can_morph_between, card_label, connected_card_title, debug_replay_visual, eased_morph_progress,
    fullscreen_border, overlay_ex_style, overlay_rect, pill_text, preload_label, prompt_colors,
    render_prompt, same_voice_pill, thread_kind_for_visual, visual_is_voice, voice_overlay_visual,
    OverlayNext, OverlayUi, PromptFrame, PromptLook, PromptOverlayController, PromptStep,
    PromptThreadKind, PromptVisibility, PromptVisual, CONNECTED_VISUAL_MS,
    DEBUG_REPLAY_CONNECT_AT_MS, DEBUG_REPLAY_PERIOD_MS, DEFAULT_BG, DEFAULT_BORDER, MORPH_MS,
    MORPH_WHOLE,
};
use warmup_companion::surface::Surface;
use warmup_companion::vk_renderer::VoicePhase;
use warmup_companion::vk_ui::KeyboardTheme;

#[test]
fn connected_card_is_one_shot() {
    let now = 10_000;
    let mut controller = PromptOverlayController::new(now);

    controller.update_connected_visual(true, now);
    assert!(controller.connected_visual_until.is_some());

    controller.update_connected_visual(false, now + CONNECTED_VISUAL_MS);
    assert!(controller.connected_visual_until.is_none());

    controller.update_connected_visual(true, now + CONNECTED_VISUAL_MS * 2);
    assert!(controller.connected_visual_until.is_none());
}

#[test]
fn debug_replay_walks_no_pad_card_ready() {
    assert_eq!(debug_replay_visual(0), PromptVisual::NoPad);
    assert_eq!(
        debug_replay_visual(DEBUG_REPLAY_CONNECT_AT_MS),
        PromptVisual::Connected
    );
    assert_eq!(
        debug_replay_visual(DEBUG_REPLAY_CONNECT_AT_MS + CONNECTED_VISUAL_MS),
        PromptVisual::Ready
    );
    assert_eq!(
        debug_replay_visual(DEBUG_REPLAY_PERIOD_MS),
        PromptVisual::NoPad
    );
    assert!(can_morph_between(
        PromptVisual::NoPad,
        PromptVisual::Connected
    ));
    assert!(can_morph_between(
        PromptVisual::Connected,
        PromptVisual::Ready
    ));
}

#[test]
fn morph_progress_eases_without_overshoot() {
    let start = 5_000;
    let eased = |now: u64| eased_morph_progress(start, now) as f32 / MORPH_WHOLE as f32;

    assert_eq!(eased(start), 0.0);
    assert!((eased(start + 210) - 0.5).abs() < 0.01);
    assert_eq!(eased(start + MORPH_MS * 2), 1.0);
}

#[test]
fn voice_phases_share_one_pill_and_never_morph_into_prompts() {
    assert_eq!(
        PromptVisual::from_voice_phase("starting"),
        PromptVisual::Starting
    );
    assert_eq!(
        PromptVisual::from_voice_phase("listening"),
        PromptVisual::Listening
    );
    assert_eq!(
        PromptVisual::from_voice_phase("transcribing"),
        PromptVisual::Transcribing
    );
    // Unknown/empty phase strings default to Listening, never to a prompt.
    assert!(visual_is_voice(PromptVisual::from_voice_phase("")));

    assert!(same_voice_pill(
        PromptVisual::Starting,
        PromptVisual::Listening
    ));
    assert!(same_voice_pill(
        PromptVisual::Listening,
        PromptVisual::Transcribing
    ));
    assert!(!same_voice_pill(
        PromptVisual::Listening,
        PromptVisual::Ready
    ));
    assert!(!can_morph_between(
        PromptVisual::Listening,
        PromptVisual::Connected
    ));
    assert_eq!(
        PromptVisual::Starting.voice_phase(),
        Some(VoicePhase::Starting)
    );
    assert_eq!(PromptVisual::Ready.voice_phase(), None);
}

#[test]
fn voice_uses_separate_overlay_thread_kind() {
    assert_eq!(
        thread_kind_for_visual(PromptVisual::Listening),
        PromptThreadKind::Voice
    );
    assert_eq!(
        thread_kind_for_visual(PromptVisual::Starting),
        PromptThreadKind::Voice
    );
    assert_eq!(
        thread_kind_for_visual(PromptVisual::Connected),
        PromptThreadKind::Prompt
    );
    assert_eq!(
        thread_kind_for_visual(PromptVisual::Ready),
        PromptThreadKind::Prompt
    );
}

#[test]
fn talking_and_transcription_share_the_fullscreen_frame() {
    for visual in [
        PromptVisual::Listening,
        PromptVisual::Transcribing,
        PromptVisual::Starting,
        PromptVisual::VoiceBorder,
    ] {
        let rect = overlay_rect(visual, 1920, 1080);
        assert_eq!((rect.x, rect.y, rect.w, rect.h), (0, 0, 1920, 1080));
        assert!(fullscreen_border(visual));
    }
}

fn phase(p: &str) -> Option<String> {
    Some(p.to_string())
}

#[test]
fn voice_border_while_the_keyboard_is_open_keeps_the_same_frame() {
    assert_eq!(
        voice_overlay_visual(&phase("listening"), false),
        Some(PromptVisual::Listening)
    );
    assert_eq!(
        voice_overlay_visual(&phase("transcribing"), false),
        Some(PromptVisual::Transcribing)
    );
    assert_eq!(
        voice_overlay_visual(&phase("listening"), true),
        Some(PromptVisual::VoiceBorder)
    );
    assert_eq!(
        voice_overlay_visual(&phase("transcribing"), true),
        Some(PromptVisual::VoiceBorder)
    );
    assert_eq!(voice_overlay_visual(&None, false), None);
    assert!(same_voice_pill(
        PromptVisual::Listening,
        PromptVisual::Transcribing
    ));
    assert!(same_voice_pill(
        PromptVisual::Transcribing,
        PromptVisual::VoiceBorder
    ));
}

#[test]
fn visuals_survive_a_message() {
    for v in [
        PromptVisual::Ready,
        PromptVisual::NoPad,
        PromptVisual::Connected,
        PromptVisual::Listening,
        PromptVisual::Transcribing,
        PromptVisual::VoiceBorder,
        PromptVisual::Starting,
    ] {
        assert_eq!(PromptVisual::from_lparam(v.as_lparam()), v);
    }
    assert_eq!(PromptVisual::from_lparam(99), PromptVisual::Ready);
}

#[test]
fn prompt_stands_in_the_middle_near_the_bottom() {
    let rect = overlay_rect(PromptVisual::Ready, 1920, 1080);
    assert_eq!((rect.x, rect.y, rect.w, rect.h), (600, 588, 720, 420));
    let rect = overlay_rect(PromptVisual::Ready, 100, 100);
    assert_eq!((rect.x, rect.y), (0, 0));
    assert_eq!(overlay_ex_style(0x88, PromptVisual::Listening), 0xa8);
    assert_eq!(overlay_ex_style(0xa8, PromptVisual::Ready), 0x88);
}

fn look(now: u64, connected: bool, vk_open: bool) -> PromptLook {
    PromptLook {
        service_mode: true,
        now,
        userland_debug: false,
        surface: Some(Surface::Winlogon),
        yield_to_native: false,
        connected,
        voice: None,
        vk_open,
    }
}

#[test]
fn tick_walks_through_a_sign_in() {
    let mut c = PromptOverlayController::new(0);
    let step = c.tick(&look(1000, false, false));
    assert_eq!(
        step,
        PromptStep::Settle {
            visual: Some(PromptVisual::NoPad),
            stop: false,
            start: true
        }
    );
    assert_eq!(
        c.settle(Some(PromptVisual::NoPad), true),
        PromptVisibility::Show(PromptVisual::NoPad)
    );
    // Too soon.
    assert_eq!(c.tick(&look(1100, true, false)), PromptStep::Idle);
    // The pad arrives: its card, then the prompt.
    let step = c.tick(&look(1300, true, false));
    assert_eq!(
        step,
        PromptStep::Settle {
            visual: Some(PromptVisual::Connected),
            stop: false,
            start: false
        }
    );
    assert_eq!(
        c.settle(Some(PromptVisual::Connected), false),
        PromptVisibility::Show(PromptVisual::Connected)
    );
    let step = c.tick(&look(1300 + CONNECTED_VISUAL_MS, true, false));
    assert_eq!(
        step,
        PromptStep::Settle {
            visual: Some(PromptVisual::Ready),
            stop: false,
            start: false
        }
    );
    assert_eq!(
        c.settle(Some(PromptVisual::Ready), false),
        PromptVisibility::Show(PromptVisual::Ready)
    );
    // The keyboard opens: the prompt goes.
    let step = c.tick(&look(5000, true, true));
    assert_eq!(
        step,
        PromptStep::Settle {
            visual: None,
            stop: false,
            start: false
        }
    );
    assert_eq!(c.settle(None, false), PromptVisibility::Hide);
    // Dictation needs the other thread.
    let mut l = look(6000, true, true);
    l.voice = phase("listening");
    assert_eq!(
        c.tick(&l),
        PromptStep::Settle {
            visual: Some(PromptVisual::VoiceBorder),
            stop: true,
            start: true
        }
    );
    assert_eq!(
        c.settle(Some(PromptVisual::VoiceBorder), false),
        PromptVisibility::Keep
    );
    assert_eq!(c.thread, None);
}

#[test]
fn tick_is_idle_outside_the_service_and_yields_to_the_native_keyboard() {
    let mut c = PromptOverlayController::new(0);
    let mut l = look(1000, true, false);
    l.service_mode = false;
    assert_eq!(c.tick(&l), PromptStep::Idle);
    let mut l = look(1000, true, false);
    l.yield_to_native = true;
    assert_eq!(
        c.tick(&l),
        PromptStep::Settle {
            visual: None,
            stop: false,
            start: false
        }
    );
}

#[test]
fn window_is_swapped_between_dictation_and_prompt() {
    let mut u = OverlayUi::new();
    let plan = u.ui_show(PromptVisual::Ready, 10);
    assert_eq!(plan.hide_first, None);
    assert_eq!(plan.then_do, OverlayNext::Create { attach: true });
    u.window_created(Some(77), true, 20);
    assert_eq!(u.voice_shown_at, None);
    // Pill to card: the same window, with a change that runs.
    let plan = u.ui_show(PromptVisual::Connected, 100);
    assert_eq!(plan.then_do, OverlayNext::Redraw(77));
    assert_eq!(
        render_prompt(&mut u, 100),
        PromptFrame::Card {
            no_pad: false,
            card: 0
        }
    );
    assert_eq!(
        render_prompt(&mut u, 100 + MORPH_MS),
        PromptFrame::Card {
            no_pad: false,
            card: MORPH_WHOLE
        }
    );
    assert_eq!(u.morph, None);
    // Dictation: another window, which is not attached.
    let plan = u.ui_show(PromptVisual::Starting, 900);
    assert_eq!(plan.hide_first.map(|h| (h.window, h.fade)), Some((77, false)));
    assert_eq!(plan.then_do, OverlayNext::Create { attach: false });
    u.window_created(Some(78), true, 950);
    assert_eq!(u.voice_shown_at, Some(950));
    let plan = u.ui_show(PromptVisual::Listening, 1000);
    assert_eq!(plan.then_do, OverlayNext::Redraw(78));
    assert_eq!(u.voice_label_at, Some(1000));
    assert_eq!(
        render_prompt(&mut u, 1001),
        PromptFrame::Voice {
            phase: VoicePhase::Listening,
            show_orb: true
        }
    );
    assert_eq!(u.ui_hide().map(|h| (h.window, h.fade)), Some((78, true)));
    assert_eq!(u.ui_hide(), None);
}

#[test]
fn pads_have_presentable_names() {
    assert_eq!(connected_card_title("  "), "Controller");
    assert_eq!(connected_card_title("NONE"), "Controller");
    assert_eq!(connected_card_title("HID slot 0"), "PlayStation Controller");
    assert_eq!(connected_card_title("XInput slot 0"), "Xbox Controller");
    assert_eq!(connected_card_title("PS4 slot 1"), "PlayStation Controller");
    assert_eq!(
        connected_card_title(" DualSense Wireless Controller "),
        "DualSense Wireless Controller"
    );
    assert_eq!(card_label(" none "), "Xbox Wireless Controller");
    assert_eq!(card_label(" Pad "), "Pad");
    assert_eq!(preload_label(" "), "Xbox Wireless Controller");
    assert_eq!(preload_label(" none "), " none ");
}

#[test]
fn colours_stand_in_for_each_other() {
    let mut theme = KeyboardTheme {
        bg: None,
        key: None,
        accent: None,
        text: None,
        sel_text: None,
        border: None,
    };
    let c = prompt_colors(&theme);
    assert_eq!((c.bg, c.border, c.accent), (DEFAULT_BG, DEFAULT_BORDER, DEFAULT_BORDER));
    theme.accent = Some(5);
    assert_eq!(prompt_colors(&theme).border, 5);
    theme.border = Some(6);
    let c = prompt_colors(&theme);
    assert_eq!((c.border, c.accent), (6, 5));
    assert_eq!(pill_text(true), ("Connect controller", "", false));
    assert_eq!(pill_text(false), ("Press ", " for keyboard", true));
}
