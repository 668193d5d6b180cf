use warmup_companion::pad_decode::{
    button_mask, edges, norm_thumb, poll_trigger_edges, Button, ButtonChange, BACK,
    GUIDE_BUTTON_MASK, LEFT_DEADZONE, LEFT_THUMB, PAD_A, RIGHT_THUMB, START,
};
use warmup_companion::xinput_backend::identity::{
    luid, parent_process_of, probe_foreground, probe_self_identity, ForegroundFacts, ProbeCaps,
    ProbeReading, ProcessEntry, TokenFacts, XInputProbe,
};
use warmup_companion::xinput_backend::pad_log::{log_button_change, log_slot_choice, PadLog};
use warmup_companion::xinput_backend::raw_hid::{
    poll_raw_hid_input, raw_input_bytes, report_hex, report_line, secure_hid_combo_mask,
    should_list_device,
};
use warmup_companion::xinput_backend::secure_poll::{
    anchor_action, credential_window, flush_for_resume, logon_credential_window, note_poll_panic,
    pump_step, start_step, AnchorAction, PumpStep, StartEvent, StartNext,
};
use warmup_companion::xinput_backend::types::{
    error_text, Axes, AxisBits, Gamepad, InjectHold, PadSample, PollState, SecureError, SecureMsg,
    SlotReading, TickReadings, ERROR_DEVICE_NOT_CONNECTED, ERROR_SUCCESS,
};
use warmup_companion::xinput_backend::xinput_poll::{
    hid_is_authoritative, key_to_mask, poll_xinput_tick,
};
use warmup_companion::xinput_backend::{
    begin_inject_hold, HelperAction, XInputBackend, INJECT_HOLD_WINDOW, LEAVE_STREAK,
};
use warmup_companion::xusb_ioctl::{parse_report, poll, state_request, wide_from_buf};

#[test]
fn xinput_mask_edges_include_system_and_stick_buttons() {
    let cur = BACK | START | LEFT_THUMB | RIGHT_THUMB | GUIDE_BUTTON_MASK;
    let pressed: Vec<Button> = edges(0, cur)
        .into_iter()
        .filter_map(|edge| edge.pressed.then_some(edge.button))
        .collect();

    assert_eq!(
        pressed,
        vec![
            Button::Select,
            Button::Start,
            Button::L3,
            Button::R3,
            Button::Guide,
        ]
    );
    assert_eq!(button_mask(Button::Select), Some(BACK));
    assert_eq!(button_mask(Button::Start), Some(START));
    assert_eq!(button_mask(Button::Guide), Some(GUIDE_BUTTON_MASK));
}

fn hid_backend() -> XInputBackend {
    let mut backend = XInputBackend::new();
    backend.active_slot = Some(0);
    backend.active_secure_hid = true;
    backend
}

fn trigger_backend() -> XInputBackend {
    let mut backend = XInputBackend::new();
    backend.active_slot = Some(0);
    backend.prev_trigger_left = true;
    backend.prev_trigger_right = true;
    backend
}

#[test]
fn xinput_backend_controller_label_identifies_secure_hid_source() {
    assert_eq!(hid_backend().controller_label(), "HID slot 0");
}

#[test]
fn xinput_backend_clear_secure_state_removes_hid_label() {
    let mut backend = hid_backend();

    backend.clear_secure_state();

    assert_eq!(backend.controller_label(), "XInput slot 0");
}

#[test]
fn xinput_backend_live_input_summary_includes_held_triggers() {
    let parts = trigger_backend().live_input_summary();
    assert!(parts.contains(&Button::Lt));
    assert!(parts.contains(&Button::Rt));
}

#[test]
fn xinput_backend_clear_secure_state_removes_trigger_summary_state() {
    let mut backend = trigger_backend();

    backend.clear_secure_state();

    assert!(!backend.live_input_summary().contains(&Button::Lt));
    assert!(!backend.live_input_summary().contains(&Button::Rt));
}

#[test]
fn xinput_backend_xusb_presence_keeps_hid_from_shadowing_slot_zero() {
    assert!(hid_is_authoritative(1, 0));
    assert!(!hid_is_authoritative(1, 1));
    assert!(!hid_is_authoritative(0, 1));
}

#[test]
fn mod_controller_label_identifies_secure_hid_source() {
    let mut backend = XInputBackend::new();
    backend.active_slot = Some(0);
    backend.active_secure_hid = true;

    assert_eq!(backend.controller_label(), "HID slot 0");
}

#[test]
fn mod_clear_secure_state_removes_hid_label() {
    let mut backend = XInputBackend::new();
    backend.active_slot = Some(0);
    backend.active_secure_hid = true;

    backend.clear_secure_state();

    assert_eq!(backend.controller_label(), "XInput slot 0");
}

#[test]
fn mod_live_input_summary_includes_held_triggers() {
    let mut backend = XInputBackend::new();
    backend.active_slot = Some(0);
    backend.prev_trigger_left = true;
    backend.prev_trigger_right = true;

    let parts = backend.live_input_summary();
    assert!(parts.contains(&Button::Lt));
    assert!(parts.contains(&Button::Rt));
}

#[test]
fn mod_clear_secure_state_removes_trigger_summary_state() {
    let mut backend = XInputBackend::new();
    backend.active_slot = Some(0);
    backend.prev_trigger_left = true;
    backend.prev_trigger_right = true;

    backend.clear_secure_state();

    assert!(!backend.live_input_summary().contains(&Button::Lt));
    assert!(!backend.live_input_summary().contains(&Button::Rt));
}

#[test]
fn mod_xusb_presence_keeps_hid_from_shadowing_slot_zero() {
    assert!(hid_is_authoritative(1, 0));
    assert!(!hid_is_authoritative(1, 1));
    assert!(!hid_is_authoritative(0, 1));
}

#[test]
fn edges_replay_one_reading_into_the_next() {
    let out = edges(PAD_A | BACK, PAD_A | START);
    assert_eq!(out.len(), 2);
    assert!(out.contains(&ButtonChange {
        button: Button::Select,
        pressed: false
    }));
    assert!(out.contains(&ButtonChange {
        button: Button::Start,
        pressed: true
    }));
    assert!(edges(BACK, BACK).is_empty());
}

#[test]
fn triggers_report_each_press_once() {
    let (mut lt, mut rt) = (false, false);
    let mut out = Vec::new();
    poll_trigger_edges(&mut lt, &mut rt, 200, 0, &mut out);
    assert_eq!(
        out,
        vec![ButtonChange {
            button: Button::Lt,
            pressed: true
        }]
    );
    poll_trigger_edges(&mut lt, &mut rt, 210, 0, &mut out);
    assert_eq!(out.len(), 1);
    poll_trigger_edges(&mut lt, &mut rt, 0, 0, &mut out);
    assert_eq!(out.len(), 2);
    assert!(!lt);
}

#[test]
fn sticks_rest_inside_the_dead_zone() {
    assert_eq!(norm_thumb(LEFT_DEADZONE - 1, LEFT_DEADZONE), 0);
    assert_eq!(norm_thumb(20000, LEFT_DEADZONE), 20000);
}

fn empty_slot() -> SlotReading {
    SlotReading {
        err: ERROR_DEVICE_NOT_CONNECTED,
        pad: Gamepad {
            buttons: 0,
            left_trigger: 0,
            right_trigger: 0,
            thumb_lx: 0,
            thumb_ly: 0,
            thumb_rx: 0,
            thumb_ry: 0,
        },
        keys: Vec::new(),
    }
}

fn readings(now: u64, buttons: u16) -> TickReadings {
    let mut first = empty_slot();
    first.err = ERROR_SUCCESS;
    first.pad.buttons = buttons;
    TickReadings {
        now,
        hid_polls: Vec::new(),
        hid_readers: 0,
        slots: [first, empty_slot(), empty_slot(), empty_slot()],
        xusb_open: 0,
        xusb_reply: None,
        xusb_lost: 0,
    }
}

#[test]
fn tick_reports_what_a_pad_changed() {
    let mut state = PollState::new();
    let mut hold = InjectHold {
        active: false,
        ticks: 0,
    };
    let out = poll_xinput_tick(&mut state, &mut hold, readings(0, PAD_A));
    assert!(out
        .messages
        .contains(&SecureMsg::Slots([true, false, false, false])));
    assert!(out.messages.contains(&SecureMsg::Buttons {
        slot: 0,
        prev: 0,
        cur: PAD_A
    }));
    // The backend mirrors what the tick says.
    let mut backend = XInputBackend::new();
    backend.secure = true;
    assert!(backend.sync_secure_helper(&out.messages, false));
    assert_eq!(backend.active_slot, Some(0));
    assert_eq!(backend.prev_buttons[0], PAD_A);
    assert_eq!(
        backend.button_changes(),
        vec![ButtonChange {
            button: Button::A,
            pressed: true
        }]
    );
}

#[test]
fn inject_hold_keeps_pad_input_away() {
    let mut state = PollState::new();
    let mut hold = InjectHold {
        active: false,
        ticks: 0,
    };
    begin_inject_hold(&mut hold);
    for _ in 0..INJECT_HOLD_WINDOW {
        let out = poll_xinput_tick(&mut state, &mut hold, readings(0, PAD_A));
        assert!(out.detail.is_none());
        assert!(!out.messages.contains(&SecureMsg::Buttons {
            slot: 0,
            prev: 0,
            cur: PAD_A
        }));
    }
}

#[test]
fn helper_is_started_at_sign_in_and_kept_through_short_looks_away() {
    let mut backend = XInputBackend::new();
    assert_eq!(backend.check_secure_helper(1000, true), HelperAction::Spawn);
    backend.helper_started(true);
    let mut now = 1000;
    for _ in 0..LEAVE_STREAK - 1 {
        now += 300;
        assert_eq!(backend.check_secure_helper(now, false), HelperAction::Keep);
    }
    now += 300;
    assert_eq!(backend.check_secure_helper(now, false), HelperAction::Stop);
}

#[test]
fn noisy_combination_is_silent_until_released() {
    let noisy = (0..=u16::MAX).find(|m| secure_hid_combo_mask(*m)).unwrap();
    let sample = |buttons: u16| PadSample {
        buttons,
        lt: 0,
        rt: 0,
        axes: AxisBits {
            lx: 0,
            ly: 0,
            rx: 0,
            ry: 0,
        },
    };
    let buttons = |prev: u16, cur: u16| Some(SecureMsg::Buttons { slot: 0, prev, cur });
    let mut state = PollState::new();
    assert_eq!(
        poll_raw_hid_input(&mut state, true, sample(PAD_A), vec![1]),
        buttons(0, PAD_A)
    );
    assert_eq!(poll_raw_hid_input(&mut state, false, sample(noisy), vec![2]), None);
    assert_eq!(poll_raw_hid_input(&mut state, false, sample(BACK), vec![3]), None);
    assert_eq!(poll_raw_hid_input(&mut state, false, sample(0), vec![4]), None);
    assert_eq!(
        poll_raw_hid_input(&mut state, false, sample(PAD_A), vec![5]),
        buttons(0, PAD_A)
    );
}

#[test]
fn raw_reports_are_measured_and_shown() {
    assert_eq!(raw_input_bytes(40, 100, 24), Some(40));
    assert_eq!(raw_input_bytes(u32::MAX, 100, 24), None);
    assert_eq!(report_hex(&[0x01, 0xab]), "01 ab");
    assert!(should_list_device(0, 1));
    assert!(should_list_device(500, 0x054c));
}

#[test]
fn xusb_reports_are_read_by_their_layout() {
    assert_eq!(state_request(2), [1, 1, 2]);
    let mut raw = vec![0u8; 32];
    raw[2] = 7;
    raw[7] = 0x10;
    raw[8] = 200;
    raw[10] = 0xff;
    raw[11] = 0xff;
    let report = parse_report(&raw);
    assert_eq!(report.packet, 7);
    assert_eq!(report.buttons, PAD_A);
    assert_eq!(report.left_trigger, 200);
    assert_eq!(report.thumb_lx, -1);
    assert_eq!(report.raw, raw);
    assert!(poll(false, &raw, 32).is_none());
    assert!(poll(true, &raw, 0).is_none());
    assert_eq!(poll(true, &raw, 20).unwrap().raw.len(), 20);
    assert_eq!(wide_from_buf(&[9, 0x41, 0, 0x42, 0, 0, 0], 1), vec![0x41, 0x42, 0]);
}

#[test]
fn keys_and_faults_have_their_names() {
    assert_eq!(key_to_mask(0x5800), Some(PAD_A));
    assert_eq!(key_to_mask(0), None);
    assert_eq!(
        error_text(SecureError::GetState { slot: 1, err: 5 }),
        "XInputGetState(1) error 5"
    );
    assert_eq!(
        error_text(SecureError::GetKeystroke { slot: 0, err: 7 }),
        "XInputGetKeystroke(0) error 7"
    );
    assert_eq!(
        error_text(SecureError::XusbFreed),
        "XUSB: pad disconnected; slot freed"
    );
    assert_eq!(luid(1, 2), 0x1_0000_0002);
    assert!(probe_foreground(&None::<ForegroundFacts>).len() > 0);
}

#[test]
fn poll_thread_steps_and_resumes() {
    let mut idle = 0u8;
    assert_eq!(pump_step(&mut idle, true, false), PumpStep::Stop);
    let mut state = PollState::new();
    state.last_hid_scan = Some(5);
    state.last_xusb_scan = Some(6);
    flush_for_resume(&mut state);
    assert_eq!((state.last_hid_scan, state.last_xusb_scan), (None, None));
    assert!(state.hid_scan_due(0, 7));
    assert_eq!(logon_credential_window(0), None);
    assert_eq!(logon_credential_window(9), Some(9));
    assert_eq!(credential_window(5, 7, 7), 5);
    let mut last = None;
    assert!(note_poll_panic(&mut last, 10));
    assert!(!note_poll_panic(&mut last, 20));
}

#[test]
fn backend_axes_start_at_rest() {
    assert_eq!(XInputBackend::new().axes(), Axes::Centered);
}

#[test]
fn poll_thread_starts_step_by_step() {
    let step = start_step(&StartEvent::Attached);
    assert!(step.ready && !step.publish_thread && step.lines.is_empty());
    assert_eq!(step.next, StartNext::CreateWindow);
    let step = start_step(&StartEvent::WindowCreated);
    assert_eq!(step.next, StartNext::LoadXInput);
    assert_eq!(
        step.lines,
        vec!["anchor window created (NOACTIVATE; no foreground steal)"]
    );
    assert_eq!(start_step(&StartEvent::Loaded(true)).next, StartNext::OpenDevices);
    let step = start_step(&StartEvent::Opened {
        hints: 12,
        database: "db.txt".to_string(),
        timer_set: false,
    });
    assert!(step.publish_thread);
    assert_eq!(step.next, StartNext::Pump);
    assert_eq!(
        step.lines,
        vec![
            "HID: loaded 12 gamecontrollerdb VID:PID hints from db.txt",
            "SetTimer failed for anchor poll"
        ]
    );
    for (event, line) in [
        (StartEvent::AttachFailed("e".to_string()), "desktop attach failed: e"),
        (StartEvent::ModuleFailed("e".to_string()), "GetModuleHandleW: e"),
        (StartEvent::WindowFailed("e".to_string()), "CreateWindowExW anchor: e"),
        (StartEvent::Loaded(false), "loader failed"),
    ] {
        let step = start_step(&event);
        assert!(step.publish_thread && !step.ready);
        assert_eq!(step.next, StartNext::Exit);
        assert_eq!(step.lines, vec![line]);
    }
    assert_eq!(anchor_action(0x0113, 21), AnchorAction::Poll);
    assert_eq!(anchor_action(0x0113, 22), AnchorAction::Default);
    assert_eq!(anchor_action(0x0218, 0x12), AnchorAction::Resume);
    assert_eq!(anchor_action(0x0218, 1), AnchorAction::Power);
}

#[test]
fn process_identity_is_one_line() {
    let entry = |pid: u32, parent: u32, name: &str| ProcessEntry {
        pid,
        parent,
        name: name.to_string(),
    };
    let all = vec![entry(1, 0, "system"), entry(7, 1, "us"), entry(8, 99, "stray")];
    let parent = parent_process_of(&all, 7);
    assert_eq!(parent, (1, "system".to_string()));
    assert_eq!(parent_process_of(&all, 8), (99, "?".to_string()));
    assert_eq!(parent_process_of(&all, 5), (0, "?".to_string()));
    let token = TokenFacts {
        user: Some("S-1-5-18".to_string()),
        integrity_rid: Some(0x4000),
        auth_id: 0x3e7,
        origin: 0,
        token_type: 1,
        impersonation_level: -1,
    };
    assert_eq!(
        probe_self_identity(7, 2, Some(token), parent, None),
        "SELF pid=7 parent=1(system) proc_sess=2 user=S-1-5-18 integrity=0x4000 \
         authid=0x3e7 origin=0x0 toktype=1 implevel=-1 desktop=?"
    );
    assert_eq!(
        probe_self_identity(7, 2, None, (0, "?".to_string()), None),
        "SELF pid=7 proc_sess=2 token=open_err"
    );
}

#[test]
fn probe_reports_edges_and_heartbeats() {
    let reading = |label: &str, err: u32, buttons: u16| ProbeReading {
        label: label.to_string(),
        err,
        packet: 9,
        pad: Gamepad {
            buttons,
            left_trigger: 1,
            right_trigger: 2,
            thumb_lx: -3,
            thumb_ly: 4,
            thumb_rx: 0,
            thumb_ry: 0,
        },
    };
    let caps = || {
        Some(ProbeCaps {
            label: "1_4".to_string(),
            kind: 1,
            subtype: 1,
            flags: 0xc,
        })
    };
    let mut p = XInputProbe::new();
    let idle = vec![reading("1_4", 0, 0), reading("1_3", 1167, 0x1000)];
    assert_eq!(
        p.tick(0, 0, &idle, "fg=none", caps()).unwrap(),
        "XPROBE slot0 [1_4:err=0 btn=0x0000 pkt=9 lt=1 rt=2 lx=-3 ly=4 | \
         1_3:err=1167 btn=0x0000 pkt=0 lt=1 rt=2 lx=-3 ly=4] fg=none \
         caps[1_4]:type=1 subtype=1 flags=0x000c"
    );
    assert_eq!(p.tick(100, 0, &idle, "fg=none", caps()), None);
    let held = vec![reading("1_4", 0, 0x1000)];
    assert_eq!(
        p.tick(200, 0, &held, "fg=none", caps()).unwrap(),
        "XPROBE slot0 [1_4:err=0 btn=0x1000 pkt=9 lt=1 rt=2 lx=-3 ly=4] fg=none"
    );
    assert!(p.tick(2000, 0, &held, "fg=none", None).is_some());
}

#[test]
fn slot_in_use_stays_while_it_is_connected() {
    let mut b = XInputBackend::new();
    assert_eq!(b.slot_in_use(&[false; 4]), None);
    assert_eq!(b.slot_in_use(&[false, true, true, false]), Some(1));
    assert_eq!(b.pick_active_slot(&[false, false, true, false]), Some(2));
    assert_eq!(b.slot_in_use(&[true, true, true, true]), Some(2));
    assert_eq!(b.pick_active_slot(&[true, true, false, true]), Some(0));
    assert_eq!(b.pick_active_slot(&[false; 4]), None);
}

#[test]
fn log_lines_are_written_now_and_again() {
    let mut log = PadLog::new();
    let one = [true, false, false, false];
    assert_eq!(
        log.log_slots_if_changed(&one, 10).as_deref(),
        Some("XInput slots [0:connected, 1:empty, 2:empty, 3:empty]")
    );
    assert_eq!(log.log_slots_if_changed(&one, 30_009), None);
    assert!(log.log_slots_if_changed(&one, 30_010).is_some());
    assert!(log.log_slots_if_changed(&[false; 4], 30_011).is_some());
    assert_eq!(
        log.log_no_controller(0).as_deref(),
        Some("XInput: no controller connected (retrying)")
    );
    assert_eq!(log.log_no_controller(14_999), None);
    assert!(log.log_no_controller(15_000).is_some());
    assert_eq!(
        log.log_slot_error(2, 5, 100).as_deref(),
        Some("XInputGetState(2) error 5")
    );
    assert_eq!(log.log_slot_error(3, 5, 1099), None);
    assert!(log.log_slot_error(3, 5, 1100).is_some());
    // An empty slot is no fault.
    assert_eq!(log.log_slot_error(1, ERROR_DEVICE_NOT_CONNECTED, 9000), None);
    assert_eq!(log.log_slot_error(1, ERROR_SUCCESS, 9000), None);
}

#[test]
fn log_names_what_changed() {
    let l = log_button_change(1, 0x0001, 0x1010).unwrap();
    assert_eq!(l.head, "XInput buttons slot 1: 0x0001 -> 0x1010");
    assert_eq!(l.held, vec![Button::A, Button::Start]);
    assert!(log_button_change(1, 7, 7).is_none());
    assert_eq!(
        log_slot_choice(None, Some(3)).as_deref(),
        Some("XInput: using slot 3")
    );
    assert_eq!(log_slot_choice(Some(3), Some(3)), None);
    assert_eq!(log_slot_choice(Some(3), None), None);
}

#[test]
fn log_tells_reports_apart() {
    let mut s = PollState::new();
    let line = |s: &PollState, opened, cur| report_line(s, opened, cur, "ds", "01 02", "pad");
    assert_eq!(
        line(&s, false, 0x1000).as_deref(),
        Some("HID secure: buttons 0x0000 -> 0x1000 [ds] raw=01 02 (pad)")
    );
    assert_eq!(
        line(&s, false, 0x3000).as_deref(),
        Some("HID secure: suppress noisy combo 0x0000 -> 0x3000 [ds] raw=01 02 (pad)")
    );
    assert_eq!(line(&s, false, 0), None);
    s.suppress_until_zero = true;
    assert_eq!(
        line(&s, false, 0x1000).as_deref(),
        Some("HID secure: suppress combo tail 0x0000 -> 0x1000 [ds] raw=01 02 (pad)")
    );
    s.prev_buttons[0] = 0x1000;
    assert_eq!(
        line(&s, false, 0x1000).as_deref(),
        Some("HID secure: held 0x1000 [ds] raw=01 02 (pad)")
    );
    s.hid_diag_count = 4;
    assert_eq!(line(&s, false, 0x1000), None);
    // A pad that was just opened starts anew.
    assert_eq!(
        line(&s, true, 0x1000).as_deref(),
        Some("HID secure: buttons 0x0000 -> 0x1000 [ds] raw=01 02 (pad)")
    );
}

#[test]
fn fully_deflected_stick_is_delivered() {
    let mut state = PollState::new();
    let mut hold = InjectHold {
        active: false,
        ticks: 0,
    };
    for lx in [i16::MIN, i16::MAX, -LEFT_DEADZONE - 1] {
        let mut r = readings(0, 0);
        r.slots[0].pad.thumb_lx = lx;
        let out = poll_xinput_tick(&mut state, &mut hold, r);
        assert!(out.messages.contains(&SecureMsg::Axes(Axes::Thumbs {
            lx,
            ly: 0,
            rx: 0,
            ry: 0
        })));
    }
}
