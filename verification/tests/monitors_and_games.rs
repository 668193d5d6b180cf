use warmup_companion::game_detect::{
    cached_answer, exe_base_name_lower, external_game_exe_denylist, foreground_external_game_pid,
    is_external_candidate_for_rects, is_pid_exe_denylisted, pid_to_exe_map, rect_area,
    rect_covers_monitor_axis_percent, rect_intersect, standalone_game_active_cached, DetectionCache,
    ForegroundWindow, ProcessExe, DETECT_INTERVAL_MS, EXTERNAL_FULLSCREEN_AXIS_PERCENT,
};
use warmup_companion::monitor::{
    active_monitor, choose_monitor, fallback_screen, foreground_fits_monitor, intersection_area,
    MonitorSource, ScreenRect,
};
use warmup_companion::surface::{classify, input, thread, Surface};

fn r(left: i32, top: i32, w: i32, h: i32) -> ScreenRect {
    ScreenRect {
        left,
        top,
        right: left + w,
        bottom: top + h,
    }
}

fn rect(left: i32, top: i32, right: i32, bottom: i32) -> ScreenRect {
    ScreenRect {
        left,
        top,
        right,
        bottom,
    }
}

#[test]
fn foreground_on_secondary_beats_the_primary() {
    let primary = r(0, 0, 1920, 1080);
    let secondary = r(1920, 0, 1920, 1080);
    let window = r(2000, 100, 800, 600);
    let chosen = choose_monitor(Some(window), Some(secondary), Some(primary), primary);
    assert_eq!(chosen, secondary);
}

#[test]
fn foreground_on_a_monitor_left_of_the_origin() {
    let primary = r(0, 0, 1920, 1080);
    let secondary = r(-1920, 0, 1920, 1080);
    let window = r(-1800, 80, 900, 700);
    let chosen = choose_monitor(Some(window), Some(secondary), None, primary);
    assert_eq!(chosen, secondary);
}

#[test]
fn spanning_shell_uses_the_cursor_monitor() {
    let primary = r(0, 0, 1920, 1080);
    let secondary = r(1920, 0, 1920, 1080);
    let shell = r(0, 0, 3840, 1080);
    let chosen = choose_monitor(Some(shell), Some(primary), Some(secondary), primary);
    assert_eq!(chosen, secondary);
}

#[test]
fn spanning_shell_without_cursor_stays_on_primary() {
    let primary = r(0, 0, 1920, 1080);
    let shell = r(0, 0, 3840, 1080);
    let chosen = choose_monitor(Some(shell), Some(primary), None, primary);
    assert_eq!(chosen, primary);
}

#[test]
fn nothing_known_uses_primary() {
    let primary = r(0, 0, 1920, 1080);
    assert_eq!(choose_monitor(None, None, None, primary), primary);
}

#[test]
fn maximized_overhang_still_fits_its_monitor() {
    let mon = r(1920, 0, 1920, 1080);
    let window = ScreenRect {
        left: 1912,
        top: -8,
        right: 3848,
        bottom: 1088,
    };
    assert!(foreground_fits_monitor(window, mon));
}

#[test]
fn monitor_source_is_reported_with_the_choice() {
    let primary = r(0, 0, 1920, 1080);
    let secondary = r(1920, 0, 1920, 1080);
    let window = r(2000, 100, 800, 600);
    let (source, chosen) = active_monitor(Some(window), Some(secondary), None, primary);
    assert_eq!(source, MonitorSource::Foreground);
    assert_eq!(chosen, secondary);
    assert_eq!(fallback_screen(0, -5), rect(0, 0, 1, 1));
    assert_eq!(intersection_area(r(0, 0, 10, 10), r(5, 5, 10, 10)), 25);
    assert_eq!(intersection_area(r(0, 0, 10, 10), r(20, 0, 10, 10)), 0);
}

#[test]
fn axis_coverage_accepts_borderless_fullscreen() {
    assert!(rect_covers_monitor_axis_percent(
        rect(0, 0, 1920, 1080),
        rect(0, 0, 1920, 1080),
        EXTERNAL_FULLSCREEN_AXIS_PERCENT,
    ));
}

#[test]
fn overlap_catches_letterboxed_candidate() {
    assert!(is_external_candidate_for_rects(
        rect(0, 40, 1920, 1040),
        rect(0, 0, 1920, 1080),
    ));
}

#[test]
fn denylist_rejects_launcher_clients() {
    for exe in ["steam.exe", "epicgameslauncher.exe", "chrome.exe"] {
        assert!(external_game_exe_denylist().contains(&exe));
    }
}

#[test]
fn denied_programs_are_found_by_their_base_name() {
    assert_eq!(exe_base_name_lower("C:\\Games\\STEAM.EXE"), "steam.exe");
    let processes = vec![
        ProcessExe {
            pid: 4,
            exe: "C:\\Games\\Steam.exe".to_string(),
        },
        ProcessExe {
            pid: 5,
            exe: "C:\\Games\\quake.exe".to_string(),
        },
        ProcessExe {
            pid: 7,
            exe: "quake.exe".to_string(),
        },
        ProcessExe {
            pid: 7,
            exe: "CHROME.exe".to_string(),
        },
    ];
    let processes = pid_to_exe_map(&processes);
    assert_eq!(processes.len(), 3);
    // The last listing of a process counts.
    assert!(is_pid_exe_denylisted(7, &processes));
    assert!(is_pid_exe_denylisted(4, &processes));
    assert!(!is_pid_exe_denylisted(5, &processes));
    assert!(!is_pid_exe_denylisted(6, &processes));
}

#[test]
fn rectangles_intersect_exactly() {
    assert_eq!(rect_area(rect(0, 0, 3, 4)), 12);
    assert_eq!(
        rect_intersect(rect(0, 0, 10, 10), rect(5, 6, 20, 20)),
        Some(rect(5, 6, 10, 10))
    );
    assert_eq!(rect_intersect(rect(0, 0, 10, 10), rect(10, 0, 20, 20)), None);
    assert!(!is_external_candidate_for_rects(
        rect(0, 0, 960, 540),
        rect(0, 0, 1920, 1080)
    ));
}

#[test]
fn fullscreen_foreground_is_a_game_unless_denied() {
    let mon = rect(0, 0, 1920, 1080);
    let fg = Some(ForegroundWindow {
        tid: 7,
        pid: 5,
        root_pid: 5,
        visible: true,
        rects: Some((mon, mon)),
    });
    let processes = pid_to_exe_map(&vec![ProcessExe {
        pid: 5,
        exe: "quake.exe".to_string(),
    }]);
    assert_eq!(foreground_external_game_pid(1, &fg, &processes), Some(5));
    assert_eq!(foreground_external_game_pid(5, &fg, &processes), None);
    assert_eq!(foreground_external_game_pid(1, &None, &processes), None);
    let mut slot = None;
    assert!(standalone_game_active_cached(&mut slot, 1000, 1, &fg, &processes));
    // Within the interval the answer is the one from before.
    assert!(standalone_game_active_cached(
        &mut slot,
        1000 + DETECT_INTERVAL_MS - 1,
        1,
        &None,
        &processes
    ));
    assert!(!standalone_game_active_cached(
        &mut slot,
        1000 + DETECT_INTERVAL_MS,
        1,
        &None,
        &processes
    ));
    assert_eq!(
        cached_answer(
            Some(DetectionCache {
                checked_at: 10,
                active: true
            }),
            20
        ),
        Some(true)
    );
}

#[test]
fn winlogon_name_is_the_secure_surface() {
    assert_eq!(classify("Winlogon"), Surface::Winlogon);
    assert_eq!(classify("winlogon"), Surface::Winlogon); // case-insensitive
    assert!(classify("WINLOGON").is_winlogon());
}

#[test]
fn default_and_other_desktops_are_userland() {
    assert_eq!(classify("Default"), Surface::Userland);
    assert_eq!(classify("Screen-saver"), Surface::Userland);
    assert_eq!(classify(""), Surface::Userland);
    assert!(classify("Default").is_userland());
}

#[test]
fn unknown_desktops_have_no_surface() {
    assert_eq!(input(&Err("no".to_string())), None);
    assert_eq!(input(&Ok("Winlogon".to_string())), Some(Surface::Winlogon));
    assert_eq!(thread(&None), None);
    assert_eq!(thread(&Some("Default".to_string())), Some(Surface::Userland));
}
