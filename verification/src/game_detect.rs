//! Standalone game detection: is the foreground window someone else's
//! near-fullscreen window, and not a shell, browser or launcher?

use std::collections::HashMap;

use vstd::prelude::*;

use crate::clock;
use crate::clock::elapsed_since;
use crate::monitor;
use crate::monitor::ScreenRect;
use crate::text;
use crate::text::{base_name_chars, chars_of, lower_chars, same_str, string_of};

verus! {

/// A window covering this share of each axis of its monitor counts as
/// fullscreen, in percent.
pub const EXTERNAL_FULLSCREEN_AXIS_PERCENT: i64 = 85;

/// A window covering this share of its monitor's area counts as fullscreen, in
/// percent.
pub const EXTERNAL_FULLSCREEN_OVERLAP_PERCENT: i128 = 72;

/// How long a detection result is reused.
pub const DETECT_INTERVAL_MS: u64 = 500;

/// Executables that create large windows without being games.
pub open spec fn denylist() -> Seq<Seq<char>> {
    seq![
        "applicationframehost.exe"@,
        "arc.exe"@,
        "brave.exe"@,
        "chrome.exe"@,
        "chromium.exe"@,
        "ctfmon.exe"@,
        "duckduckgo.exe"@,
        "dllhost.exe"@,
        "dwm.exe"@,
        "explorer.exe"@,
        "firefox.exe"@,
        "lockapp.exe"@,
        "msedge.exe"@,
        "opera.exe"@,
        "perplexity.exe"@,
        "runtimebroker.exe"@,
        "searchhost.exe"@,
        "searchapp.exe"@,
        "shellhost.exe"@,
        "shellexperiencehost.exe"@,
        "startmenuexperiencehost.exe"@,
        "steamwebhelper.exe"@,
        "systemsettings.exe"@,
        "textinputhost.exe"@,
        "webviewhost.exe"@,
        "widgets.exe"@,
        "windowsterminal.exe"@,
        "wt.exe"@,
        "steam.exe"@,
        "epicgameslauncher.exe"@,
        "galaxyclient.exe"@,
        "gog galaxy.exe"@,
        "goggalaxy.exe"@,
        "eadesktop.exe"@,
        "origin.exe"@,
        "ubisoftconnect.exe"@,
        "upc.exe"@,
        "uplay.exe"@,
        "battle.net.exe"@,
        "amazon games.exe"@,
        "nile.exe"@,
        "xboxpcapp.exe"@,
        "gamingservices.exe"@,
    ]
}

/// `denylist`, as a vector.
pub fn external_game_exe_denylist() -> (out: Vec<&'static str>)
    ensures
        out@.len() == denylist().len(),
        forall|i: int| 0 <= i < out@.len() ==> (#[trigger] out@[i])@ == denylist()[i],
{
    let out: Vec<&'static str> = vec![
        "applicationframehost.exe",
        "arc.exe",
        "brave.exe",
        "chrome.exe",
        "chromium.exe",
        "ctfmon.exe",
        "duckduckgo.exe",
        "dllhost.exe",
        "dwm.exe",
        "explorer.exe",
        "firefox.exe",
        "lockapp.exe",
        "msedge.exe",
        "opera.exe",
        "perplexity.exe",
        "runtimebroker.exe",
        "searchhost.exe",
        "searchapp.exe",
        "shellhost.exe",
        "shellexperiencehost.exe",
        "startmenuexperiencehost.exe",
        "steamwebhelper.exe",
        "systemsettings.exe",
        "textinputhost.exe",
        "webviewhost.exe",
        "widgets.exe",
        "windowsterminal.exe",
        "wt.exe",
        "steam.exe",
        "epicgameslauncher.exe",
        "galaxyclient.exe",
        "gog galaxy.exe",
        "goggalaxy.exe",
        "eadesktop.exe",
        "origin.exe",
        "ubisoftconnect.exe",
        "upc.exe",
        "uplay.exe",
        "battle.net.exe",
        "amazon games.exe",
        "nile.exe",
        "xboxpcapp.exe",
        "gamingservices.exe",
    ];
    out
}

/// The lower-cased file name of a path.
pub fn exe_base_name_lower(full: &str) -> (out: String)
    ensures
        out@ == text::base_name(text::ascii_lower_all(full@)),
{
    let lower = lower_chars(chars_of(full).as_slice());
    string_of(base_name_chars(lower.as_slice()))
}

/// A running process and its executable.
pub struct ProcessExe {
    pub pid: u32,
    pub exe: String,
}

/// The executable listed for `pid` last among the first `n`.
pub open spec fn exe_of(processes: Seq<ProcessExe>, pid: u32, n: int) -> Option<Seq<char>>
    decreases n,
{
    if n <= 0 {
        None
    } else if processes[n - 1].pid == pid {
        Some(processes[n - 1].exe@)
    } else {
        exe_of(processes, pid, n - 1)
    }
}

/// The executables by process. Where a process is listed twice, the last counts.
pub fn pid_to_exe_map(processes: &Vec<ProcessExe>) -> (map: HashMap<u32, String>)
    ensures
        forall|pid: u32|
            match exe_of(processes@, pid, processes@.len() as int) {
                Some(exe) => #[trigger] map@.contains_key(pid) && map@[pid]@ == exe,
                None => !map@.contains_key(pid),
            },
{
    broadcast use vstd::std_specs::hash::group_hash_axioms;

    let mut map: HashMap<u32, String> = HashMap::new();
    let mut i: usize = 0;
    while i < processes.len()
        invariant
            i <= processes.len(),
            forall|pid: u32|
                match exe_of(processes@, pid, i as int) {
                    Some(exe) => #[trigger] map@.contains_key(pid) && map@[pid]@ == exe,
                    None => !map@.contains_key(pid),
                },
        decreases processes.len() - i,
    {
        map.insert(processes[i].pid, processes[i].exe.clone());
        i += 1;
    }
    map
}

/// Whether `pid` runs an executable from the denylist; an unknown process does
/// not.
pub open spec fn denylisted(exe_by_pid: Map<u32, String>, pid: u32) -> bool {
    exe_by_pid.contains_key(pid) && denylist().contains(
        text::base_name(text::ascii_lower_all(exe_by_pid[pid]@)),
    )
}

/// `denylisted`, computed.
pub fn is_pid_exe_denylisted(pid: u32, exe_by_pid: &HashMap<u32, String>) -> (r: bool)
    ensures
        r == denylisted(exe_by_pid@, pid),
{
    broadcast use vstd::std_specs::hash::group_hash_axioms;

    let full: &String = match exe_by_pid.get(&pid) {
        Some(full) => full,
        None => {
            return false;
        },
    };
    let base = exe_base_name_lower(full.as_str());
    let list = external_game_exe_denylist();
    let mut i: usize = 0;
    while i < list.len()
        invariant
            i <= list.len(),
            exe_by_pid@.contains_key(pid),
            base@ == text::base_name(text::ascii_lower_all(exe_by_pid@[pid]@)),
            list@.len() == denylist().len(),
            forall|k: int| 0 <= k < list@.len() ==> (#[trigger] list@[k])@ == denylist()[k],
            forall|k: int| 0 <= k < i ==> denylist()[k] != base@,
        decreases list.len() - i,
    {
        if same_str(list[i], base.as_str()) {
            assert(denylist()[i as int] == base@);
            return true;
        }
        i += 1;
    }
    false
}

/// Whether the window covers `axis_percent` of each axis of the monitor.
pub open spec fn covers_axes(window: ScreenRect, monitor: ScreenRect, axis_percent: int) -> bool {
    &&& monitor::width(monitor) > 0 && monitor::height(monitor) > 0
    &&& monitor::width(window) * 100 >= monitor::width(monitor) * axis_percent
    &&& monitor::height(window) * 100 >= monitor::height(monitor) * axis_percent
}

pub fn rect_covers_monitor_axis_percent(
    win_rect: ScreenRect,
    mon_rect: ScreenRect,
    axis_percent: i64,
) -> (r: bool)
    ensures
        r == covers_axes(win_rect, mon_rect, axis_percent as int),
{
    let win_w: i64 = win_rect.right as i64 - win_rect.left as i64;
    let win_h: i64 = win_rect.bottom as i64 - win_rect.top as i64;
    let mon_w: i64 = mon_rect.right as i64 - mon_rect.left as i64;
    let mon_h: i64 = mon_rect.bottom as i64 - mon_rect.top as i64;
    if mon_w <= 0 || mon_h <= 0 {
        return false;
    }
    assert(-0x1_0000_0000 * 0x8000_0000_0000_0000 <= mon_w * axis_percent <= 0x1_0000_0000
        * 0x8000_0000_0000_0000) by (nonlinear_arith)
        requires
            0 < mon_w <= 0x1_0000_0000,
            -0x8000_0000_0000_0000 <= axis_percent <= 0x7fff_ffff_ffff_ffff,
    ;
    assert(-0x1_0000_0000 * 0x8000_0000_0000_0000 <= mon_h * axis_percent <= 0x1_0000_0000
        * 0x8000_0000_0000_0000) by (nonlinear_arith)
        requires
            0 < mon_h <= 0x1_0000_0000,
            -0x8000_0000_0000_0000 <= axis_percent <= 0x7fff_ffff_ffff_ffff,
    ;
    win_w as i128 * 100 >= mon_w as i128 * axis_percent as i128 && win_h as i128 * 100
        >= mon_h as i128 * axis_percent as i128
}

/// The signed area of a rectangle.
pub open spec fn area(r: ScreenRect) -> int {
    monitor::width(r) * monitor::height(r)
}

pub fn rect_area(r: ScreenRect) -> (a: i128)
    ensures
        a == area(r),
        -0x1_0000_0000 * 0x1_0000_0000 <= a <= 0x1_0000_0000 * 0x1_0000_0000,
{
    let w: i64 = r.right as i64 - r.left as i64;
    let h: i64 = r.bottom as i64 - r.top as i64;
    assert(-0x1_0000_0000 * 0x1_0000_0000 <= w * h <= 0x1_0000_0000 * 0x1_0000_0000)
        by (nonlinear_arith)
        requires
            -0x1_0000_0000 <= w <= 0x1_0000_0000,
            -0x1_0000_0000 <= h <= 0x1_0000_0000,
    ;
    w as i128 * h as i128
}

/// The common part of two rectangles, where it has an area.
pub open spec fn common_part(a: ScreenRect, b: ScreenRect) -> Option<ScreenRect> {
    let left = if a.left >= b.left { a.left } else { b.left };
    let top = if a.top >= b.top { a.top } else { b.top };
    let right = if a.right <= b.right { a.right } else { b.right };
    let bottom = if a.bottom <= b.bottom { a.bottom } else { b.bottom };
    if right <= left || bottom <= top {
        None
    } else {
        Some(ScreenRect { left, top, right, bottom })
    }
}

pub fn rect_intersect(a: ScreenRect, b: ScreenRect) -> (r: Option<ScreenRect>)
    ensures
        r == common_part(a, b),
{
    let left: i32 = if a.left >= b.left {
        a.left
    } else {
        b.left
    };
    let top: i32 = if a.top >= b.top {
        a.top
    } else {
        b.top
    };
    let right: i32 = if a.right <= b.right {
        a.right
    } else {
        b.right
    };
    let bottom: i32 = if a.bottom <= b.bottom {
        a.bottom
    } else {
        b.bottom
    };
    if right <= left || bottom <= top {
        None
    } else {
        Some(ScreenRect { left, top, right, bottom })
    }
}

/// Whether a window looks fullscreen on its monitor: by both axes, or by the
/// area it covers.
pub open spec fn looks_fullscreen(window: ScreenRect, monitor: ScreenRect) -> bool {
    ||| covers_axes(window, monitor, EXTERNAL_FULLSCREEN_AXIS_PERCENT as int)
    ||| area(monitor) > 0 && (common_part(window, monitor) matches Some(c) && area(c) * 100 >= area(
        monitor,
    ) * EXTERNAL_FULLSCREEN_OVERLAP_PERCENT)
}

/// `looks_fullscreen`, computed.
pub fn is_external_candidate_for_rects(win_rect: ScreenRect, mon_rect: ScreenRect) -> (r: bool)
    ensures
        r == looks_fullscreen(win_rect, mon_rect),
{
    if rect_covers_monitor_axis_percent(win_rect, mon_rect, EXTERNAL_FULLSCREEN_AXIS_PERCENT) {
        return true;
    }
    let mon_area: i128 = rect_area(mon_rect);
    if mon_area <= 0 {
        return false;
    }
    match rect_intersect(win_rect, mon_rect) {
        None => false,
        Some(common) => rect_area(common) * 100 >= mon_area
            * EXTERNAL_FULLSCREEN_OVERLAP_PERCENT,
    }
}

/// The foreground window, as far as detection looks at it.
pub struct ForegroundWindow {
    /// Thread and process of the foreground window; zero where unknown.
    pub tid: u32,
    pub pid: u32,
    /// Process of its top-level window; zero where unknown.
    pub root_pid: u32,
    pub visible: bool,
    /// The top-level window's rectangle and its monitor's, where known.
    pub rects: Option<(ScreenRect, ScreenRect)>,
}

/// The process of the top-level window, or of the foreground window itself.
pub open spec fn owner_pid(fg: ForegroundWindow) -> u32 {
    if fg.root_pid != 0 {
        fg.root_pid
    } else {
        fg.pid
    }
}

/// Whether the foreground window is a game: someone else's visible window that
/// looks fullscreen and does not belong to a denylisted executable.
pub open spec fn is_game(our_pid: u32, fg: ForegroundWindow, exe_by_pid: Map<u32, String>) -> bool {
    &&& fg.tid != 0 && fg.pid != 0 && fg.pid != our_pid
    &&& fg.visible
    &&& owner_pid(fg) != our_pid
    &&& fg.rects matches Some((w, m)) && looks_fullscreen(w, m)
    &&& !denylisted(exe_by_pid, owner_pid(fg))
}

/// The process id of the game in the foreground, if there is one.
pub fn foreground_external_game_pid(
    our_pid: u32,
    fg: &Option<ForegroundWindow>,
    exe_by_pid: &HashMap<u32, String>,
) -> (pid: Option<u32>)
    ensures
        pid == (match *fg {
            Some(f) => if is_game(our_pid, f, exe_by_pid@) {
                Some(owner_pid(f))
            } else {
                None::<u32>
            },
            None => None::<u32>,
        }),
        pid matches Some(p) ==> (exe_by_pid@.contains_key(p) ==> !known_program(
            text::base_name(text::ascii_lower_all(exe_by_pid@[p]@)),
        )),
        pid matches Some(p) ==> p != our_pid && p != 0,
{
    proof {
        if let Some(f) = fg {
            if is_game(our_pid, *f, exe_by_pid@) {
                games_are_unknown_programs(our_pid, *f, exe_by_pid@);
            }
        }
    }
    match fg {
        None => None,
        Some(f) => {
            if f.tid == 0 || f.pid == 0 || f.pid == our_pid || !f.visible {
                return None;
            }
            let pid: u32 = if f.root_pid != 0 {
                f.root_pid
            } else {
                f.pid
            };
            if pid == our_pid {
                return None;
            }
            match f.rects {
                None => None,
                Some((win_rect, mon_rect)) => {
                    if !is_external_candidate_for_rects(win_rect, mon_rect)
                        || is_pid_exe_denylisted(pid, exe_by_pid) {
                        None
                    } else {
                        Some(pid)
                    }
                },
            }
        },
    }
}

/// A detection result and when it was made.
#[derive(Clone, Copy, Debug, PartialEq, Eq, Structural)]
pub struct DetectionCache {
    pub checked_at: u64,
    pub active: bool,
}

/// Whether a cached result can still be used.
pub open spec fn still_fresh(slot: Option<DetectionCache>, now: u64) -> bool {
    slot matches Some(c) && clock::elapsed(c.checked_at, now) < DETECT_INTERVAL_MS
}

/// The cached answer, while it is fresh; when it is not, the caller detects anew
/// and records the result.
pub fn cached_answer(slot: Option<DetectionCache>, now: u64) -> (r: Option<bool>)
    ensures
        r == (if still_fresh(slot, now) { Some(slot->0.active) } else { None::<bool> }),
{
    match slot {
        Some(c) => if elapsed_since(c.checked_at, now) < DETECT_INTERVAL_MS {
            Some(c.active)
        } else {
            None
        },
        None => None,
    }
}

/// Whether a game is active. A fresh cached result is reused; otherwise the
/// given look at the desktop decides and is cached.
pub fn standalone_game_active_cached(
    slot: &mut Option<DetectionCache>,
    now: u64,
    our_pid: u32,
    fg: &Option<ForegroundWindow>,
    exe_by_pid: &HashMap<u32, String>,
) -> (active: bool)
    ensures
        still_fresh(*old(slot), now) ==> active == (*old(slot))->0.active && *final(slot) == *old(
            slot,
        ),
        !still_fresh(*old(slot), now) ==> active == (fg matches Some(f) && is_game(
            our_pid,
            *f,
            exe_by_pid@,
        )) && *final(slot) == Some(DetectionCache { checked_at: now, active }),
        active && !still_fresh(*old(slot), now) ==> (fg matches Some(f) && f.visible && (
        exe_by_pid@.contains_key(owner_pid(*f)) ==> !known_program(
            text::base_name(text::ascii_lower_all(exe_by_pid@[owner_pid(*f)]@)),
        ))),
{
    if let Some(active) = cached_answer(*slot, now) {
        return active;
    }
    proof {
        if let Some(f) = fg {
            if is_game(our_pid, *f, exe_by_pid@) {
                games_are_unknown_programs(our_pid, *f, exe_by_pid@);
            }
        }
    }
    let active = foreground_external_game_pid(our_pid, fg, exe_by_pid).is_some();
    *slot = Some(DetectionCache { checked_at: now, active });
    active
}

/// A window that fills a monitor with an area looks fullscreen on it.
pub proof fn full_window_looks_fullscreen(monitor: ScreenRect)
    requires
        monitor::width(monitor) > 0,
        monitor::height(monitor) > 0,
    ensures
        looks_fullscreen(monitor, monitor),
{
}

/// The programs that are no games: the shell and its hosts, browsers, terminals and game
/// launchers.
pub open spec fn known_program(name: Seq<char>) -> bool {
    ||| name == "applicationframehost.exe"@
    ||| name == "arc.exe"@
    ||| name == "brave.exe"@
    ||| name == "chrome.exe"@
    ||| name == "chromium.exe"@
    ||| name == "ctfmon.exe"@
    ||| name == "duckduckgo.exe"@
    ||| name == "dllhost.exe"@
    ||| name == "dwm.exe"@
    ||| name == "explorer.exe"@
    ||| name == "firefox.exe"@
    ||| name == "lockapp.exe"@
    ||| name == "msedge.exe"@
    ||| name == "opera.exe"@
    ||| name == "perplexity.exe"@
    ||| name == "runtimebroker.exe"@
    ||| name == "searchhost.exe"@
    ||| name == "searchapp.exe"@
    ||| name == "shellhost.exe"@
    ||| name == "shellexperiencehost.exe"@
    ||| name == "startmenuexperiencehost.exe"@
    ||| name == "steamwebhelper.exe"@
    ||| name == "systemsettings.exe"@
    ||| name == "textinputhost.exe"@
    ||| name == "webviewhost.exe"@
    ||| name == "widgets.exe"@
    ||| name == "windowsterminal.exe"@
    ||| name == "wt.exe"@
    ||| name == "steam.exe"@
    ||| name == "epicgameslauncher.exe"@
    ||| name == "galaxyclient.exe"@
    ||| name == "gog galaxy.exe"@
    ||| name == "goggalaxy.exe"@
    ||| name == "eadesktop.exe"@
    ||| name == "origin.exe"@
    ||| name == "ubisoftconnect.exe"@
    ||| name == "upc.exe"@
    ||| name == "uplay.exe"@
    ||| name == "battle.net.exe"@
    ||| name == "amazon games.exe"@
    ||| name == "nile.exe"@
    ||| name == "xboxpcapp.exe"@
    ||| name == "gamingservices.exe"@
}

proof fn known_is_listed(name: Seq<char>)
    ensures
        denylist().contains(name) <==> known_program(name),
{
    let d = denylist();
    assert(d[0] == "applicationframehost.exe"@);
    assert(d[1] == "arc.exe"@);
    assert(d[2] == "brave.exe"@);
    assert(d[3] == "chrome.exe"@);
    assert(d[4] == "chromium.exe"@);
    assert(d[5] == "ctfmon.exe"@);
    assert(d[6] == "duckduckgo.exe"@);
    assert(d[7] == "dllhost.exe"@);
    assert(d[8] == "dwm.exe"@);
    assert(d[9] == "explorer.exe"@);
    assert(d[10] == "firefox.exe"@);
    assert(d[11] == "lockapp.exe"@);
    assert(d[12] == "msedge.exe"@);
    assert(d[13] == "opera.exe"@);
    assert(d[14] == "perplexity.exe"@);
    assert(d[15] == "runtimebroker.exe"@);
    assert(d[16] == "searchhost.exe"@);
    assert(d[17] == "searchapp.exe"@);
    assert(d[18] == "shellhost.exe"@);
    assert(d[19] == "shellexperiencehost.exe"@);
    assert(d[20] == "startmenuexperiencehost.exe"@);
    assert(d[21] == "steamwebhelper.exe"@);
    assert(d[22] == "systemsettings.exe"@);
    assert(d[23] == "textinputhost.exe"@);
    assert(d[24] == "webviewhost.exe"@);
    assert(d[25] == "widgets.exe"@);
    assert(d[26] == "windowsterminal.exe"@);
    assert(d[27] == "wt.exe"@);
    assert(d[28] == "steam.exe"@);
    assert(d[29] == "epicgameslauncher.exe"@);
    assert(d[30] == "galaxyclient.exe"@);
    assert(d[31] == "gog galaxy.exe"@);
    assert(d[32] == "goggalaxy.exe"@);
    assert(d[33] == "eadesktop.exe"@);
    assert(d[34] == "origin.exe"@);
    assert(d[35] == "ubisoftconnect.exe"@);
    assert(d[36] == "upc.exe"@);
    assert(d[37] == "uplay.exe"@);
    assert(d[38] == "battle.net.exe"@);
    assert(d[39] == "amazon games.exe"@);
    assert(d[40] == "nile.exe"@);
    assert(d[41] == "xboxpcapp.exe"@);
    assert(d[42] == "gamingservices.exe"@);
    assert(d.len() == 43);
}

/// A program whose file is one of the known ones is no game, wherever the file lies, in
/// whichever case its name is written, and whatever its window covers.
pub proof fn known_programs_are_no_games(
    our_pid: u32,
    fg: ForegroundWindow,
    exes: Map<u32, String>,
    dir: Seq<char>,
    name: Seq<char>,
)
    requires
        known_program(text::ascii_lower_all(name)),
        forall|i: int| 0 <= i < name.len() ==> #[trigger] name[i] != '\\' && name[i] != '/',
        exes.contains_key(owner_pid(fg)),
        exes[owner_pid(fg)]@ == name || exes[owner_pid(fg)]@ == dir + seq!['\\'] + name
            || exes[owner_pid(fg)]@ == dir + seq!['/'] + name,
    ensures
        !is_game(our_pid, fg, exes),
{
    let low = text::ascii_lower_all(name);
    let ldir = text::ascii_lower_all(dir);
    known_is_listed(low);
    assert forall|i: int| 0 <= i < low.len() implies #[trigger] low[i] != '\\' && low[i] != '/' by {
        assert(name[i] != '\\' && name[i] != '/');
    }
    text::base_name_drops_the_directories(ldir, low);
    assert(text::ascii_lower_all(dir + seq!['\\'] + name) =~= ldir + seq!['\\'] + low);
    assert(text::ascii_lower_all(dir + seq!['/'] + name) =~= ldir + seq!['/'] + low);
}

/// A game is never a program of a known name: where the foreground counts as a game, the
/// file name of its program, in lower case, is none of the known ones, or its program is
/// not known at all.
pub proof fn games_are_unknown_programs(our_pid: u32, fg: ForegroundWindow, exes: Map<u32, String>)
    requires
        is_game(our_pid, fg, exes),
    ensures
        exes.contains_key(owner_pid(fg)) ==> !known_program(
            text::base_name(text::ascii_lower_all(exes[owner_pid(fg)]@)),
        ),
        fg.visible,
        fg.tid != 0 && fg.pid != 0,
        fg.pid != our_pid,
        fg.root_pid != our_pid || fg.root_pid == 0,
        fg.rects is Some,
{
    if exes.contains_key(owner_pid(fg)) {
        known_is_listed(text::base_name(text::ascii_lower_all(exes[owner_pid(fg)]@)));
    }
}

/// A visible window of another program that fills its monitor is a game where the program
/// is not known by name, and its process is that of the top-level window.
pub proof fn a_full_window_of_an_unknown_program_is_a_game(
    our_pid: u32,
    fg: ForegroundWindow,
    exes: Map<u32, String>,
    screen: ScreenRect,
)
    requires
        fg.tid != 0,
        fg.pid != 0 && fg.pid != our_pid,
        fg.root_pid != our_pid,
        fg.visible,
        fg.rects == Some((screen, screen)),
        screen.left < screen.right && screen.top < screen.bottom,
        exes.contains_key(owner_pid(fg)) ==> !known_program(
            text::base_name(text::ascii_lower_all(exes[owner_pid(fg)]@)),
        ),
    ensures
        is_game(our_pid, fg, exes),
        fg.root_pid != 0 ==> owner_pid(fg) == fg.root_pid,
        fg.root_pid == 0 ==> owner_pid(fg) == fg.pid,
{
    full_window_looks_fullscreen(screen);
    if exes.contains_key(owner_pid(fg)) {
        known_is_listed(text::base_name(text::ascii_lower_all(exes[owner_pid(fg)]@)));
    }
}

/// How much of its monitor a window has to cover: 85 of 100 parts of its width and of its
/// height, or 72 of 100 parts of its area. A window that lies on the monitor and covers
/// less of an axis and of the area does not look fullscreen; one that covers as much of
/// either does, and so does every larger window on it.
pub proof fn fullscreen_is_a_matter_of_cover(w: ScreenRect, m: ScreenRect)
    requires
        m.left <= w.left < w.right <= m.right,
        m.top <= w.top < w.bottom <= m.bottom,
    ensures
        ({
            let (ww, wh) = (w.right - w.left, w.bottom - w.top);
            let (mw, mh) = (m.right - m.left, m.bottom - m.top);
            looks_fullscreen(w, m) <==> (100 * ww >= 85 * mw && 100 * wh >= 85 * mh) || 100 * (ww
                * wh) >= 72 * (mw * mh)
        }),
{
    let (ww, wh) = (w.right - w.left, w.bottom - w.top);
    let (mw, mh) = (m.right - m.left, m.bottom - m.top);
    assert(common_part(w, m) == Some(w));
    assert(mw * mh > 0) by (nonlinear_arith)
        requires
            mw > 0,
            mh > 0,
    ;
    assert(area(w) == ww * wh && area(m) == mw * mh);
}

/// A window that does not meet its monitor covers nothing of it by area.
pub proof fn a_window_elsewhere_covers_no_area(w: ScreenRect, m: ScreenRect)
    requires
        w.right <= m.left || m.right <= w.left || w.bottom <= m.top || m.bottom <= w.top,
    ensures
        common_part(w, m) is None,
        common_part(m, w) is None,
{
}

/// A result is reused for half a second and no longer.
pub proof fn a_result_is_reused_for_half_a_second(checked_at: u64, active: bool, now: u64)
    requires
        checked_at <= now,
    ensures
        still_fresh(Some(DetectionCache { checked_at, active }), now) <==> now - checked_at < 500,
        !still_fresh(None, now),
{
}

/// Where a process is listed twice the last entry counts, and one that is not listed is
/// unknown.
pub proof fn the_last_listing_counts(processes: Seq<ProcessExe>, p: ProcessExe, pid: u32)
    ensures
        ({
            let more = processes.push(p);
            let n = processes.len() as int;
            &&& p.pid == pid ==> exe_of(more, pid, n + 1) == Some(p.exe@)
            &&& p.pid != pid ==> exe_of(more, pid, n + 1) == exe_of(processes, pid, n)
            &&& exe_of(processes, pid, 0) is None
        }),
{
    same_listing(processes, processes.push(p), pid, processes.len() as int);
}

proof fn same_listing(a: Seq<ProcessExe>, b: Seq<ProcessExe>, pid: u32, n: int)
    requires
        0 <= n <= a.len(),
        n <= b.len(),
        forall|i: int| 0 <= i < n ==> #[trigger] a[i] == b[i],
    ensures
        exe_of(a, pid, n) == exe_of(b, pid, n),
    decreases n,
{
    if n > 0 {
        same_listing(a, b, pid, n - 1);
    }
}

/// A window belongs to the process of its top-level window, and to its own where that is
/// unknown.
pub proof fn windows_belong_to_their_top_level_process(fg: ForegroundWindow)
    ensures
        fg.root_pid != 0 ==> owner_pid(fg) == fg.root_pid,
        fg.root_pid == 0 ==> owner_pid(fg) == fg.pid,
{
}

} // verus!
