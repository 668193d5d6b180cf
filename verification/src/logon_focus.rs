//! Keeping the credential field focused on the secure desktop.
//!
//! The sign-in screen moves its own focus on every pad press. Before each
//! injected key the password element is focused again; off the secure desktop,
//! nothing here acts.

use vstd::prelude::*;

use crate::text;
use crate::text::{decimal_of, put, signed_decimal_of};

verus! {

/// The automation control type of an editable field.
pub const CT_EDIT: i32 = 50004;

/// Elements that a dump lists at most.
pub const DUMP_CAP: i32 = 200;

/// How the last attempt to focus the field went.
#[derive(Clone, Copy, Debug, PartialEq, Eq, Structural)]
pub enum FocusStatus {
    FocusedCached,
    Focused,
    FoundNotFocused,
    NoElement,
}

/// What happens around a change of the input desktop.
#[derive(Clone, Copy, Debug, PartialEq, Eq, Structural)]
pub enum LogonAction {
    DisableAutoInvoke,
    StopSearchService,
    StartSearchService,
    ClearCache,
    RestoreAutoInvoke,
}

/// The state of the focus redirect.
#[derive(Clone, Copy, Debug, PartialEq, Eq, Structural)]
pub struct LogonFocus {
    pub dump_requested: bool,
    pub on_winlogon: bool,
    /// The search service was stopped, or may have been by an earlier run.
    pub need_search_start: bool,
    /// The thread that owns the automation client.
    pub loop_tid: u32,
    /// A password element is cached.
    pub cached: bool,
    pub last_status: Option<FocusStatus>,
}

/// The state at start-up.
pub open spec fn initial() -> LogonFocus {
    LogonFocus {
        dump_requested: false,
        on_winlogon: false,
        need_search_start: true,
        loop_tid: 0,
        cached: false,
        last_status: None,
    }
}

impl LogonFocus {
    pub fn new() -> (s: Self)
        ensures
            s == initial(),
    {
        LogonFocus {
            dump_requested: false,
            on_winlogon: false,
            need_search_start: true,
            loop_tid: 0,
            cached: false,
            last_status: None,
        }
    }
}

/// Asks the loop thread to dump the foreground automation tree.
pub fn request_dump(state: &mut LogonFocus)
    ensures
        *final(state) == (LogonFocus { dump_requested: true, ..*old(state) }),
{
    state.dump_requested = true;
}

/// Takes a pending dump request.
pub fn take_dump_request(state: &mut LogonFocus) -> (requested: bool)
    ensures
        requested == old(state).dump_requested,
        *final(state) == (LogonFocus { dump_requested: false, ..*old(state) }),
{
    let requested = state.dump_requested;
    state.dump_requested = false;
    requested
}

/// Whether the input desktop is the secure one.
pub fn is_active(state: &LogonFocus) -> (r: bool)
    ensures
        r == state.on_winlogon,
{
    state.on_winlogon
}

/// Drops the cached password element.
pub fn clear_cache(state: &mut LogonFocus)
    ensures
        *final(state) == (LogonFocus { cached: false, last_status: None, ..*old(state) }),
{
    state.cached = false;
    state.last_status = None;
}

/// The state after the loop published where it is.
pub open spec fn after_publish(s: LogonFocus, on_winlogon: bool, tid: u32) -> LogonFocus {
    if on_winlogon {
        LogonFocus {
            on_winlogon: true,
            loop_tid: tid,
            need_search_start: s.need_search_start || !s.on_winlogon,
            ..s
        }
    } else {
        LogonFocus {
            on_winlogon: false,
            need_search_start: false,
            cached: s.cached && !s.on_winlogon,
            last_status: if s.on_winlogon { None } else { s.last_status },
            ..s
        }
    }
}

/// What is to be done then, in order.
pub open spec fn publish_actions(s: LogonFocus, on_winlogon: bool) -> Seq<LogonAction> {
    if on_winlogon {
        if s.on_winlogon {
            seq![]
        } else {
            seq![LogonAction::DisableAutoInvoke, LogonAction::StopSearchService]
        }
    } else {
        (if s.need_search_start { seq![LogonAction::StartSearchService] } else { seq![] }) + (
        if s.on_winlogon { seq![LogonAction::ClearCache, LogonAction::RestoreAutoInvoke] } else {
            seq![]
        })
    }
}

/// Published by the gamepad loop on every poll, from thread `tid`.
pub fn set_active(state: &mut LogonFocus, on_winlogon: bool, tid: u32) -> (actions: Vec<LogonAction>)
    ensures
        *final(state) == after_publish(*old(state), on_winlogon, tid),
        actions@ == publish_actions(*old(state), on_winlogon),
{
    let mut actions: Vec<LogonAction> = Vec::new();
    let was = state.on_winlogon;
    state.on_winlogon = on_winlogon;
    if on_winlogon {
        state.loop_tid = tid;
        if !was {
            actions.push(LogonAction::DisableAutoInvoke);
            actions.push(LogonAction::StopSearchService);
            state.need_search_start = true;
        }
    } else {
        let start = state.need_search_start;
        state.need_search_start = false;
        if start {
            actions.push(LogonAction::StartSearchService);
        }
        if was {
            clear_cache(state);
            actions.push(LogonAction::ClearCache);
            actions.push(LogonAction::RestoreAutoInvoke);
        }
    }
    assert(actions@ =~= publish_actions(*old(state), on_winlogon));
    actions
}

/// The state after a run of published desktops.
pub open spec fn after_run(run: Seq<(bool, u32)>) -> LogonFocus
    decreases run.len(),
{
    if run.len() == 0 {
        initial()
    } else {
        after_publish(after_run(run.drop_last()), run.last().0, run.last().1)
    }
}

/// How often `action` is asked for over a run.
pub open spec fn times(run: Seq<(bool, u32)>, action: LogonAction) -> int
    decreases run.len(),
{
    if run.len() == 0 {
        0
    } else {
        times(run.drop_last(), action) + (if publish_actions(
            after_run(run.drop_last()),
            run.last().0,
        ).contains(action) {
            1int
        } else {
            0
        })
    }
}

/// Which actions one step asks for.
proof fn step_contents(s: LogonFocus, on: bool)
    ensures
        publish_actions(s, on).contains(LogonAction::DisableAutoInvoke) == (on && !s.on_winlogon),
        publish_actions(s, on).contains(LogonAction::StopSearchService) == (on && !s.on_winlogon),
        publish_actions(s, on).contains(LogonAction::StartSearchService) == (!on
            && s.need_search_start),
        publish_actions(s, on).contains(LogonAction::RestoreAutoInvoke) == (!on && s.on_winlogon),
{
    let a = publish_actions(s, on);
    if on && !s.on_winlogon {
        assert(a[0] == LogonAction::DisableAutoInvoke && a[1] == LogonAction::StopSearchService);
    }
    if !on && s.need_search_start {
        assert(a[0] == LogonAction::StartSearchService);
    }
    if !on && s.on_winlogon {
        assert(a.last() == LogonAction::RestoreAutoInvoke);
    }
}

/// Every disabling of the touch keyboard is undone once, on leaving the secure
/// desktop: at any time one disabling is outstanding on it and none off it.
pub proof fn overrides_are_balanced(run: Seq<(bool, u32)>)
    ensures
        times(run, LogonAction::DisableAutoInvoke) == times(run, LogonAction::RestoreAutoInvoke) + (
        if after_run(run).on_winlogon {
            1int
        } else {
            0
        }),
    decreases run.len(),
{
    if run.len() > 0 {
        overrides_are_balanced(run.drop_last());
        step_contents(after_run(run.drop_last()), run.last().0);
    }
}

/// The search service is started at most once per stop, and once more for a
/// stop by an earlier run; on the user's desktop no start is outstanding.
pub proof fn search_service_starts_once(run: Seq<(bool, u32)>)
    ensures
        times(run, LogonAction::StartSearchService) + (if after_run(run).need_search_start {
            1int
        } else {
            0
        }) <= times(run, LogonAction::StopSearchService) + 1,
        run.len() > 0 && !run.last().0 ==> !after_run(run).need_search_start && times(
            run,
            LogonAction::StartSearchService,
        ) >= 1,
    decreases run.len(),
{
    if run.len() > 0 {
        search_service_starts_once(run.drop_last());
        step_contents(after_run(run.drop_last()), run.last().0);
        start_or_needed(run.drop_last());
    }
}

proof fn start_or_needed(run: Seq<(bool, u32)>)
    ensures
        after_run(run).need_search_start || times(run, LogonAction::StartSearchService) >= 1,
        times(run, LogonAction::StartSearchService) >= 0,
    decreases run.len(),
{
    if run.len() > 0 {
        start_or_needed(run.drop_last());
        step_contents(after_run(run.drop_last()), run.last().0);
    }
}

/// Whether the focused element is a password field, for the personal dictionary.
/// On the secure desktop the answer is no; off the automation thread, without a
/// focused element, or where its flag cannot be read, it is unknown, and nothing is
/// learned. `focused` is what reading the focused element gave: nothing, or its flag
/// where that could be read.
pub fn focused_is_password_field(state: &LogonFocus, tid: u32, focused: Option<Option<bool>>) -> (r:
    Option<bool>)
    ensures
        r == (if state.on_winlogon {
            Some(false)
        } else if tid != state.loop_tid {
            None::<bool>
        } else {
            match focused {
                None => None::<bool>,
                Some(flag) => flag,
            }
        }),
        r == Some(true) ==> !state.on_winlogon && focused == Some(Some(true)),
        state.on_winlogon ==> r == Some(false),
        !state.on_winlogon && (tid != state.loop_tid || focused is None) ==> r is None,
{
    if state.on_winlogon {
        return Some(false);
    }
    if tid != state.loop_tid {
        return None;
    }
    match focused {
        None => None,
        Some(flag) => flag,
    }
}

/// What the finder looks at in an element; unreadable properties are false or
/// zero.
#[derive(Clone, Copy, Debug, PartialEq, Eq, Structural)]
pub struct ElementFacts {
    pub is_password: bool,
    pub control_type: i32,
    pub focusable: bool,
}

/// Whether an element is a focusable edit field.
pub open spec fn is_edit(e: Option<ElementFacts>) -> bool {
    e matches Some(f) && f.control_type == CT_EDIT && f.focusable
}

pub open spec fn is_password(e: Option<ElementFacts>) -> bool {
    e matches Some(f) && f.is_password
}

/// Whether `i` is the element to focus: the first password field, or, where
/// there is none, the first focusable edit field.
pub open spec fn is_target(elements: Seq<Option<ElementFacts>>, i: int) -> bool {
    &&& 0 <= i < elements.len()
    &&& {
        ||| is_password(elements[i]) && forall|k: int| 0 <= k < i ==> !is_password(#[trigger] elements[k])
        ||| is_edit(elements[i]) && (forall|k: int|
            0 <= k < elements.len() ==> !is_password(#[trigger] elements[k])) && (forall|k: int|
            0 <= k < i ==> !is_edit(#[trigger] elements[k]))
    }
}

/// The element to focus in a scan of the foreground window. Elements that could
/// not be fetched are skipped.
pub fn find_password_element(elements: &Vec<Option<ElementFacts>>) -> (at: Option<usize>)
    ensures
        match at {
            Some(i) => is_target(elements@, i as int),
            None => forall|i: int|
                0 <= i < elements@.len() ==> !is_password(#[trigger] elements@[i]) && !is_edit(
                    elements@[i],
                ),
        },
{
    let mut fallback: Option<usize> = None;
    let mut i: usize = 0;
    while i < elements.len()
        invariant
            i <= elements.len(),
            forall|k: int| 0 <= k < i ==> !is_password(#[trigger] elements@[k]),
            match fallback {
                Some(f) => f < i && is_edit(elements@[f as int]) && forall|k: int|
                    0 <= k < f ==> !is_edit(#[trigger] elements@[k]),
                None => forall|k: int| 0 <= k < i ==> !is_edit(#[trigger] elements@[k]),
            },
        decreases elements.len() - i,
    {
        if let Some(e) = elements[i] {
            if e.is_password {
                return Some(i);
            }
            if fallback.is_none() && e.control_type == CT_EDIT && e.focusable {
                fallback = Some(i);
            }
        }
        i += 1;
    }
    fallback
}

/// Whether the redirect may act: on the secure desktop, on the thread that owns
/// the automation client.
pub fn may_focus(state: &LogonFocus, tid: u32) -> (r: bool)
    ensures
        r == (state.on_winlogon && tid == state.loop_tid),
{
    state.on_winlogon && tid == state.loop_tid
}

/// How an attempt went, from its two tries: focusing the cached element where
/// there is one, and focusing the element a new search found.
pub open spec fn attempt_status(cached: Option<bool>, found: Option<bool>) -> FocusStatus {
    if cached == Some(true) {
        FocusStatus::FocusedCached
    } else {
        match found {
            Some(true) => FocusStatus::Focused,
            Some(false) => FocusStatus::FoundNotFocused,
            None => FocusStatus::NoElement,
        }
    }
}

/// Records an attempt to focus the field. `cached` tells how focusing the cached
/// element went, where there was one; `found` how focusing a newly found element
/// went, where one was found (the search is skipped when the cached one took the
/// focus). Returns whether the field has the focus, and whether the status is
/// news worth logging.
pub fn focus_password_field(state: &mut LogonFocus, cached: Option<bool>, found: Option<bool>) -> (r: (
    bool,
    bool,
))
    ensures
        ({
            let status = attempt_status(cached, found);
            &&& r.0 == (status == FocusStatus::FocusedCached || status == FocusStatus::Focused)
            &&& r.1 == (old(state).last_status != Some(status))
            &&& *final(state) == (LogonFocus {
                last_status: Some(status),
                cached: status != FocusStatus::NoElement,
                ..*old(state)
            })
        }),
{
    let status: FocusStatus = match cached {
        Some(true) => FocusStatus::FocusedCached,
        _ => match found {
            Some(true) => FocusStatus::Focused,
            Some(false) => FocusStatus::FoundNotFocused,
            None => FocusStatus::NoElement,
        },
    };
    state.cached = status != FocusStatus::NoElement;
    let news = log_status(state, status);
    (status == FocusStatus::FocusedCached || status == FocusStatus::Focused, news)
}

/// Records a status and tells whether it differs from the last one.
pub fn log_status(state: &mut LogonFocus, status: FocusStatus) -> (news: bool)
    ensures
        news == (old(state).last_status != Some(status)),
        *final(state) == (LogonFocus { last_status: Some(status), ..*old(state) }),
{
    let news: bool = match state.last_status {
        Some(last) => last != status,
        None => true,
    };
    state.last_status = Some(status);
    news
}

pub open spec fn status_words(s: FocusStatus) -> Seq<char> {
    match s {
        FocusStatus::FocusedCached => "focused (cached)"@,
        FocusStatus::Focused => "focused"@,
        FocusStatus::FoundNotFocused => "found, SetFocus failed"@,
        FocusStatus::NoElement => "no password element (fallback SendInput)"@,
    }
}

/// A status in words.
pub fn status_text(s: FocusStatus) -> (out: &'static str)
    ensures
        out@ == status_words(s),
{
    match s {
        FocusStatus::FocusedCached => "focused (cached)",
        FocusStatus::Focused => "focused",
        FocusStatus::FoundNotFocused => "found, SetFocus failed",
        FocusStatus::NoElement => "no password element (fallback SendInput)",
    }
}

pub open spec fn control_type_name(id: i32) -> Seq<char> {
    if id == 50000 {
        "Button"@
    } else if id == 50004 {
        "Edit"@
    } else if id == 50020 {
        "Text"@
    } else if id == 50026 {
        "Group"@
    } else if id == 50032 {
        "Window"@
    } else if id == 50033 {
        "Pane"@
    } else {
        "?"@
    }
}

/// A short name for the control types of a credential surface.
pub fn control_type_label(id: i32) -> (label: &'static str)
    ensures
        label@ == control_type_name(id),
{
    if id == 50000 {
        "Button"
    } else if id == 50004 {
        "Edit"
    } else if id == 50020 {
        "Text"
    } else if id == 50026 {
        "Group"
    } else if id == 50032 {
        "Window"
    } else if id == 50033 {
        "Pane"
    } else {
        "?"
    }
}

/// How many of `count` elements a dump lists.
pub fn dump_length(count: i32) -> (n: i32)
    ensures
        n == (if count < DUMP_CAP { count } else { DUMP_CAP }),
        count <= 200 ==> n == count,
        count > 200 ==> n == 200,
{
    if count < DUMP_CAP {
        count
    } else {
        DUMP_CAP
    }
}

pub open spec fn bool_word(b: bool) -> Seq<char> {
    if b {
        "true"@
    } else {
        "false"@
    }
}

/// One element's line in a dump.
pub open spec fn dump_line_spec(
    i: u32,
    e: ElementFacts,
    name: Seq<char>,
    autoid: Seq<char>,
    class: Seq<char>,
) -> Seq<char> {
    "  ["@ + text::decimal(i as nat) + "] ct="@ + text::signed_decimal(e.control_type as int) + "("@
        + control_type_name(e.control_type) + ") pwd="@ + bool_word(e.is_password) + " focusable="@
        + bool_word(e.focusable) + " name='"@ + name + "' autoid='"@ + autoid + "' class='"@ + class
        + "'"@
}

fn bool_text(b: bool) -> (out: &'static str)
    ensures
        out@ == bool_word(b),
{
    if b {
        "true"
    } else {
        "false"
    }
}

/// One element's line in a dump of the foreground tree.
pub fn dump_line(i: u32, e: ElementFacts, name: &str, autoid: &str, class: &str) -> (line: String)
    ensures
        line@ == dump_line_spec(i, e, name@, autoid@, class@),
{
    let mut line: String = "  [".to_owned();
    put(&mut line, decimal_of(i as u64).as_str());
    put(&mut line, "] ct=");
    put(&mut line, signed_decimal_of(e.control_type as i64).as_str());
    put(&mut line, "(");
    put(&mut line, control_type_label(e.control_type));
    put(&mut line, ") pwd=");
    put(&mut line, bool_text(e.is_password));
    put(&mut line, " focusable=");
    put(&mut line, bool_text(e.focusable));
    put(&mut line, " name='");
    put(&mut line, name);
    put(&mut line, "' autoid='");
    put(&mut line, autoid);
    put(&mut line, "' class='");
    put(&mut line, class);
    put(&mut line, "'");
    line
}

/// Publishing where the input goes is remembered, with the thread only on the secure
/// desktop. Staying there asks for nothing; arriving turns the touch keyboard off before it
/// stops the search service; leaving starts the service again, then drops the cached element,
/// and turns the touch keyboard on last.
pub proof fn arriving_and_leaving(s: LogonFocus, on: bool, tid: u32)
    ensures
        after_publish(s, on, tid).on_winlogon == on,
        on ==> after_publish(s, on, tid).loop_tid == tid,
        !on ==> after_publish(s, on, tid).loop_tid == s.loop_tid,
        after_publish(s, on, tid).dump_requested == s.dump_requested,
        on && !s.on_winlogon ==> publish_actions(s, on) == seq![
            LogonAction::DisableAutoInvoke,
            LogonAction::StopSearchService,
        ] && after_publish(s, on, tid).need_search_start,
        on && s.on_winlogon ==> publish_actions(s, on).len() == 0,
        on ==> after_publish(s, on, tid).cached == s.cached && after_publish(s, on, tid).last_status
            == s.last_status,
        !on && s.on_winlogon && s.need_search_start ==> publish_actions(s, on) == seq![
            LogonAction::StartSearchService,
            LogonAction::ClearCache,
            LogonAction::RestoreAutoInvoke,
        ],
        !on && s.on_winlogon ==> !after_publish(s, on, tid).cached && after_publish(
            s,
            on,
            tid,
        ).last_status is None,
        !on && !s.on_winlogon && !s.need_search_start ==> publish_actions(s, on).len() == 0
            && after_publish(s, on, tid) == s,
        !on ==> !after_publish(s, on, tid).need_search_start,
{
}

/// The field has the focus exactly where one of the two tries took it, the cached element's
/// first; without an element nothing is kept.
pub proof fn an_attempt_says_what_took_the_focus(cached: Option<bool>, found: Option<bool>)
    ensures
        attempt_status(cached, found) == FocusStatus::FocusedCached <==> cached == Some(true),
        attempt_status(cached, found) == FocusStatus::Focused <==> cached != Some(true) && found
            == Some(true),
        attempt_status(cached, found) == FocusStatus::FoundNotFocused <==> cached != Some(true)
            && found == Some(false),
        attempt_status(cached, found) == FocusStatus::NoElement <==> cached != Some(true) && found
            is None,
{
}

/// Where a window has a password field, the first of them is the target, and only where it
/// has none is it the first focusable edit field (type 50004); there is one target at most.
pub proof fn password_fields_come_first(elements: Seq<Option<ElementFacts>>, i: int, j: int)
    requires
        is_target(elements, i),
        0 <= j < elements.len(),
    ensures
        is_target(elements, j) ==> i == j,
        (elements[j] matches Some(e) && e.is_password) ==> i <= j && (elements[i] matches Some(e)
            && e.is_password),
        (elements[j] matches Some(e) && e.control_type == 50004 && e.focusable) ==> i <= j || (
        elements[i] matches Some(e) && e.is_password),
        elements[i] matches Some(e) && (e.is_password || e.control_type == 50004 && e.focusable),
{
}

/// The names of the control types, by the system's numbers.
pub proof fn control_types_have_names(id: i32)
    ensures
        id == 50000 ==> control_type_name(id) == "Button"@,
        id == 50004 ==> control_type_name(id) == "Edit"@,
        id == 50020 ==> control_type_name(id) == "Text"@,
        id == 50026 ==> control_type_name(id) == "Group"@,
        id == 50032 ==> control_type_name(id) == "Window"@,
        id == 50033 ==> control_type_name(id) == "Pane"@,
        id != 50000 && id != 50004 && id != 50020 && id != 50026 && id != 50032 && id != 50033
            ==> control_type_name(id) == "?"@,
{
}

/// A status in words tells the four apart.
pub proof fn statuses_have_words(s: FocusStatus)
    ensures
        s == FocusStatus::FocusedCached ==> status_words(s) == "focused (cached)"@,
        s == FocusStatus::Focused ==> status_words(s) == "focused"@,
        s == FocusStatus::FoundNotFocused ==> status_words(s) == "found, SetFocus failed"@,
        s == FocusStatus::NoElement ==> status_words(s)
            == "no password element (fallback SendInput)"@,
{
}

proof fn names_occur(front: Seq<char>, name: Seq<char>, autoid: Seq<char>, class: Seq<char>)
    ensures
        ({
            let line = front + " name='"@ + name + "' autoid='"@ + autoid + "' class='"@ + class
                + "'"@;
            &&& text::occurs(line, " name='"@ + name + "' autoid='"@)
            &&& text::occurs(line, "' autoid='"@ + autoid + "' class='"@)
            &&& text::occurs(line, "' class='"@ + class + "'"@)
        }),
{
    let line = front + " name='"@ + name + "' autoid='"@ + autoid + "' class='"@ + class + "'"@;
    assert(text::occurs(line, " name='"@ + name + "' autoid='"@)) by {
        let back = autoid + "' class='"@ + class + "'"@;
        assert(line =~= front + (" name='"@ + name + "' autoid='"@) + back);
        text::the_middle_occurs(front, " name='"@ + name + "' autoid='"@, back);
    }
    assert(text::occurs(line, "' autoid='"@ + autoid + "' class='"@)) by {
        let before = front + " name='"@ + name;
        let back = class + "'"@;
        assert(line =~= before + ("' autoid='"@ + autoid + "' class='"@) + back);
        text::the_middle_occurs(before, "' autoid='"@ + autoid + "' class='"@, back);
    }
    assert(text::occurs(line, "' class='"@ + class + "'"@)) by {
        let before = front + " name='"@ + name + "' autoid='"@ + autoid;
        let back = Seq::<char>::empty();
        assert(line =~= before + ("' class='"@ + class + "'"@) + back);
        text::the_middle_occurs(before, "' class='"@ + class + "'"@, back);
    }
}

proof fn kinds_occur(
    place: Seq<char>,
    number: Seq<char>,
    word: Seq<char>,
    pwd: Seq<char>,
    focus: Seq<char>,
    tail: Seq<char>,
)
    ensures
        ({
            let line = place + number + "("@ + word + ") pwd="@ + pwd + " focusable="@ + focus
                + tail;
            &&& text::occurs_at(line, place, 0)
            &&& text::occurs(line, number + "("@ + word + ") pwd="@)
            &&& text::occurs(line, ") pwd="@ + pwd)
            &&& text::occurs(line, " focusable="@ + focus)
        }),
{
    let line = place + number + "("@ + word + ") pwd="@ + pwd + " focusable="@ + focus + tail;
    assert(text::occurs_at(line, place, 0)) by {
        assert(line.subrange(0, place.len() as int) =~= place);
    }
    assert(text::occurs(line, number + "("@ + word + ") pwd="@)) by {
        let middle = number + "("@ + word + ") pwd="@;
        let back = pwd + " focusable="@ + focus + tail;
        assert(line =~= place + middle + back);
        text::the_middle_occurs(place, middle, back);
    }
    assert(text::occurs(line, ") pwd="@ + pwd)) by {
        let front = place + number + "("@ + word;
        let back = " focusable="@ + focus + tail;
        assert(line =~= front + (") pwd="@ + pwd) + back);
        text::the_middle_occurs(front, ") pwd="@ + pwd, back);
    }
    assert(text::occurs(line, " focusable="@ + focus)) by {
        let front = place + number + "("@ + word + ") pwd="@ + pwd;
        assert(line =~= front + (" focusable="@ + focus) + tail);
        text::the_middle_occurs(front, " focusable="@ + focus, tail);
    }
}

/// A line of a dump begins with the element's place and says what it is, by number and by
/// name, whether it takes a password and the focus, and how it is named.
pub proof fn dumps_say_what_an_element_is(
    i: u32,
    e: ElementFacts,
    name: Seq<char>,
    autoid: Seq<char>,
    class: Seq<char>,
)
    ensures
        ({
            let line = dump_line_spec(i, e, name, autoid, class);
            &&& text::occurs_at(line, "  ["@ + text::decimal(i as nat) + "] ct="@, 0)
            &&& text::occurs(
                line,
                text::signed_decimal(e.control_type as int) + "("@ + control_type_name(
                    e.control_type,
                ) + ") pwd="@,
            )
            &&& text::occurs(line, ") pwd="@ + if e.is_password { "true"@ } else { "false"@ })
            &&& text::occurs(line, " focusable="@ + if e.focusable { "true"@ } else { "false"@ })
            &&& text::occurs(line, " name='"@ + name + "' autoid='"@)
            &&& text::occurs(line, "' autoid='"@ + autoid + "' class='"@)
            &&& text::occurs(line, "' class='"@ + class + "'"@)
        }),
{
    let line = dump_line_spec(i, e, name, autoid, class);
    let place = "  ["@ + text::decimal(i as nat) + "] ct="@;
    let number = text::signed_decimal(e.control_type as int);
    let word = control_type_name(e.control_type);
    let pwd = bool_word(e.is_password);
    let focus = bool_word(e.focusable);
    let tail = " name='"@ + name + "' autoid='"@ + autoid + "' class='"@ + class + "'"@;
    let front = place + number + "("@ + word + ") pwd="@ + pwd + " focusable="@ + focus;
    assert(line == front + " name='"@ + name + "' autoid='"@ + autoid + "' class='"@ + class + "'"@);
    assert(line =~= front + tail);
    names_occur(front, name, autoid, class);
    kinds_occur(place, number, word, pwd, focus, tail);
}

} // verus!
