//! Diagnostics about this process and the XInput libraries it reads through.

use vstd::prelude::*;

use super::types::{Gamepad, ERROR_SUCCESS};
use crate::clock;
use crate::clock::is_due;
use crate::text;
use crate::text::{decimal_of, hex_of, push_hex4, put, signed_decimal_of};

verus! {

pub const HEARTBEAT_MS: u64 = 2000;

/// A process in a snapshot.
pub struct ProcessEntry {
    pub pid: u32,
    pub parent: u32,
    pub name: String,
}

/// The first entry with process id `pid`.
pub open spec fn entry_of(snapshot: Seq<ProcessEntry>, pid: u32, from: int) -> Option<int>
    decreases snapshot.len() - from,
{
    if from < 0 || from >= snapshot.len() {
        None
    } else if snapshot[from].pid == pid {
        Some(from)
    } else {
        entry_of(snapshot, pid, from + 1)
    }
}

fn find_entry(snapshot: &Vec<ProcessEntry>, pid: u32) -> (at: Option<usize>)
    ensures
        match at {
            Some(i) => i < snapshot@.len() && entry_of(snapshot@, pid, 0) == Some(i as int),
            None => entry_of(snapshot@, pid, 0) is None,
        },
{
    let mut i: usize = 0;
    while i < snapshot.len()
        invariant
            i <= snapshot.len(),
            entry_of(snapshot@, pid, 0) == entry_of(snapshot@, pid, i as int),
        decreases snapshot.len() - i,
    {
        if snapshot[i].pid == pid {
            return Some(i);
        }
        i += 1;
    }
    None
}

/// The parent of `pid` and the parent's image name; `0` and `?` where unknown.
pub fn parent_process_of(snapshot: &Vec<ProcessEntry>, pid: u32) -> (r: (u32, String))
    ensures
        match entry_of(snapshot@, pid, 0) {
            None => r.0 == 0 && r.1@ == "?"@,
            Some(i) => {
                let parent = snapshot@[i].parent;
                r.0 == parent && r.1@ == (match entry_of(snapshot@, parent, 0) {
                    Some(j) => snapshot@[j].name@,
                    None => "?"@,
                })
            },
        },
{
    match find_entry(snapshot, pid) {
        None => (0, "?".to_owned()),
        Some(i) => {
            let parent: u32 = snapshot[i].parent;
            match find_entry(snapshot, parent) {
                Some(j) => (parent, snapshot[j].name.clone()),
                None => (parent, "?".to_owned()),
            }
        },
    }
}

/// A locally unique identifier as one number.
pub open spec fn luid_value(high: i32, low: u32) -> int {
    (high as int % 0x1_0000_0000) * 0x1_0000_0000 + low
}

/// `luid_value`, computed.
pub fn luid(high: i32, low: u32) -> (r: u64)
    ensures
        r == luid_value(high, low),
{
    let h: i64 = high as i64;
    let unsigned: u64 = if h < 0 {
        (h + 0x1_0000_0000) as u64
    } else {
        h as u64
    };
    unsigned * 0x1_0000_0000 + low as u64
}

/// What the token of this process says, where it could be read.
pub struct TokenFacts {
    pub user: Option<String>,
    pub integrity_rid: Option<u32>,
    pub auth_id: u64,
    pub origin: u64,
    pub token_type: i32,
    pub impersonation_level: i32,
}

pub open spec fn or_unknown(s: Option<String>) -> Seq<char> {
    match s {
        Some(t) => t@,
        None => "?"@,
    }
}

pub open spec fn rid_text(rid: Option<u32>) -> Seq<char> {
    match rid {
        Some(r) => "0x"@ + text::hex(r as nat),
        None => "?"@,
    }
}

/// The identity line of this process.
pub open spec fn identity_line(
    pid: u32,
    session: u32,
    token: Option<TokenFacts>,
    parent: (u32, String),
    desktop: Option<String>,
) -> Seq<char> {
    match token {
        None => "SELF pid="@ + text::decimal(pid as nat) + " proc_sess="@ + text::decimal(
            session as nat,
        ) + " token=open_err"@,
        Some(t) => "SELF pid="@ + text::decimal(pid as nat) + " parent="@ + text::decimal(
            parent.0 as nat,
        ) + "("@ + parent.1@ + ") proc_sess="@ + text::decimal(session as nat) + " user="@
            + or_unknown(t.user) + " integrity="@ + rid_text(t.integrity_rid) + " authid=0x"@
            + text::hex(t.auth_id as nat) + " origin=0x"@ + text::hex(t.origin as nat)
            + " toktype="@ + text::signed_decimal(t.token_type as int) + " implevel="@
            + text::signed_decimal(t.impersonation_level as int) + " desktop="@ + or_unknown(
            desktop,
        ),
    }
}

fn put_or_unknown(out: &mut String, s: &Option<String>)
    ensures
        final(out)@ == old(out)@ + or_unknown(*s),
{
    match s {
        Some(t) => put(out, t.as_str()),
        None => put(out, "?"),
    }
}

fn put_rid(out: &mut String, rid: Option<u32>)
    ensures
        final(out)@ == old(out)@ + rid_text(rid),
{
    match rid {
        Some(r) => {
            put(out, "0x");
            put(out, hex_of(r as u64).as_str());
            assert(out@ =~= old(out)@ + rid_text(rid));
        },
        None => put(out, "?"),
    }
}

/// One line that identifies this process: its session, parent, token and desktop.
pub fn probe_self_identity(
    pid: u32,
    session: u32,
    token: Option<TokenFacts>,
    parent: (u32, String),
    desktop: Option<String>,
) -> (line: String)
    ensures
        line@ == identity_line(pid, session, token, parent, desktop),
{
    let mut line: String = "SELF pid=".to_owned();
    put(&mut line, decimal_of(pid as u64).as_str());
    match &token {
        None => {
            put(&mut line, " proc_sess=");
            put(&mut line, decimal_of(session as u64).as_str());
            put(&mut line, " token=open_err");
        },
        Some(t) => {
            put(&mut line, " parent=");
            put(&mut line, decimal_of(parent.0 as u64).as_str());
            put(&mut line, "(");
            put(&mut line, parent.1.as_str());
            put(&mut line, ") proc_sess=");
            put(&mut line, decimal_of(session as u64).as_str());
            put(&mut line, " user=");
            put_or_unknown(&mut line, &t.user);
            put(&mut line, " integrity=");
            put_rid(&mut line, t.integrity_rid);
            put(&mut line, " authid=0x");
            put(&mut line, hex_of(t.auth_id).as_str());
            put(&mut line, " origin=0x");
            put(&mut line, hex_of(t.origin).as_str());
            put(&mut line, " toktype=");
            put(&mut line, signed_decimal_of(t.token_type as i64).as_str());
            put(&mut line, " implevel=");
            put(&mut line, signed_decimal_of(t.impersonation_level as i64).as_str());
            put(&mut line, " desktop=");
            put_or_unknown(&mut line, &desktop);
        },
    }
    line
}

/// The foreground window as the probe line shows it.
pub struct ForegroundFacts {
    pub handle: u64,
    pub pid: u32,
    pub ours: bool,
    pub class: Option<String>,
}

pub open spec fn foreground_text(fg: Option<ForegroundFacts>) -> Seq<char> {
    match fg {
        None => "fg=none"@,
        Some(f) => "fg=0x"@ + text::hex(f.handle as nat) + " pid="@ + text::decimal(f.pid as nat)
            + " ours="@ + (if f.ours { "true"@ } else { "false"@ }) + " class="@ + or_unknown(
            f.class,
        ),
    }
}

/// Who owns the foreground, in words.
pub fn probe_foreground(fg: &Option<ForegroundFacts>) -> (out: String)
    ensures
        out@ == foreground_text(*fg),
{
    match fg {
        None => "fg=none".to_owned(),
        Some(f) => {
            let mut out: String = "fg=0x".to_owned();
            put(&mut out, hex_of(f.handle).as_str());
            put(&mut out, " pid=");
            put(&mut out, decimal_of(f.pid as u64).as_str());
            put(&mut out, " ours=");
            put(
                &mut out,
                if f.ours {
                    "true"
                } else {
                    "false"
                },
            );
            put(&mut out, " class=");
            put_or_unknown(&mut out, &f.class);
            out
        },
    }
}

/// What one XInput library answered for the probed slot.
pub struct ProbeReading {
    pub label: String,
    pub err: u32,
    pub packet: u32,
    pub pad: Gamepad,
}

/// Capabilities of the probed pad.
pub struct ProbeCaps {
    pub label: String,
    pub kind: u8,
    pub subtype: u8,
    pub flags: u16,
}

/// Watches one slot through several XInput libraries side by side.
pub struct XInputProbe {
    /// The union of every library's buttons at the last report.
    pub last_combined: u16,
    pub logged_caps: bool,
    pub last_heartbeat: Option<u64>,
}

/// The buttons that any of the first `n` libraries reports.
pub open spec fn combined_upto(readings: Seq<ProbeReading>, n: nat) -> u16
    decreases n,
{
    if n == 0 {
        0
    } else if readings[n - 1].err == ERROR_SUCCESS {
        combined_upto(readings, (n - 1) as nat) | readings[n - 1].pad.buttons
    } else {
        combined_upto(readings, (n - 1) as nat)
    }
}

/// One library's part of the probe line.
pub open spec fn probe_part(r: ProbeReading) -> Seq<char> {
    let ok = r.err == ERROR_SUCCESS;
    r.label@ + ":err="@ + text::decimal(r.err as nat) + " btn=0x"@ + text::hex4(
        if ok { r.pad.buttons } else { 0 },
    ) + " pkt="@ + text::decimal(if ok { r.packet as nat } else { 0 }) + " lt="@ + text::decimal(
        r.pad.left_trigger as nat,
    ) + " rt="@ + text::decimal(r.pad.right_trigger as nat) + " lx="@ + text::signed_decimal(
        r.pad.thumb_lx as int,
    ) + " ly="@ + text::signed_decimal(r.pad.thumb_ly as int)
}

/// The parts of the first `n` libraries, separated by bars.
pub open spec fn probe_parts(readings: Seq<ProbeReading>, n: nat) -> Seq<char>
    decreases n,
{
    if n == 0 {
        seq![]
    } else if n == 1 {
        probe_part(readings[0])
    } else {
        probe_parts(readings, (n - 1) as nat) + " | "@ + probe_part(readings[n - 1])
    }
}

pub open spec fn caps_part(c: ProbeCaps) -> Seq<char> {
    " caps["@ + c.label@ + "]:type="@ + text::decimal(c.kind as nat) + " subtype="@ + text::decimal(
        c.subtype as nat,
    ) + " flags=0x"@ + text::hex4(c.flags)
}

/// The whole probe line.
pub open spec fn probe_line(slot: u32, readings: Seq<ProbeReading>, foreground: Seq<char>, caps: Option<ProbeCaps>) -> Seq<char> {
    "XPROBE slot"@ + text::decimal(slot as nat) + " ["@ + probe_parts(readings, readings.len())
        + "] "@ + foreground + (match caps {
        Some(c) => caps_part(c),
        None => seq![],
    })
}

fn put_part(out: &mut String, r: &ProbeReading)
    ensures
        final(out)@ == old(out)@ + probe_part(*r),
{
    let ok = r.err == ERROR_SUCCESS;
    put(out, r.label.as_str());
    put(out, ":err=");
    put(out, decimal_of(r.err as u64).as_str());
    put(out, " btn=0x");
    push_hex4(
        out,
        if ok {
            r.pad.buttons
        } else {
            0
        },
    );
    put(out, " pkt=");
    put(
        out,
        decimal_of(
            if ok {
                r.packet as u64
            } else {
                0
            },
        ).as_str(),
    );
    put(out, " lt=");
    put(out, decimal_of(r.pad.left_trigger as u64).as_str());
    put(out, " rt=");
    put(out, decimal_of(r.pad.right_trigger as u64).as_str());
    put(out, " lx=");
    put(out, signed_decimal_of(r.pad.thumb_lx as i64).as_str());
    put(out, " ly=");
    put(out, signed_decimal_of(r.pad.thumb_ly as i64).as_str());
    assert(out@ =~= old(out)@ + probe_part(*r));
}

impl XInputProbe {
    pub fn new() -> (p: Self)
        ensures
            p.last_combined == 0,
            !p.logged_caps,
            p.last_heartbeat is None,
    {
        XInputProbe { last_combined: 0, logged_caps: false, last_heartbeat: None }
    }

    /// One round of readings: a line when the buttons changed or a heartbeat is
    /// due. `caps` are the capabilities the first library gave, where it gave
    /// any; they are added to the first line only.
    pub fn tick(
        &mut self,
        now: u64,
        slot: u32,
        readings: &Vec<ProbeReading>,
        foreground: &str,
        caps: Option<ProbeCaps>,
    ) -> (line: Option<String>)
        ensures
            ({
                let combined = combined_upto(readings@, readings@.len());
                let edge = combined != old(self).last_combined;
                let heartbeat = clock::due(old(self).last_heartbeat, now, HEARTBEAT_MS);
                let shown = if old(self).logged_caps { None::<ProbeCaps> } else { caps };
                if !edge && !heartbeat {
                    line is None && *final(self) == *old(self)
                } else {
                    &&& line matches Some(l) && l@ == probe_line(slot, readings@, foreground@, shown)
                    &&& final(self).last_combined == combined
                    &&& final(self).last_heartbeat == (if heartbeat {
                        Some(now)
                    } else {
                        old(self).last_heartbeat
                    })
                    &&& final(self).logged_caps == (old(self).logged_caps || shown is Some)
                }
            }),
    {
        let mut combined: u16 = 0;
        let mut parts: String = String::new();
        let mut i: usize = 0;
        while i < readings.len()
            invariant
                i <= readings.len(),
                combined == combined_upto(readings@, i as nat),
                parts@ == probe_parts(readings@, i as nat),
            decreases readings.len() - i,
        {
            let r = &readings[i];
            if r.err == ERROR_SUCCESS {
                combined = combined | r.pad.buttons;
            }
            if i > 0 {
                put(&mut parts, " | ");
            }
            put_part(&mut parts, r);
            i += 1;
            assert(parts@ =~= probe_parts(readings@, i as nat));
        }
        let edge = combined != self.last_combined;
        let heartbeat = is_due(self.last_heartbeat, now, HEARTBEAT_MS);
        if !edge && !heartbeat {
            return None;
        }
        self.last_combined = combined;
        if heartbeat {
            self.last_heartbeat = Some(now);
        }
        let mut line: String = "XPROBE slot".to_owned();
        put(&mut line, decimal_of(slot as u64).as_str());
        put(&mut line, " [");
        put(&mut line, parts.as_str());
        put(&mut line, "] ");
        put(&mut line, foreground);
        let ghost head = line@;
        if !self.logged_caps {
            if let Some(c) = &caps {
                self.logged_caps = true;
                put(&mut line, " caps[");
                put(&mut line, c.label.as_str());
                put(&mut line, "]:type=");
                put(&mut line, decimal_of(c.kind as u64).as_str());
                put(&mut line, " subtype=");
                put(&mut line, decimal_of(c.subtype as u64).as_str());
                put(&mut line, " flags=0x");
                push_hex4(&mut line, c.flags);
                assert(line@ =~= head + caps_part(*c));
            }
        }
        let ghost shown = if old(self).logged_caps { None::<ProbeCaps> } else { caps };
        assert(line@ =~= probe_line(slot, readings@, foreground@, shown));
        Some(line)
    }
}

/// A button counts as down exactly where one of the libraries that answered reports it.
pub proof fn any_library_counts(readings: Seq<ProbeReading>, n: nat, mask: u16)
    requires
        n <= readings.len(),
    ensures
        combined_upto(readings, n) & mask == 0 <==> forall|i: int|
            0 <= i < n && (#[trigger] readings[i]).err == 0 ==> readings[i].pad.buttons & mask == 0,
    decreases n,
{
    if n == 0 {
        assert(0u16 & mask == 0) by (bit_vector);
    } else {
        any_library_counts(readings, (n - 1) as nat, mask);
        let before = combined_upto(readings, (n - 1) as nat);
        let b = readings[n - 1].pad.buttons;
        assert((before | b) & mask == 0 <==> before & mask == 0 && b & mask == 0) by (bit_vector);
        if combined_upto(readings, n) & mask == 0 {
            assert forall|i: int| 0 <= i < n && (#[trigger] readings[i]).err
                == 0 implies readings[i].pad.buttons & mask == 0 by {}
        } else if readings[n - 1].err == 0 && b & mask != 0 {
            assert(readings[n - 1].err == 0);
        } else {
            let i = choose|i: int|
                0 <= i < n - 1 && (#[trigger] readings[i]).err == 0 && readings[i].pad.buttons
                    & mask != 0;
            assert(readings[i].err == 0);
        }
    }
}

/// An identifier's low half is its low part, and its high half its high part in two's
/// complement.
pub proof fn identifiers_keep_their_halves(high: i32, low: u32)
    ensures
        luid_value(high, low) % 0x1_0000_0000 == low,
        high >= 0 ==> luid_value(high, low) / 0x1_0000_0000 == high,
        high < 0 ==> luid_value(high, low) / 0x1_0000_0000 == high + 0x1_0000_0000,
        0 <= luid_value(high, low) <= u64::MAX,
{
}

/// A process is found by its number: the first entry that has it, wherever it stands.
pub proof fn processes_are_found_by_number(snapshot: Seq<ProcessEntry>, pid: u32, from: int, i: int)
    requires
        0 <= from <= i < snapshot.len(),
        snapshot[i].pid == pid,
        forall|k: int| from <= k < i ==> (#[trigger] snapshot[k]).pid != pid,
    ensures
        entry_of(snapshot, pid, from) == Some(i),
    decreases i - from,
{
    if from < i {
        assert(snapshot[from].pid != pid);
        processes_are_found_by_number(snapshot, pid, from + 1, i);
    }
}

/// The probe's heartbeat comes every two seconds.
pub proof fn the_probe_beats_every_two_seconds(t: u64, now: u64)
    ensures
        clock::due(Some(t), now, HEARTBEAT_MS) <==> now >= t + 2000,
{
}

} // verus!
