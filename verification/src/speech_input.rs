//! Dictation: which engine and microphone it uses, the helper process that
//! records, when a recording is over, and what is made of the transcript.

use vstd::prelude::*;

use crate::clock;
use crate::clock::is_due;
use crate::text;
use crate::text::{
    chars_of, concat2, concat3, contains_chars, decimal_of, is_whitespace, lower_chars, put,
    same_ignoring_case, same_str, stands_at, string_of, trim,
};
use crate::speech_wire::{HOST, WHISPER_PORT};
use crate::surface::Surface;

verus! {

/// Where the engines are installed and the choices are kept.
pub const SPEECH_DIR: &'static str = "C:\\ProgramData\\WarmupVk\\speech";

/// Where the second engine is installed.
pub const PARAKEET_DIR: &'static str = "C:\\ProgramData\\WarmupVk\\speech\\parakeet";

pub const SERVER_EXE: &'static str = "whisper-server.exe";

/// No one is signed in at the console.
pub const INVALID_CONSOLE_SESSION: u32 = 0xffff_ffff;

/// The exit code of a process that still runs.
pub const STILL_ACTIVE: u32 = 259;

/// How long the answer to whether dictation is installed is kept.
pub const AVAILABLE_CACHE_MS: u64 = 3000;

pub const WHISPER_READY_MS: u64 = 40_000;

pub const PARAKEET_READY_MS: u64 = 90_000;

/// How often a recording is looked at.
pub const TICK_MS: u64 = 50;

/// So much quiet after speech ends a recording.
pub const AUTO_STOP_MS: u64 = 2500;

/// No recording is longer, in seconds.
pub const MAX_RECORD_S: u64 = 180;

/// How many looks are spent learning the noise of the room.
pub const WARMUP_LOOKS: u32 = 16;

/// A file in the dictation directory.
pub open spec fn in_dir(name: Seq<char>) -> Seq<char> {
    SPEECH_DIR@ + "\\"@ + name
}

pub fn server_path() -> (p: String)
    ensures
        p@ == in_dir(SERVER_EXE@),
{
    concat3(SPEECH_DIR, "\\", SERVER_EXE)
}

pub fn engine_path() -> (p: String)
    ensures
        p@ == in_dir("engine.txt"@),
{
    concat3(SPEECH_DIR, "\\", "engine.txt")
}

pub fn mic_choice_path() -> (p: String)
    ensures
        p@ == in_dir("mic.txt"@),
{
    concat3(SPEECH_DIR, "\\", "mic.txt")
}

pub fn lang_path() -> (p: String)
    ensures
        p@ == in_dir("lang.txt"@),
{
    concat3(SPEECH_DIR, "\\", "lang.txt")
}

pub fn model_choice_path() -> (p: String)
    ensures
        p@ == in_dir("model.txt"@),
{
    concat3(SPEECH_DIR, "\\", "model.txt")
}

pub fn status_path() -> (p: String)
    ensures
        p@ == in_dir("rt\\status"@),
{
    concat3(SPEECH_DIR, "\\", "rt\\status")
}

pub fn stop_path() -> (p: String)
    ensures
        p@ == in_dir("rt\\stop"@),
{
    concat3(SPEECH_DIR, "\\", "rt\\stop")
}

pub fn level_path() -> (p: String)
    ensures
        p@ == in_dir("rt\\level"@),
{
    concat3(SPEECH_DIR, "\\", "rt\\level")
}

/// Which model the first engine loads.
#[derive(Clone, Copy, Debug, PartialEq, Eq, Structural)]
pub enum ModelChoice {
    /// The one that the environment names.
    Override,
    /// The one that the installer chose.
    Chosen,
    /// A model file of the directory, by its place in the listing.
    Listed(usize),
    Missing,
}

/// Whether a file's extension is that of a model.
pub open spec fn is_model(extension: Option<String>) -> bool {
    extension matches Some(x) && text::ascii_equal(x@, "bin"@)
}

/// The first model in a listing from `from` on.
pub open spec fn first_model(extensions: Seq<Option<String>>, from: int) -> Option<int>
    decreases extensions.len() - from,
{
    if from < 0 || from >= extensions.len() {
        None
    } else if is_model(extensions[from]) {
        Some(from)
    } else {
        first_model(extensions, from + 1)
    }
}

/// The model to load. A name in the environment counts alone, whether its file is
/// there or not; then the installer's choice, if its file is there; then the first
/// model file.
pub open spec fn model_choice(
    named: Option<bool>,
    chosen: Option<bool>,
    extensions: Seq<Option<String>>,
) -> ModelChoice {
    match named {
        Some(is_file) => if is_file {
            ModelChoice::Override
        } else {
            ModelChoice::Missing
        },
        None => if chosen == Some(true) {
            ModelChoice::Chosen
        } else {
            match first_model(extensions, 0) {
                Some(i) => ModelChoice::Listed(i as usize),
                None => ModelChoice::Missing,
            }
        },
    }
}

/// `model_choice`, computed: `named` and `chosen` say whether the file that the
/// environment or the installer names is there, and `extensions` are those of the
/// directory's files.
pub fn model_path(
    named: Option<bool>,
    chosen: Option<bool>,
    extensions: &Vec<Option<String>>,
) -> (c: ModelChoice)
    ensures
        c == model_choice(named, chosen, extensions@),
{
    if let Some(is_file) = named {
        return if is_file {
            ModelChoice::Override
        } else {
            ModelChoice::Missing
        };
    }
    if let Some(is_file) = chosen {
        if is_file {
            return ModelChoice::Chosen;
        }
    }
    let mut i: usize = 0;
    while i < extensions.len()
        invariant
            i <= extensions.len(),
            named is None,
            chosen != Some(true),
            first_model(extensions@, 0) == first_model(extensions@, i as int),
        decreases extensions.len() - i,
    {
        if let Some(x) = &extensions[i] {
            if same_ignoring_case(x.as_str(), "bin") {
                return ModelChoice::Listed(i);
            }
        }
        i += 1;
    }
    ModelChoice::Missing
}

/// Whether the first engine is installed: its server and a model.
pub fn whisper_available(server_is_file: bool, model: ModelChoice) -> (r: bool)
    ensures
        r == (server_is_file && model != ModelChoice::Missing),
{
    server_is_file && !matches!(model, ModelChoice::Missing)
}

/// Whether a file name is that of the second engine's decoder: it begins with
/// `decoder_joint` and ends in `.onnx`.
pub open spec fn names_decoder(name: Seq<char>) -> bool {
    &&& name.len() >= "decoder_joint"@.len() + ".onnx"@.len()
    &&& text::occurs_at(name, "decoder_joint"@, 0)
    &&& text::occurs_at(name, ".onnx"@, name.len() - ".onnx"@.len())
}

/// Whether the second engine's decoder is among the named files.
pub fn decoder_listed(names: &Vec<String>) -> (r: bool)
    ensures
        r == exists|i: int| 0 <= i < names@.len() && #[trigger] names_decoder(names@[i]@),
{
    let start = chars_of("decoder_joint");
    let end = chars_of(".onnx");
    let mut i: usize = 0;
    while i < names.len()
        invariant
            i <= names.len(),
            start@ == "decoder_joint"@,
            end@ == ".onnx"@,
            forall|k: int| 0 <= k < i ==> !#[trigger] names_decoder(names@[k]@),
        decreases names.len() - i,
    {
        let name = chars_of(names[i].as_str());
        if name.len() >= end.len() && name.len() - end.len() >= start.len() && stands_at(
            name.as_slice(),
            start.as_slice(),
            0,
        ) && stands_at(name.as_slice(), end.as_slice(), name.len() - end.len()) {
            assert(names_decoder(names@[i as int]@));
            return true;
        }
        i += 1;
    }
    false
}

/// Whether the second engine is installed: an encoder of either kind, a decoder,
/// the vocabulary and the runtime.
pub fn parakeet_available(
    encoder_int8: bool,
    encoder: bool,
    decoder_joint: bool,
    vocab: bool,
    runtime: bool,
) -> (r: bool)
    ensures
        r == ((encoder_int8 || encoder) && decoder_joint && vocab && runtime),
{
    (encoder_int8 || encoder) && decoder_joint && vocab && runtime
}

/// Whether dictation is installed: either engine is enough.
pub fn available(whisper: bool, parakeet: bool) -> (r: bool)
    ensures
        r == (whisper || parakeet),
{
    whisper || parakeet
}

/// Whether dictation can be started where the keyboard stands: it is installed, and
/// this is not the secure desktop, where there is no microphone.
pub fn voice_reachable(installed: bool, surface: Option<Surface>) -> (r: bool)
    ensures
        r == (installed && surface != Some(Surface::Winlogon)),
        surface == Some(Surface::Winlogon) ==> !r,
        surface != Some(Surface::Winlogon) ==> r == installed,
{
    installed && match surface {
        Some(s) => !s.is_winlogon(),
        None => true,
    }
}

/// Whether a server answers, by whether connecting to it worked.
pub fn server_up(connected: bool) -> (r: bool)
    ensures
        r == connected,
{
    connected
}

/// The engine that a choice stands for.
pub open spec fn engine_of(content: Option<Seq<char>>) -> Seq<char> {
    match content {
        Some(s) => if text::trimmed(s) == "parakeet"@ {
            "parakeet"@
        } else {
            "whisper"@
        },
        None => "whisper"@,
    }
}

pub open spec fn opt_view(s: Option<String>) -> Option<Seq<char>> {
    match s {
        Some(s) => Some(s@),
        None => None,
    }
}

/// The engine that the user chose, by the content of the file that keeps the
/// choice.
pub fn engine(content: &Option<String>) -> (e: String)
    ensures
        e@ == engine_of(opt_view(*content)),
{
    match content {
        Some(s) => if same_str(trim(s.as_str()).as_str(), "parakeet") {
            "parakeet".to_owned()
        } else {
            "whisper".to_owned()
        },
        None => "whisper".to_owned(),
    }
}

/// What is kept of a choice of engine.
pub open spec fn kept_engine(name: Seq<char>) -> Seq<char> {
    if name == "parakeet"@ {
        "parakeet"@
    } else {
        "whisper"@
    }
}

/// `kept_engine`, computed.
pub fn set_engine(name: &str) -> (kept: String)
    ensures
        kept@ == kept_engine(name@),
{
    if same_str(name, "parakeet") {
        "parakeet".to_owned()
    } else {
        "whisper".to_owned()
    }
}

/// Whether this run uses the second engine: the user's choice where it is
/// installed, else whatever is.
pub fn use_parakeet(parakeet_available: bool, engine: &str, whisper_available: bool) -> (r: bool)
    ensures
        r == (parakeet_available && (engine@ == "parakeet"@ || !whisper_available)),
        !parakeet_available ==> !r,
        parakeet_available && engine@ == "parakeet"@ ==> r,
        parakeet_available && engine@ != "parakeet"@ ==> r == !whisper_available,
{
    parakeet_available && (same_str(engine, "parakeet") || !whisper_available)
}

/// A kept text, trimmed; a blank one counts as none.
pub open spec fn kept_text(content: Option<Seq<char>>) -> Option<Seq<char>> {
    match content {
        Some(s) => if text::trimmed(s).len() == 0 {
            None
        } else {
            Some(text::trimmed(s))
        },
        None => None,
    }
}

fn kept(content: &Option<String>) -> (r: Option<String>)
    ensures
        opt_view(r) == kept_text(opt_view(*content)),
{
    match content {
        Some(s) => {
            let t = trim(s.as_str());
            if chars_of(t.as_str()).len() == 0 {
                None
            } else {
                Some(t)
            }
        },
        None => None,
    }
}

/// The microphone that the user chose; none for the system's default.
pub fn mic_choice(content: &Option<String>) -> (r: Option<String>)
    ensures
        opt_view(r) == kept_text(opt_view(*content)),
{
    kept(content)
}

/// What is kept of a choice of microphone; none means to forget the choice.
pub fn set_mic_choice(name: &str) -> (r: Option<String>)
    ensures
        opt_view(r) == kept_text(Some(name@)),
{
    let t = trim(name);
    if chars_of(t.as_str()).len() == 0 {
        None
    } else {
        Some(t)
    }
}

/// What is kept of the keyboard's language.
pub fn set_vk_language(de: bool) -> (lang: &'static str)
    ensures
        lang@ == (if de {
            "de"@
        } else {
            "en"@
        }),
{
    if de {
        "de"
    } else {
        "en"
    }
}

/// The keyboard's language.
pub fn vk_language(content: &Option<String>) -> (r: Option<String>)
    ensures
        opt_view(r) == kept_text(opt_view(*content)),
{
    kept(content)
}

/// The helper's phase.
pub fn current_phase(content: &Option<String>) -> (r: Option<String>)
    ensures
        opt_view(r) == kept_text(opt_view(*content)),
{
    kept(content)
}

pub open spec fn ui_phase(alive: bool, phase: Option<Seq<char>>) -> Option<Seq<char>> {
    if !alive {
        None
    } else {
        match phase {
            Some(p) => Some(p),
            None => Some("starting"@),
        }
    }
}

/// What the microphone shows: the phase of a helper that runs, which is starting
/// until it reports another.
pub fn voice_ui_phase(alive: bool, phase: Option<String>) -> (r: Option<String>)
    ensures
        opt_view(r) == ui_phase(alive, opt_view(phase)),
{
    if !alive {
        None
    } else {
        match phase {
            Some(p) => Some(p),
            None => Some("starting".to_owned()),
        }
    }
}

/// What stands before the first hyphen.
pub open spec fn before_hyphen(s: Seq<char>) -> Seq<char>
    decreases s.len(),
{
    if s.len() == 0 || s[0] == '-' {
        seq![]
    } else {
        seq![s[0]] + before_hyphen(s.skip(1))
    }
}

/// The language of recognition: the environment's, else that of the user's locale,
/// else left to be detected.
pub open spec fn language_of(env: Option<Seq<char>>, locale: Option<Seq<char>>) -> Seq<char> {
    match kept_text(env) {
        Some(l) => l,
        None => match locale {
            Some(name) => if before_hyphen(name).len() > 0 {
                text::ascii_lower_all(before_hyphen(name))
            } else {
                "auto"@
            },
            None => "auto"@,
        },
    }
}

fn primary_tag(name: &str) -> (out: Vec<char>)
    ensures
        out@ == before_hyphen(name@),
{
    let chars = chars_of(name);
    let mut out: Vec<char> = Vec::new();
    let mut i: usize = 0;
    assert(chars@.skip(0) =~= chars@);
    assert(Seq::<char>::empty() + before_hyphen(name@) =~= before_hyphen(name@));
    while i < chars.len() && chars[i] != '-'
        invariant
            i <= chars.len(),
            chars@ == name@,
            before_hyphen(name@) == out@ + before_hyphen(chars@.skip(i as int)),
        decreases chars.len() - i,
    {
        let ghost before = out@;
        assert(chars@.skip(i as int).skip(1) =~= chars@.skip(i + 1));
        out.push(chars[i]);
        i += 1;
        assert(before + (seq![chars@[i - 1]] + before_hyphen(chars@.skip(i as int))) =~= out@
            + before_hyphen(chars@.skip(i as int)));
    }
    assert(out@ + before_hyphen(chars@.skip(i as int)) =~= out@);
    out
}

/// `language_of`, computed.
pub fn language(env: &Option<String>, locale: &Option<String>) -> (lang: String)
    ensures
        lang@ == language_of(opt_view(*env), opt_view(*locale)),
{
    if let Some(l) = kept(env) {
        return l;
    }
    if let Some(name) = locale {
        let tag = primary_tag(name.as_str());
        if tag.len() > 0 {
            return string_of(lower_chars(tag.as_slice()).as_slice());
        }
    }
    "auto".to_owned()
}

/// The language to send: the keyboard's, else that of recognition.
pub fn send_language(vk: Option<String>, language: String) -> (lang: String)
    ensures
        lang@ == (match opt_view(vk) {
            Some(l) => l,
            None => language@,
        }),
{
    match vk {
        Some(l) => l,
        None => language,
    }
}

/// The microphones that gave a name.
pub open spec fn named(names: Seq<Option<String>>) -> Seq<Seq<char>>
    decreases names.len(),
{
    if names.len() == 0 {
        seq![]
    } else {
        match names.last() {
            Some(n) => named(names.drop_last()).push(n@),
            None => named(names.drop_last()),
        }
    }
}

/// The microphones to choose from; none where the system lists none.
pub fn list_mics(names: Vec<Option<String>>) -> (out: Vec<String>)
    ensures
        out@.map(|_i: int, s: String| s@) == named(names@),
{
    let mut out: Vec<String> = Vec::new();
    let mut i: usize = 0;
    assert(names@.take(0).len() == 0);
    assert(out@.map(|_i: int, s: String| s@) =~= named(names@.take(0)));
    while i < names.len()
        invariant
            i <= names.len(),
            out@.map(|_i: int, s: String| s@) == named(names@.take(i as int)),
        decreases names.len() - i,
    {
        let ghost before = out@.map(|_i: int, s: String| s@);
        assert(names@.take(i + 1).drop_last() =~= names@.take(i as int));
        assert(names@.take(i + 1).last() == names@[i as int]);
        if let Some(n) = &names[i] {
            out.push(n.clone());
            assert(out@.map(|_i: int, s: String| s@) =~= before.push(n@));
        }
        i += 1;
    }
    assert(names@.take(i as int) =~= names@);
    out
}

/// The first device from `from` on whose name holds the wanted text.
pub open spec fn first_named(names: Seq<Option<String>>, want: Seq<char>, from: int) -> Option<int>
    decreases names.len() - from,
{
    if from < 0 || from >= names.len() {
        None
    } else if names[from] matches Some(n) && text::occurs(n@, want) {
        Some(from)
    } else {
        first_named(names, want, from + 1)
    }
}

/// The device to record with, by its place in the list; none for the system's
/// default.
pub fn pick_device(want: &Option<String>, names: &Vec<Option<String>>) -> (r: Option<usize>)
    ensures
        match (*want, r) {
            (None, _) => r is None,
            (Some(w), Some(i)) => first_named(names@, w@, 0) == Some(i as int),
            (Some(w), None) => first_named(names@, w@, 0) is None,
        },
{
    match want {
        None => None,
        Some(w) => {
            let needle = chars_of(w.as_str());
            let mut i: usize = 0;
            while i < names.len()
                invariant
                    i <= names.len(),
                    needle@ == w@,
                    *want == Some(*w),
                    first_named(names@, w@, 0) == first_named(names@, w@, i as int),
                decreases names.len() - i,
            {
                if let Some(n) = &names[i] {
                    if contains_chars(chars_of(n.as_str()).as_slice(), needle.as_slice()) {
                        return Some(i);
                    }
                }
                i += 1;
            }
            None
        },
    }
}

/// Whether dictation is installed, as it was last looked up.
#[derive(Clone, Copy, Debug)]
pub struct AvailableCache {
    pub seen: Option<(u64, bool)>,
}

impl AvailableCache {
    pub fn new() -> (c: Self)
        ensures
            c.seen is None,
    {
        AvailableCache { seen: None }
    }

    /// The answer that can still be used.
    pub open spec fn answer(self, now: u64) -> Option<bool> {
        match self.seen {
            Some((at, v)) => if clock::elapsed(at, now) < AVAILABLE_CACHE_MS {
                Some(v)
            } else {
                None
            },
            None => None,
        }
    }

    /// `answer`, computed; none means to look it up.
    pub fn available_cached(&self, now: u64) -> (r: Option<bool>)
        ensures
            r == self.answer(now),
    {
        match self.seen {
            Some((at, v)) => if !is_due(Some(at), now, AVAILABLE_CACHE_MS) {
                Some(v)
            } else {
                None
            },
            None => None,
        }
    }

    /// Keeps an answer that was looked up.
    pub fn keep(&mut self, now: u64, v: bool)
        ensures
            final(self).seen == Some((now, v)),
    {
        self.seen = Some((now, v));
    }
}

/// An answer is used again for a while, and only for that while.
pub proof fn answers_are_kept_for_a_while(c: AvailableCache, at: u64, v: bool, now: u64)
    requires
        c.seen == Some((at, v)),
        at <= now,
    ensures
        now - at < AVAILABLE_CACHE_MS ==> c.answer(now) == Some(v),
        now - at >= AVAILABLE_CACHE_MS ==> c.answer(now) is None,
{
}

/// Whether a process still runs, by its exit code where that could be read.
pub open spec fn runs(exit_code: Option<u32>) -> bool {
    exit_code == Some(STILL_ACTIVE)
}

pub fn process_alive(exit_code: Option<u32>) -> (r: bool)
    ensures
        r == runs(exit_code),
{
    match exit_code {
        Some(code) => code == STILL_ACTIVE,
        None => false,
    }
}

/// The helper process that records.
#[derive(Clone, Copy, Debug, PartialEq, Eq, Structural)]
pub struct SpeechHelper {
    pub process: Option<u64>,
}

/// What starting the helper takes.
#[derive(Clone, Copy, Debug, PartialEq, Eq, Structural)]
pub enum HelperStart {
    /// It runs already.
    Running,
    /// Let go of a process that has ended, then start one.
    Spawn { reap: Option<u64> },
}

impl SpeechHelper {
    pub fn new() -> (h: Self)
        ensures
            h.process is None,
    {
        SpeechHelper { process: None }
    }

    /// Whether the helper runs, given its exit code.
    pub open spec fn alive(self, exit_code: Option<u32>) -> bool {
        self.process is Some && runs(exit_code)
    }

    /// `alive`, computed.
    pub fn helper_alive(&self, exit_code: Option<u32>) -> (r: bool)
        ensures
            r == self.alive(exit_code),
    {
        self.process.is_some() && process_alive(exit_code)
    }

    /// Begins a start, given the exit code of the process from before.
    pub fn start_helper(&mut self, exit_code: Option<u32>) -> (s: HelperStart)
        ensures
            if old(self).alive(exit_code) {
                s == HelperStart::Running && *final(self) == *old(self)
            } else {
                s == (HelperStart::Spawn { reap: old(self).process }) && final(self).process is None
            },
    {
        if self.helper_alive(exit_code) {
            return HelperStart::Running;
        }
        let reap: Option<u64> = self.process;
        self.process = None;
        HelperStart::Spawn { reap }
    }

    /// The process of a start.
    pub fn started(&mut self, process: u64)
        ensures
            final(self).process == Some(process),
    {
        self.process = Some(process);
    }

    /// Stops the helper: the process to end, if there is one.
    pub fn stop_helper(&mut self) -> (process: Option<u64>)
        ensures
            process == old(self).process,
            final(self).process is None,
    {
        let process: Option<u64> = self.process;
        self.process = None;
        process
    }
}

/// What asking the helper to finish writes, and where: it finishes what it
/// records, so nothing is lost.
pub fn request_stop() -> (r: (String, &'static str))
    ensures
        r.0@ == in_dir("rt\\stop"@),
        r.1@ == "1"@,
{
    (stop_path(), "1")
}

/// Whether the second engine's server has to be started.
pub fn ensure_parakeet_server(engine: &str, available: bool, up: bool) -> (r: bool)
    ensures
        r == (engine@ == "parakeet"@ && available && !up),
{
    same_str(engine, "parakeet") && available && !up
}

/// The command line that starts this program again with a flag.
pub fn spawn_command(exe: &str, flag: &str) -> (c: String)
    ensures
        c@ == "\""@ + exe@ + "\" "@ + flag@,
{
    let mut c = concat3("\"", exe, "\" ");
    put(&mut c, flag);
    c
}

/// Whether someone is signed in at the console, or what to say if not.
pub fn console_session(session: u32) -> (r: Result<u32, String>)
    ensures
        r is Ok <==> session != INVALID_CONSOLE_SESSION,
        r is Ok <==> session != 0xffff_ffff,
        r matches Ok(s) ==> s == session,
        r matches Err(e) ==> e@ == "no active console session (cannot run mic as user)"@,
{
    if session == INVALID_CONSOLE_SESSION {
        Err("no active console session (cannot run mic as user)".to_owned())
    } else {
        Ok(session)
    }
}

/// The token to start the helper with: the user's full one where there is one.
pub fn spawn_token(elevated: Option<u64>, token: u64) -> (t: u64)
    ensures
        t == (match elevated {
            Some(e) => e,
            None => token,
        }),
{
    match elevated {
        Some(e) => e,
        None => token,
    }
}

/// What is said when the user's token cannot be had.
pub fn token_error(session: u32, e: &str) -> (out: String)
    ensures
        out@ == "WTSQueryUserToken(session="@ + text::decimal(session as nat) + "): "@ + e@,
{
    let mut out = concat3("WTSQueryUserToken(session=", decimal_of(session as u64).as_str(), "): ");
    put(&mut out, e);
    out
}

/// What is said when the process cannot be started.
pub fn process_error(exe: &str, e: &str) -> (out: String)
    ensures
        out@ == "CreateProcessAsUserW("@ + exe@ + "): "@ + e@,
{
    let mut out = concat3("CreateProcessAsUserW(", exe, "): ");
    put(&mut out, e);
    out
}

/// What readying the first engine's server takes.
#[derive(Debug)]
pub enum ServerStep {
    Ready,
    /// Start it and wait for it.
    Spawn,
    Failed(String),
}

/// Readies the first engine's server, given whether it answers, whether there is a
/// model, and whether the server's program is there.
pub fn ensure_server(up: bool, model: bool, server_is_file: bool) -> (s: ServerStep)
    ensures
        up ==> s is Ready,
        !up && !model ==> (s matches ServerStep::Failed(e) && e@ == "no whisper model present"@),
        !up && model && !server_is_file ==> (s matches ServerStep::Failed(e) && e@
            == "whisper sidecar not installed: "@ + in_dir(SERVER_EXE@)),
        !up && model && server_is_file ==> s is Spawn,
{
    if up {
        ServerStep::Ready
    } else if !model {
        ServerStep::Failed("no whisper model present".to_owned())
    } else if !server_is_file {
        ServerStep::Failed(concat2("whisper sidecar not installed: ", server_path().as_str()))
    } else {
        ServerStep::Spawn
    }
}

/// The arguments of the first engine's server.
pub open spec fn server_args(model: Seq<char>, threads: nat, language: Seq<char>) -> Seq<Seq<char>> {
    seq![
        "-m"@,
        model,
        "--host"@,
        HOST@,
        "--port"@,
        text::decimal(WHISPER_PORT as nat),
        "-t"@,
        text::decimal(threads),
        "--language"@,
        language,
        "-nt"@,
    ]
}

/// `server_args`, computed.
pub fn whisper_args(model: &str, threads: u64, language: &str) -> (args: Vec<String>)
    ensures
        args@.map(|_i: int, s: String| s@) == server_args(model@, threads as nat, language@),
{
    let mut args: Vec<String> = Vec::new();
    args.push("-m".to_owned());
    args.push(model.to_owned());
    args.push("--host".to_owned());
    args.push(HOST.to_owned());
    args.push("--port".to_owned());
    args.push(decimal_of(WHISPER_PORT as u64));
    args.push("-t".to_owned());
    args.push(decimal_of(threads));
    args.push("--language".to_owned());
    args.push(language.to_owned());
    args.push("-nt".to_owned());
    assert(args@.map(|_i: int, s: String| s@) =~= server_args(
        model@,
        threads as nat,
        language@,
    ));
    args
}

/// Waits for a server: the answer, or none to look again a little later.
pub fn wait_ready(now: u64, deadline: u64, up: bool, parakeet: bool) -> (r: Option<
    Result<(), String>,
>)
    ensures
        now < deadline && up ==> r == Some(Ok::<(), String>(())),
        now < deadline && !up ==> r is None,
        now >= deadline ==> (r matches Some(Err(e)) && e@ == (if parakeet {
            "parakeet-server not ready (model load timed out)"@
        } else {
            "whisper-server did not become ready (model load timed out)"@
        })),
{
    if now < deadline {
        if up {
            Some(Ok(()))
        } else {
            None
        }
    } else if parakeet {
        Some(Err("parakeet-server not ready (model load timed out)".to_owned()))
    } else {
        Some(Err("whisper-server did not become ready (model load timed out)".to_owned()))
    }
}

/// A recording that runs.
#[derive(Clone, Copy, Debug, PartialEq, Eq, Structural)]
pub struct Recording {
    /// Samples so far.
    pub samples: u64,
    /// Samples per second.
    pub rate: u32,
    pub had_speech: bool,
    /// Quiet since the last speech.
    pub quiet_ms: u64,
    /// Looks left to learn the noise of the room.
    pub warmup: u32,
}

/// Why a recording ended.
#[derive(Clone, Copy, Debug, PartialEq, Eq, Structural)]
pub enum RecordEnd {
    Asked,
    Quiet,
    TooLong,
}

pub open spec fn capped_sum(a: u64, b: u64) -> u64 {
    if a + b <= u64::MAX {
        (a + b) as u64
    } else {
        u64::MAX
    }
}

impl Recording {
    /// A recording that begins with what was captured while the engine got ready.
    pub fn new(pre_roll: u64, rate: u32) -> (r: Self)
        ensures
            r == (Recording {
                samples: pre_roll,
                rate,
                had_speech: false,
                quiet_ms: 0,
                warmup: WARMUP_LOOKS,
            }),
            r.warmup == 16,
    {
        Recording {
            samples: pre_roll,
            rate,
            had_speech: false,
            quiet_ms: 0,
            warmup: WARMUP_LOOKS,
        }
    }

    /// Whether the next look still learns the noise of the room.
    pub fn warming(&self) -> (r: bool)
        ensures
            r == (self.warmup > 0),
    {
        self.warmup > 0
    }

    /// The state after a look that found so many new samples, with speech or
    /// without.
    pub open spec fn looked(self, new: u64, voiced: bool) -> Recording {
        Recording {
            samples: capped_sum(self.samples, new),
            had_speech: self.had_speech || voiced,
            quiet_ms: if voiced {
                0
            } else {
                capped_sum(self.quiet_ms, TICK_MS)
            },
            warmup: if self.warmup > 0 {
                (self.warmup - 1) as u32
            } else {
                0
            },
            ..self
        }
    }

    /// Whether, and why, the recording ends: because it was asked to, because it
    /// has been quiet for long after speech, or because it is too long.
    pub open spec fn end(self, stop_requested: bool) -> Option<RecordEnd> {
        if self.had_speech && self.quiet_ms >= AUTO_STOP_MS {
            Some(RecordEnd::Quiet)
        } else if stop_requested {
            Some(RecordEnd::Asked)
        } else if self.samples > 0 && self.samples >= MAX_RECORD_S * self.rate {
            Some(RecordEnd::TooLong)
        } else {
            None
        }
    }

    /// Takes a look at the recording.
    pub fn look(&mut self, new: u64, voiced: bool, stop_requested: bool) -> (end: Option<RecordEnd>)
        ensures
            *final(self) == old(self).looked(new, voiced),
            end == final(self).end(stop_requested),
    {
        self.samples = self.samples.saturating_add(new);
        if self.warmup > 0 {
            self.warmup -= 1;
        }
        if voiced {
            self.had_speech = true;
            self.quiet_ms = 0;
        } else {
            self.quiet_ms = self.quiet_ms.saturating_add(TICK_MS);
        }
        if self.had_speech && self.quiet_ms >= AUTO_STOP_MS {
            Some(RecordEnd::Quiet)
        } else if stop_requested {
            Some(RecordEnd::Asked)
        } else if self.samples > 0 && self.samples >= MAX_RECORD_S * self.rate as u64 {
            Some(RecordEnd::TooLong)
        } else {
            None
        }
    }
}

/// Before anything was said, quiet never ends a recording; and speech always
/// starts the quiet anew.
pub proof fn quiet_counts_only_after_speech(r: Recording, new: u64, voiced: bool)
    ensures
        !r.had_speech && !voiced ==> r.looked(new, voiced).end(false) != Some(RecordEnd::Quiet),
        voiced ==> r.looked(new, voiced).quiet_ms == 0 && r.looked(new, voiced).had_speech && r.looked(
            new,
            voiced,
        ).end(false) != Some(RecordEnd::Quiet),
{
}

/// A recording that is asked to end does, whatever it holds.
pub proof fn asking_always_ends(r: Recording)
    ensures
        r.end(true) is Some,
{
}

/// What the second engine's readying came to, when its thread was joined.
#[derive(Debug)]
pub enum Readied {
    Ready,
    Failed(String),
    Panicked,
}

/// The transcription by the second engine: only once its server is ready.
pub fn parakeet_result(ready: Readied, transcript: Result<String, String>) -> (r: Result<
    String,
    String,
>)
    ensures
        match ready {
            Readied::Ready => r == transcript,
            Readied::Failed(e) => r matches Err(f) && f@ == "parakeet server: "@ + e@,
            Readied::Panicked => r matches Err(f) && f@
                == "parakeet ensure-server thread panicked"@,
        },
{
    match ready {
        Readied::Ready => transcript,
        Readied::Failed(e) => Err(concat2("parakeet server: ", e.as_str())),
        Readied::Panicked => Err("parakeet ensure-server thread panicked".to_owned()),
    }
}

pub open spec fn opens(c: char) -> bool {
    c == '[' || c == '('
}

pub open spec fn closes(c: char) -> bool {
    c == ']' || c == ')'
}

/// How deep in brackets the end of a text is; a closing bracket too many counts
/// for nothing.
pub open spec fn depth(s: Seq<char>) -> nat
    decreases s.len(),
{
    if s.len() == 0 {
        0
    } else if opens(s.last()) {
        depth(s.drop_last()) + 1
    } else if closes(s.last()) {
        if depth(s.drop_last()) > 0 {
            (depth(s.drop_last()) - 1) as nat
        } else {
            0
        }
    } else {
        depth(s.drop_last())
    }
}

/// A text without its brackets and what stands in them.
pub open spec fn unbracketed(s: Seq<char>) -> Seq<char>
    decreases s.len(),
{
    if s.len() == 0 {
        s
    } else if opens(s.last()) || closes(s.last()) || depth(s.drop_last()) > 0 {
        unbracketed(s.drop_last())
    } else {
        unbracketed(s.drop_last()).push(s.last())
    }
}

/// The words of a text, with one space between them.
pub open spec fn squeezed(s: Seq<char>) -> Seq<char>
    decreases s.len(),
{
    if s.len() == 0 {
        s
    } else if text::whitespace(s.last()) {
        squeezed(s.drop_last())
    } else if s.len() >= 2 && text::whitespace(s[s.len() - 2]) && squeezed(s.drop_last()).len() > 0 {
        squeezed(s.drop_last()).push(' ').push(s.last())
    } else {
        squeezed(s.drop_last()).push(s.last())
    }
}

fn without_brackets(chars: &[char]) -> (out: Vec<char>)
    ensures
        out@ == unbracketed(chars@),
{
    let n: usize = chars.len();
    let mut out: Vec<char> = Vec::new();
    let mut level: usize = 0;
    let mut i: usize = 0;
    assert(chars@.take(0) =~= Seq::<char>::empty());
    while i < n
        invariant
            i <= n,
            n == chars.len(),
            level <= i,
            level == depth(chars@.take(i as int)),
            out@ == unbracketed(chars@.take(i as int)),
        decreases n - i,
    {
        let c: char = chars[i];
        assert(chars@.take(i + 1).drop_last() =~= chars@.take(i as int));
        assert(chars@.take(i + 1).last() == c);
        if c == '[' || c == '(' {
            level += 1;
        } else if c == ']' || c == ')' {
            if level > 0 {
                level -= 1;
            }
        } else if level == 0 {
            out.push(c);
        }
        i += 1;
    }
    assert(chars@.take(n as int) =~= chars@);
    out
}

fn squeeze(chars: &[char]) -> (out: Vec<char>)
    ensures
        out@ == squeezed(chars@),
{
    let n: usize = chars.len();
    let mut out: Vec<char> = Vec::new();
    let mut i: usize = 0;
    assert(chars@.take(0) =~= Seq::<char>::empty());
    while i < n
        invariant
            i <= n,
            n == chars.len(),
            out@ == squeezed(chars@.take(i as int)),
        decreases n - i,
    {
        let c: char = chars[i];
        assert(chars@.take(i + 1).drop_last() =~= chars@.take(i as int));
        assert(chars@.take(i + 1).last() == c);
        if !is_whitespace(c) {
            if i >= 1 && is_whitespace(chars[i - 1]) && out.len() > 0 {
                out.push(' ');
            }
            out.push(c);
        }
        i += 1;
    }
    assert(chars@.take(n as int) =~= chars@);
    out
}

/// A transcript as it is typed: without the notes that the engine puts in
/// brackets, and with single spaces.
pub open spec fn cleaned(t: Seq<char>) -> Seq<char> {
    squeezed(unbracketed(t))
}

/// `cleaned`, computed.
pub fn clean_transcript(t: &str) -> (out: String)
    ensures
        out@ == cleaned(t@),
{
    let kept = without_brackets(chars_of(t).as_slice());
    string_of(squeeze(kept.as_slice()).as_slice())
}

/// Whether white space stands only between words, one space at a time.
pub open spec fn is_tidy(t: Seq<char>) -> bool {
    forall|i: int|
        0 <= i < t.len() && text::whitespace(#[trigger] t[i]) ==> t[i] == ' ' && 0 < i < t.len() - 1
            && !text::whitespace(t[i - 1]) && !text::whitespace(t[i + 1])
}

/// Whether a text holds no bracket.
pub open spec fn has_no_bracket(t: Seq<char>) -> bool {
    forall|i: int| 0 <= i < t.len() ==> !opens(#[trigger] t[i]) && !closes(t[i])
}

proof fn unbracketed_has_no_bracket(s: Seq<char>)
    ensures
        has_no_bracket(unbracketed(s)),
    decreases s.len(),
{
    if s.len() > 0 {
        unbracketed_has_no_bracket(s.drop_last());
        let init = unbracketed(s.drop_last());
        assert forall|i: int| 0 <= i < unbracketed(s).len() implies !opens(
            #[trigger] unbracketed(s)[i],
        ) && !closes(unbracketed(s)[i]) by {
            if i < init.len() {
                assert(unbracketed(s)[i] == init[i]);
            }
        }
    }
}

proof fn bracketless_is_kept(s: Seq<char>)
    requires
        has_no_bracket(s),
    ensures
        depth(s) == 0,
        unbracketed(s) == s,
    decreases s.len(),
{
    if s.len() > 0 {
        assert(has_no_bracket(s.drop_last())) by {
            assert forall|i: int| 0 <= i < s.drop_last().len() implies !opens(
                #[trigger] s.drop_last()[i],
            ) && !closes(s.drop_last()[i]) by {
                assert(s.drop_last()[i] == s[i]);
            }
        }
        bracketless_is_kept(s.drop_last());
        assert(!opens(s[s.len() - 1]) && !closes(s[s.len() - 1]));
        assert(s.drop_last().push(s.last()) =~= s);
    }
}

proof fn squeezed_is_tidy(s: Seq<char>)
    ensures
        is_tidy(squeezed(s)),
        has_no_bracket(s) ==> has_no_bracket(squeezed(s)),
    decreases s.len(),
{
    if s.len() > 0 {
        squeezed_is_tidy(s.drop_last());
        let init = squeezed(s.drop_last());
        let out = squeezed(s);
        if has_no_bracket(s) {
            assert forall|i: int| 0 <= i < s.drop_last().len() implies !opens(
                #[trigger] s.drop_last()[i],
            ) && !closes(s.drop_last()[i]) by {
                assert(s.drop_last()[i] == s[i]);
            }
            assert(!opens(s[s.len() - 1]) && !closes(s[s.len() - 1]));
            assert forall|i: int| 0 <= i < out.len() implies !opens(#[trigger] out[i]) && !closes(
                out[i],
            ) by {
                if i < init.len() {
                    assert(out[i] == init[i]);
                }
            }
        }
        if init.len() > 0 {
            assert(!text::whitespace(init[init.len() - 1]));
        }
        assert forall|i: int| 0 <= i < out.len() && text::whitespace(#[trigger] out[i]) implies out[i]
            == ' ' && 0 < i < out.len() - 1 && !text::whitespace(out[i - 1]) && !text::whitespace(
            out[i + 1],
        ) by {
            if i < init.len() {
                assert(out[i] == init[i]);
                assert(out[i + 1] == init[i + 1]);
            } else if i == init.len() && out.len() == init.len() + 2 {
                assert(out[i - 1] == init[init.len() - 1]);
                assert(out[i + 1] == s.last());
            }
        }
    }
}

proof fn tidy_prefix(t: Seq<char>, k: int)
    requires
        is_tidy(t),
        0 <= k <= t.len(),
    ensures
        squeezed(t.take(k)) == (if k > 0 && text::whitespace(t[k - 1]) {
            t.take(k - 1)
        } else {
            t.take(k)
        }),
    decreases k,
{
    if k > 0 {
        tidy_prefix(t, k - 1);
        let p = t.take(k);
        assert(p.drop_last() =~= t.take(k - 1));
        assert(p.last() == t[k - 1]);
        if text::whitespace(t[k - 1]) {
            assert(k >= 2 && !text::whitespace(t[k - 2]));
        } else if k >= 2 && text::whitespace(t[k - 2]) {
            assert(t[k - 2] == ' ' && 0 < k - 2);
            assert(p[p.len() - 2] == t[k - 2]);
            assert(t.take(k - 2).push(' ').push(t[k - 1]) =~= p);
        } else {
            if k >= 2 {
                assert(p[p.len() - 2] == t[k - 2]);
            }
            assert(t.take(k - 1).push(t[k - 1]) =~= p);
        }
    }
}

/// What is typed holds no bracket and no stray white space, and cleaning it again
/// changes nothing.
pub proof fn cleaning_is_final(t: Seq<char>)
    ensures
        has_no_bracket(cleaned(t)),
        is_tidy(cleaned(t)),
        cleaned(cleaned(t)) == cleaned(t),
{
    let u = unbracketed(t);
    let c = cleaned(t);
    unbracketed_has_no_bracket(t);
    squeezed_is_tidy(u);
    bracketless_is_kept(c);
    tidy_prefix(c, c.len() as int);
    assert(c.take(c.len() as int) =~= c);
    if c.len() > 0 {
        assert(!text::whitespace(c[c.len() - 1]));
    }
}

/// A transcript without brackets whose white space is single spaces between words is
/// typed as it is, to the letter.
pub proof fn plain_speech_is_typed_as_it_is(t: Seq<char>)
    requires
        forall|i: int|
            0 <= i < t.len() ==> #[trigger] t[i] != '[' && t[i] != ']' && t[i] != '(' && t[i] != ')',
        forall|i: int|
            0 <= i < t.len() && text::whitespace(#[trigger] t[i]) ==> t[i] == ' ' && 0 < i < t.len()
                - 1 && !text::whitespace(t[i - 1]) && !text::whitespace(t[i + 1]),
    ensures
        cleaned(t) == t,
{
    bracketless_is_kept(t);
    tidy_prefix(t, t.len() as int);
    assert(t.take(t.len() as int) =~= t);
    if t.len() > 0 {
        assert(!text::whitespace(t[t.len() - 1]));
    }
}

/// A note in brackets leaves no trace: what is typed is what would be typed without it.
pub proof fn notes_leave_no_trace(before: Seq<char>, note: Seq<char>, after: Seq<char>)
    requires
        forall|i: int|
            0 <= i < before.len() ==> #[trigger] before[i] != '[' && before[i] != ']' && before[i]
                != '(' && before[i] != ')',
        forall|i: int|
            0 <= i < note.len() ==> #[trigger] note[i] != '[' && note[i] != ']' && note[i] != '('
                && note[i] != ')',
    ensures
        cleaned(before + seq!['('] + note + seq![')'] + after) == cleaned(before + after),
        cleaned(before + seq!['['] + note + seq![']'] + after) == cleaned(before + after),
{
    note_is_dropped(before, '(', note, ')', after);
    note_is_dropped(before, '[', note, ']', after);
}

proof fn note_is_dropped(before: Seq<char>, open: char, note: Seq<char>, close: char, after: Seq<char>)
    requires
        opens(open),
        closes(close),
        has_no_bracket(before),
        has_no_bracket(note),
    ensures
        unbracketed(before + seq![open] + note + seq![close] + after) == unbracketed(
            before + after,
        ),
        depth(before + seq![open] + note + seq![close] + after) == depth(before + after),
    decreases after.len(),
{
    let all = before + seq![open] + note + seq![close] + after;
    if after.len() == 0 {
        bracketless_is_kept(before);
        inside_is_dropped(before, open, note);
        let inner = before + seq![open] + note;
        assert(all =~= inner.push(close));
        assert(all.drop_last() =~= inner);
        assert(before + after =~= before);
    } else {
        let rest = after.drop_last();
        note_is_dropped(before, open, note, close, rest);
        assert(all.drop_last() =~= before + seq![open] + note + seq![close] + rest);
        assert((before + after).drop_last() =~= before + rest);
        assert(all.last() == after.last() && (before + after).last() == after.last());
    }
}

proof fn inside_is_dropped(before: Seq<char>, open: char, note: Seq<char>)
    requires
        opens(open),
        has_no_bracket(before),
        has_no_bracket(note),
    ensures
        unbracketed(before + seq![open] + note) == before,
        depth(before + seq![open] + note) == 1,
    decreases note.len(),
{
    let all = before + seq![open] + note;
    if note.len() == 0 {
        bracketless_is_kept(before);
        assert(all =~= before.push(open));
        assert(all.drop_last() =~= before);
    } else {
        let rest = note.drop_last();
        assert(has_no_bracket(rest)) by {
            assert forall|i: int| 0 <= i < rest.len() implies !opens(#[trigger] rest[i]) && !closes(
                rest[i],
            ) by {
                assert(rest[i] == note[i]);
            }
        }
        inside_is_dropped(before, open, rest);
        assert(all.drop_last() =~= before + seq![open] + rest);
        assert(all.last() == note.last() && note.last() == note[note.len() - 1]);
    }
}

/// The characters of a text that are no white space, in order.
pub open spec fn solid(s: Seq<char>) -> Seq<char>
    decreases s.len(),
{
    if s.len() == 0 {
        s
    } else if text::whitespace(s.last()) {
        solid(s.drop_last())
    } else {
        solid(s.drop_last()).push(s.last())
    }
}

/// How many brackets are open before character `n` of a text.
pub open spec fn open_before(t: Seq<char>, n: int) -> int
    decreases n,
{
    if n <= 0 {
        0
    } else {
        let before = open_before(t, n - 1);
        if t[n - 1] == '[' || t[n - 1] == '(' {
            before + 1
        } else if (t[n - 1] == ']' || t[n - 1] == ')') && before > 0 {
            before - 1
        } else {
            before
        }
    }
}

/// Whether a character of a transcript is typed: it is no bracket and no white space, and
/// no bracket is open before it.
pub open spec fn is_typed(t: Seq<char>, i: int) -> bool {
    &&& t[i] != '[' && t[i] != ']' && t[i] != '(' && t[i] != ')'
    &&& !text::whitespace(t[i])
    &&& open_before(t, i) == 0
}

/// The characters before `n` that are typed.
pub open spec fn typed_upto(t: Seq<char>, n: int) -> Seq<char>
    decreases n,
{
    if n <= 0 {
        seq![]
    } else if is_typed(t, n - 1) {
        typed_upto(t, n - 1).push(t[n - 1])
    } else {
        typed_upto(t, n - 1)
    }
}

/// What is typed of a transcript is, but for white space, every character outside
/// brackets, in order and unchanged.
pub proof fn every_word_outside_brackets_is_typed(t: Seq<char>)
    ensures
        solid(cleaned(t)) == typed_upto(t, t.len() as int),
{
    squeezing_keeps_the_solid(unbracketed(t));
    outside_is_kept(t, t.len() as int);
    assert(t.take(t.len() as int) =~= t);
}

proof fn squeezing_keeps_the_solid(s: Seq<char>)
    ensures
        solid(squeezed(s)) == solid(s),
    decreases s.len(),
{
    if s.len() > 0 {
        let init = squeezed(s.drop_last());
        squeezing_keeps_the_solid(s.drop_last());
        if !text::whitespace(s.last()) {
            let out = squeezed(s);
            reveal_with_fuel(solid, 3);
            assert(out.last() == s.last());
            if s.len() >= 2 && text::whitespace(s[s.len() - 2]) && init.len() > 0 {
                assert(out.drop_last() =~= init.push(' '));
                assert(init.push(' ').drop_last() =~= init);
                assert(text::whitespace(' '));
                assert(init.push(' ').last() == ' ');
                assert(solid(init.push(' ')) == solid(init));
            } else {
                assert(out.drop_last() =~= init);
            }
            assert(solid(out) == solid(out.drop_last()).push(s.last()));
        }
    }
}

proof fn outside_is_kept(t: Seq<char>, n: int)
    requires
        0 <= n <= t.len(),
    ensures
        depth(t.take(n)) == open_before(t, n),
        solid(unbracketed(t.take(n))) == typed_upto(t, n),
    decreases n,
{
    if n > 0 {
        outside_is_kept(t, n - 1);
        let p = t.take(n);
        assert(p.drop_last() =~= t.take(n - 1));
        assert(p.last() == t[n - 1]);
        let init = unbracketed(p.drop_last());
        if !(opens(p.last()) || closes(p.last()) || depth(p.drop_last()) > 0) {
            assert(unbracketed(p).drop_last() =~= init);
        }
    }
}

/// A recording ends by itself two and a half seconds after the last speech, looked at
/// every twentieth of a second, and at three minutes at the latest.
pub proof fn recordings_end_in_time(r: Recording, new: u64, voiced: bool)
    requires
        r.samples + new <= u64::MAX,
        r.quiet_ms + 50 <= u64::MAX,
    ensures
        r.looked(new, voiced).end(false) == Some(RecordEnd::Quiet) <==> !voiced && r.had_speech
            && r.quiet_ms + 50 >= 2500,
        r.looked(new, voiced).end(false) == Some(RecordEnd::TooLong) <==> !(!voiced && r.had_speech
            && r.quiet_ms + 50 >= 2500) && r.samples + new > 0 && r.samples + new >= 180 * r.rate,
        r.looked(new, voiced).samples == r.samples + new,
        r.looked(new, voiced).had_speech == (r.had_speech || voiced),
{
}

/// Recognition takes the primary part of the user's locale, in lower case, unless the
/// environment names a language; without either it is left to be detected.
pub proof fn recognition_follows_the_locale(tag: Seq<char>, rest: Seq<char>, env: Seq<char>)
    requires
        tag.len() > 0,
        forall|i: int| 0 <= i < tag.len() ==> #[trigger] tag[i] != '-',
    ensures
        language_of(None, Some(tag + seq!['-'] + rest)) == text::ascii_lower_all(tag),
        language_of(None, Some(tag)) == text::ascii_lower_all(tag),
        language_of(None, None) == "auto"@,
        text::trimmed(env).len() > 0 ==> language_of(Some(env), Some(tag)) == text::trimmed(env),
        text::trimmed(env).len() == 0 ==> language_of(Some(env), Some(tag))
            == text::ascii_lower_all(tag),
{
    tag_stands_before_the_hyphen(tag, rest);
}

proof fn tag_stands_before_the_hyphen(tag: Seq<char>, rest: Seq<char>)
    requires
        forall|i: int| 0 <= i < tag.len() ==> #[trigger] tag[i] != '-',
    ensures
        before_hyphen(tag + seq!['-'] + rest) == tag,
        before_hyphen(tag) == tag,
    decreases tag.len(),
{
    let all = tag + seq!['-'] + rest;
    if tag.len() == 0 {
        assert(all[0] == '-');
        assert(before_hyphen(all) =~= tag);
    } else {
        let t = tag.skip(1);
        assert forall|i: int| 0 <= i < t.len() implies #[trigger] t[i] != '-' by {
            assert(t[i] == tag[i + 1]);
        }
        tag_stands_before_the_hyphen(t, rest);
        assert(all.skip(1) =~= t + seq!['-'] + rest);
        assert(all[0] == tag[0] && tag[0] != '-');
        assert(seq![tag[0]] + t =~= tag);
    }
}

/// The device to record with is the first whose name holds the wanted text.
pub proof fn the_first_matching_device_is_taken(names: Seq<Option<String>>, want: Seq<char>, from: int)
    requires
        0 <= from <= names.len(),
    ensures
        match first_named(names, want, from) {
            Some(i) => {
                &&& from <= i < names.len()
                &&& names[i] matches Some(n) && text::occurs(n@, want)
                &&& forall|k: int|
                    from <= k < i ==> !(#[trigger] names[k] matches Some(n) && text::occurs(
                        n@,
                        want,
                    ))
            },
            None => forall|k: int|
                from <= k < names.len() ==> !(#[trigger] names[k] matches Some(n) && text::occurs(
                    n@,
                    want,
                )),
        },
    decreases names.len() - from,
{
    if from < names.len() {
        the_first_matching_device_is_taken(names, want, from + 1);
    }
}

/// A model that the environment names is the only one looked at; else the installer's
/// comes first, and then the first file of the listing that ends in `bin`, in whichever
/// case.
pub proof fn models_are_tried_in_order(
    named: bool,
    chosen: Option<bool>,
    extensions: Seq<Option<String>>,
)
    ensures
        model_choice(Some(named), chosen, extensions) == (if named {
            ModelChoice::Override
        } else {
            ModelChoice::Missing
        }),
        model_choice(None, Some(true), extensions) == ModelChoice::Chosen,
        chosen != Some(true) && extensions.len() <= usize::MAX ==> match model_choice(
            None,
            chosen,
            extensions,
        ) {
            ModelChoice::Listed(i) => {
                &&& i < extensions.len()
                &&& extensions[i as int] matches Some(x) && text::ascii_lower_all(x@)
                    == text::ascii_lower_all("bin"@)
                &&& forall|k: int|
                    0 <= k < i ==> !(#[trigger] extensions[k] matches Some(x)
                        && text::ascii_lower_all(x@) == text::ascii_lower_all("bin"@))
            },
            ModelChoice::Missing => forall|k: int|
                0 <= k < extensions.len() ==> !(#[trigger] extensions[k] matches Some(x)
                    && text::ascii_lower_all(x@) == text::ascii_lower_all("bin"@)),
            _ => false,
        },
{
    first_model_is_first(extensions, 0);
}

proof fn first_model_is_first(extensions: Seq<Option<String>>, from: int)
    requires
        0 <= from <= extensions.len(),
    ensures
        match first_model(extensions, from) {
            Some(i) => {
                &&& from <= i < extensions.len()
                &&& is_model(extensions[i])
                &&& forall|k: int| from <= k < i ==> !is_model(#[trigger] extensions[k])
            },
            None => forall|k: int|
                from <= k < extensions.len() ==> !is_model(#[trigger] extensions[k]),
        },
    decreases extensions.len() - from,
{
    if from < extensions.len() {
        first_model_is_first(extensions, from + 1);
    }
}

/// A choice of engine reads back as it was kept.
pub proof fn engine_reads_back(name: Seq<char>)
    ensures
        engine_of(Some(kept_engine(name))) == kept_engine(name),
{
    reveal_strlit("parakeet");
    reveal_strlit("whisper");
    text::unspaced_is_trimmed("parakeet"@);
    text::unspaced_is_trimmed("whisper"@);
    assert("parakeet"@.len() != "whisper"@.len());
}

/// A choice of microphone reads back as it was kept.
pub proof fn microphone_reads_back(name: Seq<char>)
    ensures
        kept_text(kept_text(Some(name))) == kept_text(Some(name)),
{
    text::trimming_is_final(name);
}

/// What is typed for a transcript: the clean text and a space, or nothing.
pub fn injection(result: &Result<String, String>) -> (r: Option<String>)
    ensures
        match *result {
            Ok(t) => if cleaned(t@).len() == 0 {
                r is None
            } else {
                r matches Some(out) && out@ == cleaned(t@) + " "@
            },
            Err(_) => r is None,
        },
{
    match result {
        Ok(t) => {
            let clean = clean_transcript(t.as_str());
            if chars_of(clean.as_str()).len() == 0 {
                None
            } else {
                Some(concat2(clean.as_str(), " "))
            }
        },
        Err(_) => None,
    }
}

/// A decoder's file begins with `decoder_joint` and ends in `.onnx`, whatever stands
/// between, and no other file is one.
pub proof fn decoders_are_known_by_their_ends(middle: Seq<char>, name: Seq<char>)
    ensures
        names_decoder("decoder_joint"@ + middle + ".onnx"@),
        names_decoder(name) ==> exists|m: Seq<char>|
            name == #[trigger] ("decoder_joint"@ + m) + ".onnx"@,
{
    reveal_strlit("decoder_joint");
    reveal_strlit(".onnx");
    let made = "decoder_joint"@ + middle + ".onnx"@;
    assert(made.subrange(0, 13) =~= "decoder_joint"@);
    assert(made.subrange(made.len() - 5, made.len() as int) =~= ".onnx"@);
    if names_decoder(name) {
        let m = name.subrange(13, name.len() - 5);
        assert(name =~= name.subrange(0, 13) + m + name.subrange(name.len() - 5, name.len() as int));
        assert(name == ("decoder_joint"@ + m) + ".onnx"@);
    }
}

/// The second engine is used only where the choice names it, blanks around it aside; what
/// is kept of a choice is one of the two names.
pub proof fn the_second_engine_is_chosen_by_name(front: Seq<char>, content: Seq<char>, back: Seq<char>)
    requires
        forall|i: int| 0 <= i < front.len() ==> text::whitespace(#[trigger] front[i]),
        forall|i: int| 0 <= i < back.len() ==> text::whitespace(#[trigger] back[i]),
        content.len() > 0 ==> !text::whitespace(content[0]) && !text::whitespace(content.last()),
    ensures
        engine_of(Some(front + content + back)) == if content == "parakeet"@ {
            "parakeet"@
        } else {
            "whisper"@
        },
        engine_of(None) == "whisper"@,
        kept_engine("parakeet"@) == "parakeet"@,
        content != "parakeet"@ ==> kept_engine(content) == "whisper"@,
        content.len() > 0 ==> kept_text(Some(front + content + back)) == Some(content),
        content.len() == 0 ==> kept_text(Some(front + content + back)) is None,
        kept_text(None) is None,
{
    text::trimming_takes_the_margins(front, content, back);
}

/// The microphone shows nothing while no helper runs, the helper's phase while one does, and
/// that it is starting until the helper has said anything.
pub proof fn the_microphone_shows_the_phase(phase: Seq<char>)
    ensures
        ui_phase(false, Some(phase)) is None && ui_phase(false, None) is None,
        ui_phase(true, Some(phase)) == Some(phase),
        ui_phase(true, None) == Some("starting"@),
{
}

/// The microphones are listed in the system's order, without those that have no name.
pub proof fn named_microphones_are_listed(names: Seq<Option<String>>, name: String)
    ensures
        named(names.push(Some(name))) == named(names).push(name@),
        named(names.push(None)) == named(names),
        named(Seq::empty()).len() == 0,
{
    assert(names.push(Some(name)).drop_last() =~= names);
    assert(names.push(None).drop_last() =~= names);
}

/// Whether dictation is installed is looked up again after three seconds, and a process
/// runs exactly while its exit code is 259.
pub proof fn answers_are_kept_for_three_seconds(at: u64, v: bool, now: u64, code: u32)
    requires
        at <= now,
    ensures
        (AvailableCache { seen: Some((at, v)) }).answer(now) == if now < at + 3000 {
            Some(v)
        } else {
            None
        },
        (AvailableCache { seen: None }).answer(now) is None,
        runs(Some(code)) <==> code == 259,
        !runs(None),
        !(SpeechHelper { process: None }).alive(Some(code)),
        (SpeechHelper { process: Some(at) }).alive(Some(code)) <==> code == 259,
{
}

/// The server is told its model, where to listen, how many threads to use and the language,
/// each after its own switch.
pub proof fn the_server_is_told_each_choice(model: Seq<char>, threads: nat, language: Seq<char>)
    ensures
        ({
            let a = server_args(model, threads, language);
            &&& a.len() == 11
            &&& a[0] == "-m"@ && a[1] == model
            &&& a[2] == "--host"@ && a[3] == "127.0.0.1"@
            &&& a[4] == "--port"@ && text::number_of(a[5]) == 17181
            &&& a[6] == "-t"@ && text::number_of(a[7]) == threads
            &&& a[8] == "--language"@ && a[9] == language
            &&& a[10] == "-nt"@
        }),
{
    text::decimal_stands_for_the_number(17181);
    text::decimal_stands_for_the_number(threads);
}

/// Everything of dictation lies under one directory.
pub proof fn files_lie_under_one_directory(name: Seq<char>)
    ensures
        in_dir(name) == "C:\\ProgramData\\WarmupVk\\speech\\"@ + name,
{
    reveal_strlit("C:\\ProgramData\\WarmupVk\\speech\\");
    reveal_strlit("C:\\ProgramData\\WarmupVk\\speech");
    reveal_strlit("\\");
    assert(SPEECH_DIR@ + "\\"@ =~= "C:\\ProgramData\\WarmupVk\\speech\\"@);
}

/// Quiet after speech ends a recording even where it was also asked to end, and being asked
/// comes before being too long.
pub proof fn quiet_comes_first(r: Recording)
    ensures
        r.had_speech && r.quiet_ms >= 2500 ==> r.end(true) == Some(RecordEnd::Quiet) && r.end(false)
            == Some(RecordEnd::Quiet),
        !r.had_speech || r.quiet_ms < 2500 ==> r.end(true) == Some(RecordEnd::Asked),
        (!r.had_speech || r.quiet_ms < 2500) && r.samples > 0 && r.samples >= 180 * r.rate ==> r.end(
            false,
        ) == Some(RecordEnd::TooLong),
        (!r.had_speech || r.quiet_ms < 2500) && (r.samples == 0 || r.samples < 180 * r.rate)
            ==> r.end(false) is None,
{
}

} // verus!
