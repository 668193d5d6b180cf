use warmup_companion::speech_input::{
    available, clean_transcript, console_session, current_phase, decoder_listed, engine,
    ensure_parakeet_server, ensure_server, injection, language, lang_path, level_path, list_mics,
    mic_choice, mic_choice_path, model_path, parakeet_available, parakeet_result, pick_device, process_alive,
    process_error, request_stop, send_language, server_path, server_up, set_engine, set_mic_choice,
    set_vk_language, spawn_command, spawn_token, status_path, stop_path, token_error, use_parakeet,
    vk_language, voice_reachable, voice_ui_phase, wait_ready, whisper_args, whisper_available, AvailableCache,
    HelperStart, ModelChoice, Readied, RecordEnd, Recording, ServerStep, SpeechHelper,
    AUTO_STOP_MS, INVALID_CONSOLE_SESSION, MAX_RECORD_S, STILL_ACTIVE, TICK_MS, WARMUP_LOOKS,
};
use warmup_companion::speech_stub;
use warmup_companion::surface::Surface;
use warmup_companion::speech_wire::{
    frame_samples, frame_start, json_object, read_plain_reply, read_reply, request_body,
    request_head, samples_of, transcript_of, wav_16k_mono, FrameStart, MAX_FRAME_SAMPLES,
};

fn s(t: &str) -> Option<String> {
    Some(t.to_string())
}

#[test]
fn wav_header_announces_the_recording() {
    let w = wav_16k_mono(&[1, -1, 300]);
    assert_eq!(w.len(), 50);
    assert_eq!(&w[0..4], b"RIFF");
    assert_eq!(&w[4..8], &42u32.to_le_bytes());
    assert_eq!(&w[8..16], b"WAVEfmt ");
    assert_eq!(&w[16..20], &16u32.to_le_bytes());
    assert_eq!(&w[20..24], &[1, 0, 1, 0]);
    assert_eq!(&w[24..28], &16_000u32.to_le_bytes());
    assert_eq!(&w[28..32], &32_000u32.to_le_bytes());
    assert_eq!(&w[32..36], &[2, 0, 16, 0]);
    assert_eq!(&w[36..40], b"data");
    assert_eq!(&w[40..44], &6u32.to_le_bytes());
    assert_eq!(&w[44..], &[1, 0, 0xff, 0xff, 0x2c, 1]);
}

#[test]
fn request_is_a_multipart_form() {
    let body = request_body(b"WAV", "de");
    let text = String::from_utf8(body.clone()).unwrap();
    assert_eq!(
        text,
        "------warmupvkmic\r\nContent-Disposition: form-data; name=\"file\"; filename=\"a.wav\"\r\n\
         Content-Type: audio/wav\r\n\r\nWAV\r\n------warmupvkmic\r\n\
         Content-Disposition: form-data; name=\"language\"\r\n\r\nde\r\n------warmupvkmic\r\n\
         Content-Disposition: form-data; name=\"response_format\"\r\n\r\njson\r\n\
         ------warmupvkmic--\r\n"
    );
    assert_eq!(
        request_head(body.len()),
        format!(
            "POST /inference HTTP/1.1\r\nHost: 127.0.0.1:17181\r\n\
             Content-Type: multipart/form-data; boundary=----warmupvkmic\r\n\
             Content-Length: {}\r\nConnection: close\r\n\r\n",
            body.len()
        )
    );
}

#[test]
fn reply_is_read_whatever_frames_it() {
    let reply = b"HTTP/1.1 200 OK\r\n\r\n1a\r\n{\"text\": \" hello \\u00e9 \"}\r\n0\r\n";
    assert_eq!(read_reply(reply), Ok("hello \u{e9}".to_string()));
    assert_eq!(read_reply(b"{\"other\": 1}"), Ok(String::new()));
    assert_eq!(read_reply(b"{\"text\": 5}"), Ok(String::new()));
    assert_eq!(
        read_reply(b"HTTP/1.1 500 Oops\r\nmore"),
        Err("no JSON in response: HTTP/1.1 500 Oops".to_string())
    );
    assert_eq!(read_reply(b""), Err("no JSON in response: ".to_string()));
    let e = read_reply(b"{\"text\": }").unwrap_err();
    assert!(e.starts_with("parse: "), "{e}");
    // Bytes that are not text become replacement characters.
    assert_eq!(
        read_reply(b"{\"text\": \"a\xffb\"}"),
        Ok("a\u{fffd}b".to_string())
    );
    assert_eq!(read_plain_reply(b" two words\n"), "two words");
    assert_eq!(json_object("}{"), Err("no JSON in response: }{".to_string()));
    assert_eq!(json_object("a{b}c}d"), Ok("{b}c}".to_string()));
    assert_eq!(transcript_of(Err("x".to_string())), Err("parse: x".to_string()));
    assert_eq!(transcript_of(Ok(None)), Ok(String::new()));
}

#[test]
fn plain_frames_read_back_bit_for_bit() {
    let samples = [0.5f32, -1.0, 0.0, f32::MIN_POSITIVE];
    let bits: Vec<u32> = samples.iter().map(|v| v.to_bits()).collect();
    let bytes = frame_samples(&bits);
    let mut expected = 4u32.to_le_bytes().to_vec();
    for v in samples {
        expected.extend_from_slice(&v.to_le_bytes());
    }
    assert_eq!(bytes, expected);
    let head = [bytes[0], bytes[1], bytes[2], bytes[3]];
    assert!(matches!(frame_start(Some(head)), FrameStart::Read(16)));
    assert_eq!(samples_of(&bytes[4..]), bits);
    assert_eq!(samples_of(&[1, 0, 0, 0, 9]), vec![1]);
}

#[test]
fn frames_are_refused_when_too_long() {
    assert!(matches!(frame_start(None), FrameStart::Done));
    assert!(matches!(frame_start(Some([0; 4])), FrameStart::Done));
    let n = MAX_FRAME_SAMPLES + 1;
    match frame_start(Some(n.to_le_bytes())) {
        FrameStart::Refused(e) => assert_eq!(e, "sample count too large: 16000001"),
        other => panic!("{other:?}"),
    }
    assert!(matches!(
        frame_start(Some(MAX_FRAME_SAMPLES.to_le_bytes())),
        FrameStart::Read(64_000_000)
    ));
}

#[test]
fn transcripts_are_cleaned() {
    assert_eq!(clean_transcript("[BLANK_AUDIO]"), "");
    assert_eq!(clean_transcript("  hello   [Music] (claps)\tworld "), "hello world");
    assert_eq!(clean_transcript("a (b [c] d) e"), "a e");
    assert_eq!(clean_transcript(") a ] b"), "a b");
    let once = clean_transcript(" x (y) z ");
    assert_eq!(clean_transcript(&once), once);
    assert_eq!(injection(&Ok(" hi (noise) ".to_string())), s("hi "));
    assert_eq!(injection(&Ok("[noise]".to_string())), None);
    assert_eq!(injection(&Err("x".to_string())), None);
}

#[test]
fn choices_read_back_as_they_were_kept() {
    assert_eq!(set_engine("parakeet"), "parakeet");
    assert_eq!(set_engine("other"), "whisper");
    assert_eq!(engine(&s(" parakeet\r\n")), "parakeet");
    assert_eq!(engine(&s("Parakeet")), "whisper");
    assert_eq!(engine(&None), "whisper");
    assert_eq!(engine(&Some(set_engine("parakeet"))), "parakeet");
    assert_eq!(set_mic_choice("  Mic 1 "), s("Mic 1"));
    assert_eq!(set_mic_choice("  "), None);
    assert_eq!(mic_choice(&set_mic_choice(" Mic 1 ")), s("Mic 1"));
    assert_eq!(mic_choice(&s(" ")), None);
    assert_eq!(set_vk_language(true), "de");
    assert_eq!(vk_language(&s("en\n")), s("en"));
    assert_eq!(current_phase(&s("listening\n")), s("listening"));
    assert_eq!(voice_ui_phase(true, None), s("starting"));
    assert_eq!(voice_ui_phase(true, s("transcribing")), s("transcribing"));
    assert_eq!(voice_ui_phase(false, s("listening")), None);
}

#[test]
fn files_stand_in_the_speech_directory() {
    assert_eq!(server_path(), "C:\\ProgramData\\WarmupVk\\speech\\whisper-server.exe");
    assert_eq!(mic_choice_path(), "C:\\ProgramData\\WarmupVk\\speech\\mic.txt");
    assert_eq!(lang_path(), "C:\\ProgramData\\WarmupVk\\speech\\lang.txt");
    assert_eq!(status_path(), "C:\\ProgramData\\WarmupVk\\speech\\rt\\status");
    assert_eq!(level_path(), "C:\\ProgramData\\WarmupVk\\speech\\rt\\level");
    assert_eq!(request_stop(), (stop_path(), "1"));
}

#[test]
fn model_is_chosen_by_priority() {
    let files = vec![s("txt"), None, s("BIN"), s("bin")];
    assert_eq!(model_path(Some(true), Some(true), &files), ModelChoice::Override);
    assert_eq!(model_path(Some(false), Some(true), &files), ModelChoice::Missing);
    assert_eq!(model_path(None, Some(true), &files), ModelChoice::Chosen);
    assert_eq!(model_path(None, Some(false), &files), ModelChoice::Listed(2));
    assert_eq!(model_path(None, None, &vec![s("txt")]), ModelChoice::Missing);
    assert!(whisper_available(true, ModelChoice::Chosen));
    assert!(!whisper_available(true, ModelChoice::Missing));
    assert!(parakeet_available(false, true, true, true, true));
    assert!(parakeet_available(true, false, true, true, true));
    assert!(!parakeet_available(true, true, true, false, true));
    // Every part must be there.
    assert!(!parakeet_available(false, false, true, true, true));
    assert!(!parakeet_available(true, true, false, true, true));
    assert!(!parakeet_available(true, true, true, true, false));
    let listed = |name: &str| decoder_listed(&vec!["vocab.txt".to_string(), name.to_string()]);
    assert!(listed("decoder_joint-model.int8.onnx") && listed("decoder_joint.onnx"));
    assert!(!listed("decoder_join.onnx") && !listed("decoder_joint.onn") && !listed("encoder.onnx"));
    assert!(!decoder_listed(&Vec::new()));
    assert!(available(false, true) && !available(false, false));
    assert!(voice_reachable(true, Some(Surface::Userland)) && voice_reachable(true, None));
    assert!(!voice_reachable(true, Some(Surface::Winlogon)));
    assert!(!voice_reachable(false, Some(Surface::Userland)));
    assert!(use_parakeet(true, "parakeet", true));
    assert!(use_parakeet(true, "whisper", false));
    assert!(!use_parakeet(true, "whisper", true));
    assert!(!use_parakeet(false, "parakeet", false));
}

#[test]
fn language_comes_from_the_environment_or_the_locale() {
    assert_eq!(language(&s(" auto "), &s("de-DE")), "auto");
    assert_eq!(language(&s(" "), &s("DE-de")), "de");
    assert_eq!(language(&None, &s("-DE")), "auto");
    assert_eq!(language(&None, &None), "auto");
    assert_eq!(send_language(s("en"), "de".to_string()), "en");
    assert_eq!(send_language(None, "de".to_string()), "de");
}

#[test]
fn microphone_is_found_by_part_of_its_name() {
    let names = vec![None, s("Steam Streaming Microphone"), s("USB Mic")];
    assert_eq!(
        list_mics(vec![s("a"), None, s("b")]),
        vec!["a".to_string(), "b".to_string()]
    );
    assert_eq!(pick_device(&s("USB"), &names), Some(2));
    assert_eq!(pick_device(&s("none"), &names), None);
    assert_eq!(pick_device(&None, &names), None);
}

#[test]
fn availability_is_cached_for_a_while() {
    let mut c = AvailableCache::new();
    assert_eq!(c.available_cached(10), None);
    c.keep(10, true);
    assert_eq!(c.available_cached(3009), Some(true));
    assert_eq!(c.available_cached(3010), None);
}

#[test]
fn one_helper_runs_at_a_time() {
    let mut h = SpeechHelper::new();
    assert_eq!(h.start_helper(None), HelperStart::Spawn { reap: None });
    h.started(7);
    assert!(h.helper_alive(Some(STILL_ACTIVE)));
    assert!(!h.helper_alive(Some(0)));
    assert_eq!(h.start_helper(Some(STILL_ACTIVE)), HelperStart::Running);
    assert_eq!(h.start_helper(Some(1)), HelperStart::Spawn { reap: Some(7) });
    assert!(!h.helper_alive(Some(STILL_ACTIVE)));
    h.started(8);
    assert_eq!(h.stop_helper(), Some(8));
    assert_eq!(h.stop_helper(), None);
    assert!(process_alive(Some(259)) && !process_alive(None));
}

#[test]
fn servers_are_started_and_waited_for() {
    assert!(ensure_parakeet_server("parakeet", true, false));
    assert!(!ensure_parakeet_server("whisper", true, false));
    assert!(!ensure_parakeet_server("parakeet", true, true));
    assert!(matches!(ensure_server(true, false, false), ServerStep::Ready));
    assert!(matches!(ensure_server(false, true, true), ServerStep::Spawn));
    match ensure_server(false, false, true) {
        ServerStep::Failed(e) => assert_eq!(e, "no whisper model present"),
        other => panic!("{other:?}"),
    }
    match ensure_server(false, true, false) {
        ServerStep::Failed(e) => assert_eq!(
            e,
            "whisper sidecar not installed: C:\\ProgramData\\WarmupVk\\speech\\whisper-server.exe"
        ),
        other => panic!("{other:?}"),
    }
    assert_eq!(wait_ready(1, 5, true, false), Some(Ok(())));
    assert_eq!(wait_ready(1, 5, false, false), None);
    assert_eq!(
        wait_ready(5, 5, true, false),
        Some(Err(
            "whisper-server did not become ready (model load timed out)".to_string()
        ))
    );
    assert_eq!(
        wait_ready(5, 5, false, true),
        Some(Err("parakeet-server not ready (model load timed out)".to_string()))
    );
    assert!(server_up(true));
    assert_eq!(
        whisper_args("m.bin", 8, "de").join(" "),
        "-m m.bin --host 127.0.0.1 --port 17181 -t 8 --language de -nt"
    );
}

#[test]
fn helper_is_started_as_the_user() {
    assert_eq!(console_session(1), Ok(1));
    assert_eq!(
        console_session(INVALID_CONSOLE_SESSION),
        Err("no active console session (cannot run mic as user)".to_string())
    );
    assert_eq!(
        spawn_command("C:\\a b\\c.exe", "--speech-helper"),
        "\"C:\\a b\\c.exe\" --speech-helper"
    );
    assert_eq!(spawn_token(Some(3), 4), 3);
    assert_eq!(spawn_token(None, 4), 4);
    assert_eq!(token_error(2, "no"), "WTSQueryUserToken(session=2): no");
    assert_eq!(process_error("x.exe", "no"), "CreateProcessAsUserW(x.exe): no");
}

#[test]
fn recording_ends_when_asked_when_quiet_or_when_too_long() {
    let mut r = Recording::new(0, 16_000);
    for _ in 0..WARMUP_LOOKS {
        assert!(r.warming());
        assert_eq!(r.look(800, false, false), None);
    }
    assert!(!r.warming());
    // Quiet alone never ends it.
    for _ in 0..100 {
        assert_eq!(r.look(800, false, false), None);
    }
    assert_eq!(r.look(800, true, false), None);
    for _ in 1..AUTO_STOP_MS / TICK_MS {
        assert_eq!(r.look(800, false, false), None);
    }
    assert_eq!(r.look(800, false, false), Some(RecordEnd::Quiet));
    let mut r = Recording::new(0, 10);
    assert_eq!(r.look(1, true, true), Some(RecordEnd::Asked));
    assert_eq!(r.look(MAX_RECORD_S * 10 - 2, true, false), None);
    assert_eq!(r.look(1, true, false), Some(RecordEnd::TooLong));
    // Nothing captured is never too long.
    let mut r = Recording::new(0, 0);
    assert_eq!(r.look(0, false, false), None);
    assert_eq!(r.look(1, false, false), Some(RecordEnd::TooLong));
}

#[test]
fn second_engine_transcribes_only_when_ready() {
    assert_eq!(
        parakeet_result(Readied::Ready, Ok("t".to_string())),
        Ok("t".to_string())
    );
    assert_eq!(
        parakeet_result(Readied::Failed("x".to_string()), Ok("t".to_string())),
        Err("parakeet server: x".to_string())
    );
    assert_eq!(
        parakeet_result(Readied::Panicked, Ok("t".to_string())),
        Err("parakeet ensure-server thread panicked".to_string())
    );
}

#[test]
fn program_without_dictation_says_so() {
    assert_eq!(
        speech_stub::run_blocking(),
        Err("speech feature not built into this binary".to_string())
    );
    assert_eq!(
        speech_stub::run_parakeet_server(),
        Err("speech support not built into this binary".to_string())
    );
    let missing = "parakeet engine not built into this binary".to_string();
    assert_eq!(speech_stub::wait_ready(), Err(missing.clone()));
    assert_eq!(speech_stub::serve(), Err(missing.clone()));
    assert_eq!(speech_stub::transcribe_via_server(&[1]), Err(missing));
    assert_eq!(speech_stub::engine(), "whisper");
    assert!(!speech_stub::available() && !speech_stub::parakeet_available());
    assert!(!speech_stub::server_up() && !speech_stub::parakeet_server_up());
    assert!(speech_stub::list_mics().is_empty());
    assert_eq!(speech_stub::mic_choice(), None);
    assert_eq!(speech_stub::current_phase(), None);
}
