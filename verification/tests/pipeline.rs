use voice_relay::pipeline::{
    filename_or_default, infer_mime, step, trimmed_field, Action, Config, Event, MimeKind, State,
    MIN_AUDIO_BYTES,
};

fn no_synth() -> Config {
    Config { synthesis_configured: false }
}

fn with_synth() -> Config {
    Config { synthesis_configured: true }
}

fn upload(len: usize, name: &str) -> Event {
    Event::Upload { payload_len: len, filename: name.to_string() }
}

fn expect_respond(action: Action) -> (String, String) {
    match action {
        Action::Respond { result } => (result.text, result.audio_b64),
        _ => panic!("expected a response to the caller"),
    }
}

#[test]
fn small_upload_short_circuits() {
    let cfg = no_synth();
    let (state, action) = step(&cfg, State::Start, upload(500, "audio.webm"));
    assert!(matches!(state, State::Done));
    let (text, audio) = expect_respond(action);
    assert_eq!(text, "");
    assert_eq!(audio, "");
}

#[test]
fn threshold_upload_goes_out() {
    let cfg = no_synth();
    let (state, action) = step(&cfg, State::Start, upload(MIN_AUDIO_BYTES, "audio.webm"));
    assert!(matches!(state, State::AwaitingTranscript));
    match action {
        Action::CallTranscription { mime } => assert_eq!(mime, MimeKind::Webm),
        _ => panic!("expected a transcription call"),
    }
}

#[test]
fn blank_transcript_short_circuits() {
    let cfg = no_synth();
    let (state, action) = step(&cfg, State::Start, upload(5000, "audio.webm"));
    assert!(matches!(state, State::AwaitingTranscript));
    assert!(matches!(action, Action::CallTranscription { .. }));
    let (state, action) = step(
        &cfg,
        state,
        Event::Transcription { text_field: Some("  ".to_string()) },
    );
    assert!(matches!(state, State::Done));
    let (text, audio) = expect_respond(action);
    assert_eq!(text, "");
    assert_eq!(audio, "");
}

#[test]
fn missing_text_field_short_circuits() {
    let cfg = no_synth();
    let (state, _) = step(&cfg, State::Start, upload(5000, "audio.webm"));
    let (state, action) = step(&cfg, state, Event::Transcription { text_field: None });
    assert!(matches!(state, State::Done));
    let (text, audio) = expect_respond(action);
    assert_eq!(text, "");
    assert_eq!(audio, "");
}

#[test]
fn reply_without_credential_has_empty_audio() {
    let cfg = no_synth();
    let (state, _) = step(&cfg, State::Start, upload(5000, "audio.webm"));
    let (state, action) = step(
        &cfg,
        state,
        Event::Transcription { text_field: Some("hello".to_string()) },
    );
    assert!(matches!(state, State::AwaitingReply));
    match action {
        Action::CallCompletion { transcript } => assert_eq!(transcript, "hello"),
        _ => panic!("expected a completion call"),
    }
    let (state, action) = step(
        &cfg,
        state,
        Event::Completion { content_field: Some("Hi there!".to_string()) },
    );
    assert!(matches!(state, State::Done));
    let (text, audio) = expect_respond(action);
    assert_eq!(text, "Hi there!");
    assert_eq!(audio, "");
}

#[test]
fn synthesis_success_encodes_audio() {
    let cfg = with_synth();
    let (state, _) = step(&cfg, State::Start, upload(5000, "audio.webm"));
    let (state, _) = step(
        &cfg,
        state,
        Event::Transcription { text_field: Some("hello".to_string()) },
    );
    let (state, action) = step(
        &cfg,
        state,
        Event::Completion { content_field: Some("Hi there!".to_string()) },
    );
    assert!(matches!(state, State::AwaitingAudio { .. }));
    match action {
        Action::CallSynthesis { text } => assert_eq!(text, "Hi there!"),
        _ => panic!("expected a synthesis call"),
    }
    let (state, action) = step(&cfg, state, Event::Synthesis { audio: Some(vec![0x01, 0x02]) });
    assert!(matches!(state, State::Done));
    let (text, audio) = expect_respond(action);
    assert_eq!(text, "Hi there!");
    assert_eq!(audio, "AQI=");
}

#[test]
fn synthesis_non_success_degrades() {
    let cfg = with_synth();
    let (state, action) = step(
        &cfg,
        State::AwaitingAudio { reply: "Hi there!".to_string() },
        Event::Synthesis { audio: None },
    );
    assert!(matches!(state, State::Done));
    let (text, audio) = expect_respond(action);
    assert_eq!(text, "Hi there!");
    assert_eq!(audio, "");
}

#[test]
fn synthesis_transport_failure_degrades() {
    let cfg = with_synth();
    let (state, action) = step(
        &cfg,
        State::AwaitingAudio { reply: "Hi there!".to_string() },
        Event::TransportFailure,
    );
    assert!(matches!(state, State::Done));
    let (text, audio) = expect_respond(action);
    assert_eq!(text, "Hi there!");
    assert_eq!(audio, "");
}

#[test]
fn transcription_transport_failure_is_fatal() {
    let cfg = no_synth();
    let (state, action) = step(&cfg, State::AwaitingTranscript, Event::TransportFailure);
    assert!(matches!(state, State::Failed));
    assert!(matches!(action, Action::Fail));
}

#[test]
fn malformed_mandatory_response_is_fatal() {
    let cfg = no_synth();
    let (state, action) = step(&cfg, State::AwaitingTranscript, Event::MalformedResponse);
    assert!(matches!(state, State::Failed));
    assert!(matches!(action, Action::Fail));
    let (state, action) = step(&cfg, State::AwaitingReply, Event::MalformedResponse);
    assert!(matches!(state, State::Failed));
    assert!(matches!(action, Action::Fail));
}

#[test]
fn completion_transport_failure_is_fatal() {
    let cfg = no_synth();
    let (state, action) = step(&cfg, State::AwaitingReply, Event::TransportFailure);
    assert!(matches!(state, State::Failed));
    assert!(matches!(action, Action::Fail));
}

#[test]
fn reply_is_trimmed_content() {
    let cfg = no_synth();
    let (_, action) = step(
        &cfg,
        State::AwaitingReply,
        Event::Completion { content_field: Some("  Hi there! \n".to_string()) },
    );
    let (text, _) = expect_respond(action);
    assert_eq!(text, "Hi there!");
}

#[test]
fn empty_reply_is_tolerated() {
    let cfg = no_synth();
    let (state, action) = step(
        &cfg,
        State::AwaitingReply,
        Event::Completion { content_field: None },
    );
    assert!(matches!(state, State::Done));
    let (text, audio) = expect_respond(action);
    assert_eq!(text, "");
    assert_eq!(audio, "");
}

#[test]
fn repeated_runs_are_identical() {
    let run = || {
        let cfg = with_synth();
        let (state, _) = step(&cfg, State::Start, upload(2000, "clip.ogg"));
        let (state, _) = step(
            &cfg,
            state,
            Event::Transcription { text_field: Some("hello".to_string()) },
        );
        let (state, _) = step(
            &cfg,
            state,
            Event::Completion { content_field: Some("Hi there!".to_string()) },
        );
        let (_, action) = step(&cfg, state, Event::Synthesis { audio: Some(vec![9, 8, 7]) });
        expect_respond(action)
    };
    let first = run();
    let second = run();
    assert_eq!(first, second);
}

#[test]
fn mime_inferred_from_extension() {
    assert_eq!(infer_mime("clip.ogg"), MimeKind::Ogg);
    assert_eq!(infer_mime("clip.mp4"), MimeKind::Mp4);
    assert_eq!(infer_mime("clip.webm"), MimeKind::Webm);
    assert_eq!(infer_mime("noextension"), MimeKind::Webm);
    assert_eq!(infer_mime(""), MimeKind::Webm);
    assert_eq!(infer_mime("ogg"), MimeKind::Webm);
}

#[test]
fn mime_labels() {
    assert_eq!(MimeKind::Ogg.label(), "audio/ogg");
    assert_eq!(MimeKind::Mp4.label(), "audio/mp4");
    assert_eq!(MimeKind::Webm.label(), "audio/webm");
}

#[test]
fn filename_defaults_when_absent() {
    assert_eq!(filename_or_default(None), "audio.webm");
    assert_eq!(filename_or_default(Some("clip.ogg".to_string())), "clip.ogg");
}

#[test]
fn unicode_whitespace_is_trimmed() {
    assert_eq!(trimmed_field(Some("\u{00A0}\u{2003}hello\u{3000}".to_string())), "hello");
    assert_eq!(trimmed_field(Some("\u{2028}\u{0085} ".to_string())), "");
}

#[test]
fn trimming_field_values() {
    assert_eq!(trimmed_field(Some("  hello \t\r\n".to_string())), "hello");
    assert_eq!(trimmed_field(Some("hello".to_string())), "hello");
    assert_eq!(trimmed_field(Some("   ".to_string())), "");
    assert_eq!(trimmed_field(Some("".to_string())), "");
    assert_eq!(trimmed_field(None), "");
    assert_eq!(trimmed_field(Some(" a b ".to_string())), "a b");
}
