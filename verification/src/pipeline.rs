//! The request orchestration pipeline, as a state machine.
//!
//! One inbound request walks a four-step chain: a size guard on the
//! uploaded audio, transcription, chat completion, and optional speech
//! synthesis. The machine here makes every decision of that chain; the
//! caller performs the outbound calls that `Action` asks for and feeds
//! each provider's answer back as the next `Event`.

use vstd::prelude::*;
use crate::text::{trim_spec, trim_ws, all_space, has_suffix, str_ends_with, lemma_trim_empty_iff_blank};
use crate::providers::{base64_of, base64_encode};

verus! {

/// Uploads shorter than this many bytes are dismissed without any
/// outbound provider call.
pub const MIN_AUDIO_BYTES: usize = 1000;

/// What the pipeline reads of process configuration: whether a speech
/// synthesis credential is present. Absence switches the synthesis step
/// off and yields empty audio, a valid degraded outcome.
#[derive(Clone, Copy, PartialEq, Eq, Structural, Debug)]
pub struct Config {
    pub synthesis_configured: bool,
}

/// The MIME type inferred from the uploaded file's name.
#[derive(Clone, Copy, PartialEq, Eq, Structural, Debug)]
pub enum MimeKind {
    Ogg,
    Mp4,
    Webm,
}

/// The MIME type that a filename maps to: by its extension, with
/// `audio/webm` for anything unrecognized.
pub open spec fn mime_spec(filename: Seq<char>) -> MimeKind {
    if has_suffix(filename, ".ogg"@) {
        MimeKind::Ogg
    } else if has_suffix(filename, ".mp4"@) {
        MimeKind::Mp4
    } else {
        MimeKind::Webm
    }
}

impl MimeKind {
    /// The transport label of this MIME type.
    pub open spec fn label_spec(self) -> Seq<char> {
        match self {
            MimeKind::Ogg => "audio/ogg"@,
            MimeKind::Mp4 => "audio/mp4"@,
            MimeKind::Webm => "audio/webm"@,
        }
    }

    /// The transport label of this MIME type.
    pub fn label(&self) -> (r: &'static str)
        ensures
            r@ == self.label_spec(),
    {
        match self {
            MimeKind::Ogg => "audio/ogg",
            MimeKind::Mp4 => "audio/mp4",
            MimeKind::Webm => "audio/webm",
        }
    }
}

/// The declared filename of an upload, with the documented default
/// where the multipart body named none.
pub fn filename_or_default(name: Option<String>) -> (r: String)
    ensures
        (r@ == match name.deep_view() {
            Option::Some(n) => n,
            Option::None => "audio.webm"@,
        }),
{
    match name {
        Option::Some(n) => n,
        Option::None => String::from_str("audio.webm"),
    }
}

/// Infer the MIME type of an upload from its declared filename.
pub fn infer_mime(filename: &str) -> (m: MimeKind)
    ensures
        m == mime_spec(filename@),
{
    if str_ends_with(filename, ".ogg") {
        MimeKind::Ogg
    } else if str_ends_with(filename, ".mp4") {
        MimeKind::Mp4
    } else {
        MimeKind::Webm
    }
}

/// What one pipeline execution hands back to the caller: the reply text
/// and the transport-encoded synthesized audio, either of which may be
/// empty on a short-circuited or degraded path.
#[derive(Debug)]
pub struct PipelineResult {
    pub text: String,
    pub audio_b64: String,
}

/// The mathematical content of a `PipelineResult`.
pub struct ResultModel {
    pub text: Seq<char>,
    pub audio_b64: Seq<char>,
}

impl View for PipelineResult {
    type V = ResultModel;

    open spec fn view(&self) -> ResultModel {
        ResultModel { text: self.text@, audio_b64: self.audio_b64@ }
    }
}

/// The result of every short-circuited path: empty text, empty audio.
pub open spec fn empty_result() -> ResultModel {
    ResultModel { text: Seq::empty(), audio_b64: Seq::empty() }
}

/// Where one request's execution stands.
pub enum State {
    /// Nothing has happened yet.
    Start,
    /// The size guard passed and the transcription call is out.
    AwaitingTranscript,
    /// A non-blank transcript arrived and the completion call is out.
    AwaitingReply,
    /// The synthesis call is out; the reply text is kept for the result.
    AwaitingAudio { reply: String },
    /// A result was produced; the request is over.
    Done,
    /// A mandatory provider failed; the request ends in an error.
    Failed,
}

/// The mathematical content of a `State`.
pub enum StateModel {
    Start,
    AwaitingTranscript,
    AwaitingReply,
    AwaitingAudio { reply: Seq<char> },
    Done,
    Failed,
}

impl View for State {
    type V = StateModel;

    open spec fn view(&self) -> StateModel {
        match self {
            State::Start => StateModel::Start,
            State::AwaitingTranscript => StateModel::AwaitingTranscript,
            State::AwaitingReply => StateModel::AwaitingReply,
            State::AwaitingAudio { reply } => StateModel::AwaitingAudio { reply: reply@ },
            State::Done => StateModel::Done,
            State::Failed => StateModel::Failed,
        }
    }
}

/// What the transport layer reports to the machine. The string fields
/// carry what the provider's JSON response held, `None` where the
/// expected member was absent or not a string.
pub enum Event {
    /// The upload arrived, fully read.
    Upload { payload_len: usize, filename: String },
    /// The transcription provider answered; `text_field` is its `text` member.
    Transcription { text_field: Option<String> },
    /// The completion provider answered; `content_field` is its first
    /// choice's message content.
    Completion { content_field: Option<String> },
    /// The synthesis provider answered: its audio bytes on success,
    /// `None` on a non-success status.
    Synthesis { audio: Option<Vec<u8>> },
    /// The outbound call failed at the transport level.
    TransportFailure,
    /// A mandatory provider's body was not JSON at all.
    MalformedResponse,
}

/// The mathematical content of an `Event`.
pub enum EventModel {
    Upload { payload_len: nat, filename: Seq<char> },
    Transcription { text_field: Option<Seq<char>> },
    Completion { content_field: Option<Seq<char>> },
    Synthesis { audio: Option<Seq<u8>> },
    TransportFailure,
    MalformedResponse,
}

impl View for Event {
    type V = EventModel;

    open spec fn view(&self) -> EventModel {
        match self {
            Event::Upload { payload_len, filename } => EventModel::Upload {
                payload_len: *payload_len as nat,
                filename: filename@,
            },
            Event::Transcription { text_field } => EventModel::Transcription {
                text_field: text_field.deep_view(),
            },
            Event::Completion { content_field } => EventModel::Completion {
                content_field: content_field.deep_view(),
            },
            Event::Synthesis { audio } => EventModel::Synthesis { audio: audio.deep_view() },
            Event::TransportFailure => EventModel::TransportFailure,
            Event::MalformedResponse => EventModel::MalformedResponse,
        }
    }
}

/// What the machine asks the transport layer to do next.
pub enum Action {
    /// Send the upload to the transcription provider, declared as `mime`.
    CallTranscription { mime: MimeKind },
    /// Send the transcript to the completion provider.
    CallCompletion { transcript: String },
    /// Send the reply text to the synthesis provider.
    CallSynthesis { text: String },
    /// Answer the caller with this result.
    Respond { result: PipelineResult },
    /// Answer the caller with an internal error.
    Fail,
}

/// The mathematical content of an `Action`.
pub enum ActionModel {
    CallTranscription { mime: MimeKind },
    CallCompletion { transcript: Seq<char> },
    CallSynthesis { text: Seq<char> },
    Respond { result: ResultModel },
    Fail,
}

impl View for Action {
    type V = ActionModel;

    open spec fn view(&self) -> ActionModel {
        match self {
            Action::CallTranscription { mime } => ActionModel::CallTranscription { mime: *mime },
            Action::CallCompletion { transcript } => ActionModel::CallCompletion {
                transcript: transcript@,
            },
            Action::CallSynthesis { text } => ActionModel::CallSynthesis { text: text@ },
            Action::Respond { result } => ActionModel::Respond { result: result@ },
            Action::Fail => ActionModel::Fail,
        }
    }
}

/// An action that reaches out to a provider, as opposed to answering
/// the caller.
pub open spec fn is_provider_call(a: ActionModel) -> bool {
    a is CallTranscription || a is CallCompletion || a is CallSynthesis
}

/// The text a response field stands for: its content, or nothing where
/// the member was absent.
pub open spec fn field_text(o: Option<Seq<char>>) -> Seq<char> {
    match o {
        Option::Some(s) => s,
        Option::None => Seq::empty(),
    }
}

/// One transition of the pipeline machine.
///
/// - At `Start`, an upload below `MIN_AUDIO_BYTES` answers `{"", ""}` at
///   once; otherwise the transcription call goes out, declared with the
///   MIME type inferred from the filename.
/// - At `AwaitingTranscript`, a transcript blank after trimming answers
///   `{"", ""}`; otherwise the trimmed transcript goes to completion.
/// - At `AwaitingReply`, the trimmed reply goes to synthesis when a
///   credential is configured, else it is answered with empty audio.
/// - At `AwaitingAudio`, successful audio is answered base64-encoded;
///   a non-success status or a transport failure degrades to empty
///   audio with the reply text unharmed.
/// - A transport failure or a malformed response at a mandatory step,
///   and any event that does not belong to the state, end the request
///   in `Failed`.
pub open spec fn step_spec(cfg: Config, s: StateModel, e: EventModel) -> (StateModel, ActionModel) {
    match (s, e) {
        (StateModel::Start, EventModel::Upload { payload_len, filename }) => {
            if payload_len < MIN_AUDIO_BYTES as nat {
                (StateModel::Done, ActionModel::Respond { result: empty_result() })
            } else {
                (
                    StateModel::AwaitingTranscript,
                    ActionModel::CallTranscription { mime: mime_spec(filename) },
                )
            }
        },
        (StateModel::AwaitingTranscript, EventModel::Transcription { text_field }) => {
            let t = trim_spec(field_text(text_field));
            if t.len() == 0 {
                (StateModel::Done, ActionModel::Respond { result: empty_result() })
            } else {
                (StateModel::AwaitingReply, ActionModel::CallCompletion { transcript: t })
            }
        },
        (StateModel::AwaitingReply, EventModel::Completion { content_field }) => {
            let reply = trim_spec(field_text(content_field));
            if cfg.synthesis_configured {
                (
                    StateModel::AwaitingAudio { reply },
                    ActionModel::CallSynthesis { text: reply },
                )
            } else {
                (
                    StateModel::Done,
                    ActionModel::Respond {
                        result: ResultModel { text: reply, audio_b64: Seq::empty() },
                    },
                )
            }
        },
        (StateModel::AwaitingAudio { reply }, EventModel::Synthesis { audio }) => {
            let encoded = match audio {
                Option::Some(bytes) => base64_of(bytes),
                Option::None => Seq::empty(),
            };
            (
                StateModel::Done,
                ActionModel::Respond { result: ResultModel { text: reply, audio_b64: encoded } },
            )
        },
        (StateModel::AwaitingAudio { reply }, EventModel::TransportFailure) => {
            (
                StateModel::Done,
                ActionModel::Respond {
                    result: ResultModel { text: reply, audio_b64: Seq::empty() },
                },
            )
        },
        _ => (StateModel::Failed, ActionModel::Fail),
    }
}

/// Trim a provider's optional text field, an absent member reading as
/// empty text.
pub fn trimmed_field(field: Option<String>) -> (t: String)
    ensures
        t@ == trim_spec(field_text(field.deep_view())),
{
    match field {
        Option::Some(s) => trim_ws(s.as_str()),
        Option::None => String::new(),
    }
}

/// Run one transition of the pipeline machine; see `step_spec`.
pub fn step(cfg: &Config, state: State, event: Event) -> (r: (State, Action))
    ensures
        (r.0@, r.1@) == step_spec(*cfg, state@, event@),
{
    match (state, event) {
        (State::Start, Event::Upload { payload_len, filename }) => {
            if payload_len < MIN_AUDIO_BYTES {
                (
                    State::Done,
                    Action::Respond {
                        result: PipelineResult { text: String::new(), audio_b64: String::new() },
                    },
                )
            } else {
                let mime = infer_mime(filename.as_str());
                (State::AwaitingTranscript, Action::CallTranscription { mime })
            }
        },
        (State::AwaitingTranscript, Event::Transcription { text_field }) => {
            let t = trimmed_field(text_field);
            if t.as_str().is_empty() {
                (
                    State::Done,
                    Action::Respond {
                        result: PipelineResult { text: String::new(), audio_b64: String::new() },
                    },
                )
            } else {
                (State::AwaitingReply, Action::CallCompletion { transcript: t })
            }
        },
        (State::AwaitingReply, Event::Completion { content_field }) => {
            let reply = trimmed_field(content_field);
            if cfg.synthesis_configured {
                let text = reply.clone();
                (State::AwaitingAudio { reply }, Action::CallSynthesis { text })
            } else {
                (
                    State::Done,
                    Action::Respond {
                        result: PipelineResult { text: reply, audio_b64: String::new() },
                    },
                )
            }
        },
        (State::AwaitingAudio { reply }, Event::Synthesis { audio }) => {
            let encoded = match audio {
                Option::Some(bytes) => {
                    proof {
                        assert(bytes.deep_view() =~= bytes@);
                    }
                    base64_encode(&bytes)
                },
                Option::None => String::new(),
            };
            (
                State::Done,
                Action::Respond { result: PipelineResult { text: reply, audio_b64: encoded } },
            )
        },
        (State::AwaitingAudio { reply }, Event::TransportFailure) => {
            (
                State::Done,
                Action::Respond { result: PipelineResult { text: reply, audio_b64: String::new() } },
            )
        },
        (_, _) => (State::Failed, Action::Fail),
    }
}

/// The result the four-step chain computes from one request's inputs:
/// the upload's length, what the transcription and completion responses
/// held, and what synthesis returned (`None` standing for a non-success
/// status, a transport failure, or a call that never went out).
pub open spec fn pipeline_spec(
    cfg: Config,
    payload_len: nat,
    text_field: Option<Seq<char>>,
    content_field: Option<Seq<char>>,
    synthesis: Option<Seq<u8>>,
) -> ResultModel {
    if payload_len < MIN_AUDIO_BYTES as nat {
        empty_result()
    } else if trim_spec(field_text(text_field)).len() == 0 {
        empty_result()
    } else {
        let reply = trim_spec(field_text(content_field));
        let audio = if cfg.synthesis_configured {
            match synthesis {
                Option::Some(bytes) => base64_of(bytes),
                Option::None => Seq::empty(),
            }
        } else {
            Seq::empty()
        };
        ResultModel { text: reply, audio_b64: audio }
    }
}

/// The action a driver ends with: it starts the machine at `Start`,
/// performs each provider call the machine asks for, and feeds the
/// scripted answer back, until the machine answers the caller.
pub open spec fn run_spec(
    cfg: Config,
    payload_len: nat,
    filename: Seq<char>,
    text_field: Option<Seq<char>>,
    content_field: Option<Seq<char>>,
    synthesis: Option<Seq<u8>>,
) -> ActionModel {
    let (s1, a1) = step_spec(
        cfg,
        StateModel::Start,
        EventModel::Upload { payload_len, filename },
    );
    if !is_provider_call(a1) {
        a1
    } else {
        let (s2, a2) = step_spec(cfg, s1, EventModel::Transcription { text_field });
        if !is_provider_call(a2) {
            a2
        } else {
            let (s3, a3) = step_spec(cfg, s2, EventModel::Completion { content_field });
            if !is_provider_call(a3) {
                a3
            } else {
                let (s4, a4) = step_spec(cfg, s3, EventModel::Synthesis { audio: synthesis });
                a4
            }
        }
    }
}

/// A full run of the machine answers the caller with exactly what the
/// four-step chain computes: the machine refines the pipeline.
pub proof fn lemma_run_computes_pipeline(
    cfg: Config,
    payload_len: nat,
    filename: Seq<char>,
    text_field: Option<Seq<char>>,
    content_field: Option<Seq<char>>,
    synthesis: Option<Seq<u8>>,
)
    ensures
        run_spec(cfg, payload_len, filename, text_field, content_field, synthesis)
            == (ActionModel::Respond {
            result: pipeline_spec(cfg, payload_len, text_field, content_field, synthesis),
        }),
{
}

/// An upload below the size threshold is answered `{"", ""}` at once:
/// the one step responds, and the whole run makes no provider call,
/// whatever the providers would have answered.
pub proof fn lemma_size_guard_short_circuits(
    cfg: Config,
    payload_len: nat,
    filename: Seq<char>,
    text_field: Option<Seq<char>>,
    content_field: Option<Seq<char>>,
    synthesis: Option<Seq<u8>>,
)
    requires
        payload_len < MIN_AUDIO_BYTES as nat,
    ensures
        (step_spec(cfg, StateModel::Start, EventModel::Upload { payload_len, filename })
            == (StateModel::Done, ActionModel::Respond { result: empty_result() })),
        (run_spec(cfg, payload_len, filename, text_field, content_field, synthesis)
            == (ActionModel::Respond { result: empty_result() })),
{
}

/// A transcript that is empty or whitespace-only answers `{"", ""}`
/// without invoking the completion provider: the transition responds
/// rather than asking for any further call, and a whole run over an
/// upload of acceptable size ends the same way whatever the completion
/// and synthesis providers would have answered.
pub proof fn lemma_blank_transcript_short_circuits(
    cfg: Config,
    payload_len: nat,
    filename: Seq<char>,
    text_field: Option<Seq<char>>,
    content_field: Option<Seq<char>>,
    synthesis: Option<Seq<u8>>,
)
    requires
        all_space(field_text(text_field)),
    ensures
        (step_spec(
            cfg,
            StateModel::AwaitingTranscript,
            EventModel::Transcription { text_field },
        ) == (StateModel::Done, ActionModel::Respond { result: empty_result() })),
        payload_len >= MIN_AUDIO_BYTES as nat ==> (run_spec(
            cfg,
            payload_len,
            filename,
            text_field,
            content_field,
            synthesis,
        ) == (ActionModel::Respond { result: empty_result() })),
{
    lemma_trim_empty_iff_blank(field_text(text_field));
}

/// The reply text is the completion response's content field, trimmed
/// of leading and trailing whitespace, and nothing else — whether it
/// goes on to synthesis or straight into the answer.
pub proof fn lemma_reply_is_trimmed_content(cfg: Config, content_field: Option<Seq<char>>)
    ensures
        ({
            let (s, a) = step_spec(
                cfg,
                StateModel::AwaitingReply,
                EventModel::Completion { content_field },
            );
            let reply = trim_spec(field_text(content_field));
            &&& cfg.synthesis_configured ==> a == (ActionModel::CallSynthesis { text: reply })
                && s == (StateModel::AwaitingAudio { reply })
            &&& !cfg.synthesis_configured ==> a == (ActionModel::Respond {
                result: ResultModel { text: reply, audio_b64: Seq::empty() },
            })
        }),
{
}

/// With no synthesis credential configured, the audio field of the
/// answer is empty on every path, whatever the providers returned.
pub proof fn lemma_no_credential_no_audio(
    cfg: Config,
    payload_len: nat,
    text_field: Option<Seq<char>>,
    content_field: Option<Seq<char>>,
    synthesis: Option<Seq<u8>>,
)
    requires
        !cfg.synthesis_configured,
    ensures
        pipeline_spec(cfg, payload_len, text_field, content_field, synthesis).audio_b64
            == Seq::<char>::empty(),
{
}

/// A failed synthesis call — non-success status or transport failure —
/// degrades to empty audio and leaves the reply text unharmed.
pub proof fn lemma_synthesis_failure_degrades(cfg: Config, reply: Seq<char>)
    ensures
        (step_spec(
            cfg,
            StateModel::AwaitingAudio { reply },
            EventModel::Synthesis { audio: Option::None },
        ) == (
            StateModel::Done,
            ActionModel::Respond { result: ResultModel { text: reply, audio_b64: Seq::empty() } },
        )),
        (step_spec(cfg, StateModel::AwaitingAudio { reply }, EventModel::TransportFailure) == (
            StateModel::Done,
            ActionModel::Respond { result: ResultModel { text: reply, audio_b64: Seq::empty() } },
        )),
{
}

/// Successful synthesis answers the base64 encoding of exactly the
/// bytes the provider returned, beside the unchanged reply text.
pub proof fn lemma_synthesis_success_encodes(cfg: Config, reply: Seq<char>, bytes: Seq<u8>)
    ensures
        (step_spec(
            cfg,
            StateModel::AwaitingAudio { reply },
            EventModel::Synthesis { audio: Option::Some(bytes) },
        ) == (
            StateModel::Done,
            ActionModel::Respond {
                result: ResultModel { text: reply, audio_b64: base64_of(bytes) },
            },
        )),
{
}

/// A transport failure or a body that is not JSON at a mandatory step —
/// transcription or completion — ends the request in an error rather
/// than a degraded result.
pub proof fn lemma_mandatory_step_failure_is_fatal(cfg: Config)
    ensures
        (step_spec(cfg, StateModel::AwaitingTranscript, EventModel::TransportFailure) == (
            StateModel::Failed,
            ActionModel::Fail,
        )),
        (step_spec(cfg, StateModel::AwaitingTranscript, EventModel::MalformedResponse) == (
            StateModel::Failed,
            ActionModel::Fail,
        )),
        (step_spec(cfg, StateModel::AwaitingReply, EventModel::TransportFailure) == (
            StateModel::Failed,
            ActionModel::Fail,
        )),
        (step_spec(cfg, StateModel::AwaitingReply, EventModel::MalformedResponse) == (
            StateModel::Failed,
            ActionModel::Fail,
        )),
{
}

/// The pipeline is a function of its inputs alone: two runs over the
/// same upload and the same provider answers end in the same action,
/// so repeated executions produce identical output.
pub proof fn lemma_run_deterministic(
    cfg1: Config,
    cfg2: Config,
    payload_len1: nat,
    payload_len2: nat,
    filename1: Seq<char>,
    filename2: Seq<char>,
    text_field1: Option<Seq<char>>,
    text_field2: Option<Seq<char>>,
    content_field1: Option<Seq<char>>,
    content_field2: Option<Seq<char>>,
    synthesis1: Option<Seq<u8>>,
    synthesis2: Option<Seq<u8>>,
)
    requires
        cfg1 == cfg2,
        payload_len1 == payload_len2,
        filename1 == filename2,
        text_field1 == text_field2,
        content_field1 == content_field2,
        synthesis1 == synthesis2,
    ensures
        run_spec(cfg1, payload_len1, filename1, text_field1, content_field1, synthesis1)
            == run_spec(cfg2, payload_len2, filename2, text_field2, content_field2, synthesis2),
{
}

} // verus!

