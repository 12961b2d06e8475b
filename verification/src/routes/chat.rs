//! Chat endpoints: which agents the HTTP API can run, the errors it
//! answers, and how the audio upload form is read.
use vstd::prelude::*;
use vstd::string::*;

use crate::channels::session::SessionId;
use crate::engine::AutonomyTier;
use crate::ids::{uuid_parsed, uuid_text};
use crate::routes::sessions::parse_session_id;
use crate::error::{AivyxError, ServerError};
use crate::text::str_eq;

verus! {

/// Request body for `POST /chat`.
#[derive(Debug, Clone, PartialEq, Eq)]
pub struct ChatRequest {
    /// Agent profile name (must exist in `~/.aivyx/agents/`).
    pub agent: String,
    /// The user's message.
    pub message: String,
    /// Optional session ID to resume a previous conversation.
    pub session_id: Option<String>,
    /// Optional project name to scope the agent's context.
    pub project: Option<String>,
}

/// The error of an agent that cannot be created: a missing or unreadable
/// profile reads as `agent not found`; other errors pass through.
pub fn agent_creation_error(agent: &str, e: AivyxError) -> (r: ServerError)
    ensures
        match e {
            AivyxError::Io(_) | AivyxError::Config(_) => r.0 matches AivyxError::Config(m) && m@
                == "agent not found: "@ + agent@,
            _ => r == ServerError(e),
        },
{
    match e {
        AivyxError::Io(_) | AivyxError::Config(_) => {
            let mut m = "agent not found: ".to_owned();
            m.append(agent);
            ServerError(AivyxError::Config(m))
        },
        other => ServerError(other),
    }
}

/// The error message for an agent tier the HTTP API cannot serve.
pub open spec fn non_autonomous_message(t: AutonomyTier) -> Seq<char> {
    match t {
        AutonomyTier::Locked => "Locked-tier agents cannot be used via the HTTP API"@,
        _ => "Leash-tier agents require an interactive channel (not supported via HTTP)"@,
    }
}

/// Rejects agents with Leash or Locked autonomy tiers: the HTTP server has
/// no interactive channel to approve tool calls. Only Trust and Free tiers
/// are allowed.
pub fn reject_non_autonomous(tier: AutonomyTier) -> (r: Result<(), ServerError>)
    ensures
        r is Ok <==> tier.is_autonomous(),
        r matches Err(ServerError(AivyxError::Config(m))) ==> m@ == non_autonomous_message(tier),
        r matches Err(ServerError(e)) ==> e is Config,
{
    match tier {
        AutonomyTier::Locked => Err(
            ServerError(AivyxError::Config("Locked-tier agents cannot be used via the HTTP API".to_owned())),
        ),
        AutonomyTier::Leash => Err(
            ServerError(
                AivyxError::Config(
                    "Leash-tier agents require an interactive channel (not supported via HTTP)".to_owned(),
                ),
            ),
        ),
        AutonomyTier::Trust | AutonomyTier::Free => Ok(()),
    }
}

/// The error for a session ID that is no UUID.
pub fn invalid_session_id(id: &str) -> (r: ServerError)
    ensures
        r.0 matches AivyxError::Config(m) && m@ == "invalid session ID: "@ + id@,
{
    let mut m = "invalid session ID: ".to_owned();
    m.append(id);
    ServerError(AivyxError::Config(m))
}

/// The error when `POST /chat/audio` is called without a `[speech]`
/// configuration.
pub fn speech_not_configured() -> (r: ServerError)
    ensures
        r.0 matches AivyxError::Config(m) && m@
            == "speech not configured \u{2014} add [speech] section to config.toml"@,
{
    ServerError(AivyxError::Config("speech not configured \u{2014} add [speech] section to config.toml".to_owned()))
}

/// The fields of the `POST /chat/audio` form read so far.
#[derive(Debug, Clone, PartialEq, Eq)]
pub struct AudioForm {
    /// The audio file, once read.
    pub audio: Option<Vec<u8>>,
    /// File name of the audio (default `audio.wav`).
    pub filename: String,
    /// Agent profile (default `aivyx`).
    pub agent: String,
    /// Session to resume.
    pub session_id: Option<String>,
    /// Project context.
    pub project: Option<String>,
}

/// A request read from the audio form.
#[derive(Debug, Clone, PartialEq, Eq)]
pub struct AudioRequest {
    /// The audio file.
    pub audio: Vec<u8>,
    /// File name of the audio.
    pub filename: String,
    /// Agent profile.
    pub agent: String,
    /// Session to resume.
    pub session_id: Option<String>,
    /// Project context.
    pub project: Option<String>,
}

/// The value of a form field.
#[derive(Debug, Clone, PartialEq, Eq)]
pub enum FieldValue {
    /// A file upload, with its file name when the part has one.
    File { file_name: Option<String>, bytes: Vec<u8> },
    /// A text field.
    Text(String),
}

impl AudioForm {
    /// A form with nothing read.
    pub fn new() -> (f: Self)
        ensures
            f.audio is None,
            f.filename@ == "audio.wav"@,
            f.agent@ == "aivyx"@,
            f.session_id is None,
            f.project is None,
    {
        AudioForm {
            audio: None,
            filename: "audio.wav".to_owned(),
            agent: "aivyx".to_owned(),
            session_id: None,
            project: None,
        }
    }

    /// Reads one field: `audio` takes the file (and its name), `agent`,
    /// `session_id` and `project` take a non-empty text; other fields, and
    /// values of the wrong kind, are ignored.
    pub fn apply_field(&mut self, name: &str, value: FieldValue)
        ensures
            name@ == "audio"@ ==> match value {
                FieldValue::File { file_name, bytes } => *final(self) == AudioForm {
                    audio: Some(bytes),
                    filename: match file_name {
                        Some(n) => n,
                        None => old(self).filename,
                    },
                    ..*old(self)
                },
                FieldValue::Text(_) => *final(self) == *old(self),
            },
            name@ == "agent"@ ==> match value {
                FieldValue::Text(t) => if t@.len() > 0 {
                    *final(self) == AudioForm { agent: t, ..*old(self) }
                } else {
                    *final(self) == *old(self)
                },
                _ => *final(self) == *old(self),
            },
            name@ == "session_id"@ ==> match value {
                FieldValue::Text(t) => if t@.len() > 0 {
                    *final(self) == AudioForm { session_id: Some(t), ..*old(self) }
                } else {
                    *final(self) == *old(self)
                },
                _ => *final(self) == *old(self),
            },
            name@ == "project"@ ==> match value {
                FieldValue::Text(t) => if t@.len() > 0 {
                    *final(self) == AudioForm { project: Some(t), ..*old(self) }
                } else {
                    *final(self) == *old(self)
                },
                _ => *final(self) == *old(self),
            },
            !(name@ == "audio"@ || name@ == "agent"@ || name@ == "session_id"@ || name@ == "project"@)
                ==> *final(self) == *old(self),
    {
        proof {
            reveal_strlit("audio");
            reveal_strlit("agent");
            reveal_strlit("session_id");
            reveal_strlit("project");
            assert("agent"@ != "audio"@) by {
                assert("agent"@[1] != "audio"@[1]);
            }
            assert("session_id"@[0] != "audio"@[0] && "session_id"@[0] != "agent"@[0]);
            assert("project"@[0] != "audio"@[0] && "project"@[0] != "agent"@[0] && "project"@[0]
                != "session_id"@[0]);
        }
        if str_eq(name, "audio") {
            match value {
                FieldValue::File { file_name, bytes } => {
                    match file_name {
                        Some(n) => {
                            self.filename = n;
                        },
                        None => {},
                    }
                    self.audio = Some(bytes);
                },
                FieldValue::Text(_) => {},
            }
        } else if str_eq(name, "agent") {
            match value {
                FieldValue::Text(t) => {
                    if t.as_str().as_bytes().len() > 0 {
                        self.agent = t;
                    } else {
                        proof {
                            vstd::utf8::encode_utf8_decode_utf8(t@);
                        }
                    }
                },
                _ => {},
            }
        } else if str_eq(name, "session_id") {
            match value {
                FieldValue::Text(t) => {
                    if t.as_str().as_bytes().len() > 0 {
                        self.session_id = Some(t);
                    } else {
                        proof {
                            vstd::utf8::encode_utf8_decode_utf8(t@);
                        }
                    }
                },
                _ => {},
            }
        } else if str_eq(name, "project") {
            match value {
                FieldValue::Text(t) => {
                    if t.as_str().as_bytes().len() > 0 {
                        self.project = Some(t);
                    } else {
                        proof {
                            vstd::utf8::encode_utf8_decode_utf8(t@);
                        }
                    }
                },
                _ => {},
            }
        }
    }

    /// The request, once the form is read; a form without audio is refused.
    pub fn finish(self) -> (r: Result<AudioRequest, ServerError>)
        ensures
            match self.audio {
                Some(a) => r == Ok::<AudioRequest, ServerError>(
                    AudioRequest {
                        audio: a,
                        filename: self.filename,
                        agent: self.agent,
                        session_id: self.session_id,
                        project: self.project,
                    },
                ),
                None => r matches Err(ServerError(AivyxError::Config(m))) && m@
                    == "missing required 'audio' field in multipart form"@,
            },
    {
        match self.audio {
            Some(a) => Ok(
                AudioRequest {
                    audio: a,
                    filename: self.filename,
                    agent: self.agent,
                    session_id: self.session_id,
                    project: self.project,
                },
            ),
            None => Err(
                ServerError(AivyxError::Config("missing required 'audio' field in multipart form".to_owned())),
            ),
        }
    }
}

/// An event of the `POST /chat/stream` response.
#[derive(Debug, Clone, PartialEq, Eq)]
pub enum SseEvent {
    /// `{"type":"token","content":...}`.
    Token(String),
    /// `{"type":"done","response":...}`, with the session ID and cost.
    Done(String),
    /// `{"type":"error","message":...}`.
    Error(String),
    /// The `[DONE]` sentinel.
    Sentinel,
}

/// The events that close a chat stream, after its tokens: `done` (or
/// `error`), then the `[DONE]` sentinel either way.
pub fn sse_closing_events(outcome: Result<String, String>) -> (v: Vec<SseEvent>)
    ensures
        match outcome {
            Ok(r) => v@ == seq![SseEvent::Done(r), SseEvent::Sentinel],
            Err(m) => v@ == seq![SseEvent::Error(m), SseEvent::Sentinel],
        },
{
    let mut v: Vec<SseEvent> = Vec::new();
    match outcome {
        Ok(r) => v.push(SseEvent::Done(r)),
        Err(m) => v.push(SseEvent::Error(m)),
    }
    v.push(SseEvent::Sentinel);
    v
}

/// Where an HTTP chat turn (`/chat`, `/chat/stream`, `/chat/audio`)
/// stands.
#[derive(Debug, Clone, PartialEq, Eq)]
pub enum ChatStage {
    /// Waiting for the agent `agent`; the request may name a session.
    CreatingAgent { agent: String, session_id: Option<String> },
    /// Waiting for the session to load.
    LoadingSession,
    /// Waiting for the agent turn.
    Running,
    /// The request is answered.
    Finished,
}

/// The outcome of the outside work of an HTTP chat turn.
#[derive(Debug, Clone, PartialEq, Eq)]
pub enum ChatEvent {
    /// The agent was created, with this autonomy tier.
    AgentCreated(AutonomyTier),
    /// The agent could not be created.
    AgentFailed(AivyxError),
    /// The session loaded (or there was none stored).
    SessionLoaded,
    /// The session store failed.
    SessionLoadFailed(AivyxError),
    /// The turn answered with this text.
    TurnCompleted(String),
    /// The turn failed with this error, whose text is given.
    TurnFailed(AivyxError, String),
}

/// What an HTTP chat turn does next.
#[derive(Debug, Clone, PartialEq, Eq)]
pub enum ChatAction {
    /// Load the session with this ID into the agent.
    LoadSession(SessionId),
    /// Run the turn (streaming its tokens on `/chat/stream`).
    RunTurn,
    /// Save the session and answer with the response.
    SaveAndRespond(String),
    /// Save the session, then send these events and end the stream.
    SaveAndClose(Vec<SseEvent>),
    /// Send these events and end the stream.
    Close(Vec<SseEvent>),
    /// Answer with this error (before any stream starts).
    Fail(ServerError),
    /// Nothing more to do.
    Stop,
}

/// One step of an HTTP chat turn. The agent is created, refused unless it
/// is autonomous, given its session when the request names one (a session
/// ID that is no UUID is refused), then run. On `/chat/stream`
/// (`streaming`) the end of the turn closes the stream with `done` or
/// `error` and the `[DONE]` sentinel; otherwise the response or the error is
/// the answer. An event the stage does not wait for ends the turn.
pub fn chat_step(stage: ChatStage, event: ChatEvent, streaming: bool) -> (r: (ChatStage, ChatAction))
    ensures
        match (stage, event) {
            (ChatStage::CreatingAgent { agent, .. }, ChatEvent::AgentFailed(e)) => r.0
                == ChatStage::Finished && (r.1 matches ChatAction::Fail(f) && match e {
                AivyxError::Io(_) | AivyxError::Config(_) => f.0 matches AivyxError::Config(m) && m@
                    == "agent not found: "@ + agent@,
                _ => f == ServerError(e),
            }),
            (ChatStage::CreatingAgent { agent, session_id }, ChatEvent::AgentCreated(tier)) => if !tier.is_autonomous() {
                r.0 == ChatStage::Finished && (r.1 matches ChatAction::Fail(ServerError(AivyxError::Config(m)))
                    && m@ == non_autonomous_message(tier))
            } else {
                match session_id {
                    None => r == (ChatStage::Running, ChatAction::RunTurn),
                    Some(s) => match uuid_parsed(s@) {
                        Some(b) => r.0 == ChatStage::LoadingSession && (r.1 matches ChatAction::LoadSession(id)
                            && id.text@ == uuid_text(b)),
                        None => r.0 == ChatStage::Finished && (r.1 matches ChatAction::Fail(
                            ServerError(AivyxError::Config(m)),
                        ) && m@ == "invalid session ID: "@ + s@),
                    },
                }
            },
            (ChatStage::LoadingSession, ChatEvent::SessionLoaded) => r == (ChatStage::Running, ChatAction::RunTurn),
            (ChatStage::LoadingSession, ChatEvent::SessionLoadFailed(e)) => r == (
                ChatStage::Finished,
                ChatAction::Fail(ServerError(e)),
            ),
            (ChatStage::Running, ChatEvent::TurnCompleted(resp)) => r.0 == ChatStage::Finished && if streaming {
                r.1 matches ChatAction::SaveAndClose(v) && v@ == seq![SseEvent::Done(resp), SseEvent::Sentinel]
            } else {
                r.1 == ChatAction::SaveAndRespond(resp)
            },
            (ChatStage::Running, ChatEvent::TurnFailed(e, text)) => r.0 == ChatStage::Finished && if streaming {
                r.1 matches ChatAction::Close(v) && v@ == seq![SseEvent::Error(text), SseEvent::Sentinel]
            } else {
                r.1 == ChatAction::Fail(ServerError(e))
            },
            _ => r == (ChatStage::Finished, ChatAction::Stop),
        },
{
    match (stage, event) {
        (ChatStage::CreatingAgent { agent, .. }, ChatEvent::AgentFailed(e)) => (
            ChatStage::Finished,
            ChatAction::Fail(agent_creation_error(agent.as_str(), e)),
        ),
        (ChatStage::CreatingAgent { session_id, .. }, ChatEvent::AgentCreated(tier)) => {
            if let Err(e) = reject_non_autonomous(tier) {
                return (ChatStage::Finished, ChatAction::Fail(e));
            }
            match session_id {
                None => (ChatStage::Running, ChatAction::RunTurn),
                Some(s) => match parse_session_id(s.as_str()) {
                    Ok(id) => (ChatStage::LoadingSession, ChatAction::LoadSession(id)),
                    Err(e) => (ChatStage::Finished, ChatAction::Fail(e)),
                },
            }
        },
        (ChatStage::LoadingSession, ChatEvent::SessionLoaded) => (ChatStage::Running, ChatAction::RunTurn),
        (ChatStage::LoadingSession, ChatEvent::SessionLoadFailed(e)) => (
            ChatStage::Finished,
            ChatAction::Fail(ServerError(e)),
        ),
        (ChatStage::Running, ChatEvent::TurnCompleted(resp)) => if streaming {
            (ChatStage::Finished, ChatAction::SaveAndClose(sse_closing_events(Ok(resp))))
        } else {
            (ChatStage::Finished, ChatAction::SaveAndRespond(resp))
        },
        (ChatStage::Running, ChatEvent::TurnFailed(e, text)) => if streaming {
            (ChatStage::Finished, ChatAction::Close(sse_closing_events(Err(text))))
        } else {
            (ChatStage::Finished, ChatAction::Fail(ServerError(e)))
        },
        _ => (ChatStage::Finished, ChatAction::Stop),
    }
}

/// Where the steps that `POST /chat/audio` takes before its chat turn
/// stand.
#[derive(Debug, Clone, PartialEq, Eq)]
pub enum AudioStage {
    /// Waiting to learn whether speech is configured.
    CheckingSpeech,
    /// Waiting for the multipart form.
    ReadingForm,
    /// Waiting for the transcript of the request's audio.
    Transcribing { agent: String, session_id: Option<String> },
    /// The chat turn takes over, or the request is answered.
    Finished,
}

/// The outcome of the outside work before an audio chat turn.
#[derive(Debug, Clone, PartialEq, Eq)]
pub enum AudioEvent {
    /// Whether a `[speech]` configuration exists.
    SpeechConfigured(bool),
    /// The form was read, with these fields.
    FormRead(AudioForm),
    /// Reading the form failed.
    FormFailed(ServerError),
    /// The audio was transcribed to this text.
    Transcribed(String),
    /// Transcription failed.
    TranscriptionFailed(ServerError),
}

/// What an audio chat request does next.
#[derive(Debug, Clone, PartialEq, Eq)]
pub enum AudioAction {
    /// Read the multipart form.
    ReadForm,
    /// Transcribe this audio, named so.
    Transcribe { audio: Vec<u8>, filename: String },
    /// Start the chat turn (`chat_step`) from this stage, on the transcript.
    StartChat { stage: ChatStage, transcript: String },
    /// Answer with this error.
    Fail(ServerError),
    /// Nothing more to do.
    Stop,
}

/// One step of `POST /chat/audio` before its chat turn: a missing
/// `[speech]` configuration is refused before the form is read, a form
/// without audio before anything is transcribed.
pub fn audio_chat_step(stage: AudioStage, event: AudioEvent) -> (r: (AudioStage, AudioAction))
    ensures
        match (stage, event) {
            (AudioStage::CheckingSpeech, AudioEvent::SpeechConfigured(true)) => r == (
                AudioStage::ReadingForm,
                AudioAction::ReadForm,
            ),
            (AudioStage::CheckingSpeech, AudioEvent::SpeechConfigured(false)) => r.0
                == AudioStage::Finished && (r.1 matches AudioAction::Fail(ServerError(AivyxError::Config(m)))
                && m@ == "speech not configured \u{2014} add [speech] section to config.toml"@),
            (AudioStage::ReadingForm, AudioEvent::FormRead(f)) => match f.audio {
                Some(a) => r == (
                    AudioStage::Transcribing { agent: f.agent, session_id: f.session_id },
                    AudioAction::Transcribe { audio: a, filename: f.filename },
                ),
                None => r.0 == AudioStage::Finished && (r.1 matches AudioAction::Fail(
                    ServerError(AivyxError::Config(m)),
                ) && m@ == "missing required 'audio' field in multipart form"@),
            },
            (AudioStage::ReadingForm, AudioEvent::FormFailed(e)) => r == (AudioStage::Finished, AudioAction::Fail(e)),
            (AudioStage::Transcribing { agent, session_id }, AudioEvent::Transcribed(t)) => r == (
                AudioStage::Finished,
                AudioAction::StartChat { stage: ChatStage::CreatingAgent { agent, session_id }, transcript: t },
            ),
            (AudioStage::Transcribing { .. }, AudioEvent::TranscriptionFailed(e)) => r == (
                AudioStage::Finished,
                AudioAction::Fail(e),
            ),
            _ => r == (AudioStage::Finished, AudioAction::Stop),
        },
{
    match (stage, event) {
        (AudioStage::CheckingSpeech, AudioEvent::SpeechConfigured(configured)) => if configured {
            (AudioStage::ReadingForm, AudioAction::ReadForm)
        } else {
            (AudioStage::Finished, AudioAction::Fail(speech_not_configured()))
        },
        (AudioStage::ReadingForm, AudioEvent::FormRead(f)) => match f.finish() {
            Ok(req) => (
                AudioStage::Transcribing { agent: req.agent, session_id: req.session_id },
                AudioAction::Transcribe { audio: req.audio, filename: req.filename },
            ),
            Err(e) => (AudioStage::Finished, AudioAction::Fail(e)),
        },
        (AudioStage::ReadingForm, AudioEvent::FormFailed(e)) => (AudioStage::Finished, AudioAction::Fail(e)),
        (AudioStage::Transcribing { agent, session_id }, AudioEvent::Transcribed(t)) => (
            AudioStage::Finished,
            AudioAction::StartChat { stage: ChatStage::CreatingAgent { agent, session_id }, transcript: t },
        ),
        (AudioStage::Transcribing { .. }, AudioEvent::TranscriptionFailed(e)) => (
            AudioStage::Finished,
            AudioAction::Fail(e),
        ),
        _ => (AudioStage::Finished, AudioAction::Stop),
    }
}

} // verus!
