//! Pure parts of the voice WebSocket route.
use vstd::prelude::*;
use vstd::string::*;
use vstd::utf8::*;

use crate::ids::sha256_digest;
use crate::middleware::auth::{token_matches, utf8_of};
use crate::routes::ws::FirstFrame;
use crate::text::{char_is_ws, char_len_utf8, char_width, is_ws, lemma_encode_take_succ,
    lemma_encode_utf8_append, slice_to_vec, string_from_chars, to_chars, trim_bounds, trim_spec};

verus! {

broadcast use vstd::seq::group_seq_axioms;

/// A sentence-ending punctuation mark.
pub open spec fn is_terminator(c: char) -> bool {
    c == '.' || c == '?' || c == '!'
}

/// Character `k` ends a sentence: it is a terminator followed by white
/// space or by the end of the text.
pub open spec fn ends_sentence(s: Seq<char>, k: int) -> bool {
    &&& 0 <= k < s.len()
    &&& is_terminator(s[k])
    &&& (k + 1 == s.len() || is_ws(s[k + 1]))
}

/// The first character at or after `from` that ends a sentence.
pub open spec fn first_sentence_end(s: Seq<char>, from: int) -> Option<int>
    decreases s.len() - from,
{
    if from < 0 || from >= s.len() {
        None
    } else if ends_sentence(s, from) {
        Some(from)
    } else {
        first_sentence_end(s, from + 1)
    }
}

/// Default agent profile for voice sessions.
pub fn default_agent() -> (s: String)
    ensures
        s@ == "aivyx"@,
{
    "aivyx".to_owned()
}

/// Default text-to-speech voice.
pub fn default_voice() -> (s: String)
    ensures
        s@ == "alloy"@,
{
    "alloy".to_owned()
}

/// Find the byte index of a sentence boundary in the buffer.
///
/// A sentence boundary is a period, question mark, or exclamation mark
/// followed by white space or end of string. Returns the byte index *after*
/// the boundary character (start of next sentence).
pub fn find_sentence_boundary(text: &str) -> (res: Option<usize>)
    ensures
        res == (match first_sentence_end(text@, 0) {
            Some(k) => Some(encode_utf8(text@.take(k + 1)).len() as usize),
            None => None,
        }),
{
    let chars = to_chars(text);
    let total = text.as_bytes().len();
    let ghost s = text@;
    let mut i: usize = 0;
    let mut offset: usize = 0;
    while i < chars.len()
        invariant
            chars@ == s,
            s == text@,
            total == encode_utf8(s).len(),
            i <= chars@.len(),
            offset == encode_utf8(s.take(i as int)).len(),
            first_sentence_end(s, 0) == first_sentence_end(s, i as int),
        decreases chars@.len() - i,
    {
        let c = chars[i];
        proof {
            lemma_encode_take_succ(s, i as int);
            lemma_encode_utf8_append(s.take(i + 1), s.skip(i + 1));
            assert(s.take(i + 1) + s.skip(i + 1) =~= s);
        }
        offset = offset + char_len_utf8(c);
        if c == '.' || c == '?' || c == '!' {
            if i + 1 == chars.len() || char_is_ws(chars[i + 1]) {
                return Some(offset);
            }
        }
        i += 1;
    }
    None
}

proof fn lemma_first_sentence_end(s: Seq<char>, from: int)
    ensures
        first_sentence_end(s, from) matches Some(k) ==> from <= k < s.len() && ends_sentence(s, k),
    decreases s.len() - from,
{
    if 0 <= from < s.len() && !ends_sentence(s, from) {
        lemma_first_sentence_end(s, from + 1);
    }
}

/// The first character of `v` that ends a sentence.
fn sentence_end(v: &Vec<char>) -> (r: Option<usize>)
    ensures
        match first_sentence_end(v@, 0) {
            Some(k) => r == Some(k as usize),
            None => r is None,
        },
{
    let mut i: usize = 0;
    while i < v.len()
        invariant
            i <= v@.len(),
            first_sentence_end(v@, 0) == first_sentence_end(v@, i as int),
        decreases v@.len() - i,
    {
        let c = v[i];
        if c == '.' || c == '?' || c == '!' {
            if i + 1 == v.len() || char_is_ws(v[i + 1]) {
                return Some(i);
            }
        }
        i += 1;
    }
    None
}

/// One step of the sentence splitter: the buffer after `token` is added,
/// and the sentence that is complete, if one is. Only the first sentence
/// end in the buffer is taken per token; an empty sentence is dropped.
pub open spec fn split_step(buffer: Seq<char>, token: Seq<char>) -> (Seq<char>, Option<Seq<char>>) {
    let b = buffer + token;
    match first_sentence_end(b, 0) {
        Some(k) => (b.skip(k + 1), if trim_spec(b.take(k + 1)).len() > 0 {
            Some(trim_spec(b.take(k + 1)))
        } else {
            None
        }),
        None => (b, None),
    }
}

/// Splits the agent's streamed text into sentences to speak, as they
/// complete.
pub struct SentenceSplitter {
    buffer: Vec<char>,
    sentences: Vec<String>,
}

impl SentenceSplitter {
    /// Text not yet part of a sentence.
    pub closed spec fn pending(&self) -> Seq<char> {
        self.buffer@
    }

    /// The complete sentences, in order.
    pub closed spec fn done(&self) -> Seq<Seq<char>> {
        self.sentences@.map_values(|s: String| s@)
    }

    /// An empty splitter.
    pub fn new() -> (s: Self)
        ensures
            s.pending() == Seq::<char>::empty(),
            s.done() == Seq::<Seq<char>>::empty(),
    {
        let s = SentenceSplitter { buffer: Vec::new(), sentences: Vec::new() };
        assert(s.done() =~= Seq::<Seq<char>>::empty());
        s
    }

    /// Adds a streamed token; a sentence it completes is kept.
    pub fn push_token(&mut self, token: &str)
        ensures
            final(self).pending() == split_step(old(self).pending(), token@).0,
            final(self).done() == match split_step(old(self).pending(), token@).1 {
                Some(t) => old(self).done().push(t),
                None => old(self).done(),
            },
    {
        let t = to_chars(token);
        let mut i: usize = 0;
        let ghost start = self.buffer@;
        while i < t.len()
            invariant
                i <= t@.len(),
                self.buffer@ == start + t@.take(i as int),
                self.sentences == old(self).sentences,
            decreases t@.len() - i,
        {
            self.buffer.push(t[i]);
            assert(start + t@.take(i as int + 1) =~= (start + t@.take(i as int)).push(t@[i as int]));
            i += 1;
        }
        assert(t@.take(t@.len() as int) =~= t@);
        match sentence_end(&self.buffer) {
            Some(k) => {
                proof {
                    lemma_first_sentence_end(self.buffer@, 0);
                }
                let n = self.buffer.len();
                assert(k < n);
                let head = slice_to_vec(self.buffer.as_slice(), 0, k + 1);
                let (lo, hi) = trim_bounds(head.as_slice(), 0);
                assert(head@.skip(0) =~= head@);
                assert(head@ =~= self.buffer@.take(k + 1));
                let sentence = string_from_chars(head.as_slice(), lo, hi);
                let rest = slice_to_vec(self.buffer.as_slice(), k + 1, self.buffer.len());
                assert(rest@ =~= self.buffer@.skip(k + 1));
                self.buffer = rest;
                if lo < hi {
                    let ghost before = self.sentences@;
                    self.sentences.push(sentence);
                    assert(self.sentences@.map_values(|s: String| s@) =~= before.map_values(
                        |s: String| s@,
                    ).push(sentence@));
                }
            },
            None => {},
        }
    }

    /// The sentences to speak once the stream ends: the complete ones, then
    /// the trimmed rest, unless it is empty.
    pub fn finish(self) -> (r: Vec<String>)
        ensures
            r@.map_values(|s: String| s@) == if trim_spec(self.pending()).len() > 0 {
                self.done().push(trim_spec(self.pending()))
            } else {
                self.done()
            },
    {
        let mut sentences = self.sentences;
        let (lo, hi) = trim_bounds(self.buffer.as_slice(), 0);
        assert(self.buffer@.skip(0) =~= self.buffer@);
        if lo < hi {
            let rest = string_from_chars(self.buffer.as_slice(), lo, hi);
            let ghost before = sentences@;
            sentences.push(rest);
            assert(sentences@.map_values(|s: String| s@) =~= before.map_values(|s: String| s@).push(
                rest@,
            ));
        }
        sentences
    }
}

/// The refusal text for a first frame on the voice socket, `None` when the
/// connection is accepted. A frame that is not text reads as a failed
/// connection here.
pub open spec fn voice_auth_refusal(frame: FirstFrame, expected: Seq<u8>) -> Option<Seq<char>> {
    match frame {
        FirstFrame::Nothing | FirstFrame::NotText => Some("auth timeout or connection error"@),
        FirstFrame::Unparsable => Some("invalid auth message format"@),
        FirstFrame::NotAuth => Some("first message must be auth"@),
        FirstFrame::Auth(t) => if sha256_digest(utf8_of(t@)) == expected {
            None
        } else {
            Some("invalid bearer token"@)
        },
    }
}

/// Authenticate the voice socket from its first frame: `Ok` to answer
/// `auth_ok`, or the `auth_error` text.
pub fn authenticate_voice(frame: FirstFrame, expected_hash: &[u8]) -> (r: Result<(), String>)
    ensures
        match voice_auth_refusal(frame, expected_hash@) {
            None => r is Ok,
            Some(m) => r matches Err(t) && t@ == m,
        },
{
    match frame {
        FirstFrame::Nothing | FirstFrame::NotText => Err("auth timeout or connection error".to_owned()),
        FirstFrame::Unparsable => Err("invalid auth message format".to_owned()),
        FirstFrame::NotAuth => Err("first message must be auth".to_owned()),
        FirstFrame::Auth(t) => if token_matches(t.as_str(), expected_hash) {
            Ok(())
        } else {
            Err("invalid bearer token".to_owned())
        },
    }
}

/// Voice session configuration (set via the `config` message).
#[derive(Debug, Clone, PartialEq, Eq)]
pub struct VoiceSessionConfig {
    /// Agent profile.
    pub agent: String,
    /// Session to resume.
    pub session_id: Option<String>,
    /// Project context.
    pub project: Option<String>,
    /// TTS voice.
    pub voice: String,
}

impl Default for VoiceSessionConfig {
    /// Agent `aivyx`, voice `alloy`, no session and no project.
    fn default() -> (c: Self)
        ensures
            c.agent@ == "aivyx"@,
            c.session_id is None,
            c.project is None,
            c.voice@ == "alloy"@,
    {
        VoiceSessionConfig { agent: default_agent(), session_id: None, project: None, voice: default_voice() }
    }
}

/// The characters of an optional string.
pub open spec fn opt_view(o: Option<String>) -> Option<Seq<char>> {
    match o {
        Some(s) => Some(s@),
        None => None,
    }
}

/// A configuration's texts.
pub open spec fn config_view(c: VoiceSessionConfig) -> (Seq<char>, Option<Seq<char>>, Option<Seq<char>>, Seq<char>) {
    (c.agent@, opt_view(c.session_id), opt_view(c.project), c.voice@)
}

fn copy_opt(o: &Option<String>) -> (r: Option<String>)
    ensures
        opt_view(r) == opt_view(*o),
{
    match o {
        Some(s) => Some(s.clone()),
        None => None,
    }
}

impl VoiceSessionConfig {
    /// A copy with the same texts.
    pub fn duplicate(&self) -> (c: Self)
        ensures
            config_view(c) == config_view(*self),
    {
        VoiceSessionConfig {
            agent: self.agent.clone(),
            session_id: copy_opt(&self.session_id),
            project: copy_opt(&self.project),
            voice: self.voice.clone(),
        }
    }
}

/// The audio of a sequence of chunks, concatenated.
pub open spec fn concat_chunks(chunks: Seq<Vec<u8>>) -> Seq<u8>
    decreases chunks.len(),
{
    if chunks.len() == 0 {
        seq![]
    } else {
        concat_chunks(chunks.drop_last()) + chunks.last()@
    }
}

/// What the voice socket does with one message, between turns.
pub struct VoiceSession {
    config: VoiceSessionConfig,
    audio: Vec<Vec<u8>>,
    started: bool,
}

impl VoiceSession {
    /// The configuration the next turn uses.
    pub closed spec fn config_spec(&self) -> VoiceSessionConfig {
        self.config
    }

    /// The audio received since the last utterance ended.
    pub closed spec fn buffered(&self) -> Seq<u8> {
        concat_chunks(self.audio@)
    }

    /// Whether audio chunks are waiting.
    pub closed spec fn has_audio(&self) -> bool {
        self.audio@.len() > 0
    }

    /// Whether a turn has been started on the connection.
    pub closed spec fn has_turn(&self) -> bool {
        self.started
    }

    /// A fresh session with the default configuration.
    pub fn new() -> (s: Self)
        ensures
            s.config_spec().agent@ == "aivyx"@,
            s.config_spec().voice@ == "alloy"@,
            s.config_spec().session_id is None,
            s.config_spec().project is None,
            !s.has_audio(),
            !s.has_turn(),
    {
        VoiceSession { config: VoiceSessionConfig::default(), audio: Vec::new(), started: false }
    }

    /// A `config` message replaces the configuration.
    pub fn configure(&mut self, config: VoiceSessionConfig)
        ensures
            final(self).config_spec() == config,
            final(self).buffered() == old(self).buffered(),
            final(self).has_audio() == old(self).has_audio(),
            final(self).has_turn() == old(self).has_turn(),
    {
        self.config = config;
    }

    /// A binary frame is buffered as audio.
    pub fn buffer_audio(&mut self, chunk: Vec<u8>)
        ensures
            final(self).buffered() == old(self).buffered() + chunk@,
            final(self).has_audio(),
            final(self).config_spec() == old(self).config_spec(),
            final(self).has_turn() == old(self).has_turn(),
    {
        let ghost before = self.audio@;
        self.audio.push(chunk);
        assert(self.audio@.drop_last() =~= before);
    }

    /// An `interrupt` message: tells whether there is a turn to cancel.
    pub fn interrupt(&self) -> (b: bool)
        ensures
            b == self.has_turn(),
    {
        self.started
    }

    /// An `end_utterance` message: without buffered audio nothing happens;
    /// otherwise the buffered audio, whether a previous turn must be
    /// cancelled, and the configuration of the new turn.
    pub fn end_utterance(&mut self) -> (r: Option<(Vec<u8>, bool, VoiceSessionConfig)>)
        ensures
            !old(self).has_audio() ==> r is None && final(self).buffered() == old(self).buffered()
                && final(self).has_turn() == old(self).has_turn(),
            old(self).has_audio() ==> (r matches Some((a, c, cfg)) && a@ == old(self).buffered() && c
                == old(self).has_turn() && config_view(cfg) == config_view(old(self).config_spec())
                && final(self).has_turn() && !final(self).has_audio() && final(self).buffered()
                == Seq::<u8>::empty()),
            final(self).config_spec() == old(self).config_spec(),
    {
        if self.audio.len() == 0 {
            return None;
        }
        let mut data: Vec<u8> = Vec::new();
        let mut i: usize = 0;
        while i < self.audio.len()
            invariant
                i <= self.audio@.len(),
                data@ == concat_chunks(self.audio@.take(i as int)),
            decreases self.audio@.len() - i,
        {
            assert(self.audio@.take(i as int + 1).drop_last() =~= self.audio@.take(i as int));
            let mut j: usize = 0;
            let ghost d0 = data@;
            while j < self.audio[i].len()
                invariant
                    i < self.audio@.len(),
                    j <= self.audio@[i as int]@.len(),
                    data@ == d0 + self.audio@[i as int]@.take(j as int),
                decreases self.audio@[i as int]@.len() - j,
            {
                data.push(self.audio[i][j]);
                assert(d0 + self.audio@[i as int]@.take(j as int + 1) =~= (d0 + self.audio@[i as int]@.take(
                    j as int,
                )).push(self.audio@[i as int]@[j as int]));
                j += 1;
            }
            assert(self.audio@[i as int]@.take(self.audio@[i as int]@.len() as int) =~= self.audio@[i as int]@);
            i += 1;
        }
        assert(self.audio@.take(self.audio@.len() as int) =~= self.audio@);
        let cancel_previous = self.started;
        self.started = true;
        self.audio = Vec::new();
        assert(concat_chunks(self.audio@) =~= Seq::<u8>::empty());
        Some((data, cancel_previous, self.config.duplicate()))
    }
}

/// Why a voice turn stopped before the agent ran.
#[derive(Debug, Clone, PartialEq, Eq)]
pub enum VoiceTurnError {
    /// No `[speech]` configuration.
    SpeechNotConfigured,
    /// The encrypted store could not be opened.
    Store(String),
    /// The speech-to-text provider could not be created.
    SttProvider(String),
    /// Transcription failed.
    Transcription(String),
    /// The agent could not be created.
    AgentCreation(String),
}

/// The error text sent to the client.
pub open spec fn voice_error_text(e: VoiceTurnError) -> Seq<char> {
    match e {
        VoiceTurnError::SpeechNotConfigured => "speech not configured"@,
        VoiceTurnError::Store(d) => "store error: "@ + d@,
        VoiceTurnError::SttProvider(d) => "STT provider error: "@ + d@,
        VoiceTurnError::Transcription(d) => "transcription failed: "@ + d@,
        VoiceTurnError::AgentCreation(d) => "agent creation failed: "@ + d@,
    }
}

impl VoiceTurnError {
    /// The error text sent to the client.
    pub fn message(&self) -> (m: String)
        ensures
            m@ == voice_error_text(*self),
    {
        let (head, detail) = match self {
            VoiceTurnError::SpeechNotConfigured => {
                return "speech not configured".to_owned();
            },
            VoiceTurnError::Store(d) => ("store error: ", d),
            VoiceTurnError::SttProvider(d) => ("STT provider error: ", d),
            VoiceTurnError::Transcription(d) => ("transcription failed: ", d),
            VoiceTurnError::AgentCreation(d) => ("agent creation failed: ", d),
        };
        let mut m = head.to_owned();
        m.append(detail.as_str());
        m
    }
}

/// Whether a transcript holds speech: the agent runs only on a transcript
/// that is not blank.
pub fn transcript_has_speech(text: &str) -> (b: bool)
    ensures
        b == (trim_spec(text@).len() > 0),
{
    let v = to_chars(text);
    let (lo, hi) = trim_bounds(v.as_slice(), 0);
    assert(v@.skip(0) =~= v@);
    lo < hi
}

/// Where a voice turn stands: each stage waits for the outcome of the
/// outside work that the previous step asked for.
#[derive(Debug, Clone, PartialEq, Eq)]
pub enum VoiceTurnStage {
    /// Waiting to learn whether speech is configured.
    Start,
    /// Waiting for the encrypted store to open.
    OpeningStore,
    /// Waiting for the speech-to-text provider.
    CreatingStt,
    /// Waiting for the transcript.
    Transcribing,
    /// Waiting for the transcript to reach the client.
    SendingTranscript { transcript: String },
    /// Waiting for the agent.
    CreatingAgent { transcript: String },
    /// Waiting for the agent turn (and its spoken reply) to end.
    RunningTurn,
    /// The turn is over.
    Finished,
}

/// The outcome of the outside work of a voice turn.
#[derive(Debug, Clone, PartialEq, Eq)]
pub enum VoiceTurnEvent {
    /// Whether a `[speech]` configuration exists.
    SpeechConfigured(bool),
    /// The encrypted store opened.
    StoreOpened,
    /// The encrypted store failed to open, for this reason.
    StoreFailed(String),
    /// The speech-to-text provider was created.
    SttCreated,
    /// The speech-to-text provider could not be created, for this reason.
    SttFailed(String),
    /// The transcript.
    Transcribed(String),
    /// Transcription failed, for this reason.
    TranscriptionFailed(String),
    /// The transcript was sent to the client.
    TranscriptSent,
    /// The agent was created.
    AgentCreated,
    /// The agent could not be created, for this reason.
    AgentFailed(String),
    /// The agent turn ended.
    TurnCompleted,
    /// The agent turn failed, for this reason.
    TurnFailed(String),
}

/// What the connection does next in a voice turn.
#[derive(Debug, Clone, PartialEq, Eq)]
pub enum VoiceTurnAction {
    /// Open the encrypted store.
    OpenStore,
    /// Create the speech-to-text provider.
    CreateStt,
    /// Transcribe the buffered audio.
    Transcribe,
    /// Send the final transcript to the client.
    SendTranscript(String),
    /// Create the agent.
    CreateAgent,
    /// Run the agent turn on the transcript, streaming text and speech.
    RunTurn(String),
    /// Save the session and send `done` with its ID and cost.
    SaveAndSendDone,
    /// Send this error to the client; the turn ends.
    SendError(String),
    /// End the turn without a message.
    Stop,
}

/// One step of a voice turn: from the stage and the outcome of the work it
/// waited for, with `cancelled` telling whether the client interrupted,
/// the next stage and what to do. Transcription is not started, and no
/// agent created, once the turn is cancelled; a blank transcript ends the
/// turn silently; a failed turn is reported only when not cancelled. An
/// event the stage does not wait for ends the turn.
pub fn voice_turn_step(stage: VoiceTurnStage, event: VoiceTurnEvent, cancelled: bool) -> (r: (
    VoiceTurnStage,
    VoiceTurnAction,
))
    ensures
        match (stage, event) {
            (VoiceTurnStage::Start, VoiceTurnEvent::SpeechConfigured(true)) => r
                == (VoiceTurnStage::OpeningStore, VoiceTurnAction::OpenStore),
            (VoiceTurnStage::Start, VoiceTurnEvent::SpeechConfigured(false)) => r.0
                == VoiceTurnStage::Finished && (r.1 matches VoiceTurnAction::SendError(m) && m@
                == voice_error_text(VoiceTurnError::SpeechNotConfigured)),
            (VoiceTurnStage::OpeningStore, VoiceTurnEvent::StoreOpened) => r
                == (VoiceTurnStage::CreatingStt, VoiceTurnAction::CreateStt),
            (VoiceTurnStage::OpeningStore, VoiceTurnEvent::StoreFailed(e)) => r.0
                == VoiceTurnStage::Finished && (r.1 matches VoiceTurnAction::SendError(m) && m@
                == voice_error_text(VoiceTurnError::Store(e))),
            (VoiceTurnStage::CreatingStt, VoiceTurnEvent::SttCreated) => if cancelled {
                r == (VoiceTurnStage::Finished, VoiceTurnAction::Stop)
            } else {
                r == (VoiceTurnStage::Transcribing, VoiceTurnAction::Transcribe)
            },
            (VoiceTurnStage::CreatingStt, VoiceTurnEvent::SttFailed(e)) => r.0
                == VoiceTurnStage::Finished && (r.1 matches VoiceTurnAction::SendError(m) && m@
                == voice_error_text(VoiceTurnError::SttProvider(e))),
            (VoiceTurnStage::Transcribing, VoiceTurnEvent::Transcribed(t)) => if trim_spec(
                t@,
            ).len() > 0 {
                r == (VoiceTurnStage::SendingTranscript { transcript: t }, VoiceTurnAction::SendTranscript(t))
            } else {
                r == (VoiceTurnStage::Finished, VoiceTurnAction::Stop)
            },
            (VoiceTurnStage::Transcribing, VoiceTurnEvent::TranscriptionFailed(e)) => r.0
                == VoiceTurnStage::Finished && (r.1 matches VoiceTurnAction::SendError(m) && m@
                == voice_error_text(VoiceTurnError::Transcription(e))),
            (VoiceTurnStage::SendingTranscript { transcript }, VoiceTurnEvent::TranscriptSent) => if cancelled {
                r == (VoiceTurnStage::Finished, VoiceTurnAction::Stop)
            } else {
                r == (VoiceTurnStage::CreatingAgent { transcript }, VoiceTurnAction::CreateAgent)
            },
            (VoiceTurnStage::CreatingAgent { transcript }, VoiceTurnEvent::AgentCreated) => r
                == (VoiceTurnStage::RunningTurn, VoiceTurnAction::RunTurn(transcript)),
            (VoiceTurnStage::CreatingAgent { .. }, VoiceTurnEvent::AgentFailed(e)) => r.0
                == VoiceTurnStage::Finished && (r.1 matches VoiceTurnAction::SendError(m) && m@
                == voice_error_text(VoiceTurnError::AgentCreation(e))),
            (VoiceTurnStage::RunningTurn, VoiceTurnEvent::TurnCompleted) => r
                == (VoiceTurnStage::Finished, VoiceTurnAction::SaveAndSendDone),
            (VoiceTurnStage::RunningTurn, VoiceTurnEvent::TurnFailed(e)) => if cancelled {
                r == (VoiceTurnStage::Finished, VoiceTurnAction::Stop)
            } else {
                r == (VoiceTurnStage::Finished, VoiceTurnAction::SendError(e))
            },
            _ => r == (VoiceTurnStage::Finished, VoiceTurnAction::Stop),
        },
{
    match (stage, event) {
        (VoiceTurnStage::Start, VoiceTurnEvent::SpeechConfigured(configured)) => {
            if configured {
                (VoiceTurnStage::OpeningStore, VoiceTurnAction::OpenStore)
            } else {
                (
                    VoiceTurnStage::Finished,
                    VoiceTurnAction::SendError(VoiceTurnError::SpeechNotConfigured.message()),
                )
            }
        },
        (VoiceTurnStage::OpeningStore, VoiceTurnEvent::StoreOpened) => (
            VoiceTurnStage::CreatingStt,
            VoiceTurnAction::CreateStt,
        ),
        (VoiceTurnStage::OpeningStore, VoiceTurnEvent::StoreFailed(e)) => (
            VoiceTurnStage::Finished,
            VoiceTurnAction::SendError(VoiceTurnError::Store(e).message()),
        ),
        (VoiceTurnStage::CreatingStt, VoiceTurnEvent::SttCreated) => if cancelled {
            (VoiceTurnStage::Finished, VoiceTurnAction::Stop)
        } else {
            (VoiceTurnStage::Transcribing, VoiceTurnAction::Transcribe)
        },
        (VoiceTurnStage::CreatingStt, VoiceTurnEvent::SttFailed(e)) => (
            VoiceTurnStage::Finished,
            VoiceTurnAction::SendError(VoiceTurnError::SttProvider(e).message()),
        ),
        (VoiceTurnStage::Transcribing, VoiceTurnEvent::Transcribed(t)) => if transcript_has_speech(
            t.as_str(),
        ) {
            let sent = t.clone();
            (VoiceTurnStage::SendingTranscript { transcript: t }, VoiceTurnAction::SendTranscript(sent))
        } else {
            (VoiceTurnStage::Finished, VoiceTurnAction::Stop)
        },
        (VoiceTurnStage::Transcribing, VoiceTurnEvent::TranscriptionFailed(e)) => (
            VoiceTurnStage::Finished,
            VoiceTurnAction::SendError(VoiceTurnError::Transcription(e).message()),
        ),
        (VoiceTurnStage::SendingTranscript { transcript }, VoiceTurnEvent::TranscriptSent) => {
            if cancelled {
                (VoiceTurnStage::Finished, VoiceTurnAction::Stop)
            } else {
                (VoiceTurnStage::CreatingAgent { transcript }, VoiceTurnAction::CreateAgent)
            }
        },
        (VoiceTurnStage::CreatingAgent { transcript }, VoiceTurnEvent::AgentCreated) => (
            VoiceTurnStage::RunningTurn,
            VoiceTurnAction::RunTurn(transcript),
        ),
        (VoiceTurnStage::CreatingAgent { .. }, VoiceTurnEvent::AgentFailed(e)) => (
            VoiceTurnStage::Finished,
            VoiceTurnAction::SendError(VoiceTurnError::AgentCreation(e).message()),
        ),
        (VoiceTurnStage::RunningTurn, VoiceTurnEvent::TurnCompleted) => (
            VoiceTurnStage::Finished,
            VoiceTurnAction::SaveAndSendDone,
        ),
        (VoiceTurnStage::RunningTurn, VoiceTurnEvent::TurnFailed(e)) => if cancelled {
            (VoiceTurnStage::Finished, VoiceTurnAction::Stop)
        } else {
            (VoiceTurnStage::Finished, VoiceTurnAction::SendError(e))
        },
        _ => (VoiceTurnStage::Finished, VoiceTurnAction::Stop),
    }
}

} // verus!
