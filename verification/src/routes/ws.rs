//! Pure parts of the chat WebSocket route.
use vstd::prelude::*;
use vstd::string::*;

use crate::engine::AutonomyTier;
use crate::ids::sha256_digest;
use crate::middleware::auth::{token_matches, utf8_of};
use crate::text::{decimal, find_char, find_char_from, find_seq, find_seq_from, string_from_chars,
    to_chars, trim_bounds, trim_spec, u64_to_decimal};

verus! {

broadcast use vstd::seq::group_seq_axioms;

/// Default agent profile for chat messages.
pub fn default_agent() -> (s: String)
    ensures
        s@ == "aivyx"@,
{
    "aivyx".to_owned()
}

/// The label that precedes the tool input in an approval prompt.
pub open spec fn input_label() -> Seq<char> {
    seq!['i', 'n', 'p', 'u', 't', ':']
}

/// `(tool, input)` as `parse_approval_prompt` extracts them: the text
/// between the first two backticks, and the trimmed text after the first
/// `input:` label (empty without one); `("unknown", prompt)` when the
/// prompt has fewer than two backticks.
pub open spec fn approval_prompt_spec(p: Seq<char>) -> (Seq<char>, Seq<char>) {
    match find_char_from(p, '`', 0) {
        Some(a) => match find_char_from(p, '`', a + 1) {
            Some(b) => (
                p.subrange(a + 1, b),
                match find_seq_from(p, input_label(), 0) {
                    Some(k) => trim_spec(p.skip(k + 6)),
                    None => Seq::empty(),
                },
            ),
            None => ("unknown"@, p),
        },
        None => ("unknown"@, p),
    }
}

/// Parse approval prompt into (tool_name, input) for structured WS messages.
pub fn parse_approval_prompt(prompt: &str) -> (r: (String, String))
    ensures
        (r.0@, r.1@) == approval_prompt_spec(prompt@),
{
    let chars = to_chars(prompt);
    let n = chars.len();
    if let Some(start) = find_char(&chars, '`', 0) {
        if let Some(end) = find_char(&chars, '`', start + 1) {
            let tool = string_from_chars(&chars, start + 1, end);
            let label = to_chars("input:");
            proof {
                reveal_strlit("input:");
            }
            assert(label@ =~= input_label());
            let ghost p = prompt@;
            let input = match find_seq(&chars, &label, 0) {
                Some(i) => {
                    assert(label@.len() == 6);
                    let (lo, hi) = trim_bounds(&chars, i + 6);
                    let s = string_from_chars(&chars, lo, hi);
                    assert(s@ == trim_spec(p.skip(i + 6)));
                    s
                },
                None => String::new(),
            };
            assert(tool@ == p.subrange(start + 1, end as int));
            assert(input@ == approval_prompt_spec(p).1);
            return (tool, input);
        }
    }
    ("unknown".to_owned(), prompt.to_owned())
}

/// Auth timeout: the client must send its auth message within 5 seconds.
pub const AUTH_TIMEOUT_SECS: u64 = 5;

/// Largest text frame accepted when none is configured (1 MiB).
pub const DEFAULT_WS_MAX_MESSAGE_SIZE: usize = 1048576;

/// What the first frame of a WebSocket connection turned out to be.
#[derive(Debug, Clone, PartialEq, Eq)]
pub enum FirstFrame {
    /// Nothing arrived in time, or the connection failed.
    Nothing,
    /// A frame that is not text.
    NotText,
    /// A text frame that is no client message.
    Unparsable,
    /// A client message other than `auth`.
    NotAuth,
    /// An `auth` message with this token.
    Auth(String),
}

/// The refusal text for a first frame on the chat socket, `None` when the
/// connection is accepted.
pub open spec fn ws_auth_refusal(frame: FirstFrame, expected: Seq<u8>) -> Option<Seq<char>> {
    match frame {
        FirstFrame::Nothing => Some("auth timeout or connection error"@),
        FirstFrame::NotText => Some("expected text message with auth token"@),
        FirstFrame::Unparsable => Some("invalid auth message format"@),
        FirstFrame::NotAuth => Some("first message must be auth"@),
        FirstFrame::Auth(t) => if sha256_digest(utf8_of(t@)) == expected {
            None
        } else {
            Some("invalid bearer token"@)
        },
    }
}

/// Authenticate the chat socket from its first frame: `Ok` to answer
/// `auth_ok`, or the `auth_error` text and whether to audit the failure
/// (only a wrong token is audited).
pub fn authenticate(frame: FirstFrame, expected_hash: &[u8]) -> (r: Result<(), (String, bool)>)
    ensures
        match ws_auth_refusal(frame, expected_hash@) {
            None => r is Ok,
            Some(m) => r matches Err((t, audit)) && t@ == m && audit == (frame is Auth),
        },
{
    match frame {
        FirstFrame::Nothing => Err(("auth timeout or connection error".to_owned(), false)),
        FirstFrame::NotText => Err(("expected text message with auth token".to_owned(), false)),
        FirstFrame::Unparsable => Err(("invalid auth message format".to_owned(), false)),
        FirstFrame::NotAuth => Err(("first message must be auth".to_owned(), false)),
        FirstFrame::Auth(t) => if token_matches(t.as_str(), expected_hash) {
            Ok(())
        } else {
            Err(("invalid bearer token".to_owned(), true))
        },
    }
}

/// The largest text frame accepted: the configured size, else 1 MiB.
pub fn ws_max_message_size(configured: Option<usize>) -> (m: usize)
    ensures
        m == match configured {
            Some(c) => c,
            None => DEFAULT_WS_MAX_MESSAGE_SIZE,
        },
{
    match configured {
        Some(c) => c,
        None => DEFAULT_WS_MAX_MESSAGE_SIZE,
    }
}

/// The error for a text frame of `len` bytes, `None` when it fits in `max`.
pub fn frame_size_error(len: usize, max: usize) -> (r: Option<String>)
    ensures
        len <= max ==> r is None,
        len > max ==> (r matches Some(m) && m@ == "message too large: "@ + decimal(len as nat)
            + " bytes (max "@ + decimal(max as nat) + ")"@),
{
    if len <= max {
        None
    } else {
        let mut m = "message too large: ".to_owned();
        m.append(u64_to_decimal(len as u64).as_str());
        m.append(" bytes (max ");
        m.append(u64_to_decimal(max as u64).as_str());
        m.append(")");
        Some(m)
    }
}

/// The error for a text frame that is no client message.
pub fn invalid_message_error(detail: &str) -> (m: String)
    ensures
        m@ == "invalid message: "@ + detail@,
{
    let mut m = "invalid message: ".to_owned();
    m.append(detail);
    m
}

/// The answer handed to an agent waiting for approval.
pub fn approval_answer(approved: bool) -> (a: String)
    ensures
        a@ == if approved {
            "y"@
        } else {
            "n"@
        },
{
    if approved {
        "y".to_owned()
    } else {
        "n".to_owned()
    }
}

/// Numbers the approval requests of one turn.
pub struct RequestCounter {
    next: u64,
}

impl RequestCounter {
    /// The number the next request gets.
    pub closed spec fn next_spec(&self) -> u64 {
        self.next
    }

    /// A counter starting at 0.
    pub fn new() -> (c: Self)
        ensures
            c.next_spec() == 0,
    {
        RequestCounter { next: 0 }
    }

    /// The id of the next approval request, as decimal text; the counter
    /// wraps around at `u64::MAX`.
    pub fn next_request_id(&mut self) -> (id: String)
        ensures
            id@ == decimal(old(self).next_spec() as nat),
            final(self).next_spec() == if old(self).next_spec() == u64::MAX {
                0
            } else {
                (old(self).next_spec() + 1) as u64
            },
    {
        let id = u64_to_decimal(self.next);
        self.next = self.next.wrapping_add(1);
        id
    }
}

/// The in-flight agent turn of a connection, which a new message or a
/// `cancel` stops.
pub struct TurnSlot {
    started: bool,
}

impl TurnSlot {
    /// Whether a turn has been started on the connection.
    pub closed spec fn has_turn(&self) -> bool {
        self.started
    }

    /// No turn yet.
    pub fn new() -> (s: Self)
        ensures
            !s.has_turn(),
    {
        TurnSlot { started: false }
    }

    /// A new message starts a turn; tells whether the previous one must be
    /// cancelled first.
    pub fn begin_turn(&mut self) -> (cancel_previous: bool)
        ensures
            cancel_previous == old(self).has_turn(),
            final(self).has_turn(),
    {
        let had = self.started;
        self.started = true;
        had
    }

    /// A `cancel` message: tells whether there is a turn to cancel.
    pub fn cancel(&self) -> (b: bool)
        ensures
            b == self.has_turn(),
    {
        self.started
    }
}

/// How an agent turn over the socket runs, by the agent's tier: a Leash
/// agent asks its approvals through the socket; a Locked agent is refused.
pub fn turn_channel(tier: AutonomyTier) -> (r: Result<bool, String>)
    ensures
        match tier {
            AutonomyTier::Locked => r matches Err(m) && m@ == "Locked-tier agents cannot be used"@,
            AutonomyTier::Leash => r == Ok::<bool, String>(true),
            _ => r == Ok::<bool, String>(false),
        },
{
    match tier {
        AutonomyTier::Locked => Err("Locked-tier agents cannot be used".to_owned()),
        AutonomyTier::Leash => Ok(true),
        _ => Ok(false),
    }
}

/// The error sent when the turn's agent cannot be created.
pub fn agent_creation_failed(detail: &str) -> (m: String)
    ensures
        m@ == "agent creation failed: "@ + detail@,
{
    let mut m = "agent creation failed: ".to_owned();
    m.append(detail);
    m
}

/// A frame read from the socket after authentication.
#[derive(Debug, PartialEq, Eq)]
pub enum WsFrame {
    /// A text frame.
    Text(String),
    /// A ping, with its payload.
    Ping(Vec<u8>),
    /// A binary or pong frame.
    Other,
    /// The client closed the socket, or the stream ended.
    Close,
    /// Reading failed.
    ReadError,
}

/// What the connection loop does with a frame.
#[derive(Debug, PartialEq, Eq)]
pub enum FrameAction {
    /// Leave the loop and close the connection.
    Stop,
    /// Answer with a pong carrying this payload.
    Pong(Vec<u8>),
    /// Skip the frame.
    Ignore,
    /// Refuse an oversized text frame: record a `WebSocketFrameTooLarge`
    /// audit event with its size and the limit, send `message` to the
    /// client, and read on.
    RefuseOversized { message: String, size_bytes: usize, max_bytes: usize },
    /// Parse the text as a client message.
    Handle(String),
}

/// One turn of the connection loop: a close or a read error ends it, a
/// ping is answered, binary frames are skipped, and a text frame larger
/// than `max` bytes is refused with an error before it is parsed.
pub fn frame_action(frame: WsFrame, max: usize) -> (a: FrameAction)
    ensures
        match frame {
            WsFrame::Close => a == FrameAction::Stop,
            WsFrame::ReadError => a == FrameAction::Stop,
            WsFrame::Ping(d) => a == FrameAction::Pong(d),
            WsFrame::Other => a == FrameAction::Ignore,
            WsFrame::Text(t) => if vstd::utf8::encode_utf8(t@).len() > max {
                a matches FrameAction::RefuseOversized { message, size_bytes, max_bytes } && message@
                    == "message too large: "@ + decimal(vstd::utf8::encode_utf8(t@).len())
                    + " bytes (max "@ + decimal(max as nat) + ")"@ && size_bytes == vstd::utf8::encode_utf8(
                    t@,
                ).len() && max_bytes == max
            } else {
                a == FrameAction::Handle(t)
            },
        },
{
    match frame {
        WsFrame::Close => FrameAction::Stop,
        WsFrame::ReadError => FrameAction::Stop,
        WsFrame::Ping(d) => FrameAction::Pong(d),
        WsFrame::Other => FrameAction::Ignore,
        WsFrame::Text(t) => {
            let len = t.as_str().as_bytes().len();
            match frame_size_error(len, max) {
                Some(m) => FrameAction::RefuseOversized { message: m, size_bytes: len, max_bytes: max },
                None => FrameAction::Handle(t),
            }
        },
    }
}

/// A client message, as far as the connection loop reads it.
#[derive(Debug, Clone, PartialEq, Eq)]
pub enum ClientCommand {
    /// A repeated `auth`.
    Auth,
    /// A chat `message`.
    Message,
    /// `cancel` the turn in flight.
    Cancel,
    /// An answer to an approval request (tool or task approval).
    Approval { request_id: String, approved: bool },
    /// A keepalive `ping`.
    Ping,
}

/// What the connection loop does for a client message.
#[derive(Debug, Clone, PartialEq, Eq)]
pub enum CommandAction {
    /// Reply `auth_ok`.
    SendAuthOk,
    /// Start an agent turn on the message, cancelling the one in flight
    /// first when there is one.
    StartTurn { cancel_previous: bool },
    /// Cancel the turn in flight.
    CancelTurn,
    /// Hand the answer to the agent waiting for it.
    ForwardApproval { request_id: String, approved: bool },
    /// Reply `pong`.
    SendPong,
    /// Nothing to do.
    Nothing,
}

/// Dispatch of a client message on a connection whose turns `slot` tracks.
pub fn command_action(slot: &mut TurnSlot, cmd: ClientCommand) -> (a: CommandAction)
    ensures
        match cmd {
            ClientCommand::Auth => a == CommandAction::SendAuthOk && final(slot).has_turn()
                == old(slot).has_turn(),
            ClientCommand::Message => a == (CommandAction::StartTurn {
                cancel_previous: old(slot).has_turn(),
            }) && final(slot).has_turn(),
            ClientCommand::Cancel => a == (if old(slot).has_turn() {
                CommandAction::CancelTurn
            } else {
                CommandAction::Nothing
            }) && final(slot).has_turn() == old(slot).has_turn(),
            ClientCommand::Approval { request_id, approved } => a == (CommandAction::ForwardApproval {
                request_id,
                approved,
            }) && final(slot).has_turn() == old(slot).has_turn(),
            ClientCommand::Ping => a == CommandAction::SendPong && final(slot).has_turn()
                == old(slot).has_turn(),
        },
{
    match cmd {
        ClientCommand::Auth => CommandAction::SendAuthOk,
        ClientCommand::Message => {
            let cancel_previous = slot.begin_turn();
            CommandAction::StartTurn { cancel_previous }
        },
        ClientCommand::Cancel => if slot.cancel() {
            CommandAction::CancelTurn
        } else {
            CommandAction::Nothing
        },
        ClientCommand::Approval { request_id, approved } => CommandAction::ForwardApproval {
            request_id,
            approved,
        },
        ClientCommand::Ping => CommandAction::SendPong,
    }
}

/// Where an agent turn over the socket stands.
#[derive(Debug, Clone, PartialEq, Eq)]
pub enum WsTurnStage {
    /// Waiting for the agent.
    CreatingAgent,
    /// Waiting for the turn, whose tokens stream to the client.
    Running,
    /// The turn is over.
    Finished,
}

/// The outcome of the outside work of an agent turn over the socket.
#[derive(Debug, Clone, PartialEq, Eq)]
pub enum WsTurnEvent {
    /// The agent was created, with this autonomy tier.
    AgentCreated(AutonomyTier),
    /// The agent could not be created, for this reason.
    AgentFailed(String),
    /// The turn ended.
    TurnCompleted,
    /// The turn failed, for this reason.
    TurnFailed(String),
}

/// What an agent turn over the socket does next.
#[derive(Debug, Clone, PartialEq, Eq)]
pub enum WsTurnAction {
    /// Run the turn, asking approvals through the socket when
    /// `approvals_over_socket`.
    RunTurn { approvals_over_socket: bool },
    /// Save the session and send `done` with the response, session ID and
    /// cost.
    SaveAndSendDone,
    /// Send this error; the turn ends.
    SendError(String),
    /// Nothing more to do.
    Stop,
}

/// One step of an agent turn over the socket: an agent that cannot be
/// created, or a Locked one, ends the turn with an error; a Leash agent
/// asks its approvals through the socket; the turn ends with `done` or
/// with its error. An event the stage does not wait for ends the turn.
pub fn ws_turn_step(stage: WsTurnStage, event: WsTurnEvent) -> (r: (WsTurnStage, WsTurnAction))
    ensures
        match (stage, event) {
            (WsTurnStage::CreatingAgent, WsTurnEvent::AgentFailed(d)) => r.0 == WsTurnStage::Finished
                && (r.1 matches WsTurnAction::SendError(m) && m@ == "agent creation failed: "@ + d@),
            (WsTurnStage::CreatingAgent, WsTurnEvent::AgentCreated(tier)) => match tier {
                AutonomyTier::Locked => r.0 == WsTurnStage::Finished && (r.1 matches WsTurnAction::SendError(m)
                    && m@ == "Locked-tier agents cannot be used"@),
                AutonomyTier::Leash => r == (
                    WsTurnStage::Running,
                    WsTurnAction::RunTurn { approvals_over_socket: true },
                ),
                _ => r == (WsTurnStage::Running, WsTurnAction::RunTurn { approvals_over_socket: false }),
            },
            (WsTurnStage::Running, WsTurnEvent::TurnCompleted) => r == (
                WsTurnStage::Finished,
                WsTurnAction::SaveAndSendDone,
            ),
            (WsTurnStage::Running, WsTurnEvent::TurnFailed(e)) => r == (
                WsTurnStage::Finished,
                WsTurnAction::SendError(e),
            ),
            _ => r == (WsTurnStage::Finished, WsTurnAction::Stop),
        },
{
    match (stage, event) {
        (WsTurnStage::CreatingAgent, WsTurnEvent::AgentFailed(d)) => (
            WsTurnStage::Finished,
            WsTurnAction::SendError(agent_creation_failed(d.as_str())),
        ),
        (WsTurnStage::CreatingAgent, WsTurnEvent::AgentCreated(tier)) => match turn_channel(tier) {
            Err(m) => (WsTurnStage::Finished, WsTurnAction::SendError(m)),
            Ok(approvals_over_socket) => (WsTurnStage::Running, WsTurnAction::RunTurn { approvals_over_socket }),
        },
        (WsTurnStage::Running, WsTurnEvent::TurnCompleted) => (WsTurnStage::Finished, WsTurnAction::SaveAndSendDone),
        (WsTurnStage::Running, WsTurnEvent::TurnFailed(e)) => (WsTurnStage::Finished, WsTurnAction::SendError(e)),
        _ => (WsTurnStage::Finished, WsTurnAction::Stop),
    }
}

} // verus!
