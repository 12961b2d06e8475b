//! Message handling decisions shared by all inbound channels.
//!
//! A channel adapter hands each incoming message to [`MessageHandler`],
//! which checks the allowlist and the per-user rate limit, answers the
//! special commands, and otherwise says which agent turn to run.
use vstd::prelude::*;
use vstd::string::*;

use crate::channels::session::{channel_session_text, derive_channel_session_id, SessionId};
use crate::clock::{clock_reading, now_unix_millis};
use crate::engine::{tier_name, AutonomyTier};
use crate::error::AivyxError;
use crate::rate_window::{recent, stamps_of, WindowCounter};
use crate::scheduler::{floor_prefix, floor_prefix_spec};
use crate::text::{str_eq, trim_owned, trim_spec};

verus! {

broadcast use vstd::seq::group_seq_axioms;

/// Maximum messages per user per minute before rate limiting kicks in.
pub const MAX_MESSAGES_PER_MINUTE: usize = 10;

/// Maximum input message length (bytes) before truncation.
pub const MAX_MESSAGE_LENGTH: usize = 8000;

/// Length of the rate-limit window (milliseconds).
pub const RATE_WINDOW_MS: u64 = 60000;

/// Configuration of one inbound channel.
#[derive(Debug, Clone)]
pub struct ChannelConfig {
    /// Unique channel name.
    pub name: String,
    /// Platform identifier (e.g. `telegram`).
    pub platform: String,
    /// Agent profile that answers the messages.
    pub agent: String,
    /// Users allowed to talk to the agent; empty denies everyone.
    pub allowed_users: Vec<String>,
    /// Whether the channel is started.
    pub enabled: bool,
    /// Platform-specific settings, in declaration order.
    pub settings: Vec<(String, String)>,
}

/// Result of processing a special command (handled before agent turn).
#[derive(Debug, Clone, PartialEq, Eq)]
pub enum SpecialCommand {
    /// The message was a special command and the response is ready.
    Handled(String),
    /// The message is not a special command; proceed with agent turn.
    NotSpecial,
}

/// What to do with an incoming message.
#[derive(Debug, Clone, PartialEq, Eq)]
pub enum MessagePlan {
    /// Refuse the message with an error.
    Reject(AivyxError),
    /// Answer with this text, without running the agent.
    Reply(String),
    /// Delete the user's persisted session, then answer with this text.
    ResetSession { session_id: SessionId, reply: String },
    /// Run an agent turn on `message` within the session `session_id`.
    RunTurn { message: String, session_id: SessionId },
}

/// The reply to a rate-limited user.
pub open spec fn too_fast_reply() -> Seq<char> {
    "You're sending messages too quickly. Please wait a moment."@
}

/// The reply to `/new` and `/reset`.
pub open spec fn cleared_reply() -> Seq<char> {
    "Session cleared. Starting fresh conversation."@
}

/// The reply to `/help`.
pub open spec fn help_reply() -> Seq<char> {
    "Available commands:\n/new \u{2014} Start a new conversation\n/status \u{2014} Show channel info\n/help \u{2014} Show this help message"@
}

/// The reply to `/status`.
pub open spec fn status_reply(c: ChannelConfig, user_id: Seq<char>) -> Seq<char> {
    "Channel: "@ + c.name@ + "\nPlatform: "@ + c.platform@ + "\nAgent: "@ + c.agent@ + "\nUser: "@
        + user_id
}

/// The answer to a special command, or `None` for an ordinary message.
pub open spec fn special_reply(c: ChannelConfig, text: Seq<char>, user_id: Seq<char>) -> Option<Seq<char>> {
    if text == "/new"@ || text == "/reset"@ {
        Some(cleared_reply())
    } else if text == "/status"@ {
        Some(status_reply(c, user_id))
    } else if text == "/help"@ {
        Some(help_reply())
    } else {
        None
    }
}

/// The outcome of a user's message at `now` against the per-user limit:
/// whether it is refused (`MAX_MESSAGES_PER_MINUTE` messages inside the
/// last minute), and the user's timestamps afterwards (the ones still in
/// the window, plus `now` when the message is let through).
pub open spec fn rate_check(sent: Map<Seq<char>, Seq<i64>>, user: Seq<char>, now: i64) -> (
    bool,
    Map<Seq<char>, Seq<i64>>,
) {
    let live = recent(stamps_of(sent, user), now, RATE_WINDOW_MS as int);
    let limited = live.len() >= MAX_MESSAGES_PER_MINUTE;
    (limited, sent.insert(user, if limited { live } else { live.push(now) }))
}

/// The outcomes of a user's messages at `times`, in order, and the
/// timestamps afterwards.
pub open spec fn rate_history(sent: Map<Seq<char>, Seq<i64>>, user: Seq<char>, times: Seq<i64>) -> (
    Seq<bool>,
    Map<Seq<char>, Seq<i64>>,
)
    decreases times.len(),
{
    if times.len() == 0 {
        (seq![], sent)
    } else {
        let before = rate_history(sent, user, times.drop_last());
        let step = rate_check(before.1, user, times.last());
        (before.0.push(step.0), step.1)
    }
}

/// Timestamps that are all inside the window at `now` are all kept.
proof fn lemma_recent_keeps_all(ts: Seq<i64>, now: i64, window: int)
    requires
        forall|i: int| 0 <= i < ts.len() ==> #[trigger] ts[i] + window > now,
    ensures
        recent(ts, now, window) == ts,
    decreases ts.len(),
{
    if ts.len() > 0 {
        lemma_recent_keeps_all(ts.drop_last(), now, window);
        assert(ts.drop_last().push(ts.last()) =~= ts);
    }
}

/// Law: for a user without recent messages, of messages sent within one
/// minute the first `MAX_MESSAGES_PER_MINUTE` pass and every later one is
/// refused; the passed ones are the user's recorded timestamps, and no
/// other user's timestamps change.
pub proof fn lemma_rate_history(sent: Map<Seq<char>, Seq<i64>>, user: Seq<char>, times: Seq<i64>)
    requires
        stamps_of(sent, user).len() == 0,
        forall|i: int, j: int| 0 <= i <= j < times.len() ==> times[i] <= times[j],
        times.len() > 0 ==> times.last() < times[0] + RATE_WINDOW_MS,
    ensures
        rate_history(sent, user, times).0.len() == times.len(),
        forall|i: int|
            0 <= i < times.len() ==> #[trigger] rate_history(sent, user, times).0[i] == (i
                >= MAX_MESSAGES_PER_MINUTE),
        stamps_of(rate_history(sent, user, times).1, user) == if times.len()
            <= MAX_MESSAGES_PER_MINUTE {
            times
        } else {
            times.take(MAX_MESSAGES_PER_MINUTE as int)
        },
        rate_history(sent, user, times).1.remove(user) == sent.remove(user),
    decreases times.len(),
{
    if times.len() > 0 {
        let d = times.drop_last();
        let n = d.len();
        let t = times.last();
        assert forall|i: int, j: int| 0 <= i <= j < d.len() implies d[i] <= d[j] by {
            assert(d[i] == times[i] && d[j] == times[j]);
        }
        if n > 0 {
            assert(d.last() == times[n - 1]);
            assert(times[n - 1] <= t);
            assert(d[0] == times[0]);
        }
        lemma_rate_history(sent, user, d);
        let before = rate_history(sent, user, d);
        let ts = stamps_of(before.1, user);
        let kept_len: int = if n <= MAX_MESSAGES_PER_MINUTE { n as int } else { MAX_MESSAGES_PER_MINUTE as int };
        assert(ts == d.take(kept_len));
        assert forall|i: int| 0 <= i < ts.len() implies #[trigger] ts[i] + (RATE_WINDOW_MS as int) > t by {
            assert(ts[i] == times[i]);
            assert(times[0] <= times[i]);
        }
        lemma_recent_keeps_all(ts, t, RATE_WINDOW_MS as int);
        let step = rate_check(before.1, user, t);
        assert(rate_history(sent, user, times) == (before.0.push(step.0), step.1));
        assert(step.0 == (n >= MAX_MESSAGES_PER_MINUTE));
        if n < MAX_MESSAGES_PER_MINUTE {
            assert(ts.push(t) =~= times);
        } else {
            assert(ts =~= times.take(MAX_MESSAGES_PER_MINUTE as int));
        }
        assert(step.1.remove(user) =~= before.1.remove(user));
        assert forall|i: int| 0 <= i < times.len() implies #[trigger] rate_history(sent, user, times).0[i]
            == (i >= MAX_MESSAGES_PER_MINUTE) by {
            if i < n {
                assert(rate_history(sent, user, times).0[i] == before.0[i]);
            }
        }
    }
}

/// Processes incoming messages of one channel.
pub struct MessageHandler {
    config: ChannelConfig,
    rate_limiter: WindowCounter,
}

impl MessageHandler {
    /// The channel's configuration.
    pub closed spec fn config_spec(&self) -> ChannelConfig {
        self.config
    }

    /// Timestamps of each user's recent messages.
    pub closed spec fn sent(&self) -> Map<Seq<char>, Seq<i64>> {
        self.rate_limiter@
    }

    /// Well-formedness of the rate limiter.
    pub closed spec fn wf(&self) -> bool {
        self.rate_limiter.wf() && self.rate_limiter.window() == RATE_WINDOW_MS
    }

    /// Create a new message handler for a channel.
    pub fn new(config: ChannelConfig) -> (h: Self)
        ensures
            h.wf(),
            h.config_spec() == config,
            h.sent() == Map::<Seq<char>, Seq<i64>>::empty(),
    {
        MessageHandler { config, rate_limiter: WindowCounter::new(RATE_WINDOW_MS) }
    }

    /// Get the channel config name.
    pub fn channel_name(&self) -> (s: &str)
        ensures
            s@ == self.config_spec().name@,
    {
        self.config.name.as_str()
    }

    /// Check if a user ID is in the allowed_users list (an empty list
    /// denies everyone).
    pub fn is_user_allowed(&self, user_id: &str) -> (b: bool)
        ensures
            b == (exists|i: int|
                0 <= i < self.config_spec().allowed_users@.len()
                    && #[trigger] self.config_spec().allowed_users@[i]@ == user_id@),
    {
        let users = &self.config.allowed_users;
        let mut i: usize = 0;
        while i < users.len()
            invariant
                users@ == self.config.allowed_users@,
                i <= users@.len(),
                forall|j: int| 0 <= j < i ==> (#[trigger] users@[j])@ != user_id@,
            decreases users@.len() - i,
        {
            if str_eq(users[i].as_str(), user_id) {
                assert(self.config_spec().allowed_users@[i as int]@ == user_id@);
                return true;
            }
            i += 1;
        }
        false
    }

    /// Check, at time `now` (milliseconds), whether the user has sent
    /// `MAX_MESSAGES_PER_MINUTE` messages within the last minute; if not,
    /// the message is counted.
    pub fn is_rate_limited_at(&mut self, user_id: &str, now: i64) -> (limited: bool)
        requires
            old(self).wf(),
        ensures
            final(self).wf(),
            final(self).config_spec() == old(self).config_spec(),
            limited == (recent(stamps_of(old(self).sent(), user_id@), now, RATE_WINDOW_MS as int).len()
                >= MAX_MESSAGES_PER_MINUTE),
            final(self).sent() == old(self).sent().insert(
                user_id@,
                if limited {
                    recent(stamps_of(old(self).sent(), user_id@), now, RATE_WINDOW_MS as int)
                } else {
                    recent(stamps_of(old(self).sent(), user_id@), now, RATE_WINDOW_MS as int).push(now)
                },
            ),
            (limited, final(self).sent()) == rate_check(old(self).sent(), user_id@, now),
    {
        self.rate_limiter.check_and_record(user_id, now, MAX_MESSAGES_PER_MINUTE)
    }

    /// Check if a user has exceeded the rate limit, now: the check of
    /// `is_rate_limited_at` at the instant the clock reads.
    pub fn is_rate_limited(&mut self, user_id: &str) -> (limited: bool)
        requires
            old(self).wf(),
        ensures
            final(self).wf(),
            final(self).config_spec() == old(self).config_spec(),
            exists|t: i64| #[trigger] clock_reading(t) && (limited, final(self).sent()) == rate_check(
                old(self).sent(),
                user_id@,
                t,
            ),
    {
        let now = now_unix_millis();
        let limited = self.is_rate_limited_at(user_id, now);
        assert(clock_reading(now) && (limited, self.sent()) == rate_check(old(self).sent(), user_id@, now));
        limited
    }

    /// Whether `text` asks to start a fresh conversation.
    pub fn resets_session(text: &str) -> (b: bool)
        ensures
            b == (text@ == "/new"@ || text@ == "/reset"@),
    {
        str_eq(text, "/new") || str_eq(text, "/reset")
    }

    /// Handle special commands that bypass the agent turn loop.
    pub fn handle_special_command(&self, text: &str, user_id: &str) -> (r: SpecialCommand)
        ensures
            match special_reply(self.config_spec(), text@, user_id@) {
                Some(m) => r matches SpecialCommand::Handled(s) && s@ == m,
                None => r == SpecialCommand::NotSpecial,
            },
    {
        if Self::resets_session(text) {
            SpecialCommand::Handled("Session cleared. Starting fresh conversation.".to_owned())
        } else if str_eq(text, "/status") {
            let mut info = "Channel: ".to_owned();
            info.append(self.config.name.as_str());
            info.append("\nPlatform: ");
            info.append(self.config.platform.as_str());
            info.append("\nAgent: ");
            info.append(self.config.agent.as_str());
            info.append("\nUser: ");
            info.append(user_id);
            SpecialCommand::Handled(info)
        } else if str_eq(text, "/help") {
            SpecialCommand::Handled(
                "Available commands:\n/new \u{2014} Start a new conversation\n/status \u{2014} Show channel info\n/help \u{2014} Show this help message".to_owned(),
            )
        } else {
            SpecialCommand::NotSpecial
        }
    }

    /// Decide, at time `now` (milliseconds), what to do with a message from
    /// `user_id`: refuse an unlisted user, answer a rate-limited user or a
    /// special command, or run an agent turn on the trimmed message, cut to
    /// `MAX_MESSAGE_LENGTH` bytes, within the user's deterministic session.
    pub fn prepare_message(&mut self, user_id: &str, text: &str, now: i64) -> (plan: MessagePlan)
        requires
            old(self).wf(),
        ensures
            final(self).wf(),
            final(self).config_spec() == old(self).config_spec(),
            !(exists|i: int|
                0 <= i < old(self).config_spec().allowed_users@.len()
                    && #[trigger] old(self).config_spec().allowed_users@[i]@ == user_id@)
                ==> (plan matches MessagePlan::Reject(AivyxError::Channel(m)) && m@ == "user '"@
                + user_id@ + "' not in allowed_users for channel '"@ + old(self).config_spec().name@
                + "'"@ && final(self).sent() == old(self).sent()),
            (exists|i: int|
                0 <= i < old(self).config_spec().allowed_users@.len()
                    && #[trigger] old(self).config_spec().allowed_users@[i]@ == user_id@) ==> {
                let kept = recent(stamps_of(old(self).sent(), user_id@), now, RATE_WINDOW_MS as int);
                let limited = kept.len() >= MAX_MESSAGES_PER_MINUTE;
                &&& final(self).sent() == old(self).sent().insert(
                    user_id@,
                    if limited { kept } else { kept.push(now) },
                )
                &&& limited ==> (plan matches MessagePlan::Reply(m) && m@ == too_fast_reply())
                &&& !limited ==> match special_reply(old(self).config_spec(), trim_spec(text@), user_id@) {
                    Some(m) => if trim_spec(text@) == "/new"@ || trim_spec(text@) == "/reset"@ {
                        plan matches MessagePlan::ResetSession { session_id, reply } && reply@ == m
                            && session_id.text@ == channel_session_text(
                            old(self).config_spec().platform@,
                            user_id@,
                        )
                    } else {
                        plan matches MessagePlan::Reply(r) && r@ == m
                    },
                    None => plan matches MessagePlan::RunTurn { message, session_id } && encode_utf8_of(message@)
                        == cut_message_spec(trim_spec(text@)) && session_id.text@ == channel_session_text(
                        old(self).config_spec().platform@,
                        user_id@,
                    ),
                }
            },
    {
        if !self.is_user_allowed(user_id) {
            let mut m = "user '".to_owned();
            m.append(user_id);
            m.append("' not in allowed_users for channel '");
            m.append(self.config.name.as_str());
            m.append("'");
            return MessagePlan::Reject(AivyxError::Channel(m));
        }
        if self.is_rate_limited_at(user_id, now) {
            return MessagePlan::Reply(
                "You're sending messages too quickly. Please wait a moment.".to_owned(),
            );
        }
        let trimmed = trim_owned(text);
        match self.handle_special_command(trimmed.as_str(), user_id) {
            SpecialCommand::Handled(reply) => {
                if Self::resets_session(trimmed.as_str()) {
                    let session_id = derive_channel_session_id(self.config.platform.as_str(), user_id);
                    return MessagePlan::ResetSession { session_id, reply };
                }
                return MessagePlan::Reply(reply);
            },
            SpecialCommand::NotSpecial => {},
        }
        let message = floor_prefix(trimmed.as_str(), MAX_MESSAGE_LENGTH).to_owned();
        let session_id = derive_channel_session_id(self.config.platform.as_str(), user_id);
        MessagePlan::RunTurn { message, session_id }
    }
}

/// UTF-8 bytes of a character sequence.
pub open spec fn encode_utf8_of(s: Seq<char>) -> Seq<u8> {
    vstd::utf8::encode_utf8(s)
}

/// The message that an agent turn receives: the trimmed text, cut to the
/// longest prefix of at most `MAX_MESSAGE_LENGTH` bytes that ends on a
/// character boundary.
pub open spec fn cut_message_spec(trimmed: Seq<char>) -> Seq<u8> {
    let b = vstd::utf8::encode_utf8(trimmed);
    if b.len() <= MAX_MESSAGE_LENGTH {
        b
    } else {
        b.take(crate::scheduler::floor_boundary(b, MAX_MESSAGE_LENGTH as int))
    }
}

/// Agents that need an interactive approver cannot serve a channel.
pub fn check_channel_autonomy(agent: &str, tier: AutonomyTier) -> (r: Result<(), AivyxError>)
    ensures
        r is Ok <==> tier.is_autonomous(),
        !tier.is_autonomous() ==> (r matches Err(AivyxError::Channel(m)) && m@ == "agent '"@ + agent@
            + "' requires interactive approval (tier: "@ + tier_name(tier) + "), which is not supported via channels"@),
{
    match tier {
        AutonomyTier::Locked | AutonomyTier::Leash => {
            let mut m = "agent '".to_owned();
            m.append(agent);
            m.append("' requires interactive approval (tier: ");
            m.append(tier.name().as_str());
            m.append("), which is not supported via channels");
            Err(AivyxError::Channel(m))
        },
        AutonomyTier::Trust | AutonomyTier::Free => Ok(()),
    }
}

/// The error when a channel's agent cannot be created.
pub fn channel_agent_error(agent: &str, detail: &str) -> (e: AivyxError)
    ensures
        e matches AivyxError::Channel(m) && m@ == "failed to create agent '"@ + agent@ + "': "@ + detail@,
{
    let mut m = "failed to create agent '".to_owned();
    m.append(agent);
    m.append("': ");
    m.append(detail);
    AivyxError::Channel(m)
}

/// Checks that a channel's platform has an adapter: only `telegram` has.
pub fn check_platform(platform: &str) -> (r: Result<(), AivyxError>)
    ensures
        platform@ == "telegram"@ ==> r is Ok,
        platform@ != "telegram"@ ==> (r matches Err(AivyxError::Channel(m)) && m@ == "platform '"@
            + platform@ + "' is not supported (check feature flags)"@),
{
    if str_eq(platform, "telegram") {
        Ok(())
    } else {
        let mut m = "platform '".to_owned();
        m.append(platform);
        m.append("' is not supported (check feature flags)");
        Err(AivyxError::Channel(m))
    }
}

/// Indices of the enabled channels, in order.
pub open spec fn enabled_indices(configs: Seq<ChannelConfig>) -> Seq<usize>
    decreases configs.len(),
{
    if configs.len() == 0 {
        seq![]
    } else if configs.last().enabled {
        enabled_indices(configs.drop_last()).push((configs.len() - 1) as usize)
    } else {
        enabled_indices(configs.drop_last())
    }
}

/// The channels to start, by index: the enabled ones.
pub fn channels_to_start(configs: &[ChannelConfig]) -> (r: Vec<usize>)
    ensures
        r@ == enabled_indices(configs@),
{
    let mut r: Vec<usize> = Vec::new();
    let mut i: usize = 0;
    while i < configs.len()
        invariant
            i <= configs@.len(),
            r@ == enabled_indices(configs@.take(i as int)),
        decreases configs@.len() - i,
    {
        assert(configs@.take(i as int + 1).drop_last() =~= configs@.take(i as int));
        if configs[i].enabled {
            r.push(i);
        }
        i += 1;
    }
    assert(configs@.take(configs@.len() as int) =~= configs@);
    r
}

} // verus!
