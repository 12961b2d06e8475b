//! Daily digest: the prompt built from background notifications.
use vstd::prelude::*;
use vstd::string::*;

use crate::error::{AivyxError, ServerError};

verus! {

broadcast use vstd::seq::group_seq_axioms;

/// Request body for `POST /digest`.
#[derive(Debug, Clone, PartialEq, Eq)]
pub struct DigestRequest {
    /// Agent profile that writes the digest (default `assistant`).
    pub agent: String,
}

/// Default digest agent.
pub fn default_agent() -> (s: String)
    ensures
        s@ == "assistant"@,
{
    "assistant".to_owned()
}

/// One line per notification: `- <source>: <content>`.
pub open spec fn notification_lines(ns: Seq<(String, String)>) -> Seq<char>
    decreases ns.len(),
{
    if ns.len() == 0 {
        seq![]
    } else {
        notification_lines(ns.drop_last()) + "- "@ + ns.last().0@ + ": "@ + ns.last().1@ + "\n"@
    }
}

/// The digest prompt for the drained notifications (source, content).
pub open spec fn digest_prompt_spec(ns: Seq<(String, String)>) -> Seq<char> {
    if notification_lines(ns).len() == 0 {
        "Generate a daily digest. Summarize any relevant context."@
    } else {
        "Generate a daily digest. Here are findings from background activity:\n"@ + notification_lines(ns)
            + "\nIncorporate these findings into a concise briefing."@
    }
}

/// Builds the digest prompt from the drained notifications.
pub fn digest_prompt(notifications: &[(String, String)]) -> (p: String)
    ensures
        p@ == digest_prompt_spec(notifications@),
{
    let mut context = String::new();
    let mut i: usize = 0;
    while i < notifications.len()
        invariant
            i <= notifications@.len(),
            context@ == notification_lines(notifications@.take(i as int)),
        decreases notifications@.len() - i,
    {
        assert(notifications@.take(i as int + 1).drop_last() =~= notifications@.take(i as int));
        context.append("- ");
        context.append(notifications[i].0.as_str());
        context.append(": ");
        context.append(notifications[i].1.as_str());
        context.append("\n");
        i += 1;
    }
    assert(notifications@.take(notifications@.len() as int) =~= notifications@);
    if context.as_str().as_bytes().len() == 0 {
        proof {
            vstd::utf8::encode_utf8_decode_utf8(context@);
        }
        "Generate a daily digest. Summarize any relevant context.".to_owned()
    } else {
        let mut p = "Generate a daily digest. Here are findings from background activity:\n".to_owned();
        p.append(context.as_str());
        p.append("\nIncorporate these findings into a concise briefing.");
        p
    }
}

/// `agent profile not found: <agent>`.
pub fn profile_not_found(agent: &str) -> (e: ServerError)
    ensures
        e.0 matches AivyxError::Config(m) && m@ == "agent profile not found: "@ + agent@,
{
    let mut m = "agent profile not found: ".to_owned();
    m.append(agent);
    ServerError(AivyxError::Config(m))
}

} // verus!
