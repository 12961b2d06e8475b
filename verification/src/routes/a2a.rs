//! Google A2A (Agent-to-Agent) protocol: the JSON-RPC methods the server
//! answers, and how an internal mission reads as an A2A task.
use vstd::prelude::*;
use vstd::string::*;

pub use crate::scheduler::truncate;
use crate::scheduler::truncate_spec;
use crate::text::{decimal, join_spec, join_strings, str_eq, texts, u64_to_decimal};

verus! {

broadcast use vstd::seq::group_seq_axioms;

/// A part of an A2A message.
#[derive(Debug, Clone, PartialEq, Eq)]
pub enum A2aPart {
    /// Plain text.
    Text { text: String },
    /// Structured data, as JSON text.
    Data { data: String },
}

/// Who sent an A2A message.
#[derive(Debug, Clone, Copy, PartialEq, Eq, Structural)]
pub enum A2aRole {
    /// The requesting agent or user.
    User,
    /// This server's agent.
    Agent,
}

/// An A2A message.
#[derive(Debug, Clone, PartialEq, Eq)]
pub struct A2aMessage {
    /// Sender.
    pub role: A2aRole,
    /// Content parts.
    pub parts: Vec<A2aPart>,
}

/// Lifecycle state of an A2A task.
#[derive(Debug, Clone, Copy, PartialEq, Eq, Structural)]
pub enum A2aTaskState {
    /// Accepted, not started.
    Submitted,
    /// Running.
    Working,
    /// Waiting for input from the requester.
    InputRequired,
    /// Finished successfully.
    Completed,
    /// Finished with an error.
    Failed,
    /// Cancelled.
    Canceled,
}

/// An output of a task.
#[derive(Debug, Clone, PartialEq, Eq)]
pub struct A2aArtifact {
    /// Artifact name.
    pub name: Option<String>,
    /// Content parts.
    pub parts: Vec<A2aPart>,
}

/// Status of an A2A task.
#[derive(Debug, Clone, PartialEq, Eq)]
pub struct A2aTaskStatus {
    /// State.
    pub state: A2aTaskState,
    /// Message describing the state.
    pub message: Option<A2aMessage>,
    /// RFC 3339 time of the status.
    pub timestamp: String,
}

/// An A2A task.
#[derive(Debug, Clone, PartialEq, Eq)]
pub struct A2aTask {
    /// Task identifier.
    pub id: String,
    /// Current status.
    pub status: A2aTaskStatus,
    /// Messages exchanged so far.
    pub history: Option<Vec<A2aMessage>>,
    /// Outputs so far.
    pub artifacts: Option<Vec<A2aArtifact>>,
    /// Extra metadata, as JSON text.
    pub metadata: Option<String>,
}

/// Status of an internal mission.
#[derive(Debug, Clone, PartialEq, Eq)]
pub enum TaskStatus {
    /// Steps are being planned.
    Planning,
    /// Steps are planned.
    Planned,
    /// Steps are running.
    Executing,
    /// Results are being verified.
    Verifying,
    /// Finished successfully.
    Completed,
    /// Finished with an error.
    Failed { reason: String },
    /// Cancelled.
    Cancelled,
}

/// Kind of a mission step.
#[derive(Debug, Clone, Copy, PartialEq, Eq, Structural)]
pub enum StepKind {
    /// Work done by the agent.
    Action,
    /// A human approval gate.
    Approval,
}

/// Status of a mission step.
#[derive(Debug, Clone, Copy, PartialEq, Eq, Structural)]
pub enum StepStatus {
    /// Not started.
    Pending,
    /// Running.
    Running,
    /// Finished successfully.
    Completed,
    /// Finished with an error.
    Failed,
    /// Not run.
    Skipped,
}

/// A step of a mission.
#[derive(Debug, Clone)]
pub struct Step {
    /// Position of the step (from 0).
    pub index: usize,
    /// What the step does.
    pub description: String,
    /// Kind of step.
    pub kind: StepKind,
    /// Status.
    pub status: StepStatus,
    /// Output of a finished step.
    pub result: Option<String>,
}

/// An internal multi-step mission.
#[derive(Debug, Clone)]
pub struct Mission {
    /// Task identifier.
    pub id: String,
    /// The goal the mission pursues.
    pub goal: String,
    /// Status.
    pub status: TaskStatus,
    /// Steps, in order.
    pub steps: Vec<Step>,
    /// RFC 3339 time of the last update.
    pub updated_at: String,
}

/// The texts of the text parts, in order.
pub open spec fn text_parts(parts: Seq<A2aPart>) -> Seq<Seq<char>>
    decreases parts.len(),
{
    if parts.len() == 0 {
        seq![]
    } else {
        match parts.last() {
            A2aPart::Text { text } => text_parts(parts.drop_last()).push(text@),
            _ => text_parts(parts.drop_last()),
        }
    }
}

/// Extract concatenated text from A2A message parts, one line per text
/// part.
pub fn extract_text_from_parts(parts: &[A2aPart]) -> (r: String)
    ensures
        r@ == join_spec(text_parts(parts@), "\n"@),
{
    let mut v: Vec<String> = Vec::new();
    let mut i: usize = 0;
    while i < parts.len()
        invariant
            i <= parts@.len(),
            texts(v@) == text_parts(parts@.take(i as int)),
        decreases parts@.len() - i,
    {
        assert(parts@.take(i as int + 1).drop_last() =~= parts@.take(i as int));
        match &parts[i] {
            A2aPart::Text { text } => {
                let ghost before = v@;
                v.push(text.clone());
                assert(texts(v@) =~= texts(before).push(text@));
            },
            _ => {},
        }
        i += 1;
    }
    assert(parts@.take(parts@.len() as int) =~= parts@);
    join_strings(&v, "\n")
}

/// Whether an approval step waits to run.
pub open spec fn has_pending_approval(steps: Seq<Step>) -> bool {
    exists|i: int|
        0 <= i < steps.len() && (#[trigger] steps[i]).kind == StepKind::Approval && (steps[i].status
            == StepStatus::Pending || steps[i].status == StepStatus::Running)
}

/// The A2A state of a mission.
pub open spec fn task_state_spec(m: Mission) -> A2aTaskState {
    match m.status {
        TaskStatus::Planning | TaskStatus::Planned => A2aTaskState::Submitted,
        TaskStatus::Executing | TaskStatus::Verifying => if has_pending_approval(m.steps@) {
            A2aTaskState::InputRequired
        } else {
            A2aTaskState::Working
        },
        TaskStatus::Completed => A2aTaskState::Completed,
        TaskStatus::Failed { .. } => A2aTaskState::Failed,
        TaskStatus::Cancelled => A2aTaskState::Canceled,
    }
}

/// Map a mission's status to an A2A state; a running mission with a
/// pending approval step needs input.
pub fn map_task_state(mission: &Mission) -> (s: A2aTaskState)
    ensures
        s == task_state_spec(*mission),
{
    match &mission.status {
        TaskStatus::Planning | TaskStatus::Planned => A2aTaskState::Submitted,
        TaskStatus::Executing | TaskStatus::Verifying => {
            let mut i: usize = 0;
            while i < mission.steps.len()
                invariant
                    i <= mission.steps@.len(),
                    mission.status is Executing || mission.status is Verifying,
                    forall|j: int|
                        0 <= j < i ==> !((#[trigger] mission.steps@[j]).kind == StepKind::Approval && (
                        mission.steps@[j].status == StepStatus::Pending || mission.steps@[j].status
                            == StepStatus::Running)),
                decreases mission.steps@.len() - i,
            {
                let s = &mission.steps[i];
                let waiting = match s.status {
                    StepStatus::Pending | StepStatus::Running => true,
                    _ => false,
                };
                let approval = match s.kind {
                    StepKind::Approval => true,
                    _ => false,
                };
                if waiting && approval {
                    assert(mission.steps@[i as int] == *s);
                    assert(has_pending_approval(mission.steps@));
                    return A2aTaskState::InputRequired;
                }
                i += 1;
            }
            A2aTaskState::Working
        },
        TaskStatus::Completed => A2aTaskState::Completed,
        TaskStatus::Failed { .. } => A2aTaskState::Failed,
        TaskStatus::Cancelled => A2aTaskState::Canceled,
    }
}

/// Number of completed steps.
pub open spec fn steps_completed(steps: Seq<Step>) -> nat
    decreases steps.len(),
{
    if steps.len() == 0 {
        0
    } else {
        steps_completed(steps.drop_last()) + if steps.last().status == StepStatus::Completed {
            1nat
        } else {
            0nat
        }
    }
}

proof fn lemma_steps_completed_le(steps: Seq<Step>)
    ensures
        steps_completed(steps) <= steps.len(),
    decreases steps.len(),
{
    if steps.len() > 0 {
        lemma_steps_completed_le(steps.drop_last());
    }
}

/// The text of a mission's status message.
pub open spec fn status_text_spec(m: Mission) -> Seq<char> {
    match m.status {
        TaskStatus::Planning => "Planning task steps"@,
        TaskStatus::Planned => "Planned "@ + decimal(m.steps@.len()) + " steps"@,
        TaskStatus::Executing => "Executing step "@ + decimal(steps_completed(m.steps@) + 1) + "/"@
            + decimal(m.steps@.len()),
        TaskStatus::Verifying => "Verifying results"@,
        TaskStatus::Completed => "Task completed successfully"@,
        TaskStatus::Failed { reason } => "Task failed: "@ + reason@,
        TaskStatus::Cancelled => "Task cancelled"@,
    }
}

/// The completed steps that have a result.
pub open spec fn finished_steps(steps: Seq<Step>) -> Seq<Step>
    decreases steps.len(),
{
    if steps.len() == 0 {
        seq![]
    } else if steps.last().status == StepStatus::Completed && steps.last().result is Some {
        finished_steps(steps.drop_last()).push(steps.last())
    } else {
        finished_steps(steps.drop_last())
    }
}

/// The name of the artifact of a finished step.
pub open spec fn artifact_name(s: Step) -> Seq<char> {
    "step-"@ + decimal(s.index as nat) + ": "@ + s.description@
}

/// The line that summarizes a finished step in the history.
pub open spec fn step_summary(s: Step) -> Seq<char> {
    "Step "@ + decimal(s.index as nat + 1) + ": "@ + truncate_spec(s.result->0@, 200)
}

/// Whether `p` is the text part `text`.
pub open spec fn is_text_part(p: A2aPart, text: Seq<char>) -> bool {
    match p {
        A2aPart::Text { text: t } => t@ == text,
        _ => false,
    }
}

/// A message made of a single text part.
pub open spec fn is_text_message(m: A2aMessage, role: A2aRole, text: Seq<char>) -> bool {
    m.role == role && m.parts@.len() == 1 && is_text_part(m.parts@[0], text)
}

/// The artifact of a finished step: named after it, holding its result.
pub open spec fn is_step_artifact(a: A2aArtifact, s: Step) -> bool {
    &&& match a.name {
        Some(n) => n@ == artifact_name(s),
        None => false,
    }
    &&& a.parts@.len() == 1
    &&& is_text_part(a.parts@[0], s.result->0@)
}

/// The A2A task of a mission.
pub open spec fn is_mission_task(t: A2aTask, m: Mission) -> bool {
    let done = finished_steps(m.steps@);
    &&& t.id@ == m.id@
    &&& t.status.state == task_state_spec(m)
    &&& t.status.message matches Some(msg) && is_text_message(msg, A2aRole::Agent, status_text_spec(m))
    &&& t.status.timestamp@ == m.updated_at@
    &&& t.metadata is None
    &&& t.history matches Some(h) && h@.len() == (if done.len() == 0 {
        1int
    } else {
        2int
    }) && is_text_message(h@[0], A2aRole::User, m.goal@) && (done.len() > 0 ==> is_text_message(
        h@[1],
        A2aRole::Agent,
        join_spec(done.map_values(|s: Step| step_summary(s)), "\n\n"@),
    ))
    &&& if done.len() == 0 {
        t.artifacts is None
    } else {
        t.artifacts matches Some(a) && a@.len() == done.len() && forall|i: int|
            0 <= i < done.len() ==> is_step_artifact(#[trigger] a@[i], done[i])
    }
}

fn text_message(role: A2aRole, text: String) -> (m: A2aMessage)
    ensures
        is_text_message(m, role, text@),
{
    let mut parts: Vec<A2aPart> = Vec::new();
    parts.push(A2aPart::Text { text });
    A2aMessage { role, parts }
}

fn status_text(mission: &Mission) -> (s: String)
    requires
        mission.steps@.len() < usize::MAX,
    ensures
        s@ == status_text_spec(*mission),
{
    match &mission.status {
        TaskStatus::Planning => "Planning task steps".to_owned(),
        TaskStatus::Planned => {
            let mut s = "Planned ".to_owned();
            s.append(u64_to_decimal(mission.steps.len() as u64).as_str());
            s.append(" steps");
            s
        },
        TaskStatus::Executing => {
            let mut done: usize = 0;
            let mut i: usize = 0;
            while i < mission.steps.len()
                invariant
                    i <= mission.steps@.len(),
                    done == steps_completed(mission.steps@.take(i as int)),
                    done <= i,
                decreases mission.steps@.len() - i,
            {
                assert(mission.steps@.take(i as int + 1).drop_last() =~= mission.steps@.take(i as int));
                if mission.steps[i].status == StepStatus::Completed {
                    done += 1;
                }
                i += 1;
            }
            assert(mission.steps@.take(mission.steps@.len() as int) =~= mission.steps@);
            let mut s = "Executing step ".to_owned();
            s.append(u64_to_decimal((done + 1) as u64).as_str());
            s.append("/");
            s.append(u64_to_decimal(mission.steps.len() as u64).as_str());
            s
        },
        TaskStatus::Verifying => "Verifying results".to_owned(),
        TaskStatus::Completed => "Task completed successfully".to_owned(),
        TaskStatus::Failed { reason } => {
            let mut s = "Task failed: ".to_owned();
            s.append(reason.as_str());
            s
        },
        TaskStatus::Cancelled => "Task cancelled".to_owned(),
    }
}

/// Convert an internal `Mission` to an A2A task: its state and status
/// line, the goal and a summary of the finished steps as history, and one
/// artifact per finished step.
pub fn mission_to_a2a_task(mission: &Mission) -> (t: A2aTask)
    requires
        mission.steps@.len() < usize::MAX,
        forall|i: int| 0 <= i < mission.steps@.len() ==> (#[trigger] mission.steps@[i]).index < usize::MAX,
    ensures
        is_mission_task(t, *mission),
{
    let state = map_task_state(mission);
    let text = status_text(mission);
    let mut artifacts: Vec<A2aArtifact> = Vec::new();
    let mut summaries: Vec<String> = Vec::new();
    let ghost steps = mission.steps@;
    let mut i: usize = 0;
    while i < mission.steps.len()
        invariant
            steps == mission.steps@,
            i <= steps.len(),
            forall|j: int| 0 <= j < steps.len() ==> (#[trigger] steps[j]).index < usize::MAX,
            artifacts@.len() == finished_steps(steps.take(i as int)).len(),
            texts(summaries@) == finished_steps(steps.take(i as int)).map_values(|s: Step| step_summary(s)),
            forall|k: int|
                0 <= k < artifacts@.len() ==> is_step_artifact(
                    #[trigger] artifacts@[k],
                    finished_steps(steps.take(i as int))[k],
                ),
        decreases steps.len() - i,
    {
        assert(steps.take(i as int + 1).drop_last() =~= steps.take(i as int));
        let s = &mission.steps[i];
        let ghost before = finished_steps(steps.take(i as int));
        if s.status == StepStatus::Completed {
            match &s.result {
                Some(result) => {
                    let mut name = "step-".to_owned();
                    name.append(u64_to_decimal(s.index as u64).as_str());
                    name.append(": ");
                    name.append(s.description.as_str());
                    let mut parts: Vec<A2aPart> = Vec::new();
                    parts.push(A2aPart::Text { text: result.clone() });
                    artifacts.push(A2aArtifact { name: Some(name), parts });
                    let mut line = "Step ".to_owned();
                    line.append(u64_to_decimal((s.index + 1) as u64).as_str());
                    line.append(": ");
                    line.append(truncate(result.as_str(), 200).as_str());
                    let ghost sb = summaries@;
                    summaries.push(line);
                    assert(finished_steps(steps.take(i as int + 1)) == before.push(*s));
                    assert(texts(summaries@) =~= texts(sb).push(line@));
                    assert(finished_steps(steps.take(i as int + 1)).map_values(|s: Step| step_summary(s))
                        =~= before.map_values(|s: Step| step_summary(s)).push(step_summary(*s)));
                },
                None => {},
            }
        }
        i += 1;
    }
    assert(steps.take(steps.len() as int) =~= steps);
    let mut history: Vec<A2aMessage> = Vec::new();
    history.push(text_message(A2aRole::User, mission.goal.clone()));
    if summaries.len() > 0 {
        let joined = join_strings(&summaries, "\n\n");
        history.push(text_message(A2aRole::Agent, joined));
    }
    let artifacts = if artifacts.len() == 0 {
        None
    } else {
        Some(artifacts)
    };
    A2aTask {
        id: mission.id.clone(),
        status: A2aTaskStatus {
            state,
            message: Some(text_message(A2aRole::Agent, text)),
            timestamp: mission.updated_at.clone(),
        },
        history: Some(history),
        artifacts,
        metadata: None,
    }
}

/// The JSON-RPC methods of the A2A endpoint.
#[derive(Debug, Clone, Copy, PartialEq, Eq, Structural)]
pub enum A2aMethod {
    /// `tasks/send`
    Send,
    /// `tasks/get`
    Get,
    /// `tasks/cancel`
    Cancel,
    /// `tasks/pushNotification/set`
    PushNotificationSet,
    /// `tasks/pushNotification/get`
    PushNotificationGet,
    /// `tasks/pushNotification/delete`
    PushNotificationDelete,
}

/// The method a JSON-RPC `method` name selects.
pub open spec fn method_spec(name: Seq<char>) -> Option<A2aMethod> {
    if name == "tasks/send"@ {
        Some(A2aMethod::Send)
    } else if name == "tasks/get"@ {
        Some(A2aMethod::Get)
    } else if name == "tasks/cancel"@ {
        Some(A2aMethod::Cancel)
    } else if name == "tasks/pushNotification/set"@ {
        Some(A2aMethod::PushNotificationSet)
    } else if name == "tasks/pushNotification/get"@ {
        Some(A2aMethod::PushNotificationGet)
    } else if name == "tasks/pushNotification/delete"@ {
        Some(A2aMethod::PushNotificationDelete)
    } else {
        None
    }
}

/// JSON-RPC error code of an unknown method.
pub const METHOD_NOT_FOUND: i64 = -32601;

/// JSON-RPC error code of invalid parameters.
pub const INVALID_PARAMS: i64 = -32602;

/// JSON-RPC error code of a failed handler.
pub const HANDLER_FAILED: i64 = -32000;

/// Select the handler of a JSON-RPC method, or the error code and message
/// for an unknown method.
pub fn dispatch_method(name: &str) -> (r: Result<A2aMethod, (i64, String)>)
    ensures
        match method_spec(name@) {
            Some(m) => r == Ok::<A2aMethod, (i64, String)>(m),
            None => r matches Err((code, msg)) && code == METHOD_NOT_FOUND && msg@ == "method not found: "@
                + name@,
        },
{
    if str_eq(name, "tasks/send") {
        Ok(A2aMethod::Send)
    } else if str_eq(name, "tasks/get") {
        Ok(A2aMethod::Get)
    } else if str_eq(name, "tasks/cancel") {
        Ok(A2aMethod::Cancel)
    } else if str_eq(name, "tasks/pushNotification/set") {
        Ok(A2aMethod::PushNotificationSet)
    } else if str_eq(name, "tasks/pushNotification/get") {
        Ok(A2aMethod::PushNotificationGet)
    } else if str_eq(name, "tasks/pushNotification/delete") {
        Ok(A2aMethod::PushNotificationDelete)
    } else {
        let mut msg = "method not found: ".to_owned();
        msg.append(name);
        Err((METHOD_NOT_FOUND, msg))
    }
}

/// The goal of a `tasks/send` message: its text parts, one per line; a
/// message without text is refused with `INVALID_PARAMS`.
pub fn send_goal(message: &A2aMessage) -> (r: Result<String, (i64, String)>)
    ensures
        if join_spec(text_parts(message.parts@), "\n"@).len() > 0 {
            r matches Ok(g) && g@ == join_spec(text_parts(message.parts@), "\n"@)
        } else {
            r matches Err((code, msg)) && code == INVALID_PARAMS && msg@
                == "message must contain at least one text part"@
        },
{
    let goal = extract_text_from_parts(message.parts.as_slice());
    if goal.as_str().as_bytes().len() == 0 {
        proof {
            vstd::utf8::encode_utf8_decode_utf8(goal@);
        }
        return Err((INVALID_PARAMS, "message must contain at least one text part".to_owned()));
    }
    Ok(goal)
}

/// The agent that runs a `tasks/send` task: the `agent` parameter, or
/// `assistant`.
pub fn send_agent(param: Option<&str>) -> (a: String)
    ensures
        match param {
            Some(p) => a@ == p@,
            None => a@ == "assistant"@,
        },
{
    match param {
        Some(p) => p.to_owned(),
        None => "assistant".to_owned(),
    }
}

/// The answer to `tasks/send`: the new task, submitted, with the request's
/// message as history.
pub fn submitted_task(task_id: String, agent_name: &str, message: A2aMessage, timestamp: String) -> (t: A2aTask)
    ensures
        t.id == task_id,
        t.status.state == A2aTaskState::Submitted,
        t.status.message matches Some(m) && is_text_message(
            m,
            A2aRole::Agent,
            "Task created and queued for execution with agent '"@ + agent_name@ + "'"@,
        ),
        t.status.timestamp == timestamp,
        t.history matches Some(h) && h@ == seq![message],
        t.artifacts is None,
        t.metadata is None,
{
    let mut text = "Task created and queued for execution with agent '".to_owned();
    text.append(agent_name);
    text.append("'");
    let mut history: Vec<A2aMessage> = Vec::new();
    history.push(message);
    A2aTask {
        id: task_id,
        status: A2aTaskStatus {
            state: A2aTaskState::Submitted,
            message: Some(text_message(A2aRole::Agent, text)),
            timestamp,
        },
        history: Some(history),
        artifacts: None,
        metadata: None,
    }
}

/// The answer to `tasks/cancel`: the task, canceled.
pub fn canceled_task(task_id: String, timestamp: String) -> (t: A2aTask)
    ensures
        t.id == task_id,
        t.status.state == A2aTaskState::Canceled,
        t.status.message matches Some(m) && is_text_message(m, A2aRole::Agent, "Task cancelled"@),
        t.status.timestamp == timestamp,
        t.history is None,
        t.artifacts is None,
        t.metadata is None,
{
    A2aTask {
        id: task_id,
        status: A2aTaskStatus {
            state: A2aTaskState::Canceled,
            message: Some(text_message(A2aRole::Agent, "Task cancelled".to_owned())),
            timestamp,
        },
        history: None,
        artifacts: None,
        metadata: None,
    }
}

/// Refuses any method but `tasks/sendSubscribe` on the streaming endpoint.
pub fn check_stream_method(name: &str) -> (r: Result<(), (i64, String)>)
    ensures
        name@ == "tasks/sendSubscribe"@ ==> r is Ok,
        name@ != "tasks/sendSubscribe"@ ==> (r matches Err((code, msg)) && code == METHOD_NOT_FOUND
            && msg@ == "streaming endpoint only supports tasks/sendSubscribe, got: "@ + name@),
{
    if str_eq(name, "tasks/sendSubscribe") {
        Ok(())
    } else {
        let mut msg = "streaming endpoint only supports tasks/sendSubscribe, got: ".to_owned();
        msg.append(name);
        Err((METHOD_NOT_FOUND, msg))
    }
}

/// The error for a `message` parameter that is no A2A message.
pub fn invalid_message_params(detail: &str) -> (r: (i64, String))
    ensures
        r.0 == INVALID_PARAMS,
        r.1@ == "invalid message in params: "@ + detail@,
{
    let mut msg = "invalid message in params: ".to_owned();
    msg.append(detail);
    (INVALID_PARAMS, msg)
}

/// A status update on the streaming endpoint.
#[derive(Debug, Clone, PartialEq, Eq)]
pub struct TaskStatusUpdateEvent {
    /// Task identifier.
    pub id: String,
    /// The new status.
    pub status: A2aTaskStatus,
    /// Whether no update follows.
    pub is_final: bool,
}

/// The first update of a streamed task: submitted.
pub fn submitted_event(task_id: String, agent_name: &str, timestamp: String) -> (e: TaskStatusUpdateEvent)
    ensures
        e.id == task_id,
        e.status.state == A2aTaskState::Submitted,
        e.status.message matches Some(m) && is_text_message(
            m,
            A2aRole::Agent,
            "Task created and queued for execution with agent '"@ + agent_name@ + "'"@,
        ),
        e.status.timestamp == timestamp,
        !e.is_final,
{
    let mut text = "Task created and queued for execution with agent '".to_owned();
    text.append(agent_name);
    text.append("'");
    TaskStatusUpdateEvent {
        id: task_id,
        status: A2aTaskStatus {
            state: A2aTaskState::Submitted,
            message: Some(text_message(A2aRole::Agent, text)),
            timestamp,
        },
        is_final: false,
    }
}

/// The last update of a streamed task: completed. The stream reports the
/// task as submitted and then as completed; how its execution went is not
/// streamed.
pub fn final_event(task_id: String, timestamp: String) -> (e: TaskStatusUpdateEvent)
    ensures
        e.id == task_id,
        e.status.timestamp == timestamp,
        e.is_final,
        e.status.state == A2aTaskState::Completed,
        e.status.message matches Some(m) && is_text_message(m, A2aRole::Agent, "Task completed successfully"@),
{
    TaskStatusUpdateEvent {
        id: task_id,
        status: A2aTaskStatus {
            state: A2aTaskState::Completed,
            message: Some(text_message(A2aRole::Agent, "Task completed successfully".to_owned())),
            timestamp,
        },
        is_final: true,
    }
}

/// The events of `POST /a2a/stream` for a created task, in the order they
/// are sent: "submitted" (not final), then "completed" (final).
pub fn stream_events(task_id: String, agent_name: &str, submitted_at: String, completed_at: String) -> (v:
    Vec<TaskStatusUpdateEvent>)
    ensures
        v@.len() == 2,
        v@[0].id == task_id && v@[0].status.state == A2aTaskState::Submitted && !v@[0].is_final
            && v@[0].status.timestamp == submitted_at && (v@[0].status.message matches Some(m)
            && is_text_message(
            m,
            A2aRole::Agent,
            "Task created and queued for execution with agent '"@ + agent_name@ + "'"@,
        )),
        v@[1].id == task_id && v@[1].status.state == A2aTaskState::Completed && v@[1].is_final
            && v@[1].status.timestamp == completed_at && (v@[1].status.message matches Some(m)
            && is_text_message(m, A2aRole::Agent, "Task completed successfully"@)),
{
    let id2 = task_id.clone();
    let mut v: Vec<TaskStatusUpdateEvent> = Vec::new();
    v.push(submitted_event(task_id, agent_name, submitted_at));
    v.push(final_event(id2, completed_at));
    v
}

/// Law: a finished mission is reported as finished the same way: a
/// completed mission as a completed A2A task, a failed one as failed, a
/// cancelled one as canceled; a mission still planning is submitted, and one
/// still running is working or waiting for input, never finished. This holds
/// of the state `map_task_state` gives and of the task
/// `mission_to_a2a_task` builds.
pub proof fn lemma_task_state_matches_status(m: Mission, t: A2aTask)
    requires
        is_mission_task(t, m),
    ensures
        m.status == TaskStatus::Completed ==> t.status.state == A2aTaskState::Completed,
        m.status is Failed ==> t.status.state == A2aTaskState::Failed,
        m.status == TaskStatus::Cancelled ==> t.status.state == A2aTaskState::Canceled,
        m.status == TaskStatus::Planning || m.status == TaskStatus::Planned ==> t.status.state
            == A2aTaskState::Submitted,
        m.status == TaskStatus::Executing || m.status == TaskStatus::Verifying ==> (t.status.state
            == A2aTaskState::Working || t.status.state == A2aTaskState::InputRequired),
        t.status.state == task_state_spec(m),
{
}

/// The JSON-RPC name of a method.
pub open spec fn method_name(m: A2aMethod) -> Seq<char> {
    match m {
        A2aMethod::Send => "tasks/send"@,
        A2aMethod::Get => "tasks/get"@,
        A2aMethod::Cancel => "tasks/cancel"@,
        A2aMethod::PushNotificationSet => "tasks/pushNotification/set"@,
        A2aMethod::PushNotificationGet => "tasks/pushNotification/get"@,
        A2aMethod::PushNotificationDelete => "tasks/pushNotification/delete"@,
    }
}

/// Law: each method's name selects that method and no other: dispatch on
/// the name of `m` gives `m`, and a name that selects a method is that
/// method's name, so distinct names select distinct handlers.
pub proof fn lemma_dispatch_by_name(m: A2aMethod, name: Seq<char>)
    ensures
        method_spec(method_name(m)) == Some(m),
        method_spec(name) matches Some(k) ==> name == method_name(k),
{
    reveal_strlit("tasks/send");
    reveal_strlit("tasks/get");
    reveal_strlit("tasks/cancel");
    reveal_strlit("tasks/pushNotification/set");
    reveal_strlit("tasks/pushNotification/get");
    reveal_strlit("tasks/pushNotification/delete");
    assert("tasks/send"@ != "tasks/get"@ && "tasks/send"@ != "tasks/cancel"@ && "tasks/get"@ != "tasks/cancel"@) by {
        assert("tasks/send"@[6] != "tasks/get"@[6]);
        assert("tasks/send"@[6] != "tasks/cancel"@[6]);
        assert("tasks/get"@[6] != "tasks/cancel"@[6]);
    }
    assert("tasks/pushNotification/set"@.len() > "tasks/cancel"@.len());
    assert("tasks/pushNotification/set"@ != "tasks/pushNotification/get"@) by {
        assert("tasks/pushNotification/set"@[23] != "tasks/pushNotification/get"@[23]);
    }
    assert("tasks/pushNotification/delete"@.len() != "tasks/pushNotification/get"@.len());
}

} // verus!
