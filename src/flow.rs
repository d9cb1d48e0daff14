//! The sequencing of the conversation commands as a state machine. A
//! session asks for one call at a time; whoever drives it performs the call
//! and hands the answer back, until the session finishes. Inputs are checked
//! before the first call, numbers of a batch are handled strictly in order,
//! and the first failure ends the command.

use vstd::prelude::*;
use vstd::string::StringExecFns;
use crate::error::GrooveError;
use crate::input::{
    parse_duration, snooze_error, snooze_kind, validate_conversation_number,
    validate_conversation_numbers, InputError,
};
use crate::resolve::{
    all_tags_known, canned_reply_body, first_agent, first_canned, first_tag, merged_body,
    resolve_agent_id, resolve_tag_ids,
};
use crate::text::{decimal_text, int_text};
use crate::types::{opt_view, Agent, CannedReply, Conversation, CurrentAgent, Tag};

verus! {

/// A command that changes conversations.
#[derive(Debug, Clone, PartialEq, Eq)]
pub enum Task {
    /// Reply with a body already at hand.
    Reply { number: i64, body: String },
    /// Reply with a canned reply, with optional text appended.
    CannedReply { number: i64, key: String, extra: Option<String> },
    Close { numbers: Vec<i64> },
    Open { numbers: Vec<i64> },
    Unassign { numbers: Vec<i64> },
    /// Snooze until a timestamp or for a duration such as "2h".
    Snooze { number: i64, duration: String },
    /// Assign to an agent by email or name, or to oneself with "me".
    Assign { number: i64, agent: String },
    AddTag { number: i64, tags: Vec<String> },
    RemoveTag { number: i64, tags: Vec<String> },
    Note { number: i64, body: String },
}

/// One call that the session asks for. Mutations name the conversation by
/// its ID, never by its number.
#[derive(Debug, Clone, PartialEq, Eq)]
pub enum Call {
    Conversation { number: i64 },
    Me,
    Agents,
    Tags,
    CannedReplies,
    Reply { conversation_id: String, body: String },
    Close { conversation_id: String },
    Open { conversation_id: String },
    Unassign { conversation_id: String },
    Snooze { conversation_id: String, until: String },
    Assign { conversation_id: String, agent_id: String },
    AddNote { conversation_id: String, body: String },
    Tag { conversation_id: String, tag_ids: Vec<String> },
    Untag { conversation_id: String, tag_ids: Vec<String> },
}

/// The answer to a call.
#[derive(Debug, Clone)]
pub enum Answer {
    Conversation(Conversation),
    Me(CurrentAgent),
    Agents(Vec<Agent>),
    Tags(Vec<Tag>),
    CannedReplies(Vec<CannedReply>),
    /// A mutation succeeded.
    Done,
    /// The call failed.
    Failed(GrooveError),
}

/// Why a command failed.
#[derive(Debug, Clone, PartialEq, Eq)]
pub enum CommandError {
    Api(GrooveError),
    Input(InputError),
    /// An answer that does not belong to the call asked for, or one given
    /// after the session finished.
    UnexpectedAnswer,
}

/// What the session wants next.
#[derive(Debug, PartialEq, Eq)]
pub enum Step {
    Send(Call),
    Finished(Result<(), CommandError>),
}

/// Which answer the session waits for.
#[derive(Debug, Clone, Copy, PartialEq, Eq, Structural)]
pub enum Waiting {
    CannedReplies,
    Conversation,
    Me,
    Agents,
    Tags,
    Mutation,
    Nothing,
}

/// The state of one command in progress.
#[derive(Debug, Clone)]
pub struct Session {
    pub task: Task,
    /// The position in the batch of numbers being worked on.
    pub index: usize,
    /// The ID of the conversation once looked up.
    pub conversation_id: String,
    /// The body to send, or the snooze instant, once known.
    pub payload: String,
    pub waiting: Waiting,
}

/// The numbers a task works on, in order.
pub open spec fn task_numbers(t: Task) -> Seq<i64> {
    match t {
        Task::Close { numbers } => numbers@,
        Task::Open { numbers } => numbers@,
        Task::Unassign { numbers } => numbers@,
        Task::Reply { number, .. } => seq![number],
        Task::CannedReply { number, .. } => seq![number],
        Task::Snooze { number, .. } => seq![number],
        Task::Assign { number, .. } => seq![number],
        Task::AddTag { number, .. } => seq![number],
        Task::RemoveTag { number, .. } => seq![number],
        Task::Note { number, .. } => seq![number],
    }
}

/// Whether a task works on a batch of numbers.
pub open spec fn is_batch(t: Task) -> bool {
    t is Close || t is Open || t is Unassign
}

/// Whether every number is strictly positive.
pub open spec fn all_positive(s: Seq<i64>) -> bool {
    forall|i: int| 0 <= i < s.len() ==> #[trigger] s[i] > 0
}

/// The mutation a task makes on a conversation once it has everything.
pub open spec fn final_call_of(t: Task, id: String, payload: String) -> Option<Call> {
    match t {
        Task::Close { .. } => Some(Call::Close { conversation_id: id }),
        Task::Open { .. } => Some(Call::Open { conversation_id: id }),
        Task::Unassign { .. } => Some(Call::Unassign { conversation_id: id }),
        Task::Reply { .. } => Some(Call::Reply { conversation_id: id, body: payload }),
        Task::CannedReply { .. } => Some(Call::Reply { conversation_id: id, body: payload }),
        Task::Note { .. } => Some(Call::AddNote { conversation_id: id, body: payload }),
        Task::Snooze { .. } => Some(Call::Snooze { conversation_id: id, until: payload }),
        _ => None,
    }
}

/// The lookup that follows the conversation for tasks that need another.
pub open spec fn lookup_after_conversation(t: Task) -> Option<Call> {
    match t {
        Task::Assign { agent, .. } => if agent@ == "me"@ {
            Some(Call::Me)
        } else {
            Some(Call::Agents)
        },
        Task::AddTag { .. } => Some(Call::Tags),
        Task::RemoveTag { .. } => Some(Call::Tags),
        _ => None,
    }
}

/// The wait that a lookup call sets.
pub open spec fn waiting_for(c: Call) -> Waiting {
    match c {
        Call::Me => Waiting::Me,
        Call::Agents => Waiting::Agents,
        Call::Tags => Waiting::Tags,
        Call::CannedReplies => Waiting::CannedReplies,
        Call::Conversation { .. } => Waiting::Conversation,
        _ => Waiting::Mutation,
    }
}

fn finish_input(e: InputError) -> (r: Step)
    ensures
        r == Step::Finished(Err(CommandError::Input(e))),
{
    Step::Finished(Err(CommandError::Input(e)))
}

fn finish_api(e: GrooveError) -> (r: Step)
    ensures
        r == Step::Finished(Err(CommandError::Api(e))),
{
    Step::Finished(Err(CommandError::Api(e)))
}

impl Session {
    fn first_number(task: &Task) -> (r: i64)
        requires
            !is_batch(*task),
        ensures
            task_numbers(*task) == seq![r],
    {
        match task {
            Task::Reply { number, .. } => *number,
            Task::CannedReply { number, .. } => *number,
            Task::Snooze { number, .. } => *number,
            Task::Assign { number, .. } => *number,
            Task::AddTag { number, .. } => *number,
            Task::RemoveTag { number, .. } => *number,
            Task::Note { number, .. } => *number,
            Task::Close { .. } | Task::Open { .. } | Task::Unassign { .. } => 0,
        }
    }

    /// Starts a command. Every check on the input comes first: a failing one
    /// finishes the session before any call. A canned reply is then looked
    /// up; every other command starts by looking up its first conversation.
    pub fn start(task: Task) -> (r: (Session, Step))
        ensures
            r.0.task == task,
            r.0.index == 0,
            r.1 is Send ==> r.0.waiting == waiting_for(r.1->Send_0),
            r.1 is Finished ==> r.0.waiting == Waiting::Nothing,
            opening(task, r.0.payload, r.1),
    {
        let (payload, step) = Session::first_step(&task);
        let waiting = match &step {
            Step::Send(c) => waiting_of(c),
            Step::Finished(_) => Waiting::Nothing,
        };
        (Session { task, index: 0, conversation_id: String::new(), payload, waiting }, step)
    }

    fn first_step(task: &Task) -> (r: (String, Step))
        ensures
            opening(*task, r.0, r.1),
    {
        let mut payload = String::new();
        match task {
            Task::Close { numbers } | Task::Open { numbers } | Task::Unassign { numbers } => {
                if let Err(e) = validate_conversation_numbers(numbers.as_slice()) {
                    return (payload, finish_input(e));
                }
                if numbers.len() == 0 {
                    return (payload, Step::Finished(Ok(())));
                }
                return (payload, Step::Send(Call::Conversation { number: numbers[0] }));
            },
            Task::CannedReply { number, .. } => {
                if let Err(e) = validate_conversation_number(*number) {
                    return (payload, finish_input(e));
                }
                return (payload, Step::Send(Call::CannedReplies));
            },
            Task::Snooze { number, duration } => {
                return snooze_step(*number, parse_duration(duration.as_str()));
            },
            Task::Reply { body, .. } | Task::Note { body, .. } => {
                payload = body.clone();
            },
            _ => {},
        }
        let n = Session::first_number(task);
        if let Err(e) = validate_conversation_number(n) {
            return (payload, finish_input(e));
        }
        (payload, Step::Send(Call::Conversation { number: n }))
    }
}

/// The first step of a snooze once its instant has been worked out (or has
/// failed to be): a failure ends the command with that error; else a number
/// that is not positive ends it; else the instant becomes the payload and
/// the conversation is looked up.
pub fn snooze_step(number: i64, until: Result<String, InputError>) -> (r: (String, Step))
    ensures
        until matches Err(e) ==> r.1 == Step::Finished(Err(CommandError::Input(e))),
        until is Ok && number <= 0 ==> r.1 == Step::Finished(Err(CommandError::Input(InputError::NonPositiveNumber(number)))),
        number > 0 ==> (until matches Ok(t) ==> r.0 == t && r.1 == Step::Send(Call::Conversation { number })),
{
    match until {
        Err(e) => (String::new(), finish_input(e)),
        Ok(t) => {
            if let Err(e) = validate_conversation_number(number) {
                (String::new(), finish_input(e))
            } else {
                (t, Step::Send(Call::Conversation { number }))
            }
        },
    }
}

/// What starting a task gives: the checks on its input in order, then the
/// first call, and the payload it sets aside.
pub open spec fn opening(task: Task, payload: String, step: Step) -> bool {
    let ns = task_numbers(task);
    match task {
        Task::Close { .. } | Task::Open { .. } | Task::Unassign { .. } => {
            &&& !all_positive(ns) ==> exists|i: int| 0 <= i < ns.len() && #[trigger] ns[i] <= 0
                && (forall|j: int| 0 <= j < i ==> #[trigger] ns[j] > 0)
                && step == Step::Finished(Err(CommandError::Input(InputError::NonPositiveNumber(ns[i]))))
            &&& all_positive(ns) && ns.len() == 0 ==> step == Step::Finished(Ok(()))
            &&& all_positive(ns) && ns.len() > 0 ==> step == Step::Send(Call::Conversation { number: ns[0] })
        },
        Task::CannedReply { number, .. } => {
            &&& number <= 0 ==> step == Step::Finished(Err(CommandError::Input(InputError::NonPositiveNumber(number))))
            &&& number > 0 ==> step == Step::Send(Call::CannedReplies)
        },
        Task::Snooze { number, duration } => {
            let k = snooze_kind(duration@);
            &&& !(k is At) && !(k is After) ==> (step matches Step::Finished(Err(CommandError::Input(e)))
                && snooze_error(duration@, k, e))
            &&& k is At && number <= 0 ==> step == Step::Finished(Err(CommandError::Input(InputError::NonPositiveNumber(number))))
            &&& k is At && number > 0 ==> payload@ == duration@ && step == Step::Send(Call::Conversation { number })
            &&& k is After && number > 0 ==> (step == Step::Send(Call::Conversation { number })
                || (step matches Step::Finished(Err(CommandError::Input(InputError::DurationOutOfRange(x))))
                    && x@ == duration@))
            &&& k is After && number <= 0 ==> (step == Step::Finished(Err(CommandError::Input(InputError::NonPositiveNumber(number))))
                || (step matches Step::Finished(Err(CommandError::Input(InputError::DurationOutOfRange(x))))
                    && x@ == duration@))
        },
        Task::Reply { number, body } | Task::Note { number, body } => {
            &&& payload == body
            &&& number <= 0 ==> step == Step::Finished(Err(CommandError::Input(InputError::NonPositiveNumber(number))))
            &&& number > 0 ==> step == Step::Send(Call::Conversation { number })
        },
        Task::Assign { number, .. } | Task::AddTag { number, .. } | Task::RemoveTag { number, .. } => {
            &&& number <= 0 ==> step == Step::Finished(Err(CommandError::Input(InputError::NonPositiveNumber(number))))
            &&& number > 0 ==> step == Step::Send(Call::Conversation { number })
        },
    }
}

impl Session {
    fn call_after_conversation(task: &Task, id: &String, payload: &String) -> (r: Call)
        ensures
            final_call_of(*task, *id, *payload) matches Some(c) ==> r == c,
            lookup_after_conversation(*task) matches Some(c) ==> r == c,
    {
        match task {
            Task::Close { .. } => Call::Close { conversation_id: id.clone() },
            Task::Open { .. } => Call::Open { conversation_id: id.clone() },
            Task::Unassign { .. } => Call::Unassign { conversation_id: id.clone() },
            Task::Reply { .. } | Task::CannedReply { .. } => Call::Reply {
                conversation_id: id.clone(),
                body: payload.clone(),
            },
            Task::Note { .. } => Call::AddNote { conversation_id: id.clone(), body: payload.clone() },
            Task::Snooze { .. } => Call::Snooze { conversation_id: id.clone(), until: payload.clone() },
            Task::Assign { agent, .. } => {
                if *agent == String::from_str("me") {
                    Call::Me
                } else {
                    Call::Agents
                }
            },
            Task::AddTag { .. } | Task::RemoveTag { .. } => Call::Tags,
        }
    }

    fn tag_call(task: &Task, id: &String, all_tags: &Vec<Tag>) -> (r: Step)
        ensures
            match *task {
                Task::AddTag { tags, .. } => tag_step(all_tags@, tags@, *id, r, true),
                Task::RemoveTag { tags, .. } => tag_step(all_tags@, tags@, *id, r, false),
                _ => r == Step::Finished(Err(CommandError::UnexpectedAnswer)),
            },
    {
        match task {
            Task::AddTag { tags, .. } => match resolve_tag_ids(tags, all_tags) {
                Ok(ids) => Step::Send(Call::Tag { conversation_id: id.clone(), tag_ids: ids }),
                Err(e) => finish_api(e),
            },
            Task::RemoveTag { tags, .. } => match resolve_tag_ids(tags, all_tags) {
                Ok(ids) => Step::Send(Call::Untag { conversation_id: id.clone(), tag_ids: ids }),
                Err(e) => finish_api(e),
            },
            _ => Step::Finished(Err(CommandError::UnexpectedAnswer)),
        }
    }

    fn agent_call(task: &Task, id: &String, agents: &Vec<Agent>) -> (r: Step)
        ensures
            match *task {
                Task::Assign { agent, .. } => agent_step(agents@, agent@, *id, r),
                _ => r == Step::Finished(Err(CommandError::UnexpectedAnswer)),
            },
    {
        match task {
            Task::Assign { agent, .. } => match resolve_agent_id(agents, agent.as_str()) {
                Ok(agent_id) => Step::Send(Call::Assign { conversation_id: id.clone(), agent_id }),
                Err(e) => finish_api(e),
            },
            _ => Step::Finished(Err(CommandError::UnexpectedAnswer)),
        }
    }

    fn canned_body(task: &Task, replies: &Vec<CannedReply>) -> (r: Result<(String, i64), Step>)
        ensures
            match *task {
                Task::CannedReply { number, key, extra } => {
                    &&& first_canned(replies@, key@) is None ==> (r matches Err(Step::Finished(
                        Err(CommandError::Api(GrooveError::CannedReplyNotFound(n))))) && n@ == key@)
                    &&& first_canned(replies@, key@) matches Some(i) ==> (r matches Ok((b, m)) && m == number
                        && b@ == merged_body(
                            match replies@[i].body { Some(x) => Some(x@), None => None },
                            match extra { Some(x) => Some(x@), None => None },
                        ))
                },
                _ => r == Err::<(String, i64), Step>(Step::Finished(Err(CommandError::UnexpectedAnswer))),
            },
    {
        match task {
            Task::CannedReply { number, key, extra } => match canned_reply_body(replies, key.as_str(), extra) {
                Ok(b) => Ok((b, *number)),
                Err(e) => Err(finish_api(e)),
            },
            _ => Err(Step::Finished(Err(CommandError::UnexpectedAnswer))),
        }
    }

    fn next_in_batch(task: &Task, index: usize) -> (r: Option<i64>)
        ensures
            is_batch(*task) && index + 1 < task_numbers(*task).len() ==> r == Some(task_numbers(*task)[index + 1]),
            !(is_batch(*task) && index + 1 < task_numbers(*task).len()) ==> r is None,
            r is Some ==> index < usize::MAX,
    {
        match task {
            Task::Close { numbers } | Task::Open { numbers } | Task::Unassign { numbers } => {
                if index < numbers.len() && index + 1 < numbers.len() {
                    Some(numbers[index + 1])
                } else {
                    None
                }
            },
            _ => None,
        }
    }

    /// Takes the answer to the call asked for and says what comes next. A
    /// failed call ends the command with its error; an answer of the wrong
    /// kind, or one after the end, ends it as unexpected.
    pub fn advance(&mut self, answer: Answer) -> (r: Step)
        ensures
            final(self).task == old(self).task,
            r is Send ==> final(self).waiting == waiting_for(r->Send_0),
            r is Finished ==> final(self).waiting == Waiting::Nothing,
            old(self).waiting == Waiting::Nothing ==> r == Step::Finished(Err(CommandError::UnexpectedAnswer)),
            old(self).waiting != Waiting::Nothing ==> (answer matches Answer::Failed(e)
                ==> r == Step::Finished(Err(CommandError::Api(e)))),
            !answer_fits(old(self).waiting, answer) ==> r == Step::Finished(Err(CommandError::UnexpectedAnswer)),
            old(self).waiting == Waiting::Conversation ==> (answer matches Answer::Conversation(c) ==> {
                &&& final(self).conversation_id == c.id
                &&& final(self).index == old(self).index
                &&& final(self).payload == old(self).payload
                &&& final_call_of(old(self).task, c.id, old(self).payload) matches Some(call) ==> r == Step::Send(call)
                &&& lookup_after_conversation(old(self).task) matches Some(call) ==> r == Step::Send(call)
            }),
            old(self).waiting == Waiting::Me ==> (answer matches Answer::Me(a) ==> r == Step::Send(
                Call::Assign { conversation_id: old(self).conversation_id, agent_id: a.id },
            )),
            old(self).waiting == Waiting::Agents ==> (answer matches Answer::Agents(list) ==> match old(self).task {
                Task::Assign { agent, .. } => agent_step(list@, agent@, old(self).conversation_id, r),
                _ => r == Step::Finished(Err(CommandError::UnexpectedAnswer)),
            }),
            old(self).waiting == Waiting::Tags ==> (answer matches Answer::Tags(list) ==> match old(self).task {
                Task::AddTag { tags, .. } => tag_step(list@, tags@, old(self).conversation_id, r, true),
                Task::RemoveTag { tags, .. } => tag_step(list@, tags@, old(self).conversation_id, r, false),
                _ => r == Step::Finished(Err(CommandError::UnexpectedAnswer)),
            }),
            old(self).waiting == Waiting::CannedReplies ==> (answer matches Answer::CannedReplies(list) ==> match old(self).task {
                Task::CannedReply { number, key, extra } => {
                    &&& first_canned(list@, key@) is None ==> (r matches Step::Finished(
                        Err(CommandError::Api(GrooveError::CannedReplyNotFound(n)))) && n@ == key@)
                    &&& first_canned(list@, key@) matches Some(i) ==> {
                        &&& final(self).payload@ == merged_body(
                            match list@[i].body { Some(x) => Some(x@), None => None },
                            match extra { Some(x) => Some(x@), None => None },
                        )
                        &&& r == Step::Send(Call::Conversation { number })
                    }
                },
                _ => r == Step::Finished(Err(CommandError::UnexpectedAnswer)),
            }),
            old(self).waiting == Waiting::Mutation ==> (answer is Done ==> {
                let ns = task_numbers(old(self).task);
                &&& is_batch(old(self).task) && old(self).index + 1 < ns.len() ==> r == Step::Send(
                    Call::Conversation { number: ns[old(self).index + 1] },
                ) && final(self).index == old(self).index + 1
                &&& !(is_batch(old(self).task) && old(self).index + 1 < ns.len()) ==> r == Step::Finished(Ok(()))
            }),
    {
        let waiting = self.waiting;
        let unexpected = Step::Finished(Err(CommandError::UnexpectedAnswer));
        let step = match answer {
            Answer::Failed(e) => {
                if waiting == Waiting::Nothing {
                    unexpected
                } else {
                    finish_api(e)
                }
            },
            Answer::Conversation(c) => {
                if waiting == Waiting::Conversation {
                    self.conversation_id = c.id;
                    Step::Send(Session::call_after_conversation(&self.task, &self.conversation_id, &self.payload))
                } else {
                    unexpected
                }
            },
            Answer::Me(a) => {
                if waiting == Waiting::Me {
                    Step::Send(Call::Assign { conversation_id: self.conversation_id.clone(), agent_id: a.id })
                } else {
                    unexpected
                }
            },
            Answer::Agents(list) => {
                if waiting == Waiting::Agents {
                    Session::agent_call(&self.task, &self.conversation_id, &list)
                } else {
                    unexpected
                }
            },
            Answer::Tags(list) => {
                if waiting == Waiting::Tags {
                    Session::tag_call(&self.task, &self.conversation_id, &list)
                } else {
                    unexpected
                }
            },
            Answer::CannedReplies(list) => {
                if waiting == Waiting::CannedReplies {
                    match Session::canned_body(&self.task, &list) {
                        Ok((body, number)) => {
                            self.payload = body;
                            Step::Send(Call::Conversation { number })
                        },
                        Err(step) => step,
                    }
                } else {
                    unexpected
                }
            },
            Answer::Done => {
                if waiting == Waiting::Mutation {
                    match Session::next_in_batch(&self.task, self.index) {
                        Some(n) => {
                            self.index = self.index + 1;
                            Step::Send(Call::Conversation { number: n })
                        },
                        None => Step::Finished(Ok(())),
                    }
                } else {
                    unexpected
                }
            },
        };
        self.waiting = match &step {
            Step::Send(c) => waiting_of(c),
            Step::Finished(_) => Waiting::Nothing,
        };
        step
    }
}

/// The number the session is working on: its place in a batch, or the
/// command's one number.
pub open spec fn current_number(t: Task, index: int) -> Option<i64> {
    if 0 <= index < task_numbers(t).len() && (is_batch(t) || index == 0) {
        Some(task_numbers(t)[index])
    } else {
        None
    }
}

/// The line reported once a mutation succeeded on conversation `n`.
pub open spec fn success_text(t: Task, c: Call, n: Seq<char>) -> Option<Seq<char>> {
    match c {
        Call::Reply { .. } => Some("Reply sent to conversation #"@ + n),
        Call::Close { .. } => Some("Closed conversation #"@ + n),
        Call::Open { .. } => Some("Opened conversation #"@ + n),
        Call::Unassign { .. } => Some("Unassigned conversation #"@ + n),
        Call::Snooze { until, .. } => Some("Snoozed conversation #"@ + n + " until "@ + until@),
        Call::Assign { .. } => match t {
            Task::Assign { agent, .. } => Some("Assigned conversation #"@ + n + " to "@ + agent@),
            _ => None,
        },
        Call::AddNote { .. } => Some("Note added to conversation #"@ + n),
        Call::Tag { .. } => Some("Added tags to conversation #"@ + n),
        Call::Untag { .. } => Some("Removed tags from conversation #"@ + n),
        _ => None,
    }
}

impl Session {
    /// The line to report when `call`, the mutation this session asked for,
    /// has succeeded; none for lookups.
    pub fn success_message(&self, call: &Call) -> (r: Option<String>)
        ensures
            current_number(self.task, self.index as int) matches Some(n) ==> opt_view(r) == success_text(
                self.task,
                *call,
                decimal_text(n as int),
            ),
            current_number(self.task, self.index as int) is None ==> r is None,
    {
        let number = match &self.task {
            Task::Close { numbers } | Task::Open { numbers } | Task::Unassign { numbers } => {
                if self.index < numbers.len() {
                    numbers[self.index]
                } else {
                    return None;
                }
            },
            Task::Reply { number, .. } | Task::CannedReply { number, .. } | Task::Snooze { number, .. }
            | Task::Assign { number, .. } | Task::AddTag { number, .. } | Task::RemoveTag { number, .. }
            | Task::Note { number, .. } => {
                if self.index == 0 {
                    *number
                } else {
                    return None;
                }
            },
        };
        let n = int_text(number);
        let text = match call {
            Call::Reply { .. } => String::from_str("Reply sent to conversation #").concat(n.as_str()),
            Call::Close { .. } => String::from_str("Closed conversation #").concat(n.as_str()),
            Call::Open { .. } => String::from_str("Opened conversation #").concat(n.as_str()),
            Call::Unassign { .. } => String::from_str("Unassigned conversation #").concat(n.as_str()),
            Call::Snooze { until, .. } => String::from_str("Snoozed conversation #").concat(n.as_str()).concat(
                " until ",
            ).concat(until.as_str()),
            Call::Assign { .. } => match &self.task {
                Task::Assign { agent, .. } => String::from_str("Assigned conversation #").concat(
                    n.as_str(),
                ).concat(" to ").concat(agent.as_str()),
                _ => {
                    return None;
                },
            },
            Call::AddNote { .. } => String::from_str("Note added to conversation #").concat(n.as_str()),
            Call::Tag { .. } => String::from_str("Added tags to conversation #").concat(n.as_str()),
            Call::Untag { .. } => String::from_str("Removed tags from conversation #").concat(n.as_str()),
            _ => {
                return None;
            },
        };
        Some(text)
    }
}

/// Whether an answer is of the kind the session waits for; a failure fits
/// any wait but the end.
pub open spec fn answer_fits(w: Waiting, a: Answer) -> bool {
    match a {
        Answer::Failed(_) => w != Waiting::Nothing,
        Answer::Conversation(_) => w == Waiting::Conversation,
        Answer::Me(_) => w == Waiting::Me,
        Answer::Agents(_) => w == Waiting::Agents,
        Answer::Tags(_) => w == Waiting::Tags,
        Answer::CannedReplies(_) => w == Waiting::CannedReplies,
        Answer::Done => w == Waiting::Mutation,
    }
}

/// The step that follows the tag list: the tag or untag mutation with the
/// IDs of the first tag answering to each name, or, when a name has none, a
/// failure naming the first such name and no mutation at all.
pub open spec fn tag_step(all_tags: Seq<Tag>, names: Seq<String>, id: String, r: Step, adding: bool) -> bool {
    if all_tags_known(names, all_tags) {
        exists|ids: Vec<String>| {
            &&& r == (if adding {
                Step::Send(Call::Tag { conversation_id: id, tag_ids: ids })
            } else {
                Step::Send(Call::Untag { conversation_id: id, tag_ids: ids })
            })
            &&& #[trigger] ids@.len() == names.len()
            &&& forall|k: int| 0 <= k < names.len() ==> (#[trigger] ids@[k])@ == all_tags[first_tag(all_tags, names[k]@)->0].id@
        }
    } else {
        exists|k: int| 0 <= k < names.len()
            && first_tag(all_tags, (#[trigger] names[k])@) is None
            && (forall|j: int| 0 <= j < k ==> (#[trigger] first_tag(all_tags, names[j]@)) is Some)
            && (r matches Step::Finished(Err(CommandError::Api(GrooveError::TagNotFound(n)))) && n@ == names[k]@)
    }
}

/// The step that follows the agent list: the assignment to the first agent
/// whose email or name matches, or a failure naming the identifier.
pub open spec fn agent_step(agents: Seq<Agent>, ident: Seq<char>, id: String, r: Step) -> bool {
    &&& first_agent(agents, ident) matches Some(i) ==> (r matches Step::Send(Call::Assign { conversation_id, agent_id })
        && conversation_id == id && agent_id@ == agents[i].id@)
    &&& first_agent(agents, ident) is None ==> (r matches Step::Finished(Err(CommandError::Api(GrooveError::AgentNotFound(n))))
        && n@ == ident)
}

fn waiting_of(c: &Call) -> (r: Waiting)
    ensures
        r == waiting_for(*c),
{
    match c {
        Call::Me => Waiting::Me,
        Call::Agents => Waiting::Agents,
        Call::Tags => Waiting::Tags,
        Call::CannedReplies => Waiting::CannedReplies,
        Call::Conversation { .. } => Waiting::Conversation,
        _ => Waiting::Mutation,
    }
}

/// Assigning to "me": once the conversation is found the session asks for
/// the current agent, never for the agent list, and makes no mutation before
/// that answer; `advance` then assigns to that agent's ID.
pub proof fn lemma_assign_to_me_asks_for_me(number: i64, agent: String, id: String, payload: String)
    requires
        agent@ == "me"@,
    ensures
        lookup_after_conversation(Task::Assign { number, agent }) == Some(Call::Me),
        final_call_of(Task::Assign { number, agent }, id, payload) is None,
        number > 0 ==> opening(Task::Assign { number, agent }, payload, Step::Send(Call::Conversation { number })),
{
}

} // verus!
