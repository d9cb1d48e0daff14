use groovehq_cli::error::GrooveError;
use groovehq_cli::flow::{snooze_step, Answer, Call, CommandError, Session, Step, Task};
use groovehq_cli::input::InputError;
use groovehq_cli::resolve::{canned_reply_body, merge_canned_body, resolve_agent_id, resolve_tag_ids};
use groovehq_cli::types::{Agent, CannedReply, Conversation, ConversationState, CurrentAgent, Tag};

fn tag(id: &str, name: &str) -> Tag {
    Tag { id: id.to_string(), name: name.to_string(), color: None }
}

fn names(n: &[&str]) -> Vec<String> {
    n.iter().map(|s| s.to_string()).collect()
}

fn conv(id: &str, number: i64) -> Conversation {
    Conversation {
        id: id.to_string(),
        number,
        subject: None,
        state: ConversationState::Opened,
        created_at: 0,
        updated_at: 0,
        assigned: None,
        channel: None,
        contact: None,
        tags: Vec::new(),
    }
}

fn agent(id: &str, email: &str, name: Option<&str>) -> Agent {
    Agent { id: id.to_string(), email: email.to_string(), name: name.map(|n| n.to_string()) }
}

#[test]
fn tag_names_match_ignoring_case() {
    let tags = vec![tag("t-1", "Urgent")];
    assert_eq!(
        resolve_tag_ids(&names(&["urgent", "URGENT"]), &tags),
        Ok(names(&["t-1", "t-1"]))
    );
}

#[test]
fn one_unknown_tag_fails_them_all() {
    let tags = vec![tag("t-1", "Urgent")];
    assert_eq!(
        resolve_tag_ids(&names(&["urgent", "missing"]), &tags),
        Err(GrooveError::TagNotFound("missing".to_string()))
    );
}

#[test]
fn unknown_tag_issues_no_mutation() {
    let (mut s, step) = Session::start(Task::AddTag { number: 7, tags: names(&["urgent", "missing"]) });
    assert_eq!(step, Step::Send(Call::Conversation { number: 7 }));
    assert_eq!(s.advance(Answer::Conversation(conv("c-7", 7))), Step::Send(Call::Tags));
    assert_eq!(
        s.advance(Answer::Tags(vec![tag("t-1", "Urgent")])),
        Step::Finished(Err(CommandError::Api(GrooveError::TagNotFound("missing".to_string()))))
    );
}

#[test]
fn tags_resolve_then_mutate() {
    let (mut s, _) = Session::start(Task::RemoveTag { number: 7, tags: names(&["bug"]) });
    assert_eq!(s.advance(Answer::Conversation(conv("c-7", 7))), Step::Send(Call::Tags));
    assert_eq!(
        s.advance(Answer::Tags(vec![tag("t-1", "Urgent"), tag("t-2", "BUG")])),
        Step::Send(Call::Untag { conversation_id: "c-7".to_string(), tag_ids: names(&["t-2"]) })
    );
    assert_eq!(s.advance(Answer::Done), Step::Finished(Ok(())));
}

#[test]
fn assign_to_me_asks_for_me_and_never_the_agent_list() {
    let (mut s, step) = Session::start(Task::Assign { number: 42, agent: "me".to_string() });
    assert_eq!(step, Step::Send(Call::Conversation { number: 42 }));
    assert_eq!(s.advance(Answer::Conversation(conv("conv-42", 42))), Step::Send(Call::Me));
    let me = CurrentAgent {
        id: "agent-123".to_string(),
        email: "test@example.com".to_string(),
        name: Some("Test User".to_string()),
        role: Some("admin".to_string()),
    };
    assert_eq!(
        s.advance(Answer::Me(me)),
        Step::Send(Call::Assign { conversation_id: "conv-42".to_string(), agent_id: "agent-123".to_string() })
    );
    assert_eq!(s.advance(Answer::Done), Step::Finished(Ok(())));
    assert_eq!(s.advance(Answer::Done), Step::Finished(Err(CommandError::UnexpectedAnswer)));
}

#[test]
fn assign_by_email_or_name() {
    let agents = vec![agent("a-1", "ann@example.com", Some("Ann")), agent("a-2", "bob@example.com", None)];
    assert_eq!(resolve_agent_id(&agents, "bob@example.com"), Ok("a-2".to_string()));
    assert_eq!(resolve_agent_id(&agents, "Ann"), Ok("a-1".to_string()));
    assert_eq!(resolve_agent_id(&agents, "ann"), Err(GrooveError::AgentNotFound("ann".to_string())));

    let (mut s, _) = Session::start(Task::Assign { number: 3, agent: "Ann".to_string() });
    assert_eq!(s.advance(Answer::Conversation(conv("c-3", 3))), Step::Send(Call::Agents));
    assert_eq!(
        s.advance(Answer::Agents(agents)),
        Step::Send(Call::Assign { conversation_id: "c-3".to_string(), agent_id: "a-1".to_string() })
    );
}

#[test]
fn batch_goes_in_order_and_stops_at_first_failure() {
    let (mut s, step) = Session::start(Task::Close { numbers: vec![1, 2, 3] });
    assert_eq!(step, Step::Send(Call::Conversation { number: 1 }));
    assert_eq!(
        s.advance(Answer::Conversation(conv("c-1", 1))),
        Step::Send(Call::Close { conversation_id: "c-1".to_string() })
    );
    assert_eq!(s.advance(Answer::Done), Step::Send(Call::Conversation { number: 2 }));
    assert_eq!(
        s.advance(Answer::Failed(GrooveError::ConversationNotFound(2))),
        Step::Finished(Err(CommandError::Api(GrooveError::ConversationNotFound(2))))
    );
}

#[test]
fn batch_with_bad_number_makes_no_call() {
    let (_, step) = Session::start(Task::Open { numbers: vec![1, 0, 3] });
    assert_eq!(step, Step::Finished(Err(CommandError::Input(InputError::NonPositiveNumber(0)))));
    let (_, step) = Session::start(Task::Unassign { numbers: vec![] });
    assert_eq!(step, Step::Finished(Ok(())));
}

#[test]
fn single_number_is_checked_first() {
    let (_, step) = Session::start(Task::Note { number: -4, body: "x".to_string() });
    assert_eq!(step, Step::Finished(Err(CommandError::Input(InputError::NonPositiveNumber(-4)))));
    let (_, step) = Session::start(Task::Snooze { number: 5, duration: "5x".to_string() });
    assert_eq!(
        step,
        Step::Finished(Err(CommandError::Input(InputError::InvalidDurationUnit("x".to_string()))))
    );
}

#[test]
fn snooze_passes_timestamp_through() {
    let (mut s, step) = Session::start(Task::Snooze { number: 5, duration: "2024-12-25".to_string() });
    assert_eq!(step, Step::Send(Call::Conversation { number: 5 }));
    assert_eq!(
        s.advance(Answer::Conversation(conv("c-5", 5))),
        Step::Send(Call::Snooze { conversation_id: "c-5".to_string(), until: "2024-12-25".to_string() })
    );
}

#[test]
fn canned_reply_merges_body() {
    let replies = vec![
        CannedReply { id: "r-1".to_string(), name: "Greeting".to_string(), subject: None, body: Some("Hello".to_string()) },
        CannedReply { id: "r-2".to_string(), name: "Empty".to_string(), subject: None, body: None },
    ];
    assert_eq!(canned_reply_body(&replies, "greeting", &None), Ok("Hello".to_string()));
    assert_eq!(
        canned_reply_body(&replies, "r-1", &Some("Thanks".to_string())),
        Ok("Hello\n\nThanks".to_string())
    );
    assert_eq!(canned_reply_body(&replies, "empty", &None), Ok(String::new()));
    assert_eq!(
        canned_reply_body(&replies, "nope", &None),
        Err(GrooveError::CannedReplyNotFound("nope".to_string()))
    );
    assert_eq!(merge_canned_body(&None, &Some("x".to_string())), "\n\nx");

    let (mut s, step) = Session::start(Task::CannedReply {
        number: 9,
        key: "GREETING".to_string(),
        extra: Some("Bye".to_string()),
    });
    assert_eq!(step, Step::Send(Call::CannedReplies));
    assert_eq!(s.advance(Answer::CannedReplies(replies)), Step::Send(Call::Conversation { number: 9 }));
    assert_eq!(
        s.advance(Answer::Conversation(conv("c-9", 9))),
        Step::Send(Call::Reply { conversation_id: "c-9".to_string(), body: "Hello\n\nBye".to_string() })
    );
}

#[test]
fn wrong_answer_is_unexpected() {
    let (mut s, _) = Session::start(Task::Reply { number: 1, body: "b".to_string() });
    assert_eq!(s.advance(Answer::Done), Step::Finished(Err(CommandError::UnexpectedAnswer)));
}

#[test]
fn success_lines() {
    let (s, _) = Session::start(Task::Close { numbers: vec![12, 13] });
    let call = Call::Close { conversation_id: "c".to_string() };
    assert_eq!(s.success_message(&call), Some("Closed conversation #12".to_string()));
    assert_eq!(s.success_message(&Call::Tags), None);
    let (s, _) = Session::start(Task::Assign { number: 42, agent: "me".to_string() });
    let call = Call::Assign { conversation_id: "c".to_string(), agent_id: "a".to_string() };
    assert_eq!(s.success_message(&call), Some("Assigned conversation #42 to me".to_string()));
}

#[test]
fn canned_reply_with_bad_number_makes_no_call() {
    let (_, step) = Session::start(Task::CannedReply { number: 0, key: "greeting".to_string(), extra: None });
    assert_eq!(step, Step::Finished(Err(CommandError::Input(InputError::NonPositiveNumber(0)))));
}

#[test]
fn snooze_step_outcomes() {
    assert_eq!(
        snooze_step(5, Ok("2030-01-01T00:00:00+00:00".to_string())),
        ("2030-01-01T00:00:00+00:00".to_string(), Step::Send(Call::Conversation { number: 5 }))
    );
    assert_eq!(
        snooze_step(0, Ok("2030-01-01".to_string())).1,
        Step::Finished(Err(CommandError::Input(InputError::NonPositiveNumber(0))))
    );
    assert_eq!(
        snooze_step(5, Err(InputError::DurationOutOfRange("x".to_string()))).1,
        Step::Finished(Err(CommandError::Input(InputError::DurationOutOfRange("x".to_string()))))
    );
}

#[test]
fn relative_snooze_sends_the_computed_instant() {
    let (mut s, step) = Session::start(Task::Snooze { number: 5, duration: "2h".to_string() });
    assert_eq!(step, Step::Send(Call::Conversation { number: 5 }));
    match s.advance(Answer::Conversation(conv("c-5", 5))) {
        Step::Send(Call::Snooze { conversation_id, until }) => {
            assert_eq!(conversation_id, "c-5");
            assert!(chrono::DateTime::parse_from_rfc3339(&until).is_ok());
        }
        other => panic!("unexpected step {:?}", other),
    }
}
