use buddy::context::BACKGROUND;
use buddy::db::{Channel, Event as Turn};
use buddy::line::{Event, Message};
use buddy::openai::{Choice, Response, Usage};
use buddy::relay::{Action, Failure, Outcome, Relay};
use buddy::secrets::Keys;

fn message(token: &str, user: &str, text: &str) -> Message {
    Message {
        reply_token: token.to_string(),
        user: user.to_string(),
        text: text.to_string(),
    }
}

fn delivery(id: &str, messages: Vec<Message>) -> Event {
    Event {
        channel_id: id.to_string(),
        messages,
    }
}

fn turns(c: &Channel) -> Vec<(Option<String>, String)> {
    c.events
        .iter()
        .map(|e| (e.user.clone(), e.msg.clone()))
        .collect()
}

fn prompt_of(a: &Action) -> (String, String) {
    match a {
        Action::Complete { reply_token, prompt } => (reply_token.clone(), prompt.clone()),
        _ => panic!("expected a completion request"),
    }
}

#[test]
fn end_to_end_single_message() {
    let (mut relay, a) = Relay::start(delivery("C1", vec![message("R1", "U1", "hello")]), None);
    let (token, prompt) = prompt_of(&a);
    assert_eq!(token, "R1");
    assert_eq!(prompt, format!("{}\n\nUserU1: hello\n\nAI: ", BACKGROUND));
    match relay.step(Outcome::Completed("hi there".to_string())) {
        Action::Reply { reply_token, text } => {
            assert_eq!(reply_token, "R1");
            assert_eq!(text, "hi there");
        }
        _ => panic!("expected a reply"),
    }
    assert!(matches!(relay.step(Outcome::Replied), Action::Store));
    let channel = relay.channel();
    assert_eq!(channel.id, "C1");
    assert_eq!(
        turns(channel),
        vec![
            (Some("U1".to_string()), "hello".to_string()),
            (None, "hi there".to_string())
        ]
    );
    assert!(matches!(relay.step(Outcome::Stored), Action::Acknowledge));
}

#[test]
fn later_prompt_extends_earlier_one() {
    let (mut relay, a) = Relay::start(
        delivery("C1", vec![message("R1", "U1", "a"), message("R2", "U2", "b")]),
        None,
    );
    let (_, first) = prompt_of(&a);
    relay.step(Outcome::Completed("x".to_string()));
    let (token, second) = prompt_of(&relay.step(Outcome::Replied));
    assert_eq!(token, "R2");
    let head = first.strip_suffix("\n\nAI: ").unwrap();
    assert!(second.starts_with(head));
    assert_eq!(&second[head.len()..], "\n\nAI: x\n\nUserU2: b\n\nAI: ");
}

#[test]
fn stored_log_grows_by_two_turns_per_message() {
    let mut stored = Channel::empty("C2");
    stored.push(Turn::user("U1", "old"));
    stored.push(Turn::ai("older reply"));
    let (mut relay, mut a) = Relay::start(
        delivery("C2", vec![message("R1", "U1", "m1"), message("R2", "U3", "m2")]),
        Some(stored),
    );
    let replies = ["r1", "r2"];
    let mut i = 0;
    while let Action::Complete { .. } = a {
        relay.step(Outcome::Completed(replies[i].to_string()));
        a = relay.step(Outcome::Replied);
        i += 1;
    }
    assert_eq!(i, 2);
    assert!(matches!(a, Action::Store));
    assert!(matches!(relay.step(Outcome::Stored), Action::Acknowledge));
    let channel = relay.finish();
    assert_eq!(channel.events.len(), 2 + 2 * 2);
    assert_eq!(
        turns(&channel)[2..],
        [
            (Some("U1".to_string()), "m1".to_string()),
            (None, "r1".to_string()),
            (Some("U3".to_string()), "m2".to_string()),
            (None, "r2".to_string())
        ]
    );
    assert_eq!(channel.events[0].msg, "old");
}

#[test]
fn failure_on_second_message_keeps_progress() {
    let (mut relay, _) = Relay::start(
        delivery(
            "C3",
            vec![
                message("R1", "U1", "one"),
                message("R2", "U1", "two"),
                message("R3", "U1", "three"),
            ],
        ),
        None,
    );
    relay.step(Outcome::Completed("reply one".to_string()));
    assert!(matches!(relay.step(Outcome::Replied), Action::Complete { .. }));
    let a = relay.step(Outcome::Failed(Failure::Completion));
    assert!(matches!(a, Action::Store));
    assert_eq!(
        turns(relay.channel()),
        vec![
            (Some("U1".to_string()), "one".to_string()),
            (None, "reply one".to_string()),
            (Some("U1".to_string()), "two".to_string())
        ]
    );
    assert!(matches!(relay.step(Outcome::Stored), Action::Fail(Failure::Completion)));
}

#[test]
fn failed_reply_is_not_recorded() {
    let (mut relay, _) = Relay::start(delivery("C5", vec![message("R1", "U1", "one")]), None);
    relay.step(Outcome::Completed("answer".to_string()));
    assert!(matches!(relay.step(Outcome::Failed(Failure::Delivery)), Action::Store));
    assert_eq!(
        turns(relay.channel()),
        vec![(Some("U1".to_string()), "one".to_string())]
    );
    assert!(matches!(relay.step(Outcome::Failed(Failure::Store)), Action::Fail(Failure::Store)));
}

#[test]
fn unexpected_outcome_repeats_request() {
    let (mut relay, _) = Relay::start(delivery("C6", vec![message("R1", "U1", "one")]), None);
    let (token, prompt) = prompt_of(&relay.step(Outcome::Replied));
    assert_eq!(token, "R1");
    assert!(prompt.ends_with("UserU1: one\n\nAI: "));
    assert_eq!(relay.channel().events.len(), 1);
}

#[test]
fn delivery_without_messages_leaves_log_alone() {
    let mut stored = Channel::empty("C4");
    stored.push(Turn::user("U1", "hi"));
    let (mut relay, a) = Relay::start(delivery("C4", vec![]), Some(stored));
    assert!(matches!(a, Action::Store));
    assert!(matches!(relay.step(Outcome::Stored), Action::Acknowledge));
    let channel = relay.finish();
    assert_eq!(channel.id, "C4");
    assert_eq!(turns(&channel), vec![(Some("U1".to_string()), "hi".to_string())]);
}

#[test]
fn failure_statuses() {
    assert_eq!(Failure::Authentication.status(), 401);
    assert_eq!(Failure::Parse.status(), 400);
    assert_eq!(Failure::Secrets.status(), 500);
    assert_eq!(Failure::Store.status(), 500);
    assert_eq!(Failure::Completion.status(), 500);
    assert_eq!(Failure::Delivery.status(), 500);
}

fn response(texts: &[&str]) -> Response {
    Response {
        id: "cmpl".to_string(),
        object: "text_completion".to_string(),
        created: 0,
        model: "m".to_string(),
        choices: texts
            .iter()
            .enumerate()
            .map(|(i, t)| Choice {
                text: t.to_string(),
                index: i,
                finish_reason: "stop".to_string(),
            })
            .collect(),
        usage: Usage {
            prompt_tokens: 1,
            completion_tokens: 1,
            total_tokens: 2,
        },
    }
}

#[test]
fn completion_takes_first_choice_trimmed() {
    assert_eq!(response(&["  hi there \n", "other"]).completion(), Ok("hi there".to_string()));
}

#[test]
fn completion_without_choices_fails() {
    assert_eq!(response(&[]).completion(), Err(Failure::Completion));
}

#[test]
fn keys_make_a_bot() {
    let keys = Keys {
        line_channel_access_token: "token".to_string(),
        line_channel_secret: "secret".to_string(),
        openai_api_key: "key".to_string(),
    };
    assert_eq!(keys.bot().access_token(), "token");
}
