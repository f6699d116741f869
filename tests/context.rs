use buddy::context::{Context, BACKGROUND};
use buddy::db::{Channel, Event};
use buddy::relay::channel_to_context;

fn expected(body: &str) -> String {
    format!("{}\n\n{}\n\nAI: ", BACKGROUND, body)
}

#[test]
fn empty_context_renders_preamble_and_cue() {
    let ctx = Context::new();
    assert_eq!(ctx.as_prompt(), expected(""));
}

#[test]
fn turns_are_separated_by_blank_lines() {
    let mut ctx = Context::new();
    ctx.speak("UserA", "hello");
    ctx.speak("AI", "hi there");
    ctx.speak("UserB", "how are you?");
    assert_eq!(
        ctx.as_prompt(),
        expected("UserA: hello\n\nAI: hi there\n\nUserB: how are you?")
    );
}

#[test]
fn rendering_twice_gives_the_same_prompt() {
    let mut ctx = Context::new();
    ctx.speak("UserA", "one");
    ctx.speak("AI", "two");
    assert_eq!(ctx.as_prompt(), ctx.as_prompt());
    let mut other = Context::new();
    other.speak("UserA", "one");
    other.speak("AI", "two");
    assert_eq!(ctx.as_prompt(), other.as_prompt());
}

#[test]
fn prompt_ends_with_cue() {
    let mut ctx = Context::new();
    assert!(ctx.as_prompt().ends_with("AI: "));
    ctx.speak("UserA", "question");
    assert!(ctx.as_prompt().ends_with("\n\nAI: "));
}

#[test]
fn channel_labels_humans_and_assistant() {
    let mut channel = Channel::empty("C1");
    channel.push(Event::user("U1", "hello"));
    channel.push(Event::ai("hi there"));
    channel.push(Event::user("U2", "hey"));
    let ctx = channel_to_context(&channel);
    assert_eq!(
        ctx.as_prompt(),
        expected("UserU1: hello\n\nAI: hi there\n\nUserU2: hey")
    );
}

#[test]
fn events_record_speaker() {
    let u = Event::user("U1", "hello");
    assert_eq!(u.user.as_deref(), Some("U1"));
    assert_eq!(u.msg, "hello");
    let a = Event::ai("hi");
    assert!(a.user.is_none());
    assert_eq!(a.msg, "hi");
    let c = Channel::empty("C9");
    assert_eq!(c.id, "C9");
    assert!(c.events.is_empty());
}
