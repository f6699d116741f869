//! The messaging gateway's inbound half: authenticating a delivery and
//! picking out the text messages that human participants sent.

use vstd::prelude::*;
use vstd::utf8::{decode_utf8, valid_utf8};
use crate::relay::Failure;

verus! {

/// One text message from a human participant, with the token to answer it by.
pub struct Message {
    pub reply_token: String,
    pub user: String,
    pub text: String,
}

impl View for Message {
    type V = (Seq<char>, Seq<char>, Seq<char>);

    /// (reply token, participant id, text).
    open spec fn view(&self) -> (Seq<char>, Seq<char>, Seq<char>) {
        (self.reply_token@, self.user@, self.text@)
    }
}

/// A parsed delivery: the conversation it belongs to and its accepted messages, in order.
pub struct Event {
    pub channel_id: String,
    pub messages: Vec<Message>,
}

/// Who sent an inbound event.
pub enum Sender {
    /// A human participant, with the id the platform gave, if any.
    User(Option<String>),
    /// A group, a room, or a kind of source this library does not know.
    Other,
}

/// What an inbound message event carries.
pub enum Content {
    Text(String),
    /// An image, a sticker, a location, or any other kind of content.
    Other,
}

/// One event of a delivery, as the platform describes it.
pub enum InboundEvent {
    Message { reply_token: Option<String>, sender: Option<Sender>, content: Content },
    /// A follow, a join, a postback, or any other kind of event.
    Other,
}

/// The message that an event yields, if it is a text message from an identified
/// human participant that can be answered.
pub open spec fn accepted(e: InboundEvent) -> Option<(Seq<char>, Seq<char>, Seq<char>)> {
    match e {
        InboundEvent::Message {
            reply_token: Some(token),
            sender: Some(Sender::User(Some(user))),
            content: Content::Text(text),
        } => Some((token@, user@, text@)),
        _ => None,
    }
}

/// The messages that a sequence of events yields, in order.
pub open spec fn accepted_messages(events: Seq<InboundEvent>) -> Seq<(Seq<char>, Seq<char>, Seq<char>)>
    decreases events.len(),
{
    if events.len() == 0 {
        Seq::empty()
    } else {
        let rest = accepted_messages(events.drop_last());
        match accepted(events.last()) {
            Some(m) => rest.push(m),
            None => rest,
        }
    }
}

/// Whether `signature` is the channel's signature of `body` under `secret`.
pub uninterp spec fn signature_matches(secret: Seq<char>, signature: Seq<char>, body: Seq<char>) -> bool;

/// Relies on line_bot_sdk_rust::parser::signature::validate_signature, the
/// platform's HMAC-SHA256 check: its answer depends on its three arguments alone.
#[verifier::external_body]
fn validate(secret: &str, signature: &str, body: &str) -> (r: bool)
    ensures
        r == signature_matches(secret@, signature@, body@),
{
    line_bot_sdk_rust::parser::signature::validate_signature(secret, signature, body)
}

/// Relies on std::str::from_utf8: it succeeds exactly on valid UTF-8, and then
/// yields the characters that the bytes encode.
#[verifier::external_body]
fn utf8_text(body: &[u8]) -> (r: Option<String>)
    ensures
        r.is_some() == valid_utf8(body@),
        r matches Some(s) ==> s@ == decode_utf8(body@),
{
    match std::str::from_utf8(body) {
        Ok(s) => Some(s.to_owned()),
        Err(_) => None,
    }
}

/// The accepted messages of `events`, in order.
pub fn filter_messages(events: &Vec<InboundEvent>) -> (r: Vec<Message>)
    ensures
        r@.map_values(|m: Message| m@) == accepted_messages(events@),
{
    let mut r: Vec<Message> = Vec::new();
    let n = events.len();
    let mut i: usize = 0;
    while i < n
        invariant
            n == events@.len(),
            i <= n,
            r@.map_values(|m: Message| m@) == accepted_messages(events@.take(i as int)),
        decreases n - i,
    {
        let ghost before = r@;
        assert(events@.take(i + 1).drop_last() =~= events@.take(i as int));
        match &events[i] {
            InboundEvent::Message {
                reply_token: Some(token),
                sender: Some(Sender::User(Some(user))),
                content: Content::Text(text),
            } => {
                let m = Message { reply_token: token.clone(), user: user.clone(), text: text.clone() };
                r.push(m);
                assert(r@.map_values(|m: Message| m@) =~= before.map_values(|m: Message| m@).push(m@));
            },
            _ => {},
        }
        i = i + 1;
    }
    assert(events@.take(n as int) =~= events@);
    r
}

/// The inbound half of the messaging gateway for one channel.
pub struct Bot {
    channel_secret: String,
    access_token: String,
}

impl Bot {
    pub closed spec fn secret(&self) -> Seq<char> {
        self.channel_secret@
    }

    pub closed spec fn token(&self) -> Seq<char> {
        self.access_token@
    }

    pub fn new(channel_secret: &str, access_token: &str) -> (r: Bot)
        ensures
            r.secret() == channel_secret@,
            r.token() == access_token@,
    {
        Bot { channel_secret: channel_secret.to_owned(), access_token: access_token.to_owned() }
    }

    /// The token with which replies are sent.
    pub fn access_token(&self) -> (r: &str)
        ensures
            r@ == self.token(),
    {
        self.access_token.as_str()
    }

    /// Authenticates a delivery: the body as text, if the signature header is
    /// present, the body is UTF-8, and the signature matches the body.
    pub fn verify(&self, signature: Option<&str>, body: &[u8]) -> (r: Result<String, Failure>)
        ensures
            signature.is_none() ==> r == Err::<String, Failure>(Failure::Authentication),
            signature.is_some() && !valid_utf8(body@) ==> r == Err::<String, Failure>(Failure::Parse),
            signature matches Some(s) ==> (valid_utf8(body@) ==> if signature_matches(
                self.secret(),
                s@,
                decode_utf8(body@),
            ) {
                r matches Ok(text) && text@ == decode_utf8(body@)
            } else {
                r == Err::<String, Failure>(Failure::Authentication)
            }),
    {
        let signature = match signature {
            Some(s) => s,
            None => return Err(Failure::Authentication),
        };
        let text = match utf8_text(body) {
            Some(t) => t,
            None => return Err(Failure::Parse),
        };
        if validate(self.channel_secret.as_str(), signature, text.as_str()) {
            Ok(text)
        } else {
            Err(Failure::Authentication)
        }
    }

    /// The delivery for conversation `destination` made of the accepted messages of `events`.
    pub fn parse(&self, destination: &str, events: &Vec<InboundEvent>) -> (r: Event)
        ensures
            r.channel_id@ == destination@,
            r.messages@.map_values(|m: Message| m@) == accepted_messages(events@),
    {
        Event { channel_id: destination.to_owned(), messages: filter_messages(events) }
    }
}

} // verus!
