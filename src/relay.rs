//! Turning a stored conversation and a delivery into prompts, replies and the
//! grown conversation.
//!
//! The caller drives a [`Relay`]: it does the work that each [`Action`] asks
//! for (a completion, a reply, a store write) and hands back the [`Outcome`],
//! until the relay acknowledges the delivery or fails it.

use vstd::prelude::*;
use crate::context::{Context, joined, lemma_joined_concat, prompt_of, rendered, separator, turn_lines};
use crate::db::{Channel, Event, Turn};
use crate::line;

verus! {

/// Why a delivery was not handled to the end.
#[derive(PartialEq, Eq, Structural, Clone, Copy, Debug)]
pub enum Failure {
    /// The signature header is missing or does not match the body.
    Authentication,
    /// The body is not a well-formed delivery.
    Parse,
    /// The credentials could not be fetched.
    Secrets,
    /// The conversation could not be read or written.
    Store,
    /// The completion service failed.
    Completion,
    /// A reply could not be delivered.
    Delivery,
}

impl Failure {
    /// The transport status that answers a delivery that failed this way.
    pub fn status(&self) -> (r: u16)
        ensures
            r == match *self {
                Failure::Authentication => 401u16,
                Failure::Parse => 400u16,
                _ => 500u16,
            },
    {
        match self {
            Failure::Authentication => 401,
            Failure::Parse => 400,
            _ => 500,
        }
    }
}

/// How a participant is named in a prompt: `User<id>` for a human, `AI` for the assistant.
pub open spec fn speaker_label(user: Option<Seq<char>>) -> Seq<char> {
    match user {
        Some(u) => "User"@ + u,
        None => "AI"@,
    }
}

/// The (speaker, content) pairs that a conversation's turns render as.
pub open spec fn context_turns(log: Seq<Turn>) -> Seq<(Seq<char>, Seq<char>)> {
    log.map_values(|t: Turn| (speaker_label(t.0), t.1))
}

/// The prompt for a conversation's turns.
pub open spec fn log_prompt(log: Seq<Turn>) -> Seq<char> {
    prompt_of(context_turns(log))
}

/// The turn a human message adds to a conversation.
pub open spec fn user_turn(m: (Seq<char>, Seq<char>, Seq<char>)) -> Turn {
    (Some(m.1), m.2)
}

/// The turn an assistant reply adds to a conversation.
pub open spec fn ai_turn(reply: Seq<char>) -> Turn {
    (None, reply)
}

/// The turns added by answering the first `replies.len()` messages with `replies`:
/// each message's turn followed by its reply.
pub open spec fn exchanges(
    msgs: Seq<(Seq<char>, Seq<char>, Seq<char>)>,
    replies: Seq<Seq<char>>,
) -> Seq<Turn>
    decreases replies.len(),
{
    if replies.len() == 0 {
        Seq::empty()
    } else {
        let k = replies.len() - 1;
        exchanges(msgs, replies.drop_last()) + seq![user_turn(msgs[k]), ai_turn(replies.last())]
    }
}

/// The conversation as a prompt shows it.
pub fn channel_to_context(channel: &Channel) -> (r: Context)
    ensures
        r.wf(),
        r@ == context_turns(channel@),
{
    let mut ctx = Context::new();
    let n = channel.events.len();
    let mut i: usize = 0;
    while i < n
        invariant
            n == channel.events@.len(),
            i <= n,
            ctx.wf(),
            ctx@ == context_turns(channel@.take(i as int)),
        decreases n - i,
    {
        let event = &channel.events[i];
        let user = match &event.user {
            Some(user) => {
                let mut label = String::from_str("User");
                label.append(user.as_str());
                label
            },
            None => String::from_str("AI"),
        };
        ctx.speak(user.as_str(), event.msg.as_str());
        assert(context_turns(channel@.take(i + 1)) =~= context_turns(channel@.take(i as int)).push(
            (user@, event.msg@),
        ));
        i = i + 1;
    }
    assert(channel@.take(n as int) =~= channel@);
    ctx
}

/// Where a relay stands in answering its delivery.
#[derive(PartialEq, Eq, Structural, Clone, Copy, Debug)]
pub enum Phase {
    /// A prompt is out to the completion service.
    Answering,
    /// A completion is out to the messaging platform as a reply.
    Replying,
    /// The conversation is out to the store.
    Storing,
    /// The delivery is acknowledged or failed.
    Done,
}

/// The outside work a relay asks its caller to do next.
pub enum Action {
    /// Ask the completion service to complete `prompt`.
    Complete { reply_token: String, prompt: String },
    /// Send `text` as the reply to the message with `reply_token`.
    Reply { reply_token: String, text: String },
    /// Write the conversation, as `channel` shows it, to the store.
    Store,
    /// Answer the delivery with success.
    Acknowledge,
    /// Answer the delivery with this failure.
    Fail(Failure),
}

/// What the caller's outside work came to.
pub enum Outcome {
    /// The completion service returned this text.
    Completed(String),
    /// The reply was delivered.
    Replied,
    /// The conversation was written.
    Stored,
    /// The work failed.
    Failed(Failure),
}

/// One delivery being answered against one conversation.
///
/// Messages are answered one at a time, in order: the message's turn is
/// added, the prompt for the whole conversation so far is completed, the
/// completion is sent as the reply, and only then is it added as the
/// assistant's turn. The first failure ends the answering; the conversation
/// as it then stands is stored all the same, and the delivery fails with the
/// first failure once it is stored.
pub struct Relay {
    channel: Channel,
    messages: Vec<line::Message>,
    done: usize,
    phase: Phase,
    reply_token: String,
    prompt: String,
    held: String,
    failure: Option<Failure>,
    interrupted: bool,
    base: Ghost<Seq<Turn>>,
    replies: Ghost<Seq<Seq<char>>>,
}

impl Relay {
    /// The conversation as it stands.
    pub closed spec fn log(&self) -> Seq<Turn> {
        self.channel@
    }

    /// The conversation's id.
    pub closed spec fn id(&self) -> Seq<char> {
        self.channel.id@
    }

    /// The conversation's turns before this delivery.
    pub closed spec fn base(&self) -> Seq<Turn> {
        self.base@
    }

    /// The delivery's accepted messages, in order.
    pub closed spec fn inbound(&self) -> Seq<(Seq<char>, Seq<char>, Seq<char>)> {
        self.messages@.map_values(|m: line::Message| m@)
    }

    /// The completions recorded so far, one per answered message.
    pub closed spec fn replies(&self) -> Seq<Seq<char>> {
        self.replies@
    }

    /// What the relay is waiting for.
    pub closed spec fn phase(&self) -> Phase {
        self.phase
    }

    /// The first failure met, if any.
    pub closed spec fn failure(&self) -> Option<Failure> {
        self.failure
    }

    /// The completion being sent as a reply.
    pub closed spec fn held(&self) -> Seq<char> {
        self.held@
    }

    /// Whether a completion or a reply is out.
    pub open spec fn pending(&self) -> bool {
        self.phase() == Phase::Answering || self.phase() == Phase::Replying
    }

    /// Whether the last turn is a message's that has no recorded completion:
    /// one is out, or getting or delivering it failed.
    pub closed spec fn unanswered(&self) -> bool {
        self.pending() || self.interrupted
    }

    /// The message being answered.
    pub open spec fn current(&self) -> (Seq<char>, Seq<char>, Seq<char>) {
        self.inbound()[self.replies().len() as int]
    }

    /// Whether `a` is the work that the relay asks for in its phase.
    pub open spec fn requested(&self, a: Action) -> bool {
        match self.phase() {
            Phase::Answering => a matches Action::Complete { reply_token, prompt } && reply_token@
                == self.current().0 && prompt@ == log_prompt(self.log()),
            Phase::Replying => a matches Action::Reply { reply_token, text } && reply_token@
                == self.current().0 && text@ == self.held(),
            Phase::Storing => a is Store,
            Phase::Done => match self.failure() {
                None => a is Acknowledge,
                Some(f) => a matches Action::Fail(g) && g == f,
            },
        }
    }

    pub closed spec fn wf(&self) -> bool {
        &&& self.done == self.replies@.len()
        &&& self.done <= self.messages@.len()
        &&& self.pending() ==> {
            &&& self.done < self.messages@.len()
            &&& self.failure is None
            &&& !self.interrupted
            &&& self.reply_token@ == self.messages@[self.done as int].reply_token@
        }
        &&& self.interrupted ==> self.done < self.messages@.len() && self.failure is Some
        &&& self.phase == Phase::Answering ==> self.prompt@ == log_prompt(self.channel@)
        &&& !self.pending() && self.failure is None ==> self.done == self.messages@.len()
        &&& self.channel@ == self.base@ + exchanges(self.inbound(), self.replies@) + if self.unanswered() {
            seq![user_turn(self.inbound()[self.done as int])]
        } else {
            Seq::empty()
        }
    }

    /// Takes the next message, if any: adds its turn and asks for its
    /// completion. When every message is answered, asks to store.
    fn advance(&mut self) -> (r: Action)
        requires
            old(self).done == old(self).replies@.len(),
            old(self).done <= old(self).messages@.len(),
            old(self).failure is None,
            !old(self).interrupted,
            old(self).channel@ == old(self).base@ + exchanges(old(self).inbound(), old(self).replies@),
        ensures
            final(self).wf(),
            final(self).requested(r),
            final(self).failure() is None,
            final(self).id() == old(self).id(),
            final(self).base() == old(self).base(),
            final(self).inbound() == old(self).inbound(),
            final(self).replies() == old(self).replies(),
            old(self).done < old(self).messages@.len() ==> {
                &&& final(self).phase() == Phase::Answering
                &&& final(self).log() == old(self).log().push(user_turn(final(self).current()))
            },
            old(self).done >= old(self).messages@.len() ==> {
                &&& final(self).phase() == Phase::Storing
                &&& final(self).log() == old(self).log()
            },
    {
        if self.done >= self.messages.len() {
            self.phase = Phase::Storing;
            assert(self.channel@ =~= self.base@ + exchanges(self.inbound(), self.replies@) + Seq::empty());
            return Action::Store;
        }
        let m = &self.messages[self.done];
        self.reply_token = m.reply_token.clone();
        self.channel.push(Event::user(m.user.as_str(), m.text.as_str()));
        self.prompt = channel_to_context(&self.channel).as_prompt();
        self.phase = Phase::Answering;
        assert(self.channel@ =~= self.base@ + exchanges(self.inbound(), self.replies@) + seq![
            user_turn(self.inbound()[self.done as int]),
        ]);
        Action::Complete { reply_token: self.reply_token.clone(), prompt: self.prompt.clone() }
    }

    /// The work asked for in the current phase, asked again.
    fn repeat(&self) -> (r: Action)
        requires
            self.wf(),
        ensures
            self.requested(r),
    {
        match self.phase {
            Phase::Answering => Action::Complete {
                reply_token: self.reply_token.clone(),
                prompt: self.prompt.clone(),
            },
            Phase::Replying => Action::Reply { reply_token: self.reply_token.clone(), text: self.held.clone() },
            Phase::Storing => Action::Store,
            Phase::Done => match self.failure {
                None => Action::Acknowledge,
                Some(f) => Action::Fail(f),
            },
        }
    }

    /// Starts on a delivery, against the stored conversation or, when there is
    /// none, an empty one with the delivery's conversation id, and asks for
    /// the first work.
    pub fn start(event: line::Event, stored: Option<Channel>) -> (r: (Relay, Action))
        ensures
            r.0.wf(),
            r.0.requested(r.1),
            r.0.failure() is None,
            r.0.replies() == Seq::<Seq<char>>::empty(),
            r.0.inbound() == event.messages@.map_values(|m: line::Message| m@),
            r.0.base() == match stored {
                Some(c) => c@,
                None => Seq::<Turn>::empty(),
            },
            r.0.id() == match stored {
                Some(c) => c.id@,
                None => event.channel_id@,
            },
            r.0.inbound().len() > 0 ==> {
                &&& r.0.phase() == Phase::Answering
                &&& r.0.log() == r.0.base().push(user_turn(r.0.inbound()[0]))
            },
            r.0.inbound().len() == 0 ==> {
                &&& r.0.phase() == Phase::Storing
                &&& !r.0.unanswered()
                &&& r.0.log() == r.0.base()
            },
    {
        let channel = match stored {
            Some(c) => c,
            None => Channel::empty(event.channel_id.as_str()),
        };
        let mut r = Relay {
            channel,
            messages: event.messages,
            done: 0,
            phase: Phase::Storing,
            reply_token: String::new(),
            prompt: String::new(),
            held: String::new(),
            failure: None,
            interrupted: false,
            base: Ghost(channel@),
            replies: Ghost(Seq::empty()),
        };
        assert(r.channel@ =~= r.base@ + exchanges(r.inbound(), r.replies@));
        let a = r.advance();
        (r, a)
    }

    /// Takes what the outside work came to and asks for the next work.
    ///
    /// A completion is sent as the reply; a delivered reply is recorded and
    /// the next message taken; a failure while answering ends the answering
    /// and asks to store; once stored, the delivery is acknowledged, or fails
    /// with the first failure. An outcome that does not answer the work asked
    /// for changes nothing, and that work is asked for again.
    pub fn step(&mut self, outcome: Outcome) -> (r: Action)
        requires
            old(self).wf(),
        ensures
            final(self).wf(),
            final(self).requested(r),
            final(self).id() == old(self).id(),
            final(self).base() == old(self).base(),
            final(self).inbound() == old(self).inbound(),
            old(self).phase() == Phase::Answering && outcome is Completed ==> {
                &&& final(self).phase() == Phase::Replying
                &&& final(self).held() == outcome->Completed_0@
                &&& final(self).log() == old(self).log()
                &&& final(self).replies() == old(self).replies()
                &&& final(self).failure() is None
            },
            old(self).phase() == Phase::Replying && outcome is Replied ==> {
                let log = old(self).log().push(ai_turn(old(self).held()));
                &&& final(self).replies() == old(self).replies().push(old(self).held())
                &&& final(self).failure() is None
                &&& if final(self).replies().len() < final(self).inbound().len() {
                    &&& final(self).phase() == Phase::Answering
                    &&& final(self).log() == log.push(user_turn(final(self).current()))
                } else {
                    &&& final(self).phase() == Phase::Storing
                    &&& !final(self).unanswered()
                    &&& final(self).log() == log
                }
            },
            old(self).pending() && outcome is Failed ==> {
                &&& final(self).phase() == Phase::Storing
                &&& final(self).failure() == Some(outcome->Failed_0)
                &&& final(self).unanswered()
                &&& final(self).log() == old(self).log()
                &&& final(self).replies() == old(self).replies()
            },
            old(self).phase() == Phase::Storing && outcome is Stored ==> {
                &&& final(self).phase() == Phase::Done
                &&& final(self).unanswered() == old(self).unanswered()
                &&& final(self).failure() == old(self).failure()
                &&& final(self).log() == old(self).log()
            },
            old(self).phase() == Phase::Storing && outcome is Failed ==> {
                &&& final(self).phase() == Phase::Done
                &&& final(self).unanswered() == old(self).unanswered()
                &&& final(self).failure() == Some(outcome->Failed_0)
                &&& final(self).log() == old(self).log()
            },
            !(old(self).phase() == Phase::Answering && outcome is Completed) && !(old(self).phase()
                == Phase::Replying && outcome is Replied) && !(old(self).phase() != Phase::Done
                && outcome is Failed) && !(old(self).phase() == Phase::Storing && outcome is Stored)
                ==> {
                &&& final(self).phase() == old(self).phase()
                &&& final(self).unanswered() == old(self).unanswered()
                &&& final(self).failure() == old(self).failure()
                &&& final(self).held() == old(self).held()
                &&& final(self).log() == old(self).log()
                &&& final(self).replies() == old(self).replies()
            },
    {
        match (self.phase, outcome) {
            (Phase::Answering, Outcome::Completed(text)) => {
                self.held = text;
                self.phase = Phase::Replying;
                Action::Reply { reply_token: self.reply_token.clone(), text: self.held.clone() }
            },
            (Phase::Replying, Outcome::Replied) => {
                let count = self.messages.len();
                assert(self.done < count);
                self.channel.push(Event::ai(self.held.as_str()));
                self.replies = Ghost(self.replies@.push(self.held@));
                self.done = self.done + 1;
                assert(self.replies@.drop_last() =~= old(self).replies@);
                assert(self.channel@ =~= self.base@ + exchanges(self.inbound(), self.replies@));
                self.advance()
            },
            (Phase::Answering, Outcome::Failed(f)) | (Phase::Replying, Outcome::Failed(f)) => {
                self.failure = Some(f);
                self.interrupted = true;
                self.phase = Phase::Storing;
                Action::Store
            },
            (Phase::Storing, Outcome::Stored) => {
                self.phase = Phase::Done;
                self.repeat()
            },
            (Phase::Storing, Outcome::Failed(f)) => {
                self.failure = Some(f);
                self.phase = Phase::Done;
                Action::Fail(f)
            },
            _ => self.repeat(),
        }
    }

    /// The conversation as it stands: the one to store when asked to.
    pub fn channel(&self) -> (r: &Channel)
        requires
            self.wf(),
        ensures
            r@ == self.log(),
            r.id@ == self.id(),
    {
        &self.channel
    }

    /// The conversation, whether or not every message was answered.
    pub fn finish(self) -> (r: Channel)
        requires
            self.wf(),
        ensures
            r@ == self.log(),
            r.id@ == self.id(),
    {
        self.channel
    }
}

/// The turns that answering messages adds: two per answered message, the
/// message's turn and then its reply, in message order.
pub proof fn lemma_exchanges_shape(msgs: Seq<(Seq<char>, Seq<char>, Seq<char>)>, replies: Seq<Seq<char>>)
    requires
        replies.len() <= msgs.len(),
    ensures
        exchanges(msgs, replies).len() == 2 * replies.len(),
        forall|i: int|
            0 <= i < replies.len() ==> exchanges(msgs, replies)[2 * i] == user_turn(msgs[i])
                && exchanges(msgs, replies)[2 * i + 1] == ai_turn(replies[i]),
    decreases replies.len(),
{
    if replies.len() > 0 {
        let d = replies.drop_last();
        lemma_exchanges_shape(msgs, d);
        let k = replies.len() - 1;
        assert forall|i: int| 0 <= i < replies.len() implies exchanges(msgs, replies)[2 * i] == user_turn(msgs[i])
            && exchanges(msgs, replies)[2 * i + 1] == ai_turn(replies[i]) by {
            if i < k {
                assert(d[i] == replies[i]);
            }
        }
    }
}

/// What the conversation of a well-formed relay holds: the stored turns, two
/// turns for each answered message, and the turn of the message being answered.
pub proof fn lemma_relay_log(r: &Relay)
    requires
        r.wf(),
    ensures
        r.replies().len() <= r.inbound().len(),
        r.unanswered() ==> r.replies().len() < r.inbound().len(),
        r.pending() ==> r.unanswered(),
        !r.unanswered() && r.failure() is None ==> r.replies().len() == r.inbound().len(),
        r.log() == r.base() + exchanges(r.inbound(), r.replies()) + if r.unanswered() {
            seq![user_turn(r.inbound()[r.replies().len() as int])]
        } else {
            Seq::empty()
        },
{
}

/// Append-only growth: when no message is left unanswered, the conversation
/// is the stored turns, unchanged, followed by exactly two turns per answered
/// message, the human's and then the assistant's; absent failures, every
/// message of the delivery has been answered.
pub proof fn lemma_append_only(r: &Relay)
    requires
        r.wf(),
        !r.unanswered(),
    ensures
        r.failure() is None ==> r.replies().len() == r.inbound().len(),
        r.log().len() == r.base().len() + 2 * r.replies().len(),
        r.log().take(r.base().len() as int) == r.base(),
        forall|i: int|
            0 <= i < r.replies().len() ==> r.log()[r.base().len() + 2 * i] == user_turn(r.inbound()[i])
                && r.log()[r.base().len() + 2 * i + 1] == ai_turn(r.replies()[i]),
{
    lemma_relay_log(r);
    lemma_exchanges_shape(r.inbound(), r.replies());
    let b = r.base();
    let e = exchanges(r.inbound(), r.replies());
    assert(r.log() =~= b + e);
    assert((b + e).take(b.len() as int) =~= b);
    assert forall|i: int| 0 <= i < r.replies().len() implies r.log()[b.len() + 2 * i] == user_turn(r.inbound()[i])
        && r.log()[b.len() + 2 * i + 1] == ai_turn(r.replies()[i]) by {
        assert(r.log()[b.len() + 2 * i] == e[2 * i]);
        assert(r.log()[b.len() + 2 * i + 1] == e[2 * i + 1]);
    }
}

/// A failure while a message is being answered keeps what was done: the
/// conversation holds the stored turns, the exchanges of the answered
/// messages, and the turn of the failing message, and nothing of the
/// messages after it.
pub proof fn lemma_abort_keeps_progress(r: &Relay)
    requires
        r.wf(),
        r.unanswered(),
    ensures
        r.log() == (r.base() + exchanges(r.inbound(), r.replies())).push(
            user_turn(r.inbound()[r.replies().len() as int]),
        ),
        r.log().len() == r.base().len() + 2 * r.replies().len() + 1,
{
    lemma_relay_log(r);
    lemma_exchanges_shape(r.inbound(), r.replies());
    assert(r.log() =~= (r.base() + exchanges(r.inbound(), r.replies())).push(
        user_turn(r.inbound()[r.replies().len() as int]),
    ));
}

/// Context only grows: the prompt for a longer conversation starts with the
/// rendering of the shorter one, followed by the turns added since.
pub proof fn lemma_context_grows(a: Seq<Turn>, b: Seq<Turn>)
    requires
        a.len() > 0,
    ensures
        b.len() > 0 ==> rendered(context_turns(a + b)) == rendered(context_turns(a)) + separator()
            + joined(turn_lines(context_turns(b))),
        rendered(context_turns(a)).is_prefix_of(log_prompt(a + b)),
{
    let x = turn_lines(context_turns(a));
    let y = turn_lines(context_turns(b));
    assert(turn_lines(context_turns(a + b)) =~= x + y);
    let p = log_prompt(a + b);
    let ra = rendered(context_turns(a));
    if b.len() > 0 {
        lemma_joined_concat(x, y);
        assert(rendered(context_turns(a + b)) =~= ra + separator() + joined(y));
        assert(p.subrange(0, ra.len() as int) =~= ra);
    } else {
        assert(a + b =~= a);
        assert(p.subrange(0, ra.len() as int) =~= ra);
    }
}

} // verus!
