//! Rendering a transcript into a prompt for the completion service.

use vstd::prelude::*;
use vstd::string::StringExecFns;

verus! {

/// The persona text that opens every prompt.
pub const BACKGROUND: &'static str = "
The following is a chat conversation with an AI friend and some people.
The AI friend is very friendly.";

/// The blank line that separates the parts of a prompt.
pub open spec fn separator() -> Seq<char> {
    "\n\n"@
}

/// The trailing cue that asks the completion service to answer as the assistant.
pub open spec fn cue() -> Seq<char> {
    "AI: "@
}

/// One turn as it appears in a prompt: `<speaker>: <content>`.
pub open spec fn turn_line(speaker: Seq<char>, content: Seq<char>) -> Seq<char> {
    speaker + ": "@ + content
}

/// The lines joined in order, with a blank line between two neighbours.
pub open spec fn joined(lines: Seq<Seq<char>>) -> Seq<char>
    decreases lines.len(),
{
    if lines.len() == 0 {
        Seq::empty()
    } else if lines.len() == 1 {
        lines[0]
    } else {
        joined(lines.drop_last()) + separator() + lines.last()
    }
}

/// The lines of a sequence of (speaker, content) turns.
pub open spec fn turn_lines(turns: Seq<(Seq<char>, Seq<char>)>) -> Seq<Seq<char>> {
    turns.map_values(|t: (Seq<char>, Seq<char>)| turn_line(t.0, t.1))
}

/// The preamble and the rendered turns, without the trailing cue.
pub open spec fn rendered(turns: Seq<(Seq<char>, Seq<char>)>) -> Seq<char> {
    BACKGROUND@ + separator() + joined(turn_lines(turns))
}

/// The full prompt for a sequence of turns.
pub open spec fn prompt_of(turns: Seq<(Seq<char>, Seq<char>)>) -> Seq<char> {
    rendered(turns) + separator() + cue()
}

/// One attributed line of a conversation, as the prompt shows it.
pub struct Message {
    speaker: String,
    content: String,
}

impl Message {
    fn new(speaker: &str, content: &str) -> (r: Message)
        ensures
            r.speaker@ == speaker@,
            r.content@ == content@,
    {
        Message { speaker: speaker.to_owned(), content: content.to_owned() }
    }
}

/// The persona preamble and the turns, in order, that a prompt is made of.
pub struct Context {
    background: String,
    messages: Vec<Message>,
}

impl View for Context {
    type V = Seq<(Seq<char>, Seq<char>)>;

    /// The (speaker, content) pairs in order.
    closed spec fn view(&self) -> Seq<(Seq<char>, Seq<char>)> {
        self.messages@.map_values(|m: Message| (m.speaker@, m.content@))
    }
}

impl Context {
    /// The preamble is the persona text.
    pub closed spec fn wf(&self) -> bool {
        self.background@ == BACKGROUND@
    }

    /// A context with the persona preamble and no turns.
    pub fn new() -> (r: Context)
        ensures
            r.wf(),
            r@ == Seq::<(Seq<char>, Seq<char>)>::empty(),
    {
        let r = Context { background: String::from_str(BACKGROUND), messages: Vec::new() };
        assert(r@ =~= Seq::<(Seq<char>, Seq<char>)>::empty());
        r
    }

    /// Adds a turn at the end.
    pub fn speak(&mut self, speaker: &str, content: &str)
        ensures
            final(self).wf() == old(self).wf(),
            final(self)@ == old(self)@.push((speaker@, content@)),
    {
        self.messages.push(Message::new(speaker, content));
        assert(self@ =~= old(self)@.push((speaker@, content@)));
    }

    /// The prompt: the preamble, each turn on its own paragraph, then the cue.
    pub fn as_prompt(&self) -> (r: String)
        requires
            self.wf(),
        ensures
            r@ == prompt_of(self@),
    {
        let mut body = String::new();
        let n = self.messages.len();
        let mut i: usize = 0;
        while i < n
            invariant
                n == self.messages@.len(),
                i <= n,
                body@ == joined(turn_lines(self@.take(i as int))),
            decreases n - i,
        {
            let m = &self.messages[i];
            if i > 0 {
                body.append("\n\n");
            }
            body.append(m.speaker.as_str());
            body.append(": ");
            body.append(m.content.as_str());
            proof {
                let prev = turn_lines(self@.take(i as int));
                let next = turn_lines(self@.take(i + 1));
                assert(next.drop_last() =~= prev);
                assert(next.last() == turn_line(m.speaker@, m.content@));
                if i == 0 {
                    assert(prev.len() == 0);
                    assert(body@ =~= next.last());
                } else {
                    assert(body@ =~= joined(prev) + separator() + next.last());
                }
            }
            i = i + 1;
        }
        assert(self@.take(n as int) =~= self@);
        let mut out = String::from_str(BACKGROUND);
        out.append("\n\n");
        out.append(body.as_str());
        out.append("\n\nAI: ");
        proof {
            reveal_strlit("\n\n");
            reveal_strlit("AI: ");
            reveal_strlit("\n\nAI: ");
        }
        assert(out@ =~= prompt_of(self@));
        out
    }
}

/// Rendering is a function of the turns alone: two contexts with the same turns
/// give the same prompt.
pub proof fn lemma_prompt_deterministic(a: Context, b: Context)
    requires
        a@ == b@,
    ensures
        prompt_of(a@) == prompt_of(b@),
{
}

/// Every prompt ends with the cue `AI: `.
pub proof fn lemma_prompt_ends_with_cue(turns: Seq<(Seq<char>, Seq<char>)>)
    ensures
        cue().is_suffix_of(prompt_of(turns)),
{
    let p = prompt_of(turns);
    assert(p.subrange(p.len() - cue().len(), p.len() as int) =~= cue());
}

/// Joining two non-empty runs of lines joins their joins with one blank line.
pub proof fn lemma_joined_concat(x: Seq<Seq<char>>, y: Seq<Seq<char>>)
    requires
        x.len() > 0,
        y.len() > 0,
    ensures
        joined(x + y) == joined(x) + separator() + joined(y),
    decreases y.len(),
{
    assert((x + y).drop_last() =~= x + y.drop_last());
    assert((x + y).last() == y.last());
    if y.len() == 1 {
        assert(x + y.drop_last() =~= x);
    } else {
        lemma_joined_concat(x, y.drop_last());
        assert(joined(x + y) =~= joined(x) + separator() + joined(y));
    }
}

} // verus!
