//! The completion service's answer, and the one completion text taken from it.

use vstd::prelude::*;
use crate::relay::Failure;

verus! {

/// One candidate completion.
pub struct Choice {
    pub text: String,
    pub index: usize,
    pub finish_reason: String,
}

/// Token counts the service reports.
pub struct Usage {
    pub prompt_tokens: usize,
    pub completion_tokens: usize,
    pub total_tokens: usize,
}

/// The service's answer to one completion request.
pub struct Response {
    pub id: String,
    pub object: String,
    pub created: u64,
    pub model: String,
    pub choices: Vec<Choice>,
    pub usage: Usage,
}

/// The text without its leading and trailing whitespace.
pub uninterp spec fn trimmed(s: Seq<char>) -> Seq<char>;

/// Relies on str::trim: the text with leading and trailing whitespace removed,
/// which depends on the text alone.
#[verifier::external_body]
fn trim_text(s: &str) -> (r: String)
    ensures
        r@ == trimmed(s@),
{
    s.trim().to_owned()
}

impl Response {
    /// The first candidate's text, trimmed; a `Completion` failure when the
    /// service offered no candidate.
    pub fn completion(&self) -> (r: Result<String, Failure>)
        ensures
            self.choices@.len() == 0 ==> r == Err::<String, Failure>(Failure::Completion),
            self.choices@.len() > 0 ==> (r matches Ok(t) && t@ == trimmed(self.choices@[0].text@)),
    {
        if self.choices.len() == 0 {
            return Err(Failure::Completion);
        }
        Ok(trim_text(self.choices[0].text.as_str()))
    }
}

} // verus!
