//! The credentials a delivery needs.

use vstd::prelude::*;

verus! {

/// The gateway's channel secret and access token, and the completion service's key.
pub struct Keys {
    pub line_channel_access_token: String,
    pub line_channel_secret: String,
    pub openai_api_key: String,
}

impl Keys {
    /// The gateway for these credentials.
    pub fn bot(&self) -> (r: crate::line::Bot)
        ensures
            r.secret() == self.line_channel_secret@,
            r.token() == self.line_channel_access_token@,
    {
        crate::line::Bot::new(self.line_channel_secret.as_str(), self.line_channel_access_token.as_str())
    }
}

} // verus!
