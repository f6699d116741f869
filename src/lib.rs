//! A conversational relay: a per-conversation transcript is rendered into a
//! prompt, each inbound message is answered in turn, and the grown transcript
//! is handed back for storage.

pub mod context;
pub mod db;
pub mod line;
pub mod openai;
pub mod relay;
pub mod secrets;
