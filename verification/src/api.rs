//! Request-handling layer: the chat-completion schema and the
//! deterministic part of the endpoint's logic.

pub mod openai;
