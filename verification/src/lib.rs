//! A small HTTP chat service around a hosted-model agent: the verified parts.
//!
//! The service forwards a free-text prompt to an agent that may call a remote
//! weather tool, and returns the agent's answer as the response body. What
//! can be stated and checked lives here: how the configuration is assembled
//! from the environment and when startup must abort instead of listening
//! ([`config`]), how each agent outcome becomes the response and how a failed
//! invocation is folded into the answer text ([`chat`]), and the fixed wiring
//! values the service is built with ([`settings`]).

pub mod chat;
pub mod config;
pub mod settings;
