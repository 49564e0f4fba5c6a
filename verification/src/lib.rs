//! Decision core of a chat-platform pin bot.
//!
//! The library holds everything the bot decides: how each inbound gateway
//! event is classified, when a pinned-message announcement is suppressed,
//! the linear state machine of one command invocation (guild check, command
//! resolution, deferral, action, exactly one follow-up), and the exact text
//! of every user-visible string. The surrounding binary performs the network
//! calls and feeds results back in as plain values.

pub mod text;
pub mod handler;
pub mod dispatch;
