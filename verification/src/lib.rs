//! Core of an event-driven chat-moderation bot.
//!
//! The crate models the orchestration engine of the bot: typed events fan
//! out to registered handlers, commands run through a cooldown-gated job
//! queue, and an interactive ban workflow drives a per-user session with
//! timeout and cancellation.  Everything here is plain data and decisions;
//! the asynchronous shell that talks to the chat platform lives outside and
//! feeds these functions with plain values.

pub mod commands;
pub mod cooldown;
pub mod dispatch;
pub mod encryption;
pub mod errors;
pub mod events;
pub mod facts;
pub mod patreon;
pub mod render;
pub mod router;
pub mod session;
pub mod strutil;
pub mod translation;
pub mod webhook;
pub mod wip;
pub mod workflow;
