//! Core logic of a chat bot that ranks a user's board games.
//!
//! The bot answers three commands: a help listing, a per-game info stub,
//! and a "top ten rated games" ranking fetched from an external collection
//! service. Everything that can be stated and proved lives here: the
//! descending sort over optional ratings, the ten-entry cut, the reply
//! formatting, the query parameters, and the routing of service errors to
//! user-facing messages. The network and chat-platform plumbing sits outside
//! this crate's verified core.

pub mod collection;
pub mod commands;
pub mod numfmt;
pub mod query;
pub mod render;
