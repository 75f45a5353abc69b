//! Verified dispatch core of a group-chat moderation bot.
//!
//! The bot watches a chat for platform-generated service messages
//! (member joined/left, chat created, message pinned) and deletes them,
//! and answers two user commands, `/start` and `/help`.  Everything the
//! bot decides — how an inbound update is classified, which outbound
//! calls follow, and the exact texts and link it sends — is computed and
//! proved here.  The network shell around it only performs the calls
//! this library plans.

pub mod command;
pub mod laws;
pub mod reply;
pub mod router;
pub mod texts;
pub mod update;
