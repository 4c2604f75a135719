//! Identity verification and role reconciliation for a chat community.
//!
//! The crate links a chat-platform identity to a game-account identity:
//! a claimed username is resolved to a canonical account id, the account's
//! profile attributes (rank tier, linked identity, guild) are fetched and
//! classified, the linked identity is matched against the requester's own
//! tag, and a minimal set of role grants, revocations and a nickname change
//! is computed and applied step by step.  The pipeline is driven as a state
//! machine: callers perform the remote calls and feed each outcome back as
//! an event, while every decision in between is made here.

pub mod digits;
pub mod json;
pub mod message_counting;
pub mod message_leaderboard;
pub mod message_lookup;
pub mod messages;
pub mod profile;
pub mod rank;
pub mod roles;
pub mod set_guild;
pub mod text;
pub mod verify;
