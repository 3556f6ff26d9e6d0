//! The logic of a chat moderation bot, verified with Verus.
//!
//! The heart of it is the purge: scan a channel's history backward for
//! messages that match a pattern within a recency window ([`scanner`],
//! [`window`]), delete what was selected, in batches where the platform
//! allows it ([`executor`], [`snowflake`]), and report ([`text`]). A
//! [`purge::Purge`] runs the two phases as a state machine that a driver
//! feeds with what the platform answered. Around it stand the checks on a
//! request ([`request`], [`pattern`]) and the replies of the suggestion
//! commands ([`suggestions`], [`storage`]).

pub mod clock;
pub mod error;
pub mod executor;
pub mod message;
pub mod pattern;
pub mod purge;
pub mod request;
pub mod scanner;
pub mod snowflake;
pub mod storage;
pub mod suggestions;
pub mod text;
pub mod window;
