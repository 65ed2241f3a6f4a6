//! Account links between a chat platform and outside content sources:
//! which content counts as new, when a link becomes trusted, and how chat
//! commands change the set of links.
//!
//! A [`link::UserInfo`] binds a user in a chat to a user at a content
//! source. [`link::UserInfo::poll`] takes in what one poll of the source
//! fetched: it moves the link's mark, verifies the link once the challenge
//! phrase shows up, and tells what is new. The [`registry::LinkRegistry`]
//! holds the live links; [`reconciler`] carries out the commands that come
//! from a chat. Everything that touches the network, the clock or the store
//! is left to the caller, who hands in what was fetched and carries out what
//! is owed.

pub mod adapter;
pub mod calendar;
pub mod comment;
pub mod error;
pub mod link;
pub mod lor_ru;
pub mod mankier;
pub mod matrix_org;
pub mod reconciler;
pub mod registry;
pub mod text;
pub mod timestamp;
pub mod update;
