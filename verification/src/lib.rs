//! The verified core of a bot that posts room invitations into chat channels.
//!
//! A user asks the bot to invite others to a game room. The bot posts a
//! message with two controls: one hands the room link to whoever clicks it
//! and records the click as an answer, the other lets the author delete the
//! message. A moderator can export the answers to an invitation. Channels
//! with slow mode hold a sender back between two invitations.
//!
//! This library decides; it performs nothing. Whoever runs it owns the chat
//! connection, the store and the cache, carries out each [`protocol::Action`]
//! and reports each [`protocol::Event`].
//!
//! - [`flow`] is the lifecycle itself, as a state machine.
//! - [`protocol`] holds the actions, the events and the stored records.
//! - [`codec`] writes and reads the identifiers that the controls carry.
//! - [`cooldown`] is the policy of the slow mode and the key it is kept under.
//! - [`room`] tells room codes and room links from anything else.
//! - [`export`] writes the answers out as comma-separated text.
//! - [`config`] checks that the addresses of store and cache are given.
//! - [`model`] states what is relied on of store and cache, and what follows.
//! - [`decimal`] and [`text`] are the string operations underneath.

pub mod codec;
pub mod config;
pub mod cooldown;
pub mod decimal;
pub mod export;
pub mod flow;
pub mod model;
pub mod protocol;
pub mod room;
pub mod text;
