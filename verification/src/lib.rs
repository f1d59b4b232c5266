//! Game rules of the Rustwater fishing world: deterministic rolls, the accelerated world clock,
//! fishing mechanics, content validation, callback payloads, the encounter lifecycle, the tackle
//! economy, exploration, progression, group shoals, inline sharing, and per-chat karma ratings.
//!
//! Storage and transport stay outside: each gameplay action here takes what a transaction read
//! and returns either the refusal or the plan to write, with the view to show.

pub mod angling;
pub mod callback;
pub mod character;
pub mod chat;
pub mod clock;
pub mod config;
pub mod content;
pub mod economy;
pub mod error;
pub mod exploration;
pub mod fishing;
pub mod ids;
pub mod panels;
pub mod progression;
pub mod ratings;
pub mod rng;
pub mod sharing;
pub mod social;
pub mod sort;
pub mod text;
pub mod view;
pub mod world;
