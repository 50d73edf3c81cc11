//! Narration core of a voice-reading chat bot.
//!
//! The crate turns chat messages and join/leave greetings into narration
//! requests, rewrites their text with a pronunciation dictionary, picks the
//! voice to read them with, and sequences them per guild so that utterances
//! are spoken one at a time and in arrival order. It also holds the presence
//! rules that decide when the bot greets a member or leaves an empty channel.
//!
//! Everything here is plain data in, plain data out: gateway events, storage
//! and audio transport belong to the program that embeds this crate.

pub mod text;
pub mod generator;
pub mod voice;
pub mod request;
pub mod command;
pub mod control;
pub mod session;
pub mod registry;
pub mod presence;
pub mod dictionary;
pub mod normalizer;
pub mod json;
pub mod synthesis;
