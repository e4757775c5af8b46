//! Verified core of a voice-discussion analysis bot: analysis modes, guild
//! settings, configuration, audio bookkeeping and WAV encoding, and the
//! decisions taken while recording and reporting.

pub mod text;
pub mod number;
pub mod mode;
pub mod settings;
pub mod wav;
pub mod recorder;
pub mod processor;
pub mod analyzer;
pub mod config;
pub mod session;
pub mod commands;
pub mod bot;
