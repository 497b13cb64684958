//! Per-guild voice session lifecycle and command dispatch for a music bot.
//!
//! The library holds every decision the bot makes: which guild has a voice
//! session, which track is current in it, when a track's completion is
//! announced, and what each command does to that state. The side that talks
//! to the chat platform performs the actions it is handed and reports back.
pub mod command;
pub mod dispatch;
pub mod laws;
pub mod registry;
pub mod session;
pub mod track;

pub use command::{first_word_of, Command};
pub use dispatch::{Action, CommandRequest, Reply, Step};
pub use registry::GuildVoiceRegistry;
pub use session::{SessionState, VoiceSession};
pub use track::{clamp_volume, TrackController, DEFAULT_VOLUME, MAX_VOLUME};
