//! Chat-driven automation backend: command registry and execution, the
//! text-to-speech request pipeline, and the playback queue and scheduler.

pub mod chat;
pub mod commands;
pub mod config;
pub mod dispatch;
pub mod encoding;
pub mod events;
pub mod frontend;
pub mod player;
pub mod roles;
pub mod seqs;
pub mod sfx;
pub mod strings;
pub mod text;
pub mod tts;
pub mod ui;
