//! Core logic of the VoicetextAI desktop client: audio framing, voice
//! activity detection, recording state machines, configuration handling
//! and the wire rules of the speech-to-text backends.

pub mod audio_chunk;
pub mod capture;
pub mod commands;
pub mod auth;
pub mod auto_paste;
pub mod backend;
pub mod config;
pub mod config_store;
pub mod demo;
pub mod deepgram;
pub mod text;
pub mod transcription;
pub mod tray;
pub mod updater;
pub mod errors;
pub mod events;
pub mod factory;
pub mod hotkey;
pub mod models;
pub mod vad;
pub mod vad_gate;
pub mod whisper_local;
