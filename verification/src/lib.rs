//! A local-first dictation assistant's logic: what to send to the local
//! language model, how to judge its reply, which speech model to use, how to
//! call the speech recogniser and what the tray shows.
pub mod text;
pub mod error;
pub mod config;
pub mod models;
pub mod ollama;
pub mod cleanup;
pub mod transcription;
pub mod recording;
pub mod tray;
