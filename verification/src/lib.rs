//! The decisions of a bridge between a private Telegram chat and a local `codex app-server`:
//! what a message asks for, what is answered, how a turn progresses, and what is remembered.
//!
//! The host program performs what is decided: it talks to Telegram, runs the app-server, reads
//! the environment and the disk, and hands back what came of it as plain values.

pub mod app;
pub mod codex;
pub mod commands;
pub mod config;
pub mod dto;
pub mod handles;
pub mod json;
pub mod laws;
pub mod polling;
pub mod progress;
pub mod render;
pub mod rollouts;
pub mod rpc;
pub mod session;
pub mod telegram;
pub mod text;
pub mod workdir;
