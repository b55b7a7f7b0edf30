//! A configurable switchboard: keyboard keys and gamepad buttons are mapped to
//! audio-sample playback actions, resolved once from a declarative configuration.

pub mod config;
pub mod error;
pub mod gamepad_thread;
pub mod gui;
pub mod keys;
pub mod sample_loader;
pub mod sound_bank;
pub mod sound_thread;
pub mod text;
