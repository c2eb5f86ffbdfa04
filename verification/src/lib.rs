//! Core of a desktop audiobook player: a verified audio playback engine with
//! a synthetic position clock, a FIFO play queue manager, and the supporting
//! catalog and text-processing helpers.

pub mod sink;
pub mod engine;
pub mod manager;
pub mod laws;
pub mod services;
pub mod models;
pub mod strutil;
pub mod import;
pub mod scanner;
pub mod document;
pub mod player;
