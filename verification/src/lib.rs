//! Decision core of a WebRTC camera streaming server.

pub mod branch;
pub mod camera;
pub mod config;
pub mod filter;
pub mod health;
pub mod launch;
mod lemmas;
pub mod modes;
pub mod peer;
pub mod pipeline;
pub mod probe;
pub mod selection;
pub mod signaling;
pub mod text;
pub mod video;
