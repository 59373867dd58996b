//! Core logic of a chat-platform voice bot: per-guild voice sessions,
//! ordered playback queues, track-query resolution, and playback
//! notifications. The gateway, HTTP and audio transports are external
//! collaborators driven by the surrounding application; everything that
//! decides or computes lives here, verified.

pub mod commands;
pub mod error;
pub mod queue;
pub mod notify;
pub mod registry;
pub mod resolve;
pub mod utils;
