//! Native Discord integration: a handle that feeds a background worker.
//!
//! The handle sends messages over a channel; the worker, on its own thread,
//! applies them one at a time until it is told to stop.

pub mod channel;
pub mod config;
pub mod error;
pub mod handler;
pub mod message;
pub mod worker;

pub use config::Config;
pub use error::DiscordRPCError;
pub use handler::DiscordHandler;
pub use message::Message;
pub use worker::{Phase, Worker, WorkerModel};
