//! Live customer-support chat core: room and agent registries, a per-room
//! fan-out relay hub, and the decision logic of one connection session.
//!
//! The registries own the shared state (rooms, agents); the hub owns one
//! bounded fan-out channel per room and retires a channel when its last
//! subscriber leaves; the session module decides, frame by frame, what a
//! connection's two relay loops do. Transports, storage and HTTP wiring
//! live outside this crate and drive these structures.

pub mod agent;
pub mod error;
pub mod hash;
pub mod hub;
pub mod jwt;
pub mod room;
pub mod session;
mod time;
pub mod user;

pub use error::AppError;
