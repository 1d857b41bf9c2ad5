//! Real-time channel alerts: ingestion of a push-style event feed and a
//! broadcast hub that fans decoded events out to overlay clients.

pub mod decoder;
pub mod messages;
pub mod narrative;
pub mod numeric;
pub mod opts;
pub mod overlay;
pub mod queues;
pub mod registry;
pub mod scheduler;
pub mod websocket;
pub mod wire;
