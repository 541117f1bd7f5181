//! A broadcast hub for a real-time message relay: subscribers register a
//! bounded channel, every published message is handed to each registered
//! subscriber, and subscribers whose channel is gone are evicted.
pub mod channel;
pub mod message;
pub mod ids;
pub mod hub;
pub mod laws;
pub mod bridge;
pub mod gateway;
