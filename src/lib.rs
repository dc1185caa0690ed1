//! Connection, compatibility and service orchestration core of a validator client.
//!
//! The client waits for its beacon node to answer, checks that the node runs the same
//! network, derives the shared slot clock from the node's genesis, builds the validator
//! store and the four duty services, and starts those services in a fixed order.
pub mod client;
pub mod connection;
pub mod constants;
pub mod lifecycle;
pub mod services;
pub mod time_source;
pub mod validator_store;

pub use client::ProductionValidatorClient;
pub use constants::ProtocolConstants;
pub use time_source::TimeSource;
pub use validator_store::{KeyMaterial, ValidatorStore};
