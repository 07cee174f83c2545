//! A low-latency audio passthrough core: captured blocks of samples travel
//! from a producer callback through a bounded FIFO relay queue to a consumer
//! callback, with drop-on-full and silence-on-empty policies so that neither
//! real-time callback ever blocks.

pub mod block;
pub mod config;
pub mod laws;
pub mod queue;
pub mod relay;

pub use block::Block;
pub use config::{validate_rates, SetupError, StreamSettings, RELAY_CAPACITY};
pub use queue::RelayQueue;
pub use relay::{consume, produce};
