//! A benchmarking engine for bounded single-producer/single-consumer channels.
//!
//! The engine sweeps a channel-capacity parameter, repeats each configuration
//! for a number of samples, and collects one throughput measurement per
//! sample into a structured stream of results. The asynchronous adapters that
//! actually move messages live outside this crate; the driver here makes
//! every decision of the sweep and owns the result model, so that the shape
//! of what a caller receives is proved rather than assumed.

pub mod channel_model;
pub mod driver;
pub mod render;
pub mod result_model;
pub mod sample;

pub use driver::ConfigError;
pub use driver::Driver;
pub use driver::CHANNELS;
pub use driver::MESSAGES_PER_CHANNEL;
pub use result_model::BenchIterator;
pub use result_model::BenchResult;
pub use sample::Sample;
