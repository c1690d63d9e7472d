//! Snowflake identifiers: 64-bit, unique and sortable by time of issue.
//!
//! An identifier packs the millisecond it was issued in, the datacenter and
//! the worker that issued it, and a sequence number within the millisecond.
//! [`Snowflake`] is the generator itself; [`SnowflakeGenerator`] shares one
//! between threads.

pub mod clock;
pub mod error;
pub mod generator;
pub mod layout;
pub mod model;
pub mod shared;

pub use generator::Snowflake;
pub use model::Tick;
pub use shared::SnowflakeGenerator;
