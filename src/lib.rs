//! Streaming decompression commands for a data pipeline: one command per
//! compression format, each turning compressed binary input into a lazily
//! decoded byte stream.
pub mod command;
pub mod dispatch;
pub mod host;
pub mod normalize;

pub use command::DecompressCommand;
