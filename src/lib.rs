//! A small publish/subscribe message broker: the binary frame format, its
//! incremental codec, and the per-connection dispatch rules.

pub mod buffer;
pub mod frame;
pub mod codec;
pub mod stream;
pub mod hub;
pub mod connection;
