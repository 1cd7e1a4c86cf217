//! A sharded, in-memory key-value store and the request handling of a small
//! Redis-like server, with every function proved against its contract.
//!
//! - `value`: the byte buffers that the store keeps.
//! - `routing`: which shard a key belongs to.
//! - `shard`, `store`: one shard, and the store made of a fixed number of them.
//! - `frame`, `command`: the frames of the protocol and their decoding into
//!   commands.
//! - `handler`: what a command does to a store and which frame answers it.
//! - `connection`, `listener`: the decisions of a connection's loop and of the
//!   accept loop. Reading, writing and accepting are left to the caller.
//! - `laws`: what holds of all of these together.
//!
//! The store and the shard change under `&mut`: whoever shares them between
//! tasks puts a guard around each shard and holds it for one operation.

pub mod command;
pub mod connection;
pub mod frame;
pub mod handler;
pub mod laws;
pub mod listener;
pub mod routing;
pub mod shard;
pub mod store;
pub mod value;
