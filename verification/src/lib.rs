//! A relay of numbered messages through a list kept by a Redis store: a
//! producer appends them, a consumer takes them and writes each to a file.
//!
//! The library decides and the caller performs. Producer, consumer and
//! coordinator are values that name their pending action and are told what
//! came of it; nothing here opens a socket, writes a file, sleeps or starts
//! a thread. The commands for the store are built here, with the `redis`
//! crate, and sent by the caller.
//!
//! - [`settings`]: the fixed settings of the relay.
//! - [`decimal`], [`message`]: the texts: payloads, lines, notices.
//! - [`redis_api`]: the calls into `redis`, with what is taken for granted
//!   of each.
//! - [`request`]: the requests made of the store and their commands.
//! - [`connection`]: the handle to the store.
//! - [`failure`]: the ways in which a step can fail.
//! - [`producer`], [`consumer`], [`coordinator`]: the three tasks.
//! - [`store`]: a model of how the store answers.
//! - [`relay`]: both tasks at one store, and the laws on what reaches the
//!   file.

pub mod connection;
pub mod consumer;
pub mod coordinator;
pub mod decimal;
pub mod failure;
pub mod message;
pub mod producer;
pub mod redis_api;
pub mod relay;
pub mod request;
pub mod settings;
pub mod store;
