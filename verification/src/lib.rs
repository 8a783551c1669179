//! Client-side runtime of an RPC bus.
//!
//! A client talks to a broker over one ordered byte stream, and three kinds
//! of traffic share it: calls that the client issues, calls that peers issue
//! to procedures of the client, and broadcasts. This crate holds the rules of
//! that traffic, free of threads and sockets:
//!
//! - `ipc`: the messages, and the frames that carry them;
//! - `client::rpc_loop`: the command loop, which matches responses to calls,
//!   runs the client's procedures and hands broadcasts on;
//! - `client::rpc`: the two ends of a call, the caller's context and the
//!   procedure that serves it;
//! - `client::io_loop`: what the reader and the writer do next;
//! - `client`: the owner of a connection and its handles, and the order in
//!   which a connection is taken down;
//! - `plugin_core`: what the client tells the broker about a procedure.
//!
//! An application runs the threads, moves the bytes, and does what these
//! modules tell it to.

pub mod client;
pub mod error;
pub mod ipc;
pub mod plugin_core;
