//! A small remote-procedure-call runtime, kept free of sockets and encoders.
//!
//! A server holds a registry of named services over one shared state
//! (`app`). Each service is a handler from bytes to bytes (`service`), most
//! often a typed function between a decoder and an encoder (`handler`). A
//! request names a service and carries its argument; the response carries the
//! result (`transport`). Whatever goes wrong is one of four errors (`error`).
//!
//! The three loops around the registry are written as protocols that take the
//! report of one step and ask for the next: the exchange on an accepted
//! connection (`connection`), the call that a client makes (`call`), and the
//! accept loop (`server`). A shell around the crate performs the reads, writes
//! and encodings that they ask for. What the two ends achieve together, given
//! an encoding and a wire that behave, is stated in `exchange`.

pub mod app;
pub mod call;
pub mod connection;
pub mod error;
pub mod exchange;
pub mod handler;
pub mod server;
pub mod service;
pub mod transport;
