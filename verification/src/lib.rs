//! A verified core for an RPC request-processing pipeline: an error taxonomy
//! with a pure classification to protocol status codes, a session-credential
//! resolution subsystem backed by an external key-value store, a decorator
//! chain that wraps request handlers, a cancellable bounded stream model, and
//! the message handlers built on top of them.

pub mod chain;
pub mod config;
pub mod error;
pub mod service;
pub mod session;
pub mod stream;
pub mod text;
