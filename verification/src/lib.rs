//! Client-side engine for multi-turn conversations with a hosted chat-completion
//! service: stream reconstruction, conversation state and function-call dispatch.
//!
//! The library decides and records; it performs no request and runs no function.
//!
//! - [`stream`] turns the frames of an event stream into chunks, and
//!   [`assembler`] folds a finished sequence of chunks into messages.
//! - [`converse`] keeps the messages of a conversation in order, together with
//!   the functions of [`functions`] that the model may call.
//! - [`dispatch`] leads one send operation from the caller's message through any
//!   function calls to the model's final answer.
//! - [`wire`] and [`json`] read and write the JSON that goes over the line and
//!   into files; [`docs`] reads the documentation of a function.

pub mod assembler;
pub mod auth;
pub mod config;
pub mod converse;
pub mod dispatch;
pub mod docs;
pub mod err;
pub mod functions;
pub mod json;
pub mod prelude;
pub mod stream;
mod text;
pub mod types;
pub mod wire;
