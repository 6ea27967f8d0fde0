//! Assembling a self-contained Python runtime bundle for Windows.
//!
//! The library decides what has to be done and in which order; the caller
//! carries each action out and reports how it went.

pub mod action;
pub mod error;
pub mod layout;
pub mod pipeline;
pub mod request;
pub mod run;
pub mod text;
pub mod version;
