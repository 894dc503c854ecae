//! The core of a small loadable kernel module that offers one character device:
//! a text buffer that user processes read and replace.
//!
//! The library is the module's state machine. It performs no I/O of its own: the
//! host adapter registers the device node, moves bytes through the I/O cursors and
//! hands each outcome to the functions here, which decide what the module holds
//! and what it answers.
//!
//! - [`hello`] holds the module controller [`Hello`] and its device backend
//!   [`HelloInner`];
//! - [`state`] is the mathematical model that their contracts speak of;
//! - [`laws`] proves what holds of the module through every course of calls;
//! - [`text`], [`status`] and [`error`] hold the fixed texts, the status codes
//!   and the failure of a write.

pub mod error;
pub mod hello;
pub mod laws;
pub mod state;
pub mod status;
pub mod text;

pub use crate::error::WriteError;
pub use crate::hello::{Hello, HelloInner};
