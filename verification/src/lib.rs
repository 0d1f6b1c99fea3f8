//! Exit policy of the desktop shell.
//!
//! The shell starts the GUI event loop and blocks until the loop hands control
//! back. This crate holds the one decision that follows: how the process ends,
//! and with which diagnostic.

pub mod exit;

pub use exit::{conclude, Exit, RUN_FAILURE};
