//! A pidfile records the identifier of a running process, in decimal, in a
//! file that exists for as long as the process keeps its handle.
//!
//! This crate holds the rules of a pidfile and touches no file itself. The
//! caller performs each filesystem operation that a step asks for and hands
//! the outcome to the next step:
//!
//! 1. [`Pidfile::new`] starts a [`Creation`]: the caller opens the path for
//!    writing, creating or truncating the file.
//! 2. [`Creation::opened`] takes the outcome and gives a [`Writing`]: the
//!    caller writes [`Writing::content`] to the file.
//! 3. [`Writing::written`] takes the outcome and gives the [`Pidfile`].
//! 4. [`Pidfile::release`] ends the handle and gives a [`Removal`]: the
//!    caller removes the file.
//! 5. [`Removal::removed`] takes the outcome and gives the diagnostic to
//!    report, if the removal failed.
pub mod decimal;
pub mod lifecycle;

pub use crate::decimal::format_decimal;
pub use crate::lifecycle::{CleanupError, Creation, CreationError, Pidfile, Removal, Stage, Writing};
