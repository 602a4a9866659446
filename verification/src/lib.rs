//! A command engine for package managers.
//!
//! A logical operation ("install these packages") is turned into one or more
//! concrete command lines, mediated by a strategy (dry run, confirmation,
//! privilege elevation) and reported through one uniform result type.  The
//! library decides; spawning processes and talking to the terminal is left to
//! the program around it.

pub mod bump_choco;
pub mod collect;
pub mod compat;
pub mod config;
pub mod dispatch;
pub mod engine;
pub mod error;
pub mod exec;
pub mod invocation;
pub mod lines;
pub mod patterns;
pub mod pm;
pub mod search;
pub mod strategy;
pub mod template;
pub mod text;
