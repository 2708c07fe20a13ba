//! Execution core of a POSIX-style shell: turns an already-parsed pipeline of
//! commands into running processes and in-process builtins wired together with
//! file descriptors, and reports failures with their full causal context.
//!
//! The core guarantees, proved over a ledger of owned resources, are that
//! every descriptor it opens is closed exactly once, every child it spawns is
//! waited on exactly once, and on a setup failure everything already acquired
//! is released before the error — annotated with the failing command's display
//! name — propagates.

pub mod command;
pub mod decimal;
pub mod error;
pub mod exec;
pub mod fdplan;
pub mod resources;
pub mod sys;
