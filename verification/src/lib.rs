//! A library for rapid command line tool development.
//!
//! The crate provides an error type better suited for the command line
//! environment, carrying a process exit status together with a root message
//! and a stack of context annotations, and an input/output stream abstraction
//! that lets the same program logic run against the real console streams or
//! against in-memory buffers during testing. Opinionated traits are also
//! provided to enforce a consistent way of structuring an application and its
//! subcommands.

pub mod command;
pub mod error;
pub mod io;
