//! Provides opinionated scaffolding for creating a command line application.
//!
//! An application using this library can be implemented in a myriad number of
//! ways. For a library idiomatic way of designing an application, this module
//! provides a collection of traits that may be implemented for a more
//! consistent development experience.

use vstd::prelude::*;

use crate::error::Error;
use crate::io::Shared;

verus! {

/// A trait for objects which can be executed as commands in an application.
///
/// The context shared with every subcommand gives access to the input and
/// output streams of the process through [`Shared`]; a result is only used to
/// indicate failure, carrying the [`Error`] that the application finally
/// exits with.
pub trait Execute<T> where T: Shared {
    /// Executes the command using the given context.
    ///
    /// The command may borrow any stream from the context in order to read
    /// input, or write to the error or global output streams. When the
    /// command encounters an error, it returns it; a successful command
    /// returns nothing.
    fn execute(&self, context: &T) -> Result<(), Error>;
}

/// A trait for objects which manage the context for application subcommands.
///
/// Implementations carry the shared streams and know which subcommand the
/// user requested; executing the application is executing that subcommand
/// with the context itself.
pub trait Main: Shared + Sized {
    /// The type of the subcommand executed by this application; commonly an
    /// enumeration with one variant per subcommand.
    type Command: Execute<Self>;

    /// Executes the requested subcommand for the application.
    fn execute(&self) -> Result<(), Error> {
        self.subcommand().execute(self)
    }

    /// Returns the subcommand to be executed.
    fn subcommand(&self) -> &Self::Command;
}

} // verus!
