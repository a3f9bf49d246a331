//! Handlers that consume decoded signals.

use std::io::Write;

use vstd::prelude::*;

use crate::signal::Signal;

verus! {

/// A signal handler provides a method to process a
/// received signal.
pub trait SignalHandler {
    fn handle_signal(&mut self, signal: &Signal);
}

/// Relies on `std::io::Stdout::write_fmt`, through `writeln!`, to put
/// one line of text on standard output; the outcome of the write is
/// discarded.
#[verifier::external_body]
fn print_line(s: &str) {
    let _ = writeln!(std::io::stdout(), "{}", s);
}

/// The PrintSignalHandler is a basic handler that
/// prints every signal that is received.
pub struct PrintSignalHandler;

impl PrintSignalHandler {
    pub fn new() -> PrintSignalHandler {
        PrintSignalHandler {  }
    }
}

impl SignalHandler for PrintSignalHandler {
    /// Prints the received signal's name.
    fn handle_signal(&mut self, signal: &Signal) {
        print_line(signal.name());
    }
}

} // verus!
