//! Decoder for an infrared remote control read from a polled digital line.
//!
//! The pipeline classifies the duration of each completed high pulse,
//! assembles classified pulses into fixed-length frames, and maps each
//! complete frame to a named button signal.

pub mod ir_pulse_reader;
pub mod pulse;
pub mod signal;
pub mod signal_handler;

pub use ir_pulse_reader::IRPulseReader;
pub use pulse::seq_to_string;
pub use pulse::Pulse;
pub use signal::Signal;
pub use signal_handler::PrintSignalHandler;
pub use signal_handler::SignalHandler;
