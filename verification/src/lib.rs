//! Fleet controller for network-attached smart light devices.
//!
//! The library keeps a local model of zero or more devices, synchronizes that
//! model against each device's HTTP control endpoint, supports batch
//! operations over a user-selected subset, and drives everything from a modal
//! interaction state machine. Terminal rendering, argument parsing, file and
//! socket I/O live outside the library and talk to it through plain values.

pub mod api;
pub mod app;
pub mod cli;
pub mod discovery;
pub mod json;
pub mod rgb;
pub mod text;
