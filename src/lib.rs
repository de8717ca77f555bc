//! The decision core of a WASAPI-style audio stream: translating device status
//! codes into stream errors, sizing the typed buffer views handed to the data
//! callback, and the run loop itself as a state machine that the thread driving
//! the device steps through one event at a time.
use vstd::prelude::*;

pub mod error;
pub mod format;
pub mod engine;
pub mod laws;
