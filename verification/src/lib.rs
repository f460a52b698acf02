//! Verified core of a Pico headset companion: the ADB server's wire format and
//! the exchanges built on it, the decisions of the keep-awake, connect and
//! query commands, the application's flags, and recognition and level of the
//! headset's virtual microphone.
use vstd::prelude::*;

pub mod text;
pub mod protocol;
pub mod session;
pub mod commands;
pub mod state;
pub mod mic_drainer;
pub mod laws;
pub mod command_laws;

verus! {
} // verus!
