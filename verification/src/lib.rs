//! Verified core logic for a family of small handheld-console demo programs:
//! audio double-buffer cycling, tone dispatch, input polling, console escape
//! sequences, argument-blob parsing, and status-code handling.
//!
//! Device access itself (audio hardware, console display, sockets) is
//! unverifiable foreign I/O and lives outside this crate; everything the
//! programs decide or compute on plain values is here, with contracts.

pub mod align;
pub mod args;
pub mod audio;
pub mod console;
pub mod input;
pub mod net;
pub mod status;
pub mod tone;

use vstd::prelude::*;

verus! {

} // verus!
