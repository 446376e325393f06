//! Control library for the REV8617 CamillaDSP command-line tool.
//!
//! The tool toggles a background service's launch configuration through the
//! OS process-supervision command and queries a local audio daemon's version
//! over a websocket. This crate holds the decision logic of that tool: the
//! configuration resolver, the error taxonomy with its rendered diagnostics,
//! the websocket handshake rule, the version-response decoding, and the
//! load/unload output rules. All process, filesystem and network work stays
//! with the binary around the library.

use vstd::prelude::*;

pub mod config;
pub mod decimal;
pub mod errors;
pub mod protocol;
pub mod supervise;

verus! {

/// The closed set of subcommands the tool accepts.
#[derive(Debug, Clone, Copy, PartialEq, Eq, Structural)]
pub enum Command {
    Load,
    Unload,
    Version,
}

} // verus!
