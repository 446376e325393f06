//! The error taxonomy: every failure the tool reports, with enough context
//! (path, URI, status, underlying cause) to render a diagnostic, and the
//! rendering itself.

use vstd::prelude::*;

use crate::decimal::{dec_digits, u16_to_decimal};

verus! {

/// Everything that can go wrong, as a closed union.
///
/// Configuration failures (`DescriptorNotFound`, `InvalidAddress`) abort the
/// run before any command is dispatched. `SupervisorUnavailable` means the
/// process-supervision command could not be launched at all. The daemon
/// failures cover the transport (`DaemonUnreachable`), the websocket upgrade
/// (`UnexpectedHandshakeStatus`) and the version reply (`MalformedResponse`).
#[derive(Debug)]
pub enum Errors {
    DescriptorNotFound { path: String },
    InvalidAddress { host: String, port: u16, cause: String },
    SupervisorUnavailable { cause: String },
    DaemonUnreachable { uri: String, cause: String },
    UnexpectedHandshakeStatus { uri: String, status: u16 },
    MalformedResponse { raw: String },
}

/// The diagnostic text for each error, with the failing value embedded.
pub open spec fn spec_message(e: Errors) -> Seq<char> {
    match e {
        Errors::DescriptorNotFound { path } => "plist path does not exist:"@ + path@,
        Errors::InvalidAddress { host, port, cause } => "invalid DSP address ("@ + host@
            + ") or port ("@ + dec_digits(port as nat) + "): "@ + cause@,
        Errors::SupervisorUnavailable { cause } => "cannot run launchctl: "@ + cause@,
        Errors::DaemonUnreachable { uri, cause } => "cannot connect to dsp at address "@ + uri@
            + ": "@ + cause@,
        Errors::UnexpectedHandshakeStatus { uri, status } => "dsp connection at "@ + uri@
            + " returned non 200 error code ("@ + dec_digits(status as nat) + ")"@,
        Errors::MalformedResponse { raw } => "cannot parse camilladsp response: "@ + raw@,
    }
}

impl Errors {
    /// Renders the diagnostic line for this error.
    pub fn render(&self) -> (r: String)
        ensures
            r@ == spec_message(*self),
    {
        match self {
            Errors::DescriptorNotFound { path } => {
                let mut s = "plist path does not exist:".to_owned();
                s.append(path.as_str());
                s
            },
            Errors::InvalidAddress { host, port, cause } => {
                let mut s = "invalid DSP address (".to_owned();
                s.append(host.as_str());
                s.append(") or port (");
                s.append(u16_to_decimal(*port).as_str());
                s.append("): ");
                s.append(cause.as_str());
                s
            },
            Errors::SupervisorUnavailable { cause } => {
                let mut s = "cannot run launchctl: ".to_owned();
                s.append(cause.as_str());
                s
            },
            Errors::DaemonUnreachable { uri, cause } => {
                let mut s = "cannot connect to dsp at address ".to_owned();
                s.append(uri.as_str());
                s.append(": ");
                s.append(cause.as_str());
                s
            },
            Errors::UnexpectedHandshakeStatus { uri, status } => {
                let mut s = "dsp connection at ".to_owned();
                s.append(uri.as_str());
                s.append(" returned non 200 error code (");
                s.append(u16_to_decimal(*status).as_str());
                s.append(")");
                s
            },
            Errors::MalformedResponse { raw } => {
                let mut s = "cannot parse camilladsp response: ".to_owned();
                s.append(raw.as_str());
                s
            },
        }
    }
}

} // verus!
