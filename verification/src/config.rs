//! The configuration resolver: validates the descriptor path's existence
//! (reported by the caller, which owns the filesystem), builds the daemon
//! URI from host and port, and validates it as a websocket URL.

use vstd::prelude::*;

use crate::decimal::{dec_digits, u16_to_decimal};
use crate::errors::Errors;

verus! {

/// What url::Url::parse makes of a piece of text: the normalized
/// serialization of the URL it parses, or the rendered parse error.
pub uninterp spec fn ws_url_of(s: Seq<char>) -> Result<Seq<char>, Seq<char>>;

/// Relies on url::Url::parse: whether text parses as a URL, the normalized
/// serialization (via From<Url> for String) and the rendering of the parse
/// error all depend on the input text alone.
#[verifier::external_body]
fn parse_ws_url(s: &str) -> (r: Result<String, String>)
    ensures
        match r {
            Ok(u) => ws_url_of(s@) == Ok::<Seq<char>, Seq<char>>(u@),
            Err(e) => ws_url_of(s@) == Err::<Seq<char>, Seq<char>>(e@),
        },
{
    match url::Url::parse(s) {
        Ok(u) => Ok(String::from(u)),
        Err(e) => Err(e.to_string()),
    }
}

/// The text the daemon URI is built from: `ws://<host>:<port>`.
pub open spec fn spec_ws_uri_text(host: Seq<char>, port: u16) -> Seq<char> {
    "ws://"@ + host + ":"@ + dec_digits(port as nat)
}

/// Builds the `ws://<host>:<port>` text.
pub fn ws_uri_text(host: &str, port: u16) -> (r: String)
    ensures
        r@ == spec_ws_uri_text(host@, port),
{
    let mut s = "ws://".to_owned();
    s.append(host);
    s.append(":");
    s.append(u16_to_decimal(port).as_str());
    s
}

/// The validated, immutable run configuration.
#[derive(Debug)]
pub struct Config {
    pub plist_path: String,
    pub dsp_address: String,
    pub dsp_port: u16,
    pub dsp_uri: String,
}

impl Config {
    /// The stored URI is the validated websocket URL derived from the
    /// stored host and port.
    pub open spec fn wf(self) -> bool {
        ws_url_of(spec_ws_uri_text(self.dsp_address@, self.dsp_port)) == Ok::<
            Seq<char>,
            Seq<char>,
        >(self.dsp_uri@)
    }

    /// Builds a configuration from the raw inputs. `descriptor_exists` is
    /// the caller's answer to the filesystem existence check on
    /// `plist_path`; a missing descriptor or an invalid host/port pair is
    /// rejected before any command can run.
    pub fn new(
        plist_path: String,
        descriptor_exists: bool,
        dsp_address: String,
        dsp_port: u16,
    ) -> (r: Result<Config, Errors>)
        ensures
            !descriptor_exists ==> (r matches Err(e) && e matches Errors::DescriptorNotFound {
                path,
            } && path@ == plist_path@),
            descriptor_exists && ws_url_of(spec_ws_uri_text(dsp_address@, dsp_port)) is Err ==> (
            r matches Err(e) && e matches Errors::InvalidAddress { host, port, cause }
                && host@ == dsp_address@ && port == dsp_port && cause@ == ws_url_of(
                spec_ws_uri_text(dsp_address@, dsp_port),
            )->Err_0),
            descriptor_exists && ws_url_of(spec_ws_uri_text(dsp_address@, dsp_port)) is Ok ==> (
            r matches Ok(c) && c.plist_path@ == plist_path@ && c.dsp_address@ == dsp_address@
                && c.dsp_port == dsp_port && c.dsp_uri@ == ws_url_of(
                spec_ws_uri_text(dsp_address@, dsp_port),
            )->Ok_0 && c.wf()),
    {
        if !descriptor_exists {
            return Err(Errors::DescriptorNotFound { path: plist_path });
        }
        let uri_text = ws_uri_text(dsp_address.as_str(), dsp_port);
        match parse_ws_url(uri_text.as_str()) {
            Ok(u) => Ok(
                Config { plist_path, dsp_address, dsp_port, dsp_uri: u },
            ),
            Err(e) => Err(
                Errors::InvalidAddress { host: dsp_address, port: dsp_port, cause: e },
            ),
        }
    }
}

} // verus!
