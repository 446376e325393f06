//! The daemon client's decision logic: the fixed version request frame, the
//! handshake acceptance rule, and the decoding of the version response into
//! the displayed line.

use vstd::prelude::*;

use crate::errors::Errors;

verus! {

/// The version a daemon reply carries: the string at the path
/// `GetVersion.value` of the JSON object the text encodes, or nothing when
/// the text is not JSON or lacks that path.
pub uninterp spec fn version_of(s: Seq<char>) -> Option<Seq<char>>;

/// Relies on serde_json::from_str together with serde_json::Value::get and
/// serde_json::Value::as_str: the decoded version depends on the response
/// text alone.
#[verifier::external_body]
fn decode_version_frame(text: &str) -> (r: Option<String>)
    ensures
        match r {
            Some(v) => version_of(text@) == Some(v@),
            None => version_of(text@) is None,
        },
{
    let root: serde_json::Value = serde_json::from_str(text).ok()?;
    let value = root.get("GetVersion")?.get("value")?;
    Some(value.as_str()?.to_owned())
}

/// The one request the client sends: the JSON string literal `"GetVersion"`,
/// quotes included, as the body of a single text frame.
pub fn version_request() -> (r: String)
    ensures
        r@ == "\"GetVersion\""@,
        r@.len() == 12,
{
    proof {
        reveal_strlit("\"GetVersion\"");
    }
    "\"GetVersion\"".to_owned()
}

/// Decides whether an established websocket handshake is acceptable: any
/// HTTP status other than 200 is a failure, even though the transport
/// connected, and no frame may then be sent.
pub fn accept_handshake(uri: &str, status: u16) -> (r: Result<(), Errors>)
    ensures
        r is Ok <==> status == 200,
        status != 200 ==> (r matches Err(e) && e matches Errors::UnexpectedHandshakeStatus {
            uri: u,
            status: s,
        } && u@ == uri@ && s == status),
{
    if status == 200 {
        Ok(())
    } else {
        Err(Errors::UnexpectedHandshakeStatus { uri: uri.to_owned(), status })
    }
}

/// The combined line the version command displays: the daemon's reported
/// version beside the placeholder for this tool's own version.
pub open spec fn spec_version_line(v: Seq<char>) -> Seq<char> {
    "CamillaDSP: "@ + v + ", REV8617: ???"@
}

/// Builds the displayed line for a decoded daemon version.
pub fn version_line(dsp_version: &str) -> (r: String)
    ensures
        r@ == spec_version_line(dsp_version@),
{
    let mut s = "CamillaDSP: ".to_owned();
    s.append(dsp_version);
    s.append(", REV8617: ???");
    s
}

/// Turns the daemon's single response frame into the displayed line, or
/// into a typed error when the frame does not carry a version.
pub fn version_report(response_text: &str) -> (r: Result<String, Errors>)
    ensures
        version_of(response_text@) matches Some(v) ==> (r matches Ok(line) && line@
            == spec_version_line(v)),
        version_of(response_text@) is None ==> (r matches Err(e)
            && e matches Errors::MalformedResponse { raw } && raw@ == response_text@),
{
    match decode_version_frame(response_text) {
        Some(v) => Ok(version_line(v.as_str())),
        None => Err(Errors::MalformedResponse { raw: response_text.to_owned() }),
    }
}

} // verus!
