//! The service-control adapter's output rules: what the tool prints after
//! running the supervision command to load or unload the descriptor.

use vstd::prelude::*;

verus! {

/// What lossy UTF-8 decoding makes of a byte sequence.
pub uninterp spec fn lossy_utf8(bytes: Seq<u8>) -> Seq<char>;

/// Relies on String::from_utf8_lossy: the decoding depends on the bytes
/// alone; valid UTF-8 passes through and invalid sequences become U+FFFD.
#[verifier::external_body]
fn utf8_lossy(bytes: &[u8]) -> (r: String)
    ensures
        r@ == lossy_utf8(bytes@),
{
    String::from_utf8_lossy(bytes).into_owned()
}

/// The progress notice printed before the load action runs.
pub open spec fn spec_load_notice(path: Seq<char>) -> Seq<char> {
    "loading plist at "@ + path
}

/// The line that surfaces the load action's standard error.
pub open spec fn spec_load_failure(stderr_text: Seq<char>) -> Seq<char> {
    "failed to load plist, stderr: \n "@ + stderr_text
}

/// The hint that a descriptor which is already loaded makes the load
/// action complain rather than fail hard.
pub open spec fn spec_already_loaded_hint() -> Seq<char> {
    "make sure that plist is unloaded first! load throws error when the plist is already loaded."@
}

/// What the load handler surfaces when the supervision command wrote to
/// its standard error: the decoded stream and the already-loaded hint.
pub struct LoadFailure {
    pub message: String,
    pub hint: String,
}

/// Everything the load handler prints. A write to standard error is a
/// recoverable condition: it is surfaced with a hint, never raised.
pub struct LoadReport {
    pub notice: String,
    pub failure: Option<LoadFailure>,
}

/// Decides what the load handler prints from the supervision command's
/// captured standard error. Empty standard error means a clean load and
/// nothing beyond the progress notice.
pub fn load_report(plist_path: &str, stderr: &[u8]) -> (r: LoadReport)
    ensures
        r.notice@ == spec_load_notice(plist_path@),
        stderr@.len() == 0 <==> r.failure is None,
        stderr@.len() > 0 ==> (r.failure matches Some(f) && f.message@ == spec_load_failure(
            lossy_utf8(stderr@),
        ) && f.hint@ == spec_already_loaded_hint()),
{
    let mut notice = "loading plist at ".to_owned();
    notice.append(plist_path);
    if stderr.len() == 0 {
        LoadReport { notice, failure: None }
    } else {
        let mut message = "failed to load plist, stderr: \n ".to_owned();
        message.append(utf8_lossy(stderr).as_str());
        let hint =
            "make sure that plist is unloaded first! load throws error when the plist is already loaded.".to_owned();
        LoadReport { notice, failure: Some(LoadFailure { message, hint }) }
    }
}

/// The progress notice printed before the unload action runs.
pub open spec fn spec_unload_notice(path: Seq<char>) -> Seq<char> {
    "unloading plist at "@ + path
}

/// Everything the unload handler prints: both captured streams, decoded
/// and surfaced verbatim, with no branching on their contents.
pub struct UnloadReport {
    pub notice: String,
    pub stdout_text: String,
    pub stderr_text: String,
}

/// Decides what the unload handler prints: the decoded standard output and
/// standard error of the supervision command, whatever they hold.
pub fn unload_report(plist_path: &str, stdout: &[u8], stderr: &[u8]) -> (r: UnloadReport)
    ensures
        r.notice@ == spec_unload_notice(plist_path@),
        r.stdout_text@ == lossy_utf8(stdout@),
        r.stderr_text@ == lossy_utf8(stderr@),
{
    let mut notice = "unloading plist at ".to_owned();
    notice.append(plist_path);
    UnloadReport { notice, stdout_text: utf8_lossy(stdout), stderr_text: utf8_lossy(stderr) }
}

} // verus!
