//! Calls into script functions from other threads.
use vstd::prelude::*;

verus! {

/// How far a call into a script function has come.
#[derive(Clone, Copy, Debug, PartialEq, Eq, Structural)]
pub enum CallStage {
    /// It is not known yet whether the function is there.
    Starting,
    /// The function was found and is being called.
    Calling,
    /// The call was queued and its answer is awaited.
    Waiting,
    /// The result is known.
    Ended,
}

/// The debug text of the `napi_ohos::Status` that a status number stands for.
pub uninterp spec fn status_debug_text(code: i32) -> Seq<char>;

/// `napi_ohos::Status::from` and the `Debug` text of what it returns. Trusted: the
/// text is a function of the number alone. What it is for a given number is left
/// unsaid.
#[verifier::external_body]
fn status_text(code: i32) -> (r: String)
    ensures
        r@ == status_debug_text(code),
{
    format!("{:?}", napi_ohos::Status::from(code))
}

/// Whether a status number reports success.
pub open spec fn is_success(code: i32) -> bool {
    code == 0
}

/// The message that a call failed: what was tried, then the text of the status.
pub fn failure_message(what: &str, status: &str) -> (r: String)
    ensures
        r@ == what@ + status@,
{
    let mut message: String = what.to_owned();
    message.append(status);
    message
}

/// The message that a call failed with the status number `code`.
pub fn call_failed(what: &str, code: i32) -> (r: String)
    ensures
        r@ == what@ + status_debug_text(code),
{
    let status: String = status_text(code);
    failure_message(what, status.as_str())
}

/// Exactly one status number reports success.
pub proof fn only_zero_is_success(code: i32)
    ensures
        is_success(code) <==> code == 0,
{
}

} // verus!
