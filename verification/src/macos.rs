//! macOS: the bundle requirement and the replies of the native bridge.
use vstd::prelude::*;

use crate::desktop::{ends_with, str_ends_with};
use crate::error::{Error, ErrorView, invoke_rejected};
use crate::models::{NotificationIdentifier, str_equals};

verus! {

/// The error the native bridge reports.
#[derive(Debug)]
pub enum FFIResult {
    /// The error message from the native side.
    Failure(String),
}

/// The error of a call that the native side rejected with the message `m`.
pub open spec fn rejection(m: Seq<char>) -> ErrorView {
    ErrorView::InvokeRejected { code: None, message: Some(m) }
}

/// The outcome of a call that returns nothing: a native error becomes a
/// rejected invocation carrying its message.
pub fn parse_void(r: Result<(), FFIResult>) -> (out: Result<(), Error>)
    ensures
        match r {
            Ok(()) => out is Ok,
            Err(FFIResult::Failure(m)) => out is Err && out->Err_0@ == rejection(m@),
        },
{
    match r {
        Ok(()) => Ok(()),
        Err(FFIResult::Failure(m)) => Err(invoke_rejected(m)),
    }
}

/// The outcome of a call that returns an id, which is not needed: a native
/// error becomes a rejected invocation carrying its message.
pub fn parse_void_id(r: Result<i32, FFIResult>) -> (out: Result<(), Error>)
    ensures
        match r {
            Ok(_) => out is Ok,
            Err(FFIResult::Failure(m)) => out is Err && out->Err_0@ == rejection(m@),
        },
{
    match r {
        Ok(_) => Ok(()),
        Err(FFIResult::Failure(m)) => Err(invoke_rejected(m)),
    }
}

/// The JSON text of a reply, to be read into the expected type: a native
/// error becomes a rejected invocation carrying its message.
pub fn response_text(r: Result<String, FFIResult>) -> (out: Result<String, Error>)
    ensures
        match r {
            Ok(json) => out is Ok && out->Ok_0@ == json@,
            Err(FFIResult::Failure(m)) => out is Err && out->Err_0@ == rejection(m@),
        },
{
    match r {
        Ok(json) => Ok(json),
        Err(FFIResult::Failure(m)) => Err(invoke_rejected(m)),
    }
}

/// The message the bridge reports when an event cannot be delivered.
pub open spec fn trigger_failure_message(event: Seq<char>, error: Seq<char>) -> Seq<char> {
    "Failed to trigger event '"@ + event + "': "@ + error
}

/// The error handed back to the native side when the event `event` could
/// not be delivered to the listeners for the reason `error`.
pub fn trigger_failure(event: &str, error: &str) -> (r: FFIResult)
    ensures
        r matches FFIResult::Failure(m) && m@ == trigger_failure_message(event@, error@),
{
    let mut m = String::from_str("Failed to trigger event '");
    m.append(event);
    m.append("': ");
    m.append(error);
    FFIResult::Failure(m)
}

/// Whether an executable path lies inside an application bundle:
/// `<name>.app/Contents/MacOS/<executable>`. The path is given by its
/// components.
pub open spec fn is_bundle_executable(c: Seq<Seq<char>>) -> bool {
    &&& c.len() >= 4
    &&& c[c.len() - 2] == "MacOS"@
    &&& c[c.len() - 3] == "Contents"@
    &&& ends_with(c[c.len() - 4], ".app"@)
}

/// Whether the executable whose path has the given components runs from an
/// application bundle, which the native notification framework requires.
pub fn runs_from_bundle(components: &Vec<String>) -> (r: bool)
    ensures
        r == is_bundle_executable(components.deep_view()),
{
    let n = components.len();
    if n < 4 {
        return false;
    }
    str_equals(components[n - 2].as_str(), "MacOS") && str_equals(
        components[n - 3].as_str(),
        "Contents",
    ) && str_ends_with(components[n - 4].as_str(), ".app")
}

/// The error when the application does not run from a bundle.
pub fn bundle_required_error() -> (e: Error)
    ensures
        e@ == rejection(
            "Notifications plugin requires the app to run from a .app bundle. You can enable notify-rust feature for development."@,
        ),
{
    invoke_rejected(
        String::from_str(
            "Notifications plugin requires the app to run from a .app bundle. You can enable notify-rust feature for development.",
        ),
    )
}

/// The identifiers of delivered notifications given by id alone: no tag and
/// no age limit.
pub fn identifiers_from_ids(ids: Vec<i32>) -> (r: Vec<NotificationIdentifier>)
    ensures
        r@.len() == ids@.len(),
        forall|i: int|
            0 <= i < ids@.len() ==> (#[trigger] r@[i]).id == ids@[i] && r@[i].tag is None
                && r@[i].max_when is None,
{
    let mut r: Vec<NotificationIdentifier> = Vec::new();
    let mut i: usize = 0;
    while i < ids.len()
        invariant
            i <= ids.len(),
            r@.len() == i,
            forall|j: int|
                0 <= j < i ==> (#[trigger] r@[j]).id == ids@[j] && r@[j].tag is None
                    && r@[j].max_when is None,
        decreases ids.len() - i,
    {
        r.push(NotificationIdentifier { id: ids[i], tag: None, max_when: None });
        i = i + 1;
    }
    r
}

} // verus!
