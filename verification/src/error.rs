//! Errors of the notification plugin.
use vstd::prelude::*;

verus! {

/// The reply of a native plugin that rejected a call.
#[derive(Debug)]
pub struct ErrorResponse {
    pub code: Option<String>,
    pub message: Option<String>,
}

/// A failed call into the native notification layer.
#[derive(Debug)]
pub enum PluginInvokeError {
    /// The native side refused the call.
    InvokeRejected(ErrorResponse),
    /// The native side answered with text that is not the expected JSON.
    CannotDeserializeResponse(String),
    /// The arguments could not be written as JSON.
    CannotSerializePayload(String),
}

/// The error type of the plugin.
#[derive(Debug)]
pub enum Error {
    /// An operation failed or is not available; the text says which.
    Io(String),
    /// A call into the native notification layer failed.
    PluginInvoke(PluginInvokeError),
    /// A schedule names a repetition unit that does not exist.
    UnknownScheduleEvery(String),
    /// A text is not a valid absolute URL.
    InvalidUrl(String),
}

/// The value of an [`Error`], with every text taken by its characters.
pub enum ErrorView {
    Io(Seq<char>),
    InvokeRejected { code: Option<Seq<char>>, message: Option<Seq<char>> },
    CannotDeserializeResponse(Seq<char>),
    CannotSerializePayload(Seq<char>),
    UnknownScheduleEvery(Seq<char>),
    InvalidUrl(Seq<char>),
}

impl View for Error {
    type V = ErrorView;

    open spec fn view(&self) -> ErrorView {
        match self {
            Error::Io(m) => ErrorView::Io(m@),
            Error::PluginInvoke(PluginInvokeError::InvokeRejected(r)) => ErrorView::InvokeRejected {
                code: r.code.deep_view(),
                message: r.message.deep_view(),
            },
            Error::PluginInvoke(PluginInvokeError::CannotDeserializeResponse(m)) => {
                ErrorView::CannotDeserializeResponse(m@)
            },
            Error::PluginInvoke(PluginInvokeError::CannotSerializePayload(m)) => {
                ErrorView::CannotSerializePayload(m@)
            },
            Error::UnknownScheduleEvery(m) => ErrorView::UnknownScheduleEvery(m@),
            Error::InvalidUrl(m) => ErrorView::InvalidUrl(m@),
        }
    }
}

/// An `Io` error with the given text.
pub fn io_error(message: &str) -> (e: Error)
    ensures
        e@ == ErrorView::Io(message@),
{
    Error::Io(String::from_str(message))
}

/// The error of a call that the native side rejected with `message`.
pub fn invoke_rejected(message: String) -> (e: Error)
    ensures
        e@ == (ErrorView::InvokeRejected { code: None, message: Some(message@) }),
{
    Error::PluginInvoke(
        PluginInvokeError::InvokeRejected(ErrorResponse { code: None, message: Some(message) }),
    )
}

} // verus!
