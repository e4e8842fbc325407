use vstd::prelude::*;

verus! {

/// Every way in which building or running a request can fail. A failure is
/// always handed back to the caller; nothing here ends the process.
#[derive(Debug, Clone, PartialEq, Eq)]
pub enum HttpError {
    /// The engine refused a setting: the target URL, a header line, the
    /// timeout or the POST options. Also given when no URL was bound.
    ConfigError,
    /// The value offered as request body could not be written as JSON.
    SerializationError,
    /// The engine could not carry out the transfer; holds the engine's code.
    TransferError(u32),
    /// The transfer completed with a status outside 200 to 299; holds the status.
    HttpStatusError(u32),
    /// The response was not JSON; holds the response bytes as they arrived.
    ResponseParseError(Vec<u8>),
    /// The transfer ran into the configured time limit.
    TimeoutError,
    /// The request of this builder has been started before.
    ReuseError,
}

/// The mathematical value of an [`HttpError`]: the same cases, with the
/// preserved response bytes as a sequence.
pub enum HttpErrorView {
    ConfigError,
    SerializationError,
    TransferError(u32),
    HttpStatusError(u32),
    ResponseParseError(Seq<u8>),
    TimeoutError,
    ReuseError,
}

impl View for HttpError {
    type V = HttpErrorView;

    open spec fn view(&self) -> HttpErrorView {
        match self {
            HttpError::ConfigError => HttpErrorView::ConfigError,
            HttpError::SerializationError => HttpErrorView::SerializationError,
            HttpError::TransferError(code) => HttpErrorView::TransferError(*code),
            HttpError::HttpStatusError(status) => HttpErrorView::HttpStatusError(*status),
            HttpError::ResponseParseError(raw) => HttpErrorView::ResponseParseError(raw@),
            HttpError::TimeoutError => HttpErrorView::TimeoutError,
            HttpError::ReuseError => HttpErrorView::ReuseError,
        }
    }
}

} // verus!
