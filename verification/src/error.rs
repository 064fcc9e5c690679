//! Failures reported by the driver.

use vstd::prelude::*;

verus! {

/// What can go wrong while opening or driving a dongle.
#[derive(Debug, Clone)]
pub enum Error {
    /// The requested dongle is not among the known devices.
    NotFound,
    /// A channel number out of range, or a device index that cannot be served.
    InvalidArgument,
    /// The dongle's firmware speaks a protocol version this driver does not.
    DongleVersionNotSupported,
    /// A control or bulk transfer failed; the text says how.
    BrowserError(String),
}

/// Mathematical value of an [`Error`]: the detail text becomes a sequence of
/// characters.
pub enum ErrorView {
    NotFound,
    InvalidArgument,
    DongleVersionNotSupported,
    BrowserError(Seq<char>),
}

impl View for Error {
    type V = ErrorView;

    open spec fn view(&self) -> ErrorView {
        match self {
            Error::NotFound => ErrorView::NotFound,
            Error::InvalidArgument => ErrorView::InvalidArgument,
            Error::DongleVersionNotSupported => ErrorView::DongleVersionNotSupported,
            Error::BrowserError(detail) => ErrorView::BrowserError(detail@),
        }
    }
}

impl Error {
    /// The fixed, human readable text of this kind of failure.
    pub fn message(&self) -> (text: &'static str)
        ensures
            self is NotFound ==> text@ == "Crazyradio not found"@,
            self is InvalidArgument ==> text@ == "Invalid arguments"@,
            self is DongleVersionNotSupported ==> text@ == "Crazyradio version not supported"@,
            self is BrowserError ==> text@ == "Browser error"@,
    {
        match self {
            Error::NotFound => "Crazyradio not found",
            Error::InvalidArgument => "Invalid arguments",
            Error::DongleVersionNotSupported => "Crazyradio version not supported",
            Error::BrowserError(_) => "Browser error",
        }
    }
}

} // verus!
