use vstd::prelude::*;

verus! {

/// The portable error taxonomy that native failures are relabelled into.
#[derive(Debug, Clone, PartialEq, Eq)]
pub enum Error {
    /// The native operation was refused for lack of access rights.
    PermissionDenied,
    /// The target device or service could not be reached.
    NotConnected,
    /// The native layer reported a protocol-level incompatibility.
    NotSupported(String),
    /// Any other failure, with a diagnostic message.
    Other(String),
}

/// The mathematical model of an [`Error`]: its kind, and its text as characters.
pub enum ErrorView {
    PermissionDenied,
    NotConnected,
    NotSupported(Seq<char>),
    Other(Seq<char>),
}

impl View for Error {
    type V = ErrorView;

    open spec fn view(&self) -> ErrorView {
        match self {
            Error::PermissionDenied => ErrorView::PermissionDenied,
            Error::NotConnected => ErrorView::NotConnected,
            Error::NotSupported(reason) => ErrorView::NotSupported(reason@),
            Error::Other(message) => ErrorView::Other(message@),
        }
    }
}

/// The model of a result whose success carries a value with a view.
pub open spec fn result_view<T: View>(r: Result<T, Error>) -> Result<T::V, ErrorView> {
    match r {
        Ok(v) => Ok(v@),
        Err(e) => Err(e@),
    }
}

} // verus!
