//! The failures a caller can see, and the failures the backends report.

use vstd::prelude::*;

verus! {

/// Why a capture attempt produced no frame.
#[derive(Clone, Debug, PartialEq, Eq)]
pub enum CaptureError {
    /// Could not duplicate the output, access denied. The source may show
    /// protected fullscreen content.
    AccessDenied,
    /// Access to the duplicated output was lost, likely because the display
    /// mode changed.
    AccessLost,
    /// Refreshing the outputs after an earlier failure failed in turn.
    RefreshFailure,
    /// No new frame arrived within the session's timeout.
    Timeout,
    /// Any other failure, with a message that describes it.
    Fail(String),
}

/// A [`CaptureError`] with its message as a sequence of characters.
pub enum CaptureErrorView {
    AccessDenied,
    AccessLost,
    RefreshFailure,
    Timeout,
    Fail(Seq<char>),
}

impl View for CaptureError {
    type V = CaptureErrorView;

    open spec fn view(&self) -> CaptureErrorView {
        match self {
            CaptureError::AccessDenied => CaptureErrorView::AccessDenied,
            CaptureError::AccessLost => CaptureErrorView::AccessLost,
            CaptureError::RefreshFailure => CaptureErrorView::RefreshFailure,
            CaptureError::Timeout => CaptureErrorView::Timeout,
            CaptureError::Fail(message) => CaptureErrorView::Fail(message@),
        }
    }
}

/// What the desktop-duplication backend reports when a capture attempt fails.
#[derive(Clone, Debug, PartialEq, Eq)]
pub enum DxgiFailure {
    AccessDenied,
    AccessLost,
    RefreshFailure,
    Timeout,
    Fail(String),
}

/// What the X server backend reports when a capture attempt fails.
#[derive(Clone, Debug, PartialEq, Eq)]
pub enum X11Failure {
    Fail(String),
}

/// A failed capture attempt, as the backend that made it reported it.
#[derive(Clone, Debug, PartialEq, Eq)]
pub enum BackendFailure {
    Dxgi(DxgiFailure),
    X11(X11Failure),
}

impl DxgiFailure {
    /// The caller-visible kind this failure stands for: the kind of the same
    /// name, with the message carried over.
    pub open spec fn normalized(self) -> CaptureErrorView {
        match self {
            DxgiFailure::AccessDenied => CaptureErrorView::AccessDenied,
            DxgiFailure::AccessLost => CaptureErrorView::AccessLost,
            DxgiFailure::RefreshFailure => CaptureErrorView::RefreshFailure,
            DxgiFailure::Timeout => CaptureErrorView::Timeout,
            DxgiFailure::Fail(message) => CaptureErrorView::Fail(message@),
        }
    }
}

impl X11Failure {
    /// The caller-visible kind this failure stands for: always the general
    /// failure, with the message carried over.
    pub open spec fn normalized(self) -> CaptureErrorView {
        match self {
            X11Failure::Fail(message) => CaptureErrorView::Fail(message@),
        }
    }
}

impl BackendFailure {
    /// The caller-visible kind this failure stands for.
    pub open spec fn normalized(self) -> CaptureErrorView {
        match self {
            BackendFailure::Dxgi(failure) => failure.normalized(),
            BackendFailure::X11(failure) => failure.normalized(),
        }
    }
}

impl CaptureError {
    /// Maps a failure of the desktop-duplication backend to the kind of the
    /// same name.
    pub fn from_dxgi(failure: DxgiFailure) -> (error: CaptureError)
        ensures
            error@ == failure.normalized(),
    {
        match failure {
            DxgiFailure::AccessDenied => CaptureError::AccessDenied,
            DxgiFailure::AccessLost => CaptureError::AccessLost,
            DxgiFailure::RefreshFailure => CaptureError::RefreshFailure,
            DxgiFailure::Timeout => CaptureError::Timeout,
            DxgiFailure::Fail(message) => CaptureError::Fail(message),
        }
    }

    /// Maps a failure of the X server backend to the general failure.
    pub fn from_x11(failure: X11Failure) -> (error: CaptureError)
        ensures
            error@ == failure.normalized(),
    {
        match failure {
            X11Failure::Fail(message) => CaptureError::Fail(message),
        }
    }

    /// Maps the failure of either backend into the one set of kinds that
    /// callers handle.
    pub fn from_backend(failure: BackendFailure) -> (error: CaptureError)
        ensures
            error@ == failure.normalized(),
    {
        match failure {
            BackendFailure::Dxgi(failure) => CaptureError::from_dxgi(failure),
            BackendFailure::X11(failure) => CaptureError::from_x11(failure),
        }
    }
}

/// What a caller reads when the X server backend could not be opened. That
/// backend gives no reason of its own.
pub const OPEN_FAILED: &'static str = "Failed to initialize capturer";

/// What a caller reads when a timeout is too long to count in 32 bits of
/// milliseconds.
pub const TIMEOUT_OVERFLOW: &'static str =
    "Failed to convert the given duration to a legal u32 millisecond value due to integer overflow.";

/// What a caller reads when a timeout is asked of a backend that has none.
pub const TIMEOUT_UNSUPPORTED: &'static str =
    "Windows only method. Does nothing on other platforms.";

/// What a caller reads when a backend returned a frame that is not complete.
pub const FRAME_INCOMPLETE: &'static str =
    "Captured frame does not match the dimensions reported with it";

/// A refused attempt to open a capture source, as the backend reported it.
#[derive(Clone, Debug, PartialEq, Eq)]
pub enum OpenFailure {
    /// The desktop-duplication backend refused, with its reason.
    Dxgi(String),
    /// The X server backend refused. It gives no reason.
    X11,
}

impl OpenFailure {
    /// The message that a caller reads for this refusal: the backend's own
    /// reason where it gave one.
    pub open spec fn message(self) -> Seq<char> {
        match self {
            OpenFailure::Dxgi(reason) => reason@,
            OpenFailure::X11 => OPEN_FAILED@,
        }
    }

    /// Turns the refusal into the message that a caller reads.
    pub fn into_message(self) -> (message: String)
        ensures
            message@ == self.message(),
    {
        match self {
            OpenFailure::Dxgi(reason) => reason,
            OpenFailure::X11 => OPEN_FAILED.to_owned(),
        }
    }
}

} // verus!
