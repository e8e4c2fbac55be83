//! What a backend is asked to open, decided before any display is touched.

use crate::error::{TIMEOUT_OVERFLOW, TIMEOUT_UNSUPPORTED};
use crate::timeout::{duration_millis, millis_to_timeout, DEFAULT_TIMEOUT_MS};
use core::time::Duration;
use vstd::prelude::*;

verus! {

/// The two ways to capture a screen. A session uses one of them for its whole
/// life.
#[derive(Clone, Copy, Debug, PartialEq, Eq, Structural)]
pub enum BackendKind {
    /// Desktop duplication on the GPU. Waits for a new frame, up to a timeout.
    Dxgi,
    /// Image transfer from the X server. Knows where each monitor lies among
    /// the displays, and has no timeout.
    X11,
}

/// What the platform layer is to open: the capture source, and what else the
/// chosen backend takes.
#[derive(Clone, Copy, Debug, PartialEq, Eq, Structural)]
pub enum OpenRequest {
    /// Duplicate output `capture_src`, and let each capture attempt wait up to
    /// `timeout_ms` milliseconds for a new frame.
    Dxgi { capture_src: usize, timeout_ms: u32 },
    /// Capture the area of monitor `monitor`.
    X11 { monitor: usize },
}

impl OpenRequest {
    /// The backend that the request is for.
    pub open spec fn kind(self) -> BackendKind {
        match self {
            OpenRequest::Dxgi { .. } => BackendKind::Dxgi,
            OpenRequest::X11 { .. } => BackendKind::X11,
        }
    }

    /// The index of the capture source.
    pub open spec fn source(self) -> usize {
        match self {
            OpenRequest::Dxgi { capture_src, .. } => capture_src,
            OpenRequest::X11 { monitor } => monitor,
        }
    }

    /// How long a capture attempt may wait, in milliseconds, where the backend
    /// has a timeout.
    pub open spec fn timeout(self) -> Option<u32> {
        match self {
            OpenRequest::Dxgi { timeout_ms, .. } => Some(timeout_ms),
            OpenRequest::X11 { .. } => None,
        }
    }

    /// The request for a source when the caller names no timeout: the backend
    /// gets the default one, where it has any.
    pub open spec fn plain(kind: BackendKind, capture_src: usize) -> OpenRequest {
        match kind {
            BackendKind::Dxgi => OpenRequest::Dxgi { capture_src, timeout_ms: DEFAULT_TIMEOUT_MS },
            BackendKind::X11 => OpenRequest::X11 { monitor: capture_src },
        }
    }

    /// The request for a source when the caller asks for a timeout of
    /// `total_millis` milliseconds, or the message that tells why there is
    /// none: the backend has no timeout, or the number does not fit in the 32
    /// bits that it counts in.
    pub open spec fn timed(kind: BackendKind, capture_src: usize, total_millis: u128) -> Result<
        OpenRequest,
        Seq<char>,
    > {
        match kind {
            BackendKind::X11 => Err(TIMEOUT_UNSUPPORTED@),
            BackendKind::Dxgi => if total_millis <= u32::MAX {
                Ok(OpenRequest::Dxgi { capture_src, timeout_ms: total_millis as u32 })
            } else {
                Err(TIMEOUT_OVERFLOW@)
            },
        }
    }

    /// Whether `result` is the request, or carries the message, that `expected`
    /// gives.
    pub open spec fn agrees(
        result: Result<OpenRequest, String>,
        expected: Result<OpenRequest, Seq<char>>,
    ) -> bool {
        match expected {
            Ok(request) => result == Ok::<OpenRequest, String>(request),
            Err(message) => result matches Err(text) && text@ == message,
        }
    }

    /// The request for `capture_src` with the default timeout.
    pub fn new(kind: BackendKind, capture_src: usize) -> (request: OpenRequest)
        ensures
            request == OpenRequest::plain(kind, capture_src),
    {
        match kind {
            BackendKind::Dxgi => OpenRequest::Dxgi { capture_src, timeout_ms: DEFAULT_TIMEOUT_MS },
            BackendKind::X11 => OpenRequest::X11 { monitor: capture_src },
        }
    }

    /// The request for `capture_src` with a timeout of `total_millis`
    /// milliseconds. On a backend without timeouts this fails, whatever the
    /// number; on the other it fails exactly when the number is over
    /// `u32::MAX`.
    pub fn new_with_millis(kind: BackendKind, capture_src: usize, total_millis: u128) -> (result:
        Result<OpenRequest, String>)
        ensures
            OpenRequest::agrees(result, OpenRequest::timed(kind, capture_src, total_millis)),
            result is Ok <==> kind is Dxgi && total_millis <= u32::MAX,
    {
        match kind {
            BackendKind::X11 => Err(TIMEOUT_UNSUPPORTED.to_owned()),
            BackendKind::Dxgi => match millis_to_timeout(total_millis) {
                Some(timeout_ms) => Ok(OpenRequest::Dxgi { capture_src, timeout_ms }),
                None => Err(TIMEOUT_OVERFLOW.to_owned()),
            },
        }
    }

    /// The request for `capture_src` with the given timeout, counted in whole
    /// milliseconds.
    pub fn new_with_timeout(kind: BackendKind, capture_src: usize, timeout: Duration) -> (result:
        Result<OpenRequest, String>)
        ensures
            OpenRequest::agrees(
                result,
                OpenRequest::timed(kind, capture_src, duration_millis(timeout)),
            ),
    {
        OpenRequest::new_with_millis(kind, capture_src, timeout.as_millis())
    }

    /// The backend that the request is for.
    pub fn backend(&self) -> (kind: BackendKind)
        ensures
            kind == self.kind(),
    {
        match self {
            OpenRequest::Dxgi { .. } => BackendKind::Dxgi,
            OpenRequest::X11 { .. } => BackendKind::X11,
        }
    }

    /// The index of the capture source.
    pub fn capture_source(&self) -> (capture_src: usize)
        ensures
            capture_src == self.source(),
    {
        match self {
            OpenRequest::Dxgi { capture_src, .. } => *capture_src,
            OpenRequest::X11 { monitor } => *monitor,
        }
    }

    /// The timeout of a capture attempt in milliseconds, where the backend has
    /// one.
    pub fn timeout_ms(&self) -> (timeout: Option<u32>)
        ensures
            timeout == self.timeout(),
    {
        match self {
            OpenRequest::Dxgi { timeout_ms, .. } => Some(*timeout_ms),
            OpenRequest::X11 { .. } => None,
        }
    }
}

} // verus!
