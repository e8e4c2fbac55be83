//! Screen-capture sessions, kept apart from the platform that grabs the pixels.
//!
//! A [`Capturer`] is the state of one capture session: the request it was
//! opened with, the geometry last observed and the frame last stored. It never
//! talks to a display itself. The platform layer opens the capture source and
//! grabs frames, and hands each outcome to the session, which decides what the
//! caller gets and what the session remembers.

pub mod capturer;
pub mod error;
pub mod frame;
pub mod laws;
pub mod pixel;
pub mod request;
pub mod timeout;

pub use capturer::{capture_outcome, Attempt, Capturer, CapturerView};
pub use error::{
    BackendFailure, CaptureError, CaptureErrorView, DxgiFailure, OpenFailure, X11Failure,
    FRAME_INCOMPLETE, OPEN_FAILED, TIMEOUT_OVERFLOW, TIMEOUT_UNSUPPORTED,
};
pub use frame::{Frame, Geometry};
pub use pixel::{components, frame_components, Bgr8};
pub use request::{BackendKind, OpenRequest};
pub use timeout::{
    duration_millis, millis_to_timeout, timeout_millis, timeout_of_millis, DEFAULT_TIMEOUT_MS,
};
