//! The capture session: what it remembers, and what each backend outcome
//! does to it.

use crate::error::{BackendFailure, CaptureError, CaptureErrorView, OpenFailure, FRAME_INCOMPLETE};
use crate::frame::{Frame, Geometry};
use crate::pixel::{components, frame_components, Bgr8};
use crate::request::{BackendKind, OpenRequest};
use crate::timeout::duration_millis;
use core::time::Duration;
use vstd::prelude::*;

verus! {

/// A session as contracts see it.
pub struct CapturerView {
    /// What the session was opened with. It never changes.
    pub request: OpenRequest,
    /// The geometry last observed: that of the opening, then that of the
    /// latest capture that succeeded.
    pub geometry: Geometry,
    /// The stored frame, if a store has succeeded yet.
    pub stored: Option<Seq<Bgr8>>,
}

/// What one capture attempt comes to: the frame, where the backend returned a
/// complete one, and else the error that the caller gets.
pub open spec fn capture_outcome(capture: Result<Frame, BackendFailure>) -> Result<
    Frame,
    CaptureErrorView,
> {
    match capture {
        Ok(frame) => if frame.complete() {
            Ok(frame)
        } else {
            Err(CaptureErrorView::Fail(FRAME_INCOMPLETE@))
        },
        Err(failure) => Err(failure.normalized()),
    }
}

/// One call on a session: a capture whose frame goes to the caller, as pixels
/// or as bytes, or a capture whose frame is stored. Each carries what the
/// backend returned for it.
pub enum Attempt {
    Capture(Result<Frame, BackendFailure>),
    Store(Result<Frame, BackendFailure>),
}

impl Attempt {
    /// Whether the call stores a frame: it is a store, and its capture
    /// succeeded.
    pub open spec fn stores(self) -> bool {
        self matches Attempt::Store(capture) && capture_outcome(capture) is Ok
    }
}

impl CapturerView {
    /// The session right after it was opened: nothing is stored yet.
    pub open spec fn opened(request: OpenRequest, geometry: Geometry) -> CapturerView {
        CapturerView { request, geometry, stored: None }
    }

    /// What opening comes to: a fresh session where the backend opened the
    /// source, and else the message of its refusal.
    pub open spec fn open_outcome(
        request: OpenRequest,
        opening: Result<Geometry, OpenFailure>,
    ) -> Result<CapturerView, Seq<char>> {
        match opening {
            Ok(geometry) => Ok(CapturerView::opened(request, geometry)),
            Err(failure) => Err(failure.message()),
        }
    }

    /// The session after a capture whose frame goes to the caller. A capture
    /// that succeeded leaves its dimensions behind; one that failed leaves
    /// nothing.
    pub open spec fn after_capture(self, capture: Result<Frame, BackendFailure>) -> CapturerView {
        match capture_outcome(capture) {
            Ok(frame) => CapturerView {
                request: self.request,
                geometry: self.geometry.resized(frame.width as u32, frame.height as u32),
                stored: self.stored,
            },
            Err(_) => self,
        }
    }

    /// The session after a capture whose frame is stored. A capture that
    /// succeeded replaces the stored frame and leaves its dimensions behind;
    /// one that failed leaves nothing.
    pub open spec fn after_store(self, capture: Result<Frame, BackendFailure>) -> CapturerView {
        match capture_outcome(capture) {
            Ok(frame) => CapturerView {
                request: self.request,
                geometry: self.geometry.resized(frame.width as u32, frame.height as u32),
                stored: Some(frame.pixels@),
            },
            Err(_) => self,
        }
    }

    /// The session after one call.
    pub open spec fn after(self, attempt: Attempt) -> CapturerView {
        match attempt {
            Attempt::Capture(capture) => self.after_capture(capture),
            Attempt::Store(capture) => self.after_store(capture),
        }
    }

    /// The session after a run of calls, in order.
    pub open spec fn after_all(self, attempts: Seq<Attempt>) -> CapturerView
        decreases attempts.len(),
    {
        if attempts.len() == 0 {
            self
        } else {
            self.after_all(attempts.drop_last()).after(attempts.last())
        }
    }

    /// The offset of the capture source from the primary display, on the
    /// backend that knows of several displays.
    pub open spec fn position(self) -> Option<(i32, i32)> {
        match self.request.kind() {
            BackendKind::X11 => Some((self.geometry.x, self.geometry.y)),
            BackendKind::Dxgi => None,
        }
    }
}

/// A screen capturer: the session on one capture source.
///
/// The session owns no display connection. Whoever owns it opens the source as
/// the session's [`OpenRequest`] says, grabs a frame for each capture call and
/// passes on what the backend returned.
#[derive(Debug)]
pub struct Capturer {
    request: OpenRequest,
    geometry: Geometry,
    image: Option<Vec<Bgr8>>,
}

impl View for Capturer {
    type V = CapturerView;

    closed spec fn view(&self) -> CapturerView {
        CapturerView {
            request: self.request,
            geometry: self.geometry,
            stored: match self.image {
                Some(pixels) => Some(pixels@),
                None => None,
            },
        }
    }
}

impl Capturer {
    /// Whether `result` is the session, or carries the message, that
    /// `expected` gives.
    pub open spec fn agrees(
        result: Result<Capturer, String>,
        expected: Result<CapturerView, Seq<char>>,
    ) -> bool {
        match expected {
            Ok(session) => result matches Ok(capturer) && capturer@ == session,
            Err(message) => result matches Err(text) && text@ == message,
        }
    }

    /// Completes the opening of a session. `opening` is what the backend
    /// answered to `request`: the geometry of the source, or its refusal. On a
    /// refusal no session is made, and the caller reads the backend's reason.
    pub fn open(request: OpenRequest, opening: Result<Geometry, OpenFailure>) -> (result: Result<
        Capturer,
        String,
    >)
        ensures
            Capturer::agrees(result, CapturerView::open_outcome(request, opening)),
            result is Ok <==> opening is Ok,
    {
        match opening {
            Ok(geometry) => Ok(Capturer { request, geometry, image: None }),
            Err(failure) => Err(failure.into_message()),
        }
    }

    /// Makes a session on `capture_src` with the default timeout. `opening` is
    /// what the backend answered to `OpenRequest::new(kind, capture_src)`.
    pub fn new(kind: BackendKind, capture_src: usize, opening: Result<Geometry, OpenFailure>) -> (result:
        Result<Capturer, String>)
        ensures
            Capturer::agrees(
                result,
                CapturerView::open_outcome(OpenRequest::plain(kind, capture_src), opening),
            ),
            result is Ok <==> opening is Ok,
            result matches Ok(capturer) ==> capturer@.stored is None,
    {
        Capturer::open(OpenRequest::new(kind, capture_src), opening)
    }

    /// Makes a session on `capture_src` whose capture attempts wait up to
    /// `timeout`. `opening` is what the backend answered to
    /// `OpenRequest::new_with_timeout(kind, capture_src, timeout)`; where that
    /// request cannot be made, this fails with the same message and `opening`
    /// is not looked at. So a timeout that does not fit in 32 bits of
    /// milliseconds always fails, and none is ever shortened to fit.
    pub fn new_with_timeout(
        kind: BackendKind,
        capture_src: usize,
        timeout: Duration,
        opening: Result<Geometry, OpenFailure>,
    ) -> (result: Result<Capturer, String>)
        ensures
            Capturer::agrees(
                result,
                match OpenRequest::timed(kind, capture_src, duration_millis(timeout)) {
                    Ok(request) => CapturerView::open_outcome(request, opening),
                    Err(message) => Err(message),
                },
            ),
            result is Ok <==> kind is Dxgi && duration_millis(timeout) <= u32::MAX && opening is Ok,
            result matches Ok(capturer) ==> capturer@.stored is None
                && capturer@.request.timeout() == Some(duration_millis(timeout) as u32),
    {
        match OpenRequest::new_with_timeout(kind, capture_src, timeout) {
            Ok(request) => Capturer::open(request, opening),
            Err(message) => Err(message),
        }
    }

    /// What the session was opened with.
    pub fn request(&self) -> (request: OpenRequest)
        ensures
            request == self@.request,
    {
        self.request
    }

    /// Returns the width and height of the area to capture, as last observed.
    pub fn geometry(&self) -> (size: (u32, u32))
        ensures
            size == (self@.geometry.width, self@.geometry.height),
    {
        (self.geometry.width, self.geometry.height)
    }

    /// Returns the horizontal and vertical offset of the capture source from
    /// the primary display, on the backend that knows of several displays.
    pub fn position(&self) -> (offset: Option<(i32, i32)>)
        ensures
            offset == self@.position(),
            offset is Some <==> self@.request.kind() is X11,
    {
        match self.request {
            OpenRequest::X11 { .. } => Some((self.geometry.x, self.geometry.y)),
            OpenRequest::Dxgi { .. } => None,
        }
    }

    /// Takes in what the backend returned for one capture attempt. A complete
    /// frame becomes the observed geometry and is handed back; anything else
    /// becomes the caller's error and leaves the session as it was.
    fn observe(&mut self, capture: Result<Frame, BackendFailure>) -> (result: Result<
        Vec<Bgr8>,
        CaptureError,
    >)
        ensures
            final(self)@ == old(self)@.after_capture(capture),
            match capture_outcome(capture) {
                Ok(frame) => result matches Ok(pixels) && pixels@ == frame.pixels@,
                Err(error) => result matches Err(reported) && reported@ == error,
            },
    {
        match capture {
            Ok(frame) => {
                if frame.is_complete() {
                    self.geometry = Geometry {
                        x: self.geometry.x,
                        y: self.geometry.y,
                        width: frame.width as u32,
                        height: frame.height as u32,
                    };
                    Ok(frame.pixels)
                } else {
                    Err(CaptureError::Fail(FRAME_INCOMPLETE.to_owned()))
                }
            },
            Err(failure) => Err(CaptureError::from_backend(failure)),
        }
    }

    /// Captures the screen and returns the pixels. `capture` is what the
    /// backend returned for this attempt.
    ///
    /// The stored frame is not touched.
    pub fn capture_frame(&mut self, capture: Result<Frame, BackendFailure>) -> (result: Result<
        Vec<Bgr8>,
        CaptureError,
    >)
        ensures
            final(self)@ == old(self)@.after_capture(capture),
            match capture_outcome(capture) {
                Ok(frame) => result matches Ok(pixels) && pixels@ == frame.pixels@,
                Err(error) => result matches Err(reported) && reported@ == error,
            },
            result matches Ok(pixels) ==> pixels@.len() == final(self)@.geometry.area(),
            result is Err ==> final(self)@ == old(self)@,
    {
        self.observe(capture)
    }

    /// Captures the screen and returns the pixels as bytes: blue, green, red
    /// and the fourth byte of each pixel in turn. `capture` is what the backend
    /// returned for this attempt.
    ///
    /// The stored frame is not touched.
    pub fn capture_frame_components(&mut self, capture: Result<Frame, BackendFailure>) -> (result:
        Result<Vec<u8>, CaptureError>)
        ensures
            final(self)@ == old(self)@.after_capture(capture),
            match capture_outcome(capture) {
                Ok(frame) => result matches Ok(bytes) && bytes@ == components(frame.pixels@),
                Err(error) => result matches Err(reported) && reported@ == error,
            },
            result matches Ok(bytes) ==> bytes@.len() == 4 * final(self)@.geometry.area(),
            result is Err ==> final(self)@ == old(self)@,
    {
        match self.observe(capture) {
            Ok(pixels) => Ok(frame_components(pixels.as_slice())),
            Err(error) => Err(error),
        }
    }

    /// Captures the screen and stores the frame in the session, in place of
    /// the one stored before. `capture` is what the backend returned for this
    /// attempt.
    ///
    /// An attempt that fails leaves the session, and so the frame stored
    /// before, as it was.
    pub fn capture_store_frame(&mut self, capture: Result<Frame, BackendFailure>) -> (result:
        Result<(), CaptureError>)
        ensures
            final(self)@ == old(self)@.after_store(capture),
            match capture_outcome(capture) {
                Ok(frame) => result is Ok,
                Err(error) => result matches Err(reported) && reported@ == error,
            },
            result is Ok ==> (final(self)@.stored matches Some(pixels)
                && pixels.len() == final(self)@.geometry.area()),
            result is Err ==> final(self)@ == old(self)@,
    {
        match self.observe(capture) {
            Ok(pixels) => {
                self.image = Some(pixels);
                Ok(())
            },
            Err(error) => Err(error),
        }
    }

    /// Gets the frame last stored by [`Capturer::capture_store_frame`], if one
    /// has ever been stored.
    pub fn get_stored_frame(&self) -> (stored: Option<&[Bgr8]>)
        ensures
            match stored {
                Some(pixels) => self@.stored == Some(pixels@),
                None => self@.stored is None,
            },
    {
        match &self.image {
            Some(pixels) => Some(pixels.as_slice()),
            None => None,
        }
    }
}

} // verus!
