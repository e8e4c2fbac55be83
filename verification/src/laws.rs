//! What holds of every session, whatever the backend returns.

use crate::capturer::{capture_outcome, Attempt, CapturerView};
use crate::error::{
    BackendFailure, DxgiFailure, X11Failure, TIMEOUT_OVERFLOW, TIMEOUT_UNSUPPORTED,
};
use crate::frame::{Frame, Geometry};
use crate::pixel::components;
use crate::request::{BackendKind, OpenRequest};
use vstd::prelude::*;

verus! {

/// A capture that succeeds leaves the session with the geometry of its frame:
/// the frame holds one pixel for each place in the observed area, whether it
/// went to the caller or into the session.
pub proof fn lemma_frame_fills_geometry(session: CapturerView, capture: Result<Frame, BackendFailure>)
    requires
        capture_outcome(capture) is Ok,
    ensures
        capture is Ok,
        capture_outcome(capture)->Ok_0 == capture->Ok_0,
        capture->Ok_0.pixels@.len() == session.after_capture(capture).geometry.area(),
        capture->Ok_0.pixels@.len() == session.after_store(capture).geometry.area(),
        components(capture->Ok_0.pixels@).len() == 4 * session.after_capture(capture).geometry.area(),
        session.after_store(capture).geometry == session.after_capture(capture).geometry,
        session.after_store(capture).stored == Some(capture->Ok_0.pixels@),
        session.after_capture(capture).stored == session.stored,
{
}

/// A capture that fails changes nothing: not the geometry, not the stored
/// frame.
pub proof fn lemma_failure_changes_nothing(session: CapturerView, capture: Result<Frame, BackendFailure>)
    requires
        capture_outcome(capture) is Err,
    ensures
        session.after_capture(capture) == session,
        session.after_store(capture) == session,
{
}

/// Two captures in a row each leave the geometry of their own frame behind,
/// whatever the pixels are. Where the display did not change between them, so
/// that both frames have the same sides, the geometry after the second is the
/// geometry after the first.
pub proof fn lemma_consecutive_captures(
    session: CapturerView,
    first: Result<Frame, BackendFailure>,
    second: Result<Frame, BackendFailure>,
)
    requires
        capture_outcome(first) is Ok,
        capture_outcome(second) is Ok,
    ensures
        first->Ok_0.pixels@.len() == session.after_capture(first).geometry.area(),
        second->Ok_0.pixels@.len() == session.after_capture(first).after_capture(
            second,
        ).geometry.area(),
        first->Ok_0.width == second->Ok_0.width && first->Ok_0.height == second->Ok_0.height
            ==> session.after_capture(first).after_capture(second) == session.after_capture(first)
            && first->Ok_0.pixels@.len() == second->Ok_0.pixels@.len(),
{
}

/// A session keeps the request it was opened with, and with it the capture
/// source, for its whole life. The offset of the source does not move either.
pub proof fn lemma_request_is_fixed(session: CapturerView, attempts: Seq<Attempt>)
    ensures
        session.after_all(attempts).request == session.request,
        session.after_all(attempts).geometry.x == session.geometry.x,
        session.after_all(attempts).geometry.y == session.geometry.y,
        session.after_all(attempts).position() == session.position(),
    decreases attempts.len(),
{
    if attempts.len() > 0 {
        lemma_request_is_fixed(session, attempts.drop_last());
    }
}

/// Only a store that succeeds changes the stored frame: over any run of calls
/// without one, the session stores what it stored before.
pub proof fn lemma_stored_frame_is_kept(session: CapturerView, attempts: Seq<Attempt>)
    requires
        forall|i: int| 0 <= i < attempts.len() ==> !(#[trigger] attempts[i]).stores(),
    ensures
        session.after_all(attempts).stored == session.stored,
    decreases attempts.len(),
{
    if attempts.len() > 0 {
        let earlier = attempts.drop_last();
        assert forall|i: int| 0 <= i < earlier.len() implies !(#[trigger] earlier[i]).stores() by {
            assert(earlier[i] == attempts[i]);
        }
        lemma_stored_frame_is_kept(session, earlier);
        assert(!attempts[attempts.len() - 1].stores());
    }
}

/// A fresh session stores nothing until a store has succeeded, whatever else
/// was called on it.
pub proof fn lemma_nothing_stored_at_first(
    request: OpenRequest,
    geometry: Geometry,
    attempts: Seq<Attempt>,
)
    requires
        forall|i: int| 0 <= i < attempts.len() ==> !(#[trigger] attempts[i]).stores(),
    ensures
        CapturerView::opened(request, geometry).after_all(attempts).stored is None,
{
    lemma_stored_frame_is_kept(CapturerView::opened(request, geometry), attempts);
}

/// The stored frame is the frame of the latest store that succeeded: where
/// call `latest` stored a frame and no later call did, the session stores
/// exactly that frame.
pub proof fn lemma_stored_frame_is_latest(session: CapturerView, attempts: Seq<Attempt>, latest: int)
    requires
        0 <= latest < attempts.len(),
        attempts[latest].stores(),
        forall|i: int| latest < i < attempts.len() ==> !(#[trigger] attempts[i]).stores(),
    ensures
        attempts[latest] matches Attempt::Store(Ok(frame)) && session.after_all(attempts).stored
            == Some(frame.pixels@),
    decreases attempts.len(),
{
    let earlier = attempts.drop_last();
    if latest == attempts.len() - 1 {
        assert(attempts.last() == attempts[latest]);
    } else {
        assert(earlier[latest] == attempts[latest]);
        assert forall|i: int| latest < i < earlier.len() implies !(#[trigger] earlier[i]).stores() by {
            assert(earlier[i] == attempts[i]);
        }
        lemma_stored_frame_is_latest(session, earlier, latest);
        assert(!attempts[attempts.len() - 1].stores());
    }
}

/// A timeout that does not fit in 32 bits of milliseconds gives no request,
/// and a timeout that gives one is in it to the millisecond. So no session is
/// ever opened with a timeout that was cut short or wrapped around.
pub proof fn lemma_timeout_is_never_cut(kind: BackendKind, capture_src: usize, total_millis: u128)
    ensures
        total_millis > u32::MAX ==> OpenRequest::timed(kind, capture_src, total_millis) is Err,
        kind is Dxgi && total_millis > u32::MAX ==> OpenRequest::timed(kind, capture_src, total_millis)
            == Err::<OpenRequest, Seq<char>>(TIMEOUT_OVERFLOW@),
        kind is X11 ==> OpenRequest::timed(kind, capture_src, total_millis) == Err::<
            OpenRequest,
            Seq<char>,
        >(TIMEOUT_UNSUPPORTED@),
        OpenRequest::timed(kind, capture_src, total_millis) matches Ok(request) ==> request.timeout()
            == Some(total_millis as u32) && total_millis as u32 == total_millis && request.source()
            == capture_src && request.kind() == kind,
{
}

/// The X server backend has one way to fail, so a session on it never reports
/// denied or lost access, a failed refresh or a timeout.
pub proof fn lemma_x11_failures_are_general(failure: X11Failure)
    ensures
        BackendFailure::X11(failure).normalized() is Fail,
{
}

/// Normalising keeps the kind: a failure of the desktop-duplication backend
/// comes out as the general failure only if it went in as one.
pub proof fn lemma_dxgi_kinds_are_kept(failure: DxgiFailure)
    ensures
        failure.normalized() is AccessDenied <==> failure is AccessDenied,
        failure.normalized() is AccessLost <==> failure is AccessLost,
        failure.normalized() is RefreshFailure <==> failure is RefreshFailure,
        failure.normalized() is Timeout <==> failure is Timeout,
        failure.normalized() is Fail <==> failure is Fail,
{
}

} // verus!
