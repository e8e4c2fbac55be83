use captrs::{
    BackendFailure, BackendKind, Bgr8, CaptureError, Capturer, DxgiFailure, Frame, Geometry,
    OpenFailure, OpenRequest, X11Failure, FRAME_INCOMPLETE, OPEN_FAILED,
};

fn display(width: u32, height: u32) -> Result<Geometry, OpenFailure> {
    Ok(Geometry { x: 0, y: 0, width, height })
}

fn pixel(seed: usize) -> Bgr8 {
    Bgr8 { b: seed as u8, g: (seed >> 8) as u8, r: (seed >> 16) as u8, a: 255 }
}

fn frame(width: usize, height: usize) -> Result<Frame, BackendFailure> {
    Ok(Frame { pixels: (0..width * height).map(pixel).collect(), width, height })
}

fn tinted(width: usize, height: usize, tint: u8) -> Result<Frame, BackendFailure> {
    let pixels = vec![Bgr8 { b: tint, g: tint, r: tint, a: 0 }; width * height];
    Ok(Frame { pixels, width, height })
}

fn dxgi(failure: DxgiFailure) -> Result<Frame, BackendFailure> {
    Err(BackendFailure::Dxgi(failure))
}

#[test]
fn lib_test_capture() {
    let mut capturer = Capturer::new(BackendKind::X11, 0, display(1280, 720)).unwrap();

    let (w, h) = capturer.geometry();

    let frame = capturer.capture_frame(frame(1280, 720)).unwrap();

    assert_eq!((w * h) as usize, frame.len())
}

#[test]
fn test_capture_components() {
    let mut capturer = Capturer::new(BackendKind::Dxgi, 0, display(1280, 720)).unwrap();

    let (w, h) = capturer.geometry();

    let frame = capturer.capture_frame_components(frame(1280, 720)).unwrap();

    assert_eq!((w * h * 4) as usize, frame.len())
}

#[test]
fn stable_full_hd_display() {
    let mut capturer = Capturer::new(BackendKind::Dxgi, 0, display(1920, 1080)).unwrap();
    assert_eq!(capturer.geometry(), (1920, 1080));
    let pixels = capturer.capture_frame(frame(1920, 1080)).unwrap();
    assert_eq!(pixels.len(), 2_073_600);
    assert_eq!(capturer.geometry(), (1920, 1080));
    assert_eq!(pixels[0], pixel(0));
    assert_eq!(pixels[2_073_599], pixel(2_073_599));
}

#[test]
fn fresh_session_stores_nothing() {
    let mut capturer = Capturer::new(BackendKind::X11, 1, display(4, 3)).unwrap();
    assert!(capturer.get_stored_frame().is_none());
    capturer.capture_frame(frame(4, 3)).unwrap();
    assert!(capturer.get_stored_frame().is_none());
    capturer.capture_frame_components(frame(4, 3)).unwrap();
    assert!(capturer.get_stored_frame().is_none());
    let failed = capturer.capture_store_frame(Err(BackendFailure::X11(X11Failure::Fail(
        "XGetImage returned null pointer".to_string(),
    ))));
    assert!(failed.is_err());
    assert!(capturer.get_stored_frame().is_none());
}

#[test]
fn store_keeps_frame_and_geometry() {
    let mut capturer = Capturer::new(BackendKind::X11, 0, display(4, 3)).unwrap();
    assert_eq!(capturer.capture_store_frame(frame(5, 2)), Ok(()));
    let (w, h) = capturer.geometry();
    assert_eq!((w, h), (5, 2));
    let stored = capturer.get_stored_frame().unwrap();
    assert_eq!(stored.len(), (w * h) as usize);
    let expected: Vec<Bgr8> = (0..10).map(pixel).collect();
    assert_eq!(stored, &expected[..]);
}

#[test]
fn store_replaces_previous_frame() {
    let mut capturer = Capturer::new(BackendKind::Dxgi, 0, display(2, 2)).unwrap();
    capturer.capture_store_frame(tinted(2, 2, 10)).unwrap();
    capturer.capture_store_frame(tinted(3, 1, 20)).unwrap();
    let stored = capturer.get_stored_frame().unwrap();
    assert_eq!(stored, &[Bgr8 { b: 20, g: 20, r: 20, a: 0 }; 3][..]);
    assert_eq!(capturer.geometry(), (3, 1));
}

#[test]
fn failed_store_keeps_previous_frame() {
    let mut capturer = Capturer::new(BackendKind::Dxgi, 0, display(2, 2)).unwrap();
    capturer.capture_store_frame(tinted(2, 2, 7)).unwrap();
    let before: Vec<Bgr8> = capturer.get_stored_frame().unwrap().to_vec();

    assert_eq!(capturer.capture_store_frame(dxgi(DxgiFailure::Timeout)), Err(CaptureError::Timeout));
    assert_eq!(capturer.get_stored_frame().unwrap(), &before[..]);
    assert_eq!(capturer.geometry(), (2, 2));

    let short = Ok(Frame { pixels: vec![pixel(1); 3], width: 2, height: 2 });
    assert!(capturer.capture_store_frame(short).is_err());
    assert_eq!(capturer.get_stored_frame().unwrap(), &before[..]);
    assert_eq!(capturer.geometry(), (2, 2));
}

#[test]
fn capture_leaves_stored_frame_alone() {
    let mut capturer = Capturer::new(BackendKind::X11, 0, display(2, 1)).unwrap();
    capturer.capture_store_frame(tinted(2, 1, 1)).unwrap();
    let pixels = capturer.capture_frame(tinted(2, 1, 2)).unwrap();
    assert_eq!(pixels, vec![Bgr8 { b: 2, g: 2, r: 2, a: 0 }; 2]);
    assert_eq!(capturer.get_stored_frame().unwrap(), &[Bgr8 { b: 1, g: 1, r: 1, a: 0 }; 2][..]);
}

#[test]
fn consecutive_captures_match_geometry() {
    let mut capturer = Capturer::new(BackendKind::Dxgi, 0, display(6, 4)).unwrap();
    let first = capturer.capture_frame(tinted(6, 4, 1)).unwrap();
    let (w, h) = capturer.geometry();
    assert_eq!(first.len(), (w * h) as usize);
    let second = capturer.capture_frame(tinted(6, 4, 200)).unwrap();
    assert_eq!(capturer.geometry(), (w, h));
    assert_eq!(second.len(), (w * h) as usize);
    assert_ne!(first, second);
}

#[test]
fn geometry_follows_mode_change() {
    let mut capturer = Capturer::new(BackendKind::Dxgi, 0, display(800, 600)).unwrap();
    let pixels = capturer.capture_frame(frame(640, 480)).unwrap();
    assert_eq!(capturer.geometry(), (640, 480));
    assert_eq!(pixels.len(), 640 * 480);
    let empty = capturer.capture_frame(frame(0, 480)).unwrap();
    assert_eq!(capturer.geometry(), (0, 480));
    assert!(empty.is_empty());
}

#[test]
fn source_becomes_inaccessible() {
    let mut capturer = Capturer::new(BackendKind::Dxgi, 0, display(3, 3)).unwrap();
    capturer.capture_frame(frame(3, 3)).unwrap();
    assert_eq!(capturer.capture_frame(dxgi(DxgiFailure::AccessDenied)), Err(CaptureError::AccessDenied));
    assert_eq!(capturer.capture_frame(dxgi(DxgiFailure::AccessLost)), Err(CaptureError::AccessLost));
    assert_eq!(
        capturer.capture_frame_components(dxgi(DxgiFailure::RefreshFailure)),
        Err(CaptureError::RefreshFailure)
    );
    assert_eq!(capturer.capture_store_frame(dxgi(DxgiFailure::Timeout)), Err(CaptureError::Timeout));
    assert_eq!(
        capturer.capture_frame(dxgi(DxgiFailure::Fail("Failed to map surface".to_string()))),
        Err(CaptureError::Fail("Failed to map surface".to_string()))
    );
    assert_eq!(capturer.geometry(), (3, 3));
    assert!(capturer.get_stored_frame().is_none());
    assert_eq!(capturer.capture_frame(frame(3, 3)).unwrap().len(), 9);
}

#[test]
fn x11_failure_is_general_failure() {
    let mut capturer = Capturer::new(BackendKind::X11, 0, display(3, 3)).unwrap();
    let failed = capturer
        .capture_frame(Err(BackendFailure::X11(X11Failure::Fail("Wrong layout".to_string()))));
    assert_eq!(failed, Err(CaptureError::Fail("Wrong layout".to_string())));
}

#[test]
fn incomplete_frame_is_refused() {
    let mut capturer = Capturer::new(BackendKind::Dxgi, 0, display(2, 2)).unwrap();
    let refused = Err(CaptureError::Fail(FRAME_INCOMPLETE.to_string()));

    let short = Frame { pixels: vec![pixel(0); 3], width: 2, height: 2 };
    assert_eq!(capturer.capture_frame(Ok(short)), refused);
    let long = Frame { pixels: vec![pixel(0); 5], width: 2, height: 2 };
    assert_eq!(capturer.capture_frame(Ok(long)), refused);
    let wide = Frame { pixels: Vec::new(), width: u32::MAX as usize + 1, height: 0 };
    assert_eq!(capturer.capture_frame(Ok(wide)), refused);
    let tall = Frame { pixels: Vec::new(), width: 0, height: u32::MAX as usize + 1 };
    assert_eq!(capturer.capture_frame(Ok(tall)), refused);
    let wrapped = Frame { pixels: Vec::new(), width: 1 << 32, height: 1 << 32 };
    assert_eq!(capturer.capture_frame(Ok(wrapped)), refused);
    assert_eq!(capturer.geometry(), (2, 2));

    let widest = Frame { pixels: Vec::new(), width: u32::MAX as usize, height: 0 };
    assert_eq!(capturer.capture_frame(Ok(widest)), Ok(Vec::new()));
    assert_eq!(capturer.geometry(), (u32::MAX, 0));
}

#[test]
fn position_only_where_displays_have_offsets() {
    let placed = Ok(Geometry { x: 1920, y: -120, width: 1280, height: 1024 });
    let mut on_x11 = Capturer::new(BackendKind::X11, 1, placed.clone()).unwrap();
    assert_eq!(on_x11.position(), Some((1920, -120)));
    on_x11.capture_store_frame(frame(1024, 768)).unwrap();
    assert_eq!(on_x11.position(), Some((1920, -120)));
    assert_eq!(on_x11.geometry(), (1024, 768));

    let on_dxgi = Capturer::new(BackendKind::Dxgi, 1, placed).unwrap();
    assert_eq!(on_dxgi.position(), None);
    assert_eq!(on_dxgi.geometry(), (1280, 1024));
}

#[test]
fn session_keeps_its_request() {
    let mut capturer = Capturer::new(BackendKind::Dxgi, 2, display(2, 2)).unwrap();
    let request = OpenRequest::Dxgi { capture_src: 2, timeout_ms: 200 };
    assert_eq!(capturer.request(), request);
    capturer.capture_store_frame(frame(4, 4)).unwrap();
    assert!(capturer.capture_frame(dxgi(DxgiFailure::AccessLost)).is_err());
    assert_eq!(capturer.request(), request);
    assert_eq!(capturer.request().capture_source(), 2);
    assert_eq!(capturer.request().backend(), BackendKind::Dxgi);
    assert_eq!(capturer.request().timeout_ms(), Some(200));

    let on_x11 = Capturer::new(BackendKind::X11, 3, display(2, 2)).unwrap();
    assert_eq!(on_x11.request(), OpenRequest::X11 { monitor: 3 });
    assert_eq!(on_x11.request().capture_source(), 3);
    assert_eq!(on_x11.request().backend(), BackendKind::X11);
    assert_eq!(on_x11.request().timeout_ms(), None);
}

#[test]
fn refused_opening_makes_no_session() {
    let reason = "Failed to acquire output duplication".to_string();
    let refused = Capturer::new(BackendKind::Dxgi, 0, Err(OpenFailure::Dxgi(reason.clone())));
    assert_eq!(refused.err(), Some(reason));

    let refused = Capturer::new(BackendKind::X11, 0, Err(OpenFailure::X11));
    assert_eq!(refused.err(), Some("Failed to initialize capturer".to_string()));
    assert_eq!(OpenFailure::X11.into_message(), OPEN_FAILED);

    let request = OpenRequest::new(BackendKind::X11, 5);
    assert!(Capturer::open(request, Err(OpenFailure::X11)).is_err());
    let opened = Capturer::open(request, display(10, 20)).unwrap();
    assert_eq!(opened.geometry(), (10, 20));
    assert_eq!(opened.request(), request);
    assert!(opened.get_stored_frame().is_none());
}
