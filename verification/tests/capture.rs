use wdotool::errors::{Capability, OutputResolutionError, WdError};
use wdotool::session::{AppData, Buffer, SessionEvent};

fn named_output_store() -> AppData {
    let mut s = AppData::default();
    s.event(SessionEvent::Global { interface: "wl_output".to_string(), id: 1 });
    s.event(SessionEvent::OutputName { id: 1, name: "eDP-1".to_string() });
    s
}

#[test]
fn capture_needs_the_screencopy_manager() {
    let mut s = named_output_store();
    assert_eq!(
        s.capture_begin(None),
        Err(WdError::CapabilityMissing(Capability::ScreencopyManager))
    );
}

#[test]
fn capture_resolution_errors_come_first() {
    let mut s = AppData::default();
    s.event(SessionEvent::Global { interface: "zwlr_screencopy_manager_v1".to_string(), id: 4 });
    assert_eq!(
        s.capture_begin(None),
        Err(WdError::OutputResolution(OutputResolutionError::NoOutputs))
    );
}

#[test]
fn capture_handshake_runs_in_order() {
    let mut s = named_output_store();
    s.event(SessionEvent::Global { interface: "zwlr_screencopy_manager_v1".to_string(), id: 4 });
    s.event(SessionEvent::Global { interface: "wl_shm".to_string(), id: 5 });

    let id = s.capture_begin(Some(&"eDP-1".to_string())).unwrap();
    assert_eq!(id, 1);
    assert!(!s.screencopy_buffer_set());

    s.event(SessionEvent::ScreencopyBuffer { format: 1, width: 1920, height: 1080, stride: 7680 });
    assert!(s.screencopy_buffer_set());

    let buffer = s.capture_buffer_params();
    assert_eq!(
        (buffer.format, buffer.width, buffer.height, buffer.stride),
        (1, 1920, 1080, 7680)
    );
    assert_eq!(buffer.size(), 1920 * 1080 * 4);
    assert_eq!(buffer.checked_size(), Some(1920 * 1080 * 4));

    s.capture_mark_in_flight();
    assert!(s.screencopy_in_progress);
    s.event(SessionEvent::ScreencopyReady);
    assert!(!s.screencopy_in_progress);

    let done = s.capture_finish();
    assert_eq!((done.width, done.height), (1920, 1080));
    assert!(s.screencopy.is_none());
}

#[test]
fn buffer_size_is_four_bytes_per_pixel() {
    let b = Buffer { format: 1, width: 3, height: 2, stride: 12 };
    assert_eq!(b.size(), 24);
    // the advertised stride does not enter the size
    let b = Buffer { format: 1, width: 3, height: 2, stride: 100 };
    assert_eq!(b.size(), 24);
}
