use wdotool::errors::{Capability, OutputResolutionError, WdError};
use wdotool::session::{AppData, GlobalBinding, SessionEvent};

fn store() -> AppData {
    AppData::default()
}

fn global(interface: &str, id: u32) -> SessionEvent {
    SessionEvent::Global { interface: interface.to_string(), id }
}

#[test]
fn registry_globals_bind_capabilities() {
    let mut s = store();
    assert_eq!(s.event(global("wl_seat", 1)), GlobalBinding::Seat);
    assert_eq!(
        s.event(global("zwp_virtual_keyboard_manager_v1", 2)),
        GlobalBinding::VirtualKeyboardManager
    );
    assert_eq!(
        s.event(global("zwlr_virtual_pointer_manager_v1", 3)),
        GlobalBinding::VirtualPointerManager
    );
    assert_eq!(
        s.event(global("zwlr_screencopy_manager_v1", 4)),
        GlobalBinding::ScreencopyManager
    );
    assert_eq!(s.event(global("wl_shm", 5)), GlobalBinding::Shm);
    assert_eq!(s.event(global("wl_output", 6)), GlobalBinding::Output(6));
    assert!(s.seat && s.vkm && s.vpm && s.screencopy_manager && s.shm);
    assert_eq!(s.outputs.len(), 1);
    for c in [
        Capability::Seat,
        Capability::VirtualKeyboardManager,
        Capability::VirtualPointerManager,
        Capability::ScreencopyManager,
        Capability::ShmFactory,
    ] {
        assert_eq!(s.require_capability(c), Ok(()));
    }
}

#[test]
fn unknown_interface_binds_nothing() {
    let mut s = store();
    assert_eq!(s.event(global("wl_compositor", 9)), GlobalBinding::NoBind);
    assert!(!s.seat && !s.vkm && !s.vpm && !s.screencopy_manager && !s.shm);
    assert!(s.outputs.is_empty());
}

#[test]
fn missing_capability_is_reported() {
    let s = store();
    assert_eq!(
        s.require_capability(Capability::Seat),
        Err(WdError::CapabilityMissing(Capability::Seat))
    );
    assert_eq!(
        s.require_capability(Capability::ShmFactory),
        Err(WdError::CapabilityMissing(Capability::ShmFactory))
    );
}

#[test]
fn output_name_event_names_the_output() {
    let mut s = store();
    s.event(global("wl_output", 1));
    assert!(!s.all_output_name_set());
    s.event(SessionEvent::OutputName { id: 1, name: "eDP-1".to_string() });
    assert!(s.all_output_name_set());
    assert_eq!(s.get_output_by_name(&"eDP-1".to_string()), Some(1));
    assert_eq!(s.get_output_by_name(&"HDMI-1".to_string()), None);
}

#[test]
fn all_output_name_set_waits_for_every_output() {
    let mut s = store();
    assert!(s.all_output_name_set());
    s.event(global("wl_output", 1));
    s.event(global("wl_output", 2));
    s.event(SessionEvent::OutputName { id: 1, name: "eDP-1".to_string() });
    assert!(!s.all_output_name_set());
    s.event(SessionEvent::OutputName { id: 2, name: "HDMI-1".to_string() });
    assert!(s.all_output_name_set());
}

#[test]
fn resolving_known_name_succeeds() {
    let mut s = store();
    s.event(global("wl_output", 1));
    s.event(SessionEvent::OutputName { id: 1, name: "eDP-1".to_string() });
    assert_eq!(s.resolve_output(Some(&"eDP-1".to_string())), Ok(1));
}

#[test]
fn resolving_unknown_name_fails() {
    let mut s = store();
    s.event(global("wl_output", 1));
    s.event(SessionEvent::OutputName { id: 1, name: "eDP-1".to_string() });
    assert_eq!(
        s.resolve_output(Some(&"HDMI-1".to_string())),
        Err(WdError::OutputResolution(OutputResolutionError::NoSuchName))
    );
}

#[test]
fn resolving_without_name_needs_exactly_one_output() {
    let mut s = store();
    assert_eq!(
        s.resolve_output(None),
        Err(WdError::OutputResolution(OutputResolutionError::NoOutputs))
    );
    s.event(global("wl_output", 1));
    s.event(SessionEvent::OutputName { id: 1, name: "eDP-1".to_string() });
    assert_eq!(s.resolve_output(None), Ok(1));
    s.event(global("wl_output", 2));
    s.event(SessionEvent::OutputName { id: 2, name: "HDMI-1".to_string() });
    assert_eq!(
        s.resolve_output(None),
        Err(WdError::OutputResolution(OutputResolutionError::Ambiguous))
    );
}

#[test]
fn keymap_event_is_taken_once() {
    let mut s = store();
    assert_eq!(s.take_keymap(), Err(WdError::Protocol));
    s.event(SessionEvent::KeymapReceived { format: 1, fd: 7, size: 4321 });
    let k = s.take_keymap().unwrap();
    assert_eq!((k.format, k.fd, k.size), (1, 7, 4321));
    assert_eq!(s.take_keymap(), Err(WdError::Protocol));
}

#[test]
fn inert_events_change_nothing() {
    let mut s = store();
    s.event(global("wl_seat", 1));
    assert_eq!(s.event(SessionEvent::Inert), GlobalBinding::NoBind);
    assert!(s.seat && !s.vkm);
    assert!(s.outputs.is_empty());
}

#[test]
fn reannounced_output_replaces_its_entry_unnamed() {
    let mut s = store();
    s.event(global("wl_output", 1));
    s.event(SessionEvent::OutputName { id: 1, name: "eDP-1".to_string() });
    assert!(s.all_output_name_set());
    // the compositor announces the same numeric name again: the entry is
    // replaced and starts unnamed
    s.event(global("wl_output", 1));
    assert_eq!(s.outputs.len(), 1);
    assert!(!s.all_output_name_set());
    assert!(s.has_output(1));
    assert!(!s.has_output(2));
}
