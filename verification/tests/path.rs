use wdotool::errors::WdError;
use wdotool::path::resolve_socket_path;

#[test]
fn environment_display_resolves_under_runtime_dir() {
    let r = resolve_socket_path(
        None,
        Some("wayland-1".to_string()),
        Some("/run/user/1000".to_string()),
    );
    assert_eq!(r, Ok("/run/user/1000/wayland-1".to_string()));
}

#[test]
fn explicit_display_takes_precedence() {
    let r = resolve_socket_path(
        Some("wayland-7".to_string()),
        Some("wayland-1".to_string()),
        Some("/run/user/1000".to_string()),
    );
    assert_eq!(r, Ok("/run/user/1000/wayland-7".to_string()));
}

#[test]
fn absolute_display_is_used_as_is() {
    let r = resolve_socket_path(
        Some("/tmp/my-socket".to_string()),
        Some("wayland-1".to_string()),
        Some("/run/user/1000".to_string()),
    );
    assert_eq!(r, Ok("/tmp/my-socket".to_string()));
}

#[test]
fn default_display_is_wayland_0() {
    let r = resolve_socket_path(None, None, Some("/run/user/1000".to_string()));
    assert_eq!(r, Ok("/run/user/1000/wayland-0".to_string()));
}

#[test]
fn relative_display_without_runtime_dir_is_a_configuration_error() {
    let r = resolve_socket_path(None, Some("wayland-1".to_string()), None);
    assert_eq!(r, Err(WdError::Configuration));
    let r = resolve_socket_path(None, None, None);
    assert_eq!(r, Err(WdError::Configuration));
}

#[test]
fn absolute_display_needs_no_runtime_dir() {
    let r = resolve_socket_path(Some("/tmp/sock".to_string()), None, None);
    assert_eq!(r, Ok("/tmp/sock".to_string()));
}
