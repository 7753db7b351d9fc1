use clipawl::{ClipboardOptions, Error, LinuxBackend, LinuxSelection, SetTextOptions};

#[test]
fn clipboard_options_default() {
    let opts = ClipboardOptions::default();
    assert_eq!(opts.linux.selection, LinuxSelection::Clipboard);
    assert_eq!(opts.linux.backend, LinuxBackend::Auto);
}

#[test]
fn linux_selection_default() {
    assert_eq!(LinuxSelection::default(), LinuxSelection::Clipboard);
}

#[test]
fn linux_backend_default() {
    assert_eq!(LinuxBackend::default(), LinuxBackend::Auto);
}

#[test]
fn error_display_not_supported() {
    assert_eq!(
        Error::NotSupported.to_string(),
        "clipboard not supported on this platform"
    );
}

#[test]
fn error_display_permission_denied() {
    assert_eq!(
        Error::PermissionDenied("test reason").to_string(),
        "clipboard permission denied: test reason"
    );
}

#[test]
fn error_display_unavailable() {
    assert_eq!(
        Error::Unavailable("empty").to_string(),
        "clipboard unavailable: empty"
    );
}

#[test]
fn error_display_platform() {
    let inner = Error::platform("test ctx", std::io::Error::other("boom"));
    assert_eq!(inner.to_string(), "test ctx: boom");
}

#[test]
fn error_is_std_error() {
    let e = Error::NotSupported;
    assert!(e.source().is_none());

    let e = Error::platform("ctx", std::io::Error::other("x"));
    assert!(e.source().is_some());
}

#[test]
fn blocking_runtime_construction() {
    let rt = tokio::runtime::Builder::new_current_thread()
        .enable_all()
        .build();
    assert!(rt.is_ok());
}

#[test]
fn error_platform_keeps_source_message() {
    let e = Error::platform("ctx", std::io::Error::other("detail"));
    assert_eq!(e.source(), Some("detail"));
    match e {
        Error::Platform { context, source } => {
            assert_eq!(context, "ctx");
            assert_eq!(source, "detail");
        }
        _ => panic!("expected a platform error"),
    }
}

#[test]
fn set_text_options_default() {
    let o = SetTextOptions::default();
    assert!(!o.wait_for_paste);
    assert!(o.wait_timeout.is_none());
    assert!(!o.sensitive);
}
