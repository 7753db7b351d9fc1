use clipawl::outcome::{
    android_text_result, wayland_read_result, web_item_result, web_text_bytes, AndroidTextReply,
    WaylandPasteReply, WebItemReply,
};
use clipawl::request::{
    copy_mime, paste_mime, web_blob_text, ClipboardKind, CopyMime, MimeTypesRequest, PasteMime, ReadRequest,
    WriteRequest, X11Selection,
};
use clipawl::{Backend, Clipboard, ClipboardOptions, Error, HostInfo, LinuxBackend, LinuxSelection, Opening, Platform};

fn open(backend: Backend) -> Clipboard {
    let (platform, forced, selection) = match backend {
        Backend::Wayland(s) => (Platform::Linux, LinuxBackend::Wayland, s),
        Backend::X11(s) => (Platform::Linux, LinuxBackend::X11, s),
        Backend::Web => (Platform::Web, LinuxBackend::Auto, LinuxSelection::Clipboard),
        Backend::Android => (Platform::Android, LinuxBackend::Auto, LinuxSelection::Clipboard),
    };
    let mut o = ClipboardOptions::default();
    o.linux.backend = forced;
    o.linux.selection = selection;
    let h = HostInfo { platform, wayland_display: true, x11_display: true };
    let mut step = Clipboard::new_with_options(o, h);
    loop {
        match step {
            Opening::Ready(r) => return r.unwrap(),
            Opening::Probe(p) => step = p.resume(Ok(())),
        }
    }
}

#[test]
fn paste_mime_routing() {
    assert!(matches!(paste_mime("text/plain"), PasteMime::Text));
    match paste_mime("text/html") {
        PasteMime::TextWithPriority(s) => assert_eq!(s, "text/html"),
        other => panic!("unexpected {other:?}"),
    }
    match paste_mime("image/png") {
        PasteMime::Specific(s) => assert_eq!(s, "image/png"),
        other => panic!("unexpected {other:?}"),
    }
    assert!(matches!(copy_mime("text/plain"), CopyMime::Text));
    match copy_mime("text/html") {
        CopyMime::Specific(s) => assert_eq!(s, "text/html"),
        other => panic!("unexpected {other:?}"),
    }
}

#[test]
fn wayland_accepts_any_type() {
    let cb = open(Backend::Wayland(LinuxSelection::Primary));
    match cb.read_request("application/x-clipawl-golden").unwrap() {
        ReadRequest::Wayland { clipboard, mime: PasteMime::Specific(m) } => {
            assert_eq!(clipboard, ClipboardKind::Primary);
            assert_eq!(m, "application/x-clipawl-golden");
        }
        other => panic!("unexpected {other:?}"),
    }
    match cb.write_request("image/png", &[0xff, 0x00, 0x80]).unwrap() {
        WriteRequest::Wayland { clipboard, mime: CopyMime::Specific(m), bytes } => {
            assert_eq!(clipboard, ClipboardKind::Primary);
            assert_eq!(m, "image/png");
            assert_eq!(bytes, vec![0xff, 0x00, 0x80]);
        }
        other => panic!("unexpected {other:?}"),
    }
    assert_eq!(
        cb.mime_types_request(),
        MimeTypesRequest::Wayland { clipboard: ClipboardKind::Primary }
    );
}

#[test]
fn x11_and_android_are_text_only() {
    let x = open(Backend::X11(LinuxSelection::Clipboard));
    match x.read_request("text/plain").unwrap() {
        ReadRequest::X11 { selection } => assert_eq!(selection, X11Selection::Clipboard),
        other => panic!("unexpected {other:?}"),
    }
    assert!(matches!(x.read_request("image/png"), Err(Error::NotSupported)));
    assert!(matches!(x.write_request("image/png", b"x"), Err(Error::NotSupported)));
    assert_eq!(x.mime_types_request(), MimeTypesRequest::Unlisted);

    let a = open(Backend::Android);
    assert!(matches!(a.read_request("text/plain"), Ok(ReadRequest::AndroidText)));
    assert!(matches!(a.read_request("text/html"), Err(Error::NotSupported)));
    assert!(matches!(a.write_request("text/html", b"x"), Err(Error::NotSupported)));
    match a.write_request("text/plain", "héllo".as_bytes()).unwrap() {
        WriteRequest::AndroidText { text } => assert_eq!(text, "héllo"),
        other => panic!("unexpected {other:?}"),
    }
    match a.write_request("text/plain", &[0xff, 0xfe]) {
        Err(Error::Platform { context, source }) => {
            assert_eq!(context, "android: utf-8");
            assert_eq!(source, "invalid utf-8 sequence of 1 bytes from index 0");
        }
        other => panic!("unexpected {other:?}"),
    }
}

#[test]
fn web_write_kinds() {
    let w = open(Backend::Web);
    assert!(matches!(w.read_request("text/plain"), Ok(ReadRequest::WebText)));
    match w.read_request("image/png").unwrap() {
        ReadRequest::WebItem { mime_type } => assert_eq!(mime_type, "image/png"),
        other => panic!("unexpected {other:?}"),
    }
    match w.write_request("text/plain", b"hi").unwrap() {
        WriteRequest::WebText { text } => assert_eq!(text, "hi"),
        other => panic!("unexpected {other:?}"),
    }
    match w.write_request("application/rtf", b"{\\rtf1}").unwrap() {
        WriteRequest::WebTextBlob { mime_type, bytes } => {
            assert_eq!(mime_type, "application/rtf");
            assert_eq!(web_blob_text(&bytes).unwrap(), "{\\rtf1}");
        }
        other => panic!("unexpected {other:?}"),
    }
    // A text blob that is not UTF-8 is refused only once the clipboard is found.
    match w.write_request("text/html", &[0xc3]).unwrap() {
        WriteRequest::WebTextBlob { mime_type, bytes } => {
            assert_eq!(mime_type, "text/html");
            match web_blob_text(&bytes) {
                Err(e) => assert_eq!(e.to_string(), "web: utf-8: incomplete utf-8 byte sequence from index 0"),
                Ok(t) => panic!("unexpected {t:?}"),
            }
        }
        other => panic!("unexpected {other:?}"),
    }
    match w.write_request("text/plain", &[b'a', 0xff]) {
        Err(e) => assert_eq!(e.to_string(), "web: utf-8: invalid utf-8 sequence of 1 bytes from index 1"),
        other => panic!("unexpected {other:?}"),
    }
    match w.write_request("image/png", &[0xc3, 0x28]).unwrap() {
        WriteRequest::WebBytesBlob { mime_type, bytes } => {
            assert_eq!(mime_type, "image/png");
            assert_eq!(bytes, vec![0xc3, 0x28]);
        }
        other => panic!("unexpected {other:?}"),
    }
    assert_eq!(w.mime_types_request(), MimeTypesRequest::Web);
}

#[test]
fn text_requests_work_everywhere() {
    for b in [
        Backend::Wayland(LinuxSelection::Clipboard),
        Backend::X11(LinuxSelection::Primary),
        Backend::Web,
        Backend::Android,
    ] {
        let cb = open(b);
        assert_eq!(cb.backend(), b);
        assert!(cb.read_text_request().is_ok());
        match cb.write_text_request("Hello from clipawl! ✓").unwrap() {
            WriteRequest::Wayland { mime, bytes, .. } => {
                assert!(matches!(mime, CopyMime::Text));
                assert_eq!(bytes, "Hello from clipawl! ✓".as_bytes());
            }
            WriteRequest::X11 { bytes, .. } => assert_eq!(bytes, "Hello from clipawl! ✓".as_bytes()),
            WriteRequest::WebText { text } | WriteRequest::AndroidText { text } => {
                assert_eq!(text, "Hello from clipawl! ✓")
            }
            other => panic!("unexpected {other:?}"),
        }
    }
}

#[test]
fn read_after_write_gives_the_data() {
    let png: &[u8] = &[0x89, b'P', b'N', b'G', 0x00, 0xff];
    let text = "hello golden world ✓";

    let wl = open(Backend::Wayland(LinuxSelection::Clipboard));
    match (wl.write_request("image/png", png).unwrap(), wl.read_request("image/png").unwrap()) {
        (WriteRequest::Wayland { clipboard: wc, bytes, .. }, ReadRequest::Wayland { clipboard: rc, .. }) => {
            assert_eq!(wc, rc);
            assert_eq!(wayland_read_result(WaylandPasteReply::Contents(bytes)).unwrap(), png);
        }
        other => panic!("unexpected {other:?}"),
    }

    let x = open(Backend::X11(LinuxSelection::Primary));
    match (x.write_text_request(text).unwrap(), x.read_text_request().unwrap()) {
        (WriteRequest::X11 { selection: ws, bytes }, ReadRequest::X11 { selection: rs }) => {
            assert_eq!(ws, rs);
            assert_eq!(bytes, text.as_bytes());
        }
        other => panic!("unexpected {other:?}"),
    }

    let w = open(Backend::Web);
    match (w.write_request("text/plain", text.as_bytes()).unwrap(), w.read_request("text/plain").unwrap()) {
        (WriteRequest::WebText { text: t }, ReadRequest::WebText) => {
            assert_eq!(web_text_bytes(Some(t)), text.as_bytes());
        }
        other => panic!("unexpected {other:?}"),
    }
    match (w.write_request("image/png", png).unwrap(), w.read_request("image/png").unwrap()) {
        (WriteRequest::WebBytesBlob { mime_type: wm, bytes }, ReadRequest::WebItem { mime_type: rm }) => {
            assert_eq!(wm, rm);
            assert_eq!(web_item_result(WebItemReply::Bytes(bytes)).unwrap(), png);
        }
        other => panic!("unexpected {other:?}"),
    }

    let a = open(Backend::Android);
    match (a.write_text_request(text).unwrap(), a.read_text_request().unwrap()) {
        (WriteRequest::AndroidText { text: t }, ReadRequest::AndroidText) => {
            assert_eq!(android_text_result(AndroidTextReply::Text(t)).unwrap(), text.as_bytes());
        }
        other => panic!("unexpected {other:?}"),
    }
}
