use clipawl::mime_list::{android_types_result, merge_mime_types};
use clipawl::outcome::{
    android_manager_verdict, android_text_result, js_error, unlisted_types_result,
    wayland_probe_verdict, wayland_read_result, wayland_types_result, web_clipboard_verdict, web_item_result,
    web_text_bytes, AndroidTextReply, AndroidTypesReply, JsFailure, WaylandPasteReply,
    WaylandProbeReply, WaylandTypesReply, WebItemReply,
};
use clipawl::text::{starts_with, str_equals, text_from_bytes, text_to_bytes};
use clipawl::Error;

fn strings(v: &[&str]) -> Vec<String> {
    v.iter().map(|s| s.to_string()).collect()
}

#[test]
fn wayland_probe_verdicts() {
    assert!(wayland_probe_verdict(WaylandProbeReply::Offered).is_ok());
    assert!(wayland_probe_verdict(WaylandProbeReply::ClipboardEmpty).is_ok());
    assert!(wayland_probe_verdict(WaylandProbeReply::NoMimeType).is_ok());
    assert!(matches!(
        wayland_probe_verdict(WaylandProbeReply::PrimarySelectionUnsupported),
        Err(Error::NotSupported)
    ));
    let e = wayland_probe_verdict(WaylandProbeReply::Failed("no seats".to_string())).unwrap_err();
    assert_eq!(e.to_string(), "linux/wayland: probe failed: no seats");
}

#[test]
fn wayland_read_results() {
    assert_eq!(wayland_read_result(WaylandPasteReply::Contents(vec![1, 2, 3])).unwrap(), vec![1, 2, 3]);
    assert!(wayland_read_result(WaylandPasteReply::NoSeats).unwrap().is_empty());
    assert!(wayland_read_result(WaylandPasteReply::ClipboardEmpty).unwrap().is_empty());
    assert!(wayland_read_result(WaylandPasteReply::NoMimeType).unwrap().is_empty());
    let e = wayland_read_result(WaylandPasteReply::PipeFailed("broken".to_string())).unwrap_err();
    assert_eq!(e.to_string(), "linux/wayland: read pipe: broken");
    let e = wayland_read_result(WaylandPasteReply::Failed("bad".to_string())).unwrap_err();
    assert_eq!(e.to_string(), "linux/wayland: get_contents: bad");
}

#[test]
fn js_errors() {
    let e = js_error(JsFailure::Dom { name: "NotAllowedError".into(), message: "no".into() });
    assert_eq!(e.to_string(), "clipboard permission denied: User activation required");
    let e = js_error(JsFailure::Dom { name: "NotFoundError".into(), message: "no".into() });
    assert_eq!(e.to_string(), "clipboard unavailable: Clipboard API returned NotFound");
    let e = js_error(JsFailure::Dom { name: "DataError".into(), message: "bad data".into() });
    assert_eq!(e.to_string(), "web dom exception: DataError: bad data");
    let e = js_error(JsFailure::Other("TypeError".into()));
    assert_eq!(e.to_string(), "web api error: TypeError");
}

#[test]
fn web_replies() {
    assert_eq!(web_text_bytes(Some("hé".to_string())), "hé".as_bytes());
    assert!(web_text_bytes(None).is_empty());
    assert!(web_item_result(WebItemReply::NoItem).unwrap().is_empty());
    assert_eq!(web_item_result(WebItemReply::Bytes(vec![9])).unwrap(), vec![9]);
    assert_eq!(
        web_item_result(WebItemReply::NotClipboardItem).unwrap_err().to_string(),
        "clipboard unavailable: not a ClipboardItem"
    );
    assert_eq!(
        web_item_result(WebItemReply::NotBlob).unwrap_err().to_string(),
        "clipboard unavailable: clipboard data not a Blob"
    );
}

#[test]
fn android_replies() {
    assert_eq!(android_text_result(AndroidTextReply::Text("ok".into())).unwrap(), b"ok");
    assert!(matches!(android_text_result(AndroidTextReply::NoManager), Err(Error::NotSupported)));
    assert_eq!(
        android_text_result(AndroidTextReply::NoClip).unwrap_err().to_string(),
        "clipboard permission denied: getPrimaryClip returned null (app may lack focus)"
    );
    assert_eq!(
        android_text_result(AndroidTextReply::NoItems).unwrap_err().to_string(),
        "clipboard unavailable: clipboard is empty"
    );
    assert_eq!(
        android_text_result(AndroidTextReply::NoText).unwrap_err().to_string(),
        "clipboard unavailable: clipboard item has no text"
    );
    assert!(android_manager_verdict(true).is_ok());
    assert!(matches!(android_manager_verdict(false), Err(Error::NotSupported)));
    assert!(matches!(android_types_result(AndroidTypesReply::NoManager), Err(Error::NotSupported)));
    assert!(android_types_result(AndroidTypesReply::NoDescription).unwrap().is_empty());
    assert_eq!(
        android_types_result(AndroidTypesReply::Types(strings(&["text/plain", "text/html", "text/plain"])))
            .unwrap(),
        strings(&["text/plain", "text/html"])
    );
}

#[test]
fn merged_listing_is_distinct_in_first_order() {
    let groups = vec![
        strings(&["text/html", "text/plain"]),
        strings(&[]),
        strings(&["image/png", "text/plain", "text/html", "image/png"]),
    ];
    let merged = merge_mime_types(&groups);
    assert_eq!(merged, strings(&["text/html", "text/plain", "image/png"]));
    assert_eq!(merge_mime_types(&vec![merged.clone()]), merged);
    assert!(merge_mime_types(&vec![]).is_empty());
}

#[test]
fn text_helpers() {
    assert!(str_equals("text/plain", "text/plain"));
    assert!(!str_equals("text/plain", "text/plai"));
    assert!(!str_equals("ä", "a"));
    assert!(starts_with("text/html", "text/"));
    assert!(!starts_with("tex", "text/"));
    assert!(!starts_with("image/png", "text/"));
    assert!(starts_with("anything", ""));
}

#[test]
fn text_round_trip_and_lossy_read() {
    let t = "Hello from clipawl! ✓ 👋";
    assert_eq!(text_to_bytes(t), t.as_bytes());
    assert_eq!(text_from_bytes(&text_to_bytes(t)), t);
    assert_eq!(text_from_bytes(&[b'a', 0xff, b'b']), "a\u{FFFD}b");
    assert_eq!(text_from_bytes(&[]), "");
}

#[test]
fn listing_results() {
    assert!(unlisted_types_result().unwrap().is_empty());
    assert!(wayland_types_result(WaylandTypesReply::ClipboardEmpty).unwrap().is_empty());
    assert!(wayland_types_result(WaylandTypesReply::NoSeats).unwrap().is_empty());
    assert_eq!(
        wayland_types_result(WaylandTypesReply::Types(strings(&["text/plain", "image/png", "text/plain"])))
            .unwrap(),
        strings(&["text/plain", "image/png"])
    );
    assert_eq!(
        wayland_types_result(WaylandTypesReply::Failed("gone".into())).unwrap_err().to_string(),
        "linux/wayland: get_mime_types: gone"
    );
}

#[test]
fn web_clipboard_needs_window_and_clipboard() {
    assert!(web_clipboard_verdict(true, true).is_ok());
    assert!(matches!(web_clipboard_verdict(false, false), Err(Error::NotSupported)));
    assert!(matches!(web_clipboard_verdict(true, false), Err(Error::NotSupported)));
}
