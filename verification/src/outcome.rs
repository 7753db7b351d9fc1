//! Turning what a backend replied into the result of a clipboard operation.
//!
//! The replies are described with the crate's own types; the messages of
//! underlying errors are carried as text.

use vstd::prelude::*;
use vstd::string::*;
use crate::error::Error;
use crate::mime_list::{distinct, distinct_types, texts};
use crate::text::{str_equals, text_to_bytes};
use vstd::utf8::*;

verus! {

/// What a Wayland paste made to probe the compositor reported.
#[derive(Debug)]
pub enum WaylandProbeReply {
    /// Contents were offered.
    Offered,
    /// The clipboard is empty.
    ClipboardEmpty,
    /// The clipboard holds no text.
    NoMimeType,
    /// The compositor does not support the primary selection.
    PrimarySelectionUnsupported,
    /// Any other failure, with its message.
    Failed(String),
}

/// What a Wayland paste reported.
#[derive(Debug)]
pub enum WaylandPasteReply {
    /// The contents, read to the end.
    Contents(Vec<u8>),
    /// The contents could not be read from the pipe; the message.
    PipeFailed(String),
    /// There are no seats.
    NoSeats,
    /// The clipboard is empty.
    ClipboardEmpty,
    /// The requested type is not offered.
    NoMimeType,
    /// Any other failure, with its message.
    Failed(String),
}

/// What a Wayland listing of the offered MIME types reported.
#[derive(Debug)]
pub enum WaylandTypesReply {
    /// The offered types.
    Types(Vec<String>),
    /// There are no seats.
    NoSeats,
    /// The clipboard is empty.
    ClipboardEmpty,
    /// Any other failure, with its message.
    Failed(String),
}

/// A failed browser call.
#[derive(Debug)]
pub enum JsFailure {
    /// A `DOMException` with its name and message.
    Dom { name: String, message: String },
    /// Any other rejected value, as text.
    Other(String),
}

/// What reading the first clipboard item of the browser gave.
#[derive(Debug)]
pub enum WebItemReply {
    /// There is no item.
    NoItem,
    /// The first entry is not a `ClipboardItem`.
    NotClipboardItem,
    /// The item's data in the requested type is not a `Blob`.
    NotBlob,
    /// The bytes of the blob.
    Bytes(Vec<u8>),
}

/// What the Android clipboard manager gave for a text read.
#[derive(Debug)]
pub enum AndroidTextReply {
    /// There is no clipboard manager.
    NoManager,
    /// `getPrimaryClip()` returned null.
    NoClip,
    /// The primary clip has no items.
    NoItems,
    /// The first item has no text representation.
    NoText,
    /// The text of the first item.
    Text(String),
}

/// What the Android clipboard manager gave for a listing of MIME types.
#[derive(Debug)]
pub enum AndroidTypesReply {
    /// There is no clipboard manager.
    NoManager,
    /// There is no primary clip description.
    NoDescription,
    /// The types of the primary clip description, in order.
    Types(Vec<String>),
}

/// The verdict of a Wayland probe: the compositor is usable when it offered
/// contents or reported an empty clipboard or one without text; a missing
/// primary selection means `NotSupported`; any other failure is a platform
/// error.
pub open spec fn wayland_probe_verdict_of(reply: WaylandProbeReply) -> Result<(), Error> {
    match reply {
        WaylandProbeReply::Offered => Ok(()),
        WaylandProbeReply::ClipboardEmpty => Ok(()),
        WaylandProbeReply::NoMimeType => Ok(()),
        WaylandProbeReply::PrimarySelectionUnsupported => Err(Error::NotSupported),
        WaylandProbeReply::Failed(m) => Err(Error::Platform { context: "linux/wayland: probe failed", source: m }),
    }
}

/// The verdict of a Wayland probe.
pub fn wayland_probe_verdict(reply: WaylandProbeReply) -> (r: Result<(), Error>)
    ensures
        r == wayland_probe_verdict_of(reply),
{
    match reply {
        WaylandProbeReply::Offered => Ok(()),
        WaylandProbeReply::ClipboardEmpty => Ok(()),
        WaylandProbeReply::NoMimeType => Ok(()),
        WaylandProbeReply::PrimarySelectionUnsupported => Err(Error::NotSupported),
        WaylandProbeReply::Failed(m) => Err(Error::Platform { context: "linux/wayland: probe failed", source: m }),
    }
}

/// The result of a Wayland paste: the contents read, nothing when there is
/// no seat, no content or no content of the requested type, and a platform
/// error otherwise.
pub fn wayland_read_result(reply: WaylandPasteReply) -> (r: Result<Vec<u8>, Error>)
    ensures
        reply matches WaylandPasteReply::Contents(bytes) ==> (r matches Ok(v) && v@ == bytes@),
        reply is NoSeats || reply is ClipboardEmpty || reply is NoMimeType ==> (r matches Ok(v)
            && v@.len() == 0),
        reply matches WaylandPasteReply::PipeFailed(m) ==> r == Err::<Vec<u8>, Error>(
            Error::Platform { context: "linux/wayland: read pipe", source: m },
        ),
        reply matches WaylandPasteReply::Failed(m) ==> r == Err::<Vec<u8>, Error>(
            Error::Platform { context: "linux/wayland: get_contents", source: m },
        ),
{
    match reply {
        WaylandPasteReply::Contents(bytes) => Ok(bytes),
        WaylandPasteReply::PipeFailed(m) => Err(Error::Platform { context: "linux/wayland: read pipe", source: m }),
        WaylandPasteReply::NoSeats => Ok(Vec::new()),
        WaylandPasteReply::ClipboardEmpty => Ok(Vec::new()),
        WaylandPasteReply::NoMimeType => Ok(Vec::new()),
        WaylandPasteReply::Failed(m) => Err(Error::Platform { context: "linux/wayland: get_contents", source: m }),
    }
}

/// The result of a Wayland listing: the offered types, each named once, in
/// the order given; nothing when there is no seat or the clipboard is empty,
/// as the documentation promises an empty listing for an empty clipboard;
/// and a platform error otherwise.
pub fn wayland_types_result(reply: WaylandTypesReply) -> (r: Result<Vec<String>, Error>)
    ensures
        reply matches WaylandTypesReply::Types(t) ==> (r matches Ok(v) && texts(v@) == distinct(texts(t@))),
        reply is NoSeats || reply is ClipboardEmpty ==> (r matches Ok(v) && v@.len() == 0),
        reply matches WaylandTypesReply::Failed(m) ==> r == Err::<Vec<String>, Error>(
            Error::Platform { context: "linux/wayland: get_mime_types", source: m },
        ),
{
    match reply {
        WaylandTypesReply::Types(t) => Ok(distinct_types(t)),
        WaylandTypesReply::NoSeats => Ok(Vec::new()),
        WaylandTypesReply::ClipboardEmpty => Ok(Vec::new()),
        WaylandTypesReply::Failed(m) => Err(Error::Platform { context: "linux/wayland: get_mime_types", source: m }),
    }
}

/// The result of a listing on a backend that cannot enumerate formats (X11):
/// always an empty listing.
pub fn unlisted_types_result() -> (r: Result<Vec<String>, Error>)
    ensures
        r matches Ok(v) && v@.len() == 0,
{
    Ok(Vec::new())
}

/// The verdict on the browser clipboard: there must be a window, and its
/// navigator must have a clipboard (`navigator.clipboard` is missing outside
/// secure contexts and in web workers).
pub fn web_clipboard_verdict(window_present: bool, clipboard_present: bool) -> (r: Result<(), Error>)
    ensures
        window_present && clipboard_present ==> r is Ok,
        !(window_present && clipboard_present) ==> r == Err::<(), Error>(Error::NotSupported),
{
    if window_present && clipboard_present {
        Ok(())
    } else {
        Err(Error::NotSupported)
    }
}

/// The error of a failed browser call.
pub fn js_error(failure: JsFailure) -> (e: Error)
    ensures
        failure matches JsFailure::Dom { name, message } ==> {
            if name@ == "NotAllowedError"@ {
                e == Error::PermissionDenied("User activation required")
            } else if name@ == "NotFoundError"@ {
                e == Error::Unavailable("Clipboard API returned NotFound")
            } else {
                e matches Error::Platform { context, source } && context@ == "web dom exception"@
                    && source@ == name@ + ": "@ + message@
            }
        },
        failure matches JsFailure::Other(text) ==> (e matches Error::Platform { context, source }
            && context@ == "web api error"@ && source@ == text@),
{
    match failure {
        JsFailure::Dom { name, message } => {
            if str_equals(name.as_str(), "NotAllowedError") {
                Error::PermissionDenied("User activation required")
            } else if str_equals(name.as_str(), "NotFoundError") {
                Error::Unavailable("Clipboard API returned NotFound")
            } else {
                let mut source = name;
                source.append(": ");
                source.append(message.as_str());
                Error::Platform { context: "web dom exception", source }
            }
        },
        JsFailure::Other(text) => Error::Platform { context: "web api error", source: text },
    }
}

/// The bytes of a `readText()` reply: the UTF-8 encoding of the text, or
/// nothing when the reply is not a string.
pub fn web_text_bytes(text: Option<String>) -> (bytes: Vec<u8>)
    ensures
        text matches Some(t) ==> bytes@ == encode_utf8(t@),
        text is None ==> bytes@.len() == 0,
{
    match text {
        Some(t) => text_to_bytes(t.as_str()),
        None => Vec::new(),
    }
}

/// The result of reading a clipboard item on the web: nothing when there is
/// no item, the blob's bytes when there is one, and `Unavailable` when the
/// browser handed back something else.
pub fn web_item_result(reply: WebItemReply) -> (r: Result<Vec<u8>, Error>)
    ensures
        reply is NoItem ==> (r matches Ok(v) && v@.len() == 0),
        reply matches WebItemReply::Bytes(b) ==> (r matches Ok(v) && v@ == b@),
        reply is NotClipboardItem ==> r == Err::<Vec<u8>, Error>(Error::Unavailable("not a ClipboardItem")),
        reply is NotBlob ==> r == Err::<Vec<u8>, Error>(Error::Unavailable("clipboard data not a Blob")),
{
    match reply {
        WebItemReply::NoItem => Ok(Vec::new()),
        WebItemReply::NotClipboardItem => Err(Error::Unavailable("not a ClipboardItem")),
        WebItemReply::NotBlob => Err(Error::Unavailable("clipboard data not a Blob")),
        WebItemReply::Bytes(b) => Ok(b),
    }
}

/// The result of an Android text read: the UTF-8 bytes of the text, or why
/// there is none.  A primary clip without items is reported as
/// `Unavailable("clipboard is empty")`, the case that `Error::Unavailable`
/// documents, rather than as an empty text.
pub fn android_text_result(reply: AndroidTextReply) -> (r: Result<Vec<u8>, Error>)
    ensures
        reply matches AndroidTextReply::Text(t) ==> (r matches Ok(v) && v@ == encode_utf8(t@)),
        reply is NoManager ==> r == Err::<Vec<u8>, Error>(Error::NotSupported),
        reply is NoClip ==> r == Err::<Vec<u8>, Error>(
            Error::PermissionDenied("getPrimaryClip returned null (app may lack focus)"),
        ),
        reply is NoItems ==> r == Err::<Vec<u8>, Error>(Error::Unavailable("clipboard is empty")),
        reply is NoText ==> r == Err::<Vec<u8>, Error>(Error::Unavailable("clipboard item has no text")),
{
    match reply {
        AndroidTextReply::NoManager => Err(Error::NotSupported),
        AndroidTextReply::NoClip => Err(
            Error::PermissionDenied("getPrimaryClip returned null (app may lack focus)"),
        ),
        AndroidTextReply::NoItems => Err(Error::Unavailable("clipboard is empty")),
        AndroidTextReply::NoText => Err(Error::Unavailable("clipboard item has no text")),
        AndroidTextReply::Text(t) => Ok(text_to_bytes(t.as_str())),
    }
}

/// The verdict on an Android write: it needs a clipboard manager.
pub fn android_manager_verdict(manager_present: bool) -> (r: Result<(), Error>)
    ensures
        manager_present ==> r is Ok,
        !manager_present ==> r == Err::<(), Error>(Error::NotSupported),
{
    if manager_present {
        Ok(())
    } else {
        Err(Error::NotSupported)
    }
}

} // verus!

verus! {

/// A Wayland probe accepts the compositor exactly when it offered contents
/// or reported an empty clipboard or one without text; a compositor without
/// a primary selection is `NotSupported`, and any other failure is a
/// platform error that keeps its message.
pub proof fn lemma_wayland_probe_verdicts(reply: WaylandProbeReply)
    ensures
        wayland_probe_verdict_of(reply) is Ok <==> (reply is Offered || reply is ClipboardEmpty
            || reply is NoMimeType),
        reply is PrimarySelectionUnsupported ==> wayland_probe_verdict_of(reply) == Err::<(), Error>(
            Error::NotSupported,
        ),
        reply matches WaylandProbeReply::Failed(m) ==> (wayland_probe_verdict_of(reply) matches Err(
            Error::Platform { context, source },
        ) && context@ == "linux/wayland: probe failed"@ && source@ == m@),
{
}

} // verus!
