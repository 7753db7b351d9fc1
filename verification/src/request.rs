//! Turning a clipboard operation into the concrete request that the handle's
//! backend understands.
//!
//! Supported MIME types per backend:
//! - **Wayland**: any MIME type
//! - **Web**: any MIME type the browser supports
//! - **Android**: `text/plain` only
//! - **X11**: `text/plain` only
//!
//! An operation in a MIME type that the backend does not support at all is
//! refused with `Error::NotSupported`.  X11 is served as a text-only
//! backend, as the platform table of the documentation lists it: reads and
//! writes in `text/plain` go through the `UTF8_STRING` target, and every
//! other type is refused.

use vstd::prelude::*;
use vstd::utf8::*;
use crate::clipboard::{Backend, Clipboard};
use crate::error::Error;
use crate::options::LinuxSelection;
use crate::text::{is_prefix_of, starts_with, str_equals, str_from_utf8, text_to_bytes, utf8_error_message};

verus! {

/// Which Wayland clipboard a request addresses.
#[derive(Debug, Clone, Copy, PartialEq, Eq, Structural)]
pub enum ClipboardKind {
    /// The regular clipboard.
    Regular,
    /// The primary selection.
    Primary,
}

/// Which X11 selection a request addresses.
#[derive(Debug, Clone, Copy, PartialEq, Eq, Structural)]
pub enum X11Selection {
    /// The CLIPBOARD selection.
    Clipboard,
    /// The PRIMARY selection.
    Primary,
}

/// The MIME type of a Wayland paste.
#[derive(Debug)]
pub enum PasteMime {
    /// Any text type, preferring `text/plain;charset=utf-8`.
    Text,
    /// A text type: this one if offered, otherwise any text type.
    TextWithPriority(String),
    /// Exactly this type.
    Specific(String),
}

/// The MIME type of a Wayland copy.
#[derive(Debug)]
pub enum CopyMime {
    /// Offered under the usual text types.
    Text,
    /// Offered under exactly this type.
    Specific(String),
}

/// A read, as the backend understands it.
#[derive(Debug)]
pub enum ReadRequest {
    /// Paste from a Wayland clipboard.
    Wayland { clipboard: ClipboardKind, mime: PasteMime },
    /// Load the UTF-8 text of an X11 selection.
    X11 { selection: X11Selection },
    /// `navigator.clipboard.readText()`.
    WebText,
    /// `navigator.clipboard.read()`, then the blob of this type in the first item.
    WebItem { mime_type: String },
    /// The text of the first item of the primary clip.
    AndroidText,
}

/// A write, as the backend understands it.
#[derive(Debug)]
pub enum WriteRequest {
    /// Serve these bytes on a Wayland clipboard.
    Wayland { clipboard: ClipboardKind, mime: CopyMime, bytes: Vec<u8> },
    /// Store these bytes as the UTF-8 text of an X11 selection.
    X11 { selection: X11Selection, bytes: Vec<u8> },
    /// `navigator.clipboard.writeText(text)`.
    WebText { text: String },
    /// A clipboard item holding a text blob of this type; the bytes must be
    /// UTF-8, which `web_blob_text` checks once the browser clipboard has
    /// been found.
    WebTextBlob { mime_type: String, bytes: Vec<u8> },
    /// A clipboard item holding a binary blob of this type.
    WebBytesBlob { mime_type: String, bytes: Vec<u8> },
    /// A plain-text primary clip.
    AndroidText { text: String },
}

/// A listing of the MIME types on the clipboard, as the backend understands it.
#[derive(Debug, Clone, Copy, PartialEq, Eq, Structural)]
pub enum MimeTypesRequest {
    /// Ask the Wayland clipboard for the types it offers.
    Wayland { clipboard: ClipboardKind },
    /// The types of the items of `navigator.clipboard.read()`.
    Web,
    /// The types of the primary clip description.
    Android,
    /// The backend cannot enumerate formats; the listing is empty.
    Unlisted,
}

/// The plain-text MIME type.
pub open spec fn text_plain() -> Seq<char> {
    "text/plain"@
}

/// The Wayland clipboard for a selection.
pub open spec fn clipboard_kind(selection: LinuxSelection) -> ClipboardKind {
    match selection {
        LinuxSelection::Clipboard => ClipboardKind::Regular,
        LinuxSelection::Primary => ClipboardKind::Primary,
    }
}

/// The X11 selection for a selection.
pub open spec fn x11_selection(selection: LinuxSelection) -> X11Selection {
    match selection {
        LinuxSelection::Clipboard => X11Selection::Clipboard,
        LinuxSelection::Primary => X11Selection::Primary,
    }
}

/// `m` is the Wayland paste type for `mime`: plain text as text, other
/// `text/` types as preferred text, anything else exactly.
pub open spec fn is_paste_mime(m: PasteMime, mime: Seq<char>) -> bool {
    if mime == text_plain() {
        m is Text
    } else if is_prefix_of("text/"@, mime) {
        m matches PasteMime::TextWithPriority(s) && s@ == mime
    } else {
        m matches PasteMime::Specific(s) && s@ == mime
    }
}

/// `m` is the Wayland copy type for `mime`.
pub open spec fn is_copy_mime(m: CopyMime, mime: Seq<char>) -> bool {
    if mime == text_plain() {
        m is Text
    } else {
        m matches CopyMime::Specific(s) && s@ == mime
    }
}

/// The web writes this type as a text blob rather than a binary one.
pub open spec fn is_web_text_type(mime: Seq<char>) -> bool {
    is_prefix_of("text/"@, mime) || mime == "application/rtf"@
}

/// `r` is the read request of the backend `b` for `mime`.
pub open spec fn is_read_request(b: Backend, mime: Seq<char>, r: Result<ReadRequest, Error>) -> bool {
    match b {
        Backend::Wayland(sel) => r matches Ok(ReadRequest::Wayland { clipboard, mime: m })
            && clipboard == clipboard_kind(sel) && is_paste_mime(m, mime),
        Backend::X11(sel) => if mime == text_plain() {
            r matches Ok(ReadRequest::X11 { selection }) && selection == x11_selection(sel)
        } else {
            r matches Err(Error::NotSupported)
        },
        Backend::Web => if mime == text_plain() {
            r matches Ok(ReadRequest::WebText)
        } else {
            r matches Ok(ReadRequest::WebItem { mime_type: m }) && m@ == mime
        },
        Backend::Android => if mime == text_plain() {
            r matches Ok(ReadRequest::AndroidText)
        } else {
            r matches Err(Error::NotSupported)
        },
    }
}

/// `e` is the error for `data`, which is not UTF-8, where text is needed:
/// a platform error with the given context and the refusal's message.
pub open spec fn is_utf8_error(e: Error, context: Seq<char>, data: Seq<u8>) -> bool {
    e matches Error::Platform { context: c, source } && c@ == context && source@ == utf8_error_message(data)
}

/// `r` is the write request of the backend `b` for `data` in `mime`.
pub open spec fn is_write_request(b: Backend, mime: Seq<char>, data: Seq<u8>, r: Result<WriteRequest, Error>) -> bool {
    match b {
        Backend::Wayland(sel) => r matches Ok(WriteRequest::Wayland { clipboard, mime: m, bytes })
            && clipboard == clipboard_kind(sel) && is_copy_mime(m, mime) && bytes@ == data,
        Backend::X11(sel) => if mime == text_plain() {
            r matches Ok(WriteRequest::X11 { selection, bytes }) && selection == x11_selection(sel)
                && bytes@ == data
        } else {
            r matches Err(Error::NotSupported)
        },
        Backend::Web => if mime == text_plain() {
            if valid_utf8(data) {
                r matches Ok(WriteRequest::WebText { text }) && text@ == decode_utf8(data)
            } else {
                r matches Err(e) && is_utf8_error(e, "web: utf-8"@, data)
            }
        } else if is_web_text_type(mime) {
            r matches Ok(WriteRequest::WebTextBlob { mime_type: m, bytes }) && m@ == mime && bytes@ == data
        } else {
            r matches Ok(WriteRequest::WebBytesBlob { mime_type: m, bytes }) && m@ == mime
                && bytes@ == data
        },
        Backend::Android => if mime == text_plain() {
            if valid_utf8(data) {
                r matches Ok(WriteRequest::AndroidText { text }) && text@ == decode_utf8(data)
            } else {
                r matches Err(e) && is_utf8_error(e, "android: utf-8"@, data)
            }
        } else {
            r matches Err(Error::NotSupported)
        },
    }
}

/// The listing request of the backend `b`.
pub open spec fn mime_types_request_of(b: Backend) -> MimeTypesRequest {
    match b {
        Backend::Wayland(sel) => MimeTypesRequest::Wayland { clipboard: clipboard_kind(sel) },
        Backend::X11(_) => MimeTypesRequest::Unlisted,
        Backend::Web => MimeTypesRequest::Web,
        Backend::Android => MimeTypesRequest::Android,
    }
}

/// The Wayland clipboard for a selection.
pub fn wayland_clipboard_kind(selection: LinuxSelection) -> (k: ClipboardKind)
    ensures
        k == clipboard_kind(selection),
{
    match selection {
        LinuxSelection::Clipboard => ClipboardKind::Regular,
        LinuxSelection::Primary => ClipboardKind::Primary,
    }
}

fn x11_selection_of(selection: LinuxSelection) -> (s: X11Selection)
    ensures
        s == x11_selection(selection),
{
    match selection {
        LinuxSelection::Clipboard => X11Selection::Clipboard,
        LinuxSelection::Primary => X11Selection::Primary,
    }
}

/// The Wayland paste type for a MIME type.
pub fn paste_mime(mime: &str) -> (m: PasteMime)
    ensures
        is_paste_mime(m, mime@),
{
    if str_equals(mime, "text/plain") {
        PasteMime::Text
    } else if starts_with(mime, "text/") {
        PasteMime::TextWithPriority(mime.to_owned())
    } else {
        PasteMime::Specific(mime.to_owned())
    }
}

/// The Wayland copy type for a MIME type.
pub fn copy_mime(mime: &str) -> (m: CopyMime)
    ensures
        is_copy_mime(m, mime@),
{
    if str_equals(mime, "text/plain") {
        CopyMime::Text
    } else {
        CopyMime::Specific(mime.to_owned())
    }
}

fn utf8_text(data: &[u8], context: &'static str) -> (r: Result<String, Error>)
    ensures
        valid_utf8(data@) ==> (r matches Ok(text) && text@ == decode_utf8(data@)),
        !valid_utf8(data@) ==> (r matches Err(e) && is_utf8_error(e, context@, data@)),
{
    match str_from_utf8(data) {
        Ok(text) => Ok(text.to_owned()),
        Err(message) => Err(Error::Platform { context, source: message }),
    }
}

/// The text of a web text blob, checked once the browser clipboard has been
/// found: the decoded bytes, or the web's UTF-8 error.
pub fn web_blob_text(bytes: &[u8]) -> (r: Result<String, Error>)
    ensures
        valid_utf8(bytes@) ==> (r matches Ok(text) && text@ == decode_utf8(bytes@)),
        !valid_utf8(bytes@) ==> (r matches Err(e) && is_utf8_error(e, "web: utf-8"@, bytes@)),
{
    utf8_text(bytes, "web: utf-8")
}

impl Clipboard {
    /// The request that reads the clipboard content in `mime_type`.
    pub fn read_request(&self, mime_type: &str) -> (r: Result<ReadRequest, Error>)
        ensures
            is_read_request(self@, mime_type@, r),
    {
        let is_text = str_equals(mime_type, "text/plain");
        match self.backend() {
            Backend::Wayland(sel) => Ok(
                ReadRequest::Wayland { clipboard: wayland_clipboard_kind(sel), mime: paste_mime(mime_type) },
            ),
            Backend::X11(sel) => if is_text {
                Ok(ReadRequest::X11 { selection: x11_selection_of(sel) })
            } else {
                Err(Error::NotSupported)
            },
            Backend::Web => if is_text {
                Ok(ReadRequest::WebText)
            } else {
                Ok(ReadRequest::WebItem { mime_type: mime_type.to_owned() })
            },
            Backend::Android => if is_text {
                Ok(ReadRequest::AndroidText)
            } else {
                Err(Error::NotSupported)
            },
        }
    }

    /// The request that writes `data` to the clipboard in `mime_type`.
    pub fn write_request(&self, mime_type: &str, data: &[u8]) -> (r: Result<WriteRequest, Error>)
        ensures
            is_write_request(self@, mime_type@, data@, r),
    {
        let is_text = str_equals(mime_type, "text/plain");
        match self.backend() {
            Backend::Wayland(sel) => Ok(
                WriteRequest::Wayland {
                    clipboard: wayland_clipboard_kind(sel),
                    mime: copy_mime(mime_type),
                    bytes: vstd::slice::slice_to_vec(data),
                },
            ),
            Backend::X11(sel) => if is_text {
                Ok(
                    WriteRequest::X11 {
                        selection: x11_selection_of(sel),
                        bytes: vstd::slice::slice_to_vec(data),
                    },
                )
            } else {
                Err(Error::NotSupported)
            },
            Backend::Web => if is_text {
                match utf8_text(data, "web: utf-8") {
                    Ok(text) => Ok(WriteRequest::WebText { text }),
                    Err(e) => Err(e),
                }
            } else if starts_with(mime_type, "text/") || str_equals(mime_type, "application/rtf") {
                Ok(
                    WriteRequest::WebTextBlob {
                        mime_type: mime_type.to_owned(),
                        bytes: vstd::slice::slice_to_vec(data),
                    },
                )
            } else {
                Ok(
                    WriteRequest::WebBytesBlob {
                        mime_type: mime_type.to_owned(),
                        bytes: vstd::slice::slice_to_vec(data),
                    },
                )
            },
            Backend::Android => if is_text {
                match utf8_text(data, "android: utf-8") {
                    Ok(text) => Ok(WriteRequest::AndroidText { text }),
                    Err(e) => Err(e),
                }
            } else {
                Err(Error::NotSupported)
            },
        }
    }

    /// The request that lists the MIME types on the clipboard.
    pub fn mime_types_request(&self) -> (r: MimeTypesRequest)
        ensures
            r == mime_types_request_of(self@),
    {
        match self.backend() {
            Backend::Wayland(sel) => MimeTypesRequest::Wayland { clipboard: wayland_clipboard_kind(sel) },
            Backend::X11(_) => MimeTypesRequest::Unlisted,
            Backend::Web => MimeTypesRequest::Web,
            Backend::Android => MimeTypesRequest::Android,
        }
    }

    /// The request that reads text: a read in `text/plain`.
    pub fn read_text_request(&self) -> (r: Result<ReadRequest, Error>)
        ensures
            is_read_request(self@, text_plain(), r),
    {
        self.read_request("text/plain")
    }

    /// The request that writes `text`: a write of its UTF-8 bytes in
    /// `text/plain`.
    pub fn write_text_request(&self, text: &str) -> (r: Result<WriteRequest, Error>)
        ensures
            is_write_request(self@, text_plain(), encode_utf8(text@), r),
    {
        let bytes = text_to_bytes(text);
        self.write_request("text/plain", bytes.as_slice())
    }
}

} // verus!

verus! {

/// Plain text is supported on every backend: reading text never fails before
/// reaching the backend, and writing text never fails either, because the
/// UTF-8 encoding of a text is always well-formed; the text (or its bytes)
/// reaches the backend unchanged.
pub proof fn lemma_text_supported_everywhere(
    b: Backend,
    text: Seq<char>,
    read: Result<ReadRequest, Error>,
    write: Result<WriteRequest, Error>,
)
    requires
        is_read_request(b, text_plain(), read),
        is_write_request(b, text_plain(), encode_utf8(text), write),
    ensures
        read is Ok,
        write is Ok,
        write matches Ok(WriteRequest::WebText { text: t }) ==> t@ == text,
        write matches Ok(WriteRequest::AndroidText { text: t }) ==> t@ == text,
        write matches Ok(WriteRequest::Wayland { bytes, .. }) ==> bytes@ == encode_utf8(text),
        write matches Ok(WriteRequest::X11 { bytes, .. }) ==> bytes@ == encode_utf8(text),
{
    encode_utf8_valid_utf8(text);
    encode_utf8_decode_utf8(text);
}

/// Android and X11 support `text/plain` only: a read or a write in any other
/// MIME type is refused with `NotSupported`.
pub proof fn lemma_text_only_backends(
    b: Backend,
    mime: Seq<char>,
    data: Seq<u8>,
    read: Result<ReadRequest, Error>,
    write: Result<WriteRequest, Error>,
)
    requires
        b is Android || b is X11,
        mime != text_plain(),
        is_read_request(b, mime, read),
        is_write_request(b, mime, data, write),
    ensures
        read matches Err(Error::NotSupported),
        write matches Err(Error::NotSupported),
{
}

/// Wayland and the web accept any MIME type; both keep the requested type,
/// Wayland and web binary blobs carry the data byte for byte, and web text
/// blobs carry the bytes until the browser clipboard is found.
pub proof fn lemma_any_type_backends(
    b: Backend,
    mime: Seq<char>,
    data: Seq<u8>,
    read: Result<ReadRequest, Error>,
    write: Result<WriteRequest, Error>,
)
    requires
        b is Wayland || b is Web,
        is_read_request(b, mime, read),
        is_write_request(b, mime, data, write),
    ensures
        read is Ok,
        mime != text_plain() ==> write is Ok,
        b is Wayland ==> (write matches Ok(WriteRequest::Wayland { bytes, .. }) && bytes@ == data),
        b is Web && !is_web_text_type(mime) ==> (write matches Ok(WriteRequest::WebBytesBlob {
            mime_type,
            bytes,
        }) && mime_type@ == mime && bytes@ == data),
{
    reveal_strlit("text/plain");
    reveal_strlit("text/");
    assert("text/plain"@.subrange(0, 5) =~= "text/"@);
    assert(is_prefix_of("text/"@, text_plain()));
}

} // verus!

verus! {

/// The bytes that a write leaves on the clipboard in its type: the data
/// itself for byte payloads, and the UTF-8 encoding of the text for text
/// payloads (a web text blob holds the text decoded from its bytes).
pub open spec fn stored_bytes(w: WriteRequest) -> Seq<u8> {
    match w {
        WriteRequest::Wayland { bytes, .. } => bytes@,
        WriteRequest::X11 { bytes, .. } => bytes@,
        WriteRequest::WebText { text } => encode_utf8(text@),
        WriteRequest::WebTextBlob { bytes, .. } => encode_utf8(decode_utf8(bytes@)),
        WriteRequest::WebBytesBlob { bytes, .. } => bytes@,
        WriteRequest::AndroidText { text } => encode_utf8(text@),
    }
}

/// The read request `rd` addresses what the write request `w` stored: the
/// same Wayland clipboard, the same X11 selection, the browser's text or
/// the item of the same type, or Android's text.
pub open spec fn reads_what_was_written(rd: ReadRequest, w: WriteRequest, mime: Seq<char>) -> bool {
    match w {
        WriteRequest::Wayland { clipboard: c, .. } => rd matches ReadRequest::Wayland { clipboard, .. }
            && clipboard == c,
        WriteRequest::X11 { selection: s, .. } => rd matches ReadRequest::X11 { selection } && selection == s,
        WriteRequest::WebText { .. } => rd is WebText,
        WriteRequest::WebTextBlob { mime_type: m, .. } => rd matches ReadRequest::WebItem { mime_type }
            && mime_type@ == m@ && m@ == mime,
        WriteRequest::WebBytesBlob { mime_type: m, .. } => rd matches ReadRequest::WebItem { mime_type }
            && mime_type@ == m@ && m@ == mime,
        WriteRequest::AndroidText { .. } => rd is AndroidText,
    }
}

/// Reading back what was written gives the written data.  On every backend,
/// when a write of `data` in `mime` is accepted (on the web, data in a text
/// type must be UTF-8), the read in `mime` is accepted too, addresses what
/// the write stored, and what the write stored is exactly `data`; the reply
/// functions (`wayland_read_result`, `web_text_bytes`, `web_item_result`,
/// `android_text_result`) and the X11 load hand those bytes back unchanged.
pub proof fn lemma_read_after_write(
    b: Backend,
    mime: Seq<char>,
    data: Seq<u8>,
    write: Result<WriteRequest, Error>,
    read: Result<ReadRequest, Error>,
)
    requires
        is_write_request(b, mime, data, write),
        is_read_request(b, mime, read),
        write is Ok,
        b is Web && is_web_text_type(mime) ==> valid_utf8(data),
    ensures
        read is Ok,
        reads_what_was_written(read->Ok_0, write->Ok_0, mime),
        stored_bytes(write->Ok_0) == data,
{
    if valid_utf8(data) {
        decode_utf8_encode_utf8(data);
    }
}

} // verus!

verus! {

/// The Wayland clipboard and the X11 selection that a handle's requests
/// address are the ones named by its selection: CLIPBOARD means the regular
/// clipboard (Ctrl+C / Ctrl+V) and PRIMARY the primary selection, for reads,
/// writes and listings alike.
pub proof fn lemma_requests_address_the_chosen_selection(
    sel: LinuxSelection,
    mime: Seq<char>,
    data: Seq<u8>,
    read: Result<ReadRequest, Error>,
    write: Result<WriteRequest, Error>,
)
    ensures
        (clipboard_kind(sel) == ClipboardKind::Regular) <==> (sel == LinuxSelection::Clipboard),
        (clipboard_kind(sel) == ClipboardKind::Primary) <==> (sel == LinuxSelection::Primary),
        (x11_selection(sel) == X11Selection::Clipboard) <==> (sel == LinuxSelection::Clipboard),
        (x11_selection(sel) == X11Selection::Primary) <==> (sel == LinuxSelection::Primary),
        is_read_request(Backend::Wayland(sel), mime, read) ==> (read matches Ok(ReadRequest::Wayland {
            clipboard,
            ..
        }) && (clipboard == ClipboardKind::Primary <==> sel == LinuxSelection::Primary)),
        is_write_request(Backend::Wayland(sel), mime, data, write) ==> (write matches Ok(
            WriteRequest::Wayland { clipboard, .. },
        ) && (clipboard == ClipboardKind::Primary <==> sel == LinuxSelection::Primary)),
        mime_types_request_of(Backend::Wayland(sel)) == (MimeTypesRequest::Wayland {
            clipboard: if sel == LinuxSelection::Primary {
                ClipboardKind::Primary
            } else {
                ClipboardKind::Regular
            },
        }),
        is_read_request(Backend::X11(sel), mime, read) && read is Ok ==> (read matches Ok(ReadRequest::X11 {
            selection,
        }) && (selection == X11Selection::Primary <==> sel == LinuxSelection::Primary)),
        is_write_request(Backend::X11(sel), mime, data, write) && write is Ok ==> (write matches Ok(
            WriteRequest::X11 { selection, .. },
        ) && (selection == X11Selection::Primary <==> sel == LinuxSelection::Primary)),
{
}

/// Listing: only a backend that cannot enumerate formats (X11) gets the
/// empty `Unlisted` request; Android lists its primary clip description,
/// the web its clipboard items, and Wayland the offer of the handle's
/// clipboard.
pub proof fn lemma_listing_requests(b: Backend)
    ensures
        (mime_types_request_of(b) == MimeTypesRequest::Unlisted) <==> b is X11,
        b is Android ==> mime_types_request_of(b) == MimeTypesRequest::Android,
        b is Web ==> mime_types_request_of(b) == MimeTypesRequest::Web,
        b is Wayland ==> mime_types_request_of(b) is Wayland,
{
}

/// On the web a write in a type other than `text/plain` is a text blob
/// exactly when the type starts with `text/` or is `application/rtf`; any
/// other type (such as `application/pdf`) is a binary blob that carries the
/// data byte for byte, whatever the bytes are.
pub proof fn lemma_web_blob_kind(mime: Seq<char>, data: Seq<u8>, write: Result<WriteRequest, Error>)
    requires
        is_write_request(Backend::Web, mime, data, write),
        mime != "text/plain"@,
    ensures
        (is_prefix_of("text/"@, mime) || mime == "application/rtf"@) ==> (write matches Ok(
            WriteRequest::WebTextBlob { mime_type, bytes },
        ) && mime_type@ == mime && bytes@ == data),
        !(is_prefix_of("text/"@, mime) || mime == "application/rtf"@) ==> (write matches Ok(
            WriteRequest::WebBytesBlob { mime_type, bytes },
        ) && mime_type@ == mime && bytes@ == data),
{
}

} // verus!

verus! {

/// Wayland types: `text/plain` is pasted as any text and copied under the
/// usual text types; another `text/` type is pasted preferring that type;
/// every other type is pasted and copied under exactly its own name.  On
/// Android and X11 it is `text/plain` that is read as text.
pub proof fn lemma_wayland_mime_routing(
    mime: Seq<char>,
    p: PasteMime,
    c: CopyMime,
    read: Result<ReadRequest, Error>,
)
    requires
        is_paste_mime(p, mime),
        is_copy_mime(c, mime),
    ensures
        (p is Text) <==> (mime == "text/plain"@),
        (c is Text) <==> (mime == "text/plain"@),
        (p is TextWithPriority) <==> (mime != "text/plain"@ && is_prefix_of("text/"@, mime)),
        p matches PasteMime::TextWithPriority(s) ==> s@ == mime,
        p matches PasteMime::Specific(s) ==> s@ == mime,
        c matches CopyMime::Specific(s) ==> s@ == mime,
        mime == "text/plain"@ && is_read_request(Backend::Android, mime, read) ==> read matches Ok(
            ReadRequest::AndroidText,
        ),
        mime == "text/plain"@ && is_read_request(Backend::Web, mime, read) ==> read matches Ok(
            ReadRequest::WebText,
        ),
{
}

} // verus!
