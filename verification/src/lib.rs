//! A clipboard library with a portable API.
//!
//! The crate decides everything that can be decided without touching the
//! host: which backend to open and in what order, how a MIME type is turned
//! into a concrete backend request, how backend replies become results or
//! errors, and how clipboard bytes become text.  The host work itself
//! (talking to Wayland, X11, the browser or Android) is performed by the
//! caller, which hands the replies back to the functions of this crate.
//!
//! - Bare text reads and writes use `text/plain`.
//! - Linux: `Auto` tries Wayland first (when `WAYLAND_DISPLAY` is set) and
//!   falls back to X11 (when `DISPLAY` is set).
//! - Platforms other than Linux, the web and Android are not supported.

pub mod clipboard;
pub mod error;
pub mod mime_list;
pub mod options;
pub mod outcome;
pub mod request;
pub mod text;

pub use clipboard::{Backend, Clipboard, HostInfo, Opening, Platform, Probe, ProbeTarget};
pub use error::Error;
pub use options::{ClipboardOptions, LinuxBackend, LinuxOptions, LinuxSelection, SetTextOptions};
