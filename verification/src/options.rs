//! Options for creating a clipboard handle.

use vstd::prelude::*;

verus! {

/// X11 / Wayland selection type.
#[derive(Debug, Clone, Copy, PartialEq, Eq, Structural)]
#[non_exhaustive]
pub enum LinuxSelection {
    /// CLIPBOARD selection (Ctrl+C/Ctrl+V).
    Clipboard,
    /// PRIMARY selection (mouse selection, middle-click paste).
    Primary,
}

impl Default for LinuxSelection {
    fn default() -> (s: Self)
        ensures
            s == LinuxSelection::Clipboard,
    {
        LinuxSelection::Clipboard
    }
}

/// Linux backend preference.
#[derive(Debug, Clone, Copy, PartialEq, Eq, Structural)]
#[non_exhaustive]
pub enum LinuxBackend {
    /// Try Wayland first, fall back to X11.
    Auto,
    /// Force Wayland backend.
    Wayland,
    /// Force X11 backend.
    X11,
}

impl Default for LinuxBackend {
    fn default() -> (b: Self)
        ensures
            b == LinuxBackend::Auto,
    {
        LinuxBackend::Auto
    }
}

/// Linux-specific clipboard options.
#[derive(Debug, Clone, Copy, PartialEq, Eq, Structural)]
#[non_exhaustive]
pub struct LinuxOptions {
    /// Which selection to use.
    pub selection: LinuxSelection,
    /// Backend preference.
    pub backend: LinuxBackend,
}

impl Default for LinuxOptions {
    fn default() -> (o: Self)
        ensures
            o.selection == LinuxSelection::Clipboard,
            o.backend == LinuxBackend::Auto,
    {
        LinuxOptions { selection: LinuxSelection::Clipboard, backend: LinuxBackend::Auto }
    }
}

/// Options for creating a clipboard handle.
#[derive(Debug, Clone, Copy, PartialEq, Eq, Structural)]
#[non_exhaustive]
pub struct ClipboardOptions {
    /// Linux-specific options.
    pub linux: LinuxOptions,
}

impl Default for ClipboardOptions {
    fn default() -> (o: Self)
        ensures
            o.linux.selection == LinuxSelection::Clipboard,
            o.linux.backend == LinuxBackend::Auto,
    {
        ClipboardOptions { linux: LinuxOptions::default() }
    }
}

/// Options for setting text.
///
/// Unsupported fields are ignored on platforms where they can't apply:
/// `wait_for_paste` / `wait_timeout` concern the Linux selection ownership
/// model, `sensitive` is honoured on Linux and Android, and the web ignores
/// all of them.
#[derive(Clone, Copy, Debug)]
pub struct SetTextOptions {
    /// On Linux, wait until another app has requested (and thus captured)
    /// the clipboard contents (or until timeout).
    pub wait_for_paste: bool,
    /// If set, bound `wait_for_paste` by this timeout.
    pub wait_timeout: Option<std::time::Duration>,
    /// Mark clipboard content as sensitive.
    pub sensitive: bool,
}

impl Default for SetTextOptions {
    fn default() -> (o: Self)
        ensures
            !o.wait_for_paste,
            o.wait_timeout is None,
            !o.sensitive,
    {
        SetTextOptions { wait_for_paste: false, wait_timeout: None, sensitive: false }
    }
}

} // verus!
