//! Opening a clipboard handle: which backend is probed, in what order, and
//! what the opening ends with.
//!
//! Opening is a conversation with the host.  `Clipboard::new_with_options`
//! looks at the host description and either finishes at once or asks for a
//! backend probe; the caller performs the probe and hands its verdict to
//! `Probe::resume`, which again finishes or asks for the next probe.

use vstd::prelude::*;
use crate::error::Error;
use crate::options::{ClipboardOptions, LinuxBackend, LinuxOptions, LinuxSelection};

verus! {

/// The kind of host the library runs on.
#[derive(Debug, Clone, Copy, PartialEq, Eq, Structural)]
pub enum Platform {
    /// A browser (wasm32): `navigator.clipboard`.
    Web,
    /// Android: the system `ClipboardManager`.
    Android,
    /// Linux: Wayland or X11.
    Linux,
    /// Any other system; no clipboard is available.
    Unsupported,
}

/// What the host reports before any backend is contacted.
#[derive(Debug, Clone, Copy, PartialEq, Eq, Structural)]
pub struct HostInfo {
    /// The kind of host.
    pub platform: Platform,
    /// `WAYLAND_DISPLAY` is set.
    pub wayland_display: bool,
    /// `DISPLAY` is set.
    pub x11_display: bool,
}

/// The backend that a clipboard handle talks to.
#[derive(Debug, Clone, Copy, PartialEq, Eq, Structural)]
pub enum Backend {
    /// A Wayland compositor's data-control protocol, on the given selection.
    Wayland(LinuxSelection),
    /// An X11 server, on the given selection.
    X11(LinuxSelection),
    /// The browser clipboard.
    Web,
    /// The Android clipboard manager.
    Android,
}

/// A cross-platform clipboard handle.
///
/// **Important (Linux):** Keep the live connection that goes with this handle
/// while you expect clipboard data to be available. Due to selection
/// ownership semantics, dropping it too soon after a write may cause the
/// clipboard to appear empty.
#[derive(Debug, Clone, Copy)]
pub struct Clipboard {
    backend: Backend,
}

impl View for Clipboard {
    type V = Backend;

    closed spec fn view(&self) -> Backend {
        self.backend
    }
}

/// A Linux backend that can be probed.
#[derive(Debug, Clone, Copy, PartialEq, Eq, Structural)]
pub enum ProbeTarget {
    /// The Wayland backend.
    Wayland,
    /// The X11 backend.
    X11,
}

/// What an opening does when a probe fails.
#[derive(Debug, Clone, Copy, PartialEq, Eq, Structural)]
pub enum AfterFailure {
    /// Report the probe's error (the backend was forced).
    Report,
    /// Go on with an X11 probe.
    TryX11,
    /// Give up with `Error::NotSupported`.
    GiveUp,
}

/// The description of a pending probe.
#[derive(Debug, Clone, Copy, PartialEq, Eq, Structural)]
pub struct ProbeState {
    /// The backend to probe.
    pub target: ProbeTarget,
    /// The selection that the handle will use.
    pub selection: LinuxSelection,
    /// What happens when the probe fails.
    pub after_failure: AfterFailure,
}

/// A backend probe that the host must perform before opening can go on.
#[derive(Debug)]
pub struct Probe {
    state: ProbeState,
}

impl View for Probe {
    type V = ProbeState;

    closed spec fn view(&self) -> ProbeState {
        self.state
    }
}

/// Where an opening stands.
#[derive(Debug)]
pub enum Opening {
    /// A backend must be probed; its verdict goes to `Probe::resume`.
    Probe(Probe),
    /// The opening is over.
    Ready(Result<Clipboard, Error>),
}

/// Where an opening stands, as the contracts describe it.
pub enum Step {
    /// A backend must be probed.
    Probe(ProbeState),
    /// The opening ended with this backend or this error.
    Ready(Result<Backend, Error>),
}

/// The description of an opening.
pub open spec fn opening_view(o: Opening) -> Step {
    match o {
        Opening::Probe(p) => Step::Probe(p@),
        Opening::Ready(Ok(c)) => Step::Ready(Ok(c@)),
        Opening::Ready(Err(e)) => Step::Ready(Err(e)),
    }
}

/// The options that `ClipboardOptions::default` gives.
pub open spec fn default_options() -> ClipboardOptions {
    ClipboardOptions {
        linux: LinuxOptions { selection: LinuxSelection::Clipboard, backend: LinuxBackend::Auto },
    }
}

/// The backend that a successful probe of `target` opens.
pub open spec fn probed_backend(target: ProbeTarget, selection: LinuxSelection) -> Backend {
    match target {
        ProbeTarget::Wayland => Backend::Wayland(selection),
        ProbeTarget::X11 => Backend::X11(selection),
    }
}

/// The first step of an opening: non-Linux hosts finish at once, a forced
/// Linux backend is probed alone, and `Auto` probes Wayland when
/// `WAYLAND_DISPLAY` is set and X11 when `DISPLAY` is set, Wayland first.
pub open spec fn opening_step(opts: ClipboardOptions, host: HostInfo) -> Step {
    let selection = opts.linux.selection;
    match host.platform {
        Platform::Web => Step::Ready(Ok(Backend::Web)),
        Platform::Android => Step::Ready(Ok(Backend::Android)),
        Platform::Unsupported => Step::Ready(Err(Error::NotSupported)),
        Platform::Linux => match opts.linux.backend {
            LinuxBackend::Wayland => Step::Probe(
                ProbeState { target: ProbeTarget::Wayland, selection, after_failure: AfterFailure::Report },
            ),
            LinuxBackend::X11 => Step::Probe(
                ProbeState { target: ProbeTarget::X11, selection, after_failure: AfterFailure::Report },
            ),
            LinuxBackend::Auto => if host.wayland_display {
                Step::Probe(
                    ProbeState {
                        target: ProbeTarget::Wayland,
                        selection,
                        after_failure: if host.x11_display {
                            AfterFailure::TryX11
                        } else {
                            AfterFailure::GiveUp
                        },
                    },
                )
            } else if host.x11_display {
                Step::Probe(
                    ProbeState { target: ProbeTarget::X11, selection, after_failure: AfterFailure::GiveUp },
                )
            } else {
                Step::Ready(Err(Error::NotSupported))
            },
        },
    }
}

/// The step after a probe with the given verdict.
pub open spec fn resume_step(p: ProbeState, verdict: Result<(), Error>) -> Step {
    match verdict {
        Ok(()) => Step::Ready(Ok(probed_backend(p.target, p.selection))),
        Err(e) => match p.after_failure {
            AfterFailure::Report => Step::Ready(Err(e)),
            AfterFailure::TryX11 => Step::Probe(
                ProbeState { target: ProbeTarget::X11, selection: p.selection, after_failure: AfterFailure::GiveUp },
            ),
            AfterFailure::GiveUp => Step::Ready(Err(Error::NotSupported)),
        },
    }
}

/// What each Linux backend's probe would reply.
pub struct ProbeReplies {
    /// The verdict of a Wayland probe.
    pub wayland: Result<(), Error>,
    /// The verdict of an X11 probe.
    pub x11: Result<(), Error>,
}

/// The probes that an opening performs, in order, and what it ends with,
/// given what each probe replies.
///
/// Web and Android hosts open at once and every other non-Linux host is not
/// supported.  On Linux a forced backend is probed alone and its verdict is
/// the result.  `Auto` tries Wayland when `WAYLAND_DISPLAY` is set and keeps
/// it if the probe succeeds; otherwise it tries X11 when `DISPLAY` is set;
/// when nothing works it reports `NotSupported`.
pub open spec fn opening_trace(opts: ClipboardOptions, host: HostInfo, replies: ProbeReplies) -> (
    Seq<ProbeTarget>,
    Result<Backend, Error>,
) {
    let selection = opts.linux.selection;
    match host.platform {
        Platform::Web => (seq![], Ok(Backend::Web)),
        Platform::Android => (seq![], Ok(Backend::Android)),
        Platform::Unsupported => (seq![], Err(Error::NotSupported)),
        Platform::Linux => match opts.linux.backend {
            LinuxBackend::Wayland => (
                seq![ProbeTarget::Wayland],
                match replies.wayland {
                    Ok(_) => Ok(Backend::Wayland(selection)),
                    Err(e) => Err(e),
                },
            ),
            LinuxBackend::X11 => (
                seq![ProbeTarget::X11],
                match replies.x11 {
                    Ok(_) => Ok(Backend::X11(selection)),
                    Err(e) => Err(e),
                },
            ),
            LinuxBackend::Auto => if host.wayland_display && replies.wayland is Ok {
                (seq![ProbeTarget::Wayland], Ok(Backend::Wayland(selection)))
            } else {
                let before: Seq<ProbeTarget> = if host.wayland_display {
                    seq![ProbeTarget::Wayland]
                } else {
                    seq![]
                };
                if host.x11_display {
                    (
                        before.push(ProbeTarget::X11),
                        if replies.x11 is Ok {
                            Ok(Backend::X11(selection))
                        } else {
                            Err(Error::NotSupported)
                        },
                    )
                } else {
                    (before, Err(Error::NotSupported))
                }
            },
        },
    }
}

/// Run an opening from step `s`, answering each probe from `replies`, for at
/// most `fuel` probes: the probes performed and, if it finished, the result.
pub open spec fn drive(s: Step, replies: ProbeReplies, fuel: nat) -> (
    Seq<ProbeTarget>,
    Option<Result<Backend, Error>>,
)
    decreases fuel,
{
    match s {
        Step::Ready(r) => (seq![], Some(r)),
        Step::Probe(p) => if fuel == 0 {
            (seq![], None)
        } else {
            let verdict = match p.target {
                ProbeTarget::Wayland => replies.wayland,
                ProbeTarget::X11 => replies.x11,
            };
            let rest = drive(resume_step(p, verdict), replies, (fuel - 1) as nat);
            (seq![p.target] + rest.0, rest.1)
        },
    }
}

/// Opening a handle, step by step with `Clipboard::new_with_options` and
/// `Probe::resume`, performs exactly the probes of `opening_trace`, in its
/// order, finishes after at most two probes, and ends with its result.
pub proof fn lemma_opening_follows_trace(opts: ClipboardOptions, host: HostInfo, replies: ProbeReplies)
    ensures
        drive(opening_step(opts, host), replies, 2).0 == opening_trace(opts, host, replies).0,
        drive(opening_step(opts, host), replies, 2).1 == Some(opening_trace(opts, host, replies).1),
{
    reveal_with_fuel(drive, 3);
    let s = opening_step(opts, host);
    let t = opening_trace(opts, host, replies);
    let d = drive(s, replies, 2);
    if let Step::Probe(p) = s {
        let v1 = match p.target {
            ProbeTarget::Wayland => replies.wayland,
            ProbeTarget::X11 => replies.x11,
        };
        let s1 = resume_step(p, v1);
        if let Step::Probe(q) = s1 {
            let v2 = match q.target {
                ProbeTarget::Wayland => replies.wayland,
                ProbeTarget::X11 => replies.x11,
            };
            assert(d.0 =~= seq![p.target, q.target]);
        } else {
            assert(d.0 =~= seq![p.target]);
        }
    } else {
        assert(d.0 =~= Seq::<ProbeTarget>::empty());
    }
    assert(d.0 =~= t.0);
}

/// An opening probes each backend at most once, Wayland before X11, and only
/// on Linux.
pub proof fn lemma_opening_probes_each_backend_once(opts: ClipboardOptions, host: HostInfo, replies: ProbeReplies)
    ensures
        ({
            let probes = opening_trace(opts, host, replies).0;
            &&& probes.len() <= 2
            &&& probes.len() == 2 ==> probes == seq![ProbeTarget::Wayland, ProbeTarget::X11]
            &&& host.platform != Platform::Linux ==> probes.len() == 0
        }),
{
}

/// A forced backend is the only one probed, and its probe's verdict is the
/// verdict of the opening: there is no fallback.
pub proof fn lemma_forced_backend_never_falls_back(opts: ClipboardOptions, host: HostInfo, replies: ProbeReplies)
    requires
        host.platform == Platform::Linux,
        opts.linux.backend != LinuxBackend::Auto,
    ensures
        ({
            let (probes, result) = opening_trace(opts, host, replies);
            let (target, verdict) = if opts.linux.backend == LinuxBackend::Wayland {
                (ProbeTarget::Wayland, replies.wayland)
            } else {
                (ProbeTarget::X11, replies.x11)
            };
            &&& probes == seq![target]
            &&& result is Ok <==> verdict is Ok
            &&& result is Ok ==> result == Ok::<Backend, Error>(probed_backend(target, opts.linux.selection))
            &&& verdict matches Err(e) ==> result == Err::<Backend, Error>(e)
        }),
{
}

/// With `Auto`, Wayland is preferred: when `WAYLAND_DISPLAY` is set and the
/// Wayland probe succeeds, the handle uses Wayland and X11 is never touched.
pub proof fn lemma_auto_prefers_wayland(opts: ClipboardOptions, host: HostInfo, replies: ProbeReplies)
    requires
        host.platform == Platform::Linux,
        opts.linux.backend == LinuxBackend::Auto,
        host.wayland_display,
        replies.wayland is Ok,
    ensures
        opening_trace(opts, host, replies) == (
            seq![ProbeTarget::Wayland],
            Ok::<Backend, Error>(Backend::Wayland(opts.linux.selection)),
        ),
{
}

/// With `Auto`, X11 is the fallback: when Wayland is not available (no
/// `WAYLAND_DISPLAY`, or its probe fails) and `DISPLAY` is set, X11 is
/// probed, and its success gives an X11 handle.
pub proof fn lemma_auto_falls_back_to_x11(opts: ClipboardOptions, host: HostInfo, replies: ProbeReplies)
    requires
        host.platform == Platform::Linux,
        opts.linux.backend == LinuxBackend::Auto,
        !host.wayland_display || replies.wayland is Err,
        host.x11_display,
    ensures
        opening_trace(opts, host, replies).0.last() == ProbeTarget::X11,
        replies.x11 is Ok ==> opening_trace(opts, host, replies).1 == Ok::<Backend, Error>(
            Backend::X11(opts.linux.selection),
        ),
{
}

/// With `Auto`, a backend is probed only when its display variable is set,
/// and every failure is reported as `NotSupported`.
pub proof fn lemma_auto_failure_is_not_supported(opts: ClipboardOptions, host: HostInfo, replies: ProbeReplies)
    requires
        host.platform == Platform::Linux,
        opts.linux.backend == LinuxBackend::Auto,
    ensures
        ({
            let (probes, result) = opening_trace(opts, host, replies);
            &&& probes.contains(ProbeTarget::Wayland) ==> host.wayland_display
            &&& probes.contains(ProbeTarget::X11) ==> host.x11_display
            &&& result is Err ==> result == Err::<Backend, Error>(Error::NotSupported)
        }),
{
    let probes = opening_trace(opts, host, replies).0;
    if probes.contains(ProbeTarget::X11) {
        let i = choose|i: int| 0 <= i < probes.len() && probes[i] == ProbeTarget::X11;
    }
    if probes.contains(ProbeTarget::Wayland) {
        let i = choose|i: int| 0 <= i < probes.len() && probes[i] == ProbeTarget::Wayland;
    }
}

/// Every Linux handle uses the selection asked for in the options, and
/// platforms other than Linux, the web and Android are not supported.
pub proof fn lemma_opened_backend_matches_host(opts: ClipboardOptions, host: HostInfo, replies: ProbeReplies)
    ensures
        ({
            let result = opening_trace(opts, host, replies).1;
            &&& host.platform == Platform::Linux && result is Ok ==> (result == Ok::<Backend, Error>(
                Backend::Wayland(opts.linux.selection),
            ) || result == Ok::<Backend, Error>(Backend::X11(opts.linux.selection)))
            &&& host.platform == Platform::Web ==> result == Ok::<Backend, Error>(Backend::Web)
            &&& host.platform == Platform::Android ==> result == Ok::<Backend, Error>(Backend::Android)
            &&& host.platform == Platform::Unsupported ==> result == Err::<Backend, Error>(Error::NotSupported)
        }),
{
}

/// `Clipboard::new` opens with the options that `ClipboardOptions::default`
/// gives: the CLIPBOARD selection and automatic backend choice.  So on Linux
/// it never forces a backend: without `WAYLAND_DISPLAY` it does not touch
/// Wayland, with `DISPLAY` it probes X11, and a successful X11 probe opens
/// an X11 handle on the CLIPBOARD selection.
pub proof fn lemma_new_uses_default_options(host: HostInfo, replies: ProbeReplies)
    ensures
        default_options().linux.selection == LinuxSelection::Clipboard,
        default_options().linux.backend == LinuxBackend::Auto,
        host.platform == Platform::Linux && !host.wayland_display ==> !opening_trace(
            default_options(),
            host,
            replies,
        ).0.contains(ProbeTarget::Wayland),
        host.platform == Platform::Linux && !host.wayland_display && host.x11_display && replies.x11 is Ok
            ==> opening_trace(default_options(), host, replies) == (
            seq![ProbeTarget::X11],
            Ok::<Backend, Error>(Backend::X11(LinuxSelection::Clipboard)),
        ),
{
    let probes = opening_trace(default_options(), host, replies).0;
    if host.platform == Platform::Linux && !host.wayland_display && probes.contains(ProbeTarget::Wayland) {
        let i = choose|i: int| 0 <= i < probes.len() && probes[i] == ProbeTarget::Wayland;
    }
}

impl Clipboard {
    /// Start opening a clipboard handle with default options.
    pub fn new(host: HostInfo) -> (o: Opening)
        ensures
            opening_view(o) == opening_step(default_options(), host),
            opening_view(o) == opening_step(
                ClipboardOptions {
                    linux: LinuxOptions { selection: LinuxSelection::Clipboard, backend: LinuxBackend::Auto },
                },
                host,
            ),
    {
        Self::new_with_options(ClipboardOptions::default(), host)
    }

    /// Start opening a clipboard handle with custom options.
    pub fn new_with_options(opts: ClipboardOptions, host: HostInfo) -> (o: Opening)
        ensures
            opening_view(o) == opening_step(opts, host),
    {
        let selection = opts.linux.selection;
        match host.platform {
            Platform::Web => Opening::Ready(Ok(Clipboard { backend: Backend::Web })),
            Platform::Android => Opening::Ready(Ok(Clipboard { backend: Backend::Android })),
            Platform::Unsupported => Opening::Ready(Err(Error::NotSupported)),
            Platform::Linux => match opts.linux.backend {
                LinuxBackend::Wayland => Opening::Probe(Probe {
                    state: ProbeState {
                        target: ProbeTarget::Wayland,
                        selection,
                        after_failure: AfterFailure::Report,
                    },
                }),
                LinuxBackend::X11 => Opening::Probe(Probe {
                    state: ProbeState {
                        target: ProbeTarget::X11,
                        selection,
                        after_failure: AfterFailure::Report,
                    },
                }),
                LinuxBackend::Auto => {
                    if host.wayland_display {
                        let after_failure = if host.x11_display {
                            AfterFailure::TryX11
                        } else {
                            AfterFailure::GiveUp
                        };
                        Opening::Probe(Probe {
                            state: ProbeState { target: ProbeTarget::Wayland, selection, after_failure },
                        })
                    } else if host.x11_display {
                        Opening::Probe(Probe {
                            state: ProbeState {
                                target: ProbeTarget::X11,
                                selection,
                                after_failure: AfterFailure::GiveUp,
                            },
                        })
                    } else {
                        Opening::Ready(Err(Error::NotSupported))
                    }
                },
            },
        }
    }

    /// The backend this handle talks to.
    pub fn backend(&self) -> (b: Backend)
        ensures
            b == self@,
    {
        self.backend
    }
}

impl Probe {
    /// The backend to probe.
    pub fn target(&self) -> (t: ProbeTarget)
        ensures
            t == self@.target,
    {
        self.state.target
    }

    /// The selection the probe (and the handle) uses.
    pub fn selection(&self) -> (s: LinuxSelection)
        ensures
            s == self@.selection,
    {
        self.state.selection
    }

    /// Go on with the opening once the probe has given its verdict.
    pub fn resume(self, verdict: Result<(), Error>) -> (o: Opening)
        ensures
            opening_view(o) == resume_step(self@, verdict),
    {
        match verdict {
            Ok(()) => {
                let backend = match self.state.target {
                    ProbeTarget::Wayland => Backend::Wayland(self.state.selection),
                    ProbeTarget::X11 => Backend::X11(self.state.selection),
                };
                Opening::Ready(Ok(Clipboard { backend }))
            },
            Err(e) => match self.state.after_failure {
                AfterFailure::Report => Opening::Ready(Err(e)),
                AfterFailure::TryX11 => Opening::Probe(Probe {
                    state: ProbeState {
                        target: ProbeTarget::X11,
                        selection: self.state.selection,
                        after_failure: AfterFailure::GiveUp,
                    },
                }),
                AfterFailure::GiveUp => Opening::Ready(Err(Error::NotSupported)),
            },
        }
    }
}

} // verus!
