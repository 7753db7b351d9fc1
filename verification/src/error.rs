//! Error type of the clipboard operations.

use vstd::prelude::*;
use vstd::string::*;

verus! {

/// Clipboard operation error.
#[derive(Debug)]
pub enum Error {
    /// Clipboard is not supported on this platform or in this environment.
    NotSupported,
    /// Permission denied (web: user activation required, Android: no focus).
    PermissionDenied(&'static str),
    /// Clipboard is unavailable (empty, no text representation, etc.).
    Unavailable(&'static str),
    /// Platform-specific error with context.
    Platform {
        /// Context describing where the error occurred.
        context: &'static str,
        /// The message of the underlying error.
        source: String,
    },
}

impl Error {
    /// The message that describes the error.
    pub open spec fn message(self) -> Seq<char> {
        match self {
            Error::NotSupported => "clipboard not supported on this platform"@,
            Error::PermissionDenied(reason) => "clipboard permission denied: "@ + reason@,
            Error::Unavailable(reason) => "clipboard unavailable: "@ + reason@,
            Error::Platform { context, source } => context@ + ": "@ + source@,
        }
    }

    /// Create a platform error with context; the underlying error is kept
    /// as its message.
    pub fn platform<E>(context: &'static str, err: E) -> (e: Self)
        where E: std::error::Error + Send + Sync + 'static,
        ensures
            e matches Error::Platform { context: c, source: s }
                && c == context
                && to_string_from_display_ensures::<E>(&err, s),
    {
        let source = err.to_string();
        Error::Platform { context, source }
    }

    /// The message that describes the error.
    pub fn to_string(&self) -> (s: String)
        ensures
            s@ == self.message(),
    {
        match self {
            Error::NotSupported => String::from_str("clipboard not supported on this platform"),
            Error::PermissionDenied(reason) => {
                let mut s = String::from_str("clipboard permission denied: ");
                s.append(reason);
                s
            },
            Error::Unavailable(reason) => {
                let mut s = String::from_str("clipboard unavailable: ");
                s.append(reason);
                s
            },
            Error::Platform { context, source } => {
                let mut s = String::from_str(context);
                s.append(": ");
                s.append(source.as_str());
                s
            },
        }
    }

    /// The message of the underlying error, present only for platform errors.
    pub fn source(&self) -> (r: Option<&str>)
        ensures
            r is Some <==> self is Platform,
            self matches Error::Platform { source, .. } ==> r.unwrap()@ == source@,
    {
        match self {
            Error::Platform { source, .. } => Some(source.as_str()),
            _ => None,
        }
    }
}

} // verus!
