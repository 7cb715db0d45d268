//! Trusted wrappers around the outside crates that answer host queries.
//!
//! Each wrapper makes one outside call and converts its result to plain
//! values. What the answers depend on (the terminal, the user database,
//! platform path rules) is outside this library, so the contracts promise
//! only what each crate's source shows of every outcome.

use vstd::prelude::*;

verus! {

/// Which standard stream a terminal query asks about.
#[derive(Clone, Copy)]
pub enum StdStream {
    Stdin,
    Stdout,
    Stderr,
}

/// Relies on atty::is: whether the given standard stream is attached to an
/// interactive terminal. The answer depends on how the process was
/// started, so nothing is promised of it; each stream is queried
/// independently.
#[verifier::external_body]
pub(crate) fn stream_is_tty(s: StdStream) -> bool {
    match s {
        StdStream::Stdin => atty::is(atty::Stream::Stdin),
        StdStream::Stdout => atty::is(atty::Stream::Stdout),
        StdStream::Stderr => atty::is(atty::Stream::Stderr),
    }
}

/// Relies on dirs::home_dir: the home directory the host reports, as a
/// string. `None` when the host has no configured home directory, or when
/// the reported path is not valid unicode. The answer depends on the
/// environment, so nothing is promised of it.
#[verifier::external_body]
pub(crate) fn host_home_dir() -> Option<String> {
    dirs::home_dir().and_then(|p| p.into_os_string().into_string().ok())
}

#[verifier::external_type_specification]
#[verifier::external_body]
pub struct ExUrl(url::Url);

/// Relies on url::Url::from_file_path: a file-scheme URL for the given
/// path, built from its components (which drops interior `.` segments);
/// `None` when the path is not absolute. No more is promised: the
/// component rules are the platform's.
#[verifier::external_body]
pub(crate) fn file_url_of(p: &str) -> Option<url::Url> {
    url::Url::from_file_path(p).ok()
}

/// Relies on url::Url::to_file_path: the URL's percent-decoded path
/// segments joined back into a filesystem path. `None` when the URL has no
/// usable path or the result is not valid unicode. No more is promised;
/// callers check the shape of what comes back.
#[verifier::external_body]
pub(crate) fn file_url_to_path(u: &url::Url) -> Option<String> {
    u.to_file_path().ok().and_then(|p| p.into_os_string().into_string().ok())
}

} // verus!
