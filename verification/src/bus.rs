//! Trusted boundary to the message bus: the connection handles and the
//! remote operations the two inhibition strategies perform. Every result
//! here depends on the environment (which services are present, what they
//! grant), so the contracts state only what holds of every outcome; the
//! verified strategies say what the tool does with whatever came back.

use vstd::prelude::*;

verus! {

/// A live connection to a message bus, opaque to verification.
#[verifier::external_type_specification]
#[verifier::external_body]
pub struct ExConnection(dbus::blocking::Connection);

/// Relies on `dbus::blocking::Connection::new_system`: opens a connection to
/// the system bus, or reports why none could be opened.
#[verifier::external_body]
pub(crate) fn connect_system() -> (r: Result<dbus::blocking::Connection, String>) {
    dbus::blocking::Connection::new_system().map_err(|e| format!("{}", e))
}

/// Relies on `dbus::blocking::Connection::new_session`: opens a connection to
/// the session bus, or reports why none could be opened.
#[verifier::external_body]
pub(crate) fn connect_session() -> (r: Result<dbus::blocking::Connection, String>) {
    dbus::blocking::Connection::new_session().map_err(|e| format!("{}", e))
}

/// Relies on `dbus::blocking::Proxy::method_call`, addressed to the
/// `org.freedesktop.login1` manager object: an `Inhibit` request with
/// what = "idle" and mode = "block" is answered, within a one-second
/// round-trip bound, with one transferable descriptor, here unwrapped
/// to its raw form via `dbus::arg::OwnedFd::into_fd`.
#[verifier::external_body]
pub(crate) fn login1_inhibit(
    conn: &dbus::blocking::Connection,
    application: &str,
    reason: &str,
) -> (r: Result<i32, String>) {
    let proxy = conn.with_proxy(
        "org.freedesktop.login1",
        "/org/freedesktop/login1",
        std::time::Duration::from_millis(1000),
    );
    let reply: Result<(dbus::arg::OwnedFd,), dbus::Error> =
        proxy.method_call("org.freedesktop.login1.Manager", "Inhibit", ("idle", application, reason, "block"));
    match reply {
        Ok((fd,)) => Ok(fd.into_fd()),
        Err(e) => Err(format!("{}", e)),
    }
}

/// Relies on `nix::unistd::close`: closes the descriptor backing an idle
/// lease, which is the whole of its release.
#[verifier::external_body]
pub(crate) fn close_fd(fd: i32) -> (r: Result<(), String>) {
    nix::unistd::close(fd).map_err(|e| format!("{}", e))
}

/// Relies on `dbus::blocking::Proxy::method_call`, addressed to the
/// `org.freedesktop.ScreenSaver` object: an `Inhibit` request carrying the
/// application name and reason is answered, within a one-second round-trip
/// bound, with one opaque 32-bit cookie.
#[verifier::external_body]
pub(crate) fn screensaver_inhibit(
    conn: &dbus::blocking::Connection,
    application: &str,
    reason: &str,
) -> (r: Result<u32, String>) {
    let proxy = conn.with_proxy(
        "org.freedesktop.ScreenSaver",
        "/ScreenSaver",
        std::time::Duration::from_secs(1),
    );
    let reply: Result<(u32,), dbus::Error> =
        proxy.method_call("org.freedesktop.ScreenSaver", "Inhibit", (application, reason));
    match reply {
        Ok((cookie,)) => Ok(cookie),
        Err(e) => Err(format!("{}", e)),
    }
}

/// Relies on `dbus::blocking::Proxy::method_call`, addressed to the
/// `org.freedesktop.ScreenSaver` object: an `UnInhibit` request hands the
/// given cookie back verbatim; the call itself can fail and says why.
#[verifier::external_body]
pub(crate) fn screensaver_uninhibit(
    conn: &dbus::blocking::Connection,
    cookie: u32,
) -> (r: Result<(), String>) {
    let proxy = conn.with_proxy(
        "org.freedesktop.ScreenSaver",
        "/ScreenSaver",
        std::time::Duration::from_secs(1),
    );
    let reply: Result<(), dbus::Error> =
        proxy.method_call("org.freedesktop.ScreenSaver", "UnInhibit", (cookie,));
    reply.map_err(|e| format!("{}", e))
}

} // verus!
