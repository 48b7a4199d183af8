//! The two concrete strategies: idle-sleep inhibition negotiated with the
//! login manager on the system bus, and display inhibition negotiated with
//! the screen saver service on the session bus. Each owns one bus connection
//! for its lifetime and holds at most one lease at a time.

use vstd::prelude::*;
use vstd::string::StringExecFns;
use crate::bus;
use crate::errors::{InhibitError, StrategyKind};
use crate::sleep_inhibitor::SleepInhibitor;

verus! {

/// The cause text a failure carries on to the operator.
pub open spec fn spec_cause(e: InhibitError) -> Seq<char> {
    match e {
        InhibitError::Connection(c) => c@,
        InhibitError::Unsupported(_, c) => c@,
        InhibitError::Precondition => "no active lease"@,
        InhibitError::RemoteCall(c) => c@,
    }
}

/// Folds a failure of the construction-time probe into the mode-specific
/// `UnsupportedError` surfaced to the operator.
pub fn construction_error(kind: StrategyKind, e: InhibitError) -> (r: InhibitError)
    ensures
        r matches InhibitError::Unsupported(k, c) && k == kind && c@ == spec_cause(e),
{
    match e {
        InhibitError::Connection(c) => InhibitError::Unsupported(kind, c),
        InhibitError::Unsupported(_, c) => InhibitError::Unsupported(kind, c),
        InhibitError::Precondition => InhibitError::Unsupported(kind, String::from_str("no active lease")),
        InhibitError::RemoteCall(c) => InhibitError::Unsupported(kind, c),
    }
}

/// The token a successful inhibit reply `c` leaves stored.
pub open spec fn spec_stored_token<T>(c: T) -> Option<T> {
    Some(c)
}

/// The release request a strategy issues: the stored token, exactly as
/// stored, or `PreconditionError` when none is held.
pub open spec fn spec_release_request<T>(token: Option<T>) -> Result<T, InhibitError> {
    match token {
        Some(t) => Ok(t),
        None => Err(InhibitError::Precondition),
    }
}

/// Picks the token a release hands back to the service. No lease, no
/// remote call: the precondition failure is decided here, before any
/// request could be issued.
pub fn release_request<T: Copy>(token: Option<T>) -> (r: Result<T, InhibitError>)
    ensures
        r == spec_release_request(token),
{
    match token {
        Some(t) => Ok(t),
        None => Err(InhibitError::Precondition),
    }
}

/// Round-trip law of the display strategy: the cookie a successful
/// `Inhibit` reply leaves stored is exactly the value the release request
/// later hands back to `UnInhibit`, untransformed.
pub proof fn lemma_cookie_round_trip(c: u32)
    ensures
        spec_release_request(spec_stored_token(c)) == Ok::<u32, InhibitError>(c),
{
}

/// Idle-sleep inhibition over the system bus: a lease is a transferable
/// descriptor, released by closing it.
pub struct DBusSystemSleepInhibitor {
    conn: dbus::blocking::Connection,
    fd: Option<i32>,
}

impl DBusSystemSleepInhibitor {
    /// The stored lease token.
    pub closed spec fn token(&self) -> Option<i32> {
        self.fd
    }

    /// Opens the system-bus connection and probes the mechanism once —
    /// one inhibit + uninhibit round trip — so that an unsupported
    /// environment is caught before any wait is committed to.
    pub fn new() -> (r: Result<DBusSystemSleepInhibitor, InhibitError>)
        ensures
            r matches Ok(inh) ==> inh.token() is None,
            r matches Err(e) ==> e matches InhibitError::Connection(_)
                || (e matches InhibitError::Unsupported(k, _) && k == StrategyKind::SystemIdle),
    {
        let conn = match bus::connect_system() {
            Ok(c) => c,
            Err(cause) => {
                return Err(InhibitError::Connection(cause));
            },
        };
        let mut inhibitor = DBusSystemSleepInhibitor { conn, fd: None };
        if let Err(e) = inhibitor.try_inhibit("caffeinate", "Testing inhibit") {
            return Err(construction_error(StrategyKind::SystemIdle, e));
        }
        if let Err(e) = inhibitor.try_uninhibit() {
            return Err(construction_error(StrategyKind::SystemIdle, e));
        }
        Ok(inhibitor)
    }

    /// Fallible inhibit: one `Inhibit` round trip; on success the returned
    /// descriptor is stored as the lease token.
    fn try_inhibit(&mut self, application: &str, reason: &str) -> (r: Result<(), InhibitError>)
        ensures
            r is Ok ==> final(self).token() is Some,
            r is Err ==> *final(self) == *old(self),
            r matches Err(e) ==> e matches InhibitError::RemoteCall(_),
    {
        match bus::login1_inhibit(&self.conn, application, reason) {
            Ok(fd) => {
                self.fd = Some(fd);
                Ok(())
            },
            Err(cause) => Err(InhibitError::RemoteCall(cause)),
        }
    }

    /// Fallible uninhibit: decided locally first — no lease held means no
    /// remote work — then the descriptor is closed and the token cleared.
    /// With a lease held, the only failure left is the release itself.
    fn try_uninhibit(&mut self) -> (r: Result<(), InhibitError>)
        ensures
            old(self).token() is None ==> r == Err::<(), InhibitError>(InhibitError::Precondition)
                && *final(self) == *old(self),
            old(self).token() is Some && r is Err ==> r matches Err(InhibitError::RemoteCall(_)),
            r is Ok ==> final(self).token() is None && old(self).token() is Some,
            r is Err ==> *final(self) == *old(self),
    {
        match release_request(self.fd) {
            Err(e) => Err(e),
            Ok(fd) => {
                match bus::close_fd(fd) {
                    Ok(()) => {
                        self.fd = None;
                        Ok(())
                    },
                    Err(cause) => Err(InhibitError::RemoteCall(cause)),
                }
            },
        }
    }
}

impl SleepInhibitor for DBusSystemSleepInhibitor {
    open spec fn held(&self) -> bool {
        self.token() is Some
    }

    fn inhibit(&mut self, application: &str, reason: &str) -> (r: Result<(), InhibitError>) {
        self.try_inhibit(application, reason)
    }

    fn uninhibit(&mut self) -> (r: Result<(), InhibitError>) {
        self.try_uninhibit()
    }
}

/// Display inhibition over the session bus: a lease is an opaque 32-bit
/// cookie, released by handing it back verbatim.
pub struct DBusDisplaySleepInhibitor {
    conn: dbus::blocking::Connection,
    cookie: Option<u32>,
}

impl DBusDisplaySleepInhibitor {
    /// The stored lease token.
    pub closed spec fn token(&self) -> Option<u32> {
        self.cookie
    }

    /// Opens the session-bus connection and probes the mechanism once —
    /// one inhibit + uninhibit round trip — so that an unsupported
    /// environment is caught before any wait is committed to.
    pub fn new() -> (r: Result<DBusDisplaySleepInhibitor, InhibitError>)
        ensures
            r matches Ok(inh) ==> inh.token() is None,
            r matches Err(e) ==> e matches InhibitError::Connection(_)
                || (e matches InhibitError::Unsupported(k, _) && k == StrategyKind::Display),
    {
        let conn = match bus::connect_session() {
            Ok(c) => c,
            Err(cause) => {
                return Err(InhibitError::Connection(cause));
            },
        };
        let mut inhibitor = DBusDisplaySleepInhibitor { conn, cookie: None };
        if let Err(e) = inhibitor.try_inhibit("caffeinate", "Testing inhibit") {
            return Err(construction_error(StrategyKind::Display, e));
        }
        if let Err(e) = inhibitor.try_uninhibit() {
            return Err(construction_error(StrategyKind::Display, e));
        }
        Ok(inhibitor)
    }

    /// Fallible inhibit: one `Inhibit` round trip; on success the returned
    /// cookie is stored as the lease token.
    fn try_inhibit(&mut self, application: &str, reason: &str) -> (r: Result<(), InhibitError>)
        ensures
            r is Ok ==> final(self).token() is Some,
            r is Err ==> *final(self) == *old(self),
            r matches Err(e) ==> e matches InhibitError::RemoteCall(_),
    {
        match bus::screensaver_inhibit(&self.conn, application, reason) {
            Ok(cookie) => {
                self.cookie = Some(cookie);
                Ok(())
            },
            Err(cause) => Err(InhibitError::RemoteCall(cause)),
        }
    }

    /// Fallible uninhibit: the precondition is decided locally before any
    /// request is issued; the stored cookie is then handed back verbatim,
    /// and a failure of the remote release itself propagates — as a remote
    /// failure, never as the precondition one, and the lease stays held.
    fn try_uninhibit(&mut self) -> (r: Result<(), InhibitError>)
        ensures
            old(self).token() is None ==> r == Err::<(), InhibitError>(InhibitError::Precondition)
                && *final(self) == *old(self),
            old(self).token() is Some && r is Err ==> r matches Err(InhibitError::RemoteCall(_)),
            r is Ok ==> final(self).token() is None && old(self).token() is Some,
            r is Err ==> *final(self) == *old(self),
    {
        match release_request(self.cookie) {
            Err(e) => Err(e),
            Ok(cookie) => {
                match bus::screensaver_uninhibit(&self.conn, cookie) {
                    Ok(()) => {
                        self.cookie = None;
                        Ok(())
                    },
                    Err(cause) => Err(InhibitError::RemoteCall(cause)),
                }
            },
        }
    }
}

impl SleepInhibitor for DBusDisplaySleepInhibitor {
    open spec fn held(&self) -> bool {
        self.token() is Some
    }

    fn inhibit(&mut self, application: &str, reason: &str) -> (r: Result<(), InhibitError>) {
        self.try_inhibit(application, reason)
    }

    fn uninhibit(&mut self) -> (r: Result<(), InhibitError>) {
        self.try_uninhibit()
    }
}

} // verus!
