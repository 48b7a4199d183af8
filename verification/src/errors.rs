//! Failure taxonomy of the fallible inhibition primitives, and the
//! operator-facing hints attached to construction failures.

use vstd::prelude::*;
use vstd::string::StringExecFns;

verus! {

/// Which inhibition strategy is in play: idle-sleep inhibition negotiated on
/// the system bus, or display inhibition negotiated on the session bus.
#[derive(Clone, Copy, PartialEq, Eq, Structural, Debug)]
pub enum StrategyKind {
    SystemIdle,
    Display,
}

/// Every fallible primitive reports through this single channel.
#[derive(Debug, PartialEq, Eq)]
pub enum InhibitError {
    /// The bus could not be reached at all.
    Connection(String),
    /// The service is absent or rejected the construction-time probe; carries
    /// the strategy whose mechanism is unsupported and the underlying cause.
    Unsupported(StrategyKind, String),
    /// A release was attempted while no lease was held.
    Precondition,
    /// A request failed or timed out after construction had succeeded.
    RemoteCall(String),
}

/// The operator-facing hint naming which inhibition mode is unsupported.
pub open spec fn spec_unsupported_hint(kind: StrategyKind) -> Seq<char> {
    match kind {
        StrategyKind::SystemIdle => "Inhibiting system idle sleep is unsupported"@,
        StrategyKind::Display => "Inhibiting display sleep is unsupported"@,
    }
}

/// The text an error presents to the operator.
pub open spec fn spec_error_message(e: InhibitError) -> Seq<char> {
    match e {
        InhibitError::Connection(cause) => cause@,
        InhibitError::Unsupported(kind, cause) => spec_unsupported_hint(kind) + ": "@ + cause@,
        InhibitError::Precondition => "no active lease"@,
        InhibitError::RemoteCall(cause) => cause@,
    }
}

pub fn unsupported_hint(kind: StrategyKind) -> (r: String)
    ensures
        r@ == spec_unsupported_hint(kind),
{
    match kind {
        StrategyKind::SystemIdle => String::from_str("Inhibiting system idle sleep is unsupported"),
        StrategyKind::Display => String::from_str("Inhibiting display sleep is unsupported"),
    }
}

impl InhibitError {
    /// Renders the error for the operator; construction failures lead with
    /// the mode-specific hint.
    pub fn message(&self) -> (r: String)
        ensures
            r@ == spec_error_message(*self),
    {
        match self {
            InhibitError::Connection(cause) => cause.clone(),
            InhibitError::Unsupported(kind, cause) => {
                let mut s = unsupported_hint(*kind);
                s.append(": ");
                s.append(cause.as_str());
                s
            },
            InhibitError::Precondition => String::from_str("no active lease"),
            InhibitError::RemoteCall(cause) => cause.clone(),
        }
    }
}

} // verus!
