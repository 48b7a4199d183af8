//! The orchestrator's decisions, as functions from plain values to plain
//! values: the order of the one session it drives, the application name and
//! reason handed to `inhibit`, and the process exit code for each way the
//! wait can end. The surrounding process work — connecting, sleeping,
//! watching a pid, spawning the utility — is done by the thin binary around
//! this library, which performs each step and hands the outcome back.

use vstd::prelude::*;
use vstd::string::StringExecFns;
use crate::cli::{SpecMode, WaitMode};
use crate::decimal::{dec_rep, signed_dec_rep, u64_to_string, i32_to_string};
use crate::errors::StrategyKind;

verus! {

/// One step of the single inhibit→wait cycle a run performs.
#[derive(Clone, Copy, PartialEq, Eq, Structural, Debug)]
pub enum Step {
    /// Open the strategy's bus connection.
    Connect(StrategyKind),
    /// The construction-time self-test requests a lease...
    ProbeInhibit,
    /// ...and releases it again at once.
    ProbeUninhibit,
    /// The one real lease request of the run.
    Inhibit,
    /// The selected wait; the lease is released only by process exit.
    Wait,
}

/// The whole session, in order. No step releases the real lease: the tool
/// leaves that to process exit, on every wait path.
pub open spec fn spec_session_plan(strategy: StrategyKind) -> Seq<Step> {
    seq![
        Step::Connect(strategy),
        Step::ProbeInhibit,
        Step::ProbeUninhibit,
        Step::Inhibit,
        Step::Wait,
    ]
}

pub fn session_plan(strategy: StrategyKind) -> (r: Vec<Step>)
    ensures
        r@ == spec_session_plan(strategy),
{
    let mut plan: Vec<Step> = Vec::new();
    plan.push(Step::Connect(strategy));
    plan.push(Step::ProbeInhibit);
    plan.push(Step::ProbeUninhibit);
    plan.push(Step::Inhibit);
    plan.push(Step::Wait);
    proof {
        assert(plan@ =~= spec_session_plan(strategy));
    }
    plan
}

/// Exactly one real inhibit request occurs in a session, after the probe's
/// single inhibit + uninhibit cycle, and the wait comes last — strictly
/// after the lease is requested.
pub proof fn lemma_plan_single_inhibit(strategy: StrategyKind)
    ensures
        spec_session_plan(strategy).len() == 5,
        spec_session_plan(strategy)[3] == Step::Inhibit,
        forall|i: int| 0 <= i < 5 && spec_session_plan(strategy)[i] == Step::Inhibit ==> i == 3,
        spec_session_plan(strategy)[1] == Step::ProbeInhibit,
        spec_session_plan(strategy)[2] == Step::ProbeUninhibit,
        forall|i: int| 0 <= i < 5 && spec_session_plan(strategy)[i] == Step::ProbeInhibit
            ==> i == 1,
        forall|i: int| 0 <= i < 5 && spec_session_plan(strategy)[i] == Step::ProbeUninhibit
            ==> i == 2,
        spec_session_plan(strategy).last() == Step::Wait,
        forall|i: int| 0 <= i < 5 && spec_session_plan(strategy)[i] == Step::Wait ==> i == 4,
{
}

/// The application name handed to `inhibit`: the tool's own name, except
/// that a utility run is inhibited in the utility's name.
pub open spec fn spec_inhibit_application(mode: SpecMode) -> Seq<char> {
    match mode {
        SpecMode::Utility(u) => u[0],
        _ => "caffeinate"@,
    }
}

pub fn inhibit_application(mode: &WaitMode) -> (r: String)
    requires
        mode matches WaitMode::Utility(u) ==> u@.len() > 0,
    ensures
        r@ == spec_inhibit_application(mode@),
{
    match mode {
        WaitMode::Utility(u) => u[0].clone(),
        _ => String::from_str("caffeinate"),
    }
}

/// The human-readable reason handed to `inhibit`, naming what is waited on.
pub open spec fn spec_inhibit_reason(mode: SpecMode) -> Seq<char> {
    match mode {
        SpecMode::Timeout(t) => "Inhibiting sleep for "@ + dec_rep(t as nat) + " seconds"@,
        SpecMode::WaitPid(p) => "Inhibiting sleep until process "@ + signed_dec_rep(p as int)
            + " exits"@,
        SpecMode::Utility(_) => "Inhibiting sleep until process exits"@,
        SpecMode::Forever => "Inhibiting sleep forever"@,
    }
}

pub fn inhibit_reason(mode: &WaitMode) -> (r: String)
    ensures
        r@ == spec_inhibit_reason(mode@),
{
    match mode {
        WaitMode::Timeout(t) => {
            let mut s = String::from_str("Inhibiting sleep for ");
            let num = u64_to_string(*t);
            s.append(num.as_str());
            s.append(" seconds");
            s
        },
        WaitMode::WaitPid(p) => {
            let mut s = String::from_str("Inhibiting sleep until process ");
            let num = i32_to_string(*p);
            s.append(num.as_str());
            s.append(" exits");
            s
        },
        WaitMode::Utility(_) => String::from_str("Inhibiting sleep until process exits"),
        WaitMode::Forever => String::from_str("Inhibiting sleep forever"),
    }
}

/// How the wait ended; the payloads carry what the operator is told.
#[derive(Debug, PartialEq, Eq)]
pub enum WaitOutcome {
    /// The full timeout was slept through.
    TimedOut,
    /// The foreign process exited.
    PidExited,
    /// The foreign process could not be watched; carries the cause.
    PidUnobservable(String),
    /// The utility exited with the given code, or on a signal with none.
    UtilityExited(Option<i32>),
    /// The utility could not be launched; carries the cause.
    UtilitySpawnFailed(String),
}

/// The process's exit code for each way the wait can end: a utility's own
/// code is forwarded verbatim, an unlaunchable utility is 127, an
/// unobservable pid is 1, everything else is 0.
pub fn exit_code(outcome: &WaitOutcome) -> (r: i32)
    ensures
        outcome matches WaitOutcome::TimedOut ==> r == 0,
        outcome matches WaitOutcome::PidExited ==> r == 0,
        outcome matches WaitOutcome::PidUnobservable(_) ==> r == 1,
        outcome matches WaitOutcome::UtilityExited(Some(code)) ==> r == code,
        outcome matches WaitOutcome::UtilityExited(None::<i32>) ==> r == 0,
        outcome matches WaitOutcome::UtilitySpawnFailed(_) ==> r == 127,
{
    match outcome {
        WaitOutcome::TimedOut => 0,
        WaitOutcome::PidExited => 0,
        WaitOutcome::PidUnobservable(_) => 1,
        WaitOutcome::UtilityExited(c) => {
            match c {
                Some(code) => *code,
                None => 0,
            }
        },
        WaitOutcome::UtilitySpawnFailed(_) => 127,
    }
}

/// The error line printed when a foreign pid cannot be watched: the pid's
/// numeral, so the operator sees which pid, then the cause.
pub fn pid_error_line(pid: i32, cause: &str) -> (r: String)
    ensures
        r@ == signed_dec_rep(pid as int) + ": "@ + cause@,
{
    let mut s = i32_to_string(pid);
    s.append(": ");
    s.append(cause);
    s
}

/// The error line printed when the utility cannot be launched: its name,
/// then the cause.
pub fn spawn_error_line(utility: &String, cause: &str) -> (r: String)
    ensures
        r@ == utility@ + ": "@ + cause@,
{
    let mut s = utility.clone();
    s.append(": ");
    s.append(cause);
    s
}

} // verus!
