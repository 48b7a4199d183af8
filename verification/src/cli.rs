//! The argument schema, validated in one pass before any strategy is
//! constructed. Flags are read until the first token that is not a flag;
//! that token and everything after it are the utility command, and a `--`
//! token ends flag reading so that even a utility named like a flag can
//! follow. `-d` and `-i` exclude each other, `-t` excludes `-w`, and
//! either excludes a utility command. Rejection happens here, on plain
//! values, before any bus connection is attempted.

use vstd::prelude::*;
use vstd::string::StringExecFns;
use crate::decimal::{
    magnitude_body, dec_value, signed_value, valid_u64_numeral, valid_i32_numeral,
    parse_u64, parse_i32,
};
use crate::errors::StrategyKind;

verus! {

/// How a run of the tool rejects its command line.
#[derive(Clone, Copy, PartialEq, Eq, Structural, Debug)]
pub enum CliError {
    ConflictDisplayIdle,
    ConflictTimeoutPid,
    ConflictWaitUtility,
    DuplicateDisplay,
    DuplicateIdle,
    DuplicateTimeout,
    DuplicatePid,
    MissingTimeoutValue,
    MissingPidValue,
    InvalidTimeoutValue,
    InvalidPidValue,
    UnknownFlag,
}

/// What `CliError` tells the operator.
pub open spec fn spec_cli_message(e: CliError) -> Seq<char> {
    match e {
        CliError::ConflictDisplayIdle => "-d cannot be used with -i"@,
        CliError::ConflictTimeoutPid => "-t cannot be used with -w"@,
        CliError::ConflictWaitUtility => "-t and -w cannot be used with utility arguments"@,
        CliError::DuplicateDisplay => "-d given more than once"@,
        CliError::DuplicateIdle => "-i given more than once"@,
        CliError::DuplicateTimeout => "-t given more than once"@,
        CliError::DuplicatePid => "-w given more than once"@,
        CliError::MissingTimeoutValue => "-t requires a value"@,
        CliError::MissingPidValue => "-w requires a value"@,
        CliError::InvalidTimeoutValue => "Value wasn't a valid u64"@,
        CliError::InvalidPidValue => "Value wasn't a valid i32"@,
        CliError::UnknownFlag => "unrecognized flag"@,
    }
}

impl CliError {
    /// Renders the rejection for the operator.
    pub fn message(&self) -> (r: String)
        ensures
            r@ == spec_cli_message(*self),
    {
        match self {
            CliError::ConflictDisplayIdle => String::from_str("-d cannot be used with -i"),
            CliError::ConflictTimeoutPid => String::from_str("-t cannot be used with -w"),
            CliError::ConflictWaitUtility => String::from_str(
                "-t and -w cannot be used with utility arguments",
            ),
            CliError::DuplicateDisplay => String::from_str("-d given more than once"),
            CliError::DuplicateIdle => String::from_str("-i given more than once"),
            CliError::DuplicateTimeout => String::from_str("-t given more than once"),
            CliError::DuplicatePid => String::from_str("-w given more than once"),
            CliError::MissingTimeoutValue => String::from_str("-t requires a value"),
            CliError::MissingPidValue => String::from_str("-w requires a value"),
            CliError::InvalidTimeoutValue => String::from_str("Value wasn't a valid u64"),
            CliError::InvalidPidValue => String::from_str("Value wasn't a valid i32"),
            CliError::UnknownFlag => String::from_str("unrecognized flag"),
        }
    }
}

/// What the tool waits on while the lease is held.
#[derive(Debug, PartialEq, Eq)]
pub enum WaitMode {
    Timeout(u64),
    WaitPid(i32),
    Utility(Vec<String>),
    Forever,
}

/// Spec-level mirror of `WaitMode`.
pub enum SpecMode {
    Timeout(u64),
    WaitPid(i32),
    Utility(Seq<Seq<char>>),
    Forever,
}

impl View for WaitMode {
    type V = SpecMode;

    open spec fn view(&self) -> SpecMode {
        match self {
            WaitMode::Timeout(t) => SpecMode::Timeout(*t),
            WaitMode::WaitPid(p) => SpecMode::WaitPid(*p),
            WaitMode::Utility(args) => SpecMode::Utility(args.deep_view()),
            WaitMode::Forever => SpecMode::Forever,
        }
    }
}

/// A validated command line: the strategy to construct and the wait to run.
#[derive(Debug, PartialEq, Eq)]
pub struct Config {
    pub strategy: StrategyKind,
    pub mode: WaitMode,
}

/// Spec-level mirror of `Config`.
pub struct SpecConfig {
    pub strategy: StrategyKind,
    pub mode: SpecMode,
}

impl View for Config {
    type V = SpecConfig;

    open spec fn view(&self) -> SpecConfig {
        SpecConfig { strategy: self.strategy, mode: self.mode@ }
    }
}

/// The flags collected while scanning.
#[derive(Clone, Copy)]
pub struct ScanState {
    pub display: bool,
    pub idle: bool,
    pub timeout: Option<u64>,
    pub pid: Option<i32>,
}

/// A token that looks like a flag: `-` followed by something.
pub open spec fn flag_like(a: Seq<char>) -> bool {
    a.len() >= 2 && a[0] == '-'
}

/// One left-to-right pass over the tokens: flags update the state; the
/// first non-flag token starts the utility command; a flag-like token
/// that is not in the schema is rejected.
pub open spec fn spec_scan(st: ScanState, args: Seq<Seq<char>>) -> Result<
    (ScanState, Option<Seq<Seq<char>>>),
    CliError,
>
    decreases args.len(),
{
    if args.len() == 0 {
        Ok((st, None))
    } else {
        let a = args[0];
        if a == "-d"@ {
            if st.display {
                Err(CliError::DuplicateDisplay)
            } else {
                spec_scan(ScanState { display: true, ..st }, args.drop_first())
            }
        } else if a == "-i"@ {
            if st.idle {
                Err(CliError::DuplicateIdle)
            } else {
                spec_scan(ScanState { idle: true, ..st }, args.drop_first())
            }
        } else if a == "-t"@ {
            if st.timeout is Some {
                Err(CliError::DuplicateTimeout)
            } else if args.len() < 2 {
                Err(CliError::MissingTimeoutValue)
            } else if valid_u64_numeral(args[1]) {
                spec_scan(
                    ScanState { timeout: Some(dec_value(magnitude_body(args[1])) as u64), ..st },
                    args.skip(2),
                )
            } else {
                Err(CliError::InvalidTimeoutValue)
            }
        } else if a == "-w"@ {
            if st.pid is Some {
                Err(CliError::DuplicatePid)
            } else if args.len() < 2 {
                Err(CliError::MissingPidValue)
            } else if valid_i32_numeral(args[1]) {
                spec_scan(
                    ScanState { pid: Some(signed_value(args[1]) as i32), ..st },
                    args.skip(2),
                )
            } else {
                Err(CliError::InvalidPidValue)
            }
        } else if a == "--"@ {
            Ok((st, Some(args.drop_first())))
        } else if flag_like(a) {
            Err(CliError::UnknownFlag)
        } else {
            Ok((st, Some(args)))
        }
    }
}

/// Whether a utility command was given: a nonempty token run.
pub open spec fn spec_utility_present(ut: Option<Seq<Seq<char>>>) -> bool {
    match ut {
        Some(u) => u.len() > 0,
        None => false,
    }
}

/// The wait the collected flags select, in the tool's order of precedence:
/// timeout, then foreign pid, then utility command, else forever.
pub open spec fn spec_mode(st: ScanState, ut: Option<Seq<Seq<char>>>) -> SpecMode {
    match st.timeout {
        Some(t) => SpecMode::Timeout(t),
        None => match st.pid {
            Some(p) => SpecMode::WaitPid(p),
            None => match ut {
                Some(u) => if u.len() > 0 {
                    SpecMode::Utility(u)
                } else {
                    SpecMode::Forever
                },
                None => SpecMode::Forever,
            },
        },
    }
}

/// The mutual-exclusion rules, checked after the scan, still before any
/// strategy exists.
pub open spec fn spec_validate(st: ScanState, ut: Option<Seq<Seq<char>>>) -> Result<
    SpecConfig,
    CliError,
> {
    if st.display && st.idle {
        Err(CliError::ConflictDisplayIdle)
    } else if st.timeout is Some && st.pid is Some {
        Err(CliError::ConflictTimeoutPid)
    } else if (st.timeout is Some || st.pid is Some) && spec_utility_present(ut) {
        Err(CliError::ConflictWaitUtility)
    } else {
        Ok(
            SpecConfig {
                strategy: if st.display {
                    StrategyKind::Display
                } else {
                    StrategyKind::SystemIdle
                },
                mode: spec_mode(st, ut),
            },
        )
    }
}

/// What the whole command line means: scan, then validate.
pub open spec fn spec_parse_args(args: Seq<Seq<char>>) -> Result<SpecConfig, CliError> {
    match spec_scan(
        ScanState { display: false, idle: false, timeout: None, pid: None },
        args,
    ) {
        Ok((st, ut)) => spec_validate(st, ut),
        Err(e) => Err(e),
    }
}

fn tok_is(t: &String, lit: &str) -> (b: bool)
    ensures
        b == (t@ == lit@),
{
    t.eq(&String::from_str(lit))
}

fn scan_exec(st: ScanState, args: &Vec<String>, i: usize) -> (r: Result<
    (ScanState, Option<usize>),
    CliError,
>)
    requires
        i <= args.len(),
    ensures
        ({
            let m = spec_scan(st, args.deep_view().skip(i as int));
            match r {
                Ok((rst, ut)) => match ut {
                    Some(j) => i <= j <= args.len() && m == Ok::<
                        (ScanState, Option<Seq<Seq<char>>>),
                        CliError,
                    >((rst, Some(args.deep_view().skip(j as int)))),
                    None => m == Ok::<(ScanState, Option<Seq<Seq<char>>>), CliError>((rst, None)),
                },
                Err(e) => m == Err::<(ScanState, Option<Seq<Seq<char>>>), CliError>(e),
            }
        }),
    decreases args.len() - i,
{
    let ghost s = args.deep_view();
    let ghost suf = s.skip(i as int);
    if i == args.len() {
        return Ok((st, None));
    }
    let a = &args[i];
    proof {
        assert(suf[0] == a@);
        assert(suf.drop_first() =~= s.skip(i as int + 1));
    }
    if tok_is(a, "-d") {
        if st.display {
            return Err(CliError::DuplicateDisplay);
        }
        return scan_exec(ScanState { display: true, ..st }, args, i + 1);
    }
    if tok_is(a, "-i") {
        if st.idle {
            return Err(CliError::DuplicateIdle);
        }
        return scan_exec(ScanState { idle: true, ..st }, args, i + 1);
    }
    if tok_is(a, "-t") {
        if st.timeout.is_some() {
            return Err(CliError::DuplicateTimeout);
        }
        if i + 1 == args.len() {
            return Err(CliError::MissingTimeoutValue);
        }
        proof {
            assert(suf[1] == s[i as int + 1]);
            assert(suf.skip(2) =~= s.skip(i as int + 2));
        }
        match parse_u64(args[i + 1].as_str()) {
            Some(t) => {
                return scan_exec(ScanState { timeout: Some(t), ..st }, args, i + 2);
            },
            None => {
                return Err(CliError::InvalidTimeoutValue);
            },
        }
    }
    if tok_is(a, "-w") {
        if st.pid.is_some() {
            return Err(CliError::DuplicatePid);
        }
        if i + 1 == args.len() {
            return Err(CliError::MissingPidValue);
        }
        proof {
            assert(suf[1] == s[i as int + 1]);
            assert(suf.skip(2) =~= s.skip(i as int + 2));
        }
        match parse_i32(args[i + 1].as_str()) {
            Some(p) => {
                return scan_exec(ScanState { pid: Some(p), ..st }, args, i + 2);
            },
            None => {
                return Err(CliError::InvalidPidValue);
            },
        }
    }
    if tok_is(a, "--") {
        return Ok((st, Some(i + 1)));
    }
    let alen = a.as_str().unicode_len();
    if alen >= 2 {
        let c0 = a.as_str().get_char(0);
        if c0 == '-' {
            return Err(CliError::UnknownFlag);
        }
    }
    Ok((st, Some(i)))
}

/// Clones the tokens from `j` on: the utility command and its arguments.
fn tail_vec(args: &Vec<String>, j: usize) -> (r: Vec<String>)
    requires
        j <= args.len(),
    ensures
        r.deep_view() == args.deep_view().skip(j as int),
{
    let mut out: Vec<String> = Vec::new();
    let mut k: usize = j;
    while k < args.len()
        invariant
            j <= k <= args.len(),
            out@ =~= args@.subrange(j as int, k as int),
        decreases args.len() - k,
    {
        out.push(args[k].clone());
        assert(out@ =~= args@.subrange(j as int, k as int + 1));
        k = k + 1;
    }
    proof {
        assert(out@ =~= args@.skip(j as int));
        assert forall|m: int| 0 <= m < out.deep_view().len() implies out.deep_view()[m]
            == args.deep_view().skip(j as int)[m] by {
            assert(out@[m] == args@[j + m]);
        }
        assert(out.deep_view() =~= args.deep_view().skip(j as int));
    }
    out
}

/// Reads the whole command line (the tokens after the program name) into a
/// validated configuration, or the first reason to reject it.
pub fn parse_args(args: &Vec<String>) -> (r: Result<Config, CliError>)
    ensures
        r matches Ok(c) ==> spec_parse_args(args.deep_view()) == Ok::<SpecConfig, CliError>(c@),
        r matches Err(e) ==> spec_parse_args(args.deep_view()) == Err::<SpecConfig, CliError>(e),
{
    proof {
        assert(args.deep_view().skip(0) =~= args.deep_view());
    }
    let st0 = ScanState { display: false, idle: false, timeout: None, pid: None };
    let (st, ut) = match scan_exec(st0, args, 0) {
        Ok(p) => p,
        Err(e) => {
            return Err(e);
        },
    };
    if st.display && st.idle {
        return Err(CliError::ConflictDisplayIdle);
    }
    if st.timeout.is_some() && st.pid.is_some() {
        return Err(CliError::ConflictTimeoutPid);
    }
    let utility_start: Option<usize> = match ut {
        Some(j) => if j < args.len() {
            Some(j)
        } else {
            None
        },
        None => None,
    };
    if (st.timeout.is_some() || st.pid.is_some()) && utility_start.is_some() {
        return Err(CliError::ConflictWaitUtility);
    }
    let strategy = if st.display {
        StrategyKind::Display
    } else {
        StrategyKind::SystemIdle
    };
    let mode = match st.timeout {
        Some(t) => WaitMode::Timeout(t),
        None => match st.pid {
            Some(p) => WaitMode::WaitPid(p),
            None => match utility_start {
                Some(j) => WaitMode::Utility(tail_vec(args, j)),
                None => WaitMode::Forever,
            },
        },
    };
    Ok(Config { strategy, mode })
}

/// The wanted shape of a flag value: seconds for `-t`, a process id for `-w`.
#[derive(Clone, Copy, PartialEq, Eq, Structural, Debug)]
pub enum ValueKind {
    Seconds,
    Pid,
}

pub open spec fn spec_invalid_message(kind: ValueKind) -> Seq<char> {
    match kind {
        ValueKind::Seconds => "Value wasn't a valid u64"@,
        ValueKind::Pid => "Value wasn't a valid i32"@,
    }
}

/// Accepts a flag value exactly when it reads as the wanted kind of numeral.
pub fn can_parse(val: &String, kind: ValueKind) -> (r: Result<(), String>)
    ensures
        kind == ValueKind::Seconds ==> (r is Ok <==> valid_u64_numeral(val@)),
        kind == ValueKind::Pid ==> (r is Ok <==> valid_i32_numeral(val@)),
        r matches Err(m) ==> m@ == spec_invalid_message(kind),
{
    match kind {
        ValueKind::Seconds => {
            if parse_u64(val.as_str()).is_some() {
                Ok(())
            } else {
                Err(String::from_str("Value wasn't a valid u64"))
            }
        },
        ValueKind::Pid => {
            if parse_i32(val.as_str()).is_some() {
                Ok(())
            } else {
                Err(String::from_str("Value wasn't a valid i32"))
            }
        },
    }
}

} // verus!
