//! The daemon as a child process: how it is started, how long its readiness
//! is waited for, and what its exit means.

use crate::error::ProcessError;
use vstd::prelude::*;
use vstd::string::StringExecFns;

verus! {

/// The daemon's configuration file where none is given.
pub const DEFAULT_CONFIG_PATH: &'static str = "/config/vcontrold.xml";

/// The program that is started.
pub const DAEMON_PROGRAM: &'static str = "vcontrold";

/// The seconds the daemon has to become ready.
pub const READINESS_TIMEOUT_SECS: u64 = 30;

/// The seconds between two probes of the daemon.
pub const READINESS_PROBE_INTERVAL_SECS: u64 = 1;

/// The configuration file the daemon is started with.
pub fn config_path(given: Option<&str>) -> (r: String)
    ensures
        r@ == (match given {
            Some(path) => path@,
            None => DEFAULT_CONFIG_PATH@,
        }),
{
    match given {
        Some(path) => path.to_owned(),
        None => String::from_str(DEFAULT_CONFIG_PATH),
    }
}

/// The arguments of the daemon: it stays in the foreground and reads the
/// configuration file `config_path`.
pub open spec fn base_arguments(config_path: Seq<char>) -> Seq<Seq<char>> {
    seq!["-n"@, "-x"@, config_path]
}

/// The arguments the daemon is started with: those of [`base_arguments`],
/// and in debug mode the two that make it verbose.
pub open spec fn arguments_spec(config_path: Seq<char>, debug_mode: bool) -> Seq<Seq<char>> {
    if debug_mode {
        base_arguments(config_path) + seq!["--verbose"@, "--debug"@]
    } else {
        base_arguments(config_path)
    }
}

/// The arguments the daemon is started with.
pub fn arguments(config_path: &str, debug_mode: bool) -> (r: Vec<String>)
    ensures
        r.deep_view() == arguments_spec(config_path@, debug_mode),
{
    let mut args: Vec<String> = Vec::new();
    args.push(String::from_str("-n"));
    args.push(String::from_str("-x"));
    args.push(config_path.to_owned());
    if debug_mode {
        args.push(String::from_str("--verbose"));
        args.push(String::from_str("--debug"));
    }
    assert(args.deep_view() =~= arguments_spec(config_path@, debug_mode));
    args
}

/// What is done next while the daemon's readiness is waited for.
#[derive(Debug)]
pub enum ReadinessStep {
    /// Probe the daemon now.
    Probe,
    /// Wait this many seconds, then ask again.
    Sleep(u64),
    /// The daemon is ready, this many seconds after the wait began.
    Ready(u64),
    /// The wait is over and the daemon is not ready.
    GiveUp(ProcessError),
}

/// Decides what is done next while the daemon's readiness is waited for.
///
/// `elapsed_secs` are the whole seconds since the wait began and `probed`
/// is the result of the probe that was just made, if one was. A probe that
/// succeeded ends the wait; after one that failed a pause is due; otherwise
/// the daemon is probed as long as the time is not up.
pub fn wait_ready(elapsed_secs: u64, probed: Option<bool>) -> (r: ReadinessStep)
    ensures
        match probed {
            Some(true) => r matches ReadinessStep::Ready(secs) && secs == elapsed_secs,
            Some(false) => r matches ReadinessStep::Sleep(secs) && secs
                == READINESS_PROBE_INTERVAL_SECS,
            None => if elapsed_secs < READINESS_TIMEOUT_SECS {
                r is Probe
            } else {
                r matches ReadinessStep::GiveUp(ProcessError::ReadinessTimeout(secs)) && secs
                    == READINESS_TIMEOUT_SECS
            },
        },
{
    match probed {
        Some(true) => ReadinessStep::Ready(elapsed_secs),
        Some(false) => ReadinessStep::Sleep(READINESS_PROBE_INTERVAL_SECS),
        None => if elapsed_secs < READINESS_TIMEOUT_SECS {
            ReadinessStep::Probe
        } else {
            ReadinessStep::GiveUp(ProcessError::ReadinessTimeout(READINESS_TIMEOUT_SECS))
        },
    }
}

/// The error that the end of the daemon stands for: its exit is never
/// expected, and a wait that failed is reported as such.
pub fn monitor_process(waited: Result<Option<i32>, String>) -> (r: ProcessError)
    ensures
        match waited {
            Ok(code) => r matches ProcessError::UnexpectedExit(c) && c == code,
            Err(reason) => r matches ProcessError::WaitFailed(msg) && msg == reason,
        },
{
    match waited {
        Ok(code) => ProcessError::UnexpectedExit(code),
        Err(reason) => ProcessError::WaitFailed(reason),
    }
}

/// Whether a child whose status was asked for is still running: it is not
/// once it has exited, nor where its status cannot be had.
pub fn is_running(status: Result<Option<i32>, String>) -> (r: bool)
    ensures
        r == (status matches Ok(None)),
{
    match status {
        Ok(None) => true,
        _ => false,
    }
}

} // verus!
