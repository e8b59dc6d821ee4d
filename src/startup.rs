use vstd::prelude::*;
use vstd::string::*;

verus! {

/// The operating system the process was built for.
#[derive(Clone, Copy, Debug, PartialEq, Eq, Structural)]
pub enum TargetOs {
    Windows,
    MacOs,
    Linux,
    Ios,
    Android,
    Other,
}

/// A process-wide DPI-awareness mode, as the operating system understands it.
#[derive(Clone, Copy, Debug, PartialEq, Eq, Structural)]
pub enum DpiAwareness {
    /// The system stretches a bitmap rendered at a single DPI.
    Unaware,
    /// The process scales for the primary monitor's DPI only.
    SystemAware,
    /// The process receives each monitor's DPI and scales for it itself.
    PerMonitorAware,
}

/// How the binary was compiled.
#[derive(Clone, Copy, Debug, PartialEq, Eq, Structural)]
pub enum BuildMode {
    /// Debugging aids are enabled.
    Diagnostic,
    /// The optimized configuration shipped to end users.
    Optimized,
}

/// The lowest severity that a logger records; `Off` records nothing.
#[derive(Clone, Copy, Debug, PartialEq, Eq, Structural)]
pub enum LogLevel {
    Off,
    Error,
    Warn,
    Info,
    Debug,
    Trace,
}

/// What startup does before it hands control to the run loop.
#[derive(Clone, Copy, Debug, PartialEq, Eq, Structural)]
pub struct StartupPlan {
    /// The DPI-awareness mode to declare; `None`: no DPI-related system call.
    pub dpi_awareness: Option<DpiAwareness>,
    /// The level of the logging plugin to attach during setup; `None`: no plugin.
    pub logging: Option<LogLevel>,
}

/// How startup ended.
#[derive(Debug, PartialEq, Eq)]
pub enum Outcome {
    /// Control went to the run loop, which has since returned normally.
    RunLoopFinished,
    /// The run loop could not start or failed: the process ends with this message.
    Fatal(String),
}

/// The numeric code of a DPI-awareness mode in the operating system's API.
pub open spec fn dpi_code_spec(m: DpiAwareness) -> u32 {
    match m {
        DpiAwareness::Unaware => 0,
        DpiAwareness::SystemAware => 1,
        DpiAwareness::PerMonitorAware => 2,
    }
}

/// The mode the process opts into on `os`, if that platform asks for an opt-in at all.
pub open spec fn dpi_request_spec(os: TargetOs) -> Option<DpiAwareness> {
    if os == TargetOs::Windows {
        Some(DpiAwareness::PerMonitorAware)
    } else {
        None
    }
}

/// The level of the logging plugin that a build in `build` mode attaches, if any.
pub open spec fn logging_spec(build: BuildMode) -> Option<LogLevel> {
    match build {
        BuildMode::Diagnostic => Some(LogLevel::Info),
        BuildMode::Optimized => None,
    }
}

pub open spec fn plan_spec(os: TargetOs, build: BuildMode) -> StartupPlan {
    StartupPlan { dpi_awareness: dpi_request_spec(os), logging: logging_spec(build) }
}

/// The text of the message a failed run loop ends the process with.
pub open spec fn fatal_message_spec(error: Seq<char>) -> Seq<char> {
    "error while running tauri application: "@ + error
}

/// How startup ends, given what the run loop returned (its error as text).
pub open spec fn outcome_matches(run: Result<(), String>, o: Outcome) -> bool {
    match run {
        Ok(()) => o is RunLoopFinished,
        Err(e) => o is Fatal && o->Fatal_0@ == fatal_message_spec(e@),
    }
}

impl DpiAwareness {
    /// The code of this mode in the operating system's API.
    pub fn code(self) -> (r: u32)
        ensures
            r == dpi_code_spec(self),
    {
        match self {
            DpiAwareness::Unaware => 0,
            DpiAwareness::SystemAware => 1,
            DpiAwareness::PerMonitorAware => 2,
        }
    }
}

/// The DPI-awareness mode to declare at startup on `os`; `None` means no
/// DPI-related system call is made.
pub fn dpi_request(os: TargetOs) -> (r: Option<DpiAwareness>)
    ensures
        r == dpi_request_spec(os),
{
    match os {
        TargetOs::Windows => Some(DpiAwareness::PerMonitorAware),
        _ => None,
    }
}

/// The level of the logging plugin to attach during setup; `None` means none.
pub fn logging_level(build: BuildMode) -> (r: Option<LogLevel>)
    ensures
        r == logging_spec(build),
{
    match build {
        BuildMode::Diagnostic => Some(LogLevel::Info),
        BuildMode::Optimized => None,
    }
}

/// Everything startup does on `os` in `build` mode before the run loop.
pub fn plan_startup(os: TargetOs, build: BuildMode) -> (r: StartupPlan)
    ensures
        r == plan_spec(os, build),
{
    StartupPlan { dpi_awareness: dpi_request(os), logging: logging_level(build) }
}

/// The result of setup, given the result of attaching the logging plugin
/// (`None` where no plugin was to be attached): a failure is passed on as it is.
pub fn setup_result<E>(attach: Option<Result<(), E>>) -> (r: Result<(), E>)
    ensures
        match attach {
            None => r is Ok,
            Some(a) => r == a,
        },
{
    match attach {
        None => Ok(()),
        Some(a) => a,
    }
}

/// The message a failed run loop ends the process with, given the error's text.
pub fn fatal_message(error: &str) -> (r: String)
    ensures
        r@ == fatal_message_spec(error@),
{
    let prefix = String::from_str("error while running tauri application: ");
    proof {
        reveal_strlit("error while running tauri application: ");
    }
    prefix.concat(error)
}

/// How startup ends, given what the run loop returned (its error as text).
pub fn run_outcome(run: Result<(), String>) -> (r: Outcome)
    ensures
        outcome_matches(run, r),
{
    match run {
        Ok(()) => Outcome::RunLoopFinished,
        Err(e) => Outcome::Fatal(fatal_message(e.as_str())),
    }
}

/// On Windows, whatever the build, startup declares the process per-monitor
/// DPI aware, with that mode's code in the operating system's API.
pub proof fn law_windows_declares_per_monitor(build: BuildMode)
    ensures
        plan_spec(TargetOs::Windows, build).dpi_awareness == Some(DpiAwareness::PerMonitorAware),
        dpi_code_spec(DpiAwareness::PerMonitorAware) == 2,
{
}

/// On every platform but Windows, startup makes no DPI-related system call.
pub proof fn law_no_dpi_call_elsewhere(os: TargetOs, build: BuildMode)
    requires
        os != TargetOs::Windows,
    ensures
        plan_spec(os, build).dpi_awareness is None,
{
}

/// A diagnostic build attaches the logging plugin at the informational level;
/// an optimized build attaches none. The platform plays no part.
pub proof fn law_logging_only_in_diagnostic_builds(os: TargetOs, build: BuildMode)
    ensures
        build == BuildMode::Diagnostic ==> plan_spec(os, build).logging == Some(LogLevel::Info),
        build == BuildMode::Optimized ==> plan_spec(os, build).logging is None,
{
}

/// Startup ends in exactly one of two ways: the run loop ran and returned, or
/// the process ends with a fatal message that carries the error.
pub proof fn law_two_outcomes(run: Result<(), String>, o: Outcome)
    requires
        outcome_matches(run, o),
    ensures
        o is RunLoopFinished <==> run is Ok,
        o is Fatal <==> run is Err,
        run is Err ==> o->Fatal_0@ == fatal_message_spec(run->Err_0@),
{
}

} // verus!
