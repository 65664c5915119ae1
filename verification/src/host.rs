//! The services of the hosting archive server, as values.
//!
//! The host is reached through one capability: invoke a service, named by a
//! tag, with a parameter block. The engine decides which service is due and
//! with what; the adapter that owns the host's context makes the call.

use vstd::prelude::*;

verus! {

/// The status that a callback hands back to the host when it has done its work.
pub const STATUS_SUCCESS: i32 = 0;

/// The status that a callback hands back to the host when it has failed.
pub const STATUS_FAILURE: i32 = 1;

/// The host's context, as handed to the plugin when it is loaded.
#[derive(Clone, Copy, Debug, PartialEq, Eq, Structural)]
pub struct HostContext {
    pub token: usize,
}

/// The host services that the engine asks for.
#[derive(Clone, Copy, Debug, PartialEq, Eq, Structural)]
pub enum HostService {
    LogInfo,
    LogWarning,
    LogError,
    GetConfiguration,
    RegisterWorklistCallback,
    RegisterOnChangeCallback,
    CreateDicom2,
    WorklistIsMatch,
    WorklistAddAnswer,
}

/// How loud a log line is.
#[derive(Clone, Copy, Debug, PartialEq, Eq, Structural)]
pub enum LogLevel {
    Info,
    Error,
    Warning,
}

/// One line for the host's log.
#[derive(Clone, Debug, PartialEq, Eq)]
pub struct LogEntry {
    pub level: LogLevel,
    pub message: String,
}

/// What the contracts see of a [`LogEntry`]: its texts as sequences of characters.
pub struct LogEntryView {
    pub level: LogLevel,
    pub message: Seq<char>,
}

impl View for LogEntry {
    type V = LogEntryView;

    open spec fn view(&self) -> LogEntryView {
        LogEntryView { level: self.level, message: self.message@ }
    }
}

/// The views of a sequence of log lines, in order.
pub open spec fn log_view(entries: Seq<LogEntry>) -> Seq<LogEntryView> {
    entries.map_values(|entry: LogEntry| entry@)
}

/// The view of a log with one more line is the view of the log with the view
/// of that line.
pub proof fn lemma_log_push(log: Seq<LogEntry>, entry: LogEntry)
    ensures
        log_view(log.push(entry)) == log_view(log).push(entry@),
{
    assert(log_view(log.push(entry)) =~= log_view(log).push(entry@));
}

/// The view of the empty log is empty.
pub proof fn lemma_log_empty()
    ensures
        log_view(Seq::<LogEntry>::empty()) == Seq::<LogEntryView>::empty(),
{
    assert(log_view(Seq::<LogEntry>::empty()) =~= Seq::<LogEntryView>::empty());
}

/// The view of two logs, one after the other.
pub proof fn lemma_log_add(first: Seq<LogEntry>, second: Seq<LogEntry>)
    ensures
        log_view(first + second) == log_view(first) + log_view(second),
{
    assert(log_view(first + second) =~= log_view(first) + log_view(second));
}

/// The line of level `level` that says `message`.
pub open spec fn line(level: LogLevel, message: Seq<char>) -> LogEntryView {
    LogEntryView { level, message }
}

/// The service that writes a line of the given level.
pub open spec fn service_of(level: LogLevel) -> HostService {
    match level {
        LogLevel::Info => HostService::LogInfo,
        LogLevel::Warning => HostService::LogWarning,
        LogLevel::Error => HostService::LogError,
    }
}

impl LogEntry {
    /// The host service that writes this line.
    pub fn service(&self) -> (service: HostService)
        ensures
            service == service_of(self.level),
    {
        match self.level {
            LogLevel::Info => HostService::LogInfo,
            LogLevel::Warning => HostService::LogWarning,
            LogLevel::Error => HostService::LogError,
        }
    }
}

/// A line of the given level.
pub fn log(level: LogLevel, msg: &str) -> (entry: LogEntry)
    ensures
        entry@ == line(level, msg@),
{
    LogEntry { level, message: String::from_str(msg) }
}

/// An informational line.
pub fn info(msg: &str) -> (entry: LogEntry)
    ensures
        entry@ == line(LogLevel::Info, msg@),
{
    log(LogLevel::Info, msg)
}

/// An error line.
pub fn error(msg: &str) -> (entry: LogEntry)
    ensures
        entry@ == line(LogLevel::Error, msg@),
{
    log(LogLevel::Error, msg)
}

/// A warning line.
pub fn warning(msg: &str) -> (entry: LogEntry)
    ensures
        entry@ == line(LogLevel::Warning, msg@),
{
    log(LogLevel::Warning, msg)
}

/// What loading the plugin has to do, besides initializing the shared state.
#[derive(Clone, Debug, PartialEq, Eq)]
pub enum StartupAction {
    /// Write a line to the host's log.
    Log(LogEntry),
    /// Register the plugin's callback with this service of the host.
    Register(HostService),
    /// Hand the periodic synchronizer to the worker pool.
    SpawnPeriodicSync,
}

/// What the contracts see of a [`StartupAction`]: its texts as sequences of characters.
pub enum StartupActionView {
    Log(LogEntryView),
    Register(HostService),
    SpawnPeriodicSync,
}

impl View for StartupAction {
    type V = StartupActionView;

    open spec fn view(&self) -> StartupActionView {
        match self {
            StartupAction::Log(entry) => StartupActionView::Log(entry@),
            StartupAction::Register(service) => StartupActionView::Register(*service),
            StartupAction::SpawnPeriodicSync => StartupActionView::SpawnPeriodicSync,
        }
    }
}

/// The order of loading: the callbacks are registered before the periodic
/// synchronizer is handed out, and every step is logged by a host whose
/// context is already known.
pub open spec fn startup_sequence() -> Seq<StartupActionView> {
    seq![
        StartupActionView::Log(line(LogLevel::Info, "Initializing Vara Orthanc Worklist plugin."@)),
        StartupActionView::Register(HostService::RegisterWorklistCallback),
        StartupActionView::Register(HostService::RegisterOnChangeCallback),
        StartupActionView::SpawnPeriodicSync,
        StartupActionView::Log(
            line(LogLevel::Info, "Vara Orthanc Worklist plugin initialization complete."@),
        ),
    ]
}

/// What loading the plugin does once the shared state is initialized, in order.
pub fn startup_plan() -> (plan: Vec<StartupAction>)
    ensures
        plan@.map_values(|action: StartupAction| action@) == startup_sequence(),
{
    let mut plan: Vec<StartupAction> = Vec::new();
    plan.push(StartupAction::Log(info("Initializing Vara Orthanc Worklist plugin.")));
    plan.push(StartupAction::Register(HostService::RegisterWorklistCallback));
    plan.push(StartupAction::Register(HostService::RegisterOnChangeCallback));
    plan.push(StartupAction::SpawnPeriodicSync);
    plan.push(StartupAction::Log(info("Vara Orthanc Worklist plugin initialization complete.")));
    assert(plan@.map_values(|action: StartupAction| action@) =~= startup_sequence());
    plan
}

} // verus!
