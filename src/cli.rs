//! The command surface as plain values: what the command line asked for.
//! Parsing the command line itself is left to the program around the library.
use vstd::prelude::*;

verus! {

/// Top-level commands.
#[derive(Debug)]
pub enum Command {
    Event(EventCommand),
    Config(ConfigCommand),
    Project(ProjectCommand),
}

/// Global options and the chosen command.
#[derive(Debug)]
pub struct Arguments {
    /// Debug-level logging.
    pub debug: bool,
    /// Trace-level logging; takes priority over `debug`.
    pub trace: bool,
    /// Overrides safeties such as the daily hour ceiling.
    pub force: bool,
    pub command: Command,
}

#[derive(Debug, Clone, Copy, PartialEq, Eq)]
pub struct ConfigEditCommand {}

#[derive(Debug, Clone, Copy, PartialEq, Eq)]
pub struct ConfigShowCommand {}

/// Config subcommands.
#[derive(Debug, Clone, Copy, PartialEq, Eq)]
pub enum ConfigSubcommand {
    /// Edit the configuration file.
    Edit(ConfigEditCommand),
    /// Show the configuration file.
    Show(ConfigShowCommand),
}

#[derive(Debug, Clone, Copy, PartialEq, Eq)]
pub struct ConfigCommand {
    pub command: Option<ConfigSubcommand>,
}

/// Adds an event to the staging area.
#[derive(Debug)]
pub struct EventAddCommand {
    /// The date the work is attributed to, as `DD-Mon-YY`.
    pub date: Option<String>,
    /// What was done.
    pub message: Option<String>,
    /// The project charged.
    pub project: Option<String>,
}

/// Removes a staged event, by its identifier.
#[derive(Debug)]
pub struct EventUnstageCommand {
    pub id: String,
}

/// Event subcommands.
#[derive(Debug)]
pub enum EventSubcommand {
    Add(EventAddCommand),
    Unstage(EventUnstageCommand),
}

#[derive(Debug)]
pub struct EventCommand {
    pub command: EventSubcommand,
}

#[derive(Debug, Clone, Copy, PartialEq, Eq)]
pub struct ProjectEditCommand {}

#[derive(Debug, Clone, Copy, PartialEq, Eq)]
pub struct ProjectShowCommand {}

/// Project subcommands.
#[derive(Debug, Clone, Copy, PartialEq, Eq)]
pub enum ProjectSubcommand {
    Edit(ProjectEditCommand),
    Show(ProjectShowCommand),
}

#[derive(Debug, Clone, Copy, PartialEq, Eq)]
pub struct ProjectCommand {
    pub command: Option<ProjectSubcommand>,
}

/// How much the program logs.
#[derive(Debug, Clone, Copy, PartialEq, Eq)]
pub enum LogLevel {
    Info,
    Debug,
    Trace,
}

impl LogLevel {
    /// Above the default level, which is worth a warning to the user.
    pub fn is_verbose(&self) -> (r: bool)
        ensures
            r == !(*self is Info),
    {
        match self {
            LogLevel::Info => false,
            _ => true,
        }
    }
}

/// The logging level the options ask for: trace wins over debug, and info
/// is the default.
pub fn logging_level(args: &Arguments) -> (r: LogLevel)
    ensures
        r == (if args.trace {
            LogLevel::Trace
        } else if args.debug {
            LogLevel::Debug
        } else {
            LogLevel::Info
        }),
{
    if args.trace {
        LogLevel::Trace
    } else if args.debug {
        LogLevel::Debug
    } else {
        LogLevel::Info
    }
}

/// Safeties stay on unless the user forces them off.
pub fn are_safeties_on(args: &Arguments) -> (r: bool)
    ensures
        r == !args.force,
{
    !args.force
}

} // verus!
