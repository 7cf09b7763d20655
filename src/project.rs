//! Projects: the date checks a project's period must pass, and what a
//! project command asks for.
use vstd::prelude::*;
use crate::cli::{ProjectCommand, ProjectSubcommand};
use crate::date::{DisplayDate, parsed_date, parse_display_date};

verus! {

/// Why a project's period is rejected.
#[derive(Debug, Clone, PartialEq, Eq)]
pub enum ProjectError {
    /// The start date is not in the `DD-Mon-YY` form.
    InvalidStartDate(String),
    /// The end date is not in the `DD-Mon-YY` form.
    InvalidEndDate(String),
}

/// The verdict on a period from what chrono parsed of its two dates: the
/// start date is checked first.
pub fn period_verdict(
    start_parsed: Option<DisplayDate>,
    end_parsed: Option<DisplayDate>,
    start: &str,
    end: &str,
) -> (r: Result<(), ProjectError>)
    ensures
        start_parsed is None ==> (r matches Err(ProjectError::InvalidStartDate(s)) && s@ == start@),
        start_parsed is Some && end_parsed is None ==> (r matches Err(ProjectError::InvalidEndDate(e)) && e@ == end@),
        start_parsed is Some && end_parsed is Some ==> r is Ok,
{
    if start_parsed.is_none() {
        Err(ProjectError::InvalidStartDate(start.to_string()))
    } else if end_parsed.is_none() {
        Err(ProjectError::InvalidEndDate(end.to_string()))
    } else {
        Ok(())
    }
}

/// Checks that a project's start and end dates are both in the display form.
pub fn validate_period(start: &str, end: &str) -> (r: Result<(), ProjectError>)
    ensures
        parsed_date(start@) is None ==> (r matches Err(ProjectError::InvalidStartDate(s)) && s@ == start@),
        parsed_date(start@) is Some && parsed_date(end@) is None
            ==> (r matches Err(ProjectError::InvalidEndDate(e)) && e@ == end@),
        parsed_date(start@) is Some && parsed_date(end@) is Some ==> r is Ok,
{
    let s = parse_display_date(start);
    let e = parse_display_date(end);
    period_verdict(s, e, start, end)
}

/// What a project command asks for.
#[derive(Debug, Clone, Copy, PartialEq, Eq)]
pub enum ProjectAction {
    /// Editing projects: not available yet.
    Edit,
    /// Showing projects: not available yet.
    Show,
    /// No option was given: warn, after checking the default project.
    WarnNoOption,
}

/// The action a project command asks for.
pub fn execute(args: &ProjectCommand) -> (r: ProjectAction)
    ensures
        args.command matches Some(ProjectSubcommand::Edit(_)) ==> r == ProjectAction::Edit,
        args.command matches Some(ProjectSubcommand::Show(_)) ==> r == ProjectAction::Show,
        args.command is None ==> r == ProjectAction::WarnNoOption,
{
    match args.command {
        Some(ProjectSubcommand::Edit(_)) => ProjectAction::Edit,
        Some(ProjectSubcommand::Show(_)) => ProjectAction::Show,
        None => ProjectAction::WarnNoOption,
    }
}

} // verus!
