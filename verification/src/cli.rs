//! The commands of the command line, and what a run of one decides before
//! any file is touched.

use vstd::prelude::*;
use crate::settings::FixMode;

verus! {

/// The parsed command line.
pub struct Cli {
    pub command: Command,
}

/// A command of the command line.
pub enum Command {
    /// Checks the given files or directories for lint findings.
    Check(CheckCommand),
    /// Prints the version of the tool.
    Version,
}

/// The arguments of the `check` command.
#[derive(Clone, Debug)]
pub struct CheckCommand {
    /// The files or directories to check.
    pub files: Vec<String>,
    /// Apply fixes to resolve lint findings.
    pub fix: bool,
    pub no_fix: bool,
    /// Include unstable rules and fixes.
    pub preview: bool,
    pub no_preview: bool,
    /// Respect file exclusions of `.gitignore` and other standard ignore
    /// files.
    pub respect_gitignore: bool,
    pub no_respect_gitignore: bool,
    /// Write no fixed file back, and output a diff for each changed file
    /// instead.
    pub diff: bool,
    /// Show an enumeration of all fixed lint findings.
    pub show_fixes: bool,
    pub no_show_fixes: bool,
}

impl CheckCommand {
    /// The fix mode that the arguments ask for: a diff where `diff` is
    /// set, else applied fixes where `fix` is set, else generated fixes.
    pub open spec fn spec_fix_mode(self) -> FixMode {
        if self.diff {
            FixMode::Diff
        } else if self.fix {
            FixMode::Apply
        } else {
            FixMode::Generate
        }
    }

    /// The fix mode that the arguments ask for.
    pub fn fix_mode(&self) -> (mode: FixMode)
        ensures
            mode == self.spec_fix_mode(),
    {
        if self.diff {
            FixMode::Diff
        } else if self.fix {
            FixMode::Apply
        } else {
            FixMode::Generate
        }
    }
}

/// How a run ended.
#[derive(Copy, Clone, Debug, PartialEq, Eq, Structural)]
pub enum ExitStatus {
    /// Linting was successful and there were no lint findings.
    Success,
    /// Linting was successful but there were lint findings.
    Failure,
    /// Linting failed.
    Error,
}

impl ExitStatus {
    /// The exit code of the process for this status.
    pub open spec fn spec_code(self) -> u8 {
        match self {
            ExitStatus::Success => 0,
            ExitStatus::Failure => 1,
            ExitStatus::Error => 2,
        }
    }

    /// The exit code of the process for this status.
    pub fn code(self) -> (code: u8)
        ensures
            code == self.spec_code(),
    {
        match self {
            ExitStatus::Success => 0,
            ExitStatus::Failure => 1,
            ExitStatus::Error => 2,
        }
    }
}

/// The files to check: those given, or, where none is given, the standard
/// input (`-`) if the input is read from it, and else the current
/// directory (`.`).
pub fn resolve_default_files(files: Vec<String>, is_stdin: bool) -> (resolved: Vec<String>)
    ensures
        files@.len() > 0 ==> resolved@ == files@,
        files@.len() == 0 ==> resolved@.len() == 1 && resolved@[0]@ == (if is_stdin {
            "-"@
        } else {
            "."@
        }),
{
    if files.is_empty() {
        let mut resolved: Vec<String> = Vec::new();
        if is_stdin {
            resolved.push("-".to_owned());
        } else {
            resolved.push(".".to_owned());
        }
        resolved
    } else {
        files
    }
}

/// What the `check` command works on, as its arguments settle it.
pub struct CheckPlan {
    /// The files or directories to check.
    pub files: Vec<String>,
    /// Whether `.gitignore` and other standard ignore files are respected.
    pub respect_gitignore: bool,
    /// How fixes are handed on.
    pub fix_mode: FixMode,
}

/// Settles what the `check` command works on: the files given or their
/// default, and the fix mode.
pub fn check(args: CheckCommand) -> (plan: CheckPlan)
    ensures
        args.files@.len() > 0 ==> plan.files@ == args.files@,
        args.files@.len() == 0 ==> plan.files@.len() == 1 && plan.files@[0]@ == "."@,
        plan.respect_gitignore == args.respect_gitignore,
        plan.fix_mode == args.spec_fix_mode(),
{
    let fix_mode = args.fix_mode();
    let respect_gitignore = args.respect_gitignore;
    let files = resolve_default_files(args.files, false);
    CheckPlan { files, respect_gitignore, fix_mode }
}

/// The version of the tool.
pub struct VersionInfo {}

impl VersionInfo {
    /// The version as text.
    pub fn to_string(&self) -> (text: String)
        ensures
            text@ == "0.1.0"@,
    {
        "0.1.0".to_owned()
    }
}

/// The version of the tool.
pub fn version() -> (info: VersionInfo)
    ensures
        info == (VersionInfo {  }),
{
    VersionInfo {  }
}

} // verus!
