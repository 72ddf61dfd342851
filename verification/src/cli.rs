//! Command-line surface and view-option data model: the togglable display
//! preferences and the argument record that drives each invocation.

use vstd::prelude::*;

verus! {

/// Ordering strategy for dumped history rows.
#[derive(Clone, Copy, Debug, PartialEq, Eq, Structural)]
pub enum ResultSort {
    /// Order by the store's precomputed contextual rank, descending.
    Rank,
    /// Order by most recent execution time, descending.
    LastRun,
}

/// Exit-status filter for dumped history rows.
#[derive(Clone, Copy, Debug, PartialEq, Eq, Structural)]
pub enum ExitCode {
    /// Only commands whose last recorded exit code was zero.
    Success,
    /// Only commands whose last recorded exit code was non-zero.
    Fail,
    /// No exit-status restriction.
    Any,
}

/// Which view-option field a toggle invocation advances.
#[derive(Clone, Copy, Debug, PartialEq, Eq, Structural)]
pub enum ToggleChoice {
    SortOrder,
    CurrentDirOnly,
    ExitCode,
    StrictOrdering,
}

/// Shell dialect for the printed initialization snippet.
#[derive(Clone, Copy, Debug, PartialEq, Eq, Structural)]
pub enum InitMode {
    Bash,
    Zsh,
    Fish,
}

/// Shell history file format understood by the history store.
#[derive(Clone, Copy, Debug, PartialEq, Eq, Structural)]
pub enum HistoryFormat {
    Bash,
    Zsh,
    ZshExtended,
    Fish,
}

/// The persisted view-option record: one value per field at all times.
#[derive(Clone, Copy, Debug, PartialEq, Eq, Structural)]
pub struct DumpOptions {
    /// Sort ordering of results.
    pub sort_order: ResultSort,
    /// Only show commands run from the current directory.
    pub current_dir_only: bool,
    /// Restrict results by the command's recorded exit status.
    pub exit_code: ExitCode,
    /// Strict-ordering flag surfaced in the header and toggle surface.
    pub strict_ordering: bool,
}

/// The documented default view options: Rank ordering, no directory
/// restriction, no status restriction, strict ordering off.
pub open spec fn default_options() -> DumpOptions {
    DumpOptions {
        sort_order: ResultSort::Rank,
        current_dir_only: false,
        exit_code: ExitCode::Any,
        strict_ordering: false,
    }
}

impl Default for DumpOptions {
    /// Returns the documented defaults (Rank, false, Any, false).
    fn default() -> (r: DumpOptions)
        ensures
            r == default_options(),
    {
        DumpOptions {
            sort_order: ResultSort::Rank,
            current_dir_only: false,
            exit_code: ExitCode::Any,
            strict_ordering: false,
        }
    }
}

impl Default for ResultSort {
    /// The default sort order is Rank.
    fn default() -> (r: ResultSort)
        ensures
            r == ResultSort::Rank,
    {
        ResultSort::Rank
    }
}

impl Default for ExitCode {
    /// The default exit-status filter is Any.
    fn default() -> (r: ExitCode)
        ensures
            r == ExitCode::Any,
    {
        ExitCode::Any
    }
}

impl ResultSort {
    /// Maps an optional environment-supplied override string to a sort
    /// order: "RANK" and "LAST_RUN" select the matching order, anything
    /// else (including no value at all) falls back to Rank.
    pub fn from_env_setting(value: Option<&str>) -> (r: ResultSort)
        ensures
            r == (if value matches Some(v) && v@ == "LAST_RUN"@ {
                ResultSort::LastRun
            } else {
                ResultSort::Rank
            }),
    {
        match value {
            Some(v) => {
                if v.to_owned() == String::from_str("LAST_RUN") {
                    ResultSort::LastRun
                } else {
                    ResultSort::Rank
                }
            },
            None => ResultSort::Rank,
        }
    }
}

/// Parsed command-line arguments, after environment defaulting.
#[derive(Clone, Debug)]
pub struct Cli {
    /// Shell history file format.
    pub history_format: HistoryFormat,
    /// Session identifier to record or search under.
    pub session_id: Option<String>,
    /// The subcommand to run.
    pub subcommand: Command,
}

/// One invocation's subcommand.
#[derive(Clone, Debug)]
#[allow(inconsistent_fields)]
pub enum Command {
    /// Print the shell configuration code.
    Init { shell: InitMode },
    /// Print the contents of the database as fuzzy-finder input.
    Dump {
        limit: Option<i64>,
        zero_separated: bool,
        header: bool,
        dir: Option<String>,
        options_json: Option<String>,
    },
    /// Mark a command as selected from the fuzzy-finder interface.
    Select { command: Vec<String>, dir: Option<String> },
    /// Toggle, or view, one option in the toggle file.
    Toggle { path: String, toggle: ToggleChoice, view: bool },
    /// Delete a command from the history store.
    Delete { command: String },
}

} // verus!
