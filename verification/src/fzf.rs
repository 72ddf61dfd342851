//! View-option state machine and display formatting: cyclic toggling of the
//! four view options, the strict-ordering description, the header line, and
//! the per-row dump line.

use vstd::prelude::*;

use crate::cli::{DumpOptions, ExitCode, ResultSort, ToggleChoice};

verus! {

/// The successor of a sort order in its fixed cycle: Rank -> LastRun -> Rank.
pub open spec fn spec_next_sort(v: ResultSort) -> ResultSort {
    match v {
        ResultSort::Rank => ResultSort::LastRun,
        ResultSort::LastRun => ResultSort::Rank,
    }
}

/// The successor of an exit-status filter in its fixed cycle:
/// Success -> Fail -> Any -> Success.
pub open spec fn spec_next_exit(v: ExitCode) -> ExitCode {
    match v {
        ExitCode::Success => ExitCode::Fail,
        ExitCode::Fail => ExitCode::Any,
        ExitCode::Any => ExitCode::Success,
    }
}

/// One toggle step: advances exactly the chosen field to its next value in
/// its fixed cycle and leaves every other field untouched.
pub open spec fn spec_toggle(opts: DumpOptions, choice: ToggleChoice) -> DumpOptions {
    match choice {
        ToggleChoice::SortOrder => DumpOptions {
            sort_order: spec_next_sort(opts.sort_order),
            ..opts
        },
        ToggleChoice::CurrentDirOnly => DumpOptions {
            current_dir_only: !opts.current_dir_only,
            ..opts
        },
        ToggleChoice::ExitCode => DumpOptions { exit_code: spec_next_exit(opts.exit_code), ..opts },
        ToggleChoice::StrictOrdering => DumpOptions {
            strict_ordering: !opts.strict_ordering,
            ..opts
        },
    }
}

/// Advances one view option to its next value in its fixed cycle:
/// sort order Rank -> LastRun -> Rank; exit status Success -> Fail -> Any
/// -> Success; the two boolean fields are negated. All other fields are
/// returned unchanged.
pub fn toggle(opts: DumpOptions, choice: ToggleChoice) -> (r: DumpOptions)
    ensures
        r == spec_toggle(opts, choice),
{
    let mut next = opts;
    match choice {
        ToggleChoice::SortOrder => {
            next.sort_order = match opts.sort_order {
                ResultSort::LastRun => ResultSort::Rank,
                ResultSort::Rank => ResultSort::LastRun,
            };
        },
        ToggleChoice::CurrentDirOnly => {
            next.current_dir_only = !opts.current_dir_only;
        },
        ToggleChoice::ExitCode => {
            next.exit_code = match opts.exit_code {
                ExitCode::Success => ExitCode::Fail,
                ExitCode::Fail => ExitCode::Any,
                ExitCode::Any => ExitCode::Success,
            };
        },
        ToggleChoice::StrictOrdering => {
            next.strict_ordering = !opts.strict_ordering;
        },
    }
    next
}

/// Toggling the sort order four times returns to the original options; the
/// order cycles with period two, so four applications close the cycle.
pub proof fn lemma_cycle_sort_roundtrip(opts: DumpOptions)
    ensures
        spec_toggle(
            spec_toggle(
                spec_toggle(spec_toggle(opts, ToggleChoice::SortOrder), ToggleChoice::SortOrder),
                ToggleChoice::SortOrder,
            ),
            ToggleChoice::SortOrder,
        ) == opts,
{
}

/// Toggling the current-directory restriction twice returns to the original
/// options.
pub proof fn lemma_cycle_dir_roundtrip(opts: DumpOptions)
    ensures
        spec_toggle(
            spec_toggle(opts, ToggleChoice::CurrentDirOnly),
            ToggleChoice::CurrentDirOnly,
        ) == opts,
{
}

/// Toggling the exit-status filter three times walks its full cycle
/// Success -> Fail -> Any -> Success and returns to the original options.
pub proof fn lemma_cycle_exit_roundtrip(opts: DumpOptions)
    ensures
        spec_toggle(
            spec_toggle(spec_toggle(opts, ToggleChoice::ExitCode), ToggleChoice::ExitCode),
            ToggleChoice::ExitCode,
        ) == opts,
{
}

/// Toggling the strict-ordering flag twice returns to the original options.
pub proof fn lemma_cycle_strict_roundtrip(opts: DumpOptions)
    ensures
        spec_toggle(
            spec_toggle(opts, ToggleChoice::StrictOrdering),
            ToggleChoice::StrictOrdering,
        ) == opts,
{
}

/// What `describe` returns for the strict-ordering field: "+s" when the flag
/// is set, the empty string when it is not.
pub open spec fn spec_strict_description(opts: DumpOptions) -> Seq<char> {
    if opts.strict_ordering {
        "+s"@
    } else {
        Seq::<char>::empty()
    }
}

/// Describes the current value of one view option as the toggle-view command
/// prints it. Only the strict-ordering field has a description: "+s" when
/// set, empty when not. Requesting any other field is a usage error, reported
/// as None rather than a value.
pub fn describe(opts: DumpOptions, choice: ToggleChoice) -> (r: Option<String>)
    ensures
        choice == ToggleChoice::StrictOrdering ==> (r matches Some(s) && s@
            == spec_strict_description(opts)),
        choice != ToggleChoice::StrictOrdering ==> r is None,
{
    match choice {
        ToggleChoice::StrictOrdering => {
            if opts.strict_ordering {
                Some(String::from_str("+s"))
            } else {
                proof {
                    reveal_strlit("");
                }
                let s = String::from_str("");
                assert(s@ =~= Seq::<char>::empty());
                Some(s)
            }
        },
        _ => None,
    }
}

/// The header's name for a sort order: "Rank" or "Time".
pub open spec fn spec_sort_label(v: ResultSort) -> Seq<char> {
    match v {
        ResultSort::LastRun => "Time"@,
        ResultSort::Rank => "Rank"@,
    }
}

/// The header's name for a directory scope: "Cur" or "Any".
pub open spec fn spec_dir_label(dir_only: bool) -> Seq<char> {
    if dir_only {
        "Cur"@
    } else {
        "Any"@
    }
}

/// The header's name for an exit-status filter: "(Any) ", "(Fail)" or
/// "(Okay)".
pub open spec fn spec_status_label(v: ExitCode) -> Seq<char> {
    match v {
        ExitCode::Any => "(Any) "@,
        ExitCode::Fail => "(Fail)"@,
        ExitCode::Success => "(Okay)"@,
    }
}

/// The header's name for the strict-ordering flag: "(On) " or "(Off)".
pub open spec fn spec_strict_label(strict: bool) -> Seq<char> {
    if strict {
        "(On) "@
    } else {
        "(Off)"@
    }
}

/// The single header line summarizing all four current view-option values.
pub open spec fn spec_header_line(opts: DumpOptions) -> Seq<char> {
    "F1 Sort ("@ + spec_sort_label(opts.sort_order) + ") | F2 Dir ("@ + spec_dir_label(
        opts.current_dir_only,
    ) + ") | F3 Status "@ + spec_status_label(opts.exit_code) + " | Ctrl-R Strict Ordering "@
        + spec_strict_label(opts.strict_ordering)
}

/// Renders the descriptive header line for the current view options, naming
/// the sort mode, directory scope, status filter and strict-ordering state.
pub fn header_line(opts: DumpOptions) -> (r: String)
    ensures
        r@ == spec_header_line(opts),
{
    let mut line = String::from_str("F1 Sort (");
    line.append(match opts.sort_order {
        ResultSort::LastRun => "Time",
        ResultSort::Rank => "Rank",
    });
    line.append(") | F2 Dir (");
    line.append(if opts.current_dir_only {
        "Cur"
    } else {
        "Any"
    });
    line.append(") | F3 Status ");
    line.append(match opts.exit_code {
        ExitCode::Any => "(Any) ",
        ExitCode::Fail => "(Fail)",
        ExitCode::Success => "(Okay)",
    });
    line.append(" | Ctrl-R Strict Ordering ");
    line.append(if opts.strict_ordering {
        "(On) "
    } else {
        "(Off)"
    });
    assert(line@ =~= spec_header_line(opts));
    line
}

/// One dump output line before its terminator: the formatted age, a tab, and
/// the command text.
pub open spec fn spec_row_line(age: Seq<char>, cmd: Seq<char>) -> Seq<char> {
    age + "\t"@ + cmd
}

/// The byte that terminates each output record: a null byte in
/// zero-separated mode, a newline otherwise.
pub fn separator_byte(zero_separated: bool) -> (r: u8)
    ensures
        r == (if zero_separated {
            0u8
        } else {
            10u8
        }),
{
    if zero_separated {
        0
    } else {
        10
    }
}

/// Renders one dump row as the age string, a tab, and the command text; the
/// caller appends the newline or null terminator.
pub fn format_row(age: &str, cmd: &str) -> (r: String)
    ensures
        r@ == spec_row_line(age@, cmd@),
{
    let mut line = age.to_owned();
    line.append("\t");
    line.append(cmd);
    assert(line@ =~= spec_row_line(age@, cmd@));
    line
}

} // verus!
