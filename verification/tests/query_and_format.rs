//! Behaviour of the query composer, the recency window, the duration
//! formatter and the dump rendering.

use mcfly_fzf::cli::{DumpOptions, ExitCode, ResultSort};
use mcfly_fzf::duration::{format_time_since, u64_to_string};
use mcfly_fzf::fzf::{format_row, header_line};
use mcfly_fzf::query::{compose_query, compute_min_id, needs_cache_rebuild, row_admitted, StoredCommand};

const NOW: i64 = 1_000_000_000;

fn defaults() -> DumpOptions {
    DumpOptions {
        sort_order: ResultSort::Rank,
        current_dir_only: false,
        exit_code: ExitCode::Any,
        strict_ordering: false,
    }
}

fn row(id: i64, dir: &str, exit_code: i64) -> StoredCommand {
    StoredCommand {
        id,
        cmd: String::from("make test"),
        dir: String::from(dir),
        exit_code,
        when_run: NOW - 60,
    }
}

#[test]
fn min_id_windows_proportionally() {
    assert_eq!(compute_min_id(1000, Some(250)), 750);
    assert_eq!(compute_min_id(1000, Some(1000)), 0);
    assert_eq!(compute_min_id(1000, Some(2000)), 0);
    assert_eq!(compute_min_id(1000, None), 0);
    assert_eq!(compute_min_id(0, Some(10)), 0);
}

#[test]
fn min_id_handles_extreme_sizes() {
    assert_eq!(compute_min_id(i64::MAX, Some(i64::MAX)), 0);
    assert_eq!(compute_min_id(i64::MAX, Some(0)), i64::MAX);
    assert_eq!(compute_min_id(0, None), 0);
}

#[test]
fn rank_ordering_needs_cache_rebuild() {
    assert!(needs_cache_rebuild(defaults()));
    let mut o = defaults();
    o.sort_order = ResultSort::LastRun;
    assert!(!needs_cache_rebuild(o));
}

#[test]
fn dir_scope_excludes_other_directories() {
    let mut o = defaults();
    o.current_dir_only = true;
    let q = compose_query(o, None, 1000);
    assert!(row_admitted(&q, "/home/x", &row(1, "/home/x", 0)));
    assert!(!row_admitted(&q, "/home/x", &row(1, "/home/y", 0)));
}

#[test]
fn success_filter_excludes_failures() {
    let mut o = defaults();
    o.exit_code = ExitCode::Success;
    let q = compose_query(o, None, 1000);
    assert!(row_admitted(&q, "/home/x", &row(1, "/home/y", 0)));
    assert!(!row_admitted(&q, "/home/x", &row(1, "/home/y", 7)));
}

#[test]
fn fail_filter_excludes_successes() {
    let mut o = defaults();
    o.exit_code = ExitCode::Fail;
    let q = compose_query(o, None, 1000);
    assert!(row_admitted(&q, "/", &row(1, "/", 7)));
    assert!(!row_admitted(&q, "/", &row(1, "/", 0)));
}

#[test]
fn recency_window_excludes_old_rows() {
    let q = compose_query(defaults(), Some(250), 1000);
    assert_eq!(q.min_id, 750);
    assert!(row_admitted(&q, "/", &row(751, "/", 0)));
    assert!(!row_admitted(&q, "/", &row(750, "/", 0)));
}

#[test]
fn composed_sql_names_the_clauses() {
    let q = compose_query(defaults(), None, 0);
    let expected = "SELECT contextual_commands.cmd, MAX(commands.when_run) AS last_run \
                    FROM contextual_commands INNER JOIN commands \
                    ON contextual_commands.cmd = commands.cmd \
                    WHERE commands.id > :min_id AND :current_dir = :current_dir AND true \
                    GROUP BY contextual_commands.cmd \
                    ORDER BY contextual_commands.rank DESC;";
    assert_eq!(q.sql, expected);

    let mut o = defaults();
    o.sort_order = ResultSort::LastRun;
    o.current_dir_only = true;
    o.exit_code = ExitCode::Success;
    let q = compose_query(o, None, 0);
    let expected = "SELECT commands.cmd, MAX(when_run) AS last_run FROM commands \
                    WHERE commands.id > :min_id AND commands.dir = :current_dir \
                    AND commands.exit_code == 0 \
                    GROUP BY commands.cmd ORDER BY last_run DESC;";
    assert_eq!(q.sql, expected);
}

#[test]
fn half_minute_is_under_one_minute() {
    assert_eq!(format_time_since(NOW - 30, NOW), "< 1m");
    assert_eq!(format_time_since(NOW, NOW), "< 1m");
}

#[test]
fn ninety_minutes_is_one_hour_thirty() {
    assert_eq!(format_time_since(NOW - 90 * 60, NOW), "1h 30m");
}

#[test]
fn four_hundred_days_uses_two_largest_units() {
    let age = format_time_since(NOW - 400 * 86400, NOW);
    assert_eq!(age, "1y 1mo");
    assert_eq!(age.split(' ').count(), 2);
}

#[test]
fn single_unit_ages() {
    assert_eq!(format_time_since(NOW - 59 * 60, NOW), "59m");
    assert_eq!(format_time_since(NOW - 3600, NOW), "1h");
    assert_eq!(format_time_since(NOW - 2 * 31_557_600, NOW), "2y");
    assert_eq!(
        format_time_since(40_000_000_000 - 1000 * 31_557_600, 40_000_000_000),
        "1000y"
    );
}

#[test]
fn mixed_unit_ages() {
    assert_eq!(format_time_since(NOW - (86400 + 2 * 3600), NOW), "1d 2h");
    assert_eq!(format_time_since(NOW - (3600 + 60), NOW), "1h 1m");
}

#[test]
fn decimal_rendering_is_exact() {
    assert_eq!(u64_to_string(0), "0");
    assert_eq!(u64_to_string(7), "7");
    assert_eq!(u64_to_string(1234567890), "1234567890");
}

#[test]
fn header_line_shows_default_state() {
    let line = header_line(defaults());
    assert_eq!(
        line,
        "F1 Sort (Rank) | F2 Dir (Any) | F3 Status (Any)  | Ctrl-R Strict Ordering (Off)"
    );
}

#[test]
fn header_line_shows_toggled_state() {
    let o = DumpOptions {
        sort_order: ResultSort::LastRun,
        current_dir_only: true,
        exit_code: ExitCode::Fail,
        strict_ordering: true,
    };
    assert_eq!(
        header_line(o),
        "F1 Sort (Time) | F2 Dir (Cur) | F3 Status (Fail) | Ctrl-R Strict Ordering (On) "
    );
}

#[test]
fn row_line_is_age_tab_command() {
    assert_eq!(format_row("2h 15m", "ls -la"), "2h 15m\tls -la");
}
