//! Query composition: turns the view options, the current directory scope
//! and an optional record limit into the filter/order specification that the
//! external history store executes, together with the recency cutoff and the
//! row-admission semantics of the composed clauses.

use vstd::prelude::*;

use crate::cli::{DumpOptions, ExitCode, ResultSort};

verus! {

/// One stored history row as the filter clauses see it.
pub struct StoredCommand {
    /// The row's id; higher ids are more recent insertions.
    pub id: i64,
    /// The command text.
    pub cmd: String,
    /// The directory the command was recorded under.
    pub dir: String,
    /// The command's recorded exit code.
    pub exit_code: i64,
    /// When the command last ran, in epoch seconds.
    pub when_run: i64,
}

/// The composed query: the structured clauses the external store must apply
/// and their rendering as SQL text.
pub struct Query {
    /// Ordering strategy for the result rows.
    pub sort_order: ResultSort,
    /// Whether rows are restricted to the current directory.
    pub current_dir_only: bool,
    /// The exit-status restriction.
    pub exit_code: ExitCode,
    /// Only rows with an id strictly above this cutoff are scanned.
    pub min_id: i64,
    /// The SQL text of the query, with :current_dir and :min_id parameters.
    pub sql: String,
}

/// The recency cutoff: with no limit, or a limit at least the highest id,
/// no windowing (0); otherwise the highest id less the limit, so roughly the
/// `limit` most recent rows remain in scope.
pub open spec fn spec_min_id(max_id: int, limit: Option<i64>) -> int {
    match limit {
        None => 0,
        Some(l) => if l > max_id {
            0
        } else {
            max_id - l
        },
    }
}

/// Computes the recency cutoff for a record limit over rows with ids up to
/// `max_id`.
pub fn compute_min_id(max_id: i64, limit: Option<i64>) -> (r: i64)
    requires
        max_id >= 0,
        limit matches Some(l) ==> l >= 0,
    ensures
        r as int == spec_min_id(max_id as int, limit),
        0 <= r <= max_id,
{
    match limit {
        None => 0,
        Some(l) => if l > max_id {
            0
        } else {
            max_id - l
        },
    }
}

/// Whether the composed query requires the store's contextual ranking cache
/// to be rebuilt before it runs: exactly when ordering by rank.
pub fn needs_cache_rebuild(opts: DumpOptions) -> (r: bool)
    ensures
        r == (opts.sort_order == ResultSort::Rank),
{
    match opts.sort_order {
        ResultSort::Rank => true,
        ResultSort::LastRun => false,
    }
}

/// The ordering clause rendered as SQL.
pub open spec fn spec_order_clause(v: ResultSort) -> Seq<char> {
    match v {
        ResultSort::LastRun => "last_run DESC"@,
        ResultSort::Rank => "contextual_commands.rank DESC"@,
    }
}

/// The directory clause rendered as SQL: an equality on the recorded
/// directory, or a tautology when the scope is unrestricted.
pub open spec fn spec_dir_clause(dir_only: bool) -> Seq<char> {
    if dir_only {
        "commands.dir = :current_dir"@
    } else {
        ":current_dir = :current_dir"@
    }
}

/// The exit-status clause rendered as SQL: a tautology, or a comparison of
/// the stored exit code with zero.
pub open spec fn spec_status_clause(v: ExitCode) -> Seq<char> {
    match v {
        ExitCode::Any => "true"@,
        ExitCode::Fail => "commands.exit_code != 0"@,
        ExitCode::Success => "commands.exit_code == 0"@,
    }
}

/// The full SQL text of the composed query: rank-ordered queries join the
/// contextual ranking cache, last-run queries scan the raw history; both
/// group repeated runs of one command into a single row carrying the most
/// recent run time.
pub open spec fn spec_query_sql(opts: DumpOptions) -> Seq<char> {
    match opts.sort_order {
        ResultSort::Rank => {
            "SELECT contextual_commands.cmd, MAX(commands.when_run) AS last_run FROM contextual_commands INNER JOIN commands ON contextual_commands.cmd = commands.cmd WHERE commands.id > :min_id AND "@
                + (spec_dir_clause(opts.current_dir_only) + (" AND "@ + (spec_status_clause(
                opts.exit_code,
            ) + (" GROUP BY contextual_commands.cmd ORDER BY "@ + (spec_order_clause(
                opts.sort_order,
            ) + ";"@)))))
        },
        ResultSort::LastRun => {
            "SELECT commands.cmd, MAX(when_run) AS last_run FROM commands WHERE commands.id > :min_id AND "@
                + (spec_dir_clause(opts.current_dir_only) + (" AND "@ + (spec_status_clause(
                opts.exit_code,
            ) + (" GROUP BY commands.cmd ORDER BY "@ + (spec_order_clause(opts.sort_order)
                + ";"@)))))
        },
    }
}

/// Renders the SQL text of the composed query.
fn render_query_sql(opts: DumpOptions) -> (r: String)
    ensures
        r@ == spec_query_sql(opts),
{
    let mut sql = match opts.sort_order {
        ResultSort::Rank => String::from_str(
            "SELECT contextual_commands.cmd, MAX(commands.when_run) AS last_run FROM contextual_commands INNER JOIN commands ON contextual_commands.cmd = commands.cmd WHERE commands.id > :min_id AND ",
        ),
        ResultSort::LastRun => String::from_str(
            "SELECT commands.cmd, MAX(when_run) AS last_run FROM commands WHERE commands.id > :min_id AND ",
        ),
    };
    sql.append(if opts.current_dir_only {
        "commands.dir = :current_dir"
    } else {
        ":current_dir = :current_dir"
    });
    sql.append(" AND ");
    sql.append(match opts.exit_code {
        ExitCode::Any => "true",
        ExitCode::Fail => "commands.exit_code != 0",
        ExitCode::Success => "commands.exit_code == 0",
    });
    sql.append(match opts.sort_order {
        ResultSort::Rank => " GROUP BY contextual_commands.cmd ORDER BY ",
        ResultSort::LastRun => " GROUP BY commands.cmd ORDER BY ",
    });
    sql.append(match opts.sort_order {
        ResultSort::LastRun => "last_run DESC",
        ResultSort::Rank => "contextual_commands.rank DESC",
    });
    sql.append(";");
    assert(sql@ =~= spec_query_sql(opts));
    sql
}

/// Composes the query for the given view options and recency window: the
/// three filter clauses and the ordering clause of the options, the computed
/// id cutoff, and their SQL rendering.
pub fn compose_query(opts: DumpOptions, limit: Option<i64>, max_id: i64) -> (q: Query)
    requires
        max_id >= 0,
        limit matches Some(l) ==> l >= 0,
    ensures
        q.sort_order == opts.sort_order,
        q.current_dir_only == opts.current_dir_only,
        q.exit_code == opts.exit_code,
        q.min_id as int == spec_min_id(max_id as int, limit),
        0 <= q.min_id <= max_id,
        q.sql@ == spec_query_sql(opts),
{
    Query {
        sort_order: opts.sort_order,
        current_dir_only: opts.current_dir_only,
        exit_code: opts.exit_code,
        min_id: compute_min_id(max_id, limit),
        sql: render_query_sql(opts),
    }
}

/// Whether a stored row satisfies every filter clause of a composed query,
/// for a given current directory: it lies inside the recency window, it was
/// recorded under the current directory whenever the scope demands that, and
/// its exit code matches the status restriction.
pub open spec fn spec_admits(q: Query, current_dir: Seq<char>, row: StoredCommand) -> bool {
    &&& row.id > q.min_id
    &&& (q.current_dir_only ==> row.dir@ == current_dir)
    &&& (match q.exit_code {
        ExitCode::Any => true,
        ExitCode::Success => row.exit_code == 0,
        ExitCode::Fail => row.exit_code != 0,
    })
}

/// Decides whether a stored row satisfies every filter clause of a composed
/// query.
pub fn row_admitted(q: &Query, current_dir: &str, row: &StoredCommand) -> (r: bool)
    ensures
        r == spec_admits(*q, current_dir@, *row),
{
    if row.id <= q.min_id {
        return false;
    }
    if q.current_dir_only {
        let cd = current_dir.to_owned();
        if !row.dir.eq(&cd) {
            return false;
        }
    }
    match q.exit_code {
        ExitCode::Any => true,
        ExitCode::Success => row.exit_code == 0,
        ExitCode::Fail => row.exit_code != 0,
    }
}

/// A directory-scoped query never admits a row recorded under a different
/// directory: with the current-directory restriction on, every admitted row
/// was recorded under the supplied current directory.
pub proof fn lemma_dir_scope_respected(q: Query, current_dir: Seq<char>, row: StoredCommand)
    requires
        q.current_dir_only,
        spec_admits(q, current_dir, row),
    ensures
        row.dir@ == current_dir,
{
}

/// A success-filtered query never admits a row whose stored exit code is
/// non-zero.
pub proof fn lemma_success_filter_respected(q: Query, current_dir: Seq<char>, row: StoredCommand)
    requires
        q.exit_code == ExitCode::Success,
        spec_admits(q, current_dir, row),
    ensures
        row.exit_code == 0,
{
}

/// A failure-filtered query never admits a row whose stored exit code is
/// zero.
pub proof fn lemma_fail_filter_respected(q: Query, current_dir: Seq<char>, row: StoredCommand)
    requires
        q.exit_code == ExitCode::Fail,
        spec_admits(q, current_dir, row),
    ensures
        row.exit_code != 0,
{
}

} // verus!
