//! The toggle file's text format: a small JSON object holding the persisted
//! view options, with a verified serializer and parser. An absent or empty
//! file stands for the defaults; a present but malformed file is an error
//! that the caller reports fatally.

use vstd::prelude::*;

use crate::cli::{default_options, DumpOptions, ExitCode, ResultSort, ToggleChoice};

verus! {

/// The whitespace characters the parser skips between tokens.
pub open spec fn is_ws(c: char) -> bool {
    c == ' ' || c == '\n' || c == '\t' || c == '\r'
}

/// Drops leading whitespace from a character sequence.
pub open spec fn spec_skip_ws(s: Seq<char>) -> Seq<char>
    decreases s.len(),
{
    if s.len() > 0 && is_ws(s[0]) {
        spec_skip_ws(s.skip(1))
    } else {
        s
    }
}

/// Consumes an exact literal from the front of a sequence, yielding the
/// remainder, or nothing when the sequence does not start with the literal.
pub open spec fn spec_expect(s: Seq<char>, lit: Seq<char>) -> Option<Seq<char>>
    decreases lit.len(),
{
    if lit.len() == 0 {
        Some(s)
    } else if s.len() > 0 && s[0] == lit[0] {
        spec_expect(s.skip(1), lit.skip(1))
    } else {
        None
    }
}

/// Whether a sequence consists of whitespace alone.
pub open spec fn spec_all_ws(s: Seq<char>) -> bool {
    forall|k: int| 0 <= k < s.len() ==> is_ws(s[k])
}

/// The serialized token for a sort order, quotes included.
pub open spec fn spec_sort_token(v: ResultSort) -> Seq<char> {
    match v {
        ResultSort::Rank => "\"Rank\""@,
        ResultSort::LastRun => "\"LastRun\""@,
    }
}

/// The serialized token for an exit-status filter, quotes included.
pub open spec fn spec_exit_token(v: ExitCode) -> Seq<char> {
    match v {
        ExitCode::Success => "\"Success\""@,
        ExitCode::Fail => "\"Fail\""@,
        ExitCode::Any => "\"Any\""@,
    }
}

/// The serialized token for a boolean field.
pub open spec fn spec_bool_token(b: bool) -> Seq<char> {
    if b {
        "true"@
    } else {
        "false"@
    }
}

/// Consumes a sort-order token from the front of a sequence.
pub open spec fn spec_sort_value(s: Seq<char>) -> Option<(ResultSort, Seq<char>)> {
    match spec_expect(s, "\"Rank\""@) {
        Some(rest) => Some((ResultSort::Rank, rest)),
        None => match spec_expect(s, "\"LastRun\""@) {
            Some(rest) => Some((ResultSort::LastRun, rest)),
            None => None,
        },
    }
}

/// Consumes an exit-status token from the front of a sequence.
pub open spec fn spec_exit_value(s: Seq<char>) -> Option<(ExitCode, Seq<char>)> {
    match spec_expect(s, "\"Success\""@) {
        Some(rest) => Some((ExitCode::Success, rest)),
        None => match spec_expect(s, "\"Fail\""@) {
            Some(rest) => Some((ExitCode::Fail, rest)),
            None => match spec_expect(s, "\"Any\""@) {
                Some(rest) => Some((ExitCode::Any, rest)),
                None => None,
            },
        },
    }
}

/// Consumes a boolean token from the front of a sequence.
pub open spec fn spec_bool_value(s: Seq<char>) -> Option<(bool, Seq<char>)> {
    match spec_expect(s, "true"@) {
        Some(rest) => Some((true, rest)),
        None => match spec_expect(s, "false"@) {
            Some(rest) => Some((false, rest)),
            None => None,
        },
    }
}

/// Consumes one field key, quotes included, naming which field it is.
pub open spec fn spec_key(s: Seq<char>) -> Option<(ToggleChoice, Seq<char>)> {
    match spec_expect(s, "\"sort_order\""@) {
        Some(rest) => Some((ToggleChoice::SortOrder, rest)),
        None => match spec_expect(s, "\"current_dir_only\""@) {
            Some(rest) => Some((ToggleChoice::CurrentDirOnly, rest)),
            None => match spec_expect(s, "\"exit_status_filter\""@) {
                Some(rest) => Some((ToggleChoice::ExitCode, rest)),
                None => match spec_expect(s, "\"strict_ordering\""@) {
                    Some(rest) => Some((ToggleChoice::StrictOrdering, rest)),
                    None => None,
                },
            },
        },
    }
}

/// Consumes one field's value and stores it into the record under
/// construction.
pub open spec fn spec_field_value(s: Seq<char>, field: ToggleChoice, opts: DumpOptions) -> Option<
    (DumpOptions, Seq<char>),
> {
    match field {
        ToggleChoice::SortOrder => match spec_sort_value(s) {
            Some((v, rest)) => Some((DumpOptions { sort_order: v, ..opts }, rest)),
            None => None,
        },
        ToggleChoice::CurrentDirOnly => match spec_bool_value(s) {
            Some((v, rest)) => Some((DumpOptions { current_dir_only: v, ..opts }, rest)),
            None => None,
        },
        ToggleChoice::ExitCode => match spec_exit_value(s) {
            Some((v, rest)) => Some((DumpOptions { exit_code: v, ..opts }, rest)),
            None => None,
        },
        ToggleChoice::StrictOrdering => match spec_bool_value(s) {
            Some((v, rest)) => Some((DumpOptions { strict_ordering: v, ..opts }, rest)),
            None => None,
        },
    }
}

/// Whether one field has already been consumed.
pub open spec fn spec_seen(
    field: ToggleChoice,
    seen_sort: bool,
    seen_dir: bool,
    seen_exit: bool,
    seen_strict: bool,
) -> bool {
    match field {
        ToggleChoice::SortOrder => seen_sort,
        ToggleChoice::CurrentDirOnly => seen_dir,
        ToggleChoice::ExitCode => seen_exit,
        ToggleChoice::StrictOrdering => seen_strict,
    }
}

/// How many fields have been consumed so far.
pub open spec fn spec_seen_count(
    seen_sort: bool,
    seen_dir: bool,
    seen_exit: bool,
    seen_strict: bool,
) -> int {
    (if seen_sort {
        1int
    } else {
        0int
    }) + (if seen_dir {
        1int
    } else {
        0int
    }) + (if seen_exit {
        1int
    } else {
        0int
    }) + (if seen_strict {
        1int
    } else {
        0int
    })
}

/// Parses the members of the options object, starting just after the opening
/// brace or a separating comma: one `"key": value` pair per step, each field
/// at most once, in any order, until the closing brace. Fields never named
/// keep the values already in `opts`.
pub open spec fn spec_parse_fields(
    s: Seq<char>,
    opts: DumpOptions,
    seen_sort: bool,
    seen_dir: bool,
    seen_exit: bool,
    seen_strict: bool,
) -> Option<DumpOptions>
    decreases 4 - spec_seen_count(seen_sort, seen_dir, seen_exit, seen_strict),
{
    if spec_seen_count(seen_sort, seen_dir, seen_exit, seen_strict) > 4 {
        None
    } else {
        match spec_key(spec_skip_ws(s)) {
            None => None,
            Some((field, s2)) => if spec_seen(field, seen_sort, seen_dir, seen_exit, seen_strict) {
                None
            } else {
                let s3 = spec_skip_ws(s2);
                if s3.len() > 0 && s3[0] == ':' {
                    match spec_field_value(spec_skip_ws(s3.skip(1)), field, opts) {
                        None => None,
                        Some((opts2, s5)) => {
                            let s6 = spec_skip_ws(s5);
                            if s6.len() > 0 && s6[0] == ',' {
                                spec_parse_fields(
                                    s6.skip(1),
                                    opts2,
                                    seen_sort || field == ToggleChoice::SortOrder,
                                    seen_dir || field == ToggleChoice::CurrentDirOnly,
                                    seen_exit || field == ToggleChoice::ExitCode,
                                    seen_strict || field == ToggleChoice::StrictOrdering,
                                )
                            } else if s6.len() > 0 && s6[0] == '}' {
                                if spec_all_ws(s6.skip(1)) {
                                    Some(opts2)
                                } else {
                                    None
                                }
                            } else {
                                None
                            }
                        },
                    }
                } else {
                    None
                }
            },
        }
    }
}

/// The meaning of a non-empty toggle file: a JSON object naming any subset
/// of the four option fields, each at most once; fields not named keep their
/// documented defaults. Anything else is malformed.
pub open spec fn spec_parse_options(s: Seq<char>) -> Option<DumpOptions> {
    let s1 = spec_skip_ws(s);
    if s1.len() > 0 && s1[0] == '{' {
        let s2 = spec_skip_ws(s1.skip(1));
        if s2.len() > 0 && s2[0] == '}' {
            if spec_all_ws(s2.skip(1)) {
                Some(default_options())
            } else {
                None
            }
        } else {
            spec_parse_fields(s1.skip(1), default_options(), false, false, false, false)
        }
    } else {
        None
    }
}

/// The serialized form of a view-option record: a pretty-printed JSON object
/// with all four fields in a fixed order, written member by member by the
/// `spec_tail_*` functions below.
pub open spec fn spec_serialize_options(opts: DumpOptions) -> Seq<char> {
    "{"@ + spec_tail_sort(
        opts.sort_order,
        opts.current_dir_only,
        opts.exit_code,
        opts.strict_ordering,
    )
}

/// Dropping leading whitespace from a sequence that starts with none leaves
/// it unchanged.
proof fn lemma_skip_ws_clean(s: Seq<char>)
    requires
        s.len() == 0 || !is_ws(s[0]),
    ensures
        spec_skip_ws(s) == s,
{
}

/// Dropping leading whitespace from a sequence with an all-whitespace prefix
/// drops the whole prefix.
proof fn lemma_skip_ws_ws_prefix(a: Seq<char>, b: Seq<char>)
    requires
        spec_all_ws(a),
    ensures
        spec_skip_ws(a + b) == spec_skip_ws(b),
    decreases a.len(),
{
    if a.len() == 0 {
        assert(a + b =~= b);
    } else {
        assert((a + b)[0] == a[0]);
        assert((a + b).skip(1) =~= a.skip(1) + b);
        assert(spec_all_ws(a.skip(1)));
        lemma_skip_ws_ws_prefix(a.skip(1), b);
    }
}

/// Consuming a literal from a sequence that starts with that very literal
/// yields the rest.
proof fn lemma_expect_prefix(a: Seq<char>, b: Seq<char>)
    ensures
        spec_expect(a + b, a) == Some(b),
    decreases a.len(),
{
    if a.len() == 0 {
        assert(a + b =~= b);
    } else {
        assert((a + b)[0] == a[0]);
        assert((a + b).skip(1) =~= a.skip(1) + b);
        lemma_expect_prefix(a.skip(1), b);
    }
}

/// Consuming a literal fails when the text differs from the literal at some
/// position inside the literal.
proof fn lemma_expect_mismatch(s: Seq<char>, lit: Seq<char>, k: int)
    requires
        0 <= k < lit.len(),
        k < s.len(),
        forall|j: int| 0 <= j < k ==> s[j] == lit[j],
        s[k] != lit[k],
    ensures
        spec_expect(s, lit) is None,
    decreases k,
{
    if k == 0 {
        assert(s.len() > 0 && s[0] != lit[0]);
    } else {
        assert(s[0] == lit[0]);
        assert(s.skip(1) =~= s.subrange(1, s.len() as int));
        assert forall|j: int| 0 <= j < k - 1 implies s.skip(1)[j] == lit.skip(1)[j] by {
            assert(s.skip(1)[j] == s[j + 1]);
            assert(lit.skip(1)[j] == lit[j + 1]);
        }
        assert(s.skip(1)[k - 1] == s[k] && lit.skip(1)[k - 1] == lit[k]);
        lemma_expect_mismatch(s.skip(1), lit.skip(1), k - 1);
    }
}

/// Reading a sort-order token placed in front of arbitrary text yields that
/// token's value and the rest.
proof fn lemma_sort_value_token(v: ResultSort, rest: Seq<char>)
    ensures
        spec_sort_value(spec_sort_token(v) + rest) == Some((v, rest)),
{
    reveal_strlit("\"Rank\"");
    reveal_strlit("\"LastRun\"");
    match v {
        ResultSort::Rank => {
            lemma_expect_prefix("\"Rank\""@, rest);
        },
        ResultSort::LastRun => {
            lemma_expect_mismatch("\"LastRun\""@ + rest, "\"Rank\""@, 1);
            lemma_expect_prefix("\"LastRun\""@, rest);
        },
    }
}

/// Reading an exit-status token placed in front of arbitrary text yields
/// that token's value and the rest.
proof fn lemma_exit_value_token(v: ExitCode, rest: Seq<char>)
    ensures
        spec_exit_value(spec_exit_token(v) + rest) == Some((v, rest)),
{
    reveal_strlit("\"Success\"");
    reveal_strlit("\"Fail\"");
    reveal_strlit("\"Any\"");
    match v {
        ExitCode::Success => {
            lemma_expect_prefix("\"Success\""@, rest);
        },
        ExitCode::Fail => {
            lemma_expect_mismatch("\"Fail\""@ + rest, "\"Success\""@, 1);
            lemma_expect_prefix("\"Fail\""@, rest);
        },
        ExitCode::Any => {
            lemma_expect_mismatch("\"Any\""@ + rest, "\"Success\""@, 1);
            lemma_expect_mismatch("\"Any\""@ + rest, "\"Fail\""@, 1);
            lemma_expect_prefix("\"Any\""@, rest);
        },
    }
}

/// Reading a boolean token placed in front of arbitrary text yields that
/// token's value and the rest.
proof fn lemma_bool_value_token(b: bool, rest: Seq<char>)
    ensures
        spec_bool_value(spec_bool_token(b) + rest) == Some((b, rest)),
{
    reveal_strlit("true");
    reveal_strlit("false");
    if b {
        lemma_expect_prefix("true"@, rest);
    } else {
        lemma_expect_mismatch("false"@ + rest, "true"@, 0);
        lemma_expect_prefix("false"@, rest);
    }
}

/// The serialized key token of one field, quotes included.
pub open spec fn spec_key_token(field: ToggleChoice) -> Seq<char> {
    match field {
        ToggleChoice::SortOrder => "\"sort_order\""@,
        ToggleChoice::CurrentDirOnly => "\"current_dir_only\""@,
        ToggleChoice::ExitCode => "\"exit_status_filter\""@,
        ToggleChoice::StrictOrdering => "\"strict_ordering\""@,
    }
}

/// Reading a key token placed in front of arbitrary text names that key's
/// field and yields the rest.
proof fn lemma_key_token(field: ToggleChoice, rest: Seq<char>)
    ensures
        spec_key(spec_key_token(field) + rest) == Some((field, rest)),
{
    reveal_strlit("\"sort_order\"");
    reveal_strlit("\"current_dir_only\"");
    reveal_strlit("\"exit_status_filter\"");
    reveal_strlit("\"strict_ordering\"");
    match field {
        ToggleChoice::SortOrder => {
            lemma_expect_prefix("\"sort_order\""@, rest);
        },
        ToggleChoice::CurrentDirOnly => {
            lemma_expect_mismatch("\"current_dir_only\""@ + rest, "\"sort_order\""@, 1);
            lemma_expect_prefix("\"current_dir_only\""@, rest);
        },
        ToggleChoice::ExitCode => {
            lemma_expect_mismatch("\"exit_status_filter\""@ + rest, "\"sort_order\""@, 1);
            lemma_expect_mismatch("\"exit_status_filter\""@ + rest, "\"current_dir_only\""@, 1);
            lemma_expect_prefix("\"exit_status_filter\""@, rest);
        },
        ToggleChoice::StrictOrdering => {
            lemma_expect_mismatch("\"strict_ordering\""@ + rest, "\"sort_order\""@, 2);
            lemma_expect_mismatch("\"strict_ordering\""@ + rest, "\"current_dir_only\""@, 1);
            lemma_expect_mismatch("\"strict_ordering\""@ + rest, "\"exit_status_filter\""@, 1);
            lemma_expect_prefix("\"strict_ordering\""@, rest);
        },
    }
}

/// The serialized text from one field's leading indentation up to the
/// closing brace, for each of the four fields in serialization order.
pub open spec fn spec_tail_strict(b4: bool) -> Seq<char> {
    "\n  "@ + ("\"strict_ordering\""@ + (": "@ + (spec_bool_token(b4) + "\n}"@)))
}

/// See `spec_tail_strict`; this tail starts at the exit-status field.
pub open spec fn spec_tail_exit(v3: ExitCode, b4: bool) -> Seq<char> {
    "\n  "@ + ("\"exit_status_filter\""@ + (": "@ + (spec_exit_token(v3) + (","@ + spec_tail_strict(
        b4,
    )))))
}

/// See `spec_tail_strict`; this tail starts at the directory field.
pub open spec fn spec_tail_dir(b2: bool, v3: ExitCode, b4: bool) -> Seq<char> {
    "\n  "@ + ("\"current_dir_only\""@ + (": "@ + (spec_bool_token(b2) + (","@ + spec_tail_exit(
        v3,
        b4,
    )))))
}

/// See `spec_tail_strict`; this tail starts at the sort-order field.
pub open spec fn spec_tail_sort(v1: ResultSort, b2: bool, v3: ExitCode, b4: bool) -> Seq<char> {
    "\n  "@ + ("\"sort_order\""@ + (": "@ + (spec_sort_token(v1) + (","@ + spec_tail_dir(
        b2,
        v3,
        b4,
    )))))
}

/// One member step of the parser walk over serialized text: from the field's
/// leading indentation, the parser consumes `key: value` and hands the
/// remainder after the separator to the continuation. These facts cover the
/// shared part of each step.
proof fn lemma_walk_common(key: ToggleChoice, tok: Seq<char>, sep: Seq<char>)
    requires
        tok.len() > 0,
        !is_ws(tok[0]),
    ensures
        spec_skip_ws("\n  "@ + (spec_key_token(key) + (": "@ + (tok + sep)))) == spec_key_token(key)
            + (": "@ + (tok + sep)),
        spec_key(spec_key_token(key) + (": "@ + (tok + sep))) == Some(
            (key, ": "@ + (tok + sep)),
        ),
        spec_skip_ws(": "@ + (tok + sep)) == ": "@ + (tok + sep),
        (": "@ + (tok + sep))[0] == ':',
        spec_skip_ws((": "@ + (tok + sep)).skip(1)) == tok + sep,
{
    reveal_strlit("\n  ");
    reveal_strlit(": ");
    reveal_strlit("\"sort_order\"");
    reveal_strlit("\"current_dir_only\"");
    reveal_strlit("\"exit_status_filter\"");
    reveal_strlit("\"strict_ordering\"");
    let kt = spec_key_token(key);
    let rest = ": "@ + (tok + sep);
    assert(spec_all_ws("\n  "@));
    lemma_skip_ws_ws_prefix("\n  "@, kt + rest);
    assert((kt + rest)[0] == kt[0]);
    assert(!is_ws(kt[0]));
    lemma_skip_ws_clean(kt + rest);
    lemma_key_token(key, rest);
    assert(rest[0] == ':');
    lemma_skip_ws_clean(rest);
    assert(rest.skip(1) =~= " "@ + (tok + sep)) by {
        reveal_strlit(" ");
    }
    assert(spec_all_ws(" "@)) by {
        reveal_strlit(" ");
    }
    lemma_skip_ws_ws_prefix(" "@, tok + sep);
    assert((tok + sep)[0] == tok[0]);
    lemma_skip_ws_clean(tok + sep);
}

/// The parser's last step: the strict-ordering member followed by the
/// closing brace stores the strict-ordering value and finishes.
proof fn lemma_walk_strict(opts: DumpOptions, b4: bool)
    ensures
        spec_parse_fields(spec_tail_strict(b4), opts, true, true, true, false) == Some(
            DumpOptions { strict_ordering: b4, ..opts },
        ),
{
    reveal_strlit("true");
    reveal_strlit("false");
    reveal_strlit("\n}");
    let tok = spec_bool_token(b4);
    let sep = "\n}"@;
    lemma_walk_common(ToggleChoice::StrictOrdering, tok, sep);
    lemma_bool_value_token(b4, sep);
    assert(sep[0] == '\n' && is_ws('\n'));
    assert(sep.skip(1) =~= "}"@) by {
        reveal_strlit("}");
    }
    assert(spec_skip_ws(sep) == "}"@) by {
        reveal_strlit("}");
        assert(spec_skip_ws(sep) == spec_skip_ws(sep.skip(1)));
        lemma_skip_ws_clean("}"@);
    }
    assert(("}"@)[0] == '}') by {
        reveal_strlit("}");
    }
    assert(("}"@).skip(1) =~= Seq::<char>::empty()) by {
        reveal_strlit("}");
    }
    assert(spec_all_ws(("}"@).skip(1)));
}

/// The parser's third step: the exit-status member stores its value and the
/// walk continues at the strict-ordering member.
proof fn lemma_walk_exit(opts: DumpOptions, v3: ExitCode, b4: bool)
    ensures
        spec_parse_fields(spec_tail_exit(v3, b4), opts, true, true, false, false) == Some(
            DumpOptions { exit_code: v3, strict_ordering: b4, ..opts },
        ),
{
    reveal_strlit("\"Success\"");
    reveal_strlit("\"Fail\"");
    reveal_strlit("\"Any\"");
    reveal_strlit(",");
    let tok = spec_exit_token(v3);
    let sep = ","@ + spec_tail_strict(b4);
    lemma_walk_common(ToggleChoice::ExitCode, tok, sep);
    lemma_exit_value_token(v3, sep);
    assert(sep[0] == ',');
    lemma_skip_ws_clean(sep);
    assert(sep.skip(1) =~= spec_tail_strict(b4));
    lemma_walk_strict(DumpOptions { exit_code: v3, ..opts }, b4);
}

/// The parser's second step: the directory member stores its value and the
/// walk continues at the exit-status member.
proof fn lemma_walk_dir(opts: DumpOptions, b2: bool, v3: ExitCode, b4: bool)
    ensures
        spec_parse_fields(spec_tail_dir(b2, v3, b4), opts, true, false, false, false) == Some(
            DumpOptions { current_dir_only: b2, exit_code: v3, strict_ordering: b4, ..opts },
        ),
{
    reveal_strlit("true");
    reveal_strlit("false");
    reveal_strlit(",");
    let tok = spec_bool_token(b2);
    let sep = ","@ + spec_tail_exit(v3, b4);
    lemma_walk_common(ToggleChoice::CurrentDirOnly, tok, sep);
    lemma_bool_value_token(b2, sep);
    assert(sep[0] == ',');
    lemma_skip_ws_clean(sep);
    assert(sep.skip(1) =~= spec_tail_exit(v3, b4));
    lemma_walk_exit(DumpOptions { current_dir_only: b2, ..opts }, v3, b4);
}

/// The parser's first step: the sort-order member stores its value and the
/// walk continues at the directory member.
proof fn lemma_walk_sort(opts: DumpOptions, v1: ResultSort, b2: bool, v3: ExitCode, b4: bool)
    ensures
        spec_parse_fields(spec_tail_sort(v1, b2, v3, b4), opts, false, false, false, false) == Some(
            DumpOptions {
                sort_order: v1,
                current_dir_only: b2,
                exit_code: v3,
                strict_ordering: b4,
            },
        ),
{
    reveal_strlit("\"Rank\"");
    reveal_strlit("\"LastRun\"");
    reveal_strlit(",");
    let tok = spec_sort_token(v1);
    let sep = ","@ + spec_tail_dir(b2, v3, b4);
    lemma_walk_common(ToggleChoice::SortOrder, tok, sep);
    lemma_sort_value_token(v1, sep);
    assert(sep[0] == ',');
    lemma_skip_ws_clean(sep);
    assert(sep.skip(1) =~= spec_tail_dir(b2, v3, b4));
    lemma_walk_dir(DumpOptions { sort_order: v1, ..opts }, b2, v3, b4);
}

/// Round trip of the toggle file: parsing the serialized form of any
/// view-option record yields exactly that record. Together with the
/// contracts of `serialize_dump_options`, `parse_dump_options` and
/// `load_options`, this says that a save followed immediately by a load of
/// the same file reproduces the saved options.
pub proof fn lemma_save_load_roundtrip(opts: DumpOptions)
    ensures
        spec_parse_options(spec_serialize_options(opts)) == Some(opts),
{
    reveal_strlit("{");
    reveal_strlit("\n  ");
    reveal_strlit("\"sort_order\"");
    let ser = spec_serialize_options(opts);
    let tail = spec_tail_sort(
        opts.sort_order,
        opts.current_dir_only,
        opts.exit_code,
        opts.strict_ordering,
    );
    assert(ser[0] == '{');
    lemma_skip_ws_clean(ser);
    assert(ser.skip(1) =~= tail);
    let s2 = spec_skip_ws(tail);
    assert(spec_all_ws("\n  "@));
    let kt = "\"sort_order\""@;
    let rest = ": "@ + (spec_sort_token(opts.sort_order) + (","@ + spec_tail_dir(
        opts.current_dir_only,
        opts.exit_code,
        opts.strict_ordering,
    )));
    assert(tail =~= "\n  "@ + (kt + rest));
    lemma_skip_ws_ws_prefix("\n  "@, kt + rest);
    assert((kt + rest)[0] == kt[0]);
    assert(kt[0] == '"') by {
        reveal_strlit("\"sort_order\"");
    }
    lemma_skip_ws_clean(kt + rest);
    assert(s2[0] == '"');
    lemma_walk_sort(
        default_options(),
        opts.sort_order,
        opts.current_dir_only,
        opts.exit_code,
        opts.strict_ordering,
    );
}

/// Why a toggle file failed to parse.
#[derive(Clone, Copy, Debug, PartialEq, Eq, Structural)]
pub enum ParseError {
    /// The text does not start with an opening brace.
    NotAnObject,
    /// A member key is not one of the four option field names.
    UnknownKey,
    /// The same field is named twice.
    DuplicateKey,
    /// A key is not followed by a colon.
    MissingColon,
    /// A field's value is not one of the values its field admits.
    BadValue,
    /// A member is not followed by a comma or the closing brace.
    MissingSeparator,
    /// Text other than whitespace follows the closing brace.
    TrailingContent,
}

impl ParseError {
    /// A short human-readable description of the parse failure.
    pub fn message(&self) -> (r: &'static str)
        ensures
            r@ == match self {
                ParseError::NotAnObject => "expected a JSON object"@,
                ParseError::UnknownKey => "unknown option field name"@,
                ParseError::DuplicateKey => "option field named twice"@,
                ParseError::MissingColon => "expected ':' after field name"@,
                ParseError::BadValue => "invalid value for option field"@,
                ParseError::MissingSeparator => "expected ',' or '}' after field value"@,
                ParseError::TrailingContent => "unexpected text after closing '}'"@,
            },
    {
        match self {
            ParseError::NotAnObject => "expected a JSON object",
            ParseError::UnknownKey => "unknown option field name",
            ParseError::DuplicateKey => "option field named twice",
            ParseError::MissingColon => "expected ':' after field name",
            ParseError::BadValue => "invalid value for option field",
            ParseError::MissingSeparator => "expected ',' or '}' after field value",
            ParseError::TrailingContent => "unexpected text after closing '}'",
        }
    }
}

/// Appends the strict-ordering member and the closing brace.
fn append_tail_strict(out: &mut String, b4: bool)
    ensures
        final(out)@ == old(out)@ + spec_tail_strict(b4),
{
    out.append("\n  ");
    out.append("\"strict_ordering\"");
    out.append(": ");
    out.append(if b4 {
        "true"
    } else {
        "false"
    });
    out.append("\n}");
    assert(out@ =~= old(out)@ + spec_tail_strict(b4));
}

/// Appends the exit-status member and everything after it.
fn append_tail_exit(out: &mut String, v3: ExitCode, b4: bool)
    ensures
        final(out)@ == old(out)@ + spec_tail_exit(v3, b4),
{
    out.append("\n  ");
    out.append("\"exit_status_filter\"");
    out.append(": ");
    out.append(match v3 {
        ExitCode::Success => "\"Success\"",
        ExitCode::Fail => "\"Fail\"",
        ExitCode::Any => "\"Any\"",
    });
    out.append(",");
    append_tail_strict(out, b4);
    assert(out@ =~= old(out)@ + spec_tail_exit(v3, b4));
}

/// Appends the directory member and everything after it.
fn append_tail_dir(out: &mut String, b2: bool, v3: ExitCode, b4: bool)
    ensures
        final(out)@ == old(out)@ + spec_tail_dir(b2, v3, b4),
{
    out.append("\n  ");
    out.append("\"current_dir_only\"");
    out.append(": ");
    out.append(if b2 {
        "true"
    } else {
        "false"
    });
    out.append(",");
    append_tail_exit(out, v3, b4);
    assert(out@ =~= old(out)@ + spec_tail_dir(b2, v3, b4));
}

/// Appends the sort-order member and everything after it.
fn append_tail_sort(out: &mut String, v1: ResultSort, b2: bool, v3: ExitCode, b4: bool)
    ensures
        final(out)@ == old(out)@ + spec_tail_sort(v1, b2, v3, b4),
{
    out.append("\n  ");
    out.append("\"sort_order\"");
    out.append(": ");
    out.append(match v1 {
        ResultSort::Rank => "\"Rank\"",
        ResultSort::LastRun => "\"LastRun\"",
    });
    out.append(",");
    append_tail_dir(out, b2, v3, b4);
    assert(out@ =~= old(out)@ + spec_tail_sort(v1, b2, v3, b4));
}

/// Serializes the full view-option record as pretty-printed JSON text.
pub fn serialize_dump_options(opts: DumpOptions) -> (r: String)
    ensures
        r@ == spec_serialize_options(opts),
{
    let mut out = String::from_str("{");
    append_tail_sort(
        &mut out,
        opts.sort_order,
        opts.current_dir_only,
        opts.exit_code,
        opts.strict_ordering,
    );
    out
}

/// Whether a character is toggle-file whitespace.
fn is_ws_char(c: char) -> (r: bool)
    ensures
        r == is_ws(c),
{
    c == ' ' || c == '\n' || c == '\t' || c == '\r'
}

/// Advances an index over whitespace; the remainder at the result is the
/// whitespace-stripped remainder at the start.
fn skip_ws_at(s: &str, i: usize, n: usize) -> (r: usize)
    requires
        n == s@.len(),
        i <= n,
    ensures
        i <= r <= n,
        spec_skip_ws(s@.skip(i as int)) == s@.skip(r as int),
        r < n ==> !is_ws(s@[r as int]),
    decreases n - i,
{
    let mut j = i;
    while j < n && is_ws_char(s.get_char(j))
        invariant
            n == s@.len(),
            i <= j <= n,
            spec_skip_ws(s@.skip(i as int)) == spec_skip_ws(s@.skip(j as int)),
        decreases n - j,
    {
        proof {
            assert(s@.skip(j as int).len() > 0);
            assert(s@.skip(j as int)[0] == s@[j as int]);
            assert(s@.skip(j as int).skip(1) =~= s@.skip(j as int + 1));
        }
        j = j + 1;
    }
    proof {
        if j < n {
            assert(s@.skip(j as int)[0] == s@[j as int]);
        }
        assert(spec_skip_ws(s@.skip(j as int)) == s@.skip(j as int));
    }
    j
}

/// Consumes an exact literal at an index, returning the index just past it,
/// or None when the text at the index does not start with the literal.
fn expect_at(s: &str, i: usize, n: usize, lit: &str) -> (r: Option<usize>)
    requires
        n == s@.len(),
        i <= n,
    ensures
        r matches Some(j) ==> i <= j <= n && j == i + lit@.len() && spec_expect(
            s@.skip(i as int),
            lit@,
        ) == Some(s@.skip(j as int)),
        r is None ==> spec_expect(s@.skip(i as int), lit@) is None,
{
    let m = lit.unicode_len();
    let mut k: usize = 0;
    proof {
        assert(lit@.skip(0) =~= lit@);
        assert(s@.skip(i as int + 0) =~= s@.skip(i as int));
    }
    while k < m
        invariant
            n == s@.len(),
            m == lit@.len(),
            i <= n,
            k <= m,
            i + k <= n,
            spec_expect(s@.skip(i as int), lit@) == spec_expect(
                s@.skip(i as int + k),
                lit@.skip(k as int),
            ),
        decreases m - k,
    {
        if i + k == n {
            proof {
                assert(s@.skip(i as int + k).len() == 0);
                assert(lit@.skip(k as int).len() > 0);
            }
            return None;
        }
        let sc = s.get_char(i + k);
        let lc = lit.get_char(k);
        proof {
            assert(s@.skip(i as int + k)[0] == s@[i as int + k]);
            assert(lit@.skip(k as int)[0] == lit@[k as int]);
        }
        if sc != lc {
            return None;
        }
        proof {
            assert(s@.skip(i as int + k).skip(1) =~= s@.skip(i as int + (k + 1)));
            assert(lit@.skip(k as int).skip(1) =~= lit@.skip(k as int + 1));
        }
        k = k + 1;
    }
    proof {
        assert(lit@.skip(m as int).len() == 0);
        assert(spec_expect(s@.skip(i as int + m), lit@.skip(m as int)) == Some(
            s@.skip(i as int + m),
        ));
    }
    Some(i + m)
}

/// Whether everything from an index on is whitespace.
fn all_ws_from(s: &str, i: usize, n: usize) -> (r: bool)
    requires
        n == s@.len(),
        i <= n,
    ensures
        r == spec_all_ws(s@.skip(i as int)),
{
    let mut j = i;
    while j < n
        invariant
            n == s@.len(),
            i <= j <= n,
            forall|k: int| i <= k < j ==> is_ws(s@[k]),
        decreases n - j,
    {
        if !is_ws_char(s.get_char(j)) {
            proof {
                assert(s@.skip(i as int)[j - i] == s@[j as int]);
            }
            return false;
        }
        j = j + 1;
    }
    proof {
        assert forall|k: int| 0 <= k < s@.skip(i as int).len() implies is_ws(
            s@.skip(i as int)[k],
        ) by {
            assert(s@.skip(i as int)[k] == s@[i + k]);
        }
    }
    true
}

/// Consumes one field key at an index, naming the field.
fn key_at(s: &str, i: usize, n: usize) -> (r: Option<(ToggleChoice, usize)>)
    requires
        n == s@.len(),
        i <= n,
    ensures
        r matches Some((f, j)) ==> i <= j <= n && spec_key(s@.skip(i as int)) == Some(
            (f, s@.skip(j as int)),
        ),
        r is None ==> spec_key(s@.skip(i as int)) is None,
{
    if let Some(j) = expect_at(s, i, n, "\"sort_order\"") {
        return Some((ToggleChoice::SortOrder, j));
    }
    if let Some(j) = expect_at(s, i, n, "\"current_dir_only\"") {
        return Some((ToggleChoice::CurrentDirOnly, j));
    }
    if let Some(j) = expect_at(s, i, n, "\"exit_status_filter\"") {
        return Some((ToggleChoice::ExitCode, j));
    }
    if let Some(j) = expect_at(s, i, n, "\"strict_ordering\"") {
        return Some((ToggleChoice::StrictOrdering, j));
    }
    None
}

/// Consumes one field's value at an index, storing it into the record.
fn field_value_at(s: &str, i: usize, n: usize, field: ToggleChoice, opts: DumpOptions) -> (r:
    Option<(DumpOptions, usize)>)
    requires
        n == s@.len(),
        i <= n,
    ensures
        r matches Some((o, j)) ==> i <= j <= n && spec_field_value(s@.skip(i as int), field, opts)
            == Some((o, s@.skip(j as int))),
        r is None ==> spec_field_value(s@.skip(i as int), field, opts) is None,
{
    match field {
        ToggleChoice::SortOrder => {
            if let Some(j) = expect_at(s, i, n, "\"Rank\"") {
                return Some((DumpOptions { sort_order: ResultSort::Rank, ..opts }, j));
            }
            if let Some(j) = expect_at(s, i, n, "\"LastRun\"") {
                return Some((DumpOptions { sort_order: ResultSort::LastRun, ..opts }, j));
            }
            None
        },
        ToggleChoice::CurrentDirOnly => {
            if let Some(j) = expect_at(s, i, n, "true") {
                return Some((DumpOptions { current_dir_only: true, ..opts }, j));
            }
            if let Some(j) = expect_at(s, i, n, "false") {
                return Some((DumpOptions { current_dir_only: false, ..opts }, j));
            }
            None
        },
        ToggleChoice::ExitCode => {
            if let Some(j) = expect_at(s, i, n, "\"Success\"") {
                return Some((DumpOptions { exit_code: ExitCode::Success, ..opts }, j));
            }
            if let Some(j) = expect_at(s, i, n, "\"Fail\"") {
                return Some((DumpOptions { exit_code: ExitCode::Fail, ..opts }, j));
            }
            if let Some(j) = expect_at(s, i, n, "\"Any\"") {
                return Some((DumpOptions { exit_code: ExitCode::Any, ..opts }, j));
            }
            None
        },
        ToggleChoice::StrictOrdering => {
            if let Some(j) = expect_at(s, i, n, "true") {
                return Some((DumpOptions { strict_ordering: true, ..opts }, j));
            }
            if let Some(j) = expect_at(s, i, n, "false") {
                return Some((DumpOptions { strict_ordering: false, ..opts }, j));
            }
            None
        },
    }
}

/// Parses the members of the options object, mirroring `spec_parse_fields`.
#[verifier::rlimit(60)]
fn parse_fields_at(
    s: &str,
    i: usize,
    n: usize,
    opts: DumpOptions,
    seen_sort: bool,
    seen_dir: bool,
    seen_exit: bool,
    seen_strict: bool,
) -> (r: Result<DumpOptions, ParseError>)
    requires
        n == s@.len(),
        i <= n,
    ensures
        r matches Ok(o) ==> spec_parse_fields(
            s@.skip(i as int),
            opts,
            seen_sort,
            seen_dir,
            seen_exit,
            seen_strict,
        ) == Some(o),
        r is Err ==> spec_parse_fields(
            s@.skip(i as int),
            opts,
            seen_sort,
            seen_dir,
            seen_exit,
            seen_strict,
        ) is None,
    decreases 4 - spec_seen_count(seen_sort, seen_dir, seen_exit, seen_strict),
{
    let i1 = skip_ws_at(s, i, n);
    let (field, i2) = match key_at(s, i1, n) {
        Some(p) => p,
        None => {
            return Err(ParseError::UnknownKey);
        },
    };
    let already = match field {
        ToggleChoice::SortOrder => seen_sort,
        ToggleChoice::CurrentDirOnly => seen_dir,
        ToggleChoice::ExitCode => seen_exit,
        ToggleChoice::StrictOrdering => seen_strict,
    };
    if already {
        return Err(ParseError::DuplicateKey);
    }
    let i3 = skip_ws_at(s, i2, n);
    if !(i3 < n && s.get_char(i3) == ':') {
        proof {
            let s3 = spec_skip_ws(s@.skip(i2 as int));
            if i3 < n {
                assert(s3[0] == s@[i3 as int]);
            }
        }
        return Err(ParseError::MissingColon);
    }
    proof {
        assert(spec_skip_ws(s@.skip(i2 as int))[0] == s@[i3 as int]);
        assert(spec_skip_ws(s@.skip(i2 as int)).skip(1) =~= s@.skip(i3 as int + 1));
    }
    let i4 = skip_ws_at(s, i3 + 1, n);
    let (opts2, i5) = match field_value_at(s, i4, n, field, opts) {
        Some(p) => p,
        None => {
            return Err(ParseError::BadValue);
        },
    };
    let i6 = skip_ws_at(s, i5, n);
    if i6 < n && s.get_char(i6) == ',' {
        proof {
            assert(spec_skip_ws(s@.skip(i5 as int))[0] == s@[i6 as int]);
            assert(spec_skip_ws(s@.skip(i5 as int)).skip(1) =~= s@.skip(i6 as int + 1));
        }
        parse_fields_at(
            s,
            i6 + 1,
            n,
            opts2,
            seen_sort || matches!(field, ToggleChoice::SortOrder),
            seen_dir || matches!(field, ToggleChoice::CurrentDirOnly),
            seen_exit || matches!(field, ToggleChoice::ExitCode),
            seen_strict || matches!(field, ToggleChoice::StrictOrdering),
        )
    } else if i6 < n && s.get_char(i6) == '}' {
        proof {
            assert(spec_skip_ws(s@.skip(i5 as int))[0] == s@[i6 as int]);
            assert(spec_skip_ws(s@.skip(i5 as int)).skip(1) =~= s@.skip(i6 as int + 1));
        }
        if all_ws_from(s, i6 + 1, n) {
            Ok(opts2)
        } else {
            Err(ParseError::TrailingContent)
        }
    } else {
        proof {
            let s6 = spec_skip_ws(s@.skip(i5 as int));
            if i6 < n {
                assert(s6[0] == s@[i6 as int]);
            }
        }
        Err(ParseError::MissingSeparator)
    }
}

/// Parses the text of a non-empty toggle file. Returns the view-option
/// record exactly when the text is a well-formed options object as
/// `spec_parse_options` defines it, and an error on any malformed text.
pub fn parse_dump_options(s: &str) -> (r: Result<DumpOptions, ParseError>)
    ensures
        r matches Ok(o) ==> spec_parse_options(s@) == Some(o),
        r is Err ==> spec_parse_options(s@) is None,
{
    let n = s.unicode_len();
    proof {
        assert(s@.skip(0) =~= s@);
    }
    let i1 = skip_ws_at(s, 0, n);
    if !(i1 < n && s.get_char(i1) == '{') {
        proof {
            if i1 < n {
                assert(spec_skip_ws(s@)[0] == s@[i1 as int]);
            }
        }
        return Err(ParseError::NotAnObject);
    }
    proof {
        assert(spec_skip_ws(s@)[0] == s@[i1 as int]);
        assert(spec_skip_ws(s@).skip(1) =~= s@.skip(i1 as int + 1));
    }
    let i2 = skip_ws_at(s, i1 + 1, n);
    if i2 < n && s.get_char(i2) == '}' {
        proof {
            assert(spec_skip_ws(s@.skip(i1 as int + 1))[0] == s@[i2 as int]);
            assert(spec_skip_ws(s@.skip(i1 as int + 1)).skip(1) =~= s@.skip(i2 as int + 1));
        }
        if all_ws_from(s, i2 + 1, n) {
            Ok(DumpOptions::default())
        } else {
            Err(ParseError::TrailingContent)
        }
    } else {
        proof {
            let s2 = spec_skip_ws(s@.skip(i1 as int + 1));
            if i2 < n {
                assert(s2[0] == s@[i2 as int]);
            }
        }
        parse_fields_at(s, i1 + 1, n, DumpOptions::default(), false, false, false, false)
    }
}

/// Turns the contents of the toggle file into view options: an absent file
/// (None) or an empty file yields the documented defaults without error; any
/// other contents are parsed, and malformed contents are an error.
pub fn load_options(contents: Option<&str>) -> (r: Result<DumpOptions, ParseError>)
    ensures
        contents is None ==> r == Ok::<DumpOptions, ParseError>(default_options()),
        contents matches Some(s) && s@.len() == 0 ==> r == Ok::<DumpOptions, ParseError>(
            default_options(),
        ),
        contents matches Some(s) ==> (s@.len() > 0 ==> ((r matches Ok(o)
            ==> spec_parse_options(s@) == Some(o)) && (r is Err ==> spec_parse_options(s@)
            is None))),
{
    match contents {
        None => Ok(DumpOptions::default()),
        Some(s) => {
            if s.unicode_len() == 0 {
                Ok(DumpOptions::default())
            } else {
                parse_dump_options(s)
            }
        },
    }
}

} // verus!
