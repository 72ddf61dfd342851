//! Behaviour of the view-option state machine and the toggle file format.

use mcfly_fzf::cli::{DumpOptions, ExitCode, ResultSort, ToggleChoice};
use mcfly_fzf::fzf::{describe, toggle};
use mcfly_fzf::toggle_file::{
    load_options, parse_dump_options, serialize_dump_options, ParseError,
};

fn defaults() -> DumpOptions {
    DumpOptions {
        sort_order: ResultSort::Rank,
        current_dir_only: false,
        exit_code: ExitCode::Any,
        strict_ordering: false,
    }
}

#[test]
fn absent_file_yields_defaults() {
    assert_eq!(load_options(None), Ok(defaults()));
}

#[test]
fn empty_file_yields_defaults() {
    assert_eq!(load_options(Some("")), Ok(defaults()));
}

#[test]
fn empty_object_yields_defaults() {
    assert_eq!(load_options(Some("{}")), Ok(defaults()));
    assert_eq!(load_options(Some("  {\n}\n")), Ok(defaults()));
}

#[test]
fn sort_cycle_follows_sequence_and_closes() {
    let o0 = defaults();
    let o1 = toggle(o0, ToggleChoice::SortOrder);
    assert_eq!(o1.sort_order, ResultSort::LastRun);
    let o2 = toggle(o1, ToggleChoice::SortOrder);
    assert_eq!(o2.sort_order, ResultSort::Rank);
    let o3 = toggle(o2, ToggleChoice::SortOrder);
    let o4 = toggle(o3, ToggleChoice::SortOrder);
    assert_eq!(o4, o0);
}

#[test]
fn dir_cycle_closes_after_two() {
    let o0 = defaults();
    let o1 = toggle(o0, ToggleChoice::CurrentDirOnly);
    assert!(o1.current_dir_only);
    assert_eq!(o1.sort_order, o0.sort_order);
    assert_eq!(o1.exit_code, o0.exit_code);
    assert_eq!(o1.strict_ordering, o0.strict_ordering);
    assert_eq!(toggle(o1, ToggleChoice::CurrentDirOnly), o0);
}

#[test]
fn exit_cycle_follows_sequence_and_closes() {
    let mut o = defaults();
    o.exit_code = ExitCode::Success;
    let start = o;
    let o1 = toggle(o, ToggleChoice::ExitCode);
    assert_eq!(o1.exit_code, ExitCode::Fail);
    let o2 = toggle(o1, ToggleChoice::ExitCode);
    assert_eq!(o2.exit_code, ExitCode::Any);
    let o3 = toggle(o2, ToggleChoice::ExitCode);
    assert_eq!(o3, start);
}

#[test]
fn strict_cycle_closes_after_two() {
    let o0 = defaults();
    let o1 = toggle(o0, ToggleChoice::StrictOrdering);
    assert!(o1.strict_ordering);
    assert_eq!(toggle(o1, ToggleChoice::StrictOrdering), o0);
}

#[test]
fn save_load_round_trip_all_values() {
    let sorts = [ResultSort::Rank, ResultSort::LastRun];
    let exits = [ExitCode::Success, ExitCode::Fail, ExitCode::Any];
    let bools = [false, true];
    for &sort_order in &sorts {
        for &current_dir_only in &bools {
            for &exit_code in &exits {
                for &strict_ordering in &bools {
                    let opts = DumpOptions {
                        sort_order,
                        current_dir_only,
                        exit_code,
                        strict_ordering,
                    };
                    let text = serialize_dump_options(opts);
                    assert_eq!(parse_dump_options(&text), Ok(opts));
                    assert_eq!(load_options(Some(&text)), Ok(opts));
                }
            }
        }
    }
}

#[test]
fn serialized_form_is_stable() {
    let text = serialize_dump_options(defaults());
    let expected = "{\n  \"sort_order\": \"Rank\",\n  \"current_dir_only\": false,\n  \"exit_status_filter\": \"Any\",\n  \"strict_ordering\": false\n}";
    assert_eq!(text, expected);
}

#[test]
fn parser_accepts_any_field_order_and_subset() {
    let got = parse_dump_options("{\"strict_ordering\": true}").unwrap();
    let mut want = defaults();
    want.strict_ordering = true;
    assert_eq!(got, want);

    let got = parse_dump_options(
        " {\n\t\"exit_status_filter\" : \"Fail\" ,\r\n \"sort_order\": \"LastRun\" } ",
    )
    .unwrap();
    let mut want = defaults();
    want.exit_code = ExitCode::Fail;
    want.sort_order = ResultSort::LastRun;
    assert_eq!(got, want);
}

#[test]
fn malformed_not_an_object() {
    assert_eq!(parse_dump_options("nonsense"), Err(ParseError::NotAnObject));
}

#[test]
fn malformed_unknown_key() {
    assert_eq!(
        parse_dump_options("{\"colour\": true}"),
        Err(ParseError::UnknownKey)
    );
}

#[test]
fn malformed_duplicate_key() {
    assert_eq!(
        parse_dump_options("{\"sort_order\": \"Rank\", \"sort_order\": \"Rank\"}"),
        Err(ParseError::DuplicateKey)
    );
}

#[test]
fn malformed_missing_colon() {
    assert_eq!(
        parse_dump_options("{\"sort_order\" \"Rank\"}"),
        Err(ParseError::MissingColon)
    );
}

#[test]
fn malformed_bad_value() {
    assert_eq!(
        parse_dump_options("{\"sort_order\": \"Sideways\"}"),
        Err(ParseError::BadValue)
    );
    assert_eq!(
        parse_dump_options("{\"current_dir_only\": \"Rank\"}"),
        Err(ParseError::BadValue)
    );
}

#[test]
fn malformed_missing_separator() {
    assert_eq!(
        parse_dump_options("{\"sort_order\": \"Rank\" \"current_dir_only\": true}"),
        Err(ParseError::MissingSeparator)
    );
}

#[test]
fn malformed_trailing_content() {
    assert_eq!(
        parse_dump_options("{} trailing"),
        Err(ParseError::TrailingContent)
    );
    assert_eq!(
        parse_dump_options("{\"strict_ordering\": false} x"),
        Err(ParseError::TrailingContent)
    );
}

#[test]
fn parse_error_messages_are_descriptive() {
    assert!(!ParseError::NotAnObject.message().is_empty());
    assert!(!ParseError::BadValue.message().is_empty());
}

#[test]
fn describe_reports_strict_ordering_only() {
    let mut o = defaults();
    assert_eq!(describe(o, ToggleChoice::StrictOrdering), Some(String::new()));
    o.strict_ordering = true;
    assert_eq!(
        describe(o, ToggleChoice::StrictOrdering),
        Some(String::from("+s"))
    );
    assert_eq!(describe(o, ToggleChoice::SortOrder), None);
    assert_eq!(describe(o, ToggleChoice::ExitCode), None);
}

#[test]
fn sort_default_and_env_override() {
    assert_eq!(ResultSort::default(), ResultSort::Rank);
    assert_eq!(ResultSort::from_env_setting(None), ResultSort::Rank);
    assert_eq!(ResultSort::from_env_setting(Some("RANK")), ResultSort::Rank);
    assert_eq!(
        ResultSort::from_env_setting(Some("LAST_RUN")),
        ResultSort::LastRun
    );
    assert_eq!(
        ResultSort::from_env_setting(Some("whatever")),
        ResultSort::Rank
    );
}

#[test]
fn toggle_then_persist_cycles_and_reloads() {
    // The end-to-end toggle flow without the file system: each step is
    // serialized and reloaded, as the toggle command persists it.
    let mut stored = serialize_dump_options(DumpOptions {
        exit_code: ExitCode::Success,
        ..defaults()
    });
    let expected = [ExitCode::Fail, ExitCode::Any, ExitCode::Success];
    for want in expected {
        let loaded = load_options(Some(&stored)).unwrap();
        let next = toggle(loaded, ToggleChoice::ExitCode);
        assert_eq!(next.exit_code, want);
        stored = serialize_dump_options(next);
    }
    assert_eq!(
        load_options(Some(&stored)).unwrap().exit_code,
        ExitCode::Success
    );
}
