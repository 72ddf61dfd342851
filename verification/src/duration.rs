//! Compact relative-age formatting: an absolute past timestamp is rendered
//! as the two largest non-zero time units of the elapsed whole minutes, for
//! example "2h 15m" or "1y 1mo", and an age under one minute as "< 1m". The
//! current time is an explicit argument, so the function is pure.

use vstd::prelude::*;

verus! {

/// Seconds per year (365.25 days), month (30.44 days), day and hour, as the
/// unit decomposition uses them.
pub open spec fn spec_year_secs() -> int {
    31557600
}

/// See `spec_year_secs`.
pub open spec fn spec_month_secs() -> int {
    2630016
}

/// One decimal digit as a character.
pub open spec fn spec_digit(d: int) -> char {
    if d == 0 {
        '0'
    } else if d == 1 {
        '1'
    } else if d == 2 {
        '2'
    } else if d == 3 {
        '3'
    } else if d == 4 {
        '4'
    } else if d == 5 {
        '5'
    } else if d == 6 {
        '6'
    } else if d == 7 {
        '7'
    } else if d == 8 {
        '8'
    } else {
        '9'
    }
}

/// The decimal representation of a non-negative integer, most significant
/// digit first.
pub open spec fn spec_dec(n: nat) -> Seq<char>
    decreases n,
{
    if n < 10 {
        seq![spec_digit(n as int)]
    } else {
        spec_dec(n / 10).push(spec_digit((n % 10) as int))
    }
}

/// Whole years in an elapsed time of `secs` seconds.
pub open spec fn spec_years(secs: int) -> int {
    secs / spec_year_secs()
}

/// Whole months beyond the whole years.
pub open spec fn spec_months(secs: int) -> int {
    (secs % spec_year_secs()) / spec_month_secs()
}

/// Whole days beyond the whole months.
pub open spec fn spec_days(secs: int) -> int {
    ((secs % spec_year_secs()) % spec_month_secs()) / 86400
}

/// Whole hours beyond the whole days.
pub open spec fn spec_hours(secs: int) -> int {
    (((secs % spec_year_secs()) % spec_month_secs()) % 86400) / 3600
}

/// Whole minutes beyond the whole hours.
pub open spec fn spec_minutes(secs: int) -> int {
    ((((secs % spec_year_secs()) % spec_month_secs()) % 86400) % 3600) / 60
}

/// The non-zero unit tokens of an elapsed time, largest unit first: a count
/// followed by its unit code y, mo, d, h or m.
pub open spec fn spec_age_tokens(secs: int) -> Seq<Seq<char>> {
    (if spec_years(secs) > 0 {
        seq![spec_dec(spec_years(secs) as nat) + "y"@]
    } else {
        Seq::<Seq<char>>::empty()
    }) + (if spec_months(secs) > 0 {
        seq![spec_dec(spec_months(secs) as nat) + "mo"@]
    } else {
        Seq::<Seq<char>>::empty()
    }) + (if spec_days(secs) > 0 {
        seq![spec_dec(spec_days(secs) as nat) + "d"@]
    } else {
        Seq::<Seq<char>>::empty()
    }) + (if spec_hours(secs) > 0 {
        seq![spec_dec(spec_hours(secs) as nat) + "h"@]
    } else {
        Seq::<Seq<char>>::empty()
    }) + (if spec_minutes(secs) > 0 {
        seq![spec_dec(spec_minutes(secs) as nat) + "m"@]
    } else {
        Seq::<Seq<char>>::empty()
    })
}

/// The rendered age for an elapsed time of whole minutes: "< 1m" when no
/// whole minute has passed, otherwise the first two unit tokens (or the only
/// one) joined by a single space. At most two units ever appear.
pub open spec fn spec_format_age(mins: int) -> Seq<char> {
    if mins <= 0 {
        "< 1m"@
    } else {
        let toks = spec_age_tokens(mins * 60);
        if toks.len() == 1 {
            toks[0]
        } else {
            toks[0] + " "@ + toks[1]
        }
    }
}

/// One decimal digit rendered as text.
fn digit_str(d: u64) -> (r: &'static str)
    requires
        d < 10,
    ensures
        r@ == seq![spec_digit(d as int)],
{
    if d == 0 {
        proof {
            reveal_strlit("0");
        }
        let r = "0";
        assert(r@ =~= seq![spec_digit(d as int)]);
        r
    } else if d == 1 {
        proof {
            reveal_strlit("1");
        }
        let r = "1";
        assert(r@ =~= seq![spec_digit(d as int)]);
        r
    } else if d == 2 {
        proof {
            reveal_strlit("2");
        }
        let r = "2";
        assert(r@ =~= seq![spec_digit(d as int)]);
        r
    } else if d == 3 {
        proof {
            reveal_strlit("3");
        }
        let r = "3";
        assert(r@ =~= seq![spec_digit(d as int)]);
        r
    } else if d == 4 {
        proof {
            reveal_strlit("4");
        }
        let r = "4";
        assert(r@ =~= seq![spec_digit(d as int)]);
        r
    } else if d == 5 {
        proof {
            reveal_strlit("5");
        }
        let r = "5";
        assert(r@ =~= seq![spec_digit(d as int)]);
        r
    } else if d == 6 {
        proof {
            reveal_strlit("6");
        }
        let r = "6";
        assert(r@ =~= seq![spec_digit(d as int)]);
        r
    } else if d == 7 {
        proof {
            reveal_strlit("7");
        }
        let r = "7";
        assert(r@ =~= seq![spec_digit(d as int)]);
        r
    } else if d == 8 {
        proof {
            reveal_strlit("8");
        }
        let r = "8";
        assert(r@ =~= seq![spec_digit(d as int)]);
        r
    } else {
        proof {
            reveal_strlit("9");
        }
        let r = "9";
        assert(r@ =~= seq![spec_digit(d as int)]);
        r
    }
}

/// Renders a non-negative integer in decimal.
pub fn u64_to_string(n: u64) -> (r: String)
    ensures
        r@ == spec_dec(n as nat),
    decreases n,
{
    if n < 10 {
        digit_str(n).to_owned()
    } else {
        let mut s = u64_to_string(n / 10);
        s.append(digit_str(n % 10));
        assert(s@ =~= spec_dec(n as nat));
        s
    }
}

/// Renders a unit count followed by its unit code.
fn unit_token(count: u64, unit: &str) -> (r: String)
    ensures
        r@ == spec_dec(count as nat) + unit@,
{
    let mut s = u64_to_string(count);
    s.append(unit);
    s
}

/// Renders an absolute past timestamp as a compact age relative to `now`
/// (both in epoch seconds): the elapsed whole minutes decomposed into years,
/// months, days, hours and minutes, with the largest two non-zero units
/// shown, or "< 1m" when not a whole minute has passed.
#[verifier::rlimit(30)]
pub fn format_time_since(last_run: i64, now: i64) -> (r: String)
    requires
        last_run <= now,
        now - last_run <= i64::MAX,
    ensures
        r@ == spec_format_age((now - last_run) / 60),
{
    let elapsed: i64 = now - last_run;
    let mins_i: i64 = elapsed / 60;
    let mins: u64 = mins_i as u64;
    if mins == 0 {
        proof {
            reveal_strlit("< 1m");
        }
        return "< 1m".to_owned();
    }
    proof {
        vstd::arithmetic::div_mod::lemma_fundamental_div_mod(elapsed as int, 60);
    }
    let secs: u64 = mins * 60;
    let years: u64 = secs / 31557600;
    let yrem: u64 = secs % 31557600;
    let months: u64 = yrem / 2630016;
    let mrem: u64 = yrem % 2630016;
    let days: u64 = mrem / 86400;
    let drem: u64 = mrem % 86400;
    let hours: u64 = drem / 3600;
    let minutes: u64 = (drem % 3600) / 60;
    let ghost toks = spec_age_tokens(secs as int);
    let first: String;
    let second: Option<String>;
    if years > 0 {
        first = unit_token(years, "y");
        second = if months > 0 {
            Some(unit_token(months, "mo"))
        } else if days > 0 {
            Some(unit_token(days, "d"))
        } else if hours > 0 {
            Some(unit_token(hours, "h"))
        } else if minutes > 0 {
            Some(unit_token(minutes, "m"))
        } else {
            None
        };
    } else if months > 0 {
        first = unit_token(months, "mo");
        second = if days > 0 {
            Some(unit_token(days, "d"))
        } else if hours > 0 {
            Some(unit_token(hours, "h"))
        } else if minutes > 0 {
            Some(unit_token(minutes, "m"))
        } else {
            None
        };
    } else if days > 0 {
        first = unit_token(days, "d");
        second = if hours > 0 {
            Some(unit_token(hours, "h"))
        } else if minutes > 0 {
            Some(unit_token(minutes, "m"))
        } else {
            None
        };
    } else if hours > 0 {
        first = unit_token(hours, "h");
        second = if minutes > 0 {
            Some(unit_token(minutes, "m"))
        } else {
            None
        };
    } else {
        proof {
            assert(minutes > 0);
        }
        first = unit_token(minutes, "m");
        second = None;
    }
    match second {
        None => {
            assert(toks.len() == 1 && first@ == toks[0]);
            first
        },
        Some(s2) => {
            assert(toks.len() >= 2 && first@ == toks[0] && s2@ == toks[1]);
            let mut out = first;
            out.append(" ");
            out.append(s2.as_str());
            assert(out@ =~= toks[0] + " "@ + toks[1]);
            out
        },
    }
}

} // verus!
