//! Rendering of a wall-clock reading as an RFC 1123 date for the `Date`
//! header. The signer takes the rendered date as an opaque argument, so
//! tests inject a fixed clock; the worker loop renders the real one
//! through this module. Out-of-range intermediate values saturate
//! instead of wrapping, so no reading can make the rendering panic.

use vstd::prelude::*;

verus! {

/// Saturating subtraction on the ghost side.
pub open spec fn sat_sub(a: int, b: int) -> int {
    if b <= a {
        a - b
    } else {
        0
    }
}

/// The decimal digit character for `d` in `0 ..= 9`.
pub open spec fn digit_char(d: int) -> char {
    if d == 0 {
        '0'
    } else if d == 1 {
        '1'
    } else if d == 2 {
        '2'
    } else if d == 3 {
        '3'
    } else if d == 4 {
        '4'
    } else if d == 5 {
        '5'
    } else if d == 6 {
        '6'
    } else if d == 7 {
        '7'
    } else if d == 8 {
        '8'
    } else {
        '9'
    }
}

/// `n` rendered as exactly two decimal digits, modulo 100.
pub open spec fn two_digit_text(n: int) -> Seq<char> {
    seq![digit_char((n / 10) % 10), digit_char(n % 10)]
}

/// `n` rendered as exactly four decimal digits, modulo 10000.
pub open spec fn four_digit_text(n: int) -> Seq<char> {
    seq![
        digit_char((n / 1000) % 10),
        digit_char((n / 100) % 10),
        digit_char((n / 10) % 10),
        digit_char(n % 10),
    ]
}

/// The weekday abbreviation for a day count since the Unix epoch,
/// which began on a Thursday.
pub open spec fn day_name_text(dow: int) -> Seq<char> {
    if dow == 0 {
        "Thu"@
    } else if dow == 1 {
        "Fri"@
    } else if dow == 2 {
        "Sat"@
    } else if dow == 3 {
        "Sun"@
    } else if dow == 4 {
        "Mon"@
    } else if dow == 5 {
        "Tue"@
    } else {
        "Wed"@
    }
}

/// The month abbreviation for `m` in `1 ..= 12`.
pub open spec fn month_name_text(m: int) -> Seq<char> {
    if m == 2 {
        "Feb"@
    } else if m == 3 {
        "Mar"@
    } else if m == 4 {
        "Apr"@
    } else if m == 5 {
        "May"@
    } else if m == 6 {
        "Jun"@
    } else if m == 7 {
        "Jul"@
    } else if m == 8 {
        "Aug"@
    } else if m == 9 {
        "Sep"@
    } else if m == 10 {
        "Oct"@
    } else if m == 11 {
        "Nov"@
    } else if m == 12 {
        "Dec"@
    } else {
        "Jan"@
    }
}

/// The civil date of a day count since the Unix epoch, as
/// (year, month, day), by era-based Gregorian arithmetic over
/// 400-year cycles of 146097 days.
pub open spec fn civil_of_days(days: int) -> (int, int, int) {
    let z = days + 719468;
    let era = z / 146097;
    let doe = sat_sub(z, era * 146097);
    let num = sat_sub(doe + doe / 36524, doe / 1460 + doe / 146096);
    let yoe = if num / 365 > 399 {
        399
    } else {
        num / 365
    };
    let doy = sat_sub(doe, 365 * yoe + yoe / 4 - yoe / 100);
    let mp = if (5 * doy + 2) / 153 > 11 {
        11
    } else {
        (5 * doy + 2) / 153
    };
    let d = sat_sub(doy, (153 * mp + 2) / 5) + 1;
    let m = if mp < 10 {
        mp + 3
    } else {
        mp - 9
    };
    let y = if m <= 2 {
        yoe + era * 400 + 1
    } else {
        yoe + era * 400
    };
    (y, m, d)
}

/// The full RFC 1123 rendering of a reading in seconds since the epoch:
/// `Thu, 01 Jan 1970 00:00:00 GMT`.
pub open spec fn http_date_text(secs: u64) -> Seq<char> {
    let days = secs as int / 86400;
    let rem = secs as int % 86400;
    let (y, m, d) = civil_of_days(days);
    day_name_text(days % 7) + ", "@ + two_digit_text(d) + " "@ + month_name_text(m) + " "@
        + four_digit_text(y) + " "@ + two_digit_text(rem / 3600) + ":"@ + two_digit_text(
        (rem / 60) % 60,
    ) + ":"@ + two_digit_text(rem % 60) + " GMT"@
}

/// One decimal digit as a string.
fn digit_str(d: u64) -> (r: &'static str)
    requires
        d < 10,
    ensures
        r@ == seq![digit_char(d as int)],
{
    proof {
        reveal_strlit("0");
        reveal_strlit("1");
        reveal_strlit("2");
        reveal_strlit("3");
        reveal_strlit("4");
        reveal_strlit("5");
        reveal_strlit("6");
        reveal_strlit("7");
        reveal_strlit("8");
        reveal_strlit("9");
    }
    let r = match d {
        0 => "0",
        1 => "1",
        2 => "2",
        3 => "3",
        4 => "4",
        5 => "5",
        6 => "6",
        7 => "7",
        8 => "8",
        _ => "9",
    };
    proof {
        assert(r@ =~= seq![digit_char(d as int)]);
    }
    r
}

/// Appends `n` modulo 100 as two decimal digits.
fn push_two_digits(out: &mut String, n: u64)
    ensures
        final(out)@ == old(out)@ + two_digit_text(n as int),
{
    out.append(digit_str((n / 10) % 10));
    out.append(digit_str(n % 10));
    proof {
        assert(final(out)@ =~= old(out)@ + two_digit_text(n as int));
    }
}

/// Appends `n` modulo 10000 as four decimal digits.
fn push_four_digits(out: &mut String, n: u64)
    ensures
        final(out)@ == old(out)@ + four_digit_text(n as int),
{
    out.append(digit_str((n / 1000) % 10));
    out.append(digit_str((n / 100) % 10));
    out.append(digit_str((n / 10) % 10));
    out.append(digit_str(n % 10));
    proof {
        assert(final(out)@ =~= old(out)@ + four_digit_text(n as int));
    }
}

/// Renders a clock reading, in seconds since the Unix epoch, as the
/// RFC 1123 date line the `Date` header carries.
pub fn http_date(secs: u64) -> (r: String)
    ensures
        r@ == http_date_text(secs),
{
    let days = secs / 86400;
    let rem = secs % 86400;
    let z = days + 719468;
    let era = z / 146097;
    let scaled = era * 146097;
    let doe = if scaled <= z {
        z - scaled
    } else {
        0
    };
    let gains = doe + doe / 36524;
    let losses = doe / 1460 + doe / 146096;
    let num = if losses <= gains {
        gains - losses
    } else {
        0
    };
    let yoe = if num / 365 > 399 {
        399
    } else {
        num / 365
    };
    let year_start = 365 * yoe + yoe / 4 - yoe / 100;
    let doy = if year_start <= doe {
        doe - year_start
    } else {
        0
    };
    let mp = if (5 * doy + 2) / 153 > 11 {
        11
    } else {
        (5 * doy + 2) / 153
    };
    let month_start = (153 * mp + 2) / 5;
    let d = if month_start <= doy {
        doy - month_start + 1
    } else {
        1
    };
    let m = if mp < 10 {
        mp + 3
    } else {
        mp - 9
    };
    let y = if m <= 2 {
        yoe + era * 400 + 1
    } else {
        yoe + era * 400
    };
    let mut out = match days % 7 {
        0 => String::from_str("Thu"),
        1 => String::from_str("Fri"),
        2 => String::from_str("Sat"),
        3 => String::from_str("Sun"),
        4 => String::from_str("Mon"),
        5 => String::from_str("Tue"),
        _ => String::from_str("Wed"),
    };
    out.append(", ");
    push_two_digits(&mut out, d);
    out.append(" ");
    match m {
        2 => out.append("Feb"),
        3 => out.append("Mar"),
        4 => out.append("Apr"),
        5 => out.append("May"),
        6 => out.append("Jun"),
        7 => out.append("Jul"),
        8 => out.append("Aug"),
        9 => out.append("Sep"),
        10 => out.append("Oct"),
        11 => out.append("Nov"),
        12 => out.append("Dec"),
        _ => out.append("Jan"),
    }
    out.append(" ");
    push_four_digits(&mut out, y);
    out.append(" ");
    push_two_digits(&mut out, rem / 3600);
    out.append(":");
    push_two_digits(&mut out, (rem / 60) % 60);
    out.append(":");
    push_two_digits(&mut out, rem % 60);
    out.append(" GMT");
    proof {
        assert(out@ =~= http_date_text(secs));
    }
    out
}

} // verus!
