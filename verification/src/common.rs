//! Small shared helpers: rendering a duration for display and turning a
//! step power level into the watt value commanded to the trainer.
//!
//! Power levels are fractions of the athlete's FTP base.  Both the FTP base
//! (in watts) and power levels are carried as integers in hundredths, so a
//! power level of `1.5 x FTP` is stored as `150` and an FTP of `200 W` as
//! `20000`.

use vstd::prelude::*;

verus! {

/// The decimal digit character for `d` in `0 ..= 9`.
pub open spec fn spec_digit(d: int) -> char {
    if d == 0 {
        '0'
    } else if d == 1 {
        '1'
    } else if d == 2 {
        '2'
    } else if d == 3 {
        '3'
    } else if d == 4 {
        '4'
    } else if d == 5 {
        '5'
    } else if d == 6 {
        '6'
    } else if d == 7 {
        '7'
    } else if d == 8 {
        '8'
    } else {
        '9'
    }
}

/// Decimal rendering of a non-negative number, most significant digit first.
pub open spec fn spec_dec(n: int) -> Seq<char>
    decreases n,
{
    if n < 10 {
        seq![spec_digit(n)]
    } else {
        spec_dec(n / 10).push(spec_digit(n % 10))
    }
}

/// `"<h>h <m>m <s>s"` with the hour part present only when there are hours
/// and the minute part present only when there are minutes.
pub open spec fn spec_duration_text(secs: int) -> Seq<char> {
    let hours = secs / 3600;
    let rem = secs % 3600;
    let mins = rem / 60;
    let s = rem % 60;
    let hour_part: Seq<char> = if hours > 0 {
        spec_dec(hours) + seq!['h', ' ']
    } else {
        Seq::empty()
    };
    let minute_part: Seq<char> = if mins > 0 {
        spec_dec(mins) + seq!['m', ' ']
    } else {
        Seq::empty()
    };
    hour_part + minute_part + spec_dec(s) + seq!['s']
}

/// One-character string for a decimal digit.
fn digit_str(d: u8) -> (r: &'static str)
    requires
        d < 10,
    ensures
        r@ == seq![spec_digit(d as int)],
{
    proof {
        reveal_strlit("0");
        reveal_strlit("1");
        reveal_strlit("2");
        reveal_strlit("3");
        reveal_strlit("4");
        reveal_strlit("5");
        reveal_strlit("6");
        reveal_strlit("7");
        reveal_strlit("8");
        reveal_strlit("9");
    }
    if d == 0 {
        "0"
    } else if d == 1 {
        "1"
    } else if d == 2 {
        "2"
    } else if d == 3 {
        "3"
    } else if d == 4 {
        "4"
    } else if d == 5 {
        "5"
    } else if d == 6 {
        "6"
    } else if d == 7 {
        "7"
    } else if d == 8 {
        "8"
    } else {
        "9"
    }
}

/// Decimal rendering of `n`, most significant digit first.
pub fn decimal_string(n: u64) -> (s: String)
    ensures
        s@ == spec_dec(n as int),
    decreases n,
{
    if n < 10 {
        String::from_str(digit_str(n as u8))
    } else {
        let mut s = decimal_string(n / 10);
        s.append(digit_str((n % 10) as u8));
        proof {
            assert(s@ =~= spec_dec(n as int));
        }
        s
    }
}

/// Render a duration given in seconds as `"1h 2m 3s"`, omitting the hour
/// part when there are no hours and the minute part when there are no
/// minutes.
pub fn duration_to_string(secs: u64) -> (res: String)
    ensures
        res@ == spec_duration_text(secs as int),
{
    proof {
        reveal_strlit("h ");
        reveal_strlit("m ");
        reveal_strlit("s");
    }
    let hours = secs / 3600;
    let rem = secs % 3600;
    let mins = rem / 60;
    let s = rem % 60;

    let mut res = String::new();
    if hours > 0 {
        let h_digits = decimal_string(hours);
        res.append(h_digits.as_str());
        res.append("h ");
    }
    if mins > 0 {
        let m_digits = decimal_string(mins);
        res.append(m_digits.as_str());
        res.append("m ");
    }
    let s_digits = decimal_string(s);
    res.append(s_digits.as_str());
    res.append("s");
    proof {
        assert(res@ =~= spec_duration_text(secs as int));
    }
    res
}

/// The watts to command for a power level: `round(ftp * level)` over the
/// hundredths representation, clamped to the range of `i16`.
pub open spec fn spec_get_power(ftp_base: int, power_level: int) -> int {
    let w = (ftp_base * power_level + 5000) / 10000;
    if w > i16::MAX {
        i16::MAX as int
    } else {
        w
    }
}

/// Watt value for a power level against an FTP base, both in hundredths;
/// the product is rounded to the nearest watt and saturates at `i16::MAX`.
pub fn get_power(ftp_base: u32, power_level: u32) -> (watts: i16)
    ensures
        watts == spec_get_power(ftp_base as int, power_level as int),
{
    proof {
        assert((ftp_base as int) * (power_level as int) <= 0xffff_ffff * 0xffff_ffff)
            by (nonlinear_arith)
            requires
                0 <= ftp_base as int <= 0xffff_ffff,
                0 <= power_level as int <= 0xffff_ffff,
        ;
    }
    let p: u128 = (ftp_base as u128) * (power_level as u128);
    let w: u128 = (p + 5000) / 10000;
    if w > 32767 {
        32767
    } else {
        w as i16
    }
}

} // verus!
