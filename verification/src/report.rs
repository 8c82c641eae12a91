//! Report formatting in verified code: decimal rendering of integers and of
//! fixed-point values with two or three fraction digits, and the report
//! lines the benchmark driver prints.
use vstd::prelude::*;

verus! {

/// The decimal digit character for `n` (`0` to `9`).
pub open spec fn dec_digit_char(n: int) -> char
    recommends
        0 <= n < 10,
{
    if n == 0 {
        '0'
    } else if n == 1 {
        '1'
    } else if n == 2 {
        '2'
    } else if n == 3 {
        '3'
    } else if n == 4 {
        '4'
    } else if n == 5 {
        '5'
    } else if n == 6 {
        '6'
    } else if n == 7 {
        '7'
    } else if n == 8 {
        '8'
    } else {
        '9'
    }
}

/// The decimal rendering of `n`, without leading zeros (a single zero for
/// zero itself).
pub open spec fn dec_str(n: nat) -> Seq<char>
    decreases n,
{
    if n < 10 {
        seq![dec_digit_char(n as int)]
    } else {
        dec_str(n / 10) + seq![dec_digit_char((n % 10) as int)]
    }
}

/// `centi`, a value in hundredths, rendered with two fraction digits.
pub open spec fn fixed2_str(centi: nat) -> Seq<char> {
    dec_str(centi / 100) + seq![
        '.',
        dec_digit_char((centi / 10 % 10) as int),
        dec_digit_char((centi % 10) as int),
    ]
}

/// `milli`, a value in thousandths, rendered with three fraction digits.
pub open spec fn fixed3_str(milli: nat) -> Seq<char> {
    dec_str(milli / 1000) + seq![
        '.',
        dec_digit_char((milli / 100 % 10) as int),
        dec_digit_char((milli / 10 % 10) as int),
        dec_digit_char((milli % 10) as int),
    ]
}

fn digit_str(d: u64) -> (t: &'static str)
    requires
        d < 10,
    ensures
        t@ == seq![dec_digit_char(d as int)],
{
    if d == 0 {
        proof {
            reveal_strlit("0");
        }
        "0"
    } else if d == 1 {
        proof {
            reveal_strlit("1");
        }
        "1"
    } else if d == 2 {
        proof {
            reveal_strlit("2");
        }
        "2"
    } else if d == 3 {
        proof {
            reveal_strlit("3");
        }
        "3"
    } else if d == 4 {
        proof {
            reveal_strlit("4");
        }
        "4"
    } else if d == 5 {
        proof {
            reveal_strlit("5");
        }
        "5"
    } else if d == 6 {
        proof {
            reveal_strlit("6");
        }
        "6"
    } else if d == 7 {
        proof {
            reveal_strlit("7");
        }
        "7"
    } else if d == 8 {
        proof {
            reveal_strlit("8");
        }
        "8"
    } else {
        proof {
            reveal_strlit("9");
        }
        "9"
    }
}

/// The decimal rendering of `n`.
pub fn u64_to_dec(n: u64) -> (s: String)
    ensures
        s@ == dec_str(n as nat),
    decreases n,
{
    if n < 10 {
        let mut s = String::new();
        s.append(digit_str(n));
        proof {
            assert(s@ =~= dec_str(n as nat));
        }
        s
    } else {
        let mut s = u64_to_dec(n / 10);
        s.append(digit_str(n % 10));
        proof {
            assert(s@ =~= dec_str(n as nat));
        }
        s
    }
}

/// `centi`, a value in hundredths, rendered with two fraction digits
/// (`1234` becomes `12.34`).
pub fn format_fixed2(centi: u64) -> (s: String)
    ensures
        s@ == fixed2_str(centi as nat),
{
    let mut s = u64_to_dec(centi / 100);
    proof {
        reveal_strlit(".");
    }
    s.append(".");
    s.append(digit_str(centi / 10 % 10));
    s.append(digit_str(centi % 10));
    proof {
        assert(s@ =~= fixed2_str(centi as nat));
    }
    s
}

/// `milli`, a value in thousandths, rendered with three fraction digits
/// (`1234` becomes `1.234`).
pub fn format_fixed3(milli: u64) -> (s: String)
    ensures
        s@ == fixed3_str(milli as nat),
{
    let mut s = u64_to_dec(milli / 1000);
    proof {
        reveal_strlit(".");
    }
    s.append(".");
    s.append(digit_str(milli / 100 % 10));
    s.append(digit_str(milli / 10 % 10));
    s.append(digit_str(milli % 10));
    proof {
        assert(s@ =~= fixed3_str(milli as nat));
    }
    s
}

/// One statistics line of the report: mean compression factor in hundredths,
/// mean elapsed time in milliseconds, mean compressed size in hundredths of
/// a megabyte.
pub open spec fn stats_line_str(factor_centi: nat, time_milli: nat, size_mb_centi: nat) -> Seq<
    char,
> {
    "Compression Factor: "@ + fixed2_str(factor_centi) + "x | Time: "@ + fixed3_str(time_milli)
        + "s | Avg Size: "@ + fixed2_str(size_mb_centi) + "MB"@
}

/// The statistics line of the report for one codec / level / shape
/// combination.
pub fn stats_line(factor_centi: u64, time_milli: u64, size_mb_centi: u64) -> (s: String)
    ensures
        s@ == stats_line_str(factor_centi as nat, time_milli as nat, size_mb_centi as nat),
{
    let mut s = String::new();
    s.append("Compression Factor: ");
    let factor = format_fixed2(factor_centi);
    s.append(factor.as_str());
    s.append("x | Time: ");
    let time = format_fixed3(time_milli);
    s.append(time.as_str());
    s.append("s | Avg Size: ");
    let size = format_fixed2(size_mb_centi);
    s.append(size.as_str());
    s.append("MB");
    proof {
        assert(s@ =~= stats_line_str(factor_centi as nat, time_milli as nat, size_mb_centi as nat));
    }
    s
}

} // verus!
