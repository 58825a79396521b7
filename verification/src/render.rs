//! Rendering of the benchmark's one output line.
//!
//! Everything here is ordinary decimal formatting, specified character by
//! character: a number renders as its decimal digits, a GFLOPS figure in
//! hundredths renders as an integer part, a dot and exactly two fractional
//! digits, and the result line glues the pieces into the documented
//! template. The elapsed time is already a string when it arrives here; the
//! clock that produced it lives outside the library.

use vstd::prelude::*;
use vstd::string::StringExecFns;
use crate::config::FlopsTest;
use crate::gflops::flops_of;
use crate::gflops::gflops_hundredths_of;
use crate::gflops::gflops_hundredths;
use crate::gflops::total_flops;

verus! {

/// The character of one decimal digit.
pub open spec fn digit_char(d: nat) -> char
    recommends
        d < 10,
{
    if d == 0 {
        '0'
    } else if d == 1 {
        '1'
    } else if d == 2 {
        '2'
    } else if d == 3 {
        '3'
    } else if d == 4 {
        '4'
    } else if d == 5 {
        '5'
    } else if d == 6 {
        '6'
    } else if d == 7 {
        '7'
    } else if d == 8 {
        '8'
    } else {
        '9'
    }
}

/// The decimal digits of `n`, most significant first, without leading
/// zeros (`0` renders as the single digit `0`).
pub open spec fn dec_chars(n: nat) -> Seq<char>
    decreases n,
{
    if n < 10 {
        seq![digit_char(n)]
    } else {
        dec_chars(n / 10).push(digit_char(n % 10))
    }
}

/// A GFLOPS figure given in hundredths, rendered with exactly two digits
/// after the dot: `200` renders as `2.00`, `5` as `0.05`.
pub open spec fn gflops_chars(hundredths: nat) -> Seq<char> {
    dec_chars(hundredths / 100) + seq!['.', digit_char(hundredths % 100 / 10), digit_char(
        hundredths % 10,
    )]
}

/// The one line the benchmark prints, from the matrix edge length, the
/// rendered elapsed time and the GFLOPS figure in hundredths.
pub open spec fn result_line_chars(size: nat, time: Seq<char>, hundredths: nat) -> Seq<char> {
    "Matrix size: "@ + dec_chars(size) + "x"@ + dec_chars(size) + ", Time: "@ + time
        + ", GFLOPS: "@ + gflops_chars(hundredths)
}

/// One decimal digit as a string slice.
fn digit_str(d: u128) -> (r: &'static str)
    requires
        d < 10,
    ensures
        r@ == seq![digit_char(d as nat)],
{
    proof {
        reveal_strlit("0");
        reveal_strlit("1");
        reveal_strlit("2");
        reveal_strlit("3");
        reveal_strlit("4");
        reveal_strlit("5");
        reveal_strlit("6");
        reveal_strlit("7");
        reveal_strlit("8");
        reveal_strlit("9");
    }
    let r: &'static str = if d == 0 {
        "0"
    } else if d == 1 {
        "1"
    } else if d == 2 {
        "2"
    } else if d == 3 {
        "3"
    } else if d == 4 {
        "4"
    } else if d == 5 {
        "5"
    } else if d == 6 {
        "6"
    } else if d == 7 {
        "7"
    } else if d == 8 {
        "8"
    } else {
        "9"
    };
    proof {
        assert(r@ =~= seq![digit_char(d as nat)]);
    }
    r
}

/// Appends the decimal digits of `n` to `out`, most significant first.
fn push_decimal(n: u128, out: &mut String)
    ensures
        final(out)@ == old(out)@ + dec_chars(n as nat),
    decreases n,
{
    if n >= 10 {
        push_decimal(n / 10, out);
    }
    out.append(digit_str(n % 10));
    proof {
        assert(out@ =~= old(out)@ + dec_chars(n as nat));
    }
}

/// Renders `n` in decimal, without leading zeros.
pub fn decimal_string(n: u128) -> (r: String)
    ensures
        r@ == dec_chars(n as nat),
{
    let mut out = String::new();
    push_decimal(n, &mut out);
    proof {
        assert(out@ =~= dec_chars(n as nat));
    }
    out
}

/// Renders a GFLOPS figure given in hundredths with two digits after the
/// dot.
pub fn format_gflops(hundredths: u128) -> (r: String)
    ensures
        r@ == gflops_chars(hundredths as nat),
{
    let mut out = decimal_string(hundredths / 100);
    out.append(".");
    out.append(digit_str(hundredths % 100 / 10));
    out.append(digit_str(hundredths % 10));
    proof {
        reveal_strlit(".");
        assert(out@ =~= gflops_chars(hundredths as nat));
    }
    out
}

/// Builds the result line of a run: the matrix size twice, the elapsed
/// time as handed in, and the GFLOPS figure to two decimal places.
pub fn result_line(matrix_size: usize, time: &str, hundredths: u128) -> (r: String)
    ensures
        r@ == result_line_chars(matrix_size as nat, time@, hundredths as nat),
{
    let mut out = String::from_str("Matrix size: ");
    push_decimal(matrix_size as u128, &mut out);
    out.append("x");
    push_decimal(matrix_size as u128, &mut out);
    out.append(", Time: ");
    out.append(time);
    out.append(", GFLOPS: ");
    let g = format_gflops(hundredths);
    out.append(g.as_str());
    proof {
        assert(out@ =~= result_line_chars(matrix_size as nat, time@, hundredths as nat));
    }
    out
}

/// The result line of one benchmark run: the configured size, the rendered
/// elapsed time, and the throughput of `elapsed_nanos` nanoseconds of work
/// to two decimal places. Returns `None` exactly where the figure escapes
/// 128-bit arithmetic.
pub fn benchmark_line(cfg: &FlopsTest, elapsed_nanos: u128, time: &str) -> (r: Option<String>)
    requires
        elapsed_nanos > 0,
    ensures
        r matches Some(line) ==> line@ == result_line_chars(
            cfg.matrix_size as nat,
            time@,
            gflops_hundredths_of(
                flops_of(cfg.matrix_size as nat, cfg.repeat_times as nat),
                elapsed_nanos as nat,
            ),
        ),
        r is Some <==> flops_of(cfg.matrix_size as nat, cfg.repeat_times as nat) * 100
            + elapsed_nanos / 2 <= u128::MAX,
{
    let flops = match total_flops(cfg.matrix_size, cfg.repeat_times) {
        Some(f) => f,
        None => {
            return None;
        },
    };
    let hundredths = match gflops_hundredths(flops, elapsed_nanos) {
        Some(h) => h,
        None => {
            return None;
        },
    };
    Some(result_line(cfg.matrix_size, time, hundredths))
}

} // verus!
