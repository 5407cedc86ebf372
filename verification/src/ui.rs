//! What the terminal shows.
use vstd::prelude::*;

use crate::text::{decimal, decimal_string};

verus! {

broadcast use vstd::string::group_string_axioms;

/// `n / d`, rounded to the nearest integer, and to the even one of two that are equally near.
pub open spec fn half_even(n: int, d: int) -> int {
    let q = n / d;
    let r = n % d;
    if 2 * r < d || (2 * r == d && q % 2 == 0) {
        q
    } else {
        q + 1
    }
}

/// The number of values that 53 binary digits can tell apart.
pub const MANTISSA: u128 = 9007199254740992;

/// The distance between neighbouring double-precision numbers around `n`: the smallest power of
/// two from `step` on that leaves 53 binary digits.
pub open spec fn precision(n: int, step: int) -> int
    decreases n / step,
{
    if step <= 0 || n / step < MANTISSA {
        step
    } else {
        proof {
            assert(0 <= n / (2 * step) < n / step) by (nonlinear_arith)
                requires
                    step > 0,
                    n / step >= 9007199254740992,
            ;
        }
        precision(n, 2 * step)
    }
}

/// The double-precision number that is nearest to `n`, with ties to even.
pub open spec fn as_double(n: int) -> int {
    half_even(n, precision(n, 1)) * precision(n, 1)
}

/// The unit that a number of bytes is shown in: bytes, and then KiB to TiB.
pub open spec fn unit_of(value: int) -> int {
    if value < 1024 {
        0
    } else if value < 1048576 {
        1
    } else if value < 1073741824 {
        2
    } else if value < 1099511627776 {
        3
    } else {
        4
    }
}

/// The number of bytes in a unit.
pub open spec fn unit_size(unit: int) -> int {
    if unit == 1 {
        1024
    } else if unit == 2 {
        1048576
    } else if unit == 3 {
        1073741824
    } else {
        1099511627776
    }
}

/// The name of a unit.
pub open spec fn unit_name(unit: int) -> Seq<char> {
    if unit == 1 {
        "KiB"@
    } else if unit == 2 {
        "MiB"@
    } else if unit == 3 {
        "GiB"@
    } else {
        "TiB"@
    }
}

/// A byte count as people read it: whole bytes, or tenths of the largest unit that fits, as
/// double-precision arithmetic gives them.
pub open spec fn human_text(bytes: int) -> Seq<char> {
    let value = as_double(bytes);
    let unit = unit_of(value);
    if unit == 0 {
        decimal(bytes as nat) + " B"@
    } else {
        let tenths = half_even(10 * value, unit_size(unit));
        decimal((tenths / 10) as nat) + "."@ + decimal((tenths % 10) as nat) + " "@ + unit_name(
            unit,
        )
    }
}

fn round_half_even(n: u128, d: u128) -> (q: u128)
    requires
        0 < d <= 0x1_0000_0000_0000,
        n <= 0x1_0000_0000_0000_0000_0000,
    ensures
        q == half_even(n as int, d as int),
        q <= n / d + 1,
{
    let q: u128 = n / d;
    let r: u128 = n % d;
    if 2 * r < d || (2 * r == d && q % 2 == 0) {
        q
    } else {
        q + 1
    }
}

proof fn below_precision(n: int)
    requires
        0 <= n < MANTISSA,
    ensures
        as_double(n) == n,
{
    assert(n / 1 == n && n % 1 == 0);
    assert(precision(n, 1) == 1);
    assert(half_even(n, 1) == n);
}

/// A byte count as people read it: `512 B`, `1.2 MiB`, `3.0 GiB`.
pub fn human_bytes(bytes: u64) -> (text: String)
    ensures
        text@ == human_text(bytes as int),
{
    let n: u128 = bytes as u128;
    let mut step: u128 = 1;
    assert(n / 1 == n);
    while n / step >= MANTISSA
        invariant
            n == bytes,
            n <= 0xffff_ffff_ffff_ffff,
            1 <= step <= 4096,
            precision(n as int, 1) == precision(n as int, step as int),
        decreases n / step,
    {
        assert(step <= 2048) by (nonlinear_arith)
            requires
                n / step >= 9007199254740992,
                n <= 0xffff_ffff_ffff_ffff,
                step >= 1,
        ;
        assert(n as int / (2 * step as int) < n as int / step as int) by (nonlinear_arith)
            requires
                step >= 1,
                n as int / step as int >= 9007199254740992,
        ;
        step = 2 * step;
    }
    let rounded: u128 = round_half_even(n, step);
    assert(rounded * step <= n + step) by (nonlinear_arith)
        requires
            rounded <= n / step + 1,
            step >= 1,
    ;
    let value: u128 = rounded * step;
    let unit: u8 = if value < 1024 {
        0
    } else if value < 1048576 {
        1
    } else if value < 1073741824 {
        2
    } else if value < 1099511627776 {
        3
    } else {
        4
    };
    assert(unit == unit_of(value as int));
    if unit == 0 {
        let mut text = decimal_string(bytes);
        text.append(" B");
        return text;
    }
    let (size, name): (u128, &'static str) = if unit == 1 {
        (1024, "KiB")
    } else if unit == 2 {
        (1048576, "MiB")
    } else if unit == 3 {
        (1073741824, "GiB")
    } else {
        (1099511627776, "TiB")
    };
    let tenths: u128 = round_half_even(10 * value, size);
    assert(tenths <= 0xffff_ffff_ffff_ffff) by {
        assert(10 * value / 1024 <= 0x3fff_ffff_ffff_ffff);
        assert(tenths <= 10 * value / (size as int) + 1);
        assert(10 * value / (size as int) <= 10 * value / 1024) by (nonlinear_arith)
            requires
                size >= 1024,
        ;
    }
    let mut text = decimal_string((tenths / 10) as u64);
    text.append(".");
    text.append(decimal_string((tenths % 10) as u64).as_str());
    text.append(" ");
    text.append(name);
    text
}

/// Counts that double precision holds exactly, which is everything below eight pebibytes, are
/// shown from their own value.
pub proof fn small_counts_are_exact(bytes: int)
    requires
        0 <= bytes < MANTISSA,
    ensures
        as_double(bytes) == bytes,
{
    below_precision(bytes);
}

/// The line that shows the pairing code.
pub open spec fn code_line(code: Seq<char>, terminal: bool) -> Seq<char> {
    if terminal {
        "\x1b[1;33m配对码 / Pairing code: "@ + code + "\x1b[0m"@
    } else {
        "配对码 / Pairing code: "@ + code
    }
}

/// The line that shows the pairing code: bold yellow on a terminal, plain otherwise.
pub fn show_code(code: &str, terminal: bool) -> (line: String)
    ensures
        line@ == code_line(code@, terminal),
{
    if terminal {
        "\x1b[1;33m配对码 / Pairing code: ".to_owned().concat(code).concat("\x1b[0m")
    } else {
        "配对码 / Pairing code: ".to_owned().concat(code)
    }
}

} // verus!
