//! Ordering by a chosen direction, and sizes in human-readable units.
use vstd::prelude::*;

use crate::options::OrderBy;
use std::cmp::Ordering;
use vstd::std_specs::cmp::OrdSpec;

verus! {

/// `t1` against `t2` in ascending order, or `t2` against `t1` in descending order.
pub fn compare<T: Ord>(t1: T, t2: T, order_by: OrderBy) -> (r: Ordering)
    ensures
        T::obeys_cmp_spec() ==> r == match order_by {
            OrderBy::Asc => t1.cmp_spec(&t2),
            OrderBy::Desc => t2.cmp_spec(&t1),
        },
{
    let (a, b) = match order_by {
        OrderBy::Asc => (t1, t2),
        OrderBy::Desc => (t2, t1),
    };
    a.cmp(&b)
}

pub open spec fn pow1024(i: nat) -> nat
    decreases i,
{
    if i == 0 {
        1
    } else {
        1024 * pow1024((i - 1) as nat)
    }
}

/// The largest `j`, from `i` up to the last unit, with `1024^j <= b`.
pub open spec fn unit_from(b: nat, i: nat) -> nat
    decreases 8 - i,
{
    if i < 8 && pow1024(i + 1) <= b {
        unit_from(b, i + 1)
    } else {
        i
    }
}

/// The unit that `b` bytes are shown in: the largest power of 1024 that is
/// at most `b` (bytes themselves below 1024).
pub open spec fn unit_index(b: nat) -> nat {
    unit_from(b, 0)
}

pub open spec fn unit_name(i: nat) -> Seq<char> {
    seq!["B"@, "KB"@, "MB"@, "GB"@, "TB"@, "PB"@, "EB"@, "ZB"@, "YB"@][i as int]
}

/// `b / 1024^i` in hundredths, rounded to the nearest; halves go to the even one.
pub open spec fn hundredths(b: nat, i: nat) -> nat {
    let n = b * 100;
    let d = pow1024(i);
    let q = n / d;
    let r = n % d;
    if 2 * r > d || (2 * r == d && q % 2 == 1) {
        q + 1
    } else {
        q
    }
}

pub open spec fn digit(d: nat) -> char {
    ('0' as u32 + d) as char
}

/// The decimal digits of `n`, without leading zeros.
pub open spec fn decimal(n: nat) -> Seq<char>
    decreases n,
{
    if n < 10 {
        seq![digit(n)]
    } else {
        decimal(n / 10) + seq![digit(n % 10)]
    }
}

/// `b` bytes as a number with two decimals and a unit: `1.00 KB`.
pub open spec fn size_text(b: nat) -> Seq<char> {
    let i = unit_index(b);
    let h = hundredths(b, i);
    decimal(h / 100) + seq!['.', digit((h % 100) / 10), digit(h % 10), ' '] + unit_name(i)
}

fn digit_str(d: u128) -> (r: &'static str)
    requires
        d < 10,
    ensures
        r@ == seq![digit(d as nat)],
{
    match d {
        0 => {
            proof { reveal_strlit("0"); }
            "0"
        },
        1 => {
            proof { reveal_strlit("1"); }
            "1"
        },
        2 => {
            proof { reveal_strlit("2"); }
            "2"
        },
        3 => {
            proof { reveal_strlit("3"); }
            "3"
        },
        4 => {
            proof { reveal_strlit("4"); }
            "4"
        },
        5 => {
            proof { reveal_strlit("5"); }
            "5"
        },
        6 => {
            proof { reveal_strlit("6"); }
            "6"
        },
        7 => {
            proof { reveal_strlit("7"); }
            "7"
        },
        8 => {
            proof { reveal_strlit("8"); }
            "8"
        },
        _ => {
            proof { reveal_strlit("9"); }
            "9"
        },
    }
}

/// Appends the decimal digits of `n` to `out`.
fn push_decimal(out: &mut String, n: u128)
    ensures
        final(out)@ == old(out)@ + decimal(n as nat),
    decreases n,
{
    if n >= 10 {
        push_decimal(out, n / 10);
    }
    let ghost mid = out@;
    out.append(digit_str(n % 10));
    proof {
        if n >= 10 {
            assert(out@ =~= old(out)@ + decimal(n as nat));
        } else {
            assert(out@ =~= old(out)@ + decimal(n as nat));
        }
    }
}

/// The decimal digits of `n`.
pub fn decimal_string(n: u128) -> (r: String)
    ensures
        r@ == decimal(n as nat),
{
    let mut out = String::new();
    push_decimal(&mut out, n);
    out
}

/// `bytes` in the largest unit of 1024 that it reaches, with two decimals:
/// 1024 gives `1.00 KB`, 0 gives `0.00 B`.
pub fn bytes_to_size(bytes: u64) -> (r: String)
    ensures
        r@ == size_text(bytes as nat),
{
    let mut i: u128 = 0;
    let mut d: u128 = 1;
    let b = bytes as u128;
    while i < 8 && d * 1024 <= b
        invariant
            i <= 8,
            d == pow1024(i as nat),
            1 <= d,
            d <= b || i == 0,
            b == bytes,
            b <= u64::MAX,
            unit_index(b as nat) == unit_from(b as nat, i as nat),
        decreases 8 - i,
    {
        d = d * 1024;
        i = i + 1;
    }
    let n = b * 100;
    let q = n / d;
    let rem = n % d;
    let h = if 2 * rem > d || (2 * rem == d && q % 2 == 1) {
        q + 1
    } else {
        q
    };
    assert(h == hundredths(b as nat, i as nat));
    let mut out = String::new();
    push_decimal(&mut out, h / 100);
    out.append(".");
    out.append(digit_str((h % 100) / 10));
    out.append(digit_str(h % 10));
    out.append(" ");
    let unit = match i {
        0 => "B",
        1 => "KB",
        2 => "MB",
        3 => "GB",
        4 => "TB",
        5 => "PB",
        6 => "EB",
        7 => "ZB",
        _ => "YB",
    };
    out.append(unit);
    proof {
        reveal_strlit(".");
        reveal_strlit(" ");
        assert(out@ =~= size_text(bytes as nat));
    }
    out
}

} // verus!
