//! Byte counts for people: scaled by powers of 1024 and written with two
//! decimal places and a unit.

use vstd::prelude::*;
use vstd::string::*;
use crate::estimate::{round_div, rounded_div};
use crate::text::{push_two_decimals, two_decimals};

verus! {

/// The index of the largest unit, `EiB`.
pub const TOP_UNIT: usize = 6;

/// How many bytes one of the unit with index `unit` holds: 1024 to the power
/// `unit`.
pub open spec fn unit_scale(unit: nat) -> nat
    decreases unit,
{
    if unit == 0 {
        1
    } else {
        1024 * unit_scale((unit - 1) as nat)
    }
}

/// The name of the unit with index `unit`.
pub open spec fn unit_name(unit: nat) -> Seq<char> {
    if unit == 0 {
        "B"@
    } else if unit == 1 {
        "KiB"@
    } else if unit == 2 {
        "MiB"@
    } else if unit == 3 {
        "GiB"@
    } else if unit == 4 {
        "TiB"@
    } else if unit == 5 {
        "PiB"@
    } else {
        "EiB"@
    }
}

/// Whether `unit` is the unit in which `size` is written: the first one in
/// which the count stays below 1024, or the top unit where there is none.
pub open spec fn is_unit_of(size: nat, unit: nat) -> bool {
    &&& unit <= TOP_UNIT
    &&& unit > 0 ==> unit_scale(unit) <= size
    &&& unit < TOP_UNIT ==> size < 1024 * unit_scale(unit)
}

/// The unit in which `size` is written.
pub open spec fn unit_of(size: nat) -> nat
    decreases size,
{
    if size < 1024 {
        0
    } else if 1 + unit_of(size / 1024) > TOP_UNIT {
        TOP_UNIT as nat
    } else {
        1 + unit_of(size / 1024)
    }
}

/// `size` in its unit, in hundredths and rounded to nearest, ties to even.
pub open spec fn scaled_hundredths(size: nat) -> nat {
    round_div(size * 100, unit_scale(unit_of(size)))
}

/// `size` as people read it: the count in its unit with two decimal places,
/// then the unit's name.
pub open spec fn size_text(size: nat) -> Seq<char> {
    two_decimals(scaled_hundredths(size)) + unit_name(unit_of(size))
}

/// Every size has exactly one unit, the one that `unit_of` gives: no larger
/// unit holds a whole one of it, and but for the top unit the count in it is
/// below 1024.
pub proof fn unit_of_is_unit(size: nat)
    ensures
        is_unit_of(size, unit_of(size)),
        forall|unit: nat| is_unit_of(size, unit) ==> unit == unit_of(size),
    decreases size,
{
    reveal_with_fuel(unit_scale, 8);
    if size >= 1024 {
        unit_of_is_unit(size / 1024);
        let below = unit_of(size / 1024);
        assert forall|unit: nat| is_unit_of(size, unit) implies unit == unit_of(size) by {
            if unit == TOP_UNIT && !is_unit_of(size / 1024, (unit - 1) as nat) {
                assert(below >= 5) by {
                    if below < 5 {
                        scale_grows(below + 1, 5);
                    }
                }
            }
        }
    } else {
        assert forall|unit: nat| is_unit_of(size, unit) implies unit == 0 by {
            if unit > 0 {
                scale_grows(1, unit);
            }
        }
    }
}

/// A larger unit holds more bytes.
pub proof fn scale_grows(a: nat, b: nat)
    requires
        a <= b,
    ensures
        unit_scale(a) <= unit_scale(b),
        unit_scale(a) > 0,
    decreases b,
{
    if a < b {
        scale_grows(a, (b - 1) as nat);
    } else if a > 0 {
        scale_grows((a - 1) as nat, (a - 1) as nat);
    }
}

/// The name of the unit with index `unit`.
pub fn unit_str(unit: usize) -> (s: &'static str)
    ensures
        s@ == unit_name(unit as nat),
{
    match unit {
        0 => "B",
        1 => "KiB",
        2 => "MiB",
        3 => "GiB",
        4 => "TiB",
        5 => "PiB",
        _ => "EiB",
    }
}

/// Finds the unit in which `size` is written, and how many bytes one of it
/// holds.
pub fn unit_for(size: u64) -> (r: (usize, u64))
    ensures
        r.0 == unit_of(size as nat),
        r.1 == unit_scale(r.0 as nat),
        r.1 > 0,
{
    let mut unit: usize = 0;
    let mut scale: u64 = 1;
    proof {
        reveal_with_fuel(unit_scale, 8);
        unit_of_is_unit(size as nat);
    }
    while unit < TOP_UNIT && size / scale >= 1024
        invariant
            unit <= TOP_UNIT,
            scale == unit_scale(unit as nat),
            scale <= size || unit == 0,
            scale > 0,
        decreases TOP_UNIT - unit,
    {
        proof {
            reveal_with_fuel(unit_scale, 8);
            assert(scale * 1024 <= size) by (nonlinear_arith)
                requires
                    size / scale >= 1024,
                    scale > 0,
            ;
        }
        scale = scale * 1024;
        unit = unit + 1;
    }
    proof {
        if unit < TOP_UNIT {
            assert(size < 1024 * scale) by (nonlinear_arith)
                requires
                    size / scale < 1024,
                    scale > 0,
            ;
        }
        unit_of_is_unit(size as nat);
    }
    (unit, scale)
}

/// Appends `size`, as people read it, to `out`.
pub fn push_size(out: &mut String, size: u64)
    ensures
        final(out)@ == old(out)@ + size_text(size as nat),
{
    let (unit, scale) = unit_for(size);
    let hundredths: u128 = rounded_div(size as u128 * 100, scale as u128);
    proof {
        hundredths_bound(size as nat);
    }
    push_two_decimals(out, hundredths as u64);
    out.append(unit_str(unit));
}

/// A count in its unit stays small: at most 1024, in hundredths, for a size
/// of 64 bits.
pub proof fn hundredths_bound(size: nat)
    requires
        size <= u64::MAX,
    ensures
        scaled_hundredths(size) <= 102400,
{
    unit_of_is_unit(size);
    reveal_with_fuel(unit_scale, 8);
    let unit = unit_of(size);
    let scale = unit_scale(unit);
    let n = size * 100;
    let q = n / scale;
    let r = n % scale;
    vstd::arithmetic::div_mod::lemma_fundamental_div_mod(n as int, scale as int);
    assert(q <= 102399) by (nonlinear_arith)
        requires
            size * 100 == scale * q + r,
            0 <= r < scale,
            size < 1024 * scale,
            0 <= q,
    ;
}

/// Writes a byte count as people read it.
pub fn format_size(size: u64) -> (s: String)
    ensures
        s@ == size_text(size as nat),
{
    let mut s = String::new();
    push_size(&mut s, size);
    s
}

} // verus!
