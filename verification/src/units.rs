//! Quantities as people read them: byte counts, durations, percentages.

use vstd::prelude::*;
use vstd::string::*;
use crate::text::{decimal, push_decimal};

verus! {

/// Bytes in a kibibyte.
pub const KB: u64 = 1024;

/// Bytes in a mebibyte.
pub const MB: u64 = 1048576;

/// Bytes in a gibibyte.
pub const GB: u64 = 1073741824;

/// `amount / unit` in tenths, rounded to the nearest tenth; a value exactly
/// between two tenths goes to the even one.
pub open spec fn rounded_tenths(amount: nat, unit: nat) -> nat
    recommends
        unit > 0,
{
    let scaled = amount * 10;
    let whole = scaled / unit;
    let rest = scaled % unit;
    if 2 * rest > unit || (2 * rest == unit && whole % 2 == 1) {
        whole + 1
    } else {
        whole
    }
}

/// `amount / unit` with one decimal place.
pub open spec fn one_decimal(amount: nat, unit: nat) -> Seq<char> {
    let tenths = rounded_tenths(amount, unit);
    decimal(tenths / 10) + "."@ + decimal(tenths % 10)
}

/// A byte count in the largest binary unit that it reaches, with one decimal
/// place; below a kibibyte, the plain count.
pub open spec fn bytes_text(bytes: nat) -> Seq<char> {
    if bytes >= GB {
        one_decimal(bytes, GB as nat) + " GB"@
    } else if bytes >= MB {
        one_decimal(bytes, MB as nat) + " MB"@
    } else if bytes >= KB {
        one_decimal(bytes, KB as nat) + " KB"@
    } else {
        decimal(bytes) + " B"@
    }
}

/// A duration in its two largest units: seconds below a minute; minutes and
/// seconds below an hour; hours and minutes from there. A second unit that
/// would be zero is left out.
pub open spec fn duration_text(seconds: nat) -> Seq<char> {
    if seconds < 60 {
        decimal(seconds) + "s"@
    } else if seconds < 3600 {
        if seconds % 60 == 0 {
            decimal(seconds / 60) + "m"@
        } else {
            decimal(seconds / 60) + "m "@ + decimal(seconds % 60) + "s"@
        }
    } else {
        if (seconds % 3600) / 60 == 0 {
            decimal(seconds / 3600) + "h"@
        } else {
            decimal(seconds / 3600) + "h "@ + decimal((seconds % 3600) / 60) + "m"@
        }
    }
}

/// The share of `part` in `whole` in percent, rounded down; zero when
/// `whole` is zero.
pub open spec fn percent_floor(part: nat, whole: nat) -> nat {
    if whole == 0 {
        0
    } else {
        (part * 100) / whole
    }
}

/// The share of `part` in `whole` in percent, rounded to the nearest whole
/// number, halves upwards; zero when `whole` is zero.
pub open spec fn percent_nearest(part: nat, whole: nat) -> nat {
    if whole == 0 {
        0
    } else {
        (part * 200 + whole) / (2 * whole)
    }
}

/// The space in use on a filesystem: what is not available of the total,
/// and nothing where more is reported available than there is.
pub open spec fn used_space(total: nat, available: nat) -> nat {
    if available >= total {
        0
    } else {
        (total - available) as nat
    }
}

/// The usage of a filesystem in percent.
pub open spec fn usage_percent(total: nat, available: nat) -> nat {
    percent_nearest(used_space(total, available), total)
}

/// Computes [`rounded_tenths`].
pub fn tenths(amount: u64, unit: u64) -> (t: u64)
    requires
        unit >= 10,
    ensures
        t == rounded_tenths(amount as nat, unit as nat),
{
    let scaled: u128 = (amount as u128) * 10;
    let whole: u128 = scaled / (unit as u128);
    let rest: u128 = scaled % (unit as u128);
    assert(whole <= amount) by (nonlinear_arith)
        requires
            whole == (amount * 10) / (unit as int),
            unit >= 10,
            amount >= 0,
    ;
    if 2 * rest > unit as u128 || (2 * rest == unit as u128 && whole % 2 == 1) {
        assert(rest > 0);
        assert(whole < amount) by (nonlinear_arith)
            requires
                whole == (amount * 10) / (unit as int),
                rest == (amount * 10) % (unit as int),
                rest > 0,
                unit >= 10,
                amount >= 0,
        ;
        (whole + 1) as u64
    } else {
        whole as u64
    }
}

fn push_one_decimal(out: &mut String, amount: u64, unit: u64)
    requires
        unit >= 10,
    ensures
        final(out)@ == old(out)@ + one_decimal(amount as nat, unit as nat),
{
    let ghost before = out@;
    let t = tenths(amount, unit);
    push_decimal(out, t / 10);
    out.append(".");
    push_decimal(out, t % 10);
    assert(out@ =~= before + one_decimal(amount as nat, unit as nat));
}

/// Appends [`bytes_text`].
pub fn push_bytes(out: &mut String, bytes: u64)
    ensures
        final(out)@ == old(out)@ + bytes_text(bytes as nat),
{
    let ghost before = out@;
    if bytes >= GB {
        push_one_decimal(out, bytes, GB);
        out.append(" GB");
    } else if bytes >= MB {
        push_one_decimal(out, bytes, MB);
        out.append(" MB");
    } else if bytes >= KB {
        push_one_decimal(out, bytes, KB);
        out.append(" KB");
    } else {
        push_decimal(out, bytes);
        out.append(" B");
    }
    assert(out@ =~= before + bytes_text(bytes as nat));
}

/// A byte count as text.
pub fn format_bytes(bytes: u64) -> (out: String)
    ensures
        out@ == bytes_text(bytes as nat),
{
    let mut out = String::new();
    push_bytes(&mut out, bytes);
    assert(out@ =~= bytes_text(bytes as nat));
    out
}

/// Appends [`duration_text`].
pub fn push_duration(out: &mut String, seconds: u64)
    ensures
        final(out)@ == old(out)@ + duration_text(seconds as nat),
{
    let ghost before = out@;
    if seconds < 60 {
        push_decimal(out, seconds);
        out.append("s");
    } else if seconds < 3600 {
        let mins: u64 = seconds / 60;
        let secs: u64 = seconds % 60;
        if secs == 0 {
            push_decimal(out, mins);
            out.append("m");
        } else {
            push_decimal(out, mins);
            out.append("m ");
            push_decimal(out, secs);
            out.append("s");
        }
    } else {
        let hours: u64 = seconds / 3600;
        let mins: u64 = (seconds % 3600) / 60;
        if mins == 0 {
            push_decimal(out, hours);
            out.append("h");
        } else {
            push_decimal(out, hours);
            out.append("h ");
            push_decimal(out, mins);
            out.append("m");
        }
    }
    assert(out@ =~= before + duration_text(seconds as nat));
}

/// A duration as text.
pub fn format_duration(seconds: u64) -> (out: String)
    ensures
        out@ == duration_text(seconds as nat),
{
    let mut out = String::new();
    push_duration(&mut out, seconds);
    assert(out@ =~= duration_text(seconds as nat));
    out
}

/// Computes [`percent_floor`]; a share too large for the result type is
/// reported as the largest value the type holds.
pub fn floor_percent(part: u64, whole: u64) -> (p: u64)
    ensures
        p == if percent_floor(part as nat, whole as nat) > u64::MAX {
            u64::MAX as nat
        } else {
            percent_floor(part as nat, whole as nat)
        },
        part <= whole ==> p == percent_floor(part as nat, whole as nat) && p <= 100,
{
    if whole == 0 {
        0
    } else {
        let share: u128 = ((part as u128) * 100) / (whole as u128);
        assert(part <= whole ==> share <= 100) by (nonlinear_arith)
            requires
                share == (part * 100) / (whole as int),
                whole > 0,
                part >= 0,
        ;
        if share > u64::MAX as u128 {
            u64::MAX
        } else {
            share as u64
        }
    }
}

/// Computes [`used_space`].
pub fn space_in_use(total: u64, available: u64) -> (used: u64)
    ensures
        used == used_space(total as nat, available as nat),
        used <= total,
{
    if available >= total {
        0
    } else {
        total - available
    }
}

/// The usage of a filesystem in percent: between 0 and 100, and 0 for a
/// filesystem without space.
pub fn disk_usage_percent(total: u64, available: u64) -> (p: u64)
    ensures
        p == usage_percent(total as nat, available as nat),
        p <= 100,
        total == 0 ==> p == 0,
{
    if total == 0 {
        0
    } else {
        let used = space_in_use(total, available);
        let doubled: u128 = (used as u128) * 200 + (total as u128);
        let share: u128 = doubled / (2 * (total as u128));
        assert(share <= 100) by (nonlinear_arith)
            requires
                share == (used * 200 + total) / (2 * total),
                0 <= used <= total,
                total > 0,
        ;
        share as u64
    }
}

} // verus!
