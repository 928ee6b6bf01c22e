//! Sizes for display and names for cached files.

use std::collections::hash_map::DefaultHasher;
use std::hash::{Hash, Hasher};
use vstd::prelude::*;
use vstd::std_specs::hash::DefaultHasherAdditionalSpecFns;
use vstd::string::StringExecFns;
use crate::decimal::{decimal, digit_char, digit_text, push_decimal};
use crate::text::{chars_of, split, split_bounds, substring};

verus! {

/// `num / den` rounded to the nearest whole number, a tie going to the even
/// neighbour.
pub open spec fn round_half_even(num: nat, den: nat) -> nat {
    let q = num / den;
    let r = num % den;
    if 2 * r > den || (2 * r == den && q % 2 == 1) {
        q + 1
    } else {
        q
    }
}

/// The distance between neighbouring double-precision numbers at `n`: 1 up
/// to 2^53, and doubling with each further bit.
pub open spec fn double_step(n: nat) -> nat {
    if n < 0x20_0000_0000_0000 {
        1
    } else if n < 0x40_0000_0000_0000 {
        2
    } else if n < 0x80_0000_0000_0000 {
        4
    } else if n < 0x100_0000_0000_0000 {
        8
    } else if n < 0x200_0000_0000_0000 {
        16
    } else if n < 0x400_0000_0000_0000 {
        32
    } else if n < 0x800_0000_0000_0000 {
        64
    } else if n < 0x1000_0000_0000_0000 {
        128
    } else if n < 0x2000_0000_0000_0000 {
        256
    } else if n < 0x4000_0000_0000_0000 {
        512
    } else if n < 0x8000_0000_0000_0000 {
        1024
    } else {
        2048
    }
}

/// The double-precision number nearest to `n`, a tie going to the one with
/// the even significand. Sizes are measured in this precision, so a size of
/// 2^53 bytes or more is first rounded to 53 significant bits.
pub open spec fn nearest_double(n: nat) -> nat {
    round_half_even(n, double_step(n)) * double_step(n)
}

/// The unit in which a size is shown: 0 for bytes, then 1 to 4 for KB, MB,
/// GB and TB. A unit is used up to 1024 of it; TB has no upper end.
pub open spec fn size_unit(bytes: nat) -> nat {
    if bytes < 0x400 {
        0
    } else if bytes < 0x10_0000 {
        1
    } else if bytes < 0x4000_0000 {
        2
    } else if bytes < 0x100_0000_0000 {
        3
    } else {
        4
    }
}

/// The number of bytes in one of unit `k`.
pub open spec fn unit_bytes(k: nat) -> nat {
    if k == 0 {
        1
    } else if k == 1 {
        0x400
    } else if k == 2 {
        0x10_0000
    } else if k == 3 {
        0x4000_0000
    } else {
        0x100_0000_0000
    }
}

/// The name of unit `k`.
pub open spec fn unit_name(k: nat) -> Seq<char> {
    if k == 0 {
        "B"@
    } else if k == 1 {
        "KB"@
    } else if k == 2 {
        "MB"@
    } else if k == 3 {
        "GB"@
    } else {
        "TB"@
    }
}

/// The size in tenths of its unit, rounded to the nearest tenth.
pub open spec fn size_tenths(bytes: nat) -> nat {
    round_half_even(nearest_double(bytes) * 10, unit_bytes(size_unit(bytes)))
}

/// How a size is shown: below 1024 the plain number of bytes and `B`;
/// from there on the size in the largest unit that it fills, with one
/// decimal place, and the unit's name.
pub open spec fn format_size_spec(bytes: nat) -> Seq<char> {
    if bytes < 0x400 {
        decimal(bytes) + " B"@
    } else {
        decimal(size_tenths(bytes) / 10) + "."@ + decimal(size_tenths(bytes) % 10) + " "@
            + unit_name(size_unit(bytes))
    }
}

/// `num / den` rounded to the nearest whole number, a tie going to the even
/// neighbour.
fn round_division(num: u128, den: u128) -> (r: u128)
    requires
        den >= 1,
        num <= 0xff_0000_0000_0000_0000,
    ensures
        r == round_half_even(num as nat, den as nat),
        r <= num / den + 1,
{
    let q: u128 = num / den;
    let rem: u128 = num % den;
    assert(q <= num) by (nonlinear_arith)
        requires
            q == num / den,
            den >= 1,
    ;
    if rem > den - rem || (rem == den - rem && q % 2 == 1) {
        q + 1
    } else {
        q
    }
}

/// The double-precision number nearest to `bytes`.
fn to_nearest_double(bytes: u64) -> (r: u128)
    ensures
        r == nearest_double(bytes as nat),
        r <= 0x1_0000_0000_0000_0800,
{
    let n: u128 = bytes as u128;
    if n < 0x20_0000_0000_0000 {
        n
    } else if n < 0x40_0000_0000_0000 {
        round_division(n, 2) * 2
    } else if n < 0x80_0000_0000_0000 {
        round_division(n, 4) * 4
    } else if n < 0x100_0000_0000_0000 {
        round_division(n, 8) * 8
    } else if n < 0x200_0000_0000_0000 {
        round_division(n, 16) * 16
    } else if n < 0x400_0000_0000_0000 {
        round_division(n, 32) * 32
    } else if n < 0x800_0000_0000_0000 {
        round_division(n, 64) * 64
    } else if n < 0x1000_0000_0000_0000 {
        round_division(n, 128) * 128
    } else if n < 0x2000_0000_0000_0000 {
        round_division(n, 256) * 256
    } else if n < 0x4000_0000_0000_0000 {
        round_division(n, 512) * 512
    } else if n < 0x8000_0000_0000_0000 {
        round_division(n, 1024) * 1024
    } else {
        round_division(n, 2048) * 2048
    }
}

/// Formats a size in bytes for display.
pub fn format_size(bytes: u64) -> (r: String)
    ensures
        r@ == format_size_spec(bytes as nat),
{
    let mut out = String::new();
    if bytes < 1024 {
        push_decimal(&mut out, bytes);
        out.append(" B");
        assert(out@ =~= format_size_spec(bytes as nat));
        return out;
    }
    let num: u128 = to_nearest_double(bytes) * 10;
    let (tenths, unit) = if bytes < 0x10_0000 {
        (round_division(num, 0x400), "KB")
    } else if bytes < 0x4000_0000 {
        (round_division(num, 0x10_0000), "MB")
    } else if bytes < 0x100_0000_0000 {
        (round_division(num, 0x4000_0000), "GB")
    } else {
        (round_division(num, 0x100_0000_0000), "TB")
    };
    assert(tenths == size_tenths(bytes as nat));
    assert(unit@ == unit_name(size_unit(bytes as nat)));
    push_decimal(&mut out, (tenths / 10) as u64);
    assert(out@ =~= decimal(size_tenths(bytes as nat) / 10));
    out.append(".");
    out.append(digit_text((tenths % 10) as u64));
    assert(decimal((tenths % 10) as nat) =~= seq![digit_char((tenths % 10) as nat)]);
    out.append(" ");
    out.append(unit);
    out
}

/// What hashing the text `text` feeds to a hasher: the writes that it
/// makes, in order.
pub uninterp spec fn str_hash_writes(text: Seq<char>) -> Seq<Seq<u8>>;

/// Feeds `text` to `state` with `<str as Hash>::hash`. What is fed depends
/// on the text alone, so equal texts leave equal hashers behind; the writes
/// themselves are left unnamed here.
#[verifier::external_body]
fn hash_text(text: &str, state: &mut DefaultHasher)
    ensures
        final(state)@ == old(state)@ + str_hash_writes(text@),
{
    text.hash(state)
}

/// The 64-bit hash of `url` under the standard library's default hasher in
/// its initial state.
pub open spec fn url_hash(url: Seq<char>) -> u64 {
    DefaultHasher::spec_finish(Seq::<Seq<u8>>::empty() + str_hash_writes(url))
}

/// The name under which the file behind `url` is cached: the hash of the
/// whole address as a decimal number, a dot, and what follows the last dot
/// of the address (the whole address where it has no dot).
pub open spec fn cache_filename_spec(url: Seq<char>) -> Seq<char> {
    decimal(url_hash(url) as nat) + "."@ + split(url, '.').last()
}

/// Derives the cache file name for an address.
pub fn generate_cache_filename(url: &str) -> (name: String)
    ensures
        name@ == cache_filename_spec(url@),
{
    let mut hasher = DefaultHasher::new();
    hash_text(url, &mut hasher);
    let hash = hasher.finish();
    let v = chars_of(url);
    let pieces = split_bounds(&v, '.');
    let last = pieces[pieces.len() - 1];
    let extension = substring(url, last.0, last.1);
    assert(extension@ == split(url@, '.').last());
    let mut name = String::new();
    push_decimal(&mut name, hash);
    name.append(".");
    name.append(extension.as_str());
    assert(name@ =~= cache_filename_spec(url@));
    name
}

} // verus!
