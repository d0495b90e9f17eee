use core::cmp::Ordering;
use vstd::prelude::*;

verus! {

/// Three-way comparison of two mathematical integers.
pub open spec fn int_cmp(a: int, b: int) -> Ordering {
    if a < b {
        Ordering::Less
    } else if a == b {
        Ordering::Equal
    } else {
        Ordering::Greater
    }
}

/// The values an `Integer` can hold: those whose magnitude the format can
/// carry without an unbounded-length encoding, from -2^64 to 2^64 - 1.
pub open spec fn in_integer_range(v: int) -> bool {
    -0x1_0000_0000_0000_0000 <= v <= 0xffff_ffff_ffff_ffff
}

/// The canonical length of `v` in bytes: one leading byte, which inlines
/// values from -24 to 23, then 1, 2, 4 or 8 argument bytes for a value that
/// fits the unsigned or signed native width of 8, 16, 32 or 64 bits, the
/// narrowest first. A value beyond 64 bits takes a tag byte and the 16 bytes
/// of its 128-bit big-endian form.
pub open spec fn canonical_len_of(v: int) -> nat {
    if -24 <= v < 24 {
        1
    } else if -0x80 <= v <= 0xff {
        2
    } else if -0x8000 <= v <= 0xffff {
        3
    } else if -0x8000_0000 <= v <= 0xffff_ffff {
        5
    } else if -0x8000_0000_0000_0000 <= v <= 0xffff_ffff_ffff_ffff {
        9
    } else {
        17
    }
}

/// The canonical order of `a` and `b`, which follows their encodings byte by
/// byte: the shorter canonical length first; at equal length non-negative
/// before negative, as the major type of a negative is the higher; then by
/// value among non-negatives, and by reversed value among negatives, since a
/// negative `n` is written as `-1 - n`.
pub open spec fn canonical_order(a: int, b: int) -> Ordering {
    if canonical_len_of(a) != canonical_len_of(b) {
        int_cmp(canonical_len_of(a) as int, canonical_len_of(b) as int)
    } else if a >= 0 && b < 0 {
        Ordering::Less
    } else if a < 0 && b >= 0 {
        Ordering::Greater
    } else if a < 0 {
        int_cmp(b, a)
    } else {
        int_cmp(a, b)
    }
}

} // verus!
