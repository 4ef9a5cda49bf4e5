//! The order of identifiers follows the clock: of two time parts, the one
//! made later sorts after the other.

use vstd::prelude::*;
use crate::identifier::{
    base32_group, base32_len, base32_symbol, base32_text, minimal_be_bytes, time_part_text,
    unsigned_of, window_top,
};

verus! {

/// The place of `c` in the base-32 alphabet, `A` to `Z` and then `2` to
/// `7`; -1 for any other character.
pub open spec fn base32_rank(c: char) -> int {
    if 'A' <= c <= 'Z' {
        c as int - 'A' as int
    } else if '2' <= c <= '7' {
        c as int - '2' as int + 26
    } else {
        -1
    }
}

/// Whether `a` and `b` hold the same items before the place `k`.
pub open spec fn agree_before<T>(a: Seq<T>, b: Seq<T>, k: int) -> bool {
    forall|i: int| 0 <= i < k ==> a[i] == b[i]
}

/// Whether the base-32 text `a` sorts before `b`: a shorter text before a
/// longer one, and of two texts of one length the one that has, at the
/// first place where they differ, the character that comes first in the
/// alphabet.
pub open spec fn sorts_before(a: Seq<char>, b: Seq<char>) -> bool {
    a.len() < b.len() || (a.len() == b.len() && exists|k: int|
        0 <= k < a.len() && #[trigger] agree_before(a, b, k) && base32_rank(a[k]) < base32_rank(
            b[k],
        ))
}

/// Every five-bit value has its character, and the character's place in
/// the alphabet is that value.
pub proof fn lemma_rank_of_symbol(v: int)
    requires
        0 <= v < 32,
    ensures
        base32_rank(base32_symbol(v)) == v,
{
}

/// A group of five bits is a number below 32.
proof fn lemma_group_range(data: Seq<u8>, i: int)
    requires
        0 <= i,
    ensures
        0 <= base32_group(data, i) < 32,
{
}

/// A larger number has no fewer bytes.
proof fn lemma_bytes_len_monotone(u1: nat, u2: nat)
    requires
        u1 <= u2,
    ensures
        minimal_be_bytes(u1).len() <= minimal_be_bytes(u2).len(),
    decreases u2,
{
    if u1 != 0 {
        lemma_bytes_len_monotone(u1 / 256, u2 / 256);
    }
}

/// Of two numbers with equally many bytes, the smaller has the smaller byte
/// at the first place where their bytes differ.
proof fn lemma_bytes_first_difference(u1: nat, u2: nat) -> (j: int)
    requires
        u1 < u2,
        minimal_be_bytes(u1).len() == minimal_be_bytes(u2).len(),
    ensures
        0 <= j < minimal_be_bytes(u1).len(),
        agree_before(minimal_be_bytes(u1), minimal_be_bytes(u2), j),
        minimal_be_bytes(u1)[j] < minimal_be_bytes(u2)[j],
    decreases u2,
{
    let a = minimal_be_bytes(u1);
    let b = minimal_be_bytes(u2);
    assert(u1 != 0);
    if u1 / 256 == u2 / 256 {
        a.len() - 1
    } else {
        let j = lemma_bytes_first_difference(u1 / 256, u2 / 256);
        j
    }
}

/// A group that ends before the byte at `j` is the same in two byte
/// sequences that agree before `j`.
proof fn lemma_groups_before(a: Seq<u8>, b: Seq<u8>, j: int, i: int)
    requires
        a.len() == b.len(),
        0 <= j < a.len(),
        agree_before(a, b, j),
        0 <= i,
        5 * i + 5 <= 8 * j,
    ensures
        base32_group(a, i) == base32_group(b, i),
{
    let byte = (5 * i) / 8;
    let shift = (5 * i) % 8;
    assert(byte < j);
    assert(a[byte] == b[byte]);
    if byte + 1 < j {
        assert(a[byte + 1] == b[byte + 1]);
    } else {
        assert(shift <= 3);
    }
}

/// The five bits that begin `shift` bits into the byte `high` and run on
/// into the byte `low`.
spec fn window_group(high: int, low: int, shift: int) -> int {
    window_top(high * 256 + low, shift) % 32
}

/// The five bits of the sixteen-bit number made of the bytes `high` and
/// `low` that stand above its lowest bits, `divisor` being two to the number
/// of those.
spec fn bits(high: u32, low: u32, divisor: u32) -> int {
    ((high * 256 + low) / (divisor as int)) % 32
}

/// The groups that take bits of a byte `x`, where the byte begins a run of
/// five bytes: a smaller byte gives a smaller group at the first of them
/// that differs. `y` is the byte after `x`. Stated on the bits.
proof fn lemma_bits_at_0(xa: u32, xb: u32, ya: u32, yb: u32)
    by (bit_vector)
    requires
        xa < xb,
        xb < 256,
        ya < 256,
        yb < 256,
    ensures
        bits(xa, ya, 2048) <= bits(xb, yb, 2048),
        bits(xa, ya, 2048) == bits(xb, yb, 2048) ==> bits(xa, ya, 64) < bits(xb, yb, 64),
{
}

/// The same, stated on the groups.
proof fn lemma_order_at_0(xa: int, xb: int, ya: int, yb: int)
    requires
        0 <= xa < xb < 256,
        0 <= ya < 256,
        0 <= yb < 256,
    ensures
        window_group(xa, ya, 0) <= window_group(xb, yb, 0),
        window_group(xa, ya, 0) == window_group(xb, yb, 0) ==> window_group(xa, ya, 5)
            < window_group(xb, yb, 5),
{
    lemma_bits_at_0(xa as u32, xb as u32, ya as u32, yb as u32);
}

/// The same where `x` is the second byte of a run of five; `p` is the byte
/// before `x`. Stated on the bits.
proof fn lemma_bits_at_1(p: u32, xa: u32, xb: u32, ya: u32, yb: u32)
    by (bit_vector)
    requires
        p < 256,
        xa < xb,
        xb < 256,
        ya < 256,
        yb < 256,
    ensures
        bits(p, xa, 64) <= bits(p, xb, 64),
        bits(p, xa, 64) == bits(p, xb, 64) ==> bits(xa, ya, 512) <= bits(xb, yb, 512),
        bits(p, xa, 64) == bits(p, xb, 64) && bits(xa, ya, 512) == bits(xb, yb, 512) ==> bits(
            xa,
            ya,
            16,
        ) < bits(xb, yb, 16),
{
}

/// The same, stated on the groups.
proof fn lemma_order_at_1(p: int, xa: int, xb: int, ya: int, yb: int)
    requires
        0 <= p < 256,
        0 <= xa < xb < 256,
        0 <= ya < 256,
        0 <= yb < 256,
    ensures
        window_group(p, xa, 5) <= window_group(p, xb, 5),
        window_group(p, xa, 5) == window_group(p, xb, 5) ==> window_group(xa, ya, 2)
            <= window_group(xb, yb, 2),
        window_group(p, xa, 5) == window_group(p, xb, 5) && window_group(xa, ya, 2)
            == window_group(xb, yb, 2) ==> window_group(xa, ya, 7) < window_group(xb, yb, 7),
{
    lemma_bits_at_1(p as u32, xa as u32, xb as u32, ya as u32, yb as u32);
}

/// The same where `x` is the third byte of a run of five. Stated on the
/// bits.
proof fn lemma_bits_at_2(p: u32, xa: u32, xb: u32, ya: u32, yb: u32)
    by (bit_vector)
    requires
        p < 256,
        xa < xb,
        xb < 256,
        ya < 256,
        yb < 256,
    ensures
        bits(p, xa, 16) <= bits(p, xb, 16),
        bits(p, xa, 16) == bits(p, xb, 16) ==> bits(xa, ya, 128) < bits(xb, yb, 128),
{
}

/// The same, stated on the groups.
proof fn lemma_order_at_2(p: int, xa: int, xb: int, ya: int, yb: int)
    requires
        0 <= p < 256,
        0 <= xa < xb < 256,
        0 <= ya < 256,
        0 <= yb < 256,
    ensures
        window_group(p, xa, 7) <= window_group(p, xb, 7),
        window_group(p, xa, 7) == window_group(p, xb, 7) ==> window_group(xa, ya, 4)
            < window_group(xb, yb, 4),
{
    lemma_bits_at_2(p as u32, xa as u32, xb as u32, ya as u32, yb as u32);
}

/// The same where `x` is the fourth byte of a run of five. Stated on the
/// bits.
proof fn lemma_bits_at_3(p: u32, xa: u32, xb: u32, ya: u32, yb: u32)
    by (bit_vector)
    requires
        p < 256,
        xa < xb,
        xb < 256,
        ya < 256,
        yb < 256,
    ensures
        bits(p, xa, 128) <= bits(p, xb, 128),
        bits(p, xa, 128) == bits(p, xb, 128) ==> bits(xa, ya, 1024) <= bits(xb, yb, 1024),
        bits(p, xa, 128) == bits(p, xb, 128) && bits(xa, ya, 1024) == bits(xb, yb, 1024)
            ==> bits(xa, ya, 32) < bits(xb, yb, 32),
{
}

/// The same, stated on the groups.
proof fn lemma_order_at_3(p: int, xa: int, xb: int, ya: int, yb: int)
    requires
        0 <= p < 256,
        0 <= xa < xb < 256,
        0 <= ya < 256,
        0 <= yb < 256,
    ensures
        window_group(p, xa, 4) <= window_group(p, xb, 4),
        window_group(p, xa, 4) == window_group(p, xb, 4) ==> window_group(xa, ya, 1)
            <= window_group(xb, yb, 1),
        window_group(p, xa, 4) == window_group(p, xb, 4) && window_group(xa, ya, 1)
            == window_group(xb, yb, 1) ==> window_group(xa, ya, 6) < window_group(xb, yb, 6),
{
    lemma_bits_at_3(p as u32, xa as u32, xb as u32, ya as u32, yb as u32);
}

/// The same where `x` is the fifth byte of a run of five. Stated on the
/// bits.
proof fn lemma_bits_at_4(p: u32, xa: u32, xb: u32, ya: u32, yb: u32)
    by (bit_vector)
    requires
        p < 256,
        xa < xb,
        xb < 256,
        ya < 256,
        yb < 256,
    ensures
        bits(p, xa, 32) <= bits(p, xb, 32),
        bits(p, xa, 32) == bits(p, xb, 32) ==> bits(xa, ya, 256) < bits(xb, yb, 256),
{
}

/// The same, stated on the groups.
proof fn lemma_order_at_4(p: int, xa: int, xb: int, ya: int, yb: int)
    requires
        0 <= p < 256,
        0 <= xa < xb < 256,
        0 <= ya < 256,
        0 <= yb < 256,
    ensures
        window_group(p, xa, 6) <= window_group(p, xb, 6),
        window_group(p, xa, 6) == window_group(p, xb, 6) ==> window_group(xa, ya, 3)
            < window_group(xb, yb, 3),
{
    lemma_bits_at_4(p as u32, xa as u32, xb as u32, ya as u32, yb as u32);
}

/// The byte after the place `j` of `data`, and zero past the end.
spec fn byte_after(data: Seq<u8>, j: int) -> int {
    if j + 1 < data.len() {
        data[j + 1] as int
    } else {
        0
    }
}

/// The group `i` of `data` is the window group of the two bytes it lies in.
proof fn lemma_group_at(data: Seq<u8>, i: int, byte: int, shift: int)
    requires
        0 <= shift < 8,
        5 * i == 8 * byte + shift,
    ensures
        base32_group(data, i) == window_group(data[byte] as int, byte_after(data, byte), shift),
{
}

/// Of two byte sequences of one length, the one with the smaller byte at
/// the first place where they differ has the smaller group at the first
/// place where their groups differ.
proof fn lemma_group_order(a: Seq<u8>, b: Seq<u8>, j: int) -> (k: int)
    requires
        a.len() == b.len(),
        0 <= j < a.len(),
        agree_before(a, b, j),
        a[j] < b[j],
    ensures
        0 <= k < base32_len(a.len()),
        forall|i: int| 0 <= i < k ==> base32_group(a, i) == base32_group(b, i),
        base32_group(a, k) < base32_group(b, k),
{
    let q = j / 5;
    let r = j % 5;
    let first = if r == 0 {
        8 * q
    } else if r == 1 {
        8 * q + 1
    } else if r == 2 {
        8 * q + 3
    } else if r == 3 {
        8 * q + 4
    } else {
        8 * q + 6
    };
    assert forall|i: int| 0 <= i < first implies base32_group(a, i) == base32_group(b, i) by {
        lemma_groups_before(a, b, j, i);
    }
    let xa = a[j] as int;
    let xb = b[j] as int;
    let ya = byte_after(a, j);
    let yb = byte_after(b, j);
    if r == 0 {
        lemma_group_at(a, first, j, 0);
        lemma_group_at(b, first, j, 0);
        lemma_group_at(a, first + 1, j, 5);
        lemma_group_at(b, first + 1, j, 5);
        lemma_order_at_0(xa, xb, ya, yb);
        if base32_group(a, first) != base32_group(b, first) {
            first
        } else {
            first + 1
        }
    } else {
        assert(a[j - 1] == b[j - 1]);
        let p = a[j - 1] as int;
        assert(byte_after(a, j - 1) == xa);
        assert(byte_after(b, j - 1) == xb);
        if r == 1 {
            lemma_group_at(a, first, j - 1, 5);
            lemma_group_at(b, first, j - 1, 5);
            lemma_group_at(a, first + 1, j, 2);
            lemma_group_at(b, first + 1, j, 2);
            lemma_group_at(a, first + 2, j, 7);
            lemma_group_at(b, first + 2, j, 7);
            lemma_order_at_1(p, xa, xb, ya, yb);
            if base32_group(a, first) != base32_group(b, first) {
                first
            } else if base32_group(a, first + 1) != base32_group(b, first + 1) {
                first + 1
            } else {
                first + 2
            }
        } else if r == 2 {
            lemma_group_at(a, first, j - 1, 7);
            lemma_group_at(b, first, j - 1, 7);
            lemma_group_at(a, first + 1, j, 4);
            lemma_group_at(b, first + 1, j, 4);
            lemma_order_at_2(p, xa, xb, ya, yb);
            if base32_group(a, first) != base32_group(b, first) {
                first
            } else {
                first + 1
            }
        } else if r == 3 {
            lemma_group_at(a, first, j - 1, 4);
            lemma_group_at(b, first, j - 1, 4);
            lemma_group_at(a, first + 1, j, 1);
            lemma_group_at(b, first + 1, j, 1);
            lemma_group_at(a, first + 2, j, 6);
            lemma_group_at(b, first + 2, j, 6);
            lemma_order_at_3(p, xa, xb, ya, yb);
            if base32_group(a, first) != base32_group(b, first) {
                first
            } else if base32_group(a, first + 1) != base32_group(b, first + 1) {
                first + 1
            } else {
                first + 2
            }
        } else {
            lemma_group_at(a, first, j - 1, 6);
            lemma_group_at(b, first, j - 1, 6);
            lemma_group_at(a, first + 1, j, 3);
            lemma_group_at(b, first + 1, j, 3);
            lemma_order_at_4(p, xa, xb, ya, yb);
            if base32_group(a, first) != base32_group(b, first) {
                first
            } else {
                first + 1
            }
        }
    }
}

/// Of two moments on the same side of the epoch, the earlier one has the
/// time part that sorts first.
pub proof fn lemma_time_part_sorts(ts1: i64, ts2: i64)
    requires
        ts1 < ts2,
        ts1 >= 0 || ts2 < 0,
    ensures
        sorts_before(time_part_text(ts1), time_part_text(ts2)),
{
    let u1 = unsigned_of(ts1);
    let u2 = unsigned_of(ts2);
    let a = minimal_be_bytes(u1);
    let b = minimal_be_bytes(u2);
    lemma_bytes_len_monotone(u1, u2);
    if a.len() == b.len() {
        let j = lemma_bytes_first_difference(u1, u2);
        let k = lemma_group_order(a, b, j);
        let x = base32_text(a);
        let y = base32_text(b);
        lemma_group_range(a, k);
        lemma_group_range(b, k);
        lemma_rank_of_symbol(base32_group(a, k));
        lemma_rank_of_symbol(base32_group(b, k));
        assert(agree_before(x, y, k));
    }
}

/// Two different moments on the same side of the epoch have different time
/// parts.
pub proof fn lemma_time_part_tells_moments_apart(ts1: i64, ts2: i64)
    requires
        ts1 != ts2,
        (ts1 >= 0) == (ts2 >= 0),
    ensures
        time_part_text(ts1) != time_part_text(ts2),
{
    if ts1 < ts2 {
        lemma_time_part_sorts(ts1, ts2);
    } else {
        lemma_time_part_sorts(ts2, ts1);
    }
}

} // verus!
