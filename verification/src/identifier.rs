//! Identifiers of new objects: a time part that grows with the clock, a
//! hyphen, and a random part that makes the identifier hard to guess.

use vstd::prelude::*;
use vstd::string::StringExecFns;

verus! {

/// The moment, in seconds after the start of 1970, from which the time part
/// counts. It lies at the start of 1990, which keeps the time part short.
pub const EPOCH: i64 = 631152000;

/// How many characters the random part has.
pub const RANDOM_LEN: usize = 7;

/// The seconds between `EPOCH` and `now`, as the 64-bit signed number that
/// the subtraction leaves: where the difference lies below the least such
/// number, it wraps around.
pub open spec fn offset_of(now: i64) -> i64 {
    if now - EPOCH >= i64::MIN {
        (now - EPOCH) as i64
    } else {
        (now - EPOCH + 0x1_0000_0000_0000_0000) as i64
    }
}

/// The bit pattern of `ts` read as an unsigned number.
pub open spec fn unsigned_of(ts: i64) -> nat {
    if ts >= 0 {
        ts as nat
    } else {
        (ts + 0x1_0000_0000_0000_0000) as nat
    }
}

/// The bytes of `v`, most significant first, without leading zero bytes.
/// Zero has no bytes at all.
pub open spec fn minimal_be_bytes(v: nat) -> Seq<u8>
    decreases v,
{
    if v == 0 {
        Seq::empty()
    } else {
        minimal_be_bytes(v / 256).push((v % 256) as u8)
    }
}

/// The bytes that the time part encodes.
pub open spec fn time_bytes_of(ts: i64) -> Seq<u8> {
    minimal_be_bytes(unsigned_of(ts))
}

/// How many characters encode `n` bytes in base 32 without padding: one for
/// every five bits, the last one filled up.
pub open spec fn base32_len(n: nat) -> nat {
    (8 * n + 4) / 5
}

/// The character for the five-bit value `v`: `A` to `Z` for 0 to 25, then
/// `2` to `7`.
pub open spec fn base32_symbol(v: int) -> char {
    if v < 26 {
        (v + 'A' as u32) as char
    } else {
        (v - 26 + '2' as u32) as char
    }
}

/// A sixteen-bit number without its lowest `11 - shift` bits, `shift` being
/// at most 7.
pub open spec fn window_top(window: int, shift: int) -> int {
    if shift == 0 {
        window / 2048
    } else if shift == 1 {
        window / 1024
    } else if shift == 2 {
        window / 512
    } else if shift == 3 {
        window / 256
    } else if shift == 4 {
        window / 128
    } else if shift == 5 {
        window / 64
    } else if shift == 6 {
        window / 32
    } else {
        window / 16
    }
}

/// The `i`-th group of five bits of `data`, the bits taken in order from the
/// most significant bit of the first byte, and zero bits after the last
/// byte. The group begins `shift` bits into the byte at `byte` and may run
/// into the byte after it.
pub open spec fn base32_group(data: Seq<u8>, i: int) -> int {
    let byte = (5 * i) / 8;
    let shift = (5 * i) % 8;
    let high = data[byte] as int;
    let low = if byte + 1 < data.len() {
        data[byte + 1] as int
    } else {
        0
    };
    window_top(high * 256 + low, shift) % 32
}

/// The base-32 text of `data`, in the alphabet `A` to `Z`, `2` to `7`,
/// without padding.
pub open spec fn base32_text(data: Seq<u8>) -> Seq<char> {
    Seq::new(base32_len(data.len()), |i: int| base32_symbol(base32_group(data, i)))
}

/// The time part for the offset timestamp `ts`.
pub open spec fn time_part_text(ts: i64) -> Seq<char> {
    base32_text(time_bytes_of(ts))
}

/// Whether `c` is an ASCII letter or digit.
pub open spec fn is_alphanumeric(c: char) -> bool {
    ('A' <= c <= 'Z') || ('a' <= c <= 'z') || ('0' <= c <= '9')
}

/// Whether `s` can be a random part: seven ASCII letters or digits.
pub open spec fn is_random_part(s: Seq<char>) -> bool {
    &&& s.len() == RANDOM_LEN
    &&& forall|i: int| 0 <= i < s.len() ==> is_alphanumeric(#[trigger] s[i])
}

/// The identifier made at the offset timestamp `ts` with the random part
/// `random`.
pub open spec fn identifier_text(ts: i64, random: Seq<char>) -> Seq<char> {
    time_part_text(ts) + seq!['-'] + random
}

/// Whether `s` is an identifier: made at some moment, with some random part.
pub open spec fn is_identifier(s: Seq<char>) -> bool {
    exists|ts: i64, random: Seq<char>|
        is_random_part(random) && s == #[trigger] identifier_text(ts, random)
}

/// `chrono::Utc::now` and `DateTime::timestamp`: the clock's time in whole
/// seconds after the start of 1970. Nothing is claimed of the number. chrono
/// panics where the clock stands before 1970.
#[verifier::external_body]
fn unix_time() -> i64 {
    chrono::Utc::now().timestamp()
}

/// `base32::encode` with the alphabet of RFC 4648 and no padding: one
/// character for every five bits of `data`, as `base32_text` spells out.
#[verifier::external_body]
fn base32_encode(data: &[u8]) -> (r: String)
    ensures
        r@ == base32_text(data@),
{
    base32::encode(base32::Alphabet::RFC4648 { padding: false }, data)
}

/// `Rng::sample` of rand's thread-local generator with the distribution
/// `Alphanumeric`: some ASCII letter or digit.
#[verifier::external_body]
fn sample_alphanumeric() -> (c: char)
    ensures
        is_alphanumeric(c),
{
    rand::Rng::sample(&mut rand::thread_rng(), rand::distributions::Alphanumeric)
}

/// The seconds between `EPOCH` and `now`.
pub fn epoch_offset(now: i64) -> (ts: i64)
    ensures
        ts == offset_of(now),
{
    if now >= i64::MIN + EPOCH {
        now - EPOCH
    } else {
        (now - i64::MIN) + (i64::MAX - EPOCH) + 1
    }
}

fn push_be_bytes(out: &mut Vec<u8>, v: u64)
    ensures
        final(out)@ == old(out)@ + minimal_be_bytes(v as nat),
    decreases v,
{
    if v != 0 {
        push_be_bytes(out, v / 256);
        out.push((v % 256) as u8);
    }
}

/// The bytes of `ts` that the time part encodes: its eight bytes, most
/// significant first, without the leading zero bytes.
pub fn time_bytes(ts: i64) -> (r: Vec<u8>)
    ensures
        r@ == time_bytes_of(ts),
{
    let v: u64 = if ts >= 0 {
        ts as u64
    } else {
        ((ts - i64::MIN) as u64) + 0x8000_0000_0000_0000
    };
    let mut out: Vec<u8> = Vec::new();
    push_be_bytes(&mut out, v);
    out
}

/// The time part for the offset timestamp `ts`.
pub fn time_part(ts: i64) -> (r: String)
    ensures
        r@ == time_part_text(ts),
{
    let bytes = time_bytes(ts);
    base32_encode(bytes.as_slice())
}

/// A fresh random part.
pub fn random_part() -> (r: String)
    ensures
        is_random_part(r@),
{
    let mut out = String::new();
    let mut i: usize = 0;
    while i < RANDOM_LEN
        invariant
            i <= RANDOM_LEN,
            out@.len() == i,
            forall|k: int| 0 <= k < out@.len() ==> is_alphanumeric(#[trigger] out@[k]),
        decreases RANDOM_LEN - i,
    {
        let c = sample_alphanumeric();
        out.push(c);
        i = i + 1;
    }
    out
}

/// The identifier made at the offset timestamp `ts` with the random part
/// `random`.
pub fn identifier(ts: i64, random: &str) -> (r: String)
    ensures
        r@ == identifier_text(ts, random@),
{
    let mut out = time_part(ts);
    out.push('-');
    out.append(random);
    out
}

/// A new identifier: the time part of the present moment, a hyphen, and a
/// fresh random part.
pub fn random_id() -> (r: String)
    ensures
        is_identifier(r@),
{
    let ts = epoch_offset(unix_time());
    let random = random_part();
    identifier(ts, random.as_str())
}

/// An identifier is made of letters, digits and one hyphen before its
/// random part, so that neither `.` nor `/` stands in it.
pub proof fn lemma_identifier_characters(ts: i64, random: Seq<char>)
    requires
        is_random_part(random),
    ensures
        forall|i: int|
            0 <= i < identifier_text(ts, random).len() ==> is_alphanumeric(
                #[trigger] identifier_text(ts, random)[i],
            ) || identifier_text(ts, random)[i] == '-',
        identifier_text(ts, random).len() == time_part_text(ts).len() + 1 + RANDOM_LEN,
        identifier_text(ts, random)[time_part_text(ts).len() as int] == '-',
{
    let time = time_part_text(ts);
    let id = identifier_text(ts, random);
    assert forall|i: int| 0 <= i < id.len() implies is_alphanumeric(#[trigger] id[i]) || id[i]
        == '-' by {
        if i < time.len() {
            assert(id[i] == base32_symbol(base32_group(time_bytes_of(ts), i)));
        } else if i > time.len() {
            assert(id[i] == random[i - time.len() - 1]);
        }
    }
}

} // verus!
