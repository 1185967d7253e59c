//! The integers of the binary format: signed, big-endian, four or eight bytes.
//!
//! The spec functions say what the bytes of an integer are, and the lemmas
//! that each integer has its own bytes. The four functions at the end call
//! `postgres_protocol`; their contracts are believed, not proved.

use vstd::prelude::*;
use vstd::arithmetic::div_mod::{
    lemma_div_denominator, lemma_fundamental_div_mod, lemma_fundamental_div_mod_converse,
};
use crate::types::Error;

verus! {

/// The integer that four bytes stand for: big-endian, two's complement.
pub open spec fn i32_from_be(bytes: Seq<u8>) -> int
    recommends
        bytes.len() == 4,
{
    let u = bytes[0] as int * 0x100_0000 + bytes[1] as int * 0x1_0000 + bytes[2] as int * 0x100
        + bytes[3] as int;
    if u < 0x8000_0000 {
        u
    } else {
        u - 0x1_0000_0000
    }
}

/// The four bytes that stand for `v`: big-endian, two's complement.
pub open spec fn i32_to_be(v: i32) -> Seq<u8> {
    let u: int = if v < 0 {
        v + 0x1_0000_0000
    } else {
        v as int
    };
    seq![
        (u / 0x100_0000 % 0x100) as u8,
        (u / 0x1_0000 % 0x100) as u8,
        (u / 0x100 % 0x100) as u8,
        (u % 0x100) as u8,
    ]
}

/// The integer that eight bytes stand for: big-endian, two's complement.
pub open spec fn i64_from_be(bytes: Seq<u8>) -> int
    recommends
        bytes.len() == 8,
{
    let u = bytes[0] as int * 0x100_0000_0000_0000 + bytes[1] as int * 0x1_0000_0000_0000
        + bytes[2] as int * 0x100_0000_0000 + bytes[3] as int * 0x1_0000_0000 + bytes[4] as int
        * 0x100_0000 + bytes[5] as int * 0x1_0000 + bytes[6] as int * 0x100 + bytes[7] as int;
    if u < 0x8000_0000_0000_0000 {
        u
    } else {
        u - 0x1_0000_0000_0000_0000
    }
}

/// The eight bytes that stand for `v`: big-endian, two's complement.
pub open spec fn i64_to_be(v: i64) -> Seq<u8> {
    let u: int = if v < 0 {
        v + 0x1_0000_0000_0000_0000
    } else {
        v as int
    };
    seq![
        (u / 0x100_0000_0000_0000 % 0x100) as u8,
        (u / 0x1_0000_0000_0000 % 0x100) as u8,
        (u / 0x100_0000_0000 % 0x100) as u8,
        (u / 0x1_0000_0000 % 0x100) as u8,
        (u / 0x100_0000 % 0x100) as u8,
        (u / 0x1_0000 % 0x100) as u8,
        (u / 0x100 % 0x100) as u8,
        (u % 0x100) as u8,
    ]
}

/// The byte of `u` at `unit`, a power of 256, is what is left of `u / unit`
/// above the next power.
proof fn lemma_digit_split(u: int, unit: int)
    requires
        0 <= u,
        0 < unit,
    ensures
        u / unit == 0x100 * (u / (unit * 0x100)) + u / unit % 0x100,
{
    lemma_div_denominator(u, unit, 0x100);
    lemma_fundamental_div_mod(u / unit, 0x100);
}

/// In `(hi * 256 + b) * unit + lo`, with `lo` under `unit`, the byte at
/// `unit` is `b`.
proof fn lemma_digit_found(u: int, unit: int, hi: int, b: int, lo: int)
    requires
        0 < unit,
        0 <= lo < unit,
        0 <= b < 0x100,
        u == (hi * 0x100 + b) * unit + lo,
    ensures
        u / unit % 0x100 == b,
{
    lemma_fundamental_div_mod_converse(u, unit, hi * 0x100 + b, lo);
    lemma_fundamental_div_mod_converse(hi * 0x100 + b, 0x100, hi, b);
}

/// Four bytes stand for an integer that fits in an `i32`.
pub proof fn lemma_i32_from_be_fits(bytes: Seq<u8>)
    requires
        bytes.len() == 4,
    ensures
        i32::MIN <= i32_from_be(bytes) <= i32::MAX,
{
}

/// Reading the bytes of `v` gives `v` back.
pub proof fn lemma_i32_to_be_from_be(v: i32)
    ensures
        i32_to_be(v).len() == 4,
        i32_from_be(i32_to_be(v)) == v,
{
    let u: int = if v < 0 {
        v + 0x1_0000_0000
    } else {
        v as int
    };
    lemma_digit_split(u, 1);
    lemma_digit_split(u, 0x100);
    lemma_digit_split(u, 0x1_0000);
    lemma_digit_split(u, 0x100_0000);
}

/// Writing the integer that four bytes stand for gives the bytes back.
pub proof fn lemma_i32_from_be_to_be(bytes: Seq<u8>)
    requires
        bytes.len() == 4,
    ensures
        i32_to_be(i32_from_be(bytes) as i32) == bytes,
{
    let b0 = bytes[0] as int;
    let b1 = bytes[1] as int;
    let b2 = bytes[2] as int;
    let b3 = bytes[3] as int;
    let u = b0 * 0x100_0000 + b1 * 0x1_0000 + b2 * 0x100 + b3;
    lemma_digit_found(u, 1, b0 * 0x1_0000 + b1 * 0x100 + b2, b3, 0);
    lemma_digit_found(u, 0x100, b0 * 0x100 + b1, b2, b3);
    lemma_digit_found(u, 0x1_0000, b0, b1, b2 * 0x100 + b3);
    lemma_digit_found(u, 0x100_0000, 0, b0, b1 * 0x1_0000 + b2 * 0x100 + b3);
    assert(i32_to_be(i32_from_be(bytes) as i32) =~= bytes);
}

/// Eight bytes stand for an integer that fits in an `i64`.
pub proof fn lemma_i64_from_be_fits(bytes: Seq<u8>)
    requires
        bytes.len() == 8,
    ensures
        i64::MIN <= i64_from_be(bytes) <= i64::MAX,
{
}

/// Reading the bytes of `v` gives `v` back.
pub proof fn lemma_i64_to_be_from_be(v: i64)
    ensures
        i64_to_be(v).len() == 8,
        i64_from_be(i64_to_be(v)) == v,
{
    let u: int = if v < 0 {
        v + 0x1_0000_0000_0000_0000
    } else {
        v as int
    };
    lemma_digit_split(u, 1);
    lemma_digit_split(u, 0x100);
    lemma_digit_split(u, 0x1_0000);
    lemma_digit_split(u, 0x100_0000);
    lemma_digit_split(u, 0x1_0000_0000);
    lemma_digit_split(u, 0x100_0000_0000);
    lemma_digit_split(u, 0x1_0000_0000_0000);
    lemma_digit_split(u, 0x100_0000_0000_0000);
}

/// Writing the integer that eight bytes stand for gives the bytes back.
pub proof fn lemma_i64_from_be_to_be(bytes: Seq<u8>)
    requires
        bytes.len() == 8,
    ensures
        i64_to_be(i64_from_be(bytes) as i64) == bytes,
{
    let b0 = bytes[0] as int;
    let b1 = bytes[1] as int;
    let b2 = bytes[2] as int;
    let b3 = bytes[3] as int;
    let b4 = bytes[4] as int;
    let b5 = bytes[5] as int;
    let b6 = bytes[6] as int;
    let b7 = bytes[7] as int;
    let l1 = b7;
    let l2 = b6 * 0x100 + l1;
    let l3 = b5 * 0x1_0000 + l2;
    let l4 = b4 * 0x100_0000 + l3;
    let l5 = b3 * 0x1_0000_0000 + l4;
    let l6 = b2 * 0x100_0000_0000 + l5;
    let l7 = b1 * 0x1_0000_0000_0000 + l6;
    let u = b0 * 0x100_0000_0000_0000 + l7;
    let h1 = b0;
    let h2 = h1 * 0x100 + b1;
    let h3 = h2 * 0x100 + b2;
    let h4 = h3 * 0x100 + b3;
    let h5 = h4 * 0x100 + b4;
    let h6 = h5 * 0x100 + b5;
    let h7 = h6 * 0x100 + b6;
    lemma_digit_found(u, 1, h7, b7, 0);
    lemma_digit_found(u, 0x100, h6, b6, l1);
    lemma_digit_found(u, 0x1_0000, h5, b5, l2);
    lemma_digit_found(u, 0x100_0000, h4, b4, l3);
    lemma_digit_found(u, 0x1_0000_0000, h3, b3, l4);
    lemma_digit_found(u, 0x100_0000_0000, h2, b2, l5);
    lemma_digit_found(u, 0x1_0000_0000_0000, h1, b1, l6);
    lemma_digit_found(u, 0x100_0000_0000_0000, 0, b0, l7);
    assert(i64_to_be(i64_from_be(bytes) as i64) =~= bytes);
}

/// The bytes of the largest and of the smallest `i32`.
pub proof fn lemma_i32_extremes_to_be()
    ensures
        i32_to_be(i32::MAX) == seq![0x7fu8, 0xff, 0xff, 0xff],
        i32_to_be(i32::MIN) == seq![0x80u8, 0, 0, 0],
{
    assert(i32_to_be(i32::MAX) =~= seq![0x7fu8, 0xff, 0xff, 0xff]);
    assert(i32_to_be(i32::MIN) =~= seq![0x80u8, 0, 0, 0]);
}

/// The bytes of the largest and of the smallest `i64`.
pub proof fn lemma_i64_extremes_to_be()
    ensures
        i64_to_be(i64::MAX) == seq![0x7fu8, 0xff, 0xff, 0xff, 0xff, 0xff, 0xff, 0xff],
        i64_to_be(i64::MIN) == seq![0x80u8, 0, 0, 0, 0, 0, 0, 0],
{
    assert(i64_to_be(i64::MAX) =~= seq![0x7fu8, 0xff, 0xff, 0xff, 0xff, 0xff, 0xff, 0xff]);
    assert(i64_to_be(i64::MIN) =~= seq![0x80u8, 0, 0, 0, 0, 0, 0, 0]);
}

/// The error of `postgres_protocol::types::date_from_sql` on `raw`, kept by
/// its message, where that function fails.
pub uninterp spec fn date_from_sql_error(raw: Seq<u8>) -> Error;

/// The error of `postgres_protocol::types::timestamp_from_sql` on `raw`,
/// kept by its message, where that function fails.
pub uninterp spec fn timestamp_from_sql_error(raw: Seq<u8>) -> Error;

/// Calls `postgres_protocol::types::date_from_sql`. That function reads four
/// bytes as a big-endian `i32` and fails where fewer are there or any are
/// left over: it succeeds on exactly four bytes, with the integer they stand
/// for. Its error depends on the bytes alone and is kept by its message.
#[verifier::external_body]
pub(crate) fn date_from_sql(raw: &[u8]) -> (r: Result<i32, Error>)
    ensures
        r == (if raw@.len() == 4 {
            Ok(i32_from_be(raw@) as i32)
        } else {
            Err(date_from_sql_error(raw@))
        }),
{
    match postgres_protocol::types::date_from_sql(raw) {
        Ok(v) => Ok(v),
        Err(e) => Err(Error { message: e.to_string() }),
    }
}

/// Calls `postgres_protocol::types::date_to_sql`, which appends the four
/// bytes of `v`, big-endian, to `out`.
#[verifier::external_body]
pub(crate) fn date_to_sql(v: i32, out: &mut Vec<u8>)
    ensures
        final(out)@ == old(out)@ + i32_to_be(v),
{
    postgres_protocol::types::date_to_sql(v, out)
}

/// Calls `postgres_protocol::types::timestamp_from_sql`. That function reads
/// eight bytes as a big-endian `i64` and fails where fewer are there or any
/// are left over: it succeeds on exactly eight bytes, with the integer they
/// stand for. Its error depends on the bytes alone and is kept by its
/// message.
#[verifier::external_body]
pub(crate) fn timestamp_from_sql(raw: &[u8]) -> (r: Result<i64, Error>)
    ensures
        r == (if raw@.len() == 8 {
            Ok(i64_from_be(raw@) as i64)
        } else {
            Err(timestamp_from_sql_error(raw@))
        }),
{
    match postgres_protocol::types::timestamp_from_sql(raw) {
        Ok(v) => Ok(v),
        Err(e) => Err(Error { message: e.to_string() }),
    }
}

/// Calls `postgres_protocol::types::timestamp_to_sql`, which appends the
/// eight bytes of `v`, big-endian, to `out`.
#[verifier::external_body]
pub(crate) fn timestamp_to_sql(v: i64, out: &mut Vec<u8>)
    ensures
        final(out)@ == old(out)@ + i64_to_be(v),
{
    postgres_protocol::types::timestamp_to_sql(v, out)
}

} // verus!
