//! Discord ids are unsigned 64-bit numbers; the database stores them as signed
//! 64-bit integers. These are the conversions between the two.

use vstd::prelude::*;

verus! {

/// The signed integer with the same 64 bits as `n`: what `n as i64` gives.
pub open spec fn as_signed(n: int) -> int {
    if n <= i64::MAX {
        n
    } else {
        n - 0x1_0000_0000_0000_0000
    }
}

/// The unsigned integer with the same 64 bits as `n`: what `n as u64` gives.
pub open spec fn as_unsigned(n: int) -> int {
    if n >= 0 {
        n
    } else {
        n + 0x1_0000_0000_0000_0000
    }
}

/// The database form of a Discord id (`id as i64`).
pub fn db_id(id: u64) -> (r: i64)
    ensures
        r as int == as_signed(id as int),
{
    if id <= 0x7fff_ffff_ffff_ffff {
        id as i64
    } else {
        ((id - 0x8000_0000_0000_0000) as i64) + i64::MIN
    }
}

/// The Discord id stored as `v` (`v as u64`).
pub fn discord_id(v: i64) -> (r: u64)
    ensures
        r as int == as_unsigned(v as int),
{
    if v >= 0 {
        v as u64
    } else {
        ((v - i64::MIN) as u64) + 0x8000_0000_0000_0000
    }
}

/// The Discord id stored as `v`, or `None` where `u64::try_from(v)` fails (`v` negative).
pub fn checked_discord_id(v: i64) -> (r: Option<u64>)
    ensures
        r is Some <==> v >= 0,
        r matches Some(u) ==> u as int == v as int,
{
    if v >= 0 {
        Some(v as u64)
    } else {
        None
    }
}

/// Every Discord id survives a trip through the database: storing it and reading it
/// back gives the same id.
pub proof fn lemma_id_roundtrip(id: u64)
    ensures
        as_unsigned(as_signed(id as int)) == id as int,
        i64::MIN <= as_signed(id as int) <= i64::MAX,
{
}

/// Every stored value survives a trip through a Discord id.
pub proof fn lemma_db_roundtrip(v: i64)
    ensures
        as_signed(as_unsigned(v as int)) == v as int,
        0 <= as_unsigned(v as int) <= u64::MAX,
{
}

} // verus!
