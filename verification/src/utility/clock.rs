//! Points in time, in milliseconds since the first of January 1970 (UTC).

use vstd::prelude::*;

verus! {

/// The start of the platform's own era, in milliseconds since 1970: the
/// first of January 2015.
pub const PLATFORM_EPOCH: u64 = 1_420_070_400_000;

/// The number of low bits of an identifier that do not belong to its time
/// of creation.
pub const SNOWFLAKE_SHIFT: u64 = 22;

/// Milliseconds in one hour.
pub const MILLIS_PER_HOUR: i64 = 3_600_000;

/// Milliseconds in one minute.
pub const MILLIS_PER_MINUTE: i64 = 60_000;

/// Every timestamp that the clock can give lies strictly between minus and
/// plus this bound.
pub const CLOCK_BOUND: i64 = 0x20_0000_0000_0000;

/// When the platform issued the identifier `id`.
pub open spec fn created_millis(id: u64) -> int {
    (id >> 22) + 1_420_070_400_000
}

/// The moment of creation is never negative and stays far below the range
/// of `i64`.
pub proof fn lemma_created_millis_bounds(id: u64)
    ensures
        1_420_070_400_000 <= created_millis(id) < 1_420_070_400_000 + 0x400_0000_0000,
{
    assert(id >> 22 < 0x400_0000_0000) by (bit_vector);
}

/// When the platform issued the identifier `id`.
///
/// Trusted: stands for serenity's `MessageId::new(id).created_at()`, read
/// through chrono's `DateTime::timestamp_millis`. serenity shifts the
/// identifier right by 22 bits and adds the platform's epoch, as the
/// contract says; `MessageId::new` panics on zero, which `requires` leaves
/// out.
#[verifier::external_body]
pub(crate) fn snowflake_millis(id: u64) -> (ms: i64)
    requires
        id != 0,
    ensures
        ms == created_millis(id),
{
    serenity::model::id::MessageId::new(id).created_at().timestamp_millis()
}

/// The current time.
///
/// Trusted: stands for chrono's `Utc::now().timestamp_millis()`. Nothing
/// is known of the value but that chrono can represent it: its dates span
/// the years -262143 to 262142, whose timestamps stay within the bound.
#[verifier::external_body]
pub(crate) fn now_millis() -> (ms: i64)
    ensures
        -0x20_0000_0000_0000 < ms < 0x20_0000_0000_0000,
{
    chrono::Utc::now().timestamp_millis()
}

} // verus!
