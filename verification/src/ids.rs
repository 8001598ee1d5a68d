use vstd::prelude::*;
use vstd::arithmetic::power2::pow2;

verus! {

/// A message identifier: a version 7 UUID, as its 128 bits (most significant first).
pub type MessageId = u128;

/// A review identifier: a version 7 UUID, as its 128 bits (most significant first).
pub type ReviewId = u128;

/// The Unix time in milliseconds that a version 7 UUID records for a time given in seconds and
/// nanoseconds, saturating at `u64::MAX`.
pub open spec fn spec_unix_millis(seconds: u64, subsec_nanos: u32) -> int {
    if seconds * 1000 + subsec_nanos / 1_000_000 <= u64::MAX {
        seconds * 1000 + subsec_nanos / 1_000_000
    } else {
        u64::MAX as int
    }
}

/// A version 7 UUID for the given Unix time: its first 48 bits hold the time in milliseconds
/// (modulo 2^48), the next 4 bits the version 7, and bits 62 and 63 the variant `0b10`.
pub open spec fn is_v7_uuid_for(id: u128, seconds: u64, subsec_nanos: u32) -> bool {
    &&& (id >> 80u128) as int == spec_unix_millis(seconds, subsec_nanos) % 0x1_0000_0000_0000
    &&& (id >> 76u128) & 0xF == 7
    &&& (id >> 62u128) & 0x3 == 2
}

/// The counter bits that a version 7 UUID keeps of a counter with `usable_bits` usable bits: at
/// most 74 (the most significant ones of a wider counter, whose width counts at most 128), as
/// `(counter, bits)`.
pub open spec fn spec_kept_counter(counter: u128, usable_bits: u8) -> (int, int) {
    let width: int = if usable_bits > 128 { 128 } else { usable_bits as int };
    if width > 74 {
        (counter as int / pow2((width - 74) as nat) as int, 74)
    } else {
        (counter as int, width)
    }
}

/// The counter that `id` holds in `bits` bits: directly below the version nibble when it fits in
/// the 12 bits there; otherwise its 12 most significant bits there and the rest directly below the
/// variant.
pub open spec fn spec_v7_counter(id: u128, bits: int) -> int {
    if bits <= 12 {
        (id as int / pow2((76 - bits) as nat) as int) % pow2(bits as nat) as int
    } else {
        ((id as int / pow2(64) as int) % pow2(12) as int) * pow2((bits - 12) as nat) as int
            + (id as int / pow2((74 - bits) as nat) as int) % pow2((bits - 12) as nat) as int
    }
}

/// `id` carries the kept bits of `counter` (none when the counter has no usable bits), so that
/// identifiers made in one millisecond follow the counter's order.
pub open spec fn carries_counter(id: u128, counter: u128, usable_bits: u8) -> bool {
    let (kept, bits) = spec_kept_counter(counter, usable_bits);
    bits >= 1 ==> spec_v7_counter(id, bits) == kept % pow2(bits as nat) as int
}

/// Calls `uuid::Uuid::new_v7` on `uuid::Timestamp::from_unix_time(seconds, subsec_nanos, counter,
/// usable_counter_bits)` and returns the UUID's bits with `as_u128`. The contract claims the time,
/// version and variant bits and where the counter's kept bits go; the remaining bits are random
/// and nothing is stated of them.
#[verifier::external_body]
fn new_v7_uuid(seconds: u64, subsec_nanos: u32, counter: u128, usable_counter_bits: u8) -> (id: u128)
    ensures
        is_v7_uuid_for(id, seconds, subsec_nanos),
        carries_counter(id, counter, usable_counter_bits),
{
    let timestamp = uuid::Timestamp::from_unix_time(seconds, subsec_nanos, counter, usable_counter_bits);
    uuid::Uuid::new_v7(timestamp).as_u128()
}

/// A new message identifier for the given Unix time and clock-sequence counter (with its number
/// of usable bits; `0` for none).
pub fn create_message_id(seconds: u64, subsec_nanos: u32, counter: u128, usable_counter_bits: u8) -> (id: MessageId)
    ensures
        is_v7_uuid_for(id, seconds, subsec_nanos),
        carries_counter(id, counter, usable_counter_bits),
{
    new_v7_uuid(seconds, subsec_nanos, counter, usable_counter_bits)
}

/// A new review identifier for the given Unix time and clock-sequence counter (with its number
/// of usable bits; `0` for none).
pub fn create_review_id(seconds: u64, subsec_nanos: u32, counter: u128, usable_counter_bits: u8) -> (id: ReviewId)
    ensures
        is_v7_uuid_for(id, seconds, subsec_nanos),
        carries_counter(id, counter, usable_counter_bits),
{
    new_v7_uuid(seconds, subsec_nanos, counter, usable_counter_bits)
}

} // verus!
