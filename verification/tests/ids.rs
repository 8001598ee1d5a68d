use crs::ids::{create_message_id, create_review_id};

fn kept_counter(counter: u128, usable_bits: u8) -> (u128, u32) {
    let width = u32::from(usable_bits).min(128);
    if width > 74 {
        (counter >> (width - 74), 74)
    } else {
        (counter, width)
    }
}

fn carried_counter(id: u128, bits: u32) -> u128 {
    let low_mask = |width: u32| if width == 0 { 0 } else { u128::MAX >> (128 - width) };
    if bits <= 12 {
        (id >> (76 - bits)) & low_mask(bits)
    } else {
        (((id >> 64) & 0xFFF) << (bits - 12)) | ((id >> (74 - bits)) & low_mask(bits - 12))
    }
}

#[test]
fn message_id_records_time_version_and_variant() {
    let id = create_message_id(1_645_557_742, 5_000_000, 0, 0);
    assert_eq!(id >> 80, 1_645_557_742_005);
    assert_eq!((id >> 76) & 0xF, 7);
    assert_eq!((id >> 62) & 0x3, 2);
}

#[test]
fn review_id_records_time_version_and_variant() {
    let id = create_review_id(0, 999_999_999, 0, 0);
    assert_eq!(id >> 80, 999);
    assert_eq!((id >> 76) & 0xF, 7);
    assert_eq!((id >> 62) & 0x3, 2);
}

#[test]
fn unnormalized_nanoseconds_carry_into_milliseconds() {
    let id = create_message_id(1, 1_500_000_000, 0, 0);
    assert_eq!(id >> 80, 2_500);
}

#[test]
fn counter_bits_are_kept() {
    let counters: [u128; 4] = [0, 5, 0x0123_4567_89AB_CDEF_0123_4567_89AB_CDEF, u128::MAX];
    for usable_bits in [1u8, 7, 12, 13, 42, 73, 74, 75, 100, 128, 200] {
        for counter in counters {
            let id = create_message_id(1_700_000_000, 123_000_000, counter, usable_bits);
            let (kept, bits) = kept_counter(counter, usable_bits);
            let mask = u128::MAX >> (128 - bits);
            assert_eq!(carried_counter(id, bits), kept & mask, "bits {usable_bits}, counter {counter:#x}");
            assert_eq!(id >> 80, 1_700_000_000_123);
            assert_eq!((id >> 76) & 0xF, 7);
            assert_eq!((id >> 62) & 0x3, 2);
        }
    }
}

#[test]
fn counter_orders_identifiers_within_a_millisecond() {
    let first = create_review_id(1_700_000_000, 0, 41, 42);
    let second = create_review_id(1_700_000_000, 0, 42, 42);
    assert!(first < second);
}
