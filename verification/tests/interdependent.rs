use crs::interdependent::{is_even, is_odd};

#[test]
fn parity_of_every_byte() {
    for value in 0..=u8::MAX {
        assert_eq!(is_even(value), value % 2 == 0);
        assert_eq!(is_odd(value), value % 2 == 1);
        assert_ne!(is_even(value), is_odd(value));
    }
}

#[test]
fn parity_edges() {
    assert!(is_even(0));
    assert!(!is_odd(0));
    assert!(is_odd(1));
    assert!(is_odd(255));
    assert!(is_even(254));
}
