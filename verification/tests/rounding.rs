use mapview::units::{length_granularity, offset_granularity, Length, Offset};

#[test]
fn granularity_is_positive_and_stable() {
    let og = offset_granularity();
    let lg = length_granularity();
    assert!(og >= 1);
    assert!(lg >= 1);
    // Repeated queries within one process see the same platform value.
    assert_eq!(og, offset_granularity());
    assert_eq!(lg, length_granularity());
    // On this platform family both granularities are the page size.
    assert_eq!(og, lg as u64);
}

#[test]
fn round_up_lands_on_next_multiple() {
    let o = Offset::round_up(5, 4);
    assert_eq!(o.to_u64(), 8);
    assert_eq!(o.granularity(), 4);
    let exact_already = Offset::round_up(8, 4);
    assert_eq!(exact_already.to_u64(), 8);
    let l = Length::round_up(4097, 4096);
    assert_eq!(l.to_usize(), 8192);
}

#[test]
fn round_down_lands_on_previous_multiple() {
    let o = Offset::round_down(9, 4);
    assert_eq!(o.to_u64(), 8);
    let l = Length::round_down(8191, 4096);
    assert_eq!(l.to_usize(), 4096);
    let exact_already = Length::round_down(8192, 4096);
    assert_eq!(exact_already.to_usize(), 8192);
}

#[test]
fn exact_admits_only_multiples() {
    assert!(Offset::exact(12, 4).is_some());
    assert!(Offset::exact(13, 4).is_none());
    assert!(Length::exact(4096, 4096).is_some());
    assert!(Length::exact(4095, 4096).is_none());
}

#[test]
fn rounding_bounds_hold_for_real_granularity() {
    let og = offset_granularity();
    for v in [1u64, 2, 100, 4095, 4096, 4097, 1 << 20] {
        let up = Offset::round_up(v, og);
        assert!(up.to_u64() >= v);
        assert!(up.to_u64() < v + og);
        assert_eq!(up.to_u64() % og, 0);
        // A rounded value is admitted exactly.
        assert!(Offset::exact(up.to_u64(), og).is_some());
        if v >= og {
            let down = Offset::round_down(v, og);
            assert!(down.to_u64() <= v);
            assert!(v - down.to_u64() < og);
            assert_eq!(down.to_u64() % og, 0);
        }
    }
}

#[test]
fn zero_offset_starts_an_object() {
    let o = Offset::zero(4096);
    assert_eq!(o.to_u64(), 0);
    assert_eq!(o.granularity(), 4096);
}

#[test]
fn round_up_with_unit_granularity_keeps_the_value() {
    let o = Offset::round_up(u64::MAX, 1);
    assert_eq!(o.to_u64(), u64::MAX);
}
