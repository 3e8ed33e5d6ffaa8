use mapview::mirror::{mirror_layout, MirrorLayout};
use mapview::units::length_granularity;

#[test]
fn five_elements_of_four_bytes_under_a_page() {
    // Half of five elements, rounded up, is three; three four-byte elements
    // round up to one whole page, and the doubled range holds 2048 of them.
    let layout = mirror_layout(5, 4, 4096);
    assert_eq!(layout, MirrorLayout { half_bytes: 4096, total_elements: 2048 });
    assert!(layout.total_elements >= 5);
    assert_eq!(layout.total_elements % 2, 0);
    assert_eq!(layout.total_elements / 2 * 4, layout.half_bytes);
}

#[test]
fn one_single_byte_element() {
    let layout = mirror_layout(1, 1, 1);
    assert_eq!(layout.half_bytes, 1);
    assert_eq!(layout.total_elements, 2);
}

#[test]
fn element_size_dividing_the_granularity_loses_nothing() {
    let lg = length_granularity();
    for (min_size, elem_size) in [(1usize, 1usize), (5, 4), (6, 8), (1023, 2), (4096, 1)] {
        if lg % elem_size == 0 {
            let layout = mirror_layout(min_size, elem_size, lg);
            assert_eq!(layout.half_bytes % lg, 0);
            assert!(layout.total_elements >= min_size);
            assert_eq!(layout.total_elements % 2, 0);
            assert_eq!(layout.total_elements / 2 * elem_size, layout.half_bytes);
        }
    }
}

#[test]
fn element_size_not_dividing_the_granularity_still_counts_whole_elements() {
    // Two halves of eight bytes hold five whole three-byte elements.
    let layout = mirror_layout(4, 3, 4);
    assert_eq!(layout.half_bytes, 8);
    assert_eq!(layout.total_elements, 5);
}
