use beatmap_parser::typebits::{color_skip, new_combo, shape_of, Shape, SHAPE_MASK};

#[test]
fn new_combo_matches_bit_two_for_all_bytes() {
    for b in 0..=255u8 {
        assert_eq!(new_combo(b), (b & 4) != 0);
    }
}

#[test]
fn color_skip_matches_bits_and_stays_in_range_for_all_bytes() {
    for b in 0..=255u8 {
        let c = color_skip(b);
        assert_eq!(c, (b >> 4) & 7);
        assert!(c <= 7);
    }
}

#[test]
fn shape_is_some_exactly_when_one_shape_bit_is_set() {
    for b in 0..=255u8 {
        let m = b & SHAPE_MASK;
        let one_bit = m != 0 && (m & (m - 1)) == 0;
        assert_eq!(shape_of(b).is_some(), one_bit);
    }
}

#[test]
fn shape_values_follow_the_masked_byte() {
    assert_eq!(shape_of(1), Some(Shape::Circle));
    assert_eq!(shape_of(2), Some(Shape::Slider));
    assert_eq!(shape_of(8), Some(Shape::Spinner));
    assert_eq!(shape_of(128), Some(Shape::Hold));
    // new-combo and color-skip bits do not disturb the shape
    assert_eq!(shape_of(6), Some(Shape::Slider));
    assert_eq!(shape_of(40), Some(Shape::Spinner));
    assert_eq!(shape_of(21), Some(Shape::Circle));
    // zero or several shape bits select nothing
    assert_eq!(shape_of(0), None);
    assert_eq!(shape_of(3), None);
    assert_eq!(shape_of(9), None);
    assert_eq!(shape_of(130), None);
}
