use solo_machine::bit_array::CompactBitArray;

fn bits_of(array: &CompactBitArray) -> Vec<bool> {
    (0..array.len()).map(|i| array.get(i)).collect()
}

#[test]
fn new_bit_array_has_requested_length() {
    let bits = CompactBitArray::new(10);
    assert!(bits.is_well_formed());
    assert_eq!(bits.len(), 10);
    assert_eq!(bits.elems.len(), 2);
    assert_eq!(bits.extra_bits_stored, 2);
    assert_eq!(bits.elems, vec![0u8, 0u8]);
}

#[test]
fn new_bit_array_is_all_false() {
    let bits = CompactBitArray::new(10);
    assert_eq!(bits_of(&bits), vec![false; 10]);
}

#[test]
fn new_bit_array_of_whole_bytes() {
    let bits = CompactBitArray::new(16);
    assert_eq!(bits.len(), 16);
    assert_eq!(bits.elems.len(), 2);
    assert_eq!(bits.extra_bits_stored, 0);
}

#[test]
fn new_bit_array_of_no_bits() {
    let bits = CompactBitArray::new(0);
    assert!(bits.is_well_formed());
    assert_eq!(bits.len(), 0);
    assert_eq!(bits.elems.len(), 0);
    assert_eq!(bits.extra_bits_stored, 0);
    assert!(!bits.get(0));
    assert_eq!(bits.num_true_bits_before(5), 0);
}

#[test]
fn new_bit_array_of_one_bit() {
    let bits = CompactBitArray::new(1);
    assert_eq!(bits.len(), 1);
    assert_eq!(bits.elems.len(), 1);
    assert_eq!(bits.extra_bits_stored, 1);
}

#[test]
fn set_last_bit_changes_that_bit_only() {
    let mut bits = CompactBitArray::new(10);
    assert!(bits.set(9, true));
    assert!(bits.get(9));
    for i in 0..9 {
        assert!(!bits.get(i), "bit {} must stay unset", i);
    }
    assert_eq!(bits.len(), 10);
    assert_eq!(bits.extra_bits_stored, 2);
    assert_eq!(bits.elems, vec![0u8, 0b0100_0000u8]);
}

#[test]
fn get_past_the_end_is_false_and_changes_nothing() {
    let mut bits = CompactBitArray::new(10);
    bits.set(9, true);
    let before = bits.clone();
    assert!(!bits.get(10));
    assert!(!bits.get(11));
    assert!(!bits.get(usize::MAX));
    assert_eq!(bits, before);
}

#[test]
fn set_past_the_end_is_refused() {
    let mut bits = CompactBitArray::new(10);
    bits.set(3, true);
    let before = bits.clone();
    assert!(!bits.set(10, true));
    assert!(!bits.set(15, true));
    assert!(!bits.set(usize::MAX, false));
    assert_eq!(bits, before);
}

#[test]
fn bits_are_stored_most_significant_first() {
    let mut bits = CompactBitArray::new(16);
    bits.set(0, true);
    assert_eq!(bits.elems, vec![0b1000_0000u8, 0u8]);
    bits.set(7, true);
    assert_eq!(bits.elems, vec![0b1000_0001u8, 0u8]);
    bits.set(8, true);
    assert_eq!(bits.elems, vec![0b1000_0001u8, 0b1000_0000u8]);
    bits.set(15, true);
    assert_eq!(bits.elems, vec![0b1000_0001u8, 0b1000_0001u8]);
}

#[test]
fn set_false_clears_a_bit() {
    let mut bits = CompactBitArray::new(12);
    for i in 0..12 {
        assert!(bits.set(i, true));
    }
    assert_eq!(bits_of(&bits), vec![true; 12]);
    assert!(bits.set(5, false));
    let mut expected = vec![true; 12];
    expected[5] = false;
    assert_eq!(bits_of(&bits), expected);
    assert_eq!(bits.elems, vec![0b1111_1011u8, 0b1111_0000u8]);
}

#[test]
fn set_is_idempotent() {
    let mut bits = CompactBitArray::new(9);
    bits.set(4, true);
    let once = bits.clone();
    bits.set(4, true);
    assert_eq!(bits, once);
}

#[test]
fn num_true_bits_before_counts_set_bits() {
    let mut bits = CompactBitArray::new(10);
    bits.set(0, true);
    bits.set(2, true);
    bits.set(9, true);
    assert_eq!(bits.num_true_bits_before(0), 0);
    assert_eq!(bits.num_true_bits_before(1), 1);
    assert_eq!(bits.num_true_bits_before(2), 1);
    assert_eq!(bits.num_true_bits_before(3), 2);
    assert_eq!(bits.num_true_bits_before(9), 2);
    assert_eq!(bits.num_true_bits_before(10), 3);
}

#[test]
fn num_true_bits_before_zero_is_zero() {
    let mut bits = CompactBitArray::new(3);
    assert_eq!(bits.num_true_bits_before(0), 0);
    bits.set(0, true);
    bits.set(1, true);
    bits.set(2, true);
    assert_eq!(bits.num_true_bits_before(0), 0);
}

#[test]
fn num_true_bits_before_ignores_positions_past_the_end() {
    let mut bits = CompactBitArray::new(3);
    bits.set(1, true);
    bits.set(2, true);
    assert_eq!(bits.num_true_bits_before(3), 2);
    assert_eq!(bits.num_true_bits_before(4), 2);
    assert_eq!(bits.num_true_bits_before(1000), 2);
}

#[test]
fn padding_bits_are_not_counted() {
    let bits = CompactBitArray { extra_bits_stored: 3, elems: vec![0xff, 0xff] };
    assert!(bits.is_well_formed());
    assert_eq!(bits.len(), 11);
    assert!(bits.get(10));
    assert!(!bits.get(11));
    assert_eq!(bits.num_true_bits_before(64), 11);
}

#[test]
fn length_follows_the_fields() {
    let whole = CompactBitArray { extra_bits_stored: 0, elems: vec![0, 0, 0] };
    assert_eq!(whole.len(), 24);
    let partial = CompactBitArray { extra_bits_stored: 5, elems: vec![0, 0, 0] };
    assert_eq!(partial.len(), 21);
}

#[test]
fn fields_that_disagree_are_not_well_formed() {
    let no_bytes = CompactBitArray { extra_bits_stored: 3, elems: vec![] };
    assert!(!no_bytes.is_well_formed());
    let too_many_extra_bits = CompactBitArray { extra_bits_stored: 9, elems: vec![0, 0] };
    assert!(!too_many_extra_bits.is_well_formed());
    let full_last_byte = CompactBitArray { extra_bits_stored: 8, elems: vec![0, 0] };
    assert!(full_last_byte.is_well_formed());
    assert_eq!(full_last_byte.len(), 16);
}
