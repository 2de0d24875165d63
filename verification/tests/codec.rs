use ad9959_usb::codec::bytes_to_bits;

#[test]
fn expands_top_bit_last() {
    assert_eq!(bytes_to_bits(&[0b1000_0000]), vec![0, 0, 0, 0, 0, 0, 0, 1]);
}

#[test]
fn expands_bottom_bit_first() {
    assert_eq!(bytes_to_bits(&[0b0000_0001]), vec![1, 0, 0, 0, 0, 0, 0, 0]);
}

#[test]
fn expands_empty_input_to_nothing() {
    assert_eq!(bytes_to_bits(&[]), Vec::<u8>::new());
}

#[test]
fn expands_all_ones_and_all_zeros() {
    assert_eq!(bytes_to_bits(&[0xff]), vec![1; 8]);
    assert_eq!(bytes_to_bits(&[0x00]), vec![0; 8]);
}

#[test]
fn expands_mixed_byte() {
    assert_eq!(bytes_to_bits(&[0xa5]), vec![1, 0, 1, 0, 0, 1, 0, 1]);
}

#[test]
fn keeps_byte_order() {
    assert_eq!(
        bytes_to_bits(&[0x01, 0x80]),
        vec![1, 0, 0, 0, 0, 0, 0, 0, 0, 0, 0, 0, 0, 0, 0, 1]
    );
    assert_eq!(
        bytes_to_bits(&[0x80, 0x01]),
        vec![0, 0, 0, 0, 0, 0, 0, 1, 1, 0, 0, 0, 0, 0, 0, 0]
    );
}

#[test]
fn output_is_eight_times_as_long_and_binary() {
    let mut input: Vec<u8> = Vec::new();
    for length in 0..40usize {
        let bits = bytes_to_bits(&input);
        assert_eq!(bits.len(), 8 * length);
        assert!(bits.iter().all(|bit| *bit == 0 || *bit == 1));
        input.push((length * 37 + 11) as u8);
    }
}

#[test]
fn every_byte_value_expands_to_its_bits() {
    for value in 0..=255u8 {
        let bits = bytes_to_bits(&[value]);
        assert_eq!(bits.len(), 8);
        for place in 0..8usize {
            assert_eq!(bits[place], (value >> place) & 1);
        }
        let rebuilt: u32 = (0..8usize).map(|place| (bits[place] as u32) << place).sum();
        assert_eq!(rebuilt, value as u32);
    }
}

#[test]
fn repeated_calls_agree() {
    let input = [0x04, 0x00, 0x4e, 0xa4, 0xa9];
    let first = bytes_to_bits(&input);
    let second = bytes_to_bits(&input);
    let third = bytes_to_bits(&input);
    assert_eq!(first, second);
    assert_eq!(second, third);
}

#[test]
fn expansion_of_a_concatenation_is_the_concatenation() {
    let front = [0x12u8, 0x34];
    let back = [0x56u8, 0x78, 0x9a];
    let mut whole = front.to_vec();
    whole.extend_from_slice(&back);
    let mut parts = bytes_to_bits(&front);
    parts.extend(bytes_to_bits(&back));
    assert_eq!(bytes_to_bits(&whole), parts);
}
