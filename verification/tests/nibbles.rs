use radpcm::decoder::decode;
use radpcm::nibbles::split_and_interleave_nibbles;

#[test]
fn split_empty_input_yields_empty_output() {
    assert_eq!(split_and_interleave_nibbles(&[]), Vec::<u8>::new());
}

#[test]
fn split_emits_low_nibble_first() {
    assert_eq!(split_and_interleave_nibbles(&[0xAB]), vec![0x0B, 0x0A]);
}

#[test]
fn split_keeps_byte_order() {
    assert_eq!(split_and_interleave_nibbles(&[0x12, 0xF0]), vec![0x02, 0x01, 0x00, 0x0F]);
}

#[test]
fn split_doubles_the_length() {
    let bytes: Vec<u8> = (0..=255).collect();
    let nibbles = split_and_interleave_nibbles(&bytes);
    assert_eq!(nibbles.len(), 2 * bytes.len());
    assert!(nibbles.iter().all(|&n| n < 16));
}

#[test]
fn split_output_always_decodes() {
    let bytes: Vec<u8> = (0..=255).rev().collect();
    let nibbles = split_and_interleave_nibbles(&bytes);
    assert!(decode(&nibbles).is_ok());
}
