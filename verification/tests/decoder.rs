use radpcm::decoder::{decode, DecodeError, DecoderState};

#[test]
fn decode_empty_input_yields_empty_output() {
    assert_eq!(decode(&[]), Ok(Vec::new()));
}

#[test]
fn decode_zero_codes_keep_predictor_at_zero() {
    assert_eq!(decode(&[0, 0, 0]), Ok(vec![0, 0, 0]));
}

#[test]
fn decode_sign_bit_only_code_emits_zero() {
    assert_eq!(decode(&[0x8]), Ok(vec![0]));
}

#[test]
fn decode_all_bits_code_emits_minus_eleven() {
    assert_eq!(decode(&[0xF]), Ok(vec![-11]));
}

#[test]
fn decode_two_full_magnitude_codes() {
    // First code: step 7, diff 0 + 7 + 3 + 1 = 11, predictor 0 - 11 = -11,
    // step index 0 + 8 = 8. Second code: step 16, diff 2 + 16 + 8 + 4 = 30,
    // predictor -11 - 30 = -41, step index 16.
    assert_eq!(decode(&[0xF, 0xF]), Ok(vec![-11, -41]));
}

#[test]
fn decode_rejects_sixteen() {
    assert_eq!(decode(&[16]), Err(DecodeError { position: 0, code: 16 }));
}

#[test]
fn decode_rejects_byte_beyond_nibble_range() {
    assert_eq!(decode(&[0, 255, 0]), Err(DecodeError { position: 1, code: 255 }));
}

#[test]
fn decode_reports_first_invalid_position() {
    assert_eq!(decode(&[1, 2, 16, 17]), Err(DecodeError { position: 2, code: 16 }));
}

#[test]
fn decode_is_deterministic() {
    let mut codes = Vec::new();
    for i in 0..997u32 {
        codes.push(((i * 7 + 3) % 16) as u8);
    }
    let first = decode(&codes);
    let second = decode(&codes);
    assert!(first.is_ok());
    assert_eq!(first, second);
}

#[test]
fn decode_state_stays_in_bounds_over_long_input() {
    let mut st = DecoderState::new();
    assert_eq!(st.predictor, 0);
    assert_eq!(st.step_index, 0);
    for i in 0..10_000u32 {
        let code = ((i * 13 + 5) % 16) as u8;
        st.step(code);
        assert!(st.step_index <= 88);
    }
}

#[test]
fn decode_matches_stepping_the_state_by_hand() {
    let mut codes = Vec::new();
    for i in 0..500u32 {
        codes.push(((i * 11 + 2) % 16) as u8);
    }
    let whole = decode(&codes).unwrap();
    let mut st = DecoderState::new();
    let mut streamed = Vec::new();
    for &code in &codes {
        streamed.push(st.step(code));
    }
    assert_eq!(whole, streamed);
}

#[test]
fn decode_saturates_at_the_sample_ceiling() {
    // Codes with all magnitude bits and no sign bit only ever push the
    // predictor upward, so a long run of them must saturate at 32767.
    let codes = vec![0x7; 64];
    let samples = decode(&codes).unwrap();
    assert_eq!(*samples.last().unwrap(), 32767);
    assert!(samples.iter().all(|&s| s <= 32767));
}

#[test]
fn decode_saturates_at_the_sample_floor() {
    let codes = vec![0xF; 64];
    let samples = decode(&codes).unwrap();
    assert_eq!(*samples.last().unwrap(), -32768);
}
