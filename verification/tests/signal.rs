use probably_binary::{is_probably_binary, sample_is_binary, PBError, PROBE_LEN};

#[test]
fn backspace_and_whitespace_controls_are_no_signal() {
    assert!(!is_probably_binary(&0x08));
    for byte in 0x09..=0x0d_u8 {
        assert!(!is_probably_binary(&byte), "{:#04x}", byte);
    }
}

#[test]
fn shift_out_is_a_signal() {
    assert!(is_probably_binary(&0x0e));
}

#[test]
fn del_is_a_signal_and_tilde_is_not() {
    assert!(!is_probably_binary(&0x7e));
    assert!(is_probably_binary(&0x7f));
}

#[test]
fn every_byte_is_judged_by_its_range() {
    for byte in 0..=u8::MAX {
        let expected = match byte {
            0x00..=0x07 => true,
            0x08..=0x0d => false,
            0x0e..=0x1f => true,
            0x20..=0x7e => false,
            0x7f => true,
            0x80..=0xff => false,
        };
        assert_eq!(is_probably_binary(&byte), expected, "{:#04x}", byte);
    }
}

#[test]
fn probe_length_is_256() {
    assert_eq!(PROBE_LEN, 256);
}

#[test]
fn empty_sample_is_not_binary() {
    assert!(!sample_is_binary(&[]));
}

#[test]
fn sample_is_binary_by_any_of_its_bytes() {
    assert!(!sample_is_binary(b"plain text\n"));
    assert!(sample_is_binary(b"\x00plain text\n"));
    assert!(sample_is_binary(b"plain\x1ftext\n"));
    assert!(sample_is_binary(b"plain text\x7f"));
}

#[test]
fn sample_is_inspected_up_to_the_probe_length() {
    let mut sample = vec![b'a'; PROBE_LEN + 1];
    sample[PROBE_LEN] = 0x00;
    assert!(!sample_is_binary(&sample));
    sample[PROBE_LEN - 1] = 0x00;
    assert!(sample_is_binary(&sample));
}

#[test]
fn error_shows_its_message() {
    let error = PBError::new(String::from("entity not found"));
    assert_eq!(error.to_string(), "entity not found");
    assert_eq!(error.debug_string(), "PBError: entity not found");
}

#[test]
fn error_with_empty_message() {
    let error = PBError::new(String::new());
    assert_eq!(error.to_string(), "");
    assert_eq!(error.debug_string(), "PBError: ");
}
