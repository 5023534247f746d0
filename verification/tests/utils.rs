use rcli::{prepare_input, SignError};

#[test]
fn untrimmed_input_stays_as_it_is() {
    assert_eq!(prepare_input(b"  a b \n".to_vec(), false), Ok(b"  a b \n".to_vec()));
    assert_eq!(prepare_input(vec![0xff, 0x00, 0x20], false), Ok(vec![0xff, 0x00, 0x20]));
    assert_eq!(prepare_input(Vec::new(), false), Ok(Vec::new()));
}

#[test]
fn trimming_removes_both_ends_only() {
    assert_eq!(prepare_input(b"  a  b \n".to_vec(), true), Ok(b"a  b".to_vec()));
    assert_eq!(prepare_input(b"\t\r\n".to_vec(), true), Ok(Vec::new()));
    assert_eq!(prepare_input(Vec::new(), true), Ok(Vec::new()));
    assert_eq!(prepare_input(b"x".to_vec(), true), Ok(b"x".to_vec()));
}

#[test]
fn trimming_knows_unicode_whitespace() {
    let input = "\u{3000}\u{a0}caf\u{e9} \u{2003}au lait\u{2028}\u{85}".as_bytes().to_vec();
    let expected = "caf\u{e9} \u{2003}au lait".as_bytes().to_vec();
    assert_eq!(prepare_input(input, true), Ok(expected));
    // A zero-width space is no whitespace.
    let kept = "\u{200b}a\u{200b}".as_bytes().to_vec();
    assert_eq!(prepare_input(kept.clone(), true), Ok(kept));
}

#[test]
fn trimming_refuses_what_is_no_text() {
    assert_eq!(prepare_input(vec![b'a', 0xff], true), Err(SignError::MalformedInput));
    assert_eq!(prepare_input(vec![0xe2, 0x82], true), Err(SignError::MalformedInput));
    assert_eq!(prepare_input(vec![0xed, 0xa0, 0x80], true), Err(SignError::MalformedInput));
}
