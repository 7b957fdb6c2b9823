use lethe_server::pow::{leading_zero_bits, verify};

#[test]
fn counts_leading_zero_bits() {
    assert_eq!(leading_zero_bits(&[0x00, 0x80]), 8);
    assert_eq!(leading_zero_bits(&[0x00, 0x00, 0x40]), 17);
    assert_eq!(leading_zero_bits(&[0xff]), 0);
}

#[test]
fn rejects_when_too_few_zeros() {
    assert!(!verify(b"tid", "body", b"nope", 30));
}

#[test]
fn leading_zero_bits_of_all_zero_digest_is_its_width() {
    assert_eq!(leading_zero_bits(&[0u8; 32]), 256);
    assert_eq!(leading_zero_bits(&[]), 0);
    assert_eq!(leading_zero_bits(&[0x01]), 7);
}

#[test]
fn zero_difficulty_always_holds() {
    assert!(verify(b"tid", "body", b"any", 0));
}

#[test]
fn difficulty_is_monotone_on_a_found_nonce() {
    // Search a nonce that solves 8 bits, then check every lower difficulty.
    let mut found = None;
    for n in 0u32..100_000 {
        let nonce = n.to_be_bytes();
        if verify(b"thread", "hello", &nonce, 8) {
            found = Some(nonce);
            break;
        }
    }
    let nonce = found.expect("a nonce for 8 bits exists among the first 100k");
    for bits in 0..=8 {
        assert!(verify(b"thread", "hello", &nonce, bits));
    }
}
