use png_edge::signature::has_png_signature;

const SIGNATURE: [u8; 8] = [0x89, 0x50, 0x4E, 0x47, 0x0D, 0x0A, 0x1A, 0x0A];

#[test]
fn the_signature_alone_is_accepted() {
    assert!(has_png_signature(&SIGNATURE));
}

#[test]
fn the_signature_with_more_bytes_is_accepted() {
    let mut bytes = SIGNATURE.to_vec();
    bytes.extend_from_slice(&[0, 0, 0, 13, b'I', b'H', b'D', b'R']);
    assert!(has_png_signature(&bytes));
}

#[test]
fn every_prefix_of_the_signature_is_rejected() {
    for len in 0..8 {
        assert!(!has_png_signature(&SIGNATURE[0..len]), "length {}", len);
    }
}

#[test]
fn a_change_in_any_byte_is_rejected() {
    for i in 0..8 {
        for bit in 0..8 {
            let mut bytes = SIGNATURE.to_vec();
            bytes[i] ^= 1 << bit;
            bytes.extend_from_slice(&[1, 2, 3]);
            assert!(!has_png_signature(&bytes), "byte {} bit {}", i, bit);
        }
    }
}

#[test]
fn the_signature_further_in_is_rejected() {
    let mut bytes = vec![0u8];
    bytes.extend_from_slice(&SIGNATURE);
    assert!(!has_png_signature(&bytes));
}
