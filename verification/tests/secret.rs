use openshell::secret::generate_secret;

#[test]
fn secret_is_the_hex_of_the_bytes() {
    let mut bytes = [0u8; 32];
    bytes[0] = 0x0f;
    bytes[1] = 0xa0;
    bytes[31] = 0xff;
    let expected: String = bytes.iter().map(|b| format!("{b:02x}")).collect();
    assert_eq!(generate_secret(&bytes), expected);
    assert_eq!(generate_secret(&[0u8; 32]), "0".repeat(64));
}

#[test]
fn every_byte_has_its_own_digits() {
    let mut seen: Vec<String> = Vec::new();
    for b in 0..=255u8 {
        let secret = generate_secret(&[b; 32]);
        assert_eq!(&secret[..2], format!("{b:02x}"));
        assert!(!seen.contains(&secret));
        seen.push(secret);
    }
}
