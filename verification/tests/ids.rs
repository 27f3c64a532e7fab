use lp::ids::{generate_id, hex_char, HexGenerator, HEX_CHARSET, ID_LEN};

#[test]
fn hex_chars_by_index() {
    assert_eq!(hex_char(0), '0');
    assert_eq!(hex_char(9), '9');
    assert_eq!(hex_char(10), 'a');
    assert_eq!(hex_char(15), 'f');
    assert_eq!(HEX_CHARSET.len(), 16);
}

#[test]
fn samples_are_hex_digits() {
    let generator = HexGenerator::new();
    let mut rng = rand::thread_rng();
    for _ in 0..1000 {
        let c = generator.sample(&mut rng);
        assert!(HEX_CHARSET.contains(c));
    }
}

#[test]
fn samples_cover_the_charset() {
    let generator = HexGenerator::new();
    let mut rng = rand::thread_rng();
    let mut seen = std::collections::BTreeSet::new();
    for _ in 0..4000 {
        seen.insert(generator.sample(&mut rng));
    }
    assert_eq!(seen.len(), 16);
}

#[test]
fn generated_ids_are_32_hex_digits() {
    let generator = HexGenerator::new();
    let mut rng = rand::thread_rng();
    assert_eq!(ID_LEN, 32);
    let a = generate_id(&generator, &mut rng);
    let b = generate_id(&generator, &mut rng);
    for id in [&a, &b] {
        assert_eq!(id.chars().count(), 32);
        assert!(id.chars().all(|c| c.is_ascii_hexdigit() && !c.is_ascii_uppercase()));
    }
    assert_ne!(a, b);
}
