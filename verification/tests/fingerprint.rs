use smart_cache::hash_token_stream;

fn hex(bytes: &[u8; 32]) -> String {
    let mut text = String::new();
    for byte in bytes {
        text.push_str(&format!("{byte:02x}"));
    }
    text
}

#[test]
fn fingerprint_of_the_empty_text() {
    assert_eq!(
        hex(&hash_token_stream("")),
        "e3b0c44298fc1c149afbf4c8996fb92427ae41e4649b934ca495991b7852b855"
    );
}

#[test]
fn fingerprint_of_a_known_text() {
    assert_eq!(
        hex(&hash_token_stream("abc")),
        "ba7816bf8f01cfea414140de5dae2223b00361a396177a9cb410ff61f20015ad"
    );
}

#[test]
fn fingerprint_is_the_same_for_the_same_text() {
    let text = "fn inner (n : u64) -> u64 { n + 1 }";
    assert_eq!(hash_token_stream(text), hash_token_stream(&text.to_string()));
}

#[test]
fn fingerprint_changes_with_the_text() {
    assert_ne!(
        hash_token_stream("fn inner (n : u64) -> u64 { n + 1 }"),
        hash_token_stream("fn inner (n : u64) -> u64 { n + 2 }")
    );
}
