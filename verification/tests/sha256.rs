use labcolors_core::sha256::Hasher;

fn digest_of(parts: &[&[u8]]) -> [u8; 32] {
    let mut hasher = Hasher::new();
    for part in parts {
        hasher.update(part);
    }
    hasher.finalize()
}

fn hex(bytes: &[u8; 32]) -> String {
    bytes.iter().map(|b| format!("{b:02x}")).collect()
}

#[test]
fn sha256_of_abc_matches_the_standard_vector() {
    assert_eq!(
        hex(&digest_of(&["abc".as_bytes()])),
        "ba7816bf8f01cfea414140de5dae2223b00361a396177a9cb410ff61f20015ad"
    );
}

#[test]
fn sha256_of_empty_input_matches_the_standard_vector() {
    assert_eq!(
        hex(&digest_of(&[])),
        "e3b0c44298fc1c149afbf4c8996fb92427ae41e4649b934ca495991b7852b855"
    );
}

#[test]
fn sha256_of_two_block_message_matches_the_standard_vector() {
    let message = "abcdbcdecdefdefgefghfghighijhijkijkljklmklmnlmnomnopnopq";
    assert_eq!(
        hex(&digest_of(&[message.as_bytes()])),
        "248d6a61d20638b8e5c026930c3e6039a33ce45964ff2167f6ecedd419db06c1"
    );
}

#[test]
fn sha256_is_independent_of_how_input_is_split() {
    let whole = digest_of(&["hello world, this is a longer message".as_bytes()]);
    let split = digest_of(&[
        "hello ".as_bytes(),
        "world, this is a ".as_bytes(),
        "longer message".as_bytes(),
    ]);
    assert_eq!(whole, split);
}
