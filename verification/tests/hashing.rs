use atomic_swap::hashing::{check_hash_type, generate_hash};

#[test]
fn sha3_256_of_swordfish() {
    assert_eq!(
        generate_hash("sha3-256", "swordfish"),
        "1ff820acd78d5fc1bee18b39a0d60025bf8bbf04ef8c6fabb8cb708a8789917f"
    );
}

#[test]
fn sha3_512_of_swordfish() {
    assert_eq!(
        generate_hash("sha3-512", "swordfish"),
        "7e1dd348610bb31b0c024eb65ada27892924078ade2ae6d9903610b1af996219285d49d4cf93b0e7849d8ce463b70ab6882929c27ee714946a6f49bde002036b"
    );
}

#[test]
fn keccak256_of_swordfish() {
    assert_eq!(
        generate_hash("Keccak256", "swordfish"),
        "c19ca5dac3109487a59829d1898e02b747e06ebe45d7b64c525627a393c35af1"
    );
}

#[test]
fn keccak512_of_swordfish() {
    assert_eq!(
        generate_hash("Keccak512", "swordfish"),
        "39094f2ddbf6ab192d370727946863c47a6bb4997dc4dc6041c2c616bfd526656ccc6e4ebacb727e61a47661dc98568bbf07564cfc32fc2d5ac04427dcef3750"
    );
}

#[test]
fn blake2b_of_swordfish() {
    assert_eq!(
        generate_hash("blake2b", "swordfish"),
        "546f0da03578bd17de9be0b305ba649daa18cc6675fe64e6bf6f0cd35719bc7b"
    );
}

#[test]
fn hashes_of_the_empty_secret() {
    assert_eq!(
        generate_hash("sha3-256", ""),
        "a7ffc6f8bf1ed76651c14756a061d662f580ff4de43b49fa82d80a4b80f8434a"
    );
    assert_eq!(
        generate_hash("Keccak256", ""),
        "c5d2460186f7233c927e7db2dcc703c0e500b653ca82273b7bfad8045d85a470"
    );
    assert_eq!(
        generate_hash("Keccak512", ""),
        "0eab42de4c3ceb9235fc91acffe746b29c29a8c366b7c60e4e67c466f36a4304c00fa9caf9d87976ba469bcbe06713b435f091ef2769fb160cdab33d3670680e"
    );
    assert_eq!(
        generate_hash("blake2b", ""),
        "0e5751c026e543b2e8ab2eb06099daa1d1e5df47778f7787faab45cdf12fe3a8"
    );
}

#[test]
fn a_secret_is_hashed_as_its_utf8_bytes() {
    assert_eq!(
        generate_hash("sha3-256", "grüße"),
        "9cf2ff50c36c04979f534ea586931bee4d80a5ce403a8f2c4d9ca528e9e1ffb3"
    );
    assert_eq!(
        generate_hash("blake2b", "grüße"),
        "8e7026321406bcf50ea065fcc8e01021e89882d8b6f0166d8f43326a5c24ac4a"
    );
}

#[test]
fn hash_is_lower_case_hex_of_twice_the_digest_length() {
    for name in ["sha3-256", "Keccak256", "blake2b"] {
        let hash = generate_hash(name, "abc");
        assert_eq!(hash.len(), 64);
        assert!(hash.chars().all(|c| c.is_ascii_digit() || ('a'..='f').contains(&c)));
    }
    for name in ["sha3-512", "Keccak512"] {
        let hash = generate_hash(name, "abc");
        assert_eq!(hash.len(), 128);
        assert!(hash.chars().all(|c| c.is_ascii_digit() || ('a'..='f').contains(&c)));
    }
}

#[test]
fn the_same_secret_gives_the_same_hash() {
    for name in ["sha3-256", "sha3-512", "Keccak256", "Keccak512", "blake2b"] {
        assert_eq!(generate_hash(name, "swordfish"), generate_hash(name, "swordfish"));
        assert_ne!(generate_hash(name, "swordfish"), generate_hash(name, "swordfisi"));
    }
}

#[test]
fn the_algorithms_differ() {
    assert_ne!(generate_hash("sha3-256", "abc"), generate_hash("Keccak256", "abc"));
    assert_ne!(generate_hash("sha3-256", "abc"), generate_hash("blake2b", "abc"));
    assert_ne!(generate_hash("sha3-512", "abc"), generate_hash("Keccak512", "abc"));
    assert_eq!(
        generate_hash("sha3-256", "abc"),
        "3a985da74fe225b2045c172d6bd390bd855f086e3e9d525b46bfe24511431532"
    );
    assert_eq!(
        generate_hash("Keccak256", "abc"),
        "4e03657aea45a94fc7d47ba826c8d667c0d1e6e33a64a036ec44f58fa12d6c45"
    );
    assert_eq!(
        generate_hash("blake2b", "abc"),
        "bddd813c634239723171ef3fee98579b94964e3bb1cb3e427262c8c068d52319"
    );
}

#[test]
fn an_unknown_algorithm_gives_the_empty_hash() {
    assert_eq!(generate_hash("md5", "swordfish"), "");
    assert_eq!(generate_hash("", "swordfish"), "");
    assert_eq!(generate_hash("SHA3-256", "swordfish"), "");
}

#[test]
fn the_five_algorithms_are_accepted() {
    assert!(check_hash_type("sha3-256"));
    assert!(check_hash_type("sha3-512"));
    assert!(check_hash_type("Keccak256"));
    assert!(check_hash_type("Keccak512"));
    assert!(check_hash_type("blake2b"));
}

#[test]
fn other_names_are_refused() {
    assert!(!check_hash_type(""));
    assert!(!check_hash_type("sha256"));
    assert!(!check_hash_type("sha3-25"));
    assert!(!check_hash_type("sha3-2560"));
    assert!(!check_hash_type("SHA3-256"));
    assert!(!check_hash_type("keccak256"));
    assert!(!check_hash_type("Blake2b"));
    assert!(!check_hash_type("blake2b "));
}
