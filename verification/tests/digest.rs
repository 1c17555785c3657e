use uv_publish::{hash_bytes, FileHasher};

#[test]
fn digest_of_nothing() {
    assert_eq!(
        hash_bytes(b""),
        "e3b0c44298fc1c149afbf4c8996fb92427ae41e4649b934ca495991b7852b855"
    );
    assert_eq!(
        FileHasher::new().finalize(),
        "e3b0c44298fc1c149afbf4c8996fb92427ae41e4649b934ca495991b7852b855"
    );
}

#[test]
fn digest_of_abc() {
    assert_eq!(
        hash_bytes(b"abc"),
        "ba7816bf8f01cfea414140de5dae2223b00361a396177a9cb410ff61f20015ad"
    );
}

#[test]
fn digest_of_two_blocks() {
    assert_eq!(
        hash_bytes(b"abcdbcdecdefdefgefghfghighijhijkijkljklmklmnlmnomnopnopq"),
        "248d6a61d20638b8e5c026930c3e6039a33ce45964ff2167f6ecedd419db06c1"
    );
}

#[test]
fn digest_does_not_depend_on_the_chunks() {
    let content: Vec<u8> = (0..10_000u32).map(|i| (i % 251) as u8).collect();
    let whole = hash_bytes(&content);
    for size in [1usize, 7, 64, 4096, 10_000, 20_000] {
        let mut hasher = FileHasher::new();
        for chunk in content.chunks(size) {
            hasher.update(chunk);
        }
        assert_eq!(hasher.finalize(), whole);
    }
    let mut hasher = FileHasher::new();
    hasher.update(b"");
    hasher.update(&content);
    hasher.update(b"");
    assert_eq!(hasher.finalize(), whole);
}

#[test]
fn same_content_gives_the_same_digest() {
    let content = b"the same file, hashed twice";
    assert_eq!(hash_bytes(content), hash_bytes(content));
}

#[test]
fn changing_one_byte_changes_the_digest() {
    let content = b"a wheel or a source distribution".to_vec();
    let digest = hash_bytes(&content);
    for i in 0..content.len() {
        let mut changed = content.clone();
        changed[i] ^= 1;
        assert_ne!(hash_bytes(&changed), digest);
    }
}

#[test]
fn digest_is_lower_case_hexadecimal() {
    let digest = hash_bytes(b"Hello, world!");
    assert_eq!(
        digest,
        "315f5bdb76d078c43b8ac0064e4a0164612b1fce77c869345bfc94c75894edd3"
    );
    assert_eq!(digest.len(), 64);
    assert!(digest
        .chars()
        .all(|c| c.is_ascii_digit() || ('a'..='f').contains(&c)));
}

#[test]
fn order_of_chunks_matters() {
    let mut forward = FileHasher::new();
    forward.update(b"ab");
    forward.update(b"cd");
    let mut backward = FileHasher::new();
    backward.update(b"cd");
    backward.update(b"ab");
    assert_ne!(forward.finalize(), backward.finalize());
}
