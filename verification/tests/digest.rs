use bit_buy_icp_backend::digest::{hash_image, MAX_MESSAGE_BYTES};
use sha2::{Digest, Sha256};

#[test]
fn digest_of_two_bytes() {
    assert_eq!(
        hash_image(&vec![0x01, 0x02]),
        "a12871fee210fb8619291eaea194581cbd2531e4b23759d225f6806923f63222"
    );
}

#[test]
fn digest_of_no_bytes() {
    assert_eq!(
        hash_image(&Vec::new()),
        "e3b0c44298fc1c149afbf4c8996fb92427ae41e4649b934ca495991b7852b855"
    );
}

#[test]
fn digest_of_abc() {
    assert_eq!(
        hash_image(&b"abc".to_vec()),
        "ba7816bf8f01cfea414140de5dae2223b00361a396177a9cb410ff61f20015ad"
    );
}

#[test]
fn digest_of_one_full_block() {
    assert_eq!(
        hash_image(&vec![0u8; 64]),
        "f5a5fd42d16a20302798ef6ed309979b43003d2320d9f0e8ea9831a92759fb4b"
    );
}

#[test]
fn digest_of_many_blocks() {
    let mut image: Vec<u8> = Vec::new();
    for _ in 0..5 {
        for byte in 0..=255u8 {
            image.push(byte);
        }
    }
    assert_eq!(image.len(), 1280);
    assert_eq!(
        hash_image(&image),
        "d414b085826eb06778483ba35564dc849e643359f69ed9747878ba6e54985bed"
    );
}

#[test]
fn digest_is_not_its_input() {
    let image = b"Hello world!".to_vec();
    let digest = hash_image(&image);
    assert_ne!(digest.as_bytes(), image.as_slice());
    assert_ne!(digest, "48656c6c6f20776f726c6421");
    assert_eq!(digest, "c0535e4be2b79ffd93291305436bf889314e4a3faec05ecffcbb7df31ad9e51a");
}

#[test]
fn digest_has_64_lowercase_hex_digits() {
    for image in [vec![], vec![0xff, 0x00, 0xab, 0x10], vec![7u8; 1000]] {
        let digest = hash_image(&image);
        assert_eq!(digest.len(), 64);
        assert_eq!(digest.chars().count(), 64);
        assert!(digest.chars().all(|c| matches!(c, '0'..='9' | 'a'..='f')));
    }
}

#[test]
fn digest_is_the_same_each_time() {
    let image = vec![0xff, 0x00, 0xab, 0x10];
    let first = hash_image(&image);
    let second = hash_image(&image);
    let of_a_copy = hash_image(&image.clone());
    assert_eq!(first, second);
    assert_eq!(first, of_a_copy);
    assert_eq!(first, "2bd351aaa2710df1120ca748f778874100edfa143276cc96ec4c57bd9a444952");
}

#[test]
fn digest_changes_with_one_byte() {
    let base = hash_image(&vec![0x01, 0x02]);
    let last_changed = hash_image(&vec![0x01, 0x03]);
    let first_changed = hash_image(&vec![0x02, 0x02]);
    assert_eq!(last_changed, "c79b932e1e1da3c0e098e5ad2c422937eb904a76cf61d83975a74a68fbb04b99");
    assert_eq!(first_changed, "50cff72c8e550546d661ec235431888fb2f9f7bada40c17020d47f6ccc117aae");
    assert_ne!(base, last_changed);
    assert_ne!(base, first_changed);
    assert_ne!(last_changed, first_changed);
}

#[test]
fn digest_changes_with_every_single_byte_mutation() {
    let image: Vec<u8> = (0..40u8).collect();
    let base = hash_image(&image);
    for at in 0..image.len() {
        let mut mutated = image.clone();
        mutated[at] ^= 0x01;
        assert_ne!(hash_image(&mutated), base);
    }
}

#[test]
fn digest_agrees_with_incremental_hashing() {
    let image = vec![0x10, 0x20, 0x30, 0x40, 0x50];
    let mut hasher = Sha256::new();
    hasher.update(&image);
    let expected = hex::encode(hasher.finalize());
    assert_eq!(hash_image(&image), expected);
}

#[test]
fn message_bound_is_the_last_length_whose_bits_fit_u64() {
    assert_eq!(MAX_MESSAGE_BYTES, (1u64 << 61) - 1);
    assert!(MAX_MESSAGE_BYTES.checked_mul(8).is_some());
    assert!((MAX_MESSAGE_BYTES + 1).checked_mul(8).is_none());
}
