//! The content identity hash against published SHA-256 vectors.

use fitcore::identity::compute_file_hash;

#[test]
fn digest_of_empty_input() {
    assert_eq!(
        compute_file_hash(&vec![]),
        "e3b0c44298fc1c149afbf4c8996fb92427ae41e4649b934ca495991b7852b855"
    );
}

#[test]
fn digest_of_known_vector() {
    let data = b"abc".to_vec();
    assert_eq!(
        compute_file_hash(&data),
        "ba7816bf8f01cfea414140de5dae2223b00361a396177a9cb410ff61f20015ad"
    );
}

#[test]
fn digest_is_stable_across_calls() {
    let data = vec![0u8, 1, 2, 3, 255];
    assert_eq!(compute_file_hash(&data), compute_file_hash(&data));
}

#[test]
fn digest_is_always_64_characters() {
    assert_eq!(compute_file_hash(&vec![]).len(), 64);
    assert_eq!(compute_file_hash(&vec![7u8; 1000]).len(), 64);
}
