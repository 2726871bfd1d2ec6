use klipbored::hashing::calculate_hash;
use klipbored::hashing::FNV_OFFSET;

#[test]
fn hash_of_empty_input_is_the_offset_basis() {
    assert_eq!(calculate_hash(&[]), FNV_OFFSET);
    assert_eq!(calculate_hash(&[]), 0xcbf29ce484222325);
}

#[test]
fn hash_matches_known_fnv1a_vectors() {
    assert_eq!(calculate_hash(b"a"), 0xaf63dc4c8601ec8c);
    assert_eq!(calculate_hash(b"foobar"), 0x85944171f73967e8);
    assert_eq!(calculate_hash(&[1, 2, 3, 4]), 0xbe7a5e775165785d);
}

#[test]
fn hash_is_deterministic() {
    let bytes: Vec<u8> = (0..=255).collect();
    assert_eq!(calculate_hash(&bytes), calculate_hash(&bytes));
}

#[test]
fn different_bytes_give_different_hashes_on_samples() {
    assert_ne!(calculate_hash(&[0, 0, 0, 0]), calculate_hash(&[0, 0, 0, 1]));
    assert_ne!(calculate_hash(b"ab"), calculate_hash(b"ba"));
    assert_ne!(calculate_hash(b""), calculate_hash(&[0]));
}
