use ecdh::{InvalidPublicKey, PublicKey, SharedSecret};

fn ascending(len: usize, first: u8) -> Vec<u8> {
    (0..len).map(|i| first.wrapping_add(i as u8)).collect()
}

fn point_of(bytes: &[u8]) -> [u8; 65] {
    let mut point = [0u8; 65];
    point.copy_from_slice(bytes);
    point
}

#[test]
fn tag_goes_in_front_of_the_coordinates() {
    let mut coordinates = [0u8; 64];
    coordinates.copy_from_slice(&ascending(64, 1));
    let point = PublicKey(coordinates).to_uncompressed();
    let mut expected = vec![0x04u8];
    expected.extend_from_slice(&coordinates);
    assert_eq!(point.to_vec(), expected);
    assert_eq!(point[0], 4);
    assert_eq!(point[1], 1);
    assert_eq!(point[64], 64);
}

#[test]
fn all_zero_key_encodes_as_tag_and_zeros() {
    let point = PublicKey([0; 64]).to_uncompressed();
    assert_eq!(point[0], 0x04);
    assert!(point[1..].iter().all(|b| *b == 0));
}

#[test]
fn first_octet_is_dropped() {
    let point = point_of(&ascending(65, 4));
    let key = PublicKey::from_uncompressed(&point);
    assert_eq!(key.0.to_vec(), ascending(64, 5));
}

#[test]
fn first_octet_is_dropped_whatever_it_is() {
    let mut point = point_of(&ascending(65, 0));
    point[0] = 0xaa;
    let key = PublicKey::from_uncompressed(&point);
    assert_eq!(key.0.to_vec(), ascending(64, 1));
}

#[test]
fn tagging_and_untagging_round_trip() {
    let mut coordinates = [0u8; 64];
    coordinates.copy_from_slice(&ascending(64, 200));
    let key = PublicKey(coordinates);
    assert_eq!(PublicKey::from_uncompressed(&key.to_uncompressed()).0, coordinates);

    let mut point = point_of(&ascending(65, 9));
    point[0] = 0x04;
    assert_eq!(PublicKey::from_uncompressed(&point).to_uncompressed(), point);
}

#[test]
fn key_material_of_32_bytes_is_the_secret() {
    let material = ascending(32, 100);
    let secret = SharedSecret::from_key_material(&material).unwrap();
    assert_eq!(secret.0.to_vec(), material);
    assert_eq!(secret.0.len(), 32);
}

#[test]
fn key_material_of_other_lengths_is_refused() {
    assert!(SharedSecret::from_key_material(&[]).is_err());
    assert!(SharedSecret::from_key_material(&ascending(31, 0)).is_err());
    assert!(SharedSecret::from_key_material(&ascending(33, 0)).is_err());
    assert!(SharedSecret::from_key_material(&ascending(48, 0)).is_err());
    assert!(SharedSecret::from_key_material(&ascending(64, 0)).is_err());
}

#[test]
fn error_value_carries_nothing() {
    assert_eq!(InvalidPublicKey::new(), InvalidPublicKey {});
    let refused = SharedSecret::from_key_material(&[1, 2, 3]);
    assert!(matches!(refused, Err(InvalidPublicKey {})));
}
