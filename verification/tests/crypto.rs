use relayer::crypto::{biguint_to_scalar, Scalar};

/// The group order, the least significant byte first.
fn group_order() -> Vec<u8> {
    let mut bytes: Vec<u8> = vec![
        0xed, 0xd3, 0xf5, 0x5c, 0x1a, 0x63, 0x12, 0x58, 0xd6, 0x9c, 0xf7, 0xa2, 0xde, 0xf9, 0xde,
        0x14,
    ];
    bytes.extend(vec![0u8; 15]);
    bytes.push(0x10);
    bytes
}

#[test]
fn zero_is_all_zeros() {
    assert_eq!(Scalar::zero().bytes, [0u8; 32]);
    assert_eq!(biguint_to_scalar(&vec![]), Scalar::zero());
}

#[test]
fn small_numbers_are_their_own_scalars() {
    let scalar = biguint_to_scalar(&vec![7, 1]);
    assert_eq!(scalar.bytes[0], 7);
    assert_eq!(scalar.bytes[1], 1);
    assert_eq!(&scalar.bytes[2..], &[0u8; 30][..]);
}

#[test]
fn the_group_order_is_zero() {
    assert_eq!(biguint_to_scalar(&group_order()), Scalar::zero());
}

#[test]
fn numbers_are_reduced_by_the_group_order() {
    let mut number = group_order();
    number[0] += 5;
    assert_eq!(biguint_to_scalar(&number), biguint_to_scalar(&vec![5]));
}

#[test]
fn long_numbers_are_reduced_too() {
    // The group order times 2^320, plus 9.
    let mut number: Vec<u8> = vec![0; 40];
    number.extend(group_order());
    number[0] = 9;
    assert_eq!(biguint_to_scalar(&number), biguint_to_scalar(&vec![9]));
}

#[test]
fn leading_zeros_do_not_matter() {
    assert_eq!(biguint_to_scalar(&vec![3, 0, 0]), biguint_to_scalar(&vec![3]));
}

#[test]
fn agrees_with_the_wide_reduction() {
    let bytes = [0xffu8; 64];
    let expected = curve25519_dalek::scalar::Scalar::from_bytes_mod_order_wide(&bytes).to_bytes();
    assert_eq!(biguint_to_scalar(&bytes.to_vec()).bytes, expected);
}
