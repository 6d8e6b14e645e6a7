use keyboard_shared::checksum::{csum, fold};
use std::hash::Hasher;

fn xor_bytes(h: u64) -> u8 {
    h.to_le_bytes().iter().fold(0, |a, b| a ^ b)
}

#[test]
fn fold_xors_the_eight_bytes() {
    assert_eq!(fold(0), 0);
    assert_eq!(fold(0x0102_0408_1020_4080), 0xff);
    assert_eq!(fold(0xff00_0000_0000_0000), 0xff);
    assert_eq!(fold(0xffff_ffff_ffff_ffff), 0);
    assert_eq!(fold(0xcbf2_9ce4_8422_2325), 0xcb ^ 0xf2 ^ 0x9c ^ 0xe4 ^ 0x84 ^ 0x22 ^ 0x23 ^ 0x25);
}

#[test]
fn digest_of_nothing_is_the_folded_offset_basis() {
    assert_eq!(csum(&[]), xor_bytes(0xcbf2_9ce4_8422_2325));
}

#[test]
fn digest_matches_published_fnv1a_vectors() {
    // FNV-1a, 64 bit: "a" and "foobar".
    assert_eq!(csum(b"a"), xor_bytes(0xaf63_dc4c_8601_ec8c));
    assert_eq!(csum(b"foobar"), xor_bytes(0x8594_4171_f739_67e8));
}

#[test]
fn digest_is_the_fold_of_the_fnv_hasher() {
    let inputs: [&[u8]; 5] = [&[], &[0], &[5], &[0, 0x34, 0x12, 7], &[255; 40]];
    for input in inputs {
        let mut hasher = fnv::FnvHasher::default();
        hasher.write(input);
        assert_eq!(csum(input), xor_bytes(hasher.finish()));
    }
}

#[test]
fn digest_depends_on_the_order_of_the_bytes() {
    assert_ne!(csum(&[1, 2]), csum(&[2, 1]));
    assert_ne!(csum(&[0, 5]), csum(&[5, 0]));
}

#[test]
fn digest_is_not_the_input() {
    assert_ne!(csum(&[5]), 5);
    assert_ne!(csum(&[0]), 0);
}

#[test]
fn single_bit_flips_change_the_digest() {
    // Representative serialised commands followed by their identifier.
    let corpus: [&[u8]; 8] = [
        &[5],
        &[1, 0],
        &[0, 0x34, 0x12, 5],
        &[2, 3, 0, 7],
        &[0, 0x42, 7],
        &[1, 0x42, 8],
        &[0, 0x10, 0x27, 0, 0, 3],
        &[3, 126, 0xff, 0, 0xff, 0, 1, 2, 3, 4, 9],
    ];
    for bytes in corpus {
        let sound = csum(bytes);
        for at in 0..bytes.len() {
            for bit in 0..8 {
                let mut flipped = bytes.to_vec();
                flipped[at] ^= 1 << bit;
                assert_ne!(csum(&flipped), sound, "{:?} byte {} bit {}", bytes, at, bit);
            }
        }
    }
}

#[test]
fn digest_of_one_byte_can_collide() {
    // One byte cannot tell all corruptions apart: this flip goes unseen.
    assert_eq!(csum(&[2, 1, 0, 6]), 173);
    assert_eq!(csum(&[2, 1 ^ (1 << 5), 0, 6]), 173);
}
