use starks_vm::crypto::hash;
use starks_vm::utils::as_bytes;

fn one_to_four() -> Vec<u8> {
    let value = [1u128, 2, 3, 4];
    as_bytes(&value)
}

#[test]
fn poseidon() {
    let value = [1u128, 2, 3, 4];
    let mut result = [0; 32];
    hash::poseidon(&as_bytes(&value), &mut result);

    assert_eq!([
        224,  9,  85,  92, 75, 117, 136,  23, 142,  67, 249, 199, 39, 177,  97, 129,
        93, 192, 153, 131, 76, 160,  94, 162, 200, 192, 187,   5, 159, 69,  48, 165],
        result);
}

#[test]
fn rescue() {
    let value = [1u128, 2, 3, 4];
    let mut result = [0; 32];
    hash::rescue(&as_bytes(&value), &mut result);

    assert_eq!([
        148, 191,  96, 185, 107, 196, 170,  28, 161, 214, 196, 211, 158, 111, 135, 32,
        122, 173, 195,  37, 123,  60, 246, 104, 176,  53, 127,  67,  38, 208,  69, 54],
        result);
}

#[test]
fn gmimc() {
    let value = [1u128, 2, 3, 4];
    let mut result = [0; 32];
    hash::gmimc(&as_bytes(&value), &mut result);

    assert_eq!([
        115, 208,  64, 41, 162,  43, 134, 243, 236,  80, 161, 106, 195, 234, 30, 26,
         71,  74, 255, 77,  41, 125,  25, 152, 162, 106,  65, 108,  84, 216, 37, 37],
        result);
}

#[test]
fn poseidon_of_empty_input() {
    let mut result = [0xaau8; 32];
    hash::poseidon(&[], &mut result);
    assert_eq!([
        183, 33, 236, 114, 170, 85, 19, 116, 119, 204, 34, 155, 25, 30, 16, 54,
        141, 12, 53, 29, 70, 133, 26, 100, 162, 209, 139, 161, 56, 118, 236, 254],
        result);
}

#[test]
fn rescue_of_empty_input() {
    let mut result = [0xaau8; 32];
    hash::rescue(&[], &mut result);
    assert_eq!([
        25, 47, 132, 2, 1, 20, 70, 127, 227, 45, 2, 201, 94, 248, 133, 91,
        13, 156, 39, 192, 89, 184, 132, 237, 91, 57, 98, 250, 183, 21, 120, 38],
        result);
}

#[test]
fn gmimc_of_empty_input() {
    let mut result = [0xaau8; 32];
    hash::gmimc(&[], &mut result);
    assert_eq!([
        13, 60, 101, 234, 120, 155, 240, 178, 136, 40, 119, 80, 117, 205, 11, 68,
        99, 147, 115, 212, 43, 133, 125, 121, 235, 185, 192, 244, 105, 130, 18, 144],
        result);
}

#[test]
fn short_input_is_extended_by_zeros() {
    let mut padded = [0u8; 64];
    padded[0] = b'a';
    padded[1] = b'b';
    padded[2] = b'c';

    let mut short = [0u8; 32];
    let mut long = [0u8; 32];
    hash::poseidon(b"abc", &mut short);
    hash::poseidon(&padded, &mut long);
    assert_eq!(short, long);
    assert_eq!([
        234, 110, 223, 19, 199, 152, 53, 34, 6, 96, 214, 138, 244, 75, 63, 134,
        8, 57, 100, 23, 221, 241, 12, 234, 241, 143, 79, 186, 233, 140, 231, 58],
        short);

    hash::rescue(b"abc", &mut short);
    hash::rescue(&padded, &mut long);
    assert_eq!(short, long);
    assert_eq!([
        237, 111, 252, 88, 12, 143, 220, 168, 99, 253, 136, 58, 99, 132, 213, 234,
        67, 148, 139, 26, 174, 117, 141, 177, 9, 235, 174, 144, 32, 202, 221, 14],
        short);

    hash::gmimc(b"abc", &mut short);
    hash::gmimc(&padded, &mut long);
    assert_eq!(short, long);
    assert_eq!([
        233, 120, 179, 72, 133, 27, 140, 146, 118, 116, 14, 43, 149, 180, 80, 77,
        236, 144, 210, 192, 112, 244, 162, 93, 136, 210, 53, 6, 113, 86, 118, 234],
        short);
}

#[test]
fn input_words_above_the_modulus_are_reduced() {
    let input = [0xffu8; 64];
    let mut result = [0u8; 32];

    hash::poseidon(&input, &mut result);
    assert_eq!([
        251, 58, 95, 187, 12, 201, 126, 173, 246, 95, 167, 163, 116, 54, 13, 221,
        85, 23, 91, 76, 122, 240, 235, 239, 109, 37, 115, 131, 50, 211, 37, 92],
        result);

    hash::rescue(&input, &mut result);
    assert_eq!([
        2, 211, 79, 172, 144, 39, 32, 39, 196, 207, 199, 55, 249, 138, 177, 117,
        227, 42, 28, 35, 243, 120, 177, 215, 207, 253, 182, 236, 158, 129, 208, 102],
        result);

    hash::gmimc(&input, &mut result);
    assert_eq!([
        238, 59, 150, 3, 138, 24, 204, 149, 85, 99, 61, 255, 232, 60, 93, 55,
        103, 188, 223, 45, 147, 115, 238, 47, 96, 150, 4, 44, 170, 246, 72, 167],
        result);
}

#[test]
fn repeated_calls_agree() {
    let input = one_to_four();
    let mut first = [0u8; 32];
    let mut second = [0xffu8; 32];

    hash::poseidon(&input, &mut first);
    hash::poseidon(&input, &mut second);
    assert_eq!(first, second);

    hash::rescue(&input, &mut first);
    hash::rescue(&input, &mut second);
    assert_eq!(first, second);

    hash::gmimc(&input, &mut first);
    hash::gmimc(&input, &mut second);
    assert_eq!(first, second);

    hash::blake3(&input, &mut first);
    hash::blake3(&input, &mut second);
    assert_eq!(first, second);

    hash::sha3(&input, &mut first);
    hash::sha3(&input, &mut second);
    assert_eq!(first, second);
}

#[test]
fn one_flipped_bit_changes_every_output_byte() {
    let input = one_to_four();
    let mut flipped = input.clone();
    flipped[0] ^= 1;

    let mut a = [0u8; 32];
    let mut b = [0u8; 32];

    hash::poseidon(&input, &mut a);
    hash::poseidon(&flipped, &mut b);
    assert_eq!([
        93, 27, 75, 239, 60, 187, 178, 105, 240, 237, 115, 128, 36, 151, 93, 194,
        241, 250, 81, 166, 130, 174, 52, 39, 158, 147, 220, 235, 23, 56, 151, 198],
        b);
    assert!((0..32).all(|i| a[i] != b[i]));

    hash::rescue(&input, &mut a);
    hash::rescue(&flipped, &mut b);
    assert_eq!([
        61, 131, 214, 128, 148, 192, 4, 199, 218, 78, 84, 155, 58, 162, 63, 173,
        199, 233, 54, 153, 145, 238, 43, 209, 166, 245, 98, 198, 229, 131, 43, 61],
        b);
    assert!((0..32).all(|i| a[i] != b[i]));

    hash::gmimc(&input, &mut a);
    hash::gmimc(&flipped, &mut b);
    assert_eq!([
        46, 99, 105, 139, 234, 235, 226, 248, 18, 207, 96, 154, 116, 176, 103, 128,
        126, 43, 10, 180, 132, 224, 187, 253, 195, 133, 142, 254, 143, 247, 241, 186],
        b);
    assert!((0..32).all(|i| a[i] != b[i]));
}

#[test]
fn blake3_known_answers() {
    let mut result = [0u8; 32];
    hash::blake3(&[], &mut result);
    assert_eq!([
        0xaf, 0x13, 0x49, 0xb9, 0xf5, 0xf9, 0xa1, 0xa6, 0xa0, 0x40, 0x4d, 0xea, 0x36, 0xdc, 0xc9, 0x49,
        0x9b, 0xcb, 0x25, 0xc9, 0xad, 0xc1, 0x12, 0xb7, 0xcc, 0x9a, 0x93, 0xca, 0xe4, 0x1f, 0x32, 0x62],
        result);

    let input = one_to_four();
    hash::blake3(&input, &mut result);
    assert_eq!(*blake3::hash(&input).as_bytes(), result);
    assert_ne!(&input[..32], &result[..]);
}

#[test]
fn blake3_takes_long_input() {
    let input = vec![7u8; 1000];
    let mut result = [0u8; 32];
    hash::blake3(&input, &mut result);
    assert_eq!(*blake3::hash(&input).as_bytes(), result);
}

#[test]
fn sha3_known_answers() {
    let mut result = [0u8; 32];
    hash::sha3(b"abc", &mut result);
    assert_eq!([
        58, 152, 93, 167, 79, 226, 37, 178, 4, 92, 23, 45, 107, 211, 144, 189,
        133, 95, 8, 110, 62, 157, 82, 91, 70, 191, 226, 69, 17, 67, 21, 50],
        result);

    hash::sha3(&[], &mut result);
    assert_eq!([
        167, 255, 198, 248, 191, 30, 215, 102, 81, 193, 71, 86, 160, 97, 214, 98,
        245, 128, 255, 77, 228, 59, 73, 250, 130, 216, 10, 75, 128, 248, 67, 74],
        result);
}

#[test]
fn sha3_takes_long_input() {
    let input = vec![7u8; 1000];
    let mut result = [0u8; 32];
    hash::sha3(&input, &mut result);
    let mut again = [0u8; 32];
    hash::sha3(&input, &mut again);
    assert_eq!(result, again);
    let mut shorter = [0u8; 32];
    hash::sha3(&input[..999], &mut shorter);
    assert_ne!(result, shorter);
}

#[test]
fn write_digest_copies_the_hash() {
    let mut hash_bytes = [0u8; 32];
    for i in 0..32 {
        hash_bytes[i] = (3 * i + 1) as u8;
    }
    let mut result = [0u8; 32];
    hash::write_digest(&hash_bytes, &mut result);
    assert_eq!(hash_bytes, result);
}

#[test]
fn round_counts_fit_the_constants() {
    assert_eq!(546, hash::ARK_HEAD.len() + hash::ARK_TAIL.len());
    assert_eq!(hash::ARK_LEN, hash::ARK_HEAD.len() + hash::ARK_TAIL.len());
    assert_eq!(hash::ARK_HEAD_LEN, hash::ARK_HEAD.len());
    assert_eq!(hash::ARK_LEN, hash::POSEIDON_ROUNDS * hash::STATE_WIDTH);
    assert!((2 * hash::RESCUE_ROUNDS + 1) * hash::STATE_WIDTH <= hash::ARK_HEAD_LEN);
    assert!(hash::GMIMC_ROUNDS <= hash::ARK_HEAD_LEN);
    assert_eq!(73742662193393629993182617210984534396, hash::ARK_HEAD[0]);
    assert_eq!(314094406162389098987684450322979120529, hash::ARK_HEAD[167]);
    assert_eq!(50057060110310193394516504439805601601, hash::ARK_TAIL[0]);
    assert_eq!(285833121646488198141311208833491008916, hash::ARK_TAIL[377]);
}
