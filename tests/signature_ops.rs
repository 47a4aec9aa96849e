use cafezinho::buffer::join_bytes;
use cafezinho::buffer::fixed;
use cafezinho::ops::generate;
use cafezinho::ops::keypair_from_seed;
use cafezinho::ops::sign;
use cafezinho::ops::valid_point;
use cafezinho::ops::verify;
use cafezinho::reason::Reason;

const ZERO_SEED_PUBLIC_KEY: [u8; 32] = [
    59, 106, 39, 188, 206, 182, 164, 45, 98, 163, 168, 208, 42, 111, 13, 115, 101, 50, 21, 119,
    29, 226, 67, 166, 58, 192, 72, 161, 139, 89, 218, 41,
];

const ZERO_SEED_EMPTY_SIGNATURE: [u8; 64] = [
    143, 137, 91, 60, 175, 226, 201, 80, 96, 57, 208, 226, 166, 99, 130, 86, 128, 4, 103, 79, 232,
    210, 55, 120, 80, 146, 228, 13, 106, 175, 72, 62, 79, 198, 1, 104, 112, 95, 49, 241, 1, 89, 97,
    56, 206, 33, 170, 53, 124, 13, 50, 160, 100, 244, 35, 220, 62, 228, 170, 58, 191, 83, 248, 3,
];

const ZERO_SEED_X_SIGNATURE: [u8; 64] = [
    247, 244, 149, 243, 4, 33, 124, 74, 253, 75, 81, 100, 34, 217, 101, 111, 166, 16, 62, 142, 249,
    56, 56, 94, 192, 74, 155, 147, 187, 50, 194, 83, 104, 139, 141, 186, 210, 24, 114, 19, 173,
    221, 214, 27, 249, 188, 205, 65, 30, 10, 243, 133, 166, 159, 215, 35, 213, 181, 199, 143, 21,
    68, 212, 3,
];

fn zero_seed_secret_key() -> [u8; 64] {
    let mut sk = [0u8; 64];
    sk[32..].copy_from_slice(&ZERO_SEED_PUBLIC_KEY);
    sk
}

#[test]
fn keypair_from_zero_seed_is_pinned() {
    let keypair = keypair_from_seed(&[0u8; 32]).unwrap();
    assert_eq!(keypair.public_key, ZERO_SEED_PUBLIC_KEY);
    assert_eq!(keypair.secret_key, zero_seed_secret_key());
}

#[test]
fn sign_empty_message_with_zero_seed_is_pinned() {
    let keypair = keypair_from_seed(&[0u8; 32]).unwrap();
    assert_eq!(sign(b"", &keypair.secret_key), Ok(ZERO_SEED_EMPTY_SIGNATURE));
    assert_eq!(sign(b"x", &keypair.secret_key), Ok(ZERO_SEED_X_SIGNATURE));
}

#[test]
fn verify_pinned_signature_on_its_message_succeeds() {
    assert_eq!(verify(&ZERO_SEED_EMPTY_SIGNATURE, b"", &ZERO_SEED_PUBLIC_KEY), Ok(()));
    assert_eq!(verify(&ZERO_SEED_X_SIGNATURE, b"x", &ZERO_SEED_PUBLIC_KEY), Ok(()));
}

#[test]
fn verify_pinned_signature_on_other_message_fails() {
    assert_eq!(
        verify(&ZERO_SEED_EMPTY_SIGNATURE, b"x", &ZERO_SEED_PUBLIC_KEY),
        Err(Reason::InvalidSignature)
    );
}

#[test]
fn short_seed_is_refused() {
    assert_eq!(keypair_from_seed(&[0u8; 31]).unwrap_err(), Reason::WrongSeedSize);
    assert_eq!(keypair_from_seed(&[0u8; 33]).unwrap_err(), Reason::WrongSeedSize);
    assert_eq!(keypair_from_seed(&[]).unwrap_err(), Reason::WrongSeedSize);
}

#[test]
fn short_secret_key_is_refused() {
    assert_eq!(sign(b"message", &[0u8; 63]), Err(Reason::WrongSecretKeySize));
    assert_eq!(sign(b"message", &[0u8; 65]), Err(Reason::WrongSecretKeySize));
}

#[test]
fn long_signature_is_refused() {
    assert_eq!(
        verify(&[0u8; 65], b"", &ZERO_SEED_PUBLIC_KEY),
        Err(Reason::WrongSignatureSize)
    );
    assert_eq!(
        verify(&[0u8; 63], b"", &ZERO_SEED_PUBLIC_KEY),
        Err(Reason::WrongSignatureSize)
    );
}

#[test]
fn short_public_key_is_refused() {
    assert_eq!(
        verify(&ZERO_SEED_EMPTY_SIGNATURE, b"", &ZERO_SEED_PUBLIC_KEY[..31]),
        Err(Reason::WrongPublicKeySize)
    );
}

#[test]
fn signature_size_is_checked_before_public_key_size() {
    assert_eq!(verify(&[0u8; 10], b"", &[0u8; 10]), Err(Reason::WrongSignatureSize));
}

#[test]
fn wrong_point_size_is_refused() {
    assert_eq!(valid_point(&[0u8; 31]), Err(Reason::WrongKeySize));
    assert_eq!(valid_point(&[0u8; 64]), Err(Reason::WrongKeySize));
}

#[test]
fn keypair_from_seed_is_deterministic() {
    let seed: Vec<u8> = (0u8..32).collect();
    let first = keypair_from_seed(&seed).unwrap();
    let second = keypair_from_seed(&seed).unwrap();
    assert_eq!(first.public_key, second.public_key);
    assert_eq!(first.secret_key, second.secret_key);
    assert_eq!(&first.secret_key[..32], &seed[..]);
    assert_eq!(&first.secret_key[32..], &first.public_key[..]);
}

#[test]
fn different_seeds_give_different_public_keys() {
    let zero = keypair_from_seed(&[0u8; 32]).unwrap();
    let mut seed = [0u8; 32];
    seed[31] = 1;
    let one = keypair_from_seed(&seed).unwrap();
    assert_ne!(zero.public_key, one.public_key);
}

#[test]
fn sign_then_verify_round_trips() {
    let keypair = keypair_from_seed(&[7u8; 32]).unwrap();
    for message in [&b""[..], b"a", b"hello world", &[0xffu8; 1000][..]] {
        let signature = sign(message, &keypair.secret_key).unwrap();
        assert_eq!(verify(&signature, message, &keypair.public_key), Ok(()));
    }
}

#[test]
fn generated_keypair_round_trips() {
    let keypair = generate();
    let signature = sign(b"payload", &keypair.secret_key).unwrap();
    assert_eq!(verify(&signature, b"payload", &keypair.public_key), Ok(()));
    let again = keypair_from_seed(&keypair.secret_key[..32]).unwrap();
    assert_eq!(again.public_key, keypair.public_key);
    assert_eq!(again.secret_key, keypair.secret_key);
}

#[test]
fn every_single_bit_flip_is_detected() {
    let keypair = keypair_from_seed(&[3u8; 32]).unwrap();
    let message = b"hello".to_vec();
    let signature = sign(&message, &keypair.secret_key).unwrap();
    for byte in 0..message.len() {
        for bit in 0..8 {
            let mut tampered = message.clone();
            tampered[byte] ^= 1 << bit;
            assert_eq!(
                verify(&signature, &tampered, &keypair.public_key),
                Err(Reason::InvalidSignature)
            );
        }
    }
}

#[test]
fn tampered_signature_is_invalid() {
    let mut signature = ZERO_SEED_EMPTY_SIGNATURE;
    signature[0] ^= 1;
    assert_eq!(
        verify(&signature, b"", &ZERO_SEED_PUBLIC_KEY),
        Err(Reason::InvalidSignature)
    );
}

#[test]
fn signing_reads_only_the_seed_half() {
    let mut secret_key = zero_seed_secret_key();
    for b in secret_key[32..].iter_mut() {
        *b = 0;
    }
    assert_eq!(sign(b"", &secret_key), Ok(ZERO_SEED_EMPTY_SIGNATURE));
}

#[test]
fn derived_public_keys_are_valid_points() {
    assert_eq!(valid_point(&ZERO_SEED_PUBLIC_KEY), Ok(true));
    let generated = generate();
    assert_eq!(valid_point(&generated.public_key), Ok(true));
    let seeded = keypair_from_seed(&[42u8; 32]).unwrap();
    assert_eq!(valid_point(&seeded.public_key), Ok(true));
}

#[test]
fn zero_buffer_is_not_a_point() {
    assert_eq!(valid_point(&[0u8; 32]), Ok(false));
}

#[test]
fn neutral_element_is_not_a_point() {
    let mut identity = [0u8; 32];
    identity[0] = 1;
    assert_eq!(valid_point(&identity), Ok(false));
}

#[test]
fn high_bit_is_ignored_by_the_point_check() {
    let mut key = ZERO_SEED_PUBLIC_KEY;
    key[31] |= 0x80;
    assert_eq!(valid_point(&key), Ok(true));
}

#[test]
fn fixed_copies_exact_length_only() {
    let bytes: Vec<u8> = (1u8..=4).collect();
    assert_eq!(fixed::<4>(&bytes, Reason::WrongKeySize), Ok([1, 2, 3, 4]));
    assert_eq!(fixed::<3>(&bytes, Reason::WrongKeySize), Err(Reason::WrongKeySize));
    assert_eq!(fixed::<5>(&bytes, Reason::WrongSeedSize), Err(Reason::WrongSeedSize));
}

#[test]
fn concat_joins_in_order() {
    assert_eq!(join_bytes(&[1, 2], &[3]), vec![1, 2, 3]);
    assert_eq!(join_bytes(&[], &[]), Vec::<u8>::new());
}
