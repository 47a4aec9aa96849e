//! The Ed25519 scheme itself, as dryoc computes it. Everything here is taken
//! on trust: each item names the dryoc function it relies on.

use vstd::prelude::*;

use dryoc::classic::crypto_core::crypto_core_ed25519_is_valid_point_relaxed;
use dryoc::sign::PublicKey;
use dryoc::sign::SecretKey;
use dryoc::sign::SignedMessage;
use dryoc::sign::SigningKeyPair;
use dryoc::types::ByteArray;
use dryoc::types::StackByteArray;

verus! {

#[verifier::external_type_specification]
#[verifier::external_body]
pub struct ExDryocError(dryoc::Error);

/// The public key that Ed25519 derives from a 32-byte seed.
pub uninterp spec fn seed_public_key(seed: Seq<u8>) -> Seq<u8>;

/// The Ed25519 signature of `message` under a 64-byte secret key.
pub uninterp spec fn detached_signature(secret_key: Seq<u8>, message: Seq<u8>) -> Seq<u8>;

/// Whether the Ed25519 verification equation accepts `signature` for
/// `message` under `public_key`.
pub uninterp spec fn signature_verifies(
    signature: Seq<u8>,
    message: Seq<u8>,
    public_key: Seq<u8>,
) -> bool;

/// Whether 32 bytes decode to a curve point of the main subgroup, the high bit
/// of the last byte being ignored.
pub uninterp spec fn relaxed_point(bytes: Seq<u8>) -> bool;

/// The 32 bytes of the neutral element's encoding, which no check accepts.
pub open spec fn is_identity_encoding(bytes: Seq<u8>) -> bool {
    &&& bytes.len() == 32
    &&& bytes[0] == 1
    &&& forall|i: int| 1 <= i < 32 ==> bytes[i] == 0
}

/// 32 zero bytes.
pub open spec fn is_zero_encoding(bytes: Seq<u8>) -> bool {
    &&& bytes.len() == 32
    &&& forall|i: int| 0 <= i < 32 ==> bytes[i] == 0
}

/// Relies on `SigningKeyPair::from_seed`: the secret key is the seed followed
/// by the public key derived from it.
#[verifier::external_body]
pub(crate) fn keypair_of_seed(seed: &[u8; 32]) -> (r: ([u8; 32], [u8; 64]))
    ensures
        r.0@ == seed_public_key(seed@),
        r.1@ == seed@ + seed_public_key(seed@),
{
    let keypair = SigningKeyPair::<PublicKey, SecretKey>::from_seed(seed);
    (*keypair.public_key.as_array(), *keypair.secret_key.as_array())
}

/// Relies on `SigningKeyPair::from_secret_key`: the keypair is derived again
/// from the first 32 bytes of the secret key, the other 32 are not read.
#[verifier::external_body]
pub(crate) fn keypair_of_secret_key(secret_key: &[u8; 64]) -> (r: ([u8; 32], [u8; 64]))
    ensures
        r.0@ == seed_public_key(secret_key@.subrange(0, 32)),
        r.1@ == secret_key@.subrange(0, 32) + seed_public_key(secret_key@.subrange(0, 32)),
{
    let keypair = SigningKeyPair::<PublicKey, SecretKey>::from_secret_key(
        StackByteArray::from(*secret_key),
    );
    (*keypair.public_key.as_array(), *keypair.secret_key.as_array())
}

/// Relies on `SigningKeyPair::gen`: a random seed, from which the keypair is
/// derived as `from_seed` does.
#[verifier::external_body]
pub(crate) fn random_keypair() -> (r: ([u8; 32], [u8; 64]))
    ensures
        r.0@ == seed_public_key(r.1@.subrange(0, 32)),
        r.1@.subrange(32, 64) == r.0@,
{
    let keypair = SigningKeyPair::<PublicKey, SecretKey>::gen();
    (*keypair.public_key.as_array(), *keypair.secret_key.as_array())
}

/// Relies on `SigningKeyPair::sign_with_defaults`: the detached signature of
/// the message under the keypair's secret key. Its one failure is a signature
/// buffer of a size other than 64, which the default signature type never has.
#[verifier::external_body]
pub(crate) fn sign_detached(
    public_key: &[u8; 32],
    secret_key: &[u8; 64],
    message: &[u8],
) -> (r: Result<[u8; 64], dryoc::Error>)
    ensures
        r is Ok,
        r matches Ok(s) ==> s@ == detached_signature(secret_key@, message@),
{
    let keypair = SigningKeyPair::<PublicKey, SecretKey> {
        public_key: StackByteArray::from(*public_key),
        secret_key: StackByteArray::from(*secret_key),
    };
    keypair.sign_with_defaults(message).map(|signed| *signed.into_parts().0.as_array())
}

/// Relies on `SignedMessage::from_bytes`: the first 64 bytes are the
/// signature and the rest the message; fewer than 64 bytes are refused.
#[verifier::external_body]
pub(crate) fn split_signed_message(bytes: &[u8]) -> (r: Result<(Vec<u8>, Vec<u8>), dryoc::Error>)
    ensures
        r is Ok <==> bytes@.len() >= 64,
        r matches Ok(parts) ==> parts.0@ == bytes@.subrange(0, 64) && parts.1@ == bytes@.subrange(
            64,
            bytes@.len() as int,
        ),
{
    SignedMessage::<Vec<u8>, Vec<u8>>::from_bytes(bytes).map(|signed| signed.into_parts())
}

/// Relies on `SignedMessage::verify`: succeeds exactly when the signature is
/// valid for the message under the public key.
#[verifier::external_body]
pub(crate) fn verify_detached(
    signature: Vec<u8>,
    message: Vec<u8>,
    public_key: &[u8; 32],
) -> (r: Result<(), dryoc::Error>)
    requires
        signature@.len() == 64,
    ensures
        r is Ok <==> signature_verifies(signature@, message@, public_key@),
{
    SignedMessage::<Vec<u8>, Vec<u8>>::from_parts(signature, message).verify(public_key)
}

/// Relies on `crypto_core_ed25519_is_valid_point_relaxed`, which refuses the
/// all-zero encoding and the neutral element before decoding.
#[verifier::external_body]
pub(crate) fn is_valid_point_relaxed(bytes: &[u8; 32]) -> (r: bool)
    ensures
        r == relaxed_point(bytes@),
        is_zero_encoding(bytes@) ==> !r,
        is_identity_encoding(bytes@) ==> !r,
{
    crypto_core_ed25519_is_valid_point_relaxed(bytes)
}

} // verus!
