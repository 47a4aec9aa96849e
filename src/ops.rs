//! The five operations offered to the host. Each checks the size of every
//! fixed-size argument first and only then calls the signature scheme.

use vstd::prelude::*;

use crate::buffer::join_bytes;
use crate::buffer::fixed;
use crate::ed25519::detached_signature;
use crate::ed25519::is_valid_point_relaxed;
use crate::ed25519::is_zero_encoding;
use crate::ed25519::keypair_of_secret_key;
use crate::ed25519::keypair_of_seed;
use crate::ed25519::random_keypair;
use crate::ed25519::relaxed_point;
use crate::ed25519::seed_public_key;
use crate::ed25519::sign_detached;
use crate::ed25519::signature_verifies;
use crate::ed25519::split_signed_message;
use crate::ed25519::verify_detached;
use crate::reason::Reason;

verus! {

/// An Ed25519 public key and the 64-byte secret key that goes with it.
#[derive(Clone, Copy, Debug)]
pub struct KeyPair {
    pub public_key: [u8; 32],
    pub secret_key: [u8; 64],
}

impl View for KeyPair {
    type V = (Seq<u8>, Seq<u8>);

    open spec fn view(&self) -> (Seq<u8>, Seq<u8>) {
        (self.public_key@, self.secret_key@)
    }
}

/// The keypair derived from a 32-byte seed: its public key, and as secret key
/// the seed followed by that public key.
pub open spec fn seed_keypair(seed: Seq<u8>) -> (Seq<u8>, Seq<u8>) {
    (seed_public_key(seed), seed + seed_public_key(seed))
}

/// A keypair as this library derives it, from the seed held in the first half
/// of its secret key.
pub open spec fn is_derived(keypair: (Seq<u8>, Seq<u8>)) -> bool {
    &&& keypair.1.len() == 64
    &&& keypair == seed_keypair(keypair.1.subrange(0, 32))
}

/// What deriving a keypair from `seed` gives.
pub open spec fn keypair_from_seed_result(seed: Seq<u8>) -> Result<(Seq<u8>, Seq<u8>), Reason> {
    if seed.len() != 32 {
        Err(Reason::WrongSeedSize)
    } else {
        Ok(seed_keypair(seed))
    }
}

/// Signing reads only the seed half of the secret key: the signature is made
/// under the keypair derived again from it.
pub open spec fn sign_result(message: Seq<u8>, secret_key: Seq<u8>) -> Result<Seq<u8>, Reason> {
    if secret_key.len() != 64 {
        Err(Reason::WrongSecretKeySize)
    } else {
        Ok(detached_signature(seed_keypair(secret_key.subrange(0, 32)).1, message))
    }
}

/// What checking `signature` on `message` under `public_key` gives: the
/// signature's size is checked first, then the public key's.
pub open spec fn verify_result(signature: Seq<u8>, message: Seq<u8>, public_key: Seq<u8>) -> Result<
    (),
    Reason,
> {
    if signature.len() != 64 {
        Err(Reason::WrongSignatureSize)
    } else if public_key.len() != 32 {
        Err(Reason::WrongPublicKeySize)
    } else if signature_verifies(signature, message, public_key) {
        Ok(())
    } else {
        Err(Reason::InvalidSignature)
    }
}

/// What the point check on `key` gives.
pub open spec fn valid_point_result(key: Seq<u8>) -> Result<bool, Reason> {
    if key.len() != 32 {
        Err(Reason::WrongKeySize)
    } else {
        Ok(relaxed_point(key))
    }
}

/// Derives the keypair of a 32-byte seed; the same seed always gives the same
/// keypair.
pub fn keypair_from_seed(seed: &[u8]) -> (r: Result<KeyPair, Reason>)
    ensures
        match r {
            Ok(keypair) => keypair_from_seed_result(seed@) == Ok::<_, Reason>(keypair@),
            Err(e) => keypair_from_seed_result(seed@) == Err::<(Seq<u8>, Seq<u8>), _>(e),
        },
{
    let seed: [u8; 32] = match fixed(seed, Reason::WrongSeedSize) {
        Ok(a) => a,
        Err(e) => return Err(e),
    };
    let (public_key, secret_key) = keypair_of_seed(&seed);
    Ok(KeyPair { public_key, secret_key })
}

/// A keypair derived from a fresh random seed.
pub fn generate() -> (r: KeyPair)
    ensures
        is_derived(r@),
{
    let (public_key, secret_key) = random_keypair();
    let r = KeyPair { public_key, secret_key };
    assert(r.secret_key@ =~= r.secret_key@.subrange(0, 32) + r.secret_key@.subrange(32, 64));
    r
}

/// Signs `message` with a 64-byte secret key. The keypair is derived again
/// from the secret key's seed half before signing.
pub fn sign(message: &[u8], secret_key: &[u8]) -> (r: Result<[u8; 64], Reason>)
    ensures
        match r {
            Ok(signature) => sign_result(message@, secret_key@) == Ok::<_, Reason>(signature@),
            Err(e) => sign_result(message@, secret_key@) == Err::<Seq<u8>, _>(e),
        },
{
    let secret_key: [u8; 64] = match fixed(secret_key, Reason::WrongSecretKeySize) {
        Ok(a) => a,
        Err(e) => return Err(e),
    };
    let (public_key, secret_key) = keypair_of_secret_key(&secret_key);
    match sign_detached(&public_key, &secret_key, message) {
        Ok(signature) => Ok(signature),
        Err(_) => Err(Reason::SigningFailed),
    }
}

/// Checks that `signature` authenticates `message` under `public_key`. The
/// signature and message are framed together as the scheme expects and
/// handed to the scheme's own verification.
pub fn verify(signature: &[u8], message: &[u8], public_key: &[u8]) -> (r: Result<(), Reason>)
    requires
        message@.len() + 64 <= usize::MAX,
    ensures
        r == verify_result(signature@, message@, public_key@),
{
    let signature: [u8; 64] = match fixed(signature, Reason::WrongSignatureSize) {
        Ok(a) => a,
        Err(e) => return Err(e),
    };
    let public_key: [u8; 32] = match fixed(public_key, Reason::WrongPublicKeySize) {
        Ok(a) => a,
        Err(e) => return Err(e),
    };
    let framed = join_bytes(signature.as_slice(), message);
    let (framed_signature, framed_message) = match split_signed_message(framed.as_slice()) {
        Ok(parts) => parts,
        Err(_) => return Err(Reason::InvalidSignature),
    };
    assert(framed_signature@ =~= signature@);
    assert(framed_message@ =~= message@);
    match verify_detached(framed_signature, framed_message, &public_key) {
        Ok(()) => Ok(()),
        Err(_) => Err(Reason::InvalidSignature),
    }
}

/// Whether 32 bytes encode a point of the curve, non-canonical encodings
/// included. The all-zero buffer is no point.
pub fn valid_point(key: &[u8]) -> (r: Result<bool, Reason>)
    ensures
        r == valid_point_result(key@),
        is_zero_encoding(key@) ==> r == Ok::<bool, Reason>(false),
{
    let key: [u8; 32] = match fixed(key, Reason::WrongKeySize) {
        Ok(a) => a,
        Err(e) => return Err(e),
    };
    Ok(is_valid_point_relaxed(&key))
}

} // verus!
