//! What holds across the operations, stated over their result functions.

use vstd::prelude::*;

use crate::ed25519::detached_signature;
use crate::ed25519::signature_verifies;
use crate::ops::is_derived;
use crate::ops::keypair_from_seed_result;
use crate::ops::sign_result;
use crate::ops::valid_point_result;
use crate::ops::verify_result;
use crate::ops::KeyPair;
use crate::reason::Reason;

verus! {

/// Deriving a keypair is a function of the seed: two derivations from equal
/// 32-byte seeds succeed and give the same public and secret key.
pub proof fn keypair_from_seed_is_deterministic(first: Seq<u8>, second: Seq<u8>)
    requires
        first.len() == 32,
        first == second,
    ensures
        keypair_from_seed_result(first) is Ok,
        keypair_from_seed_result(first) == keypair_from_seed_result(second),
{
}

/// Every fixed-size argument is checked first: a wrong length gives the
/// reason that names that argument, whatever the other arguments hold, and
/// right lengths never give a size reason.
pub proof fn size_gates(
    seed: Seq<u8>,
    message: Seq<u8>,
    secret_key: Seq<u8>,
    signature: Seq<u8>,
    public_key: Seq<u8>,
    key: Seq<u8>,
)
    ensures
        seed.len() != 32 ==> keypair_from_seed_result(seed) == Err::<(Seq<u8>, Seq<u8>), _>(
            Reason::WrongSeedSize,
        ),
        seed.len() == 32 ==> keypair_from_seed_result(seed) is Ok,
        secret_key.len() != 64 ==> sign_result(message, secret_key) == Err::<Seq<u8>, _>(
            Reason::WrongSecretKeySize,
        ),
        secret_key.len() == 64 ==> sign_result(message, secret_key) is Ok,
        signature.len() != 64 ==> verify_result(signature, message, public_key) == Err::<(), _>(
            Reason::WrongSignatureSize,
        ),
        signature.len() == 64 && public_key.len() != 32 ==> verify_result(
            signature,
            message,
            public_key,
        ) == Err::<(), _>(Reason::WrongPublicKeySize),
        signature.len() == 64 && public_key.len() == 32 ==> (verify_result(
            signature,
            message,
            public_key,
        ) is Ok || verify_result(signature, message, public_key) == Err::<(), _>(
            Reason::InvalidSignature,
        )),
        key.len() != 32 ==> valid_point_result(key) == Err::<bool, _>(Reason::WrongKeySize),
        key.len() == 32 ==> valid_point_result(key) is Ok,
{
}

/// A signature that `sign` made with a derived keypair is the scheme's
/// signature under that secret key, and checking it against any message under
/// the keypair's public key passes every size check: the outcome is success
/// exactly when the scheme's verification accepts, and `InvalidSignature`
/// otherwise.
pub proof fn own_signature_reaches_scheme_check(
    message: Seq<u8>,
    checked: Seq<u8>,
    keypair: KeyPair,
    signature: [u8; 64],
)
    requires
        is_derived(keypair@),
        sign_result(message, keypair.secret_key@) == Ok::<_, Reason>(signature@),
    ensures
        signature@ == detached_signature(keypair.secret_key@, message),
        verify_result(signature@, checked, keypair.public_key@) == if signature_verifies(
            signature@,
            checked,
            keypair.public_key@,
        ) {
            Ok::<(), Reason>(())
        } else {
            Err(Reason::InvalidSignature)
        },
{
}

} // verus!
