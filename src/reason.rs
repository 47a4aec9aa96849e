use vstd::prelude::*;

verus! {

/// Why an operation failed. Each size error names the argument whose length
/// was wrong; the other two come from the signature scheme itself.
#[derive(Clone, Copy, Debug, PartialEq, Eq, Structural)]
pub enum Reason {
    WrongSeedSize,
    WrongKeySize,
    WrongSecretKeySize,
    WrongPublicKeySize,
    WrongSignatureSize,
    InvalidSignature,
    SigningFailed,
}

} // verus!
