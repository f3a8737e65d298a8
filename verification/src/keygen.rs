//! The dispatcher: from a validated (algorithm, variant) pair to the provider
//! operation bound to it, and the key material that comes back.
//!
//! Each provider is reached through one small function of its own, whose
//! contract is taken on trust from the provider's source. A provider hands
//! its keys out as values of its own types; they are copied into buffers that
//! the caller owns and can wipe, and the provider's values are dropped as
//! they are, because their types give no way to overwrite them. A provider
//! panics where the system's random generator fails.

use crate::taxonomy::{family_of, is_valid, is_valid_pair, Algorithm, Variant};
use crate::wipe::wipe_bytes;
use pqcrypto_traits::kem::{PublicKey as KemPublicKey, SecretKey as KemSecretKey};
use pqcrypto_traits::sign::{PublicKey as SignPublicKey, SecretKey as SignSecretKey};
use vstd::prelude::*;

verus! {

/// Stack reserved for the thread that runs the generator: 64 MiB. The
/// largest variants keep their keys and their working arrays on the stack
/// and do not fit the stack of an ordinary thread.
pub const LARGE_STACK_BYTES: usize = 64 * 1024 * 1024;

/// A freshly generated keypair as raw bytes. The value owns both buffers.
pub struct KeyMaterial {
    pub public: Vec<u8>,
    pub secret: Vec<u8>,
}

/// Why the dispatcher refused a request before any provider ran.
#[derive(Debug, Clone, Copy, PartialEq, Eq, Structural)]
pub enum DispatchError {
    /// The algorithm is `Unknown`.
    UnknownAlgorithm,
    /// The algorithm is known and the variant is not one of its own.
    InvalidVariant { algorithm: Algorithm, variant: Variant },
}

/// Length in bytes of the public key of a variant, as its provider declares it.
pub open spec fn public_key_len(v: Variant) -> nat {
    match v {
        Variant::MLKEM512 => 800,
        Variant::MLKEM768 => 1184,
        Variant::MLKEM1024 => 1568,
        Variant::HQC128 => 2249,
        Variant::HQC192 => 4522,
        Variant::HQC256 => 7245,
        Variant::McEliece348864 => 261120,
        Variant::McEliece348864f => 261120,
        Variant::McEliece460896 => 524160,
        Variant::McEliece460896f => 524160,
        Variant::McEliece6688128 => 1044992,
        Variant::McEliece6688128f => 1044992,
        Variant::McEliece6960119 => 1047319,
        Variant::McEliece6960119f => 1047319,
        Variant::McEliece8192128 => 1357824,
        Variant::McEliece8192128f => 1357824,
        Variant::FALCONNoPad512 => 897,
        Variant::FALCONNoPad1024 => 1793,
        Variant::FALCONPadded512 => 897,
        Variant::FALCONPadded1024 => 1793,
        Variant::MLDSA44 => 1312,
        Variant::MLDSA65 => 1952,
        Variant::MLDSA87 => 2592,
        Variant::SPHINCSsha2128fsimple => 32,
        Variant::SPHINCSsha2128ssimple => 32,
        Variant::SPHINCSsha2192fsimple => 48,
        Variant::SPHINCSsha2192ssimple => 48,
        Variant::SPHINCSsha2256fsimple => 64,
        Variant::SPHINCSsha2256ssimple => 64,
        Variant::SPHINCSshake128fsimple => 32,
        Variant::SPHINCSshake128ssimple => 32,
        Variant::SPHINCSshake192fsimple => 48,
        Variant::SPHINCSshake192ssimple => 48,
        Variant::SPHINCSshake256fsimple => 64,
        Variant::SPHINCSshake256ssimple => 64,
        Variant::Unknown => 0,
    }
}

/// Length in bytes of the secret key of a variant, as its provider declares it.
pub open spec fn secret_key_len(v: Variant) -> nat {
    match v {
        Variant::MLKEM512 => 1632,
        Variant::MLKEM768 => 2400,
        Variant::MLKEM1024 => 3168,
        Variant::HQC128 => 2305,
        Variant::HQC192 => 4586,
        Variant::HQC256 => 7317,
        Variant::McEliece348864 => 6492,
        Variant::McEliece348864f => 6492,
        Variant::McEliece460896 => 13608,
        Variant::McEliece460896f => 13608,
        Variant::McEliece6688128 => 13932,
        Variant::McEliece6688128f => 13932,
        Variant::McEliece6960119 => 13948,
        Variant::McEliece6960119f => 13948,
        Variant::McEliece8192128 => 14120,
        Variant::McEliece8192128f => 14120,
        Variant::FALCONNoPad512 => 1281,
        Variant::FALCONNoPad1024 => 2305,
        Variant::FALCONPadded512 => 1281,
        Variant::FALCONPadded1024 => 2305,
        Variant::MLDSA44 => 2560,
        Variant::MLDSA65 => 4032,
        Variant::MLDSA87 => 4896,
        Variant::SPHINCSsha2128fsimple => 64,
        Variant::SPHINCSsha2128ssimple => 64,
        Variant::SPHINCSsha2192fsimple => 96,
        Variant::SPHINCSsha2192ssimple => 96,
        Variant::SPHINCSsha2256fsimple => 128,
        Variant::SPHINCSsha2256ssimple => 128,
        Variant::SPHINCSshake128fsimple => 64,
        Variant::SPHINCSshake128ssimple => 64,
        Variant::SPHINCSshake192fsimple => 96,
        Variant::SPHINCSshake192ssimple => 96,
        Variant::SPHINCSshake256fsimple => 128,
        Variant::SPHINCSshake256ssimple => 128,
        Variant::Unknown => 0,
    }
}

/// The refusal that a request meets, if any: `UnknownAlgorithm` for the
/// `Unknown` family, `InvalidVariant` for a known family with a variant that
/// is not its own, and none for a pair of the taxonomy.
pub open spec fn refusal(a: Algorithm, v: Variant) -> Option<DispatchError> {
    if a == Algorithm::Unknown {
        Some(DispatchError::UnknownAlgorithm)
    } else if family_of(v) != a {
        Some(DispatchError::InvalidVariant { algorithm: a, variant: v })
    } else {
        None
    }
}

impl KeyMaterial {
    /// Both keys have the lengths that the provider of `v` declares.
    pub open spec fn fits(&self, v: Variant) -> bool {
        &&& self.public@.len() == public_key_len(v)
        &&& self.secret@.len() == secret_key_len(v)
    }

    /// Takes ownership of the two buffers that a provider handed out.
    pub fn new(public: Vec<u8>, secret: Vec<u8>) -> (m: KeyMaterial)
        ensures
            m.public@ == public@,
            m.secret@ == secret@,
    {
        KeyMaterial { public, secret }
    }

    /// Overwrites both keys with zeros and leaves the two buffers empty.
    pub fn wipe(&mut self)
        ensures
            final(self).public@ == Seq::<u8>::empty(),
            final(self).secret@ == Seq::<u8>::empty(),
    {
        wipe_bytes(&mut self.public);
        wipe_bytes(&mut self.secret);
    }
}


/// `pqcrypto::kem::mlkem512::keypair`, with both keys copied out as bytes.
/// Trusted: the public key has 800 bytes and the secret key 1632, the sizes of
/// the provider's two key types. The bytes themselves are fresh randomness.
/// Kept out of line: the keys pass through this frame as arrays.
#[verifier::external_body]
#[inline(never)]
fn mlkem512_keypair() -> (keys: (Vec<u8>, Vec<u8>))
    ensures
        keys.0@.len() == 800,
        keys.1@.len() == 1632,
{
    let (pk, sk) = pqcrypto::kem::mlkem512::keypair();
    (KemPublicKey::as_bytes(&pk).to_vec(), KemSecretKey::as_bytes(&sk).to_vec())
}

/// `pqcrypto::kem::mlkem768::keypair`, with both keys copied out as bytes.
/// Trusted: the public key has 1184 bytes and the secret key 2400, the sizes of
/// the provider's two key types. The bytes themselves are fresh randomness.
/// Kept out of line: the keys pass through this frame as arrays.
#[verifier::external_body]
#[inline(never)]
fn mlkem768_keypair() -> (keys: (Vec<u8>, Vec<u8>))
    ensures
        keys.0@.len() == 1184,
        keys.1@.len() == 2400,
{
    let (pk, sk) = pqcrypto::kem::mlkem768::keypair();
    (KemPublicKey::as_bytes(&pk).to_vec(), KemSecretKey::as_bytes(&sk).to_vec())
}

/// `pqcrypto::kem::mlkem1024::keypair`, with both keys copied out as bytes.
/// Trusted: the public key has 1568 bytes and the secret key 3168, the sizes of
/// the provider's two key types. The bytes themselves are fresh randomness.
/// Kept out of line: the keys pass through this frame as arrays.
#[verifier::external_body]
#[inline(never)]
fn mlkem1024_keypair() -> (keys: (Vec<u8>, Vec<u8>))
    ensures
        keys.0@.len() == 1568,
        keys.1@.len() == 3168,
{
    let (pk, sk) = pqcrypto::kem::mlkem1024::keypair();
    (KemPublicKey::as_bytes(&pk).to_vec(), KemSecretKey::as_bytes(&sk).to_vec())
}

/// `pqcrypto::kem::hqc128::keypair`, with both keys copied out as bytes.
/// Trusted: the public key has 2249 bytes and the secret key 2305, the sizes of
/// the provider's two key types. The bytes themselves are fresh randomness.
/// Kept out of line: the keys pass through this frame as arrays.
#[verifier::external_body]
#[inline(never)]
fn hqc128_keypair() -> (keys: (Vec<u8>, Vec<u8>))
    ensures
        keys.0@.len() == 2249,
        keys.1@.len() == 2305,
{
    let (pk, sk) = pqcrypto::kem::hqc128::keypair();
    (KemPublicKey::as_bytes(&pk).to_vec(), KemSecretKey::as_bytes(&sk).to_vec())
}

/// `pqcrypto::kem::hqc192::keypair`, with both keys copied out as bytes.
/// Trusted: the public key has 4522 bytes and the secret key 4586, the sizes of
/// the provider's two key types. The bytes themselves are fresh randomness.
/// Kept out of line: the keys pass through this frame as arrays.
#[verifier::external_body]
#[inline(never)]
fn hqc192_keypair() -> (keys: (Vec<u8>, Vec<u8>))
    ensures
        keys.0@.len() == 4522,
        keys.1@.len() == 4586,
{
    let (pk, sk) = pqcrypto::kem::hqc192::keypair();
    (KemPublicKey::as_bytes(&pk).to_vec(), KemSecretKey::as_bytes(&sk).to_vec())
}

/// `pqcrypto::kem::hqc256::keypair`, with both keys copied out as bytes.
/// Trusted: the public key has 7245 bytes and the secret key 7317, the sizes of
/// the provider's two key types. The bytes themselves are fresh randomness.
/// Kept out of line: the keys pass through this frame as arrays.
#[verifier::external_body]
#[inline(never)]
fn hqc256_keypair() -> (keys: (Vec<u8>, Vec<u8>))
    ensures
        keys.0@.len() == 7245,
        keys.1@.len() == 7317,
{
    let (pk, sk) = pqcrypto::kem::hqc256::keypair();
    (KemPublicKey::as_bytes(&pk).to_vec(), KemSecretKey::as_bytes(&sk).to_vec())
}

/// `pqcrypto::kem::mceliece348864::keypair`, with both keys copied out as bytes.
/// Trusted: the public key has 261120 bytes and the secret key 6492, the sizes of
/// the provider's two key types. The bytes themselves are fresh randomness.
/// Kept out of line: the keys pass through this frame as arrays.
#[verifier::external_body]
#[inline(never)]
fn mceliece348864_keypair() -> (keys: (Vec<u8>, Vec<u8>))
    ensures
        keys.0@.len() == 261120,
        keys.1@.len() == 6492,
{
    let (pk, sk) = pqcrypto::kem::mceliece348864::keypair();
    (KemPublicKey::as_bytes(&pk).to_vec(), KemSecretKey::as_bytes(&sk).to_vec())
}

/// `pqcrypto::kem::mceliece348864f::keypair`, with both keys copied out as bytes.
/// Trusted: the public key has 261120 bytes and the secret key 6492, the sizes of
/// the provider's two key types. The bytes themselves are fresh randomness.
/// Kept out of line: the keys pass through this frame as arrays.
#[verifier::external_body]
#[inline(never)]
fn mceliece348864f_keypair() -> (keys: (Vec<u8>, Vec<u8>))
    ensures
        keys.0@.len() == 261120,
        keys.1@.len() == 6492,
{
    let (pk, sk) = pqcrypto::kem::mceliece348864f::keypair();
    (KemPublicKey::as_bytes(&pk).to_vec(), KemSecretKey::as_bytes(&sk).to_vec())
}

/// `pqcrypto::kem::mceliece460896::keypair`, with both keys copied out as bytes.
/// Trusted: the public key has 524160 bytes and the secret key 13608, the sizes of
/// the provider's two key types. The bytes themselves are fresh randomness.
/// Kept out of line: the keys pass through this frame as arrays.
#[verifier::external_body]
#[inline(never)]
fn mceliece460896_keypair() -> (keys: (Vec<u8>, Vec<u8>))
    ensures
        keys.0@.len() == 524160,
        keys.1@.len() == 13608,
{
    let (pk, sk) = pqcrypto::kem::mceliece460896::keypair();
    (KemPublicKey::as_bytes(&pk).to_vec(), KemSecretKey::as_bytes(&sk).to_vec())
}

/// `pqcrypto::kem::mceliece460896f::keypair`, with both keys copied out as bytes.
/// Trusted: the public key has 524160 bytes and the secret key 13608, the sizes of
/// the provider's two key types. The bytes themselves are fresh randomness.
/// Kept out of line: the keys pass through this frame as arrays.
#[verifier::external_body]
#[inline(never)]
fn mceliece460896f_keypair() -> (keys: (Vec<u8>, Vec<u8>))
    ensures
        keys.0@.len() == 524160,
        keys.1@.len() == 13608,
{
    let (pk, sk) = pqcrypto::kem::mceliece460896f::keypair();
    (KemPublicKey::as_bytes(&pk).to_vec(), KemSecretKey::as_bytes(&sk).to_vec())
}

/// `pqcrypto::kem::mceliece6688128::keypair`, with both keys copied out as bytes.
/// Trusted: the public key has 1044992 bytes and the secret key 13932, the sizes of
/// the provider's two key types. The bytes themselves are fresh randomness.
/// Kept out of line: the keys pass through this frame as arrays.
#[verifier::external_body]
#[inline(never)]
fn mceliece6688128_keypair() -> (keys: (Vec<u8>, Vec<u8>))
    ensures
        keys.0@.len() == 1044992,
        keys.1@.len() == 13932,
{
    let (pk, sk) = pqcrypto::kem::mceliece6688128::keypair();
    (KemPublicKey::as_bytes(&pk).to_vec(), KemSecretKey::as_bytes(&sk).to_vec())
}

/// `pqcrypto::kem::mceliece6688128f::keypair`, with both keys copied out as bytes.
/// Trusted: the public key has 1044992 bytes and the secret key 13932, the sizes of
/// the provider's two key types. The bytes themselves are fresh randomness.
/// Kept out of line: the keys pass through this frame as arrays.
#[verifier::external_body]
#[inline(never)]
fn mceliece6688128f_keypair() -> (keys: (Vec<u8>, Vec<u8>))
    ensures
        keys.0@.len() == 1044992,
        keys.1@.len() == 13932,
{
    let (pk, sk) = pqcrypto::kem::mceliece6688128f::keypair();
    (KemPublicKey::as_bytes(&pk).to_vec(), KemSecretKey::as_bytes(&sk).to_vec())
}

/// `pqcrypto::kem::mceliece6960119::keypair`, with both keys copied out as bytes.
/// Trusted: the public key has 1047319 bytes and the secret key 13948, the sizes of
/// the provider's two key types. The bytes themselves are fresh randomness.
/// Kept out of line: the keys pass through this frame as arrays.
#[verifier::external_body]
#[inline(never)]
fn mceliece6960119_keypair() -> (keys: (Vec<u8>, Vec<u8>))
    ensures
        keys.0@.len() == 1047319,
        keys.1@.len() == 13948,
{
    let (pk, sk) = pqcrypto::kem::mceliece6960119::keypair();
    (KemPublicKey::as_bytes(&pk).to_vec(), KemSecretKey::as_bytes(&sk).to_vec())
}

/// `pqcrypto::kem::mceliece6960119f::keypair`, with both keys copied out as bytes.
/// Trusted: the public key has 1047319 bytes and the secret key 13948, the sizes of
/// the provider's two key types. The bytes themselves are fresh randomness.
/// Kept out of line: the keys pass through this frame as arrays.
#[verifier::external_body]
#[inline(never)]
fn mceliece6960119f_keypair() -> (keys: (Vec<u8>, Vec<u8>))
    ensures
        keys.0@.len() == 1047319,
        keys.1@.len() == 13948,
{
    let (pk, sk) = pqcrypto::kem::mceliece6960119f::keypair();
    (KemPublicKey::as_bytes(&pk).to_vec(), KemSecretKey::as_bytes(&sk).to_vec())
}

/// `pqcrypto::kem::mceliece8192128::keypair`, with both keys copied out as bytes.
/// Trusted: the public key has 1357824 bytes and the secret key 14120, the sizes of
/// the provider's two key types. The bytes themselves are fresh randomness.
/// Kept out of line: the keys pass through this frame as arrays.
#[verifier::external_body]
#[inline(never)]
fn mceliece8192128_keypair() -> (keys: (Vec<u8>, Vec<u8>))
    ensures
        keys.0@.len() == 1357824,
        keys.1@.len() == 14120,
{
    let (pk, sk) = pqcrypto::kem::mceliece8192128::keypair();
    (KemPublicKey::as_bytes(&pk).to_vec(), KemSecretKey::as_bytes(&sk).to_vec())
}

/// `pqcrypto::kem::mceliece8192128f::keypair`, with both keys copied out as bytes.
/// Trusted: the public key has 1357824 bytes and the secret key 14120, the sizes of
/// the provider's two key types. The bytes themselves are fresh randomness.
/// Kept out of line: the keys pass through this frame as arrays.
#[verifier::external_body]
#[inline(never)]
fn mceliece8192128f_keypair() -> (keys: (Vec<u8>, Vec<u8>))
    ensures
        keys.0@.len() == 1357824,
        keys.1@.len() == 14120,
{
    let (pk, sk) = pqcrypto::kem::mceliece8192128f::keypair();
    (KemPublicKey::as_bytes(&pk).to_vec(), KemSecretKey::as_bytes(&sk).to_vec())
}

/// `pqcrypto::sign::falcon512::keypair`, with both keys copied out as bytes.
/// Trusted: the public key has 897 bytes and the secret key 1281, the sizes of
/// the provider's two key types. The bytes themselves are fresh randomness.
/// Kept out of line: the keys pass through this frame as arrays.
#[verifier::external_body]
#[inline(never)]
fn falcon512_keypair() -> (keys: (Vec<u8>, Vec<u8>))
    ensures
        keys.0@.len() == 897,
        keys.1@.len() == 1281,
{
    let (pk, sk) = pqcrypto::sign::falcon512::keypair();
    (SignPublicKey::as_bytes(&pk).to_vec(), SignSecretKey::as_bytes(&sk).to_vec())
}

/// `pqcrypto::sign::falcon1024::keypair`, with both keys copied out as bytes.
/// Trusted: the public key has 1793 bytes and the secret key 2305, the sizes of
/// the provider's two key types. The bytes themselves are fresh randomness.
/// Kept out of line: the keys pass through this frame as arrays.
#[verifier::external_body]
#[inline(never)]
fn falcon1024_keypair() -> (keys: (Vec<u8>, Vec<u8>))
    ensures
        keys.0@.len() == 1793,
        keys.1@.len() == 2305,
{
    let (pk, sk) = pqcrypto::sign::falcon1024::keypair();
    (SignPublicKey::as_bytes(&pk).to_vec(), SignSecretKey::as_bytes(&sk).to_vec())
}

/// `pqcrypto::sign::falconpadded512::keypair`, with both keys copied out as bytes.
/// Trusted: the public key has 897 bytes and the secret key 1281, the sizes of
/// the provider's two key types. The bytes themselves are fresh randomness.
/// Kept out of line: the keys pass through this frame as arrays.
#[verifier::external_body]
#[inline(never)]
fn falconpadded512_keypair() -> (keys: (Vec<u8>, Vec<u8>))
    ensures
        keys.0@.len() == 897,
        keys.1@.len() == 1281,
{
    let (pk, sk) = pqcrypto::sign::falconpadded512::keypair();
    (SignPublicKey::as_bytes(&pk).to_vec(), SignSecretKey::as_bytes(&sk).to_vec())
}

/// `pqcrypto::sign::falconpadded1024::keypair`, with both keys copied out as bytes.
/// Trusted: the public key has 1793 bytes and the secret key 2305, the sizes of
/// the provider's two key types. The bytes themselves are fresh randomness.
/// Kept out of line: the keys pass through this frame as arrays.
#[verifier::external_body]
#[inline(never)]
fn falconpadded1024_keypair() -> (keys: (Vec<u8>, Vec<u8>))
    ensures
        keys.0@.len() == 1793,
        keys.1@.len() == 2305,
{
    let (pk, sk) = pqcrypto::sign::falconpadded1024::keypair();
    (SignPublicKey::as_bytes(&pk).to_vec(), SignSecretKey::as_bytes(&sk).to_vec())
}

/// `pqcrypto::sign::mldsa44::keypair`, with both keys copied out as bytes.
/// Trusted: the public key has 1312 bytes and the secret key 2560, the sizes of
/// the provider's two key types. The bytes themselves are fresh randomness.
/// Kept out of line: the keys pass through this frame as arrays.
#[verifier::external_body]
#[inline(never)]
fn mldsa44_keypair() -> (keys: (Vec<u8>, Vec<u8>))
    ensures
        keys.0@.len() == 1312,
        keys.1@.len() == 2560,
{
    let (pk, sk) = pqcrypto::sign::mldsa44::keypair();
    (SignPublicKey::as_bytes(&pk).to_vec(), SignSecretKey::as_bytes(&sk).to_vec())
}

/// `pqcrypto::sign::mldsa65::keypair`, with both keys copied out as bytes.
/// Trusted: the public key has 1952 bytes and the secret key 4032, the sizes of
/// the provider's two key types. The bytes themselves are fresh randomness.
/// Kept out of line: the keys pass through this frame as arrays.
#[verifier::external_body]
#[inline(never)]
fn mldsa65_keypair() -> (keys: (Vec<u8>, Vec<u8>))
    ensures
        keys.0@.len() == 1952,
        keys.1@.len() == 4032,
{
    let (pk, sk) = pqcrypto::sign::mldsa65::keypair();
    (SignPublicKey::as_bytes(&pk).to_vec(), SignSecretKey::as_bytes(&sk).to_vec())
}

/// `pqcrypto::sign::mldsa87::keypair`, with both keys copied out as bytes.
/// Trusted: the public key has 2592 bytes and the secret key 4896, the sizes of
/// the provider's two key types. The bytes themselves are fresh randomness.
/// Kept out of line: the keys pass through this frame as arrays.
#[verifier::external_body]
#[inline(never)]
fn mldsa87_keypair() -> (keys: (Vec<u8>, Vec<u8>))
    ensures
        keys.0@.len() == 2592,
        keys.1@.len() == 4896,
{
    let (pk, sk) = pqcrypto::sign::mldsa87::keypair();
    (SignPublicKey::as_bytes(&pk).to_vec(), SignSecretKey::as_bytes(&sk).to_vec())
}

/// `pqcrypto::sign::sphincssha2128fsimple::keypair`, with both keys copied out as bytes.
/// Trusted: the public key has 32 bytes and the secret key 64, the sizes of
/// the provider's two key types. The bytes themselves are fresh randomness.
/// Kept out of line: the keys pass through this frame as arrays.
#[verifier::external_body]
#[inline(never)]
fn sphincssha2128fsimple_keypair() -> (keys: (Vec<u8>, Vec<u8>))
    ensures
        keys.0@.len() == 32,
        keys.1@.len() == 64,
{
    let (pk, sk) = pqcrypto::sign::sphincssha2128fsimple::keypair();
    (SignPublicKey::as_bytes(&pk).to_vec(), SignSecretKey::as_bytes(&sk).to_vec())
}

/// `pqcrypto::sign::sphincssha2128ssimple::keypair`, with both keys copied out as bytes.
/// Trusted: the public key has 32 bytes and the secret key 64, the sizes of
/// the provider's two key types. The bytes themselves are fresh randomness.
/// Kept out of line: the keys pass through this frame as arrays.
#[verifier::external_body]
#[inline(never)]
fn sphincssha2128ssimple_keypair() -> (keys: (Vec<u8>, Vec<u8>))
    ensures
        keys.0@.len() == 32,
        keys.1@.len() == 64,
{
    let (pk, sk) = pqcrypto::sign::sphincssha2128ssimple::keypair();
    (SignPublicKey::as_bytes(&pk).to_vec(), SignSecretKey::as_bytes(&sk).to_vec())
}

/// `pqcrypto::sign::sphincssha2192fsimple::keypair`, with both keys copied out as bytes.
/// Trusted: the public key has 48 bytes and the secret key 96, the sizes of
/// the provider's two key types. The bytes themselves are fresh randomness.
/// Kept out of line: the keys pass through this frame as arrays.
#[verifier::external_body]
#[inline(never)]
fn sphincssha2192fsimple_keypair() -> (keys: (Vec<u8>, Vec<u8>))
    ensures
        keys.0@.len() == 48,
        keys.1@.len() == 96,
{
    let (pk, sk) = pqcrypto::sign::sphincssha2192fsimple::keypair();
    (SignPublicKey::as_bytes(&pk).to_vec(), SignSecretKey::as_bytes(&sk).to_vec())
}

/// `pqcrypto::sign::sphincssha2192ssimple::keypair`, with both keys copied out as bytes.
/// Trusted: the public key has 48 bytes and the secret key 96, the sizes of
/// the provider's two key types. The bytes themselves are fresh randomness.
/// Kept out of line: the keys pass through this frame as arrays.
#[verifier::external_body]
#[inline(never)]
fn sphincssha2192ssimple_keypair() -> (keys: (Vec<u8>, Vec<u8>))
    ensures
        keys.0@.len() == 48,
        keys.1@.len() == 96,
{
    let (pk, sk) = pqcrypto::sign::sphincssha2192ssimple::keypair();
    (SignPublicKey::as_bytes(&pk).to_vec(), SignSecretKey::as_bytes(&sk).to_vec())
}

/// `pqcrypto::sign::sphincssha2256fsimple::keypair`, with both keys copied out as bytes.
/// Trusted: the public key has 64 bytes and the secret key 128, the sizes of
/// the provider's two key types. The bytes themselves are fresh randomness.
/// Kept out of line: the keys pass through this frame as arrays.
#[verifier::external_body]
#[inline(never)]
fn sphincssha2256fsimple_keypair() -> (keys: (Vec<u8>, Vec<u8>))
    ensures
        keys.0@.len() == 64,
        keys.1@.len() == 128,
{
    let (pk, sk) = pqcrypto::sign::sphincssha2256fsimple::keypair();
    (SignPublicKey::as_bytes(&pk).to_vec(), SignSecretKey::as_bytes(&sk).to_vec())
}

/// `pqcrypto::sign::sphincssha2256ssimple::keypair`, with both keys copied out as bytes.
/// Trusted: the public key has 64 bytes and the secret key 128, the sizes of
/// the provider's two key types. The bytes themselves are fresh randomness.
/// Kept out of line: the keys pass through this frame as arrays.
#[verifier::external_body]
#[inline(never)]
fn sphincssha2256ssimple_keypair() -> (keys: (Vec<u8>, Vec<u8>))
    ensures
        keys.0@.len() == 64,
        keys.1@.len() == 128,
{
    let (pk, sk) = pqcrypto::sign::sphincssha2256ssimple::keypair();
    (SignPublicKey::as_bytes(&pk).to_vec(), SignSecretKey::as_bytes(&sk).to_vec())
}

/// `pqcrypto::sign::sphincsshake128fsimple::keypair`, with both keys copied out as bytes.
/// Trusted: the public key has 32 bytes and the secret key 64, the sizes of
/// the provider's two key types. The bytes themselves are fresh randomness.
/// Kept out of line: the keys pass through this frame as arrays.
#[verifier::external_body]
#[inline(never)]
fn sphincsshake128fsimple_keypair() -> (keys: (Vec<u8>, Vec<u8>))
    ensures
        keys.0@.len() == 32,
        keys.1@.len() == 64,
{
    let (pk, sk) = pqcrypto::sign::sphincsshake128fsimple::keypair();
    (SignPublicKey::as_bytes(&pk).to_vec(), SignSecretKey::as_bytes(&sk).to_vec())
}

/// `pqcrypto::sign::sphincsshake128ssimple::keypair`, with both keys copied out as bytes.
/// Trusted: the public key has 32 bytes and the secret key 64, the sizes of
/// the provider's two key types. The bytes themselves are fresh randomness.
/// Kept out of line: the keys pass through this frame as arrays.
#[verifier::external_body]
#[inline(never)]
fn sphincsshake128ssimple_keypair() -> (keys: (Vec<u8>, Vec<u8>))
    ensures
        keys.0@.len() == 32,
        keys.1@.len() == 64,
{
    let (pk, sk) = pqcrypto::sign::sphincsshake128ssimple::keypair();
    (SignPublicKey::as_bytes(&pk).to_vec(), SignSecretKey::as_bytes(&sk).to_vec())
}

/// `pqcrypto::sign::sphincsshake192fsimple::keypair`, with both keys copied out as bytes.
/// Trusted: the public key has 48 bytes and the secret key 96, the sizes of
/// the provider's two key types. The bytes themselves are fresh randomness.
/// Kept out of line: the keys pass through this frame as arrays.
#[verifier::external_body]
#[inline(never)]
fn sphincsshake192fsimple_keypair() -> (keys: (Vec<u8>, Vec<u8>))
    ensures
        keys.0@.len() == 48,
        keys.1@.len() == 96,
{
    let (pk, sk) = pqcrypto::sign::sphincsshake192fsimple::keypair();
    (SignPublicKey::as_bytes(&pk).to_vec(), SignSecretKey::as_bytes(&sk).to_vec())
}

/// `pqcrypto::sign::sphincsshake192ssimple::keypair`, with both keys copied out as bytes.
/// Trusted: the public key has 48 bytes and the secret key 96, the sizes of
/// the provider's two key types. The bytes themselves are fresh randomness.
/// Kept out of line: the keys pass through this frame as arrays.
#[verifier::external_body]
#[inline(never)]
fn sphincsshake192ssimple_keypair() -> (keys: (Vec<u8>, Vec<u8>))
    ensures
        keys.0@.len() == 48,
        keys.1@.len() == 96,
{
    let (pk, sk) = pqcrypto::sign::sphincsshake192ssimple::keypair();
    (SignPublicKey::as_bytes(&pk).to_vec(), SignSecretKey::as_bytes(&sk).to_vec())
}

/// `pqcrypto::sign::sphincsshake256fsimple::keypair`, with both keys copied out as bytes.
/// Trusted: the public key has 64 bytes and the secret key 128, the sizes of
/// the provider's two key types. The bytes themselves are fresh randomness.
/// Kept out of line: the keys pass through this frame as arrays.
#[verifier::external_body]
#[inline(never)]
fn sphincsshake256fsimple_keypair() -> (keys: (Vec<u8>, Vec<u8>))
    ensures
        keys.0@.len() == 64,
        keys.1@.len() == 128,
{
    let (pk, sk) = pqcrypto::sign::sphincsshake256fsimple::keypair();
    (SignPublicKey::as_bytes(&pk).to_vec(), SignSecretKey::as_bytes(&sk).to_vec())
}

/// `pqcrypto::sign::sphincsshake256ssimple::keypair`, with both keys copied out as bytes.
/// Trusted: the public key has 64 bytes and the secret key 128, the sizes of
/// the provider's two key types. The bytes themselves are fresh randomness.
/// Kept out of line: the keys pass through this frame as arrays.
#[verifier::external_body]
#[inline(never)]
fn sphincsshake256ssimple_keypair() -> (keys: (Vec<u8>, Vec<u8>))
    ensures
        keys.0@.len() == 64,
        keys.1@.len() == 128,
{
    let (pk, sk) = pqcrypto::sign::sphincsshake256ssimple::keypair();
    (SignPublicKey::as_bytes(&pk).to_vec(), SignSecretKey::as_bytes(&sk).to_vec())
}

/// Runs the one provider operation bound to a pair of the taxonomy.
///
/// The table is keyed by the pair and is total over the taxonomy: no arm is
/// left for a valid pair to fall through to. The precondition keeps every
/// provider out of reach of a request that was not validated first.
fn invoke_provider(algorithm: Algorithm, variant: Variant) -> (m: KeyMaterial)
    requires
        is_valid_pair(algorithm, variant),
    ensures
        m.fits(variant),
{
    let keys = match (algorithm, variant) {
        (Algorithm::MLKEM, Variant::MLKEM512) => mlkem512_keypair(),
        (Algorithm::MLKEM, Variant::MLKEM768) => mlkem768_keypair(),
        (Algorithm::MLKEM, Variant::MLKEM1024) => mlkem1024_keypair(),
        (Algorithm::HQC, Variant::HQC128) => hqc128_keypair(),
        (Algorithm::HQC, Variant::HQC192) => hqc192_keypair(),
        (Algorithm::HQC, Variant::HQC256) => hqc256_keypair(),
        (Algorithm::McEliece, Variant::McEliece348864) => mceliece348864_keypair(),
        (Algorithm::McEliece, Variant::McEliece348864f) => mceliece348864f_keypair(),
        (Algorithm::McEliece, Variant::McEliece460896) => mceliece460896_keypair(),
        (Algorithm::McEliece, Variant::McEliece460896f) => mceliece460896f_keypair(),
        (Algorithm::McEliece, Variant::McEliece6688128) => mceliece6688128_keypair(),
        (Algorithm::McEliece, Variant::McEliece6688128f) => mceliece6688128f_keypair(),
        (Algorithm::McEliece, Variant::McEliece6960119) => mceliece6960119_keypair(),
        (Algorithm::McEliece, Variant::McEliece6960119f) => mceliece6960119f_keypair(),
        (Algorithm::McEliece, Variant::McEliece8192128) => mceliece8192128_keypair(),
        (Algorithm::McEliece, Variant::McEliece8192128f) => mceliece8192128f_keypair(),
        (Algorithm::FALCON, Variant::FALCONNoPad512) => falcon512_keypair(),
        (Algorithm::FALCON, Variant::FALCONNoPad1024) => falcon1024_keypair(),
        (Algorithm::FALCON, Variant::FALCONPadded512) => falconpadded512_keypair(),
        (Algorithm::FALCON, Variant::FALCONPadded1024) => falconpadded1024_keypair(),
        (Algorithm::MLDSA, Variant::MLDSA44) => mldsa44_keypair(),
        (Algorithm::MLDSA, Variant::MLDSA65) => mldsa65_keypair(),
        (Algorithm::MLDSA, Variant::MLDSA87) => mldsa87_keypair(),
        (Algorithm::SPHINCSPlus, Variant::SPHINCSsha2128fsimple) => sphincssha2128fsimple_keypair(),
        (Algorithm::SPHINCSPlus, Variant::SPHINCSsha2128ssimple) => sphincssha2128ssimple_keypair(),
        (Algorithm::SPHINCSPlus, Variant::SPHINCSsha2192fsimple) => sphincssha2192fsimple_keypair(),
        (Algorithm::SPHINCSPlus, Variant::SPHINCSsha2192ssimple) => sphincssha2192ssimple_keypair(),
        (Algorithm::SPHINCSPlus, Variant::SPHINCSsha2256fsimple) => sphincssha2256fsimple_keypair(),
        (Algorithm::SPHINCSPlus, Variant::SPHINCSsha2256ssimple) => sphincssha2256ssimple_keypair(),
        (Algorithm::SPHINCSPlus, Variant::SPHINCSshake128fsimple) => {
            sphincsshake128fsimple_keypair()
        },
        (Algorithm::SPHINCSPlus, Variant::SPHINCSshake128ssimple) => {
            sphincsshake128ssimple_keypair()
        },
        (Algorithm::SPHINCSPlus, Variant::SPHINCSshake192fsimple) => {
            sphincsshake192fsimple_keypair()
        },
        (Algorithm::SPHINCSPlus, Variant::SPHINCSshake192ssimple) => {
            sphincsshake192ssimple_keypair()
        },
        (Algorithm::SPHINCSPlus, Variant::SPHINCSshake256fsimple) => {
            sphincsshake256fsimple_keypair()
        },
        (Algorithm::SPHINCSPlus, Variant::SPHINCSshake256ssimple) => {
            sphincsshake256ssimple_keypair()
        },
        _ => vstd::pervasive::unreached(),
    };
    KeyMaterial::new(keys.0, keys.1)
}

/// Generates a keypair for `(algorithm, variant)`.
///
/// The pair is validated again here, whatever the caller did before: a
/// request outside the taxonomy is refused and reaches no provider. A valid
/// pair always gets its keys, with the lengths that its provider declares.
///
/// Call this on a thread with [`LARGE_STACK_BYTES`] of stack: the larger
/// variants overflow the stack of an ordinary thread.
pub fn generate_keys(algorithm: Algorithm, variant: Variant) -> (r: Result<
    KeyMaterial,
    DispatchError,
>)
    ensures
        match r {
            Ok(m) => is_valid_pair(algorithm, variant) && m.fits(variant),
            Err(e) => refusal(algorithm, variant) == Some(e),
        },
{
    if algorithm == Algorithm::Unknown {
        return Err(DispatchError::UnknownAlgorithm);
    }
    if !is_valid(algorithm, variant) {
        return Err(DispatchError::InvalidVariant { algorithm, variant });
    }
    Ok(invoke_provider(algorithm, variant))
}

/// A request is served exactly when it is a pair of the taxonomy, and refused
/// with `InvalidVariant` exactly when the family is known and the variant is
/// not one of its own.
pub proof fn lemma_refusal_is_fail_closed(a: Algorithm, v: Variant)
    ensures
        refusal(a, v) is None <==> is_valid_pair(a, v),
        a != Algorithm::Unknown && !is_valid_pair(a, v) ==> refusal(a, v) == Some(
            DispatchError::InvalidVariant { algorithm: a, variant: v },
        ),
        a == Algorithm::Unknown ==> refusal(a, v) == Some(DispatchError::UnknownAlgorithm),
{
}

} // verus!
