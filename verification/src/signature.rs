//! Signature schemes and the verification of signatures over messages.

use vstd::prelude::*;
use ed25519_dalek::Verifier;
use vstd::string::StringExecFns;

use crate::error::ProtocolError;

verus! {

/// The signing algorithms the protocol supports.
#[derive(Clone, Copy, Debug, PartialEq, Eq, Structural)]
pub enum SignatureScheme {
    /// ECDSA over secp256k1 with 64-byte compact signatures.
    Secp256k1,
    /// Ed25519.
    Ed25519,
}

/// A signature together with the key and message it is checked against.
#[derive(Clone, Debug, PartialEq, Eq)]
pub struct Signature {
    /// The signature bytes.
    pub signature: Vec<u8>,
    /// The signer's public key.
    pub public_key: Vec<u8>,
    /// The signed message.
    pub message: Vec<u8>,
}

impl Signature {
    /// Bundles a signature with its key and message.
    pub fn new(signature: Vec<u8>, public_key: Vec<u8>, message: Vec<u8>) -> (s: Signature)
        ensures
            s.signature@ == signature@,
            s.public_key@ == public_key@,
            s.message@ == message@,
    {
        Signature { signature, public_key, message }
    }
}

/// Whether secp256k1 ECDSA verification accepts `sig` (64-byte compact
/// form) by the key encoded in `pk` over the 32-byte digest `msg`.
pub uninterp spec fn secp256k1_accepts(pk: Seq<u8>, sig: Seq<u8>, msg: Seq<u8>) -> bool;

/// Whether Ed25519 verification accepts `sig` by the 32-byte key `pk` over `msg`.
pub uninterp spec fn ed25519_accepts(pk: Seq<u8>, sig: Seq<u8>, msg: Seq<u8>) -> bool;

/// Verifies a secp256k1 ECDSA signature with the `secp256k1` crate: the key
/// is parsed by `PublicKey::from_slice`, the signature by
/// `ecdsa::Signature::from_compact`, the digest by
/// `Message::from_digest_slice`, and `Secp256k1::verify_ecdsa` decides.
///
/// Trusted: the answer is `secp256k1_accepts` of the three byte strings; as
/// the parsers' sources show, it can only be yes for a nonempty key, a
/// 64-byte signature and a 32-byte digest.
#[verifier::external_body]
fn secp256k1_verify(pk: &[u8], sig: &[u8], msg: &[u8]) -> (ok: bool)
    ensures
        ok == secp256k1_accepts(pk@, sig@, msg@),
        ok ==> pk@.len() > 0 && sig@.len() == 64 && msg@.len() == 32,
{
    let secp = secp256k1::Secp256k1::verification_only();
    match (
        secp256k1::PublicKey::from_slice(pk),
        secp256k1::ecdsa::Signature::from_compact(sig),
        secp256k1::Message::from_digest_slice(msg),
    ) {
        (Ok(key), Ok(signature), Ok(message)) => secp.verify_ecdsa(&message, &signature, &key).is_ok(),
        _ => false,
    }
}

/// Verifies an Ed25519 signature with `ed25519-dalek`: the key is parsed by
/// `VerifyingKey::from_bytes` from exactly 32 bytes, the signature by
/// `Signature::from_slice`, and `Verifier::verify` decides.
///
/// Trusted: the answer is `ed25519_accepts` of the three byte strings; it
/// can only be yes for a 32-byte key and a 64-byte signature.
#[verifier::external_body]
fn ed25519_verify(pk: &[u8], sig: &[u8], msg: &[u8]) -> (ok: bool)
    ensures
        ok == ed25519_accepts(pk@, sig@, msg@),
        ok ==> pk@.len() == 32 && sig@.len() == 64,
{
    let key_bytes: Result<[u8; 32], _> = pk.try_into();
    match key_bytes {
        Ok(bytes) => match (
            ed25519_dalek::VerifyingKey::from_bytes(&bytes),
            ed25519_dalek::Signature::from_slice(sig),
        ) {
            (Ok(key), Ok(signature)) => key.verify(msg, &signature).is_ok(),
            _ => false,
        },
        Err(_) => false,
    }
}

/// Whether a signature, key and message verify under `scheme`.
pub open spec fn signature_parts_valid(
    public_key: Seq<u8>,
    signature: Seq<u8>,
    message: Seq<u8>,
    scheme: SignatureScheme,
) -> bool {
    match scheme {
        SignatureScheme::Secp256k1 => secp256k1_accepts(public_key, signature, message),
        SignatureScheme::Ed25519 => ed25519_accepts(public_key, signature, message),
    }
}

/// Whether `s` verifies under `scheme`.
pub open spec fn signature_valid(s: Signature, scheme: SignatureScheme) -> bool {
    signature_parts_valid(s.public_key@, s.signature@, s.message@, scheme)
}

/// Verifies one signature under `scheme`.
pub fn verify_signature(s: &Signature, scheme: SignatureScheme) -> (ok: bool)
    ensures
        ok == signature_valid(*s, scheme),
{
    match scheme {
        SignatureScheme::Secp256k1 => secp256k1_verify(
            s.public_key.as_slice(),
            s.signature.as_slice(),
            s.message.as_slice(),
        ),
        SignatureScheme::Ed25519 => ed25519_verify(
            s.public_key.as_slice(),
            s.signature.as_slice(),
            s.message.as_slice(),
        ),
    }
}

/// The first position at or after `from` that holds `false`.
pub open spec fn first_false(s: Seq<bool>, from: nat) -> Option<nat>
    decreases s.len() - from,
{
    if from >= s.len() {
        None
    } else if !s[from as int] {
        Some(from)
    } else {
        first_false(s, from + 1)
    }
}

/// Which signatures verify under `scheme`, in order.
pub open spec fn validity_of(sigs: Seq<Signature>, scheme: SignatureScheme) -> Seq<bool> {
    sigs.map_values(|s: Signature| signature_valid(s, scheme))
}

/// The error for a signature that does not verify at position `i`.
pub open spec fn invalid_signature_text(i: nat) -> Seq<char> {
    "Signature "@ + crate::text::decimal(i) + " is invalid"@
}

/// Verifies every signature, in order; fails on the first that does not verify.
pub fn verify_signatures(sigs: &Vec<Signature>, scheme: SignatureScheme) -> (r: Result<
    (),
    ProtocolError,
>)
    ensures
        match first_false(validity_of(sigs@, scheme), 0) {
            None => r is Ok,
            Some(i) => r matches Err(ProtocolError::SignatureVerificationFailed(m)) && m@
                == invalid_signature_text(i),
        },
{
    let ghost valid = validity_of(sigs@, scheme);
    let mut i: usize = 0;
    while i < sigs.len()
        invariant
            i <= sigs@.len(),
            valid == validity_of(sigs@, scheme),
            first_false(valid, 0) == first_false(valid, i as nat),
        decreases sigs@.len() - i,
    {
        if !verify_signature(&sigs[i], scheme) {
            let mut m = String::from_str("Signature ");
            crate::text::push_decimal(&mut m, i as u64);
            m.append(" is invalid");
            return Err(ProtocolError::SignatureVerificationFailed(m));
        }
        i = i + 1;
    }
    Ok(())
}

} // verus!
