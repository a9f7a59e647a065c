//! The concrete Nimbus signature scheme: sr25519.
//!
//! Author ids are 32-byte sr25519 public keys and seals are 64-byte sr25519
//! signatures; verification is sp_core's schnorrkel verification under the
//! substrate signing context.

use vstd::prelude::*;

use crate::seal::SignatureScheme;

verus! {

/// What sp_core's sr25519 verification returns for a 64-byte signature, a
/// message and a 32-byte public key; the result depends on these bytes
/// alone.
pub uninterp spec fn sr25519_verifies(signature: Seq<u8>, message: Seq<u8>, author: Seq<u8>) -> bool;

/// Relies on sp_core::sr25519::Pair::verify: schnorrkel signature
/// verification under the substrate signing context, a deterministic
/// function of the signature, message and public-key bytes. The conversions
/// cannot fail on inputs of the required lengths.
#[verifier::external_body]
fn sr25519_verify(signature: &Vec<u8>, message: &Vec<u8>, author: &Vec<u8>) -> (r: bool)
    requires
        signature@.len() == 64,
        author@.len() == 32,
    ensures
        r == sr25519_verifies(signature@, message@, author@),
{
    let sig = sp_core::sr25519::Signature::try_from(signature.as_slice()).unwrap();
    let public = sp_core::sr25519::Public::try_from(author.as_slice()).unwrap();
    <sp_core::sr25519::Pair as sp_core::crypto::Pair>::verify(&sig, message.as_slice(), &public)
}

/// The sr25519 signature scheme, as the Nimbus protocol fixes it.
pub struct Sr25519Scheme;

impl SignatureScheme for Sr25519Scheme {
    /// sp_core decodes a signature from exactly 64 bytes.
    open spec fn spec_signature_ok(&self, signature: Seq<u8>) -> bool {
        signature.len() == 64
    }

    /// sp_core decodes a public key from exactly 32 bytes.
    open spec fn spec_author_ok(&self, author: Seq<u8>) -> bool {
        author.len() == 32
    }

    open spec fn spec_verify(&self, signature: Seq<u8>, message: Seq<u8>, author: Seq<u8>) -> bool {
        sr25519_verifies(signature, message, author)
    }

    fn signature_ok(&self, signature: &Vec<u8>) -> (r: bool) {
        signature.len() == 64
    }

    fn author_ok(&self, author: &Vec<u8>) -> (r: bool) {
        author.len() == 32
    }

    fn verify(&self, signature: &Vec<u8>, message: &Vec<u8>, author: &Vec<u8>) -> (r: bool) {
        sr25519_verify(signature, message, author)
    }
}

} // verus!
