//! The seal verifier.
//!
//! A candidate block is accepted only when its digest ends in a single
//! Nimbus-tagged seal, the digest under the seal carries exactly one
//! Nimbus-tagged author claim, both credentials decode, and the seal
//! signature verifies over the hash of the header with the seal removed.
//! Accepted blocks are handed, seal-stripped, to the inner executor and its
//! outcome is propagated unchanged; every failure is fatal for the block.

use vstd::prelude::*;

use crate::digest::{
    is_nimbus_id, spec_count_claims, spec_count_seals, spec_first_claim_payload,
    spec_is_nimbus_seal, spec_seal_payload, DigestItem, DigestItemView,
};
use crate::header::{spec_stripped, spec_stripped_block, Block, BlockView, Header, HeaderView};

verus! {

/// Consensus-fatal reasons to reject a candidate block before execution.
#[derive(Clone, Copy, PartialEq, Eq, Structural, Debug)]
pub enum SealError {
    /// The digest has no seal, its final item is not a Nimbus-tagged seal, or
    /// more than one seal item is present.
    MissingOrMisplacedSeal,
    /// The digest under the seal does not carry exactly one Nimbus-tagged
    /// author claim.
    MissingOrDuplicateAuthorClaim,
    /// The claimed author id or the seal signature does not decode into the
    /// signature scheme's credentials.
    MalformedCredential,
    /// The seal signature does not verify over the seal-stripped header.
    InvalidSignature,
}

/// Whether the digest ends in a Nimbus-tagged seal that is the only seal
/// item of the whole digest.
pub open spec fn spec_seal_well_placed(digest: Seq<DigestItemView>) -> bool {
    &&& digest.len() > 0
    &&& spec_is_nimbus_seal(digest.last())
    &&& spec_count_seals(digest.drop_last()) == 0
}

/// Whether the digest under the seal carries exactly one Nimbus-tagged
/// author claim.
pub open spec fn spec_claim_unique(digest: Seq<DigestItemView>) -> bool {
    spec_count_claims(digest.drop_last()) == 1
}

/// The structural verdict over a digest: the seal is checked first, the
/// author claim second.
pub open spec fn spec_check_digest(digest: Seq<DigestItemView>) -> Result<(), SealError> {
    if !spec_seal_well_placed(digest) {
        Err(SealError::MissingOrMisplacedSeal)
    } else if !spec_claim_unique(digest) {
        Err(SealError::MissingOrDuplicateAuthorClaim)
    } else {
        Ok(())
    }
}

/// A structurally accepted header: the header with its seal stripped, the
/// seal's raw signature bytes, and the claimed author's raw id bytes.
pub struct CheckedSeal {
    pub stripped: Header,
    pub signature: Vec<u8>,
    pub author: Vec<u8>,
}

/// Pops the seal off the header's digest and checks the digest's structure:
/// the final item must be the only seal, Nimbus-tagged, and exactly one
/// Nimbus-tagged author claim must remain below it.
pub fn check_seal(header: Header) -> (r: Result<CheckedSeal, SealError>)
    ensures
        match r {
            Ok(c) => {
                &&& spec_check_digest(header@.digest) == Ok::<(), SealError>(())
                &&& c.stripped@ == spec_stripped(header@)
                &&& c.signature@ == spec_seal_payload(header@.digest.last())
                &&& c.author@ == spec_first_claim_payload(header@.digest.drop_last())
            },
            Err(e) => spec_check_digest(header@.digest) == Err::<(), SealError>(e),
        },
{
    let ghost full = header@.digest;
    let mut h = header;
    let popped = match h.digest.pop() {
        Some(item) => item,
        None => {
            return Err(SealError::MissingOrMisplacedSeal);
        },
    };
    proof {
        assert(h.digest.deep_view() =~= full.drop_last());
        assert(popped@ == full.last());
    }
    let signature = match popped {
        DigestItem::Seal(id, payload) => {
            if is_nimbus_id(&id) {
                payload
            } else {
                return Err(SealError::MissingOrMisplacedSeal);
            }
        },
        _ => {
            return Err(SealError::MissingOrMisplacedSeal);
        },
    };
    let ghost under = full.drop_last();
    let n = h.digest.len();
    let mut i: usize = 0;
    let mut seal_count: usize = 0;
    let mut claim_count: usize = 0;
    let mut author: Option<Vec<u8>> = None;
    while i < n
        invariant
            i <= n,
            n == h.digest@.len(),
            h.digest.deep_view() == under,
            under.len() == n,
            seal_count <= i,
            claim_count <= i,
            seal_count as nat == spec_count_seals(under.take(i as int)),
            claim_count as nat == spec_count_claims(under.take(i as int)),
            claim_count == 0 ==> author is None,
            claim_count > 0 ==> match author {
                Some(a) => a@ == spec_first_claim_payload(under.take(i as int)),
                None => false,
            },
        decreases n - i,
    {
        proof {
            assert(under.take(i as int + 1).drop_last() =~= under.take(i as int));
            assert(under.take(i as int + 1).last() == under[i as int]);
        }
        match &h.digest[i] {
            DigestItem::Seal(_, _) => {
                seal_count = seal_count + 1;
            },
            DigestItem::Consensus(id, payload) => {
                if is_nimbus_id(id) {
                    if claim_count == 0 {
                        let a = payload.clone();
                        proof {
                            assert(a@ =~= payload@);
                        }
                        author = Some(a);
                    }
                    claim_count = claim_count + 1;
                }
            },
            DigestItem::Other(_) => {},
        }
        i = i + 1;
    }
    proof {
        assert(under.take(n as int) =~= under);
    }
    if seal_count != 0 {
        return Err(SealError::MissingOrMisplacedSeal);
    }
    if claim_count != 1 {
        return Err(SealError::MissingOrDuplicateAuthorClaim);
    }
    let author_bytes = author.unwrap();
    proof {
        assert(h@ =~= spec_stripped(header@));
    }
    Ok(CheckedSeal { stripped: h, signature, author: author_bytes })
}

/// The signature-scheme capability: decides whether raw credential bytes
/// decode, and whether a signature verifies over a message. Each
/// implementation fixes its own decoding and verification functions through
/// the spec members, so the verifier's verdict is a function of the scheme,
/// the hasher and the header alone.
pub trait SignatureScheme {
    /// Whether the bytes decode into a signature of the scheme.
    spec fn spec_signature_ok(&self, signature: Seq<u8>) -> bool;

    /// Whether the bytes decode into an author id (public key) of the scheme.
    spec fn spec_author_ok(&self, author: Seq<u8>) -> bool;

    /// Whether the scheme accepts `signature` by `author` over `message`.
    spec fn spec_verify(&self, signature: Seq<u8>, message: Seq<u8>, author: Seq<u8>) -> bool;

    /// Decode check for the seal's signature bytes.
    fn signature_ok(&self, signature: &Vec<u8>) -> (r: bool)
        ensures
            r == self.spec_signature_ok(signature@),
    ;

    /// Decode check for the claimed author-id bytes.
    fn author_ok(&self, author: &Vec<u8>) -> (r: bool)
        ensures
            r == self.spec_author_ok(author@),
    ;

    /// Signature verification; callers must have decoded both credentials.
    fn verify(&self, signature: &Vec<u8>, message: &Vec<u8>, author: &Vec<u8>) -> (r: bool)
        requires
            self.spec_signature_ok(signature@),
            self.spec_author_ok(author@),
        ensures
            r == self.spec_verify(signature@, message@, author@),
    ;
}

/// The hashing capability: the protocol's hash of a header. The seal
/// signature is checked over the hash of the header after the seal has been
/// removed and before any further mutation; that ordering is part of the
/// protocol contract.
pub trait HeaderHasher {
    /// The hash as a function of the header value alone.
    spec fn spec_hash(&self, header: HeaderView) -> Seq<u8>;

    fn hash(&self, header: &Header) -> (r: Vec<u8>)
        ensures
            r@ == self.spec_hash(header@),
    ;
}

/// The inner block executor that accepted, seal-stripped blocks are handed
/// to; its outcome is opaque to the verifier and propagated unchanged.
pub trait InnerExecutor {
    /// Whatever the inner executor returns for a block.
    type Outcome;

    /// The outcome as a function of the executor's state and the block.
    spec fn spec_execute(&self, block: BlockView) -> Self::Outcome;

    fn execute(&mut self, block: Block) -> (r: Self::Outcome)
        ensures
            r == old(self).spec_execute(block@),
    ;
}

/// The verifier's verdict on a header: the structural digest checks, then
/// credential decoding, then signature verification over the hash of the
/// seal-stripped header.
pub open spec fn spec_verdict<S: SignatureScheme, H: HeaderHasher>(
    scheme: S,
    hasher: H,
    header: HeaderView,
) -> Result<(), SealError> {
    match spec_check_digest(header.digest) {
        Err(e) => Err(e),
        Ok(_) => {
            let signature = spec_seal_payload(header.digest.last());
            let author = spec_first_claim_payload(header.digest.drop_last());
            if !(scheme.spec_signature_ok(signature) && scheme.spec_author_ok(author)) {
                Err(SealError::MalformedCredential)
            } else if !scheme.spec_verify(
                signature,
                hasher.spec_hash(spec_stripped(header)),
                author,
            ) {
                Err(SealError::InvalidSignature)
            } else {
                Ok(())
            }
        },
    }
}

/// Checks a candidate block's seal and, on success, hands the seal-stripped
/// block to the inner executor, returning its outcome unchanged; any failure
/// leaves the executor untouched and rejects the block.
pub fn verify_and_execute<S: SignatureScheme, H: HeaderHasher, X: InnerExecutor>(
    block: Block,
    scheme: &S,
    hasher: &H,
    executor: &mut X,
) -> (r: Result<X::Outcome, SealError>)
    ensures
        match spec_verdict(*scheme, *hasher, block@.header) {
            Ok(_) => r == Ok::<X::Outcome, SealError>(
                old(executor).spec_execute(spec_stripped_block(block@)),
            ),
            Err(e) => r == Err::<X::Outcome, SealError>(e) && *final(executor) == *old(
                executor,
            ),
        },
{
    let ghost bv = block@;
    let Block { header, extrinsics } = block;
    let checked = match check_seal(header) {
        Ok(c) => c,
        Err(e) => {
            return Err(e);
        },
    };
    let signature_decodes = scheme.signature_ok(&checked.signature);
    let author_decodes = scheme.author_ok(&checked.author);
    if !(signature_decodes && author_decodes) {
        return Err(SealError::MalformedCredential);
    }
    let hash = hasher.hash(&checked.stripped);
    if !scheme.verify(&checked.signature, &hash, &checked.author) {
        return Err(SealError::InvalidSignature);
    }
    let stripped_block = Block { header: checked.stripped, extrinsics };
    proof {
        assert(stripped_block@ =~= spec_stripped_block(bv));
    }
    Ok(executor.execute(stripped_block))
}

/// A digest with zero seal items, or with more than one, is always rejected
/// as `MissingOrMisplacedSeal`, whatever else it holds.
pub proof fn lemma_seal_miscount_rejected<S: SignatureScheme, H: HeaderHasher>(
    scheme: S,
    hasher: H,
    header: HeaderView,
)
    requires
        spec_count_seals(header.digest) != 1,
    ensures
        spec_verdict(scheme, hasher, header) == Err::<(), SealError>(
            SealError::MissingOrMisplacedSeal,
        ),
{
    if spec_seal_well_placed(header.digest) {
        assert(spec_count_seals(header.digest) == spec_count_seals(header.digest.drop_last())
            + 1);
    }
}

/// A header with exactly one Nimbus-tagged seal, placed last, exactly one
/// Nimbus-tagged author claim below it, decodable credentials, and a
/// signature the scheme accepts over the stripped header's hash is accepted.
pub proof fn lemma_accepted_seal<S: SignatureScheme, H: HeaderHasher>(
    scheme: S,
    hasher: H,
    header: HeaderView,
)
    requires
        spec_check_digest(header.digest) == Ok::<(), SealError>(()),
        scheme.spec_signature_ok(spec_seal_payload(header.digest.last())),
        scheme.spec_author_ok(spec_first_claim_payload(header.digest.drop_last())),
        scheme.spec_verify(
            spec_seal_payload(header.digest.last()),
            hasher.spec_hash(spec_stripped(header)),
            spec_first_claim_payload(header.digest.drop_last()),
        ),
    ensures
        spec_verdict(scheme, hasher, header) == Ok::<(), SealError>(()),
{
}

/// Whenever the digest structure and both credentials are accepted but the
/// scheme rejects the seal signature over the stripped header's hash — for
/// instance because any bit of the signature was flipped — the verdict is
/// exactly `InvalidSignature`.
pub proof fn lemma_rejected_signature<S: SignatureScheme, H: HeaderHasher>(
    scheme: S,
    hasher: H,
    header: HeaderView,
)
    requires
        spec_check_digest(header.digest) == Ok::<(), SealError>(()),
        scheme.spec_signature_ok(spec_seal_payload(header.digest.last())),
        scheme.spec_author_ok(spec_first_claim_payload(header.digest.drop_last())),
        !scheme.spec_verify(
            spec_seal_payload(header.digest.last()),
            hasher.spec_hash(spec_stripped(header)),
            spec_first_claim_payload(header.digest.drop_last()),
        ),
    ensures
        spec_verdict(scheme, hasher, header) == Err::<(), SealError>(SealError::InvalidSignature),
{
}

} // verus!
