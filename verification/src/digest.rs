//! Digest items of a block header.
//!
//! A header carries an ordered sequence of tagged digest items. The seal and
//! the consensus author claim both use the 4-byte engine tag `b"nmbs"` and
//! are distinguished by variant; everything else is carried through opaquely.

use vstd::prelude::*;

verus! {

/// One entry of a header's digest.
#[derive(Clone, PartialEq, Eq, Debug)]
pub enum DigestItem {
    /// Final signed digest item proving the identity of the block's producer:
    /// an engine tag and the raw signature bytes.
    Seal([u8; 4], Vec<u8>),
    /// Digest item inserted by block-production logic asserting the claimed
    /// author's identity: an engine tag and the raw author-id bytes.
    Consensus([u8; 4], Vec<u8>),
    /// Any other digest entry, never inspected by the verifier.
    Other(Vec<u8>),
}

/// Mathematical image of a digest item: the same variants over byte
/// sequences.
#[verifier::ext_equal]
pub ghost enum DigestItemView {
    Seal(Seq<u8>, Seq<u8>),
    Consensus(Seq<u8>, Seq<u8>),
    Other(Seq<u8>),
}

impl View for DigestItem {
    type V = DigestItemView;

    open spec fn view(&self) -> DigestItemView {
        match self {
            DigestItem::Seal(id, payload) => DigestItemView::Seal(id@, payload@),
            DigestItem::Consensus(id, payload) => DigestItemView::Consensus(id@, payload@),
            DigestItem::Other(payload) => DigestItemView::Other(payload@),
        }
    }
}

impl DeepView for DigestItem {
    type V = DigestItemView;

    open spec fn deep_view(&self) -> DigestItemView {
        self.view()
    }
}

/// The 4-byte engine tag `b"nmbs"` shared by the seal and the author claim.
pub open spec fn spec_nimbus_engine_id() -> Seq<u8> {
    seq![110u8, 109u8, 98u8, 115u8]
}

/// Whether these bytes are the engine tag `b"nmbs"`.
pub fn is_nimbus_id(id: &[u8; 4]) -> (r: bool)
    ensures
        r == (id@ == spec_nimbus_engine_id()),
{
    let r = id[0] == 110 && id[1] == 109 && id[2] == 98 && id[3] == 115;
    proof {
        if r {
            assert(id@ =~= spec_nimbus_engine_id());
        }
    }
    r
}

/// Whether the item is a seal of any engine.
pub open spec fn spec_is_seal(item: DigestItemView) -> bool {
    item is Seal
}

/// Whether the item is a seal carrying the Nimbus engine tag.
pub open spec fn spec_is_nimbus_seal(item: DigestItemView) -> bool {
    match item {
        DigestItemView::Seal(id, _) => id == spec_nimbus_engine_id(),
        _ => false,
    }
}

/// Whether the item is a consensus author claim carrying the Nimbus engine
/// tag.
pub open spec fn spec_is_nimbus_claim(item: DigestItemView) -> bool {
    match item {
        DigestItemView::Consensus(id, _) => id == spec_nimbus_engine_id(),
        _ => false,
    }
}

/// The payload of a seal item, or the empty sequence for any other item.
pub open spec fn spec_seal_payload(item: DigestItemView) -> Seq<u8> {
    match item {
        DigestItemView::Seal(_, payload) => payload,
        _ => Seq::empty(),
    }
}

/// The payload of a consensus claim, or the empty sequence for any other
/// item.
pub open spec fn spec_claim_payload(item: DigestItemView) -> Seq<u8> {
    match item {
        DigestItemView::Consensus(_, payload) => payload,
        _ => Seq::empty(),
    }
}

/// How many items of the digest are seals, of any engine.
pub open spec fn spec_count_seals(items: Seq<DigestItemView>) -> nat
    decreases items.len(),
{
    if items.len() == 0 {
        0
    } else {
        spec_count_seals(items.drop_last()) + if spec_is_seal(items.last()) {
            1nat
        } else {
            0nat
        }
    }
}

/// How many items of the digest are Nimbus-tagged author claims.
pub open spec fn spec_count_claims(items: Seq<DigestItemView>) -> nat
    decreases items.len(),
{
    if items.len() == 0 {
        0
    } else {
        spec_count_claims(items.drop_last()) + if spec_is_nimbus_claim(items.last()) {
            1nat
        } else {
            0nat
        }
    }
}

/// The payload of the first Nimbus-tagged author claim of the digest, or the
/// empty sequence when there is none.
pub open spec fn spec_first_claim_payload(items: Seq<DigestItemView>) -> Seq<u8>
    decreases items.len(),
{
    if items.len() == 0 {
        Seq::empty()
    } else if spec_count_claims(items.drop_last()) > 0 {
        spec_first_claim_payload(items.drop_last())
    } else if spec_is_nimbus_claim(items.last()) {
        spec_claim_payload(items.last())
    } else {
        Seq::empty()
    }
}

} // verus!
