//! Block headers and blocks as the seal verifier sees them.

use vstd::prelude::*;

use crate::digest::{DigestItem, DigestItemView};

verus! {

/// A candidate block's header: the usual roots and number, and the ordered
/// digest whose last item must be the producer's seal.
#[derive(Clone, PartialEq, Eq, Debug)]
pub struct Header {
    pub parent_hash: Vec<u8>,
    pub number: u64,
    pub state_root: Vec<u8>,
    pub extrinsics_root: Vec<u8>,
    pub digest: Vec<DigestItem>,
}

/// Mathematical image of a header.
#[verifier::ext_equal]
pub ghost struct HeaderView {
    pub parent_hash: Seq<u8>,
    pub number: u64,
    pub state_root: Seq<u8>,
    pub extrinsics_root: Seq<u8>,
    pub digest: Seq<DigestItemView>,
}

impl View for Header {
    type V = HeaderView;

    open spec fn view(&self) -> HeaderView {
        HeaderView {
            parent_hash: self.parent_hash@,
            number: self.number,
            state_root: self.state_root@,
            extrinsics_root: self.extrinsics_root@,
            digest: self.digest.deep_view(),
        }
    }
}

/// A candidate block: a header and its opaque extrinsics.
#[derive(Clone, PartialEq, Eq, Debug)]
pub struct Block {
    pub header: Header,
    pub extrinsics: Vec<Vec<u8>>,
}

/// Mathematical image of a block.
#[verifier::ext_equal]
pub ghost struct BlockView {
    pub header: HeaderView,
    pub extrinsics: Seq<Seq<u8>>,
}

impl View for Block {
    type V = BlockView;

    open spec fn view(&self) -> BlockView {
        BlockView { header: self.header@, extrinsics: self.extrinsics.deep_view() }
    }
}

/// The same header with the final digest item (the seal) removed.
pub open spec fn spec_stripped(header: HeaderView) -> HeaderView {
    HeaderView { digest: header.digest.drop_last(), ..header }
}

/// The same block with the seal removed from its header.
pub open spec fn spec_stripped_block(block: BlockView) -> BlockView {
    BlockView { header: spec_stripped(block.header), ..block }
}

} // verus!
