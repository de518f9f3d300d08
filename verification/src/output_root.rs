//! L2 output roots.

use vstd::prelude::*;

use crate::bytes::{copy_range, B256};
use crate::outside::{keccak256, keccak256_digest};

verus! {

/// The claim about an L2 block that an output root commits to.
#[derive(Clone, Copy, Debug)]
pub struct OutputRoot {
    pub state_root: B256,
    /// The storage root of the `L2ToL1MessagePasser` contract.
    pub bridge_storage_root: B256,
    pub block_hash: B256,
}

/// The preimage of an output root: a zero version word and the three roots.
pub open spec fn output_root_preimage(
    state_root: Seq<u8>,
    bridge_storage_root: Seq<u8>,
    block_hash: Seq<u8>,
) -> Seq<u8> {
    Seq::new(32, |i: int| 0u8) + state_root + bridge_storage_root + block_hash
}

impl OutputRoot {
    /// The bytes that are hashed to give the output root.
    pub open spec fn preimage(self) -> Seq<u8> {
        output_root_preimage(self.state_root@, self.bridge_storage_root@, self.block_hash@)
    }

    /// The output root with these parts.
    pub fn from_parts(state_root: B256, bridge_storage_root: B256, block_hash: B256) -> (root:
        OutputRoot)
        ensures
            root.state_root == state_root,
            root.bridge_storage_root == bridge_storage_root,
            root.block_hash == block_hash,
    {
        OutputRoot { state_root, bridge_storage_root, block_hash }
    }

    /// The bytes that are hashed to give the output root.
    pub fn encode(&self) -> (bytes: Vec<u8>)
        ensures
            bytes@ == self.preimage(),
    {
        let version: B256 = [0u8; 32];
        let mut bytes = copy_range(version.as_slice(), 0, 32);
        bytes.append(&mut copy_range(self.state_root.as_slice(), 0, 32));
        bytes.append(&mut copy_range(self.bridge_storage_root.as_slice(), 0, 32));
        bytes.append(&mut copy_range(self.block_hash.as_slice(), 0, 32));
        assert(bytes@ =~= self.preimage());
        bytes
    }

    /// The output root itself.
    pub fn hash(&self) -> (digest: B256)
        ensures
            digest@ == keccak256_digest(self.preimage()),
    {
        keccak256(self.encode().as_slice())
    }
}

/// The preimage of an output root is a zero word, the state root, the message passer's storage
/// root and the block hash, each in its own 32 bytes.
pub proof fn law_output_root_layout(
    state_root: Seq<u8>,
    bridge_storage_root: Seq<u8>,
    block_hash: Seq<u8>,
)
    requires
        state_root.len() == 32,
        bridge_storage_root.len() == 32,
        block_hash.len() == 32,
    ensures
        ({
            let preimage = output_root_preimage(state_root, bridge_storage_root, block_hash);
            &&& preimage.len() == 128
            &&& forall|i: int| 0 <= i < 32 ==> preimage[i] == 0
            &&& preimage.subrange(32, 64) == state_root
            &&& preimage.subrange(64, 96) == bridge_storage_root
            &&& preimage.subrange(96, 128) == block_hash
        }),
{
    let preimage = output_root_preimage(state_root, bridge_storage_root, block_hash);
    assert(preimage.subrange(32, 64) =~= state_root);
    assert(preimage.subrange(64, 96) =~= bridge_storage_root);
    assert(preimage.subrange(96, 128) =~= block_hash);
}

/// The preimage of an output root value is made of its own parts.
pub proof fn law_output_root_value_layout(root: OutputRoot)
    ensures
        root.preimage().len() == 128,
        forall|i: int| 0 <= i < 32 ==> root.preimage()[i] == 0,
        root.preimage().subrange(32, 64) == root.state_root@,
        root.preimage().subrange(64, 96) == root.bridge_storage_root@,
        root.preimage().subrange(96, 128) == root.block_hash@,
{
    law_output_root_layout(root.state_root@, root.bridge_storage_root@, root.block_hash@);
}

} // verus!
