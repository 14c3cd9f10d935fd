use vstd::prelude::*;

verus! {

/// A storage proof standing in for the relay chain state in the
/// validation data of the mock inherent.
pub const MOCK_PROOF: [u8; 71] = [
    127, 1, 6, 222, 61, 138, 84, 210, 126, 68, 169, 213, 206, 24, 150, 24, 242, 45, 180, 180, 157,
    149, 50, 13, 144, 33, 153, 76, 133, 15, 37, 184, 227, 133, 144, 0, 0, 32, 0, 0, 0, 16, 0, 8, 0,
    0, 0, 0, 4, 0, 0, 0, 1, 0, 0, 5, 0, 0, 0, 5, 0, 0, 0, 6, 0, 0, 0, 6, 0, 0, 0,
];

/// The relay storage root that `MOCK_PROOF` is valid against.
pub const MOCK_PROOF_HASH: [u8; 32] = [
    216, 6, 227, 175, 180, 211, 98, 117, 202, 245, 206, 51, 21, 143, 100, 232, 96, 217, 14, 71,
    243, 146, 7, 202, 245, 129, 165, 70, 72, 184, 130, 141,
];

/// The largest proof of validity a block may carry, in the mock data.
pub const MAX_POV_SIZE: u32 = 1000;

/// The validation data the relay chain hands a parachain block.
pub struct ValidationData {
    /// Number of the relay block the parachain block is built on.
    pub relay_parent_number: u32,
    /// Storage root of that relay block.
    pub relay_parent_storage_root: [u8; 32],
    /// Largest proof of validity the block may carry.
    pub max_pov_size: u32,
    /// Encoded head of the parent parachain block.
    pub parent_head: Vec<u8>,
}

/// The parachain system inherent of a mock block; its downward and
/// horizontal message queues are empty.
pub struct ParachainInherent {
    pub validation_data: ValidationData,
    /// Nodes of the proof of the relay chain state.
    pub relay_chain_state: Vec<Vec<u8>>,
}

/// The parachain system inherent for a block built on relay block
/// `block_number`: the relay state is `MOCK_PROOF`, whose storage root is
/// `MOCK_PROOF_HASH`, the proof size limit is `MAX_POV_SIZE`, and the
/// parent head is `[1, 1, 1]`.
pub fn create_inherent_data(block_number: u32) -> (d: ParachainInherent)
    ensures
        d.validation_data.relay_parent_number == block_number,
        d.validation_data.relay_parent_storage_root@ == MOCK_PROOF_HASH@,
        d.validation_data.max_pov_size == MAX_POV_SIZE,
        d.validation_data.parent_head@ == seq![1u8, 1u8, 1u8],
        d.relay_chain_state.len() == 1,
        d.relay_chain_state@[0]@ == MOCK_PROOF@,
{
    let vfp = ValidationData {
        relay_parent_number: block_number,
        relay_parent_storage_root: MOCK_PROOF_HASH,
        max_pov_size: MAX_POV_SIZE,
        parent_head: vec![1u8, 1u8, 1u8],
    };
    let mut relay_chain_state: Vec<Vec<u8>> = Vec::new();
    relay_chain_state.push(vstd::slice::slice_to_vec(MOCK_PROOF.as_slice()));
    ParachainInherent { validation_data: vfp, relay_chain_state }
}

} // verus!
