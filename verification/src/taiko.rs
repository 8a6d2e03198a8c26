//! Data-transfer records describing rollup blocks and their settlement-
//! layer origin. They carry values between components and hold no logic.

use vstd::prelude::*;

use crate::range::BlockHash;

verus! {

/// A settlement-layer account address, held as its 20 raw bytes.
#[derive(Clone, Debug)]
pub struct Address {
    pub bytes: Vec<u8>,
}

impl Address {
    /// An address is exactly 20 bytes long.
    pub open spec fn wf(self) -> bool {
        self.bytes@.len() == 20
    }

    pub fn new(bytes: Vec<u8>) -> (a: Address)
        requires
            bytes@.len() == 20,
        ensures
            a.bytes@ == bytes@,
            a.wf(),
    {
        Address { bytes }
    }
}

/// The metadata of one rollup block as the protocol defines it.
#[derive(Clone, Debug)]
pub struct TaikoBlockMetadata {
    pub beneficiary: Address,
    pub gas_limit: u64,
    pub timestamp: u64,
    pub mix_hash: BlockHash,
    pub tx_list: Option<Vec<Vec<u8>>>,
    pub highest_block_id: Option<u64>,
    pub extra_data: Vec<u8>,
}

impl TaikoBlockMetadata {
    pub open spec fn wf(self) -> bool {
        self.beneficiary.wf()
    }

    pub fn new(
        beneficiary: Address,
        gas_limit: u64,
        timestamp: u64,
        mix_hash: BlockHash,
        tx_list: Option<Vec<Vec<u8>>>,
        highest_block_id: Option<u64>,
        extra_data: Vec<u8>,
    ) -> (m: TaikoBlockMetadata)
        requires
            beneficiary.wf(),
        ensures
            m.beneficiary == beneficiary,
            m.gas_limit == gas_limit,
            m.timestamp == timestamp,
            m.mix_hash == mix_hash,
            m.tx_list == tx_list,
            m.highest_block_id == highest_block_id,
            m.extra_data == extra_data,
            m.wf(),
    {
        TaikoBlockMetadata {
            beneficiary,
            gas_limit,
            timestamp,
            mix_hash,
            tx_list,
            highest_block_id,
            extra_data,
        }
    }
}

/// Where a rollup block came from on the settlement layer.
#[derive(Clone, Copy, Debug, PartialEq, Eq, Structural)]
pub struct L1Origin {
    pub block_id: Option<u64>,
    pub l2_block_hash: BlockHash,
    pub l1_block_height: Option<u64>,
    pub l1_block_hash: BlockHash,
}

impl L1Origin {
    pub fn new(
        block_id: Option<u64>,
        l2_block_hash: BlockHash,
        l1_block_height: Option<u64>,
        l1_block_hash: BlockHash,
    ) -> (o: L1Origin)
        ensures
            o.block_id == block_id,
            o.l2_block_hash == l2_block_hash,
            o.l1_block_height == l1_block_height,
            o.l1_block_hash == l1_block_hash,
    {
        L1Origin { block_id, l2_block_hash, l1_block_height, l1_block_hash }
    }
}

} // verus!
