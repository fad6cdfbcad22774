//! The block adapter: projects one chain block onto the execution
//! engine's block view. Every accessor is total; a field the block lacks
//! is mapped to its documented default, never to an error.

use vstd::prelude::*;

use crate::primitives::{Address, B256, U256};

verus! {

/// The fields of one chain block that the engine's view is derived from.
/// Optional fields are absent on blocks from before the fork that
/// introduced them.
#[derive(Clone, Copy, Debug, PartialEq, Eq, Hash)]
pub struct ChainBlock {
    pub number: u64,
    pub beneficiary: Address,
    pub timestamp: u64,
    pub gas_limit: u64,
    pub base_fee_per_gas: Option<u64>,
    pub difficulty: U256,
    pub parent_beacon_block_root: Option<B256>,
    pub excess_blob_gas: Option<u64>,
}

/// A block's excess blob gas paired with the blob gas price that the
/// engine's fee formula derives from it.
#[derive(Clone, Copy, Debug, PartialEq, Eq, Hash)]
pub struct BlobExcessGasAndPrice {
    pub excess_blob_gas: u64,
    pub blob_gasprice: u128,
}

/// What `revm_context_interface::block::calc_blob_gasprice` returns: the
/// blob gas price, a function of the excess blob gas and the base-fee
/// update fraction alone.
pub uninterp spec fn blob_gasprice_of(excess_blob_gas: u64, blob_base_fee_update_fraction: u64) -> u128;

/// Relies on `revm_context_interface::block::calc_blob_gasprice`, the
/// engine's blob fee formula: deterministic in its two arguments; its
/// result is at least the minimum blob gas price, which is 1. The bounds
/// required here keep the formula's intermediate products within its
/// 128-bit arithmetic, which would otherwise overflow.
#[verifier::external_body]
fn calc_blob_price(excess_blob_gas: u64, blob_base_fee_update_fraction: u64) -> (price: u128)
    requires
        1 <= blob_base_fee_update_fraction <= 0xffff_ffffu64,
        excess_blob_gas <= 20 * blob_base_fee_update_fraction,
    ensures
        price == blob_gasprice_of(excess_blob_gas, blob_base_fee_update_fraction),
        price >= 1,
{
    revm_context_interface::block::calc_blob_gasprice(excess_blob_gas, blob_base_fee_update_fraction)
}

/// Wraps one chain block and exposes the engine's block capability.
/// A read-only view: constructed once, queried, discarded.
#[derive(Clone, Copy, Debug, PartialEq, Eq, Hash)]
pub struct RevmAlloyBlock {
    pub block: ChainBlock,
}

impl RevmAlloyBlock {
    /// Wraps a chain block, taking ownership of it.
    pub fn from(block: ChainBlock) -> (adapter: Self)
        ensures
            adapter.block == block,
    {
        RevmAlloyBlock { block }
    }

    /// The base fee the engine sees: the block's own base fee, or the
    /// 64-bit maximum as the "no base fee constraint" sentinel when the
    /// block predates fee-market semantics.
    pub open spec fn spec_basefee(self) -> u64 {
        match self.block.base_fee_per_gas {
            Some(fee) => fee,
            None => u64::MAX,
        }
    }

    /// The blob composite the engine sees: absent when the block carries
    /// no excess blob gas, else the excess paired with the price the
    /// engine's formula derives from it and the given update fraction.
    pub open spec fn spec_blob_excess_gas_and_price(self, blob_base_fee_update_fraction: u64) -> Option<
        BlobExcessGasAndPrice,
    > {
        match self.block.excess_blob_gas {
            Some(excess) => Some(
                BlobExcessGasAndPrice {
                    excess_blob_gas: excess,
                    blob_gasprice: blob_gasprice_of(excess, blob_base_fee_update_fraction),
                },
            ),
            None => None,
        }
    }

    /// The block height, unchanged.
    pub fn number(&self) -> (n: u64)
        ensures
            n == self.block.number,
    {
        self.block.number
    }

    /// The beneficiary address, unchanged.
    pub fn beneficiary(&self) -> (a: Address)
        ensures
            a == self.block.beneficiary,
    {
        self.block.beneficiary
    }

    /// The timestamp, unchanged.
    pub fn timestamp(&self) -> (t: u64)
        ensures
            t == self.block.timestamp,
    {
        self.block.timestamp
    }

    /// The gas limit, unchanged.
    pub fn gas_limit(&self) -> (g: u64)
        ensures
            g == self.block.gas_limit,
    {
        self.block.gas_limit
    }

    /// The base fee if the block has one; the 64-bit maximum sentinel if
    /// not. The sentinel cannot collide with a real base fee, which
    /// consensus keeps far below it.
    pub fn basefee(&self) -> (fee: u64)
        ensures
            fee == self.spec_basefee(),
            self.block.base_fee_per_gas matches Some(f) ==> fee == f,
            self.block.base_fee_per_gas is None ==> fee == u64::MAX,
    {
        match self.block.base_fee_per_gas {
            Some(fee) => fee,
            None => u64::MAX,
        }
    }

    /// The difficulty word, forwarded raw; post-merge chains repurpose it
    /// as the randomness container, which the adapter does not interpret.
    pub fn difficulty(&self) -> (d: U256)
        ensures
            d == self.block.difficulty,
    {
        self.block.difficulty
    }

    /// The previous-randomness seed, taken from the block's beacon-root
    /// field; absent means no randomness is available for this block.
    pub fn prevrandao(&self) -> (seed: Option<B256>)
        ensures
            seed == self.block.parent_beacon_block_root,
    {
        self.block.parent_beacon_block_root
    }

    /// The excess blob gas paired with the blob gas price computed by the
    /// engine's formula under the given update fraction; absent when the
    /// block predates blobs. The bounds are those of the formula itself.
    pub fn blob_excess_gas_and_price(&self, blob_base_fee_update_fraction: u64) -> (out: Option<
        BlobExcessGasAndPrice,
    >)
        requires
            1 <= blob_base_fee_update_fraction <= 0xffff_ffffu64,
            self.block.excess_blob_gas matches Some(e) ==> e <= 20 * blob_base_fee_update_fraction,
        ensures
            out == self.spec_blob_excess_gas_and_price(blob_base_fee_update_fraction),
            out is Some <==> self.block.excess_blob_gas is Some,
    {
        match self.block.excess_blob_gas {
            Some(excess) => Some(
                BlobExcessGasAndPrice {
                    excess_blob_gas: excess,
                    blob_gasprice: calc_blob_price(excess, blob_base_fee_update_fraction),
                },
            ),
            None => None,
        }
    }
}

/// Law: reading any projected field of an adapter built from a chain
/// block gives the value the block's own capability interface shows,
/// with absent optional fields mapped to their documented defaults. The
/// adapter introduces no drift.
pub proof fn lemma_block_round_trip(b: ChainBlock, blob_base_fee_update_fraction: u64)
    ensures
        (RevmAlloyBlock { block: b }).block.number == b.number,
        (RevmAlloyBlock { block: b }).block.beneficiary == b.beneficiary,
        (RevmAlloyBlock { block: b }).block.timestamp == b.timestamp,
        (RevmAlloyBlock { block: b }).block.gas_limit == b.gas_limit,
        (RevmAlloyBlock { block: b }).block.difficulty == b.difficulty,
        (RevmAlloyBlock { block: b }).block.parent_beacon_block_root == b.parent_beacon_block_root,
        b.base_fee_per_gas matches Some(f) ==> (RevmAlloyBlock { block: b }).spec_basefee() == f,
        b.base_fee_per_gas is None ==> (RevmAlloyBlock { block: b }).spec_basefee() == u64::MAX,
        b.excess_blob_gas matches Some(e) ==> (RevmAlloyBlock {
            block: b,
        }).spec_blob_excess_gas_and_price(blob_base_fee_update_fraction) == Some(
            BlobExcessGasAndPrice {
                excess_blob_gas: e,
                blob_gasprice: blob_gasprice_of(e, blob_base_fee_update_fraction),
            },
        ),
        b.excess_blob_gas is None ==> (RevmAlloyBlock {
            block: b,
        }).spec_blob_excess_gas_and_price(blob_base_fee_update_fraction) is None,
{
}

} // verus!
