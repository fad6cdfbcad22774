//! Adapters that project chain data — one block, one recovered
//! transaction — onto the normalized view an EVM-style execution engine
//! reads. The heart of the library is the defaulting logic: for every
//! field the engine requires, how it is derived from a chain object that
//! may omit it (pre-fork blocks and transactions), and which fallback
//! stands in when the data is absent. Every accessor is total and its
//! result is pinned by its contract; signature recovery and the blob fee
//! formula are taken from their crates behind stated assumptions.

mod block;
mod primitives;
mod transaction;

pub use block::BlobExcessGasAndPrice;
pub use block::ChainBlock;
pub use block::RevmAlloyBlock;
pub use block::blob_gasprice_of;
pub use block::lemma_block_round_trip;
pub use primitives::Address;
pub use primitives::B256;
pub use primitives::U256;
pub use transaction::AccessListItem;
pub use transaction::AuthorizationItem;
pub use transaction::ChainTransaction;
pub use transaction::Recovered;
pub use transaction::RevmAlloyTransaction;
pub use transaction::SignedAuthorization;
pub use transaction::TxKind;
pub use transaction::lemma_authorization_count;
pub use transaction::lemma_transaction_round_trip;
pub use transaction::recovered_authority_of;
