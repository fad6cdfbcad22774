//! The transaction adapter: projects one recovered transaction (a
//! transaction body plus the sender address recovered from its
//! signature) onto the execution engine's transaction view. Every
//! accessor is total; fields a transaction type lacks are mapped to the
//! documented fallbacks, never to an error.

use vstd::prelude::*;

use crate::primitives::{Address, B256, U256};

verus! {

/// A transaction's destination: a call to an address, or the creation of
/// a new contract.
#[derive(Clone, Copy, Debug, PartialEq, Eq, Hash)]
pub enum TxKind {
    Create,
    Call(Address),
}

/// One access-list entry: an address and the storage keys warmed for it.
#[derive(Debug, PartialEq, Eq, Hash)]
pub struct AccessListItem {
    pub address: Address,
    pub storage_keys: Vec<B256>,
}

/// One signed delegation authorization: the authorized chain and target,
/// the signer nonce, and the signature from which the authority address
/// may or may not be recoverable.
#[derive(Clone, Copy, Debug, PartialEq, Eq, Hash)]
pub struct SignedAuthorization {
    pub chain_id: u64,
    pub address: Address,
    pub nonce: u64,
    pub y_parity: u8,
    pub r: B256,
    pub s: B256,
}

/// What the engine reads per authorization entry: the recovered authority
/// (absent when recovery fails), the chain id widened to 256 bits, the
/// nonce and the target address.
pub type AuthorizationItem = (Option<Address>, U256, u64, Address);

/// The fork-dependent fields of one transaction body. Optional fields
/// are absent on transaction types that do not carry them.
#[derive(Debug, PartialEq, Eq, Hash)]
pub struct ChainTransaction {
    pub ty: u8,
    pub gas_limit: u64,
    pub value: U256,
    pub input: Vec<u8>,
    pub nonce: u64,
    pub kind: TxKind,
    pub chain_id: Option<u64>,
    pub gas_price: Option<u128>,
    pub max_fee_per_gas: u128,
    pub max_priority_fee_per_gas: Option<u128>,
    pub access_list: Option<Vec<AccessListItem>>,
    pub blob_versioned_hashes: Option<Vec<B256>>,
    pub authorization_list: Option<Vec<SignedAuthorization>>,
}

/// A transaction body paired with the sender address already recovered
/// from its signature by the upstream layer.
#[derive(Debug, PartialEq, Eq, Hash)]
pub struct Recovered {
    pub tx: ChainTransaction,
    pub signer: Address,
}

/// What `alloy_eips::eip7702::SignedAuthorization::recover_authority`
/// returns for an entry with these fields: the recovered authority's 20
/// address bytes, or nothing when the signature does not recover. A
/// function of the entry's fields alone.
pub uninterp spec fn recovered_authority_of(
    chain_id: u64,
    address: Seq<u8>,
    nonce: u64,
    y_parity: u8,
    r: Seq<u8>,
    s: Seq<u8>,
) -> Option<Seq<u8>>;

impl SignedAuthorization {
    /// The authority this entry's signature recovers to, if any.
    pub open spec fn spec_authority(self) -> Option<Seq<u8>> {
        recovered_authority_of(
            self.chain_id,
            self.address.bytes@,
            self.nonce,
            self.y_parity,
            self.r.bytes@,
            self.s.bytes@,
        )
    }
}

/// Relies on `alloy_eips::eip7702::SignedAuthorization::recover_authority`:
/// deterministic public-key recovery over the entry's fields alone; an
/// entry whose signature is malformed or does not recover gives an error,
/// reported here as an absent authority.
#[verifier::external_body]
fn recover_authority(auth: &SignedAuthorization) -> (authority: Option<Address>)
    ensures
        authority is Some <==> recovered_authority_of(
            auth.chain_id,
            auth.address.bytes@,
            auth.nonce,
            auth.y_parity,
            auth.r.bytes@,
            auth.s.bytes@,
        ) is Some,
        authority matches Some(a) ==> recovered_authority_of(
            auth.chain_id,
            auth.address.bytes@,
            auth.nonce,
            auth.y_parity,
            auth.r.bytes@,
            auth.s.bytes@,
        ) == Some(a.bytes@),
{
    let inner = alloy_eips::eip7702::Authorization {
        chain_id: alloy_primitives::U256::from(auth.chain_id),
        address: alloy_primitives::Address::from(auth.address.bytes),
        nonce: auth.nonce,
    };
    let signed = alloy_eips::eip7702::SignedAuthorization::new_unchecked(
        inner,
        auth.y_parity,
        alloy_primitives::U256::from_be_bytes(auth.r.bytes),
        alloy_primitives::U256::from_be_bytes(auth.s.bytes),
    );
    signed.recover_authority().ok().map(|a| Address { bytes: a.into_array() })
}

/// Copies a list of 256-bit hashes element by element.
fn copy_hashes(v: &Vec<B256>) -> (out: Vec<B256>)
    ensures
        out@ == v@,
{
    let mut out: Vec<B256> = Vec::new();
    let mut i: usize = 0;
    while i < v.len()
        invariant
            i <= v@.len(),
            out@ == v@.take(i as int),
        decreases v@.len() - i,
    {
        out.push(v[i]);
        assert(v@.take(i as int).push(v@[i as int]) =~= v@.take(i + 1 as int));
        i += 1;
    }
    assert(out@ =~= v@);
    out
}

/// Wraps one recovered transaction and exposes the engine's transaction
/// capability. A read-only view: constructed once, queried, discarded.
#[derive(Debug, PartialEq, Eq, Hash)]
pub struct RevmAlloyTransaction {
    pub inner: Recovered,
}

impl RevmAlloyTransaction {
    /// Wraps a recovered transaction, taking ownership of it.
    pub fn from(tx: Recovered) -> (adapter: Self)
        ensures
            adapter.inner == tx,
    {
        RevmAlloyTransaction { inner: tx }
    }

    /// The gas price the engine sees: the explicit price of legacy and
    /// access-list transaction types, else the fee cap in its place.
    pub open spec fn spec_gas_price(self) -> u128 {
        match self.inner.tx.gas_price {
            Some(price) => price,
            None => self.inner.tx.max_fee_per_gas,
        }
    }

    /// The access list the engine sees: absent for transaction types
    /// without one, else the entries as (address, storage keys) pairs in
    /// source order.
    pub open spec fn spec_access_list(self) -> Option<Seq<(Address, Seq<B256>)>> {
        match self.inner.tx.access_list {
            Some(list) => Some(
                list@.map_values(|item: AccessListItem| (item.address, item.storage_keys@)),
            ),
            None => None,
        }
    }

    /// The blob hashes the engine sees: empty, never absent, for
    /// transaction types without blobs.
    pub open spec fn spec_blob_versioned_hashes(self) -> Seq<B256> {
        match self.inner.tx.blob_versioned_hashes {
            Some(hashes) => hashes@,
            None => Seq::empty(),
        }
    }

    /// How many authorization entries the transaction carries; zero for
    /// transaction types without an authorization list.
    pub open spec fn spec_authorization_list_len(self) -> nat {
        match self.inner.tx.authorization_list {
            Some(list) => list@.len(),
            None => 0,
        }
    }

    /// The type tag, unchanged.
    pub fn tx_type(&self) -> (t: u8)
        ensures
            t == self.inner.tx.ty,
    {
        self.inner.tx.ty
    }

    /// The caller: the recovered sender, not a field of the raw
    /// transaction body.
    pub fn caller(&self) -> (c: Address)
        ensures
            c == self.inner.signer,
    {
        self.inner.signer
    }

    /// The gas limit, unchanged.
    pub fn gas_limit(&self) -> (g: u64)
        ensures
            g == self.inner.tx.gas_limit,
    {
        self.inner.tx.gas_limit
    }

    /// The transferred value, unchanged.
    pub fn value(&self) -> (v: U256)
        ensures
            v == self.inner.tx.value,
    {
        self.inner.tx.value
    }

    /// The input payload, unchanged.
    pub fn input(&self) -> (data: &Vec<u8>)
        ensures
            data == &self.inner.tx.input,
    {
        &self.inner.tx.input
    }

    /// The nonce, unchanged.
    pub fn nonce(&self) -> (n: u64)
        ensures
            n == self.inner.tx.nonce,
    {
        self.inner.tx.nonce
    }

    /// The destination-or-creation marker, unchanged.
    pub fn kind(&self) -> (k: TxKind)
        ensures
            k == self.inner.tx.kind,
    {
        self.inner.tx.kind
    }

    /// The chain id; absent on pre-EIP-155 legacy transactions.
    pub fn chain_id(&self) -> (id: Option<u64>)
        ensures
            id == self.inner.tx.chain_id,
    {
        self.inner.tx.chain_id
    }

    /// The explicit gas price where the transaction type carries one;
    /// otherwise the fee cap stands in its place. Callers must treat the
    /// substituted cap as an upper bound, not the effective price.
    pub fn gas_price(&self) -> (price: u128)
        ensures
            price == self.spec_gas_price(),
            self.inner.tx.gas_price matches Some(p) ==> price == p,
            self.inner.tx.gas_price is None ==> price == self.inner.tx.max_fee_per_gas,
    {
        match self.inner.tx.gas_price {
            Some(price) => price,
            None => self.inner.tx.max_fee_per_gas,
        }
    }

    /// The access list as (address, storage keys) pairs: absent exactly
    /// when the transaction type carries none, else one pair per source
    /// entry, in source order.
    pub fn access_list(&self) -> (out: Option<Vec<(Address, Vec<B256>)>>)
        ensures
            out is Some <==> self.inner.tx.access_list is Some,
            out matches Some(pairs) ==> {
                &&& self.spec_access_list() matches Some(model)
                &&& pairs@.len() == model.len()
                &&& (forall|i: int|
                    #![trigger pairs@[i]]
                    0 <= i < model.len() ==> pairs@[i].0 == model[i].0 && pairs@[i].1@
                        == model[i].1)
            },
    {
        match &self.inner.tx.access_list {
            Some(list) => {
                let mut pairs: Vec<(Address, Vec<B256>)> = Vec::new();
                let mut i: usize = 0;
                while i < list.len()
                    invariant
                        i <= list@.len(),
                        pairs@.len() == i,
                        forall|j: int|
                            #![trigger pairs@[j]]
                            0 <= j < i ==> pairs@[j].0 == list@[j].address && pairs@[j].1@
                                == list@[j].storage_keys@,
                    decreases list@.len() - i,
                {
                    let keys = copy_hashes(&list[i].storage_keys);
                    pairs.push((list[i].address, keys));
                    i += 1;
                }
                Some(pairs)
            },
            None => None,
        }
    }

    /// The blob versioned hashes; a transaction type without blobs gives
    /// the empty list, never an absent one.
    pub fn blob_versioned_hashes(&self) -> (hashes: Vec<B256>)
        ensures
            hashes@ == self.spec_blob_versioned_hashes(),
            self.inner.tx.blob_versioned_hashes matches Some(v) ==> hashes@ == v@,
            self.inner.tx.blob_versioned_hashes is None ==> hashes@.len() == 0,
    {
        match &self.inner.tx.blob_versioned_hashes {
            Some(hashes) => copy_hashes(hashes),
            None => Vec::new(),
        }
    }

    /// The fee cap, reported in place of a dedicated blob fee cap. For
    /// transaction types without blobs this is a documented
    /// approximation inherited from the engine's expected view.
    pub fn max_fee_per_blob_gas(&self) -> (fee: u128)
        ensures
            fee == self.inner.tx.max_fee_per_gas,
    {
        self.inner.tx.max_fee_per_gas
    }

    /// How many authorization entries the transaction carries; zero when
    /// the transaction type has no authorization list.
    pub fn authorization_list_len(&self) -> (n: usize)
        ensures
            n == self.spec_authorization_list_len(),
            self.inner.tx.authorization_list matches Some(l) ==> n == l@.len(),
            self.inner.tx.authorization_list is None ==> n == 0,
    {
        match &self.inner.tx.authorization_list {
            Some(list) => list.len(),
            None => 0,
        }
    }

    /// One tuple per authorization entry, in source order: the recovered
    /// authority, the chain id widened losslessly to 256 bits, and the
    /// nonce and target address copied verbatim. An entry whose
    /// signature does not recover yields an absent authority in its
    /// position; the entry count is unaffected.
    pub fn authorization_list(&self) -> (items: Vec<AuthorizationItem>)
        ensures
            items@.len() == self.spec_authorization_list_len(),
            self.inner.tx.authorization_list matches Some(l) ==> forall|i: int|
                #![trigger items@[i]]
                0 <= i < l@.len() ==> {
                    &&& items@[i].1.as_nat() == l@[i].chain_id
                    &&& items@[i].2 == l@[i].nonce
                    &&& items@[i].3 == l@[i].address
                    &&& (items@[i].0 is Some <==> l@[i].spec_authority() is Some)
                    &&& (items@[i].0 matches Some(a) ==> l@[i].spec_authority() == Some(a.bytes@))
                },
    {
        match &self.inner.tx.authorization_list {
            Some(list) => {
                let mut items: Vec<AuthorizationItem> = Vec::new();
                let mut i: usize = 0;
                while i < list.len()
                    invariant
                        i <= list@.len(),
                        items@.len() == i,
                        forall|j: int|
                            #![trigger items@[j]]
                            0 <= j < i ==> {
                                &&& items@[j].1.as_nat() == list@[j].chain_id
                                &&& items@[j].2 == list@[j].nonce
                                &&& items@[j].3 == list@[j].address
                                &&& (items@[j].0 is Some <==> list@[j].spec_authority() is Some)
                                &&& (items@[j].0 matches Some(a) ==> list@[j].spec_authority()
                                    == Some(a.bytes@))
                            },
                    decreases list@.len() - i,
                {
                    let entry = &list[i];
                    let authority = recover_authority(entry);
                    items.push((authority, U256::from_u64(entry.chain_id), entry.nonce, entry.address));
                    i += 1;
                }
                items
            },
            None => Vec::new(),
        }
    }

    /// The priority fee cap; absent for transaction types without a
    /// priority/fee-cap split.
    pub fn max_priority_fee_per_gas(&self) -> (fee: Option<u128>)
        ensures
            fee == self.inner.tx.max_priority_fee_per_gas,
    {
        self.inner.tx.max_priority_fee_per_gas
    }
}

/// Law: the engine sees as many authorization tuples as the transaction
/// carries entries, whether or not any entry's authority recovers, and
/// none at all only for transaction types without an authorization list.
pub proof fn lemma_authorization_count(rt: Recovered)
    ensures
        rt.tx.authorization_list matches Some(l) ==> (RevmAlloyTransaction {
            inner: rt,
        }).spec_authorization_list_len() == l@.len(),
        rt.tx.authorization_list is None ==> (RevmAlloyTransaction {
            inner: rt,
        }).spec_authorization_list_len() == 0,
{
}

/// Law: reading any projected field of an adapter built from a recovered
/// transaction gives the value the transaction's own capability interface
/// shows, with the documented fallbacks for fields its type lacks. The
/// adapter introduces no drift.
pub proof fn lemma_transaction_round_trip(rt: Recovered)
    ensures
        (RevmAlloyTransaction { inner: rt }).inner.tx.ty == rt.tx.ty,
        (RevmAlloyTransaction { inner: rt }).inner.signer == rt.signer,
        (RevmAlloyTransaction { inner: rt }).inner.tx.gas_limit == rt.tx.gas_limit,
        (RevmAlloyTransaction { inner: rt }).inner.tx.value == rt.tx.value,
        (RevmAlloyTransaction { inner: rt }).inner.tx.input@ == rt.tx.input@,
        (RevmAlloyTransaction { inner: rt }).inner.tx.nonce == rt.tx.nonce,
        (RevmAlloyTransaction { inner: rt }).inner.tx.kind == rt.tx.kind,
        (RevmAlloyTransaction { inner: rt }).inner.tx.chain_id == rt.tx.chain_id,
        (RevmAlloyTransaction { inner: rt }).inner.tx.max_fee_per_gas == rt.tx.max_fee_per_gas,
        (RevmAlloyTransaction { inner: rt }).inner.tx.max_priority_fee_per_gas
            == rt.tx.max_priority_fee_per_gas,
        rt.tx.gas_price matches Some(p) ==> (RevmAlloyTransaction {
            inner: rt,
        }).spec_gas_price() == p,
        rt.tx.gas_price is None ==> (RevmAlloyTransaction { inner: rt }).spec_gas_price()
            == rt.tx.max_fee_per_gas,
        rt.tx.access_list is None ==> (RevmAlloyTransaction { inner: rt }).spec_access_list()
            is None,
        rt.tx.access_list matches Some(l) ==> {
            &&& (RevmAlloyTransaction { inner: rt }).spec_access_list() matches Some(model)
            &&& model.len() == l@.len()
            &&& (forall|i: int|
                #![trigger model[i]]
                0 <= i < l@.len() ==> model[i] == (l@[i].address, l@[i].storage_keys@))
        },
        rt.tx.blob_versioned_hashes matches Some(v) ==> (RevmAlloyTransaction {
            inner: rt,
        }).spec_blob_versioned_hashes() == v@,
        rt.tx.blob_versioned_hashes is None ==> (RevmAlloyTransaction {
            inner: rt,
        }).spec_blob_versioned_hashes().len() == 0,
        rt.tx.authorization_list matches Some(l) ==> (RevmAlloyTransaction {
            inner: rt,
        }).spec_authorization_list_len() == l@.len(),
        rt.tx.authorization_list is None ==> (RevmAlloyTransaction {
            inner: rt,
        }).spec_authorization_list_len() == 0,
{
}

} // verus!
