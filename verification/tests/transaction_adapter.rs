use revm_alloy::AccessListItem;
use revm_alloy::Address;
use revm_alloy::B256;
use revm_alloy::ChainTransaction;
use revm_alloy::Recovered;
use revm_alloy::RevmAlloyTransaction;
use revm_alloy::SignedAuthorization;
use revm_alloy::TxKind;
use revm_alloy::U256;

fn sample_tx() -> ChainTransaction {
    ChainTransaction {
        ty: 2,
        gas_limit: 21_000,
        value: U256 { limbs: [1_000, 0, 0, 0] },
        input: vec![0xDE, 0xAD, 0xBE, 0xEF],
        nonce: 9,
        kind: TxKind::Call(Address { bytes: [0x22; 20] }),
        chain_id: Some(1),
        gas_price: None,
        max_fee_per_gas: 30,
        max_priority_fee_per_gas: Some(2),
        access_list: None,
        blob_versioned_hashes: None,
        authorization_list: None,
    }
}

fn adapter_for(tx: ChainTransaction) -> RevmAlloyTransaction {
    RevmAlloyTransaction::from(Recovered {
        tx,
        signer: Address { bytes: [0x77; 20] },
    })
}

#[test]
fn transaction_fields_read_back_unchanged() {
    let adapter = adapter_for(sample_tx());
    assert_eq!(adapter.tx_type(), 2);
    assert_eq!(adapter.caller(), Address { bytes: [0x77; 20] });
    assert_eq!(adapter.gas_limit(), 21_000);
    assert_eq!(adapter.value(), U256 { limbs: [1_000, 0, 0, 0] });
    assert_eq!(adapter.input(), &vec![0xDE, 0xAD, 0xBE, 0xEF]);
    assert_eq!(adapter.nonce(), 9);
    assert_eq!(adapter.kind(), TxKind::Call(Address { bytes: [0x22; 20] }));
    assert_eq!(adapter.chain_id(), Some(1));
    assert_eq!(adapter.max_priority_fee_per_gas(), Some(2));
}

#[test]
fn gas_price_explicit_wins_over_cap() {
    let tx = ChainTransaction {
        ty: 0,
        gas_price: Some(20),
        ..sample_tx()
    };
    assert_eq!(adapter_for(tx).gas_price(), 20);
}

#[test]
fn gas_price_falls_back_to_fee_cap() {
    let tx = ChainTransaction {
        gas_price: None,
        ..sample_tx()
    };
    assert_eq!(adapter_for(tx).gas_price(), 30);
}

#[test]
fn max_fee_per_blob_gas_reports_fee_cap() {
    assert_eq!(adapter_for(sample_tx()).max_fee_per_blob_gas(), 30);
}

#[test]
fn access_list_absent_stays_absent() {
    assert_eq!(adapter_for(sample_tx()).access_list(), None);
}

#[test]
fn access_list_empty_is_present_and_empty() {
    let tx = ChainTransaction {
        access_list: Some(Vec::new()),
        ..sample_tx()
    };
    assert_eq!(adapter_for(tx).access_list(), Some(Vec::new()));
}

#[test]
fn access_list_keeps_entries_in_source_order() {
    let tx = ChainTransaction {
        access_list: Some(vec![
            AccessListItem {
                address: Address { bytes: [0x01; 20] },
                storage_keys: vec![B256 { bytes: [0x0A; 32] }, B256 { bytes: [0x0B; 32] }],
            },
            AccessListItem {
                address: Address { bytes: [0x02; 20] },
                storage_keys: Vec::new(),
            },
        ]),
        ..sample_tx()
    };
    let pairs = adapter_for(tx).access_list().unwrap();
    assert_eq!(pairs.len(), 2);
    assert_eq!(pairs[0].0, Address { bytes: [0x01; 20] });
    assert_eq!(
        pairs[0].1,
        vec![B256 { bytes: [0x0A; 32] }, B256 { bytes: [0x0B; 32] }]
    );
    assert_eq!(pairs[1].0, Address { bytes: [0x02; 20] });
    assert_eq!(pairs[1].1, Vec::new());
}

#[test]
fn blob_hashes_absent_collapse_to_empty() {
    let hashes = adapter_for(sample_tx()).blob_versioned_hashes();
    assert_eq!(hashes, Vec::new());
}

#[test]
fn blob_hashes_present_read_back_unchanged() {
    let tx = ChainTransaction {
        blob_versioned_hashes: Some(vec![
            B256 { bytes: [0x0C; 32] },
            B256 { bytes: [0x0D; 32] },
        ]),
        ..sample_tx()
    };
    assert_eq!(
        adapter_for(tx).blob_versioned_hashes(),
        vec![B256 { bytes: [0x0C; 32] }, B256 { bytes: [0x0D; 32] }]
    );
}

#[test]
fn authorization_list_absent_is_empty_with_zero_len() {
    let adapter = adapter_for(sample_tx());
    assert_eq!(adapter.authorization_list_len(), 0);
    assert_eq!(adapter.authorization_list().len(), 0);
}

#[test]
fn authorization_entries_copied_with_widened_chain_id() {
    let entry = SignedAuthorization {
        chain_id: u64::MAX,
        address: Address { bytes: [0x33; 20] },
        nonce: 77,
        y_parity: 4,
        r: B256 { bytes: [0x01; 32] },
        s: B256 { bytes: [0x02; 32] },
    };
    let tx = ChainTransaction {
        ty: 4,
        authorization_list: Some(vec![entry]),
        ..sample_tx()
    };
    let adapter = adapter_for(tx);
    assert_eq!(adapter.authorization_list_len(), 1);
    let items = adapter.authorization_list();
    assert_eq!(items.len(), 1);
    let (_, chain_id, nonce, address) = items[0];
    assert_eq!(chain_id, U256 { limbs: [u64::MAX, 0, 0, 0] });
    assert_eq!(nonce, 77);
    assert_eq!(address, Address { bytes: [0x33; 20] });
}
