use bdk::bitcoin::hashes::hex::FromHex;

use bdk_ffi::{
    finalize_outcome, generate_extended_key, restore_extended_key, stop_gap_to_platform,
    to_script_pubkey, AddressIndex, Balance, BlockTime, BlockchainConfig, DatabaseConfig,
    ElectrumConfig, ErrorKind, Network, PartiallySignedBitcoinTransaction, Transaction,
    TransactionDetails, TxBuilder, Wallet, WordCount,
};

#[test]
fn balance_total_is_the_sum_of_all_counters() {
    let balance = Balance { immature: 1, trusted_pending: 2, untrusted_pending: 3, confirmed: 4 };
    assert_eq!(balance.total(), 10);
    assert_eq!(balance.trusted_spendable(), 6);
    assert_eq!(balance.immature(), 1);
    assert_eq!(balance.trusted_pending(), 2);
    assert_eq!(balance.untrusted_pending(), 3);
    assert_eq!(balance.confirmed(), 4);
    assert_eq!(balance.checked_total(), Some(10));
}

#[test]
fn balance_checked_total_reports_overflow() {
    let too_big =
        Balance { immature: u64::MAX, trusted_pending: 1, untrusted_pending: 0, confirmed: 0 };
    assert_eq!(too_big.checked_total(), None);
    let max = Balance { immature: u64::MAX, trusted_pending: 0, untrusted_pending: 0, confirmed: 0 };
    assert_eq!(max.checked_total(), Some(u64::MAX));
}

fn details(txid: &str) -> TransactionDetails {
    TransactionDetails { fees: Some(10), received: 20, sent: 30, txid: txid.to_string() }
}

#[test]
fn transaction_is_confirmed_exactly_when_metadata_is_present() {
    let unconfirmed = Transaction::from_details(details("aa"), None);
    assert!(matches!(unconfirmed, Transaction::Unconfirmed { .. }));

    let block_time = BlockTime { height: 100, timestamp: 1_600_000_000 };
    let confirmed = Transaction::from_details(details("bb"), Some(block_time));
    match confirmed {
        Transaction::Confirmed { details, confirmation } => {
            assert_eq!(details.txid, "bb");
            assert_eq!(confirmation.height, 100);
            assert_eq!(confirmation.timestamp, 1_600_000_000);
        }
        Transaction::Unconfirmed { .. } => panic!("confirmation metadata was present"),
    }
}

#[test]
fn stop_gap_narrowing_is_exact() {
    assert_eq!(stop_gap_to_platform(0).unwrap(), 0);
    assert_eq!(stop_gap_to_platform(20).unwrap(), 20);
    assert_eq!(stop_gap_to_platform(usize::MAX as u64).unwrap(), usize::MAX);
    let huge = stop_gap_to_platform(u64::MAX);
    if u64::MAX > usize::MAX as u64 {
        assert_eq!(huge.unwrap_err().kind(), ErrorKind::Range);
    } else {
        assert_eq!(huge.unwrap(), usize::MAX);
    }
}

#[test]
fn builder_calls_leave_earlier_handles_unchanged() {
    let rate = bdk::FeeRate::from_sat_per_vb(2.0);
    let b0 = TxBuilder::new();
    let b1 = b0.add_recipient("addr1".to_string(), 1000);
    let b2 = b1.fee_rate(rate);

    assert!(b0.recipients().is_empty());
    assert_eq!(b1.recipients(), vec![("addr1".to_string(), 1000)]);
    assert_eq!(b1.get_fee_rate(), None);
    assert_eq!(b2.get_fee_rate(), Some(rate));
    assert_eq!(b2.recipients(), vec![("addr1".to_string(), 1000)]);
    assert!(!b2.drains_wallet());
    assert_eq!(b2.get_drain_to(), None);
}

#[test]
fn builder_accumulates_calls_in_order() {
    let slow = bdk::FeeRate::from_sat_per_vb(1.0);
    let fast = bdk::FeeRate::from_sat_per_vb(5.0);
    let b = TxBuilder::new()
        .add_recipient("first".to_string(), 1)
        .fee_rate(slow)
        .add_recipient("second".to_string(), 2)
        .drain_wallet()
        .fee_rate(fast)
        .drain_to("change".to_string());
    assert_eq!(
        b.recipients(),
        vec![("first".to_string(), 1), ("second".to_string(), 2)]
    );
    assert_eq!(b.get_fee_rate(), Some(fast));
    assert!(b.drains_wallet());
    assert_eq!(b.get_drain_to(), Some("change".to_string()));
}

#[test]
fn generated_key_restores_to_the_same_xprv_and_fingerprint() {
    let e1 = generate_extended_key(Network::Testnet, WordCount::Words12, None).unwrap();
    let e2 = restore_extended_key(Network::Testnet, e1.mnemonic.clone(), None).unwrap();
    assert_eq!(e1.xprv, e2.xprv);
    assert_eq!(e1.fingerprint, e2.fingerprint);
    assert_eq!(e1.mnemonic, e2.mnemonic);
    assert!(e1.xprv.starts_with("tprv"));
    assert_eq!(e1.fingerprint.len(), 8);
    assert!(e1.fingerprint.chars().all(|c| c.is_ascii_hexdigit()));
}

#[test]
fn generated_mnemonics_have_the_requested_word_count() {
    let cases = [
        (WordCount::Words12, 12),
        (WordCount::Words15, 15),
        (WordCount::Words18, 18),
        (WordCount::Words21, 21),
        (WordCount::Words24, 24),
    ];
    for (word_count, expected) in cases {
        let e = generate_extended_key(Network::Testnet, word_count, None).unwrap();
        assert_eq!(e.mnemonic.split(' ').count(), expected);
    }
}

const VECTOR_MNEMONIC: &str = "abandon abandon abandon abandon abandon abandon abandon abandon abandon abandon abandon about";

#[test]
fn restore_normalizes_mnemonic_whitespace() {
    let sloppy = VECTOR_MNEMONIC.replace(' ', "  ");
    let e = restore_extended_key(Network::Testnet, sloppy, None).unwrap();
    assert_eq!(e.mnemonic, VECTOR_MNEMONIC);
}

#[test]
fn restore_is_deterministic_and_network_scoped() {
    let t1 = restore_extended_key(Network::Testnet, VECTOR_MNEMONIC.to_string(), None).unwrap();
    let t2 = restore_extended_key(Network::Testnet, VECTOR_MNEMONIC.to_string(), None).unwrap();
    assert_eq!(t1.xprv, t2.xprv);
    assert_eq!(t1.fingerprint, t2.fingerprint);

    let m = restore_extended_key(Network::Mainnet, VECTOR_MNEMONIC.to_string(), None).unwrap();
    assert!(t1.xprv.starts_with("tprv"));
    assert!(m.xprv.starts_with("xprv"));
    assert_ne!(t1.xprv, m.xprv);
}

#[test]
fn restore_passphrase_changes_the_key() {
    let bare = restore_extended_key(Network::Testnet, VECTOR_MNEMONIC.to_string(), None).unwrap();
    let salted = restore_extended_key(
        Network::Testnet,
        VECTOR_MNEMONIC.to_string(),
        Some("TREZOR".to_string()),
    )
    .unwrap();
    assert_ne!(bare.xprv, salted.xprv);
}

#[test]
fn restore_rejects_invalid_mnemonic() {
    let err = restore_extended_key(Network::Testnet, "certainly not a mnemonic".to_string(), None)
        .unwrap_err();
    assert_eq!(err.kind(), ErrorKind::Encoding);
}

fn empty_psbt_base64() -> String {
    let tx = bdk::bitcoin::Transaction {
        version: 2,
        lock_time: bdk::bitcoin::absolute::LockTime::ZERO,
        input: vec![],
        output: vec![],
    };
    bdk::bitcoin::psbt::PartiallySignedTransaction::from_unsigned_tx(tx)
        .unwrap()
        .to_string()
}

#[test]
fn psbt_serialization_round_trips() {
    let base64 = empty_psbt_base64();
    let handle = PartiallySignedBitcoinTransaction::new(base64.clone()).unwrap();
    assert_eq!(handle.serialize(), base64);

    let again = PartiallySignedBitcoinTransaction::new(handle.serialize()).unwrap();
    assert_eq!(again.serialize(), base64);
}

#[test]
fn psbt_rejects_text_that_does_not_decode() {
    let err = PartiallySignedBitcoinTransaction::new("definitely not a psbt!".to_string())
        .unwrap_err();
    assert_eq!(err.kind(), ErrorKind::Encoding);

    let truncated = PartiallySignedBitcoinTransaction::new("cHNidP8=".to_string());
    assert!(truncated.is_err());
}

#[test]
fn script_pubkey_of_a_known_address() {
    let script = to_script_pubkey("bcrt1qqjn9gky9mkrm3c28e5e87t5akd3twg6xezp0tv").unwrap();
    let expected = Vec::<u8>::from_hex("001404a6545885dd87b8e147cd327f2e9db362b72346").unwrap();
    assert_eq!(script, expected);
}

#[test]
fn script_pubkey_error_names_the_offending_address() {
    let err = to_script_pubkey("nonsense").unwrap_err();
    assert_eq!(err.kind(), ErrorKind::Encoding);
    assert_eq!(err.message(), "invalid address nonsense");
}

#[test]
fn engine_address_index_maps_known_strategies_and_rejects_others() {
    let new = AddressIndex::from_engine(&bdk::wallet::AddressIndex::New).unwrap();
    assert_eq!(new, AddressIndex::New);
    let last = AddressIndex::from_engine(&bdk::wallet::AddressIndex::LastUnused).unwrap();
    assert_eq!(last, AddressIndex::LastUnused);
    let peek = AddressIndex::from_engine(&bdk::wallet::AddressIndex::Peek(5)).unwrap();
    assert_eq!(peek, AddressIndex::Peek { index: 5 });

    let err = AddressIndex::from_engine(&bdk::wallet::AddressIndex::Reset(5)).unwrap_err();
    assert_eq!(err.kind(), ErrorKind::Generic);
}

#[test]
fn signing_outcome_is_ok_exactly_when_finalized() {
    assert!(finalize_outcome(true).is_ok());
    let err = finalize_outcome(false).unwrap_err();
    assert_eq!(err.kind(), ErrorKind::Signing);
    assert!(err.message().contains("not finalized"));
}

#[test]
fn word_counts_report_their_length() {
    assert_eq!(WordCount::Words12.words(), 12);
    assert_eq!(WordCount::Words24.words(), 24);
}

#[test]
fn wallet_new_reports_an_unreachable_electrum_backend() {
    let result = Wallet::new(
        "wpkh(tprv8ZgxMBicQKsPeZRHk4rTG6orPS2SRs3kpoSMQLJD6ANkTt5ou7N5cg9fKJmjnvHirdfWa1izs71Fi9bHTCSHoZ3CwkRTzgjEfKCPWBe2UbY/84'/1'/0'/0/*)".to_string(),
        None,
        Network::Regtest,
        DatabaseConfig::Memory,
        BlockchainConfig::Electrum {
            config: ElectrumConfig {
                url: "tcp://127.0.0.1:9".to_string(),
                socks5: None,
                retry: 0,
                timeout: Some(1),
                stop_gap: 10,
            },
        },
    );
    match result {
        Ok(_) => panic!("no Electrum server is reachable at the discard port"),
        Err(err) => assert_eq!(err.kind(), ErrorKind::Blockchain),
    }
}

fn offline_wallet() -> Wallet {
    let key = restore_extended_key(Network::Regtest, VECTOR_MNEMONIC.to_string(), None).unwrap();
    let descriptor = format!("wpkh({}/84h/1h/0h/0/*)", key.xprv);
    Wallet::new(
        descriptor,
        None,
        Network::Regtest,
        DatabaseConfig::Memory,
        BlockchainConfig::Esplora {
            config: bdk_ffi::EsploraConfig {
                base_url: "http://127.0.0.1:9".to_string(),
                proxy: None,
                timeout_read: 1,
                timeout_write: 1,
                stop_gap: 10,
            },
        },
    )
    .unwrap_or_else(|e| panic!("an Esplora wallet opens without touching the network: {}", e.message()))
}

#[test]
fn wallet_reports_its_configured_network() {
    let wallet = offline_wallet();
    assert_eq!(wallet.get_network(), Network::Regtest);
}

#[test]
fn peeking_an_address_is_stable_and_does_not_advance_the_index() {
    let wallet = offline_wallet();
    let peek1 = wallet.get_address(AddressIndex::Peek { index: 5 }).unwrap();
    let peek2 = wallet.get_address(AddressIndex::Peek { index: 5 }).unwrap();
    assert_eq!(peek1.address, peek2.address);
    assert_eq!(peek1.index, 5);

    let first_new = wallet.get_address(AddressIndex::New).unwrap();
    assert_eq!(first_new.index, 0);
    assert_ne!(first_new.address, peek1.address);

    let second_new = wallet.get_address(AddressIndex::New).unwrap();
    assert_eq!(second_new.index, 1);
    assert_ne!(second_new.address, first_new.address);
}

#[test]
fn last_unused_address_starts_at_the_first_index() {
    let wallet = offline_wallet();
    let peek0 = wallet.get_address(AddressIndex::Peek { index: 0 }).unwrap();
    let last_unused = wallet.get_last_unused_address().unwrap();
    assert_eq!(last_unused, peek0.address);
}

#[test]
fn a_fresh_wallet_has_no_balance_and_no_transactions() {
    let wallet = offline_wallet();
    assert_eq!(wallet.get_balance().unwrap(), 0);
    let details = wallet.get_balance_details().unwrap();
    assert_eq!(details.total(), 0);
    assert!(wallet.get_transactions().unwrap().is_empty());
}

fn foreign_psbt_base64() -> String {
    let script = bdk::bitcoin::ScriptBuf::from_bytes(
        to_script_pubkey("bcrt1qqjn9gky9mkrm3c28e5e87t5akd3twg6xezp0tv").unwrap(),
    );
    let previous = bdk::bitcoin::Transaction {
        version: 2,
        lock_time: bdk::bitcoin::absolute::LockTime::ZERO,
        input: vec![],
        output: vec![bdk::bitcoin::TxOut { value: 10_000, script_pubkey: script.clone() }],
    };
    let unsigned = bdk::bitcoin::Transaction {
        version: 2,
        lock_time: bdk::bitcoin::absolute::LockTime::ZERO,
        input: vec![bdk::bitcoin::TxIn {
            previous_output: bdk::bitcoin::OutPoint { txid: previous.txid(), vout: 0 },
            script_sig: bdk::bitcoin::ScriptBuf::new(),
            sequence: bdk::bitcoin::Sequence::MAX,
            witness: bdk::bitcoin::Witness::default(),
        }],
        output: vec![bdk::bitcoin::TxOut { value: 9_000, script_pubkey: script }],
    };
    let mut psbt = bdk::bitcoin::psbt::PartiallySignedTransaction::from_unsigned_tx(unsigned)
        .unwrap();
    psbt.inputs[0].non_witness_utxo = Some(previous);
    psbt.to_string()
}

#[test]
fn signing_inputs_the_wallet_cannot_spend_reports_not_finalized() {
    let wallet = offline_wallet();
    let mut handle = PartiallySignedBitcoinTransaction::new(foreign_psbt_base64()).unwrap();
    let err = wallet.sign(&mut handle).unwrap_err();
    assert_eq!(err.kind(), ErrorKind::Signing);
    assert!(err.message().contains("not finalized"));

    let reparsed = PartiallySignedBitcoinTransaction::new(handle.serialize()).unwrap();
    assert_eq!(reparsed.serialize(), handle.serialize());
}

#[test]
fn building_with_an_invalid_recipient_names_the_address() {
    let wallet = offline_wallet();
    let builder = TxBuilder::new().add_recipient("not an address".to_string(), 1000);
    let err = builder.build(&wallet).unwrap_err();
    assert_eq!(err.kind(), ErrorKind::Encoding);
    assert_eq!(err.message(), "invalid address not an address");
}

#[test]
fn building_with_nothing_to_send_is_the_engines_error() {
    let wallet = offline_wallet();
    let err = TxBuilder::new().build(&wallet).unwrap_err();
    assert_ne!(err.kind(), ErrorKind::Encoding);
    assert_ne!(err.kind(), ErrorKind::Range);
}

#[test]
fn building_without_funds_fails_in_the_engine() {
    let wallet = offline_wallet();
    let builder = TxBuilder::new()
        .add_recipient("bcrt1qqjn9gky9mkrm3c28e5e87t5akd3twg6xezp0tv".to_string(), 1000);
    let err = builder.build(&wallet).unwrap_err();
    assert_ne!(err.kind(), ErrorKind::Encoding);
}
