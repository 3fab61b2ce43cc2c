//! The long-lived wallet handle.
//!
//! A `Wallet` owns an engine wallet and its chain backend behind one coarse
//! mutex, so that shared holders serialise their operations. The handle's
//! own decisions — narrowing `stop_gap` to the platform word, discriminating
//! the signing outcome, converting engine records to plain values — are
//! verified; everything the engine does with the database and the network
//! stands behind trusted wrappers.

use vstd::prelude::*;

use std::str::FromStr;
use std::sync::Mutex;

use bdk::blockchain::AnyBlockchain;
use bdk::database::AnyDatabase;
use bdk::wallet::AddressIndex as EngineAddressIndex;

use crate::engine::{engine_network, error_from_engine};
use crate::error::{Error, ErrorKind};
use crate::psbt::{psbt_canon, PartiallySignedBitcoinTransaction};
use crate::types::{
    clone_opt_string, AddressIndex, AddressInfo, Balance, BlockTime, BlockchainConfig, DatabaseConfig,
    ElectrumConfig, EsploraConfig, KeychainKind, Network, Transaction, TransactionDetails,
};

verus! {

/// The lowercase hex id of the transaction that a partially signed
/// transaction, given as canonical base64 text, extracts to.
pub uninterp spec fn txid_of(psbt: Seq<char>) -> Seq<char>;

/// The `stop_gap` of a chain-backend configuration.
pub open spec fn spec_stop_gap(config: BlockchainConfig) -> u64 {
    match config {
        BlockchainConfig::Electrum { config } => config.stop_gap,
        BlockchainConfig::Esplora { config } => config.stop_gap,
    }
}

/// Narrows a `stop_gap` value to the platform word. Fails with a range
/// error, rather than truncating, when the value does not fit.
pub fn stop_gap_to_platform(stop_gap: u64) -> (r: Result<usize, Error>)
    ensures
        stop_gap <= usize::MAX ==> (r matches Ok(v) && v == stop_gap),
        stop_gap > usize::MAX ==> (r matches Err(e) && e.kind == ErrorKind::Range),
{
    if stop_gap > usize::MAX as u64 {
        Err(
            Error::new(
                ErrorKind::Range,
                "stop_gap does not fit the platform word size".to_string(),
            ),
        )
    } else {
        Ok(stop_gap as usize)
    }
}

/// An Electrum configuration with its `stop_gap` narrowed to the platform
/// word.
pub(crate) struct CheckedElectrumConfig {
    pub url: String,
    pub socks5: Option<String>,
    pub retry: u8,
    pub timeout: Option<u8>,
    pub stop_gap: usize,
}

/// An Esplora configuration with its `stop_gap` narrowed to the platform
/// word and its two timeouts collapsed into the engine's single socket
/// timeout.
pub(crate) struct CheckedEsploraConfig {
    pub base_url: String,
    pub proxy: Option<String>,
    pub stop_gap: usize,
    pub timeout: Option<u64>,
}

/// A chain-backend configuration whose `stop_gap` fits the platform word.
pub(crate) enum CheckedBlockchainConfig {
    Electrum(CheckedElectrumConfig),
    Esplora(CheckedEsploraConfig),
}

/// Narrows an Electrum configuration for the engine. Fails with a range
/// error exactly when `stop_gap` does not fit the platform word.
fn narrow_electrum(config: &ElectrumConfig) -> (r: Result<CheckedElectrumConfig, Error>)
    ensures
        config.stop_gap > usize::MAX ==> (r matches Err(e) && e.kind == ErrorKind::Range),
        config.stop_gap <= usize::MAX ==> (r matches Ok(c) && c.url@ == config.url@ && (c.socks5
            is Some <==> config.socks5 is Some) && (c.socks5 matches Some(s) ==> config.socks5
            matches Some(t) && s@ == t@) && c.retry == config.retry && c.timeout == config.timeout
            && c.stop_gap == config.stop_gap),
{
    match stop_gap_to_platform(config.stop_gap) {
        Ok(stop_gap) => Ok(
            CheckedElectrumConfig {
                url: config.url.clone(),
                socks5: clone_opt_string(&config.socks5),
                retry: config.retry,
                timeout: config.timeout,
                stop_gap,
            },
        ),
        Err(e) => Err(e),
    }
}

/// Narrows an Esplora configuration for the engine. Fails with a range error
/// exactly when `stop_gap` does not fit the platform word; the engine's
/// single socket timeout becomes the larger of the read and write timeouts.
fn narrow_esplora(config: &EsploraConfig) -> (r: Result<CheckedEsploraConfig, Error>)
    ensures
        config.stop_gap > usize::MAX ==> (r matches Err(e) && e.kind == ErrorKind::Range),
        config.stop_gap <= usize::MAX ==> (r matches Ok(c) && c.base_url@ == config.base_url@ && (
        c.proxy is Some <==> config.proxy is Some) && (c.proxy matches Some(s) ==> config.proxy
            matches Some(t) && s@ == t@) && c.stop_gap == config.stop_gap && c.timeout
            == Some(
            if config.timeout_read >= config.timeout_write {
                config.timeout_read
            } else {
                config.timeout_write
            },
        )),
{
    match stop_gap_to_platform(config.stop_gap) {
        Ok(stop_gap) => {
            let timeout: u64 = if config.timeout_read >= config.timeout_write {
                config.timeout_read
            } else {
                config.timeout_write
            };
            Ok(
                CheckedEsploraConfig {
                    base_url: config.base_url.clone(),
                    proxy: clone_opt_string(&config.proxy),
                    stop_gap,
                    timeout: Some(timeout),
                },
            )
        },
        Err(e) => Err(e),
    }
}

/// Materialises the engine's tracking database from its configuration.
///
/// Relies on `AnyDatabase::from_config`, handing each backend its own
/// configuration record unchanged.
#[verifier::external_body]
fn open_database(config: &DatabaseConfig) -> (r: Result<AnyDatabase, bdk::Error>)
{
    let cfg = match config {
        DatabaseConfig::Memory => bdk::database::AnyDatabaseConfig::Memory(()),
        DatabaseConfig::Sled { config } => bdk::database::AnyDatabaseConfig::Sled(
            bdk::database::any::SledDbConfiguration {
                path: config.path.clone(),
                tree_name: config.tree_name.clone(),
            },
        ),
        DatabaseConfig::Sqlite { config } => bdk::database::AnyDatabaseConfig::Sqlite(
            bdk::database::any::SqliteDbConfiguration { path: config.path.clone() },
        ),
    };
    bdk::database::ConfigurableDatabase::from_config(&cfg)
}

/// Connects the Electrum chain backend.
///
/// Relies on `AnyBlockchain::from_config`, handing the Electrum client its
/// configuration unchanged, with domain validation kept on.
#[verifier::external_body]
fn open_electrum(config: CheckedElectrumConfig) -> (r: Result<AnyBlockchain, bdk::Error>)
{
    let cfg = bdk::blockchain::AnyBlockchainConfig::Electrum(
        bdk::blockchain::electrum::ElectrumBlockchainConfig {
            url: config.url,
            socks5: config.socks5,
            retry: config.retry,
            timeout: config.timeout,
            stop_gap: config.stop_gap,
            validate_domain: true,
        },
    );
    bdk::blockchain::ConfigurableBlockchain::from_config(&cfg)
}

/// Connects the Esplora chain backend.
///
/// Relies on `AnyBlockchain::from_config`, handing the Esplora client its
/// configuration unchanged, with the engine's default concurrency.
#[verifier::external_body]
fn open_esplora(config: CheckedEsploraConfig) -> (r: Result<AnyBlockchain, bdk::Error>)
{
    let cfg = bdk::blockchain::AnyBlockchainConfig::Esplora(
        bdk::blockchain::esplora::EsploraBlockchainConfig {
            base_url: config.base_url,
            proxy: config.proxy,
            concurrency: None,
            stop_gap: config.stop_gap,
            timeout: config.timeout,
        },
    );
    bdk::blockchain::ConfigurableBlockchain::from_config(&cfg)
}

/// Builds the engine wallet over the materialised database.
///
/// Relies on `bdk::Wallet::new`: it parses the descriptors, checks them
/// against the database checksums and the network, and fails on any
/// mismatch.
#[verifier::external_body]
fn engine_wallet(
    descriptor: &str,
    change_descriptor: &Option<String>,
    network: &Network,
    database: AnyDatabase,
) -> (r: Result<bdk::Wallet<AnyDatabase>, bdk::Error>)
{
    bdk::Wallet::new(
        descriptor,
        change_descriptor.as_deref(),
        engine_network(network),
        database,
    )
}

/// Pairs the engine wallet with its chain backend under one lock.
///
/// Relies on `std::sync::Mutex::new`.
#[verifier::external_body]
fn new_wallet_lock(wallet: bdk::Wallet<AnyDatabase>, blockchain: AnyBlockchain) -> (r: Mutex<
    (bdk::Wallet<AnyDatabase>, AnyBlockchain),
>)
{
    Mutex::new((wallet, blockchain))
}

/// Derives one address.
///
/// Relies on `bdk::Wallet::get_address`, which derives on the external
/// keychain, and on the address's `Display` for its canonical text.
#[verifier::external_body]
fn engine_address(
    inner: &Mutex<(bdk::Wallet<AnyDatabase>, AnyBlockchain)>,
    index: &AddressIndex,
) -> (r: Result<AddressInfo, bdk::Error>)
    ensures
        r matches Ok(info) ==> info.keychain == KeychainKind::External,
{
    let guard = inner.lock().expect("wallet lock");
    let idx = match index {
        AddressIndex::New => EngineAddressIndex::New,
        AddressIndex::LastUnused => EngineAddressIndex::LastUnused,
        AddressIndex::Peek { index } => EngineAddressIndex::Peek(*index),
    };
    let info = guard.0.get_address(idx)?;
    Ok(AddressInfo {
        index: info.index,
        address: info.address.to_string(),
        keychain: KeychainKind::External,
    })
}

/// Scans the chain and brings the tracking database up to date, first
/// making sure the requested number of addresses is cached. Takes the
/// wallet lock once and holds it for the whole operation.
///
/// Relies on `bdk::Wallet::ensure_addresses_cached` (asking for zero
/// addresses caches nothing extra; the scan itself caches the engine's own
/// batch) and on `bdk::Wallet::sync` with the engine's default options.
#[verifier::external_body]
fn engine_sync(
    inner: &Mutex<(bdk::Wallet<AnyDatabase>, AnyBlockchain)>,
    max_addresses: &Option<u32>,
) -> (r: Result<(), bdk::Error>)
{
    let guard = inner.lock().expect("wallet lock");
    guard.0.ensure_addresses_cached(max_addresses.unwrap_or(0))?;
    guard.0.sync(&guard.1, bdk::SyncOptions::default())
}

/// Reads the wallet's balance from the tracking database.
///
/// Relies on `bdk::Wallet::get_balance`, copying its four counters.
#[verifier::external_body]
fn engine_balance(inner: &Mutex<(bdk::Wallet<AnyDatabase>, AnyBlockchain)>) -> (r: Result<
    Balance,
    bdk::Error,
>)
{
    let guard = inner.lock().expect("wallet lock");
    let b = guard.0.get_balance()?;
    Ok(Balance {
        immature: b.immature,
        trusted_pending: b.trusted_pending,
        untrusted_pending: b.untrusted_pending,
        confirmed: b.confirmed,
    })
}

/// Signs a partially signed transaction with the wallet's keys and reports
/// whether the engine finalised every input.
///
/// Relies on `PartiallySignedTransaction::from_str` (which cannot fail on
/// canonical text), `bdk::Wallet::sign` with default options, and the
/// transaction's `Display`, which prints canonical text.
#[verifier::external_body]
fn engine_sign(inner: &Mutex<(bdk::Wallet<AnyDatabase>, AnyBlockchain)>, psbt_text: &str) -> (r:
    Result<(bool, String), bdk::Error>)
    requires
        psbt_canon(psbt_text@) == Some(psbt_text@),
    ensures
        r matches Ok(p) ==> psbt_canon(p.1@) == Some(p.1@),
{
    let guard = inner.lock().expect("wallet lock");
    let mut psbt = bdk::bitcoin::psbt::PartiallySignedTransaction::from_str(psbt_text)
        .expect("canonical text parses");
    let finalized = guard.0.sign(&mut psbt, bdk::SignOptions::default())?;
    Ok((finalized, psbt.to_string()))
}

/// Extracts the underlying transaction and hands it to the chain backend.
///
/// Relies on `PartiallySignedTransaction::from_str` (which cannot fail on
/// canonical text), `extract_tx`, `Blockchain::broadcast`, and the
/// transaction id's `Display`: the id is 64 lowercase hex characters and a
/// function of the transaction alone.
#[verifier::external_body]
fn engine_broadcast(inner: &Mutex<(bdk::Wallet<AnyDatabase>, AnyBlockchain)>, psbt_text: &str) -> (
    r: Result<String, bdk::Error>)
    requires
        psbt_canon(psbt_text@) == Some(psbt_text@),
    ensures
        r matches Ok(t) ==> t@ == txid_of(psbt_text@) && t@.len() == 64,
{
    let guard = inner.lock().expect("wallet lock");
    let psbt = bdk::bitcoin::psbt::PartiallySignedTransaction::from_str(psbt_text)
        .expect("canonical text parses");
    let tx = psbt.extract_tx();
    bdk::blockchain::Blockchain::broadcast(&guard.1, &tx)?;
    Ok(tx.txid().to_string())
}

/// Lists the wallet's transactions as plain records: details and optional
/// confirmation metadata.
///
/// Relies on `bdk::Wallet::list_transactions`, copying each record's fee,
/// received and sent amounts, hex transaction id, and confirmation height
/// and timestamp.
#[verifier::external_body]
fn engine_transactions(inner: &Mutex<(bdk::Wallet<AnyDatabase>, AnyBlockchain)>) -> (r: Result<
    Vec<(TransactionDetails, Option<BlockTime>)>,
    bdk::Error,
>)
{
    let guard = inner.lock().expect("wallet lock");
    let list = guard.0.list_transactions(true)?;
    let plain = |x: &bdk::TransactionDetails| (
        TransactionDetails {
            fees: x.fee,
            received: x.received,
            sent: x.sent,
            txid: x.txid.to_string(),
        },
        x.confirmation_time.as_ref().map(|t| BlockTime { height: t.height, timestamp: t.timestamp }),
    );
    Ok(list.iter().map(plain).collect())
}

/// Tells the three known engine address-index strategies apart.
///
/// Relies on the variants of `bdk::wallet::AddressIndex`: the three the
/// binding exposes are matched one for one, and any other variant yields
/// `None`.
#[verifier::external_body]
fn plain_address_index(index: &EngineAddressIndex) -> (r: Option<AddressIndex>)
{
    match index {
        EngineAddressIndex::New => Some(AddressIndex::New),
        EngineAddressIndex::LastUnused => Some(AddressIndex::LastUnused),
        EngineAddressIndex::Peek(index) => Some(AddressIndex::Peek { index: *index }),
        _ => None,
    }
}

impl AddressIndex {
    /// Reads an engine address-index value back into the binding's own,
    /// reporting a recognised error for any strategy the binding does not
    /// know.
    pub fn from_engine(index: &EngineAddressIndex) -> (r: Result<AddressIndex, Error>)
        ensures
            r matches Err(e) ==> e.kind == ErrorKind::Generic,
    {
        match plain_address_index(index) {
            Some(plain) => Ok(plain),
            None => Err(
                Error::new(
                    ErrorKind::Generic,
                    "unrecognised address index strategy".to_string(),
                ),
            ),
        }
    }
}

/// Turns the signing outcome the engine reports into the caller's result:
/// success exactly when every input was finalised.
pub fn finalize_outcome(finalized: bool) -> (r: Result<(), Error>)
    ensures
        finalized <==> r is Ok,
        !finalized ==> (r matches Err(e) && e.kind == ErrorKind::Signing && e.message@
            == "transaction signing not finalized"@),
{
    if finalized {
        Ok(())
    } else {
        Err(Error::new(ErrorKind::Signing, "transaction signing not finalized".to_string()))
    }
}

/// A long-lived, shareable wallet handle. One coarse mutex serialises every
/// operation on the engine wallet and its chain backend.
pub struct Wallet {
    inner: Mutex<(bdk::Wallet<AnyDatabase>, AnyBlockchain)>,
    network: Network,
}

impl Wallet {
    /// The network this wallet was created on.
    pub closed spec fn spec_network(&self) -> Network {
        self.network
    }

    /// Materialises the database and the chain backend from their
    /// configurations and builds the engine wallet over them. A `stop_gap`
    /// beyond the platform word fails with a range error before any backend
    /// is touched; descriptor, database and connection failures propagate
    /// from the engine.
    pub fn new(
        descriptor: String,
        change_descriptor: Option<String>,
        network: Network,
        database_config: DatabaseConfig,
        blockchain_config: BlockchainConfig,
    ) -> (r: Result<Wallet, Error>)
        ensures
            spec_stop_gap(blockchain_config) > usize::MAX ==> (r matches Err(e) && e.kind
                == ErrorKind::Range),
            r matches Err(e) ==> (e.kind == ErrorKind::Range <==> spec_stop_gap(blockchain_config)
                > usize::MAX),
            r matches Ok(w) ==> spec_stop_gap(blockchain_config) <= usize::MAX && w.spec_network()
                == network,
    {
        let checked = match &blockchain_config {
            BlockchainConfig::Electrum { config } => match narrow_electrum(config) {
                Ok(c) => CheckedBlockchainConfig::Electrum(c),
                Err(e) => {
                    return Err(e);
                },
            },
            BlockchainConfig::Esplora { config } => match narrow_esplora(config) {
                Ok(c) => CheckedBlockchainConfig::Esplora(c),
                Err(e) => {
                    return Err(e);
                },
            },
        };
        let database = match open_database(&database_config) {
            Ok(d) => d,
            Err(e) => {
                return Err(error_from_engine(e));
            },
        };
        let blockchain = match checked {
            CheckedBlockchainConfig::Electrum(c) => match open_electrum(c) {
                Ok(b) => b,
                Err(e) => {
                    return Err(error_from_engine(e));
                },
            },
            CheckedBlockchainConfig::Esplora(c) => match open_esplora(c) {
                Ok(b) => b,
                Err(e) => {
                    return Err(error_from_engine(e));
                },
            },
        };
        let wallet = match engine_wallet(descriptor.as_str(), &change_descriptor, &network,
            database) {
            Ok(w) => w,
            Err(e) => {
                return Err(error_from_engine(e));
            },
        };
        Ok(Wallet { inner: new_wallet_lock(wallet, blockchain), network })
    }

    /// The network this wallet was configured with. Infallible.
    pub fn get_network(&self) -> (r: Network)
        ensures
            r == self.spec_network(),
    {
        self.network
    }

    /// Derives an address with the given strategy on the external keychain.
    pub fn get_address(&self, address_index: AddressIndex) -> (r: Result<AddressInfo, Error>)
        ensures
            r matches Ok(info) ==> info.keychain == KeychainKind::External,
    {
        match engine_address(&self.inner, &address_index) {
            Ok(info) => Ok(info),
            Err(e) => Err(error_from_engine(e)),
        }
    }

    /// Derives a new address, incrementing the wallet's index.
    pub fn get_new_address(&self) -> (r: Result<String, Error>) {
        match self.get_address(AddressIndex::New) {
            Ok(info) => Ok(info.address),
            Err(e) => Err(e),
        }
    }

    /// The current index's address if it is unused, otherwise a new one.
    pub fn get_last_unused_address(&self) -> (r: Result<String, Error>) {
        match self.get_address(AddressIndex::LastUnused) {
            Ok(info) => Ok(info.address),
            Err(e) => Err(e),
        }
    }

    /// Scans the chain and brings the wallet up to date. Blocks for the
    /// duration of the scan and holds the wallet lock throughout.
    pub fn sync(&self, max_address_param: Option<u32>) -> (r: Result<(), Error>) {
        match engine_sync(&self.inner, &max_address_param) {
            Ok(()) => Ok(()),
            Err(e) => Err(error_from_engine(e)),
        }
    }

    /// The wallet's balance, differentiated into its four counters.
    pub fn get_balance_details(&self) -> (r: Result<Balance, Error>) {
        match engine_balance(&self.inner) {
            Ok(b) => Ok(b),
            Err(e) => Err(error_from_engine(e)),
        }
    }

    /// The whole balance visible to the wallet: the sum of all four
    /// counters. Fails with a range error if the counters do not sum within
    /// 64 bits.
    pub fn get_balance(&self) -> (r: Result<u64, Error>) {
        match self.get_balance_details() {
            Ok(b) => match b.checked_total() {
                Some(total) => Ok(total),
                None => Err(
                    Error::new(
                        ErrorKind::Range,
                        "balance counters do not sum within 64 bits".to_string(),
                    ),
                ),
            },
            Err(e) => Err(e),
        }
    }

    /// Signs the given transaction in place with the wallet's keys and
    /// default options. Succeeds exactly when the engine finalised every
    /// input; otherwise the partially signed state is kept and a signing
    /// error is reported. On any other failure the handle is unchanged, and
    /// it always remains serialisable.
    pub fn sign(&self, psbt: &mut PartiallySignedBitcoinTransaction) -> (r: Result<(), Error>)
        ensures
            r matches Err(e) ==> (e.kind == ErrorKind::Signing ==> e.message@
                == "transaction signing not finalized"@),
            r matches Err(e) ==> (e.kind != ErrorKind::Signing ==> final(psbt)@ == old(psbt)@),
    {
        match engine_sign(&self.inner, psbt.canonical_text()) {
            Ok((finalized, text)) => {
                psbt.set_canonical_text(text);
                finalize_outcome(finalized)
            },
            Err(e) => Err(error_from_engine(e)),
        }
    }

    /// All transactions the wallet knows, with their details. The order
    /// mirrors the engine's listing order and is not guaranteed stable.
    pub fn get_transactions(&self) -> (r: Result<Vec<Transaction>, Error>) {
        let records = match engine_transactions(&self.inner) {
            Ok(records) => records,
            Err(e) => {
                return Err(error_from_engine(e));
            },
        };
        let mut out: Vec<Transaction> = Vec::new();
        let mut i: usize = 0;
        while i < records.len()
            decreases records@.len() - i,
        {
            let record = &records[i];
            out.push(Transaction::from_details(record.0.clone(), record.1));
            i = i + 1;
        }
        Ok(out)
    }

    /// Extracts the underlying transaction from the given handle and asks
    /// the chain backend to publish it. Returns the transaction's hex id;
    /// the handle itself is not changed.
    pub fn broadcast(&self, psbt: &PartiallySignedBitcoinTransaction) -> (r: Result<String, Error>)
        ensures
            r matches Ok(t) ==> t@ == txid_of(psbt@) && t@.len() == 64,
    {
        match engine_broadcast(&self.inner, psbt.canonical_text()) {
            Ok(txid) => Ok(txid),
            Err(e) => Err(error_from_engine(e)),
        }
    }

    /// The wallet's lock: the engine wallet paired with its chain backend.
    /// For applying a transaction builder, and for unverified plumbing that
    /// needs the engine's own interfaces, such as a sync that reports
    /// progress to a foreign observer.
    pub fn lock(&self) -> &Mutex<(bdk::Wallet<AnyDatabase>, AnyBlockchain)> {
        &self.inner
    }
}

} // verus!
