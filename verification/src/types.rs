//! Plain value types mirroring the engine's domain values.
//!
//! Everything the binding's logic reads is held here as plain data: network
//! and word-count selectors, address-index strategies, configuration records,
//! balances, and transaction records. The arithmetic and the discrimination
//! performed on these values is verified; the engine only ever sees them
//! through the trusted conversion layer.

use vstd::prelude::*;

verus! {

/// Copies an optional piece of text.
pub(crate) fn clone_opt_string(o: &Option<String>) -> (r: Option<String>)
    ensures
        (r is Some <==> o is Some),
        r matches Some(s) ==> o matches Some(t) && s@ == t@,
{
    match o {
        Some(s) => Some(s.clone()),
        None => None,
    }
}

/// The Bitcoin network a wallet operates on. Selects address encoding and
/// key-derivation constants.
#[derive(Clone, Copy, Debug, PartialEq, Eq, Structural)]
pub enum Network {
    /// The production network.
    Mainnet,
    /// The public test network.
    Testnet,
    /// The signet test network.
    Signet,
    /// A local regression-test network.
    Regtest,
}

/// Permitted BIP-39 mnemonic lengths.
#[derive(Clone, Copy, Debug, PartialEq, Eq, Structural)]
pub enum WordCount {
    /// 12 words (128 bits of entropy).
    Words12,
    /// 15 words (160 bits of entropy).
    Words15,
    /// 18 words (192 bits of entropy).
    Words18,
    /// 21 words (224 bits of entropy).
    Words21,
    /// 24 words (256 bits of entropy).
    Words24,
}

impl WordCount {
    /// The number of words a mnemonic of this length holds.
    pub open spec fn spec_words(self) -> nat {
        match self {
            WordCount::Words12 => 12,
            WordCount::Words15 => 15,
            WordCount::Words18 => 18,
            WordCount::Words21 => 21,
            WordCount::Words24 => 24,
        }
    }

    /// The number of words a mnemonic of this length holds.
    pub fn words(&self) -> (r: u32)
        ensures
            r == self.spec_words(),
    {
        match self {
            WordCount::Words12 => 12,
            WordCount::Words15 => 15,
            WordCount::Words18 => 18,
            WordCount::Words21 => 21,
            WordCount::Words24 => 24,
        }
    }
}

/// One of the two derivation branches of a wallet.
#[derive(Clone, Copy, Debug, PartialEq, Eq, Structural)]
pub enum KeychainKind {
    /// The receive branch.
    External,
    /// The change branch.
    Internal,
}

/// The address index selection strategy used to derive an address from the
/// wallet's descriptor.
#[derive(Clone, Copy, Debug, PartialEq, Eq, Structural)]
pub enum AddressIndex {
    /// Return a new address after incrementing the current descriptor index.
    New,
    /// Return the address for the current descriptor index if it has not been
    /// used in a received transaction; otherwise behave as `New`.
    LastUnused,
    /// Return the address for a specific descriptor index without changing
    /// the current one.
    Peek {
        /// The descriptor index to derive at.
        index: u32,
    },
}

/// A derived address and the index it was found at.
#[derive(Clone, Debug)]
pub struct AddressInfo {
    /// Child index of this address.
    pub index: u32,
    /// The address in its canonical text form.
    pub address: String,
    /// The keychain the address was derived on.
    pub keychain: KeychainKind,
}

/// An output script and an amount of satoshis.
#[derive(Clone, Debug)]
pub struct ScriptAmount {
    /// The raw script-pubkey bytes.
    pub script: Vec<u8>,
    /// The amount, in satoshis.
    pub amount: u64,
}

/// The wallet's balance, differentiated into categories of satoshi counters.
#[derive(Clone, Copy, Debug, PartialEq, Eq, Structural)]
pub struct Balance {
    /// All coinbase outputs not yet matured.
    pub immature: u64,
    /// Unconfirmed UTXOs generated by a wallet transaction.
    pub trusted_pending: u64,
    /// Unconfirmed UTXOs received from an external wallet.
    pub untrusted_pending: u64,
    /// Confirmed and immediately spendable balance.
    pub confirmed: u64,
}

impl Balance {
    /// The mathematical sum of all four counters.
    pub open spec fn spec_total(self) -> int {
        self.immature + self.trusted_pending + self.untrusted_pending + self.confirmed
    }

    /// All coinbase outputs not yet matured.
    pub fn immature(&self) -> (r: u64)
        ensures
            r == self.immature,
    {
        self.immature
    }

    /// Unconfirmed UTXOs generated by a wallet transaction.
    pub fn trusted_pending(&self) -> (r: u64)
        ensures
            r == self.trusted_pending,
    {
        self.trusted_pending
    }

    /// Unconfirmed UTXOs received from an external wallet.
    pub fn untrusted_pending(&self) -> (r: u64)
        ensures
            r == self.untrusted_pending,
    {
        self.untrusted_pending
    }

    /// Confirmed and immediately spendable balance.
    pub fn confirmed(&self) -> (r: u64)
        ensures
            r == self.confirmed,
    {
        self.confirmed
    }

    /// Sum of trusted-pending and confirmed coins.
    pub fn trusted_spendable(&self) -> (r: u64)
        requires
            self.trusted_pending + self.confirmed <= u64::MAX,
        ensures
            r == self.trusted_pending + self.confirmed,
    {
        self.trusted_pending + self.confirmed
    }

    /// The whole balance visible to the wallet: the sum of all four counters.
    pub fn total(&self) -> (r: u64)
        requires
            self.spec_total() <= u64::MAX,
        ensures
            r == self.spec_total(),
    {
        self.immature + self.trusted_pending + self.untrusted_pending + self.confirmed
    }

    /// The whole balance, or `None` when the sum of the counters does not fit
    /// in 64 bits.
    pub fn checked_total(&self) -> (r: Option<u64>)
        ensures
            self.spec_total() <= u64::MAX ==> r == Some((self.spec_total()) as u64),
            self.spec_total() > u64::MAX ==> r is None,
    {
        match self.immature.checked_add(self.trusted_pending) {
            None => None,
            Some(a) => match a.checked_add(self.untrusted_pending) {
                None => None,
                Some(b) => b.checked_add(self.confirmed),
            },
        }
    }
}

/// The whole balance equals the sum of the four counters, the spendable part
/// equals trusted-pending plus confirmed, and the whole balance is at least
/// each single counter.
pub proof fn lemma_balance_invariant(b: Balance)
    requires
        b.spec_total() <= u64::MAX,
    ensures
        b.spec_total() == b.immature + b.trusted_pending + b.untrusted_pending + b.confirmed,
        b.spec_total() >= b.immature,
        b.spec_total() >= b.trusted_pending,
        b.spec_total() >= b.untrusted_pending,
        b.spec_total() >= b.confirmed,
        b.spec_total() >= b.trusted_pending + b.confirmed,
{
}

/// A wallet transaction's details.
#[derive(Clone, Debug)]
pub struct TransactionDetails {
    /// Fee value in satoshis, when the backend could supply it.
    pub fees: Option<u64>,
    /// Received value in satoshis: the sum of owned outputs.
    pub received: u64,
    /// Sent value in satoshis: the sum of owned inputs.
    pub sent: u64,
    /// The transaction id as lowercase hex text.
    pub txid: String,
}

/// Block height and timestamp of the block containing a confirmed
/// transaction.
#[derive(Clone, Copy, Debug, PartialEq, Eq, Structural)]
pub struct BlockTime {
    /// Confirmation block height.
    pub height: u32,
    /// Confirmation block Unix timestamp.
    pub timestamp: u64,
}

/// A wallet transaction, discriminated by the presence of confirmation
/// metadata.
#[derive(Clone, Debug)]
pub enum Transaction {
    /// A transaction not yet included in a block.
    Unconfirmed {
        /// The transaction's details.
        details: TransactionDetails,
    },
    /// A transaction included in a block.
    Confirmed {
        /// The transaction's details.
        details: TransactionDetails,
        /// Height and timestamp of the including block.
        confirmation: BlockTime,
    },
}

/// The transaction that a detail record together with optional confirmation
/// metadata stands for.
pub open spec fn spec_transaction_of(
    details: TransactionDetails,
    confirmation: Option<BlockTime>,
) -> Transaction {
    match confirmation {
        Some(block_time) => Transaction::Confirmed { details, confirmation: block_time },
        None => Transaction::Unconfirmed { details },
    }
}

impl Transaction {
    /// Builds the transaction value for a detail record: confirmed exactly
    /// when confirmation metadata is present.
    pub fn from_details(details: TransactionDetails, confirmation: Option<BlockTime>) -> (r:
        Transaction)
        ensures
            r == spec_transaction_of(details, confirmation),
    {
        match confirmation {
            Some(block_time) => Transaction::Confirmed { details, confirmation: block_time },
            None => Transaction::Unconfirmed { details },
        }
    }
}

/// The seed, extended private key and fingerprint derived from one mnemonic.
#[derive(Clone, Debug)]
pub struct ExtendedKeyInfo {
    /// The BIP-39 mnemonic: space-separated English words.
    pub mnemonic: String,
    /// The network-scoped extended private key, base58check-encoded.
    pub xprv: String,
    /// The key's 4-byte fingerprint as 8 hex characters.
    pub fingerprint: String,
}

/// Configuration for the sled database backend.
#[derive(Clone, Debug)]
pub struct SledDbConfiguration {
    /// Main directory of the database.
    pub path: String,
    /// Name of the database tree: a separate namespace for the data.
    pub tree_name: String,
}

/// Configuration for the SQLite database backend.
#[derive(Clone, Debug)]
pub struct SqliteDbConfiguration {
    /// Main directory of the database.
    pub path: String,
}

/// The persistence backend a wallet keeps its state in.
#[derive(Clone, Debug)]
pub enum DatabaseConfig {
    /// Ephemeral in-memory store.
    Memory,
    /// Key-value store under a directory path.
    Sled {
        /// The backend's configuration.
        config: SledDbConfiguration,
    },
    /// A single SQLite database file.
    Sqlite {
        /// The backend's configuration.
        config: SqliteDbConfiguration,
    },
}

/// Configuration of an Electrum chain backend.
#[derive(Clone, Debug)]
pub struct ElectrumConfig {
    /// URL of the Electrum server, which may start with `ssl://` or `tcp://`
    /// and include a port.
    pub url: String,
    /// Optional URL of a socks5 proxy server or a Tor service.
    pub socks5: Option<String>,
    /// Request retry count.
    pub retry: u8,
    /// Request timeout in seconds.
    pub timeout: Option<u8>,
    /// Stop searching addresses for transactions after finding an unused gap
    /// of this length.
    pub stop_gap: u64,
}

/// Configuration of an Esplora chain backend.
#[derive(Clone, Debug)]
pub struct EsploraConfig {
    /// Base URL of the Esplora service.
    pub base_url: String,
    /// Optional URL of a proxy to use for requests.
    pub proxy: Option<String>,
    /// Socket read timeout in seconds.
    pub timeout_read: u64,
    /// Socket write timeout in seconds.
    pub timeout_write: u64,
    /// Stop searching addresses for transactions after finding an unused gap
    /// of this length.
    pub stop_gap: u64,
}

/// The chain backend a wallet synchronizes against.
#[derive(Clone, Debug)]
pub enum BlockchainConfig {
    /// An Electrum server.
    Electrum {
        /// The backend's configuration.
        config: ElectrumConfig,
    },
    /// An Esplora HTTP service.
    Esplora {
        /// The backend's configuration.
        config: EsploraConfig,
    },
}

} // verus!
