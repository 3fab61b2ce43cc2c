//! Declarations of the engine types that flow through this crate, and the
//! conversion of engine failures into the binding's own error type.
//!
//! Values of these types are opaque: the binding carries them, but never
//! reads them. Everything the logic must read is first converted to a plain
//! value by a trusted wrapper.

use vstd::prelude::*;

use bdk::bitcoin::Network as EngineNetwork;
use bdk::wallet::AddressIndex as EngineAddressIndex;
use bdk::Error as EngineError;
use bdk::Wallet as EngineWallet;

use crate::error::{Error, ErrorKind};
use crate::types::Network;

verus! {

/// The engine's network selector.
#[verifier::external_type_specification]
#[verifier::external_body]
pub struct ExBitcoinNetwork(EngineNetwork);

/// Translates the binding's network selector into the engine's.
///
/// Relies on the four constants of `bdk::bitcoin::Network`, matched one for
/// one.
#[verifier::external_body]
pub(crate) fn engine_network(network: &Network) -> EngineNetwork {
    match network {
        Network::Mainnet => bdk::bitcoin::Network::Bitcoin,
        Network::Testnet => bdk::bitcoin::Network::Testnet,
        Network::Signet => bdk::bitcoin::Network::Signet,
        Network::Regtest => bdk::bitcoin::Network::Regtest,
    }
}

/// The standard library's mutual-exclusion lock, which serialises all
/// operations on a wallet handle.
#[verifier::external_type_specification]
#[verifier::external_body]
#[verifier::reject_recursive_types(T)]
pub struct ExMutex<T: ?Sized>(std::sync::Mutex<T>);

/// The engine's wallet: descriptors, signers and the tracking database.
#[verifier::external_type_specification]
#[verifier::external_body]
#[verifier::reject_recursive_types(D)]
pub struct ExBdkWallet<D>(EngineWallet<D>);

/// The engine's tracking database, chosen at runtime.
#[verifier::external_type_specification]
#[verifier::external_body]
pub struct ExAnyDatabase(bdk::database::AnyDatabase);

/// The engine's chain backend, chosen at runtime.
#[verifier::external_type_specification]
#[verifier::external_body]
pub struct ExAnyBlockchain(bdk::blockchain::AnyBlockchain);

/// The engine's fee rate. The binding carries it from the caller to the
/// transaction builder without reading it.
#[verifier::external_type_specification]
#[verifier::external_body]
pub struct ExFeeRate(bdk::FeeRate);

/// The engine's error type.
#[verifier::external_type_specification]
#[verifier::external_body]
pub struct ExBdkError(EngineError);

/// The engine's address index selection strategy.
#[verifier::external_type_specification]
#[verifier::external_body]
pub struct ExEngineAddressIndex(EngineAddressIndex);

/// Classifies an engine failure into the binding's error taxonomy, keeping
/// the engine's message text.
///
/// Relies on the variants of `bdk::Error`: descriptor, key and miniscript
/// failures concern descriptor text; sled and rusqlite failures come from the
/// store; electrum and esplora failures come from the chain backend; encode,
/// hex and PSBT failures concern encoded text.
#[verifier::external_body]
pub(crate) fn error_from_engine(e: bdk::Error) -> (r: Error)
    ensures
        r.kind != ErrorKind::Signing,
        r.kind != ErrorKind::Range,
{
    let kind = match &e {
        bdk::Error::Descriptor(_) | bdk::Error::Key(_) | bdk::Error::Miniscript(_) => {
            ErrorKind::Descriptor
        },
        bdk::Error::Sled(_) | bdk::Error::Rusqlite(_) => ErrorKind::Database,
        bdk::Error::Electrum(_) | bdk::Error::Esplora(_) => ErrorKind::Blockchain,
        bdk::Error::Encode(_) | bdk::Error::Hex(_) | bdk::Error::Psbt(_)
        | bdk::Error::PsbtParse(_) => ErrorKind::Encoding,
        _ => ErrorKind::Generic,
    };
    Error::new(kind, format!("{:?}", e))
}

} // verus!
