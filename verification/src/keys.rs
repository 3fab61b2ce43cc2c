//! The seed and extended-key helpers.
//!
//! Two free operations: generate a fresh BIP-39 mnemonic and derive the
//! network-scoped extended private key with its fingerprint, and restore the
//! same triple from supplied mnemonic text. Generation draws random entropy,
//! so nothing is promised about which mnemonic comes back; derivation is a
//! pure function of mnemonic, passphrase and network, which is what makes
//! the round-trip law provable.

use vstd::prelude::*;

use bdk::keys::DerivableKey;
use bdk::keys::GeneratableKey;

use crate::engine::engine_network;
use crate::error::{Error, ErrorKind};
use crate::types::{ExtendedKeyInfo, Network, WordCount};

verus! {

/// The canonical form of BIP-39 mnemonic text: `None` when the text is not a
/// valid English mnemonic, and otherwise the same words joined by single
/// spaces.
pub uninterp spec fn mnemonic_canon(s: Seq<char>) -> Option<Seq<char>>;

/// The base58check text of the extended private key that a mnemonic, an
/// optional passphrase and a network derive.
pub uninterp spec fn xprv_text(
    network: Network,
    mnemonic: Seq<char>,
    passphrase: Option<Seq<char>>,
) -> Seq<char>;

/// The 8-hex-character fingerprint of the extended private key written as
/// the given base58check text.
pub uninterp spec fn fingerprint_of(xprv: Seq<char>) -> Seq<char>;

/// Whether deriving the extended private key succeeds for a mnemonic, an
/// optional passphrase and a network: a deterministic function of the three,
/// false only for the seeds whose master key material falls outside the
/// curve order.
pub uninterp spec fn derive_ok(
    network: Network,
    mnemonic: Seq<char>,
    passphrase: Option<Seq<char>>,
) -> bool;

/// The view of optional text.
pub open spec fn view_opt_str(o: &Option<String>) -> Option<Seq<char>> {
    match o {
        Some(s) => Some(s@),
        None => None,
    }
}

/// How many space characters a piece of text holds.
pub open spec fn space_count(s: Seq<char>) -> nat
    decreases s.len(),
{
    if s.len() == 0 {
        0
    } else {
        (if s[0] == ' ' {
            1nat
        } else {
            0nat
        }) + space_count(s.subrange(1, s.len() as int))
    }
}

/// Generates a fresh English mnemonic of the requested length from random
/// entropy.
///
/// Relies on `bdk::keys::bip39::Mnemonic::generate` and the mnemonic's
/// `Display`: whatever entropy is drawn, the result is a valid mnemonic of
/// the requested word count, printed as its words joined by single spaces.
#[verifier::external_body]
fn generate_mnemonic(word_count: &WordCount) -> (r: String)
    ensures
        mnemonic_canon(r@) == Some(r@),
        space_count(r@) + 1 == word_count.spec_words(),
{
    let wc = match word_count {
        WordCount::Words12 => bdk::keys::bip39::WordCount::Words12,
        WordCount::Words15 => bdk::keys::bip39::WordCount::Words15,
        WordCount::Words18 => bdk::keys::bip39::WordCount::Words18,
        WordCount::Words21 => bdk::keys::bip39::WordCount::Words21,
        WordCount::Words24 => bdk::keys::bip39::WordCount::Words24,
    };
    let generated: bdk::keys::GeneratedKey<_, bdk::miniscript::BareCtx> =
        bdk::keys::bip39::Mnemonic::generate((wc, bdk::keys::bip39::Language::English))
            .expect("the drawn entropy always has a valid length");
    generated.into_key().to_string()
}

/// Parses English mnemonic text and prints it back in canonical form.
///
/// Relies on `bdk::keys::bip39::Mnemonic::parse_in` and the mnemonic's
/// `Display`: parsing accepts exactly valid English mnemonics (words from
/// the list, a permitted count, a valid checksum, any whitespace
/// separation), and printing joins the parsed words with single spaces, so a
/// printed mnemonic parses back to itself.
#[verifier::external_body]
fn mnemonic_normalize(mnemonic: &str) -> (r: Result<String, String>)
    ensures
        (r is Ok <==> mnemonic_canon(mnemonic@) is Some),
        r matches Ok(t) ==> mnemonic_canon(mnemonic@) == Some(t@) && mnemonic_canon(t@) == Some(
            t@,
        ),
{
    match bdk::keys::bip39::Mnemonic::parse_in(bdk::keys::bip39::Language::English, mnemonic) {
        Ok(parsed) => Ok(parsed.to_string()),
        Err(e) => Err(format!("{}", e)),
    }
}

/// Derives the network-scoped extended private key and its fingerprint from
/// canonical mnemonic text and an optional passphrase.
///
/// Relies on `bdk::keys::bip39::Mnemonic::parse_in` (which cannot fail on
/// canonical text), `DerivableKey::into_extended_key` for a mnemonic with
/// passphrase (seed derivation, which fails only when the seed's master key
/// material falls outside the curve order), `ExtendedKey::into_xprv` (which
/// always returns the key for a private extended key),
/// `ExtendedPrivKey::fingerprint`, and their `Display` forms: the result
/// depends on the arguments alone, and a fingerprint prints as 8 hex
/// characters.
#[verifier::external_body]
fn derive_xprv(network: &Network, mnemonic_text: &str, password: &Option<String>) -> (r: Result<
    (String, String),
    Error,
>)
    requires
        mnemonic_canon(mnemonic_text@) == Some(mnemonic_text@),
    ensures
        (r is Ok <==> derive_ok(*network, mnemonic_text@, view_opt_str(password))),
        r matches Ok(p) ==> p.0@ == xprv_text(*network, mnemonic_text@, view_opt_str(password))
            && p.1@ == fingerprint_of(p.0@) && p.1@.len() == 8,
        r matches Err(e) ==> e.kind == ErrorKind::Generic,
{
    let mnemonic =
        bdk::keys::bip39::Mnemonic::parse_in(bdk::keys::bip39::Language::English, mnemonic_text)
            .expect("canonical mnemonic text parses");
    let xkey: Result<bdk::keys::ExtendedKey<bdk::miniscript::BareCtx>, _> =
        (mnemonic, password.clone()).into_extended_key();
    let xkey = match xkey {
        Ok(k) => k,
        Err(e) => return Err(Error::new(ErrorKind::Generic, format!("{}", e))),
    };
    let xprv = xkey.into_xprv(engine_network(network)).expect("a mnemonic yields a private key");
    let fingerprint = xprv.fingerprint(&bdk::bitcoin::secp256k1::Secp256k1::new());
    Ok((xprv.to_string(), fingerprint.to_string()))
}

/// Generates a fresh mnemonic of the requested length and derives the
/// network-scoped extended private key and fingerprint from it.
pub fn generate_extended_key(
    network: Network,
    word_count: WordCount,
    password: Option<String>,
) -> (r: Result<ExtendedKeyInfo, Error>)
    ensures
        r matches Ok(e) ==> mnemonic_canon(e.mnemonic@) == Some(e.mnemonic@) && space_count(
            e.mnemonic@,
        ) + 1 == word_count.spec_words() && derive_ok(
            network,
            e.mnemonic@,
            view_opt_str(&password),
        ) && e.xprv@ == xprv_text(
            network,
            e.mnemonic@,
            view_opt_str(&password),
        ) && e.fingerprint@ == fingerprint_of(e.xprv@) && e.fingerprint@.len() == 8,
        r matches Err(e) ==> e.kind == ErrorKind::Generic,
{
    let mnemonic = generate_mnemonic(&word_count);
    match derive_xprv(&network, mnemonic.as_str(), &password) {
        Ok((xprv, fingerprint)) => Ok(ExtendedKeyInfo { mnemonic, xprv, fingerprint }),
        Err(e) => Err(e),
    }
}

/// Restores the extended key triple from supplied mnemonic text. Text that
/// is not a valid English mnemonic fails with an encoding error, and only
/// such text does; the returned mnemonic is the canonical form of the
/// supplied text.
pub fn restore_extended_key(network: Network, mnemonic: String, password: Option<String>) -> (r:
    Result<ExtendedKeyInfo, Error>)
    ensures
        r matches Ok(e) ==> mnemonic_canon(mnemonic@) == Some(e.mnemonic@) && mnemonic_canon(
            e.mnemonic@,
        ) == Some(e.mnemonic@) && e.xprv@ == xprv_text(
            network,
            e.mnemonic@,
            view_opt_str(&password),
        ) && e.fingerprint@ == fingerprint_of(e.xprv@) && e.fingerprint@.len() == 8,
        mnemonic_canon(mnemonic@) matches Some(m) ==> (r is Ok <==> derive_ok(
            network,
            m,
            view_opt_str(&password),
        )),
        mnemonic_canon(mnemonic@) is None ==> (r matches Err(er) && er.kind
            == ErrorKind::Encoding),
        r matches Err(er) ==> (er.kind == ErrorKind::Encoding <==> mnemonic_canon(mnemonic@)
            is None),
{
    match mnemonic_normalize(mnemonic.as_str()) {
        Ok(text) => match derive_xprv(&network, text.as_str(), &password) {
            Ok((xprv, fingerprint)) => Ok(ExtendedKeyInfo { mnemonic: text, xprv, fingerprint }),
            Err(e) => Err(e),
        },
        Err(message) => Err(Error::new(ErrorKind::Encoding, message)),
    }
}

/// Feeding a generated mnemonic back into restoration, with the same network
/// and passphrase, is owed success — restoration succeeds exactly on the
/// inputs whose derivation succeeds, and generation's success shows it did —
/// and yields the same extended private key and the same fingerprint.
pub proof fn lemma_mnemonic_round_trip(
    network: Network,
    passphrase: Option<Seq<char>>,
    e1: ExtendedKeyInfo,
    e2: ExtendedKeyInfo,
)
    requires
        mnemonic_canon(e1.mnemonic@) == Some(e1.mnemonic@),
        derive_ok(network, e1.mnemonic@, passphrase),
        e1.xprv@ == xprv_text(network, e1.mnemonic@, passphrase),
        e1.fingerprint@ == fingerprint_of(e1.xprv@),
        mnemonic_canon(e1.mnemonic@) == Some(e2.mnemonic@),
        e2.xprv@ == xprv_text(network, e2.mnemonic@, passphrase),
        e2.fingerprint@ == fingerprint_of(e2.xprv@),
    ensures
        mnemonic_canon(e1.mnemonic@) matches Some(m) ==> derive_ok(network, m, passphrase),
        e2.mnemonic@ == e1.mnemonic@,
        e2.xprv@ == e1.xprv@,
        e2.fingerprint@ == e1.fingerprint@,
{
}

} // verus!
