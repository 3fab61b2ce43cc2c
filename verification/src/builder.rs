//! The immutable, fluent transaction builder.
//!
//! A `TxBuilder` accumulates transaction-construction parameters purely as
//! data. Each configuration method returns a fresh builder with one field
//! changed and leaves the receiver untouched, which preserves value semantics
//! for callers that share builder handles. The builder holds no reference to
//! any wallet; the parameters are applied in one shot by [`TxBuilder::build`].

use vstd::prelude::*;

use std::str::FromStr;
use std::sync::Mutex;

use bdk::blockchain::AnyBlockchain;
use bdk::database::AnyDatabase;
use bdk::FeeRate;

use crate::engine::error_from_engine;
use crate::error::{Error, ErrorKind};
use crate::psbt::{psbt_canon, PartiallySignedBitcoinTransaction};
use crate::types::{clone_opt_string, ScriptAmount};
use crate::wallet::Wallet;

verus! {

/// The script-pubkey bytes that an address in text form decodes to: `None`
/// when the text is not an address.
pub uninterp spec fn script_of(address: Seq<char>) -> Option<Seq<u8>>;

/// Decodes address text to its script-pubkey bytes.
///
/// Relies on `bitcoin::Address::from_str` and `script_pubkey`: the script is
/// a function of the address text alone, for any network.
#[verifier::external_body]
fn address_script(address: &str) -> (r: Option<Vec<u8>>)
    ensures
        (r is Some <==> script_of(address@) is Some),
        r matches Some(b) ==> script_of(address@) == Some(b@),
{
    match bdk::bitcoin::Address::from_str(address) {
        Ok(a) => Some(a.assume_checked().script_pubkey().to_bytes()),
        Err(_) => None,
    }
}

/// The message reported for address text that does not decode.
pub open spec fn invalid_address_message(address: Seq<char>) -> Seq<char> {
    "invalid address "@ + address
}

/// Decodes address text to its script-pubkey bytes. Fails with an encoding
/// error, whose message names the offending address, exactly when the text
/// is not an address.
pub fn to_script_pubkey(address: &str) -> (r: Result<Vec<u8>, Error>)
    ensures
        (r is Ok <==> script_of(address@) is Some),
        r matches Ok(b) ==> script_of(address@) == Some(b@),
        r matches Err(e) ==> e.kind == ErrorKind::Encoding && e.message@
            == invalid_address_message(address@),
{
    match address_script(address) {
        Some(bytes) => Ok(bytes),
        None => {
            let mut message = "invalid address ".to_string();
            message.append(address);
            Err(Error::new(ErrorKind::Encoding, message))
        },
    }
}

/// The mathematical content of a builder: what `build` will apply.
#[verifier::ext_equal]
pub ghost struct BuilderModel {
    /// The recipients in insertion order: address text and amount.
    pub recipients: Seq<(Seq<char>, u64)>,
    /// The fee rate to ask the engine for, if one was chosen.
    pub fee_rate: Option<FeeRate>,
    /// Whether the wallet is to be drained.
    pub drain_wallet: bool,
    /// The address that receives the remainder, if one was chosen.
    pub drain_to: Option<Seq<char>>,
}

/// The builder a fresh `TxBuilder` denotes: no recipients, no fee rate, no
/// draining.
pub open spec fn initial_model() -> BuilderModel {
    BuilderModel {
        recipients: Seq::empty(),
        fee_rate: None,
        drain_wallet: false,
        drain_to: None,
    }
}

/// One configuration call on a builder.
pub ghost enum BuilderStep {
    /// Append one recipient: address text and amount.
    AddRecipient(Seq<char>, u64),
    /// Choose the fee rate.
    FeeRate(FeeRate),
    /// Drain the wallet.
    DrainWallet,
    /// Send the remainder to the given address.
    DrainTo(Seq<char>),
}

/// The builder that one configuration call yields.
pub open spec fn apply_step(m: BuilderModel, s: BuilderStep) -> BuilderModel {
    match s {
        BuilderStep::AddRecipient(address, amount) => BuilderModel {
            recipients: m.recipients.push((address, amount)),
            ..m
        },
        BuilderStep::FeeRate(rate) => BuilderModel { fee_rate: Some(rate), ..m },
        BuilderStep::DrainWallet => BuilderModel { drain_wallet: true, ..m },
        BuilderStep::DrainTo(address) => BuilderModel { drain_to: Some(address), ..m },
    }
}

/// The builder that a sequence of configuration calls yields, applied in
/// order.
pub open spec fn apply_steps(m: BuilderModel, steps: Seq<BuilderStep>) -> BuilderModel
    decreases steps.len(),
{
    if steps.len() == 0 {
        m
    } else {
        apply_step(apply_steps(m, steps.drop_last()), steps.last())
    }
}

/// All recipients added by a sequence of calls, in order.
pub open spec fn added_recipients(steps: Seq<BuilderStep>) -> Seq<(Seq<char>, u64)>
    decreases steps.len(),
{
    if steps.len() == 0 {
        Seq::empty()
    } else {
        match steps.last() {
            BuilderStep::AddRecipient(address, amount) => added_recipients(
                steps.drop_last(),
            ).push((address, amount)),
            _ => added_recipients(steps.drop_last()),
        }
    }
}

/// The last fee rate a sequence of calls chose, if any.
pub open spec fn last_fee_rate(steps: Seq<BuilderStep>) -> Option<FeeRate>
    decreases steps.len(),
{
    if steps.len() == 0 {
        None
    } else {
        match steps.last() {
            BuilderStep::FeeRate(rate) => Some(rate),
            _ => last_fee_rate(steps.drop_last()),
        }
    }
}

/// Whether any call of a sequence drained the wallet.
pub open spec fn any_drain_wallet(steps: Seq<BuilderStep>) -> bool
    decreases steps.len(),
{
    if steps.len() == 0 {
        false
    } else {
        match steps.last() {
            BuilderStep::DrainWallet => true,
            _ => any_drain_wallet(steps.drop_last()),
        }
    }
}

/// The last drain address a sequence of calls chose, if any.
pub open spec fn last_drain_to(steps: Seq<BuilderStep>) -> Option<Seq<char>>
    decreases steps.len(),
{
    if steps.len() == 0 {
        None
    } else {
        match steps.last() {
            BuilderStep::DrainTo(address) => Some(address),
            _ => last_drain_to(steps.drop_last()),
        }
    }
}

/// A builder is exactly the accumulation of its configuration calls in order:
/// the recipients are all added recipients in insertion order, the fee rate
/// and the drain address are the last ones chosen, and the wallet is drained
/// exactly when some call asked for it.
pub proof fn lemma_builder_accumulates(steps: Seq<BuilderStep>)
    ensures
        apply_steps(initial_model(), steps).recipients == added_recipients(steps),
        apply_steps(initial_model(), steps).fee_rate == last_fee_rate(steps),
        apply_steps(initial_model(), steps).drain_wallet == any_drain_wallet(steps),
        apply_steps(initial_model(), steps).drain_to == last_drain_to(steps),
    decreases steps.len(),
{
    if steps.len() == 0 {
        assert(apply_steps(initial_model(), steps).recipients =~= added_recipients(steps));
    } else {
        lemma_builder_accumulates(steps.drop_last());
        assert(apply_steps(initial_model(), steps).recipients =~= added_recipients(steps));
    }
}

/// An immutable accumulator of transaction parameters.
pub struct TxBuilder {
    recipients: Vec<(String, u64)>,
    fee_rate: Option<FeeRate>,
    drain_wallet: bool,
    drain_to: Option<String>,
}

impl View for TxBuilder {
    type V = BuilderModel;

    closed spec fn view(&self) -> BuilderModel {
        BuilderModel {
            recipients: Seq::new(
                self.recipients@.len(),
                |i: int| (self.recipients@[i].0@, self.recipients@[i].1),
            ),
            fee_rate: self.fee_rate,
            drain_wallet: self.drain_wallet,
            drain_to: match self.drain_to {
                Some(ref a) => Some(a@),
                None => None,
            },
        }
    }
}

/// Copies a recipient list, keeping text and amounts.
fn clone_recipients(v: &Vec<(String, u64)>) -> (r: Vec<(String, u64)>)
    ensures
        r@.len() == v@.len(),
        forall|i: int|
            0 <= i < v@.len() ==> #[trigger] r@[i].0@ == v@[i].0@ && r@[i].1 == v@[i].1,
{
    let mut out: Vec<(String, u64)> = Vec::new();
    let mut i: usize = 0;
    while i < v.len()
        invariant
            i <= v@.len(),
            out@.len() == i,
            forall|j: int|
                0 <= j < i ==> #[trigger] out@[j].0@ == v@[j].0@ && out@[j].1 == v@[j].1,
        decreases v@.len() - i,
    {
        let pair = &v[i];
        out.push((pair.0.clone(), pair.1));
        i = i + 1;
    }
    out
}

impl TxBuilder {
    /// A fresh builder: no recipients, no fee rate, no draining.
    pub fn new() -> (r: TxBuilder)
        ensures
            r@ == initial_model(),
    {
        let r = TxBuilder {
            recipients: Vec::new(),
            fee_rate: None,
            drain_wallet: false,
            drain_to: None,
        };
        proof {
            assert(r@ =~= initial_model());
        }
        r
    }

    /// A copy of this builder with one more recipient appended; the receiver
    /// is unchanged.
    pub fn add_recipient(&self, address: String, amount: u64) -> (r: TxBuilder)
        ensures
            r@ == apply_step(self@, BuilderStep::AddRecipient(address@, amount)),
            r@.recipients == self@.recipients.push((address@, amount)),
            r@.fee_rate == self@.fee_rate,
            r@.drain_wallet == self@.drain_wallet,
            r@.drain_to == self@.drain_to,
    {
        let mut recipients = clone_recipients(&self.recipients);
        recipients.push((address, amount));
        let r = TxBuilder {
            recipients,
            fee_rate: self.fee_rate,
            drain_wallet: self.drain_wallet,
            drain_to: clone_opt_string(&self.drain_to),
        };
        proof {
            assert(r@.recipients =~= self@.recipients.push((address@, amount)));
            assert(r@ =~= apply_step(self@, BuilderStep::AddRecipient(address@, amount)));
        }
        r
    }

    /// A copy of this builder with the fee rate set; the receiver is
    /// unchanged.
    pub fn fee_rate(&self, sat_per_vb: FeeRate) -> (r: TxBuilder)
        ensures
            r@ == apply_step(self@, BuilderStep::FeeRate(sat_per_vb)),
            r@.recipients == self@.recipients,
            r@.fee_rate == Some(sat_per_vb),
            r@.drain_wallet == self@.drain_wallet,
            r@.drain_to == self@.drain_to,
    {
        let r = TxBuilder {
            recipients: clone_recipients(&self.recipients),
            fee_rate: Some(sat_per_vb),
            drain_wallet: self.drain_wallet,
            drain_to: clone_opt_string(&self.drain_to),
        };
        proof {
            assert(r@.recipients =~= self@.recipients);
            assert(r@ =~= apply_step(self@, BuilderStep::FeeRate(sat_per_vb)));
        }
        r
    }

    /// A copy of this builder that drains the wallet; the receiver is
    /// unchanged.
    pub fn drain_wallet(&self) -> (r: TxBuilder)
        ensures
            r@ == apply_step(self@, BuilderStep::DrainWallet),
            r@.recipients == self@.recipients,
            r@.fee_rate == self@.fee_rate,
            r@.drain_wallet == true,
            r@.drain_to == self@.drain_to,
    {
        let r = TxBuilder {
            recipients: clone_recipients(&self.recipients),
            fee_rate: self.fee_rate,
            drain_wallet: true,
            drain_to: clone_opt_string(&self.drain_to),
        };
        proof {
            assert(r@.recipients =~= self@.recipients);
            assert(r@ =~= apply_step(self@, BuilderStep::DrainWallet));
        }
        r
    }

    /// A copy of this builder that sends the remainder to the given address;
    /// the receiver is unchanged.
    pub fn drain_to(&self, address: String) -> (r: TxBuilder)
        ensures
            r@ == apply_step(self@, BuilderStep::DrainTo(address@)),
            r@.recipients == self@.recipients,
            r@.fee_rate == self@.fee_rate,
            r@.drain_wallet == self@.drain_wallet,
            r@.drain_to == Some(address@),
    {
        let r = TxBuilder {
            recipients: clone_recipients(&self.recipients),
            fee_rate: self.fee_rate,
            drain_wallet: self.drain_wallet,
            drain_to: Some(address),
        };
        proof {
            assert(r@.recipients =~= self@.recipients);
            assert(r@ =~= apply_step(self@, BuilderStep::DrainTo(address@)));
        }
        r
    }

    /// The accumulated recipients, in insertion order.
    pub fn recipients(&self) -> (r: Vec<(String, u64)>)
        ensures
            r@.len() == self@.recipients.len(),
            forall|i: int|
                0 <= i < r@.len() ==> #[trigger] r@[i].0@ == self@.recipients[i].0 && r@[i].1
                    == self@.recipients[i].1,
    {
        clone_recipients(&self.recipients)
    }

    /// The chosen fee rate, if any.
    pub fn get_fee_rate(&self) -> (r: Option<FeeRate>)
        ensures
            r == self@.fee_rate,
    {
        self.fee_rate
    }

    /// Whether the wallet is to be drained.
    pub fn drains_wallet(&self) -> (r: bool)
        ensures
            r == self@.drain_wallet,
    {
        self.drain_wallet
    }

    /// The chosen drain address, if any.
    pub fn get_drain_to(&self) -> (r: Option<String>)
        ensures
            (r is Some <==> self@.drain_to is Some),
            r matches Some(a) ==> self@.drain_to == Some(a@),
    {
        clone_opt_string(&self.drain_to)
    }
}

/// The first recipient address, in insertion order, that does not decode to
/// a script.
pub open spec fn first_invalid_recipient(recipients: Seq<(Seq<char>, u64)>) -> Option<Seq<char>>
    decreases recipients.len(),
{
    if recipients.len() == 0 {
        None
    } else if script_of(recipients[0].0) is None {
        Some(recipients[0].0)
    } else {
        first_invalid_recipient(recipients.drop_first())
    }
}

/// The first address a builder holds that does not decode to a script:
/// recipients in insertion order, then the drain address.
pub open spec fn first_invalid_address(m: BuilderModel) -> Option<Seq<char>> {
    match first_invalid_recipient(m.recipients) {
        Some(a) => Some(a),
        None => match m.drain_to {
            Some(a) => if script_of(a) is None {
                Some(a)
            } else {
                None
            },
            None => None,
        },
    }
}

proof fn lemma_first_invalid_at(recipients: Seq<(Seq<char>, u64)>, i: int)
    requires
        0 <= i < recipients.len(),
        forall|j: int| 0 <= j < i ==> script_of(#[trigger] recipients[j].0) is Some,
        script_of(recipients[i].0) is None,
    ensures
        first_invalid_recipient(recipients) == Some(recipients[i].0),
    decreases i,
{
    if i > 0 {
        let rest = recipients.drop_first();
        assert forall|j: int| 0 <= j < i - 1 implies script_of(#[trigger] rest[j].0) is Some by {
            assert(rest[j] == recipients[j + 1]);
        }
        assert(rest[i - 1] == recipients[i]);
        lemma_first_invalid_at(rest, i - 1);
    }
}

proof fn lemma_no_invalid_recipient(recipients: Seq<(Seq<char>, u64)>)
    requires
        forall|j: int| 0 <= j < recipients.len() ==> script_of(#[trigger] recipients[j].0) is Some,
    ensures
        first_invalid_recipient(recipients) is None,
    decreases recipients.len(),
{
    if recipients.len() > 0 {
        let rest = recipients.drop_first();
        assert forall|j: int| 0 <= j < rest.len() implies script_of(
            #[trigger] rest[j].0,
        ) is Some by {
            assert(rest[j] == recipients[j + 1]);
        }
        lemma_no_invalid_recipient(rest);
    }
}

/// Applies the accumulated parameters to the engine's transaction builder
/// under the wallet lock and finishes it.
///
/// Relies on the engine's `build_tx`, `add_recipient`, `fee_rate`,
/// `drain_wallet`, `drain_to` and `finish`: recipients are applied in order,
/// scripts are rebuilt from their bytes, the finished partially signed
/// transaction prints as canonical base64 text, and a build given no
/// recipient, no wallet draining and no drain address never succeeds — the
/// engine has nobody to pay and reports its no-recipients error.
#[verifier::external_body]
fn engine_build_tx(
    inner: &Mutex<(bdk::Wallet<AnyDatabase>, AnyBlockchain)>,
    recipients: &Vec<ScriptAmount>,
    fee_rate: Option<FeeRate>,
    drain_wallet: bool,
    drain_to: &Option<Vec<u8>>,
) -> (r: Result<String, bdk::Error>)
    ensures
        r matches Ok(t) ==> psbt_canon(t@) == Some(t@),
        recipients@.len() == 0 && !drain_wallet && drain_to is None ==> r is Err,
{
    let guard = inner.lock().expect("wallet lock");
    let mut builder = guard.0.build_tx();
    for sa in recipients.iter() {
        builder.add_recipient(bdk::bitcoin::ScriptBuf::from_bytes(sa.script.clone()), sa.amount);
    }
    if let Some(rate) = fee_rate {
        builder.fee_rate(rate);
    }
    if drain_wallet {
        builder.drain_wallet();
    }
    if let Some(script) = drain_to {
        builder.drain_to(bdk::bitcoin::ScriptBuf::from_bytes(script.clone()));
    }
    Ok(builder.finish()?.0.to_string())
}

impl TxBuilder {
    /// Applies the accumulated parameters to the given wallet in one shot
    /// and yields a fresh partially signed transaction. Address text is
    /// decoded only now: the first address that does not decode — the
    /// recipients in insertion order, then the drain address — aborts the
    /// build with an encoding error naming it. Everything else, including a
    /// builder with nothing to spend, is the engine's decision and
    /// propagates; a builder with no recipient, no wallet draining and no
    /// drain address always fails.
    pub fn build(&self, wallet: &Wallet) -> (r: Result<
        PartiallySignedBitcoinTransaction,
        Error,
    >)
        ensures
            first_invalid_address(self@) matches Some(a) ==> (r matches Err(e) && e.kind
                == ErrorKind::Encoding && e.message@ == invalid_address_message(a)),
            r is Ok ==> first_invalid_address(self@) is None,
            self@.recipients.len() == 0 && !self@.drain_wallet && self@.drain_to is None ==> r
                is Err,
    {
        let mut scripts: Vec<ScriptAmount> = Vec::new();
        let mut i: usize = 0;
        while i < self.recipients.len()
            invariant
                i <= self.recipients@.len(),
                scripts@.len() == i,
                forall|j: int|
                    0 <= j < i ==> script_of(#[trigger] self@.recipients[j].0) is Some,
            decreases self.recipients@.len() - i,
        {
            let recipient = &self.recipients[i];
            match to_script_pubkey(recipient.0.as_str()) {
                Ok(script) => {
                    scripts.push(ScriptAmount { script, amount: recipient.1 });
                },
                Err(e) => {
                    proof {
                        lemma_first_invalid_at(self@.recipients, i as int);
                    }
                    return Err(e);
                },
            }
            i = i + 1;
        }
        proof {
            lemma_no_invalid_recipient(self@.recipients);
        }
        let drain_script: Option<Vec<u8>> = match &self.drain_to {
            Some(address) => match to_script_pubkey(address.as_str()) {
                Ok(script) => Some(script),
                Err(e) => {
                    return Err(e);
                },
            },
            None => None,
        };
        match engine_build_tx(
            wallet.lock(),
            &scripts,
            self.fee_rate,
            self.drain_wallet,
            &drain_script,
        ) {
            Ok(text) => Ok(PartiallySignedBitcoinTransaction::from_canonical_text(text)),
            Err(e) => Err(error_from_engine(e)),
        }
    }
}

} // verus!
