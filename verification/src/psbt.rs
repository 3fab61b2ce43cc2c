//! The partially signed transaction handle.
//!
//! The handle owns the transaction in its canonical base64 text form: the
//! form the engine itself prints. Parsing and serialization are the engine's;
//! the handle guarantees that whatever text it holds decodes to a
//! transaction and re-serializes to exactly that text, so serialization
//! round-trips by construction.

use vstd::prelude::*;

use std::str::FromStr;

use crate::error::{Error, ErrorKind};

verus! {

/// The canonical text of the partially signed transaction that a base64
/// string decodes to: `None` when the string does not decode, and otherwise
/// the text the engine prints for the decoded value.
pub uninterp spec fn psbt_canon(s: Seq<char>) -> Option<Seq<char>>;

/// Decodes base64 text to a partially signed transaction and prints it back
/// in canonical form.
///
/// Relies on `bitcoin::psbt::PartiallySignedTransaction::from_str` (base64
/// decoding plus deserialization) and its `Display` (serialization plus
/// base64): both are functions of the text alone, and a printed value parses
/// back to itself and prints the same text again.
#[verifier::external_body]
fn psbt_normalize(psbt_base64: &str) -> (r: Result<String, String>)
    ensures
        (r is Ok <==> psbt_canon(psbt_base64@) is Some),
        r matches Ok(t) ==> psbt_canon(psbt_base64@) == Some(t@) && psbt_canon(t@) == Some(t@),
{
    match bdk::bitcoin::psbt::PartiallySignedTransaction::from_str(psbt_base64) {
        Ok(psbt) => Ok(psbt.to_string()),
        Err(e) => Err(format!("{}", e)),
    }
}

/// An owned, shareable handle on one partially signed transaction.
#[derive(Debug)]
pub struct PartiallySignedBitcoinTransaction {
    text: String,
}

impl View for PartiallySignedBitcoinTransaction {
    type V = Seq<char>;

    closed spec fn view(&self) -> Seq<char> {
        self.text@
    }
}

impl PartiallySignedBitcoinTransaction {
    /// The text this handle holds decodes to a transaction and is canonical:
    /// re-serializing the decoded value prints exactly this text.
    #[verifier::type_invariant]
    spec fn well_formed(self) -> bool {
        psbt_canon(self.text@) == Some(self.text@)
    }

    /// Parses a base64-encoded partially signed transaction. Succeeds on
    /// exactly the strings the engine decodes; the handle then holds the
    /// canonical form of the decoded value.
    pub fn new(psbt_base64: String) -> (r: Result<Self, Error>)
        ensures
            (r is Ok <==> psbt_canon(psbt_base64@) is Some),
            r matches Ok(p) ==> psbt_canon(psbt_base64@) == Some(p@),
            r matches Err(e) ==> e.kind == ErrorKind::Encoding,
    {
        match psbt_normalize(psbt_base64.as_str()) {
            Ok(text) => Ok(PartiallySignedBitcoinTransaction { text }),
            Err(message) => Err(Error::new(ErrorKind::Encoding, message)),
        }
    }

    /// The canonical base64 text of the transaction this handle holds. The
    /// returned text parses back to a handle with the same content:
    /// serialization round-trips.
    pub fn serialize(&self) -> (r: String)
        ensures
            r@ == self@,
            psbt_canon(r@) == Some(r@),
    {
        proof {
            use_type_invariant(self);
        }
        self.text.clone()
    }

    /// Wraps text that is already canonical, as the engine prints it.
    pub(crate) fn from_canonical_text(text: String) -> (r: Self)
        requires
            psbt_canon(text@) == Some(text@),
        ensures
            r@ == text@,
    {
        PartiallySignedBitcoinTransaction { text }
    }

    /// Replaces the held text with new canonical text.
    pub(crate) fn set_canonical_text(&mut self, text: String)
        requires
            psbt_canon(text@) == Some(text@),
        ensures
            final(self)@ == text@,
    {
        self.text = text;
    }

    /// The held text, for the trusted engine calls.
    pub(crate) fn canonical_text(&self) -> (r: &str)
        ensures
            r@ == self@,
            psbt_canon(r@) == Some(r@),
    {
        proof {
            use_type_invariant(self);
        }
        self.text.as_str()
    }
}

} // verus!
