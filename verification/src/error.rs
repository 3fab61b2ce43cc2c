//! The binding's flat error taxonomy.
//!
//! Every fallible operation of this crate reports one categorical kind and a
//! human-readable message. Engine-originated failures keep their message text
//! and are classified by where they arose; the two conditions this layer
//! decides itself — integer narrowing of `stop_gap` and the signing outcome —
//! get their own kinds.

use vstd::prelude::*;

verus! {

/// The categorical kind of a failure.
#[derive(Clone, Copy, Debug, PartialEq, Eq, Structural)]
pub enum ErrorKind {
    /// Invalid descriptor or derivation-path string.
    Descriptor,
    /// Underlying store initialisation or I/O failure.
    Database,
    /// Connection, timeout, or protocol failure of the chain backend.
    Blockchain,
    /// Bad base64, base58, hex, or mnemonic text.
    Encoding,
    /// The engine could not complete all inputs with the wallet's keys.
    Signing,
    /// Integer narrowing failed: a supplied value exceeds the platform word.
    Range,
    /// Any other engine-originated condition.
    Generic,
}

/// A failure: a categorical kind together with its message text.
#[derive(Clone, Debug)]
pub struct Error {
    pub kind: ErrorKind,
    pub message: String,
}

impl Error {
    /// Builds an error of the given kind carrying the given message.
    pub fn new(kind: ErrorKind, message: String) -> (r: Error)
        ensures
            r.kind == kind,
            r.message@ == message@,
    {
        Error { kind, message }
    }

    /// The categorical kind of this error.
    pub fn kind(&self) -> (r: ErrorKind)
        ensures
            r == self.kind,
    {
        self.kind
    }

    /// The message text of this error.
    pub fn message(&self) -> (r: &str)
        ensures
            r@ == self.message@,
    {
        self.message.as_str()
    }
}

} // verus!
