//! Principal identifiers.
//!
//! Every account on the ledger — a principal, a token holding, the escrow
//! record's storage slot — is named by a 32-byte identifier. The state
//! machine only ever compares identifiers and copies them into the record,
//! so they are carried here as four 64-bit words.

use vstd::prelude::*;

verus! {

/// A 32-byte ledger identifier, held as four little-endian 64-bit words:
/// word `w0` holds bytes 0..8 of the identifier, `w1` bytes 8..16, and so on.
#[derive(Clone, Copy, Debug, PartialEq, Eq, Structural)]
pub struct Identity {
    pub w0: u64,
    pub w1: u64,
    pub w2: u64,
    pub w3: u64,
}

impl Identity {
    /// The identifier's four words, in order.
    pub open spec fn words(self) -> (u64, u64, u64, u64) {
        (self.w0, self.w1, self.w2, self.w3)
    }

    /// The identifier with the given four words.
    pub open spec fn from_words(ws: (u64, u64, u64, u64)) -> Identity {
        Identity { w0: ws.0, w1: ws.1, w2: ws.2, w3: ws.3 }
    }

    pub fn new(w0: u64, w1: u64, w2: u64, w3: u64) -> (r: Identity)
        ensures
            r == (Identity { w0, w1, w2, w3 }),
    {
        Identity { w0, w1, w2, w3 }
    }
}

} // verus!
