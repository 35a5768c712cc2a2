use vstd::prelude::*;

verus! {

/// The operation kind named by a pubdata failure.
#[derive(Clone, Copy, Debug, PartialEq, Eq, Structural)]
pub enum OpKind {
    Deposit,
    FullExit,
}

/// Whether a malformed pubdata buffer was too short for its layout or had
/// trailing bytes left over.
#[derive(Clone, Copy, Debug, PartialEq, Eq, Structural)]
pub enum PubdataFault {
    TooShort,
    InputTooBig,
}

/// A typed failure of envelope or pubdata decoding.
#[derive(Clone, Debug, PartialEq, Eq)]
pub enum OpError {
    /// The log payload does not match the expected event schema; carries the
    /// underlying decoder's diagnostic.
    EnvelopeDecode(String),
    /// The op-type byte has no registered codec; carries the unrecognized byte.
    UnsupportedOperationType(u8),
    /// The pubdata length does not exactly match the layout of the resolved
    /// kind.
    MalformedPubdata(OpKind, PubdataFault),
    /// A 256-bit envelope integer does not fit the narrower field it feeds.
    IntegerRange,
    /// The source log lacks a transaction hash.
    MissingTransactionHash,
}

} // verus!
